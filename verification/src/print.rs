//! Value-print dispatch: one rendering per supported field kind.
//!
//! `PbPrint` is implemented once per kind; the kind set is closed, so a
//! missing rendering is a compile-time omission, never a runtime case.
//! Integers render in canonical decimal, booleans as their literals, text
//! verbatim, byte sequences through the byte-quoting algorithm, and the
//! timestamp through its own canonical message text. `print` pushes one
//! value's rendering through a sink and surfaces only the sink's failure.

use crate::bytes_ext::{bytes_content, bytes_to_vec};
use crate::chars::Chars;
use crate::num::{dec_str, i32_text, i64_text, int_str, u32_text, u64_text};
use crate::quote::{quote_bytes, quote_text};
use crate::sink::{Sink, SinkError};
use crate::timestamp::{timestamp_text, Timestamp};
use vstd::prelude::*;

verus! {

/// The canonical text of a boolean value.
pub open spec fn bool_text(b: bool) -> Seq<char> {
    if b {
        seq!['t', 'r', 'u', 'e']
    } else {
        seq!['f', 'a', 'l', 's', 'e']
    }
}

/// Formats field values for printing.
///
/// Each supported kind pins its exact canonical text down as `pb_text`, and
/// `fmt` produces that text. Rendering is a pure read of the value:
/// deterministic, total, and free of any failure of its own.
pub trait PbPrint {
    /// The canonical text of this value.
    spec fn pb_text(&self) -> Seq<char>;

    /// Renders the value into a fresh string.
    fn fmt(&self) -> (r: String)
        ensures
            r@ == self.pb_text(),
    ;
}

/// Prints one value through the sink: renders the value's canonical text and
/// hands it to the sink in a single append. Success and failure are the
/// sink's alone; a failure is returned unchanged, and nothing runs after it.
pub fn print<T: PbPrint + ?Sized, S: Sink>(value: &T, sink: &mut S) -> (r: Result<(), SinkError>)
    ensures
        r is Ok <==> old(sink).can_append(value.pb_text()),
        r is Ok ==> final(sink).contents() == old(sink).contents() + value.pb_text(),
{
    let text = value.fmt();
    sink.append(text.as_str())
}

impl PbPrint for u32 {
    open spec fn pb_text(&self) -> Seq<char> {
        dec_str(*self as int)
    }

    fn fmt(&self) -> (r: String) {
        u32_text(*self)
    }
}

impl PbPrint for u64 {
    open spec fn pb_text(&self) -> Seq<char> {
        dec_str(*self as int)
    }

    fn fmt(&self) -> (r: String) {
        u64_text(*self)
    }
}

impl PbPrint for i32 {
    open spec fn pb_text(&self) -> Seq<char> {
        int_str(*self as int)
    }

    fn fmt(&self) -> (r: String) {
        i32_text(*self)
    }
}

impl PbPrint for i64 {
    open spec fn pb_text(&self) -> Seq<char> {
        int_str(*self as int)
    }

    fn fmt(&self) -> (r: String) {
        i64_text(*self)
    }
}

impl PbPrint for bool {
    open spec fn pb_text(&self) -> Seq<char> {
        bool_text(*self)
    }

    fn fmt(&self) -> (r: String) {
        if *self {
            let r = String::from_str("true");
            proof {
                reveal_strlit("true");
                assert(r@ =~= bool_text(true));
            }
            r
        } else {
            let r = String::from_str("false");
            proof {
                reveal_strlit("false");
                assert(r@ =~= bool_text(false));
            }
            r
        }
    }
}

impl PbPrint for str {
    open spec fn pb_text(&self) -> Seq<char> {
        self@
    }

    fn fmt(&self) -> (r: String) {
        self.to_owned()
    }
}

impl PbPrint for String {
    open spec fn pb_text(&self) -> Seq<char> {
        self@
    }

    fn fmt(&self) -> (r: String) {
        self.clone()
    }
}

impl PbPrint for [u8] {
    open spec fn pb_text(&self) -> Seq<char> {
        quote_text(self@)
    }

    fn fmt(&self) -> (r: String) {
        quote_bytes(self)
    }
}

impl PbPrint for Vec<u8> {
    open spec fn pb_text(&self) -> Seq<char> {
        quote_text(self@)
    }

    fn fmt(&self) -> (r: String) {
        quote_bytes(self.as_slice())
    }
}

impl PbPrint for Chars {
    open spec fn pb_text(&self) -> Seq<char> {
        self.text@
    }

    fn fmt(&self) -> (r: String) {
        self.text.clone()
    }
}

impl PbPrint for bytes::Bytes {
    open spec fn pb_text(&self) -> Seq<char> {
        quote_text(bytes_content(*self))
    }

    fn fmt(&self) -> (r: String) {
        let v = bytes_to_vec(self);
        quote_bytes(v.as_slice())
    }
}

impl PbPrint for Timestamp {
    open spec fn pb_text(&self) -> Seq<char> {
        timestamp_text(self.seconds as int, self.nanos as int)
    }

    fn fmt(&self) -> (r: String) {
        if self.seconds == 0 && self.nanos == 0 {
            String::new()
        } else if self.nanos == 0 {
            let mut out = String::from_str("seconds: ");
            let digits = i64_text(self.seconds);
            out.append(digits.as_str());
            out
        } else if self.seconds == 0 {
            let mut out = String::from_str("nanos: ");
            let digits = i32_text(self.nanos);
            out.append(digits.as_str());
            out
        } else {
            let mut out = String::from_str("seconds: ");
            let digits = i64_text(self.seconds);
            out.append(digits.as_str());
            out.append(" nanos: ");
            let more = i32_text(self.nanos);
            out.append(more.as_str());
            proof {
                assert(out@ =~= timestamp_text(self.seconds as int, self.nanos as int));
            }
            out
        }
    }
}

/// Dispatch on a byte-sequence value yields exactly the byte-quoting
/// algorithm's output on those bytes.
pub proof fn lemma_byte_sequence_dispatch(v: Vec<u8>)
    ensures
        v.pb_text() == quote_text(v@),
{
}

/// Dispatch on a shared byte buffer yields exactly the byte-quoting
/// algorithm's output on the bytes the buffer holds.
pub proof fn lemma_shared_buffer_dispatch(b: bytes::Bytes)
    ensures
        b.pb_text() == quote_text(bytes_content(b)),
{
}

} // verus!
