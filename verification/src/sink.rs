//! The output sink: an abstract append-only text destination.
//!
//! A sink decides for itself, from its current state, whether it accepts a
//! given append; when it does, the appended text lands at the end of what it
//! has collected. Printing never retains a sink beyond the call it was handed
//! to, and a rejected write surfaces as the one error this crate knows.

use vstd::prelude::*;

verus! {

/// The one failure this crate can surface: the output sink rejected a write.
#[derive(Clone, Copy, Debug, PartialEq, Eq, Structural)]
pub struct SinkError;

/// An append-only text destination.
pub trait Sink {
    /// The text the sink has accepted so far.
    spec fn contents(&self) -> Seq<char>;

    /// Whether the sink, in its current state, accepts an append of the given
    /// text.
    spec fn can_append(&self, text: Seq<char>) -> bool;

    /// Appends text to the sink. Exactly the accepted appends succeed, and a
    /// successful append puts the text at the end of the sink's contents; a
    /// failed append may leave partial state behind, which is never rolled
    /// back.
    fn append(&mut self, text: &str) -> (r: Result<(), SinkError>)
        ensures
            r is Ok <==> old(self).can_append(text@),
            r is Ok ==> final(self).contents() == old(self).contents() + text@,
    ;
}

/// A growable in-memory sink that accepts every append.
pub struct StringSink {
    /// The text collected so far.
    pub buf: String,
}

impl StringSink {
    /// Creates an empty sink.
    pub fn new() -> (r: StringSink)
        ensures
            r.contents() == Seq::<char>::empty(),
    {
        StringSink { buf: String::new() }
    }

    /// Hands the collected text out.
    pub fn into_string(self) -> (r: String)
        ensures
            r@ == self.contents(),
    {
        self.buf
    }
}

impl Sink for StringSink {
    open spec fn contents(&self) -> Seq<char> {
        self.buf@
    }

    open spec fn can_append(&self, text: Seq<char>) -> bool {
        true
    }

    fn append(&mut self, text: &str) -> (r: Result<(), SinkError>) {
        self.buf.append(text);
        Ok(())
    }
}

/// A sink that accepts a fixed number of appends and then fails every further
/// one, for exercising how printing behaves when the destination gives out.
pub struct LimitedSink {
    /// The text collected so far.
    pub buf: String,
    /// How many more appends the sink accepts.
    pub left: usize,
}

impl LimitedSink {
    /// Creates an empty sink that accepts the given number of appends.
    pub fn new(left: usize) -> (r: LimitedSink)
        ensures
            r.contents() == Seq::<char>::empty(),
            r.left == left,
    {
        LimitedSink { buf: String::new(), left }
    }

    /// Hands the collected text out.
    pub fn into_string(self) -> (r: String)
        ensures
            r@ == self.contents(),
    {
        self.buf
    }
}

impl Sink for LimitedSink {
    open spec fn contents(&self) -> Seq<char> {
        self.buf@
    }

    open spec fn can_append(&self, text: Seq<char>) -> bool {
        self.left > 0
    }

    fn append(&mut self, text: &str) -> (r: Result<(), SinkError>) {
        if self.left == 0 {
            return Err(SinkError);
        }
        self.left = self.left - 1;
        self.buf.append(text);
        Ok(())
    }
}

} // verus!
