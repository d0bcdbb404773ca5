//! The shared byte buffer of the `bytes` crate, behind trusted declarations.
//!
//! A `bytes::Bytes` value is opaque to the verifier; what it holds is named
//! by `bytes_content`, and the one trusted wrapper copies those bytes into a
//! plain vector for the verified quoting code to work on.

use vstd::prelude::*;

verus! {

/// Declares `bytes::Bytes` so that it can stand in signatures; its values are
/// opaque to the verifier.
#[verifier::external_type_specification]
#[verifier::external_body]
pub struct ExBytes(bytes::Bytes);

/// The bytes a shared buffer holds, in order.
pub uninterp spec fn bytes_content(b: bytes::Bytes) -> Seq<u8>;

/// Relies on `<Bytes as AsRef<[u8]>>::as_ref`: the full slice of the bytes
/// the buffer holds, copied here into a fresh vector.
#[verifier::external_body]
pub(crate) fn bytes_to_vec(b: &bytes::Bytes) -> (r: Vec<u8>)
    ensures
        r@ == bytes_content(*b),
{
    b.as_ref().to_vec()
}

} // verus!
