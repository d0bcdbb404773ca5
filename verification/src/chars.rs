//! Interned text: a text kind whose storage strategy must not change what it
//! prints, so it renders exactly as plain text does.

use vstd::prelude::*;

verus! {

/// Text held by an interning buffer.
#[derive(Clone, Debug)]
pub struct Chars {
    /// The text itself.
    pub text: String,
}

impl Chars {
    /// Wraps a string as interned text.
    pub fn from_string(text: String) -> (r: Chars)
        ensures
            r.text@ == text@,
    {
        Chars { text }
    }
}

} // verus!
