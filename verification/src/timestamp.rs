//! The well-known timestamp kind, modeled by its two plain fields.
//!
//! A timestamp renders as its message text: each non-default field as
//! `name: value`, the two separated by a single space, and an all-default
//! timestamp as empty text.

use crate::num::int_str;
use vstd::prelude::*;

verus! {

/// A point in time: whole seconds since the epoch and a nanosecond remainder,
/// the plain fields of the well-known timestamp message.
#[derive(Clone, Copy, Debug, PartialEq, Eq, Structural)]
pub struct Timestamp {
    /// Seconds since the epoch.
    pub seconds: i64,
    /// Nanoseconds within the second.
    pub nanos: i32,
}

/// The canonical message text of a timestamp: its non-default fields, each as
/// `name: value`, separated by a single space.
pub open spec fn timestamp_text(seconds: int, nanos: int) -> Seq<char> {
    if seconds == 0 && nanos == 0 {
        Seq::<char>::empty()
    } else if nanos == 0 {
        "seconds: "@ + int_str(seconds)
    } else if seconds == 0 {
        "nanos: "@ + int_str(nanos)
    } else {
        "seconds: "@ + int_str(seconds) + " nanos: "@ + int_str(nanos)
    }
}

impl Timestamp {
    /// Builds a timestamp from its two plain fields.
    pub fn new(seconds: i64, nanos: i32) -> (r: Timestamp)
        ensures
            r.seconds == seconds,
            r.nanos == nanos,
    {
        Timestamp { seconds, nanos }
    }
}

} // verus!
