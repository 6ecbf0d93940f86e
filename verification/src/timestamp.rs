//! Points in time, as the tables store them.
//!
//! The library does not read a clock.  Whoever calls it reads the time and
//! hands it in, so that what the library does with a time is the same for
//! every time.

use vstd::prelude::*;

verus! {

/// A calendar time in UTC without zone: whole seconds since the Unix epoch
/// and the nanoseconds into that second.
#[derive(Clone, Copy, Debug, PartialEq, Eq, Structural)]
pub struct Timestamp {
    pub secs: i64,
    pub nanos: u32,
}

impl Timestamp {
    /// A timestamp from its two parts.
    pub fn new(secs: i64, nanos: u32) -> (t: Self)
        ensures
            t == (Timestamp { secs, nanos }),
    {
        Timestamp { secs, nanos }
    }
}

} // verus!
