//! Capture timestamps.

use vstd::prelude::*;

verus! {

/// Milliseconds in a second.
pub const MILLIS_PER_SECOND: u64 = 1_000;

/// Nanoseconds in a millisecond.
pub const NANOS_PER_MILLI: u32 = 1_000_000;

/// The instant at which a frame was captured: time elapsed since the Unix
/// epoch, as whole seconds and additional nanoseconds.
#[derive(Clone, Copy, Debug, PartialEq, Eq, Structural)]
pub struct Timestamp {
    /// Whole seconds since the epoch.
    pub seconds: u64,
    /// Nanoseconds beyond the whole seconds.
    pub nanoseconds: u32,
}

impl Timestamp {
    /// The instant in whole milliseconds since the epoch; a fraction of a
    /// millisecond is dropped.
    pub open spec fn millis(self) -> int {
        self.seconds * MILLIS_PER_SECOND + self.nanoseconds / NANOS_PER_MILLI
    }

    /// The instant as the integer under which it is stored: milliseconds
    /// since the epoch, or `None` where they do not fit a signed 64-bit
    /// integer.
    pub fn epoch_millis(&self) -> (stored: Option<i64>)
        ensures
            stored == if self.millis() <= i64::MAX {
                Some(self.millis() as i64)
            } else {
                None::<i64>
            },
    {
        let whole: u128 = self.seconds as u128 * MILLIS_PER_SECOND as u128;
        assert(whole == self.seconds * 1_000 && whole <= u64::MAX * 1_000);
        let total: u128 = whole + (self.nanoseconds / NANOS_PER_MILLI) as u128;
        if total <= i64::MAX as u128 {
            Some(total as i64)
        } else {
            None
        }
    }
}

} // verus!
