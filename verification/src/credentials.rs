//! Day-aligned redemption times for anonymous group credentials.
use vstd::prelude::*;

verus! {

/// Seconds in one day; credentials are issued for whole-day windows.
pub const SECONDS_PER_DAY: u64 = 86_400;

/// Unix timestamp in seconds at which a credential may be redeemed.
#[derive(Clone, Copy, PartialEq, Eq, Debug, Structural)]
pub struct RedemptionTime(pub u64);

impl RedemptionTime {
    /// Wraps a raw unix-seconds value without checking its alignment.
    pub fn from_unix_seconds(secs: u64) -> (r: Self)
        ensures
            r.0 == secs,
    {
        RedemptionTime(secs)
    }

    /// True exactly when the time falls on a day boundary.
    pub fn is_day_aligned(self) -> (b: bool)
        ensures
            b == (self.0 % SECONDS_PER_DAY == 0),
    {
        self.0 % SECONDS_PER_DAY == 0
    }
}

} // verus!
