//! The host's clock.

use vstd::prelude::*;

verus! {

/// The host's clock.
pub struct Time {}

/// The largest count of nanoseconds that the coarse clock's arithmetic takes.
pub const MAX_SUBSEC_NANOS: u32 = 1_999_999_999;

/// The ticks of the coarse duration that is as long as `secs` seconds and
/// `nanos` nanoseconds. A tick is one second divided by two to the power of 32.
pub open spec fn coarse_ticks(secs: u64, nanos: u32) -> u64 {
    let whole: u64 = if secs as int * 0x1_0000_0000 > u64::MAX {
        u64::MAX
    } else {
        (secs as int * 0x1_0000_0000) as u64
    };
    whole | (((nanos as int * 9_223_372_037) as u64) >> 31)
}

/// Calls `coarsetime::Duration::new` and reads the ticks of what it made with
/// `as_ticks`. The seconds fill the high half and saturate; the nanoseconds
/// are scaled to the low half. The product that scales them must fit in 64
/// bits.
#[verifier::external_body]
fn duration_ticks(secs: u64, nanos: u32) -> (ticks: u64)
    requires
        nanos <= MAX_SUBSEC_NANOS,
    ensures
        ticks == coarse_ticks(secs, nanos),
{
    coarsetime::Duration::new(secs, nanos).as_ticks()
}

impl Time {
    /// The time since the epoch that the host reported as `secs` whole
    /// seconds and `subsec_nanos` nanoseconds, in the ticks of a coarse
    /// duration. There is none where the nanoseconds are more than the clock's
    /// arithmetic takes.
    pub fn since_epoch(secs: u64, subsec_nanos: u32) -> (ticks: Option<u64>)
        ensures
            ticks == (if subsec_nanos <= MAX_SUBSEC_NANOS {
                Some(coarse_ticks(secs, subsec_nanos))
            } else {
                None
            }),
    {
        if subsec_nanos <= MAX_SUBSEC_NANOS {
            Some(duration_ticks(secs, subsec_nanos))
        } else {
            None
        }
    }
}

} // verus!
