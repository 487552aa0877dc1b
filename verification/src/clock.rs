//! Reading the wall clock, for click timestamps.

use vstd::prelude::*;

verus! {

/// Relies on std::time: `SystemTime::now` and `duration_since(UNIX_EPOCH)`
/// read the wall clock (a reading before the epoch, or a failed reading,
/// comes back as zero via `unwrap_or_default`), and `Duration::as_secs` /
/// `Duration::subsec_millis` split the reading, the documentation of
/// `subsec_millis` promising a value below one thousand.
#[verifier::external_body]
fn clock_unix_parts() -> (r: (u64, u32))
    ensures
        r.1 < 1000,
{
    let dur = std::time::SystemTime::now()
        .duration_since(std::time::UNIX_EPOCH)
        .unwrap_or_default();
    (dur.as_secs(), dur.subsec_millis())
}

/// Readings of this many whole seconds or more no longer fit the
/// millisecond result and saturate.
pub const SATURATING_CLOCK_SECS: u64 = 9_223_372_036_854_775;

/// Combine a clock reading's parts — whole seconds and the fractional
/// part in milliseconds — into whole milliseconds, saturating at the
/// result type's maximum.
pub fn millis_of_parts(secs: u64, sub_millis: u32) -> (r: i64)
    requires
        sub_millis < 1000,
    ensures
        r == if secs >= SATURATING_CLOCK_SECS {
            i64::MAX as int
        } else {
            secs * 1000 + sub_millis
        },
        0 <= r,
{
    if secs >= SATURATING_CLOCK_SECS {
        i64::MAX
    } else {
        (secs * 1000 + sub_millis as u64) as i64
    }
}

/// The wall clock, in whole milliseconds since the Unix epoch: the
/// reading's seconds times a thousand plus its millisecond fraction, as
/// `millis_of_parts` fixes it. Never negative.
pub fn now_millis() -> (r: i64)
    ensures
        0 <= r,
{
    let (secs, sub) = clock_unix_parts();
    millis_of_parts(secs, sub)
}

} // verus!
