//! The boundary to the wall clock.  Nothing is assumed of the values the
//! clock hands back; the verified time step takes the measured interval as
//! an argument and clamps it itself.

use vstd::prelude::*;

verus! {

#[verifier::external_type_specification]
#[verifier::external_body]
pub struct ExInstant(web_time::Instant);

/// Relies on web_time::Instant::now: the current instant of a monotonic
/// clock; nothing is assumed of its value.
#[verifier::external_body]
pub fn instant_now() -> (t: web_time::Instant) {
    web_time::Instant::now()
}

/// Relies on Instant::duration_since and Duration::as_millis: the number of
/// whole milliseconds from `earlier` to `now`, or zero when `earlier` is
/// the later of the two; it never panics.
#[verifier::external_body]
pub fn millis_between(earlier: &web_time::Instant, now: &web_time::Instant) -> (ms: u128) {
    now.duration_since(*earlier).as_millis()
}

/// Relies on core::time::Duration::from_millis: a duration of that many
/// milliseconds.
#[verifier::external_body]
pub(crate) fn duration_from_millis(ms: u64) -> (d: core::time::Duration) {
    core::time::Duration::from_millis(ms)
}

/// The elapsed time consumed per frame, clamped to a representable range.
pub open spec fn clamped_elapsed(ms: u128) -> u32 {
    if ms > 0xFFFF_FFFF {
        0xFFFF_FFFF
    } else {
        ms as u32
    }
}

/// Clamps a measured interval in milliseconds to the range an effect step
/// can consume.
pub fn clamp_elapsed(ms: u128) -> (e: u32)
    ensures
        e == clamped_elapsed(ms),
{
    if ms > 0xFFFF_FFFF {
        0xFFFF_FFFF
    } else {
        ms as u32
    }
}

} // verus!
