//! What the library relies on of `std::time::Duration`, whose fields are private.
use std::time::Duration;
use vstd::prelude::*;

verus! {

/// The whole seconds of a duration, as `Duration::as_secs` reports them.
pub uninterp spec fn whole_secs(d: Duration) -> u64;

/// The fractional part of a duration in nanoseconds, as `Duration::subsec_nanos`
/// reports it.
pub uninterp spec fn subsec_nanos_of(d: Duration) -> u32;

/// The length of a duration, in nanoseconds.
pub open spec fn duration_nanos(d: Duration) -> int {
    whole_secs(d) * 1_000_000_000 + subsec_nanos_of(d)
}

/// Relies on `Duration::as_secs`: the number of whole seconds in the duration,
/// without its fractional part.
pub assume_specification[ Duration::as_secs ](d: &Duration) -> (r: u64)
    ensures
        r == whole_secs(*d),
;

/// Relies on `Duration::subsec_nanos`: the fractional part of the duration in
/// nanoseconds, which std documents to be less than one billion.
pub assume_specification[ Duration::subsec_nanos ](d: &Duration) -> (r: u32)
    ensures
        r == subsec_nanos_of(*d),
        r < 1_000_000_000,
;

/// Relies on `Duration::from_secs`: a duration of exactly `secs` whole seconds.
pub assume_specification[ Duration::from_secs ](secs: u64) -> (r: Duration)
    ensures
        whole_secs(r) == secs,
        subsec_nanos_of(r) == 0,
;

/// The length of `d` in nanoseconds.
pub fn nanos_in(d: &Duration) -> (r: u128)
    ensures
        r == duration_nanos(*d),
{
    let secs: u64 = d.as_secs();
    let sub: u32 = d.subsec_nanos();
    assert(secs * 1_000_000_000 <= u64::MAX as int * 1_000_000_000) by (nonlinear_arith);
    secs as u128 * 1_000_000_000 + sub as u128
}

} // verus!
