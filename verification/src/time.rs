//! Durations as whole nanoseconds.

use std::time::Duration;
use vstd::prelude::*;

verus! {

/// Number of nanoseconds in one second.
pub const NANOS_PER_SEC: u64 = 1_000_000_000;

/// The whole seconds that `Duration::as_secs` reports for `d`.
pub uninterp spec fn duration_secs(d: Duration) -> u64;

/// The fractional part, in nanoseconds, that `Duration::subsec_nanos` reports for `d`.
pub uninterp spec fn duration_subsec_nanos(d: Duration) -> u32;

/// `Duration::new`: with fewer than a second of nanoseconds nothing is
/// carried, so the two parts of the result are the two arguments.
pub assume_specification[ Duration::new ](secs: u64, nanos: u32) -> (d: Duration)
    requires
        nanos < NANOS_PER_SEC,
    ensures
        duration_secs(d) == secs,
        duration_subsec_nanos(d) == nanos,
;

/// `Duration::as_secs`: the whole seconds of the duration.
pub assume_specification[ Duration::as_secs ](d: &Duration) -> (secs: u64)
    ensures
        secs == duration_secs(*d),
;

/// `Duration::subsec_nanos`: the part below one second, always less than
/// one second of nanoseconds.
pub assume_specification[ Duration::subsec_nanos ](d: &Duration) -> (nanos: u32)
    ensures
        nanos == duration_subsec_nanos(*d),
        nanos < NANOS_PER_SEC,
;

/// The length of `d` in nanoseconds.
pub open spec fn duration_nanos(d: Duration) -> nat {
    duration_secs(d) as nat * (NANOS_PER_SEC as nat) + duration_subsec_nanos(d) as nat
}

/// The time, in nanoseconds rounded down, that `frames` frames last at
/// `rate` frames per second.
pub open spec fn frames_to_nanos(frames: nat, rate: nat) -> nat {
    frames * (NANOS_PER_SEC as nat) / rate
}

/// The number of whole frames that pass in `ns` nanoseconds at `rate`
/// frames per second.
pub open spec fn nanos_to_frames(ns: nat, rate: nat) -> nat {
    ns * rate / (NANOS_PER_SEC as nat)
}

/// Builds the duration that lasts `ns` nanoseconds.
pub fn duration_from_nanos(ns: u128) -> (d: Duration)
    requires
        ns / (NANOS_PER_SEC as u128) <= u64::MAX,
    ensures
        duration_nanos(d) == ns,
{
    let secs: u128 = ns / (NANOS_PER_SEC as u128);
    let rest: u128 = ns % (NANOS_PER_SEC as u128);
    Duration::new(secs as u64, rest as u32)
}

/// The time that `frames` frames last at `sample_rate` frames per second.
pub fn frames_to_duration(frames: usize, sample_rate: u32) -> (d: Duration)
    requires
        sample_rate != 0,
    ensures
        duration_nanos(d) == frames_to_nanos(frames as nat, sample_rate as nat),
{
    assert(frames * NANOS_PER_SEC <= u64::MAX * NANOS_PER_SEC) by (nonlinear_arith)
        requires
            frames <= u64::MAX,
    ;
    let total: u128 = (frames as u128) * (NANOS_PER_SEC as u128);
    let ns: u128 = total / (sample_rate as u128);
    assert(ns / (NANOS_PER_SEC as u128) <= u64::MAX) by (nonlinear_arith)
        requires
            ns == total / (sample_rate as u128),
            total == frames * NANOS_PER_SEC,
            frames <= u64::MAX,
            sample_rate >= 1,
            NANOS_PER_SEC == 1_000_000_000,
    ;
    duration_from_nanos(ns)
}

/// The number of whole frames that pass during `d` at `sample_rate` frames
/// per second.
pub fn duration_to_frames(d: &Duration, sample_rate: u32) -> (frames: u128)
    ensures
        frames == nanos_to_frames(duration_nanos(*d), sample_rate as nat),
{
    let secs: u64 = d.as_secs();
    let nanos: u32 = d.subsec_nanos();
    assert(secs * sample_rate <= u64::MAX * u32::MAX) by (nonlinear_arith)
        requires
            secs <= u64::MAX,
            sample_rate <= u32::MAX,
    ;
    assert(nanos * sample_rate <= u32::MAX * u32::MAX) by (nonlinear_arith)
        requires
            nanos <= u32::MAX,
            sample_rate <= u32::MAX,
    ;
    let whole: u128 = (secs as u128) * (sample_rate as u128);
    let part: u128 = (nanos as u128) * (sample_rate as u128) / (NANOS_PER_SEC as u128);
    assert((secs * NANOS_PER_SEC + nanos) * sample_rate / (NANOS_PER_SEC as int) == secs
        * sample_rate + nanos * sample_rate / (NANOS_PER_SEC as int)) by (nonlinear_arith)
        requires
            NANOS_PER_SEC == 1_000_000_000,
    ;
    whole + part
}

} // verus!
