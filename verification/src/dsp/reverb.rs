//! Reverb delay sizing: tuning delays are given for 44.1 kHz and scaled to the
//! running sample rate.

use vstd::prelude::*;

verus! {

/// Sample rate at which the reverb's tuning delays are given, in Hz.
pub const REFERENCE_RATE: u32 = 44100;

/// `base * sample_rate / 44100` rounded to the nearest integer (halves away
/// from zero), saturated to `usize`, and at least 1.
pub open spec fn spec_scale_delay(base: usize, sample_rate: u32) -> usize {
    let q = (2 * base * sample_rate + 44100) / 88200;
    if q == 0 {
        1
    } else if q > usize::MAX {
        usize::MAX
    } else {
        q as usize
    }
}

/// Scale a delay length tuned for 44.1 kHz to `sample_rate`.
pub fn scale_delay(base: usize, sample_rate: u32) -> (r: usize)
    ensures
        r == spec_scale_delay(base, sample_rate),
        r >= 1,
{
    let b = base as u128;
    let s = sample_rate as u128;
    proof {
        assert(b * s <= 0xFFFF_FFFF_FFFF_FFFFu128 * 0xFFFF_FFFFu128) by (nonlinear_arith)
            requires
                b <= 0xFFFF_FFFF_FFFF_FFFFu128,
                s <= 0xFFFF_FFFFu128,
        ;
    }
    let q = (2 * (b * s) + 44100) / 88200;
    proof {
        assert(2 * (b * s) == 2 * base * sample_rate) by (nonlinear_arith)
            requires
                b == base,
                s == sample_rate,
        ;
    }
    if q == 0 {
        1
    } else if q > usize::MAX as u128 {
        usize::MAX
    } else {
        q as usize
    }
}

/// At the reference rate every delay keeps its length (a zero delay becomes
/// one sample).
pub proof fn lemma_scale_delay_reference_rate(base: usize)
    ensures
        spec_scale_delay(base, REFERENCE_RATE) == if base == 0 {
            1
        } else {
            base
        },
{
    assert((2 * base * 44100 + 44100) / 88200 == base) by (nonlinear_arith);
}

/// A longer tuning delay never scales to a shorter one.
pub proof fn lemma_scale_delay_monotone(a: usize, b: usize, sample_rate: u32)
    requires
        a <= b,
    ensures
        spec_scale_delay(a, sample_rate) <= spec_scale_delay(b, sample_rate),
{
    assert(2 * a * sample_rate + 44100 <= 2 * b * sample_rate + 44100) by (nonlinear_arith)
        requires
            a <= b,
    ;
    assert((2 * a * sample_rate + 44100) / 88200 <= (2 * b * sample_rate + 44100) / 88200)
        by (nonlinear_arith)
        requires
            2 * a * sample_rate + 44100 <= 2 * b * sample_rate + 44100,
    ;
}

} // verus!
