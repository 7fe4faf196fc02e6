//! Analysis planning: how a buffer is cut into windows for waveform peaks.

use vstd::prelude::*;

verus! {

/// Frames per waveform peak: the sample rate divided by the peak rate
/// (at least one peak per second), rounded up, and at least 1.
pub open spec fn spec_samples_per_peak(sample_rate: u32, peaks_per_second: u32) -> int {
    let pps = if peaks_per_second == 0 {
        1int
    } else {
        peaks_per_second as int
    };
    let q = (sample_rate as int + pps - 1) / pps;
    if q < 1 {
        1
    } else {
        q
    }
}

/// Window length and number of windows for a waveform overview of `frames`
/// frames at `sample_rate`, with `peaks_per_second` peaks per second (0 is
/// taken as 1): every window but the last holds exactly the window length.
pub fn waveform_windows(sample_rate: u32, peaks_per_second: u32, frames: usize) -> (r: (usize, usize))
    ensures
        r.0 as int == spec_samples_per_peak(sample_rate, peaks_per_second),
        r.1 as int == (frames as int + r.0 as int - 1) / r.0 as int,
{
    let pps: u32 = if peaks_per_second == 0 {
        1
    } else {
        peaks_per_second
    };
    let q = sample_rate as u64 / pps as u64;
    let spp = if sample_rate as u64 % pps as u64 != 0 {
        q + 1
    } else {
        q
    };
    proof {
        let n = sample_rate as int;
        let b = pps as int;
        assert(n == b * (n / b) + n % b) by (nonlinear_arith)
            requires
                b > 0,
        ;
        assert((n + b - 1) / b == n / b + (if n % b != 0 {
            1int
        } else {
            0int
        })) by (nonlinear_arith)
            requires
                b > 0,
                n >= 0,
                n == b * (n / b) + n % b,
                0 <= n % b < b,
        ;
        assert(n / b <= n) by (nonlinear_arith)
            requires
                b > 0,
                n >= 0,
        ;
        assert(n % b != 0 ==> n / b + 1 <= n) by (nonlinear_arith)
            requires
                b > 0,
                n >= 0,
                n == b * (n / b) + n % b,
                0 <= n % b < b,
        ;
    }
    let spp = if spp < 1 {
        1
    } else {
        spp
    };
    assert(spp <= 0xFFFF_FFFF);
    let samples_per_peak = spp as usize;
    let count = crate::dsp::convolution::partition_count(frames, samples_per_peak);
    (samples_per_peak, count)
}

} // verus!
