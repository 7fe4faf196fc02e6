//! Resampling: what a change of rate amounts to, and sinc quality levels.

use vstd::prelude::*;
use crate::error::NadaError;
use super::MAX_SAMPLE_RATE;

verus! {

/// Resampling quality level, controlling the sinc kernel width.
#[derive(Debug, Clone, Copy, PartialEq, Eq, Structural)]
#[non_exhaustive]
pub enum ResampleQuality {
    /// Fast, lower quality (4-point sinc kernel).
    Draft,
    /// Balanced quality (16-point sinc kernel).
    Good,
    /// Highest quality (64-point sinc kernel).
    Best,
}

impl ResampleQuality {
    /// Half-width of the sinc kernel (in samples) for each quality.
    pub open spec fn spec_kernel_half_width(self) -> usize {
        match self {
            ResampleQuality::Draft => 2,
            ResampleQuality::Good => 8,
            ResampleQuality::Best => 32,
        }
    }

    /// Number of sinc lobes (half-width of the kernel in samples).
    pub fn kernel_half_width(self) -> (r: usize)
        ensures
            r == self.spec_kernel_half_width(),
    {
        match self {
            ResampleQuality::Draft => 2,
            ResampleQuality::Good => 8,
            ResampleQuality::Best => 32,
        }
    }
}

/// What resampling a buffer to a new rate amounts to, once the rate is accepted.
#[derive(Debug, Clone, Copy, PartialEq, Eq, Structural)]
pub enum ResamplePlan {
    /// The target rate is the buffer's own: the buffer is returned as it is.
    Unchanged,
    /// The buffer has no frames: an empty buffer at the target rate.
    Silence,
    /// Samples are interpolated at the target rate.
    Interpolate,
}

/// The plan for a buffer at `source_rate` with `frames` frames, once the
/// target rate was accepted.
pub open spec fn spec_resample_plan(source_rate: u32, frames: usize, target_rate: u32) -> ResamplePlan {
    if target_rate == source_rate {
        ResamplePlan::Unchanged
    } else if frames == 0 {
        ResamplePlan::Silence
    } else {
        ResamplePlan::Interpolate
    }
}

/// Plan linear resampling of a buffer at `source_rate` with `frames` frames
/// to `target_rate`: rates of 0 or above 768 kHz are refused.
pub fn plan_resample_linear(source_rate: u32, frames: usize, target_rate: u32) -> (r: Result<
    ResamplePlan,
    NadaError,
>)
    ensures
        r == if target_rate == 0 || target_rate > MAX_SAMPLE_RATE {
            Err(NadaError::InvalidSampleRate(target_rate))
        } else {
            Ok::<ResamplePlan, NadaError>(spec_resample_plan(source_rate, frames, target_rate))
        },
{
    if target_rate == 0 || target_rate > MAX_SAMPLE_RATE {
        return Err(NadaError::InvalidSampleRate(target_rate));
    }
    Ok(resample_plan(source_rate, frames, target_rate))
}

/// Plan sinc resampling of a buffer at `source_rate` with `frames` frames
/// to `target_rate`: a rate of 0 is refused.
pub fn plan_resample_sinc(source_rate: u32, frames: usize, target_rate: u32) -> (r: Result<
    ResamplePlan,
    NadaError,
>)
    ensures
        r == if target_rate == 0 {
            Err(NadaError::InvalidSampleRate(0))
        } else {
            Ok::<ResamplePlan, NadaError>(spec_resample_plan(source_rate, frames, target_rate))
        },
{
    if target_rate == 0 {
        return Err(NadaError::InvalidSampleRate(0));
    }
    Ok(resample_plan(source_rate, frames, target_rate))
}

fn resample_plan(source_rate: u32, frames: usize, target_rate: u32) -> (r: ResamplePlan)
    ensures
        r == spec_resample_plan(source_rate, frames, target_rate),
{
    if target_rate == source_rate {
        ResamplePlan::Unchanged
    } else if frames == 0 {
        ResamplePlan::Silence
    } else {
        ResamplePlan::Interpolate
    }
}

} // verus!
