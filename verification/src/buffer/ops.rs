//! Buffer utilities — crossfade and fade kinds, crossfade shape check.

use vstd::prelude::*;
use crate::error::NadaError;
use super::{BufferShape, channels_text, channels_string};

verus! {

/// Crossfade type.
#[derive(Debug, Clone, Copy, PartialEq, Eq, Structural)]
#[non_exhaustive]
pub enum CrossfadeType {
    /// Linear crossfade (constant amplitude sum).
    Linear,
    /// Equal-power crossfade (constant energy sum).
    EqualPower,
}

/// Fade curve type.
#[derive(Debug, Clone, Copy, PartialEq, Eq, Structural)]
#[non_exhaustive]
pub enum FadeCurve {
    /// Linear ramp.
    Linear,
    /// Exponential curve (more natural sounding).
    Exponential,
}

/// Check that two buffers can be crossfaded and give the result's shape.
///
/// The buffers must agree in channels (checked first), then sample rate, then
/// frame count; the result has their common shape.
pub fn crossfade_shape(a: BufferShape, b: BufferShape) -> (r: Result<BufferShape, NadaError>)
    ensures
        a.channels != b.channels ==> (r matches Err(NadaError::FormatMismatch { expected, actual })
            && expected@ == channels_text(a.channels) && actual@ == channels_text(b.channels)),
        a.channels == b.channels && a.sample_rate != b.sample_rate ==> r == Err::<BufferShape, NadaError>(
            NadaError::InvalidSampleRate(b.sample_rate),
        ),
        a.channels == b.channels && a.sample_rate == b.sample_rate && a.frames != b.frames ==> r == Err::<
            BufferShape,
            NadaError,
        >(NadaError::LengthMismatch { expected: a.frames, actual: b.frames }),
        a == b ==> r == Ok::<BufferShape, NadaError>(a),
{
    if a.channels != b.channels {
        return Err(
            NadaError::FormatMismatch {
                expected: channels_string(a.channels),
                actual: channels_string(b.channels),
            },
        );
    }
    if a.sample_rate != b.sample_rate {
        return Err(NadaError::InvalidSampleRate(b.sample_rate));
    }
    if a.frames != b.frames {
        return Err(NadaError::LengthMismatch { expected: a.frames, actual: b.frames });
    }
    Ok(a)
}

} // verus!
