//! Audio buffer shapes and sample formats.
//!
//! The sample data itself is `f32`; what the library decides about a buffer
//! (whether its shape is valid, what shape a mix or crossfade produces) is
//! decided here on its plain dimensions.

pub mod ops;
pub mod resample;

use vstd::prelude::*;
use vstd::string::*;
use crate::error::NadaError;
use crate::text::{decimal, push_decimal};

verus! {

/// Highest sample rate accepted, in Hz.
pub const MAX_SAMPLE_RATE: u32 = 768000;

/// Sample format.
#[derive(Debug, Clone, Copy, PartialEq, Eq, Hash, Structural)]
#[non_exhaustive]
pub enum SampleFormat {
    /// 32-bit float (-1.0 to 1.0, standard for processing)
    F32,
    /// 16-bit signed integer (-32768 to 32767, CD quality)
    I16,
    /// 32-bit signed integer (high-resolution audio)
    I32,
    /// 24-bit signed integer (professional audio)
    I24,
    /// 64-bit float (high-precision processing)
    F64,
    /// Unsigned 8-bit (legacy formats)
    U8,
}

impl SampleFormat {
    /// Storage size of one sample of this format.
    pub open spec fn spec_bytes_per_sample(&self) -> usize {
        match self {
            SampleFormat::F32 => 4,
            SampleFormat::I16 => 2,
            SampleFormat::I32 => 4,
            SampleFormat::I24 => 3,
            SampleFormat::F64 => 8,
            SampleFormat::U8 => 1,
        }
    }

    /// Short lowercase name of the format.
    pub open spec fn spec_name(&self) -> Seq<char> {
        match self {
            SampleFormat::F32 => "f32"@,
            SampleFormat::I16 => "i16"@,
            SampleFormat::I32 => "i32"@,
            SampleFormat::I24 => "i24"@,
            SampleFormat::F64 => "f64"@,
            SampleFormat::U8 => "u8"@,
        }
    }

    /// Bytes per sample.
    pub fn bytes_per_sample(&self) -> (r: usize)
        ensures
            r == self.spec_bytes_per_sample(),
    {
        match self {
            SampleFormat::F32 => 4,
            SampleFormat::I16 => 2,
            SampleFormat::I32 => 4,
            SampleFormat::I24 => 3,
            SampleFormat::F64 => 8,
            SampleFormat::U8 => 1,
        }
    }

    /// Short lowercase name (`"f32"`, `"i16"`, …) — what `Display` shows.
    pub fn to_string(&self) -> (r: String)
        ensures
            r@ == self.spec_name(),
    {
        match self {
            SampleFormat::F32 => String::from_str("f32"),
            SampleFormat::I16 => String::from_str("i16"),
            SampleFormat::I32 => String::from_str("i32"),
            SampleFormat::I24 => String::from_str("i24"),
            SampleFormat::F64 => String::from_str("f64"),
            SampleFormat::U8 => String::from_str("u8"),
        }
    }
}

/// Buffer layout.
#[derive(Debug, Clone, Copy, PartialEq, Eq, Hash, Structural)]
#[non_exhaustive]
pub enum Layout {
    /// Samples interleaved: [L0, R0, L1, R1, ...]
    Interleaved,
    /// Samples planar: [L0, L1, ...] [R0, R1, ...]
    Planar,
}

/// The dimensions of an audio buffer.
#[derive(Debug, Clone, Copy, PartialEq, Eq, Structural)]
pub struct BufferShape {
    /// Number of channels.
    pub channels: u32,
    /// Sample rate in Hz.
    pub sample_rate: u32,
    /// Number of frames (samples per channel).
    pub frames: usize,
}

/// The sample rate is one the library accepts (1 Hz to 768 kHz).
pub open spec fn valid_sample_rate(rate: u32) -> bool {
    0 < rate <= MAX_SAMPLE_RATE
}

/// What checking `len` interleaved samples of `channels` channels at
/// `sample_rate` gives: the frame count, or the first problem found
/// (channels, then sample rate, then a length that is not whole frames).
pub open spec fn spec_validate_interleaved(len: usize, channels: u32, sample_rate: u32) -> Result<
    usize,
    NadaError,
> {
    if channels == 0 {
        Err(NadaError::InvalidChannels(0))
    } else if !valid_sample_rate(sample_rate) {
        Err(NadaError::InvalidSampleRate(sample_rate))
    } else if len % (channels as usize) != 0 {
        Err(
            NadaError::LengthMismatch {
                expected: ((len / (channels as usize)) * (channels as usize)) as usize,
                actual: len,
            },
        )
    } else {
        Ok(len / (channels as usize))
    }
}

/// Check that `len` interleaved samples form whole frames of `channels`
/// channels at a supported `sample_rate`; gives the number of frames.
pub fn validate_interleaved(len: usize, channels: u32, sample_rate: u32) -> (r: Result<usize, NadaError>)
    ensures
        r == spec_validate_interleaved(len, channels, sample_rate),
        channels > 0 && 0 < sample_rate <= 768000 && len % (channels as usize) == 0 ==> r == Ok::<
            usize,
            NadaError,
        >(len / (channels as usize)),
{
    if channels == 0 {
        return Err(NadaError::InvalidChannels(0));
    }
    if sample_rate == 0 || sample_rate > MAX_SAMPLE_RATE {
        return Err(NadaError::InvalidSampleRate(sample_rate));
    }
    let ch = channels as usize;
    if len % ch != 0 {
        proof {
            assert((len / ch) * ch <= len) by (nonlinear_arith)
                requires
                    ch > 0,
            ;
        }
        return Err(NadaError::LengthMismatch { expected: (len / ch) * ch, actual: len });
    }
    Ok(len / ch)
}

/// Frames in a view of `len` samples over `channels` channels (0 without channels).
pub fn frames_in(len: usize, channels: u32) -> (r: usize)
    ensures
        r == (if channels > 0 {
            len / (channels as usize)
        } else {
            0
        }),
{
    if channels > 0 {
        len / channels as usize
    } else {
        0
    }
}

/// Largest frame count among the first `n` shapes (0 for none).
pub open spec fn max_frames_upto(shapes: Seq<BufferShape>, n: int) -> usize
    decreases n,
{
    if n <= 0 {
        0
    } else {
        let m = max_frames_upto(shapes, n - 1);
        if shapes[n - 1].frames > m {
            shapes[n - 1].frames
        } else {
            m
        }
    }
}

/// The shape differs from the first one in channels or sample rate.
pub open spec fn mismatches(first: BufferShape, s: BufferShape) -> bool {
    s.channels != first.channels || s.sample_rate != first.sample_rate
}

/// `k` is the first shape that does not match the first shape.
pub open spec fn is_first_mismatch(shapes: Seq<BufferShape>, k: int) -> bool {
    &&& 0 <= k < shapes.len()
    &&& mismatches(shapes[0], shapes[k])
    &&& forall|j: int| 0 <= j < k ==> !mismatches(shapes[0], #[trigger] shapes[j])
}

/// "`n` ch", the text that describes a channel count in errors.
pub open spec fn channels_text(n: u32) -> Seq<char> {
    decimal(n as nat) + " ch"@
}

pub(crate) fn channels_string(n: u32) -> (r: String)
    ensures
        r@ == channels_text(n),
{
    let mut s = String::new();
    push_decimal(&mut s, n as u64);
    s.append(" ch");
    proof {
        assert(s@ =~= channels_text(n));
    }
    s
}

/// The shape of the sum of several buffers.
///
/// No buffers give silence of 2 channels at 44.1 kHz and 0 frames. Otherwise
/// every buffer must have the channels and sample rate of the first one (the
/// first that does not gives the error: a channel mismatch is reported before
/// a sample-rate mismatch), and the mix is as long as the longest buffer.
pub fn mix_shape(shapes: &Vec<BufferShape>) -> (r: Result<BufferShape, NadaError>)
    ensures
        shapes@.len() == 0 ==> r == Ok::<BufferShape, NadaError>(
            BufferShape { channels: 2, sample_rate: 44100, frames: 0 },
        ),
        shapes@.len() > 0 && (forall|j: int| 0 <= j < shapes@.len() ==> !mismatches(shapes@[0], #[trigger] shapes@[j]))
            ==> r == Ok::<BufferShape, NadaError>(
            BufferShape {
                channels: shapes@[0].channels,
                sample_rate: shapes@[0].sample_rate,
                frames: max_frames_upto(shapes@, shapes@.len() as int),
            },
        ),
        forall|k: int| #[trigger] is_first_mismatch(shapes@, k) ==> (if shapes@[k].channels != shapes@[0].channels {
            r matches Err(NadaError::FormatMismatch { expected, actual }) && expected@ == channels_text(shapes@[0].channels)
                && actual@ == channels_text(shapes@[k].channels)
        } else {
            r == Err::<BufferShape, NadaError>(NadaError::InvalidSampleRate(shapes@[k].sample_rate))
        }),
{
    let n = shapes.len();
    if n == 0 {
        return Ok(BufferShape { channels: 2, sample_rate: 44100, frames: 0 });
    }
    let channels = shapes[0].channels;
    let sample_rate = shapes[0].sample_rate;
    let mut max_frames: usize = 0;
    let mut i: usize = 0;
    while i < n
        invariant
            i <= n,
            n == shapes@.len(),
            max_frames == max_frames_upto(shapes@, i as int),
        decreases n - i,
    {
        if shapes[i].frames > max_frames {
            max_frames = shapes[i].frames;
        }
        i = i + 1;
    }
    let mut j: usize = 0;
    while j < n
        invariant
            j <= n,
            n == shapes@.len(),
            n > 0,
            channels == shapes@[0].channels,
            sample_rate == shapes@[0].sample_rate,
            forall|t: int| 0 <= t < j ==> !mismatches(shapes@[0], #[trigger] shapes@[t]),
        decreases n - j,
    {
        let b = shapes[j];
        if b.channels != channels {
            proof {
                assert forall|k: int| #[trigger] is_first_mismatch(shapes@, k) implies k == j by {
                    if k < j {
                        assert(!mismatches(shapes@[0], shapes@[k]));
                    } else if k > j {
                        assert(!mismatches(shapes@[0], shapes@[j as int]));
                    }
                }
            }
            return Err(
                NadaError::FormatMismatch {
                    expected: channels_string(channels),
                    actual: channels_string(b.channels),
                },
            );
        }
        if b.sample_rate != sample_rate {
            proof {
                assert forall|k: int| #[trigger] is_first_mismatch(shapes@, k) implies k == j by {
                    if k < j {
                        assert(!mismatches(shapes@[0], shapes@[k]));
                    } else if k > j {
                        assert(!mismatches(shapes@[0], shapes@[j as int]));
                    }
                }
            }
            return Err(NadaError::InvalidSampleRate(b.sample_rate));
        }
        j = j + 1;
    }
    proof {
        assert forall|k: int| #[trigger] is_first_mismatch(shapes@, k) implies false by {
            assert(!mismatches(shapes@[0], shapes@[k]));
        }
    }
    Ok(BufferShape { channels, sample_rate, frames: max_frames })
}

/// The mix is as long as the longest input: no input is longer, and some
/// input (when there is one) has exactly that length.
pub proof fn lemma_mix_length_is_longest(shapes: Seq<BufferShape>, n: int)
    requires
        0 <= n <= shapes.len(),
    ensures
        forall|j: int| 0 <= j < n ==> #[trigger] shapes[j].frames <= max_frames_upto(shapes, n),
        n > 0 ==> exists|j: int| 0 <= j < n && #[trigger] shapes[j].frames == max_frames_upto(shapes, n),
        n == 0 ==> max_frames_upto(shapes, n) == 0,
    decreases n,
{
    if n > 0 {
        lemma_mix_length_is_longest(shapes, n - 1);
        if shapes[n - 1].frames > max_frames_upto(shapes, n - 1) {
            assert(shapes[n - 1].frames == max_frames_upto(shapes, n));
        } else if n - 1 > 0 {
            let j = choose|j: int| 0 <= j < n - 1 && #[trigger] shapes[j].frames == max_frames_upto(shapes, n - 1);
            assert(shapes[j].frames == max_frames_upto(shapes, n));
        } else {
            assert(shapes[0].frames == max_frames_upto(shapes, n));
        }
    }
}

/// Which interleaved buffers are accepted: with at least one channel, any
/// sample rate from 1 Hz to 768 kHz and a whole number of frames gives the
/// frame count; no channels, a rate of 0 or above 768 kHz, or a partial
/// frame is refused, in that order.
pub proof fn lemma_interleaved_acceptance(len: usize, channels: u32, sample_rate: u32)
    ensures
        channels > 0 && 0 < sample_rate <= 768000 && len % (channels as usize) == 0
            ==> spec_validate_interleaved(len, channels, sample_rate) == Ok::<usize, NadaError>(
            len / (channels as usize),
        ),
        channels == 0 ==> spec_validate_interleaved(len, channels, sample_rate) == Err::<
            usize,
            NadaError,
        >(NadaError::InvalidChannels(0)),
        channels > 0 && (sample_rate == 0 || sample_rate > 768000) ==> spec_validate_interleaved(
            len,
            channels,
            sample_rate,
        ) == Err::<usize, NadaError>(NadaError::InvalidSampleRate(sample_rate)),
        channels > 0 && 0 < sample_rate <= 768000 && len % (channels as usize) != 0
            ==> spec_validate_interleaved(len, channels, sample_rate) is Err,
        spec_validate_interleaved(len, channels, sample_rate) matches Ok(frames) ==> frames
            * channels == len,
{
    if channels > 0 {
        let c = channels as usize;
        assert((len / c) * c + len % c == len) by (nonlinear_arith)
            requires
                c > 0,
        ;
        assert(len / c * channels == (len / c) * c);
    }
}

} // verus!
