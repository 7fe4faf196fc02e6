//! Errors reported by audio operations.

use vstd::prelude::*;
use vstd::string::*;
use crate::text::{decimal, push_decimal};

verus! {

/// Errors that can occur during audio operations.
#[derive(Debug)]
#[non_exhaustive]
pub enum NadaError {
    /// Buffer format (sample rate, channels) doesn't match expected.
    FormatMismatch {
        /// Expected format description.
        expected: String,
        /// Actual format description.
        actual: String,
    },
    /// Buffer sample count doesn't match expected.
    LengthMismatch {
        /// Expected sample count.
        expected: usize,
        /// Actual sample count.
        actual: usize,
    },
    /// Sample rate is zero or out of supported range.
    InvalidSampleRate(u32),
    /// Channel count is zero or exceeds maximum.
    InvalidChannels(u32),
    /// DSP processing error.
    Dsp(String),
    /// Audio capture/output error.
    Capture(String),
    /// A parameter value is out of valid range.
    InvalidParameter {
        /// Parameter name.
        name: String,
        /// Invalid value (as string).
        value: String,
        /// Why the value is invalid.
        reason: String,
    },
    /// Format conversion error.
    Conversion(String),
    /// Error raised by another component, kept as its message.
    Other(String),
}

/// Result of an audio operation.
pub type Result<T> = core::result::Result<T, NadaError>;

impl NadaError {
    /// The human-readable message of this error.
    pub open spec fn message(&self) -> Seq<char> {
        match self {
            NadaError::FormatMismatch { expected, actual } => "buffer format mismatch: expected "@
                + expected@ + ", got "@ + actual@,
            NadaError::LengthMismatch { expected, actual } => "buffer length mismatch: expected "@
                + decimal(*expected as nat) + " samples, got "@ + decimal(*actual as nat),
            NadaError::InvalidSampleRate(rate) => "invalid sample rate: "@ + decimal(*rate as nat)
                + " Hz"@,
            NadaError::InvalidChannels(ch) => "invalid channel count: "@ + decimal(*ch as nat),
            NadaError::Dsp(msg) => "DSP error: "@ + msg@,
            NadaError::Capture(msg) => "capture error: "@ + msg@,
            NadaError::InvalidParameter { name, value, reason } => "invalid parameter: "@ + name@
                + " = "@ + value@ + " ("@ + reason@ + ")"@,
            NadaError::Conversion(msg) => "conversion error: "@ + msg@,
            NadaError::Other(msg) => msg@,
        }
    }

    /// Render the error as text (the message that `Display` would show).
    pub fn to_string(&self) -> (s: String)
        ensures
            s@ == self.message(),
    {
        match self {
            NadaError::FormatMismatch { expected, actual } => {
                let mut s = String::from_str("buffer format mismatch: expected ");
                s.append(expected.as_str());
                s.append(", got ");
                s.append(actual.as_str());
                s
            },
            NadaError::LengthMismatch { expected, actual } => {
                let mut s = String::from_str("buffer length mismatch: expected ");
                push_decimal(&mut s, *expected as u64);
                s.append(" samples, got ");
                push_decimal(&mut s, *actual as u64);
                s
            },
            NadaError::InvalidSampleRate(rate) => {
                let mut s = String::from_str("invalid sample rate: ");
                push_decimal(&mut s, *rate as u64);
                s.append(" Hz");
                s
            },
            NadaError::InvalidChannels(ch) => {
                let mut s = String::from_str("invalid channel count: ");
                push_decimal(&mut s, *ch as u64);
                s
            },
            NadaError::Dsp(msg) => {
                let mut s = String::from_str("DSP error: ");
                s.append(msg.as_str());
                s
            },
            NadaError::Capture(msg) => {
                let mut s = String::from_str("capture error: ");
                s.append(msg.as_str());
                s
            },
            NadaError::InvalidParameter { name, value, reason } => {
                let mut s = String::from_str("invalid parameter: ");
                s.append(name.as_str());
                s.append(" = ");
                s.append(value.as_str());
                s.append(" (");
                s.append(reason.as_str());
                s.append(")");
                s
            },
            NadaError::Conversion(msg) => {
                let mut s = String::from_str("conversion error: ");
                s.append(msg.as_str());
                s
            },
            NadaError::Other(msg) => msg.clone(),
        }
    }
}

/// Every error has a non-empty message, except an error from another
/// component whose own message is empty.
pub proof fn lemma_message_nonempty(e: NadaError)
    requires
        !(e matches NadaError::Other(m) && m@.len() == 0),
    ensures
        e.message().len() > 0,
{
    reveal_strlit("buffer format mismatch: expected ");
    reveal_strlit("buffer length mismatch: expected ");
    reveal_strlit("invalid sample rate: ");
    reveal_strlit("invalid channel count: ");
    reveal_strlit("DSP error: ");
    reveal_strlit("capture error: ");
    reveal_strlit("invalid parameter: ");
    reveal_strlit("conversion error: ");
}

} // verus!
