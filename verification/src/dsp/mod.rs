//! DSP building blocks that the effects share: filter modes and delay sizing.

pub mod convolution;
pub mod graphic_eq;
pub mod reverb;
pub mod routing;
pub mod svf;
