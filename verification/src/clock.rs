//! Sample-accurate audio clock — transport position, run state and tempo.
//!
//! The tempo is a double-precision value held as its IEEE 754 bit pattern
//! (`f64::to_bits`); the clock stores it and checks that it is a positive
//! finite number, and never computes with it.

use vstd::prelude::*;

verus! {

/// The pattern encodes a finite number greater than zero.
pub open spec fn f64_is_positive_finite(bits: u64) -> bool {
    bits < 0x8000_0000_0000_0000 && 0 < bits < 0x7FF0_0000_0000_0000
}

/// Where a clock at `position` is after being asked to advance `frames`:
/// moved forward if running, unchanged if stopped.
pub open spec fn advanced_position(position: u64, running: bool, frames: u64) -> u64 {
    if running {
        (position + frames) as u64
    } else {
        position
    }
}

/// Audio transport clock — tracks position in samples, with tempo awareness.
#[derive(Debug)]
pub struct AudioClock {
    position_samples: u64,
    sample_rate: u32,
    tempo_bpm: u64,
    running: bool,
}

impl AudioClock {
    /// Position in samples.
    pub closed spec fn spec_position(&self) -> u64 {
        self.position_samples
    }

    /// Sample rate in Hz.
    pub closed spec fn spec_sample_rate(&self) -> u32 {
        self.sample_rate
    }

    /// Tempo in BPM (bit pattern of an `f64`; `0.0` = no tempo).
    pub closed spec fn spec_tempo_bits(&self) -> u64 {
        self.tempo_bpm
    }

    /// The clock advances when asked to.
    pub closed spec fn spec_running(&self) -> bool {
        self.running
    }

    /// Create a new, stopped clock at position 0 with no tempo.
    pub fn new(sample_rate: u32) -> (r: Self)
        ensures
            r.spec_position() == 0,
            r.spec_sample_rate() == sample_rate,
            r.spec_tempo_bits() == 0,
            !r.spec_running(),
    {
        AudioClock { position_samples: 0, sample_rate, tempo_bpm: 0, running: false }
    }

    /// Create a stopped clock at position 0 with the given tempo (bit pattern
    /// of an `f64`, stored as given).
    pub fn with_tempo(sample_rate: u32, bpm: u64) -> (r: Self)
        ensures
            r.spec_position() == 0,
            r.spec_sample_rate() == sample_rate,
            r.spec_tempo_bits() == bpm,
            !r.spec_running(),
    {
        AudioClock { position_samples: 0, sample_rate, tempo_bpm: bpm, running: false }
    }

    /// Advance the clock by the given number of frames (only while running).
    pub fn advance(&mut self, frames: u64)
        requires
            old(self).spec_running() ==> old(self).spec_position() + frames <= u64::MAX,
        ensures
            final(self).spec_position() == advanced_position(
                old(self).spec_position(),
                old(self).spec_running(),
                frames,
            ),
            final(self).spec_sample_rate() == old(self).spec_sample_rate(),
            final(self).spec_tempo_bits() == old(self).spec_tempo_bits(),
            final(self).spec_running() == old(self).spec_running(),
    {
        if self.running {
            self.position_samples = self.position_samples + frames;
        }
    }

    /// Start the clock.
    pub fn start(&mut self)
        ensures
            final(self).spec_running(),
            final(self).spec_position() == old(self).spec_position(),
            final(self).spec_sample_rate() == old(self).spec_sample_rate(),
            final(self).spec_tempo_bits() == old(self).spec_tempo_bits(),
    {
        self.running = true;
    }

    /// Stop the clock.
    pub fn stop(&mut self)
        ensures
            !final(self).spec_running(),
            final(self).spec_position() == old(self).spec_position(),
            final(self).spec_sample_rate() == old(self).spec_sample_rate(),
            final(self).spec_tempo_bits() == old(self).spec_tempo_bits(),
    {
        self.running = false;
    }

    /// Reset to position 0.
    pub fn reset(&mut self)
        ensures
            final(self).spec_position() == 0,
            final(self).spec_sample_rate() == old(self).spec_sample_rate(),
            final(self).spec_tempo_bits() == old(self).spec_tempo_bits(),
            final(self).spec_running() == old(self).spec_running(),
    {
        self.position_samples = 0;
    }

    /// Move to an absolute position in samples.
    pub fn seek_samples(&mut self, position: u64)
        ensures
            final(self).spec_position() == position,
            final(self).spec_sample_rate() == old(self).spec_sample_rate(),
            final(self).spec_tempo_bits() == old(self).spec_tempo_bits(),
            final(self).spec_running() == old(self).spec_running(),
    {
        self.position_samples = position;
    }

    /// Current position in samples.
    pub fn position_samples(&self) -> (r: u64)
        ensures
            r == self.spec_position(),
    {
        self.position_samples
    }

    /// Sample rate in Hz.
    pub fn sample_rate(&self) -> (r: u32)
        ensures
            r == self.spec_sample_rate(),
    {
        self.sample_rate
    }

    /// Tempo in BPM as the bit pattern of an `f64` (0.0 = no tempo).
    pub fn tempo_bpm_bits(&self) -> (r: u64)
        ensures
            r == self.spec_tempo_bits(),
    {
        self.tempo_bpm
    }

    /// Set the tempo (bit pattern of an `f64` BPM). Anything but a positive
    /// finite number (negative, zero, infinite, NaN) becomes 0.0.
    pub fn set_tempo(&mut self, bpm: u64)
        ensures
            final(self).spec_tempo_bits() == if f64_is_positive_finite(bpm) {
                bpm
            } else {
                0
            },
            final(self).spec_position() == old(self).spec_position(),
            final(self).spec_sample_rate() == old(self).spec_sample_rate(),
            final(self).spec_running() == old(self).spec_running(),
    {
        self.tempo_bpm = if bpm < 0x8000_0000_0000_0000 && 0 < bpm && bpm < 0x7FF0_0000_0000_0000 {
            bpm
        } else {
            0
        };
    }

    /// Whether the clock is running.
    pub fn is_running(&self) -> (r: bool)
        ensures
            r == self.spec_running(),
    {
        self.running
    }
}

/// Advancing a running clock by `a` and then by `b` lands where advancing by
/// `a + b` does; a stopped clock stays put whatever it is asked.
pub proof fn lemma_advance_composes(position: u64, running: bool, a: u64, b: u64)
    requires
        running ==> position + a + b <= u64::MAX,
    ensures
        advanced_position(advanced_position(position, running, a), running, b) == advanced_position(
            position,
            running,
            (a + b) as u64,
        ),
        !running ==> advanced_position(position, running, a) == position,
{
}

impl Clone for AudioClock {
    fn clone(&self) -> (r: Self)
        ensures
            r == *self,
    {
        AudioClock {
            position_samples: self.position_samples,
            sample_rate: self.sample_rate,
            tempo_bpm: self.tempo_bpm,
            running: self.running,
        }
    }
}

} // verus!
