//! State variable filter modes.

use vstd::prelude::*;

verus! {

/// SVF filter mode — selects which output to use.
#[derive(Debug, Clone, Copy, PartialEq, Eq, Structural)]
#[non_exhaustive]
pub enum SvfMode {
    /// Low-pass: passes frequencies below cutoff.
    LowPass,
    /// High-pass: passes frequencies above cutoff.
    HighPass,
    /// Band-pass: passes frequencies around cutoff.
    BandPass,
    /// Notch (band-reject): attenuates frequencies around cutoff.
    Notch,
    /// All-pass: passes all frequencies with phase shift.
    AllPass,
    /// Peaking: boosts or cuts around cutoff.
    Peak,
    /// Low shelf: boosts or cuts below cutoff.
    LowShelf,
    /// High shelf: boosts or cuts above cutoff.
    HighShelf,
}

} // verus!
