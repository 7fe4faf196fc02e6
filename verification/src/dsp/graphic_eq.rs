//! 10-band ISO graphic equalizer: band names and named presets.
//!
//! Every preset gain is a whole number of decibels, so presets are given here
//! as integer dB per band.

use vstd::prelude::*;
use crate::text::{decimal, str_eq};

verus! {

/// Number of bands of the graphic equalizer.
pub const BAND_COUNT: usize = 10;

/// Largest boost or cut of one band, in dB.
pub const MAX_GAIN_DB: i8 = 12;

/// Display name of a band index ("?" past the last band).
pub open spec fn spec_band_name(band: usize) -> Seq<char> {
    if band == 0 {
        "31 Hz"@
    } else if band == 1 {
        "62 Hz"@
    } else if band == 2 {
        "125 Hz"@
    } else if band == 3 {
        "250 Hz"@
    } else if band == 4 {
        "500 Hz"@
    } else if band == 5 {
        "1 kHz"@
    } else if band == 6 {
        "2 kHz"@
    } else if band == 7 {
        "4 kHz"@
    } else if band == 8 {
        "8 kHz"@
    } else if band == 9 {
        "16 kHz"@
    } else {
        "?"@
    }
}

/// Get the display name for a band index.
pub fn band_name(band: usize) -> (r: &'static str)
    ensures
        r@ == spec_band_name(band),
{
    if band == 0 {
        "31 Hz"
    } else if band == 1 {
        "62 Hz"
    } else if band == 2 {
        "125 Hz"
    } else if band == 3 {
        "250 Hz"
    } else if band == 4 {
        "500 Hz"
    } else if band == 5 {
        "1 kHz"
    } else if band == 6 {
        "2 kHz"
    } else if band == 7 {
        "4 kHz"
    } else if band == 8 {
        "8 kHz"
    } else if band == 9 {
        "16 kHz"
    } else {
        "?"
    }
}

/// Per-band gains (dB, 31 Hz band first) of the preset called `name`; an
/// unknown name (and "flat") gives all zeros.
pub open spec fn spec_preset_gains(name: Seq<char>) -> Seq<i8> {
    if name == "rock"@ {
        seq![4i8, 3, 1, -1i8, -2i8, 0, 2, 3, 4, 4]
    } else if name == "pop"@ {
        seq![-1i8, 1, 3, 4, 3, 0, -1i8, 0, 1, 2]
    } else if name == "jazz"@ {
        seq![2i8, 1, 0, 1, -1i8, -1i8, 0, 1, 2, 3]
    } else if name == "classical"@ {
        seq![0i8, 0, 0, 0, 0, 0, -2i8, -3i8, -2i8, 0]
    } else if name == "bass"@ {
        seq![6i8, 5, 4, 2, 0, 0, 0, 0, 0, 0]
    } else if name == "treble"@ {
        seq![0i8, 0, 0, 0, 0, 0, 2, 4, 5, 6]
    } else if name == "vocal"@ {
        seq![-2i8, -1i8, 0, 2, 4, 4, 3, 1, 0, -1i8]
    } else if name == "electronic"@ {
        seq![5i8, 4, 1, 0, -2i8, 0, 1, 3, 4, 5]
    } else if name == "acoustic"@ {
        seq![2i8, 1, 0, 1, 2, 1, 2, 3, 2, 1]
    } else {
        seq![0i8, 0, 0, 0, 0, 0, 0, 0, 0, 0]
    }
}

/// Band gains in dB of a named preset. Unknown names give a flat curve.
pub fn preset_gains_db(name: &str) -> (r: [i8; 10])
    ensures
        r@ == spec_preset_gains(name@),
{
    let r: [i8; 10] = if str_eq(name, "rock") {
        [4, 3, 1, -1, -2, 0, 2, 3, 4, 4]
    } else if str_eq(name, "pop") {
        [-1, 1, 3, 4, 3, 0, -1, 0, 1, 2]
    } else if str_eq(name, "jazz") {
        [2, 1, 0, 1, -1, -1, 0, 1, 2, 3]
    } else if str_eq(name, "classical") {
        [0, 0, 0, 0, 0, 0, -2, -3, -2, 0]
    } else if str_eq(name, "bass") {
        [6, 5, 4, 2, 0, 0, 0, 0, 0, 0]
    } else if str_eq(name, "treble") {
        [0, 0, 0, 0, 0, 0, 2, 4, 5, 6]
    } else if str_eq(name, "vocal") {
        [-2, -1, 0, 2, 4, 4, 3, 1, 0, -1]
    } else if str_eq(name, "electronic") {
        [5, 4, 1, 0, -2, 0, 1, 3, 4, 5]
    } else if str_eq(name, "acoustic") {
        [2, 1, 0, 1, 2, 1, 2, 3, 2, 1]
    } else {
        [0, 0, 0, 0, 0, 0, 0, 0, 0, 0]
    };
    assert(r@ =~= spec_preset_gains(name@));
    r
}

/// List all available preset names.
pub fn preset_names() -> (r: &'static [&'static str])
    ensures
        r@ == seq![
            "flat",
            "rock",
            "pop",
            "jazz",
            "classical",
            "bass",
            "treble",
            "vocal",
            "electronic",
            "acoustic",
        ],
{
    &["flat", "rock", "pop", "jazz", "classical", "bass", "treble", "vocal", "electronic", "acoustic"]
}

/// Every preset keeps each band within ±12 dB and has one gain per band.
pub proof fn lemma_presets_in_range(name: Seq<char>)
    ensures
        spec_preset_gains(name).len() == BAND_COUNT,
        forall|i: int|
            0 <= i < BAND_COUNT ==> -MAX_GAIN_DB <= #[trigger] spec_preset_gains(name)[i] <= MAX_GAIN_DB,
{
}

/// 125 doubled `band` times: four times the centre frequency, in Hz, of
/// band `band` of the ISO octave series that starts at 31.25 Hz.
pub open spec fn octave_doubling(band: nat) -> nat
    decreases band,
{
    if band == 0 {
        125
    } else {
        2 * octave_doubling((band - 1) as nat)
    }
}

/// How a frequency of `hz` Hz is labelled: whole hertz below 1 kHz, whole
/// kilohertz from there on.
pub open spec fn hz_label(hz: nat) -> Seq<char> {
    if hz < 1000 {
        decimal(hz) + " Hz"@
    } else {
        decimal(hz / 1000) + " kHz"@
    }
}

/// Each band is named after its centre frequency: the ISO octave series
/// 31.25 Hz × 2^band, rounded down, so names rise in frequency with the band
/// index (31 Hz, 62 Hz, 125 Hz, …, 4 kHz, 8 kHz, 16 kHz); past the last band
/// the name is `?`.
pub proof fn lemma_band_names_follow_octaves(band: usize)
    ensures
        band < BAND_COUNT ==> spec_band_name(band) == hz_label(octave_doubling(band as nat) / 4),
        band >= BAND_COUNT ==> spec_band_name(band) == "?"@,
{
    reveal_with_fuel(octave_doubling, 11);
    reveal_with_fuel(decimal, 4);
    reveal_strlit(" Hz");
    reveal_strlit(" kHz");
    if band == 0 {
        reveal_strlit("31 Hz");
        assert(spec_band_name(band) =~= hz_label(octave_doubling(band as nat) / 4));
    } else if band == 1 {
        reveal_strlit("62 Hz");
        assert(spec_band_name(band) =~= hz_label(octave_doubling(band as nat) / 4));
    } else if band == 2 {
        reveal_strlit("125 Hz");
        assert(spec_band_name(band) =~= hz_label(octave_doubling(band as nat) / 4));
    } else if band == 3 {
        reveal_strlit("250 Hz");
        assert(spec_band_name(band) =~= hz_label(octave_doubling(band as nat) / 4));
    } else if band == 4 {
        reveal_strlit("500 Hz");
        assert(spec_band_name(band) =~= hz_label(octave_doubling(band as nat) / 4));
    } else if band == 5 {
        reveal_strlit("1 kHz");
        assert(spec_band_name(band) =~= hz_label(octave_doubling(band as nat) / 4));
    } else if band == 6 {
        reveal_strlit("2 kHz");
        assert(spec_band_name(band) =~= hz_label(octave_doubling(band as nat) / 4));
    } else if band == 7 {
        reveal_strlit("4 kHz");
        assert(spec_band_name(band) =~= hz_label(octave_doubling(band as nat) / 4));
    } else if band == 8 {
        reveal_strlit("8 kHz");
        assert(spec_band_name(band) =~= hz_label(octave_doubling(band as nat) / 4));
    } else if band == 9 {
        reveal_strlit("16 kHz");
        assert(spec_band_name(band) =~= hz_label(octave_doubling(band as nat) / 4));
    }
}

proof fn lemma_preset_names_distinct()
    ensures
        "rock"@ != "pop"@,
        "rock"@ != "jazz"@,
        "rock"@ != "classical"@,
        "rock"@ != "bass"@,
        "rock"@ != "treble"@,
        "rock"@ != "vocal"@,
        "rock"@ != "electronic"@,
        "rock"@ != "acoustic"@,
        "rock"@ != "flat"@,
        "pop"@ != "jazz"@,
        "pop"@ != "classical"@,
        "pop"@ != "bass"@,
        "pop"@ != "treble"@,
        "pop"@ != "vocal"@,
        "pop"@ != "electronic"@,
        "pop"@ != "acoustic"@,
        "pop"@ != "flat"@,
        "jazz"@ != "classical"@,
        "jazz"@ != "bass"@,
        "jazz"@ != "treble"@,
        "jazz"@ != "vocal"@,
        "jazz"@ != "electronic"@,
        "jazz"@ != "acoustic"@,
        "jazz"@ != "flat"@,
        "classical"@ != "bass"@,
        "classical"@ != "treble"@,
        "classical"@ != "vocal"@,
        "classical"@ != "electronic"@,
        "classical"@ != "acoustic"@,
        "classical"@ != "flat"@,
        "bass"@ != "treble"@,
        "bass"@ != "vocal"@,
        "bass"@ != "electronic"@,
        "bass"@ != "acoustic"@,
        "bass"@ != "flat"@,
        "treble"@ != "vocal"@,
        "treble"@ != "electronic"@,
        "treble"@ != "acoustic"@,
        "treble"@ != "flat"@,
        "vocal"@ != "electronic"@,
        "vocal"@ != "acoustic"@,
        "vocal"@ != "flat"@,
        "electronic"@ != "acoustic"@,
        "electronic"@ != "flat"@,
        "acoustic"@ != "flat"@,
{
    reveal_strlit("rock");
    reveal_strlit("pop");
    reveal_strlit("jazz");
    reveal_strlit("classical");
    reveal_strlit("bass");
    reveal_strlit("treble");
    reveal_strlit("vocal");
    reveal_strlit("electronic");
    reveal_strlit("acoustic");
    reveal_strlit("flat");
    assert("rock"@.len() != "pop"@.len());
    assert("rock"@[0] != "jazz"@[0]);
    assert("rock"@.len() != "classical"@.len());
    assert("rock"@[0] != "bass"@[0]);
    assert("rock"@.len() != "treble"@.len());
    assert("rock"@.len() != "vocal"@.len());
    assert("rock"@.len() != "electronic"@.len());
    assert("rock"@.len() != "acoustic"@.len());
    assert("rock"@[0] != "flat"@[0]);
    assert("pop"@.len() != "jazz"@.len());
    assert("pop"@.len() != "classical"@.len());
    assert("pop"@.len() != "bass"@.len());
    assert("pop"@.len() != "treble"@.len());
    assert("pop"@.len() != "vocal"@.len());
    assert("pop"@.len() != "electronic"@.len());
    assert("pop"@.len() != "acoustic"@.len());
    assert("pop"@.len() != "flat"@.len());
    assert("jazz"@.len() != "classical"@.len());
    assert("jazz"@[0] != "bass"@[0]);
    assert("jazz"@.len() != "treble"@.len());
    assert("jazz"@.len() != "vocal"@.len());
    assert("jazz"@.len() != "electronic"@.len());
    assert("jazz"@.len() != "acoustic"@.len());
    assert("jazz"@[0] != "flat"@[0]);
    assert("classical"@.len() != "bass"@.len());
    assert("classical"@.len() != "treble"@.len());
    assert("classical"@.len() != "vocal"@.len());
    assert("classical"@.len() != "electronic"@.len());
    assert("classical"@.len() != "acoustic"@.len());
    assert("classical"@.len() != "flat"@.len());
    assert("bass"@.len() != "treble"@.len());
    assert("bass"@.len() != "vocal"@.len());
    assert("bass"@.len() != "electronic"@.len());
    assert("bass"@.len() != "acoustic"@.len());
    assert("bass"@[0] != "flat"@[0]);
    assert("treble"@.len() != "vocal"@.len());
    assert("treble"@.len() != "electronic"@.len());
    assert("treble"@.len() != "acoustic"@.len());
    assert("treble"@.len() != "flat"@.len());
    assert("vocal"@.len() != "electronic"@.len());
    assert("vocal"@.len() != "acoustic"@.len());
    assert("vocal"@.len() != "flat"@.len());
    assert("electronic"@.len() != "acoustic"@.len());
    assert("electronic"@.len() != "flat"@.len());
    assert("acoustic"@.len() != "flat"@.len());
}

/// The bass preset is a low shelf: +6 dB at 31 Hz, falling band by band to
/// +2 dB at 250 Hz, and flat from 500 Hz up. The treble preset is its mirror
/// image: flat up to 1 kHz, rising band by band to +6 dB at 16 kHz.
pub proof fn lemma_shelf_presets()
    ensures
        ({
            let b = spec_preset_gains("bass"@);
            let t = spec_preset_gains("treble"@);
            &&& b[0] == 6
            &&& b[3] == 2
            &&& forall|i: int| 0 <= i < 3 ==> #[trigger] b[i] > b[i + 1]
            &&& forall|i: int| 4 <= i < 10 ==> #[trigger] b[i] == 0
            &&& forall|i: int| 0 <= i < 10 ==> #[trigger] t[i] == b[9 - i]
        }),
{
    lemma_preset_names_distinct();
    reveal_strlit("rock");
    reveal_strlit("pop");
    reveal_strlit("jazz");
    reveal_strlit("classical");
    reveal_strlit("bass");
    reveal_strlit("treble");
    reveal_strlit("vocal");
    reveal_strlit("electronic");
    reveal_strlit("acoustic");
    reveal_strlit("flat");
    let b = spec_preset_gains("bass"@);
    let t = spec_preset_gains("treble"@);
    assert(b =~= seq![6i8, 5, 4, 2, 0, 0, 0, 0, 0, 0]);
    assert(t =~= seq![0i8, 0, 0, 0, 0, 0, 2, 4, 5, 6]);
}

/// Rock and electronic are "smile" curves: both ends boosted by at least
/// 4 dB, no band higher than either end, and the 500 Hz band cut by 2 dB as
/// the deepest point.
pub proof fn lemma_smile_presets(name: Seq<char>)
    requires
        name == "rock"@ || name == "electronic"@,
    ensures
        ({
            let g = spec_preset_gains(name);
            &&& g[0] >= 4
            &&& g[9] >= 4
            &&& g[4] == -2
            &&& forall|i: int| 0 <= i < 10 ==> #[trigger] g[i] <= g[0] && g[i] <= g[9] && g[4] <= g[i]
        }),
{
    lemma_preset_names_distinct();
    reveal_strlit("rock");
    reveal_strlit("pop");
    reveal_strlit("jazz");
    reveal_strlit("classical");
    reveal_strlit("bass");
    reveal_strlit("treble");
    reveal_strlit("vocal");
    reveal_strlit("electronic");
    reveal_strlit("acoustic");
    reveal_strlit("flat");
}

/// The vocal preset lifts the voice range: +4 dB at 500 Hz and 1 kHz, no
/// band higher, and both ends cut.
pub proof fn lemma_vocal_preset()
    ensures
        ({
            let g = spec_preset_gains("vocal"@);
            &&& g[4] == 4 && g[5] == 4
            &&& forall|i: int| 0 <= i < 10 ==> #[trigger] g[i] <= 4
            &&& g[0] < 0 && g[9] < 0
        }),
{
    lemma_preset_names_distinct();
    reveal_strlit("rock");
    reveal_strlit("pop");
    reveal_strlit("jazz");
    reveal_strlit("classical");
    reveal_strlit("bass");
    reveal_strlit("treble");
    reveal_strlit("vocal");
    reveal_strlit("electronic");
    reveal_strlit("acoustic");
    reveal_strlit("flat");
}

/// The pop preset peaks at +4 dB at 250 Hz and cuts the lowest band.
pub proof fn lemma_pop_preset()
    ensures
        ({
            let g = spec_preset_gains("pop"@);
            &&& g[3] == 4
            &&& forall|i: int| 0 <= i < 10 ==> #[trigger] g[i] <= 4
            &&& g[0] < 0
        }),
{
    lemma_preset_names_distinct();
    reveal_strlit("rock");
    reveal_strlit("pop");
    reveal_strlit("jazz");
    reveal_strlit("classical");
    reveal_strlit("bass");
    reveal_strlit("treble");
    reveal_strlit("vocal");
    reveal_strlit("electronic");
    reveal_strlit("acoustic");
    reveal_strlit("flat");
}

/// The jazz preset is highest at 16 kHz (+3 dB) and cuts 500 Hz and 1 kHz by 1 dB.
pub proof fn lemma_jazz_preset()
    ensures
        ({
            let g = spec_preset_gains("jazz"@);
            &&& g[9] == 3
            &&& forall|i: int| 0 <= i < 9 ==> #[trigger] g[i] < 3
            &&& g[4] == -1 && g[5] == -1
        }),
{
    lemma_preset_names_distinct();
    reveal_strlit("rock");
    reveal_strlit("pop");
    reveal_strlit("jazz");
    reveal_strlit("classical");
    reveal_strlit("bass");
    reveal_strlit("treble");
    reveal_strlit("vocal");
    reveal_strlit("electronic");
    reveal_strlit("acoustic");
    reveal_strlit("flat");
}

/// The classical preset leaves every band flat except a cut of 2 kHz to
/// 8 kHz, deepest (-3 dB) at 4 kHz.
pub proof fn lemma_classical_preset()
    ensures
        ({
            let g = spec_preset_gains("classical"@);
            &&& forall|i: int| 0 <= i < 10 && !(6 <= i <= 8) ==> #[trigger] g[i] == 0
            &&& forall|i: int| 6 <= i <= 8 ==> #[trigger] g[i] < 0 && g[7] <= g[i]
            &&& g[7] == -3
        }),
{
    lemma_preset_names_distinct();
    reveal_strlit("rock");
    reveal_strlit("pop");
    reveal_strlit("jazz");
    reveal_strlit("classical");
    reveal_strlit("bass");
    reveal_strlit("treble");
    reveal_strlit("vocal");
    reveal_strlit("electronic");
    reveal_strlit("acoustic");
    reveal_strlit("flat");
}

/// The acoustic preset never cuts and peaks at +3 dB at 4 kHz.
pub proof fn lemma_acoustic_preset()
    ensures
        ({
            let g = spec_preset_gains("acoustic"@);
            &&& forall|i: int| 0 <= i < 10 ==> 0 <= #[trigger] g[i] <= 3
            &&& g[7] == 3
        }),
{
    lemma_preset_names_distinct();
    reveal_strlit("rock");
    reveal_strlit("pop");
    reveal_strlit("jazz");
    reveal_strlit("classical");
    reveal_strlit("bass");
    reveal_strlit("treble");
    reveal_strlit("vocal");
    reveal_strlit("electronic");
    reveal_strlit("acoustic");
    reveal_strlit("flat");
}

/// "flat" and any name that is not a preset leave every band at 0 dB, while
/// every other listed preset changes some band.
pub proof fn lemma_flat_and_named_presets(name: Seq<char>)
    ensures
        (name == "flat"@ || !(name == "rock"@ || name == "pop"@ || name == "jazz"@ || name
            == "classical"@ || name == "bass"@ || name == "treble"@ || name == "vocal"@ || name
            == "electronic"@ || name == "acoustic"@)) ==> forall|i: int|
            0 <= i < 10 ==> #[trigger] spec_preset_gains(name)[i] == 0,
        (name == "rock"@ || name == "pop"@ || name == "jazz"@ || name == "classical"@ || name
            == "bass"@ || name == "treble"@ || name == "vocal"@ || name == "electronic"@ || name
            == "acoustic"@) ==> exists|i: int| 0 <= i < 10 && #[trigger] spec_preset_gains(name)[i] != 0,
{
    lemma_preset_names_distinct();
    reveal_strlit("rock");
    reveal_strlit("pop");
    reveal_strlit("jazz");
    reveal_strlit("classical");
    reveal_strlit("bass");
    reveal_strlit("treble");
    reveal_strlit("vocal");
    reveal_strlit("electronic");
    reveal_strlit("acoustic");
    reveal_strlit("flat");
    if name == "rock"@ || name == "pop"@ || name == "jazz"@ || name == "classical"@ || name
        == "bass"@ || name == "treble"@ || name == "vocal"@ || name == "electronic"@ || name
        == "acoustic"@ {
        assert(spec_preset_gains(name)[7] != 0 || spec_preset_gains(name)[0] != 0);
    }
}

} // verus!
