//! Voice management — polyphonic voice pool with allocation and stealing.
//!
//! Per-voice levels (envelope, pitch bend, pressure, brightness) are single
//! precision values held as their bit patterns (see [`crate::fbits`]): the pool
//! stores, resets, clamps and compares them, and never computes with them.

use vstd::prelude::*;
use crate::fbits::{
    f32_bits_clamp_unit, f32_bits_lt, f32_clamp_unit, f32_eq, f32_is_nan, f32_lt,
    lemma_f32_lt_order, F32_ZERO,
};

verus! {

/// Voice state in the synthesis lifecycle.
#[derive(Debug, Clone, Copy, PartialEq, Eq, Structural)]
#[non_exhaustive]
pub enum VoiceState {
    /// Voice is not producing sound.
    Idle,
    /// Voice is actively playing.
    Active,
    /// Voice is in release phase (envelope releasing).
    Releasing,
}

/// Voice stealing policy when all voices are in use.
#[derive(Debug, Clone, Copy, PartialEq, Eq, Structural)]
#[non_exhaustive]
pub enum VoiceStealMode {
    /// Steal the oldest voice (longest active).
    Oldest,
    /// Steal the quietest voice (lowest envelope level).
    Quietest,
    /// Steal the lowest-pitched voice.
    Lowest,
    /// Don't steal — ignore new notes when full.
    NoStealing,
}

/// The observable contents of a voice slot.
#[derive(Debug, Clone, Copy, PartialEq, Eq, Structural)]
pub struct VoiceView {
    /// Lifecycle state.
    pub state: VoiceState,
    /// MIDI note number.
    pub note: u8,
    /// MIDI velocity.
    pub velocity: u8,
    /// MIDI channel.
    pub channel: u8,
    /// Envelope level (bit pattern of an `f32`).
    pub envelope_level: u32,
    /// Age in process blocks.
    pub age: u64,
    /// Per-note pitch bend (bit pattern of an `f32`).
    pub pitch_bend: u32,
    /// Per-note pressure (bit pattern of an `f32`).
    pub pressure: u32,
    /// Per-note brightness (bit pattern of an `f32`).
    pub brightness: u32,
}

/// A single synthesizer voice.
///
/// The pool provides voice management (allocation, stealing, state tracking).
/// Consumers own synthesis state (oscillator phases, etc.) indexed by voice slot.
#[derive(Debug)]
pub struct Voice {
    state: VoiceState,
    note: u8,
    velocity: u8,
    channel: u8,
    envelope_level: u32,
    age: u64,
    pitch_bend: u32,
    pressure: u32,
    brightness: u32,
}

/// A fresh, idle voice: everything zero.
pub open spec fn idle_voice() -> VoiceView {
    VoiceView {
        state: VoiceState::Idle,
        note: 0,
        velocity: 0,
        channel: 0,
        envelope_level: F32_ZERO,
        age: 0,
        pitch_bend: F32_ZERO,
        pressure: F32_ZERO,
        brightness: F32_ZERO,
    }
}

/// A voice just started for `note`: active, age 0, all levels `0.0`.
pub open spec fn activated_voice(note: u8, velocity: u8, channel: u8) -> VoiceView {
    VoiceView {
        state: VoiceState::Active,
        note,
        velocity,
        channel,
        envelope_level: F32_ZERO,
        age: 0,
        pitch_bend: F32_ZERO,
        pressure: F32_ZERO,
        brightness: F32_ZERO,
    }
}

/// A voice whose slot was freed: idle, age 0, everything else kept.
pub open spec fn freed_voice(v: VoiceView) -> VoiceView {
    VoiceView { state: VoiceState::Idle, age: 0, ..v }
}

/// The voice is idle.
pub open spec fn voice_idle(v: VoiceView) -> bool {
    v.state == VoiceState::Idle
}

/// The voice produces sound (active or releasing).
pub open spec fn voice_sounding(v: VoiceView) -> bool {
    v.state == VoiceState::Active || v.state == VoiceState::Releasing
}

impl View for Voice {
    type V = VoiceView;

    closed spec fn view(&self) -> VoiceView {
        VoiceView {
            state: self.state,
            note: self.note,
            velocity: self.velocity,
            channel: self.channel,
            envelope_level: self.envelope_level,
            age: self.age,
            pitch_bend: self.pitch_bend,
            pressure: self.pressure,
            brightness: self.brightness,
        }
    }
}

impl Voice {
    /// Create a new idle voice.
    pub fn new() -> (r: Self)
        ensures
            r@ == idle_voice(),
    {
        Voice {
            state: VoiceState::Idle,
            note: 0,
            velocity: 0,
            channel: 0,
            envelope_level: F32_ZERO,
            age: 0,
            pitch_bend: F32_ZERO,
            pressure: F32_ZERO,
            brightness: F32_ZERO,
        }
    }

    /// Voice state in the synthesis lifecycle.
    pub fn state(&self) -> (r: VoiceState)
        ensures
            r == self@.state,
    {
        self.state
    }

    /// MIDI note number.
    pub fn note(&self) -> (r: u8)
        ensures
            r == self@.note,
    {
        self.note
    }

    /// MIDI velocity.
    pub fn velocity(&self) -> (r: u8)
        ensures
            r == self@.velocity,
    {
        self.velocity
    }

    /// MIDI channel.
    pub fn channel(&self) -> (r: u8)
        ensures
            r == self@.channel,
    {
        self.channel
    }

    /// Amplitude envelope level (bit pattern of an `f32` in 0.0–1.0).
    pub fn envelope_level_bits(&self) -> (r: u32)
        ensures
            r == self@.envelope_level,
    {
        self.envelope_level
    }

    /// Age in process blocks.
    pub fn age(&self) -> (r: u64)
        ensures
            r == self@.age,
    {
        self.age
    }

    /// Per-note pitch bend (bit pattern of an `f32` in -1.0 to +1.0).
    pub fn pitch_bend_bits(&self) -> (r: u32)
        ensures
            r == self@.pitch_bend,
    {
        self.pitch_bend
    }

    /// Per-note pressure / aftertouch (bit pattern of an `f32` in 0.0 to 1.0).
    pub fn pressure_bits(&self) -> (r: u32)
        ensures
            r == self@.pressure,
    {
        self.pressure
    }

    /// Per-note brightness (CC#74; bit pattern of an `f32` in 0.0 to 1.0).
    pub fn brightness_bits(&self) -> (r: u32)
        ensures
            r == self@.brightness,
    {
        self.brightness
    }

    /// Whether this voice is idle.
    pub fn is_idle(&self) -> (r: bool)
        ensures
            r == voice_idle(self@),
    {
        match self.state {
            VoiceState::Idle => true,
            _ => false,
        }
    }

    /// Whether this voice is producing sound (Active or Releasing).
    pub fn is_active(&self) -> (r: bool)
        ensures
            r == voice_sounding(self@),
            r == (self@.state == VoiceState::Active || self@.state == VoiceState::Releasing),
    {
        match self.state {
            VoiceState::Active | VoiceState::Releasing => true,
            _ => false,
        }
    }

    /// Set the amplitude envelope level (bit pattern of an `f32`), as the
    /// consumer's envelope advances.
    pub fn set_envelope_level_bits(&mut self, level: u32)
        ensures
            final(self)@ == (VoiceView { envelope_level: level, ..old(self)@ }),
    {
        self.envelope_level = level;
    }

    /// Apply a per-note CC (value as the bit pattern of an `f32`).
    ///
    /// Currently only CC#74 (brightness / MPE timbre) is handled, clamped to
    /// 0.0–1.0. Other controller numbers are silently ignored.
    pub fn apply_per_note_cc(&mut self, controller: u8, value_normalized: u32)
        ensures
            final(self)@ == (if controller == 74 {
                VoiceView { brightness: f32_clamp_unit(value_normalized), ..old(self)@ }
            } else {
                old(self)@
            }),
    {
        if controller == 74 {
            self.brightness = f32_bits_clamp_unit(value_normalized);
        }
    }
}

impl Default for Voice {
    fn default() -> (r: Self)
        ensures
            r@ == idle_voice(),
    {
        Self::new()
    }
}

impl Clone for Voice {
    fn clone(&self) -> (r: Self)
        ensures
            r@ == self@,
    {
        Voice {
            state: self.state,
            note: self.note,
            velocity: self.velocity,
            channel: self.channel,
            envelope_level: self.envelope_level,
            age: self.age,
            pitch_bend: self.pitch_bend,
            pressure: self.pressure,
            brightness: self.brightness,
        }
    }
}

/// Slot of the oldest voice among the first `n` (the last one on ties).
pub open spec fn oldest_upto(s: Seq<VoiceView>, n: int) -> int
    decreases n,
{
    if n <= 1 {
        0
    } else {
        let c = oldest_upto(s, n - 1);
        if s[c].age <= s[n - 1].age {
            n - 1
        } else {
            c
        }
    }
}

/// Slot of the quietest voice among the first `n` (the first one on ties;
/// a voice replaces the current pick only if its level is strictly lower).
pub open spec fn quietest_upto(s: Seq<VoiceView>, n: int) -> int
    decreases n,
{
    if n <= 1 {
        0
    } else {
        let c = quietest_upto(s, n - 1);
        if f32_lt(s[n - 1].envelope_level, s[c].envelope_level) {
            n - 1
        } else {
            c
        }
    }
}

/// Slot of the lowest-pitched voice among the first `n` (the first one on ties).
pub open spec fn lowest_upto(s: Seq<VoiceView>, n: int) -> int
    decreases n,
{
    if n <= 1 {
        0
    } else {
        let c = lowest_upto(s, n - 1);
        if s[n - 1].note < s[c].note {
            n - 1
        } else {
            c
        }
    }
}

/// The slot that a full pool gives up under `mode` (`None` if it steals nothing).
pub open spec fn steal_choice(s: Seq<VoiceView>, mode: VoiceStealMode) -> Option<int> {
    if s.len() == 0 {
        None
    } else {
        match mode {
            VoiceStealMode::Oldest => Some(oldest_upto(s, s.len() as int)),
            VoiceStealMode::Quietest => Some(quietest_upto(s, s.len() as int)),
            VoiceStealMode::Lowest => Some(lowest_upto(s, s.len() as int)),
            VoiceStealMode::NoStealing => None,
        }
    }
}

/// Some slot is idle.
pub open spec fn has_idle(s: Seq<VoiceView>) -> bool {
    exists|i: int| 0 <= i < s.len() && #[trigger] voice_idle(s[i])
}

/// `k` is the first idle slot.
pub open spec fn is_first_idle(s: Seq<VoiceView>, k: int) -> bool {
    &&& 0 <= k < s.len()
    &&& voice_idle(s[k])
    &&& forall|j: int| 0 <= j < k ==> !#[trigger] voice_idle(s[j])
}

/// Number of non-idle voices among the first `n`.
pub open spec fn count_busy(s: Seq<VoiceView>, n: int) -> nat
    decreases n,
{
    if n <= 0 {
        0
    } else {
        count_busy(s, n - 1) + if voice_idle(s[n - 1]) {
            0nat
        } else {
            1nat
        }
    }
}

/// A voice one process block later: sounding voices age by one (saturating).
pub open spec fn aged_voice(v: VoiceView) -> VoiceView {
    if voice_sounding(v) {
        VoiceView {
            age: if v.age == u64::MAX {
                v.age
            } else {
                (v.age + 1) as u64
            },
            ..v
        }
    } else {
        v
    }
}

/// `k` is the first slot holding an active voice for `note` on `channel`.
pub open spec fn is_first_match(s: Seq<VoiceView>, note: u8, channel: u8, k: int) -> bool {
    &&& 0 <= k < s.len()
    &&& matches_note(s[k], note, channel)
    &&& forall|j: int| 0 <= j < k ==> !#[trigger] matches_note(s[j], note, channel)
}

/// The voice is active (not releasing) and plays `note` on `channel`.
pub open spec fn matches_note(v: VoiceView, note: u8, channel: u8) -> bool {
    v.state == VoiceState::Active && v.note == note && v.channel == channel
}

/// Polyphonic voice manager with configurable voice stealing.
#[derive(Debug)]
pub struct VoiceManager {
    voices: Vec<Voice>,
    max_voices: usize,
    steal_mode: VoiceStealMode,
}

impl VoiceManager {
    #[verifier::type_invariant]
    spec fn well_formed(self) -> bool {
        self.voices.len() == self.max_voices
    }

    /// The voice slots, in order.
    pub closed spec fn slots(&self) -> Seq<VoiceView> {
        self.voices@.map_values(|v: Voice| v@)
    }

    /// The current steal mode.
    pub closed spec fn spec_steal_mode(&self) -> VoiceStealMode {
        self.steal_mode
    }

    proof fn lemma_slots(&self)
        ensures
            self.slots().len() == self.voices@.len(),
            forall|i: int| 0 <= i < self.voices@.len() ==> #[trigger] self.slots()[i] == self.voices@[i]@,
    {
    }

    /// Create a voice pool with the given capacity and steal mode.
    pub fn new(max_voices: usize, steal_mode: VoiceStealMode) -> (r: Self)
        ensures
            r.slots() == Seq::new(max_voices as nat, |i: int| idle_voice()),
            r.spec_steal_mode() == steal_mode,
    {
        let mut voices: Vec<Voice> = Vec::new();
        let mut i: usize = 0;
        while i < max_voices
            invariant
                i <= max_voices,
                voices@.len() == i,
                forall|j: int| 0 <= j < i ==> #[trigger] voices@[j]@ == idle_voice(),
            decreases max_voices - i,
        {
            voices.push(Voice::new());
            i = i + 1;
        }
        let r = VoiceManager { voices, max_voices, steal_mode };
        assert(r.slots() =~= Seq::new(max_voices as nat, |i: int| idle_voice()));
        r
    }

    /// The first idle slot, if any.
    fn first_idle(&self) -> (r: Option<usize>)
        ensures
            match r {
                Some(k) => is_first_idle(self.slots(), k as int),
                None => !has_idle(self.slots()),
            },
    {
        proof {
            self.lemma_slots();
        }
        let n = self.voices.len();
        let mut i: usize = 0;
        while i < n
            invariant
                i <= n,
                n == self.voices@.len(),
                self.slots().len() == n,
                forall|k: int| 0 <= k < n ==> #[trigger] self.slots()[k] == self.voices@[k]@,
                forall|j: int| 0 <= j < i ==> !#[trigger] voice_idle(self.slots()[j]),
            decreases n - i,
        {
            if self.voices[i].is_idle() {
                return Some(i);
            }
            i = i + 1;
        }
        None
    }

    /// The slot of the oldest voice (last one on ties).
    fn oldest_slot(&self) -> (r: usize)
        requires
            self.slots().len() > 0,
        ensures
            r as int == oldest_upto(self.slots(), self.slots().len() as int),
            r < self.slots().len(),
    {
        proof {
            self.lemma_slots();
        }
        let n = self.voices.len();
        let mut cur: usize = 0;
        let mut i: usize = 1;
        while i < n
            invariant
                1 <= i <= n,
                n == self.voices@.len(),
                self.slots().len() == n,
                forall|k: int| 0 <= k < n ==> #[trigger] self.slots()[k] == self.voices@[k]@,
                cur < i,
                cur as int == oldest_upto(self.slots(), i as int),
            decreases n - i,
        {
            if self.voices[cur].age <= self.voices[i].age {
                cur = i;
            }
            i = i + 1;
        }
        cur
    }

    /// The slot of the quietest voice (first one on ties).
    fn quietest_slot(&self) -> (r: usize)
        requires
            self.slots().len() > 0,
        ensures
            r as int == quietest_upto(self.slots(), self.slots().len() as int),
            r < self.slots().len(),
    {
        proof {
            self.lemma_slots();
        }
        let n = self.voices.len();
        let mut cur: usize = 0;
        let mut i: usize = 1;
        while i < n
            invariant
                1 <= i <= n,
                n == self.voices@.len(),
                self.slots().len() == n,
                forall|k: int| 0 <= k < n ==> #[trigger] self.slots()[k] == self.voices@[k]@,
                cur < i,
                cur as int == quietest_upto(self.slots(), i as int),
            decreases n - i,
        {
            if f32_bits_lt(self.voices[i].envelope_level, self.voices[cur].envelope_level) {
                cur = i;
            }
            i = i + 1;
        }
        cur
    }

    /// The slot of the lowest-pitched voice (first one on ties).
    fn lowest_slot(&self) -> (r: usize)
        requires
            self.slots().len() > 0,
        ensures
            r as int == lowest_upto(self.slots(), self.slots().len() as int),
            r < self.slots().len(),
    {
        proof {
            self.lemma_slots();
        }
        let n = self.voices.len();
        let mut cur: usize = 0;
        let mut i: usize = 1;
        while i < n
            invariant
                1 <= i <= n,
                n == self.voices@.len(),
                self.slots().len() == n,
                forall|k: int| 0 <= k < n ==> #[trigger] self.slots()[k] == self.voices@[k]@,
                cur < i,
                cur as int == lowest_upto(self.slots(), i as int),
            decreases n - i,
        {
            if self.voices[i].note < self.voices[cur].note {
                cur = i;
            }
            i = i + 1;
        }
        cur
    }

    fn activate_voice(&mut self, idx: usize, note: u8, velocity: u8, channel: u8)
        requires
            idx < old(self).slots().len(),
        ensures
            final(self).slots() == old(self).slots().update(idx as int, activated_voice(note, velocity, channel)),
            final(self).spec_steal_mode() == old(self).spec_steal_mode(),
    {
        proof {
            use_type_invariant(&*self);
            self.lemma_slots();
        }
        self.voices[idx] = Voice {
            state: VoiceState::Active,
            note,
            velocity,
            channel,
            envelope_level: F32_ZERO,
            age: 0,
            pitch_bend: F32_ZERO,
            pressure: F32_ZERO,
            brightness: F32_ZERO,
        };
        proof {
            assert(self.slots() =~= old(self).slots().update(idx as int, activated_voice(note, velocity, channel)));
        }
    }

    /// Allocate a voice for a new note. Returns the voice index, or None if
    /// no voice is available and stealing is disabled.
    ///
    /// The first idle slot is used; when none is idle the steal mode picks the
    /// slot (oldest: the last of the oldest; quietest: the first of the
    /// quietest; lowest: the first of the lowest notes).
    pub fn note_on(&mut self, note: u8, velocity: u8, channel: u8) -> (r: Option<usize>)
        ensures
            has_idle(old(self).slots()) ==> (r matches Some(k) && is_first_idle(old(self).slots(), k as int)),
            !has_idle(old(self).slots()) ==> r == (match steal_choice(old(self).slots(), old(self).spec_steal_mode()) {
                Some(k) => Some(k as usize),
                None => None::<usize>,
            }),
            match r {
                Some(k) => k < old(self).slots().len() && final(self).slots() == old(self).slots().update(
                    k as int,
                    activated_voice(note, velocity, channel),
                ),
                None => final(self).slots() == old(self).slots(),
            },
            final(self).spec_steal_mode() == old(self).spec_steal_mode(),
    {
        if let Some(idx) = self.first_idle() {
            self.activate_voice(idx, note, velocity, channel);
            return Some(idx);
        }
        proof {
            use_type_invariant(&*self);
            self.lemma_slots();
        }
        if self.voices.len() == 0 {
            return None;
        }
        let steal_idx = match self.steal_mode {
            VoiceStealMode::Oldest => Some(self.oldest_slot()),
            VoiceStealMode::Quietest => Some(self.quietest_slot()),
            VoiceStealMode::Lowest => Some(self.lowest_slot()),
            VoiceStealMode::NoStealing => None,
        };
        if let Some(idx) = steal_idx {
            self.activate_voice(idx, note, velocity, channel);
            Some(idx)
        } else {
            None
        }
    }

    /// Release a voice matching the given note and channel: the first slot
    /// holding an active voice for that note and channel starts releasing.
    pub fn note_off(&mut self, note: u8, channel: u8)
        ensures
            forall|k: int| #[trigger] is_first_match(old(self).slots(), note, channel, k) ==> final(self).slots()
                == old(self).slots().update(k, VoiceView { state: VoiceState::Releasing, ..old(self).slots()[k] }),
            (forall|k: int| 0 <= k < old(self).slots().len() ==> !#[trigger] matches_note(old(self).slots()[k], note, channel))
                ==> final(self).slots() == old(self).slots(),
            final(self).spec_steal_mode() == old(self).spec_steal_mode(),
    {
        proof {
            use_type_invariant(&*self);
            self.lemma_slots();
        }
        let n = self.voices.len();
        let mut i: usize = 0;
        while i < n
            invariant
                i <= n,
                n == self.voices@.len(),
                self.slots() == old(self).slots(),
                self.steal_mode == old(self).steal_mode,
                self.max_voices == n,
                forall|k: int| 0 <= k < n ==> #[trigger] self.slots()[k] == self.voices@[k]@,
                forall|j: int| 0 <= j < i ==> !#[trigger] matches_note(self.slots()[j], note, channel),
            decreases n - i,
        {
            let v = &self.voices[i];
            if v.state == VoiceState::Active && v.note == note && v.channel == channel {
                let released = Voice {
                    state: VoiceState::Releasing,
                    note: v.note,
                    velocity: v.velocity,
                    channel: v.channel,
                    envelope_level: v.envelope_level,
                    age: v.age,
                    pitch_bend: v.pitch_bend,
                    pressure: v.pressure,
                    brightness: v.brightness,
                };
                self.voices[i] = released;
                proof {
                    assert(is_first_match(old(self).slots(), note, channel, i as int));
                    assert forall|k: int| #[trigger] is_first_match(old(self).slots(), note, channel, k)
                        implies k == i by {
                        if k < i {
                            assert(!matches_note(old(self).slots()[k], note, channel));
                        } else if k > i {
                            assert(!matches_note(old(self).slots()[i as int], note, channel));
                        }
                    }
                    assert(self.slots() =~= old(self).slots().update(
                        i as int,
                        VoiceView { state: VoiceState::Releasing, ..old(self).slots()[i as int] },
                    ));
                }
                return;
            }
            i = i + 1;
        }
        proof {
            assert forall|k: int| #[trigger] is_first_match(old(self).slots(), note, channel, k)
                implies false by {
                assert(!matches_note(old(self).slots()[k], note, channel));
            }
        }
    }

    /// Mark a voice as idle (e.g., after envelope finishes); its age restarts at 0.
    /// An index past the last slot changes nothing.
    pub fn free_voice(&mut self, index: usize)
        ensures
            index < old(self).slots().len() ==> final(self).slots() == old(self).slots().update(
                index as int,
                freed_voice(old(self).slots()[index as int]),
            ),
            index >= old(self).slots().len() ==> final(self).slots() == old(self).slots(),
            final(self).spec_steal_mode() == old(self).spec_steal_mode(),
    {
        proof {
            use_type_invariant(&*self);
            self.lemma_slots();
        }
        if index < self.voices.len() {
            let v = &self.voices[index];
            let freed = Voice {
                state: VoiceState::Idle,
                note: v.note,
                velocity: v.velocity,
                channel: v.channel,
                envelope_level: v.envelope_level,
                age: 0,
                pitch_bend: v.pitch_bend,
                pressure: v.pressure,
                brightness: v.brightness,
            };
            self.voices[index] = freed;
            proof {
                assert(self.slots() =~= old(self).slots().update(
                    index as int,
                    freed_voice(old(self).slots()[index as int]),
                ));
            }
        }
    }

    /// Number of non-idle voices.
    pub fn active_count(&self) -> (r: usize)
        ensures
            r == count_busy(self.slots(), self.slots().len() as int),
    {
        proof {
            self.lemma_slots();
        }
        let n = self.voices.len();
        let mut count: usize = 0;
        let mut i: usize = 0;
        while i < n
            invariant
                i <= n,
                n == self.voices@.len(),
                self.slots().len() == n,
                forall|k: int| 0 <= k < n ==> #[trigger] self.slots()[k] == self.voices@[k]@,
                count == count_busy(self.slots(), i as int),
                count <= i,
            decreases n - i,
        {
            if !self.voices[i].is_idle() {
                count = count + 1;
            }
            proof {
                lemma_count_busy_bound(self.slots(), i as int + 1);
            }
            i = i + 1;
        }
        count
    }

    /// Increment the age of all sounding voices (saturating). Call once per process block.
    pub fn tick_age(&mut self)
        ensures
            final(self).slots() == old(self).slots().map_values(|v: VoiceView| aged_voice(v)),
            final(self).spec_steal_mode() == old(self).spec_steal_mode(),
    {
        proof {
            use_type_invariant(&*self);
            self.lemma_slots();
        }
        let n = self.voices.len();
        let mut i: usize = 0;
        while i < n
            invariant
                i <= n,
                n == self.voices@.len(),
                self.max_voices == n,
                self.steal_mode == old(self).steal_mode,
                old(self).slots().len() == n,
                forall|k: int| 0 <= k < n ==> #[trigger] self.slots()[k] == self.voices@[k]@,
                forall|k: int| 0 <= k < i ==> #[trigger] self.voices@[k]@ == aged_voice(old(self).slots()[k]),
                forall|k: int| i <= k < n ==> #[trigger] self.voices@[k]@ == old(self).slots()[k],
            decreases n - i,
        {
            if self.voices[i].is_active() {
                let v = &self.voices[i];
                let older = Voice {
                    state: v.state,
                    note: v.note,
                    velocity: v.velocity,
                    channel: v.channel,
                    envelope_level: v.envelope_level,
                    age: v.age.saturating_add(1),
                    pitch_bend: v.pitch_bend,
                    pressure: v.pressure,
                    brightness: v.brightness,
                };
                self.voices[i] = older;
            }
            proof {
                self.lemma_slots();
            }
            i = i + 1;
        }
        proof {
            assert(self.slots() =~= old(self).slots().map_values(|v: VoiceView| aged_voice(v)));
        }
    }

    /// Reset all voices to idle.
    pub fn reset(&mut self)
        ensures
            final(self).slots() == Seq::new(old(self).slots().len(), |i: int| idle_voice()),
            final(self).spec_steal_mode() == old(self).spec_steal_mode(),
    {
        proof {
            use_type_invariant(&*self);
            self.lemma_slots();
        }
        let n = self.voices.len();
        let mut i: usize = 0;
        while i < n
            invariant
                i <= n,
                n == self.voices@.len(),
                self.max_voices == n,
                self.steal_mode == old(self).steal_mode,
                old(self).slots().len() == n,
                forall|k: int| 0 <= k < i ==> #[trigger] self.voices@[k]@ == idle_voice(),
            decreases n - i,
        {
            self.voices[i] = Voice::new();
            i = i + 1;
        }
        proof {
            self.lemma_slots();
            assert(self.slots() =~= Seq::new(old(self).slots().len(), |i: int| idle_voice()));
        }
    }

    /// Get a reference to a voice by index.
    pub fn voice(&self, index: usize) -> (r: Option<&Voice>)
        ensures
            match r {
                Some(v) => index < self.slots().len() && v@ == self.slots()[index as int],
                None => index >= self.slots().len(),
            },
    {
        proof {
            self.lemma_slots();
        }
        if index < self.voices.len() {
            Some(&self.voices[index])
        } else {
            None
        }
    }

    /// Get a mutable reference to a voice by index.
    pub fn voice_mut(&mut self, index: usize) -> (r: Option<&mut Voice>)
        ensures
            index < old(self).slots().len() ==> r is Some && r->0@ == old(self).slots()[index as int]
                && final(self).slots() == old(self).slots().update(index as int, final(r->0)@),
            index >= old(self).slots().len() ==> r is None && final(self).slots() == old(self).slots(),
            final(self).spec_steal_mode() == old(self).spec_steal_mode(),
    {
        proof {
            use_type_invariant(&*self);
            self.lemma_slots();
        }
        if index < self.voices.len() {
            Some(&mut self.voices[index])
        } else {
            None
        }
    }

    /// Number of voice slots.
    pub fn capacity(&self) -> (r: usize)
        ensures
            r == self.slots().len(),
    {
        proof {
            use_type_invariant(self);
            self.lemma_slots();
        }
        self.max_voices
    }

    /// Current steal mode.
    pub fn steal_mode(&self) -> (r: VoiceStealMode)
        ensures
            r == self.spec_steal_mode(),
    {
        self.steal_mode
    }
}

/// The oldest pick among the first `n` slots has the greatest age, and every
/// later slot is strictly younger (ties go to the last slot).
pub proof fn lemma_oldest_is_last_maximum(s: Seq<VoiceView>, n: int)
    requires
        1 <= n <= s.len(),
    ensures
        0 <= oldest_upto(s, n) < n,
        forall|j: int| 0 <= j < n ==> #[trigger] s[j].age <= s[oldest_upto(s, n)].age,
        forall|j: int| oldest_upto(s, n) < j < n ==> #[trigger] s[j].age < s[oldest_upto(s, n)].age,
    decreases n,
{
    if n > 1 {
        lemma_oldest_is_last_maximum(s, n - 1);
    }
}

/// The lowest pick among the first `n` slots has the smallest note, and every
/// earlier slot has a strictly higher note (ties go to the first slot).
pub proof fn lemma_lowest_is_first_minimum(s: Seq<VoiceView>, n: int)
    requires
        1 <= n <= s.len(),
    ensures
        0 <= lowest_upto(s, n) < n,
        forall|j: int| 0 <= j < n ==> s[lowest_upto(s, n)].note <= #[trigger] s[j].note,
        forall|j: int| 0 <= j < lowest_upto(s, n) ==> s[lowest_upto(s, n)].note < #[trigger] s[j].note,
    decreases n,
{
    if n > 1 {
        lemma_lowest_is_first_minimum(s, n - 1);
    }
}

/// The quietest pick lies among the first `n` slots; when no level there is
/// NaN, no slot is quieter than the pick and every earlier slot is strictly
/// louder (ties go to the first slot).
pub proof fn lemma_quietest_is_first_minimum(s: Seq<VoiceView>, n: int)
    requires
        1 <= n <= s.len(),
    ensures
        0 <= quietest_upto(s, n) < n,
        (forall|j: int| 0 <= j < n ==> !f32_is_nan(#[trigger] s[j].envelope_level)) ==> {
            &&& forall|j: int|
                0 <= j < n ==> !f32_lt(#[trigger] s[j].envelope_level, s[quietest_upto(s, n)].envelope_level)
            &&& forall|j: int|
                0 <= j < quietest_upto(s, n) ==> f32_lt(
                    s[quietest_upto(s, n)].envelope_level,
                    #[trigger] s[j].envelope_level,
                )
        },
    decreases n,
{
    if n > 1 {
        lemma_quietest_is_first_minimum(s, n - 1);
        let c = quietest_upto(s, n - 1);
        let r = quietest_upto(s, n);
        if forall|j: int| 0 <= j < n ==> !f32_is_nan(#[trigger] s[j].envelope_level) {
            let last = s[n - 1].envelope_level;
            let cl = s[c].envelope_level;
            assert(!f32_is_nan(last));
            assert(!f32_is_nan(cl));
            assert forall|j: int| 0 <= j < n implies !f32_lt(#[trigger] s[j].envelope_level, s[r].envelope_level) by {
                assert(!f32_is_nan(s[j].envelope_level));
                lemma_f32_lt_order(s[j].envelope_level, cl, last);
                lemma_f32_lt_order(last, cl, s[j].envelope_level);
                lemma_f32_lt_order(s[j].envelope_level, last, cl);
            }
            assert forall|j: int| 0 <= j < r implies f32_lt(s[r].envelope_level, #[trigger] s[j].envelope_level) by {
                assert(!f32_is_nan(s[j].envelope_level));
                lemma_f32_lt_order(last, cl, s[j].envelope_level);
                lemma_f32_lt_order(cl, last, s[j].envelope_level);
            }
        }
    }
}

/// Busy voices among the first `n` slots never outnumber the slots.
proof fn lemma_count_busy_bound(s: Seq<VoiceView>, n: int)
    requires
        0 <= n <= s.len(),
    ensures
        count_busy(s, n) <= n,
    decreases n,
{
    if n > 0 {
        lemma_count_busy_bound(s, n - 1);
    }
}

/// Replacing one slot changes the busy count only by that slot's contribution.
pub proof fn lemma_count_busy_update(s: Seq<VoiceView>, k: int, v: VoiceView, n: int)
    requires
        0 <= k < s.len(),
        0 <= n <= s.len(),
    ensures
        count_busy(s.update(k, v), n) + (if k < n && !voice_idle(s[k]) {
            1int
        } else {
            0int
        }) == count_busy(s, n) + (if k < n && !voice_idle(v) {
            1int
        } else {
            0int
        }),
    decreases n,
{
    if n > 0 {
        lemma_count_busy_update(s, k, v, n - 1);
    }
}

/// Starting a note adds one sounding voice when it takes an idle slot, and
/// leaves the count unchanged when it steals a busy one.
pub proof fn lemma_note_on_count(s: Seq<VoiceView>, k: int, note: u8, velocity: u8, channel: u8)
    requires
        0 <= k < s.len(),
    ensures
        count_busy(s.update(k, activated_voice(note, velocity, channel)), s.len() as int) == count_busy(
            s,
            s.len() as int,
        ) + if voice_idle(s[k]) {
            1int
        } else {
            0int
        },
{
    lemma_count_busy_update(s, k, activated_voice(note, velocity, channel), s.len() as int);
}

/// After a reset no voice is busy.
pub proof fn lemma_reset_count(n: nat)
    ensures
        count_busy(Seq::new(n, |i: int| idle_voice()), n as int) == 0,
{
    lemma_count_idle_prefix(Seq::new(n, |i: int| idle_voice()), n as int);
}

proof fn lemma_count_idle_prefix(s: Seq<VoiceView>, n: int)
    requires
        0 <= n <= s.len(),
        forall|j: int| 0 <= j < s.len() ==> #[trigger] voice_idle(s[j]),
    ensures
        count_busy(s, n) == 0,
    decreases n,
{
    if n > 0 {
        lemma_count_idle_prefix(s, n - 1);
        assert(voice_idle(s[n - 1]));
    }
}

/// A freed slot is available again: the next note goes to it or to an earlier
/// idle slot, and to it exactly when every other slot is busy.
pub proof fn lemma_freed_slot_reused(s: Seq<VoiceView>, i: int)
    requires
        0 <= i < s.len(),
    ensures
        has_idle(s.update(i, freed_voice(s[i]))),
        forall|k: int| #[trigger]
            is_first_idle(s.update(i, freed_voice(s[i])), k) ==> k
                <= i && ((forall|j: int| 0 <= j < s.len() && j != i ==> !#[trigger] voice_idle(s[j]))
                ==> k == i),
{
    let t = s.update(i, freed_voice(s[i]));
    assert(voice_idle(t[i]));
    assert forall|k: int| #[trigger] is_first_idle(t, k) implies k <= i && ((forall|j: int|
        0 <= j < s.len() && j != i ==> !#[trigger] voice_idle(s[j])) ==> k == i) by {
        if k > i {
            assert(!voice_idle(t[i]));
        }
        if forall|j: int| 0 <= j < s.len() && j != i ==> !#[trigger] voice_idle(s[j]) {
            if k != i {
                assert(voice_idle(t[k]));
                assert(!voice_idle(s[k]));
            }
        }
    }
}

/// A voice sounds exactly while it is not idle: an active voice and a
/// releasing one both produce sound.
pub proof fn lemma_sounding_is_not_idle(v: VoiceView)
    ensures
        voice_sounding(v) <==> !voice_idle(v),
        v.state == VoiceState::Releasing ==> voice_sounding(v),
        v.state == VoiceState::Active ==> voice_sounding(v),
{
}

/// The voice that `note_off` releases keeps sounding (it only starts its
/// release), keeps its note, channel and age, and a later block still ages it.
pub proof fn lemma_released_voice_still_sounds(s: Seq<VoiceView>, note: u8, channel: u8, k: int)
    requires
        is_first_match(s, note, channel, k),
    ensures
        ({
            let released = VoiceView { state: VoiceState::Releasing, ..s[k] };
            &&& voice_sounding(released)
            &&& !voice_idle(released)
            &&& !matches_note(released, note, channel)
            &&& released.note == note && released.channel == channel
            &&& aged_voice(released).age == if s[k].age == u64::MAX {
                s[k].age as int
            } else {
                s[k].age + 1
            }
        }),
{
}

} // verus!
