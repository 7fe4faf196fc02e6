//! MIDI routing — channel/note filtering and velocity curves.

use vstd::prelude::*;
use super::NoteEvent;

verus! {

/// Velocity transformation curve.
#[derive(Debug, Clone, Copy, PartialEq, Eq, Structural)]
#[non_exhaustive]
pub enum VelocityCurve {
    /// Linear passthrough (identity).
    Linear,
    /// Gentler response — compresses high velocities (sqrt curve).
    Soft,
    /// More aggressive response — expands high velocities (square curve).
    Hard,
    /// Always emit a fixed velocity regardless of input.
    Fixed(u8),
}

/// `r` is the integer square root of `n`.
pub open spec fn is_isqrt(r: nat, n: nat) -> bool {
    r * r <= n < (r + 1) * (r + 1)
}

/// The soft curve: `floor(127 * sqrt(v / 127))`, i.e. the integer square root of `127 * v`.
pub open spec fn soft_velocity(v: u8) -> u8 {
    (choose|r: nat| #[trigger] is_isqrt(r, 127 * v as nat)) as u8
}

/// The hard curve: `floor(127 * (v / 127)^2)` = `v * v / 127`, saturated at 255.
pub open spec fn hard_velocity(v: u8) -> u8 {
    if v * v / 127 > 255 {
        255
    } else {
        (v * v / 127) as u8
    }
}

proof fn lemma_isqrt_unique(r1: nat, r2: nat, n: nat)
    requires
        is_isqrt(r1, n),
        is_isqrt(r2, n),
    ensures
        r1 == r2,
{
    if r1 < r2 {
        assert((r1 + 1) * (r1 + 1) <= r2 * r2) by (nonlinear_arith)
            requires
                r1 + 1 <= r2,
        ;
    } else if r2 < r1 {
        assert((r2 + 1) * (r2 + 1) <= r1 * r1) by (nonlinear_arith)
            requires
                r2 + 1 <= r1,
        ;
    }
}

/// Integer square root of `n` (at most 127 * 255).
fn isqrt_small(n: u32) -> (r: u32)
    requires
        n <= 127 * 255,
    ensures
        is_isqrt(r as nat, n as nat),
        r <= 180,
{
    let mut r: u32 = 0;
    let mut next_sq: u32 = 1;
    while next_sq <= n
        invariant
            r * r <= n,
            next_sq == (r + 1) * (r + 1),
            n <= 127 * 255,
            r <= 180,
        decreases 181 - r,
    {
        proof {
            lemma_square_step(r as int);
            lemma_root_bound((r + 1) as int, n as int);
        }
        r = r + 1;
        next_sq = next_sq + 2 * r + 1;
    }
    r
}

proof fn lemma_square_step(r: int)
    ensures
        (r + 2) * (r + 2) == (r + 1) * (r + 1) + 2 * (r + 1) + 1,
{
    assert((r + 2) * (r + 2) == (r + 1) * (r + 1) + 2 * (r + 1) + 1) by (nonlinear_arith);
}

proof fn lemma_root_bound(r: int, n: int)
    requires
        0 <= r,
        r * r <= n,
        n <= 127 * 255,
    ensures
        r <= 180,
{
    if r > 180 {
        assert(r * r >= 181 * 181) by (nonlinear_arith)
            requires
                r >= 181,
        ;
    }
}

impl VelocityCurve {
    /// The velocity that this curve gives to `velocity`.
    pub open spec fn spec_apply(&self, velocity: u8) -> u8 {
        match self {
            VelocityCurve::Linear => velocity,
            VelocityCurve::Soft => soft_velocity(velocity),
            VelocityCurve::Hard => hard_velocity(velocity),
            VelocityCurve::Fixed(v) => *v,
        }
    }

    /// Apply the velocity curve to a raw MIDI velocity value.
    ///
    /// The soft and hard curves are the truncated values of `127 * sqrt(v / 127)`
    /// and `127 * (v / 127)^2`, computed exactly on integers.
    pub fn apply(&self, velocity: u8) -> (r: u8)
        ensures
            r == self.spec_apply(velocity),
            *self == VelocityCurve::Soft ==> is_isqrt(r as nat, 127 * velocity as nat),
    {
        match self {
            VelocityCurve::Linear => velocity,
            VelocityCurve::Soft => {
                let n = 127 * (velocity as u32);
                let r = isqrt_small(n);
                proof {
                    let c = choose|x: nat| #[trigger] is_isqrt(x, 127 * velocity as nat);
                    assert(is_isqrt(r as nat, 127 * velocity as nat));
                    lemma_isqrt_unique(c, r as nat, 127 * velocity as nat);
                }
                r as u8
            },
            VelocityCurve::Hard => {
                let v = velocity as u32;
                proof {
                    assert(v * v <= 255 * 255) by (nonlinear_arith)
                        requires
                            v <= 255,
                    ;
                }
                let q = v * v / 127;
                if q > 255 {
                    255
                } else {
                    q as u8
                }
            },
            VelocityCurve::Fixed(v) => *v,
        }
    }
}

/// Shape of the curves on 7-bit velocities: both keep 0 and 127 in place and
/// preserve order; the soft curve lifts every velocity (never below linear)
/// and the hard curve lowers it (never above linear).
pub proof fn lemma_velocity_curve_shape(a: u8, b: u8)
    requires
        a <= b <= 127,
    ensures
        soft_velocity(0) == 0,
        soft_velocity(127) == 127,
        hard_velocity(0) == 0,
        hard_velocity(127) == 127,
        soft_velocity(a) >= a,
        hard_velocity(a) <= a,
        soft_velocity(a) <= soft_velocity(b),
        hard_velocity(a) <= hard_velocity(b),
{
    lemma_soft_is_isqrt(0);
    lemma_soft_is_isqrt(127);
    assert(is_isqrt(0, 0)) by (nonlinear_arith);
    lemma_isqrt_unique(soft_velocity(0) as nat, 0, 0);
    assert(is_isqrt(127, 127 * 127)) by (nonlinear_arith);
    lemma_isqrt_unique(soft_velocity(127) as nat, 127, 127 * 127);
    lemma_soft_is_isqrt(a);
    lemma_soft_is_isqrt(b);
    let x = a as int;
    let y = b as int;
    let sa = soft_velocity(a) as int;
    let sb = soft_velocity(b) as int;
    assert(sa >= x) by (nonlinear_arith)
        requires
            127 * x < (sa + 1) * (sa + 1),
            0 <= x <= 127,
            0 <= sa,
    ;
    assert(sa <= sb) by (nonlinear_arith)
        requires
            sa * sa <= 127 * x,
            127 * y < (sb + 1) * (sb + 1),
            x <= y,
            0 <= sa,
            0 <= sb,
    ;
    assert(x * x / 127 <= x) by (nonlinear_arith)
        requires
            0 <= x <= 127,
    ;
    assert(x * x / 127 <= y * y / 127) by (nonlinear_arith)
        requires
            0 <= x <= y,
    ;
    assert(127int * 127 / 127 == 127) by (nonlinear_arith);
    assert(0int * 0 / 127 == 0) by (nonlinear_arith);
}

/// The soft curve's value is the integer square root of `127 * v`.
pub proof fn lemma_soft_is_isqrt(v: u8)
    ensures
        is_isqrt(soft_velocity(v) as nat, 127 * v as nat),
        soft_velocity(v) <= 180,
{
    let n = 127 * v as nat;
    let w = witness_isqrt(n);
    let c = choose|r: nat| #[trigger] is_isqrt(r, n);
    lemma_isqrt_unique(c, w, n);
}

proof fn witness_isqrt(n: nat) -> (r: nat)
    requires
        n <= 127 * 255,
    ensures
        is_isqrt(r, n),
        r <= 180,
    decreases n,
{
    if n == 0 {
        assert(is_isqrt(0, 0)) by (nonlinear_arith);
        0
    } else {
        let p = witness_isqrt((n - 1) as nat);
        let q = p as int;
        let m = n as int;
        if (p + 1) * (p + 1) <= n {
            assert((q + 1) * (q + 1) <= m < (q + 2) * (q + 2)) by (nonlinear_arith)
                requires
                    (q + 1) * (q + 1) <= m,
                    m - 1 < (q + 1) * (q + 1),
                    0 <= q,
            ;
            lemma_root_bound(q + 1, m);
            p + 1
        } else {
            p
        }
    }
}

/// A MIDI routing rule — filters and transforms events.
///
/// Generic (not tied to track UUIDs) so it works outside DAW context.
#[derive(Debug)]
pub struct MidiRoute {
    /// If set, only events on this MIDI channel (0–15) pass through.
    channel_filter: Option<u8>,
    /// Velocity transformation.
    velocity_curve: VelocityCurve,
    /// Lowest note that passes (inclusive).
    note_min: u8,
    /// Highest note that passes (inclusive).
    note_max: u8,
}

/// `x` clamped to at most `hi`.
pub open spec fn clamp_max(x: u8, hi: u8) -> u8 {
    if x > hi {
        hi
    } else {
        x
    }
}

/// A channel filter with its channel clamped to 0–15.
pub open spec fn clamp_channel(channel: Option<u8>) -> Option<u8> {
    match channel {
        Some(ch) => Some(clamp_max(ch, 15)),
        None => None,
    }
}

/// A note range clamped to 0–127 with `min <= max`.
pub open spec fn clamp_range(min: u8, max: u8) -> (u8, u8) {
    let lo = clamp_max(min, 127);
    let hi = clamp_max(max, 127);
    (lo, if hi < lo {
        lo
    } else {
        hi
    })
}

fn clamp_channel_exec(channel: Option<u8>) -> (r: Option<u8>)
    ensures
        r == clamp_channel(channel),
{
    match channel {
        Some(ch) => Some(if ch > 15 {
            15
        } else {
            ch
        }),
        None => None,
    }
}

fn clamp_range_exec(min: u8, max: u8) -> (r: (u8, u8))
    ensures
        r == clamp_range(min, max),
{
    let lo = if min > 127 {
        127
    } else {
        min
    };
    let hi = if max > 127 {
        127
    } else {
        max
    };
    (lo, if hi < lo {
        lo
    } else {
        hi
    })
}

impl MidiRoute {
    #[verifier::type_invariant]
    spec fn well_formed(self) -> bool {
        &&& (self.channel_filter matches Some(ch) ==> ch <= 15)
        &&& self.note_min <= self.note_max <= 127
    }

    /// The channel this route accepts (`None` = every channel).
    pub closed spec fn spec_channel_filter(&self) -> Option<u8> {
        self.channel_filter
    }

    /// The velocity curve this route applies.
    pub closed spec fn spec_velocity_curve(&self) -> VelocityCurve {
        self.velocity_curve
    }

    /// The inclusive note range this route accepts.
    pub closed spec fn spec_note_range(&self) -> (u8, u8) {
        (self.note_min, self.note_max)
    }

    /// What this route does to `event`: `None` if rejected, otherwise the event
    /// with its velocity passed through the curve.
    pub open spec fn spec_filter(&self, event: NoteEvent) -> Option<NoteEvent> {
        let (lo, hi) = self.spec_note_range();
        if (self.spec_channel_filter() matches Some(ch) && event.channel != ch) {
            None
        } else if event.note < lo || event.note > hi {
            None
        } else {
            Some(NoteEvent { velocity: self.spec_velocity_curve().spec_apply(event.velocity), ..event })
        }
    }

    /// Create a new route with the given settings.
    ///
    /// `note_range` is clamped so that min <= max and both are in 0–127, and the
    /// channel is clamped to 0–15.
    pub fn new(channel_filter: Option<u8>, velocity_curve: VelocityCurve, note_range: (u8, u8)) -> (r:
        Self)
        ensures
            r.spec_channel_filter() == clamp_channel(channel_filter),
            r.spec_velocity_curve() == velocity_curve,
            r.spec_note_range() == clamp_range(note_range.0, note_range.1),
    {
        let (note_min, note_max) = clamp_range_exec(note_range.0, note_range.1);
        MidiRoute { channel_filter: clamp_channel_exec(channel_filter), velocity_curve, note_min, note_max }
    }

    /// Create a route that passes all events unmodified.
    ///
    /// Every event whose note is a MIDI note (0–127) passes unchanged.
    pub fn passthrough() -> (r: Self)
        ensures
            r.spec_channel_filter() == None::<u8>,
            r.spec_velocity_curve() == VelocityCurve::Linear,
            r.spec_note_range() == (0u8, 127u8),
            forall|e: NoteEvent| e.note <= 127 ==> #[trigger] r.spec_filter(e) == Some(e),
    {
        let r = MidiRoute {
            channel_filter: None,
            velocity_curve: VelocityCurve::Linear,
            note_min: 0,
            note_max: 127,
        };
        assert forall|e: NoteEvent| e.note <= 127 implies #[trigger] r.spec_filter(e) == Some(e) by {
            assert(NoteEvent { velocity: e.velocity, ..e } == e);
        }
        r
    }

    /// Channel filter (None = all channels).
    pub fn channel_filter(&self) -> (r: Option<u8>)
        ensures
            r == self.spec_channel_filter(),
            r matches Some(ch) ==> ch <= 15,
    {
        proof { use_type_invariant(self); }
        self.channel_filter
    }

    /// Velocity transformation curve.
    pub fn velocity_curve(&self) -> (r: &VelocityCurve)
        ensures
            *r == self.spec_velocity_curve(),
    {
        &self.velocity_curve
    }

    /// Inclusive note range (min, max); always `min <= max <= 127`.
    pub fn note_range(&self) -> (r: (u8, u8))
        ensures
            r == self.spec_note_range(),
            r.0 <= r.1 <= 127,
    {
        proof { use_type_invariant(self); }
        (self.note_min, self.note_max)
    }

    /// Set the channel filter. Channel is clamped to 0–15.
    pub fn set_channel_filter(&mut self, channel: Option<u8>)
        ensures
            final(self).spec_channel_filter() == clamp_channel(channel),
            final(self).spec_velocity_curve() == old(self).spec_velocity_curve(),
            final(self).spec_note_range() == old(self).spec_note_range(),
    {
        proof { use_type_invariant(&*self); }
        self.channel_filter = clamp_channel_exec(channel);
    }

    /// Set the velocity curve.
    pub fn set_velocity_curve(&mut self, curve: VelocityCurve)
        ensures
            final(self).spec_channel_filter() == old(self).spec_channel_filter(),
            final(self).spec_velocity_curve() == curve,
            final(self).spec_note_range() == old(self).spec_note_range(),
    {
        proof { use_type_invariant(&*self); }
        self.velocity_curve = curve;
    }

    /// Set the note range. Values are clamped to 0–127 and min <= max.
    pub fn set_note_range(&mut self, min: u8, max: u8)
        ensures
            final(self).spec_channel_filter() == old(self).spec_channel_filter(),
            final(self).spec_velocity_curve() == old(self).spec_velocity_curve(),
            final(self).spec_note_range() == clamp_range(min, max),
    {
        proof { use_type_invariant(&*self); }
        let (note_min, note_max) = clamp_range_exec(min, max);
        *self = MidiRoute {
            channel_filter: self.channel_filter,
            velocity_curve: self.velocity_curve,
            note_min,
            note_max,
        };
    }

    /// Filter and transform a NoteEvent. Returns None if the event is rejected.
    pub fn filter_event(&self, event: &NoteEvent) -> (r: Option<NoteEvent>)
        ensures
            r == self.spec_filter(*event),
    {
        if let Some(ch) = self.channel_filter {
            if event.channel != ch {
                return None;
            }
        }
        if event.note < self.note_min || event.note > self.note_max {
            return None;
        }
        let velocity = self.velocity_curve.apply(event.velocity);
        Some(NoteEvent { velocity, ..*event })
    }
}

impl Clone for MidiRoute {
    fn clone(&self) -> (r: Self)
        ensures
            r.spec_channel_filter() == self.spec_channel_filter(),
            r.spec_velocity_curve() == self.spec_velocity_curve(),
            r.spec_note_range() == self.spec_note_range(),
    {
        proof { use_type_invariant(self); }
        MidiRoute {
            channel_filter: self.channel_filter,
            velocity_curve: self.velocity_curve,
            note_min: self.note_min,
            note_max: self.note_max,
        }
    }
}

impl Default for MidiRoute {
    fn default() -> (r: Self)
        ensures
            r.spec_channel_filter() == None::<u8>,
            r.spec_velocity_curve() == VelocityCurve::Linear,
            r.spec_note_range() == (0u8, 127u8),
    {
        Self::passthrough()
    }
}

/// An event that a route lets through is on the route's channel (when it has
/// one), has a note inside the route's range, and differs from the input only
/// in its velocity, which is the curve's value for the input velocity.
pub proof fn lemma_filter_output_conforms(route: MidiRoute, event: NoteEvent)
    requires
        route.spec_filter(event) is Some,
    ensures
        ({
            let out = route.spec_filter(event)->0;
            &&& (route.spec_channel_filter() matches Some(ch) ==> out.channel == ch)
            &&& route.spec_note_range().0 <= out.note <= route.spec_note_range().1
            &&& out.position == event.position
            &&& out.duration == event.duration
            &&& out.note == event.note
            &&& out.channel == event.channel
            &&& out.velocity == route.spec_velocity_curve().spec_apply(event.velocity)
        }),
{
}

} // verus!
