//! Channel routing matrix — N×M routing with per-crosspoint gain.
//!
//! Routes audio from N input channels to M output channels with independent
//! gain at each crosspoint. Gains are single-precision values held as their
//! bit patterns (see [`crate::fbits`]); the matrix stores and looks them up.

use vstd::prelude::*;
use crate::fbits::{F32_ONE, F32_ZERO};

verus! {

/// Bit pattern of `0.5`.
pub const F32_HALF: u32 = 0x3F00_0000;

/// Bit pattern of `-0.5`.
pub const F32_MINUS_HALF: u32 = 0xBF00_0000;

/// Bit pattern of `-1.0`.
pub const F32_MINUS_ONE: u32 = 0xBF80_0000;

/// N×M channel routing matrix.
///
/// Each element `gains[out][inp]` is the gain applied when routing
/// input channel `inp` to output channel `out`; the gains are kept row by row
/// in one vector.
#[derive(Debug)]
pub struct RoutingMatrix {
    gains: Vec<u32>,
    inputs: usize,
    outputs: usize,
}

/// An `outputs × inputs` matrix of gains given by `f(output, input)`.
pub open spec fn matrix_of(outputs: nat, inputs: nat, f: spec_fn(int, int) -> u32) -> Seq<Seq<u32>> {
    Seq::new(outputs, |o: int| Seq::new(inputs, |i: int| f(o, i)))
}

proof fn lemma_cell_index(o: int, i: int, outputs: int, inputs: int)
    requires
        0 <= o < outputs,
        0 <= i < inputs,
    ensures
        0 <= o * inputs + i < outputs * inputs,
        o * inputs + i >= o * inputs,
{
    assert(0 <= o * inputs) by (nonlinear_arith)
        requires
            0 <= o,
            0 <= inputs,
    ;
    assert(o * inputs + i < outputs * inputs) by (nonlinear_arith)
        requires
            0 <= o < outputs,
            0 <= i < inputs,
    ;
}

proof fn lemma_cell_unique(o1: int, i1: int, o2: int, i2: int, inputs: int)
    requires
        0 <= i1 < inputs,
        0 <= i2 < inputs,
        0 <= o1,
        0 <= o2,
        o1 * inputs + i1 == o2 * inputs + i2,
    ensures
        o1 == o2 && i1 == i2,
{
    if o1 < o2 {
        assert(o1 * inputs + inputs <= o2 * inputs) by (nonlinear_arith)
            requires
                o1 < o2,
                inputs >= 0,
        ;
    } else if o2 < o1 {
        assert(o2 * inputs + inputs <= o1 * inputs) by (nonlinear_arith)
            requires
                o2 < o1,
                inputs >= 0,
        ;
    }
}

impl RoutingMatrix {
    #[verifier::type_invariant]
    spec fn well_formed(self) -> bool {
        self.gains@.len() == self.outputs * self.inputs
    }

    /// The gains, one row per output channel, one column per input channel.
    pub closed spec fn spec_gains(&self) -> Seq<Seq<u32>> {
        matrix_of(
            self.outputs as nat,
            self.inputs as nat,
            |o: int, i: int| self.gains@[o * self.inputs + i],
        )
    }

    /// Number of input channels.
    pub closed spec fn spec_inputs(&self) -> usize {
        self.inputs
    }

    /// Number of output channels.
    pub closed spec fn spec_outputs(&self) -> usize {
        self.outputs
    }

    /// Create a routing matrix with all crosspoints at zero.
    pub fn new(inputs: usize, outputs: usize) -> (r: Self)
        requires
            inputs * outputs <= usize::MAX,
        ensures
            r.spec_inputs() == inputs,
            r.spec_outputs() == outputs,
            r.spec_gains() == matrix_of(outputs as nat, inputs as nat, |o: int, i: int| F32_ZERO),
    {
        let n = inputs * outputs;
        let mut gains: Vec<u32> = Vec::new();
        let mut k: usize = 0;
        while k < n
            invariant
                k <= n,
                gains@.len() == k,
                forall|j: int| 0 <= j < k ==> #[trigger] gains@[j] == F32_ZERO,
            decreases n - k,
        {
            gains.push(F32_ZERO);
            k = k + 1;
        }
        proof {
            assert(outputs * inputs == inputs * outputs) by (nonlinear_arith);
        }
        let r = RoutingMatrix { gains, inputs, outputs };
        proof {
            assert forall|o: int, i: int| 0 <= o < outputs && 0 <= i < inputs implies #[trigger] r.spec_gains()[o][i]
                == F32_ZERO by {
                lemma_cell_index(o, i, outputs as int, inputs as int);
            }
            assert(r.spec_gains() =~~= matrix_of(outputs as nat, inputs as nat, |o: int, i: int| F32_ZERO));
        }
        r
    }

    /// Set the gain (bit pattern of an `f32`) at a crosspoint.
    ///
    /// Returns `false`, changing nothing, if indices are out of bounds.
    pub fn set_gain(&mut self, output_ch: usize, input_ch: usize, gain: u32) -> (r: bool)
        ensures
            r == (output_ch < old(self).spec_outputs() && input_ch < old(self).spec_inputs()),
            r ==> final(self).spec_gains() == old(self).spec_gains().update(
                output_ch as int,
                old(self).spec_gains()[output_ch as int].update(input_ch as int, gain),
            ),
            !r ==> final(self).spec_gains() == old(self).spec_gains(),
            final(self).spec_inputs() == old(self).spec_inputs(),
            final(self).spec_outputs() == old(self).spec_outputs(),
    {
        proof {
            use_type_invariant(&*self);
        }
        if output_ch < self.outputs && input_ch < self.inputs {
            proof {
                lemma_cell_index(output_ch as int, input_ch as int, self.outputs as int, self.inputs as int);
            }
            let total = self.gains.len();
            let k = output_ch * self.inputs + input_ch;
            self.gains[k] = gain;
            proof {
                let want = old(self).spec_gains().update(
                    output_ch as int,
                    old(self).spec_gains()[output_ch as int].update(input_ch as int, gain),
                );
                assert forall|o: int, i: int|
                    0 <= o < self.outputs && 0 <= i < self.inputs implies #[trigger] self.spec_gains()[o][i]
                    == want[o][i] by {
                    lemma_cell_index(o, i, self.outputs as int, self.inputs as int);
                    if o * self.inputs + i == k {
                        lemma_cell_unique(o, i, output_ch as int, input_ch as int, self.inputs as int);
                    }
                }
                assert(self.spec_gains() =~~= want);
            }
            true
        } else {
            false
        }
    }

    /// Get the gain (bit pattern of an `f32`) at a crosspoint; `0.0` out of bounds.
    pub fn gain(&self, output_ch: usize, input_ch: usize) -> (r: u32)
        ensures
            r == if output_ch < self.spec_outputs() && input_ch < self.spec_inputs() {
                self.spec_gains()[output_ch as int][input_ch as int]
            } else {
                F32_ZERO
            },
    {
        proof {
            use_type_invariant(self);
        }
        if output_ch < self.outputs && input_ch < self.inputs {
            proof {
                lemma_cell_index(output_ch as int, input_ch as int, self.outputs as int, self.inputs as int);
            }
            let total = self.gains.len();
            self.gains[output_ch * self.inputs + input_ch]
        } else {
            F32_ZERO
        }
    }

    /// Number of input channels.
    pub fn inputs(&self) -> (r: usize)
        ensures
            r == self.spec_inputs(),
    {
        self.inputs
    }

    /// Number of output channels.
    pub fn outputs(&self) -> (r: usize)
        ensures
            r == self.spec_outputs(),
    {
        self.outputs
    }

    /// Create a pass-through (identity) routing matrix: each input channel to
    /// the output channel of the same index at unity gain.
    pub fn identity(channels: usize) -> (r: Self)
        requires
            channels * channels <= usize::MAX,
        ensures
            r.spec_inputs() == channels,
            r.spec_outputs() == channels,
            r.spec_gains() == matrix_of(
                channels as nat,
                channels as nat,
                |o: int, i: int| if o == i { F32_ONE } else { F32_ZERO },
            ),
    {
        let mut m = Self::new(channels, channels);
        let mut c: usize = 0;
        proof {
            assert(m.spec_gains() =~~= matrix_of(
                channels as nat,
                channels as nat,
                |o: int, i: int| if o == i && o < 0 { F32_ONE } else { F32_ZERO },
            ));
        }
        while c < channels
            invariant
                c <= channels,
                m.spec_inputs() == channels,
                m.spec_outputs() == channels,
                m.spec_gains() == matrix_of(
                    channels as nat,
                    channels as nat,
                    |o: int, i: int| if o == i && o < c { F32_ONE } else { F32_ZERO },
                ),
            decreases channels - c,
        {
            let ok = m.set_gain(c, c, F32_ONE);
            c = c + 1;
            proof {
                assert(m.spec_gains() =~~= matrix_of(
                    channels as nat,
                    channels as nat,
                    |o: int, i: int| if o == i && o < c { F32_ONE } else { F32_ZERO },
                ));
            }
        }
        proof {
            assert(m.spec_gains() =~~= matrix_of(
                channels as nat,
                channels as nat,
                |o: int, i: int| if o == i { F32_ONE } else { F32_ZERO },
            ));
        }
        m
    }

    /// Create a mono-to-stereo matrix (duplicate to both channels).
    pub fn mono_to_stereo() -> (r: Self)
        ensures
            r.spec_inputs() == 1,
            r.spec_outputs() == 2,
            r.spec_gains() == seq![seq![F32_ONE], seq![F32_ONE]],
    {
        let mut m = Self::new(1, 2);
        m.set_gain(0, 0, F32_ONE);
        m.set_gain(1, 0, F32_ONE);
        proof {
            assert(m.spec_gains() =~~= seq![seq![F32_ONE], seq![F32_ONE]]);
        }
        m
    }

    /// Create a stereo-to-mono matrix (average L+R).
    pub fn stereo_to_mono() -> (r: Self)
        ensures
            r.spec_inputs() == 2,
            r.spec_outputs() == 1,
            r.spec_gains() == seq![seq![F32_HALF, F32_HALF]],
    {
        let mut m = Self::new(2, 1);
        m.set_gain(0, 0, F32_HALF);
        m.set_gain(0, 1, F32_HALF);
        proof {
            assert(m.spec_gains() =~~= seq![seq![F32_HALF, F32_HALF]]);
        }
        m
    }

    /// Create a mid-side encoder (stereo → M/S): mid = (L+R)/2, side = (L−R)/2.
    pub fn mid_side_encode() -> (r: Self)
        ensures
            r.spec_inputs() == 2,
            r.spec_outputs() == 2,
            r.spec_gains() == seq![seq![F32_HALF, F32_HALF], seq![F32_HALF, F32_MINUS_HALF]],
    {
        let mut m = Self::new(2, 2);
        m.set_gain(0, 0, F32_HALF);
        m.set_gain(0, 1, F32_HALF);
        m.set_gain(1, 0, F32_HALF);
        m.set_gain(1, 1, F32_MINUS_HALF);
        proof {
            assert(m.spec_gains() =~~= seq![seq![F32_HALF, F32_HALF], seq![F32_HALF, F32_MINUS_HALF]]);
        }
        m
    }

    /// Create a mid-side decoder (M/S → stereo): L = M+S, R = M−S.
    pub fn mid_side_decode() -> (r: Self)
        ensures
            r.spec_inputs() == 2,
            r.spec_outputs() == 2,
            r.spec_gains() == seq![seq![F32_ONE, F32_ONE], seq![F32_ONE, F32_MINUS_ONE]],
    {
        let mut m = Self::new(2, 2);
        m.set_gain(0, 0, F32_ONE);
        m.set_gain(0, 1, F32_ONE);
        m.set_gain(1, 0, F32_ONE);
        m.set_gain(1, 1, F32_MINUS_ONE);
        proof {
            assert(m.spec_gains() =~~= seq![seq![F32_ONE, F32_ONE], seq![F32_ONE, F32_MINUS_ONE]]);
        }
        m
    }
}

/// The gain table has one row per output channel and one column per input channel.
pub proof fn lemma_gains_shape(m: RoutingMatrix)
    ensures
        m.spec_gains().len() == m.spec_outputs(),
        forall|o: int| 0 <= o < m.spec_outputs() ==> #[trigger] m.spec_gains()[o].len() == m.spec_inputs(),
{
}

/// A gain written at a crosspoint is the gain read back there, and every
/// other crosspoint keeps its gain.
pub proof fn lemma_gain_read_after_set(
    m: RoutingMatrix,
    output_ch: int,
    input_ch: int,
    gain: u32,
    o: int,
    i: int,
)
    requires
        0 <= output_ch < m.spec_outputs(),
        0 <= input_ch < m.spec_inputs(),
        0 <= o < m.spec_outputs(),
        0 <= i < m.spec_inputs(),
    ensures
        ({
            let g = m.spec_gains();
            let after = g.update(output_ch, g[output_ch].update(input_ch, gain));
            &&& after.len() == g.len()
            &&& after[o].len() == g[o].len()
            &&& after[o][i] == if o == output_ch && i == input_ch {
                gain
            } else {
                g[o][i]
            }
        }),
{
    lemma_gains_shape(m);
}

} // verus!
