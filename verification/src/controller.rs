//! Pilot input as the controller receives it.
use vstd::prelude::*;
use crate::float_bits::{f32_bits_eq, f32_eq, is_finite, lemma_f32_eq_is_numeric, scaled_value};

verus! {

/// Flight mode selected by the pilot.
#[derive(Clone, Copy, PartialEq, Eq, Debug, Structural)]
pub enum InputMode {
    /// Rate mode: sticks command angular velocity.
    ACRO,
    /// Self-levelling mode: sticks command attitude.
    LEVEL,
}

impl Default for InputMode {
    fn default() -> (m: Self)
        ensures
            m == InputMode::ACRO,
    {
        InputMode::ACRO
    }
}

/// One sample of the pilot's sticks: the flight mode and the four stick
/// axes (roll, pitch, yaw, throttle), each as the bit pattern of its `f32`.
#[derive(Clone, Copy, Debug)]
pub struct Input {
    pub mode: InputMode,
    pub inp: [u32; 4],
}

/// Two inputs compare equal as the `f32` inputs they encode do: same mode and
/// every axis IEEE-equal.
pub open spec fn input_eq(a: Input, b: Input) -> bool {
    &&& a.mode == b.mode
    &&& forall|i: int| 0 <= i < 4 ==> f32_eq(#[trigger] a.inp@[i], b.inp@[i])
}

/// The neutral input: rate mode, every axis `+0.0`.
pub open spec fn neutral_input() -> Input {
    Input { mode: InputMode::ACRO, inp: [0u32, 0u32, 0u32, 0u32] }
}

/// Two inputs with finite axes are equal exactly when they have the same
/// mode and every stick axis has the same numeric value (so an axis and its
/// negation, when non-zero, make the inputs differ).
pub proof fn lemma_input_eq_is_numeric(a: Input, b: Input)
    requires
        forall|i: int| 0 <= i < 4 ==> is_finite(#[trigger] a.inp@[i]) && is_finite(b.inp@[i]),
    ensures
        input_eq(a, b) <==> (a.mode == b.mode && forall|i: int|
            0 <= i < 4 ==> scaled_value(#[trigger] a.inp@[i]) == scaled_value(b.inp@[i])),
{
    assert forall|i: int| 0 <= i < 4 implies (f32_eq(#[trigger] a.inp@[i], b.inp@[i])
        <==> scaled_value(a.inp@[i]) == scaled_value(b.inp@[i])) by {
        lemma_f32_eq_is_numeric(a.inp@[i], b.inp@[i]);
    }
}

impl Default for Input {
    fn default() -> (r: Self)
        ensures
            r == neutral_input(),
    {
        Input { mode: InputMode::ACRO, inp: [0u32, 0u32, 0u32, 0u32] }
    }
}

impl PartialEq for Input {
    fn eq(&self, other: &Self) -> (r: bool) {
        let same_mode = self.mode == other.mode;
        let x = f32_bits_eq(self.inp[0], other.inp[0]);
        let y = f32_bits_eq(self.inp[1], other.inp[1]);
        let z = f32_bits_eq(self.inp[2], other.inp[2]);
        let w = f32_bits_eq(self.inp[3], other.inp[3]);
        proof {
            if x && y && z && w {
                assert forall|i: int| 0 <= i < 4 implies f32_eq(
                    #[trigger] self.inp@[i],
                    other.inp@[i],
                ) by {
                    if i == 0 {
                    } else if i == 1 {
                    } else if i == 2 {
                    } else {
                    }
                }
            }
        }
        same_mode && x && y && z && w
    }
}

impl vstd::std_specs::cmp::PartialEqSpecImpl for Input {
    open spec fn obeys_eq_spec() -> bool {
        true
    }

    open spec fn eq_spec(&self, other: &Self) -> bool {
        input_eq(*self, *other)
    }
}

} // verus!
