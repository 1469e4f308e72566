//! Decisions of one simulation step.
//!
//! A step advances the physics world (done by the caller), then decides from
//! the step's time and tick whether replay is over, which recorded input is
//! in force, and whether the flight controller runs on this tick.
use vstd::prelude::*;
use vstd::arithmetic::div_mod::{lemma_fundamental_div_mod, lemma_mod_multiples_basic};
use crate::controller::Input;
use crate::input::{ended_at, input_at, replay_input, time_sorted, InputRecording};

verus! {

/// Whether the simulation goes on after a step.
#[derive(Clone, Copy, PartialEq, Eq, Debug, Structural)]
pub enum StepOutcome {
    Continue,
    Exit,
}

/// What the rest of a step does once the world has advanced.
#[derive(Clone, Copy, Debug)]
pub enum StepPlan {
    /// The input recording is over: stop without touching the drone.
    Exit,
    /// Apply `input`; run the flight controller first when
    /// `controller_tick`; then advance the drone and log the step.
    Advance { input: Input, controller_tick: bool },
}

impl StepPlan {
    /// The outcome the step reports.
    pub fn outcome(&self) -> (o: StepOutcome)
        ensures
            (o == StepOutcome::Exit) == (*self is Exit),
    {
        match self {
            StepPlan::Exit => StepOutcome::Exit,
            StepPlan::Advance { .. } => StepOutcome::Continue,
        }
    }
}

/// The controller runs on every `ticks_per_control`-th physics tick.
pub open spec fn controller_due(tick: u64, ticks_per_control: u64) -> bool {
    tick % ticks_per_control == 0
}

/// The controller runs on exactly the ticks that are whole multiples of the
/// period: 0, `k`, `2k`, ... and on no tick in between.
pub proof fn lemma_controller_runs_on_multiples(tick: u64, k: u64)
    requires
        k > 0,
    ensures
        controller_due(tick, k) <==> exists|m: int| 0 <= m && #[trigger] (m * k) == tick,
{
    if controller_due(tick, k) {
        lemma_fundamental_div_mod(tick as int, k as int);
        let m = tick as int / k as int;
        assert(m * k == tick) by (nonlinear_arith)
            requires
                tick as int == k * m + tick as int % k as int,
                tick as int % k as int == 0,
        ;
    }
    if exists|m: int| 0 <= m && #[trigger] (m * k) == tick {
        let m = choose|m: int| 0 <= m && #[trigger] (m * k) == tick;
        lemma_mod_multiples_basic(m, k as int);
    }
}

/// Plans the step that has just reached physics tick `tick` at time `time`
/// (bit pattern of an `f32`, in seconds).
///
/// Replay ends once `recording` is over at `time`; otherwise the step
/// applies the input `recording.get_input(time)` returns, running the
/// controller when `tick` is a multiple of `ticks_per_control` (which must
/// then be non-zero).
pub fn plan_step(recording: &InputRecording, time: u32, tick: u64, ticks_per_control: u64) -> (p:
    StepPlan)
    requires
        ended_at(recording@, time) || ticks_per_control > 0,
    ensures
        ended_at(recording@, time) ==> p is Exit,
        !ended_at(recording@, time) ==> (p matches StepPlan::Advance { input, controller_tick } && {
            &&& controller_tick == (tick % ticks_per_control == 0)
            &&& controller_tick == controller_due(tick, ticks_per_control)
            &&& input == replay_input(recording@, time)
            &&& time_sorted(recording@) ==> input == input_at(recording@, time)
        }),
{
    if recording.has_ended(time) {
        return StepPlan::Exit;
    }
    let input = recording.get_input(time);
    let controller_tick = tick % ticks_per_control == 0;
    StepPlan::Advance { input, controller_tick }
}

} // verus!
