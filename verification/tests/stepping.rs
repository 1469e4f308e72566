use flight_sim::controller::{Input, InputMode};
use flight_sim::input::InputRecording;
use flight_sim::sim::{plan_step, StepOutcome, StepPlan};

fn recording() -> InputRecording {
    let mut rec = InputRecording::new();
    rec.add_input(0.0f32.to_bits(), Input { mode: InputMode::ACRO, inp: [1.0f32.to_bits(), 0, 0, 0] });
    rec.add_input(1.0f32.to_bits(), Input { mode: InputMode::ACRO, inp: [2.0f32.to_bits(), 0, 0, 0] });
    rec
}

#[test]
fn step_exits_after_recording() {
    let rec = recording();
    let p = plan_step(&rec, 1.5f32.to_bits(), 15000, 0);
    assert!(matches!(p, StepPlan::Exit));
    assert_eq!(p.outcome(), StepOutcome::Exit);
}

#[test]
fn step_runs_controller_on_multiples_of_period() {
    let rec = recording();
    match plan_step(&rec, 0.5f32.to_bits(), 20, 10) {
        StepPlan::Advance { input, controller_tick } => {
            assert!(controller_tick);
            assert_eq!(input.inp[0], 1.0f32.to_bits());
        }
        StepPlan::Exit => panic!("recording is not over"),
    }
    let p = plan_step(&rec, 1.0f32.to_bits(), 21, 10);
    assert_eq!(p.outcome(), StepOutcome::Continue);
    match p {
        StepPlan::Advance { input, controller_tick } => {
            assert!(!controller_tick);
            assert_eq!(input.inp[0], 2.0f32.to_bits());
        }
        StepPlan::Exit => panic!("recording is not over"),
    }
}
