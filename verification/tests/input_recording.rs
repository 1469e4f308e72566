use flight_sim::controller::{Input, InputMode};
use flight_sim::input::{InputRecord, InputRecording};

fn input(mode: InputMode, axes: [f32; 4]) -> Input {
    Input {
        mode,
        inp: [axes[0].to_bits(), axes[1].to_bits(), axes[2].to_bits(), axes[3].to_bits()],
    }
}

fn t(x: f32) -> u32 {
    x.to_bits()
}

#[test]
fn input_mode_defaults_to_rate_mode() {
    assert_eq!(InputMode::default(), InputMode::ACRO);
}

#[test]
fn neutral_input_is_default() {
    let d = Input::default();
    assert_eq!(d.mode, InputMode::ACRO);
    assert_eq!(d.inp, [0, 0, 0, 0]);
}

#[test]
fn input_equality_follows_float_equality() {
    let a = input(InputMode::ACRO, [0.0, 1.0, 2.0, 3.0]);
    let b = input(InputMode::ACRO, [-0.0, 1.0, 2.0, 3.0]);
    assert!(a == b);
    let c = input(InputMode::LEVEL, [0.0, 1.0, 2.0, 3.0]);
    assert!(a != c);
    let n = input(InputMode::ACRO, [f32::NAN, 1.0, 2.0, 3.0]);
    assert!(n != n);
    let d = input(InputMode::ACRO, [0.0, 1.0, 2.5, 3.0]);
    assert!(a != d);
}

#[test]
fn add_input_returns_its_argument_and_records_changes_only() {
    let mut rec = InputRecording::new();
    let a = input(InputMode::ACRO, [0.1, 0.0, 0.0, 0.5]);
    let b = input(InputMode::ACRO, [0.2, 0.0, 0.0, 0.5]);
    assert!(rec.add_input(t(0.0), a) == a);
    assert_eq!(rec.records().len(), 1);
    rec.add_input(t(0.1), a);
    assert_eq!(rec.records().len(), 1);
    rec.add_input(t(0.2), b);
    assert_eq!(rec.records().len(), 2);
    assert_eq!(rec.records()[1].time, t(0.2));
    assert_eq!(rec.records()[1].input.inp, b.inp);
    // equal as floats, though not bit for bit: still no new record
    let b_neg_zero = input(InputMode::ACRO, [0.2, -0.0, 0.0, 0.5]);
    rec.add_input(t(0.3), b_neg_zero);
    assert_eq!(rec.records().len(), 2);
    // a NaN axis never equals the last input: always recorded
    let nan = input(InputMode::ACRO, [f32::NAN, 0.0, 0.0, 0.5]);
    rec.add_input(t(0.4), nan);
    rec.add_input(t(0.5), nan);
    assert_eq!(rec.records().len(), 4);
}

#[test]
fn get_input_on_empty_recording_is_neutral() {
    let rec = InputRecording::default();
    let r = rec.get_input(t(1.0));
    assert_eq!(r.mode, InputMode::ACRO);
    assert_eq!(r.inp, [0, 0, 0, 0]);
}

fn sample_recording() -> InputRecording {
    let mut rec = InputRecording::new();
    rec.add_input(t(0.5), input(InputMode::ACRO, [1.0, 0.0, 0.0, 0.0]));
    rec.add_input(t(1.0), input(InputMode::ACRO, [2.0, 0.0, 0.0, 0.0]));
    rec.add_input(t(2.0), input(InputMode::LEVEL, [3.0, 0.0, 0.0, 0.0]));
    rec
}

#[test]
fn get_input_takes_last_record_at_or_before_time() {
    let rec = sample_recording();
    assert_eq!(rec.get_input(t(0.5)).inp[0], t(1.0));
    assert_eq!(rec.get_input(t(0.75)).inp[0], t(1.0));
    assert_eq!(rec.get_input(t(1.0)).inp[0], t(2.0));
    assert_eq!(rec.get_input(t(1.999)).inp[0], t(2.0));
    assert_eq!(rec.get_input(t(2.0)).mode, InputMode::LEVEL);
    assert_eq!(rec.get_input(t(100.0)).inp[0], t(3.0));
}

#[test]
fn get_input_before_first_record_is_neutral() {
    let rec = sample_recording();
    for time in [0.0f32, -3.0, 0.4999] {
        let r = rec.get_input(t(time));
        assert_eq!(r.mode, InputMode::ACRO);
        assert_eq!(r.inp, [0, 0, 0, 0]);
    }
}

#[test]
fn get_input_on_unsorted_records_gives_one_of_them() {
    let records = vec![
        InputRecord { input: input(InputMode::ACRO, [5.0, 0.0, 0.0, 0.0]), time: t(3.0) },
        InputRecord { input: input(InputMode::ACRO, [6.0, 0.0, 0.0, 0.0]), time: t(1.0) },
        InputRecord { input: input(InputMode::ACRO, [7.0, 0.0, 0.0, 0.0]), time: t(2.0) },
    ];
    let rec = InputRecording::from_records(records);
    let r = rec.get_input(t(1.5)).inp[0];
    assert!(r == 0 || r == t(5.0) || r == t(6.0) || r == t(7.0));
}

#[test]
fn has_ended_after_last_record_only() {
    let rec = sample_recording();
    assert!(!rec.has_ended(t(0.0)));
    assert!(!rec.has_ended(t(2.0)));
    assert!(rec.has_ended(t(2.0001)));
    assert!(!rec.has_ended(f32::NAN.to_bits()));
}

#[test]
fn empty_recording_ends_after_zero() {
    let rec = InputRecording::new();
    assert!(!rec.has_ended(t(0.0)));
    assert!(!rec.has_ended(t(-0.0)));
    assert!(rec.has_ended(t(0.001)));
}

#[test]
fn replay_gives_back_the_latest_recorded_input() {
    let mut rec = sample_recording();
    let x = input(InputMode::LEVEL, [9.0, 8.0, 7.0, 6.0]);
    rec.add_input(t(3.0), x);
    assert!(rec.get_input(t(3.0)) == x);
    assert!(rec.get_input(t(10.0)) == x);
    // taking the same input again later changes nothing
    rec.add_input(t(4.0), x);
    assert!(rec.get_input(t(4.0)) == x);
    assert_eq!(rec.records().len(), 4);
}

#[test]
fn cloned_recording_has_same_records() {
    let rec = sample_recording();
    let c = rec.clone();
    assert_eq!(c.records().len(), 3);
    assert_eq!(c.records()[2].time, t(2.0));
}

#[test]
fn default_record_is_neutral_at_zero() {
    let r = InputRecord::default();
    assert_eq!(r.time, 0);
    assert_eq!(r.input.inp, [0, 0, 0, 0]);
}
