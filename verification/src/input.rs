//! Recordings of pilot input over time.
//!
//! A recording is a list of time-stamped inputs.  While flying, a new record
//! is appended only when the input changes; when replaying, the input in
//! force at a time is the one of the last record at or before that time.
use vstd::prelude::*;
use crate::controller::{input_eq, neutral_input, Input, InputMode};
use crate::float_bits::{
    f32_bits_lt, f32_lt, is_finite, lemma_f32_lt_is_numeric, lemma_total_key_follows_value,
    scaled_value, total_key, total_order_key,
};

verus! {

/// An input together with the simulation time (bit pattern of an `f32`, in
/// seconds) from which it is in force.
#[derive(Clone, Copy, Debug)]
pub struct InputRecord {
    pub input: Input,
    pub time: u32,
}

impl Default for InputRecord {
    fn default() -> (r: Self)
        ensures
            r == (InputRecord { input: neutral_input(), time: 0u32 }),
    {
        InputRecord { input: Input::default(), time: 0u32 }
    }
}

/// A sequence of input records, in the order they were taken.
#[derive(Debug)]
pub struct InputRecording {
    records: Vec<InputRecord>,
}

impl View for InputRecording {
    type V = Seq<InputRecord>;

    closed spec fn view(&self) -> Seq<InputRecord> {
        self.records@
    }
}

/// Record times never decrease (in the total order of `f32`).
pub open spec fn time_sorted(s: Seq<InputRecord>) -> bool {
    forall|i: int, j: int|
        0 <= i <= j < s.len() ==> total_key(#[trigger] s[i].time) <= total_key(#[trigger] s[j].time)
}

/// No record repeats the input of the record before it.
pub open spec fn changes_only(s: Seq<InputRecord>) -> bool {
    forall|i: int| 0 < i < s.len() ==> !input_eq(#[trigger] s[i - 1].input, s[i].input)
}

/// Index of the last record whose time is at or before `t`, or -1 if none.
pub open spec fn last_at_or_before(s: Seq<InputRecord>, t: u32) -> int
    decreases s.len(),
{
    if s.len() == 0 {
        -1
    } else if total_key(s.last().time) <= total_key(t) {
        s.len() - 1
    } else {
        last_at_or_before(s.drop_last(), t)
    }
}

/// The input a replay uses at time `t`: that of the last record at or before
/// `t`; the neutral (empty) input when `t` precedes every record or there
/// are no records.
pub open spec fn input_at(s: Seq<InputRecord>, t: u32) -> Input {
    if last_at_or_before(s, t) < 0 {
        neutral_input()
    } else {
        s[last_at_or_before(s, t)].input
    }
}

/// Where the binary search over `s[lo..hi]` for key `key` stops: the first
/// index whose record it finds after `key` (the number of records at or
/// before `key` when the records are sorted).
pub open spec fn search_bound(s: Seq<InputRecord>, key: int, lo: int, hi: int) -> int
    decreases hi - lo,
{
    if 0 <= lo < hi <= s.len() {
        let mid = lo + (hi - lo) / 2;
        if total_key(s[mid].time) <= key {
            search_bound(s, key, mid + 1, hi)
        } else {
            search_bound(s, key, lo, mid)
        }
    } else {
        lo
    }
}

/// The input replay takes at time `t`: the record just before where the
/// binary search over all records stops, or the neutral input when it stops
/// at the start.  For sorted records this is `input_at(s, t)`.
pub open spec fn replay_input(s: Seq<InputRecord>, t: u32) -> Input {
    let k = search_bound(s, total_key(t), 0, s.len() as int);
    if k <= 0 {
        neutral_input()
    } else {
        s[k - 1].input
    }
}

/// Time of the last record, `+0.0` when there is none.
pub open spec fn last_time(s: Seq<InputRecord>) -> u32 {
    if s.len() == 0 {
        0u32
    } else {
        s.last().time
    }
}

/// The recording is over at `t` when its last record lies strictly before `t`.
pub open spec fn ended_at(s: Seq<InputRecord>, t: u32) -> bool {
    f32_lt(last_time(s), t)
}

/// The records after taking input `inp` at time `t`: unchanged when `inp`
/// equals the last recorded input, otherwise with a new record at the end.
pub open spec fn recorded(s: Seq<InputRecord>, t: u32, inp: Input) -> Seq<InputRecord> {
    if s.len() > 0 && input_eq(s.last().input, inp) {
        s
    } else {
        s.push(InputRecord { input: inp, time: t })
    }
}

/// When every record before `k` lies at or before `t` and every record from
/// `k` on lies after it, the last record at or before `t` is `k - 1`.
proof fn lemma_last_at_or_before_split(s: Seq<InputRecord>, t: u32, k: int)
    requires
        0 <= k <= s.len(),
        forall|i: int| 0 <= i < k ==> total_key(#[trigger] s[i].time) <= total_key(t),
        forall|i: int| k <= i < s.len() ==> total_key(#[trigger] s[i].time) > total_key(t),
    ensures
        last_at_or_before(s, t) == k - 1,
    decreases s.len(),
{
    if s.len() > 0 && k < s.len() {
        let p = s.drop_last();
        assert forall|i: int| k <= i < p.len() implies total_key(#[trigger] p[i].time) > total_key(
            t,
        ) by {
            assert(p[i] == s[i]);
        }
        assert forall|i: int| 0 <= i < k implies total_key(#[trigger] p[i].time) <= total_key(t) by {
            assert(p[i] == s[i]);
        }
        lemma_last_at_or_before_split(p, t, k);
    }
}

/// Recording live keeps a recording in time order: when the records are
/// sorted and the new time is not before the last record, they stay sorted.
pub proof fn lemma_recording_keeps_time_order(s: Seq<InputRecord>, t: u32, inp: Input)
    requires
        time_sorted(s),
        s.len() == 0 || total_key(last_time(s)) <= total_key(t),
    ensures
        time_sorted(recorded(s, t, inp)),
{
    let r = recorded(s, t, inp);
    if r != s {
        assert forall|i: int, j: int| 0 <= i <= j < r.len() implies total_key(
            #[trigger] r[i].time,
        ) <= total_key(#[trigger] r[j].time) by {
            if j == s.len() && i < s.len() {
                assert(total_key(s[i].time) <= total_key(s[s.len() - 1].time));
            }
        }
    }
}

/// A recording only ever holds changes: if no record repeats the input of
/// the one before it, taking another input keeps it that way.
pub proof fn lemma_recording_keeps_changes_only(s: Seq<InputRecord>, t: u32, inp: Input)
    requires
        changes_only(s),
    ensures
        changes_only(recorded(s, t, inp)),
{
    let r = recorded(s, t, inp);
    assert forall|i: int| 0 < i < r.len() implies !input_eq(#[trigger] r[i - 1].input, r[i].input) by {
        if i < s.len() {
            assert(r[i - 1] == s[i - 1] && r[i] == s[i]);
        }
    }
}

/// Replay gives back what was recorded: after taking input `inp` at time `t`
/// (not before the last record), replaying at `t` or any later time yields
/// `inp`, or the equal input already recorded last.
pub proof fn lemma_replay_returns_recorded_input(
    s: Seq<InputRecord>,
    t: u32,
    inp: Input,
    later: u32,
)
    requires
        s.len() == 0 || total_key(last_time(s)) <= total_key(t),
        total_key(t) <= total_key(later),
    ensures
        input_at(recorded(s, t, inp), later) == inp || input_eq(
            input_at(recorded(s, t, inp), later),
            inp,
        ),
{
}

/// A sorted recording is never over at the time of one of its own records.
pub proof fn lemma_not_ended_at_own_times(s: Seq<InputRecord>, i: int)
    requires
        time_sorted(s),
        0 <= i < s.len(),
    ensures
        !ended_at(s, s[i].time),
{
    assert(total_key(s[i].time) <= total_key(s[s.len() - 1].time));
}

/// Replay picks by numeric time: in a sorted recording with finite times,
/// at a finite time `t` strictly after record `i` and strictly before the
/// record after it (if any), the input in force is record `i`'s.
pub proof fn lemma_replay_by_value(s: Seq<InputRecord>, t: u32, i: int)
    requires
        time_sorted(s),
        forall|j: int| 0 <= j < s.len() ==> is_finite(#[trigger] s[j].time),
        is_finite(t),
        0 <= i < s.len(),
        scaled_value(s[i].time) < scaled_value(t),
        i + 1 < s.len() ==> scaled_value(t) < scaled_value(s[i + 1].time),
    ensures
        input_at(s, t) == s[i].input,
{
    lemma_total_key_follows_value(s[i].time, t);
    if i + 1 < s.len() {
        lemma_total_key_follows_value(t, s[i + 1].time);
    }
    assert forall|j: int| 0 <= j < i + 1 implies total_key(#[trigger] s[j].time) <= total_key(t) by {
        assert(total_key(s[j].time) <= total_key(s[i].time));
    }
    assert forall|j: int| i + 1 <= j < s.len() implies total_key(#[trigger] s[j].time) > total_key(
        t,
    ) by {
        assert(total_key(s[i + 1].time) <= total_key(s[j].time));
    }
    lemma_last_at_or_before_split(s, t, i + 1);
}

/// A recording with a finite last time is over at a finite time `t` exactly
/// when its last record lies numerically before `t`.
pub proof fn lemma_ended_by_value(s: Seq<InputRecord>, t: u32)
    requires
        is_finite(last_time(s)),
        is_finite(t),
    ensures
        ended_at(s, t) <==> scaled_value(last_time(s)) < scaled_value(t),
{
    lemma_f32_lt_is_numeric(last_time(s), t);
}

impl InputRecording {
    /// An empty recording.
    pub fn new() -> (r: Self)
        ensures
            r@ == Seq::<InputRecord>::empty(),
    {
        InputRecording { records: Vec::new() }
    }

    /// A recording holding exactly `records`, in that order.
    pub fn from_records(records: Vec<InputRecord>) -> (r: Self)
        ensures
            r@ == records@,
    {
        InputRecording { records }
    }

    /// The records, in order.
    pub fn records(&self) -> (r: &Vec<InputRecord>)
        ensures
            r@ == self@,
    {
        &self.records
    }

    /// Whether replay is over at `time`: the last record (or `+0.0` when the
    /// recording is empty) lies strictly before `time`.
    pub fn has_ended(&self, time: u32) -> (r: bool)
        ensures
            r == ended_at(self@, time),
    {
        let n = self.records.len();
        let last = if n == 0 {
            0u32
        } else {
            self.records[n - 1].time
        };
        f32_bits_lt(last, time)
    }

    /// The input in force at `time`, found by binary search.
    ///
    /// Whatever the records, the result is the neutral input or one of their
    /// inputs.  When the record times are sorted, it is the input of the
    /// last record at or before `time`, or the neutral (empty) input when
    /// `time` precedes every record or there are none.
    pub fn get_input(&self, time: u32) -> (r: Input)
        ensures
            r == replay_input(self@, time),
            r == neutral_input() || exists|j: int|
                0 <= j < self@.len() && r == #[trigger] self@[j].input,
            time_sorted(self@) ==> r == input_at(self@, time),
    {
        let n = self.records.len();
        let key = total_order_key(time);
        let mut lo: usize = 0;
        let mut hi: usize = n;
        while lo < hi
            invariant
                0 <= lo <= hi <= n,
                n == self@.len(),
                key == total_key(time),
                search_bound(self@, key as int, lo as int, hi as int) == search_bound(
                    self@,
                    key as int,
                    0,
                    n as int,
                ),
                time_sorted(self@) ==> forall|i: int|
                    0 <= i < lo ==> total_key(#[trigger] self@[i].time) <= key,
                time_sorted(self@) ==> forall|i: int|
                    hi <= i < n ==> total_key(#[trigger] self@[i].time) > key,
            decreases hi - lo,
        {
            let mid = lo + (hi - lo) / 2;
            if total_order_key(self.records[mid].time) <= key {
                lo = mid + 1;
            } else {
                hi = mid;
            }
        }
        proof {
            if time_sorted(self@) {
                lemma_last_at_or_before_split(self@, time, lo as int);
            }
        }
        if lo == 0 {
            Input::default()
        } else {
            let r = self.records[lo - 1].input;
            assert(r == self@[lo - 1].input);
            r
        }
    }

    /// Takes the pilot's input `inp` at `current_time` and returns it.  A
    /// record is appended only when `inp` differs from the last recorded
    /// input (or there is none).  Meant for recording live, with
    /// `current_time` never before the last record.
    pub fn add_input(&mut self, current_time: u32, inp: Input) -> (r: Input)
        ensures
            r == inp,
            final(self)@ == recorded(old(self)@, current_time, inp),
    {
        let n = self.records.len();
        if n == 0 {
            self.records.push(InputRecord { input: inp, time: current_time });
        } else {
            let last = self.records[n - 1].input;
            if last != inp {
                self.records.push(InputRecord { input: inp, time: current_time });
            }
        }
        inp
    }
}

impl Clone for InputRecording {
    fn clone(&self) -> (r: Self)
        ensures
            r@ == self@,
    {
        let mut records: Vec<InputRecord> = Vec::new();
        for i in 0..self.records.len()
            invariant
                records@ == self@.take(i as int),
        {
            records.push(self.records[i]);
            assert(records@ == self@.take(i + 1));
        }
        assert(self@.take(self@.len() as int) == self@);
        InputRecording { records }
    }
}

impl Default for InputRecording {
    fn default() -> (r: Self)
        ensures
            r@ == Seq::<InputRecord>::empty(),
    {
        InputRecording::new()
    }
}

} // verus!
