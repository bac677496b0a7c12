//! Trailing-edge debouncing of filesystem change events.
//!
//! The debouncer turns a dense stream of raw change notifications into a
//! sparse stream of flush signals: a flush is emitted only once at least
//! `duration` time units have passed since the *most recent* event, so a
//! rapid burst of editor saves produces a single upload. The caller owns
//! the actual timer: `on_event` says when a timer must be armed, and
//! `on_timer_fire` decides, when that timer goes off, whether the window
//! has settled (emit one flush) or a newer event arrived meanwhile
//! (re-arm and wait again).

use vstd::prelude::*;

verus! {

/// The debounce window. While `pending`, an event has been seen that has
/// not yet been flushed, `last_event_time` is the timestamp of the most
/// recent event, and `deadline` is the absolute time at which the armed
/// timer is due.
#[derive(Clone, Copy, Debug, PartialEq, Eq, Structural)]
pub struct Debouncer {
    /// Quiet period that must elapse after the last event before a flush.
    pub duration: u64,
    /// Whether an unflushed event is pending (equivalently: a timer is armed).
    pub pending: bool,
    /// Timestamp of the most recent event; meaningful while `pending`.
    pub last_event_time: u64,
    /// Absolute due time of the armed timer; meaningful while `pending`.
    pub deadline: u64,
}

/// What the caller must do after a timer fire.
#[derive(Clone, Copy, Debug, PartialEq, Eq, Structural)]
pub enum TimerVerdict {
    /// The window settled: emit exactly one flush signal; the window is empty.
    Flush,
    /// A newer event arrived since the timer was armed: arm a timer due at
    /// the given absolute time and check again when it fires.
    Rearm { deadline: u64 },
}

/// State after recording a change event observed at time `now`: the window
/// always remembers `now` as the most recent event, and opens (arming a
/// timer due at `now + duration`) if it was empty.
pub open spec fn spec_on_event(d: Debouncer, now: u64) -> Debouncer {
    if d.pending {
        Debouncer { last_event_time: now, ..d }
    } else {
        Debouncer {
            pending: true,
            last_event_time: now,
            deadline: (now + d.duration) as u64,
            ..d
        }
    }
}

/// A timer firing at time `now` settles the window: the quiet period has
/// fully elapsed since the most recent event.
pub open spec fn spec_fires(d: Debouncer, now: u64) -> bool {
    now >= d.last_event_time + d.duration
}

/// State after a timer fire at time `now`: either the window settled and
/// is emptied, or the timer is re-armed for the end of the quiet period
/// of the most recent event.
pub open spec fn spec_on_timer(d: Debouncer, now: u64) -> Debouncer {
    if spec_fires(d, now) {
        Debouncer { pending: false, ..d }
    } else {
        Debouncer { deadline: (d.last_event_time + d.duration) as u64, ..d }
    }
}

impl Debouncer {
    /// Well-formedness: while the window is open, the armed timer is due
    /// no later than the end of the quiet period of the most recent
    /// event, and that end fits in the timestamp type.
    pub open spec fn wf(self) -> bool {
        self.pending ==> {
            &&& self.deadline <= self.last_event_time + self.duration
            &&& self.last_event_time + self.duration <= u64::MAX
        }
    }

    /// A fresh debouncer with an empty window.
    pub fn new(duration: u64) -> (d: Debouncer)
        ensures
            d.wf(),
            !d.pending,
            d.duration == duration,
    {
        Debouncer { duration, pending: false, last_event_time: 0, deadline: 0 }
    }

    /// Records a change event observed at time `now`. Returns the absolute
    /// due time of a timer the caller must arm, when no timer was armed
    /// yet; while a timer is already armed, only the window moves.
    pub fn on_event(&mut self, now: u64) -> (arm: Option<u64>)
        requires
            old(self).wf(),
            old(self).pending ==> now >= old(self).last_event_time,
            now + old(self).duration <= u64::MAX,
        ensures
            final(self).wf(),
            *final(self) == spec_on_event(*old(self), now),
            final(self).pending,
            final(self).last_event_time == now,
            arm == (if old(self).pending {
                Option::<u64>::None
            } else {
                Option::<u64>::Some((now + old(self).duration) as u64)
            }),
    {
        if self.pending {
            self.last_event_time = now;
            None
        } else {
            self.pending = true;
            self.last_event_time = now;
            self.deadline = now + self.duration;
            Some(self.deadline)
        }
    }

    /// Decides what a timer firing at time `now` means: one flush if the
    /// quiet period has elapsed since the most recent event, otherwise a
    /// re-arm for the end of that quiet period.
    pub fn on_timer_fire(&mut self, now: u64) -> (v: TimerVerdict)
        requires
            old(self).wf(),
            old(self).pending,
            now >= old(self).last_event_time,
        ensures
            final(self).wf(),
            *final(self) == spec_on_timer(*old(self), now),
            (v is Flush) == spec_fires(*old(self), now),
            (v is Flush) == !final(self).pending,
            v matches TimerVerdict::Rearm { deadline } ==> deadline == old(self).last_event_time
                + old(self).duration,
    {
        if now - self.last_event_time >= self.duration {
            self.pending = false;
            TimerVerdict::Flush
        } else {
            self.deadline = self.last_event_time + self.duration;
            TimerVerdict::Rearm { deadline: self.deadline }
        }
    }

    /// Empties the window without emitting through the timer path; returns
    /// whether an unflushed event was pending. Used at shutdown, where a
    /// still-pending edit is turned into one final flush.
    pub fn take_pending(&mut self) -> (was: bool)
        ensures
            final(self).wf(),
            *final(self) == (Debouncer { pending: false, ..*old(self) }),
            was == old(self).pending,
    {
        let was = self.pending;
        self.pending = false;
        was
    }
}

/// One input to the debouncer, as its event loop sees it: a change event
/// or an armed-timer fire, each observed at an absolute time.
#[derive(Clone, Copy, Debug, PartialEq, Eq, Structural)]
pub enum DebInput {
    Event { at: u64 },
    Fire { at: u64 },
}

/// The time at which an input was observed.
pub open spec fn input_time(inp: DebInput) -> u64 {
    match inp {
        DebInput::Event { at } => at,
        DebInput::Fire { at } => at,
    }
}

/// Whether the input can occur against window `d` in a real run: an
/// event's quiet period fits the clock and time moves forward; a timer
/// fires only while armed, no earlier than its due time, and not before
/// the event that armed or moved the window.
pub open spec fn input_ok(d: Debouncer, inp: DebInput) -> bool {
    match inp {
        DebInput::Event { at } => (d.pending ==> at >= d.last_event_time) && at + d.duration
            <= u64::MAX,
        DebInput::Fire { at } => d.pending && at >= d.deadline && at >= d.last_event_time,
    }
}

/// The window after one input.
pub open spec fn deb_step(d: Debouncer, inp: DebInput) -> Debouncer {
    match inp {
        DebInput::Event { at } => spec_on_event(d, at),
        DebInput::Fire { at } => spec_on_timer(d, at),
    }
}

/// Whether the input emits a flush signal: only a timer fire that finds
/// the window settled does.
pub open spec fn deb_flushes(d: Debouncer, inp: DebInput) -> bool {
    inp matches DebInput::Fire { at } && spec_fires(d, at)
}

/// The window after a whole run of inputs.
pub open spec fn deb_run(d: Debouncer, inputs: Seq<DebInput>) -> Debouncer
    decreases inputs.len(),
{
    if inputs.len() == 0 {
        d
    } else {
        deb_run(deb_step(d, inputs[0]), inputs.drop_first())
    }
}

/// Whether every input of the run can occur, each against the window the
/// earlier inputs left behind.
pub open spec fn run_ok(d: Debouncer, inputs: Seq<DebInput>) -> bool
    decreases inputs.len(),
{
    inputs.len() == 0 || (input_ok(d, inputs[0]) && run_ok(deb_step(d, inputs[0]), inputs.drop_first()))
}

/// The times at which flush signals are emitted over a run, in order.
pub open spec fn flush_times(d: Debouncer, inputs: Seq<DebInput>) -> Seq<u64>
    decreases inputs.len(),
{
    if inputs.len() == 0 {
        Seq::<u64>::empty()
    } else {
        let rest = flush_times(deb_step(d, inputs[0]), inputs.drop_first());
        if deb_flushes(d, inputs[0]) {
            seq![input_time(inputs[0])] + rest
        } else {
            rest
        }
    }
}

/// One step preserves well-formedness and the configured duration.
pub proof fn lemma_deb_step_wf(d: Debouncer, inp: DebInput)
    requires
        d.wf(),
        input_ok(d, inp),
    ensures
        deb_step(d, inp).wf(),
        deb_step(d, inp).duration == d.duration,
{
}

/// The shape of a burst that settles, seen from just after an event at
/// time `prev`: every further change event arrives strictly within `dur`
/// of the previous one; timer fires may be interleaved anywhere that is
/// time-consistent (a fire is never later than the input after it); and
/// the run ends with the first fire at or after the end of the last
/// event's quiet period.
pub open spec fn burst_settles(prev: u64, dur: u64, inputs: Seq<DebInput>) -> bool
    decreases inputs.len(),
{
    if inputs.len() == 0 {
        false
    } else {
        match inputs[0] {
            DebInput::Event { at } => prev <= at && at < prev + dur && burst_settles(
                at,
                dur,
                inputs.drop_first(),
            ),
            DebInput::Fire { at } => if inputs.len() == 1 {
                at >= prev + dur
            } else {
                at <= input_time(inputs[1]) && burst_settles(prev, dur, inputs.drop_first())
            },
        }
    }
}

/// The time of the last change event in a run; `prev` when there is none.
pub open spec fn last_event_in(prev: u64, inputs: Seq<DebInput>) -> u64
    decreases inputs.len(),
{
    if inputs.len() == 0 {
        prev
    } else {
        match inputs[0] {
            DebInput::Event { at } => last_event_in(at, inputs.drop_first()),
            DebInput::Fire { .. } => last_event_in(prev, inputs.drop_first()),
        }
    }
}

proof fn lemma_burst_settles_aux(d: Debouncer, inputs: Seq<DebInput>)
    requires
        d.wf(),
        d.pending,
        run_ok(d, inputs),
        burst_settles(d.last_event_time, d.duration, inputs),
    ensures
        flush_times(d, inputs).len() == 1,
        flush_times(d, inputs)[0] >= last_event_in(d.last_event_time, inputs) + d.duration,
        !deb_run(d, inputs).pending,
    decreases inputs.len(),
{
    let prev = d.last_event_time;
    let dur = d.duration;
    let inp = inputs[0];
    let rest = inputs.drop_first();
    let d1 = deb_step(d, inp);
    lemma_deb_step_wf(d, inp);
    assert(input_ok(d, inp) && run_ok(d1, rest));
    match inp {
        DebInput::Event { at } => {
            assert(burst_settles(at, dur, rest));
            lemma_burst_settles_aux(d1, rest);
            assert(flush_times(d, inputs) == flush_times(d1, rest));
            assert(last_event_in(prev, inputs) == last_event_in(at, rest));
            assert(deb_run(d, inputs) == deb_run(d1, rest));
        },
        DebInput::Fire { at } => {
            if inputs.len() == 1 {
                assert(at >= prev + dur);
                assert(spec_fires(d, at));
                assert(rest.len() == 0);
                assert(flush_times(d1, rest) =~= Seq::<u64>::empty());
                assert(flush_times(d, inputs) =~= seq![at]);
                assert(last_event_in(prev, rest) == prev);
                assert(deb_run(d, inputs) == deb_run(d1, rest));
            } else {
                assert(rest[0] == inputs[1]);
                assert(at <= input_time(inputs[1]) && burst_settles(prev, dur, rest));
                if spec_fires(d, at) {
                    // A flush strictly inside the burst is impossible: the
                    // next input is no earlier than this fire, yet an event
                    // must stay strictly within the window and a further
                    // fire needs an armed timer.
                    match rest[0] {
                        DebInput::Event { at: at2 } => {
                            assert(at2 < prev + dur);
                            assert(at >= prev + dur);
                            assert(false);
                        },
                        DebInput::Fire { at: at2 } => {
                            assert(!d1.pending);
                            assert(input_ok(d1, rest[0]));
                            assert(false);
                        },
                    }
                }
                assert(d1.pending && d1.last_event_time == prev);
                lemma_burst_settles_aux(d1, rest);
                assert(flush_times(d, inputs) == flush_times(d1, rest));
                assert(last_event_in(prev, inputs) == last_event_in(prev, rest));
                assert(deb_run(d, inputs) == deb_run(d1, rest));
            }
        },
    }
}

/// Debounce coalescing: starting from an empty window, a change event at
/// time `first` followed by any admissible run whose further events each
/// arrive strictly within `duration` of the previous one, whose timer
/// fires respect their due times, and which settles — its last input is
/// the first fire at or after the end of the last event's quiet period —
/// emits exactly one flush signal, and no earlier than `duration` after
/// the last event of the burst.
pub proof fn lemma_debounce_coalescing(d: Debouncer, first: u64, rest: Seq<DebInput>)
    requires
        d.wf(),
        !d.pending,
        first + d.duration <= u64::MAX,
        run_ok(spec_on_event(d, first), rest),
        burst_settles(first, d.duration, rest),
    ensures
        flush_times(spec_on_event(d, first), rest).len() == 1,
        flush_times(spec_on_event(d, first), rest)[0] >= last_event_in(first, rest) + d.duration,
{
    lemma_deb_step_wf(d, DebInput::Event { at: first });
    lemma_burst_settles_aux(spec_on_event(d, first), rest);
}

/// Debounce fairness: once events stop arriving, the armed timer is due
/// no later than `duration` after the most recent event; firing it at its
/// due time either flushes at once, or re-arms for exactly the end of the
/// quiet period, where the next fire flushes. Either way a flush is
/// emitted no later than `duration` after the last event — an unbounded
/// stream of events can never suppress flushing forever.
pub proof fn lemma_debounce_fairness(d: Debouncer)
    requires
        d.wf(),
        d.pending,
    ensures
        d.deadline <= d.last_event_time + d.duration,
        spec_fires(d, d.deadline) ==> !spec_on_timer(d, d.deadline).pending,
        !spec_fires(d, d.deadline) ==> {
            let d2 = spec_on_timer(d, d.deadline);
            &&& d2.pending
            &&& d2.deadline == d.last_event_time + d.duration
            &&& spec_fires(d2, d2.deadline)
            &&& !spec_on_timer(d2, d2.deadline).pending
        },
{
}

/// Alternation: each change event is followed by its timer fire before
/// the next event arrives.
pub open spec fn event_fire_alternation(inputs: Seq<DebInput>) -> bool
    decreases inputs.len(),
{
    inputs.len() == 0 || {
        &&& inputs.len() >= 2
        &&& inputs[0] is Event
        &&& inputs[1] is Fire
        &&& event_fire_alternation(inputs.skip(2))
    }
}

/// Zero-duration degeneracy: with `duration == 0` the window degenerates
/// to flush-on-every-event. Over any admissible alternating run, every
/// event's timer fire flushes — the number of flush signals equals the
/// number of change events, and no flush is ever lost.
pub proof fn lemma_zero_duration_one_to_one(d: Debouncer, inputs: Seq<DebInput>)
    requires
        d.wf(),
        !d.pending,
        d.duration == 0,
        run_ok(d, inputs),
        event_fire_alternation(inputs),
    ensures
        flush_times(d, inputs).len() * 2 == inputs.len(),
    decreases inputs.len(),
{
    if inputs.len() != 0 {
        let e = inputs[0];
        let f = inputs[1];
        let rest1 = inputs.drop_first();
        let rest2 = rest1.drop_first();
        let d1 = deb_step(d, e);
        let d2 = deb_step(d1, f);
        assert(inputs.len() >= 2 && e is Event && f is Fire && event_fire_alternation(
            inputs.skip(2),
        ));
        assert(input_ok(d, e) && run_ok(d1, rest1));
        assert(rest1[0] == f);
        assert(input_ok(d1, f) && run_ok(d2, rest2));
        lemma_deb_step_wf(d, e);
        lemma_deb_step_wf(d1, f);
        assert(d1.pending && d1.duration == 0);
        assert(deb_flushes(d1, f));
        assert(!d2.pending);
        assert(rest2 =~= inputs.skip(2));
        lemma_zero_duration_one_to_one(d2, inputs.skip(2));
        assert(flush_times(d1, rest1) == seq![input_time(f)] + flush_times(d2, rest2));
        assert(flush_times(d, inputs) == flush_times(d1, rest1));
        assert(flush_times(d, inputs).len() == 1 + flush_times(d2, rest2).len());
    }
}

} // verus!
