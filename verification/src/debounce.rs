//! Trailing-edge debouncing as an explicit state machine over a millisecond
//! clock.
//!
//! A `Debouncer` remembers the time of the latest call that has not been
//! delivered yet. The driver tells it when a call arrives (`notify`) and asks
//! it whether the quiet period has elapsed (`poll`); `wait` says how long the
//! driver may sleep before asking again.
//!
//! Deliveries never overlap: the driver delivers one invocation at a time, and
//! a call that arrives meanwhile is registered when the driver returns to the
//! debouncer, where it starts a window of its own. Such calls are therefore
//! queued as one follow-up invocation, not dropped.

use vstd::prelude::*;

verus! {

/// The mathematical state of a debouncer.
pub struct DebounceModel {
    /// Length of the quiet period, in milliseconds.
    pub window: nat,
    /// Time of the latest call whose invocation is still outstanding.
    pub pending: Option<nat>,
}

/// A debouncer with nothing outstanding.
pub open spec fn idle(window: nat) -> DebounceModel {
    DebounceModel { window, pending: None }
}

/// Whether the outstanding invocation has to be delivered at time `now`.
pub open spec fn due(m: DebounceModel, now: nat) -> bool {
    m.pending is Some && m.pending->0 + m.window <= now
}

/// The state after a call at time `now`: whatever was outstanding is either
/// delivered (if due) or cancelled, and the call itself becomes outstanding.
pub open spec fn after_notify(m: DebounceModel, now: nat) -> DebounceModel {
    DebounceModel { window: m.window, pending: Some(now) }
}

/// The state after the driver asked at time `now`: a due invocation is
/// delivered and nothing stays outstanding; otherwise nothing changes.
pub open spec fn after_poll(m: DebounceModel, now: nat) -> DebounceModel {
    if due(m, now) {
        idle(m.window)
    } else {
        m
    }
}

/// Milliseconds from `now` until the outstanding invocation is due, cut off at
/// the largest representable value.
pub open spec fn remaining(m: DebounceModel, now: nat) -> nat
    recommends
        m.pending is Some,
{
    let at = m.pending->0 + m.window;
    if at <= now {
        0
    } else if at - now > u64::MAX {
        u64::MAX as nat
    } else {
        (at - now) as nat
    }
}

/// What the driver tells a debouncer, with the time at which it does so.
pub enum DebounceEvent {
    /// A call arrives.
    Notify(nat),
    /// The driver asks whether the outstanding invocation is due.
    Poll(nat),
}

/// The time of an event.
pub open spec fn event_time(e: DebounceEvent) -> nat {
    match e {
        DebounceEvent::Notify(t) => t,
        DebounceEvent::Poll(t) => t,
    }
}

/// The state after an event.
pub open spec fn after_event(m: DebounceModel, e: DebounceEvent) -> DebounceModel {
    match e {
        DebounceEvent::Notify(t) => after_notify(m, t),
        DebounceEvent::Poll(t) => after_poll(m, t),
    }
}

/// The state after a trace of events.
pub open spec fn run(m: DebounceModel, trace: Seq<DebounceEvent>) -> DebounceModel
    decreases trace.len(),
{
    if trace.len() == 0 {
        m
    } else {
        after_event(run(m, trace.drop_last()), trace.last())
    }
}

/// The number of invocations delivered in the course of a trace: one at each
/// event, call or question, that finds the outstanding invocation due.
pub open spec fn fired(m: DebounceModel, trace: Seq<DebounceEvent>) -> nat
    decreases trace.len(),
{
    if trace.len() == 0 {
        0
    } else {
        let last: nat = if due(run(m, trace.drop_last()), event_time(trace.last())) {
            1
        } else {
            0
        };
        fired(m, trace.drop_last()) + last
    }
}

/// The times of the calls in a trace, in order.
pub open spec fn calls_of(trace: Seq<DebounceEvent>) -> Seq<nat>
    decreases trace.len(),
{
    if trace.len() == 0 {
        Seq::empty()
    } else {
        match trace.last() {
            DebounceEvent::Notify(t) => calls_of(trace.drop_last()).push(t),
            DebounceEvent::Poll(_) => calls_of(trace.drop_last()),
        }
    }
}

/// The events of a trace come in the order of their times, and none after
/// `now`.
pub open spec fn in_time_order(trace: Seq<DebounceEvent>, now: nat) -> bool {
    &&& forall|i: int| 0 < i < trace.len() ==> event_time(trace[i - 1]) <= event_time(#[trigger] trace[i])
    &&& trace.len() > 0 ==> event_time(trace.last()) <= now
}

/// The number of invocations delivered up to time `now` by a debouncer that
/// started idle, went through the given trace and is asked once more at
/// `now`.
pub open spec fn delivered(window: nat, trace: Seq<DebounceEvent>, now: nat) -> nat {
    let last: nat = if due(run(idle(window), trace), now) {
        1
    } else {
        0
    };
    fired(idle(window), trace) + last
}

/// Every call follows its predecessor by less than `window`.
pub open spec fn within_window(calls: Seq<nat>, window: nat) -> bool {
    forall|i: int| 0 < i < calls.len() ==> calls[i - 1] <= #[trigger] calls[i] < calls[i - 1] + window
}

/// Every call follows its predecessor by at least `window`.
pub open spec fn spaced_apart(calls: Seq<nat>, window: nat) -> bool {
    forall|i: int| 0 < i < calls.len() ==> calls[i - 1] + window <= #[trigger] calls[i]
}

/// Where a trace of closely spaced calls leaves an idle debouncer: either the
/// last call is outstanding and nothing was delivered, or one invocation was
/// delivered, a full window after the last call, and nothing is outstanding.
spec fn burst_state(window: nat, trace: Seq<DebounceEvent>) -> bool {
    let m = run(idle(window), trace);
    let f = fired(idle(window), trace);
    let calls = calls_of(trace);
    if calls.len() == 0 {
        m == idle(window) && f == 0
    } else {
        ||| m == (DebounceModel { window, pending: Some(calls.last()) }) && f == 0
        ||| m == idle(window) && f == 1 && event_time(trace.last()) >= calls.last() + window
    }
}

/// Where a trace of widely spaced calls leaves an idle debouncer: every call
/// but the last was delivered, and the last one either is outstanding or was
/// delivered a full window after it arrived.
spec fn spaced_state(window: nat, trace: Seq<DebounceEvent>) -> bool {
    let m = run(idle(window), trace);
    let f = fired(idle(window), trace);
    let calls = calls_of(trace);
    if calls.len() == 0 {
        m == idle(window) && f == 0
    } else {
        ||| m == (DebounceModel { window, pending: Some(calls.last()) }) && f == calls.len() - 1
        ||| m == idle(window) && f == calls.len() && event_time(trace.last()) >= calls.last()
            + window
    }
}

proof fn lemma_calls_prefix(trace: Seq<DebounceEvent>)
    requires
        trace.len() > 0,
    ensures
        calls_of(trace.drop_last()).len() <= calls_of(trace).len(),
        forall|i: int|
            0 <= i < calls_of(trace.drop_last()).len() ==> calls_of(trace.drop_last())[i]
                == calls_of(trace)[i],
        trace.last() is Notify ==> calls_of(trace).len() == calls_of(trace.drop_last()).len() + 1
            && calls_of(trace).last() == event_time(trace.last()),
        trace.last() is Poll ==> calls_of(trace) == calls_of(trace.drop_last()),
{
}

proof fn lemma_burst(window: nat, trace: Seq<DebounceEvent>, now: nat)
    requires
        in_time_order(trace, now),
        within_window(calls_of(trace), window),
    ensures
        burst_state(window, trace),
    decreases trace.len(),
{
    if trace.len() > 0 {
        let front = trace.drop_last();
        let e = trace.last();
        lemma_calls_prefix(trace);
        assert forall|i: int| 0 < i < front.len() implies event_time(front[i - 1]) <= event_time(
            #[trigger] front[i],
        ) by {
            assert(front[i] == trace[i]);
            assert(front[i - 1] == trace[i - 1]);
        }
        if front.len() > 0 {
            assert(front.last() == trace[trace.len() - 2]);
            assert(event_time(front.last()) <= event_time(trace[trace.len() - 1]));
        }
        assert(in_time_order(front, event_time(e)));
        let calls = calls_of(trace);
        let before = calls_of(front);
        assert forall|i: int| 0 < i < before.len() implies before[i - 1] <= #[trigger] before[i]
            < before[i - 1] + window by {
            assert(calls[i] == before[i]);
        }
        lemma_burst(window, front, event_time(e));
        if e is Notify && before.len() > 0 {
            let k = calls.len() - 1;
            assert(calls[k - 1] == before.last());
            assert(calls[k - 1] <= calls[k] < calls[k - 1] + window);
        }
    }
}

proof fn lemma_spaced(window: nat, trace: Seq<DebounceEvent>, now: nat)
    requires
        in_time_order(trace, now),
        spaced_apart(calls_of(trace), window),
    ensures
        spaced_state(window, trace),
    decreases trace.len(),
{
    if trace.len() > 0 {
        let front = trace.drop_last();
        let e = trace.last();
        lemma_calls_prefix(trace);
        assert forall|i: int| 0 < i < front.len() implies event_time(front[i - 1]) <= event_time(
            #[trigger] front[i],
        ) by {
            assert(front[i] == trace[i]);
            assert(front[i - 1] == trace[i - 1]);
        }
        if front.len() > 0 {
            assert(front.last() == trace[trace.len() - 2]);
            assert(event_time(front.last()) <= event_time(trace[trace.len() - 1]));
        }
        assert(in_time_order(front, event_time(e)));
        let calls = calls_of(trace);
        let before = calls_of(front);
        assert forall|i: int| 0 < i < before.len() implies before[i - 1] + window
            <= #[trigger] before[i] by {
            assert(calls[i] == before[i]);
        }
        lemma_spaced(window, front, event_time(e));
        if e is Notify && before.len() > 0 {
            let k = calls.len() - 1;
            assert(calls[k - 1] == before.last());
            assert(calls[k - 1] + window <= calls[k]);
        }
    }
}

/// A burst of calls, each less than `window` after the one before, is
/// delivered exactly once, and not before `window` has passed since the last
/// call, however often the driver asks in between: up to any earlier time
/// nothing is delivered, from then on exactly one invocation.
pub proof fn burst_fires_once(window: nat, trace: Seq<DebounceEvent>, now: nat)
    requires
        in_time_order(trace, now),
        calls_of(trace).len() >= 1,
        within_window(calls_of(trace), window),
    ensures
        now < calls_of(trace).last() + window ==> delivered(window, trace, now) == 0,
        now >= calls_of(trace).last() + window ==> delivered(window, trace, now) == 1,
        after_poll(run(idle(window), trace), now).pending is Some ==> now < calls_of(trace).last()
            + window,
{
    lemma_burst(window, trace, now);
}

/// Calls that are at least `window` apart are not coalesced, however often
/// the driver asks in between: each one is delivered, the last of them once
/// `window` has passed since it arrived.
pub proof fn spaced_calls_fire_each(window: nat, trace: Seq<DebounceEvent>, now: nat)
    requires
        in_time_order(trace, now),
        calls_of(trace).len() >= 1,
        spaced_apart(calls_of(trace), window),
    ensures
        now < calls_of(trace).last() + window ==> delivered(window, trace, now) == calls_of(
            trace,
        ).len() - 1,
        now >= calls_of(trace).last() + window ==> delivered(window, trace, now) == calls_of(
            trace,
        ).len(),
{
    lemma_spaced(window, trace, now);
}

/// With an empty window nothing is coalesced: every call of a trace in time
/// order is delivered.
pub proof fn zero_window_never_coalesces(trace: Seq<DebounceEvent>, now: nat)
    requires
        in_time_order(trace, now),
        calls_of(trace).len() >= 1,
        forall|i: int|
            0 < i < calls_of(trace).len() ==> calls_of(trace)[i - 1] <= #[trigger] calls_of(
                trace,
            )[i],
    ensures
        delivered(0, trace, now) == calls_of(trace).len(),
{
    lemma_time_of_last_call(trace, now);
    spaced_calls_fire_each(0, trace, now);
}

/// The last call of a trace in time order is not later than the end of the
/// trace.
proof fn lemma_time_of_last_call(trace: Seq<DebounceEvent>, now: nat)
    requires
        in_time_order(trace, now),
        calls_of(trace).len() >= 1,
    ensures
        calls_of(trace).last() <= now,
    decreases trace.len(),
{
    if trace.len() > 0 {
        let front = trace.drop_last();
        lemma_calls_prefix(trace);
        if trace.last() is Poll {
            assert forall|i: int| 0 < i < front.len() implies event_time(front[i - 1])
                <= event_time(#[trigger] front[i]) by {
                assert(front[i] == trace[i]);
                assert(front[i - 1] == trace[i - 1]);
            }
            if front.len() > 0 {
                assert(front.last() == trace[trace.len() - 2]);
                assert(event_time(front.last()) <= event_time(trace[trace.len() - 1]));
            }
            lemma_time_of_last_call(front, event_time(trace.last()));
        }
    }
}

/// An outstanding invocation is due exactly when no waiting time remains.
pub proof fn due_when_nothing_remains(m: DebounceModel, now: nat)
    requires
        m.pending is Some,
    ensures
        due(m, now) <==> remaining(m, now) == 0,
{
}

/// A call always leaves exactly its own invocation outstanding, due one
/// window later and not before.
pub proof fn notify_restarts_the_window(m: DebounceModel, at: nat, now: nat)
    ensures
        after_notify(m, at).pending == Some(at),
        due(after_notify(m, at), now) <==> now >= at + m.window,
{
}

/// Coalesces bursts of calls into one delayed invocation.
pub struct Debouncer {
    window: u64,
    last_call: Option<u64>,
}

impl View for Debouncer {
    type V = DebounceModel;

    closed spec fn view(&self) -> DebounceModel {
        DebounceModel {
            window: self.window as nat,
            pending: match self.last_call {
                Some(t) => Some(t as nat),
                None => None,
            },
        }
    }
}

impl Debouncer {
    /// A debouncer with the given quiet period in milliseconds and nothing
    /// outstanding.
    pub fn new(window: u64) -> (r: Debouncer)
        ensures
            r@ == idle(window as nat),
    {
        Debouncer { window, last_call: None }
    }

    /// The quiet period in milliseconds.
    pub fn window(&self) -> (r: u64)
        ensures
            r as nat == self@.window,
    {
        self.window
    }

    /// Whether an invocation is outstanding.
    pub fn is_pending(&self) -> (r: bool)
        ensures
            r == (self@.pending is Some),
    {
        self.last_call.is_some()
    }

    /// Registers a call at time `now`. Returns `true` when an earlier call was
    /// due and has to be delivered first; an earlier call that was not yet due
    /// is dropped in favour of this one.
    pub fn notify(&mut self, now: u64) -> (fire: bool)
        ensures
            fire == due(old(self)@, now as nat),
            final(self)@ == after_notify(old(self)@, now as nat),
    {
        let fire = self.is_due(now);
        self.last_call = Some(now);
        fire
    }

    /// Asks at time `now` whether the outstanding invocation is due. When it
    /// is, returns `true` and nothing stays outstanding.
    pub fn poll(&mut self, now: u64) -> (fire: bool)
        ensures
            fire == due(old(self)@, now as nat),
            final(self)@ == after_poll(old(self)@, now as nat),
    {
        let fire = self.is_due(now);
        if fire {
            self.last_call = None;
        }
        fire
    }

    /// Whether the outstanding invocation is due at time `now`.
    pub fn is_due(&self, now: u64) -> (r: bool)
        ensures
            r == due(self@, now as nat),
    {
        match self.last_call {
            Some(t) => now >= t && now - t >= self.window,
            None => false,
        }
    }

    /// How long the driver may wait at time `now` before the outstanding
    /// invocation is due: `None` when nothing is outstanding.
    pub fn wait(&self, now: u64) -> (r: Option<u64>)
        ensures
            self@.pending is None ==> r is None,
            self@.pending is Some ==> r is Some && r->0 as nat == remaining(self@, now as nat),
    {
        match self.last_call {
            None => None,
            Some(t) => {
                if now >= t {
                    let gone: u64 = now - t;
                    if gone >= self.window {
                        Some(0)
                    } else {
                        Some(self.window - gone)
                    }
                } else {
                    let back: u64 = t - now;
                    if back > u64::MAX - self.window {
                        Some(u64::MAX)
                    } else {
                        Some(self.window + back)
                    }
                }
            },
        }
    }
}

} // verus!
