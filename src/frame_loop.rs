//! The frame-loop driver: calls a callback once per display refresh with the
//! time elapsed since the previous refresh, until the callback asks to stop
//! or the host window is closed.
//!
//! The driver is a state machine. The host holds a [`FrameLoop`], performs
//! the [`Step`] each transition hands back (register for the next refresh,
//! call the callback, release the registration) and reports what happened.
//! Timestamps are integers in whatever fixed unit the host clock uses.
use vstd::prelude::*;

verus! {

/// State of the frame loop between two host events.
#[derive(PartialEq, Eq, Structural, Clone, Copy, Debug)]
pub enum FrameLoop {
    /// Registered for the first refresh; no timestamp has been seen.
    Start,
    /// Registered for the next refresh after the first one, whose timestamp
    /// is `last`; the callback has not run yet.
    Primed { last: i64 },
    /// The callback is running for the refresh at `last`; nothing is
    /// registered with the host.
    Running { last: i64 },
    /// Registered for the next refresh; the callback last ran for the
    /// refresh at `last` and asked to go on.
    Ticking { last: i64 },
    /// Terminal: nothing is registered and no callback runs again.
    Stopped,
}

/// What the host has to do after a transition.
#[derive(PartialEq, Eq, Structural, Clone, Copy, Debug)]
pub enum Step {
    /// Keep (or make) the single registration for the next refresh.
    Schedule,
    /// Call the callback with the elapsed time, then report its answer with
    /// [`FrameLoop::finish_call`].
    Call { delta: i128 },
    /// Drop the registration: the loop is over.
    Release,
}

/// One display refresh as the host sees it: its timestamp, whether the
/// window was closed by then, and what the callback answers if it is called.
#[derive(PartialEq, Eq, Structural, Clone, Copy, Debug)]
pub struct HostTick {
    pub timestamp: i64,
    pub closed: bool,
    pub reply: bool,
}

impl FrameLoop {
    /// Whether a registration for the next refresh is outstanding. There is
    /// never more than one: the state either holds it or does not.
    pub open spec fn pending(self) -> bool {
        self is Start || self is Primed || self is Ticking
    }

    /// The timestamp of the previous refresh, where one has been seen.
    pub open spec fn last_timestamp(self) -> Option<i64> {
        match self {
            FrameLoop::Primed { last } => Some(last),
            FrameLoop::Running { last } => Some(last),
            FrameLoop::Ticking { last } => Some(last),
            _ => None,
        }
    }

    /// The transition on a refresh notification.
    pub open spec fn tick_spec(self, timestamp: i64, closed: bool) -> (FrameLoop, Step) {
        if closed {
            (FrameLoop::Stopped, Step::Release)
        } else {
            match self.last_timestamp() {
                None => (FrameLoop::Primed { last: timestamp }, Step::Schedule),
                Some(last) => (
                    FrameLoop::Running { last: timestamp },
                    Step::Call { delta: (timestamp - last) as i128 },
                ),
            }
        }
    }

    /// The transition on the callback's answer.
    pub open spec fn finish_spec(self, keep_going: bool) -> (FrameLoop, Step) {
        if keep_going {
            (FrameLoop::Ticking { last: self.last_timestamp()->0 }, Step::Schedule)
        } else {
            (FrameLoop::Stopped, Step::Release)
        }
    }

    /// The state right after the loop is started; the host registers for the
    /// first refresh.
    pub fn start() -> (r: FrameLoop)
        ensures
            r == FrameLoop::Start,
            r.pending(),
    {
        FrameLoop::Start
    }

    /// Handles the refresh notification at `timestamp`; `closed` tells
    /// whether the host window has been closed.
    ///
    /// A closed window ends the loop at once. The first refresh only records
    /// its timestamp. Every later one asks for a call with the difference to
    /// the previous timestamp.
    pub fn tick(&mut self, timestamp: i64, closed: bool) -> (r: Step)
        requires
            old(self).pending(),
        ensures
            (*final(self), r) == old(self).tick_spec(timestamp, closed),
            closed ==> r == Step::Release && *final(self) == FrameLoop::Stopped,
            *old(self) == FrameLoop::Start ==> !(r is Call),
            r matches Step::Call { delta } ==> old(self).last_timestamp() matches Some(last)
                && delta == timestamp - last,
            !closed ==> final(self).last_timestamp() == Some(timestamp),
    {
        if closed {
            *self = FrameLoop::Stopped;
            return Step::Release;
        }
        match *self {
            FrameLoop::Primed { last } | FrameLoop::Ticking { last } => {
                *self = FrameLoop::Running { last: timestamp };
                Step::Call { delta: timestamp as i128 - last as i128 }
            },
            _ => {
                *self = FrameLoop::Primed { last: timestamp };
                Step::Schedule
            },
        }
    }

    /// Handles the callback's answer for the refresh being processed: `true`
    /// keeps the loop going, `false` ends it and releases the registration.
    pub fn finish_call(&mut self, keep_going: bool) -> (r: Step)
        requires
            *old(self) is Running,
        ensures
            (*final(self), r) == old(self).finish_spec(keep_going),
            keep_going ==> final(self).pending() && r == Step::Schedule,
            !keep_going ==> *final(self) == FrameLoop::Stopped && r == Step::Release
                && !final(self).pending(),
    {
        match *self {
            FrameLoop::Running { last } => {
                if keep_going {
                    *self = FrameLoop::Ticking { last };
                    Step::Schedule
                } else {
                    *self = FrameLoop::Stopped;
                    Step::Release
                }
            },
            _ => Step::Release,
        }
    }

    /// Whether a refresh notification is expected, that is whether
    /// [`FrameLoop::tick`] may be called.
    pub fn is_pending(&self) -> (r: bool)
        ensures
            r == self.pending(),
    {
        match *self {
            FrameLoop::Start | FrameLoop::Primed { .. } | FrameLoop::Ticking { .. } => true,
            _ => false,
        }
    }

    /// Whether the loop has ended.
    pub fn is_stopped(&self) -> (r: bool)
        ensures
            r == (*self == FrameLoop::Stopped),
    {
        matches!(*self, FrameLoop::Stopped)
    }
}

/// The loop driven over a run of refreshes, from state `s`: the state it ends
/// in, and the elapsed times the callback was called with, in order. Once no
/// registration is outstanding the host sends no refresh, so the remaining
/// ones have no effect.
pub open spec fn run(s: FrameLoop, ticks: Seq<HostTick>) -> (FrameLoop, Seq<int>)
    decreases ticks.len(),
{
    if ticks.len() == 0 || !s.pending() {
        (s, Seq::empty())
    } else {
        let t = ticks[0];
        let (s1, step) = s.tick_spec(t.timestamp, t.closed);
        match step {
            Step::Call { delta } => {
                let (s2, _) = s1.finish_spec(t.reply);
                let (s3, calls) = run(s2, ticks.drop_first());
                (s3, seq![delta as int] + calls)
            },
            _ => run(s1, ticks.drop_first()),
        }
    }
}

/// The timestamp that the refresh at index `i` of `ticks` is measured
/// against, where `last` is the one seen before `ticks`.
pub open spec fn previous_timestamp(last: i64, ticks: Seq<HostTick>, i: int) -> int {
    if i == 0 { last as int } else { ticks[i - 1].timestamp as int }
}

proof fn lemma_run_from_waiting(s: FrameLoop, ticks: Seq<HostTick>)
    requires
        s is Primed || s is Ticking,
    ensures
        run(s, ticks).1.len() <= ticks.len(),
        forall|i: int| 0 <= i < run(s, ticks).1.len() ==> #[trigger] run(s, ticks).1[i]
            == ticks[i].timestamp - previous_timestamp(s.last_timestamp()->0, ticks, i),
    decreases ticks.len(),
{
    if ticks.len() > 0 {
        let t = ticks[0];
        let rest = ticks.drop_first();
        law_stopped_is_final(rest);
        if !t.closed {
            let next = if t.reply { FrameLoop::Ticking { last: t.timestamp } } else { FrameLoop::Stopped };
            if t.reply {
                lemma_run_from_waiting(next, rest);
            }
            let calls = run(s, ticks).1;
            assert(calls == seq![t.timestamp - s.last_timestamp()->0] + run(next, rest).1);
            assert forall|i: int| 0 <= i < calls.len() implies #[trigger] calls[i]
                == ticks[i].timestamp - previous_timestamp(s.last_timestamp()->0, ticks, i) by {
                if i > 0 {
                    assert(calls[i] == run(next, rest).1[i - 1]);
                    assert(rest[i - 1] == ticks[i]);
                    if i > 1 {
                        assert(rest[i - 2] == ticks[i - 1]);
                    }
                }
            }
        }
    }
}

/// The first refresh never reaches the callback: there is no earlier
/// timestamp to measure the elapsed time against.
pub proof fn law_first_tick_never_calls(t: HostTick)
    ensures
        run(FrameLoop::Start, seq![t]).1.len() == 0,
{
    let (s1, step) = FrameLoop::Start.tick_spec(t.timestamp, t.closed);
    assert(seq![t].drop_first().len() == 0);
    assert(run(s1, seq![t].drop_first()).1.len() == 0);
}

/// Every call after the first refresh gets exactly the difference between
/// the timestamp of its refresh and that of the refresh before it: the
/// `i`-th call belongs to refresh `i + 1`.
pub proof fn law_delta_is_timestamp_difference(ticks: Seq<HostTick>)
    ensures
        run(FrameLoop::Start, ticks).1.len() < ticks.len() || ticks.len() == 0,
        forall|i: int| 0 <= i < run(FrameLoop::Start, ticks).1.len() ==>
            #[trigger] run(FrameLoop::Start, ticks).1[i]
            == ticks[i + 1].timestamp - ticks[i].timestamp,
{
    if ticks.len() > 0 {
        law_stopped_is_final(ticks.drop_first());
    }
    if ticks.len() > 0 && !ticks[0].closed {
        let t = ticks[0];
        let rest = ticks.drop_first();
        let primed = FrameLoop::Primed { last: t.timestamp };
        lemma_run_from_waiting(primed, rest);
        assert(run(FrameLoop::Start, ticks) == run(primed, rest));
        assert forall|i: int| 0 <= i < run(primed, rest).1.len() implies #[trigger] run(primed, rest).1[i]
            == ticks[i + 1].timestamp - ticks[i].timestamp by {
            assert(rest[i] == ticks[i + 1]);
            if i > 0 {
                assert(rest[i - 1] == ticks[i]);
            }
        }
    }
}

/// Once the callback answers `false` the loop is over: it ends stopped, with
/// no registration outstanding, and whatever refreshes follow call nothing.
pub proof fn law_false_reply_stops(s: FrameLoop, t: HostTick, later: Seq<HostTick>)
    requires
        s is Primed || s is Ticking,
        !t.closed,
        !t.reply,
    ensures
        run(s, seq![t] + later) == (FrameLoop::Stopped, seq![t.timestamp - s.last_timestamp()->0]),
        !run(s, seq![t] + later).0.pending(),
{
    let ticks = seq![t] + later;
    assert(ticks[0] == t);
    assert(ticks.drop_first() == later);
    law_stopped_is_final(later);
    assert(seq![t.timestamp - s.last_timestamp()->0] + Seq::<int>::empty()
        == seq![t.timestamp - s.last_timestamp()->0]);
}

/// A closed window ends the loop before the callback runs, whatever the
/// callback would have answered, and releases the registration.
pub proof fn law_closed_window_stops(s: FrameLoop, t: HostTick, later: Seq<HostTick>)
    requires
        s.pending(),
        t.closed,
    ensures
        run(s, seq![t] + later) == (FrameLoop::Stopped, Seq::<int>::empty()),
{
    let ticks = seq![t] + later;
    assert(ticks[0] == t);
    assert(ticks.drop_first() == later);
    law_stopped_is_final(later);
}

/// A stopped loop stays stopped and calls nothing, whatever refreshes come.
pub proof fn law_stopped_is_final(ticks: Seq<HostTick>)
    ensures
        run(FrameLoop::Stopped, ticks) == (FrameLoop::Stopped, Seq::<int>::empty()),
{
}

} // verus!
