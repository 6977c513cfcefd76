//! Laws of the tracker, stated over the `step` transition function.

use vstd::prelude::*;

use crate::render::rendered;
use crate::render::lemma_rendered_zero;
use crate::tracker::ElapsedTimeTracker;
use crate::tracker::Message;
use crate::tracker::TickState;
use crate::tracker::step;

verus! {

/// The tracker after a whole sequence of events, applied first to last.
pub open spec fn apply_events(t: ElapsedTimeTracker, evs: Seq<(Message, u64)>) -> ElapsedTimeTracker
    decreases evs.len(),
{
    if evs.len() == 0 {
        t
    } else {
        apply_events(step(t, evs[0].0, evs[0].1), evs.drop_first())
    }
}

/// One full run of the stopwatch: a Start, any number of periodic ticks
/// while running, and the matching Stop, each with its timestamp.
pub struct Session {
    pub start: u64,
    pub ticks: Seq<u64>,
    pub stop: u64,
}

/// All timestamps lie in `[lo, hi]` and are in non-decreasing order.
pub open spec fn ticks_in_range(ticks: Seq<u64>, lo: u64, hi: u64) -> bool {
    &&& forall|i: int| 0 <= i < ticks.len() ==> lo <= #[trigger] ticks[i] && ticks[i] <= hi
    &&& forall|i: int, j: int| 0 <= i <= j < ticks.len() ==> #[trigger] ticks[i] <= #[trigger] ticks[j]
}

/// A session's timestamps advance: the ticks lie between Start and Stop.
pub open spec fn session_wf(s: Session) -> bool {
    s.start <= s.stop && ticks_in_range(s.ticks, s.start, s.stop)
}

/// The tick events of a session, in order.
pub open spec fn tick_events(ticks: Seq<u64>) -> Seq<(Message, u64)> {
    Seq::new(ticks.len(), |i: int| (Message::Update, ticks[i]))
}

/// The event sequence of one session: Start, the ticks, Stop.
pub open spec fn session_events(s: Session) -> Seq<(Message, u64)> {
    seq![(Message::Start, s.start)] + tick_events(s.ticks) + seq![(Message::Stop, s.stop)]
}

/// The event sequence of a series of sessions, in order.
pub open spec fn sessions_events(ss: Seq<Session>) -> Seq<(Message, u64)>
    decreases ss.len(),
{
    if ss.len() == 0 {
        Seq::empty()
    } else {
        session_events(ss[0]) + sessions_events(ss.drop_first())
    }
}

/// Every session of the series is well formed.
pub open spec fn sessions_wf(ss: Seq<Session>) -> bool {
    forall|i: int| 0 <= i < ss.len() ==> session_wf(#[trigger] ss[i])
}

/// The sum of the wall-clock spans between each Start and its Stop.
pub open spec fn sessions_sum(ss: Seq<Session>) -> int
    decreases ss.len(),
{
    if ss.len() == 0 {
        0
    } else {
        (ss[0].stop - ss[0].start) + sessions_sum(ss.drop_first())
    }
}

proof fn lemma_sessions_sum_nonneg(ss: Seq<Session>)
    requires
        sessions_wf(ss),
    ensures
        sessions_sum(ss) >= 0,
    decreases ss.len(),
{
    if ss.len() > 0 {
        assert(session_wf(ss[0]));
        assert(sessions_wf(ss.drop_first()));
        lemma_sessions_sum_nonneg(ss.drop_first());
    }
}

proof fn lemma_apply_events_concat(
    t: ElapsedTimeTracker,
    a: Seq<(Message, u64)>,
    b: Seq<(Message, u64)>,
)
    ensures
        apply_events(t, a + b) == apply_events(apply_events(t, a), b),
    decreases a.len(),
{
    if a.len() == 0 {
        assert(a + b =~= b);
    } else {
        assert((a + b)[0] == a[0]);
        assert((a + b).drop_first() =~= a.drop_first() + b);
        lemma_apply_events_concat(step(t, a[0].0, a[0].1), a.drop_first(), b);
    }
}

proof fn lemma_apply_events_singleton(t: ElapsedTimeTracker, m: Message, at: u64)
    ensures
        apply_events(t, seq![(m, at)]) == step(t, m, at),
{
    let e = seq![(m, at)];
    assert(e[0] == (m, at));
    assert(e.drop_first() =~= Seq::<(Message, u64)>::empty());
    assert(apply_events(step(t, m, at), e.drop_first()) == step(t, m, at));
}

/// While running, each tick moves the reference instant forward and folds
/// the same span into the total: `total_duration - last_update` is conserved.
proof fn lemma_run_ticks(t: ElapsedTimeTracker, ticks: Seq<u64>, hi: u64)
    requires
        t.tick_state is Ticking,
        t.last_update <= hi,
        ticks_in_range(ticks, t.last_update, hi),
        t.total_duration + (hi - t.last_update) <= u64::MAX,
    ensures
        ({
            let r = apply_events(t, tick_events(ticks));
            &&& r.tick_state is Ticking
            &&& t.last_update <= r.last_update <= hi
            &&& r.total_duration == t.total_duration + (r.last_update - t.last_update)
        }),
    decreases ticks.len(),
{
    if ticks.len() == 0 {
        assert(tick_events(ticks).len() == 0);
    } else {
        let x = ticks[0];
        assert(tick_events(ticks)[0] == (Message::Update, x));
        let t1 = step(t, Message::Update, x);
        assert(t1.total_duration == t.total_duration + (x - t.last_update));
        assert(tick_events(ticks).drop_first() =~= tick_events(ticks.drop_first()));
        assert(ticks_in_range(ticks.drop_first(), x, hi)) by {
            assert(forall|i: int|
                0 <= i < ticks.drop_first().len() ==> #[trigger] ticks.drop_first()[i] == ticks[i
                    + 1]);
        }
        lemma_run_ticks(t1, ticks.drop_first(), hi);
    }
}

/// One well-formed session, run from a stopped tracker, adds exactly the
/// wall-clock span between its Start and its Stop.
proof fn lemma_run_session(t: ElapsedTimeTracker, s: Session)
    requires
        t.tick_state is Stopped,
        session_wf(s),
        t.total_duration + (s.stop - s.start) <= u64::MAX,
    ensures
        apply_events(t, session_events(s)) == (ElapsedTimeTracker {
            total_duration: (t.total_duration + (s.stop - s.start)) as u64,
            last_update: s.stop,
            tick_state: TickState::Stopped,
        }),
{
    let e_start = seq![(Message::Start, s.start)];
    let e_stop = seq![(Message::Stop, s.stop)];
    lemma_apply_events_concat(t, e_start + tick_events(s.ticks), e_stop);
    lemma_apply_events_concat(t, e_start, tick_events(s.ticks));
    let t1 = step(t, Message::Start, s.start);
    lemma_apply_events_singleton(t, Message::Start, s.start);
    lemma_run_ticks(t1, s.ticks, s.stop);
    let t2 = apply_events(t1, tick_events(s.ticks));
    lemma_apply_events_singleton(t2, Message::Stop, s.stop);
}

/// Running a series of sessions from a stopped tracker adds the sum of
/// their spans to the total, and ends stopped.
proof fn lemma_run_sessions(t: ElapsedTimeTracker, ss: Seq<Session>)
    requires
        t.tick_state is Stopped,
        sessions_wf(ss),
        t.total_duration + sessions_sum(ss) <= u64::MAX,
    ensures
        apply_events(t, sessions_events(ss)).tick_state is Stopped,
        apply_events(t, sessions_events(ss)).total_duration == t.total_duration + sessions_sum(ss),
    decreases ss.len(),
{
    if ss.len() == 0 {
        assert(sessions_events(ss).len() == 0);
    } else {
        let s0 = ss[0];
        let rest = ss.drop_first();
        assert(session_wf(s0));
        assert(sessions_wf(rest));
        lemma_sessions_sum_nonneg(rest);
        lemma_apply_events_concat(t, session_events(s0), sessions_events(rest));
        lemma_run_session(t, s0);
        let t1 = apply_events(t, session_events(s0));
        lemma_run_sessions(t1, rest);
    }
}

/// For any run made only of Start, periodic-tick and Stop events — no
/// Reset, and never a Stop without a Start before it — the accumulated
/// total after the final Stop equals the sum of the wall-clock spans
/// between each Start and its matching Stop.
pub proof fn accumulated_equals_sum_of_runs(t: ElapsedTimeTracker, ss: Seq<Session>)
    requires
        t.tick_state is Stopped,
        t.total_duration == 0,
        sessions_wf(ss),
        sessions_sum(ss) <= u64::MAX,
    ensures
        apply_events(t, sessions_events(ss)).total_duration == sessions_sum(ss),
        apply_events(t, sessions_events(ss)).tick_state is Stopped,
{
    lemma_run_sessions(t, ss);
}

/// Reset clears the displayed time to `00:00:00.00` whatever the current
/// state, and does not change whether the timer is running.
pub proof fn reset_clears_display_and_keeps_mode(t: ElapsedTimeTracker, now: u64)
    ensures
        step(t, Message::Reset, now).total_duration == 0,
        step(t, Message::Reset, now).tick_state == t.tick_state,
        rendered(step(t, Message::Reset, now).total_duration as nat) == "00:00:00.00"@,
{
    lemma_rendered_zero();
}

/// A periodic tick while the timer is stopped changes nothing.
pub proof fn tick_while_stopped_is_noop(t: ElapsedTimeTracker, now: u64)
    requires
        t.tick_state is Stopped,
    ensures
        step(t, Message::Update, now) == t,
{
}

/// Several Resets in a row come to the same as the last one alone.
pub proof fn reset_is_idempotent(t: ElapsedTimeTracker, first: u64, second: u64)
    ensures
        step(step(t, Message::Reset, first), Message::Reset, second) == step(
            t,
            Message::Reset,
            second,
        ),
{
}

} // verus!

