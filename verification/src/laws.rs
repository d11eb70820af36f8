//! Laws of the lifecycle state machine.
//!
//! Any interleaving of the control operations, guard events and drain-race
//! outcomes is a sequence of transitions applied to one shared state.  The
//! proofs here are stated over such sequences: signals are one-shot and
//! never reset, a shutdown request anywhere in a sequence leaves every later
//! shutdown wait resolved, repeated shutdowns collapse to one, the latest
//! graceful deadline is the one in effect, and the connection count is
//! exactly the number of guards created and not yet dropped.

use vstd::prelude::*;
use crate::handle::{Addr, DrainEvent, Handle, ListenPoll};

verus! {

/// One transition of the shared state: a control call, a guard event, or
/// an outcome of the drain race.
pub enum Event {
    Shutdown,
    GracefulShutdown(Option<u64>),
    NotifyListening(Option<Addr>),
    GuardCreated,
    GuardDropped,
    DrainTimerExpired,
    DrainResolved,
}

/// The state transition an event performs.
pub open spec fn step(h: Handle, e: Event) -> Handle {
    match e {
        Event::Shutdown => h.spec_shutdown(),
        Event::GracefulShutdown(d) => h.spec_graceful_shutdown(d),
        Event::NotifyListening(a) => h.spec_notify_listening(a),
        Event::GuardCreated => h.spec_guard_created(),
        Event::GuardDropped => h.spec_guard_dropped(),
        Event::DrainTimerExpired => h.spec_drain_step(DrainEvent::TimerExpired),
        Event::DrainResolved => h.spec_drain_step(DrainEvent::Drained),
    }
}

/// The state after a whole sequence of events.
pub open spec fn run(h: Handle, t: Seq<Event>) -> Handle
    decreases t.len(),
{
    if t.len() == 0 {
        h
    } else {
        step(run(h, t.drop_last()), t.last())
    }
}

/// How many guard creations a sequence holds.
pub open spec fn creates(t: Seq<Event>) -> int
    decreases t.len(),
{
    if t.len() == 0 {
        0
    } else {
        creates(t.drop_last()) + if t.last() is GuardCreated { 1int } else { 0int }
    }
}

/// How many guard drops a sequence holds.
pub open spec fn drops(t: Seq<Event>) -> int
    decreases t.len(),
{
    if t.len() == 0 {
        0
    } else {
        drops(t.drop_last()) + if t.last() is GuardDropped { 1int } else { 0int }
    }
}

/// A sequence of events respects the guard discipline when no prefix drops
/// more guards than it created: a guard is dropped at most once, and only
/// after its creation.
pub open spec fn balanced(t: Seq<Event>) -> bool {
    forall|i: int| 0 <= i <= t.len() ==> drops(#[trigger] t.subrange(0, i)) <= creates(t.subrange(0, i))
}

/// Running a concatenation is running one part after the other.
pub proof fn lemma_run_concat(h: Handle, a: Seq<Event>, b: Seq<Event>)
    ensures
        run(h, a + b) == run(run(h, a), b),
    decreases b.len(),
{
    if b.len() == 0 {
        assert((a + b) =~= a);
    } else {
        lemma_run_concat(h, a, b.drop_last());
        assert((a + b).drop_last() =~= a + b.drop_last());
        assert((a + b).last() == b.last());
    }
}

/// One-shot signals stay fired: no single transition resets the shutdown,
/// graceful or drain signal.
pub proof fn lemma_signals_sticky_step(h: Handle, e: Event)
    ensures
        h.shutdown_fired ==> step(h, e).shutdown_fired,
        h.graceful_fired ==> step(h, e).graceful_fired,
        h.drain_fired ==> step(h, e).drain_fired,
{
}

/// One-shot signals stay fired over any sequence of events: once a signal
/// has fired, every later wait on it observes it as fired.
pub proof fn lemma_signals_sticky(h: Handle, t: Seq<Event>)
    ensures
        h.shutdown_fired ==> run(h, t).shutdown_fired,
        h.graceful_fired ==> run(h, t).graceful_fired,
        h.drain_fired ==> run(h, t).drain_fired,
    decreases t.len(),
{
    if t.len() > 0 {
        lemma_signals_sticky(h, t.drop_last());
        lemma_signals_sticky_step(run(h, t.drop_last()), t.last());
    }
}

/// The shutdown signal fires only when asked for: a transition leaves it
/// fired exactly when it already was, or the transition is a shutdown
/// request, or a drain timer expiry (which escalates to one).  In
/// particular, a drain resolved by the connections actually ending never
/// triggers a shutdown.
pub proof fn lemma_shutdown_only_when_requested(h: Handle, e: Event)
    ensures
        step(h, e).shutdown_fired == (h.shutdown_fired || e is Shutdown || e is DrainTimerExpired),
{
}

/// Well-formedness is an invariant: the drain signal never fires without
/// a graceful shutdown in effect, under any sequence of events.
pub proof fn lemma_wf_preserved(h: Handle, t: Seq<Event>)
    requires
        h.wf(),
    ensures
        run(h, t).wf(),
    decreases t.len(),
{
    if t.len() > 0 {
        lemma_wf_preserved(h, t.drop_last());
    }
}

/// Shutdown is idempotent: a second request leaves the state exactly as
/// the first left it.
pub proof fn lemma_shutdown_idempotent(h: Handle)
    ensures
        h.spec_shutdown().spec_shutdown() == h.spec_shutdown(),
{
}

/// A sequence of N shutdown requests and nothing else.
pub open spec fn shutdowns(n: nat) -> Seq<Event> {
    Seq::new(n, |i: int| Event::Shutdown)
}

/// N shutdown requests in a row have the same effect as one, for any
/// N >= 1.
pub proof fn lemma_shutdown_n_times(h: Handle, n: nat)
    requires
        n >= 1,
    ensures
        run(h, shutdowns(n)) == h.spec_shutdown(),
    decreases n,
{
    let t = shutdowns(n);
    assert(t.last() == Event::Shutdown);
    if n == 1 {
        assert(t.drop_last() =~= Seq::<Event>::empty());
    } else {
        lemma_shutdown_n_times(h, (n - 1) as nat);
        assert(t.drop_last() =~= shutdowns((n - 1) as nat));
    }
    assert(run(h, t) == step(run(h, t.drop_last()), t.last()));
}

/// A shutdown request anywhere in a sequence of events leaves the shutdown
/// signal fired at the end, whatever else happens before, concurrently
/// with, or after it: no wait for shutdown misses the request.
pub proof fn lemma_shutdown_in_trace(h: Handle, t: Seq<Event>, i: int)
    requires
        0 <= i < t.len(),
        t[i] is Shutdown || t[i] is DrainTimerExpired,
    ensures
        run(h, t).shutdown_fired,
{
    let upto = t.subrange(0, i + 1);
    let rest = t.subrange(i + 1, t.len() as int);
    assert(t =~= upto + rest);
    lemma_run_concat(h, upto, rest);
    assert(upto.last() == t[i]);
    assert(run(h, upto) == step(run(h, upto.drop_last()), t[i]));
    lemma_signals_sticky(run(h, upto), rest);
}

/// The latest graceful request wins: two graceful requests in a row leave
/// exactly the state the second alone would have left, so the deadline in
/// effect for any later wait is the most recently recorded one.
pub proof fn lemma_last_deadline_wins(h: Handle, d1: Option<u64>, d2: Option<u64>)
    ensures
        h.spec_graceful_shutdown(d1).spec_graceful_shutdown(d2) == h.spec_graceful_shutdown(d2),
        h.spec_graceful_shutdown(d2).graceful_deadline_ms == d2,
{
}

/// Drain correctness on an idle handle: whenever no connection is live, a
/// wait for the connections to end resolves immediately, whatever the
/// recorded deadline.
pub proof fn lemma_drain_immediate_when_idle(h: Handle)
    requires
        h.conn_count == 0,
    ensures
        h.spec_drain_plan() is AlreadyDrained,
{
}

/// Dropping the last live guard while a graceful shutdown is in effect
/// fires the drain signal, at the moment of the decrement.
pub proof fn lemma_drop_to_zero_fires_drain(h: Handle)
    requires
        h.graceful_fired,
        h.conn_count == 1,
    ensures
        h.spec_guard_dropped().drain_fired,
        h.spec_guard_dropped().conn_count == 0,
{
}

/// No interleaving loses the drain: when the last guard drops concurrently
/// with a graceful request, either the drop comes second and itself fires
/// the drain signal, or it comes first and the graceful requester's own
/// drain wait observes the already-zero count and resolves immediately.
pub proof fn lemma_concurrent_drop_and_graceful(h: Handle, d: Option<u64>)
    requires
        h.conn_count == 1,
    ensures
        h.spec_graceful_shutdown(d).spec_guard_dropped().drain_fired,
        h.spec_guard_dropped().spec_graceful_shutdown(d).spec_drain_plan() is AlreadyDrained,
{
}

/// Timeout escalation: when the drain race ends with the timer, the hard
/// shutdown has been triggered, so every later shutdown wait resolves
/// immediately; when it ends with the drain signal, the state is untouched
/// and in particular no shutdown was triggered.
pub proof fn lemma_drain_race_outcome(h: Handle)
    ensures
        h.spec_drain_step(DrainEvent::TimerExpired).shutdown_fired,
        h.spec_drain_step(DrainEvent::Drained) == h,
{
}

/// Publishing an address overwrites the record: a `listening` wait that
/// starts after the publish resolves immediately with exactly the
/// published value.
pub proof fn lemma_listening_after_publish(h: Handle, a: Addr)
    ensures
        h.spec_notify_listening(Some(a)).spec_listening_poll() == ListenPoll::Ready(Some(a)),
{
}

/// The connection count tracks the guards exactly: starting from a state
/// with no live connection, after any guard-disciplined sequence of events
/// the count is the number of guards created and not yet dropped — in
/// particular it never goes negative, under any interleaving.
pub proof fn lemma_count_tracks_guards(h: Handle, t: Seq<Event>)
    requires
        h.conn_count == 0,
        balanced(t),
        creates(t) <= usize::MAX,
    ensures
        run(h, t).conn_count == creates(t) - drops(t),
    decreases t.len(),
{
    if t.len() > 0 {
        let t0 = t.drop_last();
        lemma_prefix_counts(t);
        assert forall|i: int| 0 <= i <= t0.len() implies drops(#[trigger] t0.subrange(0, i)) <= creates(t0.subrange(0, i)) by {
            assert(t0.subrange(0, i) =~= t.subrange(0, i));
        }
        lemma_counts_nonneg(t0);
        lemma_count_tracks_guards(h, t0);
        assert(t.subrange(0, t.len() as int) =~= t);
    }
}

/// The event counts of a sequence extend those of its prefix without the
/// last event.
proof fn lemma_prefix_counts(t: Seq<Event>)
    requires
        t.len() > 0,
    ensures
        creates(t) == creates(t.drop_last()) + if t.last() is GuardCreated { 1int } else { 0int },
        drops(t) == drops(t.drop_last()) + if t.last() is GuardDropped { 1int } else { 0int },
{
}

/// Event counts are never negative.
proof fn lemma_counts_nonneg(t: Seq<Event>)
    ensures
        0 <= creates(t),
        0 <= drops(t),
    decreases t.len(),
{
    if t.len() > 0 {
        lemma_counts_nonneg(t.drop_last());
    }
}

} // verus!
