use vstd::prelude::*;
use crate::cache::after_put;
use crate::queue::QueueItem;
use crate::relay::{
    draining, next_delay, receive_spec, step_spec, ActionView, AdmissionView, EventView, Phase,
    RelayView, MAX_DELAY_SECS, PACING_SECS,
};

verus! {

/// The state and the actions after feeding `events` to the drain loop in order.
pub open spec fn run(v: RelayView, events: Seq<EventView>) -> (RelayView, Seq<ActionView>)
    decreases events.len(),
{
    if events.len() == 0 {
        (v, Seq::empty())
    } else {
        let (v1, a) = step_spec(v, events[0]);
        let (v2, rest) = run(v1, events.drop_first());
        (v2, seq![a] + rest)
    }
}

/// Something that happens to a relay: an inbound request, or an event of the drain loop.
pub enum Op {
    Request { item: QueueItem, from_bot: bool, now: u64 },
    Loop(EventView),
}

/// The state after `op`, and how the number of running drain loops changes:
/// one is started when a request reports `start_drain`, one ends on `Stop`.
pub open spec fn apply(v: RelayView, op: Op) -> (RelayView, int) {
    match op {
        Op::Request { item, from_bot, now } => {
            let (v1, a) = receive_spec(v, item, from_bot, now);
            (v1, if a == AdmissionView::Queued(true) { 1int } else { 0int })
        },
        Op::Loop(e) => {
            let (v1, a) = step_spec(v, e);
            (v1, if a is Stop { -1int } else { 0int })
        },
    }
}

/// The state and the number of running drain loops after `ops`, from `running`.
pub open spec fn apply_all(v: RelayView, ops: Seq<Op>, running: int) -> (RelayView, int)
    decreases ops.len(),
{
    if ops.len() == 0 {
        (v, running)
    } else {
        let (v1, d) = apply(v, ops[0]);
        apply_all(v1, ops.drop_first(), running + d)
    }
}

/// Number of calls for prompt `p` among `acts`.
pub open spec fn calls_for(acts: Seq<ActionView>, p: Seq<char>) -> nat
    decreases acts.len(),
{
    if acts.len() == 0 {
        0
    } else {
        (if acts[0] == ActionView::Call(p) { 1nat } else { 0nat }) + calls_for(acts.drop_first(), p)
    }
}

/// Whether the completion service succeeds on every call in `events`.
pub open spec fn all_succeed(events: Seq<EventView>) -> bool {
    forall|i: int| 0 <= i < events.len() ==> events[i] != EventView::Reply(None)
}

/// Single active drain: whatever requests arrive and whatever the loop
/// reports, starting from a relay whose running loops match its phase, the
/// number of running drain loops is 1 while the relay drains and 0 otherwise,
/// so it never exceeds 1.
pub proof fn lemma_single_active_drain(v: RelayView, ops: Seq<Op>, running: int)
    requires
        running == (if draining(v.phase) { 1int } else { 0int }),
    ensures
        apply_all(v, ops, running).1 == (if draining(apply_all(v, ops, running).0.phase) { 1int } else { 0int }),
        0 <= apply_all(v, ops, running).1 <= 1,
    decreases ops.len(),
{
    if ops.len() > 0 {
        let (v1, d) = apply(v, ops[0]);
        if ops[0] is Loop {
            assert(draining(v.phase) && !draining(v1.phase) ==> d == -1);
        }
        lemma_single_active_drain(v1, ops.drop_first(), running + d);
    }
}

/// The invariant of a burst of requests for one prompt `p` while every call
/// succeeds: `made` calls so far, at most one, and `p` is cached once one returned.
pub open spec fn burst_inv(v: RelayView, p: Seq<char>, made: nat) -> bool {
    &&& forall|i: int| 0 <= i < v.queue.len() ==> (#[trigger] v.queue[i]).prompt@ == p
    &&& !(v.phase is Backoff)
    &&& match v.phase {
        Phase::Calling { item, .. } => item.prompt@ == p && made == 1 && !v.cache.contains_key(p),
        _ => (made == 0 && !v.cache.contains_key(p)) || (made == 1 && v.cache.contains_key(p)),
    }
}

proof fn lemma_burst_step(v: RelayView, p: Seq<char>, made: nat, e: EventView)
    requires
        burst_inv(v, p, made),
        e != EventView::Reply(None),
    ensures
        burst_inv(
            step_spec(v, e).0,
            p,
            made + (if step_spec(v, e).1 == ActionView::Call(p) { 1nat } else { 0nat }),
        ),
{
    if v.queue.len() > 0 {
        assert(v.queue[0].prompt@ == p);
        let rest = v.queue.drop_first();
        assert forall|i: int| 0 <= i < rest.len() implies (#[trigger] rest[i]).prompt@ == p by {
            assert(rest[i] == v.queue[i + 1]);
        }
    }
    if let (Phase::Calling { .. }, EventView::Reply(Some(t))) = (v.phase, e) {
        assert(after_put(v.cache, v.capacity, p, t).contains_key(p));
    }
}

proof fn lemma_burst(v: RelayView, p: Seq<char>, made: nat, events: Seq<EventView>)
    requires
        burst_inv(v, p, made),
        all_succeed(events),
    ensures
        made + calls_for(run(v, events).1, p) <= 1,
    decreases events.len(),
{
    if events.len() > 0 {
        let (v1, a) = step_spec(v, events[0]);
        lemma_burst_step(v, p, made, events[0]);
        let m1 = made + (if a == ActionView::Call(p) { 1nat } else { 0nat });
        assert(all_succeed(events.drop_first())) by {
            assert forall|i: int| 0 <= i < events.drop_first().len() implies events.drop_first()[i]
                != EventView::Reply(None) by {
                assert(events.drop_first()[i] == events[i + 1]);
            }
        }
        lemma_burst(v1, p, m1, events.drop_first());
        let acts = run(v, events).1;
        assert(acts[0] == a);
        assert(acts.drop_first() =~= run(v1, events.drop_first()).1);
    }
}

/// Success caches exactly once: with a prompt `p` that is not cached and a
/// queue that holds only requests for `p`, while every call succeeds the drain
/// loop calls the service for `p` at most once, whatever events follow; the
/// later duplicates are answered from the cache.
pub proof fn lemma_one_call_per_burst(v: RelayView, p: Seq<char>, events: Seq<EventView>)
    requires
        !v.cache.contains_key(p),
        forall|i: int| 0 <= i < v.queue.len() ==> (#[trigger] v.queue[i]).prompt@ == p,
        v.phase is Idle || v.phase is Ready || v.phase is Pacing,
        all_succeed(events),
    ensures
        calls_for(run(v, events).1, p) <= 1,
{
    lemma_burst(v, p, 0, events);
}

/// A successful completion `r` of a call for `p` is delivered and cached:
/// afterwards the cache gives `r` for `p`.
pub proof fn lemma_success_is_cached(v: RelayView, item: QueueItem, attempt: u64, delay: u64, r: Seq<char>)
    requires
        v.phase == (Phase::Calling { item, attempt, delay }),
    ensures
        step_spec(v, EventView::Reply(Some(r))).1 == ActionView::Deliver(item.channel, r),
        step_spec(v, EventView::Reply(Some(r))).0.cache.contains_key(item.prompt@),
        step_spec(v, EventView::Reply(Some(r))).0.cache[item.prompt@] == r,
{
}

/// Backoff progression: an item whose five calls all fail sees the backoffs
/// 1, 2, 4, 8 and 16 seconds, is then answered with the failure message, and
/// leaves the cache as it was.
pub proof fn lemma_backoff_progression(v: RelayView)
    requires
        v.phase is Ready,
        v.queue.len() > 0,
        !v.cache.contains_key(v.queue[0].prompt@),
    ensures
        ({
            let p = v.queue[0].prompt@;
            let failed = EventView::Reply(None);
            let woke = EventView::Woke;
            let events = seq![
                EventView::Start, failed, woke, failed, woke, failed, woke, failed, woke, failed, woke,
            ];
            let (v2, acts) = run(v, events);
            &&& acts == seq![
                ActionView::Call(p), ActionView::Sleep(1), ActionView::Call(p), ActionView::Sleep(2),
                ActionView::Call(p), ActionView::Sleep(4), ActionView::Call(p), ActionView::Sleep(8),
                ActionView::Call(p), ActionView::Sleep(16), ActionView::DeliverFailure(v.queue[0].channel),
            ]
            &&& v2.cache == v.cache
            &&& v2.phase is Notifying
        }),
{
    let p = v.queue[0].prompt@;
    let failed = EventView::Reply(None);
    let woke = EventView::Woke;
    let events = seq![
        EventView::Start, failed, woke, failed, woke, failed, woke, failed, woke, failed, woke,
    ];
    let s0 = v;
    let s1 = step_spec(s0, events[0]).0;
    let s2 = step_spec(s1, events[1]).0;
    let s3 = step_spec(s2, events[2]).0;
    let s4 = step_spec(s3, events[3]).0;
    let s5 = step_spec(s4, events[4]).0;
    let s6 = step_spec(s5, events[5]).0;
    let s7 = step_spec(s6, events[6]).0;
    let s8 = step_spec(s7, events[7]).0;
    let s9 = step_spec(s8, events[8]).0;
    let s10 = step_spec(s9, events[9]).0;
    let s11 = step_spec(s10, events[10]).0;
    assert(s11.cache == v.cache);
    assert(run(s11, events.subrange(11, 11)).1 =~= Seq::<ActionView>::empty());
    assert(events.subrange(10, 11).drop_first() =~= events.subrange(11, 11));
    assert(events.subrange(10, 11)[0] == events[10]);
    assert(run(s10, events.subrange(10, 11)).0 == s11);
    assert(events.subrange(9, 11).drop_first() =~= events.subrange(10, 11));
    assert(events.subrange(9, 11)[0] == events[9]);
    assert(run(s9, events.subrange(9, 11)).0 == s11);
    assert(events.subrange(8, 11).drop_first() =~= events.subrange(9, 11));
    assert(events.subrange(8, 11)[0] == events[8]);
    assert(run(s8, events.subrange(8, 11)).0 == s11);
    assert(events.subrange(7, 11).drop_first() =~= events.subrange(8, 11));
    assert(events.subrange(7, 11)[0] == events[7]);
    assert(run(s7, events.subrange(7, 11)).0 == s11);
    assert(events.subrange(6, 11).drop_first() =~= events.subrange(7, 11));
    assert(events.subrange(6, 11)[0] == events[6]);
    assert(run(s6, events.subrange(6, 11)).0 == s11);
    assert(events.subrange(5, 11).drop_first() =~= events.subrange(6, 11));
    assert(events.subrange(5, 11)[0] == events[5]);
    assert(run(s5, events.subrange(5, 11)).0 == s11);
    assert(events.subrange(4, 11).drop_first() =~= events.subrange(5, 11));
    assert(events.subrange(4, 11)[0] == events[4]);
    assert(run(s4, events.subrange(4, 11)).0 == s11);
    assert(events.subrange(3, 11).drop_first() =~= events.subrange(4, 11));
    assert(events.subrange(3, 11)[0] == events[3]);
    assert(run(s3, events.subrange(3, 11)).0 == s11);
    assert(events.subrange(2, 11).drop_first() =~= events.subrange(3, 11));
    assert(events.subrange(2, 11)[0] == events[2]);
    assert(run(s2, events.subrange(2, 11)).0 == s11);
    assert(events.subrange(1, 11).drop_first() =~= events.subrange(2, 11));
    assert(events.subrange(1, 11)[0] == events[1]);
    assert(run(s1, events.subrange(1, 11)).0 == s11);
    assert(events.subrange(0, 11).drop_first() =~= events.subrange(1, 11));
    assert(events.subrange(0, 11)[0] == events[0]);
    assert(run(s0, events.subrange(0, 11)).0 == s11);
    assert(events.subrange(0, 11) =~= events);
    assert(run(v, events).1 =~= seq![
        ActionView::Call(p), ActionView::Sleep(1), ActionView::Call(p), ActionView::Sleep(2),
        ActionView::Call(p), ActionView::Sleep(4), ActionView::Call(p), ActionView::Sleep(8),
        ActionView::Call(p), ActionView::Sleep(16), ActionView::DeliverFailure(v.queue[0].channel),
    ]);
}

/// Backoff is capped: doubling never goes past the largest backoff, and one
/// that has reached it stays there.
pub proof fn lemma_backoff_capped(d: u64)
    requires
        1 <= d <= MAX_DELAY_SECS,
    ensures
        next_delay(d) <= MAX_DELAY_SECS,
        d == MAX_DELAY_SECS ==> next_delay(d) == MAX_DELAY_SECS,
        2 * d <= MAX_DELAY_SECS ==> next_delay(d) == 2 * d,
{
}

/// Pacing: an item is begun only at the start of a drain loop, after the
/// pacing sleep, or as a retry of the item in flight; a resolved item is
/// followed by nothing but the pacing sleep.
pub proof fn lemma_pacing(v: RelayView, e: EventView)
    ensures
        step_spec(v, e).1 is Call ==> (v.phase is Ready && e is Start) || (v.phase is Pacing && e is Woke)
            || (v.phase is Backoff && e is Woke),
        (step_spec(v, e).1 is Deliver || step_spec(v, e).1 is DeliverFailure) ==> step_spec(v, e).0.phase is Notifying,
        v.phase is Notifying ==> (if e is Sent {
            step_spec(v, e).1 == ActionView::Sleep(PACING_SECS) && step_spec(v, e).0.phase is Pacing
        } else {
            step_spec(v, e).1 == ActionView::Nothing && step_spec(v, e).0 == v
        }),
{
}

} // verus!
