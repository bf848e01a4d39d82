use vstd::prelude::*;
use crate::aggregate::{
    close_post, closes_ok_upto, flush_post, mark_cycles_post, notify_end_post, notify_outcome,
    push_last_post, push_post, signals_ok_upto, AggregateBatchPush,
};
use crate::batch::{MicroBatch, SignalView};
use crate::error::{IoError, IoResult};
use crate::evented::{last_delivered, link_closed, link_flushed, signal_delivered};

verus! {

/// One observable step of an aggregate push: some operation of its
/// interface ran between the states `pre` and `post`.
pub open spec fn reachable_step<D>(
    pre: AggregateBatchPush<D>,
    post: AggregateBatchPush<D>,
) -> bool {
    ||| (exists|b: MicroBatch<D>, r: IoResult| push_post(pre, post, b, r))
    ||| (exists|b: MicroBatch<D>, s: SignalView, r: IoResult| push_last_post(pre, post, b, s, r))
    ||| (exists|s: SignalView, r: IoResult| notify_end_post(pre, post, s, r))
    ||| (exists|r: IoResult| flush_post(pre, post, r))
    ||| (exists|r: IoResult| close_post(pre, post, r))
    ||| mark_cycles_post(pre, post)
}

/// Unicast routing: a `push` call never touches any peer's event push —
/// the event pushes stay exactly as they were, so along any sequence of
/// `push` calls only the resolved target peer ever receives a batch.
pub proof fn lemma_unicast_routing<D>(
    pre: AggregateBatchPush<D>,
    post: AggregateBatchPush<D>,
    b: MicroBatch<D>,
    r: IoResult,
)
    requires
        push_post(pre, post, b, r),
    ensures
        post.event_push == pre.event_push,
        !pre.data_push.fails_send() ==> r == Ok::<(), IoError>(()) && post.data_push.inner.items@
            == pre.data_push.inner.items@.push(b),
{
}

/// Root broadcast on `push_last`: for a batch tagged with the root
/// identifier and healthy links, every one of the event pushes receives
/// the progress signal, and the data push receives the batch together
/// with the signal.
pub proof fn lemma_root_push_last_broadcast<D>(
    pre: AggregateBatchPush<D>,
    post: AggregateBatchPush<D>,
    b: MicroBatch<D>,
    s: SignalView,
    r: IoResult,
)
    requires
        push_last_post(pre, post, b, s, r),
        b@.tag.len() == 0,
        signals_ok_upto(pre.event_push@, pre.event_push@.len() as int),
        !pre.data_push.fails_send(),
    ensures
        r == Ok::<(), IoError>(()),
        forall|j: int|
            0 <= j < pre.event_push@.len() ==> signal_delivered(
                pre.event_push@[j],
                #[trigger] post.event_push@[j],
                s,
            ),
        last_delivered(pre.data_push, post.data_push, b, s),
{
}

/// Threshold broadcast, coarse side: a `notify_end` whose identifier's
/// level lies strictly below the scope-level threshold reaches every
/// event push (healthy links assumed), beside the data push.
pub proof fn lemma_threshold_broadcast<D>(
    pre: AggregateBatchPush<D>,
    post: AggregateBatchPush<D>,
    s: SignalView,
    r: IoResult,
)
    requires
        notify_end_post(pre, post, s, r),
        s.tag.len() < pre.ch_info.scope_level,
        signals_ok_upto(pre.event_push@, pre.event_push@.len() as int),
    ensures
        forall|j: int|
            0 <= j < pre.event_push@.len() ==> signal_delivered(
                pre.event_push@[j],
                #[trigger] post.event_push@[j],
                s,
            ),
        notify_outcome(pre.data_push, post.data_push, s, r),
{
}

/// Threshold broadcast, fine side: a `notify_end` whose identifier is not
/// the root and sits at or above the threshold, with the cycle flag still
/// false, reaches only the data push; no event push changes at all.
pub proof fn lemma_leaf_unicast<D>(
    pre: AggregateBatchPush<D>,
    post: AggregateBatchPush<D>,
    s: SignalView,
    r: IoResult,
)
    requires
        notify_end_post(pre, post, s, r),
        s.tag.len() != 0,
        s.tag.len() >= pre.ch_info.scope_level,
        !pre.has_cycles,
    ensures
        post.event_push == pre.event_push,
        notify_outcome(pre.data_push, post.data_push, s, r),
{
}

/// Cycle broadcast: once the cycle flag is true, every `notify_end`,
/// regardless of the identifier's level or rootness, is broadcast to
/// every event push (healthy links assumed), and the flag stays true.
pub proof fn lemma_cycle_broadcast<D>(
    pre: AggregateBatchPush<D>,
    post: AggregateBatchPush<D>,
    s: SignalView,
    r: IoResult,
)
    requires
        notify_end_post(pre, post, s, r),
        pre.has_cycles,
        signals_ok_upto(pre.event_push@, pre.event_push@.len() as int),
    ensures
        forall|j: int|
            0 <= j < pre.event_push@.len() ==> signal_delivered(
                pre.event_push@[j],
                #[trigger] post.event_push@[j],
                s,
            ),
        notify_outcome(pre.data_push, post.data_push, s, r),
        post.has_cycles,
{
}

/// Cycle-flag monotonicity: no operation of the interface ever lowers the
/// cycle flag — once true, it is true after every further step.
pub proof fn lemma_cycle_flag_monotonic<D>(
    pre: AggregateBatchPush<D>,
    post: AggregateBatchPush<D>,
)
    requires
        reachable_step(pre, post),
        pre.has_cycles,
    ensures
        post.has_cycles,
{
}

/// Cycle-flag monotonicity along a whole run: in any chain of states
/// linked by interface steps, once the cycle flag is true at one state it
/// is true at every later state — it is never observed false again.
pub proof fn lemma_cycle_flag_monotonic_chain<D>(
    states: Seq<AggregateBatchPush<D>>,
    i: int,
    j: int,
)
    requires
        forall|t: int|
            0 <= t < states.len() - 1 ==> reachable_step(states[t], #[trigger] states[t + 1]),
        0 <= i <= j < states.len(),
        states[i].has_cycles,
    ensures
        states[j].has_cycles,
    decreases j - i,
{
    if i < j {
        lemma_cycle_flag_monotonic_chain(states, i, j - 1);
        let t = j - 1;
        assert(reachable_step(states[t], states[t + 1]));
        lemma_cycle_flag_monotonic(states[t], states[t + 1]);
    }
}

/// Fail-fast close: if the `k`-th event push's close fails and every
/// earlier one succeeds, the error returned is exactly that `k`-th
/// failure; no later event push nor the data push is touched.
pub proof fn lemma_fail_fast_close<D>(
    pre: AggregateBatchPush<D>,
    post: AggregateBatchPush<D>,
    r: IoResult,
    k: int,
)
    requires
        close_post(pre, post, r),
        0 <= k < pre.event_push@.len(),
        pre.event_push@[k].fails_close(),
        closes_ok_upto(pre.event_push@, k),
    ensures
        r == Err::<(), IoError>(pre.event_push@[k].fault()),
        forall|j: int|
            0 <= j < k ==> link_closed(pre.event_push@[j], #[trigger] post.event_push@[j]),
        forall|j: int|
            k <= j < pre.event_push@.len() ==> #[trigger] post.event_push@[j]
                == pre.event_push@[j],
        post.data_push == pre.data_push,
{
}

/// Flush isolation: `flush` invokes only the data push's flush; the event
/// pushes stay exactly as they were, whatever faults their own flush
/// paths carry, so a fault injected there is never triggered.
pub proof fn lemma_flush_isolation<D>(
    pre: AggregateBatchPush<D>,
    post: AggregateBatchPush<D>,
    r: IoResult,
)
    requires
        flush_post(pre, post, r),
    ensures
        post.event_push == pre.event_push,
        !pre.data_push.fails_flush() ==> r == Ok::<(), IoError>(()) && link_flushed(
            pre.data_push,
            post.data_push,
        ),
{
}

} // verus!
