use vstd::prelude::*;
use crate::batch::{EndSignal, MicroBatch, SignalView};
use crate::channel::{ChannelInfo, Port};
use crate::error::{IoError, IoResult};
use crate::evented::{
    batch_delivered, fresh_evented, last_delivered, link_closed, link_flushed, signal_delivered,
    EventEmitPush, EventEmitter,
};
use crate::tag::Tag;
use crate::transport::GeneralPush;

verus! {

/// The broadcast rule: a progress signal for identifier `tag` must be
/// replicated to every peer's event push when the identifier is the root,
/// or its level lies strictly below the channel's scope-level threshold
/// (a coarse, cross-cutting scope boundary), or the region is known to
/// contain a feedback cycle (any peer may reenter the loop and must not
/// be left waiting on a peer that will never independently signal it).
pub open spec fn must_broadcast(tag: Seq<u32>, scope_level: u32, has_cycles: bool) -> bool {
    ||| tag.len() == 0
    ||| tag.len() < scope_level
    ||| has_cycles
}

/// Every event push with index below `k` has a healthy send path.
pub open spec fn signals_ok_upto<D>(eps: Seq<EventEmitPush<D>>, k: int) -> bool {
    forall|j: int| 0 <= j < k ==> !(#[trigger] eps[j]).fails_send()
}

/// Every event push with index below `k` has a healthy close path.
pub open spec fn closes_ok_upto<D>(eps: Seq<EventEmitPush<D>>, k: int) -> bool {
    forall|j: int| 0 <= j < k ==> !(#[trigger] eps[j]).fails_close()
}

/// `neps` is `eps` after the signal `s` was delivered to the event pushes
/// in order, stopping in front of index `k`: every push below `k` received
/// the signal, every push from `k` on is untouched.
pub open spec fn broadcast_stopped_at<D>(
    eps: Seq<EventEmitPush<D>>,
    neps: Seq<EventEmitPush<D>>,
    s: SignalView,
    k: int,
) -> bool {
    &&& neps.len() == eps.len()
    &&& (forall|j: int| 0 <= j < k ==> signal_delivered(eps[j], #[trigger] neps[j], s))
    &&& (forall|j: int| k <= j < eps.len() ==> #[trigger] neps[j] == eps[j])
}

/// `neps` is `eps` after the event pushes were closed in order, stopping
/// in front of index `k`: every push below `k` is closed, every push from
/// `k` on is untouched.
pub open spec fn close_stopped_at<D>(
    eps: Seq<EventEmitPush<D>>,
    neps: Seq<EventEmitPush<D>>,
    k: int,
) -> bool {
    &&& neps.len() == eps.len()
    &&& (forall|j: int| 0 <= j < k ==> link_closed(eps[j], #[trigger] neps[j]))
    &&& (forall|j: int| k <= j < eps.len() ==> #[trigger] neps[j] == eps[j])
}

/// Outcome of delivering one out-of-band progress signal through a single
/// event push: the signal arrives, or the push's transport error comes
/// back and the push is unchanged.
pub open spec fn notify_outcome<D>(
    o: EventEmitPush<D>,
    n: EventEmitPush<D>,
    s: SignalView,
    r: IoResult,
) -> bool {
    if o.fails_send() {
        r == Err::<(), IoError>(o.fault()) && n == o
    } else {
        r == Ok::<(), IoError>(()) && signal_delivered(o, n, s)
    }
}

/// Outcome of delivering one scoped batch through a single event push.
pub open spec fn push_outcome<D>(
    o: EventEmitPush<D>,
    n: EventEmitPush<D>,
    b: MicroBatch<D>,
    r: IoResult,
) -> bool {
    if o.fails_send() {
        r == Err::<(), IoError>(o.fault()) && n == o
    } else {
        r == Ok::<(), IoError>(()) && batch_delivered(o, n, b)
    }
}

/// Outcome of delivering one final batch, carrying its progress signal,
/// through a single event push.
pub open spec fn last_outcome<D>(
    o: EventEmitPush<D>,
    n: EventEmitPush<D>,
    b: MicroBatch<D>,
    s: SignalView,
    r: IoResult,
) -> bool {
    if o.fails_send() {
        r == Err::<(), IoError>(o.fault()) && n == o
    } else {
        r == Ok::<(), IoError>(()) && last_delivered(o, n, b, s)
    }
}

/// Outcome of flushing a single event push.
pub open spec fn flush_outcome<D>(o: EventEmitPush<D>, n: EventEmitPush<D>, r: IoResult) -> bool {
    if o.fails_flush() {
        r == Err::<(), IoError>(o.fault()) && n == o
    } else {
        r == Ok::<(), IoError>(()) && link_flushed(o, n)
    }
}

/// Outcome of closing a single event push.
pub open spec fn close_outcome<D>(o: EventEmitPush<D>, n: EventEmitPush<D>, r: IoResult) -> bool {
    if o.fails_close() {
        r == Err::<(), IoError>(o.fault()) && n == o
    } else {
        r == Ok::<(), IoError>(()) && link_closed(o, n)
    }
}

/// Which slot of the given per-peer collection the event push at
/// index `i` holds, once the target's entry was swapped out: removing the
/// entry `target` moves the last entry (`n - 1`) into its place.
pub open spec fn peer_slot(i: int, target: int, n: int) -> int {
    if i == target {
        n - 1
    } else {
        i
    }
}

/// Fans a single logical output channel out across all peers: data batches
/// always go to the one resolved **data push**, while progress signals are
/// selectively replicated to the **event pushes** of every other peer,
/// according to the scope-nesting and cycle rules of [`must_broadcast`].
///
/// The cycle flag is shared state in the surrounding engine, set once
/// (false to true) by whatever subsystem detects that the graph region is
/// cyclic; here it is held as a plain monotonic boolean, raised through
/// [`AggregateBatchPush::mark_cycles`] and never reset.
pub struct AggregateBatchPush<D> {
    /// Static topology of the channel.
    pub ch_info: ChannelInfo,
    /// The event push bound to the resolved target peer: the one
    /// destination of every data batch.
    pub data_push: EventEmitPush<D>,
    /// Event pushes of every peer other than the target, used only to
    /// replicate progress signals.
    pub event_push: Vec<EventEmitPush<D>>,
    /// Whether the graph region is known to contain a feedback cycle.
    pub has_cycles: bool,
}

/// Full postcondition of [`AggregateBatchPush::push`]: the batch goes to
/// the data push alone; no event push changes.
pub open spec fn push_post<D>(
    pre: AggregateBatchPush<D>,
    post: AggregateBatchPush<D>,
    b: MicroBatch<D>,
    r: IoResult,
) -> bool {
    &&& post.ch_info == pre.ch_info
    &&& post.has_cycles == pre.has_cycles
    &&& post.event_push == pre.event_push
    &&& push_outcome(pre.data_push, post.data_push, b, r)
}

/// Full postcondition of [`AggregateBatchPush::push_last`]: for a
/// root-tagged batch the signal is first replicated to every event push,
/// fail-fast; then the batch, carrying the signal, goes to the data push.
pub open spec fn push_last_post<D>(
    pre: AggregateBatchPush<D>,
    post: AggregateBatchPush<D>,
    b: MicroBatch<D>,
    s: SignalView,
    r: IoResult,
) -> bool {
    let n = pre.event_push@.len() as int;
    &&& post.ch_info == pre.ch_info
    &&& post.has_cycles == pre.has_cycles
    &&& post.event_push@.len() == n
    &&& (b@.tag.len() != 0 ==> post.event_push == pre.event_push && last_outcome(
        pre.data_push,
        post.data_push,
        b,
        s,
        r,
    ))
    &&& (b@.tag.len() == 0 && signals_ok_upto(pre.event_push@, n) ==> broadcast_stopped_at(
        pre.event_push@,
        post.event_push@,
        s,
        n,
    ) && last_outcome(pre.data_push, post.data_push, b, s, r))
    &&& (forall|k: int|
        b@.tag.len() == 0 && 0 <= k < n && (#[trigger] pre.event_push@[k]).fails_send()
            && signals_ok_upto(pre.event_push@, k) ==> {
            &&& r == Err::<(), IoError>(pre.event_push@[k].fault())
            &&& broadcast_stopped_at(pre.event_push@, post.event_push@, s, k)
            &&& post.data_push == pre.data_push
        })
}

/// Full postcondition of [`AggregateBatchPush::notify_end`]: when the
/// broadcast rule applies, the signal is replicated to every event push in
/// order, fail-fast; in every case that reaches it, the data push receives
/// the signal at the end of the call.
pub open spec fn notify_end_post<D>(
    pre: AggregateBatchPush<D>,
    post: AggregateBatchPush<D>,
    s: SignalView,
    r: IoResult,
) -> bool {
    let n = pre.event_push@.len() as int;
    let bcast = must_broadcast(s.tag, pre.ch_info.scope_level, pre.has_cycles);
    &&& post.ch_info == pre.ch_info
    &&& post.has_cycles == pre.has_cycles
    &&& post.event_push@.len() == n
    &&& (!bcast ==> post.event_push == pre.event_push && notify_outcome(
        pre.data_push,
        post.data_push,
        s,
        r,
    ))
    &&& (bcast && signals_ok_upto(pre.event_push@, n) ==> broadcast_stopped_at(
        pre.event_push@,
        post.event_push@,
        s,
        n,
    ) && notify_outcome(pre.data_push, post.data_push, s, r))
    &&& (forall|k: int|
        bcast && 0 <= k < n && (#[trigger] pre.event_push@[k]).fails_send() && signals_ok_upto(
            pre.event_push@,
            k,
        ) ==> {
            &&& r == Err::<(), IoError>(pre.event_push@[k].fault())
            &&& broadcast_stopped_at(pre.event_push@, post.event_push@, s, k)
            &&& post.data_push == pre.data_push
        })
}

/// Full postcondition of [`AggregateBatchPush::flush`]: only the data push
/// is flushed; the event pushes are untouched.
pub open spec fn flush_post<D>(
    pre: AggregateBatchPush<D>,
    post: AggregateBatchPush<D>,
    r: IoResult,
) -> bool {
    &&& post.ch_info == pre.ch_info
    &&& post.has_cycles == pre.has_cycles
    &&& post.event_push == pre.event_push
    &&& flush_outcome(pre.data_push, post.data_push, r)
}

/// Full postcondition of [`AggregateBatchPush::close`]: the event pushes
/// are closed in order, fail-fast, then the data push; the first failing
/// close aborts the remaining sequence, the data push's close included.
pub open spec fn close_post<D>(
    pre: AggregateBatchPush<D>,
    post: AggregateBatchPush<D>,
    r: IoResult,
) -> bool {
    let n = pre.event_push@.len() as int;
    &&& post.ch_info == pre.ch_info
    &&& post.has_cycles == pre.has_cycles
    &&& post.event_push@.len() == n
    &&& (closes_ok_upto(pre.event_push@, n) ==> close_stopped_at(
        pre.event_push@,
        post.event_push@,
        n,
    ) && close_outcome(pre.data_push, post.data_push, r))
    &&& (forall|k: int|
        0 <= k < n && (#[trigger] pre.event_push@[k]).fails_close() && closes_ok_upto(
            pre.event_push@,
            k,
        ) ==> {
            &&& r == Err::<(), IoError>(pre.event_push@[k].fault())
            &&& close_stopped_at(pre.event_push@, post.event_push@, k)
            &&& post.data_push == pre.data_push
        })
}

/// Full postcondition of [`AggregateBatchPush::mark_cycles`]: the cycle
/// flag is raised; nothing else changes.
pub open spec fn mark_cycles_post<D>(
    pre: AggregateBatchPush<D>,
    post: AggregateBatchPush<D>,
) -> bool {
    &&& post.ch_info == pre.ch_info
    &&& post.has_cycles
    &&& post.event_push == pre.event_push
    &&& post.data_push == pre.data_push
}

/// Delivers `end` to every event push in order, stopping at the first
/// failing link and returning its transport error.
fn broadcast_end<D>(eps: &mut Vec<EventEmitPush<D>>, end: &EndSignal) -> (r: IoResult)
    ensures
        final(eps)@.len() == old(eps)@.len(),
        signals_ok_upto(old(eps)@, old(eps)@.len() as int) ==> {
            &&& r == Ok::<(), IoError>(())
            &&& broadcast_stopped_at(old(eps)@, final(eps)@, end@, old(eps)@.len() as int)
        },
        forall|k: int|
            0 <= k < old(eps)@.len() && (#[trigger] old(eps)@[k]).fails_send() && signals_ok_upto(
                old(eps)@,
                k,
            ) ==> {
                &&& r == Err::<(), IoError>(old(eps)@[k].fault())
                &&& broadcast_stopped_at(old(eps)@, final(eps)@, end@, k)
            },
{
    let ghost eps0 = eps@;
    let n = eps.len();
    let mut i: usize = 0;
    while i < n
        invariant
            n == eps0.len(),
            i <= n,
            eps0 == old(eps)@,
            eps@.len() == n,
            signals_ok_upto(eps0, i as int),
            broadcast_stopped_at(eps0, eps@, end@, i as int),
        decreases n - i,
    {
        let ghost pre = eps@;
        let p = &mut eps[i];
        let res = p.notify_end(end.clone());
        match res {
            Err(e) => {
                proof {
                    assert(eps@ =~= pre);
                    assert forall|k: int|
                        0 <= k < eps0.len() && (#[trigger] eps0[k]).fails_send()
                            && signals_ok_upto(eps0, k) implies k == i as int by {
                        if k < i as int {
                            assert(!eps0[k].fails_send());
                        } else if k > i as int {
                            assert(!eps0[i as int].fails_send());
                        }
                    }
                }
                return Err(e);
            },
            Ok(()) => {
                proof {
                    assert forall|j: int| 0 <= j < i + 1 implies signal_delivered(
                        eps0[j],
                        #[trigger] eps@[j],
                        end@,
                    ) by {
                        if j < i as int {
                            assert(eps@[j] == pre[j]);
                            assert(signal_delivered(eps0[j], pre[j], end@));
                        }
                    }
                }
            },
        }
        i = i + 1;
    }
    Ok(())
}

/// Closes every event push in order, stopping at the first failing link
/// and returning its transport error.
fn close_all<D>(eps: &mut Vec<EventEmitPush<D>>) -> (r: IoResult)
    ensures
        final(eps)@.len() == old(eps)@.len(),
        closes_ok_upto(old(eps)@, old(eps)@.len() as int) ==> {
            &&& r == Ok::<(), IoError>(())
            &&& close_stopped_at(old(eps)@, final(eps)@, old(eps)@.len() as int)
        },
        forall|k: int|
            0 <= k < old(eps)@.len() && (#[trigger] old(eps)@[k]).fails_close() && closes_ok_upto(
                old(eps)@,
                k,
            ) ==> {
                &&& r == Err::<(), IoError>(old(eps)@[k].fault())
                &&& close_stopped_at(old(eps)@, final(eps)@, k)
            },
{
    let ghost eps0 = eps@;
    let n = eps.len();
    let mut i: usize = 0;
    while i < n
        invariant
            n == eps0.len(),
            i <= n,
            eps0 == old(eps)@,
            eps@.len() == n,
            closes_ok_upto(eps0, i as int),
            close_stopped_at(eps0, eps@, i as int),
        decreases n - i,
    {
        let ghost pre = eps@;
        let p = &mut eps[i];
        let res = p.close();
        match res {
            Err(e) => {
                proof {
                    assert(eps@ =~= pre);
                    assert forall|k: int|
                        0 <= k < eps0.len() && (#[trigger] eps0[k]).fails_close()
                            && closes_ok_upto(eps0, k) implies k == i as int by {
                        if k < i as int {
                            assert(!eps0[k].fails_close());
                        } else if k > i as int {
                            assert(!eps0[i as int].fails_close());
                        }
                    }
                }
                return Err(e);
            },
            Ok(()) => {
                proof {
                    assert forall|j: int| 0 <= j < i + 1 implies link_closed(
                        eps0[j],
                        #[trigger] eps@[j],
                    ) by {
                        if j < i as int {
                            assert(eps@[j] == pre[j]);
                            assert(link_closed(eps0[j], pre[j]));
                        }
                    }
                }
            },
        }
        i = i + 1;
    }
    Ok(())
}

impl<D> AggregateBatchPush<D> {
    /// Builds the channel's fan-out: one event-carrying push per peer,
    /// each wrapping that peer's transport link and a clone of the shared
    /// event-emission handle; the entry of the resolved `target` peer is
    /// then swapped out of the collection and kept apart as the data push
    /// (the swap moves the last entry into the freed place, so peer
    /// identities stay accurate for the rest).
    pub fn new(
        info: ChannelInfo,
        source_worker: u32,
        target: u32,
        has_cycles: bool,
        push: Vec<GeneralPush<MicroBatch<D>>>,
        emitter: EventEmitter,
    ) -> (agg: AggregateBatchPush<D>)
        requires
            (target as int) < push@.len(),
            push@.len() <= u32::MAX,
        ensures
            agg.ch_info == info,
            agg.has_cycles == has_cycles,
            fresh_evented(
                agg.data_push,
                info,
                source_worker,
                target,
                push@[target as int],
                emitter,
            ),
            agg.event_push@.len() == push@.len() - 1,
            forall|i: int|
                0 <= i < push@.len() - 1 ==> fresh_evented(
                    #[trigger] agg.event_push@[i],
                    info,
                    source_worker,
                    peer_slot(i, target as int, push@.len() as int) as u32,
                    push@[peer_slot(i, target as int, push@.len() as int)],
                    emitter,
                ),
    {
        let ghost push0 = push@;
        let n = push.len();
        let mut rest = push;
        let mut event_push: Vec<EventEmitPush<D>> = Vec::new();
        let mut t: usize = 0;
        while t < n
            invariant
                n == push0.len(),
                n <= u32::MAX,
                t <= n,
                rest@ == push0.subrange(t as int, n as int),
                event_push@.len() == t,
                forall|i: int|
                    0 <= i < t ==> fresh_evented(
                        #[trigger] event_push@[i],
                        info,
                        source_worker,
                        i as u32,
                        push0[i],
                        emitter,
                    ),
            decreases n - t,
        {
            let p = rest.remove(0);
            proof {
                assert(p == push0[t as int]);
                assert(rest@ =~= push0.subrange(t + 1, n as int));
            }
            let e = EventEmitPush::new(info, source_worker, t as u32, p, emitter.clone());
            event_push.push(e);
            t = t + 1;
        }
        let ghost eps0 = event_push@;
        let data_push = event_push.swap_remove(target as usize);
        proof {
            assert forall|i: int| 0 <= i < push0.len() - 1 implies fresh_evented(
                #[trigger] event_push@[i],
                info,
                source_worker,
                peer_slot(i, target as int, push0.len() as int) as u32,
                push0[peer_slot(i, target as int, push0.len() as int)],
                emitter,
            ) by {
                if i == target as int {
                    assert(event_push@[i] == eps0[n - 1]);
                } else {
                    assert(event_push@[i] == eps0[i]);
                }
            }
        }
        AggregateBatchPush { ch_info: info, data_push, event_push, has_cycles }
    }

    /// The channel's local port; pure, no side effects.
    pub fn port(&self) -> (p: Port)
        ensures
            p == self.ch_info.source_port,
    {
        self.ch_info.source_port
    }

    /// Forwards the batch unconditionally to the data push only: data for
    /// a given scope identifier always has exactly one correct destination,
    /// resolved upstream by partitioning, so no broadcast is needed here.
    pub fn push(&mut self, tag: &Tag, msg: MicroBatch<D>) -> (r: IoResult)
        ensures
            push_post(*old(self), *final(self), msg, r),
    {
        self.data_push.push(tag, msg)
    }

    /// Delivers the batch via the data push's last-batch path, which
    /// itself carries the progress signal to that one peer.  If the
    /// batch's identifier is the root, the signal is first broadcast to
    /// every event push: root-scope completion must be visible to every
    /// peer, because peers that received no root-scope data still must
    /// retire root-level bookkeeping.
    pub fn push_last(&mut self, msg: MicroBatch<D>, end: EndSignal) -> (r: IoResult)
        ensures
            push_last_post(*old(self), *final(self), msg, end@, r),
    {
        if msg.tag.is_root() {
            let res = broadcast_end(&mut self.event_push, &end);
            match res {
                Err(e) => {
                    return Err(e);
                },
                Ok(()) => {},
            }
        }
        self.data_push.push_last(msg, end)
    }

    /// Delivers the progress signal: broadcast to every event push when
    /// the rule of [`must_broadcast`] applies (fail-fast on the first
    /// failing peer), and in every case that reaches it, also through the
    /// data push at the end of the call.
    pub fn notify_end(&mut self, end: EndSignal) -> (r: IoResult)
        ensures
            notify_end_post(*old(self), *final(self), end@, r),
    {
        if end.tag.is_root() || (end.tag.level() as u64) < (self.ch_info.scope_level as u64)
            || self.has_cycles {
            let res = broadcast_end(&mut self.event_push, &end);
            match res {
                Err(e) => {
                    return Err(e);
                },
                Ok(()) => {},
            }
        }
        self.data_push.notify_end(end)
    }

    /// Forwards only to the data push.  Event pushes are never flushed by
    /// this component: they flush as a side effect of their own signal
    /// delivery.
    pub fn flush(&mut self) -> (r: IoResult)
        ensures
            flush_post(*old(self), *final(self), r),
    {
        self.data_push.flush()
    }

    /// Closes every event push in order, then the data push.  Fail-fast:
    /// the first failing close aborts the remaining sequence, the data
    /// push's close included, and returns that error.
    pub fn close(&mut self) -> (r: IoResult)
        ensures
            close_post(*old(self), *final(self), r),
    {
        let res = close_all(&mut self.event_push);
        match res {
            Err(e) => {
                return Err(e);
            },
            Ok(()) => {},
        }
        self.data_push.close()
    }

    /// Raises the shared cycle flag: the surrounding engine calls this
    /// once it detects that the graph region participates in a feedback
    /// cycle.  The flag only ever transitions false to true.
    pub fn mark_cycles(&mut self)
        ensures
            mark_cycles_post(*old(self), *final(self)),
    {
        self.has_cycles = true;
    }

    /// Number of event pushes: one per peer other than the target.
    pub fn event_peers(&self) -> (n: usize)
        ensures
            n == self.event_push@.len(),
    {
        self.event_push.len()
    }
}

} // verus!
