use vstd::prelude::*;
use crate::batch::{EndSignal, MicroBatch, SignalView};
use crate::channel::ChannelInfo;
use crate::error::{IoError, IoResult};
use crate::tag::Tag;
use crate::transport::{same_link, GeneralPush};

verus! {

/// Clonable handle of the engine's event-emission subsystem.  Its
/// transport-level mechanics live outside this layer; the channel core
/// only holds one handle per peer push.
#[derive(Clone, Copy, PartialEq, Eq, Structural, Debug)]
pub struct EventEmitter {}

impl EventEmitter {
    pub fn new() -> EventEmitter {
        EventEmitter {  }
    }
}

/// An event-carrying push: a unicast transport push to one peer, decorated
/// so that beside scoped batches it can carry out-of-band progress signals
/// to the same peer.  The progress signals delivered so far are kept in
/// send order beside the batches of the underlying link; a signal delivery
/// fails exactly when the link's send path fails.
#[derive(Debug)]
pub struct EventEmitPush<D> {
    /// Topology of the channel this push belongs to.
    pub ch_info: ChannelInfo,
    /// Index of the worker that sends through this push.
    pub source_worker: u32,
    /// Index of the peer worker this push delivers to.
    pub target_worker: u32,
    /// The underlying unicast transport link.
    pub inner: GeneralPush<MicroBatch<D>>,
    /// Every progress signal delivered to the peer so far, in send order.
    pub signals: Vec<EndSignal>,
    /// Handle used to emit progress signals out of band.
    pub emitter: EventEmitter,
}

/// The identity of an event push: everything no push, flush or close
/// operation ever changes.
pub open spec fn same_peer<D>(o: EventEmitPush<D>, n: EventEmitPush<D>) -> bool {
    &&& n.ch_info == o.ch_info
    &&& n.source_worker == o.source_worker
    &&& n.target_worker == o.target_worker
    &&& n.emitter == o.emitter
    &&& same_link(o.inner, n.inner)
}

/// `n` is `o` after exactly one progress signal with value `s` was
/// delivered to the peer; nothing else changed.
pub open spec fn signal_delivered<D>(o: EventEmitPush<D>, n: EventEmitPush<D>, s: SignalView) -> bool {
    &&& n.signals_view() == o.signals_view().push(s)
    &&& n.inner == o.inner
    &&& same_peer(o, n)
}

/// `n` is `o` after exactly one batch `b` was delivered to the peer;
/// nothing else changed.
pub open spec fn batch_delivered<D>(o: EventEmitPush<D>, n: EventEmitPush<D>, b: MicroBatch<D>) -> bool {
    &&& n.inner.items@ == o.inner.items@.push(b)
    &&& n.inner.flushed == o.inner.flushed
    &&& n.inner.closed == o.inner.closed
    &&& n.signals == o.signals
    &&& same_peer(o, n)
}

/// `n` is `o` after one final batch `b` carrying the progress signal `s`
/// was delivered to the peer; nothing else changed.
pub open spec fn last_delivered<D>(
    o: EventEmitPush<D>,
    n: EventEmitPush<D>,
    b: MicroBatch<D>,
    s: SignalView,
) -> bool {
    &&& n.inner.items@ == o.inner.items@.push(b)
    &&& n.signals_view() == o.signals_view().push(s)
    &&& n.inner.flushed == o.inner.flushed
    &&& n.inner.closed == o.inner.closed
    &&& same_peer(o, n)
}

/// `n` is `o` after its link was flushed; nothing else changed.
pub open spec fn link_flushed<D>(o: EventEmitPush<D>, n: EventEmitPush<D>) -> bool {
    &&& n.inner.flushed
    &&& n.inner.items == o.inner.items
    &&& n.inner.closed == o.inner.closed
    &&& n.signals == o.signals
    &&& same_peer(o, n)
}

/// `n` is `o` after its link was closed; nothing else changed.
pub open spec fn link_closed<D>(o: EventEmitPush<D>, n: EventEmitPush<D>) -> bool {
    &&& n.inner.closed
    &&& n.inner.items == o.inner.items
    &&& n.inner.flushed == o.inner.flushed
    &&& n.signals == o.signals
    &&& same_peer(o, n)
}

/// A freshly constructed event push: bound to `target_worker`, wrapping
/// the link `link`, with no signal delivered yet.
pub open spec fn fresh_evented<D>(
    e: EventEmitPush<D>,
    info: ChannelInfo,
    source_worker: u32,
    target_worker: u32,
    link: GeneralPush<MicroBatch<D>>,
    emitter: EventEmitter,
) -> bool {
    &&& e.ch_info == info
    &&& e.source_worker == source_worker
    &&& e.target_worker == target_worker
    &&& e.inner == link
    &&& e.signals_view() == Seq::<SignalView>::empty()
    &&& e.emitter == emitter
}

impl<D> EventEmitPush<D> {
    /// The progress signals delivered to the peer so far, as values.
    pub open spec fn signals_view(&self) -> Seq<SignalView> {
        self.signals@.map_values(|s: EndSignal| s@)
    }

    /// True when the link's send path fails: every batch or signal
    /// delivery through this push then fails.
    pub open spec fn fails_send(&self) -> bool {
        self.inner.faults.on_push
    }

    /// True when the link's flush path fails.
    pub open spec fn fails_flush(&self) -> bool {
        self.inner.faults.on_flush
    }

    /// True when the link's close path fails.
    pub open spec fn fails_close(&self) -> bool {
        self.inner.faults.on_close
    }

    /// The transport error this push reports on failure.
    pub open spec fn fault(&self) -> IoError {
        self.inner.fault()
    }

    /// Builds one event-carrying push for the peer `target_worker`,
    /// wrapping its unicast transport link and a clone of the shared
    /// event-emission handle.
    pub fn new(
        info: ChannelInfo,
        source_worker: u32,
        target_worker: u32,
        push: GeneralPush<MicroBatch<D>>,
        emitter: EventEmitter,
    ) -> (e: EventEmitPush<D>)
        ensures
            fresh_evented(e, info, source_worker, target_worker, push, emitter),
    {
        let e = EventEmitPush {
            ch_info: info,
            source_worker,
            target_worker,
            inner: push,
            signals: Vec::new(),
            emitter,
        };
        proof {
            assert(e.signals_view() =~= Seq::<SignalView>::empty());
        }
        e
    }

    /// Sends one scoped batch to the peer.  The `tag` names the scope the
    /// batch belongs to; delivery itself is per batch.
    pub fn push(&mut self, _tag: &Tag, msg: MicroBatch<D>) -> (r: IoResult)
        ensures
            old(self).fails_send() ==> {
                &&& r == Err::<(), IoError>(old(self).fault())
                &&& *final(self) == *old(self)
            },
            !old(self).fails_send() ==> {
                &&& r == Ok::<(), IoError>(())
                &&& batch_delivered(*old(self), *final(self), msg)
            },
    {
        self.inner.push(msg)
    }

    /// Sends one final batch to the peer; its delivery carries the
    /// progress signal `end` to that same peer.
    pub fn push_last(&mut self, msg: MicroBatch<D>, end: EndSignal) -> (r: IoResult)
        ensures
            old(self).fails_send() ==> {
                &&& r == Err::<(), IoError>(old(self).fault())
                &&& *final(self) == *old(self)
            },
            !old(self).fails_send() ==> {
                &&& r == Ok::<(), IoError>(())
                &&& last_delivered(*old(self), *final(self), msg, end@)
            },
    {
        let r = self.inner.push(msg);
        match r {
            Err(e) => Err(e),
            Ok(()) => {
                self.signals.push(end);
                proof {
                    assert(self.signals_view() =~= old(self).signals_view().push(end@));
                }
                Ok(())
            },
        }
    }

    /// Delivers one out-of-band progress signal to the peer.
    pub fn notify_end(&mut self, end: EndSignal) -> (r: IoResult)
        ensures
            old(self).fails_send() ==> {
                &&& r == Err::<(), IoError>(old(self).fault())
                &&& *final(self) == *old(self)
            },
            !old(self).fails_send() ==> {
                &&& r == Ok::<(), IoError>(())
                &&& signal_delivered(*old(self), *final(self), end@)
            },
    {
        if self.inner.faults.on_push {
            Err(IoError { worker: self.inner.target_worker })
        } else {
            self.signals.push(end);
            proof {
                assert(self.signals_view() =~= old(self).signals_view().push(end@));
            }
            Ok(())
        }
    }

    /// Flushes the underlying link.
    pub fn flush(&mut self) -> (r: IoResult)
        ensures
            old(self).inner.faults.on_flush ==> {
                &&& r == Err::<(), IoError>(old(self).fault())
                &&& *final(self) == *old(self)
            },
            !old(self).inner.faults.on_flush ==> {
                &&& r == Ok::<(), IoError>(())
                &&& link_flushed(*old(self), *final(self))
            },
    {
        self.inner.flush()
    }

    /// Closes the underlying link.
    pub fn close(&mut self) -> (r: IoResult)
        ensures
            old(self).inner.faults.on_close ==> {
                &&& r == Err::<(), IoError>(old(self).fault())
                &&& *final(self) == *old(self)
            },
            !old(self).inner.faults.on_close ==> {
                &&& r == Ok::<(), IoError>(())
                &&& link_closed(*old(self), *final(self))
            },
    {
        self.inner.close()
    }

    /// Number of progress signals the peer has received through this push.
    pub fn signal_count(&self) -> (n: usize)
        ensures
            n == self.signals_view().len(),
    {
        self.signals.len()
    }

    /// The `i`-th progress signal the peer received, in send order.
    pub fn signal_at(&self, i: usize) -> (s: &EndSignal)
        requires
            i < self.signals_view().len(),
        ensures
            s@ == self.signals_view()[i as int],
    {
        &self.signals[i]
    }

    /// Number of scoped batches the peer has received through this push.
    pub fn batch_count(&self) -> (n: usize)
        ensures
            n == self.inner@.len(),
    {
        self.inner.items.len()
    }
}

} // verus!
