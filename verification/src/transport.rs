use vstd::prelude::*;
use crate::error::{IoError, IoResult};

verus! {

/// Faults a transport link may exhibit, one per operation.  A set flag
/// makes every subsequent call of that operation fail with a transport
/// error; the link's state is then left unchanged by the failing call.
#[derive(Clone, Copy, PartialEq, Eq, Structural, Debug)]
pub struct FaultPlan {
    pub on_push: bool,
    pub on_flush: bool,
    pub on_close: bool,
}

impl FaultPlan {
    /// A healthy link: no operation fails.
    #[verifier::allow_in_spec]
    pub fn none() -> FaultPlan
        returns
            (FaultPlan { on_push: false, on_flush: false, on_close: false }),
    {
        FaultPlan { on_push: false, on_flush: false, on_close: false }
    }
}

/// A unicast transport push: the capability of sending values of type `T`
/// to one specific peer worker, in order.  This models the per-peer link
/// of the data plane: the items accepted so far are the link's view, and a
/// [`FaultPlan`] stands for the link failing (disconnection, backpressure
/// overrun) on a given operation.
#[derive(Debug)]
pub struct GeneralPush<T> {
    /// Index of the peer worker this link sends to.
    pub target_worker: u32,
    /// Every item accepted so far, in send order.
    pub items: Vec<T>,
    /// Whether `flush` has completed successfully at least once.
    pub flushed: bool,
    /// Whether the link has been closed.
    pub closed: bool,
    /// Which operations currently fail.
    pub faults: FaultPlan,
}

impl<T> View for GeneralPush<T> {
    type V = Seq<T>;

    open spec fn view(&self) -> Seq<T> {
        self.items@
    }
}

/// The parts of a link that no push, flush or close operation ever
/// changes: its peer identity and its injected faults.
pub open spec fn same_link<T>(o: GeneralPush<T>, n: GeneralPush<T>) -> bool {
    &&& n.target_worker == o.target_worker
    &&& n.faults == o.faults
}

impl<T> GeneralPush<T> {
    /// The transport error this link reports on failure.
    pub open spec fn fault(&self) -> IoError {
        IoError { worker: self.target_worker }
    }

    /// A fresh, healthy link to peer `target_worker`.
    pub fn new(target_worker: u32) -> (p: GeneralPush<T>)
        ensures
            p.target_worker == target_worker,
            p@ == Seq::<T>::empty(),
            !p.flushed,
            !p.closed,
            p.faults == FaultPlan::none(),
    {
        GeneralPush {
            target_worker,
            items: Vec::new(),
            flushed: false,
            closed: false,
            faults: FaultPlan::none(),
        }
    }

    /// Injects the given faults into this link.
    pub fn set_faults(&mut self, faults: FaultPlan)
        ensures
            final(self).faults == faults,
            final(self).target_worker == old(self).target_worker,
            final(self).items == old(self).items,
            final(self).flushed == old(self).flushed,
            final(self).closed == old(self).closed,
    {
        self.faults = faults;
    }

    /// Sends one item to the peer: the item is appended to the link, or
    /// the transport fails and the link is unchanged.
    pub fn push(&mut self, item: T) -> (r: IoResult)
        ensures
            old(self).faults.on_push ==> {
                &&& r == Err::<(), IoError>(old(self).fault())
                &&& *final(self) == *old(self)
            },
            !old(self).faults.on_push ==> {
                &&& r == Ok::<(), IoError>(())
                &&& final(self).items@ == old(self).items@.push(item)
                &&& final(self).flushed == old(self).flushed
                &&& final(self).closed == old(self).closed
                &&& same_link(*old(self), *final(self))
            },
    {
        if self.faults.on_push {
            Err(IoError { worker: self.target_worker })
        } else {
            self.items.push(item);
            Ok(())
        }
    }

    /// Flushes the link: any buffered items become visible to the peer,
    /// or the transport fails and the link is unchanged.
    pub fn flush(&mut self) -> (r: IoResult)
        ensures
            old(self).faults.on_flush ==> {
                &&& r == Err::<(), IoError>(old(self).fault())
                &&& *final(self) == *old(self)
            },
            !old(self).faults.on_flush ==> {
                &&& r == Ok::<(), IoError>(())
                &&& final(self).flushed
                &&& final(self).items == old(self).items
                &&& final(self).closed == old(self).closed
                &&& same_link(*old(self), *final(self))
            },
    {
        if self.faults.on_flush {
            Err(IoError { worker: self.target_worker })
        } else {
            self.flushed = true;
            Ok(())
        }
    }

    /// Closes the link, or the transport fails and the link stays open.
    pub fn close(&mut self) -> (r: IoResult)
        ensures
            old(self).faults.on_close ==> {
                &&& r == Err::<(), IoError>(old(self).fault())
                &&& *final(self) == *old(self)
            },
            !old(self).faults.on_close ==> {
                &&& r == Ok::<(), IoError>(())
                &&& final(self).closed
                &&& final(self).items == old(self).items
                &&& final(self).flushed == old(self).flushed
                &&& same_link(*old(self), *final(self))
            },
    {
        if self.faults.on_close {
            Err(IoError { worker: self.target_worker })
        } else {
            self.closed = true;
            Ok(())
        }
    }
}

} // verus!
