use vstd::prelude::*;
use crate::tag::Tag;

verus! {

/// Mathematical value of a [`MicroBatch`]: the identifier's indices, the
/// per-scope sequence number, and the payload records.
pub ghost struct BatchView<D> {
    pub tag: Seq<u32>,
    pub seq_no: u64,
    pub data: Seq<D>,
}

/// A scoped batch: an ordered, finite sequence of records of payload type
/// `D`, tagged with exactly one scope identifier, plus a per-scope sequence
/// number so receivers can order batches of one scope.  Batches are
/// produced upstream and forwarded unmutated; a push consumes the batch.
#[derive(Debug)]
pub struct MicroBatch<D> {
    /// The scope identifier every record in this batch belongs to.
    pub tag: Tag,
    /// Sequence number of this batch within its scope.
    pub seq_no: u64,
    /// The payload records, in order.
    pub data: Vec<D>,
}

impl<D> View for MicroBatch<D> {
    type V = BatchView<D>;

    open spec fn view(&self) -> BatchView<D> {
        BatchView { tag: self.tag@, seq_no: self.seq_no, data: self.data@ }
    }
}

impl<D> MicroBatch<D> {
    pub fn new(tag: Tag, seq_no: u64, data: Vec<D>) -> (b: MicroBatch<D>)
        ensures
            b@ == (BatchView { tag: tag@, seq_no, data: data@ }),
    {
        MicroBatch { tag, seq_no, data }
    }

    /// Number of records in the batch.
    pub fn len(&self) -> (n: usize)
        ensures
            n == self@.data.len(),
    {
        self.data.len()
    }
}

/// Mathematical value of an [`EndSignal`]: the identifier's indices and
/// the emitting worker.
pub ghost struct SignalView {
    pub tag: Seq<u32>,
    pub source: u32,
}

/// A progress signal: a cloneable, immutable marker tied to one scope
/// identifier, meaning the emitting source will produce no further scoped
/// batches for that identifier.  The channel core treats it as an opaque
/// value that it may fan out to several destinations.
#[derive(PartialEq, Eq, Debug)]
pub struct EndSignal {
    /// The scope identifier that has finished producing data.
    pub tag: Tag,
    /// Index of the worker that emitted the signal.
    pub source: u32,
}

impl View for EndSignal {
    type V = SignalView;

    open spec fn view(&self) -> SignalView {
        SignalView { tag: self.tag@, source: self.source }
    }
}

impl EndSignal {
    pub fn new(tag: Tag, source: u32) -> (s: EndSignal)
        ensures
            s@ == (SignalView { tag: tag@, source }),
    {
        EndSignal { tag, source }
    }
}

impl Clone for EndSignal {
    fn clone(&self) -> (r: EndSignal)
        ensures
            r@ == self@,
    {
        EndSignal { tag: self.tag.clone(), source: self.source }
    }
}

} // verus!
