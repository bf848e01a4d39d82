use vstd::prelude::*;

verus! {

/// Hierarchical scope identifier: an ordered sequence of indices, one per
/// nesting level, each naming the iteration/branch chosen at that level.
/// The empty sequence is the *root* identifier, the outermost,
/// non-iterative scope.  A `Tag` is immutable once constructed and is
/// cheaply cloned; its view is the sequence of its indices.
#[derive(PartialEq, Eq, Debug)]
pub struct Tag {
    indices: Vec<u32>,
}

impl View for Tag {
    type V = Seq<u32>;

    closed spec fn view(&self) -> Seq<u32> {
        self.indices@
    }
}

impl Tag {
    /// The root identifier: the empty sequence.
    pub fn root() -> (t: Tag)
        ensures
            t@ == Seq::<u32>::empty(),
    {
        Tag { indices: Vec::new() }
    }

    /// An identifier made of the given indices, outermost level first.
    pub fn new(indices: Vec<u32>) -> (t: Tag)
        ensures
            t@ == indices@,
    {
        Tag { indices }
    }

    /// True exactly when this is the root identifier.
    pub fn is_root(&self) -> (r: bool)
        ensures
            r == (self@.len() == 0),
    {
        self.indices.len() == 0
    }

    /// Nesting level: the number of indices.
    pub fn level(&self) -> (r: usize)
        ensures
            r == self@.len(),
    {
        self.indices.len()
    }

    /// The index chosen at nesting level `i` (outermost level is 0).
    pub fn index_at(&self, i: usize) -> (r: u32)
        requires
            i < self@.len(),
        ensures
            r == self@[i as int],
    {
        self.indices[i]
    }
}

impl Clone for Tag {
    fn clone(&self) -> (r: Tag)
        ensures
            r@ == self@,
    {
        let indices = self.indices.clone();
        proof {
            assert(indices@ =~= self.indices@);
        }
        Tag { indices }
    }
}

} // verus!
