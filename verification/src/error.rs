use vstd::prelude::*;

verus! {

/// The single error kind this layer produces: a transport failure on the
/// link to one peer (connection loss, serialization failure, or a closed
/// or unreachable peer).  The channel core never recovers locally; the
/// first failure observed is propagated to the caller unchanged.
#[derive(Clone, Copy, PartialEq, Eq, Structural, Debug)]
pub struct IoError {
    /// Index of the peer worker whose push failed.
    pub worker: u32,
}

/// Result type of every push, flush and close operation in this layer.
pub type IoResult = Result<(), IoError>;

} // verus!
