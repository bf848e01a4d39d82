use vstd::prelude::*;

verus! {

/// An operator port: the output (or input) slot of one operator in the
/// dataflow graph, identified by the operator's index and the port's
/// position on that operator.
#[derive(Clone, Copy, PartialEq, Eq, Structural, Debug)]
pub struct Port {
    /// Index of the operator in the dataflow graph.
    pub index: usize,
    /// Position of the port on that operator.
    pub port: usize,
}

impl Port {
    pub fn new(index: usize, port: usize) -> (p: Port)
        ensures
            p == (Port { index, port }),
    {
        Port { index, port }
    }
}

/// Static topology descriptor of one logical channel, produced once by the
/// graph-build phase and never mutated thereafter.  `scope_level` is the
/// nesting-depth threshold: a progress signal whose identifier sits at a
/// strictly smaller level marks a coarse, cross-cutting scope boundary and
/// must be globally visible to every peer.
#[derive(Clone, Copy, PartialEq, Eq, Structural, Debug)]
pub struct ChannelInfo {
    /// Identifier of the channel inside its dataflow graph.
    pub ch_id: u32,
    /// Scope-level threshold for global visibility of progress signals.
    pub scope_level: u32,
    /// The local port this channel leaves from.
    pub source_port: Port,
    /// The remote port this channel arrives at.
    pub target_port: Port,
}

impl ChannelInfo {
    pub fn new(ch_id: u32, scope_level: u32, source_port: Port, target_port: Port) -> (info:
        ChannelInfo)
        ensures
            info == (ChannelInfo { ch_id, scope_level, source_port, target_port }),
    {
        ChannelInfo { ch_id, scope_level, source_port, target_port }
    }
}

} // verus!
