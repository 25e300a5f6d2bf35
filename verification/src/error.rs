//! The typed failures the graph and its evaluator surface.
//!
//! Every failure carries enough structure (node identity, port identity,
//! failure kind) to locate the break in the graph.  All variants except
//! [`Error::GraphCorrupted`] are ordinary recoverable results, propagated
//! up through the recursive fold chain unchanged.

use vstd::prelude::*;

use crate::data::DataKind;
use crate::id::{InId, NodeId, OutId};

verus! {

/// A typed failure of a graph operation or of a fold.
#[derive(Debug, Clone, Copy, PartialEq, Eq, Structural)]
pub enum Error {
    /// A connection named a source [`NodeId`] with no vertex.
    UnknownSourceNode(NodeId),
    /// A connection named a target [`NodeId`] with no vertex.
    UnknownTargetNode(NodeId),
    /// An operation referenced a [`NodeId`] with no vertex.
    UnknownNode(NodeId),
    /// An attempt to remove one of the two boundary singletons.
    ProtectedNode(NodeId),
    /// A port identity did not resolve against the node's declared port
    /// set.
    UnknownPort(NodeId, OutId),
    /// A fold requested an input with no connection.
    NoInboundEdge(NodeId, InId),
    /// A value's payload did not match the type its consumer required.
    TypeMismatch { expected: DataKind, found: DataKind },
    /// A fold recursed deeper than the allowed bound; a cyclic connection
    /// is reported this way instead of exhausting the stack.
    DepthExceeded(NodeId),
    /// The lock protecting a shared graph was left inconsistent by an
    /// aborted mutation; fatal for the evaluation that observes it.
    GraphCorrupted,
}

} // verus!
