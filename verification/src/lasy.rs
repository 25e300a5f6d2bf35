//! `LasyFold` folds the graph into a single value.
//!
//! It is the evaluator of this crate; the term "fold" ties back to the
//! functional-programming operation.  The fold is "lasy" because it does
//! not blindly fold every node in the graph: a node asks only for the
//! inputs it needs to produce the output that was requested, so no node is
//! evaluated unless some downstream fold call actually demanded one of its
//! outputs, directly or transitively.
//!
//! Each `LasyFold` instance is specific to one node and is cheap to
//! create.  A node's fold computes its inputs through
//! [`LasyFold::get_in`], which looks up the one inbound edge it needs,
//! builds a new `LasyFold` bound to the upstream node, and invokes that
//! node's fold with the same [`Meta`].  There is no result cache:
//! requesting the same output twice recomputes it twice, a deliberate
//! simplicity trade-off.
//!
//! The recursion carries a fuel bound: a cyclic connection is reported as
//! a typed [`Error::DepthExceeded`] instead of exhausting the stack.  What
//! every fold returns is pinned down by the recursive specification
//! [`eval_out_spec`] below, which is the mathematical meaning of a graph.

use vstd::prelude::*;

use crate::data::{Data, DataKind, DataView};
use crate::error::Error;
use crate::graph::{Graph, GraphView};
use crate::id::{InId, NodeId, OutId};
use crate::meta::Meta;
use crate::node::{textual, NodeView};
use crate::node::numeric;

verus! {

/// A fold's outcome at the level of mathematical content.
pub open spec fn res_view(r: Result<Data, Error>) -> Result<DataView, Error> {
    match r {
        Ok(d) => Ok(d@),
        Err(e) => Err(e),
    }
}

/// Where a text of the given length is split for a requested position:
/// clamped to the text.
pub open spec fn clamp_split(at: i64, len: nat) -> int {
    if at < 0 {
        0
    } else if at > len {
        len as int
    } else {
        at as int
    }
}

/// What resolving one input of one node yields: the input must have an
/// inbound edge, and the value is whatever the upstream node's fold
/// produces for the edge's output, one fuel step deeper.
pub open spec fn eval_in_spec(g: GraphView, node_id: NodeId, in_id: InId, fuel: nat) -> Result<
    DataView,
    Error,
>
    decreases fuel, 0nat,
{
    if !g.contains_key(node_id) {
        Err(Error::UnknownNode(node_id))
    } else if !g[node_id].inbound.contains_key(in_id) {
        Err(Error::NoInboundEdge(node_id, in_id))
    } else {
        let src = g[node_id].inbound[in_id];
        if fuel == 0 {
            Err(Error::DepthExceeded(src.node_id_spec()))
        } else {
            eval_out_spec(g, src.node_id_spec(), src.out_id_spec(), (fuel - 1) as nat)
        }
    }
}

/// What folding one output of one node yields, by the node's kind:
/// - the boundary nodes pass through: they resolve the like-named input;
/// - a constant yields its value and never fails;
/// - the binary operators resolve `term1` then `term2`, demand them
///   numeric, and combine them wrapping on overflow;
/// - the splitter resolves `text` and `at` and yields the characters
///   before or from the clamped split position.
///
/// Inputs that are not needed for the requested output are not resolved.
pub open spec fn eval_out_spec(g: GraphView, node_id: NodeId, out_id: OutId, fuel: nat) -> Result<
    DataView,
    Error,
>
    decreases fuel, 1nat,
{
    if !g.contains_key(node_id) {
        Err(Error::UnknownNode(node_id))
    } else {
        match g[node_id].node {
            NodeView::GraphIn => eval_in_spec(g, node_id, out_id.like_in_spec(), fuel),
            NodeView::GraphOut => eval_in_spec(g, node_id, out_id.like_in_spec(), fuel),
            NodeView::Number(v) => Ok(DataView::Number(v)),
            NodeView::Multiply => match eval_in_spec(g, node_id, numeric::port_term1(), fuel) {
                Err(e) => Err(e),
                Ok(DataView::Text(_)) => Err(
                    Error::TypeMismatch { expected: DataKind::Number, found: DataKind::Text },
                ),
                Ok(DataView::Number(a)) => match eval_in_spec(
                    g,
                    node_id,
                    numeric::port_term2(),
                    fuel,
                ) {
                    Err(e) => Err(e),
                    Ok(DataView::Text(_)) => Err(
                        Error::TypeMismatch { expected: DataKind::Number, found: DataKind::Text },
                    ),
                    Ok(DataView::Number(b)) => Ok(
                        DataView::Number(vstd::wrapping::i64_specs::wrapping_mul(a, b)),
                    ),
                },
            },
            NodeView::Add => match eval_in_spec(g, node_id, numeric::port_term1(), fuel) {
                Err(e) => Err(e),
                Ok(DataView::Text(_)) => Err(
                    Error::TypeMismatch { expected: DataKind::Number, found: DataKind::Text },
                ),
                Ok(DataView::Number(a)) => match eval_in_spec(
                    g,
                    node_id,
                    numeric::port_term2(),
                    fuel,
                ) {
                    Err(e) => Err(e),
                    Ok(DataView::Text(_)) => Err(
                        Error::TypeMismatch { expected: DataKind::Number, found: DataKind::Text },
                    ),
                    Ok(DataView::Number(b)) => Ok(
                        DataView::Number(vstd::wrapping::i64_specs::wrapping_add(a, b)),
                    ),
                },
            },
            NodeView::TextConstant(s) => Ok(DataView::Text(s)),
            NodeView::Subgraph(sub) => if fuel == 0 {
                Err(Error::DepthExceeded(node_id))
            } else {
                eval_out_spec(sub, NodeId::GraphOut, out_id, (fuel - 1) as nat)
            },
            NodeView::TextSplit => if out_id == textual::port_start() || out_id
                == textual::port_end() {
                match eval_in_spec(g, node_id, textual::port_text(), fuel) {
                    Err(e) => Err(e),
                    Ok(DataView::Number(_)) => Err(
                        Error::TypeMismatch { expected: DataKind::Text, found: DataKind::Number },
                    ),
                    Ok(DataView::Text(txt)) => match eval_in_spec(
                        g,
                        node_id,
                        textual::port_at(),
                        fuel,
                    ) {
                        Err(e) => Err(e),
                        Ok(DataView::Text(_)) => Err(
                            Error::TypeMismatch {
                                expected: DataKind::Number,
                                found: DataKind::Text,
                            },
                        ),
                        Ok(DataView::Number(at)) => {
                            let k = clamp_split(at, txt.len());
                            if out_id == textual::port_start() {
                                Ok(DataView::Text(txt.subrange(0, k)))
                            } else {
                                Ok(DataView::Text(txt.subrange(k, txt.len() as int)))
                            }
                        },
                    },
                }
            } else {
                Err(Error::UnknownPort(node_id, out_id))
            },
        }
    }
}

/// The evaluator cursor: bound to one node of the graph, it resolves that
/// node's inputs on demand.
#[derive(Debug, Clone)]
pub struct LasyFold {
    node_id: NodeId,
}

impl LasyFold {
    /// The node this instance is bound to.
    pub closed spec fn node_id_spec(self) -> NodeId {
        self.node_id
    }

    /// Create a new `LasyFold` bound to one node.
    pub fn new(node_id: NodeId) -> (r: Self)
        ensures
            r.node_id_spec() == node_id,
    {
        LasyFold { node_id }
    }

    /// Resolves one input of the bound node: looks up the inbound edge
    /// recorded for `in_id`, then invokes the upstream node's fold for the
    /// edge's output with the same metadata, spending one unit of fuel.
    /// Fails with `NoInboundEdge` if no edge is recorded, `UnknownNode` if
    /// a node vanished, and `DepthExceeded` when the fuel is spent, as
    /// [`eval_in_spec`] says.
    pub fn get_in(&self, graph: &Graph, in_id: InId, meta: Meta, fuel: u64) -> (r: Result<
        Data,
        Error,
    >)
        requires
            graph.wf(),
        ensures
            res_view(r) == eval_in_spec(graph@, self.node_id_spec(), in_id, fuel as nat),
        decreases fuel, 0int,
    {
        if !graph.contains(&self.node_id) {
            return Err(Error::UnknownNode(self.node_id));
        }
        let src = match graph.inbound_for(self.node_id, in_id) {
            Some(src) => src,
            None => {
                return Err(Error::NoInboundEdge(self.node_id, in_id));
            },
        };
        if fuel == 0 {
            return Err(Error::DepthExceeded(src.node_id()));
        }
        let handle = match graph.handle_for_id(src.node_id()) {
            Some(handle) => handle,
            None => {
                return Err(Error::UnknownNode(src.node_id()));
            },
        };
        handle.node().fold(graph, src.node_id(), src.out_id(), meta, fuel - 1)
    }
}

} // verus!
