//! A demand-driven ("lazy fold") dataflow graph evaluator.
//!
//! A [`Graph`](graph::Graph) owns typed computation nodes connected by
//! directed, typed ports.  Values are produced on demand: asking for one
//! of the graph's outputs folds the graph backwards through only the
//! edges that are actually needed, as [`lasy::eval_out_spec`] pins down.

use vstd::prelude::*;

pub mod alist;
pub mod data;
pub mod error;
pub mod graph;
pub mod id;
pub mod lasy;
pub mod laws;
pub mod meta;
pub mod node;

use crate::data::{Data, DataView};
use crate::error::Error;
use crate::graph::{initial_graph_view, Graph, GraphView};
use crate::id::{out_id_named, NodeId, OutId};
use crate::lasy::{eval_out_spec, res_view};
use crate::meta::{Meta, Quality};

verus! {

/// How deep one evaluation may recurse before it is cut off with
/// [`Error::DepthExceeded`]; a connection cycle is reported this way
/// instead of exhausting the stack.
pub const DEFAULT_FOLD_DEPTH: u64 = 64;

/// What evaluating one named graph output yields: the `GraphOut` boundary
/// node's fold for the output of that name, with the default depth bound.
pub open spec fn fold_for_spec(g: GraphView, out_name: Seq<char>) -> Result<DataView, Error> {
    eval_out_spec(g, NodeId::GraphOut, out_id_named(out_name), DEFAULT_FOLD_DEPTH as nat)
}

/// The engine: one graph plus the base metadata every evaluation starts
/// from.
#[derive(Debug)]
pub struct Quakk {
    /// The graph of nodes and patches this engine evaluates.
    pub graph: Graph,
    /// The metadata handed to every fold call.
    pub base_meta: Meta,
}

impl Quakk {
    /// A fresh engine around an initialised graph, at tick zero and
    /// balanced quality.
    pub fn new() -> (r: Self)
        ensures
            r.graph.wf(),
            r.graph@ == initial_graph_view(),
            r.base_meta == (Meta { tick: 0u64, quality: Quality::Balanced }),
    {
        Quakk { graph: Graph::new(), base_meta: Meta { tick: 0, quality: Quality::Balanced } }
    }

    /// Evaluates the graph output of the given name: folds the `GraphOut`
    /// boundary node for that output, which resolves the like-named input
    /// and recurses upstream through exactly the edges the requested
    /// value needs.
    pub fn fold_for(&self, out_name: &str) -> (r: Result<Data, Error>)
        requires
            self.graph.wf(),
        ensures
            res_view(r) == fold_for_spec(self.graph@, out_name@),
    {
        let handle = self.graph.graph_out_handle();
        handle.node().fold(
            &self.graph,
            handle.node_id(),
            OutId::new(out_name),
            self.base_meta,
            DEFAULT_FOLD_DEPTH,
        )
    }
}

impl Default for Quakk {
    /// Same as [`Quakk::new`].
    fn default() -> (r: Self)
        ensures
            r.graph.wf(),
            r.graph@ == initial_graph_view(),
            r.base_meta == (Meta { tick: 0u64, quality: Quality::Balanced }),
    {
        Quakk::new()
    }
}

} // verus!
