//! The computation units a [`Graph`](crate::graph::Graph) owns, and the
//! contract they fulfil.
//!
//! Every node kind provides:
//! - construction that never requires a live graph reference (nodes are
//!   graph-agnostic until inserted);
//! - a human-readable title, purely descriptive and never used as an
//!   identity;
//! - port resolution: given an abstract port identity and the node's own
//!   [`NodeId`], the fully-qualified reference if and only if the port
//!   belongs to this kind's own port vocabulary;
//! - the fold operation, computing one requested output by pulling only
//!   the inputs it needs (see [`crate::lasy`]).
//!
//! The kinds are gathered in the closed sum [`NodeKind`], so the graph can
//! store and dispatch them while each kind keeps its own port vocabulary.

use vstd::prelude::*;
use vstd::string::StrSliceExecFns;

use crate::data::Data;
use crate::error::Error;
use crate::graph::{initial_graph_view, lemma_graph_view_is_assoc, Graph, GraphView};
use crate::id::{in_id_named, out_id_named, InId, InoutId, NodeId, NodeInId, NodeInoutId, NodeOutId, OutId};
use crate::lasy::{eval_out_spec, res_view, LasyFold};
use crate::meta::Meta;

pub mod numeric;
pub mod textual;

use numeric::{Add, Multiply, Number};
use textual::{TextConstant, TextSplit};

verus! {

/// Compares two strings character by character.
pub(crate) fn str_eq(a: &str, b: &str) -> (r: bool)
    ensures
        r == (a@ == b@),
{
    let na = a.unicode_len();
    let nb = b.unicode_len();
    if na != nb {
        return false;
    }
    let mut i: usize = 0;
    while i < na
        invariant
            na == a@.len(),
            na == b@.len(),
            0 <= i <= na,
            forall|j: int| 0 <= j < i ==> a@[j] == b@[j],
        decreases na - i,
    {
        if a.get_char(i) != b.get_char(i) {
            return false;
        }
        i = i + 1;
    }
    proof {
        assert(a@ =~= b@);
    }
    true
}

/// The mathematical content of a node instance.  A subgraph node carries
/// the whole content of its private child graph.
pub ghost enum NodeView {
    GraphIn,
    GraphOut,
    Number(i64),
    Multiply,
    Add,
    TextConstant(Seq<char>),
    TextSplit,
    Subgraph(GraphView),
}

/// The boundary node standing for values flowing into the graph from
/// outside.  It is a transparent pass-through: a request for one of its
/// outputs resolves the like-named input.
#[derive(Debug, Clone)]
pub struct GraphIn;

/// The boundary node standing for the graph's own outputs.  It is a
/// transparent pass-through from whatever the graph's last node computed
/// to what the outside world asked for.
#[derive(Debug, Clone)]
pub struct GraphOut;

impl GraphIn {
    /// A fresh boundary node.
    pub fn new() -> Self {
        GraphIn
    }

    /// The node's title when displayed.
    pub fn title(&self) -> &'static str {
        "GraphIn"
    }
}

impl GraphOut {
    /// A fresh boundary node.
    pub fn new() -> Self {
        GraphOut
    }

    /// The node's title when displayed.
    pub fn title(&self) -> &'static str {
        "GraphOut"
    }
}

impl GraphIn {
    /// Folding a boundary output passes through: it resolves the
    /// like-named input, untouched.
    pub fn fold(
        &self,
        graph: &Graph,
        self_id: NodeId,
        out_id: OutId,
        lasy_fold: LasyFold,
        meta: Meta,
        fuel: u64,
    ) -> (r: Result<Data, Error>)
        requires
            graph.wf(),
            graph@.contains_key(self_id),
            graph@[self_id].node == NodeView::GraphIn,
            lasy_fold.node_id_spec() == self_id,
        ensures
            res_view(r) == eval_out_spec(graph@, self_id, out_id, fuel as nat),
        decreases fuel, 1int,
    {
        lasy_fold.get_in(graph, out_id.like_in(), meta, fuel)
    }
}

impl GraphOut {
    /// Folding a boundary output passes through: it resolves the
    /// like-named input, untouched.  Inputs belonging to other names are
    /// not resolved.
    pub fn fold(
        &self,
        graph: &Graph,
        self_id: NodeId,
        out_id: OutId,
        lasy_fold: LasyFold,
        meta: Meta,
        fuel: u64,
    ) -> (r: Result<Data, Error>)
        requires
            graph.wf(),
            graph@.contains_key(self_id),
            graph@[self_id].node == NodeView::GraphOut,
            lasy_fold.node_id_spec() == self_id,
        ensures
            res_view(r) == eval_out_spec(graph@, self_id, out_id, fuel as nat),
        decreases fuel, 1int,
    {
        lasy_fold.get_in(graph, out_id.like_in(), meta, fuel)
    }
}

/// A node owning a private child graph, giving hierarchical composition:
/// the outer graph holds the child behind this node, and the node's own
/// ports are the only interface between the two levels.  Folding one of
/// its outputs forwards, under a fresh evaluator scoped to the child
/// graph, to the child's own `GraphOut` boundary node.
#[derive(Debug)]
pub struct Subgraph {
    graph: Box<Graph>,
}

impl Subgraph {
    /// The child graph always satisfies the graph invariant: it is built
    /// by [`Graph::new`] and only ever reshaped by the graph's own
    /// verified operations.
    #[verifier::type_invariant]
    closed spec fn inv(self) -> bool {
        self.graph.wf()
    }

    /// The mathematical content of the child graph.
    pub closed spec fn child_view(self) -> GraphView
        decreases self,
    {
        self.graph.graph_view()
    }

    /// A fresh subgraph node around an empty, initialised child graph.
    pub fn new() -> (r: Self)
        ensures
            r.child_view() == initial_graph_view(),
    {
        let child = Graph::new();
        proof {
            lemma_graph_view_is_assoc(&child);
        }
        Subgraph { graph: Box::new(child) }
    }

    /// A subgraph node around an already-wired child graph.
    pub fn new_with(graph: Graph) -> (r: Self)
        requires
            graph.wf(),
        ensures
            r.child_view() == graph@,
    {
        proof {
            lemma_graph_view_is_assoc(&graph);
        }
        Subgraph { graph: Box::new(graph) }
    }

    /// The node's title when displayed.
    pub fn title(&self) -> &'static str {
        "Subgraph"
    }

    /// Folding one of the subgraph's outputs forwards to the child
    /// graph's `GraphOut` boundary node, under a fresh evaluator scoped
    /// to the child and one fuel step deeper.
    pub fn fold(
        &self,
        graph: &Graph,
        self_id: NodeId,
        out_id: OutId,
        _lasy_fold: LasyFold,
        meta: Meta,
        fuel: u64,
    ) -> (r: Result<Data, Error>)
        requires
            graph.wf(),
            graph@.contains_key(self_id),
            graph@[self_id].node == NodeView::Subgraph(self.child_view()),
        ensures
            res_view(r) == eval_out_spec(graph@, self_id, out_id, fuel as nat),
        decreases fuel, 1int,
    {
        if fuel == 0 {
            return Err(Error::DepthExceeded(self_id));
        }
        proof {
            use_type_invariant(self);
            lemma_graph_view_is_assoc(&self.graph);
        }
        let handle = self.graph.graph_out_handle();
        handle.node().fold(&self.graph, handle.node_id(), out_id, meta, fuel - 1)
    }
}

/// One node instance of any kind the graph knows how to hold.
#[derive(Debug)]
pub enum NodeKind {
    GraphIn(GraphIn),
    GraphOut(GraphOut),
    Number(Number),
    Multiply(Multiply),
    Add(Add),
    TextConstant(TextConstant),
    TextSplit(TextSplit),
    Subgraph(Subgraph),
}

impl NodeKind {
    /// The mathematical content of this node instance.
    pub open spec fn kind_view(self) -> NodeView
        decreases self,
    {
        match self {
            NodeKind::GraphIn(_) => NodeView::GraphIn,
            NodeKind::GraphOut(_) => NodeView::GraphOut,
            NodeKind::Number(n) => NodeView::Number(n.value),
            NodeKind::Multiply(_) => NodeView::Multiply,
            NodeKind::Add(_) => NodeView::Add,
            NodeKind::TextConstant(t) => NodeView::TextConstant(t.value@),
            NodeKind::TextSplit(_) => NodeView::TextSplit,
            NodeKind::Subgraph(s) => NodeView::Subgraph(s.child_view()),
        }
    }
}

impl View for NodeKind {
    type V = NodeView;

    open spec fn view(&self) -> NodeView {
        self.kind_view()
    }
}

/// Whether a node of the given content recognises `in_id` as one of its
/// own inputs.  The boundary nodes accept every input, one per name the
/// embedding context cares about; the other kinds have closed
/// vocabularies.
pub open spec fn accepts_in(node: NodeView, in_id: InId) -> bool {
    match node {
        NodeView::GraphIn => true,
        NodeView::GraphOut => true,
        NodeView::Number(_) => false,
        NodeView::Multiply => in_id == numeric::port_term1() || in_id == numeric::port_term2(),
        NodeView::Add => in_id == numeric::port_term1() || in_id == numeric::port_term2(),
        NodeView::TextConstant(_) => false,
        NodeView::TextSplit => in_id == textual::port_text() || in_id == textual::port_at(),
        NodeView::Subgraph(_) => true,
    }
}

/// Whether a node of the given content recognises `out_id` as one of its
/// own outputs.
pub open spec fn accepts_out(node: NodeView, out_id: OutId) -> bool {
    match node {
        NodeView::GraphIn => true,
        NodeView::GraphOut => true,
        NodeView::Number(_) => out_id == numeric::port_out(),
        NodeView::Multiply => out_id == numeric::port_out(),
        NodeView::Add => out_id == numeric::port_out(),
        NodeView::TextConstant(_) => out_id == numeric::port_out(),
        NodeView::TextSplit => out_id == textual::port_start() || out_id == textual::port_end(),
        NodeView::Subgraph(_) => true,
    }
}

/// The port a node of the given content answers to under a human-readable
/// name; `None` if the name is not part of this kind's vocabulary.  This
/// lookup is the only sanctioned way external code turns a logical port
/// name into an identity the graph accepts.
pub open spec fn id_for_spec(node: NodeView, name: Seq<char>) -> Option<InoutId> {
    match node {
        NodeView::GraphIn => Some(InoutId::Out(out_id_named(name))),
        NodeView::GraphOut => Some(InoutId::In(in_id_named(name))),
        NodeView::Number(_) => if name == "out"@ {
            Some(InoutId::Out(numeric::port_out()))
        } else {
            None
        },
        NodeView::Multiply => numeric::arith_id_for_spec(name),
        NodeView::Add => numeric::arith_id_for_spec(name),
        NodeView::TextConstant(_) => if name == "out"@ {
            Some(InoutId::Out(numeric::port_out()))
        } else {
            None
        },
        NodeView::TextSplit => textual::split_id_for_spec(name),
        NodeView::Subgraph(_) => if name == "in"@ {
            Some(InoutId::In(in_id_named(name)))
        } else if name == "out"@ {
            Some(InoutId::Out(out_id_named(name)))
        } else {
            None
        },
    }
}

impl NodeKind {
    /// The node's title when displayed.
    pub fn title(&self) -> &'static str {
        match self {
            NodeKind::GraphIn(n) => n.title(),
            NodeKind::GraphOut(n) => n.title(),
            NodeKind::Number(n) => n.title(),
            NodeKind::Multiply(n) => n.title(),
            NodeKind::Add(n) => n.title(),
            NodeKind::TextConstant(n) => n.title(),
            NodeKind::TextSplit(n) => n.title(),
            NodeKind::Subgraph(n) => n.title(),
        }
    }

    /// An identical copy of this node instance.
    pub fn duplicate(&self) -> (r: Self)
        ensures
            r@ == self@,
        decreases *self,
    {
        match self {
            NodeKind::GraphIn(_) => NodeKind::GraphIn(GraphIn),
            NodeKind::GraphOut(_) => NodeKind::GraphOut(GraphOut),
            NodeKind::Number(n) => NodeKind::Number(Number { value: n.value }),
            NodeKind::Multiply(_) => NodeKind::Multiply(Multiply),
            NodeKind::Add(_) => NodeKind::Add(Add),
            NodeKind::TextConstant(t) => NodeKind::TextConstant(
                TextConstant { value: t.value.clone() },
            ),
            NodeKind::TextSplit(_) => NodeKind::TextSplit(TextSplit),
            NodeKind::Subgraph(sub) => {
                proof {
                    use_type_invariant(sub);
                    lemma_graph_view_is_assoc(&sub.graph);
                }
                let copy = sub.graph.duplicate();
                proof {
                    lemma_graph_view_is_assoc(&copy);
                }
                NodeKind::Subgraph(Subgraph { graph: Box::new(copy) })
            },
        }
    }

    /// Resolves a human-readable port name against this node's vocabulary.
    pub fn id_for(&self, inout_name: &str) -> (r: Option<InoutId>)
        ensures
            r == id_for_spec(self@, inout_name@),
    {
        match self {
            NodeKind::GraphIn(_) => Some(InoutId::Out(OutId::new(inout_name))),
            NodeKind::GraphOut(_) => Some(InoutId::In(InId::new(inout_name))),
            NodeKind::Number(_) => {
                if str_eq(inout_name, "out") {
                    Some(InoutId::Out(OutId::new("out")))
                } else {
                    None
                }
            },
            NodeKind::Multiply(_) => numeric::arith_id_for(inout_name),
            NodeKind::Add(_) => numeric::arith_id_for(inout_name),
            NodeKind::TextConstant(_) => {
                if str_eq(inout_name, "out") {
                    Some(InoutId::Out(OutId::new("out")))
                } else {
                    None
                }
            },
            NodeKind::TextSplit(_) => textual::split_id_for(inout_name),
            NodeKind::Subgraph(_) => {
                if str_eq(inout_name, "in") {
                    Some(InoutId::In(InId::new("in")))
                } else if str_eq(inout_name, "out") {
                    Some(InoutId::Out(OutId::new("out")))
                } else {
                    None
                }
            },
        }
    }

    /// Resolves a port name to a fully-qualified reference on the node
    /// with the given identity.
    pub fn node_inout_id_for(&self, inout_name: &str, node_id: NodeId) -> (r: Option<NodeInoutId>)
        ensures
            r == (match id_for_spec(self@, inout_name@) {
                Some(inout_id) => Some(NodeInoutId::new_spec(node_id, inout_id)),
                None => None::<NodeInoutId>,
            }),
    {
        match self.id_for(inout_name) {
            Some(inout_id) => Some(NodeInoutId::new(node_id, inout_id)),
            None => None,
        }
    }

    /// Produce the value of one of this node's outputs, resolving through
    /// the evaluator whichever inputs the output needs and no others, as
    /// [`eval_out_spec`] says kind by kind.
    pub fn fold(
        &self,
        graph: &Graph,
        self_id: NodeId,
        out_id: OutId,
        meta: Meta,
        fuel: u64,
    ) -> (r: Result<Data, Error>)
        requires
            graph.wf(),
            graph@.contains_key(self_id),
            graph@[self_id].node == self@,
        ensures
            res_view(r) == eval_out_spec(graph@, self_id, out_id, fuel as nat),
        decreases fuel, 2int,
    {
        let lasy_fold = LasyFold::new(self_id);
        match self {
            NodeKind::GraphIn(n) => n.fold(graph, self_id, out_id, lasy_fold, meta, fuel),
            NodeKind::GraphOut(n) => n.fold(graph, self_id, out_id, lasy_fold, meta, fuel),
            NodeKind::Number(n) => n.fold(graph, self_id, out_id, lasy_fold, meta, fuel),
            NodeKind::Multiply(n) => n.fold(graph, self_id, out_id, lasy_fold, meta, fuel),
            NodeKind::Add(n) => n.fold(graph, self_id, out_id, lasy_fold, meta, fuel),
            NodeKind::TextConstant(n) => n.fold(graph, self_id, out_id, lasy_fold, meta, fuel),
            NodeKind::TextSplit(n) => n.fold(graph, self_id, out_id, lasy_fold, meta, fuel),
            NodeKind::Subgraph(n) => n.fold(graph, self_id, out_id, lasy_fold, meta, fuel),
        }
    }

    /// The fully-qualified reference for an abstract input identity, if
    /// and only if this node kind recognises it.
    pub fn node_in_id(&self, in_id: InId, node_id: NodeId) -> (r: Option<NodeInId>)
        ensures
            r == if accepts_in(self@, in_id) {
                Some(NodeInId { node_id, in_id })
            } else {
                None::<NodeInId>
            },
    {
        let accepted = match self {
            NodeKind::GraphIn(_) => true,
            NodeKind::GraphOut(_) => true,
            NodeKind::Number(_) => false,
            NodeKind::Multiply(_) => in_id == InId::new("term1") || in_id == InId::new("term2"),
            NodeKind::Add(_) => in_id == InId::new("term1") || in_id == InId::new("term2"),
            NodeKind::TextConstant(_) => false,
            NodeKind::TextSplit(_) => in_id == InId::new("text") || in_id == InId::new("at"),
            NodeKind::Subgraph(_) => true,
        };
        if accepted {
            Some(NodeInId::new(node_id, in_id))
        } else {
            None
        }
    }

    /// The fully-qualified reference for an abstract output identity, if
    /// and only if this node kind recognises it.
    pub fn node_out_id(&self, out_id: OutId, node_id: NodeId) -> (r: Option<NodeOutId>)
        ensures
            r == if accepts_out(self@, out_id) {
                Some(NodeOutId { node_id, out_id })
            } else {
                None::<NodeOutId>
            },
    {
        let accepted = match self {
            NodeKind::GraphIn(_) => true,
            NodeKind::GraphOut(_) => true,
            NodeKind::Number(_) => out_id == OutId::new("out"),
            NodeKind::Multiply(_) => out_id == OutId::new("out"),
            NodeKind::Add(_) => out_id == OutId::new("out"),
            NodeKind::TextConstant(_) => out_id == OutId::new("out"),
            NodeKind::TextSplit(_) => out_id == OutId::new("start") || out_id == OutId::new("end"),
            NodeKind::Subgraph(_) => true,
        };
        if accepted {
            Some(NodeOutId::new(node_id, out_id))
        } else {
            None
        }
    }
}

} // verus!
