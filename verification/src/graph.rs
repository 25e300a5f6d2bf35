//! The graph: the root owner of all vertices, their node instances and
//! their connections (patches).
//!
//! A [`Graph`] is created with exactly the two boundary vertices
//! ([`GraphIn`], [`GraphOut`]) pre-inserted, and is never observed without
//! them.  Every contract below speaks about the graph through its
//! mathematical content: a map from [`NodeId`] to [`VertexView`], where
//! each vertex carries its node's content, its inbound edge map (one
//! source at most per input) and its outbound edge map (a set of targets
//! per output).

use vstd::prelude::*;

use crate::alist::{
    assoc_map, lemma_assoc_map_contains_key, lemma_assoc_map_filter, lemma_assoc_map_get,
    lemma_assoc_map_push, lemma_assoc_map_remove_at, lemma_assoc_map_update,
    lemma_filter_no_duplicates, lemma_filter_push, lemma_filter_to_set, lemma_push_no_duplicates,
    lemma_push_to_set, lemma_remove_at_to_set, lemma_unique_keys_push, unique_keys,
};
use crate::error::Error;
use crate::id::{InId, InoutId, NodeId, NodeInId, NodeInoutId, NodeOutId, OutId};
use crate::node::{accepts_in, accepts_out, id_for_spec, GraphIn, GraphOut, NodeKind, NodeView};

verus! {

/// The mathematical content of one vertex: the node instance it owns, its
/// inbound edge table (input to remote output, one source at most), and
/// its outbound edge table (output to the set of remote inputs it feeds).
#[verifier::ext_equal]
pub ghost struct VertexView {
    pub node: NodeView,
    pub inbound: Map<InId, NodeOutId>,
    pub outbound: Map<OutId, Set<NodeInId>>,
}

/// The mathematical content of a graph: one vertex per node identity.
pub type GraphView = Map<NodeId, VertexView>;

/// `NodeHandle` is a cheaply obtained reference to a node.
///
/// This struct is returned when inserting a node into a [`Graph`].  It is
/// a view onto the node instance only, never onto the vertex's edge
/// tables: those are reachable, and mutable, only through the graph.
#[derive(Debug)]
pub struct NodeHandle {
    id: NodeId,
    node: NodeKind,
}

impl NodeHandle {
    /// The identity this handle is bound to.
    pub closed spec fn id_spec(self) -> NodeId {
        self.id
    }

    /// The content of the node instance this handle shows.
    pub closed spec fn node_view(self) -> NodeView
        decreases self,
    {
        self.node.kind_view()
    }

    /// Given a node and its identity, return a new handle; this is done by
    /// the [`Graph`] when inserting a node, not by users.
    fn new(node_id: NodeId, node: NodeKind) -> (r: Self)
        ensures
            r.id_spec() == node_id,
            r.node_view() == node@,
    {
        NodeHandle { id: node_id, node }
    }

    /// An identical copy of this handle; handles are cheap views, so
    /// copying one never copies the graph's edge tables.
    pub fn duplicate(&self) -> (r: Self)
        ensures
            r.id_spec() == self.id_spec(),
            r.node_view() == self.node_view(),
        decreases *self,
    {
        NodeHandle { id: self.id, node: self.node.duplicate() }
    }

    /// The identity of the node this handle shows.
    pub fn node_id(&self) -> (r: NodeId)
        ensures
            r == self.id_spec(),
    {
        self.id
    }

    /// The node instance this handle shows.
    pub fn node(&self) -> (r: &NodeKind)
        ensures
            r@ == self.node_view(),
    {
        &self.node
    }

    /// Given a string identifier, return a fully-qualified port reference
    /// if the node recognises it as one of its in/out names.
    pub fn id_for(&self, inout_name: &str) -> (r: Option<NodeInoutId>)
        ensures
            r == (match id_for_spec(self.node_view(), inout_name@) {
                Some(inout_id) => Some(NodeInoutId::new_spec(self.id_spec(), inout_id)),
                None => None::<NodeInoutId>,
            }),
    {
        self.node.node_inout_id_for(inout_name, self.id)
    }

    /// The fully-qualified reference for an abstract input identity, if
    /// and only if the node recognises it.
    pub fn node_in_id(&self, in_id: InId) -> (r: Option<NodeInId>)
        ensures
            r == if accepts_in(self.node_view(), in_id) {
                Some(NodeInId { node_id: self.id_spec(), in_id })
            } else {
                None::<NodeInId>
            },
    {
        self.node.node_in_id(in_id, self.id)
    }

    /// The fully-qualified reference for an abstract output identity, if
    /// and only if the node recognises it.
    pub fn node_out_id(&self, out_id: OutId) -> (r: Option<NodeOutId>)
        ensures
            r == if accepts_out(self.node_view(), out_id) {
                Some(NodeOutId { node_id: self.id_spec(), out_id })
            } else {
                None::<NodeOutId>
            },
    {
        self.node.node_out_id(out_id, self.id)
    }
}

/// `Vertex` is one item of the graph: it holds a [`NodeHandle`] and all
/// inbound and outbound connections of that node.
#[derive(Debug)]
pub(crate) struct Vertex {
    pub(crate) node_handle: NodeHandle,
    pub(crate) inbound: Vec<(InId, NodeOutId)>,
    pub(crate) outbound: Vec<(OutId, Vec<NodeInId>)>,
}

/// The map read off an inbound edge table.
pub(crate) open spec fn inbound_map_of(s: Seq<(InId, NodeOutId)>) -> Map<InId, NodeOutId> {
    assoc_map(s, |e: (InId, NodeOutId)| e.0, |e: (InId, NodeOutId)| e.1)
}

/// The map read off an outbound edge table.
pub(crate) open spec fn outbound_map_of(s: Seq<(OutId, Vec<NodeInId>)>) -> Map<
    OutId,
    Set<NodeInId>,
> {
    assoc_map(s, |e: (OutId, Vec<NodeInId>)| e.0, |e: (OutId, Vec<NodeInId>)| e.1@.to_set())
}

impl Vertex {
    /// The identity of the node this vertex stores.
    pub(crate) open spec fn id_spec(self) -> NodeId {
        self.node_handle.id_spec()
    }

    /// The vertex's tables are readable as maps: keys are unique and every
    /// outbound set is stored without duplicates.
    pub(crate) open spec fn wf(self) -> bool {
        &&& unique_keys(self.inbound@, |e: (InId, NodeOutId)| e.0)
        &&& unique_keys(self.outbound@, |e: (OutId, Vec<NodeInId>)| e.0)
        &&& forall|i: int|
            0 <= i < self.outbound@.len() ==> (#[trigger] self.outbound@[i].1@).no_duplicates()
    }

    /// The mathematical content of this vertex.
    pub(crate) open spec fn view(self) -> VertexView
        decreases self,
    {
        VertexView {
            node: self.node_handle.node_view(),
            inbound: inbound_map_of(self.inbound@),
            outbound: outbound_map_of(self.outbound@),
        }
    }

    /// A fresh vertex around a handle, with no connections yet.
    fn new(node_handle: NodeHandle) -> (r: Self)
        ensures
            r.id_spec() == node_handle.id_spec(),
            r.wf(),
            r.view() == (VertexView {
                node: node_handle.node_view(),
                inbound: Map::<InId, NodeOutId>::empty(),
                outbound: Map::<OutId, Set<NodeInId>>::empty(),
            }),
    {
        let v = Vertex { node_handle, inbound: Vec::new(), outbound: Vec::new() };
        proof {
            assert(v.inbound@ =~= Seq::<(InId, NodeOutId)>::empty());
            assert(v.outbound@ =~= Seq::<(OutId, Vec<NodeInId>)>::empty());
        }
        v
    }

    /// The position of an input's entry in the inbound table.
    fn inbound_position(&self, in_id: InId) -> (r: Option<usize>)
        ensures
            match r {
                Some(i) => 0 <= i < self.inbound@.len() && self.inbound@[i as int].0 == in_id,
                None => forall|j: int|
                    0 <= j < self.inbound@.len() ==> (#[trigger] self.inbound@[j]).0 != in_id,
            },
    {
        let n = self.inbound.len();
        let mut i: usize = 0;
        while i < n
            invariant
                n == self.inbound@.len(),
                0 <= i <= n,
                forall|j: int| 0 <= j < i ==> (#[trigger] self.inbound@[j]).0 != in_id,
            decreases n - i,
        {
            if self.inbound[i].0 == in_id {
                return Some(i);
            }
            i = i + 1;
        }
        None
    }

    /// The position of an output's entry in the outbound table.
    fn outbound_position(&self, out_id: OutId) -> (r: Option<usize>)
        ensures
            match r {
                Some(i) => 0 <= i < self.outbound@.len() && self.outbound@[i as int].0 == out_id,
                None => forall|j: int|
                    0 <= j < self.outbound@.len() ==> (#[trigger] self.outbound@[j]).0 != out_id,
            },
    {
        let n = self.outbound.len();
        let mut i: usize = 0;
        while i < n
            invariant
                n == self.outbound@.len(),
                0 <= i <= n,
                forall|j: int| 0 <= j < i ==> (#[trigger] self.outbound@[j]).0 != out_id,
            decreases n - i,
        {
            if self.outbound[i].0 == out_id {
                return Some(i);
            }
            i = i + 1;
        }
        None
    }

    /// The recorded source feeding an input, if any.
    pub(crate) fn inbound_for(&self, in_id: InId) -> (r: Option<NodeOutId>)
        requires
            self.wf(),
        ensures
            r == (if self.view().inbound.contains_key(in_id) {
                Some(self.view().inbound[in_id])
            } else {
                None::<NodeOutId>
            }),
    {
        proof {
            lemma_assoc_map_contains_key(
                self.inbound@,
                |e: (InId, NodeOutId)| e.0,
                |e: (InId, NodeOutId)| e.1,
                in_id,
            );
        }
        match self.inbound_position(in_id) {
            Some(i) => {
                proof {
                    lemma_assoc_map_get(
                        self.inbound@,
                        |e: (InId, NodeOutId)| e.0,
                        |e: (InId, NodeOutId)| e.1,
                        i as int,
                    );
                }
                Some(self.inbound[i].1)
            },
            None => None,
        }
    }

    /// The recorded targets fed by an output: a fresh vector holding each
    /// member of the outbound set exactly once.
    pub(crate) fn outbound_for(&self, out_id: OutId) -> (r: Option<Vec<NodeInId>>)
        requires
            self.wf(),
        ensures
            match r {
                Some(items) => self.view().outbound.contains_key(out_id) && items@.to_set()
                    == self.view().outbound[out_id] && items@.no_duplicates(),
                None => !self.view().outbound.contains_key(out_id),
            },
    {
        proof {
            lemma_assoc_map_contains_key(
                self.outbound@,
                |e: (OutId, Vec<NodeInId>)| e.0,
                |e: (OutId, Vec<NodeInId>)| e.1@.to_set(),
                out_id,
            );
        }
        match self.outbound_position(out_id) {
            Some(i) => {
                proof {
                    lemma_assoc_map_get(
                        self.outbound@,
                        |e: (OutId, Vec<NodeInId>)| e.0,
                        |e: (OutId, Vec<NodeInId>)| e.1@.to_set(),
                        i as int,
                    );
                }
                let members = &self.outbound[i].1;
                let n = members.len();
                let mut items: Vec<NodeInId> = Vec::new();
                let mut j: usize = 0;
                while j < n
                    invariant
                        n == members@.len(),
                        0 <= j <= n,
                        items@ =~= members@.subrange(0, j as int),
                    decreases n - j,
                {
                    items.push(members[j]);
                    proof {
                        assert(members@.subrange(0, j + 1) =~= members@.subrange(
                            0,
                            j as int,
                        ).push(members@[j as int]));
                    }
                    j = j + 1;
                }
                proof {
                    assert(members@.subrange(0, n as int) =~= members@);
                }
                Some(items)
            },
            None => None,
        }
    }
}

/// A `Graph` holds nodes and manages all connections (patches) between
/// their ports.
#[derive(Debug)]
pub struct Graph {
    pub(crate) vertices: Vec<Vertex>,
}

/// The map read off the vertex table.
pub(crate) open spec fn vertices_map_of(s: Seq<Vertex>) -> GraphView {
    assoc_map(s, |v: Vertex| v.id_spec(), |v: Vertex| v.view())
}

/// The map read off the first `n` entries of the vertex table, built
/// entry by entry; this form recurses structurally, so a vertex may hold
/// a whole child graph.
pub(crate) open spec fn vertices_map_rec(v: Vec<Vertex>, n: int) -> GraphView
    decreases v, n,
    when 0 <= n <= v@.len()
    via vertices_map_rec_dec
{
    if n <= 0 {
        Map::empty()
    } else {
        vertices_map_rec(v, n - 1).insert(v[n - 1].id_spec(), v[n - 1].view())
    }
}

#[via_fn]
proof fn vertices_map_rec_dec(v: Vec<Vertex>, n: int) {
    if n > 0 {
        broadcast use vstd::std_specs::vec::axiom_vec_index_decreases;

        assert(decreases_to!(v => v[n - 1]));
    }
}

impl Graph {
    /// The mathematical content of this graph, built entry by entry; this
    /// form recurses structurally, so it can stand inside [`NodeView`]
    /// where a node owns a whole child graph.
    pub(crate) open spec fn graph_view(self) -> GraphView
        decreases self,
    {
        vertices_map_rec(self.vertices, self.vertices@.len() as int)
    }
}

impl View for Graph {
    type V = GraphView;

    closed spec fn view(&self) -> GraphView {
        vertices_map_of(self.vertices@)
    }
}

/// The entry-by-entry reading of the vertex table equals its reading as
/// an association sequence.
proof fn lemma_vertices_map_rec_is_assoc(v: &Vec<Vertex>, n: int)
    requires
        0 <= n <= v@.len(),
    ensures
        vertices_map_rec(*v, n) == vertices_map_of(v@.subrange(0, n)),
    decreases n,
{
    if n > 0 {
        lemma_vertices_map_rec_is_assoc(v, n - 1);
        assert(v@.subrange(0, n).drop_last() =~= v@.subrange(0, n - 1));
        assert(v@.subrange(0, n).last() == v@[n - 1]);
    }
}

/// A graph's content built entry by entry is its content read as an
/// association sequence: the two spellings of a graph's view agree.
pub(crate) proof fn lemma_graph_view_is_assoc(g: &Graph)
    ensures
        g.graph_view() == g@,
{
    lemma_vertices_map_rec_is_assoc(&g.vertices, g.vertices@.len() as int);
    assert(g.vertices@.subrange(0, g.vertices@.len() as int) =~= g.vertices@);
}

/// The content of a graph as [`Graph::new`] returns it: only the two
/// boundary vertices, with empty edge tables.
pub open spec fn initial_graph_view() -> GraphView {
    Map::empty().insert(
        NodeId::GraphIn,
        VertexView {
            node: NodeView::GraphIn,
            inbound: Map::empty(),
            outbound: Map::empty(),
        },
    ).insert(
        NodeId::GraphOut,
        VertexView {
            node: NodeView::GraphOut,
            inbound: Map::empty(),
            outbound: Map::empty(),
        },
    )
}

/// The content a vertex has right after insertion.
pub open spec fn fresh_vertex_view(node: NodeView) -> VertexView {
    VertexView { node, inbound: Map::empty(), outbound: Map::empty() }
}

/// Inserting a node stores a fresh vertex under the identity, silently
/// replacing any previous vertex stored there.
pub open spec fn insert_with_id_spec(g: GraphView, node: NodeView, node_id: NodeId) -> GraphView {
    g.insert(node_id, fresh_vertex_view(node))
}

impl Graph {
    /// Every vertex is stored once and each vertex's tables are well
    /// formed.
    pub(crate) closed spec fn tables_wf(&self) -> bool {
        &&& unique_keys(self.vertices@, |v: Vertex| v.id_spec())
        &&& forall|i: int| 0 <= i < self.vertices@.len() ==> (#[trigger] self.vertices@[i]).wf()
    }

    /// Every vertex is stored once, each vertex's tables are well formed,
    /// and the two boundary vertices are present: a graph is never
    /// observed without them.
    pub closed spec fn wf(&self) -> bool {
        &&& self.tables_wf()
        &&& self@.contains_key(NodeId::GraphIn)
        &&& self@.contains_key(NodeId::GraphOut)
    }

    /// The position of an identity's vertex in the vertex table.
    fn position_of(&self, node_id: NodeId) -> (r: Option<usize>)
        ensures
            match r {
                Some(i) => 0 <= i < self.vertices@.len() && self.vertices@[i as int].id_spec()
                    == node_id && self@.contains_key(node_id),
                None => !self@.contains_key(node_id),
            },
    {
        let n = self.vertices.len();
        let mut i: usize = 0;
        while i < n
            invariant
                n == self.vertices@.len(),
                0 <= i <= n,
                forall|j: int| 0 <= j < i ==> (#[trigger] self.vertices@[j]).id_spec() != node_id,
            decreases n - i,
        {
            if self.vertices[i].node_handle.node_id() == node_id {
                proof {
                    lemma_assoc_map_contains_key(
                        self.vertices@,
                        |v: Vertex| v.id_spec(),
                        |v: Vertex| v.view(),
                        node_id,
                    );
                    let kf = |v: Vertex| v.id_spec();
                    assert(kf(self.vertices@[i as int]) == node_id);
                }
                return Some(i);
            }
            i = i + 1;
        }
        proof {
            lemma_assoc_map_contains_key(
                self.vertices@,
                |v: Vertex| v.id_spec(),
                |v: Vertex| v.view(),
                node_id,
            );
            let kf = |v: Vertex| v.id_spec();
            assert forall|j: int| 0 <= j < self.vertices@.len() implies #[trigger] kf(
                self.vertices@[j],
            ) != node_id by {
                assert(self.vertices@[j].id_spec() != node_id);
            }
        }
        None
    }

    /// Return a new, initialised graph holding the two special nodes
    /// `GraphIn` and `GraphOut` and nothing else.
    pub fn new() -> (r: Self)
        ensures
            r.wf(),
            r@ == initial_graph_view(),
    {
        let mut graph = Graph { vertices: Vec::new() };
        proof {
            assert(graph.vertices@ =~= Seq::<Vertex>::empty());
        }
        graph.insert_vertex(NodeKind::GraphIn(GraphIn), NodeId::GraphIn);
        graph.insert_vertex(NodeKind::GraphOut(GraphOut), NodeId::GraphOut);
        proof {
            assert(graph@ =~= initial_graph_view());
        }
        graph
    }

    /// Stores a fresh vertex for the node under the identity, replacing
    /// any vertex already there.
    fn insert_vertex(&mut self, node: NodeKind, node_id: NodeId) -> (r: NodeHandle)
        requires
            old(self).tables_wf(),
        ensures
            final(self).tables_wf(),
            final(self)@ == insert_with_id_spec(old(self)@, node@, node_id),
            r.id_spec() == node_id,
            r.node_view() == node@,
    {
        let node_handle = NodeHandle::new(node_id, node);
        let vertex = Vertex::new(node_handle.duplicate());
        let ghost kf = |v: Vertex| v.id_spec();
        let ghost vf = |v: Vertex| v.view();
        match self.position_of(node_id) {
            Some(i) => {
                proof {
                    lemma_assoc_map_update(self.vertices@, kf, vf, i as int, vertex);
                }
                self.vertices.set(i, vertex);
            },
            None => {
                proof {
                    lemma_assoc_map_push(self.vertices@, kf, vf, vertex);
                    lemma_assoc_map_contains_key(self.vertices@, kf, vf, node_id);
                    lemma_unique_keys_push(self.vertices@, kf, vertex);
                }
                self.vertices.push(vertex);
            },
        }
        proof {
            assert(final(self)@ =~= insert_with_id_spec(old(self)@, node@, node_id));
        }
        node_handle
    }

    /// Does the graph contain a vertex with the given identity?
    pub fn contains(&self, key: &NodeId) -> (r: bool)
        ensures
            r == self@.contains_key(*key),
    {
        self.position_of(*key).is_some()
    }

    /// Insert a node into the graph under the given identity, then return
    /// a handle to it.  An existing vertex under the same identity is
    /// silently replaced: callers must not rely on old handles to that
    /// identity remaining bound to a live vertex.
    pub fn insert_with_id(&mut self, node: NodeKind, node_id: NodeId) -> (r: NodeHandle)
        requires
            old(self).wf(),
        ensures
            final(self).wf(),
            final(self)@ == insert_with_id_spec(old(self)@, node@, node_id),
            r.id_spec() == node_id,
            r.node_view() == node@,
    {
        self.insert_vertex(node, node_id)
    }

    /// Insert a node into the graph under a fresh random identity, then
    /// return a handle to it.  Always succeeds.
    pub fn insert(&mut self, node: NodeKind) -> (r: NodeHandle)
        requires
            old(self).wf(),
        ensures
            final(self).wf(),
            r.id_spec() is Node,
            r.node_view() == node@,
            final(self)@ == insert_with_id_spec(old(self)@, node@, r.id_spec()),
    {
        let node_id = NodeId::new_node();
        self.insert_with_id(node, node_id)
    }

    /// A handle to the node stored under the given identity, if any.
    pub fn handle_for_id(&self, node_id: NodeId) -> (r: Option<NodeHandle>)
        requires
            self.wf(),
        ensures
            match r {
                Some(h) => self@.contains_key(node_id) && h.id_spec() == node_id && h.node_view()
                    == self@[node_id].node,
                None => !self@.contains_key(node_id),
            },
    {
        match self.position_of(node_id) {
            Some(i) => {
                proof {
                    lemma_assoc_map_get(
                        self.vertices@,
                        |v: Vertex| v.id_spec(),
                        |v: Vertex| v.view(),
                        i as int,
                    );
                }
                Some(self.vertices[i].node_handle.duplicate())
            },
            None => None,
        }
    }

    /// A reference to the vertex stored under the given identity, if any.
    pub(crate) fn vertex_for_id(&self, node_id: NodeId) -> (r: Option<&Vertex>)
        requires
            self.wf(),
        ensures
            match r {
                Some(v) => self@.contains_key(node_id) && v.wf() && v.view() == self@[node_id],
                None => !self@.contains_key(node_id),
            },
    {
        match self.position_of(node_id) {
            Some(i) => {
                proof {
                    lemma_assoc_map_get(
                        self.vertices@,
                        |v: Vertex| v.id_spec(),
                        |v: Vertex| v.view(),
                        i as int,
                    );
                }
                Some(&self.vertices[i])
            },
            None => None,
        }
    }

    /// The recorded source feeding one input of one node, if both the
    /// node and the edge exist.
    pub fn inbound_for(&self, node_id: NodeId, in_id: InId) -> (r: Option<NodeOutId>)
        requires
            self.wf(),
        ensures
            r == (if self@.contains_key(node_id) && self@[node_id].inbound.contains_key(in_id) {
                Some(self@[node_id].inbound[in_id])
            } else {
                None::<NodeOutId>
            }),
    {
        match self.vertex_for_id(node_id) {
            Some(vertex) => vertex.inbound_for(in_id),
            None => None,
        }
    }

    /// The recorded targets fed by one output of one node: a fresh vector
    /// holding each member of the outbound set exactly once.
    pub fn outbound_for(&self, node_id: NodeId, out_id: OutId) -> (r: Option<Vec<NodeInId>>)
        requires
            self.wf(),
        ensures
            match r {
                Some(items) => self@.contains_key(node_id) && self@[node_id].outbound.contains_key(
                    out_id,
                ) && items@.to_set() == self@[node_id].outbound[out_id] && items@.no_duplicates(),
                None => !self@.contains_key(node_id) || !self@[node_id].outbound.contains_key(
                    out_id,
                ),
            },
    {
        match self.vertex_for_id(node_id) {
            Some(vertex) => vertex.outbound_for(out_id),
            None => None,
        }
    }

    /// A handle to the `GraphIn` boundary node; the graph's invariant
    /// guarantees its existence, so this never fails.
    pub fn graph_in_handle(&self) -> (r: NodeHandle)
        requires
            self.wf(),
        ensures
            self@.contains_key(NodeId::GraphIn),
            r.id_spec() == NodeId::GraphIn,
            r.node_view() == self@[NodeId::GraphIn].node,
    {
        match self.handle_for_id(NodeId::GraphIn) {
            Some(h) => h,
            None => vstd::pervasive::unreached(),
        }
    }

    /// A handle to the `GraphOut` boundary node; the graph's invariant
    /// guarantees its existence, so this never fails.
    pub fn graph_out_handle(&self) -> (r: NodeHandle)
        requires
            self.wf(),
        ensures
            self@.contains_key(NodeId::GraphOut),
            r.id_spec() == NodeId::GraphOut,
            r.node_view() == self@[NodeId::GraphOut].node,
    {
        match self.handle_for_id(NodeId::GraphOut) {
            Some(h) => h,
            None => vstd::pervasive::unreached(),
        }
    }

    /// Resolves a name against the `GraphIn` boundary node's ports.
    pub fn graph_in_id_for(&self, in_name: &str) -> (r: Option<NodeInoutId>)
        requires
            self.wf(),
        ensures
            r == (match id_for_spec(self@[NodeId::GraphIn].node, in_name@) {
                Some(inout_id) => Some(NodeInoutId::new_spec(NodeId::GraphIn, inout_id)),
                None => None::<NodeInoutId>,
            }),
    {
        self.graph_in_handle().id_for(in_name)
    }

    /// Resolves a name against the `GraphOut` boundary node's ports.
    pub fn graph_out_id_for(&self, out_name: &str) -> (r: Option<NodeInoutId>)
        requires
            self.wf(),
        ensures
            r == (match id_for_spec(self@[NodeId::GraphOut].node, out_name@) {
                Some(inout_id) => Some(NodeInoutId::new_spec(NodeId::GraphOut, inout_id)),
                None => None::<NodeInoutId>,
            }),
    {
        self.graph_out_handle().id_for(out_name)
    }
}

/// When two outbound tables agree key-for-key and member-for-member,
/// their map readings agree.
proof fn lemma_outbound_pointwise_same(s: Seq<(OutId, Vec<NodeInId>)>, t: Seq<(OutId, Vec<NodeInId>)>)
    requires
        unique_keys(s, |e: (OutId, Vec<NodeInId>)| e.0),
        t.len() == s.len(),
        forall|i: int| 0 <= i < s.len() ==> (#[trigger] t[i]).0 == s[i].0,
        forall|i: int| 0 <= i < s.len() ==> (#[trigger] t[i]).1@ == s[i].1@,
    ensures
        unique_keys(t, |e: (OutId, Vec<NodeInId>)| e.0),
        outbound_map_of(t) =~= outbound_map_of(s),
{
    let okf = |e: (OutId, Vec<NodeInId>)| e.0;
    let ovf = |e: (OutId, Vec<NodeInId>)| e.1@.to_set();
    assert forall|x: int, y: int| 0 <= x < y < t.len() implies #[trigger] okf(t[x])
        != #[trigger] okf(t[y]) by {
        assert(okf(s[x]) != okf(s[y]));
    }
    let ms = outbound_map_of(s);
    let mt = outbound_map_of(t);
    assert forall|k: OutId| #[trigger] mt.contains_key(k) implies ms.contains_key(k) && mt[k]
        == ms[k] by {
        lemma_assoc_map_contains_key(t, okf, ovf, k);
        let i = choose|i: int| 0 <= i < t.len() && #[trigger] okf(t[i]) == k;
        lemma_assoc_map_get(t, okf, ovf, i);
        assert(okf(s[i]) == k);
        lemma_assoc_map_get(s, okf, ovf, i);
    }
    assert forall|k: OutId| #[trigger] ms.contains_key(k) implies mt.contains_key(k) by {
        lemma_assoc_map_contains_key(s, okf, ovf, k);
        let i = choose|i: int| 0 <= i < s.len() && #[trigger] okf(s[i]) == k;
        assert(okf(t[i]) == k);
        lemma_assoc_map_contains_key(t, okf, ovf, k);
    }
}

/// When two vertex tables agree identity-for-identity and view-for-view,
/// their map readings agree.
proof fn lemma_vertices_pointwise_same(s: Seq<Vertex>, t: Seq<Vertex>)
    requires
        unique_keys(s, |v: Vertex| v.id_spec()),
        t.len() == s.len(),
        forall|i: int| 0 <= i < s.len() ==> (#[trigger] t[i]).id_spec() == s[i].id_spec(),
        forall|i: int| 0 <= i < s.len() ==> (#[trigger] t[i]).view() == s[i].view(),
    ensures
        unique_keys(t, |v: Vertex| v.id_spec()),
        vertices_map_of(t) =~= vertices_map_of(s),
{
    let kf = |v: Vertex| v.id_spec();
    let vf = |v: Vertex| v.view();
    assert forall|x: int, y: int| 0 <= x < y < t.len() implies #[trigger] kf(t[x]) != #[trigger] kf(
        t[y],
    ) by {
        assert(kf(s[x]) != kf(s[y]));
    }
    let ms = vertices_map_of(s);
    let mt = vertices_map_of(t);
    assert forall|k: NodeId| #[trigger] mt.contains_key(k) implies ms.contains_key(k) && mt[k]
        == ms[k] by {
        lemma_assoc_map_contains_key(t, kf, vf, k);
        let i = choose|i: int| 0 <= i < t.len() && #[trigger] kf(t[i]) == k;
        lemma_assoc_map_get(t, kf, vf, i);
        assert(kf(s[i]) == k);
        lemma_assoc_map_get(s, kf, vf, i);
    }
    assert forall|k: NodeId| #[trigger] ms.contains_key(k) implies mt.contains_key(k) by {
        lemma_assoc_map_contains_key(s, kf, vf, k);
        let i = choose|i: int| 0 <= i < s.len() && #[trigger] kf(s[i]) == k;
        assert(kf(t[i]) == k);
        lemma_assoc_map_contains_key(t, kf, vf, k);
    }
}

impl Vertex {
    /// An identical copy of this vertex: same node content, same edge
    /// tables.
    fn duplicate(&self) -> (r: Vertex)
        requires
            self.wf(),
        ensures
            r.wf(),
            r.id_spec() == self.id_spec(),
            r.view() == self.view(),
        decreases *self,
    {
        let n = self.inbound.len();
        let mut inbound: Vec<(InId, NodeOutId)> = Vec::new();
        let mut i: usize = 0;
        while i < n
            invariant
                n == self.inbound@.len(),
                0 <= i <= n,
                inbound@ =~= self.inbound@.subrange(0, i as int),
            decreases n - i,
        {
            inbound.push(self.inbound[i]);
            proof {
                assert(self.inbound@.subrange(0, i + 1) =~= self.inbound@.subrange(
                    0,
                    i as int,
                ).push(self.inbound@[i as int]));
            }
            i = i + 1;
        }
        proof {
            assert(self.inbound@.subrange(0, n as int) =~= self.inbound@);
        }

        let m = self.outbound.len();
        let mut outbound: Vec<(OutId, Vec<NodeInId>)> = Vec::new();
        let mut j: usize = 0;
        while j < m
            invariant
                m == self.outbound@.len(),
                0 <= j <= m,
                outbound@.len() == j,
                forall|x: int|
                    0 <= x < j ==> (#[trigger] outbound@[x]).0 == self.outbound@[x].0,
                forall|x: int|
                    0 <= x < j ==> (#[trigger] outbound@[x]).1@ == self.outbound@[x].1@,
            decreases m - j,
        {
            let entry = &self.outbound[j];
            let p = entry.1.len();
            let mut members: Vec<NodeInId> = Vec::new();
            let mut q: usize = 0;
            while q < p
                invariant
                    p == entry.1@.len(),
                    0 <= q <= p,
                    members@ =~= entry.1@.subrange(0, q as int),
                decreases p - q,
            {
                members.push(entry.1[q]);
                proof {
                    assert(entry.1@.subrange(0, q + 1) =~= entry.1@.subrange(0, q as int).push(
                        entry.1@[q as int],
                    ));
                }
                q = q + 1;
            }
            proof {
                assert(entry.1@.subrange(0, p as int) =~= entry.1@);
            }
            outbound.push((entry.0, members));
            j = j + 1;
        }

        let node_handle = self.node_handle.duplicate();
        let r = Vertex { node_handle, inbound, outbound };
        proof {
            assert(r.inbound@ =~= self.inbound@);
            lemma_outbound_pointwise_same(self.outbound@, r.outbound@);
        }
        r
    }
}

impl Graph {
    /// An identical copy of this graph: same vertices, same connections.
    pub(crate) fn duplicate(&self) -> (r: Graph)
        requires
            self.wf(),
        ensures
            r.wf(),
            r@ == self@,
        decreases *self,
    {
        let n = self.vertices.len();
        let mut vertices: Vec<Vertex> = Vec::new();
        let mut i: usize = 0;
        while i < n
            invariant
                n == self.vertices@.len(),
                self.wf(),
                0 <= i <= n,
                vertices@.len() == i,
                forall|j: int|
                    0 <= j < i ==> (#[trigger] vertices@[j]).id_spec()
                        == self.vertices@[j].id_spec(),
                forall|j: int|
                    0 <= j < i ==> (#[trigger] vertices@[j]).view() == self.vertices@[j].view(),
                forall|j: int| 0 <= j < i ==> (#[trigger] vertices@[j]).wf(),
            decreases n - i,
        {
            proof {
                broadcast use vstd::std_specs::vec::axiom_vec_index_decreases;

                assert(decreases_to!(*self => self.vertices[i as int]));
            }
            let copy = self.vertices[i].duplicate();
            vertices.push(copy);
            i = i + 1;
        }
        let r = Graph { vertices };
        proof {
            lemma_vertices_pointwise_same(self.vertices@, r.vertices@);
        }
        r
    }
}

/// The member an outbound set keeps when a node is removed: every edge
/// mentioning the removed identity is dropped.
pub open spec fn keeps_member(t: NodeInId, gone: NodeId) -> bool {
    t.node_id_spec() != gone
}

/// A vertex after every edge mentioning `gone` has been dropped from its
/// tables.
pub open spec fn scrub_vertex(v: VertexView, gone: NodeId) -> VertexView {
    VertexView {
        node: v.node,
        inbound: Map::new(
            |k: InId| v.inbound.contains_key(k) && v.inbound[k].node_id_spec() != gone,
            |k: InId| v.inbound[k],
        ),
        outbound: Map::new(
            |k: OutId| v.outbound.contains_key(k),
            |k: OutId| v.outbound[k].filter(|t: NodeInId| keeps_member(t, gone)),
        ),
    }
}

/// Removing a node: the boundary singletons are protected; any other
/// identity's vertex is deleted, and every remaining vertex's tables are
/// walked to drop all edges that mention the removed identity, so no
/// stale reference survives.
pub open spec fn remove_spec(g: GraphView, node_id: NodeId) -> Result<GraphView, Error> {
    if node_id == NodeId::GraphIn || node_id == NodeId::GraphOut {
        Err(Error::ProtectedNode(node_id))
    } else {
        Ok(
            Map::new(
                |k: NodeId| g.contains_key(k) && k != node_id,
                |k: NodeId| scrub_vertex(g[k], node_id),
            ),
        )
    }
}

impl Vertex {
    /// This vertex with every edge mentioning `gone` dropped.
    fn scrubbed(self, gone: NodeId) -> (r: Vertex)
        requires
            self.wf(),
        ensures
            r.wf(),
            r.id_spec() == self.id_spec(),
            r.view() == scrub_vertex(self.view(), gone),
    {
        let Vertex { node_handle, inbound, outbound } = self;
        let ghost ikf = |e: (InId, NodeOutId)| e.0;
        let ghost ivf = |e: (InId, NodeOutId)| e.1;
        // Inbound: keep the entries whose source is not the removed node.
        let n = inbound.len();
        let mut kept: Vec<(InId, NodeOutId)> = Vec::new();
        let mut i: usize = 0;
        while i < n
            invariant
                n == inbound@.len(),
                0 <= i <= n,
                kept@ =~= inbound@.subrange(0, i as int).filter(
                    |e: (InId, NodeOutId)| e.1.node_id_spec() != gone,
                ),
            decreases n - i,
        {
            let e = inbound[i];
            proof {
                assert(inbound@.subrange(0, i + 1) =~= inbound@.subrange(0, i as int).push(
                    inbound@[i as int],
                ));
                lemma_filter_push(
                    inbound@.subrange(0, i as int),
                    |e: (InId, NodeOutId)| e.1.node_id_spec() != gone,
                    inbound@[i as int],
                );
            }
            if e.1.node_id() != gone {
                kept.push(e);
            }
            i = i + 1;
        }
        proof {
            assert(inbound@.subrange(0, n as int) =~= inbound@);
            lemma_assoc_map_filter(
                inbound@,
                ikf,
                ivf,
                |e: (InId, NodeOutId)| e.1.node_id_spec() != gone,
                |k: InId, v: NodeOutId| v.node_id_spec() != gone,
            );
            assert(inbound_map_of(kept@) =~= Map::new(
                |k: InId| inbound_map_of(inbound@).contains_key(k) && inbound_map_of(
                    inbound@,
                )[k].node_id_spec() != gone,
                |k: InId| inbound_map_of(inbound@)[k],
            ));
        }

        // Outbound: inside each entry, keep the members whose target is
        // not the removed node.
        let ghost okf = |e: (OutId, Vec<NodeInId>)| e.0;
        let ghost ovf = |e: (OutId, Vec<NodeInId>)| e.1@.to_set();
        let ghost outbound0 = outbound@;
        let mut outbound = outbound;
        let m = outbound.len();
        let mut j: usize = 0;
        while j < m
            invariant
                m == outbound@.len(),
                outbound0.len() == m,
                0 <= j <= m,
                forall|x: int|
                    0 <= x < m ==> (#[trigger] outbound@[x]).0 == outbound0[x].0,
                forall|x: int|
                    j <= x < m ==> (#[trigger] outbound@[x]) == outbound0[x],
                forall|x: int|
                    0 <= x < j ==> (#[trigger] outbound@[x]).1@.to_set() == outbound0[x].1@.to_set().filter(
                        |t: NodeInId| keeps_member(t, gone),
                    ),
                forall|x: int|
                    0 <= x < j ==> (#[trigger] outbound@[x]).1@.no_duplicates(),
                forall|x: int|
                    0 <= x < m ==> (#[trigger] outbound0[x]).1@.no_duplicates(),
            decreases m - j,
        {
            let ghost iter0 = outbound@;
            let mut entry = outbound.remove(j);
            let ghost entry0 = entry;
            let p = entry.1.len();
            let mut keptm: Vec<NodeInId> = Vec::new();
            let mut q: usize = 0;
            while q < p
                invariant
                    p == entry.1@.len(),
                    0 <= q <= p,
                    keptm@ =~= entry.1@.subrange(0, q as int).filter(
                        |t: NodeInId| keeps_member(t, gone),
                    ),
                decreases p - q,
            {
                let t = entry.1[q];
                proof {
                    assert(entry.1@.subrange(0, q + 1) =~= entry.1@.subrange(0, q as int).push(
                        entry.1@[q as int],
                    ));
                    lemma_filter_push(
                        entry.1@.subrange(0, q as int),
                        |t: NodeInId| keeps_member(t, gone),
                        entry.1@[q as int],
                    );
                }
                if t.node_id() != gone {
                    keptm.push(t);
                }
                q = q + 1;
            }
            proof {
                assert(entry.1@.subrange(0, p as int) =~= entry.1@);
                lemma_filter_to_set(entry0.1@, |t: NodeInId| keeps_member(t, gone));
                assert(entry0.1@.no_duplicates()) by {
                    assert(outbound0[j as int].1@.no_duplicates());
                }
                lemma_filter_no_duplicates(entry0.1@, |t: NodeInId| keeps_member(t, gone));
            }
            let ghost keptm_view = keptm@;
            entry.1 = keptm;
            let ghost entry1 = entry;
            outbound.insert(j, entry);
            proof {
                assert(outbound@ =~= iter0.update(j as int, entry1));
                assert(outbound@[j as int].0 == outbound0[j as int].0);
                assert(outbound@[j as int].1@ == keptm_view);
                assert(outbound@[j as int].1@.to_set() == outbound0[j as int].1@.to_set().filter(
                    |t: NodeInId| keeps_member(t, gone),
                ));
            }
            j = j + 1;
        }
        let ghost outbound1 = outbound@;
        let r = Vertex { node_handle, inbound: kept, outbound };
        proof {
            lemma_outbound_pointwise_filter(outbound0, outbound1, gone);
        }
        r
    }
}

/// When two outbound tables agree key-for-key and the second's sets are
/// the first's filtered of the removed node's edges, their map readings
/// relate the same way.
proof fn lemma_outbound_pointwise_filter(
    s: Seq<(OutId, Vec<NodeInId>)>,
    t: Seq<(OutId, Vec<NodeInId>)>,
    gone: NodeId,
)
    requires
        unique_keys(s, |e: (OutId, Vec<NodeInId>)| e.0),
        t.len() == s.len(),
        forall|i: int| 0 <= i < s.len() ==> (#[trigger] t[i]).0 == s[i].0,
        forall|i: int|
            0 <= i < s.len() ==> (#[trigger] t[i]).1@.to_set() == s[i].1@.to_set().filter(
                |x: NodeInId| keeps_member(x, gone),
            ),
    ensures
        unique_keys(t, |e: (OutId, Vec<NodeInId>)| e.0),
        outbound_map_of(t) =~= Map::new(
            |k: OutId| outbound_map_of(s).contains_key(k),
            |k: OutId| outbound_map_of(s)[k].filter(|x: NodeInId| keeps_member(x, gone)),
        ),
{
    let okf = |e: (OutId, Vec<NodeInId>)| e.0;
    let ovf = |e: (OutId, Vec<NodeInId>)| e.1@.to_set();
    assert forall|x: int, y: int| 0 <= x < y < t.len() implies #[trigger] okf(t[x])
        != #[trigger] okf(t[y]) by {
        assert(okf(s[x]) != okf(s[y]));
    }
    let ms = outbound_map_of(s);
    let mt = outbound_map_of(t);
    let target = Map::new(
        |k: OutId| ms.contains_key(k),
        |k: OutId| ms[k].filter(|x: NodeInId| keeps_member(x, gone)),
    );
    assert forall|k: OutId| #[trigger] mt.contains_key(k) implies target.contains_key(k) by {
        lemma_assoc_map_contains_key(t, okf, ovf, k);
        let i = choose|i: int| 0 <= i < t.len() && #[trigger] okf(t[i]) == k;
        assert(okf(s[i]) == k);
        lemma_assoc_map_contains_key(s, okf, ovf, k);
    }
    assert forall|k: OutId| #[trigger] target.contains_key(k) implies mt.contains_key(k) by {
        lemma_assoc_map_contains_key(s, okf, ovf, k);
        let i = choose|i: int| 0 <= i < s.len() && #[trigger] okf(s[i]) == k;
        assert(okf(t[i]) == k);
        lemma_assoc_map_contains_key(t, okf, ovf, k);
    }
    assert forall|k: OutId| #[trigger] mt.contains_key(k) implies mt[k] == target[k] by {
        lemma_assoc_map_contains_key(t, okf, ovf, k);
        let i = choose|i: int| 0 <= i < t.len() && #[trigger] okf(t[i]) == k;
        lemma_assoc_map_get(t, okf, ovf, i);
        assert(okf(s[i]) == k);
        lemma_assoc_map_get(s, okf, ovf, i);
        assert(mt[k] == ovf(t[i]));
        assert(ms[k] == ovf(s[i]));
        assert(ovf(t[i]) == ovf(s[i]).filter(|x: NodeInId| keeps_member(x, gone)));
    }
}

/// When two vertex tables agree identity-for-identity and the second's
/// vertices are the first's scrubbed of a removed node, their map
/// readings relate the same way.
proof fn lemma_vertices_pointwise_scrub(s: Seq<Vertex>, t: Seq<Vertex>, gone: NodeId)
    requires
        unique_keys(s, |v: Vertex| v.id_spec()),
        t.len() == s.len(),
        forall|i: int| 0 <= i < s.len() ==> (#[trigger] t[i]).id_spec() == s[i].id_spec(),
        forall|i: int|
            0 <= i < s.len() ==> (#[trigger] t[i]).view() == scrub_vertex(s[i].view(), gone),
    ensures
        unique_keys(t, |v: Vertex| v.id_spec()),
        vertices_map_of(t) =~= Map::new(
            |k: NodeId| vertices_map_of(s).contains_key(k),
            |k: NodeId| scrub_vertex(vertices_map_of(s)[k], gone),
        ),
{
    let kf = |v: Vertex| v.id_spec();
    let vf = |v: Vertex| v.view();
    assert forall|x: int, y: int| 0 <= x < y < t.len() implies #[trigger] kf(t[x]) != #[trigger] kf(
        t[y],
    ) by {
        assert(kf(s[x]) != kf(s[y]));
    }
    let ms = vertices_map_of(s);
    let mt = vertices_map_of(t);
    let target = Map::new(
        |k: NodeId| ms.contains_key(k),
        |k: NodeId| scrub_vertex(ms[k], gone),
    );
    assert forall|k: NodeId| #[trigger] mt.contains_key(k) implies target.contains_key(k) by {
        lemma_assoc_map_contains_key(t, kf, vf, k);
        let i = choose|i: int| 0 <= i < t.len() && #[trigger] kf(t[i]) == k;
        assert(kf(s[i]) == k);
        lemma_assoc_map_contains_key(s, kf, vf, k);
    }
    assert forall|k: NodeId| #[trigger] target.contains_key(k) implies mt.contains_key(k) by {
        lemma_assoc_map_contains_key(s, kf, vf, k);
        let i = choose|i: int| 0 <= i < s.len() && #[trigger] kf(s[i]) == k;
        assert(kf(t[i]) == k);
        lemma_assoc_map_contains_key(t, kf, vf, k);
    }
    assert forall|k: NodeId| #[trigger] mt.contains_key(k) implies mt[k] == target[k] by {
        lemma_assoc_map_contains_key(t, kf, vf, k);
        let i = choose|i: int| 0 <= i < t.len() && #[trigger] kf(t[i]) == k;
        lemma_assoc_map_get(t, kf, vf, i);
        assert(kf(s[i]) == k);
        lemma_assoc_map_get(s, kf, vf, i);
    }
}

/// Connecting an output to an input: fails if either node has no vertex;
/// otherwise the target is added to the source's outbound set for that
/// output, and the source overwrites any prior entry in the target's
/// inbound map for that input (an input has at most one inbound edge).
/// Both sides are updated together or not at all.
pub open spec fn patch_spec(g: GraphView, out_id: NodeOutId, in_id: NodeInId) -> Result<
    GraphView,
    Error,
> {
    if !g.contains_key(out_id.node_id_spec()) {
        Err(Error::UnknownSourceNode(out_id.node_id_spec()))
    } else if !g.contains_key(in_id.node_id_spec()) {
        Err(Error::UnknownTargetNode(in_id.node_id_spec()))
    } else {
        let sv = g[out_id.node_id_spec()];
        let prior = if sv.outbound.contains_key(out_id.out_id_spec()) {
            sv.outbound[out_id.out_id_spec()]
        } else {
            Set::empty()
        };
        let sv2 = VertexView {
            outbound: sv.outbound.insert(out_id.out_id_spec(), prior.insert(in_id)),
            ..sv
        };
        let g1 = g.insert(out_id.node_id_spec(), sv2);
        let tv = g1[in_id.node_id_spec()];
        let tv2 = VertexView { inbound: tv.inbound.insert(in_id.in_id_spec(), out_id), ..tv };
        Ok(g1.insert(in_id.node_id_spec(), tv2))
    }
}

/// Disconnecting one edge: fails if either node has no vertex; otherwise
/// the target leaves the source's outbound set for that output, and the
/// target's inbound entry is dropped if it records exactly this source.
/// Removing an edge that does not exist changes nothing and is not an
/// error.
pub open spec fn unpatch_spec(g: GraphView, out_id: NodeOutId, in_id: NodeInId) -> Result<
    GraphView,
    Error,
> {
    if !g.contains_key(out_id.node_id_spec()) {
        Err(Error::UnknownSourceNode(out_id.node_id_spec()))
    } else if !g.contains_key(in_id.node_id_spec()) {
        Err(Error::UnknownTargetNode(in_id.node_id_spec()))
    } else {
        let sv = g[out_id.node_id_spec()];
        let sv2 = if sv.outbound.contains_key(out_id.out_id_spec()) {
            VertexView {
                outbound: sv.outbound.insert(
                    out_id.out_id_spec(),
                    sv.outbound[out_id.out_id_spec()].remove(in_id),
                ),
                ..sv
            }
        } else {
            sv
        };
        let g1 = g.insert(out_id.node_id_spec(), sv2);
        let tv = g1[in_id.node_id_spec()];
        let tv2 = if tv.inbound.contains_key(in_id.in_id_spec()) && tv.inbound[in_id.in_id_spec()]
            == out_id {
            VertexView { inbound: tv.inbound.remove(in_id.in_id_spec()), ..tv }
        } else {
            tv
        };
        Ok(g1.insert(in_id.node_id_spec(), tv2))
    }
}

/// The position of a member in an outbound set's backing vector.
fn member_position(items: &Vec<NodeInId>, x: NodeInId) -> (r: Option<usize>)
    ensures
        match r {
            Some(i) => 0 <= i < items@.len() && items@[i as int] == x,
            None => !items@.contains(x),
        },
{
    let n = items.len();
    let mut i: usize = 0;
    while i < n
        invariant
            n == items@.len(),
            0 <= i <= n,
            forall|j: int| 0 <= j < i ==> items@[j] != x,
        decreases n - i,
    {
        if items[i] == x {
            return Some(i);
        }
        i = i + 1;
    }
    proof {
        if items@.contains(x) {
            let j = choose|j: int| 0 <= j < items@.len() && items@[j] == x;
        }
    }
    None
}

impl Graph {
    /// Records an edge from `out_id` to `in_id`, as [`patch_spec`] says:
    /// the target joins the source's outbound set, and becomes the sole
    /// source recorded for that input.
    pub fn patch(&mut self, out_id: NodeOutId, in_id: NodeInId) -> (r: Result<(), Error>)
        requires
            old(self).wf(),
        ensures
            final(self).wf(),
            match patch_spec(old(self)@, out_id, in_id) {
                Ok(g2) => r == Ok::<(), Error>(()) && final(self)@ == g2,
                Err(e) => r == Err::<(), Error>(e) && final(self)@ == old(self)@,
            },
    {
        let ghost kf = |v: Vertex| v.id_spec();
        let ghost vf = |v: Vertex| v.view();
        let si = match self.position_of(out_id.node_id()) {
            Some(i) => i,
            None => {
                return Err(Error::UnknownSourceNode(out_id.node_id()));
            },
        };
        let ti = match self.position_of(in_id.node_id()) {
            Some(i) => i,
            None => {
                return Err(Error::UnknownTargetNode(in_id.node_id()));
            },
        };
        let ghost g0 = self@;
        let ghost verts0 = self.vertices@;
        proof {
            lemma_assoc_map_get(verts0, kf, vf, si as int);
        }

        // Source side: add the target to the outbound set of `out_id`.
        let mut sv = self.vertices.remove(si);
        let ghost sv0 = sv;
        let ghost okf = |e: (OutId, Vec<NodeInId>)| e.0;
        let ghost ovf = |e: (OutId, Vec<NodeInId>)| e.1@.to_set();
        match sv.outbound_position(out_id.out_id()) {
            Some(k) => {
                let mut entry = sv.outbound.remove(k);
                let ghost entry0 = entry;
                if member_position(&entry.1, in_id).is_none() {
                    entry.1.push(in_id);
                    proof {
                        lemma_push_to_set(entry0.1@, in_id);
                        lemma_push_no_duplicates(entry0.1@, in_id);
                    }
                } else {
                    proof {
                        assert(entry.1@.to_set().insert(in_id) =~= entry.1@.to_set());
                    }
                }
                sv.outbound.insert(k, entry);
                proof {
                    assert(sv.outbound@ =~= sv0.outbound@.update(
                        k as int,
                        (entry0.0, entry.1),
                    ));
                    lemma_assoc_map_get(sv0.outbound@, okf, ovf, k as int);
                    lemma_assoc_map_update(sv0.outbound@, okf, ovf, k as int, (entry0.0, entry.1));
                }
            },
            None => {
                let mut members: Vec<NodeInId> = Vec::new();
                members.push(in_id);
                proof {
                    assert(members@ =~= Seq::<NodeInId>::empty().push(in_id));
                    assert(members@.to_set() =~= Set::<NodeInId>::empty().insert(in_id)) by {
                        lemma_push_to_set(Seq::<NodeInId>::empty(), in_id);
                        assert(Seq::<NodeInId>::empty().to_set() =~= Set::<NodeInId>::empty());
                    }
                    lemma_assoc_map_contains_key(sv0.outbound@, okf, ovf, out_id.out_id_spec());
                    assert forall|j: int| 0 <= j < sv0.outbound@.len() implies #[trigger] okf(
                        sv0.outbound@[j],
                    ) != out_id.out_id_spec() by {
                        assert(sv0.outbound@[j].0 != out_id.out_id_spec());
                    }
                    lemma_unique_keys_push(
                        sv0.outbound@,
                        okf,
                        (out_id.out_id_spec(), members),
                    );
                    lemma_assoc_map_push(sv0.outbound@, okf, ovf, (out_id.out_id_spec(), members));
                }
                sv.outbound.push((out_id.out_id(), members));
            },
        }
        proof {
            assert(sv.view().outbound =~= g0[out_id.node_id_spec()].outbound.insert(
                out_id.out_id_spec(),
                (if g0[out_id.node_id_spec()].outbound.contains_key(out_id.out_id_spec()) {
                    g0[out_id.node_id_spec()].outbound[out_id.out_id_spec()]
                } else {
                    Set::<NodeInId>::empty()
                }).insert(in_id),
            ));
        }
        self.vertices.insert(si, sv);
        let ghost verts1 = self.vertices@;
        let ghost g1 = vertices_map_of(verts1);
        proof {
            assert(verts1 =~= verts0.update(si as int, sv));
            lemma_assoc_map_update(verts0, kf, vf, si as int, sv);
            assert(g1 =~= g0.insert(out_id.node_id_spec(), sv.view()));
        }

        // Target side: record the source as the input's sole inbound edge.
        proof {
            lemma_assoc_map_get(verts1, kf, vf, ti as int);
        }
        let mut tv = self.vertices.remove(ti);
        let ghost tv0 = tv;
        let ghost ikf = |e: (InId, NodeOutId)| e.0;
        let ghost ivf = |e: (InId, NodeOutId)| e.1;
        match tv.inbound_position(in_id.in_id()) {
            Some(k) => {
                proof {
                    lemma_assoc_map_update(
                        tv0.inbound@,
                        ikf,
                        ivf,
                        k as int,
                        (in_id.in_id_spec(), out_id),
                    );
                }
                tv.inbound.set(k, (in_id.in_id(), out_id));
            },
            None => {
                proof {
                    lemma_assoc_map_contains_key(tv0.inbound@, ikf, ivf, in_id.in_id_spec());
                    assert forall|j: int| 0 <= j < tv0.inbound@.len() implies #[trigger] ikf(
                        tv0.inbound@[j],
                    ) != in_id.in_id_spec() by {
                        assert(tv0.inbound@[j].0 != in_id.in_id_spec());
                    }
                    lemma_unique_keys_push(tv0.inbound@, ikf, (in_id.in_id_spec(), out_id));
                    lemma_assoc_map_push(tv0.inbound@, ikf, ivf, (in_id.in_id_spec(), out_id));
                }
                tv.inbound.push((in_id.in_id(), out_id));
            },
        }
        proof {
            assert(tv.view().inbound =~= g1[in_id.node_id_spec()].inbound.insert(
                in_id.in_id_spec(),
                out_id,
            ));
        }
        self.vertices.insert(ti, tv);
        proof {
            assert(self.vertices@ =~= verts1.update(ti as int, tv));
            lemma_assoc_map_update(verts1, kf, vf, ti as int, tv);
            assert(final(self)@ =~= g1.insert(in_id.node_id_spec(), tv.view()));
            let spec_result = patch_spec(g0, out_id, in_id);
            assert(spec_result matches Ok(g2) && final(self)@ =~= g2);
        }
        Ok(())
    }

    /// Removes the edge from `out_id` to `in_id` from both sides, as
    /// [`unpatch_spec`] says; removing an edge that does not exist is a
    /// no-op, not an error.
    pub fn unpatch(&mut self, out_id: NodeOutId, in_id: NodeInId) -> (r: Result<(), Error>)
        requires
            old(self).wf(),
        ensures
            final(self).wf(),
            match unpatch_spec(old(self)@, out_id, in_id) {
                Ok(g2) => r == Ok::<(), Error>(()) && final(self)@ == g2,
                Err(e) => r == Err::<(), Error>(e) && final(self)@ == old(self)@,
            },
    {
        let ghost kf = |v: Vertex| v.id_spec();
        let ghost vf = |v: Vertex| v.view();
        let si = match self.position_of(out_id.node_id()) {
            Some(i) => i,
            None => {
                return Err(Error::UnknownSourceNode(out_id.node_id()));
            },
        };
        let ti = match self.position_of(in_id.node_id()) {
            Some(i) => i,
            None => {
                return Err(Error::UnknownTargetNode(in_id.node_id()));
            },
        };
        let ghost g0 = self@;
        let ghost verts0 = self.vertices@;
        proof {
            lemma_assoc_map_get(verts0, kf, vf, si as int);
        }

        // Source side: drop the target from the outbound set of `out_id`.
        let mut sv = self.vertices.remove(si);
        let ghost sv0 = sv;
        let ghost okf = |e: (OutId, Vec<NodeInId>)| e.0;
        let ghost ovf = |e: (OutId, Vec<NodeInId>)| e.1@.to_set();
        match sv.outbound_position(out_id.out_id()) {
            Some(k) => {
                let mut entry = sv.outbound.remove(k);
                let ghost entry0 = entry;
                match member_position(&entry.1, in_id) {
                    Some(m) => {
                        entry.1.remove(m);
                        proof {
                            lemma_remove_at_to_set(entry0.1@, m as int);
                        }
                    },
                    None => {
                        proof {
                            assert(entry.1@.to_set().remove(in_id) =~= entry.1@.to_set());
                        }
                    },
                }
                sv.outbound.insert(k, entry);
                proof {
                    assert(sv.outbound@ =~= sv0.outbound@.update(
                        k as int,
                        (entry0.0, entry.1),
                    ));
                    lemma_assoc_map_get(sv0.outbound@, okf, ovf, k as int);
                    lemma_assoc_map_update(sv0.outbound@, okf, ovf, k as int, (entry0.0, entry.1));
                    assert(sv.view().outbound =~= g0[out_id.node_id_spec()].outbound.insert(
                        out_id.out_id_spec(),
                        g0[out_id.node_id_spec()].outbound[out_id.out_id_spec()].remove(in_id),
                    ));
                }
            },
            None => {
                proof {
                    lemma_assoc_map_contains_key(sv0.outbound@, okf, ovf, out_id.out_id_spec());
                    assert forall|j: int| 0 <= j < sv0.outbound@.len() implies #[trigger] okf(
                        sv0.outbound@[j],
                    ) != out_id.out_id_spec() by {
                        assert(sv0.outbound@[j].0 != out_id.out_id_spec());
                    }
                    assert(!g0[out_id.node_id_spec()].outbound.contains_key(
                        out_id.out_id_spec(),
                    ));
                }
            },
        }
        self.vertices.insert(si, sv);
        let ghost verts1 = self.vertices@;
        let ghost g1 = vertices_map_of(verts1);
        proof {
            assert(verts1 =~= verts0.update(si as int, sv));
            lemma_assoc_map_update(verts0, kf, vf, si as int, sv);
            assert(g1 =~= g0.insert(out_id.node_id_spec(), sv.view()));
        }

        // Target side: drop the inbound entry if it records this source.
        proof {
            lemma_assoc_map_get(verts1, kf, vf, ti as int);
        }
        let mut tv = self.vertices.remove(ti);
        let ghost tv0 = tv;
        let ghost ikf = |e: (InId, NodeOutId)| e.0;
        let ghost ivf = |e: (InId, NodeOutId)| e.1;
        match tv.inbound_position(in_id.in_id()) {
            Some(k) => {
                proof {
                    lemma_assoc_map_get(tv0.inbound@, ikf, ivf, k as int);
                }
                let same_source = {
                    let recorded = tv.inbound[k].1;
                    recorded == out_id
                };
                if same_source {
                    proof {
                        lemma_assoc_map_remove_at(tv0.inbound@, ikf, ivf, k as int);
                    }
                    tv.inbound.remove(k);
                }
            },
            None => {
                proof {
                    lemma_assoc_map_contains_key(tv0.inbound@, ikf, ivf, in_id.in_id_spec());
                    assert forall|j: int| 0 <= j < tv0.inbound@.len() implies #[trigger] ikf(
                        tv0.inbound@[j],
                    ) != in_id.in_id_spec() by {
                        assert(tv0.inbound@[j].0 != in_id.in_id_spec());
                    }
                }
            },
        }
        self.vertices.insert(ti, tv);
        proof {
            assert(self.vertices@ =~= verts1.update(ti as int, tv));
            lemma_assoc_map_update(verts1, kf, vf, ti as int, tv);
            assert(final(self)@ =~= g1.insert(in_id.node_id_spec(), tv.view()));
            let spec_result = unpatch_spec(g0, out_id, in_id);
            assert(spec_result matches Ok(g2) && final(self)@ =~= g2);
        }
        Ok(())
    }

    /// Deletes the vertex stored under the identity, as [`remove_spec`]
    /// says: the boundary singletons are protected, and removal walks all
    /// remaining vertices to drop every edge that mentions the removed
    /// identity, on the inbound and the outbound side alike.
    pub fn remove(&mut self, node_id: NodeId) -> (r: Result<(), Error>)
        requires
            old(self).wf(),
        ensures
            final(self).wf(),
            match remove_spec(old(self)@, node_id) {
                Ok(g2) => r == Ok::<(), Error>(()) && final(self)@ == g2,
                Err(e) => r == Err::<(), Error>(e) && final(self)@ == old(self)@,
            },
    {
        match node_id {
            NodeId::GraphIn | NodeId::GraphOut => {
                return Err(Error::ProtectedNode(node_id));
            },
            NodeId::Node(_) => {},
        }
        let ghost kf = |v: Vertex| v.id_spec();
        let ghost vf = |v: Vertex| v.view();
        let ghost g0 = self@;
        let ghost verts0 = self.vertices@;

        // Drop the vertex itself, if it is there.
        match self.position_of(node_id) {
            Some(i) => {
                proof {
                    lemma_assoc_map_remove_at(verts0, kf, vf, i as int);
                }
                self.vertices.remove(i);
            },
            None => {},
        }
        let ghost verts1 = self.vertices@;
        proof {
            assert(vertices_map_of(verts1) =~= g0.remove(node_id));
        }

        // Walk the remaining vertices and drop every edge that mentions
        // the removed identity.
        let n = self.vertices.len();
        let mut j: usize = 0;
        while j < n
            invariant
                n == self.vertices@.len(),
                verts1.len() == n,
                0 <= j <= n,
                forall|x: int|
                    0 <= x < n ==> (#[trigger] self.vertices@[x]).id_spec()
                        == verts1[x].id_spec(),
                forall|x: int| j <= x < n ==> (#[trigger] self.vertices@[x]) == verts1[x],
                forall|x: int|
                    0 <= x < j ==> (#[trigger] self.vertices@[x]).view() == scrub_vertex(
                        verts1[x].view(),
                        node_id,
                    ) && self.vertices@[x].wf(),
                forall|x: int| 0 <= x < n ==> (#[trigger] verts1[x]).wf(),
            decreases n - j,
        {
            let ghost iter0 = self.vertices@;
            let vtx = self.vertices.remove(j);
            let vtx = vtx.scrubbed(node_id);
            let ghost vtx1 = vtx;
            self.vertices.insert(j, vtx);
            proof {
                assert(self.vertices@ =~= iter0.update(j as int, vtx1));
            }
            j = j + 1;
        }
        proof {
            assert(unique_keys(verts1, kf));
            lemma_vertices_pointwise_scrub(verts1, self.vertices@, node_id);
            assert(final(self)@ =~= Map::new(
                |k: NodeId| g0.remove(node_id).contains_key(k),
                |k: NodeId| scrub_vertex(g0.remove(node_id)[k], node_id),
            ));
            let target = Map::new(
                |k: NodeId| g0.contains_key(k) && k != node_id,
                |k: NodeId| scrub_vertex(g0[k], node_id),
            );
            assert(final(self)@ =~= target);
            // The boundary vertices survive: they are never the removed
            // identity.
            assert(final(self)@.contains_key(NodeId::GraphIn));
            assert(final(self)@.contains_key(NodeId::GraphOut));
        }
        Ok(())
    }

    /// Provided for symmetry with the richer disconnect operations that a
    /// front end may grow; currently there is no per-port bulk disconnect,
    /// so this changes nothing and succeeds.
    pub fn unpatch_inout(&mut self, _inout_id: NodeInoutId) -> (r: Result<(), Error>)
        requires
            old(self).wf(),
        ensures
            final(self).wf(),
            final(self)@ == old(self)@,
            r == Ok::<(), Error>(()),
    {
        Ok(())
    }
}

impl Default for Graph {
    /// Same as [`Graph::new`].
    fn default() -> (r: Self)
        ensures
            r.wf(),
            r@ == initial_graph_view(),
    {
        Graph::new()
    }
}

} // verus!
