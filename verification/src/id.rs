//! Identifier types for nodes and their ins and outs:
//! - [`NodeId`]: identifies a unique node in a graph, with two reserved
//!   values for the graph's own boundary nodes.
//! - [`InoutId`]: identifies an input or output of an anonymous node; the
//!   node it belongs to must be determined from context.
//!     - [`InId`]: an input of an anonymous node.
//!     - [`OutId`]: an output of an anonymous node.
//! - [`NodeInoutId`]: identifies an input or output of a specific node.
//!     - [`NodeInId`]: an input of a node.
//!     - [`NodeOutId`]: an output of a node.
//!
//! All of these eventually rely on [`HashId`], a simple 64-bit hash, either
//! randomly drawn or built from a string.

use std::hash::Hasher;
use vstd::prelude::*;
use vstd::string::StrSliceExecFns;

verus! {

/// Offset basis of the 64-bit FNV-1a hash.
pub const FNV_OFFSET_BASIS: u64 = 0xcbf29ce484222325;

/// Prime of the 64-bit FNV-1a hash.
pub const FNV_PRIME: u64 = 0x100000001b3;

/// The 64-bit FNV-1a hash of a sequence of characters, each character
/// entering the hash as its scalar value.
pub open spec fn fnv1a(s: Seq<char>) -> u64
    decreases s.len(),
{
    if s.len() == 0 {
        FNV_OFFSET_BASIS
    } else {
        vstd::wrapping::u64_specs::wrapping_mul(
            fnv1a(s.drop_last()) ^ (s.last() as u64),
            FNV_PRIME,
        )
    }
}

/// Computes [`fnv1a`] over the characters of a string.
fn fnv1a_str(s: &str) -> (r: u64)
    ensures
        r == fnv1a(s@),
{
    let n = s.unicode_len();
    let mut h: u64 = FNV_OFFSET_BASIS;
    let mut i: usize = 0;
    while i < n
        invariant
            n == s@.len(),
            0 <= i <= n,
            h == fnv1a(s@.subrange(0, i as int)),
        decreases n - i,
    {
        let c = s.get_char(i);
        h = (h ^ (c as u64)).wrapping_mul(FNV_PRIME);
        proof {
            let pre = s@.subrange(0, i + 1);
            assert(pre.drop_last() =~= s@.subrange(0, i as int));
            assert(pre.last() == s@[i as int]);
        }
        i = i + 1;
    }
    proof {
        assert(s@.subrange(0, n as int) =~= s@);
    }
    h
}

/// A simple hash, used by [`NodeId`], [`InId`] and [`OutId`].
///
/// Internally `HashId` is a u64 hash, either randomly drawn or built from
/// a string.
#[derive(Debug, Clone, Copy, PartialEq, Eq, Hash, Structural)]
pub struct HashId {
    pub id: u64,
}

impl HashId {
    /// Get a new random id; two draws coincide only with vanishing
    /// probability, so nothing is promised about the value.
    pub fn new() -> Self {
        HashId { id: random_u64() }
    }

    /// Get a new id deterministically built from a string input: equal
    /// inputs give equal ids.
    pub fn new_from(input: &str) -> (r: Self)
        ensures
            r == (HashId { id: fnv1a(input@) }),
    {
        HashId { id: fnv1a_str(input) }
    }

    /// The id rendered in lower-case hexadecimal.
    pub fn display(&self) -> (r: String)
        ensures
            r@ == hex_of(self.id),
    {
        hex_str(self.id)
    }

    /// The first twelve characters of [`HashId::display`].
    pub fn display_short(&self) -> (r: String)
        ensures
            r@ == if hex_of(self.id).len() <= 12 {
                hex_of(self.id)
            } else {
                hex_of(self.id).subrange(0, 12)
            },
    {
        let s = hex_str(self.id);
        let n = s.as_str().unicode_len();
        if n <= 12 {
            s
        } else {
            s.as_str().substring_char(0, 12).to_owned()
        }
    }
}

/// Draws a fresh random 64-bit value.
fn random_u64() -> u64 {
    let state = random_state_new();
    let hasher = random_state_build_hasher(&state);
    hasher.finish()
}

/// The lower-case hexadecimal digit for a value below 16.
pub open spec fn hex_digit(d: u64) -> char {
    if d == 0 {
        '0'
    } else if d == 1 {
        '1'
    } else if d == 2 {
        '2'
    } else if d == 3 {
        '3'
    } else if d == 4 {
        '4'
    } else if d == 5 {
        '5'
    } else if d == 6 {
        '6'
    } else if d == 7 {
        '7'
    } else if d == 8 {
        '8'
    } else if d == 9 {
        '9'
    } else if d == 10 {
        'a'
    } else if d == 11 {
        'b'
    } else if d == 12 {
        'c'
    } else if d == 13 {
        'd'
    } else if d == 14 {
        'e'
    } else {
        'f'
    }
}

/// The lower-case hexadecimal rendering of a value, without leading zeros
/// (a single `'0'` for zero).
pub open spec fn hex_of(v: u64) -> Seq<char>
    decreases v,
{
    if v < 16 {
        seq![hex_digit(v)]
    } else {
        hex_of(v / 16).push(hex_digit(v % 16))
    }
}

/// One lower-case hexadecimal digit as a fresh string.
fn hex_digit_str(d: u64) -> (r: String)
    requires
        d < 16,
    ensures
        r@ =~= seq![hex_digit(d)],
{
    proof {
        reveal_strlit("0");
        reveal_strlit("1");
        reveal_strlit("2");
        reveal_strlit("3");
        reveal_strlit("4");
        reveal_strlit("5");
        reveal_strlit("6");
        reveal_strlit("7");
        reveal_strlit("8");
        reveal_strlit("9");
        reveal_strlit("a");
        reveal_strlit("b");
        reveal_strlit("c");
        reveal_strlit("d");
        reveal_strlit("e");
        reveal_strlit("f");
    }
    if d == 0 {
        String::from_str("0")
    } else if d == 1 {
        String::from_str("1")
    } else if d == 2 {
        String::from_str("2")
    } else if d == 3 {
        String::from_str("3")
    } else if d == 4 {
        String::from_str("4")
    } else if d == 5 {
        String::from_str("5")
    } else if d == 6 {
        String::from_str("6")
    } else if d == 7 {
        String::from_str("7")
    } else if d == 8 {
        String::from_str("8")
    } else if d == 9 {
        String::from_str("9")
    } else if d == 10 {
        String::from_str("a")
    } else if d == 11 {
        String::from_str("b")
    } else if d == 12 {
        String::from_str("c")
    } else if d == 13 {
        String::from_str("d")
    } else if d == 14 {
        String::from_str("e")
    } else {
        String::from_str("f")
    }
}

/// Renders a value in lower-case hexadecimal, as `HashId::display` shows it.
fn hex_str(v: u64) -> (r: String)
    ensures
        r@ =~= hex_of(v),
    decreases v,
{
    if v < 16 {
        hex_digit_str(v)
    } else {
        let mut s = hex_str(v / 16);
        let digit = hex_digit_str(v % 16);
        s.append(digit.as_str());
        s
    }
}

/// Relies on std::hash::RandomState::new: each call draws a fresh random
/// seed; nothing is promised about the value.
#[verifier::external_body]
fn random_state_new() -> std::collections::hash_map::RandomState {
    std::collections::hash_map::RandomState::new()
}

/// Relies on std::hash::BuildHasher::build_hasher for RandomState: the
/// returned hasher starts from the state's random seed; nothing is promised
/// about what it will hash to.
#[verifier::external_body]
fn random_state_build_hasher(
    state: &std::collections::hash_map::RandomState,
) -> std::collections::hash_map::DefaultHasher {
    std::hash::BuildHasher::build_hasher(state)
}

/// An id used to identify a node in a graph.
///
/// `GraphIn` and `GraphOut` are special nodes that handle the ins and outs
/// of the graph itself; they exist exactly once each in every graph and are
/// given these reserved representations.  Other nodes are identified with a
/// [`HashId`], usually random.
#[derive(Debug, Clone, Copy, PartialEq, Eq, Hash, Structural)]
pub enum NodeId {
    GraphIn,
    GraphOut,
    Node(HashId),
}

impl NodeId {
    /// Return a new random `NodeId`.
    pub fn new_node() -> (r: Self)
        ensures
            r is Node,
    {
        NodeId::Node(HashId::new())
    }

    /// Return a new `NodeId` deterministically built from an input string.
    pub fn new_node_from(input: &str) -> (r: Self)
        ensures
            r == NodeId::Node(HashId { id: fnv1a(input@) }),
    {
        NodeId::Node(HashId::new_from(input))
    }

    /// Return a [`NodeInoutId`] tying the given [`InoutId`] to this node.
    pub fn into_node_inout_id(self, inout_id: InoutId) -> (r: NodeInoutId)
        ensures
            r == NodeInoutId::new_spec(self, inout_id),
    {
        NodeInoutId::new(self, inout_id)
    }
}

/// Whether an [`InoutId`] is an input or an output.
#[derive(Debug, Clone, Copy, PartialEq, Eq, Hash, Structural)]
pub enum InoutKind {
    In,
    Out,
}

/// Identifies an input of an anonymous node, as the hash of the input's
/// name.
#[derive(Debug, Clone, Copy, PartialEq, Eq, Hash, Structural)]
pub struct InId {
    pub id: HashId,
}

/// The [`InId`] built from an input name.
pub open spec fn in_id_named(name: Seq<char>) -> InId {
    InId { id: HashId { id: fnv1a(name) } }
}

impl InId {
    /// A new `InId` built from the input's name.
    pub fn new(in_name: &str) -> (r: Self)
        ensures
            r == in_id_named(in_name@),
    {
        InId { id: HashId::new_from(in_name) }
    }

    /// Wraps this id as an [`InoutId`].
    pub fn into_inout_id(self) -> (r: InoutId)
        ensures
            r == InoutId::In(self),
    {
        InoutId::In(self)
    }
}

/// Identifies an output of an anonymous node, as the hash of the output's
/// name.
#[derive(Debug, Clone, Copy, PartialEq, Eq, Hash, Structural)]
pub struct OutId {
    pub id: HashId,
}

/// The [`OutId`] built from an output name.
pub open spec fn out_id_named(name: Seq<char>) -> OutId {
    OutId { id: HashId { id: fnv1a(name) } }
}

impl OutId {
    /// A new `OutId` built from the output's name.
    pub fn new(out_name: &str) -> (r: Self)
        ensures
            r == out_id_named(out_name@),
    {
        OutId { id: HashId::new_from(out_name) }
    }

    /// The input id carrying the same name hash; pass-through nodes answer
    /// a request on an output by resolving the like-named input.
    pub open spec fn like_in_spec(self) -> InId {
        InId { id: self.id }
    }

    /// Executable counterpart of [`OutId::like_in_spec`].
    pub fn like_in(self) -> (r: InId)
        ensures
            r == self.like_in_spec(),
    {
        InId { id: self.id }
    }
}

/// Identifies an input or output ("inout") of an anonymous node.
///
/// The id is unique for one node's port vocabulary but is *not* tied to a
/// node; that is the purpose of [`NodeInoutId`].  It distinguishes:
/// - an `In`, where data flows inward into the node: an input can have at
///   most one edge connected to it;
/// - an `Out`, where data flows outward as the result of a computation: an
///   output can fan out to any number of edges.
#[derive(Debug, Clone, Copy, PartialEq, Eq, Hash, Structural)]
pub enum InoutId {
    In(InId),
    Out(OutId),
}

impl InoutId {
    /// Create a new `InoutId::In` from the given input name.
    pub fn new_in_from(in_name: &str) -> (r: Self)
        ensures
            r == InoutId::In(in_id_named(in_name@)),
    {
        InoutId::In(InId::new(in_name))
    }

    /// Create a new `InoutId::Out` from the given output name.
    pub fn new_out_from(out_name: &str) -> (r: Self)
        ensures
            r == InoutId::Out(out_id_named(out_name@)),
    {
        InoutId::Out(OutId::new(out_name))
    }

    /// Return a [`NodeInoutId`] tying this id to the given [`NodeId`].
    pub fn into_node_inout_id(self, node_id: NodeId) -> (r: NodeInoutId)
        ensures
            r == NodeInoutId::new_spec(node_id, self),
    {
        NodeInoutId::new(node_id, self)
    }

    /// Whether this id is an input or an output.
    pub fn kind(&self) -> (r: InoutKind)
        ensures
            r == (match self {
                InoutId::In(_) => InoutKind::In,
                InoutId::Out(_) => InoutKind::Out,
            }),
    {
        match self {
            InoutId::In(_) => InoutKind::In,
            InoutId::Out(_) => InoutKind::Out,
        }
    }

    /// The inner [`InId`], if this id is an input.
    pub fn as_in(self) -> (r: Option<InId>)
        ensures
            r == (match self {
                InoutId::In(in_id) => Some(in_id),
                InoutId::Out(_) => None::<InId>,
            }),
    {
        match self {
            InoutId::In(in_id) => Some(in_id),
            InoutId::Out(_) => None,
        }
    }

    /// The inner [`OutId`], if this id is an output.
    pub fn as_out(self) -> (r: Option<OutId>)
        ensures
            r == (match self {
                InoutId::In(_) => None::<OutId>,
                InoutId::Out(out_id) => Some(out_id),
            }),
    {
        match self {
            InoutId::In(_) => None,
            InoutId::Out(out_id) => Some(out_id),
        }
    }
}

impl From<InId> for InoutId {
    fn from(value: InId) -> (r: Self) {
        InoutId::In(value)
    }
}

impl vstd::std_specs::convert::FromSpecImpl<InId> for InoutId {
    open spec fn obeys_from_spec() -> bool {
        true
    }

    open spec fn from_spec(value: InId) -> Self {
        InoutId::In(value)
    }
}

impl From<OutId> for InoutId {
    fn from(value: OutId) -> (r: Self) {
        InoutId::Out(value)
    }
}

impl vstd::std_specs::convert::FromSpecImpl<OutId> for InoutId {
    open spec fn obeys_from_spec() -> bool {
        true
    }

    open spec fn from_spec(value: OutId) -> Self {
        InoutId::Out(value)
    }
}

/// Ties an [`InId`] to the node it belongs to.
#[derive(Debug, Clone, Copy, PartialEq, Eq, Hash, Structural)]
pub struct NodeInId {
    pub node_id: NodeId,
    pub in_id: InId,
}

impl NodeInId {
    /// Pairs a node with one of its inputs.
    pub fn new(node_id: NodeId, in_id: InId) -> (r: Self)
        ensures
            r == (NodeInId { node_id, in_id }),
    {
        NodeInId { node_id, in_id }
    }

    /// The node this input belongs to.
    pub fn node_id(&self) -> (r: NodeId)
        ensures
            r == self.node_id,
    {
        self.node_id
    }

    /// The input id within that node.
    pub fn in_id(&self) -> (r: InId)
        ensures
            r == self.in_id,
    {
        self.in_id
    }

    /// Spec view of [`NodeInId::node_id`].
    pub open spec fn node_id_spec(self) -> NodeId {
        self.node_id
    }

    /// Spec view of [`NodeInId::in_id`].
    pub open spec fn in_id_spec(self) -> InId {
        self.in_id
    }
}

/// Ties an [`OutId`] to the node it belongs to.
#[derive(Debug, Clone, Copy, PartialEq, Eq, Hash, Structural)]
pub struct NodeOutId {
    pub node_id: NodeId,
    pub out_id: OutId,
}

impl NodeOutId {
    /// Pairs a node with one of its outputs.
    pub fn new(node_id: NodeId, out_id: OutId) -> (r: Self)
        ensures
            r == (NodeOutId { node_id, out_id }),
    {
        NodeOutId { node_id, out_id }
    }

    /// The node this output belongs to.
    pub fn node_id(&self) -> (r: NodeId)
        ensures
            r == self.node_id,
    {
        self.node_id
    }

    /// The output id within that node.
    pub fn out_id(&self) -> (r: OutId)
        ensures
            r == self.out_id,
    {
        self.out_id
    }

    /// Spec view of [`NodeOutId::node_id`].
    pub open spec fn node_id_spec(self) -> NodeId {
        self.node_id
    }

    /// Spec view of [`NodeOutId::out_id`].
    pub open spec fn out_id_spec(self) -> OutId {
        self.out_id
    }
}

/// Identifies an input or output of a specific node in the graph.
#[derive(Debug, Clone, Copy, PartialEq, Eq, Hash, Structural)]
pub enum NodeInoutId {
    In(NodeInId),
    Out(NodeOutId),
}

impl NodeInoutId {
    /// The `NodeInoutId` pairing a node with the given [`InoutId`].
    pub open spec fn new_spec(node_id: NodeId, inout_id: InoutId) -> Self {
        match inout_id {
            InoutId::In(in_id) => NodeInoutId::In(NodeInId { node_id, in_id }),
            InoutId::Out(out_id) => NodeInoutId::Out(NodeOutId { node_id, out_id }),
        }
    }

    /// Pairs a node with the given [`InoutId`].
    pub fn new(node_id: NodeId, inout_id: InoutId) -> (r: Self)
        ensures
            r == Self::new_spec(node_id, inout_id),
    {
        match inout_id {
            InoutId::In(in_id) => Self::new_in(node_id, in_id),
            InoutId::Out(out_id) => Self::new_out(node_id, out_id),
        }
    }

    /// Pairs a node with the given input.
    pub fn new_in(node_id: NodeId, in_id: InId) -> (r: Self)
        ensures
            r == NodeInoutId::In(NodeInId { node_id, in_id }),
    {
        NodeInoutId::In(NodeInId::new(node_id, in_id))
    }

    /// Pairs a node with the given output.
    pub fn new_out(node_id: NodeId, out_id: OutId) -> (r: Self)
        ensures
            r == NodeInoutId::Out(NodeOutId { node_id, out_id }),
    {
        NodeInoutId::Out(NodeOutId::new(node_id, out_id))
    }

    /// Pairs a node with an input built from the given name.
    pub fn new_in_from(node_id: NodeId, inout_name: &str) -> (r: Self)
        ensures
            r == NodeInoutId::In(NodeInId { node_id, in_id: in_id_named(inout_name@) }),
    {
        Self::new(node_id, InoutId::new_in_from(inout_name))
    }

    /// Pairs a node with an output built from the given name.
    pub fn new_out_from(node_id: NodeId, inout_name: &str) -> (r: Self)
        ensures
            r == NodeInoutId::Out(NodeOutId { node_id, out_id: out_id_named(inout_name@) }),
    {
        Self::new(node_id, InoutId::new_out_from(inout_name))
    }

    /// The node this id belongs to.
    pub fn node_id(&self) -> (r: NodeId)
        ensures
            r == (match self {
                NodeInoutId::In(node_in_id) => node_in_id.node_id_spec(),
                NodeInoutId::Out(node_out_id) => node_out_id.node_id_spec(),
            }),
    {
        match self {
            NodeInoutId::In(node_in_id) => node_in_id.node_id(),
            NodeInoutId::Out(node_out_id) => node_out_id.node_id(),
        }
    }

    /// The anonymous [`InoutId`] of this id.
    pub fn inout_id(&self) -> (r: InoutId)
        ensures
            r == (match self {
                NodeInoutId::In(node_in_id) => InoutId::In(node_in_id.in_id_spec()),
                NodeInoutId::Out(node_out_id) => InoutId::Out(node_out_id.out_id_spec()),
            }),
    {
        match self {
            NodeInoutId::In(node_in_id) => InoutId::In(node_in_id.in_id()),
            NodeInoutId::Out(node_out_id) => InoutId::Out(node_out_id.out_id()),
        }
    }

    /// The inner [`NodeInId`], if this id is an input.
    pub fn as_in(self) -> (r: Option<NodeInId>)
        ensures
            r == (match self {
                NodeInoutId::In(node_in_id) => Some(node_in_id),
                NodeInoutId::Out(_) => None::<NodeInId>,
            }),
    {
        match self {
            NodeInoutId::In(node_in_id) => Some(node_in_id),
            NodeInoutId::Out(_) => None,
        }
    }

    /// The inner [`NodeOutId`], if this id is an output.
    pub fn as_out(self) -> (r: Option<NodeOutId>)
        ensures
            r == (match self {
                NodeInoutId::In(_) => None::<NodeOutId>,
                NodeInoutId::Out(node_out_id) => Some(node_out_id),
            }),
    {
        match self {
            NodeInoutId::In(_) => None,
            NodeInoutId::Out(node_out_id) => Some(node_out_id),
        }
    }
}

impl From<NodeInId> for NodeInoutId {
    fn from(value: NodeInId) -> (r: Self) {
        NodeInoutId::In(value)
    }
}

impl vstd::std_specs::convert::FromSpecImpl<NodeInId> for NodeInoutId {
    open spec fn obeys_from_spec() -> bool {
        true
    }

    open spec fn from_spec(value: NodeInId) -> Self {
        NodeInoutId::In(value)
    }
}

impl From<NodeOutId> for NodeInoutId {
    fn from(value: NodeOutId) -> (r: Self) {
        NodeInoutId::Out(value)
    }
}

impl vstd::std_specs::convert::FromSpecImpl<NodeOutId> for NodeInoutId {
    open spec fn obeys_from_spec() -> bool {
        true
    }

    open spec fn from_spec(value: NodeOutId) -> Self {
        NodeInoutId::Out(value)
    }
}

} // verus!
