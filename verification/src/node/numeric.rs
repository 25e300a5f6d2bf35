//! Numeric node kinds: a constant and the two binary operators.

use vstd::prelude::*;

use crate::data::Data;
use crate::error::Error;
use crate::graph::Graph;
use crate::id::{in_id_named, out_id_named, InId, InoutId, NodeId, OutId};
use crate::lasy::{eval_out_spec, res_view, LasyFold};
use crate::meta::Meta;
use crate::node::str_eq;
use crate::node::NodeView;

verus! {

/// The first operand input of a binary operator.
pub open spec fn port_term1() -> InId {
    in_id_named("term1"@)
}

/// The second operand input of a binary operator.
pub open spec fn port_term2() -> InId {
    in_id_named("term2"@)
}

/// The single output of the numeric kinds.
pub open spec fn port_out() -> OutId {
    out_id_named("out"@)
}

/// The name lookup shared by the binary operators: two operand inputs and
/// one output.
pub open spec fn arith_id_for_spec(name: Seq<char>) -> Option<InoutId> {
    if name == "term1"@ {
        Some(InoutId::In(port_term1()))
    } else if name == "term2"@ {
        Some(InoutId::In(port_term2()))
    } else if name == "out"@ {
        Some(InoutId::Out(port_out()))
    } else {
        None
    }
}

/// Executable counterpart of [`arith_id_for_spec`].
pub(crate) fn arith_id_for(name: &str) -> (r: Option<InoutId>)
    ensures
        r == arith_id_for_spec(name@),
{
    if str_eq(name, "term1") {
        Some(InoutId::In(InId::new("term1")))
    } else if str_eq(name, "term2") {
        Some(InoutId::In(InId::new("term2")))
    } else if str_eq(name, "out") {
        Some(InoutId::Out(OutId::new("out")))
    } else {
        None
    }
}

/// A constant node holding one number; it has no inputs and never fails,
/// whatever the state of the graph around it.
#[derive(Debug, Clone)]
pub struct Number {
    pub value: i64,
}

/// The outputs of a [`Number`] node.
#[derive(Debug, Clone, Copy, PartialEq, Eq, Hash, Structural)]
pub enum NumberOutId {
    Out,
}

impl NumberOutId {
    /// The anonymous output id this port stands for.
    pub fn out_id(&self) -> (r: OutId)
        ensures
            r == port_out(),
    {
        OutId::new("out")
    }
}

impl Number {
    /// A fresh constant with the default value.
    pub fn new() -> (r: Self)
        ensures
            r.value == 4i64,
    {
        Number { value: 4 }
    }

    /// A fresh constant holding the given value.
    pub fn new_with(value: i64) -> (r: Self)
        ensures
            r.value == value,
    {
        Number { value }
    }

    /// The node's title when displayed.
    pub fn title(&self) -> &'static str {
        "Number"
    }

    /// A constant's fold yields its value, whatever output was asked and
    /// whatever the state of the graph: it resolves no inputs and never
    /// fails.
    pub fn fold(
        &self,
        graph: &Graph,
        self_id: NodeId,
        out_id: OutId,
        _lasy_fold: LasyFold,
        _meta: Meta,
        fuel: u64,
    ) -> (r: Result<Data, Error>)
        requires
            graph.wf(),
            graph@.contains_key(self_id),
            graph@[self_id].node == NodeView::Number(self.value),
        ensures
            res_view(r) == eval_out_spec(graph@, self_id, out_id, fuel as nat),
        decreases fuel, 1int,
    {
        Ok(Data::new(self.value))
    }
}

/// The operand inputs of a [`Multiply`] node.
#[derive(Debug, Clone, Copy, PartialEq, Eq, Hash, Structural)]
pub enum MultiplyInId {
    Term1,
    Term2,
}

impl MultiplyInId {
    /// The anonymous input id this port stands for.
    pub fn in_id(&self) -> (r: InId)
        ensures
            r == (match self {
                MultiplyInId::Term1 => port_term1(),
                MultiplyInId::Term2 => port_term2(),
            }),
    {
        match self {
            MultiplyInId::Term1 => InId::new("term1"),
            MultiplyInId::Term2 => InId::new("term2"),
        }
    }
}

/// The outputs of a [`Multiply`] node.
#[derive(Debug, Clone, Copy, PartialEq, Eq, Hash, Structural)]
pub enum MultiplyOutId {
    Out,
}

impl MultiplyOutId {
    /// The anonymous output id this port stands for.
    pub fn out_id(&self) -> (r: OutId)
        ensures
            r == port_out(),
    {
        OutId::new("out")
    }
}

/// A node multiplying its two operand inputs, wrapping on overflow.
#[derive(Debug, Clone)]
pub struct Multiply;

impl Multiply {
    /// A fresh multiplier.
    pub fn new() -> Self {
        Multiply
    }

    /// The node's title when displayed.
    pub fn title(&self) -> &'static str {
        "Multiply"
    }

    /// Resolves `term1`, then `term2`, demands both numeric, and yields
    /// their product, wrapping on overflow.  The first failure fails the
    /// whole fold; a non-numeric operand is a type mismatch, never a
    /// default.
    pub fn fold(
        &self,
        graph: &Graph,
        self_id: NodeId,
        out_id: OutId,
        lasy_fold: LasyFold,
        meta: Meta,
        fuel: u64,
    ) -> (r: Result<Data, Error>)
        requires
            graph.wf(),
            graph@.contains_key(self_id),
            graph@[self_id].node == NodeView::Multiply,
            lasy_fold.node_id_spec() == self_id,
        ensures
            res_view(r) == eval_out_spec(graph@, self_id, out_id, fuel as nat),
        decreases fuel, 1int,
    {
        let term1 = match lasy_fold.get_in(graph, MultiplyInId::Term1.in_id(), meta, fuel) {
            Ok(d) => d,
            Err(e) => {
                return Err(e);
            },
        };
        let a = match term1.into_number() {
            Ok(v) => v,
            Err(e) => {
                return Err(e);
            },
        };
        let term2 = match lasy_fold.get_in(graph, MultiplyInId::Term2.in_id(), meta, fuel) {
            Ok(d) => d,
            Err(e) => {
                return Err(e);
            },
        };
        let b = match term2.into_number() {
            Ok(v) => v,
            Err(e) => {
                return Err(e);
            },
        };
        Ok(Data::new(a.wrapping_mul(b)))
    }
}

/// The operand inputs of an [`Add`] node.
#[derive(Debug, Clone, Copy, PartialEq, Eq, Hash, Structural)]
pub enum AddInId {
    Term1,
    Term2,
}

impl AddInId {
    /// The anonymous input id this port stands for.
    pub fn in_id(&self) -> (r: InId)
        ensures
            r == (match self {
                AddInId::Term1 => port_term1(),
                AddInId::Term2 => port_term2(),
            }),
    {
        match self {
            AddInId::Term1 => InId::new("term1"),
            AddInId::Term2 => InId::new("term2"),
        }
    }
}

/// The outputs of an [`Add`] node.
#[derive(Debug, Clone, Copy, PartialEq, Eq, Hash, Structural)]
pub enum AddOutId {
    Out,
}

impl AddOutId {
    /// The anonymous output id this port stands for.
    pub fn out_id(&self) -> (r: OutId)
        ensures
            r == port_out(),
    {
        OutId::new("out")
    }
}

/// A node adding its two operand inputs, wrapping on overflow.
#[derive(Debug, Clone)]
pub struct Add;

impl Add {
    /// A fresh adder.
    pub fn new() -> Self {
        Add
    }

    /// The node's title when displayed.
    pub fn title(&self) -> &'static str {
        "Add"
    }

    /// Resolves `term1`, then `term2`, demands both numeric, and yields
    /// their sum, wrapping on overflow.  The first failure fails the
    /// whole fold; a non-numeric operand is a type mismatch, never a
    /// default.
    pub fn fold(
        &self,
        graph: &Graph,
        self_id: NodeId,
        out_id: OutId,
        lasy_fold: LasyFold,
        meta: Meta,
        fuel: u64,
    ) -> (r: Result<Data, Error>)
        requires
            graph.wf(),
            graph@.contains_key(self_id),
            graph@[self_id].node == NodeView::Add,
            lasy_fold.node_id_spec() == self_id,
        ensures
            res_view(r) == eval_out_spec(graph@, self_id, out_id, fuel as nat),
        decreases fuel, 1int,
    {
        let term1 = match lasy_fold.get_in(graph, AddInId::Term1.in_id(), meta, fuel) {
            Ok(d) => d,
            Err(e) => {
                return Err(e);
            },
        };
        let a = match term1.into_number() {
            Ok(v) => v,
            Err(e) => {
                return Err(e);
            },
        };
        let term2 = match lasy_fold.get_in(graph, AddInId::Term2.in_id(), meta, fuel) {
            Ok(d) => d,
            Err(e) => {
                return Err(e);
            },
        };
        let b = match term2.into_number() {
            Ok(v) => v,
            Err(e) => {
                return Err(e);
            },
        };
        Ok(Data::new(a.wrapping_add(b)))
    }
}

} // verus!
