//! Demand-driven evaluation through the lazy fold.

use quakk::data::{Data, DataKind};
use quakk::error::Error;
use quakk::id::{InId, NodeId, OutId};
use quakk::lasy::LasyFold;
use quakk::meta::{Meta, Quality};
use quakk::node::numeric::{Add, AddInId, AddOutId, Multiply, MultiplyInId, MultiplyOutId, Number, NumberOutId};
use quakk::node::textual::{TextConstant, TextSplit, TextSplitInId, TextSplitOutId};
use quakk::node::NodeKind;
use quakk::Quakk;

#[test]
fn end_to_end_multiply_add() {
    let mut qk = Quakk::new();

    let number_a = qk.graph.insert(NodeKind::Number(Number::new_with(2)));
    let number_b = qk.graph.insert(NodeKind::Number(Number::new_with(3)));
    let number_c = qk.graph.insert(NodeKind::Number(Number::new_with(2)));
    let mult = qk.graph.insert(NodeKind::Multiply(Multiply::new()));
    let add = qk.graph.insert(NodeKind::Add(Add::new()));

    qk.graph
        .patch(
            number_a.node_out_id(NumberOutId::Out.out_id()).unwrap(),
            mult.node_in_id(MultiplyInId::Term1.in_id()).unwrap(),
        )
        .unwrap();
    qk.graph
        .patch(
            number_b.node_out_id(NumberOutId::Out.out_id()).unwrap(),
            mult.node_in_id(MultiplyInId::Term2.in_id()).unwrap(),
        )
        .unwrap();
    qk.graph
        .patch(
            mult.node_out_id(MultiplyOutId::Out.out_id()).unwrap(),
            add.node_in_id(AddInId::Term1.in_id()).unwrap(),
        )
        .unwrap();
    qk.graph
        .patch(
            number_c.node_out_id(NumberOutId::Out.out_id()).unwrap(),
            add.node_in_id(AddInId::Term2.in_id()).unwrap(),
        )
        .unwrap();

    let numeric_in = qk
        .graph
        .graph_out_id_for("numeric")
        .unwrap()
        .as_in()
        .unwrap();
    qk.graph
        .patch(add.node_out_id(AddOutId::Out.out_id()).unwrap(), numeric_in)
        .unwrap();

    // 2 * 3 + 2
    assert_eq!(qk.fold_for("numeric").unwrap().into_number().unwrap(), 8);
}

#[test]
fn end_to_end_repatch_overwrites() {
    let mut qk = Quakk::new();

    let number_a = qk.graph.insert(NodeKind::Number(Number::new_with(2)));
    let number_b = qk.graph.insert(NodeKind::Number(Number::new_with(3)));
    let number_c = qk.graph.insert(NodeKind::Number(Number::new_with(2)));
    let mult = qk.graph.insert(NodeKind::Multiply(Multiply::new()));
    let add = qk.graph.insert(NodeKind::Add(Add::new()));

    qk.graph
        .patch(
            number_a.node_out_id(NumberOutId::Out.out_id()).unwrap(),
            mult.node_in_id(MultiplyInId::Term1.in_id()).unwrap(),
        )
        .unwrap();
    qk.graph
        .patch(
            number_b.node_out_id(NumberOutId::Out.out_id()).unwrap(),
            mult.node_in_id(MultiplyInId::Term2.in_id()).unwrap(),
        )
        .unwrap();
    qk.graph
        .patch(
            mult.node_out_id(MultiplyOutId::Out.out_id()).unwrap(),
            add.node_in_id(AddInId::Term1.in_id()).unwrap(),
        )
        .unwrap();
    qk.graph
        .patch(
            number_c.node_out_id(NumberOutId::Out.out_id()).unwrap(),
            add.node_in_id(AddInId::Term2.in_id()).unwrap(),
        )
        .unwrap();
    let numeric_in = qk
        .graph
        .graph_out_id_for("numeric")
        .unwrap()
        .as_in()
        .unwrap();
    qk.graph
        .patch(add.node_out_id(AddOutId::Out.out_id()).unwrap(), numeric_in)
        .unwrap();

    // Re-patch the multiplier's second operand to a new constant before
    // evaluating: the result reflects only the final wiring.
    let number_d = qk.graph.insert(NodeKind::Number(Number::new_with(5)));
    qk.graph
        .patch(
            number_d.node_out_id(NumberOutId::Out.out_id()).unwrap(),
            mult.node_in_id(MultiplyInId::Term2.in_id()).unwrap(),
        )
        .unwrap();

    // 2 * 5 + 2
    assert_eq!(qk.fold_for("numeric").unwrap().into_number().unwrap(), 12);
}

#[test]
fn unconnected_output_fails_with_no_inbound_edge() {
    let qk = Quakk::new();
    assert_eq!(
        qk.fold_for("numeric"),
        Err(Error::NoInboundEdge(NodeId::GraphOut, InId::new("numeric")))
    );
}

#[test]
fn demand_driven_skips_unrequested_branch() {
    let mut qk = Quakk::new();

    // One healthy branch on the graph output named "a"...
    let num = qk.graph.insert(NodeKind::Number(Number::new()));
    let a_in = qk.graph.graph_out_id_for("a").unwrap().as_in().unwrap();
    qk.graph
        .patch(num.node_out_id(NumberOutId::Out.out_id()).unwrap(), a_in)
        .unwrap();

    // ...and a broken one on "b": an adder with no operands wired.
    let add = qk.graph.insert(NodeKind::Add(Add::new()));
    let b_in = qk.graph.graph_out_id_for("b").unwrap().as_in().unwrap();
    qk.graph
        .patch(add.node_out_id(AddOutId::Out.out_id()).unwrap(), b_in)
        .unwrap();

    // Asking for "a" never evaluates the broken branch; the default
    // constant folds to its value.
    assert_eq!(qk.fold_for("a").unwrap().into_number().unwrap(), 4);
    // Asking for "b" does evaluate it, and fails at the adder's first
    // missing operand, not with a default.
    assert_eq!(
        qk.fold_for("b"),
        Err(Error::NoInboundEdge(add.node_id(), AddInId::Term1.in_id()))
    );
}

#[test]
fn type_mismatch_is_reported_not_coerced() {
    let mut qk = Quakk::new();

    let text = qk
        .graph
        .insert(NodeKind::TextConstant(TextConstant::new(String::from("five"))));
    let num = qk.graph.insert(NodeKind::Number(Number::new_with(2)));
    let add = qk.graph.insert(NodeKind::Add(Add::new()));

    qk.graph
        .patch(
            text.node_out_id(OutId::new("out")).unwrap(),
            add.node_in_id(AddInId::Term1.in_id()).unwrap(),
        )
        .unwrap();
    qk.graph
        .patch(
            num.node_out_id(NumberOutId::Out.out_id()).unwrap(),
            add.node_in_id(AddInId::Term2.in_id()).unwrap(),
        )
        .unwrap();
    let numeric_in = qk
        .graph
        .graph_out_id_for("numeric")
        .unwrap()
        .as_in()
        .unwrap();
    qk.graph
        .patch(add.node_out_id(AddOutId::Out.out_id()).unwrap(), numeric_in)
        .unwrap();

    assert_eq!(
        qk.fold_for("numeric"),
        Err(Error::TypeMismatch {
            expected: DataKind::Number,
            found: DataKind::Text
        })
    );
}

#[test]
fn text_split_start_and_end() {
    let mut qk = Quakk::new();

    let text = qk.graph.insert(NodeKind::TextConstant(TextConstant::new(
        String::from("Hello World!"),
    )));
    let at = qk.graph.insert(NodeKind::Number(Number::new_with(5)));
    let split = qk.graph.insert(NodeKind::TextSplit(TextSplit::new()));

    qk.graph
        .patch(
            text.node_out_id(OutId::new("out")).unwrap(),
            split.node_in_id(TextSplitInId::Text.in_id()).unwrap(),
        )
        .unwrap();
    qk.graph
        .patch(
            at.node_out_id(NumberOutId::Out.out_id()).unwrap(),
            split.node_in_id(TextSplitInId::At.in_id()).unwrap(),
        )
        .unwrap();

    let start_in = qk.graph.graph_out_id_for("start").unwrap().as_in().unwrap();
    let end_in = qk.graph.graph_out_id_for("end").unwrap().as_in().unwrap();
    qk.graph
        .patch(
            split.node_out_id(TextSplitOutId::Start.out_id()).unwrap(),
            start_in,
        )
        .unwrap();
    qk.graph
        .patch(
            split.node_out_id(TextSplitOutId::End.out_id()).unwrap(),
            end_in,
        )
        .unwrap();

    assert_eq!(
        qk.fold_for("start").unwrap().into_string().unwrap(),
        "Hello"
    );
    assert_eq!(
        qk.fold_for("end").unwrap().into_string().unwrap(),
        " World!"
    );
}

#[test]
fn text_split_clamps_position() {
    let mut qk = Quakk::new();

    let text = qk
        .graph
        .insert(NodeKind::TextConstant(TextConstant::new(String::from("abc"))));
    let at = qk.graph.insert(NodeKind::Number(Number::new_with(-7)));
    let split = qk.graph.insert(NodeKind::TextSplit(TextSplit::new()));

    qk.graph
        .patch(
            text.node_out_id(OutId::new("out")).unwrap(),
            split.node_in_id(TextSplitInId::Text.in_id()).unwrap(),
        )
        .unwrap();
    qk.graph
        .patch(
            at.node_out_id(NumberOutId::Out.out_id()).unwrap(),
            split.node_in_id(TextSplitInId::At.in_id()).unwrap(),
        )
        .unwrap();
    let end_in = qk.graph.graph_out_id_for("end").unwrap().as_in().unwrap();
    qk.graph
        .patch(
            split.node_out_id(TextSplitOutId::End.out_id()).unwrap(),
            end_in,
        )
        .unwrap();

    // A negative position clamps to the start: "end" carries everything.
    assert_eq!(qk.fold_for("end").unwrap().into_string().unwrap(), "abc");

    // A position past the text clamps to its length: "end" is empty.
    let far = qk.graph.insert(NodeKind::Number(Number::new_with(100)));
    qk.graph
        .patch(
            far.node_out_id(NumberOutId::Out.out_id()).unwrap(),
            split.node_in_id(TextSplitInId::At.in_id()).unwrap(),
        )
        .unwrap();
    assert_eq!(qk.fold_for("end").unwrap().into_string().unwrap(), "");
}

#[test]
fn unknown_split_output_is_reported() {
    let mut qk = Quakk::new();

    let split = qk.graph.insert(NodeKind::TextSplit(TextSplit::new()));
    let t_in = qk.graph.graph_out_id_for("t").unwrap().as_in().unwrap();
    // Wire a port name the splitter does not declare; the graph accepts
    // the patch, and the fold reports the unknown port.
    let bogus = quakk::id::NodeOutId::new(split.node_id(), OutId::new("bogus"));
    qk.graph.patch(bogus, t_in).unwrap();

    assert_eq!(
        qk.fold_for("t"),
        Err(Error::UnknownPort(split.node_id(), OutId::new("bogus")))
    );
}

#[test]
fn cycle_is_cut_off_with_typed_error() {
    let mut qk = Quakk::new();

    let num = qk.graph.insert(NodeKind::Number(Number::new_with(1)));
    let add = qk.graph.insert(NodeKind::Add(Add::new()));

    // term1 feeds back from the adder's own output; term2 is honest.
    qk.graph
        .patch(
            add.node_out_id(AddOutId::Out.out_id()).unwrap(),
            add.node_in_id(AddInId::Term1.in_id()).unwrap(),
        )
        .unwrap();
    qk.graph
        .patch(
            num.node_out_id(NumberOutId::Out.out_id()).unwrap(),
            add.node_in_id(AddInId::Term2.in_id()).unwrap(),
        )
        .unwrap();
    let numeric_in = qk
        .graph
        .graph_out_id_for("numeric")
        .unwrap()
        .as_in()
        .unwrap();
    qk.graph
        .patch(add.node_out_id(AddOutId::Out.out_id()).unwrap(), numeric_in)
        .unwrap();

    assert_eq!(
        qk.fold_for("numeric"),
        Err(Error::DepthExceeded(add.node_id()))
    );
}

#[test]
fn evaluator_reports_vanished_node() {
    let graph = quakk::graph::Graph::new();
    let ghost_id = NodeId::new_node_from("gone");
    let lasy = LasyFold::new(ghost_id);
    let meta = Meta {
        tick: 0,
        quality: Quality::Balanced,
    };
    assert_eq!(
        lasy.get_in(&graph, InId::new("term1"), meta, 8),
        Err(Error::UnknownNode(ghost_id))
    );
}

#[test]
fn wrapping_multiply_exact() {
    let mut qk = Quakk::new();

    let a = qk.graph.insert(NodeKind::Number(Number::new_with(i64::MAX)));
    let b = qk.graph.insert(NodeKind::Number(Number::new_with(2)));
    let mult = qk.graph.insert(NodeKind::Multiply(Multiply::new()));

    qk.graph
        .patch(
            a.node_out_id(NumberOutId::Out.out_id()).unwrap(),
            mult.node_in_id(MultiplyInId::Term1.in_id()).unwrap(),
        )
        .unwrap();
    qk.graph
        .patch(
            b.node_out_id(NumberOutId::Out.out_id()).unwrap(),
            mult.node_in_id(MultiplyInId::Term2.in_id()).unwrap(),
        )
        .unwrap();
    let numeric_in = qk
        .graph
        .graph_out_id_for("numeric")
        .unwrap()
        .as_in()
        .unwrap();
    qk.graph
        .patch(
            mult.node_out_id(MultiplyOutId::Out.out_id()).unwrap(),
            numeric_in,
        )
        .unwrap();

    assert_eq!(
        qk.fold_for("numeric").unwrap().into_number().unwrap(),
        i64::MAX.wrapping_mul(2)
    );
}

#[test]
fn subgraph_forwards_to_child_boundary() {
    // Wire a child graph: a constant feeding the child's own output
    // named "result".
    let mut child = quakk::graph::Graph::new();
    let inner = child.insert(NodeKind::Number(Number::new_with(21)));
    let child_out = child
        .graph_out_id_for("result")
        .unwrap()
        .as_in()
        .unwrap();
    child
        .patch(
            inner.node_out_id(NumberOutId::Out.out_id()).unwrap(),
            child_out,
        )
        .unwrap();

    // Embed it as one opaque node of the outer graph.
    let mut qk = Quakk::new();
    let sub = qk
        .graph
        .insert(NodeKind::Subgraph(quakk::node::Subgraph::new_with(child)));

    // Folding the subgraph node's "result" output forwards to the
    // child's boundary.
    let outer_in = qk
        .graph
        .graph_out_id_for("numeric")
        .unwrap()
        .as_in()
        .unwrap();
    qk.graph
        .patch(
            sub.node_out_id(OutId::new("result")).unwrap(),
            outer_in,
        )
        .unwrap();

    assert_eq!(qk.fold_for("numeric").unwrap().into_number().unwrap(), 21);

    // An output the child never wired fails inside the child, with a
    // typed error.
    let other_in = qk.graph.graph_out_id_for("other").unwrap().as_in().unwrap();
    qk.graph
        .patch(sub.node_out_id(OutId::new("mystery")).unwrap(), other_in)
        .unwrap();
    assert_eq!(
        qk.fold_for("other"),
        Err(Error::NoInboundEdge(NodeId::GraphOut, InId::new("mystery")))
    );
}

#[test]
fn base_meta_starts_balanced_at_tick_zero() {
    let qk = Quakk::new();
    assert_eq!(qk.base_meta.tick, 0);
    assert_eq!(qk.base_meta.quality, Quality::Balanced);
    assert!(Quality::Highest.rank() > Quality::Balanced.rank());
    assert!(Quality::Balanced.rank() > Quality::Performance.rank());
    assert!(Quality::Performance.rank() > Quality::Lowest.rank());
}

#[test]
fn data_new_keeps_payload() {
    let d = Data::new(42i64);
    assert_eq!(d.kind(), DataKind::Number);
    assert_eq!(d.into_number().unwrap(), 42);
}
