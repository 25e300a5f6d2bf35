//! Identifiers, port resolution, and the typed value container.

use quakk::data::{Data, DataKind};
use quakk::error::Error;
use quakk::graph::Graph;
use quakk::id::{HashId, InId, InoutId, InoutKind, NodeId, NodeInoutId, OutId};
use quakk::node::numeric::{Multiply, MultiplyInId, Number};
use quakk::node::textual::TextSplit;
use quakk::node::NodeKind;

#[test]
fn hash_id_from_name_is_deterministic() {
    assert_eq!(HashId::new_from("test"), HashId::new_from("test"));
    assert_ne!(HashId::new_from("test"), HashId::new_from("other"));
}

#[test]
fn hash_id_random_draws_differ() {
    assert_ne!(HashId::new(), HashId::new());
}

#[test]
fn hash_id_display_is_lowercase_hex() {
    assert_eq!(HashId { id: 0 }.display(), "0");
    assert_eq!(HashId { id: 255 }.display(), "ff");
    assert_eq!(HashId { id: 0xdeadbeef }.display(), "deadbeef");
    assert_eq!(HashId { id: u64::MAX }.display(), "ffffffffffffffff");
    assert_eq!(HashId { id: u64::MAX }.display_short(), "ffffffffffff");
    assert_eq!(HashId { id: 255 }.display_short(), "ff");
}

#[test]
fn node_ids_from_names() {
    assert_eq!(NodeId::new_node_from("x"), NodeId::new_node_from("x"));
    assert_ne!(NodeId::new_node_from("x"), NodeId::new_node_from("y"));
    assert_ne!(NodeId::new_node(), NodeId::GraphIn);
    assert_ne!(NodeId::new_node(), NodeId::new_node());
}

#[test]
fn inout_ids_carry_their_kind() {
    let input = InoutId::new_in_from("term1");
    let output = InoutId::new_out_from("out");
    assert_eq!(input.kind(), InoutKind::In);
    assert_eq!(output.kind(), InoutKind::Out);
    assert_eq!(input.as_in(), Some(InId::new("term1")));
    assert_eq!(input.as_out(), None);
    assert_eq!(output.as_out(), Some(OutId::new("out")));
    assert_eq!(output.as_in(), None);
    assert_eq!(InId::new("term1").into_inout_id(), input);
    assert_eq!(InoutId::from(InId::new("term1")), input);
    assert_eq!(InoutId::from(OutId::new("out")), output);
}

#[test]
fn node_inout_ids_tie_ports_to_nodes() {
    let id = NodeId::new_node_from("n");
    let tied = NodeInoutId::new_in_from(id, "term1");
    assert_eq!(tied.node_id(), id);
    assert_eq!(tied.inout_id(), InoutId::new_in_from("term1"));
    assert_eq!(tied.as_in().unwrap().node_id(), id);
    assert_eq!(tied.as_in().unwrap().in_id(), InId::new("term1"));
    assert_eq!(tied.as_out(), None);

    let tied_out = id.into_node_inout_id(InoutId::new_out_from("out"));
    assert_eq!(tied_out, NodeInoutId::new_out_from(id, "out"));
    assert_eq!(
        InoutId::new_out_from("out").into_node_inout_id(id),
        tied_out
    );
    assert_eq!(tied_out.as_out().unwrap().out_id(), OutId::new("out"));
    assert_eq!(NodeInoutId::from(tied.as_in().unwrap()), tied);
    assert_eq!(NodeInoutId::from(tied_out.as_out().unwrap()), tied_out);
}

#[test]
fn port_resolution_follows_each_vocabulary() {
    let mut graph = Graph::new();
    let num = graph.insert(NodeKind::Number(Number::new()));
    let mult = graph.insert(NodeKind::Multiply(Multiply::new()));
    let split = graph.insert(NodeKind::TextSplit(TextSplit::new()));

    // Names resolve if and only if the node kind declares them.
    assert_eq!(
        num.id_for("out"),
        Some(NodeInoutId::new_out_from(num.node_id(), "out"))
    );
    assert_eq!(num.id_for("term1"), None);
    assert_eq!(
        mult.id_for("term1"),
        Some(NodeInoutId::new_in_from(mult.node_id(), "term1"))
    );
    assert_eq!(
        mult.id_for("out"),
        Some(NodeInoutId::new_out_from(mult.node_id(), "out"))
    );
    assert_eq!(mult.id_for("at"), None);
    assert_eq!(
        split.id_for("at"),
        Some(NodeInoutId::new_in_from(split.node_id(), "at"))
    );
    assert_eq!(
        split.id_for("start"),
        Some(NodeInoutId::new_out_from(split.node_id(), "start"))
    );

    // Abstract identities resolve the same way: an input of another
    // vocabulary is rejected, not guessed at.
    assert!(mult.node_in_id(MultiplyInId::Term1.in_id()).is_some());
    assert!(mult.node_in_id(InId::new("text")).is_none());
    assert!(num.node_in_id(InId::new("term1")).is_none());
    assert!(num.node_out_id(OutId::new("out")).is_some());
    assert!(num.node_out_id(OutId::new("start")).is_none());

    // The boundary nodes answer to every name.
    assert!(graph.graph_out_id_for("anything").is_some());
    assert!(graph.graph_in_id_for("anything").is_some());
}

#[test]
fn data_downcasts_safely() {
    let d = Data::new(7i64);
    assert_eq!(d.downcast_ref::<i64>(), Some(&7));
    assert_eq!(d.downcast_ref::<String>(), None);
    assert_eq!(d.downcast::<i64>(), Some(7));

    let t = Data::new(String::from("hi"));
    assert_eq!(t.kind(), DataKind::Text);
    assert_eq!(t.downcast_ref::<i64>(), None);
    assert_eq!(t.downcast::<String>(), Some(String::from("hi")));
}

#[test]
fn data_extraction_never_coerces() {
    assert_eq!(
        Data::new(5i64).into_string(),
        Err(Error::TypeMismatch {
            expected: DataKind::Text,
            found: DataKind::Number
        })
    );
    assert_eq!(
        Data::new(String::from("5")).into_number(),
        Err(Error::TypeMismatch {
            expected: DataKind::Number,
            found: DataKind::Text
        })
    );
    assert_eq!(Data::new(String::from("5")).into_string().unwrap(), "5");
}

#[test]
fn node_titles() {
    assert_eq!(NodeKind::Number(Number::new()).title(), "Number");
    assert_eq!(NodeKind::Multiply(Multiply::new()).title(), "Multiply");
    assert_eq!(NodeKind::TextSplit(TextSplit::new()).title(), "Text Split");
    assert_eq!(NodeKind::GraphIn(quakk::node::GraphIn::new()).title(), "GraphIn");
    assert_eq!(NodeKind::GraphOut(quakk::node::GraphOut::new()).title(), "GraphOut");
}
