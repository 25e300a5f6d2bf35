//! The graph's mutation API: insertion, removal, patching.

use quakk::error::Error;
use quakk::graph::Graph;
use quakk::id::{InId, NodeId, NodeInId, NodeOutId, OutId};
use quakk::node::numeric::{Add, AddInId, Multiply, MultiplyInId, Number, NumberOutId};
use quakk::node::NodeKind;

#[test]
fn graph_initialized_with_inout() {}

#[test]
fn graph_insertion_and_removal() {
    let mut graph = Graph::new();

    let number_handle = graph.insert(NodeKind::Number(Number::new()));
    assert!(graph.contains(&number_handle.node_id()));
    graph.remove(number_handle.node_id()).unwrap();
    assert!(!graph.contains(&number_handle.node_id()));
}

#[test]
fn new_graph_contains_both_boundaries() {
    let graph = Graph::new();
    assert!(graph.contains(&NodeId::GraphIn));
    assert!(graph.contains(&NodeId::GraphOut));
    assert_eq!(graph.graph_in_handle().node_id(), NodeId::GraphIn);
    assert_eq!(graph.graph_out_handle().node_id(), NodeId::GraphOut);
}

#[test]
fn single_inbound_repatch_replaces_source() {
    let mut graph = Graph::new();
    let a = graph.insert(NodeKind::Number(Number::new_with(1)));
    let b = graph.insert(NodeKind::Number(Number::new_with(2)));
    let add = graph.insert(NodeKind::Add(Add::new()));

    let a_out = a.node_out_id(NumberOutId::Out.out_id()).unwrap();
    let b_out = b.node_out_id(NumberOutId::Out.out_id()).unwrap();
    let term1 = add.node_in_id(AddInId::Term1.in_id()).unwrap();

    graph.patch(a_out, term1).unwrap();
    assert_eq!(
        graph.inbound_for(add.node_id(), AddInId::Term1.in_id()),
        Some(a_out)
    );

    // Connecting a second source to the already-patched input replaces,
    // never adds.
    graph.patch(b_out, term1).unwrap();
    assert_eq!(
        graph.inbound_for(add.node_id(), AddInId::Term1.in_id()),
        Some(b_out)
    );
}

#[test]
fn fan_out_counts_members() {
    let mut graph = Graph::new();
    let num = graph.insert(NodeKind::Number(Number::new_with(7)));
    let add = graph.insert(NodeKind::Add(Add::new()));
    let mult = graph.insert(NodeKind::Multiply(Multiply::new()));

    let num_out = num.node_out_id(NumberOutId::Out.out_id()).unwrap();
    let t1 = add.node_in_id(AddInId::Term1.in_id()).unwrap();
    let t2 = add.node_in_id(AddInId::Term2.in_id()).unwrap();
    let t3 = mult.node_in_id(MultiplyInId::Term1.in_id()).unwrap();

    graph.patch(num_out, t1).unwrap();
    graph.patch(num_out, t2).unwrap();
    graph.patch(num_out, t3).unwrap();

    let members = graph
        .outbound_for(num.node_id(), NumberOutId::Out.out_id())
        .unwrap();
    assert_eq!(members.len(), 3);
    assert!(members.contains(&t1));
    assert!(members.contains(&t2));
    assert!(members.contains(&t3));

    // Disconnecting one member leaves the other two intact.
    graph.unpatch(num_out, t2).unwrap();
    let members = graph
        .outbound_for(num.node_id(), NumberOutId::Out.out_id())
        .unwrap();
    assert_eq!(members.len(), 2);
    assert!(members.contains(&t1));
    assert!(!members.contains(&t2));
    assert!(members.contains(&t3));
}

#[test]
fn boundary_nodes_are_protected() {
    let mut graph = Graph::new();
    assert_eq!(
        graph.remove(NodeId::GraphIn),
        Err(Error::ProtectedNode(NodeId::GraphIn))
    );
    assert_eq!(
        graph.remove(NodeId::GraphOut),
        Err(Error::ProtectedNode(NodeId::GraphOut))
    );
    assert!(graph.contains(&NodeId::GraphIn));
    assert!(graph.contains(&NodeId::GraphOut));

    let other = graph.insert(NodeKind::Number(Number::new()));
    assert_eq!(graph.remove(other.node_id()), Ok(()));
}

#[test]
fn removal_scrubs_all_references() {
    let mut graph = Graph::new();
    let num = graph.insert(NodeKind::Number(Number::new_with(3)));
    let mid = graph.insert(NodeKind::Add(Add::new()));
    let sink = graph.insert(NodeKind::Multiply(Multiply::new()));

    let num_out = num.node_out_id(NumberOutId::Out.out_id()).unwrap();
    let mid_t1 = mid.node_in_id(AddInId::Term1.in_id()).unwrap();
    let mid_out = NodeOutId::new(mid.node_id(), OutId::new("out"));
    let sink_t1 = sink.node_in_id(MultiplyInId::Term1.in_id()).unwrap();

    // num feeds mid, and mid feeds sink.
    graph.patch(num_out, mid_t1).unwrap();
    graph.patch(mid_out, sink_t1).unwrap();

    graph.remove(mid.node_id()).unwrap();

    // The vertex is gone, and no surviving vertex mentions it on either
    // side.
    assert!(!graph.contains(&mid.node_id()));
    let num_members = graph
        .outbound_for(num.node_id(), NumberOutId::Out.out_id())
        .unwrap();
    assert!(num_members.is_empty());
    assert_eq!(
        graph.inbound_for(sink.node_id(), MultiplyInId::Term1.in_id()),
        None
    );
}

#[test]
fn idempotent_disconnect() {
    let mut graph = Graph::new();
    let num = graph.insert(NodeKind::Number(Number::new_with(3)));
    let add = graph.insert(NodeKind::Add(Add::new()));

    let num_out = num.node_out_id(NumberOutId::Out.out_id()).unwrap();
    let t1 = add.node_in_id(AddInId::Term1.in_id()).unwrap();

    graph.patch(num_out, t1).unwrap();
    assert_eq!(graph.unpatch(num_out, t1), Ok(()));
    // The edge is gone; disconnecting it again is a no-op, not an error.
    assert_eq!(graph.unpatch(num_out, t1), Ok(()));
    assert_eq!(graph.inbound_for(add.node_id(), AddInId::Term1.in_id()), None);
    let members = graph
        .outbound_for(num.node_id(), NumberOutId::Out.out_id())
        .unwrap();
    assert!(members.is_empty());
}

#[test]
fn disconnect_keeps_foreign_edge() {
    let mut graph = Graph::new();
    let a = graph.insert(NodeKind::Number(Number::new_with(1)));
    let b = graph.insert(NodeKind::Number(Number::new_with(2)));
    let add = graph.insert(NodeKind::Add(Add::new()));

    let a_out = a.node_out_id(NumberOutId::Out.out_id()).unwrap();
    let b_out = b.node_out_id(NumberOutId::Out.out_id()).unwrap();
    let t1 = add.node_in_id(AddInId::Term1.in_id()).unwrap();

    // The input now records b; disconnecting the stale (a, input) pair
    // must not drop b's edge.
    graph.patch(a_out, t1).unwrap();
    graph.patch(b_out, t1).unwrap();
    graph.unpatch(a_out, t1).unwrap();
    assert_eq!(
        graph.inbound_for(add.node_id(), AddInId::Term1.in_id()),
        Some(b_out)
    );
}

#[test]
fn patch_unknown_nodes_fail() {
    let mut graph = Graph::new();
    let num = graph.insert(NodeKind::Number(Number::new()));
    let num_out = num.node_out_id(NumberOutId::Out.out_id()).unwrap();

    let ghost_id = NodeId::new_node_from("nowhere");
    let ghost_out = NodeOutId::new(ghost_id, OutId::new("out"));
    let ghost_in = NodeInId::new(ghost_id, InId::new("term1"));

    assert_eq!(
        graph.patch(ghost_out, ghost_in),
        Err(Error::UnknownSourceNode(ghost_id))
    );
    assert_eq!(
        graph.patch(num_out, ghost_in),
        Err(Error::UnknownTargetNode(ghost_id))
    );
    assert_eq!(
        graph.unpatch(ghost_out, ghost_in),
        Err(Error::UnknownSourceNode(ghost_id))
    );
    assert_eq!(
        graph.unpatch(num_out, ghost_in),
        Err(Error::UnknownTargetNode(ghost_id))
    );
}

#[test]
fn insert_with_id_replaces_silently() {
    let mut graph = Graph::new();
    let id = NodeId::new_node_from("slot");
    graph.insert_with_id(NodeKind::Number(Number::new_with(1)), id);
    let second = graph.insert_with_id(NodeKind::Number(Number::new_with(2)), id);
    assert!(graph.contains(&id));
    assert_eq!(second.node_id(), id);
    // Only one vertex lives under the identity: the handle the graph now
    // returns shows the second node.
    let handle = graph.handle_for_id(id).unwrap();
    match handle.node() {
        NodeKind::Number(n) => assert_eq!(n.value, 2),
        other => panic!("wrong node kind stored: {:?}", other),
    }
}
