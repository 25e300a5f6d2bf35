//! The laws this crate states about its graph operations and its
//! evaluator, proved once and for all over the transition functions that
//! the executable operations are verified against.

use vstd::prelude::*;

use crate::error::Error;
use crate::graph::{
    patch_spec, remove_spec, unpatch_spec, GraphView,
};
use crate::id::{InId, NodeId, NodeInId, NodeOutId, OutId};
use crate::lasy::{eval_in_spec, eval_out_spec};
use crate::node::NodeView;

verus! {

/// A successful connect leaves the graph's node population unchanged: it
/// only rewires.
pub proof fn lemma_patch_preserves_nodes(g: GraphView, o: NodeOutId, p: NodeInId)
    requires
        patch_spec(g, o, p) is Ok,
    ensures
        patch_spec(g, o, p)->Ok_0.dom() =~= g.dom(),
{
}

/// One inbound edge at most: an input's sources are one entry of a map,
/// so whatever sequence of connects and disconnects ran, an input never
/// records more than one.  After a successful connect, the target input
/// records exactly the new source, and no other input of any node has
/// changed.
pub proof fn lemma_patch_records_single_source(g: GraphView, o: NodeOutId, p: NodeInId)
    requires
        patch_spec(g, o, p) is Ok,
    ensures
        patch_spec(g, o, p)->Ok_0[p.node_id_spec()].inbound == g[p.node_id_spec()].inbound.insert(
            p.in_id_spec(),
            o,
        ),
        forall|id: NodeId|
            g.contains_key(id) && id != p.node_id_spec() ==> (#[trigger] patch_spec(
                g,
                o,
                p,
            )->Ok_0[id]).inbound == g[id].inbound,
{
}

/// Re-patching replaces, never adds: connecting a second source to an
/// already-connected input leaves that input with the second source alone,
/// and adds no inbound entry.
pub proof fn lemma_single_inbound(g: GraphView, o1: NodeOutId, o2: NodeOutId, p: NodeInId)
    requires
        patch_spec(g, o1, p) is Ok,
        patch_spec(patch_spec(g, o1, p)->Ok_0, o2, p) is Ok,
    ensures
        ({
            let g1 = patch_spec(g, o1, p)->Ok_0;
            let g2 = patch_spec(g1, o2, p)->Ok_0;
            g2[p.node_id_spec()].inbound[p.in_id_spec()] == o2 && g2[p.node_id_spec()].inbound.dom()
                =~= g1[p.node_id_spec()].inbound.dom()
        }),
{
    let g1 = patch_spec(g, o1, p)->Ok_0;
    lemma_patch_records_single_source(g, o1, p);
    lemma_patch_records_single_source(g1, o2, p);
}

/// Connecting each input of a sequence in turn to the same output.
pub open spec fn patch_all(g: GraphView, o: NodeOutId, ins: Seq<NodeInId>) -> Result<
    GraphView,
    Error,
>
    decreases ins.len(),
{
    if ins.len() == 0 {
        Ok(g)
    } else {
        match patch_all(g, o, ins.drop_last()) {
            Ok(g1) => patch_spec(g1, o, ins.last()),
            Err(e) => Err(e),
        }
    }
}

/// Fan-out: connecting any number of distinct inputs of existing nodes to
/// one output of an existing node succeeds and leaves that output's
/// outbound set with exactly those inputs as members, one each.
pub proof fn lemma_fan_out(g: GraphView, o: NodeOutId, ins: Seq<NodeInId>)
    requires
        g.contains_key(o.node_id_spec()),
        !g[o.node_id_spec()].outbound.contains_key(o.out_id_spec()),
        forall|i: int|
            0 <= i < ins.len() ==> g.contains_key((#[trigger] ins[i]).node_id_spec()),
        ins.no_duplicates(),
    ensures
        patch_all(g, o, ins) is Ok,
        ins.len() > 0 ==> ({
            let g2 = patch_all(g, o, ins)->Ok_0;
            g2[o.node_id_spec()].outbound[o.out_id_spec()] == ins.to_set()
                && g2[o.node_id_spec()].outbound[o.out_id_spec()].len() == ins.len()
        }),
        patch_all(g, o, ins)->Ok_0.dom() =~= g.dom(),
    decreases ins.len(),
{
    if ins.len() == 0 {
    } else {
        let short = ins.drop_last();
        let last = ins.last();
        assert(short.no_duplicates()) by {
            assert forall|x: int, y: int|
                0 <= x < short.len() && 0 <= y < short.len() && x != y implies short[x]
                != short[y] by {
                assert(ins[x] != ins[y]);
            }
        }
        lemma_fan_out(g, o, short);
        let g1 = patch_all(g, o, short)->Ok_0;
        assert(g1.contains_key(o.node_id_spec()));
        assert(g1.contains_key(last.node_id_spec()));
        let g2 = patch_spec(g1, o, last)->Ok_0;
        let members1 = if g1[o.node_id_spec()].outbound.contains_key(o.out_id_spec()) {
            g1[o.node_id_spec()].outbound[o.out_id_spec()]
        } else {
            Set::<NodeInId>::empty()
        };
        assert(g2[o.node_id_spec()].outbound[o.out_id_spec()] == members1.insert(last));
        if short.len() == 0 {
            assert(members1 =~= Set::<NodeInId>::empty());
            assert(members1.insert(last) =~= ins.to_set()) by {
                assert forall|t: NodeInId| ins.to_set().contains(t) implies t == last by {
                    let i = choose|i: int| 0 <= i < ins.len() && ins[i] == t;
                }
                assert(ins.contains(last));
            }
            assert(members1.insert(last).len() == 1) by {
                vstd::set_lib::lemma_set_empty_equivalency_len(members1);
            }
        } else {
            assert(members1 == short.to_set());
            assert(!short.to_set().contains(last)) by {
                if short.to_set().contains(last) {
                    let i = choose|i: int| 0 <= i < short.len() && short[i] == last;
                    assert(ins[i] == ins[ins.len() - 1]);
                }
            }
            assert(members1.insert(last) =~= ins.to_set()) by {
                assert(short.push(last) =~= ins);
                crate::alist::lemma_push_to_set(short, last);
            }
            assert(members1.insert(last).len() == short.len() + 1);
        }
    }
}

/// Disconnecting one member of an output's fan-out drops exactly that
/// member: the remaining members stay, and the set shrinks by one.
pub proof fn lemma_unpatch_leaves_rest(g: GraphView, o: NodeOutId, p: NodeInId)
    requires
        unpatch_spec(g, o, p) is Ok,
        g[o.node_id_spec()].outbound.contains_key(o.out_id_spec()),
        g[o.node_id_spec()].outbound[o.out_id_spec()].contains(p),
        g[o.node_id_spec()].outbound[o.out_id_spec()].finite(),
    ensures
        ({
            let g2 = unpatch_spec(g, o, p)->Ok_0;
            g2[o.node_id_spec()].outbound[o.out_id_spec()] == g[o.node_id_spec()].outbound[
                o.out_id_spec()
            ].remove(p) && g2[o.node_id_spec()].outbound[o.out_id_spec()].len() == g[
                o.node_id_spec()
            ].outbound[o.out_id_spec()].len() - 1
        }),
{
}

/// Disconnect is idempotent: after one successful disconnect of an edge,
/// disconnecting it again succeeds and changes nothing.
pub proof fn lemma_unpatch_idempotent(g: GraphView, o: NodeOutId, p: NodeInId)
    requires
        unpatch_spec(g, o, p) is Ok,
    ensures
        unpatch_spec(unpatch_spec(g, o, p)->Ok_0, o, p) == Ok::<GraphView, Error>(
            unpatch_spec(g, o, p)->Ok_0,
        ),
{
    let g1 = unpatch_spec(g, o, p)->Ok_0;
    assert(g1.contains_key(o.node_id_spec()));
    assert(g1.contains_key(p.node_id_spec()));
    let r2 = unpatch_spec(g1, o, p);
    assert(r2 is Ok);
    let g2 = r2->Ok_0;
    let sn = o.node_id_spec();
    let tn = p.node_id_spec();
    if g1[sn].outbound.contains_key(o.out_id_spec()) {
        assert(g1[sn].outbound[o.out_id_spec()].remove(p) =~= g1[sn].outbound[o.out_id_spec()]);
    }
    assert(g2 =~~= g1);
}

/// Removing a boundary singleton always fails with `ProtectedNode`; every
/// other identity is removable.
pub proof fn lemma_boundary_protected(g: GraphView, id: NodeId)
    ensures
        (id == NodeId::GraphIn || id == NodeId::GraphOut) <==> remove_spec(g, id) == Err::<
            GraphView,
            Error,
        >(Error::ProtectedNode(id)),
        (id != NodeId::GraphIn && id != NodeId::GraphOut) <==> remove_spec(g, id) is Ok,
{
}

/// Removal cleanup: after removing a node, it has no vertex, and no
/// remaining vertex's inbound or outbound table references it.
pub proof fn lemma_removal_cleanup(g: GraphView, x: NodeId)
    requires
        remove_spec(g, x) is Ok,
    ensures
        !remove_spec(g, x)->Ok_0.contains_key(x),
        forall|id: NodeId, k: InId|
            #![trigger remove_spec(g, x)->Ok_0[id].inbound[k]]
            remove_spec(g, x)->Ok_0.contains_key(id) && remove_spec(g, x)->Ok_0[id].inbound.contains_key(k)
                ==> remove_spec(g, x)->Ok_0[id].inbound[k].node_id_spec() != x,
        forall|id: NodeId, k: OutId, t: NodeInId|
            #![trigger remove_spec(g, x)->Ok_0[id].outbound[k].contains(t)]
            remove_spec(g, x)->Ok_0.contains_key(id) && remove_spec(g, x)->Ok_0[id].outbound.contains_key(k)
                && remove_spec(g, x)->Ok_0[id].outbound[k].contains(t) ==> t.node_id_spec() != x,
{
}

/// A constant's fold is total: whatever the state of the edges around it
/// and whatever output is requested, it yields its value and never fails.
pub proof fn lemma_constant_fold_total(
    g: GraphView,
    node_id: NodeId,
    out_id: OutId,
    fuel: nat,
    v: i64,
)
    requires
        g.contains_key(node_id),
        g[node_id].node == NodeView::Number(v),
    ensures
        eval_out_spec(g, node_id, out_id, fuel) == Ok::<crate::data::DataView, Error>(
            crate::data::DataView::Number(v),
        ),
{
}

/// Demand-driven evaluation at a pass-through node: folding one of its
/// outputs resolves exactly the like-named input; the state of any other
/// input, connected, broken or missing, plays no part in the outcome.
pub proof fn lemma_passthrough_demands_only_like_input(
    g: GraphView,
    node_id: NodeId,
    out_id: OutId,
    fuel: nat,
)
    requires
        g.contains_key(node_id),
        g[node_id].node == NodeView::GraphOut || g[node_id].node == NodeView::GraphIn,
    ensures
        eval_out_spec(g, node_id, out_id, fuel) == eval_in_spec(
            g,
            node_id,
            out_id.like_in_spec(),
            fuel,
        ),
{
}

} // verus!
