//! What holds of every traversal's record.

use crate::node::{node_count, node_count_upto, SyntaxNode};
use crate::visit::Descent;
use crate::trace::{
    entry, lemma_walk_end_stable, lemma_walk_end_upto_stable, listing, listing_upto, preorder,
    preorder_upto, walk_end, walk_end_upto, Visit,
};
use crate::visit::{answering, never_skips, Visitor};
use vstd::prelude::*;

verus! {

/// The full pre-order listing of a tree has one entry for each of its nodes.
pub proof fn lemma_preorder_len(node: SyntaxNode)
    ensures
        preorder(node).len() == node_count(node),
    decreases node,
{
    lemma_preorder_upto_len(node.children@, node.children@.len() as int);
}

/// The same for the listings of `nodes[..upto]`.
pub proof fn lemma_preorder_upto_len(nodes: Seq<SyntaxNode>, upto: int)
    ensures
        preorder_upto(nodes, upto).len() == node_count_upto(nodes, upto),
    decreases nodes, upto,
{
    if 0 < upto <= nodes.len() {
        lemma_preorder_upto_len(nodes, upto - 1);
        lemma_preorder_len(nodes[upto - 1]);
    }
}

/// A visitor whose entry methods all walk on, whatever else they do, has the
/// record of the collector: the full pre-order listing.
pub proof fn lemma_walking_visitor_reaches_all<V: Visitor>(visitor: V, node: SyntaxNode)
    requires
        never_skips(visitor),
    ensures
        listing(visitor, node) == preorder(node),
    decreases node,
{
    assert(visitor.answer(answering(node.kind), node) == Descent::Walk);
    lemma_walking_visitor_reaches_all_upto(visitor, node.children@, node.children@.len() as int);
}

/// The same for the records of `nodes[..upto]`.
pub proof fn lemma_walking_visitor_reaches_all_upto<V: Visitor>(
    visitor: V,
    nodes: Seq<SyntaxNode>,
    upto: int,
)
    requires
        never_skips(visitor),
    ensures
        listing_upto(visitor, nodes, upto) == preorder_upto(nodes, upto),
    decreases nodes, upto,
{
    if 0 < upto <= nodes.len() {
        lemma_walking_visitor_reaches_all_upto(visitor, nodes, upto - 1);
        lemma_walking_visitor_reaches_all(visitor, nodes[upto - 1]);
    }
}

/// Where an entry method answers `Skip`, the record holds the node and
/// nothing of the tree below it.
pub proof fn lemma_skipping_visitor_drops_subtree<V: Visitor>(visitor: V, node: SyntaxNode)
    requires
        visitor.answer(answering(node.kind), node) == Descent::Skip,
    ensures
        listing(visitor, node) == seq![entry(node, Descent::Skip)],
{
}

/// No entry of `trace[from..to]` records the answer `Skip`.
pub open spec fn no_skip(trace: Seq<Visit>, from: int, to: int) -> bool {
    forall|i: int| from <= i < to ==> (#[trigger] trace[i]).descent is Walk
}

/// A walk in which every entry method walked on is the full pre-order listing
/// of the tree, whatever visitor made it: it reaches what the collector
/// reaches.
pub proof fn lemma_walk_without_skip(node: SyntaxNode, trace: Seq<Visit>, at: int)
    requires
        walk_end(node, trace, at) >= 0,
        no_skip(trace, at, walk_end(node, trace, at)),
    ensures
        trace.subrange(at, walk_end(node, trace, at)) == preorder(node),
    decreases node,
{
    let end = walk_end(node, trace, at);
    lemma_walk_end_stable(node, trace, trace, at);
    assert(trace[at].descent is Walk);
    lemma_walk_without_skip_upto(node.children@, node.children@.len() as int, trace, at + 1);
    assert(trace.subrange(at, end) =~= seq![trace[at]] + trace.subrange(at + 1, end));
}

/// The same for the walks of `nodes[..upto]`.
pub proof fn lemma_walk_without_skip_upto(
    nodes: Seq<SyntaxNode>,
    upto: int,
    trace: Seq<Visit>,
    at: int,
)
    requires
        walk_end_upto(nodes, upto, trace, at) >= 0,
        0 <= at <= trace.len(),
        no_skip(trace, at, walk_end_upto(nodes, upto, trace, at)),
    ensures
        trace.subrange(at, walk_end_upto(nodes, upto, trace, at)) == preorder_upto(nodes, upto),
    decreases nodes, upto,
{
    if 0 < upto <= nodes.len() {
        let mid = walk_end_upto(nodes, upto - 1, trace, at);
        let end = walk_end(nodes[upto - 1], trace, mid);
        lemma_walk_end_upto_stable(nodes, upto - 1, trace, trace, at);
        lemma_walk_end_stable(nodes[upto - 1], trace, trace, mid);
        lemma_walk_without_skip_upto(nodes, upto - 1, trace, at);
        lemma_walk_without_skip(nodes[upto - 1], trace, mid);
        assert(trace.subrange(at, end) =~= trace.subrange(at, mid) + trace.subrange(mid, end));
    } else {
        assert(trace.subrange(at, at) =~= Seq::<Visit>::empty());
    }
}

/// The number of nodes of the tree under `node` that the walk recorded in
/// `trace` at `at` leaves out: where the node's entry says `Skip`, every node
/// below it; else what the walks of its children leave out.
pub open spec fn left_out(node: SyntaxNode, trace: Seq<Visit>, at: int) -> int
    decreases node,
{
    if walk_end(node, trace, at) < 0 {
        0
    } else {
        match trace[at].descent {
            Descent::Skip => node_count(node) - 1,
            Descent::Walk => left_out_upto(
                node.children@,
                node.children@.len() as int,
                trace,
                at + 1,
            ),
        }
    }
}

/// What the walks of `nodes[..upto]` recorded in `trace` from `at` leave out.
pub open spec fn left_out_upto(nodes: Seq<SyntaxNode>, upto: int, trace: Seq<Visit>, at: int) -> int
    decreases nodes, upto,
{
    if 0 < upto <= nodes.len() {
        left_out_upto(nodes, upto - 1, trace, at) + left_out(
            nodes[upto - 1],
            trace,
            walk_end_upto(nodes, upto - 1, trace, at),
        )
    } else {
        0
    }
}

/// A walk enters every node of the tree but those it leaves out: an entry
/// method that answers `Skip` takes the node count of the tree below its node
/// off the record, and nothing else does.
pub proof fn lemma_skip_leaves_subtree_out(node: SyntaxNode, trace: Seq<Visit>, at: int)
    requires
        walk_end(node, trace, at) >= 0,
    ensures
        walk_end(node, trace, at) - at == node_count(node) - left_out(node, trace, at),
        left_out(node, trace, at) >= 0,
        trace[at].descent is Skip ==> walk_end(node, trace, at) - at == 1,
    decreases node,
{
    if trace[at].descent is Walk {
        lemma_skip_leaves_subtree_out_upto(
            node.children@,
            node.children@.len() as int,
            trace,
            at + 1,
        );
    }
}

/// The same for the walks of `nodes[..upto]`.
pub proof fn lemma_skip_leaves_subtree_out_upto(
    nodes: Seq<SyntaxNode>,
    upto: int,
    trace: Seq<Visit>,
    at: int,
)
    requires
        walk_end_upto(nodes, upto, trace, at) >= 0,
    ensures
        walk_end_upto(nodes, upto, trace, at) - at == node_count_upto(nodes, upto) - left_out_upto(
            nodes,
            upto,
            trace,
            at,
        ),
        left_out_upto(nodes, upto, trace, at) >= 0,
    decreases nodes, upto,
{
    if 0 < upto <= nodes.len() {
        lemma_skip_leaves_subtree_out_upto(nodes, upto - 1, trace, at);
        lemma_skip_leaves_subtree_out(
            nodes[upto - 1],
            trace,
            walk_end_upto(nodes, upto - 1, trace, at),
        );
    }
}

/// Two traversals of one tree in which every entry method walked on have the
/// same record.
pub proof fn lemma_traversal_repeatable(node: SyntaxNode, first: Seq<Visit>, second: Seq<Visit>)
    requires
        walk_end(node, first, 0) == first.len(),
        walk_end(node, second, 0) == second.len(),
        no_skip(first, 0, first.len() as int),
        no_skip(second, 0, second.len() as int),
    ensures
        first == second,
{
    lemma_walk_without_skip(node, first, 0);
    lemma_walk_without_skip(node, second, 0);
    assert(first.subrange(0, first.len() as int) == first);
    assert(second.subrange(0, second.len() as int) == second);
}

} // verus!
