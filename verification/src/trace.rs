//! The record of a traversal, and what it means for a record to be the walk
//! of a tree.

use crate::node::{NodeKind, SyntaxNode};
use crate::visit::{answering, same_policy, Descent, Visitor};
use vstd::prelude::*;

verus! {

/// One entry of a traversal's record: a node that was entered, and the answer
/// its entry method gave.
#[derive(Clone, Copy, Debug, PartialEq, Eq)]
pub struct Visit {
    pub kind: NodeKind,
    pub symbol: Option<u32>,
    pub descent: Descent,
}

/// The record entry of `node` entered with answer `descent`.
pub open spec fn entry(node: SyntaxNode, descent: Descent) -> Visit {
    Visit { kind: node.kind, symbol: node.symbol, descent }
}

/// The full pre-order listing of the tree under `node`: the node itself, then
/// the listing of each child in declaration order.
pub open spec fn preorder(node: SyntaxNode) -> Seq<Visit>
    decreases node,
{
    seq![entry(node, Descent::Walk)] + preorder_upto(node.children@, node.children@.len() as int)
}

/// The full pre-order listings of `nodes[..upto]`, one after the other.
pub open spec fn preorder_upto(nodes: Seq<SyntaxNode>, upto: int) -> Seq<Visit>
    decreases nodes, upto,
{
    if 0 < upto <= nodes.len() {
        preorder_upto(nodes, upto - 1) + preorder(nodes[upto - 1])
    } else {
        Seq::empty()
    }
}

/// The record of the traversal of the tree under `node` with `visitor`: the
/// node itself with the answer its entry method gives, then, where that is
/// `Walk`, the record of each child in declaration order.
pub open spec fn listing<V: Visitor>(visitor: V, node: SyntaxNode) -> Seq<Visit>
    decreases node,
{
    let descent = visitor.answer(answering(node.kind), node);
    seq![entry(node, descent)] + match descent {
        Descent::Walk => listing_upto(visitor, node.children@, node.children@.len() as int),
        Descent::Skip => Seq::empty(),
    }
}

/// The records of the traversals of `nodes[..upto]`, one after the other.
pub open spec fn listing_upto<V: Visitor>(visitor: V, nodes: Seq<SyntaxNode>, upto: int) -> Seq<
    Visit,
>
    decreases nodes, upto,
{
    if 0 < upto <= nodes.len() {
        listing_upto(visitor, nodes, upto - 1) + listing(visitor, nodes[upto - 1])
    } else {
        Seq::empty()
    }
}

/// Where the walk of `node` that `trace` records from position `at` ends,
/// going by the answers that `trace` itself records: after the node's own
/// entry where that says `Skip`, after the walks of all children where it
/// says `Walk`. It is -1 where `trace` holds no such walk at `at`.
pub open spec fn walk_end(node: SyntaxNode, trace: Seq<Visit>, at: int) -> int
    decreases node,
{
    if 0 <= at < trace.len() && trace[at].kind == node.kind && trace[at].symbol == node.symbol {
        match trace[at].descent {
            Descent::Walk => walk_end_upto(
                node.children@,
                node.children@.len() as int,
                trace,
                at + 1,
            ),
            Descent::Skip => at + 1,
        }
    } else {
        -1
    }
}

/// Where the walks of `nodes[..upto]` that `trace` records from position `at`
/// end, or -1.
pub open spec fn walk_end_upto(
    nodes: Seq<SyntaxNode>,
    upto: int,
    trace: Seq<Visit>,
    at: int,
) -> int
    decreases nodes, upto,
{
    if 0 < upto <= nodes.len() {
        let before = walk_end_upto(nodes, upto - 1, trace, at);
        if before < 0 {
            -1
        } else {
            walk_end(nodes[upto - 1], trace, before)
        }
    } else if at < 0 {
        -1
    } else {
        at
    }
}

/// Two visitors that answer the same everywhere give the same record.
pub proof fn lemma_listing_same<V: Visitor>(first: V, second: V, node: SyntaxNode)
    requires
        same_policy(first, second),
    ensures
        listing(second, node) == listing(first, node),
    decreases node,
{
    lemma_listing_upto_same(first, second, node.children@, node.children@.len() as int);
}

/// The same for the records of `nodes[..upto]`.
pub proof fn lemma_listing_upto_same<V: Visitor>(
    first: V,
    second: V,
    nodes: Seq<SyntaxNode>,
    upto: int,
)
    requires
        same_policy(first, second),
    ensures
        listing_upto(second, nodes, upto) == listing_upto(first, nodes, upto),
    decreases nodes, upto,
{
    if 0 < upto <= nodes.len() {
        lemma_listing_upto_same(first, second, nodes, upto - 1);
        lemma_listing_same(first, second, nodes[upto - 1]);
    }
}

/// `longer` begins with `shorter`.
pub open spec fn extends(longer: Seq<Visit>, shorter: Seq<Visit>) -> bool {
    &&& shorter.len() <= longer.len()
    &&& forall|i: int| 0 <= i < shorter.len() ==> longer[i] == shorter[i]
}

/// A walk that a record holds is still there, and ends at the same place,
/// when the record grows; and it lies within the record.
pub proof fn lemma_walk_end_stable(node: SyntaxNode, trace: Seq<Visit>, longer: Seq<Visit>, at: int)
    requires
        walk_end(node, trace, at) >= 0,
        extends(longer, trace),
    ensures
        walk_end(node, longer, at) == walk_end(node, trace, at),
        at < walk_end(node, trace, at) <= trace.len(),
    decreases node,
{
    if trace[at].descent is Walk {
        lemma_walk_end_upto_stable(
            node.children@,
            node.children@.len() as int,
            trace,
            longer,
            at + 1,
        );
    }
}

/// The same for the walks of `nodes[..upto]`.
pub proof fn lemma_walk_end_upto_stable(
    nodes: Seq<SyntaxNode>,
    upto: int,
    trace: Seq<Visit>,
    longer: Seq<Visit>,
    at: int,
)
    requires
        walk_end_upto(nodes, upto, trace, at) >= 0,
        extends(longer, trace),
        at <= trace.len(),
    ensures
        walk_end_upto(nodes, upto, longer, at) == walk_end_upto(nodes, upto, trace, at),
        at <= walk_end_upto(nodes, upto, trace, at) <= trace.len(),
    decreases nodes, upto,
{
    if 0 < upto <= nodes.len() {
        lemma_walk_end_upto_stable(nodes, upto - 1, trace, longer, at);
        lemma_walk_end_stable(
            nodes[upto - 1],
            trace,
            longer,
            walk_end_upto(nodes, upto - 1, trace, at),
        );
    }
}

} // verus!
