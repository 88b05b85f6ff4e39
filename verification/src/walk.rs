//! The traversal framework: the walk over a tree that calls the visitor back
//! at every node, parent before children and siblings in declaration order,
//! and keeps the record of the nodes entered.

use crate::node::{CompilationUnit, SyntaxNode};
use crate::trace::{
    extends, lemma_listing_same, lemma_listing_upto_same, lemma_walk_end_upto_stable, listing,
    listing_upto, preorder, preorder_upto, walk_end, walk_end_upto, Visit,
};
use crate::visit::{enter, never_skips, same_policy, Descent, Visitor};
use vstd::prelude::*;

verus! {

/// Enters `node` and, where its entry method says so, walks its children.
/// The entry of `node` is appended to `trace`, then those of the nodes below:
/// the record of the traversal of the tree under `node` with the visitor.
pub fn visit_node<V: Visitor>(visitor: &mut V, node: &SyntaxNode, trace: &mut Vec<Visit>)
    ensures
        final(trace)@ == old(trace)@ + listing(*old(visitor), *node),
        extends(final(trace)@, old(trace)@),
        walk_end(*node, final(trace)@, old(trace)@.len() as int) == final(trace)@.len(),
        same_policy(*old(visitor), *final(visitor)),
        never_skips(*old(visitor)) ==> final(trace)@ == old(trace)@ + preorder(*node),
    decreases node, 1int,
{
    let ghost trace0 = trace@;
    let descent = enter(visitor, node);
    let ghost entered = *visitor;
    trace.push(Visit { kind: node.kind, symbol: node.symbol, descent });
    match descent {
        Descent::Walk => {
            walk(visitor, node, trace);
            proof {
                lemma_listing_upto_same(
                    *old(visitor),
                    entered,
                    node.children@,
                    node.children@.len() as int,
                );
                assert(trace@ == trace0 + listing(*old(visitor), *node));
                if never_skips(*old(visitor)) {
                    assert(trace@ == trace0 + preorder(*node));
                }
            }
        },
        Descent::Skip => {
            assert(trace@ == trace0 + listing(*old(visitor), *node));
        },
    }
}

/// Walks the children of `node` in declaration order.
pub fn walk<V: Visitor>(visitor: &mut V, node: &SyntaxNode, trace: &mut Vec<Visit>)
    ensures
        final(trace)@ == old(trace)@ + listing_upto(
            *old(visitor),
            node.children@,
            node.children@.len() as int,
        ),
        extends(final(trace)@, old(trace)@),
        walk_end_upto(
            node.children@,
            node.children@.len() as int,
            final(trace)@,
            old(trace)@.len() as int,
        ) == final(trace)@.len(),
        same_policy(*old(visitor), *final(visitor)),
        never_skips(*old(visitor)) ==> final(trace)@ == old(trace)@ + preorder_upto(
            node.children@,
            node.children@.len() as int,
        ),
    decreases node, 0int,
{
    let ghost trace0 = trace@;
    let ghost visitor0 = *visitor;
    let mut i: usize = 0;
    while i < node.children.len()
        invariant
            i <= node.children@.len(),
            extends(trace@, trace0),
            walk_end_upto(node.children@, i as int, trace@, trace0.len() as int) == trace@.len(),
            same_policy(visitor0, *visitor),
            trace@ == trace0 + listing_upto(visitor0, node.children@, i as int),
            never_skips(visitor0) ==> trace@ == trace0 + preorder_upto(node.children@, i as int),
        decreases node.children@.len() - i,
    {
        let ghost before = trace@;
        let ghost current = *visitor;
        visit_node(visitor, &node.children[i], trace);
        proof {
            lemma_listing_same(visitor0, current, node.children@[i as int]);
            assert(trace@ == trace0 + listing_upto(visitor0, node.children@, i + 1));
            lemma_walk_end_upto_stable(
                node.children@,
                i as int,
                before,
                trace@,
                trace0.len() as int,
            );
            if never_skips(visitor0) {
                assert(trace@ == trace0 + preorder_upto(node.children@, i + 1));
            }
        }
        i += 1;
    }
}

/// Traverses the tree of `unit` from its root and returns the record.
pub fn walk_crate<V: Visitor>(visitor: &mut V, unit: &CompilationUnit) -> (trace: Vec<Visit>)
    ensures
        trace@ == listing(*old(visitor), unit.root()),
        walk_end(unit.root(), trace@, 0) == trace@.len(),
        same_policy(*old(visitor), *final(visitor)),
        never_skips(*old(visitor)) ==> trace@ == preorder(unit.root()),
{
    let mut trace: Vec<Visit> = Vec::new();
    visit_node(visitor, unit.root_node(), &mut trace);
    trace
}

} // verus!
