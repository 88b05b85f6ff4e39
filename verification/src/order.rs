//! Where each node of a tree stands in the tree's pre-order listing.
//!
//! A node is named by its path from the root: the index of the child to take
//! at each step down. The listing holds every node of the tree at one
//! position of its own, a parent before its children and the whole tree of a
//! child before the next child.

use crate::laws::lemma_preorder_len;
use crate::node::{node_count, SyntaxNode};
use crate::trace::{entry, preorder, preorder_upto};
use crate::visit::Descent;
use vstd::prelude::*;

verus! {

/// The node that `path` leads to from `node`; `None` where a step of the
/// path names no child.
pub open spec fn node_at(node: SyntaxNode, path: Seq<int>) -> Option<SyntaxNode>
    decreases path.len(),
{
    if path.len() == 0 {
        Some(node)
    } else if 0 <= path[0] < node.children@.len() {
        node_at(node.children@[path[0]], path.drop_first())
    } else {
        None
    }
}

/// The position, in the pre-order listing of the tree under `node`, of the
/// node that `path` leads to.
pub open spec fn position(node: SyntaxNode, path: Seq<int>) -> int
    decreases path.len(),
{
    if path.len() == 0 {
        0
    } else {
        1 + preorder_upto(node.children@, path[0]).len() + position(
            node.children@[path[0]],
            path.drop_first(),
        )
    }
}

/// Some node of the tree under `node` stands at position `k` of the listing.
pub open spec fn position_has_node(node: SyntaxNode, k: int) -> bool {
    exists|path: Seq<int>| #[trigger] node_at(node, path) is Some && position(node, path) == k
}

/// The listings of the first `lo` nodes open the listing of the first `hi`.
pub proof fn lemma_preorder_upto_grows(nodes: Seq<SyntaxNode>, lo: int, hi: int)
    requires
        0 <= lo <= hi <= nodes.len(),
    ensures
        preorder_upto(nodes, lo).len() <= preorder_upto(nodes, hi).len(),
        preorder_upto(nodes, hi).subrange(0, preorder_upto(nodes, lo).len() as int)
            == preorder_upto(nodes, lo),
    decreases hi - lo,
{
    if lo < hi {
        lemma_preorder_upto_grows(nodes, lo, hi - 1);
        assert(preorder_upto(nodes, hi).subrange(0, preorder_upto(nodes, lo).len() as int)
            =~= preorder_upto(nodes, hi - 1).subrange(0, preorder_upto(nodes, lo).len() as int));
    } else {
        assert(preorder_upto(nodes, hi).subrange(0, preorder_upto(nodes, lo).len() as int)
            =~= preorder_upto(nodes, lo));
    }
}

/// Every node of the tree is in the listing, at its position.
pub proof fn lemma_node_is_listed(node: SyntaxNode, path: Seq<int>)
    requires
        node_at(node, path) is Some,
    ensures
        0 <= position(node, path) < preorder(node).len(),
        preorder(node)[position(node, path)] == entry(node_at(node, path).unwrap(), Descent::Walk),
    decreases path.len(),
{
    if path.len() > 0 {
        let children = node.children@;
        let i = path[0];
        let child = children[i];
        let rest = path.drop_first();
        lemma_node_is_listed(child, rest);
        lemma_preorder_upto_grows(children, i + 1, children.len() as int);
        let all = preorder_upto(children, children.len() as int);
        let off = preorder_upto(children, i).len() as int;
        let k = position(child, rest);
        assert(preorder_upto(children, i + 1)[off + k] == preorder(child)[k]);
        assert(all.subrange(0, preorder_upto(children, i + 1).len() as int)[off + k] == all[off
            + k]);
        assert(preorder(node)[1 + off + k] == all[off + k]);
    }
}

/// The position of a node below another is the position of that other plus
/// the node's position in the tree under it.
pub proof fn lemma_position_below(node: SyntaxNode, path: Seq<int>, below: Seq<int>)
    requires
        node_at(node, path) is Some,
    ensures
        node_at(node, path + below) == node_at(node_at(node, path).unwrap(), below),
        position(node, path + below) == position(node, path) + position(
            node_at(node, path).unwrap(),
            below,
        ),
    decreases path.len(),
{
    if path.len() == 0 {
        assert(path + below =~= below);
    } else {
        assert((path + below).drop_first() =~= path.drop_first() + below);
        assert((path + below)[0] == path[0]);
        lemma_position_below(node.children@[path[0]], path.drop_first(), below);
    }
}

/// A parent stands before each of its children.
pub proof fn lemma_parent_before_child(node: SyntaxNode, path: Seq<int>, child: int)
    requires
        node_at(node, path) is Some,
        0 <= child < node_at(node, path).unwrap().children@.len(),
    ensures
        node_at(node, path.push(child)) == Some(
            node_at(node, path).unwrap().children@[child],
        ),
        position(node, path) < position(node, path.push(child)),
{
    let parent = node_at(node, path).unwrap();
    let step = seq![child];
    assert(path.push(child) =~= path + step);
    lemma_position_below(node, path, step);
    assert(step.drop_first() =~= Seq::<int>::empty());
    assert(node_at(parent.children@[child], step.drop_first()) == Some(parent.children@[child]));
    assert(position(parent.children@[child], step.drop_first()) == 0);
    assert(position(parent, step) == 1 + preorder_upto(parent.children@, child).len());
}

/// The whole tree of a child stands before the next children.
pub proof fn lemma_siblings_in_order(
    node: SyntaxNode,
    path: Seq<int>,
    earlier: int,
    later: int,
    below: Seq<int>,
)
    requires
        node_at(node, path) is Some,
        0 <= earlier < later < node_at(node, path).unwrap().children@.len(),
        node_at(node_at(node, path).unwrap().children@[earlier], below) is Some,
    ensures
        position(node, path.push(earlier) + below) < position(node, path.push(later)),
{
    let parent = node_at(node, path).unwrap();
    let children = parent.children@;
    let down = seq![earlier] + below;
    assert(path.push(earlier) + below =~= path + down);
    lemma_position_below(node, path, down);
    assert(down.drop_first() =~= below);
    assert(position(parent, down) == 1 + preorder_upto(children, earlier).len() + position(
        children[earlier],
        below,
    ));
    lemma_node_is_listed(children[earlier], below);
    lemma_preorder_upto_grows(children, earlier + 1, later);
    lemma_parent_before_child(node, path, later);
    let step = seq![later];
    assert(path.push(later) =~= path + step);
    lemma_position_below(node, path, step);
    assert(step.drop_first() =~= Seq::<int>::empty());
    assert(position(children[later], step.drop_first()) == 0);
    assert(position(parent, step) == 1 + preorder_upto(children, later).len());
}

/// Two nodes of the tree stand at two positions: no node is listed twice.
pub proof fn lemma_listed_once(node: SyntaxNode, first: Seq<int>, second: Seq<int>)
    requires
        node_at(node, first) is Some,
        node_at(node, second) is Some,
        first != second,
    ensures
        position(node, first) != position(node, second),
    decreases first.len(),
{
    let children = node.children@;
    if first.len() == 0 {
        if second.len() == 0 {
            assert(first =~= second);
        } else {
            lemma_node_is_listed(children[second[0]], second.drop_first());
        }
    } else if second.len() == 0 {
        lemma_node_is_listed(children[first[0]], first.drop_first());
    } else {
        let i = first[0];
        let j = second[0];
        lemma_node_is_listed(children[i], first.drop_first());
        lemma_node_is_listed(children[j], second.drop_first());
        if i == j {
            if first.drop_first() == second.drop_first() {
                assert(first.len() == second.len()) by {
                    assert(first.drop_first().len() == first.len() - 1);
                    assert(second.drop_first().len() == second.len() - 1);
                }
                assert forall|k: int| 0 <= k < first.len() implies first[k] == second[k] by {
                    if k > 0 {
                        assert(first[k] == first.drop_first()[k - 1]);
                        assert(second[k] == second.drop_first()[k - 1]);
                    }
                }
                assert(first =~= second);
            }
            lemma_listed_once(children[i], first.drop_first(), second.drop_first());
        } else if i < j {
            lemma_preorder_upto_grows(children, i + 1, j);
        } else {
            lemma_preorder_upto_grows(children, j + 1, i);
        }
    }
}

/// Every position of the listing is the position of a node of the tree.
pub proof fn lemma_position_has_node(node: SyntaxNode, k: int) -> (path: Seq<int>)
    requires
        0 <= k < preorder(node).len(),
    ensures
        node_at(node, path) is Some,
        position(node, path) == k,
    decreases node,
{
    if k == 0 {
        Seq::empty()
    } else {
        let found = lemma_position_has_node_upto(
            node.children@,
            node.children@.len() as int,
            k - 1,
        );
        let path = seq![found.0] + found.1;
        assert(path.drop_first() =~= found.1);
        path
    }
}

/// The same for the listings of `nodes[..upto]`: the child and the path below
/// it.
pub proof fn lemma_position_has_node_upto(nodes: Seq<SyntaxNode>, upto: int, k: int) -> (found: (
    int,
    Seq<int>,
))
    requires
        0 <= upto <= nodes.len(),
        0 <= k < preorder_upto(nodes, upto).len(),
    ensures
        0 <= found.0 < upto,
        node_at(nodes[found.0], found.1) is Some,
        preorder_upto(nodes, found.0).len() + position(nodes[found.0], found.1) == k,
    decreases nodes, upto,
{
    let before = preorder_upto(nodes, upto - 1).len() as int;
    if k < before {
        lemma_position_has_node_upto(nodes, upto - 1, k)
    } else {
        let rest = lemma_position_has_node(nodes[upto - 1], k - before);
        (upto - 1, rest)
    }
}

/// The pre-order listing of a tree, which is the record of the collector's
/// traversal, holds every node of the tree exactly once: it has as many
/// entries as the tree has nodes, every node is at its position, no two
/// nodes share a position, and every position is that of a node.
pub proof fn lemma_totality(node: SyntaxNode)
    ensures
        preorder(node).len() == node_count(node),
        forall|path: Seq<int>| #[trigger]
            node_at(node, path) is Some ==> 0 <= position(node, path) < preorder(node).len()
                && preorder(node)[position(node, path)] == entry(
                node_at(node, path).unwrap(),
                Descent::Walk,
            ),
        forall|first: Seq<int>, second: Seq<int>|
            #![trigger node_at(node, first), node_at(node, second)]
            node_at(node, first) is Some && node_at(node, second) is Some && first != second
                ==> position(node, first) != position(node, second),
        forall|k: int| 0 <= k < preorder(node).len() ==> #[trigger] position_has_node(node, k),
{
    lemma_preorder_len(node);
    assert forall|path: Seq<int>| #[trigger] node_at(node, path) is Some implies 0 <= position(
        node,
        path,
    ) < preorder(node).len() && preorder(node)[position(node, path)] == entry(
        node_at(node, path).unwrap(),
        Descent::Walk,
    ) by {
        lemma_node_is_listed(node, path);
    }
    assert forall|first: Seq<int>, second: Seq<int>|
        #![trigger node_at(node, first), node_at(node, second)]
        node_at(node, first) is Some && node_at(node, second) is Some && first
            != second implies position(node, first) != position(node, second) by {
        lemma_listed_once(node, first, second);
    }
    assert forall|k: int| 0 <= k < preorder(node).len() implies #[trigger] position_has_node(
        node,
        k,
    ) by {
        let path = lemma_position_has_node(node, k);
        assert(node_at(node, path) is Some && position(node, path) == k);
    }
}

} // verus!
