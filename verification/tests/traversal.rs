use rustc_plug_ast::collector::Collector;
use rustc_plug_ast::node::{CompilationUnit, NodeKind, SyntaxNode};
use rustc_plug_ast::trace::Visit;
use rustc_plug_ast::visit::{Descent, Visitor};
use rustc_plug_ast::walk::walk_crate;

fn node(kind: NodeKind, children: Vec<SyntaxNode>) -> SyntaxNode {
    SyntaxNode { kind, symbol: None, children }
}

fn leaf(kind: NodeKind, symbol: u32) -> SyntaxNode {
    SyntaxNode { kind, symbol: Some(symbol), children: Vec::new() }
}

fn walked(kind: NodeKind) -> Visit {
    Visit { kind, symbol: None, descent: Descent::Walk }
}

fn named(kind: NodeKind, symbol: u32) -> Visit {
    Visit { kind, symbol: Some(symbol), descent: Descent::Walk }
}

/// `fn add(a) { a }` and a second, empty function `sub`.
fn two_functions() -> CompilationUnit {
    let add = node(
        NodeKind::Item,
        vec![
            node(NodeKind::Vis, vec![]),
            leaf(NodeKind::Ident, 0),
            node(
                NodeKind::Fn,
                vec![
                    node(NodeKind::FnHeader, vec![]),
                    node(NodeKind::Param, vec![node(NodeKind::Pat, vec![leaf(NodeKind::Ident, 1)])]),
                    node(
                        NodeKind::Block,
                        vec![node(
                            NodeKind::Stmt,
                            vec![node(
                                NodeKind::Expr,
                                vec![node(
                                    NodeKind::Path,
                                    vec![node(NodeKind::PathSegment, vec![leaf(NodeKind::Ident, 1)])],
                                )],
                            )],
                        )],
                    ),
                ],
            ),
        ],
    );
    let sub = node(
        NodeKind::Item,
        vec![
            leaf(NodeKind::Ident, 2),
            node(NodeKind::Fn, vec![node(NodeKind::Block, vec![])]),
        ],
    );
    let symbols = vec!["add".to_string(), "a".to_string(), "sub".to_string()];
    CompilationUnit::new(symbols, node(NodeKind::Crate, vec![add, sub])).expect("well formed")
}

/// Overrides the entry method for items and does not call the walk helper
/// in it.
struct ItemSkipper;

impl Visitor for ItemSkipper {
    fn descend(&self, kind: NodeKind, _node: &SyntaxNode) -> Descent {
        if kind == NodeKind::Item {
            Descent::Skip
        } else {
            Descent::Walk
        }
    }

    fn visit_item(&mut self, _node: &SyntaxNode) -> Descent {
        Descent::Skip
    }
}

/// Overrides the entry method for expressions, counts, and calls the walk
/// helper.
struct CountingWalker {
    exprs: usize,
}

impl Visitor for CountingWalker {
    fn descend(&self, _kind: NodeKind, _node: &SyntaxNode) -> Descent {
        Descent::Walk
    }

    fn visit_expr(&mut self, node: &SyntaxNode) -> Descent {
        self.exprs += 1;
        self.descend(NodeKind::Expr, node)
    }
}

/// Overrides nothing; its walk helper stops at every expression.
struct ExprSkipper;

impl Visitor for ExprSkipper {
    fn descend(&self, kind: NodeKind, _node: &SyntaxNode) -> Descent {
        if kind == NodeKind::Expr {
            Descent::Skip
        } else {
            Descent::Walk
        }
    }
}

/// Overrides nothing; its walk helper stops at every block.
struct BlockSkipper;

impl Visitor for BlockSkipper {
    fn descend(&self, kind: NodeKind, _node: &SyntaxNode) -> Descent {
        if kind == NodeKind::Block {
            Descent::Skip
        } else {
            Descent::Walk
        }
    }
}

#[test]
fn collector_lists_every_node_in_pre_order() {
    let unit = two_functions();
    let trace = Collector::collect(&unit);
    let expected = vec![
        walked(NodeKind::Crate),
        walked(NodeKind::Item),
        walked(NodeKind::Vis),
        named(NodeKind::Ident, 0),
        walked(NodeKind::Fn),
        walked(NodeKind::FnHeader),
        walked(NodeKind::Param),
        walked(NodeKind::Pat),
        named(NodeKind::Ident, 1),
        walked(NodeKind::Block),
        walked(NodeKind::Stmt),
        walked(NodeKind::Expr),
        walked(NodeKind::Path),
        walked(NodeKind::PathSegment),
        named(NodeKind::Ident, 1),
        walked(NodeKind::Item),
        named(NodeKind::Ident, 2),
        walked(NodeKind::Fn),
        walked(NodeKind::Block),
    ];
    assert_eq!(trace, expected);
}

#[test]
fn collector_on_a_single_node() {
    let unit = CompilationUnit::new(Vec::new(), node(NodeKind::Crate, vec![])).expect("well formed");
    assert_eq!(Collector::collect(&unit), vec![walked(NodeKind::Crate)]);
}

#[test]
fn traversal_twice_gives_the_same_record() {
    let unit = two_functions();
    let first = Collector::collect(&unit);
    let second = Collector::collect(&unit);
    assert_eq!(first, second);
}

#[test]
fn override_that_walks_on_reaches_what_the_collector_reaches() {
    let unit = two_functions();
    let mut counting = CountingWalker { exprs: 0 };
    let trace = walk_crate(&mut counting, &unit);
    assert_eq!(trace, Collector::collect(&unit));
    assert_eq!(counting.exprs, 1);
}

#[test]
fn override_that_skips_leaves_the_subtree_out() {
    let unit = two_functions();
    let full = Collector::collect(&unit);
    let mut skipper = ItemSkipper;
    let trace = walk_crate(&mut skipper, &unit);
    let expected = vec![
        walked(NodeKind::Crate),
        Visit { kind: NodeKind::Item, symbol: None, descent: Descent::Skip },
        Visit { kind: NodeKind::Item, symbol: None, descent: Descent::Skip },
    ];
    assert_eq!(trace, expected);
    // the first item's tree has 14 nodes, the second's 4: all but the items
    // themselves are left out
    assert_eq!(full.len(), 19);
    assert_eq!(trace.len(), full.len() - (14 - 1) - (4 - 1));
}

#[test]
fn method_receiver_is_entered_as_an_expression() {
    let unit = CompilationUnit::new(
        Vec::new(),
        node(
            NodeKind::Crate,
            vec![node(
                NodeKind::Expr,
                vec![node(NodeKind::MethodReceiver, vec![node(NodeKind::Path, vec![])])],
            )],
        ),
    )
    .expect("well formed");
    let mut counting = CountingWalker { exprs: 0 };
    let trace = walk_crate(&mut counting, &unit);
    assert_eq!(counting.exprs, 2);
    assert_eq!(
        trace,
        vec![
            walked(NodeKind::Crate),
            walked(NodeKind::Expr),
            walked(NodeKind::MethodReceiver),
            walked(NodeKind::Path),
        ]
    );
}

#[test]
fn unit_refuses_a_symbol_outside_the_table() {
    let root = node(NodeKind::Crate, vec![leaf(NodeKind::Ident, 1)]);
    assert!(CompilationUnit::new(vec!["x".to_string()], root).is_none());
}

#[test]
fn unit_refuses_a_leaf_with_children() {
    let root = SyntaxNode {
        kind: NodeKind::Ident,
        symbol: Some(0),
        children: vec![node(NodeKind::Path, vec![])],
    };
    assert!(CompilationUnit::new(vec!["x".to_string()], root).is_none());
}

#[test]
fn unit_refuses_a_symbol_on_an_inner_node() {
    let root = SyntaxNode { kind: NodeKind::Item, symbol: Some(0), children: vec![] };
    assert!(CompilationUnit::new(vec!["x".to_string()], root).is_none());
}

#[test]
fn unit_refuses_a_leaf_without_a_symbol() {
    let root = node(NodeKind::Crate, vec![node(NodeKind::Literal, vec![])]);
    assert!(CompilationUnit::new(vec!["x".to_string()], root).is_none());
}

#[test]
fn absent_children_are_passed_over() {
    // a function without a body beside one with an empty body
    let unit = CompilationUnit::new(
        vec!["f".to_string(), "g".to_string()],
        node(
            NodeKind::Crate,
            vec![
                node(NodeKind::Item, vec![leaf(NodeKind::Ident, 0), node(NodeKind::Fn, vec![])]),
                node(
                    NodeKind::Item,
                    vec![
                        leaf(NodeKind::Ident, 1),
                        node(NodeKind::Fn, vec![node(NodeKind::Block, vec![])]),
                    ],
                ),
            ],
        ),
    )
    .expect("well formed");
    assert_eq!(
        Collector::collect(&unit),
        vec![
            walked(NodeKind::Crate),
            walked(NodeKind::Item),
            named(NodeKind::Ident, 0),
            walked(NodeKind::Fn),
            walked(NodeKind::Item),
            named(NodeKind::Ident, 1),
            walked(NodeKind::Fn),
            walked(NodeKind::Block),
        ]
    );
}

#[test]
fn macro_invocation_is_entered_as_written() {
    // `m!(..)`: the path of the macro is a child, its body is not expanded
    let unit = CompilationUnit::new(
        vec!["m".to_string()],
        node(
            NodeKind::Crate,
            vec![node(
                NodeKind::Item,
                vec![node(
                    NodeKind::MacCall,
                    vec![node(
                        NodeKind::Path,
                        vec![node(NodeKind::PathSegment, vec![leaf(NodeKind::Ident, 0)])],
                    )],
                )],
            )],
        ),
    )
    .expect("well formed");
    assert_eq!(
        Collector::collect(&unit),
        vec![
            walked(NodeKind::Crate),
            walked(NodeKind::Item),
            walked(NodeKind::MacCall),
            walked(NodeKind::Path),
            walked(NodeKind::PathSegment),
            named(NodeKind::Ident, 0),
        ]
    );
}

#[test]
fn shared_symbol_is_named_by_many_nodes() {
    let unit = two_functions();
    let uses = Collector::collect(&unit).iter().filter(|v| v.symbol == Some(1)).count();
    assert_eq!(uses, 2);
}

#[test]
fn inherited_entry_methods_answer_what_the_walk_helper_gives() {
    let unit = two_functions();
    let mut skipper = BlockSkipper;
    let trace = walk_crate(&mut skipper, &unit);
    let skipped = Visit { kind: NodeKind::Block, symbol: None, descent: Descent::Skip };
    let expected = vec![
        walked(NodeKind::Crate),
        walked(NodeKind::Item),
        walked(NodeKind::Vis),
        named(NodeKind::Ident, 0),
        walked(NodeKind::Fn),
        walked(NodeKind::FnHeader),
        walked(NodeKind::Param),
        walked(NodeKind::Pat),
        named(NodeKind::Ident, 1),
        skipped,
        walked(NodeKind::Item),
        named(NodeKind::Ident, 2),
        walked(NodeKind::Fn),
        skipped,
    ];
    assert_eq!(trace, expected);
}

#[test]
fn method_receiver_answers_as_an_expression_does() {
    let receiver = node(NodeKind::MethodReceiver, vec![node(NodeKind::Path, vec![])]);
    let unit = CompilationUnit::new(Vec::new(), node(NodeKind::Crate, vec![receiver]))
        .expect("well formed");
    let mut skipper = ExprSkipper;
    assert_eq!(
        walk_crate(&mut skipper, &unit),
        vec![
            walked(NodeKind::Crate),
            Visit { kind: NodeKind::MethodReceiver, symbol: None, descent: Descent::Skip },
        ]
    );
    assert_eq!(
        Collector::collect(&unit),
        vec![walked(NodeKind::Crate), walked(NodeKind::MethodReceiver), walked(NodeKind::Path)]
    );
}
