use rustc_plug_ast::collector::Collector;
use rustc_plug_ast::node::{CompilationUnit, NodeKind, SyntaxNode};
use rustc_plug_ast::plugin::{parse_arguments, BuildCommand, PrintAst, PrintAstArgs};
use rustc_plug_ast::report::{finish_line, plain_line, render};
use rustc_plug_ast::stage::{ContinuationDecision, PrintAstCallbacks, Stage, StageEvent};
use rustc_plug_ast::trace::Visit;
use rustc_plug_ast::visit::Descent;

fn node(kind: NodeKind, children: Vec<SyntaxNode>) -> SyntaxNode {
    SyntaxNode { kind, symbol: None, children }
}

fn leaf(kind: NodeKind, symbol: u32) -> SyntaxNode {
    SyntaxNode { kind, symbol: Some(symbol), children: Vec::new() }
}

fn function(name: u32, body: Vec<SyntaxNode>) -> SyntaxNode {
    node(
        NodeKind::Item,
        vec![
            node(NodeKind::Vis, vec![]),
            leaf(NodeKind::Ident, name),
            node(NodeKind::Fn, vec![node(NodeKind::Block, body)]),
        ],
    )
}

/// Stands in for the toolchain's parser on the unit of the basic workspace:
/// a function `add`, then a function `main`; with the feature `sub` on, a
/// statement of `main` that holds the literal "sub".
fn parse_basic(build: &BuildCommand) -> CompilationUnit {
    let mut sub = false;
    for pair in build.args.windows(2) {
        if pair[0] == "--features" && pair[1] == "sub" {
            sub = true;
        }
    }
    let mut symbols = vec!["add".to_string(), "main".to_string()];
    let mut body = Vec::new();
    if sub {
        symbols.push("sub".to_string());
        body.push(node(NodeKind::Stmt, vec![node(NodeKind::Expr, vec![leaf(NodeKind::Literal, 2)])]));
    }
    let root = node(NodeKind::Crate, vec![function(0, vec![]), function(1, body)]);
    CompilationUnit::new(symbols, root).expect("well formed")
}

/// Runs the plugin on the basic workspace as the build tool's front end
/// would, with `raw` as its command line, and returns what it reports.
fn run(raw: &[&str]) -> String {
    let raw: Vec<String> = raw.iter().map(|s| s.to_string()).collect();
    let plugin_args = PrintAst.args("target/plugin", raw).expect("accepted");
    let mut cargo = BuildCommand { program: "cargo".to_string(), args: vec!["check".to_string()] };
    PrintAst.modify_cargo(&mut cargo, &plugin_args.args);
    let unit = parse_basic(&cargo);
    let mut session = PrintAst.run(vec!["rustc".to_string()], plugin_args.args);
    assert_eq!(
        session.callbacks.dispatch(StageEvent::PostParse(&unit)),
        ContinuationDecision::Continue
    );
    assert_eq!(session.callbacks.dispatch(StageEvent::PostAnalysis), ContinuationDecision::Continue);
    let mut output = String::new();
    for line in &session.callbacks.output {
        output.push_str(line);
        output.push('\n');
    }
    output
}

#[test]
fn basic() {
    let output = run(&[]);
    assert!(output.contains(r#"ident: add#0"#));
}

#[test]
fn arg() {
    let output = run(&["--allcaps"]);
    assert!(output.contains(r#"IDENT: ADD#0"#));
}

#[test]
fn feature() {
    let output = run(&["--", "--features", "sub"]);
    assert!(output.contains(r#"symbol: "sub""#), "output:\n{output}");
}

#[test]
fn multi() {
    // the first unit is a dependency of the second
    let dependency = CompilationUnit::new(
        vec!["dep".to_string()],
        node(NodeKind::Crate, vec![function(0, vec![])]),
    )
    .expect("well formed");
    let dependent = CompilationUnit::new(
        vec!["dep".to_string(), "main".to_string()],
        node(
            NodeKind::Crate,
            vec![
                node(NodeKind::Item, vec![node(NodeKind::UseTree, vec![leaf(NodeKind::Ident, 0)])]),
                function(1, vec![]),
            ],
        ),
    )
    .expect("well formed");
    let mut artifacts = 0;
    for unit in [&dependency, &dependent] {
        let mut callbacks = PrintAstCallbacks::new(PrintAstArgs::default());
        if callbacks.after_crate_root_parsing(unit) == ContinuationDecision::Stop {
            break;
        }
        assert_eq!(callbacks.stage, Stage::Parsed);
        if callbacks.after_analysis() == ContinuationDecision::Stop {
            break;
        }
        assert_eq!(callbacks.stage, Stage::Analyzed);
        // the pipeline went on to the end: the unit's artifact is written
        artifacts += 1;
    }
    assert_eq!(artifacts, 2);
}

#[test]
fn without_the_feature_the_symbol_is_absent() {
    let output = run(&[]);
    assert!(!output.contains("sub"));
    assert_eq!(output, "ident: add#0\nident: main#0\n");
}

#[test]
fn add_is_reported_before_any_node_of_the_next_item() {
    let cargo = BuildCommand { program: "cargo".to_string(), args: vec![] };
    let unit = parse_basic(&cargo);
    let trace = Collector::collect(&unit);
    let add = trace
        .iter()
        .position(|v| v.kind == NodeKind::Ident && v.symbol == Some(0))
        .expect("add is entered");
    let items: Vec<usize> = trace
        .iter()
        .enumerate()
        .filter(|(_, v)| v.kind == NodeKind::Item)
        .map(|(i, _)| i)
        .collect();
    assert_eq!(items.len(), 2);
    assert!(items[0] < add);
    assert!(add < items[1]);
}

#[test]
fn allcaps_changes_the_case_and_nothing_else() {
    let plain = run(&[]);
    let upper = run(&["--allcaps"]);
    assert_eq!(upper, "IDENT: ADD#0\nIDENT: MAIN#0\n");
    assert_eq!(upper, plain.to_uppercase());
    assert_eq!(upper.to_lowercase(), plain);
}

#[test]
fn allcaps_with_the_feature() {
    let output = run(&["--allcaps", "--", "--features", "sub"]);
    assert_eq!(output, "IDENT: ADD#0\nIDENT: MAIN#0\nSYMBOL: \"SUB\"\n");
}

#[test]
fn lines_of_the_two_leaf_kinds() {
    assert_eq!(plain_line(NodeKind::Ident, &"add".to_string()), Some("ident: add#0".to_string()));
    assert_eq!(
        plain_line(NodeKind::Literal, &"sub".to_string()),
        Some("symbol: \"sub\"".to_string())
    );
    assert_eq!(plain_line(NodeKind::Ident, &String::new()), Some("ident: #0".to_string()));
    assert_eq!(plain_line(NodeKind::Item, &"add".to_string()), None);
    assert_eq!(plain_line(NodeKind::Lifetime, &"a".to_string()), None);
}

#[test]
fn case_of_a_line() {
    assert_eq!(finish_line("ident: add#0".to_string(), false), "ident: add#0");
    assert_eq!(finish_line("ident: add#0".to_string(), true), "IDENT: ADD#0");
    assert_eq!(finish_line("symbol: \"stra\u{df}e\"".to_string(), true), "SYMBOL: \"STRASSE\"");
    assert_eq!(finish_line(String::new(), true), "");
}

#[test]
fn entries_without_a_line_are_passed_over() {
    let cargo = BuildCommand { program: "cargo".to_string(), args: vec![] };
    let unit = parse_basic(&cargo);
    let trace = vec![
        Visit { kind: NodeKind::Item, symbol: None, descent: Descent::Walk },
        Visit { kind: NodeKind::Ident, symbol: Some(1), descent: Descent::Skip },
        Visit { kind: NodeKind::Ident, symbol: Some(7), descent: Descent::Walk },
        Visit { kind: NodeKind::Path, symbol: Some(0), descent: Descent::Walk },
        Visit { kind: NodeKind::Literal, symbol: Some(0), descent: Descent::Walk },
    ];
    assert_eq!(render(&unit, &trace, false), vec!["ident: main#0", "symbol: \"add\""]);
    assert_eq!(render(&unit, &Vec::new(), true), Vec::<String>::new());
}

#[test]
fn output_grows_with_each_unit_parsed() {
    let cargo = BuildCommand { program: "cargo".to_string(), args: vec![] };
    let unit = parse_basic(&cargo);
    let mut callbacks = PrintAstCallbacks::new(parse_arguments(Vec::new()).unwrap());
    assert_eq!(callbacks.after_crate_root_parsing(&unit), ContinuationDecision::Continue);
    assert_eq!(callbacks.after_analysis(), ContinuationDecision::Continue);
    assert_eq!(callbacks.output, vec!["ident: add#0", "ident: main#0"]);
    assert_eq!(callbacks.after_crate_root_parsing(&unit), ContinuationDecision::Continue);
    assert_eq!(callbacks.output.len(), 4);
    assert_eq!(callbacks.args, PrintAstArgs::default());
}

#[test]
fn dispatcher_never_stops() {
    let cargo = BuildCommand { program: "cargo".to_string(), args: vec![] };
    let unit = parse_basic(&cargo);
    for allcaps in [false, true] {
        let mut callbacks = PrintAstCallbacks::new(PrintAstArgs { allcaps, cargo_args: vec![] });
        for _ in 0..3 {
            assert_eq!(
                callbacks.dispatch(StageEvent::PostParse(&unit)),
                ContinuationDecision::Continue
            );
            assert_eq!(
                callbacks.dispatch(StageEvent::PostAnalysis),
                ContinuationDecision::Continue
            );
        }
    }
}
