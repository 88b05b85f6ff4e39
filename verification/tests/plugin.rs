use rustc_plug_ast::plugin::{
    parse_arguments, select_units, ArgumentError, BuildCommand, CrateFilter, PrintAst,
    PrintAstArgs,
};
use rustc_plug_ast::stage::Stage;
use rustc_plug_ast::{test1, test2, test3};

fn strings(items: &[&str]) -> Vec<String> {
    items.iter().map(|s| s.to_string()).collect()
}

#[test]
fn identity_is_stable() {
    assert_eq!(PrintAst.version(), "0.1.0");
    assert_eq!(PrintAst.driver_name(), "rustc-plug-ast-driver");
    assert_eq!(PrintAst.version(), PrintAst.version());
}

#[test]
fn empty_command_line() {
    assert_eq!(parse_arguments(Vec::new()), Ok(PrintAstArgs { allcaps: false, cargo_args: vec![] }));
    assert_eq!(PrintAstArgs::default(), PrintAstArgs { allcaps: false, cargo_args: vec![] });
}

#[test]
fn flag_alone() {
    assert_eq!(
        parse_arguments(strings(&["--allcaps"])),
        Ok(PrintAstArgs { allcaps: true, cargo_args: vec![] })
    );
}

#[test]
fn tail_is_kept_as_it_is() {
    let parsed = parse_arguments(strings(&["--", "--features", "sub"])).unwrap();
    assert!(!parsed.allcaps);
    assert_eq!(parsed.cargo_args, strings(&["--features", "sub"]));
}

#[test]
fn empty_tail() {
    assert_eq!(
        parse_arguments(strings(&["--allcaps", "--"])),
        Ok(PrintAstArgs { allcaps: true, cargo_args: vec![] })
    );
}

#[test]
fn tail_is_not_interpreted() {
    let tail = ["--allcaps", "--", "--allcaps=3", "", "caf\u{e9} \n", "--nope"];
    let mut raw = strings(&["--"]);
    raw.extend(strings(&tail));
    let parsed = parse_arguments(raw).unwrap();
    assert!(!parsed.allcaps);
    assert_eq!(parsed.cargo_args, strings(&tail));
}

#[test]
fn unknown_argument_is_refused() {
    assert_eq!(
        parse_arguments(strings(&["--allcaps", "--verbose", "--", "x"])),
        Err(ArgumentError::UnknownArgument { position: 1 })
    );
    assert_eq!(
        parse_arguments(strings(&["file.rs"])),
        Err(ArgumentError::UnknownArgument { position: 0 })
    );
    assert_eq!(
        parse_arguments(strings(&["--allcap"])),
        Err(ArgumentError::UnknownArgument { position: 0 })
    );
}

#[test]
fn value_on_the_flag_is_refused() {
    assert_eq!(
        parse_arguments(strings(&["--allcaps=yes", "--"])),
        Err(ArgumentError::InvalidValue { position: 0 })
    );
    assert_eq!(
        parse_arguments(strings(&["--allcaps="])),
        Err(ArgumentError::InvalidValue { position: 0 })
    );
}

#[test]
fn repeated_flag_is_refused() {
    assert_eq!(
        parse_arguments(strings(&["--allcaps", "--allcaps"])),
        Err(ArgumentError::Repeated { position: 1 })
    );
}

#[test]
fn first_fault_is_reported() {
    assert_eq!(
        parse_arguments(strings(&["--allcaps=1", "--nope", "--allcaps", "--allcaps"])),
        Err(ArgumentError::InvalidValue { position: 0 })
    );
    assert_eq!(
        parse_arguments(strings(&["--allcaps", "--allcaps", "--nope"])),
        Err(ArgumentError::Repeated { position: 1 })
    );
}

#[test]
fn all_units_are_selected() {
    assert_eq!(select_units("target/plugin"), CrateFilter::AllCrates);
    assert_eq!(select_units(""), CrateFilter::AllCrates);
    let parsed = PrintAst.args("target/plugin", strings(&["--allcaps", "--", "-q"])).unwrap();
    assert_eq!(parsed.filter, CrateFilter::AllCrates);
    assert_eq!(parsed.args, PrintAstArgs { allcaps: true, cargo_args: strings(&["-q"]) });
    assert_eq!(
        PrintAst.args("target/plugin", strings(&["-q"])),
        Err(ArgumentError::UnknownArgument { position: 0 })
    );
}

#[test]
fn tail_is_added_to_the_build_command() {
    let args = parse_arguments(strings(&["--", "--features", "sub"])).unwrap();
    let mut cargo = BuildCommand { program: "cargo".to_string(), args: strings(&["check", "-v"]) };
    PrintAst.modify_cargo(&mut cargo, &args);
    assert_eq!(cargo.program, "cargo");
    assert_eq!(cargo.args, strings(&["check", "-v", "--features", "sub"]));
}

#[test]
fn empty_tail_leaves_the_build_command_alone() {
    let args = parse_arguments(strings(&["--allcaps"])).unwrap();
    let mut cargo = BuildCommand { program: "cargo".to_string(), args: strings(&["check"]) };
    PrintAst.modify_cargo(&mut cargo, &args);
    assert_eq!(cargo, BuildCommand { program: "cargo".to_string(), args: strings(&["check"]) });
}

#[test]
fn forwarded_tail_is_the_tail_supplied() {
    let tails: Vec<Vec<String>> = vec![
        vec![],
        strings(&["--"]),
        strings(&["--features", "a b", "--", "--allcaps"]),
        strings(&["\u{0}", "\u{1f980}", ""]),
    ];
    for own in [strings(&[]), strings(&["--allcaps"])] {
        for tail in &tails {
            let mut raw = own.clone();
            raw.push("--".to_string());
            raw.extend(tail.iter().cloned());
            let args = parse_arguments(raw).unwrap();
            let mut cargo = BuildCommand { program: "cargo".to_string(), args: vec![] };
            PrintAst.modify_cargo(&mut cargo, &args);
            assert_eq!(&cargo.args, tail);
            for (sent, given) in cargo.args.iter().zip(tail.iter()) {
                assert_eq!(sent.as_bytes(), given.as_bytes());
            }
        }
    }
}

#[test]
fn session_starts_before_the_first_checkpoint() {
    let args = PrintAstArgs { allcaps: true, cargo_args: strings(&["-q"]) };
    let session = PrintAst.run(strings(&["rustc", "src/lib.rs"]), args.clone());
    assert_eq!(session.compiler_args, strings(&["rustc", "src/lib.rs"]));
    assert_eq!(session.callbacks.args, args);
    assert_eq!(session.callbacks.stage, Stage::Start);
    assert!(session.callbacks.output.is_empty());
}

#[test]
fn feature_items_are_there() {
    test1();
    test2();
    test3();
}
