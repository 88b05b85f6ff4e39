//! The plugin's side of the protocol with the build tool: its identity, the
//! grammar of its command line, the choice of the units it runs on, and the
//! hand-over of the pass-through arguments to the build command.

use crate::stage::PrintAstCallbacks;
use crate::text::{append_all, lemma_texts_push, texts};
use vstd::prelude::*;

verus! {

/// The token that ends the plugin's own arguments. What follows it is passed
/// through to the build tool.
pub open spec fn separator() -> Seq<char> {
    "--"@
}

/// The flag that asks for upper-case output.
pub open spec fn allcaps_flag() -> Seq<char> {
    "--allcaps"@
}

/// The flag that asks for upper-case output, with the sign that would attach
/// a value to it.
pub open spec fn allcaps_assignment() -> Seq<char> {
    "--allcaps="@
}

/// `text` begins with `prefix`.
pub open spec fn begins_with(text: Seq<char>, prefix: Seq<char>) -> bool {
    prefix.len() <= text.len() && text.subrange(0, prefix.len() as int) == prefix
}

/// The position of the first separator in `raw`; the length of `raw` where
/// it holds none.
pub open spec fn split_point(raw: Seq<Seq<char>>) -> int
    decreases raw.len(),
{
    if raw.len() == 0 || raw.first() == separator() {
        0
    } else {
        1 + split_point(raw.drop_first())
    }
}

/// The plugin's own arguments: those before the first separator.
pub open spec fn own_part(raw: Seq<Seq<char>>) -> Seq<Seq<char>> {
    raw.take(split_point(raw))
}

/// The pass-through tail: the arguments after the first separator.
pub open spec fn pass_through(raw: Seq<Seq<char>>) -> Seq<Seq<char>> {
    if split_point(raw) < raw.len() {
        raw.skip(split_point(raw) + 1)
    } else {
        Seq::empty()
    }
}

/// Why a command line is refused.
#[derive(Clone, Copy, Debug, PartialEq, Eq, Structural)]
pub enum ArgumentError {
    /// The argument at `position` stands before the separator and is no flag
    /// of the plugin.
    UnknownArgument { position: usize },
    /// The flag at `position` is given a value, and takes none.
    InvalidValue { position: usize },
    /// The flag at `position` was given before.
    Repeated { position: usize },
}

/// What is wrong with the argument at `position` of the plugin's own
/// arguments `own`, if anything.
pub open spec fn fault_at(own: Seq<Seq<char>>, position: int) -> Option<ArgumentError> {
    if own[position] == allcaps_flag() {
        if own.take(position).contains(allcaps_flag()) {
            Some(ArgumentError::Repeated { position: position as usize })
        } else {
            None
        }
    } else if begins_with(own[position], allcaps_assignment()) {
        Some(ArgumentError::InvalidValue { position: position as usize })
    } else {
        Some(ArgumentError::UnknownArgument { position: position as usize })
    }
}

/// The first fault among the first `upto` of the plugin's own arguments.
pub open spec fn first_fault(own: Seq<Seq<char>>, upto: int) -> Option<ArgumentError>
    decreases upto,
{
    if 0 < upto <= own.len() {
        match first_fault(own, upto - 1) {
            Some(fault) => Some(fault),
            None => fault_at(own, upto - 1),
        }
    } else {
        None
    }
}

/// The fault for which the command line `raw` is refused; `None` where it is
/// accepted.
pub open spec fn refusal(raw: Seq<Seq<char>>) -> Option<ArgumentError> {
    first_fault(own_part(raw), own_part(raw).len() as int)
}

/// The plugin's configuration, as its command line gives it.
#[derive(Debug, PartialEq, Eq)]
pub struct PrintAstArgs {
    /// Whether the output is upper-cased.
    pub allcaps: bool,
    /// The pass-through tail, which the plugin does not interpret.
    pub cargo_args: Vec<String>,
}

impl PrintAstArgs {
    /// These are the arguments that the accepted command line `raw` gives.
    pub open spec fn read_from(self, raw: Seq<Seq<char>>) -> bool {
        &&& self.allcaps == own_part(raw).contains(allcaps_flag())
        &&& texts(self.cargo_args@) == pass_through(raw)
    }
}

impl Clone for PrintAstArgs {
    fn clone(&self) -> (copy: PrintAstArgs)
        ensures
            copy.allcaps == self.allcaps,
            texts(copy.cargo_args@) == texts(self.cargo_args@),
    {
        let mut cargo_args: Vec<String> = Vec::new();
        assert(texts(cargo_args@) == Seq::<Seq<char>>::empty());
        append_all(&mut cargo_args, &self.cargo_args);
        PrintAstArgs { allcaps: self.allcaps, cargo_args }
    }
}

impl Default for PrintAstArgs {
    fn default() -> (args: PrintAstArgs)
        ensures
            !args.allcaps,
            args.cargo_args@.len() == 0,
    {
        PrintAstArgs { allcaps: false, cargo_args: Vec::new() }
    }
}

/// Whether `arg` is the flag with a value attached.
fn is_assignment(arg: &String) -> (b: bool)
    ensures
        b == begins_with(arg@, allcaps_assignment()),
{
    proof {
        reveal_strlit("--allcaps=");
    }
    let text = arg.as_str();
    if text.unicode_len() < 10 {
        return false;
    }
    let start = String::from_str(text.substring_char(0, 10));
    let prefix = String::from_str("--allcaps=");
    start == prefix
}

/// Reads the plugin's command line, the program's name left out. The
/// arguments before the first separator are the plugin's own; each must be a
/// flag of the plugin, given once and without a value. The arguments after
/// the separator are kept as they are.
pub fn parse_arguments(raw: Vec<String>) -> (parsed: Result<PrintAstArgs, ArgumentError>)
    ensures
        match refusal(texts(raw@)) {
            Some(fault) => parsed == Err::<PrintAstArgs, ArgumentError>(fault),
            None => parsed matches Ok(args) && args.read_from(texts(raw@)),
        },
{
    let separator = String::from_str("--");
    let flag = String::from_str("--allcaps");
    let ghost list = texts(raw@);
    let mut allcaps = false;
    let mut i: usize = 0;
    while i < raw.len() && !(raw[i] == separator)
        invariant
            i <= raw@.len(),
            list == texts(raw@),
            separator@ == crate::plugin::separator(),
            flag@ == allcaps_flag(),
            forall|j: int| 0 <= j < i ==> list[j] != crate::plugin::separator(),
            first_fault(list.take(i as int), i as int) is None,
            allcaps == list.take(i as int).contains(allcaps_flag()),
        decreases raw@.len() - i,
    {
        let ghost head = list.take(i as int);
        let ghost next = list.take(i + 1);
        proof {
            assert(next.take(i as int) == head);
            lemma_first_fault_prefix(next, head, i as int);
        }
        if raw[i] == flag {
            if allcaps {
                proof {
                    lemma_fault_decides(list, i as int);
                }
                return Err(ArgumentError::Repeated { position: i });
            }
            allcaps = true;
            assert(next.contains(allcaps_flag())) by {
                assert(next[i as int] == allcaps_flag());
            }
        } else {
            let fault = if is_assignment(&raw[i]) {
                ArgumentError::InvalidValue { position: i }
            } else {
                ArgumentError::UnknownArgument { position: i }
            };
            proof {
                lemma_fault_decides(list, i as int);
            }
            return Err(fault);
        }
        assert(allcaps == next.contains(allcaps_flag())) by {
            if next.contains(allcaps_flag()) && !allcaps {
                let k = choose|k: int| 0 <= k < next.len() && next[k] == allcaps_flag();
                assert(head[k] == allcaps_flag());
            }
            if allcaps && !next.contains(allcaps_flag()) {
                if head.contains(allcaps_flag()) {
                    let k = choose|k: int| 0 <= k < head.len() && head[k] == allcaps_flag();
                    assert(next[k] == allcaps_flag());
                }
            }
        }
        i += 1;
    }
    proof {
        lemma_split_point(list, i as int);
        assert(own_part(list) == list.take(i as int));
    }
    let mut cargo_args: Vec<String> = Vec::new();
    if i < raw.len() {
        let mut j: usize = i + 1;
        while j < raw.len()
            invariant
                i < j <= raw@.len(),
                list == texts(raw@),
                texts(cargo_args@) == list.subrange(i + 1, j as int),
            decreases raw@.len() - j,
        {
            let copy = raw[j].clone();
            proof {
                lemma_texts_push(cargo_args@, copy);
            }
            cargo_args.push(copy);
            assert(texts(cargo_args@) == list.subrange(i + 1, j + 1));
            j += 1;
        }
        assert(list.subrange(i + 1, list.len() as int) == list.skip(i + 1));
    } else {
        assert(texts(cargo_args@) == Seq::<Seq<char>>::empty());
    }
    Ok(PrintAstArgs { allcaps, cargo_args })
}

/// Which compilation units the plugin is run on.
#[derive(Debug, PartialEq, Eq)]
pub enum CrateFilter {
    /// Every unit of the build.
    AllCrates,
    /// The units of the workspace only.
    OnlyWorkspace,
    /// The unit that holds the given file only.
    CrateContainingFile(String),
}

/// What the plugin hands the build tool's front end: its configuration and
/// its choice of units.
#[derive(Debug, PartialEq, Eq)]
pub struct RustcPluginArgs {
    pub args: PrintAstArgs,
    pub filter: CrateFilter,
}

/// A description of the build-tool command that the front end is about to
/// run.
#[derive(Debug, PartialEq, Eq)]
pub struct BuildCommand {
    pub program: String,
    pub args: Vec<String>,
}

/// What a compiler session is started with.
#[derive(Debug)]
pub struct Session {
    /// The arguments for the compiler.
    pub compiler_args: Vec<String>,
    /// The plugin's state, before the first checkpoint.
    pub callbacks: PrintAstCallbacks,
}

/// The units to run on, for the build directory `target_dir`: all of them.
pub fn select_units(target_dir: &str) -> (filter: CrateFilter)
    ensures
        filter == CrateFilter::AllCrates,
{
    CrateFilter::AllCrates
}

/// The plugin.
#[derive(Clone, Copy, Debug)]
pub struct PrintAst;

impl PrintAst {
    /// The plugin's version.
    pub fn version(&self) -> (version: String)
        ensures
            version@ == "0.1.0"@,
    {
        String::from_str("0.1.0")
    }

    /// The name of the driver binary.
    pub fn driver_name(&self) -> (name: String)
        ensures
            name@ == "rustc-plug-ast-driver"@,
    {
        String::from_str("rustc-plug-ast-driver")
    }

    /// Reads the command line `raw`, the program's name left out, and chooses
    /// the units to run on.
    pub fn args(&self, target_dir: &str, raw: Vec<String>) -> (parsed: Result<
        RustcPluginArgs,
        ArgumentError,
    >)
        ensures
            match refusal(texts(raw@)) {
                Some(fault) => parsed == Err::<RustcPluginArgs, ArgumentError>(fault),
                None => parsed matches Ok(plugin_args) && plugin_args.args.read_from(texts(raw@))
                    && plugin_args.filter == CrateFilter::AllCrates,
            },
    {
        match parse_arguments(raw) {
            Ok(args) => Ok(RustcPluginArgs { args, filter: select_units(target_dir) }),
            Err(fault) => Err(fault),
        }
    }

    /// Hands the pass-through tail of `args` to the build command: it is
    /// added to the end of the command's arguments, as it is.
    pub fn modify_cargo(&self, cargo: &mut BuildCommand, args: &PrintAstArgs)
        ensures
            final(cargo).program == old(cargo).program,
            texts(final(cargo).args@) == texts(old(cargo).args@) + texts(args.cargo_args@),
    {
        append_all(&mut cargo.args, &args.cargo_args);
    }

    /// Prepares a compiler session for `compiler_args`: the plugin's state
    /// starts before the first checkpoint, with `plugin_args`.
    pub fn run(self, compiler_args: Vec<String>, plugin_args: PrintAstArgs) -> (session: Session)
        ensures
            session.compiler_args == compiler_args,
            session.callbacks.args == plugin_args,
            session.callbacks.stage == crate::stage::Stage::Start,
            session.callbacks.output@.len() == 0,
    {
        Session { compiler_args, callbacks: PrintAstCallbacks::new(plugin_args) }
    }
}

/// Whatever the plugin's own arguments `own` and the tail `tail` hold, as
/// long as `own` holds no separator: on the command line made of `own`, a
/// separator and `tail`, the plugin's own part is `own` and the pass-through
/// tail is `tail`, the empty one too.
pub proof fn lemma_pass_through_fidelity(own: Seq<Seq<char>>, tail: Seq<Seq<char>>)
    requires
        !own.contains(separator()),
    ensures
        own_part(own + seq![separator()] + tail) == own,
        pass_through(own + seq![separator()] + tail) == tail,
{
    let raw = own + seq![separator()] + tail;
    assert forall|j: int| 0 <= j < own.len() implies raw[j] != separator() by {
        assert(raw[j] == own[j]);
        assert(own.contains(own[j]));
    }
    assert(raw[own.len() as int] == separator());
    lemma_split_point(raw, own.len() as int);
    assert(raw.take(own.len() as int) == own);
    assert(raw.skip(own.len() as int + 1) == tail);
}

/// A command line without a separator passes nothing through.
pub proof fn lemma_no_separator_no_tail(raw: Seq<Seq<char>>)
    requires
        !raw.contains(separator()),
    ensures
        own_part(raw) == raw,
        pass_through(raw) == Seq::<Seq<char>>::empty(),
{
    assert forall|j: int| 0 <= j < raw.len() implies raw[j] != separator() by {
        assert(raw.contains(raw[j]));
    }
    lemma_split_point(raw, raw.len() as int);
    assert(raw.take(raw.len() as int) == raw);
}

/// Where no separator stands among the first `k` arguments and the list ends
/// there or has one at `k`, the split point is `k`.
pub proof fn lemma_split_point(raw: Seq<Seq<char>>, k: int)
    requires
        0 <= k <= raw.len(),
        forall|j: int| 0 <= j < k ==> raw[j] != separator(),
    ensures
        k == raw.len() || raw[k] == separator() ==> split_point(raw) == k,
        split_point(raw) >= k,
        split_point(raw) <= raw.len(),
    decreases k,
{
    if k > 0 {
        let rest = raw.drop_first();
        assert forall|j: int| 0 <= j < k - 1 implies rest[j] != separator() by {
            assert(rest[j] == raw[j + 1]);
        }
        lemma_split_point(rest, k - 1);
        if k < raw.len() {
            assert(rest[k - 1] == raw[k]);
        }
    } else {
        lemma_split_point_bound(raw);
    }
}

/// The split point lies within the list.
pub proof fn lemma_split_point_bound(raw: Seq<Seq<char>>)
    ensures
        0 <= split_point(raw) <= raw.len(),
    decreases raw.len(),
{
    if !(raw.len() == 0 || raw.first() == separator()) {
        lemma_split_point_bound(raw.drop_first());
    }
}

/// The first fault among the first `upto` arguments is the same in two lists
/// that agree on them.
pub proof fn lemma_first_fault_prefix(longer: Seq<Seq<char>>, shorter: Seq<Seq<char>>, upto: int)
    requires
        0 <= upto <= shorter.len() <= longer.len(),
        longer.take(shorter.len() as int) == shorter,
    ensures
        first_fault(longer, upto) == first_fault(shorter, upto),
    decreases upto,
{
    if upto > 0 {
        lemma_first_fault_prefix(longer, shorter, upto - 1);
        assert(longer[upto - 1] == shorter[upto - 1]) by {
            assert(longer.take(shorter.len() as int)[upto - 1] == longer[upto - 1]);
        }
        assert(longer.take(upto - 1) == shorter.take(upto - 1));
    }
}

/// A fault at an argument that stands before every separator is the first
/// fault of the plugin's own arguments.
pub proof fn lemma_fault_decides(raw: Seq<Seq<char>>, position: int)
    requires
        0 <= position < raw.len(),
        forall|j: int| 0 <= j <= position ==> raw[j] != separator(),
        first_fault(raw.take(position + 1), position + 1) is Some,
    ensures
        first_fault(own_part(raw), own_part(raw).len() as int) == first_fault(
            raw.take(position + 1),
            position + 1,
        ),
{
    lemma_split_point(raw, position + 1);
    assert(own_part(raw).take(position + 1) == raw.take(position + 1));
    lemma_first_fault_grows(own_part(raw), raw.take(position + 1), position + 1);
}

/// A fault among the first `upto` arguments is the first fault of the whole
/// list.
pub proof fn lemma_first_fault_grows(own: Seq<Seq<char>>, head: Seq<Seq<char>>, upto: int)
    requires
        0 <= upto <= own.len(),
        head == own.take(upto),
        first_fault(head, upto) is Some,
    ensures
        first_fault(own, own.len() as int) == first_fault(head, upto),
    decreases own.len() - upto,
{
    lemma_first_fault_prefix(own, head, upto);
    lemma_first_fault_stays(own, upto, own.len() as int);
}

/// Once found, the first fault stays as more arguments are looked at.
pub proof fn lemma_first_fault_stays(own: Seq<Seq<char>>, upto: int, more: int)
    requires
        0 <= upto <= more <= own.len(),
        first_fault(own, upto) is Some,
    ensures
        first_fault(own, more) == first_fault(own, upto),
    decreases more - upto,
{
    if upto < more {
        lemma_first_fault_stays(own, upto, more - 1);
    }
}

} // verus!
