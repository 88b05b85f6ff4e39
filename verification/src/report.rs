//! The text that a traversal's record is reported as: one line for each
//! identifier and each literal entered, in the order of the record.

use crate::node::{CompilationUnit, NodeKind};
use crate::text::{lemma_texts_push, texts};
use crate::trace::Visit;
use vstd::prelude::*;

verus! {

/// The upper-case form of `text`.
pub uninterp spec fn uppercase(text: Seq<char>) -> Seq<char>;

/// `str::to_uppercase` of std: the upper-case form of the text as a new
/// string. Believed of it: that the result is fixed by the text alone. What
/// the upper-case form of a given text is, is not stated.
#[verifier::external_body]
fn to_uppercase(text: &String) -> (upper: String)
    ensures
        upper@ == uppercase(text@),
{
    text.to_uppercase()
}

/// The line for a node of `kind` that names the symbol `text`, in the case it
/// is written in. An identifier is followed by its hygiene context, which in
/// a tree that no macro was expanded in is always the root context, 0. A
/// literal stands in quotes. A node of another kind has no line.
pub open spec fn plain(kind: NodeKind, text: Seq<char>) -> Option<Seq<char>> {
    match kind {
        NodeKind::Ident => Some("ident: "@ + text + "#0"@),
        NodeKind::Literal => Some("symbol: \""@ + text + "\""@),
        _ => None,
    }
}

/// `line` as it is reported: upper-cased where `allcaps` asks for it.
pub open spec fn cased(line: Seq<char>, allcaps: bool) -> Seq<char> {
    if allcaps {
        uppercase(line)
    } else {
        line
    }
}

/// The line that the entry `visit` is reported as, over the symbol table
/// `symbols`; `None` where the entry names no symbol of the table or is of a
/// kind that has no line.
pub open spec fn line_of(symbols: Seq<Seq<char>>, visit: Visit, allcaps: bool) -> Option<Seq<char>> {
    match visit.symbol {
        Some(id) => if id < symbols.len() {
            match plain(visit.kind, symbols[id as int]) {
                Some(line) => Some(cased(line, allcaps)),
                None => None,
            }
        } else {
            None
        },
        None => None,
    }
}

/// The lines that the first `upto` entries of `trace` are reported as.
pub open spec fn lines_upto(
    symbols: Seq<Seq<char>>,
    trace: Seq<Visit>,
    upto: int,
    allcaps: bool,
) -> Seq<Seq<char>>
    decreases upto,
{
    if 0 < upto <= trace.len() {
        match line_of(symbols, trace[upto - 1], allcaps) {
            Some(line) => lines_upto(symbols, trace, upto - 1, allcaps).push(line),
            None => lines_upto(symbols, trace, upto - 1, allcaps),
        }
    } else {
        Seq::empty()
    }
}

/// The lines that the whole of `trace` is reported as.
pub open spec fn lines(symbols: Seq<Seq<char>>, trace: Seq<Visit>, allcaps: bool) -> Seq<Seq<char>> {
    lines_upto(symbols, trace, trace.len() as int, allcaps)
}

/// Writes the line for a node of `kind` that names the symbol `text`.
pub fn plain_line(kind: NodeKind, text: &String) -> (line: Option<String>)
    ensures
        match plain(kind, text@) {
            Some(expected) => line matches Some(written) && written@ == expected,
            None => line is None,
        },
{
    match kind {
        NodeKind::Ident => {
            let mut line = String::from_str("ident: ");
            line.append(text.as_str());
            line.append("#0");
            Some(line)
        },
        NodeKind::Literal => {
            let mut line = String::from_str("symbol: \"");
            line.append(text.as_str());
            line.append("\"");
            Some(line)
        },
        _ => None,
    }
}

/// Puts `line` into the case it is reported in.
pub fn finish_line(line: String, allcaps: bool) -> (finished: String)
    ensures
        finished@ == cased(line@, allcaps),
{
    if allcaps {
        to_uppercase(&line)
    } else {
        line
    }
}

/// Reports `trace` over the symbols of `unit`.
pub fn render(unit: &CompilationUnit, trace: &Vec<Visit>, allcaps: bool) -> (report: Vec<String>)
    ensures
        texts(report@) == lines(unit.symbols(), trace@, allcaps),
{
    let mut report: Vec<String> = Vec::new();
    let mut i: usize = 0;
    assert(texts(report@) == Seq::<Seq<char>>::empty());
    while i < trace.len()
        invariant
            i <= trace@.len(),
            texts(report@) == lines_upto(unit.symbols(), trace@, i as int, allcaps),
        decreases trace@.len() - i,
    {
        let visit = trace[i];
        match visit.symbol {
            Some(id) => {
                if (id as usize) < unit.symbol_count() {
                    match plain_line(visit.kind, unit.symbol_text(id)) {
                        Some(line) => {
                            let finished = finish_line(line, allcaps);
                            proof {
                                lemma_texts_push(report@, finished);
                            }
                            report.push(finished);
                        },
                        None => {},
                    }
                }
            },
            None => {},
        }
        i += 1;
    }
    report
}

} // verus!
