//! The plugin's answers to the pipeline's checkpoints.
//!
//! The toolchain drives: it reaches a checkpoint, hands the plugin what the
//! stage has made, and goes by the decision it gets back. After parsing, the
//! plugin traverses the parsed tree and reports it. After analysis it does
//! nothing. It lets the pipeline go on at both.

use crate::collector::Collector;
use crate::node::CompilationUnit;
use crate::plugin::PrintAstArgs;
use crate::report::{lines, render};
use crate::text::{append_all, texts};
use crate::trace::preorder;
use vstd::prelude::*;

verus! {

/// What the plugin tells the toolchain at a checkpoint.
#[derive(Clone, Copy, Debug, PartialEq, Eq, Structural)]
pub enum ContinuationDecision {
    /// The pipeline goes on to its next stage.
    Continue,
    /// The pipeline halts here. A unit that others depend on must not be
    /// halted: they would miss what its later stages produce.
    Stop,
}

/// A checkpoint of the pipeline, with what the toolchain hands out at it.
#[derive(Debug)]
pub enum StageEvent<'a> {
    /// One compilation unit was parsed: its tree, to read.
    PostParse(&'a CompilationUnit),
    /// The unit was analysed. The plugin reads nothing of the analysis.
    PostAnalysis,
}

/// The checkpoint that the plugin answered last.
#[derive(Clone, Copy, Debug, PartialEq, Eq, Structural)]
pub enum Stage {
    /// None yet.
    Start,
    /// The one after parsing.
    Parsed,
    /// The one after analysis.
    Analyzed,
}

/// The plugin's state over one run of the pipeline.
#[derive(Debug)]
pub struct PrintAstCallbacks {
    /// The plugin's configuration.
    pub args: PrintAstArgs,
    /// The checkpoint answered last.
    pub stage: Stage,
    /// The lines reported so far, for the caller to print.
    pub output: Vec<String>,
}

impl PrintAstCallbacks {
    /// The state before the first checkpoint.
    pub fn new(args: PrintAstArgs) -> (callbacks: PrintAstCallbacks)
        ensures
            callbacks.args == args,
            callbacks.stage == Stage::Start,
            callbacks.output@.len() == 0,
    {
        PrintAstCallbacks { args, stage: Stage::Start, output: Vec::new() }
    }

    /// The checkpoint after parsing: traverses the tree of `unit` with the
    /// collector and adds the report of every node to the output.
    pub fn after_crate_root_parsing(&mut self, unit: &CompilationUnit) -> (decision:
        ContinuationDecision)
        ensures
            decision == ContinuationDecision::Continue,
            final(self).args == old(self).args,
            final(self).stage == Stage::Parsed,
            texts(final(self).output@) == texts(old(self).output@) + lines(
                unit.symbols(),
                preorder(unit.root()),
                old(self).args.allcaps,
            ),
    {
        let trace = Collector::collect(unit);
        let report = render(unit, &trace, self.args.allcaps);
        append_all(&mut self.output, &report);
        self.stage = Stage::Parsed;
        ContinuationDecision::Continue
    }

    /// The checkpoint after analysis: nothing is done.
    pub fn after_analysis(&mut self) -> (decision: ContinuationDecision)
        ensures
            decision == ContinuationDecision::Continue,
            final(self).args == old(self).args,
            final(self).stage == Stage::Analyzed,
            final(self).output == old(self).output,
    {
        self.stage = Stage::Analyzed;
        ContinuationDecision::Continue
    }

    /// Answers the checkpoint `event`.
    pub fn dispatch(&mut self, event: StageEvent) -> (decision: ContinuationDecision)
        ensures
            decision == ContinuationDecision::Continue,
            final(self).args == old(self).args,
            match event {
                StageEvent::PostParse(unit) => {
                    &&& final(self).stage == Stage::Parsed
                    &&& texts(final(self).output@) == texts(old(self).output@) + lines(
                        unit.symbols(),
                        preorder(unit.root()),
                        old(self).args.allcaps,
                    )
                },
                StageEvent::PostAnalysis => {
                    &&& final(self).stage == Stage::Analyzed
                    &&& final(self).output == old(self).output
                },
            },
    {
        match event {
            StageEvent::PostParse(unit) => self.after_crate_root_parsing(unit),
            StageEvent::PostAnalysis => self.after_analysis(),
        }
    }
}

} // verus!
