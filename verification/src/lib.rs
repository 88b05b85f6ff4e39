//! Instrumentation of a compiler pipeline: a pre-order syntax-tree traversal
//! framework with a pluggable visitor, and the plugin protocol that attaches
//! it to the pipeline's checkpoints.

pub mod collector;
pub mod laws;
pub mod node;
pub mod order;
pub mod plugin;
pub mod report;
pub mod stage;
pub mod text;
pub mod trace;
pub mod visit;
pub mod walk;

use vstd::prelude::*;

verus! {

/// The item that stands for the build feature `test1`.
pub fn test1() {
}

/// The item that stands for the build feature `test2`.
pub fn test2() {
}

/// The item that stands for the build feature `test1` without `test2`.
pub fn test3() {
}

} // verus!
