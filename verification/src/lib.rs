//! A small Forth virtual machine for interactive, real-time oriented work.
//!
//! The machine keeps its dictionary and threaded code in one flat data space,
//! runs a token-threaded inner interpreter over it, compiles control
//! structures with forward-reference patching, and schedules a fixed set of
//! cooperative tasks. Every function is stated against a mathematical model of
//! the machine and proved to follow it.
use vstd::prelude::*;

pub mod cell;
pub mod dictionary;
pub mod engine;
pub mod exception;
pub mod file_access;
pub mod interpreter;
pub mod labels;
pub mod loader;
pub mod laws;
pub mod memory;
pub mod outer;
pub mod parser;
pub mod primitives;
pub mod stack;
pub mod vm;

verus! {

/// The flag that Forth words leave for "true": all bits set.
pub const TRUE: isize = -1;

/// The flag that Forth words leave for "false".
pub const FALSE: isize = 0;

/// Number of cooperative tasks that a machine holds.
pub const NUM_TASKS: usize = 5;

} // verus!
