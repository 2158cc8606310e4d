//! Exception codes raised by the machine, numbered as the Forth standard does.
use vstd::prelude::*;

verus! {

/// An exception code. Zero is never an exception.
pub type Exception = isize;

pub const ABORT: Exception = -1;

pub const ABORT_QUOTE: Exception = -2;

pub const STACK_OVERFLOW: Exception = -3;

pub const STACK_UNDERFLOW: Exception = -4;

pub const RETURN_STACK_OVERFLOW: Exception = -5;

pub const RETURN_STACK_UNDERFLOW: Exception = -6;

pub const DICTIONARY_OVERFLOW: Exception = -8;

pub const INVALID_MEMORY_ADDRESS: Exception = -9;

pub const DIVISION_BY_ZERO: Exception = -10;

pub const RESULT_OUT_OF_RANGE: Exception = -11;

pub const UNDEFINED_WORD: Exception = -13;

pub const INTERPRETING_A_COMPILE_ONLY_WORD: Exception = -14;

pub const UNSUPPORTED_OPERATION: Exception = -21;

pub const CONTROL_STRUCTURE_MISMATCH: Exception = -22;

pub const INVALID_NUMERIC_ARGUMENT: Exception = -24;

pub const FILE_IO_EXCEPTION: Exception = -37;

pub const UNEXPECTED_END_OF_FILE: Exception = -39;

pub const FLOATING_POINT_STACK_OVERFLOW: Exception = -44;

pub const FLOATING_POINT_STACK_UNDERFLOW: Exception = -45;

/// The text that `description` gives for an exception code.
pub open spec fn description_of(e: Exception) -> Seq<char> {
    if e == ABORT {
        "Aborted"@
    } else if e == ABORT_QUOTE {
        "Aborted"@
    } else if e == STACK_OVERFLOW {
        "Stack overflow"@
    } else if e == STACK_UNDERFLOW {
        "Stack underflow"@
    } else if e == RETURN_STACK_OVERFLOW {
        "Return stack overflow"@
    } else if e == RETURN_STACK_UNDERFLOW {
        "Return stack underflow"@
    } else if e == DICTIONARY_OVERFLOW {
        "Dictionary overflow"@
    } else if e == INVALID_MEMORY_ADDRESS {
        "Invalid memory address"@
    } else if e == DIVISION_BY_ZERO {
        "Division by zero"@
    } else if e == RESULT_OUT_OF_RANGE {
        "Result out of range"@
    } else if e == UNDEFINED_WORD {
        "Undefined word"@
    } else if e == INTERPRETING_A_COMPILE_ONLY_WORD {
        "Interpreting a compile-only word"@
    } else if e == UNSUPPORTED_OPERATION {
        "Unsupported operation"@
    } else if e == CONTROL_STRUCTURE_MISMATCH {
        "Control structure mismatch"@
    } else if e == INVALID_NUMERIC_ARGUMENT {
        "Invalid numeric argument"@
    } else if e == FILE_IO_EXCEPTION {
        "File I/O exception"@
    } else if e == UNEXPECTED_END_OF_FILE {
        "Unexpected end of file"@
    } else if e == FLOATING_POINT_STACK_OVERFLOW {
        "Floating-point stack overflow"@
    } else if e == FLOATING_POINT_STACK_UNDERFLOW {
        "Floating-point stack underflow"@
    } else {
        "Unknown exception"@
    }
}

/// A short English description of an exception code.
pub fn description(e: Exception) -> (r: &'static str)
    ensures
        r@ == description_of(e),
{
    if e == ABORT {
        "Aborted"
    } else if e == ABORT_QUOTE {
        "Aborted"
    } else if e == STACK_OVERFLOW {
        "Stack overflow"
    } else if e == STACK_UNDERFLOW {
        "Stack underflow"
    } else if e == RETURN_STACK_OVERFLOW {
        "Return stack overflow"
    } else if e == RETURN_STACK_UNDERFLOW {
        "Return stack underflow"
    } else if e == DICTIONARY_OVERFLOW {
        "Dictionary overflow"
    } else if e == INVALID_MEMORY_ADDRESS {
        "Invalid memory address"
    } else if e == DIVISION_BY_ZERO {
        "Division by zero"
    } else if e == RESULT_OUT_OF_RANGE {
        "Result out of range"
    } else if e == UNDEFINED_WORD {
        "Undefined word"
    } else if e == INTERPRETING_A_COMPILE_ONLY_WORD {
        "Interpreting a compile-only word"
    } else if e == UNSUPPORTED_OPERATION {
        "Unsupported operation"
    } else if e == CONTROL_STRUCTURE_MISMATCH {
        "Control structure mismatch"
    } else if e == INVALID_NUMERIC_ARGUMENT {
        "Invalid numeric argument"
    } else if e == FILE_IO_EXCEPTION {
        "File I/O exception"
    } else if e == UNEXPECTED_END_OF_FILE {
        "Unexpected end of file"
    } else if e == FLOATING_POINT_STACK_OVERFLOW {
        "Floating-point stack overflow"
    } else if e == FLOATING_POINT_STACK_UNDERFLOW {
        "Floating-point stack underflow"
    } else {
        "Unknown exception"
    }
}

} // verus!
