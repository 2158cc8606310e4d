use rtforth::exception::{
    ABORT, CONTROL_STRUCTURE_MISMATCH, INTERPRETING_A_COMPILE_ONLY_WORD, INVALID_MEMORY_ADDRESS,
    RETURN_STACK_UNDERFLOW, STACK_UNDERFLOW, UNDEFINED_WORD, UNEXPECTED_END_OF_FILE,
    UNSUPPORTED_OPERATION,
};
use rtforth::vm::VM;
use std::mem;

fn new_vm() -> VM {
    VM::with_capacity(0x10000)
}

#[test]
fn test_find() {
    let vm = &mut new_vm();
    assert!(vm.find("").is_none());
    assert!(vm.find("word-not-exist").is_none());
    vm.find("noop").expect("noop not found");
}

#[test]
fn test_drop() {
    let vm = &mut new_vm();
    vm.p_drop();
    vm.check_stacks();
    assert_eq!(vm.last_error(), Some(STACK_UNDERFLOW));
    vm.reset();
    vm.clear_stacks();
    vm.s_stack().push(1);
    vm.p_drop();
    vm.check_stacks();
    assert!(vm.s_stack().is_empty());
    assert!(vm.last_error().is_none());
}

#[test]
fn test_nip() {
    let vm = &mut new_vm();
    vm.nip();
    vm.check_stacks();
    assert_eq!(vm.last_error(), Some(STACK_UNDERFLOW));
    vm.reset();
    vm.clear_stacks();
    vm.s_stack().push(1);
    vm.nip();
    vm.check_stacks();
    assert_eq!(vm.last_error(), Some(STACK_UNDERFLOW));
    vm.reset();
    vm.clear_stacks();
    vm.s_stack().push(1);
    vm.s_stack().push(2);
    vm.nip();
    vm.check_stacks();
    assert!(vm.last_error().is_none());
    assert!(vm.s_stack().len() == 1);
    assert!(vm.s_stack().last() == Some(2));
}

#[test]
fn test_swap() {
    let vm = &mut new_vm();
    vm.swap();
    vm.check_stacks();
    // check_stacks() cannot detect this kind of underflow.
    // assert_eq!(vm.last_error(), Some(STACK_UNDERFLOW));
    vm.reset();
    vm.clear_stacks();
    vm.s_stack().push(1);
    vm.swap();
    vm.check_stacks();
    assert_eq!(vm.last_error(), Some(STACK_UNDERFLOW));
    vm.reset();
    vm.clear_stacks();
    vm.s_stack().push(1);
    vm.s_stack().push(2);
    vm.swap();
    vm.check_stacks();
    assert!(vm.last_error().is_none());
    assert_eq!(vm.s_stack().len(), 2);
    assert_eq!(vm.s_stack().pop(), 1);
    assert_eq!(vm.s_stack().pop(), 2);
    vm.check_stacks();
    assert!(vm.last_error().is_none());
}

#[test]
fn test_dup() {
    let vm = &mut new_vm();
    vm.dup();
    vm.check_stacks();
    // check_stacks can not detect this underflow();
    //        assert_eq!(vm.last_error(), Some(STACK_UNDERFLOW));
    vm.reset();
    vm.clear_stacks();
    vm.s_stack().push(1);
    vm.dup();
    vm.check_stacks();
    assert!(vm.last_error().is_none());
    assert_eq!(vm.s_stack().len(), 2);
    assert_eq!(vm.s_stack().pop(), 1);
    assert_eq!(vm.s_stack().pop(), 1);
    vm.check_stacks();
    assert!(vm.last_error().is_none());
}

#[test]
fn test_over() {
    let vm = &mut new_vm();
    vm.over();
    vm.check_stacks();
    // check_stacks() cannot detect stack underflow of over().
    // assert_eq!(vm.last_error(), Some(STACK_UNDERFLOW));
    vm.reset();
    vm.clear_stacks();
    vm.s_stack().push(1);
    vm.check_stacks();
    vm.over();
    // check_stacks() cannot detect stack underflow of over().
    // assert_eq!(vm.last_error(), Some(STACK_UNDERFLOW));
    vm.reset();
    vm.clear_stacks();
    vm.s_stack().push(1);
    vm.s_stack().push(2);
    vm.over();
    vm.check_stacks();
    assert!(vm.last_error().is_none());
    assert_eq!(vm.s_stack().len(), 3);
    assert_eq!(vm.s_stack().pop(), 1);
    assert_eq!(vm.s_stack().pop(), 2);
    assert_eq!(vm.s_stack().pop(), 1);
    vm.check_stacks();
    assert!(vm.last_error().is_none());
}

#[test]
fn test_rot() {
    let vm = &mut new_vm();
    vm.rot();
    vm.check_stacks();
    // check_stacks() cannot detect this kind of stack underflow of over().
    // assert_eq!(vm.last_error(), Some(STACK_UNDERFLOW));
    vm.reset();
    vm.clear_stacks();
    vm.s_stack().push(1);
    vm.rot();
    vm.check_stacks();
    assert_eq!(vm.last_error(), Some(STACK_UNDERFLOW));
    vm.reset();
    vm.clear_stacks();
    vm.s_stack().push(1);
    vm.s_stack().push(2);
    vm.rot();
    vm.check_stacks();
    assert_eq!(vm.last_error(), Some(STACK_UNDERFLOW));
    vm.reset();
    vm.clear_stacks();
    vm.s_stack().push(1);
    vm.s_stack().push(2);
    vm.s_stack().push(3);
    vm.rot();
    vm.check_stacks();
    assert!(vm.last_error().is_none());
    assert_eq!(vm.s_stack().len(), 3);
    assert_eq!(vm.s_stack().pop(), 1);
    assert_eq!(vm.s_stack().pop(), 3);
    assert_eq!(vm.s_stack().pop(), 2);
    vm.check_stacks();
    assert!(vm.last_error().is_none());
}

#[test]
fn test_pick() {
    let vm = &mut new_vm();
    vm.s_stack().push(0);
    vm.s_stack().push(0);
    vm.pick();
    vm.check_stacks();
    assert_eq!(vm.last_error(), None);
    assert_eq!(vm.s_stack().as_slice(), [0, 0]);

    let vm = &mut new_vm();
    vm.s_stack().push(1);
    vm.s_stack().push(0);
    vm.s_stack().push(1);
    vm.pick();
    vm.check_stacks();
    assert_eq!(vm.last_error(), None);
    assert_eq!(vm.s_stack().as_slice(), [1, 0, 1]);

    let vm = &mut new_vm();
    vm.s_stack().push(2);
    vm.s_stack().push(1);
    vm.s_stack().push(0);
    vm.s_stack().push(2);
    vm.pick();
    vm.check_stacks();
    assert_eq!(vm.last_error(), None);
    assert_eq!(vm.s_stack().as_slice(), [2, 1, 0, 2]);
}

#[test]
fn test_2drop() {
    let vm = &mut new_vm();
    vm.two_drop();
    assert!(vm.s_stack().underflow());
    vm.reset();
    vm.clear_stacks();
    vm.s_stack().push(1);
    vm.two_drop();
    assert!(vm.s_stack().underflow());
    vm.reset();
    vm.clear_stacks();
    vm.s_stack().push(1);
    vm.s_stack().push(2);
    vm.two_drop();
    assert!(!vm.s_stack().underflow());
    assert!(!vm.s_stack().overflow());
    assert!(vm.last_error().is_none());
    assert!(vm.s_stack().is_empty());
}

#[test]
fn test_2dup() {
    let vm = &mut new_vm();
    vm.two_dup();
    assert!(!vm.s_stack().underflow());
    vm.reset();
    vm.clear_stacks();
    vm.s_stack().push(1);
    vm.two_dup();
    assert!(!vm.s_stack().underflow());
    vm.reset();
    vm.clear_stacks();
    vm.s_stack().push(1);
    vm.s_stack().push(2);
    vm.two_dup();
    assert!(!vm.s_stack().underflow());
    assert!(!vm.s_stack().overflow());
    assert!(vm.last_error().is_none());
    assert_eq!(vm.s_stack().len(), 4);
    assert_eq!(vm.s_stack().pop(), 2);
    assert_eq!(vm.s_stack().pop(), 1);
    assert_eq!(vm.s_stack().pop(), 2);
    assert_eq!(vm.s_stack().pop(), 1);
}

#[test]
fn test_2swap() {
    let vm = &mut new_vm();
    vm.two_swap();
    assert!(!vm.s_stack().underflow());
    vm.reset();
    vm.clear_stacks();
    vm.s_stack().push(1);
    vm.two_swap();
    assert!(!vm.s_stack().underflow());
    vm.reset();
    vm.clear_stacks();
    vm.s_stack().push(1);
    vm.s_stack().push(2);
    vm.two_swap();
    assert!(vm.s_stack().underflow());
    vm.reset();
    vm.clear_stacks();
    vm.s_stack().push(1);
    vm.s_stack().push(2);
    vm.s_stack().push(3);
    vm.two_swap();
    assert!(vm.s_stack().underflow());
    vm.reset();
    vm.clear_stacks();
    vm.s_stack().push(1);
    vm.s_stack().push(2);
    vm.s_stack().push(3);
    vm.s_stack().push(4);
    vm.two_swap();
    assert!(!vm.s_stack().underflow());
    assert!(vm.last_error().is_none());
    assert_eq!(vm.s_stack().len(), 4);
    assert_eq!(vm.s_stack().pop(), 2);
    assert_eq!(vm.s_stack().pop(), 1);
    assert_eq!(vm.s_stack().pop(), 4);
    assert_eq!(vm.s_stack().pop(), 3);
}

#[test]
fn test_2over() {
    let vm = &mut new_vm();
    vm.two_over();
    assert!(!vm.s_stack().underflow());
    vm.reset();
    vm.clear_stacks();
    vm.s_stack().push(1);
    vm.two_over();
    assert!(!vm.s_stack().underflow());
    vm.reset();
    vm.clear_stacks();
    vm.s_stack().push(1);
    vm.s_stack().push(2);
    vm.two_over();
    assert!(!vm.s_stack().underflow());
    vm.reset();
    vm.clear_stacks();
    vm.s_stack().push(1);
    vm.s_stack().push(2);
    vm.s_stack().push(3);
    vm.two_over();
    assert!(!vm.s_stack().underflow());
    vm.reset();
    vm.clear_stacks();
    vm.s_stack().push(1);
    vm.s_stack().push(2);
    vm.s_stack().push(3);
    vm.s_stack().push(4);
    vm.two_over();
    assert!(!vm.s_stack().underflow());
    assert!(!vm.s_stack().overflow());
    assert!(vm.last_error().is_none());
    assert_eq!(vm.s_stack().len(), 6);
    assert_eq!(vm.s_stack().as_slice(), [1, 2, 3, 4, 1, 2]);
}

#[test]
fn test_depth() {
    let vm = &mut new_vm();
    vm.depth();
    vm.depth();
    vm.depth();
    assert_eq!(vm.s_stack().as_slice(), [0, 1, 2]);
}

#[test]
fn test_one_plus() {
    let vm = &mut new_vm();
    vm.one_plus();
    vm.check_stacks();
    assert_eq!(vm.last_error(), Some(STACK_UNDERFLOW));
    vm.reset();
    vm.clear_stacks();
    vm.s_stack().push(1);
    vm.one_plus();
    vm.check_stacks();
    assert!(vm.last_error().is_none());
    assert_eq!(vm.s_stack().len(), 1);
    assert_eq!(vm.s_stack().pop(), 2);
}

#[test]
fn test_one_minus() {
    let vm = &mut new_vm();
    vm.one_minus();
    vm.check_stacks();
    assert_eq!(vm.last_error(), Some(STACK_UNDERFLOW));
    vm.reset();
    vm.clear_stacks();
    vm.s_stack().push(2);
    vm.one_minus();
    vm.check_stacks();
    assert!(vm.last_error().is_none());
    assert_eq!(vm.s_stack().len(), 1);
    assert_eq!(vm.s_stack().pop(), 1);
}

#[test]
fn test_minus() {
    let vm = &mut new_vm();
    vm.minus();
    vm.check_stacks();
    assert_eq!(vm.last_error(), Some(STACK_UNDERFLOW));
    vm.reset();
    vm.clear_stacks();
    vm.s_stack().push(5);
    vm.minus();
    vm.check_stacks();
    assert_eq!(vm.last_error(), Some(STACK_UNDERFLOW));
    vm.reset();
    vm.clear_stacks();
    vm.s_stack().push(5);
    vm.s_stack().push(7);
    vm.minus();
    vm.check_stacks();
    assert_eq!(vm.last_error(), None);
    assert_eq!(vm.s_stack().len(), 1);
    assert_eq!(vm.s_stack().pop(), -2);
}

#[test]
fn test_plus() {
    let vm = &mut new_vm();
    vm.plus();
    vm.check_stacks();
    assert_eq!(vm.last_error(), Some(STACK_UNDERFLOW));
    vm.reset();
    vm.clear_stacks();
    vm.s_stack().push(5);
    vm.plus();
    vm.check_stacks();
    assert_eq!(vm.last_error(), Some(STACK_UNDERFLOW));
    vm.reset();
    vm.clear_stacks();
    vm.s_stack().push(5);
    vm.s_stack().push(7);
    vm.plus();
    vm.check_stacks();
    assert!(vm.last_error().is_none());
    assert_eq!(vm.s_stack().len(), 1);
    assert_eq!(vm.s_stack().pop(), 12);
}

#[test]
fn test_star() {
    let vm = &mut new_vm();
    vm.star();
    vm.check_stacks();
    assert_eq!(vm.last_error(), Some(STACK_UNDERFLOW));
    vm.reset();
    vm.clear_stacks();
    vm.s_stack().push(5);
    vm.star();
    vm.check_stacks();
    assert_eq!(vm.last_error(), Some(STACK_UNDERFLOW));
    vm.reset();
    vm.clear_stacks();
    vm.s_stack().push(5);
    vm.s_stack().push(7);
    vm.star();
    vm.check_stacks();
    assert!(vm.last_error().is_none());
    assert_eq!(vm.s_stack().len(), 1);
    assert_eq!(vm.s_stack().pop(), 35);
}

#[test]
fn test_slash() {
    let vm = &mut new_vm();
    vm.slash();
    vm.check_stacks();
    assert_eq!(vm.last_error(), Some(STACK_UNDERFLOW));
    vm.reset();
    vm.clear_stacks();
    vm.s_stack().push(30);
    vm.slash();
    vm.check_stacks();
    assert_eq!(vm.last_error(), Some(STACK_UNDERFLOW));
    vm.reset();
    vm.clear_stacks();
    vm.s_stack().push(30);
    vm.s_stack().push(7);
    vm.slash();
    vm.check_stacks();
    assert!(vm.last_error().is_none());
    assert_eq!(vm.s_stack().len(), 1);
    assert_eq!(vm.s_stack().pop(), 4);
}

#[test]
fn test_mod() {
    let vm = &mut new_vm();
    vm.p_mod();
    vm.check_stacks();
    assert_eq!(vm.last_error(), Some(STACK_UNDERFLOW));
    vm.reset();
    vm.clear_stacks();
    vm.s_stack().push(30);
    vm.p_mod();
    vm.check_stacks();
    assert_eq!(vm.last_error(), Some(STACK_UNDERFLOW));
    vm.reset();
    vm.clear_stacks();
    vm.s_stack().push(30);
    vm.s_stack().push(7);
    vm.p_mod();
    vm.check_stacks();
    assert!(vm.last_error().is_none());
    assert_eq!(vm.s_stack().len(), 1);
    assert_eq!(vm.s_stack().pop(), 2);
}

#[test]
fn test_slash_mod() {
    let vm = &mut new_vm();
    vm.slash_mod();
    vm.check_stacks();
    assert_eq!(vm.last_error(), Some(STACK_UNDERFLOW));
    vm.reset();
    vm.clear_stacks();
    vm.s_stack().push(30);
    vm.slash_mod();
    vm.check_stacks();
    assert_eq!(vm.last_error(), Some(STACK_UNDERFLOW));
    vm.reset();
    vm.clear_stacks();
    vm.s_stack().push(30);
    vm.s_stack().push(7);
    vm.slash_mod();
    vm.check_stacks();
    assert!(vm.last_error().is_none());
    assert_eq!(vm.s_stack().len(), 2);
    assert_eq!(vm.s_stack().pop(), 4);
    assert_eq!(vm.s_stack().pop(), 2);
}

#[test]
fn test_abs() {
    let vm = &mut new_vm();
    vm.s_stack().push(-30);
    vm.abs();
    assert!(vm.last_error().is_none());
    assert_eq!(vm.s_stack().len(), 1);
    assert_eq!(vm.s_stack().pop(), 30);
}

#[test]
fn test_negate() {
    let vm = &mut new_vm();
    vm.negate();
    vm.check_stacks();
    assert_eq!(vm.last_error(), Some(STACK_UNDERFLOW));
    vm.reset();
    vm.clear_stacks();
    vm.s_stack().push(30);
    vm.negate();
    vm.check_stacks();
    assert!(vm.last_error().is_none());
    assert_eq!(vm.s_stack().len(), 1);
    assert_eq!(vm.s_stack().pop(), -30);
}

#[test]
fn test_zero_less() {
    let vm = &mut new_vm();
    vm.zero_less();
    vm.check_stacks();
    assert_eq!(vm.last_error(), Some(STACK_UNDERFLOW));
    vm.reset();
    vm.clear_stacks();
    vm.s_stack().push(-1);
    vm.zero_less();
    vm.check_stacks();
    assert!(vm.last_error().is_none());
    assert_eq!(vm.s_stack().len(), 1);
    assert_eq!(vm.s_stack().pop(), -1);
    vm.s_stack().push(0);
    vm.zero_less();
    vm.check_stacks();
    assert!(vm.last_error().is_none());
    assert_eq!(vm.s_stack().len(), 1);
    assert_eq!(vm.s_stack().pop(), 0);
}

#[test]
fn test_zero_equals() {
    let vm = &mut new_vm();
    vm.zero_equals();
    vm.check_stacks();
    assert_eq!(vm.last_error(), Some(STACK_UNDERFLOW));
    vm.reset();
    vm.clear_stacks();
    vm.s_stack().push(0);
    vm.zero_equals();
    vm.check_stacks();
    assert!(vm.last_error().is_none());
    assert_eq!(vm.s_stack().len(), 1);
    assert_eq!(vm.s_stack().pop(), -1);
    vm.s_stack().push(-1);
    vm.zero_equals();
    vm.check_stacks();
    assert!(vm.last_error().is_none());
    assert_eq!(vm.s_stack().len(), 1);
    assert_eq!(vm.s_stack().pop(), 0);
    vm.s_stack().push(1);
    vm.zero_equals();
    vm.check_stacks();
    assert!(vm.last_error().is_none());
    assert_eq!(vm.s_stack().len(), 1);
    assert_eq!(vm.s_stack().pop(), 0);
}

#[test]
fn test_zero_greater() {
    let vm = &mut new_vm();
    vm.zero_greater();
    vm.check_stacks();
    assert_eq!(vm.last_error(), Some(STACK_UNDERFLOW));
    vm.reset();
    vm.clear_stacks();
    vm.s_stack().push(1);
    vm.zero_greater();
    vm.check_stacks();
    assert!(vm.last_error().is_none());
    assert_eq!(vm.s_stack().len(), 1);
    assert_eq!(vm.s_stack().pop(), -1);
    vm.s_stack().push(0);
    vm.zero_greater();
    vm.check_stacks();
    assert!(vm.last_error().is_none());
    assert_eq!(vm.s_stack().len(), 1);
    assert_eq!(vm.s_stack().pop(), 0);
}

#[test]
fn test_zero_not_equals() {
    let vm = &mut new_vm();
    vm.zero_not_equals();
    vm.check_stacks();
    assert_eq!(vm.last_error(), Some(STACK_UNDERFLOW));
    vm.reset();
    vm.clear_stacks();
    vm.s_stack().push(0);
    vm.zero_not_equals();
    vm.check_stacks();
    assert!(vm.last_error().is_none());
    assert_eq!(vm.s_stack().len(), 1);
    assert_eq!(vm.s_stack().pop(), 0);
    vm.s_stack().push(-1);
    vm.zero_not_equals();
    vm.check_stacks();
    assert!(vm.last_error().is_none());
    assert_eq!(vm.s_stack().len(), 1);
    assert_eq!(vm.s_stack().pop(), -1);
    vm.s_stack().push(1);
    vm.zero_not_equals();
    vm.check_stacks();
    assert!(vm.last_error().is_none());
    assert_eq!(vm.s_stack().len(), 1);
    assert_eq!(vm.s_stack().pop(), -1);
}

#[test]
fn test_less_than() {
    let vm = &mut new_vm();
    vm.less_than();
    vm.check_stacks();
    assert_eq!(vm.last_error(), Some(STACK_UNDERFLOW));
    vm.reset();
    vm.clear_stacks();
    vm.s_stack().push(-1);
    vm.less_than();
    vm.check_stacks();
    assert_eq!(vm.last_error(), Some(STACK_UNDERFLOW));
    vm.reset();
    vm.clear_stacks();
    vm.s_stack().push(-1);
    vm.s_stack().push(0);
    vm.less_than();
    vm.check_stacks();
    assert!(vm.last_error().is_none());
    assert_eq!(vm.s_stack().len(), 1);
    assert_eq!(vm.s_stack().pop(), -1);
    vm.s_stack().push(0);
    vm.s_stack().push(0);
    vm.less_than();
    vm.check_stacks();
    assert!(vm.last_error().is_none());
    assert_eq!(vm.s_stack().len(), 1);
    assert_eq!(vm.s_stack().pop(), 0);
}

#[test]
fn test_equals() {
    let vm = &mut new_vm();
    vm.equals();
    vm.check_stacks();
    assert_eq!(vm.last_error(), Some(STACK_UNDERFLOW));
    vm.reset();
    vm.clear_stacks();
    vm.s_stack().push(0);
    vm.equals();
    vm.check_stacks();
    assert_eq!(vm.last_error(), Some(STACK_UNDERFLOW));
    vm.reset();
    vm.clear_stacks();
    vm.s_stack().push(0);
    vm.s_stack().push(0);
    vm.equals();
    vm.check_stacks();
    assert!(vm.last_error().is_none());
    assert_eq!(vm.s_stack().len(), 1);
    assert_eq!(vm.s_stack().pop(), -1);
    vm.s_stack().push(-1);
    vm.s_stack().push(0);
    vm.equals();
    vm.check_stacks();
    assert!(vm.last_error().is_none());
    assert_eq!(vm.s_stack().len(), 1);
    assert_eq!(vm.s_stack().pop(), 0);
    vm.s_stack().push(1);
    vm.s_stack().push(0);
    vm.equals();
    vm.check_stacks();
    assert!(vm.last_error().is_none());
    assert_eq!(vm.s_stack().len(), 1);
    assert_eq!(vm.s_stack().pop(), 0);
}

#[test]
fn test_greater_than() {
    let vm = &mut new_vm();
    vm.greater_than();
    vm.check_stacks();
    assert_eq!(vm.last_error(), Some(STACK_UNDERFLOW));
    vm.reset();
    vm.clear_stacks();
    vm.s_stack().push(1);
    vm.greater_than();
    vm.check_stacks();
    assert_eq!(vm.last_error(), Some(STACK_UNDERFLOW));
    vm.reset();
    vm.clear_stacks();
    vm.s_stack().push(1);
    vm.s_stack().push(0);
    vm.greater_than();
    vm.check_stacks();
    assert!(vm.last_error().is_none());
    assert_eq!(vm.s_stack().len(), 1);
    assert_eq!(vm.s_stack().pop(), -1);
    vm.s_stack().push(0);
    vm.s_stack().push(0);
    vm.greater_than();
    vm.check_stacks();
    assert!(vm.last_error().is_none());
    assert_eq!(vm.s_stack().len(), 1);
    assert_eq!(vm.s_stack().pop(), 0);
}

#[test]
fn test_not_equals() {
    let vm = &mut new_vm();
    vm.not_equals();
    vm.check_stacks();
    assert_eq!(vm.last_error(), Some(STACK_UNDERFLOW));
    vm.reset();
    vm.clear_stacks();
    vm.s_stack().push(0);
    vm.not_equals();
    vm.check_stacks();
    assert_eq!(vm.last_error(), Some(STACK_UNDERFLOW));
    vm.reset();
    vm.clear_stacks();
    vm.s_stack().push(0);
    vm.s_stack().push(0);
    vm.not_equals();
    vm.check_stacks();
    assert!(vm.last_error().is_none());
    assert_eq!(vm.s_stack().len(), 1);
    assert_eq!(vm.s_stack().pop(), 0);
    vm.s_stack().push(-1);
    vm.s_stack().push(0);
    vm.not_equals();
    vm.check_stacks();
    assert!(vm.last_error().is_none());
    assert_eq!(vm.s_stack().len(), 1);
    assert_eq!(vm.s_stack().pop(), -1);
    vm.s_stack().push(1);
    vm.s_stack().push(0);
    vm.not_equals();
    vm.check_stacks();
    assert!(vm.last_error().is_none());
    assert_eq!(vm.s_stack().len(), 1);
    assert_eq!(vm.s_stack().pop(), -1);
}

#[test]
fn test_within() {
    let vm = &mut new_vm();
    vm.within();
    vm.check_stacks();
    assert_eq!(vm.last_error(), Some(STACK_UNDERFLOW));
    vm.reset();
    vm.clear_stacks();
    vm.s_stack().push(1);
    vm.within();
    vm.check_stacks();
    assert_eq!(vm.last_error(), Some(STACK_UNDERFLOW));
    vm.reset();
    vm.clear_stacks();
    vm.s_stack().push(1);
    vm.s_stack().push(1);
    vm.within();
    vm.check_stacks();
    assert_eq!(vm.last_error(), Some(STACK_UNDERFLOW));
    vm.reset();
    vm.clear_stacks();
    vm.s_stack().push(1);
    vm.s_stack().push(1);
    vm.s_stack().push(2);
    vm.within();
    vm.check_stacks();
    assert!(vm.last_error().is_none());
    assert_eq!(vm.s_stack().len(), 1);
    assert_eq!(vm.s_stack().pop(), -1);
    vm.s_stack().push(1);
    vm.s_stack().push(0);
    vm.s_stack().push(1);
    vm.within();
    vm.check_stacks();
    assert!(vm.last_error().is_none());
    assert_eq!(vm.s_stack().len(), 1);
    assert_eq!(vm.s_stack().pop(), 0);
    vm.s_stack().push(0);
    vm.s_stack().push(1);
    vm.s_stack().push(2);
    vm.within();
    vm.check_stacks();
    assert!(vm.last_error().is_none());
    assert_eq!(vm.s_stack().len(), 1);
    assert_eq!(vm.s_stack().pop(), 0);
    vm.s_stack().push(3);
    vm.s_stack().push(1);
    vm.s_stack().push(2);
    vm.within();
    vm.check_stacks();
    assert!(vm.last_error().is_none());
    assert_eq!(vm.s_stack().len(), 1);
    assert_eq!(vm.s_stack().pop(), 0);
}

#[test]
fn test_invert() {
    let vm = &mut new_vm();
    vm.invert();
    vm.check_stacks();
    assert_eq!(vm.last_error(), Some(STACK_UNDERFLOW));
    vm.reset();
    vm.clear_stacks();
    vm.s_stack().push(707);
    vm.invert();
    vm.check_stacks();
    assert!(vm.last_error().is_none());
    assert_eq!(vm.s_stack().len(), 1);
    assert_eq!(vm.s_stack().pop(), -708);
}

#[test]
fn test_and() {
    let vm = &mut new_vm();
    vm.s_stack().push(707);
    vm.s_stack().push(007);
    vm.and();
    vm.check_stacks();
    assert!(vm.last_error().is_none());
    assert!(!vm.s_stack().overflow());
    assert!(!vm.s_stack().underflow());
    assert_eq!(vm.s_stack().len(), 1);
    assert_eq!(vm.s_stack().pop(), 3);
}

#[test]
fn test_or() {
    let vm = &mut new_vm();
    vm.or();
    vm.check_stacks();
    assert_eq!(vm.last_error(), Some(STACK_UNDERFLOW));
    vm.reset();
    vm.clear_stacks();
    vm.s_stack().push(707);
    vm.or();
    vm.check_stacks();
    assert_eq!(vm.last_error(), Some(STACK_UNDERFLOW));
    vm.reset();
    vm.clear_stacks();
    vm.s_stack().push(707);
    vm.s_stack().push(07);
    vm.or();
    vm.check_stacks();
    assert!(vm.last_error().is_none());
    assert_eq!(vm.s_stack().len(), 1);
    assert_eq!(vm.s_stack().pop(), 711);
}

#[test]
fn test_xor() {
    let vm = &mut new_vm();
    vm.xor();
    vm.check_stacks();
    assert_eq!(vm.last_error(), Some(STACK_UNDERFLOW));
    vm.reset();
    vm.clear_stacks();
    vm.s_stack().push(707);
    vm.xor();
    vm.check_stacks();
    assert_eq!(vm.last_error(), Some(STACK_UNDERFLOW));
    vm.reset();
    vm.clear_stacks();
    vm.s_stack().push(707);
    vm.s_stack().push(07);
    vm.xor();
    vm.check_stacks();
    assert!(vm.last_error().is_none());
    assert_eq!(vm.s_stack().len(), 1);
    assert_eq!(vm.s_stack().pop(), 708);
}

#[test]
fn test_lshift() {
    let vm = &mut new_vm();
    vm.lshift();
    vm.check_stacks();
    assert_eq!(vm.last_error(), Some(STACK_UNDERFLOW));
    vm.reset();
    vm.clear_stacks();
    vm.s_stack().push(1);
    vm.lshift();
    vm.check_stacks();
    assert_eq!(vm.last_error(), Some(STACK_UNDERFLOW));
    vm.reset();
    vm.clear_stacks();
    vm.s_stack().push(1);
    vm.s_stack().push(1);
    vm.lshift();
    vm.check_stacks();
    assert!(vm.last_error().is_none());
    assert_eq!(vm.s_stack().len(), 1);
    assert_eq!(vm.s_stack().pop(), 2);
    vm.s_stack().push(1);
    vm.s_stack().push(2);
    vm.lshift();
    vm.check_stacks();
    assert!(vm.last_error().is_none());
    assert_eq!(vm.s_stack().len(), 1);
    assert_eq!(vm.s_stack().pop(), 4);
}

#[test]
fn test_rshift() {
    let vm = &mut new_vm();
    vm.rshift();
    vm.check_stacks();
    assert_eq!(vm.last_error(), Some(STACK_UNDERFLOW));
    vm.reset();
    vm.clear_stacks();
    vm.s_stack().push(8);
    vm.rshift();
    vm.check_stacks();
    assert_eq!(vm.last_error(), Some(STACK_UNDERFLOW));
    vm.reset();
    vm.clear_stacks();
    vm.s_stack().push(8);
    vm.s_stack().push(1);
    vm.rshift();
    vm.check_stacks();
    assert!(vm.last_error().is_none());
    assert_eq!(vm.s_stack().len(), 1);
    assert_eq!(vm.s_stack().pop(), 4);
    vm.s_stack().push(-1);
    vm.s_stack().push(1);
    vm.rshift();
    vm.check_stacks();
    assert!(vm.last_error().is_none());
    assert_eq!(vm.s_stack().len(), 1);
    assert!(vm.s_stack().pop() > 0);
}

#[test]
fn test_parse_word() {
    let vm = &mut new_vm();
    vm.set_source("hello world\t\r\n\"");
    vm.parse_word();
    assert_eq!(vm.last_token().clone().unwrap(), "hello");
    assert_eq!(vm.state().source_index, 6);
    vm.parse_word();
    assert_eq!(vm.last_token().clone().unwrap(), "world");
    assert_eq!(vm.state().source_index, 12);
    vm.parse_word();
    assert_eq!(vm.last_token().clone().unwrap(), "\"");
}

#[test]
fn test_evaluate_input() {
    let vm = &mut new_vm();
    // >r
    vm.set_source(">r");
    vm.evaluate_input();
    assert_eq!(vm.last_error(), Some(INTERPRETING_A_COMPILE_ONLY_WORD));
    vm.reset();
    vm.clear_stacks();
    // drop
    vm.set_source("drop");
    vm.evaluate_input();
    assert_eq!(vm.last_error(), Some(STACK_UNDERFLOW));
    vm.reset();
    vm.clear_stacks();
    // error in colon definition: 4drop
    vm.set_source(": 4drop drop drop drop drop ; 4drop");
    vm.evaluate_input();
    assert_eq!(vm.last_error(), Some(STACK_UNDERFLOW));
    vm.reset();
    vm.clear_stacks();
    // undefined word
    vm.set_source("xdrop");
    vm.evaluate_input();
    assert_eq!(vm.last_error(), Some(UNDEFINED_WORD));
    vm.reset();
    vm.clear_stacks();
    // false true dup 1+ 2 -3
    vm.set_source("false true dup 1+ 2 -3");
    vm.evaluate_input();
    assert!(vm.last_error().is_none());
    assert_eq!(vm.s_stack().len(), 5);
    assert_eq!(vm.s_stack().pop(), -3);
    assert_eq!(vm.s_stack().pop(), 2);
    assert_eq!(vm.s_stack().pop(), 0);
    assert_eq!(vm.s_stack().pop(), -1);
    assert_eq!(vm.s_stack().pop(), 0);
}

#[test]
fn test_push_source() {
    let mut vm = new_vm();
    vm.set_source(": x");
    vm.push_source(" ");
    vm.push_source("1");
    vm.push_source(" ");
    vm.push_source(";");
    assert_eq!(vm.input_buffer(), Some(": x 1 ;".to_owned()));
}

#[test]
fn test_colon_and_semi_colon() {
    let vm = &mut new_vm();
    // :
    vm.set_source(":");
    vm.evaluate_input();
    assert_eq!(vm.last_error(), Some(UNEXPECTED_END_OF_FILE));
    vm.reset();
    vm.clear_stacks();
    // : 2+3 2 3 + ; 2+3
    vm.set_source(": 2+3 2 3 + ; 2+3");
    vm.evaluate_input();
    assert!(vm.last_error().is_none());
    assert_eq!(vm.s_stack().len(), 1);
    assert_eq!(vm.s_stack().pop(), 5);
}

#[test]
fn test_constant() {
    let vm = &mut new_vm();
    // constant x
    vm.set_source("constant");
    vm.evaluate_input();
    // Note: cannot detect underflow.
    // assert_eq!(vm.last_error(), Some(STACK_UNDERFLOW));
    vm.reset();
    vm.clear_stacks();
    // 5 constant x x x
    vm.set_source("5 constant x x x");
    vm.evaluate_input();
    assert!(vm.last_error().is_none());
    assert_eq!(vm.s_stack().len(), 2);
    assert_eq!(vm.s_stack().pop(), 5);
    assert_eq!(vm.s_stack().pop(), 5);
}

#[test]
fn test_constant_in_colon() {
    let vm = &mut new_vm();
    // 77 constant x
    // : 2x  x 2 * ;  2x
    vm.set_source("77 constant x  : 2x x 2 * ;  2x");
    vm.evaluate_input();
    vm.run();
    assert_eq!(vm.s_stack().pop(), 154);
    assert_eq!(vm.s_stack().len, 0);
}

#[test]
fn test_create_and_store_fetch() {
    let vm = &mut new_vm();
    // @
    vm.set_source("@");
    vm.evaluate_input();
    assert_eq!(vm.last_error(), Some(INVALID_MEMORY_ADDRESS));
    vm.reset();
    vm.clear_stacks();
    // !
    vm.set_source("!");
    vm.evaluate_input();
    assert_eq!(vm.last_error(), Some(INVALID_MEMORY_ADDRESS));
    vm.reset();
    vm.clear_stacks();
    // create x  1 cells allot  x !
    vm.set_source("create x  1 cells allot  x !");
    vm.evaluate_input();
    assert_eq!(vm.last_error(), Some(STACK_UNDERFLOW));
    vm.reset();
    vm.clear_stacks();
    // create x  1 cells allot  x @  3 x !  x @
    vm.set_source("create x  1 cells allot  x @  3 x !  x @");
    vm.evaluate_input();
    assert!(vm.last_error().is_none());
    assert_eq!(vm.s_stack().len(), 2);
    assert_eq!(vm.s_stack().pop(), 3);
    assert_eq!(vm.s_stack().pop(), 0);
}

#[test]
fn test_create_and_fetch_in_colon() {
    let vm = &mut new_vm();
    // create x  1 cells allot
    // 7 x !
    // : x@ x @ ; x@
    vm.set_source("create x  1 cells allot  7 x !  : x@ x @ ;  x@");
    vm.evaluate_input();
    vm.run();
    assert_eq!(vm.s_stack().pop(), 7);
    assert_eq!(vm.s_stack().len, 0);
}

#[test]
fn test_create_in_colon() {
    let vm = &mut new_vm();
    // create x 7 ,
    // : x@ x @ ; x@
    vm.set_source("create x 7 ,  : x@ x @ ;  x@");
    vm.evaluate_input();
    vm.run();
    assert_eq!(vm.s_stack().pop(), 7);
    assert_eq!(vm.s_stack().len, 0);
}

#[test]
fn test_char_plus() {
    let vm = &mut new_vm();
    vm.char_plus();
    vm.check_stacks();
    assert_eq!(vm.last_error(), Some(STACK_UNDERFLOW));
    vm.reset();
    // 2 char+
    vm.set_source("2 char+");
    vm.evaluate_input();
    assert!(vm.last_error().is_none());
    assert_eq!(vm.s_stack().as_slice(), [3]);
}

#[test]
fn test_cell_plus_and_cells() {
    let vm = &mut new_vm();
    vm.cell_plus();
    vm.check_stacks();
    assert_eq!(vm.last_error(), Some(STACK_UNDERFLOW));
    vm.reset();
    vm.cells();
    vm.check_stacks();
    assert_eq!(vm.last_error(), Some(STACK_UNDERFLOW));
    vm.reset();
    vm.set_source("2 cell+  9 cells");
    vm.evaluate_input();
    assert!(vm.last_error().is_none());
    assert_eq!(
        vm.s_stack().as_slice(),
        [
            2 + mem::size_of::<isize>() as isize,
            9 * mem::size_of::<isize>() as isize
        ]
    );
}

#[test]
fn test_tick() {
    let vm = &mut new_vm();
    // '
    vm.tick();
    assert_eq!(vm.last_error(), Some(UNEXPECTED_END_OF_FILE));
    vm.reset();
    // ' xdrop
    vm.set_source("' xdrop");
    vm.evaluate_input();
    assert_eq!(vm.last_error(), Some(UNDEFINED_WORD));
    vm.reset();
    vm.clear_stacks();
    // ' drop
    vm.set_source("' drop");
    vm.evaluate_input();
    assert!(vm.last_error().is_none());
    assert_eq!(vm.s_stack().len(), 1);
}

#[test]
fn test_execute() {
    let vm = &mut new_vm();
    // execute
    vm.execute();
    vm.check_stacks();
    assert_eq!(vm.last_error(), Some(UNSUPPORTED_OPERATION));
    vm.reset();
    vm.clear_stacks();
    // ' drop execute
    vm.set_source("' drop");
    vm.evaluate_input();
    vm.execute();
    vm.check_stacks();
    assert_eq!(vm.last_error(), Some(STACK_UNDERFLOW));
    vm.reset();
    vm.clear_stacks();
    // 1 2  ' swap execute
    vm.set_source("1 2  ' swap execute");
    vm.evaluate_input();
    assert!(vm.last_error().is_none());
    assert_eq!(vm.s_stack().len(), 2);
    assert_eq!(vm.s_stack().pop(), 1);
    assert_eq!(vm.s_stack().pop(), 2);
}

#[test]
fn test_here_allot() {
    let vm = &mut new_vm();
    // allot
    vm.allot();
    vm.check_stacks();
    assert_eq!(vm.last_error(), Some(STACK_UNDERFLOW));
    vm.reset();
    // here 2 cells allot here -
    vm.set_source("here 2 cells allot here -");
    vm.evaluate_input();
    assert!(vm.last_error().is_none());
    assert_eq!(vm.s_stack().len(), 1);
    assert_eq!(
        vm.s_stack().pop(),
        -((mem::size_of::<isize>() * 2) as isize)
    );
}

#[test]
fn test_to_r_r_fetch_r_from() {
    let vm = &mut new_vm();
    vm.set_source(": t 3 >r 2 r@ + r> + ; t");
    vm.evaluate_input();
    assert!(vm.last_error().is_none());
    assert_eq!(vm.s_stack().len(), 1);
    assert_eq!(vm.s_stack().pop(), 8);
}

#[test]
fn test_two_to_r_two_r_fetch_two_r_from() {
    let vm = &mut new_vm();
    vm.set_source(": t 1 2 2>r 2r@ + 2r> - * ; t");
    vm.evaluate_input();
    assert!(vm.last_error().is_none());
    assert_eq!(vm.s_stack().len(), 1);
    assert_eq!(vm.s_stack().pop(), -3);
}

#[test]
fn test_if_then() {
    let vm = &mut new_vm();
    // : t5 if ; t5
    vm.set_source(": t5 if ;");
    vm.evaluate_input();
    assert_eq!(vm.last_error(), Some(CONTROL_STRUCTURE_MISMATCH));
    vm.reset();
    vm.clear_stacks();
    // : t4 then ; t4
    vm.set_source(": t4 then ; t4");
    vm.evaluate_input();
    assert_eq!(vm.last_error(), Some(CONTROL_STRUCTURE_MISMATCH));
    vm.reset();
    vm.clear_stacks();
    // : t1 false dup if drop true then ; t1
    vm.set_source(": t1 0 dup if drop -1 then ; t1");
    vm.evaluate_input();
    assert!(vm.last_error().is_none());
    assert_eq!(vm.s_stack().len(), 1);
    assert_eq!(vm.s_stack().pop(), 0);
    vm.reset();
    vm.clear_stacks();
    // : t2 true dup if drop false then ; t1
    vm.set_source(": t1 -1 dup if drop -1 then ; t1");
    vm.evaluate_input();
    assert!(vm.last_error().is_none());
    assert_eq!(vm.s_stack().len(), 1);
    assert_eq!(vm.s_stack().pop(), -1);
}

#[test]
fn test_if_else_then() {
    let vm = &mut new_vm();
    // : t3 else then ; t3
    vm.set_source(": t3 else then ;");
    vm.evaluate_input();
    assert_eq!(vm.last_error(), Some(CONTROL_STRUCTURE_MISMATCH));
    vm.reset();
    vm.clear_stacks();
    vm.set_source(": t1 0 if true else false then ; t1");
    vm.evaluate_input();
    assert!(vm.last_error().is_none());
    assert_eq!(vm.s_stack().len(), 1);
    assert_eq!(vm.s_stack().pop(), 0);
    // : t2 1 if true else false then ; t2
    vm.set_source(": t2 1 if true else false then ; t2");
    vm.evaluate_input();
    assert!(vm.last_error().is_none());
    assert_eq!(vm.s_stack().len(), 1);
    assert_eq!(vm.s_stack().pop(), -1);
}

#[test]
fn test_begin_again() {
    let vm = &mut new_vm();
    // : t3 begin ;
    vm.set_source(": t3 begin ;");
    vm.evaluate_input();
    assert_eq!(vm.last_error(), Some(CONTROL_STRUCTURE_MISMATCH));
    vm.reset();
    vm.clear_stacks();
    // : t2 again ;
    vm.set_source(": t2 again ;");
    vm.evaluate_input();
    assert_eq!(vm.last_error(), Some(CONTROL_STRUCTURE_MISMATCH));
    vm.reset();
    vm.clear_stacks();
    // : t1 0 begin 1+ dup 3 = if exit then again ; t1
    vm.set_source(": t1 0 begin 1+ dup 3 = if exit then again ; t1");
    vm.evaluate_input();
    assert_eq!(vm.last_error(), None);
    assert_eq!(vm.s_stack().len(), 1);
    assert_eq!(vm.s_stack().pop(), 3);
}

#[test]
fn test_begin_while_repeat() {
    let vm = &mut new_vm();
    // : t1 begin ;
    vm.set_source(": t1 begin ;");
    vm.evaluate_input();
    assert_eq!(vm.last_error(), Some(CONTROL_STRUCTURE_MISMATCH));
    vm.reset();
    vm.clear_stacks();
    // : t2 while ;
    vm.set_source(": t2 while ;");
    vm.evaluate_input();
    assert_eq!(vm.last_error(), Some(CONTROL_STRUCTURE_MISMATCH));
    vm.reset();
    vm.clear_stacks();
    // : t3 repeat ;
    vm.set_source(": t3 repeat ;");
    vm.evaluate_input();
    assert_eq!(vm.last_error(), Some(CONTROL_STRUCTURE_MISMATCH));
    vm.reset();
    vm.clear_stacks();
    // : t4 begin while ;
    vm.set_source(": t4 begin while ;");
    vm.evaluate_input();
    assert_eq!(vm.last_error(), Some(CONTROL_STRUCTURE_MISMATCH));
    vm.reset();
    vm.clear_stacks();
    // : t5 begin repeat ;
    vm.set_source(": t5 begin repeat ;");
    vm.evaluate_input();
    assert_eq!(vm.last_error(), Some(CONTROL_STRUCTURE_MISMATCH));
    vm.reset();
    vm.clear_stacks();
    // : t6 while repeat ;
    vm.set_source(": t6 while repeat ;");
    vm.evaluate_input();
    assert_eq!(vm.last_error(), Some(CONTROL_STRUCTURE_MISMATCH));
    vm.reset();
    vm.clear_stacks();
    // : t7 0 begin 1+ dup 3 <> while repeat ; t1
    vm.set_source(": t7 0 begin 1+ dup 3 <> while repeat ; t7");
    vm.evaluate_input();
    assert_eq!(vm.last_error(), None);
    assert_eq!(vm.s_stack().len(), 1);
    assert_eq!(vm.s_stack().pop(), 3);
}

#[test]
fn test_label_goto_call() {
    let vm = &mut new_vm();
    // Go backwards.
    vm.set_source(
        ": test1   0labels  0  [ 10 ] label 1+ dup 3 > if exit then [ 10 ] goto ; test1",
    );
    vm.evaluate_input();
    assert_eq!(vm.s_stack().pop(), 4);
    // Go forwards.
    vm.clear_stacks();
    vm.set_source(": test2   0labels  [ 10 ] goto 1 [ 10 ] label 2 3 ; test2");
    vm.evaluate_input();
    assert_eq!(vm.s_stack().len(), 2);
    // Call backwards
    vm.clear_stacks();
    vm.set_source(": test3   0labels  [ 10 ] goto [ 20 ] label 2 3  exit  [ 10 ] label  [ 20 ] call 4 5 ; test3");
    vm.evaluate_input();
    assert_eq!(vm.s_stack().len(), 4);
    // Call forwards
    vm.clear_stacks();
    vm.set_source(": test4   0labels  [ 10 ] call 1 exit [ 10 ] label 2 3 ; test4");
    vm.evaluate_input();
    assert_eq!(vm.s_stack().len(), 3);
    assert_eq!(vm.s_stack().pop(), 1);
    // Foward reference not resolved.
    vm.clear_stacks();
    vm.set_source(": test5   0labels  [ 10 ] call ; test5");
    vm.evaluate_input();
    assert_eq!(vm.last_error(), Some(CONTROL_STRUCTURE_MISMATCH));
    // 0 goto
    vm.clear_stacks();
    vm.clear_error();
    vm.set_source(": test6   [ 0 ] goto ;");
    vm.evaluate_input();
    assert!(vm.last_error() != None);
    // 0 label
    vm.clear_stacks();
    vm.clear_error();
    vm.set_source(": test7   [ 0 ] label ;");
    vm.evaluate_input();
    assert!(vm.last_error() != None);
    // 0 call
    vm.clear_stacks();
    vm.clear_error();
    vm.set_source(": test8   [ 0 ] call ;");
    vm.evaluate_input();
    assert!(vm.last_error() != None);
}

#[test]
fn test_backslash() {
    let vm = &mut new_vm();
    vm.set_source("1 2 3 \\ 5 6 7");
    vm.evaluate_input();
    assert!(vm.last_error().is_none());
    assert_eq!(vm.s_stack().len(), 3);
    assert_eq!(vm.s_stack().pop(), 3);
    assert_eq!(vm.s_stack().pop(), 2);
    assert_eq!(vm.s_stack().pop(), 1);
}

#[test]
fn test_marker_unmark() {
    let vm = &mut new_vm();
    let wordlist_len = vm.wordlist().len();
    vm.set_source("here marker empty empty here =");
    vm.evaluate_input();
    assert!(vm.last_error().is_none());
    assert_eq!(vm.s_stack().len(), 1);
    assert_eq!(vm.s_stack().pop(), -1);
    assert_eq!(vm.wordlist().len(), wordlist_len);
}

#[test]
fn test_abort() {
    let vm = &mut new_vm();
    vm.set_source("1 2 3 abort 5 6 7");
    vm.evaluate_input();
    assert_eq!(vm.last_error(), Some(ABORT));
    assert_eq!(vm.s_stack().len(), 0);
}

#[test]
fn test_do_loop() {
    let vm = &mut new_vm();
    // : t1 do ;
    vm.set_source(": t1 do ;");
    vm.evaluate_input();
    assert_eq!(vm.last_error(), Some(CONTROL_STRUCTURE_MISMATCH));
    vm.reset();
    vm.clear_stacks();
    // : t2 loop ;
    vm.set_source(": t2 loop ;");
    vm.evaluate_input();
    assert_eq!(vm.last_error(), Some(CONTROL_STRUCTURE_MISMATCH));
    vm.reset();
    vm.clear_stacks();
    // : main 1 5 0 do 1+ loop ;  main
    vm.set_source(": main 1 5 0 do 1+ loop ;  main");
    vm.evaluate_input();
    assert!(vm.last_error().is_none());
    assert_eq!(vm.s_stack().len(), 1);
    assert_eq!(vm.s_stack().pop(), 6);
}

#[test]
fn test_do_unloop_exit_loop() {
    let vm = &mut new_vm();
    // : t1 unloop ;
    vm.set_source(": t1 unloop ; t1");
    vm.evaluate_input();
    assert_eq!(vm.last_error(), Some(RETURN_STACK_UNDERFLOW));
    vm.reset();
    vm.clear_stacks();
    // : main 1 5 0 do 1+ dup 3 = if unloop exit then loop ;  main
    vm.set_source(": main 1 5 0 do 1+ dup 3 = if unloop exit then loop ;  main");
    vm.evaluate_input();
    assert!(vm.last_error().is_none());
    assert_eq!(vm.s_stack().len(), 1);
    assert_eq!(vm.s_stack().pop(), 3);
}

#[test]
fn test_do_plus_loop() {
    let vm = &mut new_vm();
    // : t1 +loop ;
    vm.set_source(": t1 +loop ;");
    vm.evaluate_input();
    assert_eq!(vm.last_error(), Some(CONTROL_STRUCTURE_MISMATCH));
    vm.reset();
    vm.clear_stacks();
    // : t2 5 0 do +loop ;
    vm.set_source(": t2 5 0 do +loop ; t2");
    vm.evaluate_input();
    assert_eq!(vm.last_error(), Some(STACK_UNDERFLOW));
    vm.clear_stacks();
    vm.reset();
    // : t3 1 5 0 do 1+ 2 +loop ;  main
    vm.set_source(": t3 1 5 0 do 1+ 2 +loop ;  t3");
    vm.evaluate_input();
    assert_eq!(vm.last_error(), None);
    assert_eq!(vm.s_stack().len(), 1);
    assert_eq!(vm.s_stack().pop(), 4);
    // : t4 1 6 0 do 1+ 2 +loop ;  t4
    vm.set_source(": t4 1 6 0 do 1+ 2 +loop ;  t4");
    vm.evaluate_input();
    assert!(vm.last_error().is_none());
    assert_eq!(vm.s_stack().len(), 1);
    assert_eq!(vm.s_stack().pop(), 4);
}

#[test]
fn test_do_leave_loop() {
    let vm = &mut new_vm();
    // : t1 leave ;
    vm.set_source(": t1 leave ;  t1");
    vm.evaluate_input();
    assert_eq!(vm.last_error(), Some(CONTROL_STRUCTURE_MISMATCH));
    vm.reset();
    vm.clear_stacks();
    // : main 1 5 0 do 1+ dup 3 = if drop 88 leave then loop 9 ;  main
    vm.set_source(": main 1 5 0 do 1+ dup 3 = if drop 88 leave then loop 9 ;  main");
    vm.evaluate_input();
    assert_eq!(vm.last_error(), None);
    assert_eq!(vm.s_stack().len(), 2);
    assert_eq!(vm.s_stack().pop2(), (88, 9));
}

#[test]
fn test_do_leave_plus_loop() {
    let vm = &mut new_vm();
    // : main 1 5 0 do 1+ dup 3 = if drop 88 leave then 2 +loop 9 ;  main
    vm.set_source(": main 1 5 0 do 1+ dup 3 = if drop 88 leave then 2 +loop 9 ;  main");
    vm.evaluate_input();
    assert_eq!(vm.last_error(), None);
    assert_eq!(vm.s_stack().len(), 2);
    assert_eq!(vm.s_stack().pop2(), (88, 9));
}

#[test]
fn test_do_i_loop() {
    let vm = &mut new_vm();
    // : main 3 0 do i loop ;  main
    vm.set_source(": main 3 0 do i loop ;  main");
    vm.evaluate_input();
    assert_eq!(vm.last_error(), None);
    assert_eq!(vm.s_stack().len(), 3);
    assert_eq!(vm.s_stack().pop3(), (0, 1, 2));
}

#[test]
fn test_do_i_j_loop() {
    let vm = &mut new_vm();
    vm.set_source(": main 6 4 do 3 1 do i j * loop loop ;  main");
    vm.evaluate_input();
    assert_eq!(vm.last_error(), None);
    assert_eq!(vm.s_stack().len(), 4);
    assert_eq!(vm.s_stack().as_slice(), [4, 8, 5, 10]);
}

#[test]
fn test_here_comma_compile_interpret() {
    let vm = &mut new_vm();
    vm.comma();
    vm.check_stacks();
    assert_eq!(vm.last_error(), Some(STACK_UNDERFLOW));
    vm.reset();
    // here 1 , 2 , ] lit exit [ here
    let here = vm.data_space().here();
    vm.set_source("here 1 , 2 , ] lit exit [ here");
    vm.evaluate_input();
    assert!(vm.last_error().is_none());
    assert_eq!(vm.s_stack().len(), 2);
    let (n, t) = vm.s_stack().pop2();
    assert!(!vm.s_stack().underflow());
    assert_eq!(t - n, 4 * mem::size_of::<usize>() as isize);
    assert_eq!(vm.data_space().get_isize(here + 0), 1);
    assert_eq!(vm.data_space().get_isize(here + mem::size_of::<isize>()), 2);
    assert_eq!(
        vm.data_space()
            .get_isize(here + 2 * mem::size_of::<isize>()),
        vm.references().idx_lit as isize
    );
    assert_eq!(
        vm.data_space()
            .get_isize(here + 3 * mem::size_of::<isize>()),
        vm.references().idx_exit as isize
    );
}
