use rtforth::exception::{
    CONTROL_STRUCTURE_MISMATCH, DIVISION_BY_ZERO, INTERPRETING_A_COMPILE_ONLY_WORD,
    INVALID_NUMERIC_ARGUMENT, STACK_OVERFLOW,
};
use rtforth::vm::VM;

fn machine() -> VM {
    VM::with_capacity(0x10000)
}

fn stack_after(input: &str) -> Vec<isize> {
    let vm = &mut machine();
    vm.set_source(input);
    vm.evaluate_input();
    assert_eq!(vm.last_error(), None);
    vm.s_stack().as_slice().to_vec()
}

#[test]
fn create_comma_fetch_in_colon() {
    assert_eq!(stack_after("create x 3 ,  : x@ x @ ;  x@"), [3]);
}

#[test]
fn do_loop_counts_up_to_the_limit() {
    assert_eq!(stack_after(": t 1 5 0 do 1+ loop ; t"), [6]);
    assert_eq!(stack_after(": t 1 1 0 do 1+ loop ; t"), [2]);
    assert_eq!(stack_after(": t 1 100 0 do 1+ loop ; t"), [101]);
    assert_eq!(stack_after(": t 1 1000 0 do 1+ loop ; t"), [1001]);
}

#[test]
fn do_i_loop_leaves_the_indices() {
    assert_eq!(stack_after(": t 3 0 do i loop ; t"), [0, 1, 2]);
}

#[test]
fn slash_mod_truncates_toward_zero() {
    assert_eq!(stack_after("7 2 /mod"), [1, 3]);
    assert_eq!(stack_after("-7 2 /mod"), [-1, -3]);
    assert_eq!(stack_after("7 -2 /mod"), [1, -3]);
    assert_eq!(stack_after("-7 -2 /mod"), [-1, 3]);
    assert_eq!(stack_after("-7 2 /"), [-3]);
    assert_eq!(stack_after("-7 2 mod"), [-1]);
    let vm = &mut machine();
    vm.s_stack().push2(isize::MIN, -1);
    vm.slash_mod();
    assert_eq!(vm.s_stack().as_slice(), [0, isize::MIN]);
}

#[test]
fn division_by_zero_is_raised() {
    for input in ["1 0 /", "1 0 mod", "1 0 /mod"] {
        let vm = &mut machine();
        vm.set_source(input);
        vm.evaluate_input();
        assert_eq!(vm.last_error(), Some(DIVISION_BY_ZERO));
        assert_eq!(vm.s_stack().len(), 0);
    }
}

#[test]
fn store_fetch_round_trip() {
    for v in [0, 1, -1, 255, 256, isize::MAX, isize::MIN, 0x1234_5678_9abc] {
        let vm = &mut machine();
        vm.set_source("create x 0 ,  x");
        vm.evaluate_input();
        let x = vm.s_stack().pop();
        vm.s_stack().push2(v, x);
        vm.store();
        vm.s_stack().push(x);
        vm.fetch();
        assert_eq!(vm.last_error(), None);
        assert_eq!(vm.s_stack().as_slice(), [v]);
    }
}

#[test]
fn c_store_c_fetch_round_trip_modulo_256() {
    for v in [0, 1, 255, 256, 257, -1, isize::MIN] {
        let vm = &mut machine();
        vm.set_source("create x 0 ,  x");
        vm.evaluate_input();
        let x = vm.s_stack().pop();
        vm.s_stack().push2(v, x);
        vm.c_store();
        vm.s_stack().push(x);
        vm.c_fetch();
        assert_eq!(vm.last_error(), None);
        assert_eq!(vm.s_stack().as_slice(), [v & 0xff]);
    }
}

#[test]
fn marker_restores_dictionary_and_data_space() {
    assert_eq!(stack_after("here marker m  m here ="), [-1]);
    let vm = &mut machine();
    let words = vm.wordlist().len();
    let here = vm.data_space().here();
    vm.set_source("marker m  : a 1 ;  create b 5 ,  m");
    vm.evaluate_input();
    assert_eq!(vm.last_error(), None);
    assert_eq!(vm.wordlist().len(), words);
    assert_eq!(vm.data_space().here(), here);
    assert!(vm.find("a").is_none());
    assert!(vm.find("dup").is_some());
}

#[test]
fn semicolon_requires_closed_structures() {
    let vm = &mut machine();
    vm.set_source(": t 1 2 + ;");
    vm.evaluate_input();
    assert_eq!(vm.last_error(), None);
    assert_eq!(vm.c_stack().len(), 0);
    assert!(!vm.state().is_compiling);
    assert!(vm.find("t").is_some());
    for input in [": a begin ;", ": b 0labels [ 7 ] goto ;", ": c case ;", ": d 1 0 do ;"] {
        let vm = &mut machine();
        vm.set_source(input);
        vm.evaluate_input();
        assert_eq!(vm.last_error(), Some(CONTROL_STRUCTURE_MISMATCH));
        assert!(!vm.state().is_compiling);
    }
}

#[test]
fn compile_only_words_are_not_interpreted() {
    for input in [">r", "if", "exit", "lit", "leave", "i", ";", "pause"] {
        let vm = &mut machine();
        vm.set_source(input);
        vm.evaluate_input();
        assert_eq!(vm.last_error(), Some(INTERPRETING_A_COMPILE_ONLY_WORD));
    }
}

#[test]
fn find_ignores_case() {
    let vm = &mut machine();
    vm.set_source(": MixedCase 1 ;");
    vm.evaluate_input();
    let xt = vm.find("mixedcase");
    assert!(xt.is_some());
    assert_eq!(vm.find("MIXEDCASE"), xt);
    assert_eq!(vm.find("MixedCase"), xt);
    assert_eq!(vm.find("mIXEDcASE"), xt);
    assert_eq!(vm.find("DUP"), vm.find("dup"));
    assert_eq!(vm.find("Parse-Word"), vm.find("parse-word"));
    assert_eq!(stack_after("1 DUP Swap oVeR"), [1, 1, 1]);
}

#[test]
fn canary_detects_overflow_after_129_pushes() {
    let vm = &mut machine();
    vm.s_stack().reset();
    for i in 0..129 {
        vm.s_stack().push(i);
    }
    assert!(vm.s_stack().overflow());
    vm.check_stacks();
    assert_eq!(vm.last_error(), Some(STACK_OVERFLOW));
    assert_eq!(vm.s_stack().len(), 0);
}

#[test]
fn stack_within_bounds_is_accepted() {
    let vm = &mut machine();
    for i in 0..64 {
        vm.s_stack().push(i);
    }
    vm.check_stacks();
    assert_eq!(vm.last_error(), None);
    vm.s_stack().push(64);
    vm.check_stacks();
    assert_eq!(vm.last_error(), Some(STACK_OVERFLOW));
}

#[test]
fn label_round_trip() {
    assert_eq!(
        stack_after(": test 0labels 0 [ 10 ] label 1+ dup 3 > if exit then [ 10 ] goto ; test"),
        [4]
    );
}

#[test]
fn labels_are_checked() {
    for input in [": a [ 1000 ] label ;", ": b [ -1 ] goto ;", ": c 0labels [ 5 ] label [ 5 ] label ;"]
    {
        let vm = &mut machine();
        vm.set_source(input);
        vm.evaluate_input();
        assert_eq!(vm.last_error(), Some(INVALID_NUMERIC_ARGUMENT));
    }
    assert_eq!(
        stack_after(": t 0labels [ 7 ] goto 1 [ 7 ] goto 2 [ 7 ] label 3 ; t"),
        [3]
    );
}

#[test]
fn scenario_square() {
    assert_eq!(stack_after(": sq dup * ; 7 sq"), [49]);
}

#[test]
fn scenario_backslash_comment() {
    assert_eq!(stack_after("1 2 3 \\ 5 6 7"), [1, 2, 3]);
}

#[test]
fn scenario_leave() {
    assert_eq!(
        stack_after(": main 1 5 0 do 1+ dup 3 = if drop 88 leave then loop 9 ; main"),
        [88, 9]
    );
}

#[test]
fn scenario_return_stack() {
    assert_eq!(stack_after(": t 3 >r 2 r@ + r> + ; t"), [8]);
}

#[test]
fn scenario_underflow_on_second_drop() {
    let vm = &mut machine();
    vm.set_source(": bad ;  1 drop drop");
    vm.evaluate_input();
    assert_eq!(vm.last_error(), Some(rtforth::exception::STACK_UNDERFLOW));
    assert_eq!(vm.s_stack().len(), 0);
    assert_eq!(vm.f_stack().len(), 0);
    assert_eq!(vm.c_stack().len(), 0);
    assert_eq!(vm.last_token(), Some("drop".to_owned()));
    assert_eq!(vm.state().source_index, 20);
}

#[test]
fn scenario_constant_in_colon() {
    assert_eq!(stack_after("77 constant x  : 2x x 2 * ; 2x"), [154]);
}
