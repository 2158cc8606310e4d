use rtforth::dictionary::{Action, FileWord, SourceWord, Wordlist};
use rtforth::exception::{
    description, DICTIONARY_OVERFLOW, FILE_IO_EXCEPTION, FLOATING_POINT_STACK_OVERFLOW,
    FLOATING_POINT_STACK_UNDERFLOW, INVALID_MEMORY_ADDRESS, INVALID_NUMERIC_ARGUMENT,
    RESULT_OUT_OF_RANGE, RETURN_STACK_OVERFLOW, UNDEFINED_WORD, UNEXPECTED_END_OF_FILE,
};
use rtforth::file_access::{FileOp, FileOutcome};
use rtforth::loader::SourceOp;
use rtforth::vm::{Request, VM};

fn fresh() -> VM {
    VM::with_capacity(0x10000)
}

fn run(vm: &mut VM, input: &str) {
    vm.set_source(input);
    vm.evaluate_input();
}

fn eval(input: &str) -> Vec<isize> {
    let vm = &mut fresh();
    run(vm, input);
    assert_eq!(vm.last_error(), None);
    vm.s_stack().as_slice().to_vec()
}

#[test]
fn numbers_in_bases() {
    assert_eq!(eval("123 -3 +7"), [123, -3, 7]);
    assert_eq!(eval("$ff $-ff %101 #10"), [255, -255, 5, 10]);
    assert_eq!(eval("16 base ! ff FF #10 10"), [255, 255, 10, 16]);
    assert_eq!(eval("'a' 'A' '''"), [97, 65, 39]);
    assert_eq!(eval("2 base ! 101 #9"), [5, 9]);
}

#[test]
fn malformed_numbers_are_undefined_words() {
    for input in ["12x", "--1", "$", "$g", "1..5", "1.5e", "1e5", ".5", "8 base ! 8"] {
        let vm = &mut fresh();
        run(vm, input);
        assert_eq!(vm.last_error(), Some(UNDEFINED_WORD), "{}", input);
    }
}

#[test]
fn float_literals_are_handed_to_the_host() {
    let vm = &mut fresh();
    run(vm, "1 -12.5e-3 2");
    assert_eq!(vm.last_error(), None);
    assert_eq!(vm.s_stack().as_slice(), [1]);
    let literal = match vm.request() {
        Request::Float(literal) => literal,
        other => panic!("{:?}", other),
    };
    assert!(literal.negative);
    assert_eq!((literal.int_start, literal.int_end, literal.frac_end), (1, 3, 5));
    assert!(literal.has_exponent && literal.exp_negative);
    assert_eq!((literal.exp_start, literal.exp_end), (7, 8));
    assert_eq!(vm.last_token(), Some("-12.5e-3".to_owned()));
    vm.accept_float((-12.5e-3f64).to_bits());
    assert_eq!(vm.request(), Request::Nothing);
    assert_eq!(vm.f_stack().as_slice(), [(-12.5e-3f64).to_bits()]);
    vm.evaluate_input();
    assert_eq!(vm.s_stack().as_slice(), [1, 2]);
}

#[test]
fn float_literals_are_compiled() {
    let vm = &mut fresh();
    run(vm, ": t 2.5 7 ;");
    assert!(matches!(vm.request(), Request::Float(_)));
    vm.accept_float(2.5f64.to_bits());
    vm.evaluate_input();
    assert_eq!(vm.last_error(), None);
    assert_eq!(vm.f_stack().len(), 0);
    run(vm, "t t");
    assert_eq!(vm.last_error(), None);
    assert_eq!(vm.s_stack().as_slice(), [7, 7]);
    assert_eq!(vm.f_stack().as_slice(), [2.5f64.to_bits(), 2.5f64.to_bits()]);
}

#[test]
fn float_stack_is_checked() {
    let vm = &mut fresh();
    for _ in 0..65 {
        vm.f_stack().push(1.0f64.to_bits());
    }
    vm.check_stacks();
    assert_eq!(vm.last_error(), Some(FLOATING_POINT_STACK_OVERFLOW));
    vm.reset();
    let _ = vm.f_stack().pop();
    vm.check_stacks();
    assert_eq!(vm.last_error(), Some(FLOATING_POINT_STACK_UNDERFLOW));
}

#[test]
fn stack_words() {
    assert_eq!(eval("1 2 3 rot"), [2, 3, 1]);
    assert_eq!(eval("1 2 3 -rot"), [3, 1, 2]);
    assert_eq!(eval("1 2 3 4 2swap"), [3, 4, 1, 2]);
    assert_eq!(eval("1 2 3 4 2over"), [1, 2, 3, 4, 1, 2]);
    assert_eq!(eval("1 2 2dup"), [1, 2, 1, 2]);
    assert_eq!(eval("1 2 nip"), [2]);
    assert_eq!(eval("5 6 7 2 pick"), [5, 6, 7, 5]);
    assert_eq!(eval("5 6 7 depth"), [5, 6, 7, 3]);
}

#[test]
fn arithmetic_wraps() {
    let max = isize::MAX;
    let min = isize::MIN;
    let vm = &mut fresh();
    vm.s_stack().push2(max, 1);
    vm.plus();
    assert_eq!(vm.s_stack().pop(), min);
    vm.s_stack().push2(min, 1);
    vm.minus();
    assert_eq!(vm.s_stack().pop(), max);
    vm.s_stack().push2(max, 2);
    vm.star();
    assert_eq!(vm.s_stack().pop(), -2);
    vm.s_stack().push(min);
    vm.abs();
    assert_eq!(vm.s_stack().pop(), min);
    vm.s_stack().push(min);
    vm.negate();
    assert_eq!(vm.s_stack().pop(), min);
    vm.s_stack().push(max);
    vm.one_plus();
    assert_eq!(vm.s_stack().pop(), min);
    vm.s_stack().push2(min, -1);
    vm.slash();
    assert_eq!(vm.s_stack().pop(), min);
    vm.s_stack().push2(min, -1);
    vm.p_mod();
    assert_eq!(vm.s_stack().pop(), 0);
    assert_eq!(vm.last_error(), None);
}

#[test]
fn comparison_and_bits() {
    assert_eq!(eval("1 2 < 2 1 < 1 1 ="), [-1, 0, -1]);
    assert_eq!(eval("2 1 > 1 2 <> 0 0= 5 0> -5 0<"), [-1, -1, -1, -1, -1]);
    assert_eq!(eval("5 1 10 within 1 1 10 within 10 1 10 within 0 1 10 within"), [-1, -1, 0, 0]);
    assert_eq!(eval("12 10 and 12 10 or 12 10 xor 0 invert"), [8, 14, 6, -1]);
    assert_eq!(eval("1 4 lshift -1 1 rshift"), [16, isize::MAX]);
    assert_eq!(eval("1 64 lshift 1 65 lshift"), [1, 2]);
}

#[test]
fn memory_words() {
    assert_eq!(eval("here aligned here ="), [-1]);
    assert_eq!(eval("create b 3 allot  65 b c!  66 b 1 + c!  b c@ b 1 + c@"), [65, 66]);
    assert_eq!(eval("here 1 allot align here swap -"), [8]);
    assert_eq!(eval("7 aligned 8 aligned 9 aligned"), [8, 8, 16]);
    assert_eq!(
        eval("create a 1 , 2 , 3 ,  create b 3 cells allot  a b 3 cells move  b @ b cell+ @ b 2 cells + @"),
        [1, 2, 3]
    );
    assert_eq!(
        eval("create a 1 , 2 , 3 ,  a a cell+ 2 cells move  a @ a cell+ @ a 2 cells + @"),
        [1, 1, 2]
    );
    assert_eq!(eval("base @"), [10]);
}

#[test]
fn memory_is_bounds_checked() {
    for input in ["0 @", "1 0 !", "-1 c@", "1 -1 c!", "here 0 100000 move", "0 here 1 move"] {
        let vm = &mut fresh();
        run(vm, input);
        assert_eq!(vm.last_error(), Some(INVALID_MEMORY_ADDRESS), "{}", input);
    }
    let vm = &mut fresh();
    let limit = vm.data_space().limit() as isize;
    vm.s_stack().push(limit - 8);
    vm.fetch();
    assert_eq!(vm.last_error(), None);
    vm.s_stack().push(limit - 7);
    vm.fetch();
    assert_eq!(vm.last_error(), Some(INVALID_MEMORY_ADDRESS));
}

#[test]
fn allot_stays_in_data_space() {
    let vm = &mut fresh();
    let here = vm.data_space().here();
    run(vm, "1000000 allot");
    assert_eq!(vm.data_space().here(), here);
    run(vm, "-1000000 allot");
    assert_eq!(vm.data_space().here(), here);
    run(vm, "16 allot");
    assert_eq!(vm.data_space().here(), here + 16);
    run(vm, "-16 allot");
    assert_eq!(vm.data_space().here(), here);
}

#[test]
fn data_space_is_exhausted_without_panic() {
    let vm = &mut VM::with_capacity(64);
    assert_eq!(vm.last_error(), Some(DICTIONARY_OVERFLOW));
    let vm = &mut VM::with_capacity(0x2000);
    assert_eq!(vm.last_error(), None);
    run(vm, ": fill 2000 0 do 0 , loop ; fill");
    assert_eq!(vm.last_error(), Some(DICTIONARY_OVERFLOW));
    assert!(vm.data_space().limit() - vm.data_space().here() < 8);
}

#[test]
fn control_structures() {
    assert_eq!(eval(": t 10 begin 1- dup 0= until ; t"), [0]);
    assert_eq!(eval(": t 0 10 0 ?do 1+ loop 0 0 ?do 1+ loop ; t"), [10]);
    assert_eq!(eval(": t 0 10 0 do i + 3 +loop ; t"), [18]);
    assert_eq!(
        eval(": t case 1 of 10 endof 2 of 20 endof 99 swap endcase ; 1 t 2 t 3 t"),
        [10, 20, 99]
    );
    assert_eq!(eval(": fact dup 1 > if dup 1- recurse * then ; 5 fact"), [120]);
    assert_eq!(eval(": t if 1 else 2 then ; 0 t -1 t"), [2, 1]);
    assert_eq!(eval(": t 0 begin dup 5 < while 1+ repeat ; t"), [5]);
}

#[test]
fn nested_loops_and_unloop() {
    assert_eq!(eval(": t 2 0 do 2 0 do j 10 * i + loop loop ; t"), [0, 1, 10, 11]);
    assert_eq!(eval(": t 10 0 do i 3 = if i unloop exit then loop 99 ; t"), [3]);
}

#[test]
fn defining_words() {
    assert_eq!(eval(": const create , does> @ ; 5 const five five five 1+"), [5, 6]);
    assert_eq!(eval("create x 1 , 2 ,  ' x >body @  x cell+ @"), [1, 2]);
    assert_eq!(eval(": t [char] A ['] dup execute ; t char b"), [65, 65, 98]);
    assert_eq!(eval(": t 1 ; : u postpone t ; immediate : v u ; v"), [1]);
    assert_eq!(eval(": t ( a comment ) 1 ; t"), [1]);
    assert_eq!(eval("3 constant three : t three three + ; t"), [6]);
}

#[test]
fn redefinition_is_announced_and_newest_wins() {
    let vm = &mut fresh();
    run(vm, ": t 1 ; : T 2 ; t");
    assert_eq!(vm.last_error(), None);
    assert_eq!(vm.s_stack().as_slice(), [2]);
    assert_eq!(vm.output_buffer().clone(), Some(b"Redefining t".to_vec()));
}

#[test]
fn hidden_while_compiling() {
    let vm = &mut fresh();
    run(vm, ": t 1 ; : t t 2 ; t");
    assert_eq!(vm.last_error(), None);
    assert_eq!(vm.s_stack().as_slice(), [1, 2]);
}

#[test]
fn names_and_tokens() {
    let vm = &mut fresh();
    run(vm, ": t ; ' t >name");
    let nfa = vm.s_stack().pop() as usize;
    assert_eq!(vm.data_space().get_str(nfa), b"t");
    let xt = vm.find("t").unwrap();
    assert_eq!(vm.wordlist().find_xt(nfa), Some(xt));
    assert_eq!(vm.wordlist().find_xt(nfa + 12), Some(xt));
    assert_eq!(vm.wordlist().find_xt(0), None);
    assert_eq!(vm.wordlist().get(xt).nfa(), nfa);
    assert_eq!(vm.wordlist().get(xt).action(), Action::Nest);
    run(vm, "create buf 300 allot  buf");
    vm.set_last_token("hello");
    vm.store_token();
    run(vm, "buf c@ buf 1 + c@");
    assert_eq!(vm.last_error(), None);
    assert_eq!(vm.s_stack().as_slice(), [5, 104]);
    vm.set_last_token("");
    vm.token_empty();
    vm.set_last_token("x");
    vm.token_empty();
    assert_eq!(vm.s_stack().as_slice(), [5, 104, -1, 0]);
    let limit = vm.data_space().limit() as isize;
    vm.s_stack().push(limit - 1);
    vm.store_token();
    assert_eq!(vm.last_error(), Some(INVALID_MEMORY_ADDRESS));
}

#[test]
fn tokenizer() {
    let vm = &mut fresh();
    vm.set_source("  a\tbc\r\n  d");
    vm.parse_word();
    assert_eq!(vm.last_token(), Some("a".to_owned()));
    assert_eq!(vm.state().source_index, 4);
    vm.parse_word();
    assert_eq!(vm.last_token(), Some("bc".to_owned()));
    assert_eq!(vm.state().source_index, 7);
    vm.parse_word();
    assert_eq!(vm.last_token(), Some("d".to_owned()));
    assert_eq!(vm.state().source_index, 11);
    vm.parse_word();
    assert_eq!(vm.last_token(), Some(String::new()));
    assert_eq!(vm.state().source_index, 11);
    vm.set_source("one)two");
    vm.s_stack().push(')' as isize);
    vm.parse();
    assert_eq!(vm.last_token(), Some("one".to_owned()));
    assert_eq!(vm.state().source_index, 4);
    vm.s_stack().push(')' as isize);
    vm.parse();
    assert_eq!(vm.last_token(), Some("two".to_owned()));
    assert_eq!(vm.state().source_index, 7);
    vm.set_source("xxxy");
    vm.s_stack().push('x' as isize);
    vm._skip();
    assert_eq!(vm.state().source_index, 3);
    vm.state().source_index = 100;
    vm.parse_word();
    assert_eq!(vm.last_token(), Some(String::new()));
    assert_eq!(vm.state().source_index, 100);
}

#[test]
fn input_that_is_not_utf8_is_kept_as_bytes() {
    let vm = &mut fresh();
    vm.set_source("a\u{e9}b");
    vm.s_stack().push(0xa9);
    vm.parse();
    assert_eq!(vm.last_token(), None);
    assert_eq!(vm.state().source_index, 3);
    vm.parse_word();
    assert_eq!(vm.last_token(), Some("b".to_owned()));
}

#[test]
fn output_words() {
    let vm = &mut fresh();
    run(vm, ".token");
    assert_eq!(vm.output_buffer().clone(), Some(b".token".to_vec()));
    vm.set_last_token("hello");
    vm.dot_token();
    assert_eq!(vm.output_buffer().clone(), Some(b".tokenhello".to_vec()));
    vm.set_output_buffer(Vec::new());
    run(vm, "nothing");
    assert_eq!(vm.last_error(), Some(UNDEFINED_WORD));
    vm.dot_error();
    assert_eq!(vm.output_buffer().clone(), Some(description(UNDEFINED_WORD).as_bytes().to_vec()));
    vm.error();
    assert_eq!(vm.s_stack().pop(), UNDEFINED_WORD);
    vm.clear_error();
    vm.error();
    assert_eq!(vm.s_stack().pop(), 0);
}

#[test]
fn hash_is_djb2_of_lower_case() {
    assert_eq!(Wordlist::hash(b""), 5381);
    assert_eq!(Wordlist::hash(b"a"), 5381 * 33 + 97);
    assert_eq!(Wordlist::hash(b"A"), 5381 * 33 + 97);
    assert_eq!(Wordlist::hash(b"ab"), (5381 * 33 + 97) * 33 + 98);
    assert_eq!(Wordlist::hash(b"Dup"), Wordlist::hash(b"dUP"));
    assert_ne!(Wordlist::hash(b"dup"), Wordlist::hash(b"dub"));
}

#[test]
fn nesting_is_limited() {
    let vm = &mut fresh();
    vm.set_nesting_limit(0);
    let xt = vm.find("dup").unwrap();
    vm.s_stack().push(1);
    vm.execute_word(xt);
    assert_eq!(vm.last_error(), Some(RETURN_STACK_OVERFLOW));
    assert_eq!(vm.s_stack().len(), 0);
    let vm = &mut fresh();
    run(vm, "' abort handler! abort");
    assert_eq!(vm.last_error(), Some(RETURN_STACK_OVERFLOW));
}

#[test]
fn steps_are_limited() {
    let vm = &mut fresh();
    vm.set_step_limit(1000);
    run(vm, ": forever begin again ; forever");
    assert_eq!(vm.last_error(), None);
    assert!(vm.is_running());
    vm.bye();
    assert!(!vm.is_running());
}

#[test]
fn handler_runs_on_abort() {
    let vm = &mut fresh();
    run(vm, ": h 42 ; ' h handler! 1 2 nothing");
    assert_eq!(vm.last_error(), Some(UNDEFINED_WORD));
    let failed_after = vm.find("handler!").unwrap();
    assert_eq!(vm.state().aborted_word_pointer, failed_after);
    vm.run();
    assert_eq!(vm.s_stack().as_slice(), [42]);
}

#[test]
fn tasks_take_turns() {
    let vm = &mut fresh();
    run(vm, "me");
    assert_eq!(vm.s_stack().as_slice(), [1]);
    assert_eq!(vm.current_task(), 0);
    assert!(vm.awake(0));
    assert!(!vm.awake(1) && !vm.awake(5));
    vm.pause();
    assert_eq!(vm.current_task(), 0);
    run(vm, "3 resume");
    assert!(vm.awake(2));
    vm.pause();
    assert_eq!(vm.current_task(), 2);
    assert_eq!(vm.s_stack().len(), 0);
    vm.me();
    assert_eq!(vm.s_stack().as_slice(), [3]);
    vm.pause();
    assert_eq!(vm.current_task(), 0);
    assert_eq!(vm.s_stack().as_slice(), [1]);
    run(vm, "3 suspend");
    assert!(!vm.awake(2));
    vm.pause();
    assert_eq!(vm.current_task(), 0);
    run(vm, "6 resume");
    assert_eq!(vm.last_error(), Some(INVALID_NUMERIC_ARGUMENT));
    vm.set_current_task(9);
    assert_eq!(vm.current_task(), 0);
}

#[test]
fn activate_hands_the_rest_of_the_definition_to_a_task() {
    let vm = &mut fresh();
    run(vm, ": worker 2 activate 7 pause ; : boss worker 5 ; boss");
    assert_eq!(vm.last_error(), None);
    assert_eq!(vm.current_task(), 0);
    assert_eq!(vm.s_stack().as_slice(), [5]);
    assert!(vm.awake(1));
    vm.pause();
    assert_eq!(vm.current_task(), 1);
    vm.run();
    assert_eq!(vm.current_task(), 0);
    vm.set_current_task(1);
    assert_eq!(vm.s_stack().as_slice(), [7]);
}

#[test]
fn host_words_leave_a_request() {
    let vm = &mut fresh();
    vm.add_primitive("receive", Action::Host(3));
    run(vm, ": t 1 receive 2 ; t 3");
    assert_eq!(vm.request(), Request::Host(3));
    assert_eq!(vm.s_stack().as_slice(), [1]);
    vm.complete_request();
    vm.run();
    assert_eq!(vm.s_stack().as_slice(), [1, 2]);
    vm.evaluate_input();
    assert_eq!(vm.s_stack().as_slice(), [1, 2, 3]);
}

fn store_path(vm: &mut VM, path: &str) -> (isize, isize) {
    let at = vm.data_space().here();
    assert!(vm.data_space().has_range(at, path.len()));
    vm.data_space().put_bytes(path.as_bytes(), at);
    (at as isize, path.len() as isize)
}

#[test]
fn file_words_check_their_arguments() {
    let vm = &mut fresh();
    vm.add_file_access();
    run(vm, "open-file");
    assert_eq!(vm.request(), Request::File(FileWord::OpenFile));
    vm.complete_request();
    let ina = INVALID_NUMERIC_ARGUMENT;
    let (addr, len) = store_path(vm, "a.txt");
    vm.s_stack().push3(addr, len, 3);
    assert_eq!(vm.file_begin(FileWord::OpenFile), None);
    assert_eq!(vm.s_stack().pop2(), (-1, ina));
    vm.s_stack().push3(addr, 257, 0);
    assert_eq!(vm.file_begin(FileWord::OpenFile), None);
    assert_eq!(vm.s_stack().pop2(), (-1, ina));
    vm.s_stack().push3(0, len, 0);
    assert_eq!(vm.file_begin(FileWord::OpenFile), None);
    assert_eq!(vm.s_stack().pop2(), (-1, INVALID_MEMORY_ADDRESS));
    vm.s_stack().push3(addr, len, 0);
    assert_eq!(vm.file_begin(FileWord::CreateFile), None);
    assert_eq!(vm.s_stack().pop2(), (-1, ina));
    vm.s_stack().push(0);
    assert_eq!(vm.file_begin(FileWord::FileSize), None);
    assert_eq!(vm.s_stack().pop3(), (-1, -1, ina));
    vm.s_stack().push(1);
    assert_eq!(vm.file_begin(FileWord::CloseFile), None);
    assert_eq!(vm.s_stack().pop(), ina);
    vm.s_stack().push3(addr, 4, 0);
    assert_eq!(vm.file_begin(FileWord::ReadFile), None);
    assert_eq!(vm.s_stack().pop2(), (-1, ina));
    vm.s_stack().push3(addr, 4, 1);
    assert_eq!(vm.file_begin(FileWord::ReadFile), None);
    assert_eq!(vm.s_stack().pop2(), (0, ina));
    vm.s_stack().push3(addr, 4, 1);
    assert_eq!(vm.file_begin(FileWord::WriteFile), None);
    assert_eq!(vm.s_stack().pop(), ina);
    assert_eq!(vm.s_stack().len(), 0);
}

#[test]
fn file_words_report_results() {
    let vm = &mut fresh();
    let (addr, len) = store_path(vm, "a.txt");
    vm.s_stack().push3(addr, len, 2);
    let op = vm.file_begin(FileWord::OpenFile).unwrap();
    assert_eq!(
        op,
        FileOp::Open { addr: addr as usize, len: 5, read: true, write: true, file: 0 }
    );
    vm.file_end(op, FileOutcome::Done);
    assert_eq!(vm.s_stack().pop2(), (1, 0));
    vm.s_stack().push3(addr, len, 1);
    let op = vm.file_begin(FileWord::CreateFile).unwrap();
    assert_eq!(op, FileOp::Create { addr: addr as usize, len: 5, read: false, file: 1 });
    vm.file_end(op, FileOutcome::Failed);
    assert_eq!(vm.s_stack().pop2(), (-1, FILE_IO_EXCEPTION));
    vm.s_stack().push(1);
    let op = vm.file_begin(FileWord::FileSize).unwrap();
    assert_eq!(op, FileOp::Size { file: 0 });
    vm.file_end(op, FileOutcome::Value(1234));
    assert_eq!(vm.s_stack().pop3(), (1234, 0, 0));
    vm.file_end(op, FileOutcome::Value(u64::MAX));
    assert_eq!(vm.s_stack().pop3(), (-1, -1, RESULT_OUT_OF_RANGE));
    vm.s_stack().push3(addr, 100, 1);
    let op = vm.file_begin(FileWord::ReadFile).unwrap();
    assert_eq!(op, FileOp::Read { file: 0, addr: addr as usize, len: 100 });
    vm.file_end(op, FileOutcome::Value(42));
    assert_eq!(vm.s_stack().pop2(), (42, 0));
    vm.file_end(op, FileOutcome::Value(101));
    assert_eq!(vm.s_stack().pop2(), (0, FILE_IO_EXCEPTION));
    vm.s_stack().push3(77, 0, 1);
    let op = vm.file_begin(FileWord::RepositionFile).unwrap();
    assert_eq!(op, FileOp::Reposition { file: 0, position: 77 });
    vm.file_end(op, FileOutcome::Done);
    assert_eq!(vm.s_stack().pop(), 0);
    vm.s_stack().push3(-1, 0, 1);
    assert_eq!(vm.file_begin(FileWord::ResizeFile), None);
    assert_eq!(vm.s_stack().pop(), INVALID_NUMERIC_ARGUMENT);
    vm.s_stack().push(1);
    assert_eq!(vm.file_begin(FileWord::CloseFile), Some(FileOp::Close { file: 0 }));
    assert_eq!(vm.s_stack().pop(), 0);
    vm.s_stack().push(1);
    assert_eq!(vm.file_begin(FileWord::FilePosition), None);
    assert_eq!(vm.s_stack().pop3(), (-1, -1, INVALID_NUMERIC_ARGUMENT));
    assert_eq!(vm.s_stack().len(), 0);
}

#[test]
fn sources_are_read_line_by_line() {
    let vm = &mut fresh();
    vm.add_file_access();
    vm.add_loader();
    let (addr, len) = store_path(vm, "lib.fth");
    vm.s_stack().push3(addr, len, 0);
    let op = vm.file_begin(FileWord::OpenFile).unwrap();
    vm.file_end(op, FileOutcome::Done);
    let (fileid, ior) = vm.s_stack().pop2();
    assert_eq!((fileid, ior), (1, 0));
    vm.s_stack().push3(addr, len, fileid);
    assert_eq!(
        vm.source_begin(SourceWord::OpenSource),
        Some(SourceOp::Open { file: 0, source: 0 })
    );
    assert_eq!(vm.s_stack().pop(), 1);
    vm.s_stack().push(fileid);
    assert_eq!(vm.file_begin(FileWord::CloseFile), None);
    assert_eq!(vm.s_stack().pop(), INVALID_NUMERIC_ARGUMENT);
    vm.s_stack().push(1);
    assert_eq!(
        vm.source_begin(SourceWord::LoadLine),
        Some(SourceOp::LoadLine { source: 0 })
    );
    vm.load_line_end(0, Some(b"1 2 +\r\n"));
    assert_eq!(vm.s_stack().pop2(), (5, -1));
    vm.set_source_id(1);
    assert_eq!(vm.last_error(), None);
    assert_eq!(vm.source_id(), 1);
    assert_eq!(vm.input_buffer(), Some("1 2 +".to_owned()));
    vm.state().source_index = 0;
    vm.evaluate_input();
    assert_eq!(vm.s_stack().as_slice(), [3]);
    vm.s_stack().push(1);
    assert_eq!(vm.source_begin(SourceWord::CloseSource), None);
    assert_eq!(vm.last_error(), Some(INVALID_NUMERIC_ARGUMENT));
    vm.reset();
    assert_eq!(vm.source_id(), 0);
    vm.load_line_end(0, Some(b""));
    assert_eq!(vm.s_stack().pop2(), (0, 0));
    vm.load_line_end(0, Some(b"last"));
    assert_eq!(vm.s_stack().pop2(), (4, -1));
    vm.set_output_buffer(Vec::new());
    vm.s_stack().push(1);
    assert_eq!(vm.source_begin(SourceWord::DotSourcePath), None);
    vm.s_stack().push(1);
    assert_eq!(vm.source_begin(SourceWord::DotSourceLine), None);
    assert_eq!(vm.output_buffer().clone(), Some(b"lib.fthlast".to_vec()));
    vm.load_line_end(0, None);
    assert_eq!(vm.last_error(), Some(FILE_IO_EXCEPTION));
    vm.reset();
    vm.s_stack().push(1);
    assert_eq!(
        vm.source_begin(SourceWord::CloseSource),
        Some(SourceOp::Close { source: 0 })
    );
    vm.set_source_id(1);
    assert_eq!(vm.last_error(), Some(INVALID_NUMERIC_ARGUMENT));
    vm.reset();
    vm.set_source_id(-1);
    assert_eq!(vm.last_error(), Some(INVALID_NUMERIC_ARGUMENT));
}

#[test]
fn machine_of_host_pages() {
    let vm = &mut VM::new(16).expect("sixteen pages");
    assert_eq!(vm.last_error(), None);
    assert!(vm.data_space().capacity() >= 16);
    assert_eq!(vm.data_space().capacity() % 16, 0);
    run(vm, "1 2 +");
    assert_eq!(vm.s_stack().as_slice(), [3]);
    assert!(VM::new(0).is_none());
}

#[test]
fn empty_names_are_refused() {
    for input in [":", "create", "1 constant", "'", ": t postpone", "char", "marker", ": t [char]"] {
        let vm = &mut fresh();
        run(vm, input);
        assert_eq!(vm.last_error(), Some(UNEXPECTED_END_OF_FILE), "{}", input);
    }
}
