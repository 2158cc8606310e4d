use rtforth::cell::{decode_cell, encode_cell, to_signed, to_unsigned};
use rtforth::exception::INVALID_MEMORY_ADDRESS;
use rtforth::memory::{align_up, pull_slice, push_slice, DataSpace, BASE_ADDR};
use rtforth::parser::{parse_float, parse_integer, scan_delimited, scan_run, scan_word};
use rtforth::stack::{Control, Stack};

#[test]
fn cells_keep_their_bits() {
    assert_eq!(to_unsigned(-1), usize::MAX);
    assert_eq!(to_unsigned(isize::MIN), isize::MAX as usize + 1);
    assert_eq!(to_signed(usize::MAX), -1);
    for v in [0, 1, -1, isize::MAX, isize::MIN, 0x1234] {
        assert_eq!(to_signed(to_unsigned(v)), v);
        assert_eq!(decode_cell(&encode_cell(v)), v);
    }
    assert_eq!(encode_cell(0x0102), [2, 1, 0, 0, 0, 0, 0, 0]);
    assert_eq!(encode_cell(-2), [0xfe, 0xff, 0xff, 0xff, 0xff, 0xff, 0xff, 0xff]);
}

#[test]
fn slices_are_pulled_and_pushed() {
    let bytes = [1u8, 2, 3, 4, 5];
    assert_eq!(pull_slice::<3>(&bytes), [1, 2, 3]);
    assert_eq!(pull_slice::<0>(&bytes), [0u8; 0]);
    let mut target = [9u8; 5];
    push_slice(&mut target, [1u8, 2]);
    assert_eq!(target, [1, 2, 9, 9, 9]);
}

#[test]
fn data_space_starts_with_the_system_variables() {
    let space = DataSpace::with_capacity(64);
    assert_eq!(space.start(), BASE_ADDR);
    assert_eq!(space.limit(), BASE_ADDR + 64);
    assert_eq!(space.capacity(), 64);
    assert_eq!(space.here(), BASE_ADDR + 16);
    let variables = space.system_variables();
    assert_eq!((variables.null, variables.base), (0, 10));
    assert_eq!(variables.base_addr(), BASE_ADDR + 8);
    assert_eq!(space.get_isize(variables.base_addr()), 10);
    assert!(space.has(BASE_ADDR) && space.has(BASE_ADDR + 63));
    assert!(!space.has(BASE_ADDR - 1) && !space.has(BASE_ADDR + 64));
    for addr in BASE_ADDR + 16..BASE_ADDR + 64 {
        assert_eq!(space.get_u8(addr), 0);
    }
}

#[test]
fn data_space_compiles_and_reads_back() {
    let mut space = DataSpace::with_capacity(1024);
    let start = space.here();
    space.compile_isize(-5);
    space.compile_usize(usize::MAX);
    space.compile_u8(7);
    space.compile_bits(1.5f64.to_bits());
    assert_eq!(space.here(), start + 25);
    assert_eq!(space.get_isize(start), -5);
    assert_eq!(space.get_usize(start), to_unsigned(-5));
    assert_eq!(space.get_isize(start + 8), -1);
    assert_eq!(space.get_u8(start + 16), 7);
    assert_eq!(space.get_bits(start + 17), 1.5f64.to_bits());
    space.align();
    assert_eq!(space.here(), start + 32);
    space.align();
    assert_eq!(space.here(), start + 32);
    let at = space.compile_str(b"hello");
    assert_eq!(at, start + 32);
    assert_eq!(space.get_usize(at), 5);
    assert_eq!(space.get_str(at), b"hello");
    assert_eq!(space.here(), at + 13);
    space.align_16bytes();
    assert_eq!(space.here() % 16, 0);
    let there = space.here();
    space.compile_relative(there + 8 + 40);
    assert_eq!(space.get_isize(there), 40);
    space.compile_relative(there);
    assert_eq!(space.get_isize(there + 8), -16);
    space.truncate(start);
    assert_eq!(space.here(), start);
    space.put_u8(0xab, start);
    space.put_isize(-7, start + 1);
    assert_eq!(space.get_u8(start), 0xab);
    assert_eq!(space.get_isize(start + 1), -7);
    assert_eq!(space.buffer_from_raw_parts(start, 2), [0xab, 0xf9]);
}

#[test]
fn here_stays_in_the_arena() {
    let mut space = DataSpace::with_capacity(64);
    assert_eq!(space.set_here(BASE_ADDR + 64), Ok(()));
    assert_eq!(space.here(), BASE_ADDR + 64);
    assert_eq!(space.set_here(BASE_ADDR + 65), Err(INVALID_MEMORY_ADDRESS));
    assert_eq!(space.set_here(BASE_ADDR - 1), Err(INVALID_MEMORY_ADDRESS));
    assert_eq!(space.here(), BASE_ADDR + 64);
    assert_eq!(space.set_here(BASE_ADDR), Ok(()));
    space.allot(-1);
    assert_eq!(space.here(), BASE_ADDR);
    space.allot(65);
    assert_eq!(space.here(), BASE_ADDR);
    space.allot(64);
    assert_eq!(space.here(), BASE_ADDR + 64);
    space.allot(-60);
    assert_eq!(space.here(), BASE_ADDR + 4);
    space.allot(isize::MIN);
    assert_eq!(space.here(), BASE_ADDR + 4);
}

#[test]
fn counted_strings_are_capped() {
    let mut space = DataSpace::with_capacity(1024);
    let at = space.here();
    space.put_cstr(b"abc", at);
    assert_eq!(space.buffer_from_raw_parts(at, 4), [3, b'a', b'b', b'c']);
    let long = vec![b'x'; 300];
    space.put_cstr(&long, at);
    assert_eq!(space.get_u8(at), 255);
    assert_eq!(space.get_u8(at + 255), b'x');
    assert_eq!(space.get_u8(at + 256), 0);
}

#[test]
fn alignment() {
    assert_eq!(align_up(0, 8), 0);
    assert_eq!(align_up(1, 8), 8);
    assert_eq!(align_up(8, 8), 8);
    assert_eq!(align_up(9, 16), 16);
    assert_eq!(align_up(usize::MAX, 8), 0);
    assert_eq!(DataSpace::aligned(BASE_ADDR + 1), BASE_ADDR + 8);
    assert_eq!(DataSpace::aligned_float(BASE_ADDR + 9), BASE_ADDR + 16);
    assert_eq!(DataSpace::aligned_16bytes(BASE_ADDR + 1), BASE_ADDR + 16);
}

#[test]
fn stack_wraps_and_keeps_guards() {
    let mut stack: Stack<isize> = Stack::new(0x12345678);
    assert!(stack.is_empty());
    assert!(!stack.underflow() && !stack.overflow());
    assert_eq!(stack.last(), Some(0x12345678));
    stack.push3(1, 2, 3);
    assert_eq!(stack.len(), 3);
    assert_eq!(stack.as_slice(), [1, 2, 3]);
    assert_eq!(stack.get(1), Some(2));
    assert_eq!(stack.nth(0), 3);
    assert_eq!(stack.pop3(), (1, 2, 3));
    assert_eq!(stack.pop(), 0x12345678);
    assert_eq!(stack.len(), 255);
    assert!(stack.underflow());
    stack.push(9);
    assert_eq!(stack.len(), 0);
    assert!(stack.underflow());
    stack.reset();
    assert!(!stack.underflow());
    stack.set(255, 0x12345678);
    stack.set(64, 0);
    assert!(stack.overflow());
    stack.reset();
    for i in 0..64 {
        stack.push(i);
    }
    assert!(!stack.overflow());
    stack.push(0x12345678);
    assert_eq!(stack.len(), 65);
    assert!(stack.overflow());
    for _ in 65..128 {
        stack.push(0);
    }
    assert!(stack.overflow());
    stack.push(0);
    assert_eq!(stack.len(), 129);
    assert!(!stack.overflow() && stack.underflow());
    stack.set(64, 1);
    assert!(stack.overflow() && stack.underflow());
}

#[test]
fn control_markers() {
    let mut stack: Stack<Control> = Stack::new(Control::Canary);
    stack.push2(Control::If(8), Control::Do(16, 24));
    assert_eq!(stack.pop2(), (Control::If(8), Control::Do(16, 24)));
    assert_eq!(stack.pop(), Control::Canary);
    assert!(stack.underflow());
    assert_eq!(Control::default(), Control::Default);
    assert_eq!(Control::Do(1, 2).name(), "Do");
    assert_eq!(Control::Endof(1).name(), "Endof");
    assert_eq!(Control::Case.name(), "Case");
}

#[test]
fn integers() {
    assert_eq!(parse_integer(b"0", 10), Some(0));
    assert_eq!(parse_integer(b"-12", 10), Some(-12));
    assert_eq!(parse_integer(b"+12", 10), Some(12));
    assert_eq!(parse_integer(b"zz", 36), Some(35 * 36 + 35));
    assert_eq!(parse_integer(b"$-7f", 10), Some(-127));
    assert_eq!(parse_integer(b"%-11", 10), Some(-3));
    assert_eq!(parse_integer(b"'''", 10), Some(39));
    assert_eq!(parse_integer(b"'ab'", 10), None);
    assert_eq!(parse_integer(b"-$7f", 10), None);
    assert_eq!(parse_integer(b"", 10), None);
    assert_eq!(parse_integer(b"+", 10), None);
    assert_eq!(parse_integer(b"#", 10), None);
    assert_eq!(parse_integer(b"2", 2), None);
    assert_eq!(parse_integer(b"1", 1), None);
    assert_eq!(parse_integer(b"1", 0), None);
    assert_eq!(parse_integer(b"1", -5), None);
    assert_eq!(parse_integer(b"1 ", 10), None);
    let big = b"99999999999999999999";
    let mut expected: isize = 0;
    for _ in 0..20 {
        expected = expected.wrapping_mul(10).wrapping_add(9);
    }
    assert_eq!(parse_integer(big, 10), Some(expected));
    assert_eq!(parse_integer(b"-9223372036854775808", 10), Some(isize::MIN));
}

#[test]
fn floats() {
    let plain = parse_float(b"1.5").unwrap();
    assert!(!plain.negative && !plain.has_exponent);
    assert_eq!((plain.int_start, plain.int_end, plain.frac_end), (0, 1, 3));
    let full = parse_float(b"+10.25E+7").unwrap();
    assert!(!full.negative && full.has_exponent && !full.exp_negative);
    assert_eq!((full.int_start, full.int_end, full.frac_end), (1, 3, 6));
    assert_eq!((full.exp_start, full.exp_end), (8, 9));
    assert!(parse_float(b"-0.0e0").unwrap().negative);
    assert!(parse_float(b"3.0e-12").unwrap().exp_negative);
    for no in [
        &b""[..], b"1", b"1.", b".5", b"1e5", b"1.5e", b"1.5e+", b"1.5x", b"1.5e5x", b"--1.5",
        b"1.5.5", b"a.5", b"1.a", b"1 .5", b"1.5f",
    ] {
        assert_eq!(parse_float(no), None, "{:?}", no);
    }
}

#[test]
fn scanning() {
    assert_eq!(scan_word(b"  ab  c", 0), (2, 4, 5));
    assert_eq!(scan_word(b"  ab  c", 5), (6, 7, 7));
    assert_eq!(scan_word(b"ab", 2), (2, 2, 2));
    assert_eq!(scan_word(b"ab   ", 2), (5, 5, 5));
    assert_eq!(scan_word(b"ab", 3), (3, 3, 3));
    assert_eq!(scan_word(b"a\tb\nc\rd", 2), (2, 3, 4));
    assert_eq!(scan_delimited(b"abc)def", 0, 41), (3, 4));
    assert_eq!(scan_delimited(b"abc)", 0, 41), (3, 4));
    assert_eq!(scan_delimited(b"abc", 0, 41), (3, 3));
    assert_eq!(scan_delimited(b"abc", 1, 256 + 98), (3, 3));
    assert_eq!(scan_delimited(b"abc", 5, 41), (5, 5));
    assert_eq!(scan_run(b"xxxy", 0, 120), 3);
    assert_eq!(scan_run(b"xxxy", 3, 120), 3);
    assert_eq!(scan_run(b"xxx", 1, 120), 3);
}

#[test]
fn data_space_of_pages() {
    let space = DataSpace::with_pages(2, 4096).expect("two pages");
    assert_eq!(space.capacity(), 8192);
    assert_eq!(space.here(), BASE_ADDR + 16);
    assert_eq!(space.system_variables().base, 10);
    assert!(DataSpace::with_pages(0, 4096).is_none());
    assert!(DataSpace::with_pages(1, 15).is_none());
    assert!(DataSpace::with_pages(1, 16).is_some());
    assert!(DataSpace::with_pages(usize::MAX, 2).is_none());
    assert!(DataSpace::with_pages(1, usize::MAX).is_none());
    let host = DataSpace::new(4).expect("four pages of the host");
    assert_eq!(host.capacity() % 4, 0);
    assert!(host.capacity() >= 64);
}
