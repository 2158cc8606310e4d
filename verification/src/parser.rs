//! The tokenizer and the number grammar.
//!
//! Input is a sequence of bytes. A token is a run of bytes between
//! whitespace; an integer is `sign? digits` in a base, with an optional base
//! prefix before the sign, or a quoted character; a float is
//! `sign? digits '.' digits (('E'|'e') sign? digits)?` in base ten.
use vstd::prelude::*;

verus! {

/// Is `c` one of the bytes that separate tokens: tab, line feed, carriage
/// return, space?
pub open spec fn is_space(c: u8) -> bool {
    c == 9 || c == 10 || c == 13 || c == 32
}

/// Decides `is_space(c)`.
pub fn space(c: u8) -> (r: bool)
    ensures
        r == is_space(c),
{
    c == 9 || c == 10 || c == 13 || c == 32
}

/// The first position at or after `i` that holds no whitespace.
pub open spec fn skip_spaces(s: Seq<u8>, i: int) -> int
    decreases s.len() - i,
{
    if 0 <= i < s.len() && is_space(s[i]) {
        skip_spaces(s, i + 1)
    } else {
        i
    }
}

/// The first position at or after `i` that holds whitespace, or the end.
pub open spec fn token_end(s: Seq<u8>, i: int) -> int
    decreases s.len() - i,
{
    if 0 <= i < s.len() && !is_space(s[i]) {
        token_end(s, i + 1)
    } else {
        i
    }
}

/// Where the next whitespace-delimited token of `s` starts, looking from
/// `start` on.
pub open spec fn word_start(s: Seq<u8>, start: int) -> int {
    skip_spaces(s, start)
}

/// Where that token ends.
pub open spec fn word_end(s: Seq<u8>, start: int) -> int {
    token_end(s, word_start(s, start))
}

/// Where parsing goes on after that token: behind the token and the one
/// delimiter that follows it, if one does.
pub open spec fn word_next(s: Seq<u8>, start: int) -> int {
    if word_end(s, start) < s.len() {
        word_end(s, start) + 1
    } else {
        word_end(s, start)
    }
}

/// The next whitespace-delimited token of `s`, looking from `start` on. It
/// is empty where only whitespace is left.
pub open spec fn word_token(s: Seq<u8>, start: int) -> Seq<u8> {
    if 0 <= start <= s.len() {
        s.subrange(word_start(s, start), word_end(s, start))
    } else {
        Seq::empty()
    }
}

/// The bounds of a scan stay within the input and in order.
pub proof fn lemma_scan_bounds(s: Seq<u8>, i: int)
    requires
        0 <= i <= s.len(),
    ensures
        i <= skip_spaces(s, i) <= s.len(),
        i <= token_end(s, i) <= s.len(),
        forall|j: int| i <= j < skip_spaces(s, i) ==> is_space(s[j]),
        forall|j: int| i <= j < token_end(s, i) ==> !is_space(s[j]),
        skip_spaces(s, i) < s.len() ==> !is_space(s[skip_spaces(s, i)]),
        token_end(s, i) < s.len() ==> is_space(s[token_end(s, i)]),
    decreases s.len() - i,
{
    if i < s.len() {
        lemma_scan_bounds(s, i + 1);
    }
}

/// Scans the next whitespace-delimited token of `s` from `start` on.
/// Returns where the token starts, where it ends, and where parsing goes
/// on. Beyond the end of the input the three are `start`.
pub fn scan_word(s: &[u8], start: usize) -> (r: (usize, usize, usize))
    ensures
        start <= s@.len() ==> r.0 == word_start(s@, start as int) && r.1 == word_end(
            s@,
            start as int,
        ) && r.2 == word_next(s@, start as int),
        start > s@.len() ==> r == (start, start, start),
        start <= s@.len() ==> start <= r.0 <= r.1 <= r.2 <= s@.len(),
{
    let n = s.len();
    if start > n {
        return (start, start, start);
    }
    proof {
        lemma_scan_bounds(s@, start as int);
        lemma_scan_bounds(s@, skip_spaces(s@, start as int));
    }
    let mut b = start;
    while b < n && space(s[b])
        invariant
            start <= b <= n,
            n == s@.len(),
            skip_spaces(s@, start as int) == skip_spaces(s@, b as int),
        decreases n - b,
    {
        b += 1;
    }
    let mut e = b;
    while e < n && !space(s[e])
        invariant
            b <= e <= n,
            n == s@.len(),
            token_end(s@, b as int) == token_end(s@, e as int),
        decreases n - e,
    {
        e += 1;
    }
    let next = if e < n {
        e + 1
    } else {
        e
    };
    (b, e, next)
}

/// Does the byte `c` match the delimiter `d`, a cell?
pub open spec fn is_delimiter(c: u8, d: isize) -> bool {
    c as isize == d
}

/// The first position at or after `i` that holds the delimiter `d`, or the
/// end.
pub open spec fn delimiter_at(s: Seq<u8>, i: int, d: isize) -> int
    decreases s.len() - i,
{
    if 0 <= i < s.len() && !is_delimiter(s[i], d) {
        delimiter_at(s, i + 1, d)
    } else {
        i
    }
}

/// Where parsing goes on after the text up to the delimiter: behind the
/// delimiter, or at the end where there is none.
pub open spec fn delimited_next(s: Seq<u8>, start: int, d: isize) -> int {
    if delimiter_at(s, start, d) < s.len() {
        delimiter_at(s, start, d) + 1
    } else {
        delimiter_at(s, start, d)
    }
}

/// The text from `start` up to, not including, the next delimiter `d`.
pub open spec fn delimited_token(s: Seq<u8>, start: int, d: isize) -> Seq<u8> {
    if 0 <= start <= s.len() {
        s.subrange(start, delimiter_at(s, start, d))
    } else {
        Seq::empty()
    }
}

/// The position of a delimiter lies within the input.
pub proof fn lemma_delimiter_bounds(s: Seq<u8>, i: int, d: isize)
    requires
        0 <= i <= s.len(),
    ensures
        i <= delimiter_at(s, i, d) <= s.len(),
        forall|j: int| i <= j < delimiter_at(s, i, d) ==> !is_delimiter(s[j], d),
        delimiter_at(s, i, d) < s.len() ==> is_delimiter(s[delimiter_at(s, i, d)], d),
    decreases s.len() - i,
{
    if i < s.len() {
        lemma_delimiter_bounds(s, i + 1, d);
    }
}

/// Scans the text of `s` from `start` up to the next delimiter `d`.
/// Returns where the text ends and where parsing goes on. Beyond the end of
/// the input both are `start`.
pub fn scan_delimited(s: &[u8], start: usize, d: isize) -> (r: (usize, usize))
    ensures
        start <= s@.len() ==> r.0 == delimiter_at(s@, start as int, d) && r.1 == delimited_next(
            s@,
            start as int,
            d,
        ),
        start > s@.len() ==> r == (start, start),
        start <= s@.len() ==> start <= r.0 <= r.1 <= s@.len(),
{
    let n = s.len();
    if start > n {
        return (start, start);
    }
    proof {
        lemma_delimiter_bounds(s@, start as int, d);
    }
    let mut e = start;
    while e < n && s[e] as isize != d
        invariant
            start <= e <= n,
            n == s@.len(),
            delimiter_at(s@, start as int, d) == delimiter_at(s@, e as int, d),
        decreases n - e,
    {
        e += 1;
    }
    let next = if e < n {
        e + 1
    } else {
        e
    };
    (e, next)
}

/// The first position at or after `i` that does not hold the byte that
/// matches `d`, or the end.
pub open spec fn run_end(s: Seq<u8>, i: int, d: isize) -> int
    decreases s.len() - i,
{
    if 0 <= i < s.len() && is_delimiter(s[i], d) {
        run_end(s, i + 1, d)
    } else {
        i
    }
}

/// Scans over a run of the delimiter `d` in `s` from `start` on and
/// returns where it ends.
pub fn scan_run(s: &[u8], start: usize, d: isize) -> (r: usize)
    ensures
        r == run_end(s@, start as int, d),
        start <= s@.len() ==> start <= r <= s@.len(),
        start > s@.len() ==> r == start,
{
    let n = s.len();
    if start > n {
        return start;
    }
    let mut e = start;
    while e < n && s[e] as isize == d
        invariant
            start <= e <= n,
            n == s@.len(),
            run_end(s@, start as int, d) == run_end(s@, e as int, d),
        decreases n - e,
    {
        e += 1;
    }
    e
}

/// The value of `c` as a digit: `0` to `9` are 0 to 9, letters of either
/// case are 10 to 35.
pub open spec fn digit_of(c: u8) -> Option<isize> {
    if 48 <= c <= 57 {
        Some((c - 48) as isize)
    } else if 97 <= c <= 122 {
        Some((c - 87) as isize)
    } else if 65 <= c <= 90 {
        Some((c - 55) as isize)
    } else {
        None
    }
}

/// Computes `digit_of(c)`.
pub fn digit(c: u8) -> (r: Option<isize>)
    ensures
        r == digit_of(c),
{
    if 48 <= c && c <= 57 {
        Some((c - 48) as isize)
    } else if 97 <= c && c <= 122 {
        Some((c - 87) as isize)
    } else if 65 <= c && c <= 90 {
        Some((c - 55) as isize)
    } else {
        None
    }
}

/// Is `c` a digit of the base `base`?
pub open spec fn is_digit_in(c: u8, base: isize) -> bool {
    digit_of(c).is_some() && digit_of(c).unwrap() < base
}

/// Are all bytes of `s` digits of the base `base`, and is there at least
/// one?
pub open spec fn all_digits(s: Seq<u8>, base: isize) -> bool {
    s.len() > 0 && forall|i: int| 0 <= i < s.len() ==> is_digit_in(#[trigger] s[i], base)
}

/// The number that the digits of `s` spell in the base `base`, computed
/// with wrapping arithmetic.
pub open spec fn digits_value(s: Seq<u8>, base: isize) -> isize
    decreases s.len(),
{
    if s.len() == 0 {
        0
    } else {
        digits_value(s.drop_last(), base).wrapping_mul(base).wrapping_add(
            digit_of(s.last()).unwrap_or(0),
        )
    }
}

/// The base that a prefix selects: `#` ten, `$` sixteen, `%` two.
pub open spec fn prefix_base(c: u8) -> Option<isize> {
    if c == 35 {
        Some(10isize)
    } else if c == 36 {
        Some(16isize)
    } else if c == 37 {
        Some(2isize)
    } else {
        None
    }
}

/// The sign that a byte spells: `-` is -1, `+` is 1.
pub open spec fn sign_of(c: u8) -> Option<isize> {
    if c == 45 {
        Some(-1isize)
    } else if c == 43 {
        Some(1isize)
    } else {
        None
    }
}

/// Is `s` a quoted character, a byte between two single quotes?
pub open spec fn is_quoted_char(s: Seq<u8>) -> bool {
    s.len() == 3 && s[0] == 39 && s[2] == 39
}

/// Length of the base prefix at the start of `s`: one or none.
pub open spec fn prefix_len(s: Seq<u8>) -> int {
    if s.len() > 0 && prefix_base(s[0]).is_some() {
        1
    } else {
        0
    }
}

/// Length of the sign at position `i` of `s`: one or none.
pub open spec fn sign_len(s: Seq<u8>, i: int) -> int {
    if 0 <= i < s.len() && sign_of(s[i]).is_some() {
        1
    } else {
        0
    }
}

/// The integer that the token `s` spells where `base` is the current base,
/// or `None` where `s` is not an integer.
///
/// A quoted character spells the value of its byte. Any other integer is an
/// optional base prefix, an optional sign, and one or more digits of the
/// base; its value wraps.
pub open spec fn integer_of(s: Seq<u8>, base: isize) -> Option<isize> {
    if is_quoted_char(s) {
        Some(s[1] as isize)
    } else {
        let p = prefix_len(s);
        let b = if p == 1 {
            prefix_base(s[0]).unwrap()
        } else {
            base
        };
        let g = sign_len(s, p);
        let sign = if g == 1 {
            sign_of(s[p]).unwrap()
        } else {
            1
        };
        let digits = s.subrange(p + g, s.len() as int);
        if all_digits(digits, b) {
            Some(sign.wrapping_mul(digits_value(digits, b)))
        } else {
            None
        }
    }
}

/// Parses the token `s` as an integer in the current base `base`.
pub fn parse_integer(s: &[u8], base: isize) -> (r: Option<isize>)
    ensures
        r == integer_of(s@, base),
{
    let n = s.len();
    if n == 3 && s[0] == 39 && s[2] == 39 {
        return Some(s[1] as isize);
    }
    let mut i: usize = 0;
    let mut b = base;
    if n > 0 {
        if s[0] == 35 {
            b = 10;
            i = 1;
        } else if s[0] == 36 {
            b = 16;
            i = 1;
        } else if s[0] == 37 {
            b = 2;
            i = 1;
        }
    }
    let mut sign: isize = 1;
    if i < n {
        if s[i] == 45 {
            sign = -1;
            i += 1;
        } else if s[i] == 43 {
            i += 1;
        }
    }
    if i >= n {
        assert(!all_digits(s@.subrange(i as int, n as int), b));
        return None;
    }
    let first = i;
    let ghost digits = s@.subrange(first as int, n as int);
    let mut value: isize = 0;
    while i < n
        invariant
            first <= i <= n,
            n == s@.len(),
            !is_quoted_char(s@),
            first == prefix_len(s@) + sign_len(s@, prefix_len(s@)),
            b == if prefix_len(s@) == 1 {
                prefix_base(s@[0]).unwrap()
            } else {
                base
            },
            sign == if sign_len(s@, prefix_len(s@)) == 1 {
                sign_of(s@[prefix_len(s@)]).unwrap()
            } else {
                1isize
            },
            digits == s@.subrange(first as int, n as int),
            forall|j: int| 0 <= j < i - first ==> is_digit_in(#[trigger] digits[j], b),
            value == digits_value(digits.subrange(0, i - first), b),
        decreases n - i,
    {
        assert(digits[i - first] == s@[i as int]);
        match digit(s[i]) {
            Some(d) => {
                if d < b {
                    assert(digits.subrange(0, i - first + 1).drop_last() =~= digits.subrange(
                        0,
                        i - first,
                    ));
                    value = value.wrapping_mul(b).wrapping_add(d);
                } else {
                    assert(!is_digit_in(digits[i - first], b));
                    return None;
                }
            },
            None => {
                assert(!is_digit_in(digits[i - first], b));
                return None;
            },
        }
        i += 1;
    }
    assert(digits.subrange(0, n - first) =~= digits);
    Some(sign.wrapping_mul(value))
}

/// Is `c` a decimal digit?
pub open spec fn is_decimal(c: u8) -> bool {
    48 <= c <= 57
}

/// The first position at or after `i` that holds no decimal digit, or the
/// end.
pub open spec fn decimals_end(s: Seq<u8>, i: int) -> int
    decreases s.len() - i,
{
    if 0 <= i < s.len() && is_decimal(s[i]) {
        decimals_end(s, i + 1)
    } else {
        i
    }
}

/// The parts of a float literal, as positions in its token. The integer
/// digits lie in `int_start..int_end`, the dot at `int_end`, the fraction
/// digits in `int_end + 1..frac_end`, and the exponent digits, where there
/// is an exponent, in `exp_start..exp_end`.
#[derive(Clone, Copy, PartialEq, Eq, Structural, Debug)]
pub struct FloatLiteral {
    pub negative: bool,
    pub int_start: usize,
    pub int_end: usize,
    pub frac_end: usize,
    pub has_exponent: bool,
    pub exp_negative: bool,
    pub exp_start: usize,
    pub exp_end: usize,
}

/// The parts of the float literal that the token `s` spells, or `None`
/// where `s` is not a float literal.
///
/// A float literal is an optional sign, one or more decimal digits, a dot,
/// one or more decimal digits, and optionally `E` or `e`, an optional sign
/// and one or more decimal digits. Nothing may follow.
pub open spec fn float_of(s: Seq<u8>) -> Option<FloatLiteral> {
    let i0 = sign_len(s, 0);
    let i1 = decimals_end(s, i0);
    let i2 = decimals_end(s, i1 + 1);
    let i3 = i2 + 1 + sign_len(s, i2 + 1);
    let i4 = decimals_end(s, i3);
    let negative = i0 == 1 && s[0] == 45;
    if s.len() > usize::MAX || i1 == i0 || i1 >= s.len() || s[i1] != 46 || i2 == i1 + 1 {
        None
    } else if i2 == s.len() {
        Some(
            FloatLiteral {
                negative,
                int_start: i0 as usize,
                int_end: i1 as usize,
                frac_end: i2 as usize,
                has_exponent: false,
                exp_negative: false,
                exp_start: i2 as usize,
                exp_end: i2 as usize,
            },
        )
    } else if (s[i2] != 69 && s[i2] != 101) || i4 == i3 || i4 != s.len() {
        None
    } else {
        Some(
            FloatLiteral {
                negative,
                int_start: i0 as usize,
                int_end: i1 as usize,
                frac_end: i2 as usize,
                has_exponent: true,
                exp_negative: i3 == i2 + 2 && s[i2 + 1] == 45,
                exp_start: i3 as usize,
                exp_end: i4 as usize,
            },
        )
    }
}

/// Scans over decimal digits in `s` from `start` on and returns where they
/// end.
pub fn scan_decimals(s: &[u8], start: usize) -> (r: usize)
    requires
        start <= s@.len(),
    ensures
        r == decimals_end(s@, start as int),
        start <= r <= s@.len(),
{
    let n = s.len();
    let mut e = start;
    while e < n && 48 <= s[e] && s[e] <= 57
        invariant
            start <= e <= n,
            n == s@.len(),
            decimals_end(s@, start as int) == decimals_end(s@, e as int),
        decreases n - e,
    {
        e += 1;
    }
    e
}

/// Parses the token `s` as a float literal and returns its parts.
pub fn parse_float(s: &[u8]) -> (r: Option<FloatLiteral>)
    ensures
        r == float_of(s@),
{
    let n = s.len();
    let i0: usize = if n > 0 && (s[0] == 45 || s[0] == 43) {
        1
    } else {
        0
    };
    let negative = i0 == 1 && s[0] == 45;
    let i1 = scan_decimals(s, i0);
    if i1 == i0 || i1 >= n || s[i1] != 46 {
        return None;
    }
    let i2 = scan_decimals(s, i1 + 1);
    if i2 == i1 + 1 {
        return None;
    }
    if i2 == n {
        return Some(
            FloatLiteral {
                negative,
                int_start: i0,
                int_end: i1,
                frac_end: i2,
                has_exponent: false,
                exp_negative: false,
                exp_start: i2,
                exp_end: i2,
            },
        );
    }
    if s[i2] != 69 && s[i2] != 101 {
        return None;
    }
    let g: usize = if i2 + 1 < n && (s[i2 + 1] == 45 || s[i2 + 1] == 43) {
        1
    } else {
        0
    };
    let i3 = i2 + 1 + g;
    let i4 = scan_decimals(s, i3);
    if i4 == i3 || i4 != n {
        return None;
    }
    Some(
        FloatLiteral {
            negative,
            int_start: i0,
            int_end: i1,
            frac_end: i2,
            has_exponent: true,
            exp_negative: g == 1 && s[i2 + 1] == 45,
            exp_start: i3,
            exp_end: i4,
        },
    )
}

} // verus!
