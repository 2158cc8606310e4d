//! Words that work on the stacks and registers alone: stack manipulation,
//! arithmetic, comparison, bit operations, return-stack transfers.
//!
//! None of them can fail. A word that takes more cells than the stack holds
//! reads the cells below the bottom, the index wrapping; `check_stacks`
//! finds that out later from the length and the guard cells.
use crate::cell::{signed_of, to_signed, to_unsigned, unsigned_of};
use crate::labels::bitset_clear;
use crate::memory::{aligned_to, DataSpace, BASE_ADDR};
use crate::stack::Control;
use crate::vm::{State, VmView, VM};
use crate::{FALSE, TRUE};
use vstd::prelude::*;

verus! {

/// The flag for a truth value: all bits set for true, zero for false.
pub open spec fn flag(b: bool) -> isize {
    if b {
        TRUE
    } else {
        FALSE
    }
}

/// Computes `flag(b)`.
pub fn flag_of(b: bool) -> (r: isize)
    ensures
        r == flag(b),
{
    if b {
        TRUE
    } else {
        FALSE
    }
}

/// The absolute value of `t`, with the least cell as its own absolute
/// value.
pub open spec fn wrapping_abs(t: isize) -> isize {
    if t >= 0 || t == isize::MIN {
        t
    } else {
        (-t) as isize
    }
}

/// The negation of `t`, with the least cell as its own negation.
pub open spec fn wrapping_neg(t: isize) -> isize {
    if t == isize::MIN {
        t
    } else {
        (-t) as isize
    }
}

/// The quotient of `n` by `t`, rounded toward zero, for `t` other than
/// zero; the least cell divided by -1 is the least cell.
pub open spec fn wrapping_div(n: isize, t: isize) -> isize {
    if n == isize::MIN && t == -1 {
        n
    } else if (n >= 0) == (t > 0) {
        (wrapping_abs_int(n as int) / wrapping_abs_int(t as int)) as isize
    } else {
        (-(wrapping_abs_int(n as int) / wrapping_abs_int(t as int))) as isize
    }
}

/// The remainder of `n` by `t` that goes with `wrapping_div`: it has the
/// sign of `n`.
pub open spec fn wrapping_rem(n: isize, t: isize) -> isize {
    if n >= 0 {
        (wrapping_abs_int(n as int) % wrapping_abs_int(t as int)) as isize
    } else {
        (-(wrapping_abs_int(n as int) % wrapping_abs_int(t as int))) as isize
    }
}

/// The absolute value of an integer.
pub open spec fn wrapping_abs_int(x: int) -> int {
    if x >= 0 {
        x
    } else {
        -x
    }
}

/// The magnitude of a cell as an unsigned word.
fn magnitude(t: isize) -> (r: usize)
    ensures
        r == wrapping_abs_int(t as int),
{
    if t >= 0 {
        t as usize
    } else {
        (-(t + 1)) as usize + 1
    }
}

/// Computes `wrapping_div(n, t)` and `wrapping_rem(n, t)`.
pub fn div_rem(n: isize, t: isize) -> (r: (isize, isize))
    requires
        t != 0,
    ensures
        r.0 == wrapping_div(n, t),
        r.1 == wrapping_rem(n, t),
{
    let a = magnitude(n);
    let b = magnitude(t);
    let q = a / b;
    let m = a % b;
    assert(m < b);
    assert(q <= a) by (nonlinear_arith)
        requires
            q == a / b,
            b >= 1,
    ;
    let rem = if n >= 0 {
        m as isize
    } else {
        -(m as isize)
    };
    if n == isize::MIN && t == -1 {
        (n, rem)
    } else if (n >= 0) == (t > 0) {
        assert(q <= isize::MAX) by (nonlinear_arith)
            requires
                q == a / b,
                b >= 1,
                a <= isize::MAX + 1,
                a == isize::MAX + 1 ==> b >= 2,
        {
            if a == isize::MAX + 1 {
                assert(a / b <= a / 2);
            }
        }
        (q as isize, rem)
    } else {
        if q == isize::MAX as usize + 1 {
            (isize::MIN, rem)
        } else {
            (-(q as isize), rem)
        }
    }
}

/// Division and remainder belong together: the quotient times the divisor
/// plus the remainder gives the dividend, the remainder is smaller than the
/// divisor in magnitude, and it has the sign of the dividend or is zero.
pub proof fn lemma_div_rem(a: isize, b: isize)
    requires
        b != 0,
        !(a == isize::MIN && b == -1),
    ensures
        a == wrapping_div(a, b) * b + wrapping_rem(a, b),
        wrapping_abs_int(wrapping_rem(a, b) as int) < wrapping_abs_int(b as int),
        wrapping_rem(a, b) == 0 || (wrapping_rem(a, b) < 0) == (a < 0),
{
    let x = wrapping_abs_int(a as int);
    let y = wrapping_abs_int(b as int);
    assert(x == (x / y) * y + x % y && 0 <= x % y < y && 0 <= x / y <= x) by (nonlinear_arith)
        requires
            x >= 0,
            y > 0,
    ;
    assert((-(x / y)) * y == -((x / y) * y)) by (nonlinear_arith);
    assert((x / y) * (-y) == -((x / y) * y)) by (nonlinear_arith);
    assert((-(x / y)) * (-y) == (x / y) * y) by (nonlinear_arith);
}

impl VmView {
    /// The machine with the top of the parameter stack replaced by `v`.
    pub open spec fn unary(self, v: isize) -> Self {
        self.drop_n(1).push(v)
    }

    /// The machine with the two top cells of the parameter stack replaced
    /// by `v`.
    pub open spec fn binary(self, v: isize) -> Self {
        self.drop_n(2).push(v)
    }

    /// `true ( -- true )`
    pub open spec fn p_true(self) -> Self {
        self.push(TRUE)
    }

    /// `false ( -- false )`
    pub open spec fn p_false(self) -> Self {
        self.push(FALSE)
    }

    /// `char+ ( c-addr1 -- c-addr2 )`
    pub open spec fn char_plus(self) -> Self {
        self.unary(self.s().top().wrapping_add(1))
    }

    /// `cell+ ( a-addr1 -- a-addr2 )`
    pub open spec fn cell_plus(self) -> Self {
        self.unary(self.s().top().wrapping_add(8))
    }

    /// `cells ( n1 -- n2 )`
    pub open spec fn cells(self) -> Self {
        self.unary(self.s().top().wrapping_mul(8))
    }

    /// `swap ( x1 x2 -- x2 x1 )`
    pub open spec fn swap(self) -> Self {
        self.drop_n(2).push(self.s().nth(0)).push(self.s().nth(1))
    }

    /// `dup ( x -- x x )`
    pub open spec fn dup(self) -> Self {
        self.push(self.s().top())
    }

    /// `drop ( x -- )`
    pub open spec fn p_drop(self) -> Self {
        self.drop_n(1)
    }

    /// `nip ( x1 x2 -- x2 )`
    pub open spec fn nip(self) -> Self {
        self.binary(self.s().top())
    }

    /// `over ( x1 x2 -- x1 x2 x1 )`
    pub open spec fn over(self) -> Self {
        self.push(self.s().nth(1))
    }

    /// `rot ( x1 x2 x3 -- x2 x3 x1 )`
    pub open spec fn rot(self) -> Self {
        self.drop_n(3).push(self.s().nth(1)).push(self.s().nth(0)).push(self.s().nth(2))
    }

    /// `-rot ( x1 x2 x3 -- x3 x1 x2 )`
    pub open spec fn minus_rot(self) -> Self {
        self.drop_n(3).push(self.s().nth(0)).push(self.s().nth(2)).push(self.s().nth(1))
    }

    /// `pick ( xu ... x0 u -- xu ... x0 xu )`: the count is taken from the
    /// low byte of the top cell.
    pub open spec fn pick(self) -> Self {
        self.unary(self.s().nth((self.s().top() as u8).wrapping_add(1)))
    }

    /// `2drop ( x1 x2 -- )`
    pub open spec fn two_drop(self) -> Self {
        self.drop_n(2)
    }

    /// `2dup ( x1 x2 -- x1 x2 x1 x2 )`
    pub open spec fn two_dup(self) -> Self {
        self.push(self.s().nth(1)).push(self.s().nth(0))
    }

    /// `2swap ( x1 x2 x3 x4 -- x3 x4 x1 x2 )`
    pub open spec fn two_swap(self) -> Self {
        self.drop_n(4).push(self.s().nth(1)).push(self.s().nth(0)).push(self.s().nth(3)).push(
            self.s().nth(2),
        )
    }

    /// `2over ( x1 x2 x3 x4 -- x1 x2 x3 x4 x1 x2 )`
    pub open spec fn two_over(self) -> Self {
        self.push(self.s().nth(3)).push(self.s().nth(2))
    }

    /// `depth ( -- +n )`
    pub open spec fn depth(self) -> Self {
        self.push(self.s().len as isize)
    }

    /// `1+ ( n1 -- n2 )`
    pub open spec fn one_plus(self) -> Self {
        self.unary(self.s().top().wrapping_add(1))
    }

    /// `1- ( n1 -- n2 )`
    pub open spec fn one_minus(self) -> Self {
        self.unary(self.s().top().wrapping_sub(1))
    }

    /// `+ ( n1 n2 -- n3 )`
    pub open spec fn plus(self) -> Self {
        self.binary(self.s().nth(1).wrapping_add(self.s().nth(0)))
    }

    /// `- ( n1 n2 -- n3 )`
    pub open spec fn minus(self) -> Self {
        self.binary(self.s().nth(1).wrapping_sub(self.s().nth(0)))
    }

    /// `* ( n1 n2 -- n3 )`
    pub open spec fn star(self) -> Self {
        self.binary(self.s().nth(1).wrapping_mul(self.s().nth(0)))
    }

    /// `abs ( n -- u )`
    pub open spec fn abs(self) -> Self {
        self.unary(wrapping_abs(self.s().top()))
    }

    /// `negate ( n1 -- n2 )`
    pub open spec fn negate(self) -> Self {
        self.unary(wrapping_neg(self.s().top()))
    }

    /// `0< ( n -- flag )`
    pub open spec fn zero_less(self) -> Self {
        self.unary(flag(self.s().top() < 0))
    }

    /// `0= ( n -- flag )`
    pub open spec fn zero_equals(self) -> Self {
        self.unary(flag(self.s().top() == 0))
    }

    /// `0> ( n -- flag )`
    pub open spec fn zero_greater(self) -> Self {
        self.unary(flag(self.s().top() > 0))
    }

    /// `0<> ( n -- flag )`
    pub open spec fn zero_not_equals(self) -> Self {
        self.unary(flag(self.s().top() != 0))
    }

    /// `= ( n1 n2 -- flag )`
    pub open spec fn equals(self) -> Self {
        self.binary(flag(self.s().nth(1) == self.s().nth(0)))
    }

    /// `< ( n1 n2 -- flag )`
    pub open spec fn less_than(self) -> Self {
        self.binary(flag(self.s().nth(1) < self.s().nth(0)))
    }

    /// `> ( n1 n2 -- flag )`
    pub open spec fn greater_than(self) -> Self {
        self.binary(flag(self.s().nth(1) > self.s().nth(0)))
    }

    /// `<> ( n1 n2 -- flag )`
    pub open spec fn not_equals(self) -> Self {
        self.binary(flag(self.s().nth(1) != self.s().nth(0)))
    }

    /// `within ( n1 n2 n3 -- flag )`: true where `n2 <= n1 < n3`.
    pub open spec fn within(self) -> Self {
        self.drop_n(3).push(
            flag(self.s().nth(1) <= self.s().nth(2) && self.s().nth(2) < self.s().nth(0)),
        )
    }

    /// `invert ( x1 -- x2 )`
    pub open spec fn invert(self) -> Self {
        self.unary(!self.s().top())
    }

    /// `and ( x1 x2 -- x3 )`
    pub open spec fn and(self) -> Self {
        self.binary(self.s().nth(0) & self.s().nth(1))
    }

    /// `or ( x1 x2 -- x3 )`
    pub open spec fn or(self) -> Self {
        self.binary(self.s().nth(0) | self.s().nth(1))
    }

    /// `xor ( x1 x2 -- x3 )`
    pub open spec fn xor(self) -> Self {
        self.binary(self.s().nth(0) ^ self.s().nth(1))
    }

    /// `lshift ( x1 u -- x2 )`: the shift count is taken modulo the width
    /// of a cell.
    pub open spec fn lshift(self) -> Self {
        self.binary(self.s().nth(1).wrapping_shl(self.s().nth(0) as u32))
    }

    /// `rshift ( x1 u -- x2 )`: a logical shift, which fills with zeros.
    pub open spec fn rshift(self) -> Self {
        self.binary(
            signed_of(unsigned_of(self.s().nth(1)).wrapping_shr(self.s().nth(0) as u32)),
        )
    }

    /// `exit`: continue at the address on top of the return stack.
    pub open spec fn exit(self) -> Self {
        self.with_ip(unsigned_of(self.r().top())).rdrop_n(1)
    }

    /// `bye`: leave the data space, which ends the inner interpreter.
    pub open spec fn bye(self) -> Self {
        self.with_ip(0)
    }

    /// `here ( -- addr )`
    pub open spec fn here(self) -> Self {
        self.push(self.mem.here as isize)
    }

    /// `allot ( n -- )`
    pub open spec fn allot(self) -> Self {
        self.drop_n(1).with_mem(self.mem.allot(self.s().top()))
    }

    /// `aligned ( addr -- a-addr )`
    pub open spec fn aligned(self) -> Self {
        self.unary(signed_of(aligned_to(unsigned_of(self.s().top()), 8)))
    }

    /// `align ( -- )`
    pub open spec fn align(self) -> Self {
        self.with_mem(self.mem.align(8))
    }

    /// `>r ( x -- ) ( R: -- x )`
    pub open spec fn p_to_r(self) -> Self {
        self.rpush(self.s().top()).drop_n(1)
    }

    /// `r> ( -- x ) ( R: x -- )`
    pub open spec fn r_from(self) -> Self {
        self.push(self.r().top()).rdrop_n(1)
    }

    /// `r@ ( -- x ) ( R: x -- x )`
    pub open spec fn r_fetch(self) -> Self {
        self.push(self.r().top())
    }

    /// `2>r ( x1 x2 -- ) ( R: -- x1 x2 )`
    pub open spec fn two_to_r(self) -> Self {
        self.rpush(self.s().nth(1)).rpush(self.s().nth(0)).drop_n(2)
    }

    /// `2r> ( -- x1 x2 ) ( R: x1 x2 -- )`
    pub open spec fn two_r_from(self) -> Self {
        self.push(self.r().nth(1)).push(self.r().nth(0)).rdrop_n(2)
    }

    /// `2r@ ( -- x1 x2 ) ( R: x1 x2 -- x1 x2 )`
    pub open spec fn two_r_fetch(self) -> Self {
        self.push(self.r().nth(1)).push(self.r().nth(0))
    }

    /// `unloop`: discard the three cells of the innermost loop.
    pub open spec fn unloop(self) -> Self {
        self.rdrop_n(3)
    }

    /// `i ( -- n )`: the index of the innermost loop, the sum of the two
    /// top cells of the return stack.
    pub open spec fn p_i(self) -> Self {
        self.push(self.r().nth(0).wrapping_add(self.r().nth(1)))
    }

    /// `j ( -- n )`: the index of the next outer loop.
    pub open spec fn p_j(self) -> Self {
        self.push(self.r().nth(3).wrapping_add(self.r().nth(4)))
    }

    /// The run-time of `do`: save the address of the cell behind `_do`,
    /// skip that cell, and set up the loop parameters from limit and index
    /// so that the loop ends when the counter overflows.
    pub open spec fn run_do(self) -> Self {
        let n = self.s().nth(1);
        let t = self.s().nth(0);
        let rt = isize::MIN.wrapping_add(t).wrapping_sub(n);
        let rn = t.wrapping_sub(rt);
        self.rpush(signed_of(self.ip())).with_ip(self.ip().wrapping_add(8)).drop_n(2).rpush(
            rn,
        ).rpush(rt)
    }

    /// `handler! ( xt -- )`
    pub open spec fn handler_store(self) -> Self {
        VmView { handler: unsigned_of(self.s().top()), ..self.drop_n(1) }
    }

    /// `error ( -- n )`: the code of the last error, or zero.
    pub open spec fn error(self) -> Self {
        self.push(
            match self.last_error {
                Some(e) => e,
                None => 0,
            },
        )
    }

    /// `0error ( -- )`
    pub open spec fn clear_error(self) -> Self {
        self.with_error(None)
    }

    /// `0stacks ( -- )`: empty the parameter, float and control stacks.
    pub open spec fn clear_stacks(self) -> Self {
        self.with_s(self.s().reset()).with_f(self.f().reset()).with_c(self.c().reset())
    }

    /// `source-id ( -- n )`
    pub open spec fn p_source_id(self) -> Self {
        self.push(self.st().source_id)
    }

    /// `source-idx ( -- n )`
    pub open spec fn p_source_idx(self) -> Self {
        self.push(signed_of(self.st().source_index))
    }

    /// `source-idx! ( n -- )`
    pub open spec fn p_set_source_idx(self) -> Self {
        self.drop_n(1).with_st(State { source_index: unsigned_of(self.s().top()), ..self.st() })
    }

    /// `reset ( -- )`: reset the running task and clear the error. The
    /// parameter, float and control stacks stay.
    pub open spec fn reset(self) -> Self {
        VmView { task: self.task.reset(), last_error: None, ..self }
    }

    /// `[`: interpret.
    pub open spec fn left_bracket(self) -> Self {
        self.with_st(State { is_compiling: false, ..self.st() })
    }

    /// `]`: compile.
    pub open spec fn right_bracket(self) -> Self {
        self.with_st(State { is_compiling: true, ..self.st() })
    }

    /// `begin`: mark the start of a loop.
    pub open spec fn imm_begin(self) -> Self {
        self.with_c(self.c().push(Control::Begin(self.mem.here)))
    }

    /// `case`: mark the start of a case structure.
    pub open spec fn imm_case(self) -> Self {
        self.with_c(self.c().push(Control::Case))
    }

    /// `0labels`: forget all labels.
    pub open spec fn imm_clear_labels(self) -> Self {
        VmView { forward: Set::empty(), resolved: Set::empty(), ..self }
    }

    /// `compiling? ( -- flag )`
    pub open spec fn p_compiling(self) -> Self {
        self.push(flag(self.st().is_compiling))
    }

    /// `token-empty? ( -- flag )`
    pub open spec fn token_empty(self) -> Self {
        self.push(flag(self.token.len() == 0))
    }

    /// `me ( -- n )`: the number of the running task, counted from one.
    pub open spec fn me(self) -> Self {
        self.push((self.current_task + 1) as isize)
    }

    /// `base ( -- a-addr )`: the address of the numeric base.
    pub open spec fn base(self) -> Self {
        self.push((BASE_ADDR + 8) as isize)
    }
}

impl VM {
    /// No operation.
    pub fn noop(&mut self)
        ensures
            *final(self) == *old(self),
    {
    }

    /// `true ( -- true )`
    pub fn p_true(&mut self)
        requires
            old(self).wf(),
        ensures
            final(self).follows(old(self), old(self)@.p_true()),
    {
        self.task.s_stk.push(TRUE);
    }

    /// `false ( -- false )`
    pub fn p_false(&mut self)
        requires
            old(self).wf(),
        ensures
            final(self).follows(old(self), old(self)@.p_false()),
    {
        self.task.s_stk.push(FALSE);
    }

    /// `char+ ( c-addr1 -- c-addr2 )`
    pub fn char_plus(&mut self)
        requires
            old(self).wf(),
        ensures
            final(self).follows(old(self), old(self)@.char_plus()),
    {
        let v = self.task.s_stk.pop();
        self.task.s_stk.push(v.wrapping_add(1));
    }

    /// `cell+ ( a-addr1 -- a-addr2 )`
    pub fn cell_plus(&mut self)
        requires
            old(self).wf(),
        ensures
            final(self).follows(old(self), old(self)@.cell_plus()),
    {
        let v = self.task.s_stk.pop();
        self.task.s_stk.push(v.wrapping_add(8));
    }

    /// `cells ( n1 -- n2 )`
    pub fn cells(&mut self)
        requires
            old(self).wf(),
        ensures
            final(self).follows(old(self), old(self)@.cells()),
    {
        let v = self.task.s_stk.pop();
        self.task.s_stk.push(v.wrapping_mul(8));
    }

    /// `swap ( x1 x2 -- x2 x1 )`
    pub fn swap(&mut self)
        requires
            old(self).wf(),
        ensures
            final(self).follows(old(self), old(self)@.swap()),
    {
        let (n, t) = self.task.s_stk.pop2();
        self.task.s_stk.push2(t, n);
    }

    /// `dup ( x -- x x )`
    pub fn dup(&mut self)
        requires
            old(self).wf(),
        ensures
            final(self).follows(old(self), old(self)@.dup()),
    {
        let t = self.task.s_stk.nth(0);
        self.task.s_stk.push(t);
    }

    /// `drop ( x -- )`
    pub fn p_drop(&mut self)
        requires
            old(self).wf(),
        ensures
            final(self).follows(old(self), old(self)@.p_drop()),
    {
        let _ = self.task.s_stk.pop();
    }

    /// Pops the parameter stack.
    pub fn pop_s_stack(&mut self) -> (r: isize)
        requires
            old(self).wf(),
        ensures
            final(self).follows(old(self), old(self)@.p_drop()),
            r == old(self)@.s().top(),
    {
        self.task.s_stk.pop()
    }

    /// `nip ( x1 x2 -- x2 )`
    pub fn nip(&mut self)
        requires
            old(self).wf(),
        ensures
            final(self).follows(old(self), old(self)@.nip()),
    {
        let (_, t) = self.task.s_stk.pop2();
        self.task.s_stk.push(t);
    }

    /// `over ( x1 x2 -- x1 x2 x1 )`
    pub fn over(&mut self)
        requires
            old(self).wf(),
        ensures
            final(self).follows(old(self), old(self)@.over()),
    {
        let n = self.task.s_stk.nth(1);
        self.task.s_stk.push(n);
    }

    /// `rot ( x1 x2 x3 -- x2 x3 x1 )`
    pub fn rot(&mut self)
        requires
            old(self).wf(),
        ensures
            final(self).follows(old(self), old(self)@.rot()),
    {
        let (a, b, c) = self.task.s_stk.pop3();
        self.task.s_stk.push3(b, c, a);
    }

    /// `-rot ( x1 x2 x3 -- x3 x1 x2 )`
    pub fn minus_rot(&mut self)
        requires
            old(self).wf(),
        ensures
            final(self).follows(old(self), old(self)@.minus_rot()),
    {
        let (a, b, c) = self.task.s_stk.pop3();
        self.task.s_stk.push3(c, a, b);
    }

    /// `pick ( xu ... x0 u -- xu ... x0 xu )`: the count is taken from the
    /// low byte of the top cell.
    pub fn pick(&mut self)
        requires
            old(self).wf(),
        ensures
            final(self).follows(old(self), old(self)@.pick()),
    {
        let t = self.task.s_stk.nth(0) as u8;
        let x = self.task.s_stk.nth(t.wrapping_add(1));
        let _ = self.task.s_stk.pop();
        self.task.s_stk.push(x);
    }

    /// `2drop ( x1 x2 -- )`
    pub fn two_drop(&mut self)
        requires
            old(self).wf(),
        ensures
            final(self).follows(old(self), old(self)@.two_drop()),
    {
        let _ = self.task.s_stk.pop2();
    }

    /// `2dup ( x1 x2 -- x1 x2 x1 x2 )`
    pub fn two_dup(&mut self)
        requires
            old(self).wf(),
        ensures
            final(self).follows(old(self), old(self)@.two_dup()),
    {
        let n = self.task.s_stk.nth(1);
        let t = self.task.s_stk.nth(0);
        self.task.s_stk.push2(n, t);
    }

    /// `2swap ( x1 x2 x3 x4 -- x3 x4 x1 x2 )`
    pub fn two_swap(&mut self)
        requires
            old(self).wf(),
        ensures
            final(self).follows(old(self), old(self)@.two_swap()),
    {
        let (c, d) = self.task.s_stk.pop2();
        let (a, b) = self.task.s_stk.pop2();
        self.task.s_stk.push2(c, d);
        self.task.s_stk.push2(a, b);
    }

    /// `2over ( x1 x2 x3 x4 -- x1 x2 x3 x4 x1 x2 )`
    pub fn two_over(&mut self)
        requires
            old(self).wf(),
        ensures
            final(self).follows(old(self), old(self)@.two_over()),
    {
        let a = self.task.s_stk.nth(3);
        let b = self.task.s_stk.nth(2);
        self.task.s_stk.push2(a, b);
    }

    /// `depth ( -- +n )`
    pub fn depth(&mut self)
        requires
            old(self).wf(),
        ensures
            final(self).follows(old(self), old(self)@.depth()),
    {
        let len = self.task.s_stk.len();
        self.task.s_stk.push(len as isize);
    }

    /// `1+ ( n1 -- n2 )`
    pub fn one_plus(&mut self)
        requires
            old(self).wf(),
        ensures
            final(self).follows(old(self), old(self)@.one_plus()),
    {
        let t = self.task.s_stk.pop();
        self.task.s_stk.push(t.wrapping_add(1));
    }

    /// `1- ( n1 -- n2 )`
    pub fn one_minus(&mut self)
        requires
            old(self).wf(),
        ensures
            final(self).follows(old(self), old(self)@.one_minus()),
    {
        let t = self.task.s_stk.pop();
        self.task.s_stk.push(t.wrapping_sub(1));
    }

    /// `+ ( n1 n2 -- n3 )`
    pub fn plus(&mut self)
        requires
            old(self).wf(),
        ensures
            final(self).follows(old(self), old(self)@.plus()),
    {
        let (n, t) = self.task.s_stk.pop2();
        self.task.s_stk.push(n.wrapping_add(t));
    }

    /// `- ( n1 n2 -- n3 )`
    pub fn minus(&mut self)
        requires
            old(self).wf(),
        ensures
            final(self).follows(old(self), old(self)@.minus()),
    {
        let (n, t) = self.task.s_stk.pop2();
        self.task.s_stk.push(n.wrapping_sub(t));
    }

    /// `* ( n1 n2 -- n3 )`
    pub fn star(&mut self)
        requires
            old(self).wf(),
        ensures
            final(self).follows(old(self), old(self)@.star()),
    {
        let (n, t) = self.task.s_stk.pop2();
        self.task.s_stk.push(n.wrapping_mul(t));
    }

    /// `abs ( n -- u )`
    pub fn abs(&mut self)
        requires
            old(self).wf(),
        ensures
            final(self).follows(old(self), old(self)@.abs()),
    {
        let t = self.task.s_stk.pop();
        let v = if t >= 0 || t == isize::MIN {
            t
        } else {
            -t
        };
        self.task.s_stk.push(v);
    }

    /// `negate ( n1 -- n2 )`
    pub fn negate(&mut self)
        requires
            old(self).wf(),
        ensures
            final(self).follows(old(self), old(self)@.negate()),
    {
        let t = self.task.s_stk.pop();
        let v = if t == isize::MIN {
            t
        } else {
            -t
        };
        self.task.s_stk.push(v);
    }

    /// `0< ( n -- flag )`
    pub fn zero_less(&mut self)
        requires
            old(self).wf(),
        ensures
            final(self).follows(old(self), old(self)@.zero_less()),
    {
        let t = self.task.s_stk.pop();
        self.task.s_stk.push(flag_of(t < 0));
    }

    /// `0= ( n -- flag )`
    pub fn zero_equals(&mut self)
        requires
            old(self).wf(),
        ensures
            final(self).follows(old(self), old(self)@.zero_equals()),
    {
        let t = self.task.s_stk.pop();
        self.task.s_stk.push(flag_of(t == 0));
    }

    /// `0> ( n -- flag )`
    pub fn zero_greater(&mut self)
        requires
            old(self).wf(),
        ensures
            final(self).follows(old(self), old(self)@.zero_greater()),
    {
        let t = self.task.s_stk.pop();
        self.task.s_stk.push(flag_of(t > 0));
    }

    /// `0<> ( n -- flag )`
    pub fn zero_not_equals(&mut self)
        requires
            old(self).wf(),
        ensures
            final(self).follows(old(self), old(self)@.zero_not_equals()),
    {
        let t = self.task.s_stk.pop();
        self.task.s_stk.push(flag_of(t != 0));
    }

    /// `= ( n1 n2 -- flag )`
    pub fn equals(&mut self)
        requires
            old(self).wf(),
        ensures
            final(self).follows(old(self), old(self)@.equals()),
    {
        let (n, t) = self.task.s_stk.pop2();
        self.task.s_stk.push(flag_of(n == t));
    }

    /// `< ( n1 n2 -- flag )`
    pub fn less_than(&mut self)
        requires
            old(self).wf(),
        ensures
            final(self).follows(old(self), old(self)@.less_than()),
    {
        let (n, t) = self.task.s_stk.pop2();
        self.task.s_stk.push(flag_of(n < t));
    }

    /// `> ( n1 n2 -- flag )`
    pub fn greater_than(&mut self)
        requires
            old(self).wf(),
        ensures
            final(self).follows(old(self), old(self)@.greater_than()),
    {
        let (n, t) = self.task.s_stk.pop2();
        self.task.s_stk.push(flag_of(n > t));
    }

    /// `<> ( n1 n2 -- flag )`
    pub fn not_equals(&mut self)
        requires
            old(self).wf(),
        ensures
            final(self).follows(old(self), old(self)@.not_equals()),
    {
        let (n, t) = self.task.s_stk.pop2();
        self.task.s_stk.push(flag_of(n != t));
    }

    /// `within ( n1 n2 n3 -- flag )`: true where `n2 <= n1 < n3`.
    pub fn within(&mut self)
        requires
            old(self).wf(),
        ensures
            final(self).follows(old(self), old(self)@.within()),
    {
        let (x1, x2, x3) = self.task.s_stk.pop3();
        self.task.s_stk.push(flag_of(x2 <= x1 && x1 < x3));
    }

    /// `invert ( x1 -- x2 )`
    pub fn invert(&mut self)
        requires
            old(self).wf(),
        ensures
            final(self).follows(old(self), old(self)@.invert()),
    {
        let t = self.task.s_stk.pop();
        self.task.s_stk.push(!t);
    }

    /// `and ( x1 x2 -- x3 )`
    pub fn and(&mut self)
        requires
            old(self).wf(),
        ensures
            final(self).follows(old(self), old(self)@.and()),
    {
        let (n, t) = self.task.s_stk.pop2();
        self.task.s_stk.push(t & n);
    }

    /// `or ( x1 x2 -- x3 )`
    pub fn or(&mut self)
        requires
            old(self).wf(),
        ensures
            final(self).follows(old(self), old(self)@.or()),
    {
        let (n, t) = self.task.s_stk.pop2();
        self.task.s_stk.push(t | n);
    }

    /// `xor ( x1 x2 -- x3 )`
    pub fn xor(&mut self)
        requires
            old(self).wf(),
        ensures
            final(self).follows(old(self), old(self)@.xor()),
    {
        let (n, t) = self.task.s_stk.pop2();
        self.task.s_stk.push(t ^ n);
    }

    /// `lshift ( x1 u -- x2 )`: the shift count is taken modulo the width
    /// of a cell.
    pub fn lshift(&mut self)
        requires
            old(self).wf(),
        ensures
            final(self).follows(old(self), old(self)@.lshift()),
    {
        let (n, t) = self.task.s_stk.pop2();
        self.task.s_stk.push(n.wrapping_shl(t as u32));
    }

    /// `rshift ( x1 u -- x2 )`: a logical shift, which fills with zeros.
    pub fn rshift(&mut self)
        requires
            old(self).wf(),
        ensures
            final(self).follows(old(self), old(self)@.rshift()),
    {
        let (n, t) = self.task.s_stk.pop2();
        self.task.s_stk.push(to_signed(to_unsigned(n).wrapping_shr(t as u32)));
    }

    /// `exit`: continue at the address on top of the return stack.
    pub fn exit(&mut self)
        requires
            old(self).wf(),
        ensures
            final(self).follows(old(self), old(self)@.exit()),
    {
        let ip = self.task.r_stk.pop();
        self.task.state.instruction_pointer = to_unsigned(ip);
    }

    /// `bye`: leave the data space, which ends the inner interpreter.
    pub fn bye(&mut self)
        requires
            old(self).wf(),
        ensures
            final(self).follows(old(self), old(self)@.bye()),
    {
        self.task.state.instruction_pointer = 0;
    }

    /// `here ( -- addr )`
    pub fn here(&mut self)
        requires
            old(self).wf(),
        ensures
            final(self).follows(old(self), old(self)@.here()),
    {
        let here = self.data_space.here();
        self.task.s_stk.push(here as isize);
    }

    /// The data space with `here` moved by `n` bytes, or unchanged where
    /// that lies outside the arena.
    pub fn allot(&mut self)
        requires
            old(self).wf(),
        ensures
            final(self).follows(old(self), old(self)@.allot()),
    {
        let v = self.task.s_stk.pop();
        self.data_space.allot(v);
    }

    /// `aligned ( addr -- a-addr )`
    pub fn aligned(&mut self)
        requires
            old(self).wf(),
        ensures
            final(self).follows(old(self), old(self)@.aligned()),
    {
        let pos = self.task.s_stk.pop();
        let pos = DataSpace::aligned(to_unsigned(pos));
        self.task.s_stk.push(to_signed(pos));
    }

    /// The data space with `here` moved up to the next multiple of `unit`,
    /// or unchanged where that lies beyond the arena.
    pub fn align(&mut self)
        requires
            old(self).wf(),
        ensures
            final(self).follows(old(self), old(self)@.align()),
    {
        self.data_space.align();
    }

    /// `>r ( x -- ) ( R: -- x )`
    pub fn p_to_r(&mut self)
        requires
            old(self).wf(),
        ensures
            final(self).follows(old(self), old(self)@.p_to_r()),
    {
        let t = self.task.s_stk.pop();
        self.task.r_stk.push(t);
    }

    /// `r> ( -- x ) ( R: x -- )`
    pub fn r_from(&mut self)
        requires
            old(self).wf(),
        ensures
            final(self).follows(old(self), old(self)@.r_from()),
    {
        let t = self.task.r_stk.pop();
        self.task.s_stk.push(t);
    }

    /// `r@ ( -- x ) ( R: x -- x )`
    pub fn r_fetch(&mut self)
        requires
            old(self).wf(),
        ensures
            final(self).follows(old(self), old(self)@.r_fetch()),
    {
        let t = self.task.r_stk.nth(0);
        self.task.s_stk.push(t);
    }

    /// `2>r ( x1 x2 -- ) ( R: -- x1 x2 )`
    pub fn two_to_r(&mut self)
        requires
            old(self).wf(),
        ensures
            final(self).follows(old(self), old(self)@.two_to_r()),
    {
        let (n, t) = self.task.s_stk.pop2();
        self.task.r_stk.push2(n, t);
    }

    /// `2r> ( -- x1 x2 ) ( R: x1 x2 -- )`
    pub fn two_r_from(&mut self)
        requires
            old(self).wf(),
        ensures
            final(self).follows(old(self), old(self)@.two_r_from()),
    {
        let (n, t) = self.task.r_stk.pop2();
        self.task.s_stk.push2(n, t);
    }

    /// `2r@ ( -- x1 x2 ) ( R: x1 x2 -- x1 x2 )`
    pub fn two_r_fetch(&mut self)
        requires
            old(self).wf(),
        ensures
            final(self).follows(old(self), old(self)@.two_r_fetch()),
    {
        let n = self.task.r_stk.nth(1);
        let t = self.task.r_stk.nth(0);
        self.task.s_stk.push2(n, t);
    }

    /// `unloop`: discard the three cells of the innermost loop.
    pub fn unloop(&mut self)
        requires
            old(self).wf(),
        ensures
            final(self).follows(old(self), old(self)@.unloop()),
    {
        let _ = self.task.r_stk.pop3();
    }

    /// `i ( -- n )`: the index of the innermost loop, the sum of the two
    /// top cells of the return stack.
    pub fn p_i(&mut self)
        requires
            old(self).wf(),
        ensures
            final(self).follows(old(self), old(self)@.p_i()),
    {
        let it = self.task.r_stk.nth(0);
        let inext = self.task.r_stk.nth(1);
        self.task.s_stk.push(it.wrapping_add(inext));
    }

    /// `j ( -- n )`: the index of the next outer loop.
    pub fn p_j(&mut self)
        requires
            old(self).wf(),
        ensures
            final(self).follows(old(self), old(self)@.p_j()),
    {
        let jt = self.task.r_stk.nth(3);
        let jn = self.task.r_stk.nth(4);
        self.task.s_stk.push(jt.wrapping_add(jn));
    }

    /// The run-time of `do`: save the address of the cell behind `_do`,
    /// skip that cell, and set up the loop parameters from limit and index
    /// so that the loop ends when the counter overflows.
    pub fn _do(&mut self)
        requires
            old(self).wf(),
        ensures
            final(self).follows(old(self), old(self)@.run_do()),
    {
        let ip = self.task.state.instruction_pointer;
        self.task.r_stk.push(to_signed(ip));
        self.task.state.instruction_pointer = ip.wrapping_add(8);
        let (n, t) = self.task.s_stk.pop2();
        let rt = isize::MIN.wrapping_add(t).wrapping_sub(n);
        let rn = t.wrapping_sub(rt);
        self.task.r_stk.push2(rn, rt);
    }

    /// `handler! ( xt -- )`
    pub fn handler_store(&mut self)
        requires
            old(self).wf(),
        ensures
            final(self).follows(old(self), old(self)@.handler_store()),
    {
        let t = self.task.s_stk.pop();
        self.handler = to_unsigned(t);
    }

    /// `error ( -- n )`: the code of the last error, or zero.
    pub fn error(&mut self)
        requires
            old(self).wf(),
        ensures
            final(self).follows(old(self), old(self)@.error()),
    {
        match self.last_error {
            Some(e) => {
                self.task.s_stk.push(e);
            },
            None => {
                self.task.s_stk.push(0);
            },
        }
    }

    /// `0error ( -- )`
    pub fn clear_error(&mut self)
        requires
            old(self).wf(),
        ensures
            final(self).follows(old(self), old(self)@.clear_error()),
    {
        self.last_error = None;
    }

    /// Clears the parameter, float and control stacks.
    pub fn clear_stacks(&mut self)
        requires
            old(self).wf(),
        ensures
            final(self).follows(old(self), old(self)@.clear_stacks()),
    {
        self.task.s_stk.reset();
        self.task.f_stk.reset();
        self.task.c_stk.reset();
    }

    /// `source-id ( -- n )`
    pub fn p_source_id(&mut self)
        requires
            old(self).wf(),
        ensures
            final(self).follows(old(self), old(self)@.p_source_id()),
    {
        let source_id = self.task.state.source_id;
        self.task.s_stk.push(source_id);
    }

    /// `source-idx ( -- n )`
    pub fn p_source_idx(&mut self)
        requires
            old(self).wf(),
        ensures
            final(self).follows(old(self), old(self)@.p_source_idx()),
    {
        let source_idx = to_signed(self.task.state.source_index);
        self.task.s_stk.push(source_idx);
    }

    /// `source-idx! ( n -- )`
    pub fn p_set_source_idx(&mut self)
        requires
            old(self).wf(),
        ensures
            final(self).follows(old(self), old(self)@.p_set_source_idx()),
    {
        let idx = to_unsigned(self.task.s_stk.pop());
        self.task.state.source_index = idx;
    }

    /// Resets the running task and clears the error. The parameter, float
    /// and control stacks stay.
    pub fn reset(&mut self)
        requires
            old(self).wf(),
        ensures
            final(self).follows(old(self), old(self)@.reset()),
    {
        self.task.reset();
        self.last_error = None;
    }

    /// `[`: interpret.
    pub fn left_bracket(&mut self)
        requires
            old(self).wf(),
        ensures
            final(self).follows(old(self), old(self)@.left_bracket()),
    {
        self.task.state.is_compiling = false;
    }

    /// `]`: compile.
    pub fn right_bracket(&mut self)
        requires
            old(self).wf(),
        ensures
            final(self).follows(old(self), old(self)@.right_bracket()),
    {
        self.task.state.is_compiling = true;
    }

    /// `begin`: mark the start of a loop.
    pub fn imm_begin(&mut self)
        requires
            old(self).wf(),
        ensures
            final(self).follows(old(self), old(self)@.imm_begin()),
    {
        let here = self.data_space.here();
        self.task.c_stk.push(Control::Begin(here));
    }

    /// `case`: mark the start of a case structure.
    pub fn imm_case(&mut self)
        requires
            old(self).wf(),
        ensures
            final(self).follows(old(self), old(self)@.imm_case()),
    {
        self.task.c_stk.push(Control::Case);
    }

    /// `0labels`: forget all labels.
    pub fn imm_clear_labels(&mut self)
        requires
            old(self).wf(),
        ensures
            final(self).follows(old(self), old(self)@.imm_clear_labels()),
    {
        bitset_clear(&mut self.forward_bitset);
        bitset_clear(&mut self.resolved_bitset);
    }

    /// `compiling? ( -- flag )`
    pub fn p_compiling(&mut self)
        requires
            old(self).wf(),
        ensures
            final(self).follows(old(self), old(self)@.p_compiling()),
    {
        let value = flag_of(self.task.state.is_compiling);
        self.task.s_stk.push(value);
    }

    /// `token-empty? ( -- flag )`
    pub fn token_empty(&mut self)
        requires
            old(self).wf(),
        ensures
            final(self).follows(old(self), old(self)@.token_empty()),
    {
        let value = flag_of(self.tkn.len() == 0);
        self.task.s_stk.push(value);
    }

    /// `me ( -- n )`: the number of the running task, counted from one.
    pub fn me(&mut self)
        requires
            old(self).wf(),
        ensures
            final(self).follows(old(self), old(self)@.me()),
    {
        let me = self.current_task + 1;
        self.task.s_stk.push(me as isize);
    }

    /// The numeric base held in the system variables.
    pub fn base(&mut self)
        requires
            old(self).wf(),
        ensures
            final(self).follows(old(self), old(self)@.base()),
    {
        let base_addr = self.data_space.system_variables().base_addr();
        self.task.s_stk.push(base_addr as isize);
    }
}

} // verus!
