//! Fixed-size stacks with guard cells, and the markers of the control stack.
//!
//! A stack is 256 cells and a one-byte length that wraps. The cells at the
//! two guard indices hold a canary while the stack is used within its bounds.
use vstd::prelude::*;
use vstd::slice::slice_subrange;

verus! {

/// Index of the guard cell that an overflow overwrites.
pub const OVERFLOW_GUARD: u8 = 64;

/// Index of the guard cell that an underflow overwrites.
pub const UNDERFLOW_GUARD: u8 = 255;

/// A compile-time marker on the control stack. An address in a marker
/// points one cell past a branch operand that is still to be patched.
#[derive(Clone, Copy, PartialEq, Eq, Structural, Debug)]
pub enum Control {
    Default,
    Canary,
    If(usize),
    Else(usize),
    Begin(usize),
    While(usize),
    Do(usize, usize),
    Case,
    Of(usize),
    Endof(usize),
}

impl Default for Control {
    fn default() -> (r: Self)
        ensures
            r == Control::Default,
    {
        Control::Default
    }
}

impl Control {
    /// The marker's kind, without its addresses.
    pub open spec fn name_of(self) -> Seq<char> {
        match self {
            Control::Default => "Default"@,
            Control::Canary => "Canary"@,
            Control::If(_) => "If"@,
            Control::Else(_) => "Else"@,
            Control::Begin(_) => "Begin"@,
            Control::While(_) => "While"@,
            Control::Do(_, _) => "Do"@,
            Control::Case => "Case"@,
            Control::Of(_) => "Of"@,
            Control::Endof(_) => "Endof"@,
        }
    }

    /// The name of the marker's kind.
    pub fn name(&self) -> (r: &'static str)
        ensures
            r@ == self.name_of(),
    {
        match *self {
            Control::Default => "Default",
            Control::Canary => "Canary",
            Control::If(_) => "If",
            Control::Else(_) => "Else",
            Control::Begin(_) => "Begin",
            Control::While(_) => "While",
            Control::Do(_, _) => "Do",
            Control::Case => "Case",
            Control::Of(_) => "Of",
            Control::Endof(_) => "Endof",
        }
    }
}

/// What a stack can hold: a value that is copied and compared.
pub trait StackItem: Copy + Sized {
    /// Are the two values equal?
    fn same(self, other: Self) -> (r: bool)
        ensures
            r == (self == other),
    ;
}

impl StackItem for isize {
    fn same(self, other: Self) -> (r: bool) {
        self == other
    }
}

impl StackItem for u64 {
    fn same(self, other: Self) -> (r: bool) {
        self == other
    }
}

impl StackItem for Control {
    fn same(self, other: Self) -> (r: bool) {
        self == other
    }
}

/// What a stack holds: its 256 cells, its wrapping length and its canary.
pub struct StackView<T> {
    pub cells: Seq<T>,
    pub len: u8,
    pub canary: T,
}

impl<T> StackView<T> {
    /// The stack has its 256 cells.
    pub open spec fn wf(self) -> bool {
        self.cells.len() == 256
    }

    /// The `n`-th cell from the top, `nth(0)` being the top; the index wraps.
    pub open spec fn nth(self, n: u8) -> T {
        self.cells[self.len.wrapping_sub(1).wrapping_sub(n) as int]
    }

    /// The top cell.
    pub open spec fn top(self) -> T {
        self.nth(0)
    }

    /// The stack with `v` pushed.
    pub open spec fn push(self, v: T) -> Self {
        StackView {
            cells: self.cells.update(self.len as int, v),
            len: self.len.wrapping_add(1),
            ..self
        }
    }

    /// The stack with its top dropped.
    pub open spec fn pop(self) -> Self {
        StackView { len: self.len.wrapping_sub(1), ..self }
    }

    /// The stack with `n` cells dropped.
    pub open spec fn drop_n(self, n: u8) -> Self {
        StackView { len: self.len.wrapping_sub(n), ..self }
    }

    /// The stack with the cell at index `i` replaced by `v`.
    pub open spec fn set(self, i: u8, v: T) -> Self {
        StackView { cells: self.cells.update(i as int, v), ..self }
    }

    /// The empty stack with every cell holding the canary.
    pub open spec fn reset(self) -> Self {
        StackView { cells: Seq::new(256, |i: int| self.canary), len: 0, canary: self.canary }
    }

    /// The underflow guard is overwritten, or the length has wrapped below
    /// zero.
    pub open spec fn underflow(self) -> bool {
        self.cells[255] != self.canary || self.len > 128
    }

    /// The overflow guard is overwritten, or the length has passed it.
    pub open spec fn overflow(self) -> bool {
        self.cells[64] != self.canary || (self.len > 64 && self.len <= 128)
    }

    /// The cells below the top, bottom first.
    pub open spec fn items(self) -> Seq<T> {
        self.cells.subrange(0, self.len as int)
    }
}

/// A stack of 256 cells.
pub struct Stack<T> {
    pub inner: [T; 256],
    pub len: u8,
    pub canary: T,
}

impl<T> View for Stack<T> {
    type V = StackView<T>;

    open spec fn view(&self) -> StackView<T> {
        StackView { cells: self.inner@, len: self.len, canary: self.canary }
    }
}

impl<T: StackItem> Stack<T> {
    /// An empty stack whose cells all hold `canary`.
    pub fn new(canary: T) -> (r: Self)
        ensures
            r@.wf(),
            r@ == r@.reset(),
            r@.canary == canary,
    {
        let r = Stack { inner: [canary;256], len: 0, canary };
        assert(r@.cells =~= Seq::new(256, |i: int| canary));
        r
    }

    /// Empties the stack and refills every cell with the canary.
    pub fn reset(&mut self)
        ensures
            final(self)@ == old(self)@.reset(),
            final(self)@.wf(),
    {
        self.len = 0;
        let mut i: usize = 0;
        while i < 256
            invariant
                i <= 256,
                self.len == 0,
                self.canary == old(self).canary,
                forall|j: int| 0 <= j < i ==> self.inner@[j] == self.canary,
            decreases 256 - i,
        {
            self.inner[i] = self.canary;
            i += 1;
        }
        assert(self@.cells =~= old(self)@.reset().cells);
    }

    /// Has the stack been popped below its bottom?
    pub fn underflow(&self) -> (r: bool)
        ensures
            r == self@.underflow(),
    {
        !self.inner[255].same(self.canary) || self.len > 128
    }

    /// Has the stack grown beyond its limit?
    pub fn overflow(&self) -> (r: bool)
        ensures
            r == self@.overflow(),
    {
        !self.inner[64].same(self.canary) || (self.len > 64 && self.len <= 128)
    }

    /// Pushes `v`.
    pub fn push(&mut self, v: T)
        ensures
            final(self)@ == old(self)@.push(v),
    {
        let i: usize = self.len as usize;
        self.inner[i] = v;
        self.len = self.len.wrapping_add(1);
    }

    /// Pops the top cell.
    pub fn pop(&mut self) -> (r: T)
        ensures
            r == old(self)@.top(),
            final(self)@ == old(self)@.pop(),
    {
        let len = self.len.wrapping_sub(1);
        self.len = len;
        self.inner[len as usize]
    }

    /// Pushes `v1`, then `v2`.
    pub fn push2(&mut self, v1: T, v2: T)
        ensures
            final(self)@ == old(self)@.push(v1).push(v2),
    {
        self.push(v1);
        self.push(v2);
    }

    /// Pushes `v1`, then `v2`, then `v3`.
    pub fn push3(&mut self, v1: T, v2: T, v3: T)
        ensures
            final(self)@ == old(self)@.push(v1).push(v2).push(v3),
    {
        self.push(v1);
        self.push(v2);
        self.push(v3);
    }

    /// Pops two cells and returns them, the deeper one first.
    pub fn pop2(&mut self) -> (r: (T, T))
        ensures
            r == (old(self)@.nth(1), old(self)@.nth(0)),
            final(self)@ == old(self)@.drop_n(2),
    {
        let t = self.pop();
        let n = self.pop();
        (n, t)
    }

    /// Pops three cells and returns them, the deepest one first.
    pub fn pop3(&mut self) -> (r: (T, T, T))
        ensures
            r == (old(self)@.nth(2), old(self)@.nth(1), old(self)@.nth(0)),
            final(self)@ == old(self)@.drop_n(3),
    {
        let t = self.pop();
        let n = self.pop();
        let m = self.pop();
        (m, n, t)
    }

    /// The top cell. The index wraps, so there always is one.
    pub fn last(&self) -> (r: Option<T>)
        ensures
            r == Some(self@.top()),
    {
        Some(self.inner[self.len.wrapping_sub(1) as usize])
    }

    /// The cell at index `pos`.
    pub fn get(&self, pos: u8) -> (r: Option<T>)
        ensures
            r == Some(self@.cells[pos as int]),
    {
        Some(self.inner[pos as usize])
    }

    /// The `n`-th cell from the top; the index wraps.
    pub fn nth(&self, n: u8) -> (r: T)
        ensures
            r == self@.nth(n),
    {
        self.inner[self.len.wrapping_sub(1).wrapping_sub(n) as usize]
    }

    /// Replaces the cell at index `pos` by `v`.
    pub fn set(&mut self, pos: u8, v: T)
        ensures
            final(self)@ == old(self)@.set(pos, v),
    {
        self.inner[pos as usize] = v;
    }

    /// The length, which wraps at 256.
    pub fn len(&self) -> (r: u8)
        ensures
            r == self@.len,
    {
        self.len
    }

    /// Is the length zero?
    pub fn is_empty(&self) -> (r: bool)
        ensures
            r == (self@.len == 0),
    {
        self.len == 0
    }

    /// The cells below the top, bottom first.
    pub fn as_slice(&self) -> (r: &[T])
        ensures
            r@ == self@.items(),
    {
        slice_subrange(self.inner.as_slice(), 0, self.len as usize)
    }
}

/// After a reset and 129 pushes the length has passed the overflow guard,
/// and the guard holds the 65th value pushed: unless that value is the
/// canary itself, the stack reports an overflow.
pub proof fn lemma_canary_detects_overflow<T>(s: StackView<T>, pushed: Seq<T>)
    requires
        pushed.len() == 129,
        pushed[64] != s.canary,
    ensures
        pushed_all(s.reset(), pushed).overflow(),
        pushed_all(s.reset(), pushed).len == 129,
{
    lemma_pushed_all(s.reset(), pushed, 129);
}

/// The stack after the values of `vs` were pushed in order.
pub open spec fn pushed_all<T>(s: StackView<T>, vs: Seq<T>) -> StackView<T>
    decreases vs.len(),
{
    if vs.len() == 0 {
        s
    } else {
        pushed_all(s, vs.drop_last()).push(vs.last())
    }
}

/// Pushing up to 256 values onto an empty stack stores them from index 0 on.
pub proof fn lemma_pushed_all<T>(s: StackView<T>, vs: Seq<T>, n: int)
    requires
        s.wf(),
        s.len == 0,
        vs.len() == n,
        n <= 255,
    ensures
        pushed_all(s, vs).len == n,
        pushed_all(s, vs).wf(),
        pushed_all(s, vs).canary == s.canary,
        forall|i: int| 0 <= i < n ==> pushed_all(s, vs).cells[i] == vs[i],
        forall|i: int| n <= i < 256 ==> pushed_all(s, vs).cells[i] == s.cells[i],
    decreases n,
{
    if n > 0 {
        let prev = pushed_all(s, vs.drop_last());
        lemma_pushed_all(s, vs.drop_last(), n - 1);
        assert(prev.len == n - 1);
        assert(pushed_all(s, vs) == prev.push(vs.last()));
        assert forall|i: int| 0 <= i < n implies pushed_all(s, vs).cells[i] == vs[i] by {
            if i < n - 1 {
                assert(vs.drop_last()[i] == vs[i]);
                assert(prev.cells[i] == vs[i]);
            }
        }
    }
}

} // verus!
