//! Words that may fail, and the inner interpreter that executes them.
//!
//! A word that fails calls `abort_with`, which clears the stacks, records
//! the error and executes the exception handler, itself a word. Words thus
//! execute words; how deep they may do so is bounded by the machine's
//! nesting depth, and a word that would go deeper is not executed.
use crate::cell::{signed_of, to_signed, to_unsigned, unsigned_of};
use crate::dictionary::{Action, Semantics, Word};
use crate::exception::{
    Exception, CONTROL_STRUCTURE_MISMATCH, DICTIONARY_OVERFLOW, DIVISION_BY_ZERO,
    FLOATING_POINT_STACK_OVERFLOW, FLOATING_POINT_STACK_UNDERFLOW,
    INTERPRETING_A_COMPILE_ONLY_WORD, INVALID_MEMORY_ADDRESS, INVALID_NUMERIC_ARGUMENT,
    RETURN_STACK_OVERFLOW, RETURN_STACK_UNDERFLOW, STACK_OVERFLOW, STACK_UNDERFLOW,
    UNDEFINED_WORD, UNEXPECTED_END_OF_FILE, UNSUPPORTED_OPERATION,
};
use crate::labels::{bitset_add, bitset_contains, bitset_is_empty, bitset_remove, is_label};
use crate::memory::{aligned_to, DataSpace};
use crate::outer::{lowered, make_lower, redefining_notice};
use crate::parser::{integer_of, parse_integer};
use crate::primitives::{div_rem, wrapping_div, wrapping_rem};
use crate::stack::Control;
use crate::vm::{Request, State, TaskView, VmView, VM};
use crate::NUM_TASKS;
use vstd::prelude::*;
use vstd::slice::slice_to_vec;
use vstd::string::*;

verus! {

impl VmView {
    /// The word at `i` exists.
    pub open spec fn has_word(self, i: int) -> bool {
        0 <= i < self.words.words.len()
    }

    /// The word that is executing.
    pub open spec fn current_word(self) -> Word {
        self.words.words[self.st().word_pointer as int]
    }

    /// The machine after `e` was raised: the parameter, float and control
    /// stacks are cleared, the error and the word that failed are recorded,
    /// and the exception handler has been executed.
    pub open spec fn abort_with(self, e: Exception, d: nat) -> Self
        decreases d, 1int,
    {
        let vm = self.clear_stacks().with_error(Some(e));
        let vm = vm.with_st(State { aborted_word_pointer: vm.st().word_pointer, ..vm.st() });
        vm.execute_word(vm.handler, d)
    }

    /// The machine after the word at `i` was executed with `d` levels of
    /// nesting left. With none left the word is not executed: the stacks
    /// are cleared and a return stack overflow is recorded. A position
    /// beyond the dictionary raises an unsupported operation.
    pub open spec fn execute_word(self, i: usize, d: nat) -> Self
        decreases d, 0int,
    {
        let vm = self.with_st(State { word_pointer: i, ..self.st() });
        if d == 0 {
            vm.clear_stacks().with_error(Some(RETURN_STACK_OVERFLOW))
        } else if vm.has_word(i as int) {
            vm.run_action(vm.words.words[i as int].action, (d - 1) as nat)
        } else {
            vm.abort_with(UNSUPPORTED_OPERATION, (d - 1) as nat)
        }
    }

    /// The machine after one action. A host word leaves a request for the
    /// host and nothing else.
    pub open spec fn run_action(self, a: Action, d: nat) -> Self
        decreases d, 9int,
    {
        match a {
            Action::Noop => self,
            Action::Exit => self.exit(),
            Action::Lit => self.lit(d),
            Action::Flit => self.flit(d),
            Action::SQuote => self.p_s_quote(d),
            Action::Branch => self.branch(d),
            Action::ZeroBranch => self.zero_branch(d),
            Action::RunDo => self.run_do(),
            Action::RunQdo => self.run_qdo(d),
            Action::RunLoop => self.run_loop(d),
            Action::RunPlusLoop => self.run_plus_loop(d),
            Action::Unloop => self.unloop(),
            Action::Leave => self.leave(d),
            Action::I => self.p_i(),
            Action::J => self.p_j(),
            Action::ToR => self.p_to_r(),
            Action::RFrom => self.r_from(),
            Action::RFetch => self.r_fetch(),
            Action::TwoToR => self.two_to_r(),
            Action::TwoRFrom => self.two_r_from(),
            Action::TwoRFetch => self.two_r_fetch(),
            Action::CompileComma => self.comma(d),
            Action::RunPostpone => self.run_postpone(d),
            Action::RunDoes => self.run_does(d),
            Action::Execute => self.execute(d),
            Action::Dup => self.dup(),
            Action::Drop => self.p_drop(),
            Action::Swap => self.swap(),
            Action::Over => self.over(),
            Action::Nip => self.nip(),
            Action::Depth => self.depth(),
            Action::CheckStacks => self.check_stacks(d),
            Action::ZeroLess => self.zero_less(),
            Action::Equals => self.equals(),
            Action::LessThan => self.less_than(),
            Action::Invert => self.invert(),
            Action::And => self.and(),
            Action::Or => self.or(),
            Action::Xor => self.xor(),
            Action::Lshift => self.lshift(),
            Action::Rshift => self.rshift(),
            Action::OnePlus => self.one_plus(),
            Action::OneMinus => self.one_minus(),
            Action::Minus => self.minus(),
            Action::Plus => self.plus(),
            Action::Star => self.star(),
            Action::SlashMod => self.slash_mod(d),
            Action::CellPlus => self.cell_plus(),
            Action::Cells => self.cells(),
            Action::Fetch => self.fetch(d),
            Action::Store => self.store(d),
            Action::CharPlus => self.char_plus(),
            Action::Here => self.here(),
            Action::Allot => self.allot(),
            Action::Aligned => self.aligned(),
            Action::Align => self.align(),
            Action::CFetch => self.c_fetch(d),
            Action::CStore => self.c_store(d),
            Action::Move => self.p_move(d),
            Action::Base => self.base(),
            Action::Immediate => self.immediate(),
            Action::CompileOnly => self.compile_only(),
            Action::Paren => self.imm_paren(),
            Action::Backslash => self.imm_backslash(),
            Action::LeftBracket => self.left_bracket(),
            Action::BracketTick => self.bracket_tick(d),
            Action::BracketChar => self.bracket_char(d),
            Action::Semicolon => self.semicolon(d),
            Action::If => self.imm_if(d),
            Action::Else => self.imm_else(d),
            Action::Then => self.imm_then(d),
            Action::Case => self.imm_case(),
            Action::Of => self.imm_of(d),
            Action::Endof => self.imm_endof(d),
            Action::Endcase => self.imm_endcase(d),
            Action::Begin => self.imm_begin(),
            Action::While => self.imm_while(d),
            Action::Repeat => self.imm_repeat(d),
            Action::Until => self.imm_until(d),
            Action::Again => self.imm_again(d),
            Action::ClearLabels => self.imm_clear_labels(),
            Action::Label => self.imm_label(d),
            Action::Goto => self.imm_goto(d),
            Action::Call => self.imm_call(d),
            Action::Recurse => self.imm_recurse(d),
            Action::Do => self.imm_do(d),
            Action::Qdo => self.imm_qdo(d),
            Action::Loop => self.imm_loop(d),
            Action::PlusLoop => self.imm_plus_loop(d),
            Action::Postpone => self.postpone(d),
            Action::Does => self.does(d),
            Action::True => self.p_true(),
            Action::False => self.p_false(),
            Action::ZeroEquals => self.zero_equals(),
            Action::ZeroGreater => self.zero_greater(),
            Action::ZeroNotEquals => self.zero_not_equals(),
            Action::GreaterThan => self.greater_than(),
            Action::NotEquals => self.not_equals(),
            Action::Within => self.within(),
            Action::Rot => self.rot(),
            Action::MinusRot => self.minus_rot(),
            Action::Pick => self.pick(),
            Action::TwoDup => self.two_dup(),
            Action::TwoDrop => self.two_drop(),
            Action::TwoSwap => self.two_swap(),
            Action::TwoOver => self.two_over(),
            Action::Slash => self.slash(d),
            Action::Mod => self.p_mod(d),
            Action::Abs => self.abs(),
            Action::Negate => self.negate(),
            Action::ParseWord => self.parse_word(),
            Action::Char => self.char(d),
            Action::Skip => self.skip(),
            Action::Parse => self.parse(),
            Action::Colon => self.colon(d),
            Action::Constant => self.constant(d),
            Action::Create => self.create(d),
            Action::Tick => self.tick(d),
            Action::ToBody => self.to_body(d),
            Action::ToName => self.to_name(d),
            Action::RightBracket => self.right_bracket(),
            Action::Comma => self.comma(d),
            Action::Marker => self.marker(d),
            Action::HandlerStore => self.handler_store(),
            Action::Error => self.error(),
            Action::DotError => self.dot_error(),
            Action::ClearError => self.clear_error(),
            Action::ClearStacks => self.clear_stacks(),
            Action::Reset => self.reset(),
            Action::Abort => self.abort(d),
            Action::Compiling => self.p_compiling(),
            Action::TokenEmpty => self.token_empty(),
            Action::DotToken => self.dot_token(),
            Action::StoreToken => self.store_token(d),
            Action::CompileToken => self.compile_token(d),
            Action::InterpretToken => self.interpret_token(d),
            Action::SourceId => self.p_source_id(),
            Action::SetSourceId => self.p_set_source_id(d),
            Action::SourceIdx => self.p_source_idx(),
            Action::SetSourceIdx => self.p_set_source_idx(),
            Action::Bye => self.bye(),
            Action::Pause => self.pause(),
            Action::Activate => self.activate(d),
            Action::Me => self.me(),
            Action::Nest => self.nest(d),
            Action::Var => self.p_var(d),
            Action::Const => self.p_const(d),
            Action::Unmark => self.unmark(d),
            Action::XDoes => self.xdoes(d),
            Action::Suspend => self.wake(false, d),
            Action::Resume => self.wake(true, d),
            Action::File(w) => VmView { request: Request::File(w), ..self },
            Action::Source(w) => VmView { request: Request::Source(w), ..self },
            Action::Host(k) => VmView { request: Request::Host(k), ..self },
        }
    }

    /// `lit ( -- x )`: push the cell at the instruction pointer and skip it.
    pub open spec fn lit(self, d: nat) -> Self
        decreases d, 2int,
    {
        if self.mem.has_cell(self.ip() as int) {
            self.push(self.mem.cell(self.ip() as int)).with_ip((self.ip() + 8) as usize)
        } else {
            self.abort_with(INVALID_MEMORY_ADDRESS, d)
        }
    }

    /// `branch`: continue at the address in the cell at the instruction
    /// pointer.
    pub open spec fn branch(self, d: nat) -> Self
        decreases d, 2int,
    {
        if self.mem.has_cell(self.ip() as int) {
            self.with_ip(self.mem.ucell(self.ip() as int))
        } else {
            self.abort_with(INVALID_MEMORY_ADDRESS, d)
        }
    }

    /// `0branch ( x -- )`: branch where `x` is zero, skip the operand
    /// otherwise.
    pub open spec fn zero_branch(self, d: nat) -> Self
        decreases d, 3int,
    {
        if self.s().top() == 0 {
            self.drop_n(1).branch(d)
        } else {
            self.drop_n(1).with_ip(self.ip().wrapping_add(8))
        }
    }

    /// `@ ( a-addr -- x )`
    pub open spec fn fetch(self, d: nat) -> Self
        decreases d, 2int,
    {
        let t = self.s().top();
        if self.mem.has_cell(t as int) {
            self.unary(self.mem.cell(t as int))
        } else {
            self.drop_n(1).abort_with(INVALID_MEMORY_ADDRESS, d)
        }
    }

    /// `! ( x a-addr -- )`
    pub open spec fn store(self, d: nat) -> Self
        decreases d, 2int,
    {
        let n = self.s().nth(1);
        let t = self.s().nth(0);
        if self.mem.has_cell(t as int) {
            self.drop_n(2).with_mem(self.mem.put_cell(t as int, n))
        } else {
            self.drop_n(2).abort_with(INVALID_MEMORY_ADDRESS, d)
        }
    }

    /// `execute ( xt -- )`
    pub open spec fn execute(self, d: nat) -> Self
        decreases d, 2int,
    {
        self.drop_n(1).execute_word(unsigned_of(self.s().top()), d)
    }

    /// `abort`
    pub open spec fn abort(self, d: nat) -> Self
        decreases d, 2int,
    {
        self.abort_with(crate::exception::ABORT, d)
    }
}

impl VM {
    /// Raises the exception `e`: clears the parameter, float and control
    /// stacks, records the error and the word that failed, and executes the
    /// exception handler.
    pub fn abort_with(&mut self, e: Exception)
        requires
            old(self).wf(),
        ensures
            final(self).follows(old(self), old(self)@.abort_with(e, old(self).depth as nat)),
        decreases old(self).depth, 1int,
    {
        self.clear_stacks();
        self.last_error = Some(e);
        let h = self.handler;
        self.task.state.aborted_word_pointer = self.task.state.word_pointer;
        self.execute_word(h);
    }

    /// Executes the word at position `i`.
    pub fn execute_word(&mut self, i: usize)
        requires
            old(self).wf(),
        ensures
            final(self).follows(old(self), old(self)@.execute_word(i, old(self).depth as nat)),
        decreases old(self).depth, 0int,
    {
        self.task.state.word_pointer = i;
        if self.depth == 0 {
            self.clear_stacks();
            self.last_error = Some(RETURN_STACK_OVERFLOW);
        } else {
            self.depth = self.depth - 1;
            if i < self.wordlist.len() {
                let action = self.wordlist.get(i).action;
                self.run_action(action);
            } else {
                self.abort_with(UNSUPPORTED_OPERATION);
            }
            self.depth = self.depth + 1;
        }
    }

    /// Carries out one action.
    pub fn run_action(&mut self, a: Action)
        requires
            old(self).wf(),
        ensures
            final(self).follows(old(self), old(self)@.run_action(a, old(self).depth as nat)),
        decreases old(self).depth, 9int,
    {
        match a {
            Action::Noop => {},
            Action::Exit => self.exit(),
            Action::Lit => self.lit(),
            Action::Flit => self.flit(),
            Action::SQuote => self.p_s_quote(),
            Action::Branch => self.branch(),
            Action::ZeroBranch => self.zero_branch(),
            Action::RunDo => self._do(),
            Action::RunQdo => self._qdo(),
            Action::RunLoop => self._loop(),
            Action::RunPlusLoop => self._plus_loop(),
            Action::Unloop => self.unloop(),
            Action::Leave => self.leave(),
            Action::I => self.p_i(),
            Action::J => self.p_j(),
            Action::ToR => self.p_to_r(),
            Action::RFrom => self.r_from(),
            Action::RFetch => self.r_fetch(),
            Action::TwoToR => self.two_to_r(),
            Action::TwoRFrom => self.two_r_from(),
            Action::TwoRFetch => self.two_r_fetch(),
            Action::CompileComma => self.compile_comma(),
            Action::RunPostpone => self._postpone(),
            Action::RunDoes => self._does(),
            Action::Execute => self.execute(),
            Action::Dup => self.dup(),
            Action::Drop => self.p_drop(),
            Action::Swap => self.swap(),
            Action::Over => self.over(),
            Action::Nip => self.nip(),
            Action::Depth => self.depth(),
            Action::CheckStacks => self.check_stacks(),
            Action::ZeroLess => self.zero_less(),
            Action::Equals => self.equals(),
            Action::LessThan => self.less_than(),
            Action::Invert => self.invert(),
            Action::And => self.and(),
            Action::Or => self.or(),
            Action::Xor => self.xor(),
            Action::Lshift => self.lshift(),
            Action::Rshift => self.rshift(),
            Action::OnePlus => self.one_plus(),
            Action::OneMinus => self.one_minus(),
            Action::Minus => self.minus(),
            Action::Plus => self.plus(),
            Action::Star => self.star(),
            Action::SlashMod => self.slash_mod(),
            Action::CellPlus => self.cell_plus(),
            Action::Cells => self.cells(),
            Action::Fetch => self.fetch(),
            Action::Store => self.store(),
            Action::CharPlus => self.char_plus(),
            Action::Here => self.here(),
            Action::Allot => self.allot(),
            Action::Aligned => self.aligned(),
            Action::Align => self.align(),
            Action::CFetch => self.c_fetch(),
            Action::CStore => self.c_store(),
            Action::Move => self.p_move(),
            Action::Base => self.base(),
            Action::Immediate => self.immediate(),
            Action::CompileOnly => self.compile_only(),
            Action::Paren => self.imm_paren(),
            Action::Backslash => self.imm_backslash(),
            Action::LeftBracket => self.left_bracket(),
            Action::BracketTick => self.bracket_tick(),
            Action::BracketChar => self.bracket_char(),
            Action::Semicolon => self.semicolon(),
            Action::If => self.imm_if(),
            Action::Else => self.imm_else(),
            Action::Then => self.imm_then(),
            Action::Case => self.imm_case(),
            Action::Of => self.imm_of(),
            Action::Endof => self.imm_endof(),
            Action::Endcase => self.imm_endcase(),
            Action::Begin => self.imm_begin(),
            Action::While => self.imm_while(),
            Action::Repeat => self.imm_repeat(),
            Action::Until => self.imm_until(),
            Action::Again => self.imm_again(),
            Action::ClearLabels => self.imm_clear_labels(),
            Action::Label => self.imm_label(),
            Action::Goto => self.imm_goto(),
            Action::Call => self.imm_call(),
            Action::Recurse => self.imm_recurse(),
            Action::Do => self.imm_do(),
            Action::Qdo => self.imm_qdo(),
            Action::Loop => self.imm_loop(),
            Action::PlusLoop => self.imm_plus_loop(),
            Action::Postpone => self.postpone(),
            Action::Does => self.does(),
            Action::True => self.p_true(),
            Action::False => self.p_false(),
            Action::ZeroEquals => self.zero_equals(),
            Action::ZeroGreater => self.zero_greater(),
            Action::ZeroNotEquals => self.zero_not_equals(),
            Action::GreaterThan => self.greater_than(),
            Action::NotEquals => self.not_equals(),
            Action::Within => self.within(),
            Action::Rot => self.rot(),
            Action::MinusRot => self.minus_rot(),
            Action::Pick => self.pick(),
            Action::TwoDup => self.two_dup(),
            Action::TwoDrop => self.two_drop(),
            Action::TwoSwap => self.two_swap(),
            Action::TwoOver => self.two_over(),
            Action::Slash => self.slash(),
            Action::Mod => self.p_mod(),
            Action::Abs => self.abs(),
            Action::Negate => self.negate(),
            Action::ParseWord => self.parse_word(),
            Action::Char => self.char(),
            Action::Skip => self._skip(),
            Action::Parse => self.parse(),
            Action::Colon => self.colon(),
            Action::Constant => self.constant(),
            Action::Create => self.create(),
            Action::Tick => self.tick(),
            Action::ToBody => self.to_body(),
            Action::ToName => self.to_name(),
            Action::RightBracket => self.right_bracket(),
            Action::Comma => self.comma(),
            Action::Marker => self.marker(),
            Action::HandlerStore => self.handler_store(),
            Action::Error => self.error(),
            Action::DotError => self.dot_error(),
            Action::ClearError => self.clear_error(),
            Action::ClearStacks => self.clear_stacks(),
            Action::Reset => self.reset(),
            Action::Abort => self.abort(),
            Action::Compiling => self.p_compiling(),
            Action::TokenEmpty => self.token_empty(),
            Action::DotToken => self.dot_token(),
            Action::StoreToken => self.store_token(),
            Action::CompileToken => self.compile_token(),
            Action::InterpretToken => self.interpret_token(),
            Action::SourceId => self.p_source_id(),
            Action::SetSourceId => self.p_set_source_id(),
            Action::SourceIdx => self.p_source_idx(),
            Action::SetSourceIdx => self.p_set_source_idx(),
            Action::Bye => self.bye(),
            Action::Pause => self.pause(),
            Action::Activate => self.activate(),
            Action::Me => self.me(),
            Action::Nest => self.nest(),
            Action::Var => self.p_var(),
            Action::Const => self.p_const(),
            Action::Unmark => self.unmark(),
            Action::XDoes => self.xdoes(),
            Action::Suspend => self.suspend(),
            Action::Resume => self.resume(),
            Action::File(w) => {
                self.request = Request::File(w);
            },
            Action::Source(w) => {
                self.request = Request::Source(w);
            },
            Action::Host(k) => {
                self.request = Request::Host(k);
            },
        }
    }

    /// `lit ( -- x )`: push the cell at the instruction pointer and skip it.
    pub fn lit(&mut self)
        requires
            old(self).wf(),
        ensures
            final(self).follows(old(self), old(self)@.lit(old(self).depth as nat)),
        decreases old(self).depth, 2int,
    {
        let ip = self.task.state.instruction_pointer;
        if self.data_space.has_range(ip, 8) {
            let v = self.data_space.get_isize(ip);
            self.task.s_stk.push(v);
            self.task.state.instruction_pointer = ip + 8;
        } else {
            self.abort_with(INVALID_MEMORY_ADDRESS);
        }
    }

    /// `branch`: continue at the address in the cell at the instruction
    /// pointer.
    pub fn branch(&mut self)
        requires
            old(self).wf(),
        ensures
            final(self).follows(old(self), old(self)@.branch(old(self).depth as nat)),
        decreases old(self).depth, 2int,
    {
        let ip = self.task.state.instruction_pointer;
        if self.data_space.has_range(ip, 8) {
            self.task.state.instruction_pointer = self.data_space.get_usize(ip);
        } else {
            self.abort_with(INVALID_MEMORY_ADDRESS);
        }
    }

    /// `0branch ( x -- )`: branch where `x` is zero, skip the operand
    /// otherwise.
    pub fn zero_branch(&mut self)
        requires
            old(self).wf(),
        ensures
            final(self).follows(old(self), old(self)@.zero_branch(old(self).depth as nat)),
        decreases old(self).depth, 3int,
    {
        let v = self.task.s_stk.pop();
        if v == 0 {
            self.branch();
        } else {
            let ip = self.task.state.instruction_pointer;
            self.task.state.instruction_pointer = ip.wrapping_add(8);
        }
    }

    /// `@ ( a-addr -- x )`
    pub fn fetch(&mut self)
        requires
            old(self).wf(),
        ensures
            final(self).follows(old(self), old(self)@.fetch(old(self).depth as nat)),
        decreases old(self).depth, 2int,
    {
        let t = self.task.s_stk.pop();
        if t >= 0 && self.data_space.has_range(t as usize, 8) {
            let value = self.data_space.get_isize(t as usize);
            self.task.s_stk.push(value);
        } else {
            self.abort_with(INVALID_MEMORY_ADDRESS);
        }
    }

    /// `! ( x a-addr -- )`
    pub fn store(&mut self)
        requires
            old(self).wf(),
        ensures
            final(self).follows(old(self), old(self)@.store(old(self).depth as nat)),
        decreases old(self).depth, 2int,
    {
        let (n, t) = self.task.s_stk.pop2();
        if t >= 0 && self.data_space.has_range(t as usize, 8) {
            self.data_space.put_isize(n, t as usize);
        } else {
            self.abort_with(INVALID_MEMORY_ADDRESS);
        }
    }

    /// `execute ( xt -- )`
    pub fn execute(&mut self)
        requires
            old(self).wf(),
        ensures
            final(self).follows(old(self), old(self)@.execute(old(self).depth as nat)),
        decreases old(self).depth, 2int,
    {
        let t = self.task.s_stk.pop();
        self.execute_word(to_unsigned(t));
    }

    /// `abort`
    pub fn abort(&mut self)
        requires
            old(self).wf(),
        ensures
            final(self).follows(old(self), old(self)@.abort(old(self).depth as nat)),
        decreases old(self).depth, 2int,
    {
        self.abort_with(crate::exception::ABORT);
    }
}


/// The address in the marker of the innermost `do` among the first `n`
/// markers of a control stack: where its `leave`s are chained.
pub open spec fn last_do(cells: Seq<Control>, n: int) -> Option<usize>
    decreases n,
{
    if n <= 0 {
        None
    } else {
        match cells[n - 1] {
            Control::Do(_, leave_part) => Some(leave_part),
            _ => last_do(cells, n - 1),
        }
    }
}

impl VmView {
    /// The machine with the cell `v` appended to data space.
    pub open spec fn emit(self, v: isize) -> Self {
        self.with_mem(self.mem.compile_cell(v))
    }

    /// The machine with the execution token or address `x` appended to
    /// data space.
    pub open spec fn emit_xt(self, x: usize) -> Self {
        self.emit(signed_of(x))
    }

    /// The machine with the cell at `at` set to the address `v`.
    pub open spec fn patch(self, at: int, v: usize) -> Self {
        self.with_mem(self.mem.put_cell(at, signed_of(v)))
    }

    /// The machine with the word at `i` replaced by `w`.
    pub open spec fn with_word(self, i: int, w: Word) -> Self {
        self.with_words(self.words.set_word(i, w))
    }

    /// `flit ( F: -- r )`: push the float at the next float-aligned address
    /// and skip it.
    pub open spec fn flit(self, d: nat) -> Self
        decreases d, 2int,
    {
        let ip = aligned_to(self.ip(), 8);
        if self.mem.has_cell(ip as int) {
            self.with_f(self.f().push(self.mem.bits(ip as int))).with_ip((ip + 8) as usize)
        } else {
            self.abort_with(INVALID_MEMORY_ADDRESS, d)
        }
    }

    /// The run-time of a string literal `( -- c-addr u )`: push address
    /// and length of the string stored at the instruction pointer, and
    /// continue behind it at the next cell boundary.
    pub open spec fn p_s_quote(self, d: nat) -> Self
        decreases d, 2int,
    {
        let ip = self.ip();
        if self.mem.has_str(ip as int) {
            let cnt = self.mem.ucell(ip as int);
            self.push((ip + 8) as isize).push(cnt as isize).with_ip(
                aligned_to((ip + 8 + cnt) as usize, 8),
            )
        } else {
            self.abort_with(INVALID_MEMORY_ADDRESS, d)
        }
    }

    /// The run-time of `?do`: skip the loop where limit and index are
    /// equal, set it up as `do` does otherwise.
    pub open spec fn run_qdo(self, d: nat) -> Self
        decreases d, 3int,
    {
        if self.s().nth(1) == self.s().nth(0) {
            self.drop_n(2).branch(d)
        } else {
            self.run_do()
        }
    }

    /// The run-time of `loop`: count up by one; go round again unless the
    /// counter overflows, which ends the loop.
    pub open spec fn run_loop(self, d: nat) -> Self
        decreases d, 3int,
    {
        let rt = self.r().top();
        if rt + 1 <= isize::MAX {
            self.rdrop_n(1).rpush((rt + 1) as isize).branch(d)
        } else {
            self.rdrop_n(3).with_ip(self.ip().wrapping_add(8))
        }
    }

    /// The run-time of `+loop ( n -- )`: count by `n`.
    pub open spec fn run_plus_loop(self, d: nat) -> Self
        decreases d, 3int,
    {
        let rt = self.r().top();
        let t = self.s().top();
        if isize::MIN <= rt + t <= isize::MAX {
            self.rdrop_n(1).drop_n(1).rpush((rt + t) as isize).branch(d)
        } else {
            self.rdrop_n(3).drop_n(1).with_ip(self.ip().wrapping_add(8))
        }
    }

    /// `leave`: discard the loop parameters and continue where the cell
    /// behind the loop's `_do` points, behind the loop.
    pub open spec fn leave(self, d: nat) -> Self
        decreases d, 2int,
    {
        let third = self.r().nth(2);
        let vm = self.rdrop_n(3);
        if vm.r().underflow() {
            vm.abort_with(RETURN_STACK_UNDERFLOW, d)
        } else if self.mem.has_cell(third as int) {
            vm.with_ip(self.mem.ucell(third as int))
        } else {
            vm.abort_with(INVALID_MEMORY_ADDRESS, d)
        }
    }

    /// `c@ ( c-addr -- char )`
    pub open spec fn c_fetch(self, d: nat) -> Self
        decreases d, 2int,
    {
        let t = self.s().top();
        if self.mem.has(t as int) {
            self.unary(self.mem.byte(t as int) as isize)
        } else {
            self.drop_n(1).abort_with(INVALID_MEMORY_ADDRESS, d)
        }
    }

    /// `c! ( char c-addr -- )`: store the low byte of `char`.
    pub open spec fn c_store(self, d: nat) -> Self
        decreases d, 2int,
    {
        let n = self.s().nth(1);
        let t = self.s().nth(0);
        if self.mem.has(t as int) {
            self.drop_n(2).with_mem(self.mem.put_byte(t as int, n as u8))
        } else {
            self.drop_n(2).abort_with(INVALID_MEMORY_ADDRESS, d)
        }
    }

    /// `move ( addr1 addr2 u -- )`: afterwards the `u` bytes at `addr2`
    /// hold what the `u` bytes at `addr1` held before.
    pub open spec fn p_move(self, d: nat) -> Self
        decreases d, 2int,
    {
        let addr1 = self.s().nth(2);
        let addr2 = self.s().nth(1);
        let u = self.s().nth(0);
        let vm = self.drop_n(3);
        if u <= 0 {
            vm
        } else if self.mem.has_range(addr1 as int, u as int) && self.mem.has_range(
            addr2 as int,
            u as int,
        ) {
            vm.with_mem(self.mem.put_range(addr2 as int, self.mem.range(addr1 as int, u as int)))
        } else {
            vm.abort_with(INVALID_MEMORY_ADDRESS, d)
        }
    }

    /// `/ ( n1 n2 -- n3 )`
    pub open spec fn slash(self, d: nat) -> Self
        decreases d, 2int,
    {
        if self.s().top() == 0 {
            self.abort_with(DIVISION_BY_ZERO, d)
        } else {
            self.binary(wrapping_div(self.s().nth(1), self.s().nth(0)))
        }
    }

    /// `mod ( n1 n2 -- n3 )`
    pub open spec fn p_mod(self, d: nat) -> Self
        decreases d, 2int,
    {
        if self.s().top() == 0 {
            self.abort_with(DIVISION_BY_ZERO, d)
        } else {
            self.binary(wrapping_rem(self.s().nth(1), self.s().nth(0)))
        }
    }

    /// `/mod ( n1 n2 -- n3 n4 )`: remainder, then quotient.
    pub open spec fn slash_mod(self, d: nat) -> Self
        decreases d, 2int,
    {
        if self.s().top() == 0 {
            self.abort_with(DIVISION_BY_ZERO, d)
        } else {
            self.drop_n(2).push(wrapping_rem(self.s().nth(1), self.s().nth(0))).push(
                wrapping_div(self.s().nth(1), self.s().nth(0)),
            )
        }
    }

    /// `>body ( xt -- a-addr )`
    pub open spec fn to_body(self, d: nat) -> Self
        decreases d, 2int,
    {
        let t = unsigned_of(self.s().top());
        if self.has_word(t as int) {
            self.unary(signed_of(self.words.words[t as int].dfa))
        } else {
            self.drop_n(1).abort_with(INVALID_NUMERIC_ARGUMENT, d)
        }
    }

    /// `>name ( xt -- a-addr )`
    pub open spec fn to_name(self, d: nat) -> Self
        decreases d, 2int,
    {
        let t = unsigned_of(self.s().top());
        if self.has_word(t as int) {
            self.unary(signed_of(self.words.words[t as int].nfa))
        } else {
            self.drop_n(1).abort_with(INVALID_NUMERIC_ARGUMENT, d)
        }
    }

    /// `?stacks`: raise the exception of the first stack that is out of
    /// its bounds, looking at the parameter, return, control and float
    /// stacks in this order, overflow before underflow.
    pub open spec fn check_stacks(self, d: nat) -> Self
        decreases d, 2int,
    {
        if self.s().overflow() {
            self.abort_with(STACK_OVERFLOW, d)
        } else if self.s().underflow() {
            self.abort_with(STACK_UNDERFLOW, d)
        } else if self.r().overflow() {
            self.abort_with(RETURN_STACK_OVERFLOW, d)
        } else if self.r().underflow() {
            self.abort_with(RETURN_STACK_UNDERFLOW, d)
        } else if self.c().overflow() {
            self.abort_with(CONTROL_STRUCTURE_MISMATCH, d)
        } else if self.c().underflow() {
            self.abort_with(CONTROL_STRUCTURE_MISMATCH, d)
        } else if self.f().overflow() {
            self.abort_with(FLOATING_POINT_STACK_OVERFLOW, d)
        } else if self.f().underflow() {
            self.abort_with(FLOATING_POINT_STACK_UNDERFLOW, d)
        } else {
            self
        }
    }

    /// Select the source `id`: the terminal, or a source that is open.
    pub open spec fn set_source_id(self, id: isize, d: nat) -> Self
        decreases d, 2int,
    {
        if self.task.is_source(id) {
            self.with_st(State { source_id: id, ..self.st() })
        } else {
            self.abort_with(INVALID_NUMERIC_ARGUMENT, d)
        }
    }

    /// `source-id! ( n -- )`
    pub open spec fn p_set_source_id(self, d: nat) -> Self
        decreases d, 3int,
    {
        self.drop_n(1).set_source_id(self.s().top(), d)
    }

    /// The action of a colon definition: save the instruction pointer and
    /// continue at the word's data field.
    pub open spec fn nest(self, d: nat) -> Self
        decreases d, 2int,
    {
        if self.has_word(self.st().word_pointer as int) {
            self.rpush(signed_of(self.ip())).with_ip(self.current_word().dfa)
        } else {
            self.abort_with(UNSUPPORTED_OPERATION, d)
        }
    }

    /// The action of a word made by `create`: push its data-field address.
    pub open spec fn p_var(self, d: nat) -> Self
        decreases d, 2int,
    {
        if self.has_word(self.st().word_pointer as int) {
            self.push(signed_of(self.current_word().dfa))
        } else {
            self.abort_with(UNSUPPORTED_OPERATION, d)
        }
    }

    /// The action of a constant: push the cell in its data field.
    pub open spec fn p_const(self, d: nat) -> Self
        decreases d, 2int,
    {
        if !self.has_word(self.st().word_pointer as int) {
            self.abort_with(UNSUPPORTED_OPERATION, d)
        } else if self.mem.has_cell(self.current_word().dfa as int) {
            self.push(self.mem.cell(self.current_word().dfa as int))
        } else {
            self.abort_with(INVALID_MEMORY_ADDRESS, d)
        }
    }

    /// The action of a word completed by `does>`: push its data-field
    /// address, then enter the code behind `does>`.
    pub open spec fn xdoes(self, d: nat) -> Self
        decreases d, 2int,
    {
        if self.has_word(self.st().word_pointer as int) {
            self.push(signed_of(self.current_word().dfa)).rpush(signed_of(self.ip())).with_ip(
                self.current_word().doer,
            )
        } else {
            self.abort_with(UNSUPPORTED_OPERATION, d)
        }
    }

    /// The run-time of `does>`: the last definition from now on pushes its
    /// data-field address and enters the code that follows the next cell.
    /// The address of that code is also appended to data space.
    pub open spec fn run_does(self, d: nat) -> Self
        decreases d, 2int,
    {
        let doer = self.ip().wrapping_add(8);
        let def = self.words.last;
        if !self.mem.room(8) {
            self.abort_with(DICTIONARY_OVERFLOW, d)
        } else if self.has_word(def as int) {
            self.emit_xt(doer).with_word(
                def as int,
                Word { action: Action::XDoes, doer, ..self.words.words[def as int] },
            )
        } else {
            self.abort_with(UNSUPPORTED_OPERATION, d)
        }
    }

    /// The action of a marker: cut the dictionary back to the marker and
    /// data space back to the marker's name; the bucket heads are those
    /// saved in the marker's data field.
    pub open spec fn unmark(self, d: nat) -> Self
        decreases d, 2int,
    {
        let wp = self.st().word_pointer;
        if !self.has_word(wp as int) {
            self.abort_with(UNSUPPORTED_OPERATION, d)
        } else if self.mem.has_range(self.current_word().dfa as int, 520) {
            let w = self.current_word();
            self.with_words(
                crate::dictionary::WordlistView {
                    buckets: crate::dictionary::saved_words(self.mem, w.dfa + 8, 64),
                    ..self.words
                }.truncate(wp as int),
            ).with_mem(self.mem.set_here(w.nfa as int))
        } else {
            self.abort_with(INVALID_MEMORY_ADDRESS, d)
        }
    }

    /// Append the execution token `xt`.
    pub open spec fn compile_word(self, xt: usize, d: nat) -> Self
        decreases d, 2int,
    {
        if self.mem.room(8) {
            self.emit_xt(xt)
        } else {
            self.abort_with(DICTIONARY_OVERFLOW, d)
        }
    }

    /// Append code that pushes `i`: `lit` and the cell.
    pub open spec fn compile_integer(self, i: isize, d: nat) -> Self
        decreases d, 2int,
    {
        if self.mem.room(16) {
            self.emit_xt(self.refs.idx_lit).emit(i)
        } else {
            self.abort_with(DICTIONARY_OVERFLOW, d)
        }
    }

    /// Append code that pushes the float with the bits `f`: `flit` and,
    /// at the next float boundary, the bits.
    pub open spec fn compile_float(self, f: u64, d: nat) -> Self
        decreases d, 2int,
    {
        if self.mem.room(24) {
            let vm = self.emit_xt(self.refs.idx_flit);
            vm.with_mem(vm.mem.align(8).compile_bits(f))
        } else {
            self.abort_with(DICTIONARY_OVERFLOW, d)
        }
    }

    /// `, ( x -- )`
    pub open spec fn comma(self, d: nat) -> Self
        decreases d, 2int,
    {
        if self.mem.room(8) {
            self.drop_n(1).emit(self.s().top())
        } else {
            self.drop_n(1).abort_with(DICTIONARY_OVERFLOW, d)
        }
    }

    /// Append a reference to `leave`, which is only possible inside a `do`
    /// loop.
    pub open spec fn compile_leave(self, xt: usize, d: nat) -> Self
        decreases d, 3int,
    {
        if last_do(self.c().cells, self.c().len as int).is_some() {
            self.compile_word(xt, d)
        } else {
            self.abort_with(CONTROL_STRUCTURE_MISMATCH, d)
        }
    }

    /// Carry out the compilation semantics `sem` for the word `xt`.
    pub open spec fn run_semantics(self, sem: Semantics, xt: usize, d: nat) -> Self
        decreases d, 4int,
    {
        match sem {
            Semantics::Leave => self.compile_leave(xt, d),
            _ => self.compile_word(xt, d),
        }
    }

    /// The run-time of `postpone ( xt -- )`: carry out the compilation
    /// semantics of `xt`.
    pub open spec fn run_postpone(self, d: nat) -> Self
        decreases d, 5int,
    {
        let xt = unsigned_of(self.s().top());
        if self.has_word(xt as int) {
            self.drop_n(1).run_semantics(self.words.words[xt as int].compilation_semantics, xt, d)
        } else {
            self.drop_n(1).abort_with(INVALID_NUMERIC_ARGUMENT, d)
        }
    }
}

impl VM {
    /// Is there room for `n` more bytes in data space?
    pub fn room(&self, n: usize) -> (r: bool)
        requires
            self.wf(),
        ensures
            r == self@.mem.room(n as int),
    {
        n <= self.data_space.limit() - self.data_space.here()
    }

    /// Appends the cell `v` to data space.
    pub fn emit(&mut self, v: isize)
        requires
            old(self).wf(),
            old(self)@.mem.room(8),
        ensures
            final(self).follows(old(self), old(self)@.emit(v)),
    {
        self.data_space.compile_isize(v);
    }

    /// Appends the execution token or address `x` to data space.
    pub fn emit_xt(&mut self, x: usize)
        requires
            old(self).wf(),
            old(self)@.mem.room(8),
        ensures
            final(self).follows(old(self), old(self)@.emit_xt(x)),
    {
        self.data_space.compile_usize(x);
    }

    /// Sets the cell at `at` to the address `v`.
    pub fn patch(&mut self, at: usize, v: usize)
        requires
            old(self).wf(),
            old(self)@.mem.has_cell(at as int),
        ensures
            final(self).follows(old(self), old(self)@.patch(at as int, v)),
    {
        self.data_space.put_isize(to_signed(v), at);
    }

    /// `flit ( F: -- r )`: push the float at the next float-aligned address
    /// and skip it.
    pub fn flit(&mut self)
        requires
            old(self).wf(),
        ensures
            final(self).follows(old(self), old(self)@.flit(old(self).depth as nat)),
        decreases old(self).depth, 2int,
    {
        let ip = DataSpace::aligned_float(self.task.state.instruction_pointer);
        if self.data_space.has_range(ip, 8) {
            let v = self.data_space.get_bits(ip);
            self.task.f_stk.push(v);
            self.task.state.instruction_pointer = ip + 8;
        } else {
            self.abort_with(INVALID_MEMORY_ADDRESS);
        }
    }

    /// Does data space hold a whole string at `addr`?
    pub fn has_str(&self, addr: usize) -> (r: bool)
        requires
            self.wf(),
        ensures
            r == self@.mem.has_str(addr as int),
    {
        if self.data_space.has_range(addr, 8) {
            let n = self.data_space.get_usize(addr);
            n <= self.data_space.limit() - addr - 8
        } else {
            false
        }
    }

    /// The run-time of a string literal `( -- c-addr u )`: push address
    /// and length of the string stored at the instruction pointer, and
    /// continue behind it at the next cell boundary.
    pub fn p_s_quote(&mut self)
        requires
            old(self).wf(),
        ensures
            final(self).follows(old(self), old(self)@.p_s_quote(old(self).depth as nat)),
        decreases old(self).depth, 2int,
    {
        let ip = self.task.state.instruction_pointer;
        if self.has_str(ip) {
            let cnt = self.data_space.get_usize(ip);
            self.task.s_stk.push((ip + 8) as isize);
            self.task.s_stk.push(cnt as isize);
            self.task.state.instruction_pointer = DataSpace::aligned(ip + 8 + cnt);
        } else {
            self.abort_with(INVALID_MEMORY_ADDRESS);
        }
    }

    /// The run-time of `?do`: skip the loop where limit and index are
    /// equal, set it up as `do` does otherwise.
    pub fn _qdo(&mut self)
        requires
            old(self).wf(),
        ensures
            final(self).follows(old(self), old(self)@.run_qdo(old(self).depth as nat)),
        decreases old(self).depth, 3int,
    {
        let n = self.task.s_stk.nth(1);
        let t = self.task.s_stk.nth(0);
        if n == t {
            let _ = self.task.s_stk.pop2();
            self.branch();
        } else {
            self._do();
        }
    }

    /// The run-time of `loop`: count up by one; go round again unless the
    /// counter overflows, which ends the loop.
    pub fn _loop(&mut self)
        requires
            old(self).wf(),
        ensures
            final(self).follows(old(self), old(self)@.run_loop(old(self).depth as nat)),
        decreases old(self).depth, 3int,
    {
        let rt = self.task.r_stk.pop();
        match rt.checked_add(1) {
            Some(sum) => {
                self.task.r_stk.push(sum);
                self.branch();
            },
            None => {
                let _ = self.task.r_stk.pop2();
                let ip = self.task.state.instruction_pointer;
                self.task.state.instruction_pointer = ip.wrapping_add(8);
            },
        }
    }

    /// The run-time of `+loop ( n -- )`: count by `n`.
    pub fn _plus_loop(&mut self)
        requires
            old(self).wf(),
        ensures
            final(self).follows(old(self), old(self)@.run_plus_loop(old(self).depth as nat)),
        decreases old(self).depth, 3int,
    {
        let rt = self.task.r_stk.pop();
        let t = self.task.s_stk.pop();
        match rt.checked_add(t) {
            Some(sum) => {
                self.task.r_stk.push(sum);
                self.branch();
            },
            None => {
                let _ = self.task.r_stk.pop2();
                let ip = self.task.state.instruction_pointer;
                self.task.state.instruction_pointer = ip.wrapping_add(8);
            },
        }
    }

    /// `leave`: discard the loop parameters and continue where the cell
    /// behind the loop's `_do` points, behind the loop.
    pub fn leave(&mut self)
        requires
            old(self).wf(),
        ensures
            final(self).follows(old(self), old(self)@.leave(old(self).depth as nat)),
        decreases old(self).depth, 2int,
    {
        let (third, _, _) = self.task.r_stk.pop3();
        if self.task.r_stk.underflow() {
            self.abort_with(RETURN_STACK_UNDERFLOW);
        } else if third >= 0 && self.data_space.has_range(third as usize, 8) {
            self.task.state.instruction_pointer = self.data_space.get_usize(third as usize);
        } else {
            self.abort_with(INVALID_MEMORY_ADDRESS);
        }
    }

    /// `c@ ( c-addr -- char )`
    pub fn c_fetch(&mut self)
        requires
            old(self).wf(),
        ensures
            final(self).follows(old(self), old(self)@.c_fetch(old(self).depth as nat)),
        decreases old(self).depth, 2int,
    {
        let t = self.task.s_stk.pop();
        if t >= 0 && self.data_space.has(t as usize) {
            let value = self.data_space.get_u8(t as usize) as isize;
            self.task.s_stk.push(value);
        } else {
            self.abort_with(INVALID_MEMORY_ADDRESS);
        }
    }

    /// `c! ( char c-addr -- )`: store the low byte of `char`.
    pub fn c_store(&mut self)
        requires
            old(self).wf(),
        ensures
            final(self).follows(old(self), old(self)@.c_store(old(self).depth as nat)),
        decreases old(self).depth, 2int,
    {
        let (n, t) = self.task.s_stk.pop2();
        if t >= 0 && self.data_space.has(t as usize) {
            self.data_space.put_u8(n as u8, t as usize);
        } else {
            self.abort_with(INVALID_MEMORY_ADDRESS);
        }
    }

    /// `move ( addr1 addr2 u -- )`: afterwards the `u` bytes at `addr2`
    /// hold what the `u` bytes at `addr1` held before.
    pub fn p_move(&mut self)
        requires
            old(self).wf(),
        ensures
            final(self).follows(old(self), old(self)@.p_move(old(self).depth as nat)),
        decreases old(self).depth, 2int,
    {
        let (addr1, addr2, u) = self.task.s_stk.pop3();
        if u > 0 {
            if addr1 >= 0 && addr2 >= 0 && self.data_space.has_range(addr1 as usize, u as usize)
                && self.data_space.has_range(addr2 as usize, u as usize) {
                let source = slice_to_vec(
                    self.data_space.buffer_from_raw_parts(addr1 as usize, u as usize),
                );
                self.data_space.put_bytes(source.as_slice(), addr2 as usize);
            } else {
                self.abort_with(INVALID_MEMORY_ADDRESS);
            }
        }
    }

    /// `/ ( n1 n2 -- n3 )`
    pub fn slash(&mut self)
        requires
            old(self).wf(),
        ensures
            final(self).follows(old(self), old(self)@.slash(old(self).depth as nat)),
        decreases old(self).depth, 2int,
    {
        let t = self.task.s_stk.nth(0);
        let n = self.task.s_stk.nth(1);
        if t == 0 {
            self.abort_with(DIVISION_BY_ZERO);
        } else {
            let _ = self.task.s_stk.pop2();
            self.task.s_stk.push(div_rem(n, t).0);
        }
    }

    /// `mod ( n1 n2 -- n3 )`
    pub fn p_mod(&mut self)
        requires
            old(self).wf(),
        ensures
            final(self).follows(old(self), old(self)@.p_mod(old(self).depth as nat)),
        decreases old(self).depth, 2int,
    {
        let t = self.task.s_stk.nth(0);
        let n = self.task.s_stk.nth(1);
        if t == 0 {
            self.abort_with(DIVISION_BY_ZERO);
        } else {
            let _ = self.task.s_stk.pop2();
            self.task.s_stk.push(div_rem(n, t).1);
        }
    }

    /// `/mod ( n1 n2 -- n3 n4 )`: remainder, then quotient.
    pub fn slash_mod(&mut self)
        requires
            old(self).wf(),
        ensures
            final(self).follows(old(self), old(self)@.slash_mod(old(self).depth as nat)),
        decreases old(self).depth, 2int,
    {
        let t = self.task.s_stk.nth(0);
        let n = self.task.s_stk.nth(1);
        if t == 0 {
            self.abort_with(DIVISION_BY_ZERO);
        } else {
            let _ = self.task.s_stk.pop2();
            let (q, r) = div_rem(n, t);
            self.task.s_stk.push2(r, q);
        }
    }

    /// `>body ( xt -- a-addr )`
    pub fn to_body(&mut self)
        requires
            old(self).wf(),
        ensures
            final(self).follows(old(self), old(self)@.to_body(old(self).depth as nat)),
        decreases old(self).depth, 2int,
    {
        let t = to_unsigned(self.task.s_stk.pop());
        if t < self.wordlist.len() {
            let dfa = to_signed(self.wordlist.get(t).dfa());
            self.task.s_stk.push(dfa);
        } else {
            self.abort_with(INVALID_NUMERIC_ARGUMENT);
        }
    }

    /// `>name ( xt -- a-addr )`
    pub fn to_name(&mut self)
        requires
            old(self).wf(),
        ensures
            final(self).follows(old(self), old(self)@.to_name(old(self).depth as nat)),
        decreases old(self).depth, 2int,
    {
        let t = to_unsigned(self.task.s_stk.pop());
        if t < self.wordlist.len() {
            let nfa = to_signed(self.wordlist.get(t).nfa());
            self.task.s_stk.push(nfa);
        } else {
            self.abort_with(INVALID_NUMERIC_ARGUMENT);
        }
    }

    /// Raises the exception of the first stack that is out of its bounds.
    pub fn check_stacks(&mut self)
        requires
            old(self).wf(),
        ensures
            final(self).follows(old(self), old(self)@.check_stacks(old(self).depth as nat)),
        decreases old(self).depth, 2int,
    {
        if self.task.s_stk.overflow() {
            self.abort_with(STACK_OVERFLOW);
        } else if self.task.s_stk.underflow() {
            self.abort_with(STACK_UNDERFLOW);
        } else if self.task.r_stk.overflow() {
            self.abort_with(RETURN_STACK_OVERFLOW);
        } else if self.task.r_stk.underflow() {
            self.abort_with(RETURN_STACK_UNDERFLOW);
        } else if self.task.c_stk.overflow() {
            self.abort_with(CONTROL_STRUCTURE_MISMATCH);
        } else if self.task.c_stk.underflow() {
            self.abort_with(CONTROL_STRUCTURE_MISMATCH);
        } else if self.task.f_stk.overflow() {
            self.abort_with(FLOATING_POINT_STACK_OVERFLOW);
        } else if self.task.f_stk.underflow() {
            self.abort_with(FLOATING_POINT_STACK_UNDERFLOW);
        }
    }

    /// Selects the source `id`.
    pub fn set_source_id(&mut self, id: isize)
        requires
            old(self).wf(),
        ensures
            final(self).follows(old(self), old(self)@.set_source_id(id, old(self).depth as nat)),
        decreases old(self).depth, 2int,
    {
        if id > 0 {
            if (id as usize) <= self.task.sources.len() && self.task.sources[id as usize
                - 1].open {
                self.task.state.source_id = id;
            } else {
                self.abort_with(INVALID_NUMERIC_ARGUMENT);
            }
        } else if id == 0 {
            self.task.state.source_id = id;
        } else {
            self.abort_with(INVALID_NUMERIC_ARGUMENT);
        }
    }

    /// `source-id! ( n -- )`
    pub fn p_set_source_id(&mut self)
        requires
            old(self).wf(),
        ensures
            final(self).follows(old(self), old(self)@.p_set_source_id(old(self).depth as nat)),
        decreases old(self).depth, 3int,
    {
        let id = self.task.s_stk.pop();
        self.set_source_id(id);
    }

    /// The action of a colon definition: save the instruction pointer and
    /// continue at the word's data field.
    pub fn nest(&mut self)
        requires
            old(self).wf(),
        ensures
            final(self).follows(old(self), old(self)@.nest(old(self).depth as nat)),
        decreases old(self).depth, 2int,
    {
        let wp = self.task.state.word_pointer;
        if wp < self.wordlist.len() {
            let ip = to_signed(self.task.state.instruction_pointer);
            self.task.r_stk.push(ip);
            self.task.state.instruction_pointer = self.wordlist.get(wp).dfa();
        } else {
            self.abort_with(UNSUPPORTED_OPERATION);
        }
    }

    /// The action of a word made by `create`: push its data-field address.
    pub fn p_var(&mut self)
        requires
            old(self).wf(),
        ensures
            final(self).follows(old(self), old(self)@.p_var(old(self).depth as nat)),
        decreases old(self).depth, 2int,
    {
        let wp = self.task.state.word_pointer;
        if wp < self.wordlist.len() {
            let dfa = to_signed(self.wordlist.get(wp).dfa());
            self.task.s_stk.push(dfa);
        } else {
            self.abort_with(UNSUPPORTED_OPERATION);
        }
    }

    /// The action of a constant: push the cell in its data field.
    pub fn p_const(&mut self)
        requires
            old(self).wf(),
        ensures
            final(self).follows(old(self), old(self)@.p_const(old(self).depth as nat)),
        decreases old(self).depth, 2int,
    {
        let wp = self.task.state.word_pointer;
        if wp >= self.wordlist.len() {
            self.abort_with(UNSUPPORTED_OPERATION);
        } else {
            let dfa = self.wordlist.get(wp).dfa();
            if self.data_space.has_range(dfa, 8) {
                let value = self.data_space.get_isize(dfa);
                self.task.s_stk.push(value);
            } else {
                self.abort_with(INVALID_MEMORY_ADDRESS);
            }
        }
    }

    /// The action of a word completed by `does>`: push its data-field
    /// address, then enter the code behind `does>`.
    pub fn xdoes(&mut self)
        requires
            old(self).wf(),
        ensures
            final(self).follows(old(self), old(self)@.xdoes(old(self).depth as nat)),
        decreases old(self).depth, 2int,
    {
        let wp = self.task.state.word_pointer;
        if wp < self.wordlist.len() {
            let word = self.wordlist.get(wp);
            self.task.s_stk.push(to_signed(word.dfa()));
            let ip = to_signed(self.task.state.instruction_pointer);
            self.task.r_stk.push(ip);
            self.task.state.instruction_pointer = word.doer;
        } else {
            self.abort_with(UNSUPPORTED_OPERATION);
        }
    }

    /// The run-time of `does>`: the last definition from now on pushes its
    /// data-field address and enters the code that follows the next cell.
    /// The address of that code is also appended to data space.
    pub fn _does(&mut self)
        requires
            old(self).wf(),
        ensures
            final(self).follows(old(self), old(self)@.run_does(old(self).depth as nat)),
        decreases old(self).depth, 2int,
    {
        let doer = self.task.state.instruction_pointer.wrapping_add(8);
        let def = self.wordlist.last;
        if !self.room(8) {
            self.abort_with(DICTIONARY_OVERFLOW);
        } else if def < self.wordlist.len() {
            self.emit_xt(doer);
            let mut word = self.wordlist.get(def);
            word.action = Action::XDoes;
            word.doer = doer;
            self.wordlist.set(def, word);
        } else {
            self.abort_with(UNSUPPORTED_OPERATION);
        }
    }

    /// The action of a marker: cut the dictionary back to the marker and
    /// data space back to the marker's name; the bucket heads are those
    /// saved in the marker's data field.
    pub fn unmark(&mut self)
        requires
            old(self).wf(),
        ensures
            final(self).follows(old(self), old(self)@.unmark(old(self).depth as nat)),
        decreases old(self).depth, 2int,
    {
        let wp = self.task.state.word_pointer;
        if wp >= self.wordlist.len() {
            self.abort_with(UNSUPPORTED_OPERATION);
        } else {
            let w = self.wordlist.get(wp);
            let nfa = w.nfa();
            let dfa = w.dfa();
            if self.data_space.has_range(dfa, 65 * 8) {
                self.wordlist.load_buckets(&self.data_space, dfa + 8);
                self.data_space.truncate(nfa);
                self.wordlist.truncate(wp);
            } else {
                self.abort_with(INVALID_MEMORY_ADDRESS);
            }
        }
    }

    /// Appends the execution token `xt` to the current definition.
    pub fn compile_word(&mut self, xt: usize)
        requires
            old(self).wf(),
        ensures
            final(self).follows(old(self), old(self)@.compile_word(xt, old(self).depth as nat)),
        decreases old(self).depth, 2int,
    {
        if self.room(8) {
            self.emit_xt(xt);
        } else {
            self.abort_with(DICTIONARY_OVERFLOW);
        }
    }

    /// Appends code that pushes `i`.
    pub fn compile_integer(&mut self, i: isize)
        requires
            old(self).wf(),
        ensures
            final(self).follows(old(self), old(self)@.compile_integer(i, old(self).depth as nat)),
        decreases old(self).depth, 2int,
    {
        if self.room(16) {
            let idx = self.references.idx_lit;
            self.emit_xt(idx);
            self.emit(i);
        } else {
            self.abort_with(DICTIONARY_OVERFLOW);
        }
    }

    /// Appends code that pushes the float with the bits `f`.
    pub fn compile_float(&mut self, f: u64)
        requires
            old(self).wf(),
        ensures
            final(self).follows(old(self), old(self)@.compile_float(f, old(self).depth as nat)),
        decreases old(self).depth, 2int,
    {
        if self.room(24) {
            let idx = self.references.idx_flit;
            self.emit_xt(idx);
            self.data_space.align_float();
            proof {
                crate::memory::lemma_aligned_to(self@.mem.here, 8);
            }
            self.data_space.compile_bits(f);
        } else {
            self.abort_with(DICTIONARY_OVERFLOW);
        }
    }

    /// `, ( x -- )`
    pub fn comma(&mut self)
        requires
            old(self).wf(),
        ensures
            final(self).follows(old(self), old(self)@.comma(old(self).depth as nat)),
        decreases old(self).depth, 2int,
    {
        let v = self.task.s_stk.pop();
        if self.room(8) {
            self.emit(v);
        } else {
            self.abort_with(DICTIONARY_OVERFLOW);
        }
    }

    /// `compile, ( xt -- )`
    pub fn compile_comma(&mut self)
        requires
            old(self).wf(),
        ensures
            final(self).follows(old(self), old(self)@.comma(old(self).depth as nat)),
        decreases old(self).depth, 3int,
    {
        self.comma();
    }

    /// Where the `leave`s of the innermost `do` loop are chained, if there
    /// is a loop under construction.
    pub fn leave_part(&self) -> (r: Option<usize>)
        ensures
            r == last_do(self@.c().cells, self@.c().len as int),
    {
        let mut n: usize = self.task.c_stk.len() as usize;
        while n > 0
            invariant
                n <= 255,
                last_do(self@.c().cells, self@.c().len as int) == last_do(self@.c().cells, n as int),
            decreases n,
        {
            match self.task.c_stk.inner[n - 1] {
                Control::Do(_, leave_part) => {
                    return Some(leave_part);
                },
                _ => {},
            }
            n -= 1;
        }
        None
    }

    /// Append a reference to `leave`, which is only possible inside a `do`
    /// loop.
    pub fn compile_leave(&mut self, xt: usize)
        requires
            old(self).wf(),
        ensures
            final(self).follows(old(self), old(self)@.compile_leave(xt, old(self).depth as nat)),
        decreases old(self).depth, 3int,
    {
        match self.leave_part() {
            Some(_) => {
                self.compile_word(xt);
            },
            None => {
                self.abort_with(CONTROL_STRUCTURE_MISMATCH);
            },
        }
    }

    /// Carries out the compilation semantics `sem` for the word `xt`.
    pub fn run_semantics(&mut self, sem: Semantics, xt: usize)
        requires
            old(self).wf(),
        ensures
            final(self).follows(
                old(self),
                old(self)@.run_semantics(sem, xt, old(self).depth as nat),
            ),
        decreases old(self).depth, 4int,
    {
        match sem {
            Semantics::Leave => self.compile_leave(xt),
            _ => self.compile_word(xt),
        }
    }

    /// The run-time of `postpone ( xt -- )`: carry out the compilation
    /// semantics of `xt`.
    pub fn _postpone(&mut self)
        requires
            old(self).wf(),
        ensures
            final(self).follows(old(self), old(self)@.run_postpone(old(self).depth as nat)),
        decreases old(self).depth, 5int,
    {
        let xt = to_unsigned(self.task.s_stk.pop());
        if xt < self.wordlist.len() {
            let sem = self.wordlist.get(xt).compilation_semantics;
            self.run_semantics(sem, xt);
        } else {
            self.abort_with(INVALID_NUMERIC_ARGUMENT);
        }
    }
}


impl VmView {
    /// Append the cell `v`.
    pub open spec fn compile_cell(self, v: isize, d: nat) -> Self
        decreases d, 2int,
    {
        if self.mem.room(8) {
            self.emit(v)
        } else {
            self.abort_with(DICTIONARY_OVERFLOW, d)
        }
    }

    /// The machine with the unsigned words of `vs` appended to data space.
    pub open spec fn emit_all(self, vs: Seq<usize>) -> Self {
        self.with_mem(self.mem.compile_words(vs))
    }

    /// The machine with the last definition hidden or shown.
    pub open spec fn with_hidden(self, flag: bool) -> Self {
        let def = self.words.last as int;
        if self.has_word(def) {
            self.with_word(def, Word { hidden: flag, ..self.words.words[def] })
        } else {
            self
        }
    }

    /// `char ( "name" -- char )`: push the first byte of the next token.
    pub open spec fn char(self, d: nat) -> Self
        decreases d, 2int,
    {
        let a = self.parse_word();
        if a.token.len() > 0 {
            a.push(a.token[0] as isize)
        } else {
            a.abort_with(UNEXPECTED_END_OF_FILE, d)
        }
    }

    /// `[char]`: compile the first byte of the next token as a literal.
    pub open spec fn bracket_char(self, d: nat) -> Self
        decreases d, 3int,
    {
        let a = self.char(d);
        if a.last_error.is_some() {
            a
        } else {
            a.drop_n(1).compile_integer(a.s().top(), d)
        }
    }

    /// `' ( "name" -- xt )`
    pub open spec fn tick(self, d: nat) -> Self
        decreases d, 2int,
    {
        let a = self.parse_word();
        if a.token.len() == 0 {
            a.abort_with(UNEXPECTED_END_OF_FILE, d)
        } else {
            match a.find(a.token) {
                Some(xt) => a.push(xt as isize),
                None => a.abort_with(UNDEFINED_WORD, d),
            }
        }
    }

    /// `[']`: compile the execution token of the next word as a literal.
    pub open spec fn bracket_tick(self, d: nat) -> Self
        decreases d, 3int,
    {
        let a = self.parse_word();
        if a.token.len() == 0 {
            a.abort_with(UNEXPECTED_END_OF_FILE, d)
        } else {
            match a.find(a.token) {
                Some(xt) => a.compile_integer(xt as isize, d),
                None => a.abort_with(UNDEFINED_WORD, d),
            }
        }
    }

    /// `postpone`: compile code that carries out the compilation semantics
    /// of the next word: its execution token as a literal, then
    /// `_postpone`.
    pub open spec fn postpone(self, d: nat) -> Self
        decreases d, 3int,
    {
        let a = self.parse_word();
        if a.token.len() == 0 {
            a.abort_with(UNEXPECTED_END_OF_FILE, d)
        } else {
            match a.find(a.token) {
                Some(xt) => a.compile_integer(xt as isize, d).compile_word(
                    self.refs.idx__postpone,
                    d,
                ),
                None => a.abort_with(UNDEFINED_WORD, d),
            }
        }
    }

    /// Parse a name, in lower case from then on, and append a word of
    /// that name with the given behaviour. A word that the name already
    /// finds is announced as redefined and stays in the dictionary. Without
    /// a name the end of the input was reached unexpectedly.
    pub open spec fn define(self, action: Action, sem: Semantics, d: nat) -> Self
        decreases d, 2int,
    {
        let a = self.parse_word();
        let name = lowered(a.token);
        let b = a.with_token(name);
        let c = if b.find(name).is_some() {
            b.print(redefining_notice()).print(name)
        } else {
            b
        };
        if name.len() == 0 {
            c.abort_with(UNEXPECTED_END_OF_FILE, d)
        } else if !c.room_for_name(name) {
            c.abort_with(DICTIONARY_OVERFLOW, d)
        } else {
            c.with_header(name, action, sem)
        }
    }

    /// `: ( "name" -- )`: start a colon definition. The new word stays
    /// hidden until `;`.
    pub open spec fn colon(self, d: nat) -> Self
        decreases d, 3int,
    {
        let a = self.define(Action::Nest, Semantics::Nest, d);
        if a.last_error.is_none() {
            a.with_hidden(true).right_bracket()
        } else {
            a
        }
    }

    /// `;`: end a colon definition. With a control structure still open
    /// or a label still unresolved, a control structure mismatch is raised;
    /// otherwise `exit` is compiled and the definition is shown. Either
    /// way the machine interprets afterwards.
    pub open spec fn semicolon(self, d: nat) -> Self
        decreases d, 5int,
    {
        let a = if self.c().len != 0 {
            self.abort_with(CONTROL_STRUCTURE_MISMATCH, d)
        } else if !(self.forward =~= Set::<u32>::empty()) {
            self.abort_with(CONTROL_STRUCTURE_MISMATCH, d)
        } else {
            let idx = self.refs.idx_exit;
            let b = if self.has_word(idx as int) {
                self.run_semantics(self.words.words[idx as int].compilation_semantics, idx, d)
            } else {
                self.abort_with(UNSUPPORTED_OPERATION, d)
            };
            b.with_hidden(false)
        };
        a.left_bracket()
    }

    /// `create ( "name" -- )`
    pub open spec fn create(self, d: nat) -> Self
        decreases d, 3int,
    {
        self.define(Action::Var, Semantics::Var, d)
    }

    /// `constant ( x "name" -- )`
    pub open spec fn constant(self, d: nat) -> Self
        decreases d, 3int,
    {
        let a = self.drop_n(1).define(Action::Const, Semantics::Const, d);
        if a.last_error.is_none() {
            a.compile_cell(self.s().top(), d)
        } else {
            a
        }
    }

    /// `marker ( "name" -- )`: define a word that rolls the dictionary
    /// back to this point. Its data field holds the last definition and the
    /// 64 bucket heads of this moment.
    pub open spec fn marker(self, d: nat) -> Self
        decreases d, 3int,
    {
        let x = self.words.last;
        let saved = self.words.buckets;
        let a = self.with_words(
            crate::dictionary::WordlistView { temp_buckets: saved, ..self.words },
        ).define(Action::Unmark, Semantics::Unmark, d);
        if a.mem.room(520) {
            a.emit_xt(x).emit_all(saved)
        } else {
            a.abort_with(DICTIONARY_OVERFLOW, d)
        }
    }

    /// `does>`: compile `_does` and `exit`.
    pub open spec fn does(self, d: nat) -> Self
        decreases d, 3int,
    {
        self.push(signed_of(self.refs.idx__does)).comma(d).push(signed_of(self.refs.idx_exit)).comma(
            d,
        )
    }

    /// `!token ( c-addr -- )`: store the last token at `c-addr` as a
    /// counted string and empty the token.
    pub open spec fn store_token(self, d: nat) -> Self
        decreases d, 2int,
    {
        let c_addr = self.s().top();
        let vm = self.drop_n(1);
        let n = if self.token.len() < 255 {
            self.token.len() as int
        } else {
            255
        };
        if vm.mem.has_range(c_addr as int, 1 + n) {
            vm.with_mem(vm.mem.put_cstr(c_addr as int, self.token)).with_token(Seq::empty())
        } else {
            vm.abort_with(INVALID_MEMORY_ADDRESS, d)
        }
    }

    /// The machine after the last token was tried as an integer in the
    /// current base: its value is pushed, or compiled as a literal when
    /// compiling. A token that is no integer records an unsupported
    /// operation.
    pub open spec fn evaluate_integer(self, d: nat) -> Self
        decreases d, 3int,
    {
        match integer_of(self.token, self.mem.base()) {
            Some(v) => if self.st().is_compiling {
                self.compile_integer(v, d)
            } else {
                self.push(v)
            },
            None => self.with_error(Some(UNSUPPORTED_OPERATION)),
        }
    }

    /// The machine after the last token, which names no word, was taken
    /// as a number: first as an integer, then as a float. A token that is
    /// neither raises an undefined word.
    pub open spec fn number(self, d: nat) -> Self
        decreases d, 4int,
    {
        let a = self.with_error(None).evaluate_integer(d);
        if a.last_error.is_none() {
            a
        } else {
            let b = a.with_error(None).evaluate_float();
            if b.last_error.is_none() {
                b
            } else {
                b.abort_with(UNDEFINED_WORD, d)
            }
        }
    }

    /// `compile-token`: compile the last token. An immediate word is
    /// executed; any other word has its compilation semantics carried out;
    /// a number is compiled as a literal.
    pub open spec fn compile_token(self, d: nat) -> Self
        decreases d, 5int,
    {
        match self.find(self.token) {
            Some(i) => if !self.words.words[i as int].is_immediate {
                self.run_semantics(self.words.words[i as int].compilation_semantics, i, d)
            } else {
                self.execute_word(i, d)
            },
            None => self.number(d),
        }
    }

    /// `interpret-token`: interpret the last token. A compile-only word
    /// raises the exception for interpreting one; any other word is
    /// executed; a number is pushed.
    pub open spec fn interpret_token(self, d: nat) -> Self
        decreases d, 5int,
    {
        match self.find(self.token) {
            Some(i) => if self.words.words[i as int].is_compile_only {
                self.abort_with(INTERPRETING_A_COMPILE_ONLY_WORD, d)
            } else {
                self.execute_word(i, d)
            },
            None => self.number(d),
        }
    }
}

impl VM {
    /// Appends the cell `v`.
    pub fn compile_cell(&mut self, v: isize)
        requires
            old(self).wf(),
        ensures
            final(self).follows(old(self), old(self)@.compile_cell(v, old(self).depth as nat)),
        decreases old(self).depth, 2int,
    {
        if self.room(8) {
            self.emit(v);
        } else {
            self.abort_with(DICTIONARY_OVERFLOW);
        }
    }

    /// Shows or hides the last definition.
    pub fn set_hidden(&mut self, flag: bool)
        requires
            old(self).wf(),
        ensures
            final(self).follows(old(self), old(self)@.with_hidden(flag)),
    {
        let def = self.wordlist.last;
        if def < self.wordlist.len() {
            let mut w = self.wordlist.get(def);
            w.set_hidden(flag);
            self.wordlist.set(def, w);
        }
    }

    /// `char ( "name" -- char )`: push the first byte of the next token.
    pub fn char(&mut self)
        requires
            old(self).wf(),
        ensures
            final(self).follows(old(self), old(self)@.char(old(self).depth as nat)),
        decreases old(self).depth, 2int,
    {
        self.parse_word();
        if self.tkn.len() > 0 {
            let c = self.tkn[0];
            self.task.s_stk.push(c as isize);
        } else {
            self.abort_with(UNEXPECTED_END_OF_FILE);
        }
    }

    /// `[char]`: compile the first byte of the next token as a literal.
    pub fn bracket_char(&mut self)
        requires
            old(self).wf(),
        ensures
            final(self).follows(old(self), old(self)@.bracket_char(old(self).depth as nat)),
        decreases old(self).depth, 3int,
    {
        self.char();
        if self.last_error.is_some() {
            return ;
        }
        let ch = self.task.s_stk.pop();
        self.compile_integer(ch);
    }

    /// `' ( "name" -- xt )`
    pub fn tick(&mut self)
        requires
            old(self).wf(),
        ensures
            final(self).follows(old(self), old(self)@.tick(old(self).depth as nat)),
        decreases old(self).depth, 2int,
    {
        self.parse_word();
        if self.tkn.len() == 0 {
            self.abort_with(UNEXPECTED_END_OF_FILE);
        } else {
            match self.find_token() {
                Some(found_index) => {
                    self.task.s_stk.push(found_index as isize);
                },
                None => {
                    self.abort_with(UNDEFINED_WORD);
                },
            }
        }
    }

    /// `[']`: compile the execution token of the next word as a literal.
    pub fn bracket_tick(&mut self)
        requires
            old(self).wf(),
        ensures
            final(self).follows(old(self), old(self)@.bracket_tick(old(self).depth as nat)),
        decreases old(self).depth, 3int,
    {
        self.parse_word();
        if self.tkn.len() == 0 {
            self.abort_with(UNEXPECTED_END_OF_FILE);
        } else {
            match self.find_token() {
                Some(found_index) => {
                    self.compile_integer(found_index as isize);
                },
                None => {
                    self.abort_with(UNDEFINED_WORD);
                },
            }
        }
    }

    /// `postpone`: compile code that carries out the compilation semantics
    /// of the next word: its execution token as a literal, then
    /// `_postpone`.
    pub fn postpone(&mut self)
        requires
            old(self).wf(),
        ensures
            final(self).follows(old(self), old(self)@.postpone(old(self).depth as nat)),
        decreases old(self).depth, 3int,
    {
        let idx = self.references.idx__postpone;
        self.parse_word();
        if self.tkn.len() == 0 {
            self.abort_with(UNEXPECTED_END_OF_FILE);
        } else {
            match self.find_token() {
                Some(xt) => {
                    self.compile_integer(xt as isize);
                    self.compile_word(idx);
                },
                None => {
                    self.abort_with(UNDEFINED_WORD);
                },
            }
        }
    }

    /// Parses a name and appends a word of that name with the given
    /// behaviour.
    pub fn define(&mut self, action: Action, compilation_semantics: Semantics)
        requires
            old(self).wf(),
        ensures
            final(self).follows(
                old(self),
                old(self)@.define(action, compilation_semantics, old(self).depth as nat),
            ),
        decreases old(self).depth, 2int,
    {
        self.parse_word();
        make_lower(&mut self.tkn);
        let name = slice_to_vec(self.tkn.as_slice());
        if self.find_token().is_some() {
            self.print("Redefining ".as_bytes());
            self.print(name.as_slice());
        }
        if name.len() == 0 {
            self.abort_with(UNEXPECTED_END_OF_FILE);
        } else if !self.room_for_name(name.as_slice()) {
            self.abort_with(DICTIONARY_OVERFLOW);
        } else {
            self.add_header(name.as_slice(), action, compilation_semantics);
        }
    }

    /// `: ( "name" -- )`: start a colon definition. The new word stays
    /// hidden until `;`.
    pub fn colon(&mut self)
        requires
            old(self).wf(),
        ensures
            final(self).follows(old(self), old(self)@.colon(old(self).depth as nat)),
        decreases old(self).depth, 3int,
    {
        self.define(Action::Nest, Semantics::Nest);
        if self.last_error.is_none() {
            self.set_hidden(true);
            self.right_bracket();
        }
    }

    /// `;`: end a colon definition. With a control structure still open
    /// or a label still unresolved, a control structure mismatch is raised;
    /// otherwise `exit` is compiled and the definition is shown. Either
    /// way the machine interprets afterwards.
    pub fn semicolon(&mut self)
        requires
            old(self).wf(),
        ensures
            final(self).follows(old(self), old(self)@.semicolon(old(self).depth as nat)),
        decreases old(self).depth, 5int,
    {
        if self.task.c_stk.len() != 0 {
            self.abort_with(CONTROL_STRUCTURE_MISMATCH);
        } else if !bitset_is_empty(&self.forward_bitset) {
            self.abort_with(CONTROL_STRUCTURE_MISMATCH);
        } else {
            let idx = self.references.idx_exit;
            if idx < self.wordlist.len() {
                let compile = self.wordlist.get(idx).compilation_semantics;
                self.run_semantics(compile, idx);
            } else {
                self.abort_with(UNSUPPORTED_OPERATION);
            }
            self.set_hidden(false);
        }
        self.left_bracket();
    }

    /// `create ( "name" -- )`
    pub fn create(&mut self)
        requires
            old(self).wf(),
        ensures
            final(self).follows(old(self), old(self)@.create(old(self).depth as nat)),
        decreases old(self).depth, 3int,
    {
        self.define(Action::Var, Semantics::Var);
    }

    /// `constant ( x "name" -- )`
    pub fn constant(&mut self)
        requires
            old(self).wf(),
        ensures
            final(self).follows(old(self), old(self)@.constant(old(self).depth as nat)),
        decreases old(self).depth, 3int,
    {
        let v = self.task.s_stk.pop();
        self.define(Action::Const, Semantics::Const);
        if self.last_error.is_none() {
            self.compile_cell(v);
        }
    }

    /// `marker ( "name" -- )`: define a word that rolls the dictionary
    /// back to this point. Its data field holds the last definition and the
    /// 64 bucket heads of this moment.
    pub fn marker(&mut self)
        requires
            old(self).wf(),
        ensures
            final(self).follows(old(self), old(self)@.marker(old(self).depth as nat)),
        decreases old(self).depth, 3int,
    {
        let x = self.wordlist.last;
        self.wordlist.temp_buckets = self.wordlist.buckets;
        let saved = self.wordlist.buckets;
        self.define(Action::Unmark, Semantics::Unmark);
        if self.room(520) {
            self.emit_xt(x);
            self.data_space.compile_usizes(saved.as_slice());
        } else {
            self.abort_with(DICTIONARY_OVERFLOW);
        }
    }

    /// `does>`: compile `_does` and `exit`.
    pub fn does(&mut self)
        requires
            old(self).wf(),
        ensures
            final(self).follows(old(self), old(self)@.does(old(self).depth as nat)),
        decreases old(self).depth, 3int,
    {
        let idx_does = self.references.idx__does;
        let idx_exit = self.references.idx_exit;
        self.task.s_stk.push(to_signed(idx_does));
        self.comma();
        self.task.s_stk.push(to_signed(idx_exit));
        self.comma();
    }

    /// `!token ( c-addr -- )`: store the last token at `c-addr` as a
    /// counted string and empty the token.
    pub fn store_token(&mut self)
        requires
            old(self).wf(),
        ensures
            final(self).follows(old(self), old(self)@.store_token(old(self).depth as nat)),
        decreases old(self).depth, 2int,
    {
        let c_addr = self.task.s_stk.pop();
        let n: usize = if self.tkn.len() < 255 {
            self.tkn.len()
        } else {
            255
        };
        if c_addr >= 0 && self.data_space.has_range(c_addr as usize, 1 + n) {
            self.data_space.put_cstr(self.tkn.as_slice(), c_addr as usize);
            self.tkn = Vec::new();
        } else {
            self.abort_with(INVALID_MEMORY_ADDRESS);
        }
    }

    /// Tries the last token as an integer in the current base.
    pub fn evaluate_integer(&mut self)
        requires
            old(self).wf(),
        ensures
            final(self).follows(old(self), old(self)@.evaluate_integer(old(self).depth as nat)),
        decreases old(self).depth, 3int,
    {
        let base = self.data_space.system_variables().base;
        match parse_integer(self.tkn.as_slice(), base) {
            Some(v) => {
                if self.task.state.is_compiling {
                    self.compile_integer(v);
                } else {
                    self.task.s_stk.push(v);
                }
            },
            None => {
                self.last_error = Some(UNSUPPORTED_OPERATION);
            },
        }
    }

    /// Takes the last token as a number.
    pub fn number(&mut self)
        requires
            old(self).wf(),
        ensures
            final(self).follows(old(self), old(self)@.number(old(self).depth as nat)),
        decreases old(self).depth, 4int,
    {
        self.last_error = None;
        self.evaluate_integer();
        if self.last_error.is_some() {
            self.last_error = None;
            self.evaluate_float();
            if self.last_error.is_some() {
                self.abort_with(UNDEFINED_WORD);
            }
        }
    }

    /// Compiles the last token.
    pub fn compile_token(&mut self)
        requires
            old(self).wf(),
        ensures
            final(self).follows(old(self), old(self)@.compile_token(old(self).depth as nat)),
        decreases old(self).depth, 5int,
    {
        match self.find_token() {
            Some(found_index) => {
                let word = self.wordlist.get(found_index);
                if !word.is_immediate() {
                    self.run_semantics(word.compilation_semantics, found_index);
                } else {
                    self.execute_word(found_index);
                }
            },
            None => {
                self.number();
            },
        }
    }

    /// Interprets the last token.
    pub fn interpret_token(&mut self)
        requires
            old(self).wf(),
        ensures
            final(self).follows(old(self), old(self)@.interpret_token(old(self).depth as nat)),
        decreases old(self).depth, 5int,
    {
        match self.find_token() {
            Some(found_index) => {
                if self.wordlist.get(found_index).is_compile_only() {
                    self.abort_with(INTERPRETING_A_COMPILE_ONLY_WORD);
                } else {
                    self.execute_word(found_index);
                }
            },
            None => {
                self.number();
            },
        }
    }
}


/// Data space after every cell on the chain of forward references that
/// starts at `p` was set to `target`. Each cell on the chain holds the
/// address of the next one; zero ends the chain, and so does an address
/// that does not lie below on in the arena.
pub open spec fn patch_chain(mem: crate::memory::DataSpaceView, p: usize, target: usize)
    -> crate::memory::DataSpaceView
    decreases p,
{
    if !mem.has_cell(p as int) {
        mem
    } else {
        let last = mem.ucell(p as int);
        let patched = mem.put_cell(p as int, signed_of(target));
        if last == 0 || last >= p {
            patched
        } else {
            patch_chain(patched, last, target)
        }
    }
}

impl VmView {
    /// The machine with the marker `m` pushed on the control stack.
    pub open spec fn cpush(self, m: Control) -> Self {
        self.with_c(self.c().push(m))
    }

    /// The machine with the top marker dropped from the control stack.
    pub open spec fn cpop(self) -> Self {
        self.with_c(self.c().pop())
    }

    /// Resolve the forward branch whose operand lies in the cell before
    /// `a`: it leads to `here` from now on.
    pub open spec fn resolve(self, a: usize, d: nat) -> Self
        decreases d, 2int,
    {
        if self.mem.has_cell(a - 8) {
            self.patch(a - 8, self.mem.here)
        } else {
            self.abort_with(INVALID_MEMORY_ADDRESS, d)
        }
    }

    /// `if`: compile a conditional branch with an open target and mark it.
    pub open spec fn imm_if(self, d: nat) -> Self
        decreases d, 2int,
    {
        if self.mem.room(16) {
            let vm = self.emit_xt(self.refs.idx_zero_branch).emit(0);
            vm.cpush(Control::If(vm.mem.here))
        } else {
            self.abort_with(DICTIONARY_OVERFLOW, d)
        }
    }

    /// `else`: compile a branch with an open target over the second part,
    /// mark it, and let the branch of `if` lead behind it.
    pub open spec fn imm_else(self, d: nat) -> Self
        decreases d, 3int,
    {
        let vm = self.cpop();
        match self.c().top() {
            Control::If(if_part) => if vm.c().underflow() {
                vm.abort_with(CONTROL_STRUCTURE_MISMATCH, d)
            } else if !vm.mem.room(16) {
                vm.abort_with(DICTIONARY_OVERFLOW, d)
            } else {
                let a = vm.emit_xt(self.refs.idx_branch).emit(0);
                a.cpush(Control::Else(a.mem.here)).resolve(if_part, d)
            },
            _ => vm.abort_with(CONTROL_STRUCTURE_MISMATCH, d),
        }
    }

    /// `then`: let the open branch of `if` or `else` lead here.
    pub open spec fn imm_then(self, d: nat) -> Self
        decreases d, 3int,
    {
        let vm = self.cpop();
        match self.c().top() {
            Control::If(branch_part) => if vm.c().underflow() {
                vm.abort_with(CONTROL_STRUCTURE_MISMATCH, d)
            } else {
                vm.resolve(branch_part, d)
            },
            Control::Else(branch_part) => if vm.c().underflow() {
                vm.abort_with(CONTROL_STRUCTURE_MISMATCH, d)
            } else {
                vm.resolve(branch_part, d)
            },
            _ => vm.abort_with(CONTROL_STRUCTURE_MISMATCH, d),
        }
    }

    /// `of`: inside a case structure, compile the comparison with the
    /// selector, `over = 0branch` with an open target and `drop`, and mark
    /// the branch.
    pub open spec fn imm_of(self, d: nat) -> Self
        decreases d, 2int,
    {
        let inside = match self.c().top() {
            Control::Case => true,
            Control::Endof(_) => true,
            _ => false,
        };
        if !inside {
            self.cpop().abort_with(CONTROL_STRUCTURE_MISMATCH, d)
        } else if self.c().underflow() {
            self.abort_with(CONTROL_STRUCTURE_MISMATCH, d)
        } else if !self.mem.room(40) {
            self.abort_with(DICTIONARY_OVERFLOW, d)
        } else {
            let a = self.emit_xt(self.refs.idx_over).emit_xt(self.refs.idx_equal).emit_xt(
                self.refs.idx_zero_branch,
            ).emit(0);
            a.cpush(Control::Of(a.mem.here)).emit_xt(self.refs.idx_drop)
        }
    }

    /// `endof`: compile a branch with an open target to the end of the
    /// case structure, mark it, and let the branch of `of` lead behind it.
    pub open spec fn imm_endof(self, d: nat) -> Self
        decreases d, 3int,
    {
        let vm = self.cpop();
        match self.c().top() {
            Control::Of(of_part) => if vm.c().underflow() {
                vm.abort_with(CONTROL_STRUCTURE_MISMATCH, d)
            } else if !vm.mem.room(16) {
                vm.abort_with(DICTIONARY_OVERFLOW, d)
            } else {
                let a = vm.emit_xt(self.refs.idx_branch).emit(0);
                a.cpush(Control::Endof(a.mem.here)).resolve(of_part, d)
            },
            _ => vm.abort_with(CONTROL_STRUCTURE_MISMATCH, d),
        }
    }

    /// The closing of a case structure: pop markers down to `case` and let
    /// the branch of every `endof` on the way lead here. At most `n`
    /// markers are looked at.
    pub open spec fn close_case(self, d: nat, n: nat) -> Self
        decreases d, 4int, n,
    {
        let vm = self.cpop();
        if n == 0 {
            self.abort_with(CONTROL_STRUCTURE_MISMATCH, d)
        } else {
            match self.c().top() {
                Control::Case => if vm.c().underflow() {
                    vm.abort_with(CONTROL_STRUCTURE_MISMATCH, d)
                } else {
                    vm
                },
                Control::Endof(endof_part) => (if vm.c().underflow() {
                    vm.abort_with(CONTROL_STRUCTURE_MISMATCH, d)
                } else {
                    vm.resolve(endof_part, d)
                }).close_case(d, (n - 1) as nat),
                _ => vm.abort_with(CONTROL_STRUCTURE_MISMATCH, d),
            }
        }
    }

    /// `endcase`: compile `drop` and close the case structure.
    pub open spec fn imm_endcase(self, d: nat) -> Self
        decreases d, 5int,
    {
        if self.mem.room(8) {
            self.emit_xt(self.refs.idx_drop).close_case(d, 256)
        } else {
            self.abort_with(DICTIONARY_OVERFLOW, d)
        }
    }

    /// `while`: compile a conditional branch with an open target out of
    /// the loop and mark it.
    pub open spec fn imm_while(self, d: nat) -> Self
        decreases d, 2int,
    {
        if self.mem.room(16) {
            let vm = self.emit_xt(self.refs.idx_zero_branch).emit(0);
            vm.cpush(Control::While(vm.mem.here))
        } else {
            self.abort_with(DICTIONARY_OVERFLOW, d)
        }
    }

    /// `repeat`: compile a branch back to `begin` and let the branch of
    /// `while` lead behind it.
    pub open spec fn imm_repeat(self, d: nat) -> Self
        decreases d, 3int,
    {
        let vm = self.with_c(self.c().drop_n(2));
        match (self.c().nth(1), self.c().nth(0)) {
            (Control::Begin(begin_part), Control::While(while_part)) => if vm.c().underflow() {
                vm.abort_with(CONTROL_STRUCTURE_MISMATCH, d)
            } else if !vm.mem.room(16) {
                vm.abort_with(DICTIONARY_OVERFLOW, d)
            } else {
                vm.emit_xt(self.refs.idx_branch).emit_xt(begin_part).resolve(while_part, d)
            },
            _ => vm.abort_with(CONTROL_STRUCTURE_MISMATCH, d),
        }
    }

    /// The closing of a `begin` loop with a branch back: pop the marker of
    /// `begin` and compile the word `xt` with the loop's start as operand.
    pub open spec fn loop_back(self, xt: usize, d: nat) -> Self
        decreases d, 2int,
    {
        let vm = self.cpop();
        match self.c().top() {
            Control::Begin(begin_part) => if vm.c().underflow() {
                vm.abort_with(CONTROL_STRUCTURE_MISMATCH, d)
            } else if !vm.mem.room(16) {
                vm.abort_with(DICTIONARY_OVERFLOW, d)
            } else {
                vm.emit_xt(xt).emit_xt(begin_part)
            },
            _ => vm.abort_with(CONTROL_STRUCTURE_MISMATCH, d),
        }
    }

    /// `until`: compile a conditional branch back to `begin`.
    pub open spec fn imm_until(self, d: nat) -> Self
        decreases d, 3int,
    {
        self.loop_back(self.refs.idx_zero_branch, d)
    }

    /// `again`: compile a branch back to `begin`.
    pub open spec fn imm_again(self, d: nat) -> Self
        decreases d, 3int,
    {
        self.loop_back(self.refs.idx_branch, d)
    }

    /// The opening of a counted loop: compile the word `xt` and a cell for
    /// the address behind the loop, and mark the loop.
    pub open spec fn open_loop(self, xt: usize, d: nat) -> Self
        decreases d, 2int,
    {
        if self.mem.room(16) {
            let vm = self.emit_xt(xt).emit(0);
            vm.cpush(Control::Do(vm.mem.here, vm.mem.here))
        } else {
            self.abort_with(DICTIONARY_OVERFLOW, d)
        }
    }

    /// `do`
    pub open spec fn imm_do(self, d: nat) -> Self
        decreases d, 3int,
    {
        self.open_loop(self.refs.idx_do, d)
    }

    /// `?do`
    pub open spec fn imm_qdo(self, d: nat) -> Self
        decreases d, 3int,
    {
        self.open_loop(self.refs.idx_qdo, d)
    }

    /// The closing of a counted loop: pop the marker of `do`, compile the
    /// word `xt` with the loop's start as operand, and let the cell behind
    /// `_do`, which `leave` follows, lead behind the loop.
    pub open spec fn close_loop(self, xt: usize, d: nat) -> Self
        decreases d, 3int,
    {
        let vm = self.cpop();
        match self.c().top() {
            Control::Do(do_part, _) => if vm.c().underflow() {
                vm.abort_with(CONTROL_STRUCTURE_MISMATCH, d)
            } else if !vm.mem.room(16) {
                vm.abort_with(DICTIONARY_OVERFLOW, d)
            } else {
                vm.emit_xt(xt).emit_xt(do_part).resolve(do_part, d)
            },
            _ => vm.abort_with(CONTROL_STRUCTURE_MISMATCH, d),
        }
    }

    /// `loop`
    pub open spec fn imm_loop(self, d: nat) -> Self
        decreases d, 4int,
    {
        self.close_loop(self.refs.idx_loop, d)
    }

    /// `+loop`
    pub open spec fn imm_plus_loop(self, d: nat) -> Self
        decreases d, 4int,
    {
        self.close_loop(self.refs.idx_plus_loop, d)
    }

    /// `recurse`: compile a reference to the definition under way, the
    /// last word of the dictionary.
    pub open spec fn imm_recurse(self, d: nat) -> Self
        decreases d, 3int,
    {
        if self.words.words.len() == 0 {
            self.abort_with(UNSUPPORTED_OPERATION, d)
        } else {
            self.compile_word((self.words.words.len() - 1) as usize, d)
        }
    }

    /// `label ( n -- )`: define the label `n` at `here`. References that
    /// were compiled before lead here from now on. A number that is no
    /// label, or a label that is defined already, is refused.
    pub open spec fn imm_label(self, d: nat) -> Self
        decreases d, 2int,
    {
        let n = self.s().top();
        let vm = self.drop_n(1);
        let here = self.mem.here;
        if !is_label(n) {
            vm.abort_with(INVALID_NUMERIC_ARGUMENT, d)
        } else if self.forward.contains(n as u32) {
            VmView {
                mem: patch_chain(self.mem, self.labels[n as int], here),
                labels: self.labels.update(n as int, here),
                forward: self.forward.remove(n as u32),
                resolved: self.resolved.insert(n as u32),
                ..vm
            }
        } else if self.resolved.contains(n as u32) {
            vm.abort_with(INVALID_NUMERIC_ARGUMENT, d)
        } else {
            VmView {
                labels: self.labels.update(n as int, here),
                resolved: self.resolved.insert(n as u32),
                ..vm
            }
        }
    }

    /// `goto ( n -- )`: compile a branch to the label `n`. Where the label
    /// is not defined yet, the operand joins the chain of references that
    /// wait for it, and the label counts as referenced forward.
    pub open spec fn imm_goto(self, d: nat) -> Self
        decreases d, 2int,
    {
        let n = self.s().top();
        let vm = self.drop_n(1);
        if !is_label(n) {
            vm.abort_with(INVALID_NUMERIC_ARGUMENT, d)
        } else if !self.mem.room(16) {
            vm.abort_with(DICTIONARY_OVERFLOW, d)
        } else if self.forward.contains(n as u32) {
            let a = vm.emit_xt(self.refs.idx_branch).emit_xt(self.labels[n as int]);
            VmView { labels: self.labels.update(n as int, (a.mem.here - 8) as usize), ..a }
        } else if self.resolved.contains(n as u32) {
            vm.emit_xt(self.refs.idx_branch).emit_xt(self.labels[n as int])
        } else {
            let a = vm.emit_xt(self.refs.idx_branch).emit(0);
            VmView {
                labels: self.labels.update(n as int, (a.mem.here - 8) as usize),
                forward: self.forward.insert(n as u32),
                ..a
            }
        }
    }

    /// `call ( n -- )`: compile a call of the code at label `n`: push the
    /// address behind the call onto the return stack, then branch as `goto`
    /// does.
    pub open spec fn imm_call(self, d: nat) -> Self
        decreases d, 3int,
    {
        if self.mem.room(40) {
            self.emit_xt(self.refs.idx_lit).emit((self.mem.here + 40) as isize).emit_xt(
                self.refs.idx_to_r,
            ).imm_goto(d)
        } else {
            self.abort_with(DICTIONARY_OVERFLOW, d)
        }
    }

    /// The machine with task `i` awake or asleep.
    pub open spec fn set_awake(self, i: int, v: bool) -> Self {
        if i == self.current_task {
            VmView { task: TaskView { awake: v, ..self.task }, ..self }
        } else if 0 <= i < self.parked.len() {
            VmView {
                parked: self.parked.update(i, TaskView { awake: v, ..self.parked[i] }),
                ..self
            }
        } else {
            self
        }
    }

    /// The machine with task `j` running: the task that ran is parked in
    /// its slot, and what that slot held goes to the slot of `j`.
    pub open spec fn switch_to(self, j: int) -> Self {
        if j == self.current_task || !(0 <= j < self.parked.len()) {
            self
        } else {
            VmView {
                current_task: j as usize,
                task: self.parked[j],
                parked: self.parked.update(self.current_task as int, self.task).update(
                    j,
                    self.parked[self.current_task as int],
                ),
                ..self
            }
        }
    }

    /// The first task that is awake among the `5 - k + 1` tasks that
    /// follow the running one cyclically from distance `k` on, the running
    /// task last.
    pub open spec fn next_awake(self, k: int) -> Option<usize>
        decreases 6 - k,
    {
        if k > 5 || k < 1 {
            None
        } else if self.task_at((self.current_task + k) % 5).awake {
            Some(((self.current_task + k) % 5) as usize)
        } else {
            self.next_awake(k + 1)
        }
    }

    /// `pause`: hand control to the next task that is awake, in
    /// round-robin order. With no task awake the running task goes on.
    pub open spec fn pause(self) -> Self {
        match self.next_awake(1) {
            Some(j) => self.switch_to(j as int),
            None => self,
        }
    }

    /// `suspend ( i -- )` and `resume ( i -- )`: put task `i`, counted
    /// from one, to sleep, or wake it.
    pub open spec fn wake(self, v: bool, d: nat) -> Self
        decreases d, 2int,
    {
        let i = unsigned_of(self.s().top().wrapping_sub(1));
        if i < NUM_TASKS {
            self.drop_n(1).set_awake(i as int, v)
        } else {
            self.drop_n(1).abort_with(INVALID_NUMERIC_ARGUMENT, d)
        }
    }

    /// `activate ( i -- )`: wake task `i`, counted from one, reset it, and
    /// let it continue behind `activate`; the running task returns to its
    /// caller.
    pub open spec fn activate(self, d: nat) -> Self
        decreases d, 2int,
    {
        let i = unsigned_of(self.s().top().wrapping_sub(1));
        let vm = self.drop_n(1);
        if i < NUM_TASKS {
            let a = vm.set_awake(i as int, true).switch_to(i as int).reset().with_ip(
                self.ip(),
            ).switch_to(self.current_task as int);
            a.with_ip(unsigned_of(a.r().top())).rdrop_n(1)
        } else {
            vm.with_ip(unsigned_of(vm.r().top())).rdrop_n(1).abort_with(
                INVALID_NUMERIC_ARGUMENT,
                d,
            )
        }
    }
}

impl VM {
    /// Resolves the forward branch whose operand lies in the cell before
    /// `a`.
    pub fn resolve(&mut self, a: usize)
        requires
            old(self).wf(),
        ensures
            final(self).follows(old(self), old(self)@.resolve(a, old(self).depth as nat)),
        decreases old(self).depth, 2int,
    {
        if a >= 8 && self.data_space.has_range(a - 8, 8) {
            let here = self.data_space.here();
            self.patch(a - 8, here);
        } else {
            self.abort_with(INVALID_MEMORY_ADDRESS);
        }
    }

    /// Appends a branch to `destination` and returns `here`.
    pub fn compile_branch(&mut self, destination: usize) -> (r: usize)
        requires
            old(self).wf(),
            old(self)@.mem.room(16),
        ensures
            final(self).follows(
                old(self),
                old(self)@.emit_xt(old(self)@.refs.idx_branch).emit_xt(destination),
            ),
            r == final(self)@.mem.here,
            r == old(self)@.mem.here + 16,
    {
        let idx = self.references.idx_branch;
        self.emit_xt(idx);
        self.emit_xt(destination);
        self.data_space.here()
    }

    /// Appends a conditional branch to `destination` and returns `here`.
    pub fn compile_zero_branch(&mut self, destination: usize) -> (r: usize)
        requires
            old(self).wf(),
            old(self)@.mem.room(16),
        ensures
            final(self).follows(
                old(self),
                old(self)@.emit_xt(old(self)@.refs.idx_zero_branch).emit_xt(destination),
            ),
            r == final(self)@.mem.here,
            r == old(self)@.mem.here + 16,
    {
        let idx = self.references.idx_zero_branch;
        self.emit_xt(idx);
        self.emit_xt(destination);
        self.data_space.here()
    }

    /// `if`: compile a conditional branch with an open target and mark it.
    pub fn imm_if(&mut self)
        requires
            old(self).wf(),
        ensures
            final(self).follows(old(self), old(self)@.imm_if(old(self).depth as nat)),
        decreases old(self).depth, 2int,
    {
        if self.room(16) {
            let here = self.compile_zero_branch(0);
            self.task.c_stk.push(Control::If(here));
        } else {
            self.abort_with(DICTIONARY_OVERFLOW);
        }
    }

    /// `else`: compile a branch with an open target over the second part,
    /// mark it, and let the branch of `if` lead behind it.
    pub fn imm_else(&mut self)
        requires
            old(self).wf(),
        ensures
            final(self).follows(old(self), old(self)@.imm_else(old(self).depth as nat)),
        decreases old(self).depth, 3int,
    {
        let if_part = match self.task.c_stk.pop() {
            Control::If(if_part) => if_part,
            _ => {
                self.abort_with(CONTROL_STRUCTURE_MISMATCH);
                return ;
            },
        };
        if self.task.c_stk.underflow() {
            self.abort_with(CONTROL_STRUCTURE_MISMATCH);
        } else if !self.room(16) {
            self.abort_with(DICTIONARY_OVERFLOW);
        } else {
            let here = self.compile_branch(0);
            self.task.c_stk.push(Control::Else(here));
            self.resolve(if_part);
        }
    }

    /// `then`: let the open branch of `if` or `else` lead here.
    pub fn imm_then(&mut self)
        requires
            old(self).wf(),
        ensures
            final(self).follows(old(self), old(self)@.imm_then(old(self).depth as nat)),
        decreases old(self).depth, 3int,
    {
        let branch_part = match self.task.c_stk.pop() {
            Control::If(branch_part) => branch_part,
            Control::Else(branch_part) => branch_part,
            _ => {
                self.abort_with(CONTROL_STRUCTURE_MISMATCH);
                return ;
            },
        };
        if self.task.c_stk.underflow() {
            self.abort_with(CONTROL_STRUCTURE_MISMATCH);
        } else {
            self.resolve(branch_part);
        }
    }

    /// `of`: inside a case structure, compile the comparison with the
    /// selector, `over = 0branch` with an open target and `drop`, and mark
    /// the branch.
    pub fn imm_of(&mut self)
        requires
            old(self).wf(),
        ensures
            final(self).follows(old(self), old(self)@.imm_of(old(self).depth as nat)),
        decreases old(self).depth, 2int,
    {
        match self.task.c_stk.nth(0) {
            Control::Case => {},
            Control::Endof(_) => {},
            _ => {
                let _ = self.task.c_stk.pop();
                self.abort_with(CONTROL_STRUCTURE_MISMATCH);
                return ;
            },
        };
        if self.task.c_stk.underflow() {
            self.abort_with(CONTROL_STRUCTURE_MISMATCH);
        } else if !self.room(40) {
            self.abort_with(DICTIONARY_OVERFLOW);
        } else {
            let idx = self.references.idx_over;
            self.emit_xt(idx);
            let idx = self.references.idx_equal;
            self.emit_xt(idx);
            let here = self.compile_zero_branch(0);
            self.task.c_stk.push(Control::Of(here));
            let idx = self.references.idx_drop;
            self.emit_xt(idx);
        }
    }

    /// `endof`: compile a branch with an open target to the end of the
    /// case structure, mark it, and let the branch of `of` lead behind it.
    pub fn imm_endof(&mut self)
        requires
            old(self).wf(),
        ensures
            final(self).follows(old(self), old(self)@.imm_endof(old(self).depth as nat)),
        decreases old(self).depth, 3int,
    {
        let of_part = match self.task.c_stk.pop() {
            Control::Of(of_part) => of_part,
            _ => {
                self.abort_with(CONTROL_STRUCTURE_MISMATCH);
                return ;
            },
        };
        if self.task.c_stk.underflow() {
            self.abort_with(CONTROL_STRUCTURE_MISMATCH);
        } else if !self.room(16) {
            self.abort_with(DICTIONARY_OVERFLOW);
        } else {
            let here = self.compile_branch(0);
            self.task.c_stk.push(Control::Endof(here));
            self.resolve(of_part);
        }
    }

    /// `endcase`: compile `drop` and close the case structure.
    pub fn imm_endcase(&mut self)
        requires
            old(self).wf(),
        ensures
            final(self).follows(old(self), old(self)@.imm_endcase(old(self).depth as nat)),
        decreases old(self).depth, 5int,
    {
        if !self.room(8) {
            self.abort_with(DICTIONARY_OVERFLOW);
            return ;
        }
        let idx = self.references.idx_drop;
        self.emit_xt(idx);
        let ghost start = self@;
        let ghost d = self.depth as nat;
        let mut n: usize = 256;
        loop
            invariant
                self.wf(),
                self.depth == old(self).depth,
                self.limit == old(self).limit,
                d == self.depth,
                n <= 256,
                old(self)@.imm_endcase(d) == start.close_case(d, 256),
                start.close_case(d, 256) == self@.close_case(d, n as nat),
            decreases n,
        {
            if n == 0 {
                self.abort_with(CONTROL_STRUCTURE_MISMATCH);
                return ;
            }
            match self.task.c_stk.pop() {
                Control::Case => {
                    if self.task.c_stk.underflow() {
                        self.abort_with(CONTROL_STRUCTURE_MISMATCH);
                    }
                    return ;
                },
                Control::Endof(endof_part) => {
                    if self.task.c_stk.underflow() {
                        self.abort_with(CONTROL_STRUCTURE_MISMATCH);
                    } else {
                        self.resolve(endof_part);
                    }
                },
                _ => {
                    self.abort_with(CONTROL_STRUCTURE_MISMATCH);
                    return ;
                },
            }
            n -= 1;
        }
    }

    /// `while`: compile a conditional branch with an open target out of
    /// the loop and mark it.
    pub fn imm_while(&mut self)
        requires
            old(self).wf(),
        ensures
            final(self).follows(old(self), old(self)@.imm_while(old(self).depth as nat)),
        decreases old(self).depth, 2int,
    {
        if self.room(16) {
            let here = self.compile_zero_branch(0);
            self.task.c_stk.push(Control::While(here));
        } else {
            self.abort_with(DICTIONARY_OVERFLOW);
        }
    }

    /// `repeat`: compile a branch back to `begin` and let the branch of
    /// `while` lead behind it.
    pub fn imm_repeat(&mut self)
        requires
            old(self).wf(),
        ensures
            final(self).follows(old(self), old(self)@.imm_repeat(old(self).depth as nat)),
        decreases old(self).depth, 3int,
    {
        let (begin_part, while_part) = match self.task.c_stk.pop2() {
            (Control::Begin(begin_part), Control::While(while_part)) => (begin_part, while_part),
            _ => {
                self.abort_with(CONTROL_STRUCTURE_MISMATCH);
                return ;
            },
        };
        if self.task.c_stk.underflow() {
            self.abort_with(CONTROL_STRUCTURE_MISMATCH);
        } else if !self.room(16) {
            self.abort_with(DICTIONARY_OVERFLOW);
        } else {
            let _ = self.compile_branch(begin_part);
            self.resolve(while_part);
        }
    }

    /// Closes a `begin` loop with the word `xt` and a branch back.
    pub fn loop_back(&mut self, xt: usize)
        requires
            old(self).wf(),
        ensures
            final(self).follows(old(self), old(self)@.loop_back(xt, old(self).depth as nat)),
        decreases old(self).depth, 2int,
    {
        let begin_part = match self.task.c_stk.pop() {
            Control::Begin(begin_part) => begin_part,
            _ => {
                self.abort_with(CONTROL_STRUCTURE_MISMATCH);
                return ;
            },
        };
        if self.task.c_stk.underflow() {
            self.abort_with(CONTROL_STRUCTURE_MISMATCH);
        } else if !self.room(16) {
            self.abort_with(DICTIONARY_OVERFLOW);
        } else {
            self.emit_xt(xt);
            self.emit_xt(begin_part);
        }
    }

    /// `until`: compile a conditional branch back to `begin`.
    pub fn imm_until(&mut self)
        requires
            old(self).wf(),
        ensures
            final(self).follows(old(self), old(self)@.imm_until(old(self).depth as nat)),
        decreases old(self).depth, 3int,
    {
        let idx = self.references.idx_zero_branch;
        self.loop_back(idx);
    }

    /// `again`: compile a branch back to `begin`.
    pub fn imm_again(&mut self)
        requires
            old(self).wf(),
        ensures
            final(self).follows(old(self), old(self)@.imm_again(old(self).depth as nat)),
        decreases old(self).depth, 3int,
    {
        let idx = self.references.idx_branch;
        self.loop_back(idx);
    }

    /// Opens a counted loop with the word `xt`.
    pub fn open_loop(&mut self, xt: usize)
        requires
            old(self).wf(),
        ensures
            final(self).follows(old(self), old(self)@.open_loop(xt, old(self).depth as nat)),
        decreases old(self).depth, 2int,
    {
        if self.room(16) {
            self.emit_xt(xt);
            self.emit(0);
            let here = self.data_space.here();
            self.task.c_stk.push(Control::Do(here, here));
        } else {
            self.abort_with(DICTIONARY_OVERFLOW);
        }
    }

    /// `do`
    pub fn imm_do(&mut self)
        requires
            old(self).wf(),
        ensures
            final(self).follows(old(self), old(self)@.imm_do(old(self).depth as nat)),
        decreases old(self).depth, 3int,
    {
        let idx = self.references.idx_do;
        self.open_loop(idx);
    }

    /// `?do`
    pub fn imm_qdo(&mut self)
        requires
            old(self).wf(),
        ensures
            final(self).follows(old(self), old(self)@.imm_qdo(old(self).depth as nat)),
        decreases old(self).depth, 3int,
    {
        let idx = self.references.idx_qdo;
        self.open_loop(idx);
    }

    /// Closes a counted loop with the word `xt`.
    pub fn close_loop(&mut self, xt: usize)
        requires
            old(self).wf(),
        ensures
            final(self).follows(old(self), old(self)@.close_loop(xt, old(self).depth as nat)),
        decreases old(self).depth, 3int,
    {
        let do_part = match self.task.c_stk.pop() {
            Control::Do(do_part, _) => do_part,
            _ => {
                self.abort_with(CONTROL_STRUCTURE_MISMATCH);
                return ;
            },
        };
        if self.task.c_stk.underflow() {
            self.abort_with(CONTROL_STRUCTURE_MISMATCH);
        } else if !self.room(16) {
            self.abort_with(DICTIONARY_OVERFLOW);
        } else {
            self.emit_xt(xt);
            self.emit_xt(do_part);
            self.resolve(do_part);
        }
    }

    /// `loop`
    pub fn imm_loop(&mut self)
        requires
            old(self).wf(),
        ensures
            final(self).follows(old(self), old(self)@.imm_loop(old(self).depth as nat)),
        decreases old(self).depth, 4int,
    {
        let idx = self.references.idx_loop;
        self.close_loop(idx);
    }

    /// `+loop`
    pub fn imm_plus_loop(&mut self)
        requires
            old(self).wf(),
        ensures
            final(self).follows(old(self), old(self)@.imm_plus_loop(old(self).depth as nat)),
        decreases old(self).depth, 4int,
    {
        let idx = self.references.idx_plus_loop;
        self.close_loop(idx);
    }

    /// `recurse`: compile a reference to the definition under way, the
    /// last word of the dictionary.
    pub fn imm_recurse(&mut self)
        requires
            old(self).wf(),
        ensures
            final(self).follows(old(self), old(self)@.imm_recurse(old(self).depth as nat)),
        decreases old(self).depth, 3int,
    {
        let len = self.wordlist.len();
        if len == 0 {
            self.abort_with(UNSUPPORTED_OPERATION);
        } else {
            self.compile_word(len - 1);
        }
    }

    /// Sets every cell on the chain of forward references from `p` on to
    /// `target`.
    pub fn patch_chain(&mut self, start: usize, target: usize)
        requires
            old(self).wf(),
        ensures
            final(self).follows(
                old(self),
                old(self)@.with_mem(patch_chain(old(self)@.mem, start, target)),
            ),
    {
        let mut p = start;
        loop
            invariant
                self.wf(),
                self.depth == old(self).depth,
                self.limit == old(self).limit,
                self@ == old(self)@.with_mem(self@.mem),
                patch_chain(old(self)@.mem, start, target) == patch_chain(self@.mem, p, target),
            decreases p,
        {
            if !self.data_space.has_range(p, 8) {
                return ;
            }
            let last = self.data_space.get_usize(p);
            self.data_space.put_isize(to_signed(target), p);
            if last == 0 || last >= p {
                return ;
            }
            p = last;
        }
    }

    /// `label ( n -- )`: define the label `n` at `here`. References that
    /// were compiled before lead here from now on. A number that is no
    /// label, or a label that is defined already, is refused.
    pub fn imm_label(&mut self)
        requires
            old(self).wf(),
        ensures
            final(self).follows(old(self), old(self)@.imm_label(old(self).depth as nat)),
        decreases old(self).depth, 2int,
    {
        let n = self.task.s_stk.pop();
        if 0 < n && n < 1000 {
            let here = self.data_space.here();
            let i = n as usize;
            if bitset_contains(&self.forward_bitset, n as u32) {
                let p = self.labels[i];
                self.patch_chain(p, here);
                self.labels[i] = here;
                let _ = bitset_remove(&mut self.forward_bitset, n as u32);
                let _ = bitset_add(&mut self.resolved_bitset, n as u32);
            } else if bitset_contains(&self.resolved_bitset, n as u32) {
                self.abort_with(INVALID_NUMERIC_ARGUMENT);
            } else {
                self.labels[i] = here;
                let _ = bitset_add(&mut self.resolved_bitset, n as u32);
            }
        } else {
            self.abort_with(INVALID_NUMERIC_ARGUMENT);
        }
    }

    /// `goto ( n -- )`: compile a branch to the label `n`. Where the label
    /// is not defined yet, the operand joins the chain of references that
    /// wait for it, and the label counts as referenced forward.
    pub fn imm_goto(&mut self)
        requires
            old(self).wf(),
        ensures
            final(self).follows(old(self), old(self)@.imm_goto(old(self).depth as nat)),
        decreases old(self).depth, 2int,
    {
        let n = self.task.s_stk.pop();
        if 0 < n && n < 1000 {
            let i = n as usize;
            if !self.room(16) {
                self.abort_with(DICTIONARY_OVERFLOW);
            } else if bitset_contains(&self.forward_bitset, n as u32) {
                let p = self.labels[i];
                let to_patch = self.compile_branch(p) - 8;
                self.labels[i] = to_patch;
            } else if bitset_contains(&self.resolved_bitset, n as u32) {
                let p = self.labels[i];
                let _ = self.compile_branch(p);
            } else {
                let to_patch = self.compile_branch(0) - 8;
                self.labels[i] = to_patch;
                let _ = bitset_add(&mut self.forward_bitset, n as u32);
            }
        } else {
            self.abort_with(INVALID_NUMERIC_ARGUMENT);
        }
    }

    /// `call ( n -- )`: compile a call of the code at label `n`: push the
    /// address behind the call onto the return stack, then branch as `goto`
    /// does.
    pub fn imm_call(&mut self)
        requires
            old(self).wf(),
        ensures
            final(self).follows(old(self), old(self)@.imm_call(old(self).depth as nat)),
        decreases old(self).depth, 3int,
    {
        if self.room(40) {
            let return_addr = self.data_space.here() + 40;
            let idx_lit = self.references.idx_lit;
            let idx_to_r = self.references.idx_to_r;
            self.emit_xt(idx_lit);
            self.emit(return_addr as isize);
            self.emit_xt(idx_to_r);
            self.imm_goto();
        } else {
            self.abort_with(DICTIONARY_OVERFLOW);
        }
    }

    /// Is task `i` awake? There is no task beyond the last one.
    pub fn awake(&self, i: usize) -> (r: bool)
        requires
            self.wf(),
        ensures
            r == (i < NUM_TASKS && self@.task_at(i as int).awake),
    {
        if i == self.current_task {
            self.task.awake
        } else if i < NUM_TASKS {
            self.parked[i].awake
        } else {
            false
        }
    }

    /// Wakes task `i` or puts it to sleep. There is no task beyond the
    /// last one.
    pub fn set_awake(&mut self, i: usize, v: bool)
        requires
            old(self).wf(),
        ensures
            final(self).follows(old(self), old(self)@.set_awake(i as int, v)),
    {
        if i == self.current_task {
            self.task.awake = v;
        } else if i < NUM_TASKS {
            self.parked[i].awake = v;
            assert(self@.parked =~= old(self)@.set_awake(i as int, v).parked);
        }
    }

    /// Index of the running task.
    pub fn current_task(&self) -> (r: usize)
        ensures
            r == self@.current_task,
    {
        self.current_task
    }

    /// Lets task `i` run. There is no task beyond the last one.
    pub fn set_current_task(&mut self, i: usize)
        requires
            old(self).wf(),
        ensures
            final(self).follows(old(self), old(self)@.switch_to(i as int)),
    {
        if i < NUM_TASKS && i != self.current_task {
            let cur = self.current_task;
            core::mem::swap(&mut self.task, &mut self.parked[cur]);
            core::mem::swap(&mut self.task, &mut self.parked[i]);
            self.current_task = i;
            assert(self@.parked =~= old(self)@.switch_to(i as int).parked);
        }
    }

    /// Hands control to the next task that is awake.
    pub fn pause(&mut self)
        requires
            old(self).wf(),
        ensures
            final(self).follows(old(self), old(self)@.pause()),
    {
        let cur = self.current_task;
        let mut k: usize = 1;
        while k <= 5
            invariant
                1 <= k <= 6,
                self.wf(),
                *self == *old(self),
                cur == self.current_task,
                self@.next_awake(1) == self@.next_awake(k as int),
            decreases 6 - k,
        {
            let i = (cur + k) % 5;
            if self.awake(i) {
                self.set_current_task(i);
                return ;
            }
            k += 1;
        }
    }

    /// `suspend ( i -- )`: put task `i`, counted from one, to sleep.
    pub fn suspend(&mut self)
        requires
            old(self).wf(),
        ensures
            final(self).follows(old(self), old(self)@.wake(false, old(self).depth as nat)),
        decreases old(self).depth, 2int,
    {
        let i = to_unsigned(self.task.s_stk.pop().wrapping_sub(1));
        if i < NUM_TASKS {
            self.set_awake(i, false);
        } else {
            self.abort_with(INVALID_NUMERIC_ARGUMENT);
        }
    }

    /// `resume ( i -- )`: wake task `i`, counted from one.
    pub fn resume(&mut self)
        requires
            old(self).wf(),
        ensures
            final(self).follows(old(self), old(self)@.wake(true, old(self).depth as nat)),
        decreases old(self).depth, 2int,
    {
        let i = to_unsigned(self.task.s_stk.pop().wrapping_sub(1));
        if i < NUM_TASKS {
            self.set_awake(i, true);
        } else {
            self.abort_with(INVALID_NUMERIC_ARGUMENT);
        }
    }

    /// `activate ( i -- )`: wake task `i`, counted from one, reset it, and
    /// let it continue behind `activate`; the running task returns to its
    /// caller.
    pub fn activate(&mut self)
        requires
            old(self).wf(),
        ensures
            final(self).follows(old(self), old(self)@.activate(old(self).depth as nat)),
        decreases old(self).depth, 2int,
    {
        let i = to_unsigned(self.task.s_stk.pop().wrapping_sub(1));
        if i < NUM_TASKS {
            self.set_awake(i, true);
            let current_task = self.current_task;
            let ip = self.task.state.instruction_pointer;
            self.set_current_task(i);
            self.reset();
            self.task.state.instruction_pointer = ip;
            self.set_current_task(current_task);
            let ip = to_unsigned(self.task.r_stk.pop());
            self.task.state.instruction_pointer = ip;
        } else {
            let ip = to_unsigned(self.task.r_stk.pop());
            self.task.state.instruction_pointer = ip;
            self.abort_with(INVALID_NUMERIC_ARGUMENT);
        }
    }
}

} // verus!
