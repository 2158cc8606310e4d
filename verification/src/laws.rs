//! Laws of the machine: what holds of its words for all inputs.
use crate::cell::signed_of;
use crate::dictionary::{
    hash_of, law_find_is_newest, lemma_find_ignores_case, same_name, saved_words, Action,
    Semantics, WordlistView,
};
use crate::exception::{
    Exception, CONTROL_STRUCTURE_MISMATCH, INTERPRETING_A_COMPILE_ONLY_WORD, STACK_OVERFLOW,
};
use crate::cell::lemma_cell_round_trip;
use crate::memory::{
    lemma_aligned_to, lemma_compile_words_read, lemma_compile_words_shape, lemma_put_get_byte,
    lemma_put_get_cell,
};
use crate::primitives::{lemma_div_rem, wrapping_abs_int, wrapping_div, wrapping_rem};
use crate::stack::{lemma_pushed_all, pushed_all};
use crate::vm::{State, VmView};
use vstd::prelude::*;

verus! {

impl VmView {
    /// The exception handler is a word that does nothing, as it is in a
    /// new machine.
    pub open spec fn quiet_handler(self) -> bool {
        self.has_word(self.handler as int) && self.words.words[self.handler as int].action
            == Action::Noop
    }

    /// The machine after `marker` appended the header of a word named
    /// `name`.
    pub open spec fn headed(self, name: Seq<u8>) -> Self {
        self.with_words(WordlistView { temp_buckets: self.words.buckets, ..self.words })
            .with_header(name, Action::Unmark, Semantics::Unmark)
    }

    /// The machine after `marker` defined a word under the name `name`.
    pub open spec fn marked(self, name: Seq<u8>) -> Self {
        self.headed(name).emit_xt(self.words.last).emit_all(self.words.buckets)
    }

    /// The machine after the word that `marker` defined under the name
    /// `name` was executed as the newest word.
    pub open spec fn unmarked(self, name: Seq<u8>, d: nat) -> Self {
        let marked = self.marked(name);
        marked.with_st(
            State { word_pointer: self.words.words.len() as usize, ..marked.st() },
        ).unmark(d)
    }

    /// The machine as an exception leaves it before the handler runs: the
    /// parameter, float and control stacks cleared, the error and the word
    /// that failed recorded.
    pub open spec fn raised(self, e: Exception) -> Self {
        let vm = self.clear_stacks().with_error(Some(e));
        vm.with_st(State { aborted_word_pointer: vm.st().word_pointer, ..vm.st() })
    }
}

/// With a handler that does nothing, an exception leaves the stacks
/// cleared and the error recorded, and the handler is the word that
/// executed last.
pub proof fn law_abort_with_quiet_handler(vm: VmView, e: Exception, d: nat)
    requires
        vm.quiet_handler(),
        d >= 1,
    ensures
        vm.abort_with(e, d) == vm.raised(e).with_st(
            State { word_pointer: vm.handler, ..vm.raised(e).st() },
        ),
        vm.abort_with(e, d).last_error == Some(e),
        vm.abort_with(e, d).s() == vm.s().reset(),
        vm.abort_with(e, d).c() == vm.c().reset(),
        vm.abort_with(e, d).f() == vm.f().reset(),
{
    let raised = vm.raised(e);
    assert(vm.abort_with(e, d) == raised.execute_word(vm.handler, d));
    let entered = raised.with_st(State { word_pointer: vm.handler, ..raised.st() });
    assert(raised.execute_word(vm.handler, d) == entered.run_action(
        Action::Noop,
        (d - 1) as nat,
    ));
}

/// `/mod` leaves the remainder below the quotient, and the two follow
/// truncated division: the quotient times the divisor plus the remainder
/// is the dividend, the remainder is smaller than the divisor in magnitude
/// and has the sign of the dividend. The least cell divided by -1 wraps to
/// itself, with remainder zero.
pub proof fn law_slash_mod(vm: VmView, d: nat)
    requires
        vm.wf(),
        vm.s().nth(0) != 0,
    ensures
        ({
            let a = vm.s().nth(1);
            let b = vm.s().nth(0);
            let after = vm.slash_mod(d).s();
            &&& after.len == vm.s().len
            &&& after.nth(0) == wrapping_div(a, b)
            &&& after.nth(1) == wrapping_rem(a, b)
            &&& a == isize::MIN && b == -1 ==> after.nth(0) == a && after.nth(1) == 0
            &&& !(a == isize::MIN && b == -1) ==> {
                &&& a == after.nth(0) * b + after.nth(1)
                &&& wrapping_abs_int(after.nth(1) as int) < wrapping_abs_int(b as int)
                &&& (after.nth(1) == 0 || (after.nth(1) < 0) == (a < 0))
            }
        }),
{
    let a = vm.s().nth(1);
    let b = vm.s().nth(0);
    if !(a == isize::MIN && b == -1) {
        lemma_div_rem(a, b);
    } else {
        assert(wrapping_abs_int(a as int) % 1 == 0);
    }
}

/// A cell stored with `!` is fetched unchanged with `@`: for every cell
/// `v` and every address `addr` of a cell in data space, `v addr ! addr @`
/// leaves `v` on top of the stack, and raises nothing.
pub proof fn law_store_fetch(vm: VmView, v: isize, addr: isize, d: nat)
    requires
        vm.wf(),
        vm.mem.has_cell(addr as int),
    ensures
        vm.push(v).push(addr).store(d).push(addr).fetch(d).s().top() == v,
        vm.push(v).push(addr).store(d).push(addr).fetch(d).s().len == vm.s().len.wrapping_add(
            1,
        ),
        vm.push(v).push(addr).store(d).push(addr).fetch(d).last_error == vm.last_error,
{
    lemma_put_get_cell(vm.mem, addr as int, v, 0);
}

/// A byte stored with `c!` is fetched unchanged with `c@`: for every cell
/// `v` and every address `addr` in data space, `v addr c! addr c@` leaves
/// the low byte of `v` on top of the stack.
pub proof fn law_c_store_c_fetch(vm: VmView, v: isize, addr: isize, d: nat)
    requires
        vm.wf(),
        vm.mem.has(addr as int),
    ensures
        vm.push(v).push(addr).c_store(d).push(addr).c_fetch(d).s().top() == (v as u8) as isize,
        0 <= vm.push(v).push(addr).c_store(d).push(addr).c_fetch(d).s().top() < 256,
{
    lemma_put_get_byte(vm.mem, addr as int, v as u8);
}

/// `;` with a control structure still open, or with a label that is
/// referenced and not defined, raises a control structure mismatch and
/// leaves compile state.
pub proof fn law_semicolon_mismatch(vm: VmView, d: nat)
    requires
        vm.c().len != 0 || !(vm.forward =~= Set::<u32>::empty()),
    ensures
        vm.semicolon(d) == vm.abort_with(CONTROL_STRUCTURE_MISMATCH, d).left_bracket(),
        !vm.semicolon(d).st().is_compiling,
        vm.quiet_handler() && d >= 1 ==> vm.semicolon(d).last_error == Some(
            CONTROL_STRUCTURE_MISMATCH,
        ),
{
    if vm.quiet_handler() && d >= 1 {
        law_abort_with_quiet_handler(vm, CONTROL_STRUCTURE_MISMATCH, d);
    }
}

/// `;` that finds no control structure open and no label unresolved
/// compiles `exit`, shows the definition and leaves compile state; the
/// control stack is empty and no forward label remains afterwards.
pub proof fn law_semicolon_success(vm: VmView, d: nat)
    requires
        vm.wf(),
        vm.c().len == 0,
        vm.forward =~= Set::<u32>::empty(),
        vm.has_word(vm.refs.idx_exit as int),
        vm.words.words[vm.refs.idx_exit as int].compilation_semantics != Semantics::Leave,
        vm.mem.room(8),
    ensures
        vm.semicolon(d) == vm.emit_xt(vm.refs.idx_exit).with_hidden(false).left_bracket(),
        vm.semicolon(d).c().len == 0,
        vm.semicolon(d).forward =~= Set::<u32>::empty(),
        vm.semicolon(d).last_error == vm.last_error,
        !vm.semicolon(d).st().is_compiling,
{
    let idx = vm.refs.idx_exit;
    let sem = vm.words.words[idx as int].compilation_semantics;
    assert(vm.run_semantics(sem, idx, d) == vm.compile_word(idx, d));
}

/// Interpreting a token that names a compile-only word raises the
/// exception for interpreting a compile-only word.
pub proof fn law_interpret_compile_only(vm: VmView, d: nat)
    requires
        vm.find(vm.token).is_some(),
        vm.words.words[vm.find(vm.token).unwrap() as int].is_compile_only,
    ensures
        vm.interpret_token(d) == vm.abort_with(INTERPRETING_A_COMPILE_ONLY_WORD, d),
        vm.quiet_handler() && d >= 1 ==> vm.interpret_token(d).last_error == Some(
            INTERPRETING_A_COMPILE_ONLY_WORD,
        ),
{
    if vm.quiet_handler() && d >= 1 {
        law_abort_with_quiet_handler(vm, INTERPRETING_A_COMPILE_ONLY_WORD, d);
    }
}

/// Lookup ignores the case of ASCII letters: every spelling of a name
/// finds the word that the name finds.
pub proof fn law_find_ignores_case(vm: VmView, name: Seq<u8>, spelling: Seq<u8>)
    requires
        same_name(name, spelling),
    ensures
        vm.find(spelling) == vm.find(name),
{
    lemma_find_ignores_case(vm.words, vm.mem, name, spelling);
}

/// The data field of a new word starts on a cell boundary, and a cell
/// that is appended at a cell boundary ends on one: `here` is cell-aligned
/// after a definition whose body is made of cells.
pub proof fn law_definitions_are_aligned(
    vm: VmView,
    name: Seq<u8>,
    action: Action,
    sem: Semantics,
    v: isize,
)
    requires
        vm.wf(),
        vm.room_for_name(name),
    ensures
        vm.with_header(name, action, sem).mem.here % 8 == 0,
        vm.with_header(name, action, sem).words.words.last().dfa == vm.with_header(
            name,
            action,
            sem,
        ).mem.here,
        vm.with_header(name, action, sem).words.words.last().nfa == vm.mem.here,
        vm.mem.here % 8 == 0 && vm.mem.room(8) ==> vm.emit(v).mem.here % 8 == 0,
{
    lemma_cell_round_trip(name.len() as isize);
    lemma_cell_round_trip(v);
    let stored = vm.mem.compile_str(name);
    assert(stored.here == vm.mem.here + 8 + name.len());
    lemma_aligned_to(stored.here, 8);
}

/// What `marker` leaves in data space and in the dictionary: the new word
/// is the newest one, its name field lies where `here` was, and its data
/// field holds the bucket heads of before, each in its cell.
pub proof fn lemma_marked(vm: VmView, name: Seq<u8>)
    requires
        vm.wf(),
        vm.words.words.len() < usize::MAX,
        vm.room_for_name(name),
        vm.headed(name).mem.room(520),
    ensures
        ({
            let k = vm.words.words.len() as int;
            let marked = vm.marked(name);
            let w = marked.words.words[k];
            &&& marked.words.words.len() == k + 1
            &&& marked.words.words.subrange(0, k) == vm.words.words
            &&& w.action == Action::Unmark
            &&& w.nfa == vm.mem.here
            &&& marked.mem.wf()
            &&& marked.mem.has_range(w.dfa as int, 520)
            &&& saved_words(marked.mem, w.dfa + 8, 64) == vm.words.buckets
            &&& marked.last_error == vm.last_error
            &&& marked.words.temp_buckets == vm.words.buckets
        }),
{
    let k = vm.words.words.len() as int;
    let headed = vm.headed(name);
    let dfa = headed.mem.here;
    lemma_cell_round_trip(name.len() as isize);
    lemma_aligned_to(vm.mem.compile_str(name).here, 8);
    lemma_cell_round_trip(signed_of(vm.words.last));
    assert(headed.mem.wf());
    assert(headed.mem.bytes.len() == vm.mem.bytes.len());
    assert(headed.words.words.len() == k + 1);
    assert(headed.words.words[k].dfa == dfa);
    assert(headed.words.words[k].nfa == vm.mem.here);
    assert(headed.words.words[k].action == Action::Unmark);
    assert(headed.words.words.subrange(0, k) =~= vm.words.words);
    let first = headed.mem.compile_cell(signed_of(vm.words.last));
    assert(first.here == dfa + 8);
    assert(first.wf());
    let marked = vm.marked(name);
    assert(marked.words == headed.words);
    assert(marked.mem == first.compile_words(vm.words.buckets));
    assert(first.room(512));
    lemma_compile_words_shape(first, vm.words.buckets);
    assert forall|i: int| 0 <= i < 64 implies #[trigger] saved_words(marked.mem, dfa + 8, 64)[i]
        == vm.words.buckets[i] by {
        lemma_compile_words_read(first, vm.words.buckets, i);
    }
    assert(saved_words(marked.mem, dfa + 8, 64) =~= vm.words.buckets);
}

/// A marker restores the dictionary and data space: when the word that
/// `marker` has defined under the name `name` is executed, the dictionary
/// holds the words and bucket heads that it held before `marker`, and
/// `here` is where it was.
pub proof fn law_marker_restores(vm: VmView, name: Seq<u8>, d: nat)
    requires
        vm.wf(),
        vm.words.words.len() < usize::MAX,
        vm.room_for_name(name),
        vm.headed(name).mem.room(520),
    ensures
        vm.unmarked(name, d).mem.here == vm.mem.here,
        vm.unmarked(name, d).words.words == vm.words.words,
        vm.unmarked(name, d).words.buckets == vm.words.buckets,
        vm.unmarked(name, d).last_error == vm.last_error,
{
    lemma_marked(vm, name);
    let k = vm.words.words.len() as int;
    let marked = vm.marked(name);
    let entered = marked.with_st(State { word_pointer: k as usize, ..marked.st() });
    let w = marked.words.words[k];
    assert(entered.has_word(k));
    assert(entered.current_word() == w);
    assert(entered.mem == marked.mem);
    assert(entered.words == marked.words);
    let rolled = entered.unmark(d);
    assert(rolled == entered.with_words(
        (WordlistView {
            buckets: saved_words(entered.mem, w.dfa + 8, 64),
            ..entered.words
        }).truncate(k),
    ).with_mem(entered.mem.set_here(w.nfa as int)));
    assert(rolled.words.words == marked.words.words.subrange(0, k));
}

/// In a machine whose dictionary has well-formed chains, as it has after
/// its construction, a name finds the newest word that is not hidden and
/// has that name, up to the case of ASCII letters.
pub proof fn law_find_newest(vm: VmView, name: Seq<u8>)
    requires
        vm.words.chained(),
    ensures
        vm.find(name) == vm.words.newest_answer(
            vm.mem,
            name,
            hash_of(name),
            vm.words.words.len() as int,
        ),
{
    law_find_is_newest(vm.words, vm.mem, name);
}

/// After 129 cells were pushed onto an emptied parameter stack,
/// `?stacks` raises a stack overflow, unless the 65th cell pushed is the
/// canary itself.
pub proof fn law_canary_overflow(vm: VmView, pushed: Seq<isize>, d: nat)
    requires
        vm.wf(),
        pushed.len() == 129,
        pushed[64] != vm.s().canary,
    ensures
        vm.with_s(pushed_all(vm.s().reset(), pushed)).check_stacks(d) == vm.with_s(
            pushed_all(vm.s().reset(), pushed),
        ).abort_with(STACK_OVERFLOW, d),
{
    lemma_pushed_all(vm.s().reset(), pushed, 129);
}

} // verus!
