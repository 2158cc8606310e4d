//! The virtual machine: its tasks, its registers, and the model that the
//! words of the machine are stated against.
//!
//! The machine runs one task at a time. The running task is held on its
//! own; the other tasks are parked in a table, in which the running task's
//! slot is not looked at until the task is switched out.
use crate::dictionary::{FileWord, SourceWord, Wordlist, WordlistView};
use crate::exception::Exception;
use crate::labels::{bitset_members, bitset_with_capacity, LABEL_COUNT};
use crate::memory::{DataSpace, DataSpaceView};
use crate::parser::FloatLiteral;
use crate::stack::{Control, Stack, StackView};
use crate::NUM_TASKS;
use vstd::prelude::*;

verus! {

/// Canary of the parameter and return stacks.
pub const CELL_CANARY: isize = 0x12345678;

/// Canary of the float stack: the bit pattern of 1.23456789.
pub const FLOAT_CANARY: u64 = 0x3ff3_c0ca_4283_de1b;

/// Default for the greatest depth to which words may execute words.
pub const NESTING_LIMIT: usize = 256;

/// Execution tokens of the words that the compiler emits by itself.
#[derive(Clone, Copy, Debug)]
#[allow(non_snake_case)]
pub struct ForwardReferences {
    pub idx_lit: usize,
    pub idx_flit: usize,
    pub idx_exit: usize,
    pub idx_zero_branch: usize,
    pub idx_branch: usize,
    pub idx_do: usize,
    pub idx_qdo: usize,
    pub idx_loop: usize,
    pub idx_plus_loop: usize,
    pub idx_s_quote: usize,
    pub idx_type: usize,
    pub idx_over: usize,
    pub idx_equal: usize,
    pub idx_drop: usize,
    pub idx__postpone: usize,
    pub idx_to_r: usize,
    pub idx__does: usize,
}

impl ForwardReferences {
    /// All references unset.
    pub open spec fn unset() -> ForwardReferences {
        ForwardReferences {
            idx_lit: 0,
            idx_flit: 0,
            idx_exit: 0,
            idx_zero_branch: 0,
            idx_branch: 0,
            idx_do: 0,
            idx_qdo: 0,
            idx_loop: 0,
            idx_plus_loop: 0,
            idx_s_quote: 0,
            idx_type: 0,
            idx_over: 0,
            idx_equal: 0,
            idx_drop: 0,
            idx__postpone: 0,
            idx_to_r: 0,
            idx__does: 0,
        }
    }

    /// References that are all unset.
    pub fn new() -> (r: ForwardReferences)
        ensures
            r == Self::unset(),
    {
        ForwardReferences {
            idx_lit: 0,
            idx_flit: 0,
            idx_exit: 0,
            idx_zero_branch: 0,
            idx_branch: 0,
            idx_do: 0,
            idx_qdo: 0,
            idx_loop: 0,
            idx_plus_loop: 0,
            idx_s_quote: 0,
            idx_type: 0,
            idx_over: 0,
            idx_equal: 0,
            idx_drop: 0,
            idx__postpone: 0,
            idx_to_r: 0,
            idx__does: 0,
        }
    }
}

/// The registers of a task.
#[derive(Clone, Copy, Debug)]
pub struct State {
    pub is_compiling: bool,
    pub instruction_pointer: usize,
    pub word_pointer: usize,
    pub aborted_word_pointer: usize,
    pub source_index: usize,
    pub source_id: isize,
}

impl State {
    /// The registers of a task that has not run yet.
    pub open spec fn initial() -> State {
        State {
            is_compiling: false,
            instruction_pointer: 0,
            word_pointer: 0,
            aborted_word_pointer: 0,
            source_index: 0,
            source_id: 0,
        }
    }

    /// The registers of a task that has not run yet.
    pub fn new() -> (r: State)
        ensures
            r == Self::initial(),
    {
        State {
            is_compiling: false,
            instruction_pointer: 0,
            word_pointer: 0,
            aborted_word_pointer: 0,
            source_index: 0,
            source_id: 0,
        }
    }

    /// Execution token of the word that is executing.
    pub fn word_pointer(&self) -> (r: usize)
        ensures
            r == self.word_pointer,
    {
        self.word_pointer
    }
}

/// A text source other than the terminal, as far as the machine reads it:
/// whether it is open, the path it was opened from, and its current line.
pub struct Source {
    pub open: bool,
    pub path: Vec<u8>,
    pub line: Vec<u8>,
}

/// What a source holds.
pub struct SourceView {
    pub open: bool,
    pub path: Seq<u8>,
    pub line: Seq<u8>,
}

impl View for Source {
    type V = SourceView;

    open spec fn view(&self) -> SourceView {
        SourceView { open: self.open, path: self.path@, line: self.line@ }
    }
}

/// What the host of the machine is asked to do before the machine goes on.
#[derive(Clone, Copy, PartialEq, Eq, Structural, Debug)]
pub enum Request {
    /// Nothing.
    Nothing,
    /// Turn the float literal in the last token into its value and hand it
    /// to `accept_float`.
    Float(FloatLiteral),
    /// Carry out a word of the file-access word set: call `file_begin`,
    /// do what it says, and report with `file_end`.
    File(FileWord),
    /// Carry out a word that handles text sources: call `source_begin`,
    /// do what it says, and report a line that was read with `load_line_end`.
    Source(SourceWord),
    /// Carry out the host word with this number.
    Host(usize),
}

/// A task: one thread of execution with its own stacks and input.
pub struct Task {
    pub awake: bool,
    pub state: State,
    pub s_stk: Stack<isize>,
    pub r_stk: Stack<isize>,
    pub c_stk: Stack<Control>,
    pub f_stk: Stack<u64>,
    pub inbuf: Option<Vec<u8>>,
    pub sources: Vec<Source>,
    /// For each file identifier, less one, whether a file is open under it.
    pub files: Vec<bool>,
}

/// What a task holds.
#[verifier::ext_equal]
pub struct TaskView {
    pub awake: bool,
    pub state: State,
    pub s: StackView<isize>,
    pub r: StackView<isize>,
    pub c: StackView<Control>,
    pub f: StackView<u64>,
    pub inbuf: Option<Seq<u8>>,
    pub sources: Seq<SourceView>,
    pub files: Seq<bool>,
}

/// The bytes of an optional buffer.
pub open spec fn buffer_view(b: Option<Vec<u8>>) -> Option<Seq<u8>> {
    match b {
        Some(v) => Some(v@),
        None => None,
    }
}

impl View for Task {
    type V = TaskView;

    open spec fn view(&self) -> TaskView {
        TaskView {
            awake: self.awake,
            state: self.state,
            s: self.s_stk@,
            r: self.r_stk@,
            c: self.c_stk@,
            f: self.f_stk@,
            inbuf: buffer_view(self.inbuf),
            sources: self.sources@.map_values(|s: Source| s@),
            files: self.files@,
        }
    }
}

impl TaskView {
    /// A task that sleeps, with empty stacks, no source, and the given
    /// terminal buffer.
    pub open spec fn fresh(inbuf: Option<Seq<u8>>) -> TaskView {
        TaskView {
            awake: false,
            state: State::initial(),
            s: (StackView { cells: Seq::empty(), len: 0, canary: CELL_CANARY }).reset(),
            r: (StackView { cells: Seq::empty(), len: 0, canary: CELL_CANARY }).reset(),
            c: (StackView { cells: Seq::empty(), len: 0, canary: Control::Default }).reset(),
            f: (StackView { cells: Seq::empty(), len: 0, canary: FLOAT_CANARY }).reset(),
            inbuf,
            sources: Seq::empty(),
            files: Seq::empty(),
        }
    }

    /// The four stacks have their cells.
    pub open spec fn wf(self) -> bool {
        self.s.wf() && self.r.wf() && self.c.wf() && self.f.wf()
    }

    /// Is `id` the number of a source that the task may read from: the
    /// terminal, or a source that is open?
    pub open spec fn is_source(self, id: isize) -> bool {
        id == 0 || (0 < id <= self.sources.len() && self.sources[id - 1].open)
    }

    /// The buffer that the task reads from: the terminal buffer for source
    /// 0, the line of the selected source otherwise, and none where the
    /// selected source does not exist.
    pub open spec fn input(self) -> Option<Seq<u8>> {
        if self.state.source_id == 0 {
            self.inbuf
        } else if 0 < self.state.source_id <= self.sources.len() {
            Some(self.sources[self.state.source_id - 1].line)
        } else {
            None
        }
    }

    /// The task with the text `text` in the buffer that it reads from, or
    /// unchanged where it has none.
    pub open spec fn with_input(self, text: Seq<u8>) -> TaskView {
        if self.state.source_id == 0 {
            if self.inbuf.is_some() {
                TaskView { inbuf: Some(text), ..self }
            } else {
                self
            }
        } else if 0 < self.state.source_id <= self.sources.len() {
            TaskView {
                sources: self.sources.update(
                    self.state.source_id - 1,
                    SourceView { line: text, ..self.sources[self.state.source_id - 1] },
                ),
                ..self
            }
        } else {
            self
        }
    }

    /// The task as `reset` leaves it: return stack empty, reading the
    /// terminal from its start with an empty buffer, interpreting.
    pub open spec fn reset(self) -> TaskView {
        let t = TaskView {
            r: self.r.reset(),
            state: State { source_id: 0, ..self.state },
            ..self
        };
        let t = if t.input().is_some() {
            t.with_input(Seq::empty())
        } else {
            t
        };
        TaskView {
            state: State {
                aborted_word_pointer: 0,
                source_index: 0,
                is_compiling: false,
                ..t.state
            },
            ..t
        }
    }
}

impl Task {
    /// A task without a terminal buffer.
    pub fn new_background() -> (r: Task)
        ensures
            r@ == TaskView::fresh(None),
            r@.wf(),
    {
        let r = Task {
            awake: false,
            state: State::new(),
            s_stk: Stack::new(CELL_CANARY),
            r_stk: Stack::new(CELL_CANARY),
            c_stk: Stack::new(Control::Default),
            f_stk: Stack::new(FLOAT_CANARY),
            inbuf: None,
            sources: Vec::new(),
            files: Vec::new(),
        };
        assert(r@.sources =~= Seq::empty());
        r
    }

    /// A task with an empty terminal buffer.
    pub fn new_terminal() -> (r: Task)
        ensures
            r@ == TaskView::fresh(Some(Seq::empty())),
            r@.wf(),
    {
        let mut task = Task::new_background();
        task.inbuf = Some(Vec::with_capacity(0x400));
        task
    }

    /// The buffer that the task reads from.
    pub fn input(&self) -> (r: Option<&Vec<u8>>)
        ensures
            r.is_some() == self@.input().is_some(),
            r.is_some() ==> r.unwrap()@ == self@.input().unwrap(),
    {
        let id = self.state.source_id;
        if id == 0 {
            self.inbuf.as_ref()
        } else if 0 < id && (id as usize) <= self.sources.len() {
            Some(&self.sources[id as usize - 1].line)
        } else {
            None
        }
    }

    /// Replaces the text in the buffer that the task reads from.
    pub fn set_input(&mut self, text: Vec<u8>)
        ensures
            final(self)@ == old(self)@.with_input(text@),
    {
        let id = self.state.source_id;
        if id == 0 {
            if self.inbuf.is_some() {
                self.inbuf = Some(text);
            }
        } else if 0 < id && (id as usize) <= self.sources.len() {
            let i = id as usize - 1;
            self.sources[i].line = text;
            assert(self@.sources =~= old(self)@.with_input(text@).sources);
        }
    }

    /// Clears the return stack, selects the terminal, empties its buffer,
    /// and leaves compile state.
    pub fn reset(&mut self)
        ensures
            final(self)@ == old(self)@.reset(),
    {
        self.r_stk.reset();
        self.state.source_id = 0;
        if self.inbuf.is_some() {
            self.inbuf = Some(Vec::new());
        }
        self.state.aborted_word_pointer = 0;
        self.state.source_index = 0;
        self.state.is_compiling = false;
    }
}

/// What a machine holds.
#[verifier::ext_equal]
pub struct VmView {
    pub current_task: usize,
    pub task: TaskView,
    pub parked: Seq<TaskView>,
    pub last_error: Option<Exception>,
    pub handler: usize,
    pub words: WordlistView,
    pub mem: DataSpaceView,
    pub token: Seq<u8>,
    pub outbuf: Option<Seq<u8>>,
    pub hold: Seq<u8>,
    pub refs: ForwardReferences,
    pub forward: Set<u32>,
    pub resolved: Set<u32>,
    pub labels: Seq<usize>,
    pub request: Request,
}

/// The virtual machine.
pub struct VM {
    /// Index of the running task.
    pub current_task: usize,
    /// The running task.
    pub task: Task,
    /// The other tasks, each in its slot.
    pub parked: [Task; 5],
    pub last_error: Option<Exception>,
    /// Execution token of the exception handler.
    pub handler: usize,
    pub wordlist: Wordlist,
    pub data_space: DataSpace,
    /// The last token parsed.
    pub tkn: Vec<u8>,
    pub outbuf: Option<Vec<u8>>,
    /// Buffer for numeric output.
    pub hldbuf: Vec<u8>,
    pub references: ForwardReferences,
    /// Labels that are referenced and not yet defined.
    pub forward_bitset: hibitset::BitSet,
    /// Labels that are defined.
    pub resolved_bitset: hibitset::BitSet,
    /// For each label its address, or the head of the chain of references
    /// that wait for it.
    pub labels: Vec<usize>,
    /// What the host is asked to do.
    pub request: Request,
    /// How deep words may still execute words.
    pub depth: usize,
    /// How many steps one call of `run` or `evaluate_input` may take.
    pub limit: usize,
}

impl View for VM {
    type V = VmView;

    open spec fn view(&self) -> VmView {
        VmView {
            current_task: self.current_task,
            task: self.task@,
            parked: self.parked@.map_values(|t: Task| t@),
            last_error: self.last_error,
            handler: self.handler,
            words: self.wordlist@,
            mem: self.data_space@,
            token: self.tkn@,
            outbuf: buffer_view(self.outbuf),
            hold: self.hldbuf@,
            refs: self.references,
            forward: bitset_members(self.forward_bitset),
            resolved: bitset_members(self.resolved_bitset),
            labels: self.labels@,
            request: self.request,
        }
    }
}

impl VmView {
    /// The invariant of the machine: five task slots, a running task among
    /// them, stacks and buckets of full size, a valid data space, and a
    /// label table of full size.
    pub open spec fn wf(self) -> bool {
        &&& self.parked.len() == NUM_TASKS
        &&& self.current_task < NUM_TASKS
        &&& self.task.wf()
        &&& forall|i: int| 0 <= i < self.parked.len() ==> (#[trigger] self.parked[i]).wf()
        &&& self.words.wf()
        &&& self.mem.wf()
        &&& self.labels.len() == LABEL_COUNT
    }

    /// The parameter stack of the running task.
    pub open spec fn s(self) -> StackView<isize> {
        self.task.s
    }

    /// The return stack of the running task.
    pub open spec fn r(self) -> StackView<isize> {
        self.task.r
    }

    /// The control stack of the running task.
    pub open spec fn c(self) -> StackView<Control> {
        self.task.c
    }

    /// The float stack of the running task.
    pub open spec fn f(self) -> StackView<u64> {
        self.task.f
    }

    /// The registers of the running task.
    pub open spec fn st(self) -> State {
        self.task.state
    }

    /// The instruction pointer of the running task.
    pub open spec fn ip(self) -> usize {
        self.task.state.instruction_pointer
    }

    /// The machine with `s` as the parameter stack of the running task.
    pub open spec fn with_s(self, s: StackView<isize>) -> Self {
        VmView { task: TaskView { s, ..self.task }, ..self }
    }

    /// The machine with `r` as the return stack of the running task.
    pub open spec fn with_r(self, r: StackView<isize>) -> Self {
        VmView { task: TaskView { r, ..self.task }, ..self }
    }

    /// The machine with `c` as the control stack of the running task.
    pub open spec fn with_c(self, c: StackView<Control>) -> Self {
        VmView { task: TaskView { c, ..self.task }, ..self }
    }

    /// The machine with `f` as the float stack of the running task.
    pub open spec fn with_f(self, f: StackView<u64>) -> Self {
        VmView { task: TaskView { f, ..self.task }, ..self }
    }

    /// The machine with `state` as the registers of the running task.
    pub open spec fn with_st(self, state: State) -> Self {
        VmView { task: TaskView { state, ..self.task }, ..self }
    }

    /// The machine with the instruction pointer of the running task at `ip`.
    pub open spec fn with_ip(self, ip: usize) -> Self {
        self.with_st(State { instruction_pointer: ip, ..self.task.state })
    }

    /// The machine with `mem` as its data space.
    pub open spec fn with_mem(self, mem: DataSpaceView) -> Self {
        VmView { mem, ..self }
    }

    /// The machine with `words` as its dictionary.
    pub open spec fn with_words(self, words: WordlistView) -> Self {
        VmView { words, ..self }
    }

    /// The machine with `e` as its last error.
    pub open spec fn with_error(self, e: Option<Exception>) -> Self {
        VmView { last_error: e, ..self }
    }

    /// The machine with `v` pushed on the parameter stack.
    pub open spec fn push(self, v: isize) -> Self {
        self.with_s(self.s().push(v))
    }

    /// The machine with `n` cells dropped from the parameter stack.
    pub open spec fn drop_n(self, n: u8) -> Self {
        self.with_s(self.s().drop_n(n))
    }

    /// The machine with `v` pushed on the return stack.
    pub open spec fn rpush(self, v: isize) -> Self {
        self.with_r(self.r().push(v))
    }

    /// The machine with `n` cells dropped from the return stack.
    pub open spec fn rdrop_n(self, n: u8) -> Self {
        self.with_r(self.r().drop_n(n))
    }

    /// The task with the index `i`, wherever it is held.
    pub open spec fn task_at(self, i: int) -> TaskView {
        if i == self.current_task {
            self.task
        } else {
            self.parked[i]
        }
    }

    /// A new machine over the data space `mem`: task 0 runs and owns a
    /// terminal buffer, the dictionary is empty, no error, no label.
    pub open spec fn fresh(mem: DataSpaceView) -> VmView {
        VmView {
            current_task: 0,
            task: TaskView::fresh(Some(Seq::empty())),
            parked: Seq::new(5, |i: int| TaskView::fresh(None)),
            last_error: None,
            handler: 0,
            words: WordlistView {
                words: Seq::empty(),
                buckets: Seq::new(64, |i: int| 0usize),
                temp_buckets: Seq::new(64, |i: int| 0usize),
                last: 0,
            },
            mem,
            token: Seq::empty(),
            outbuf: Some(Seq::empty()),
            hold: Seq::empty(),
            refs: ForwardReferences::unset(),
            forward: Set::empty(),
            resolved: Set::empty(),
            labels: Seq::new(LABEL_COUNT as nat, |i: int| 0usize),
            request: Request::Nothing,
        }
    }
}

impl VM {
    /// The invariant of the machine.
    pub open spec fn wf(&self) -> bool {
        self@.wf()
    }

    /// The machine is valid, has the limits that `pre` had, and holds
    /// `post`.
    pub open spec fn follows(&self, pre: &VM, post: VmView) -> bool {
        self.wf() && self.depth == pre.depth && self.limit == pre.limit && self@ == post
    }

    /// A machine without any word, over the data space `data_space`.
    pub fn bare(data_space: DataSpace) -> (r: VM)
        requires
            data_space.wf(),
        ensures
            r.wf(),
            r.depth == NESTING_LIMIT,
            r.limit == usize::MAX,
            r@ == VmView::fresh(data_space@),
            r@.words.chained(),
    {
        let mut labels: Vec<usize> = Vec::with_capacity(LABEL_COUNT);
        labels.resize(LABEL_COUNT, 0);
        let r = VM {
            current_task: 0,
            task: Task::new_terminal(),
            parked: [
                Task::new_background(),
                Task::new_background(),
                Task::new_background(),
                Task::new_background(),
                Task::new_background(),
            ],
            last_error: None,
            handler: 0,
            wordlist: Wordlist::with_capacity(1000),
            data_space,
            tkn: Vec::with_capacity(64),
            outbuf: Some(Vec::with_capacity(128)),
            hldbuf: Vec::with_capacity(128),
            references: ForwardReferences::new(),
            forward_bitset: bitset_with_capacity(LABEL_COUNT as u32),
            resolved_bitset: bitset_with_capacity(LABEL_COUNT as u32),
            labels,
            request: Request::Nothing,
            depth: NESTING_LIMIT,
            limit: usize::MAX,
        };
        assert(r@.parked =~= Seq::new(5, |i: int| TaskView::fresh(None)));
        assert(r@.labels =~= Seq::new(LABEL_COUNT as nat, |i: int| 0usize));
        assert(r@.words.words =~= Seq::empty());
        r
    }
}

} // verus!
