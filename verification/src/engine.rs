//! The machine as a whole: its construction with the core words, the inner
//! and outer interpreter loops, and what a host needs to drive it.
use crate::dictionary::{Action, Semantics, Word, Wordlist};
use crate::exception::Exception;
use crate::memory::{DataSpace, DataSpaceView, BASE_ADDR, SYSTEM_VARIABLES_SIZE};
use crate::stack::{Control, Stack};
use crate::vm::{ForwardReferences, Request, State, Task, VmView, VM};
use vstd::prelude::*;
use vstd::slice::slice_to_vec;
use vstd::string::*;
use vstd::utf8::{decode_utf8, valid_utf8};

verus! {

/// `String::from_utf8`: the string that the bytes spell in UTF-8, or
/// nothing where they are not valid UTF-8.
#[verifier::external_body]
fn string_from_utf8(v: Vec<u8>) -> (r: Option<String>)
    ensures
        r.is_some() == valid_utf8(v@),
        r.is_some() ==> r.unwrap()@ == decode_utf8(v@),
{
    String::from_utf8(v).ok()
}

/// The text that the bytes spell, where they are valid UTF-8.
pub fn text_of(bytes: &[u8]) -> (r: Option<String>)
    ensures
        r.is_some() == valid_utf8(bytes@),
        r.is_some() ==> r.unwrap()@ == decode_utf8(bytes@),
{
    string_from_utf8(slice_to_vec(bytes))
}

impl VmView {
    /// The execution token that `name` finds, or 0 where it finds none.
    pub open spec fn found(self, name: Seq<u8>) -> usize {
        match self.find(name) {
            Some(xt) => xt,
            None => 0,
        }
    }

    /// The machine with the run-time words that compiled code refers to added.
    #[verifier::opaque]
    pub open spec fn run_time_words(self) -> Self {
        self.add_primitive("".spec_bytes(), Action::Noop).add_primitive("noop".spec_bytes(), Action::Noop).add_compile_only("exit".spec_bytes(), Action::Exit).add_compile_only("lit".spec_bytes(), Action::Lit).add_compile_only("flit".spec_bytes(), Action::Flit).add_compile_only("_s\"".spec_bytes(), Action::SQuote).add_compile_only("branch".spec_bytes(), Action::Branch).add_compile_only("0branch".spec_bytes(), Action::ZeroBranch).add_compile_only("_do".spec_bytes(), Action::RunDo).add_compile_only("_qdo".spec_bytes(), Action::RunQdo).add_compile_only("_loop".spec_bytes(), Action::RunLoop).add_compile_only("_+loop".spec_bytes(), Action::RunPlusLoop).add_compile_only("unloop".spec_bytes(), Action::Unloop).add_compile_only("leave".spec_bytes(), Action::Leave).add_compile_only("i".spec_bytes(), Action::I).add_compile_only("j".spec_bytes(), Action::J).add_compile_only(">r".spec_bytes(), Action::ToR).add_compile_only("r>".spec_bytes(), Action::RFrom).add_compile_only("r@".spec_bytes(), Action::RFetch).add_compile_only("2>r".spec_bytes(), Action::TwoToR).add_compile_only("2r>".spec_bytes(), Action::TwoRFrom).add_compile_only("2r@".spec_bytes(), Action::TwoRFetch).add_compile_only("compile,".spec_bytes(), Action::CompileComma).add_compile_only("_postpone".spec_bytes(), Action::RunPostpone).add_compile_only("_does".spec_bytes(), Action::RunDoes)
    }

    /// The machine with the words for the stacks, arithmetic and memory added.
    #[verifier::opaque]
    pub open spec fn stack_and_memory_words(self) -> Self {
        self.add_primitive("execute".spec_bytes(), Action::Execute).add_primitive("dup".spec_bytes(), Action::Dup).add_primitive("drop".spec_bytes(), Action::Drop).add_primitive("swap".spec_bytes(), Action::Swap).add_primitive("over".spec_bytes(), Action::Over).add_primitive("nip".spec_bytes(), Action::Nip).add_primitive("depth".spec_bytes(), Action::Depth).add_primitive("?stacks".spec_bytes(), Action::CheckStacks).add_primitive("0<".spec_bytes(), Action::ZeroLess).add_primitive("=".spec_bytes(), Action::Equals).add_primitive("<".spec_bytes(), Action::LessThan).add_primitive("invert".spec_bytes(), Action::Invert).add_primitive("and".spec_bytes(), Action::And).add_primitive("or".spec_bytes(), Action::Or).add_primitive("xor".spec_bytes(), Action::Xor).add_primitive("lshift".spec_bytes(), Action::Lshift).add_primitive("rshift".spec_bytes(), Action::Rshift).add_primitive("1+".spec_bytes(), Action::OnePlus).add_primitive("1-".spec_bytes(), Action::OneMinus).add_primitive("-".spec_bytes(), Action::Minus).add_primitive("+".spec_bytes(), Action::Plus).add_primitive("*".spec_bytes(), Action::Star).add_primitive("/mod".spec_bytes(), Action::SlashMod).add_primitive("cell+".spec_bytes(), Action::CellPlus).add_primitive("cells".spec_bytes(), Action::Cells).add_primitive("@".spec_bytes(), Action::Fetch).add_primitive("!".spec_bytes(), Action::Store).add_primitive("char+".spec_bytes(), Action::CharPlus).add_primitive("here".spec_bytes(), Action::Here).add_primitive("allot".spec_bytes(), Action::Allot).add_primitive("aligned".spec_bytes(), Action::Aligned).add_primitive("align".spec_bytes(), Action::Align).add_primitive("c@".spec_bytes(), Action::CFetch).add_primitive("c!".spec_bytes(), Action::CStore).add_primitive("move".spec_bytes(), Action::Move).add_primitive("base".spec_bytes(), Action::Base).add_primitive("immediate".spec_bytes(), Action::Immediate).add_primitive("compile-only".spec_bytes(), Action::CompileOnly)
    }

    /// The machine with the immediate words of the compiler added.
    #[verifier::opaque]
    pub open spec fn compiling_words(self) -> Self {
        self.add_immediate("(".spec_bytes(), Action::Paren).add_immediate("\\".spec_bytes(), Action::Backslash).add_immediate("[".spec_bytes(), Action::LeftBracket).add_immediate_and_compile_only("[']".spec_bytes(), Action::BracketTick).add_immediate_and_compile_only("[char]".spec_bytes(), Action::BracketChar).add_immediate_and_compile_only(";".spec_bytes(), Action::Semicolon).add_immediate_and_compile_only("if".spec_bytes(), Action::If).add_immediate_and_compile_only("else".spec_bytes(), Action::Else).add_immediate_and_compile_only("then".spec_bytes(), Action::Then).add_immediate_and_compile_only("case".spec_bytes(), Action::Case).add_immediate_and_compile_only("of".spec_bytes(), Action::Of).add_immediate_and_compile_only("endof".spec_bytes(), Action::Endof).add_immediate_and_compile_only("endcase".spec_bytes(), Action::Endcase).add_immediate_and_compile_only("begin".spec_bytes(), Action::Begin).add_immediate_and_compile_only("while".spec_bytes(), Action::While).add_immediate_and_compile_only("repeat".spec_bytes(), Action::Repeat).add_immediate_and_compile_only("until".spec_bytes(), Action::Until).add_immediate_and_compile_only("again".spec_bytes(), Action::Again).add_immediate("0labels".spec_bytes(), Action::ClearLabels).add_immediate_and_compile_only("label".spec_bytes(), Action::Label).add_immediate_and_compile_only("goto".spec_bytes(), Action::Goto).add_immediate_and_compile_only("call".spec_bytes(), Action::Call).add_immediate_and_compile_only("recurse".spec_bytes(), Action::Recurse).add_immediate_and_compile_only("do".spec_bytes(), Action::Do).add_immediate_and_compile_only("?do".spec_bytes(), Action::Qdo).add_immediate_and_compile_only("loop".spec_bytes(), Action::Loop).add_immediate_and_compile_only("+loop".spec_bytes(), Action::PlusLoop).add_immediate_and_compile_only("postpone".spec_bytes(), Action::Postpone).add_immediate_and_compile_only("does>".spec_bytes(), Action::Does)
    }

    /// The machine with more words for the stacks and arithmetic, and the tokenizer added.
    #[verifier::opaque]
    pub open spec fn more_stack_words(self) -> Self {
        self.add_primitive("true".spec_bytes(), Action::True).add_primitive("false".spec_bytes(), Action::False).add_primitive("not".spec_bytes(), Action::ZeroEquals).add_primitive("0=".spec_bytes(), Action::ZeroEquals).add_primitive("0>".spec_bytes(), Action::ZeroGreater).add_primitive("0<>".spec_bytes(), Action::ZeroNotEquals).add_primitive(">".spec_bytes(), Action::GreaterThan).add_primitive("<>".spec_bytes(), Action::NotEquals).add_primitive("within".spec_bytes(), Action::Within).add_primitive("rot".spec_bytes(), Action::Rot).add_primitive("-rot".spec_bytes(), Action::MinusRot).add_primitive("pick".spec_bytes(), Action::Pick).add_primitive("2dup".spec_bytes(), Action::TwoDup).add_primitive("2drop".spec_bytes(), Action::TwoDrop).add_primitive("2swap".spec_bytes(), Action::TwoSwap).add_primitive("2over".spec_bytes(), Action::TwoOver).add_primitive("/".spec_bytes(), Action::Slash).add_primitive("mod".spec_bytes(), Action::Mod).add_primitive("abs".spec_bytes(), Action::Abs).add_primitive("negate".spec_bytes(), Action::Negate).add_primitive("parse-word".spec_bytes(), Action::ParseWord).add_primitive("char".spec_bytes(), Action::Char).add_primitive("_skip".spec_bytes(), Action::Skip).add_primitive("parse".spec_bytes(), Action::Parse)
    }

    /// The machine with the defining words and the words of the outer interpreter added.
    #[verifier::opaque]
    pub open spec fn defining_words(self) -> Self {
        self.add_primitive(":".spec_bytes(), Action::Colon).add_primitive("constant".spec_bytes(), Action::Constant).add_primitive("create".spec_bytes(), Action::Create).add_primitive("'".spec_bytes(), Action::Tick).add_primitive(">body".spec_bytes(), Action::ToBody).add_primitive(">name".spec_bytes(), Action::ToName).add_primitive("]".spec_bytes(), Action::RightBracket).add_primitive(",".spec_bytes(), Action::Comma).add_primitive("marker".spec_bytes(), Action::Marker).add_primitive("handler!".spec_bytes(), Action::HandlerStore).add_primitive("error".spec_bytes(), Action::Error).add_primitive(".error".spec_bytes(), Action::DotError).add_primitive("0error".spec_bytes(), Action::ClearError).add_primitive("0stacks".spec_bytes(), Action::ClearStacks).add_primitive("reset".spec_bytes(), Action::Reset).add_primitive("abort".spec_bytes(), Action::Abort).add_primitive("compiling?".spec_bytes(), Action::Compiling).add_primitive("token-empty?".spec_bytes(), Action::TokenEmpty).add_primitive(".token".spec_bytes(), Action::DotToken).add_primitive("!token".spec_bytes(), Action::StoreToken).add_primitive("compile-token".spec_bytes(), Action::CompileToken).add_primitive("interpret-token".spec_bytes(), Action::InterpretToken).add_primitive("source-id".spec_bytes(), Action::SourceId).add_primitive("source-id!".spec_bytes(), Action::SetSourceId).add_primitive("source-idx".spec_bytes(), Action::SourceIdx).add_primitive("source-idx!".spec_bytes(), Action::SetSourceIdx).add_primitive("bye".spec_bytes(), Action::Bye)
    }

    /// The machine with the words of the multitasker added.
    #[verifier::opaque]
    pub open spec fn task_words(self) -> Self {
        self.add_compile_only("pause".spec_bytes(), Action::Pause).add_compile_only("activate".spec_bytes(), Action::Activate).add_primitive("me".spec_bytes(), Action::Me).add_primitive("suspend".spec_bytes(), Action::Suspend).add_primitive("resume".spec_bytes(), Action::Resume)
    }

    /// The machine with the references to the words that the compiler
    /// emits by itself looked up in the dictionary.
    #[verifier::opaque]
    pub open spec fn with_references(self) -> Self {
        VmView {
            refs: ForwardReferences {
                idx_lit: self.found("lit".spec_bytes()),
                idx_flit: self.found("flit".spec_bytes()),
                idx_exit: self.found("exit".spec_bytes()),
                idx_zero_branch: self.found("0branch".spec_bytes()),
                idx_branch: self.found("branch".spec_bytes()),
                idx_do: self.found("_do".spec_bytes()),
                idx_qdo: self.found("_qdo".spec_bytes()),
                idx_loop: self.found("_loop".spec_bytes()),
                idx_plus_loop: self.found("_+loop".spec_bytes()),
                idx_over: self.found("over".spec_bytes()),
                idx_equal: self.found("=".spec_bytes()),
                idx_drop: self.found("drop".spec_bytes()),
                idx__postpone: self.found("_postpone".spec_bytes()),
                idx_to_r: self.found(">r".spec_bytes()),
                idx__does: self.found("_does".spec_bytes()),
                ..self.refs
            },
            ..self
        }
    }

    /// The machine with `leave` compiled by its own rule.
    #[verifier::opaque]
    pub open spec fn patch_compilation_semanticses(self) -> Self {
        let idx = self.found("leave".spec_bytes()) as int;
        if self.has_word(idx) {
            self.with_word(
                idx,
                Word { compilation_semantics: Semantics::Leave, ..self.words.words[idx] },
            )
        } else {
            self
        }
    }

    /// The machine with the core words added, the compiler's references
    /// set, and task 0 awake.
    pub open spec fn add_core(self) -> Self {
        self.run_time_words().stack_and_memory_words().compiling_words().more_stack_words().defining_words().with_references().patch_compilation_semanticses().task_words().set_awake(
            0,
            true,
        )
    }

    /// Is there nothing that the host has to do first?
    pub open spec fn idle(self) -> bool {
        self.request == Request::Nothing
    }

    /// Can the inner interpreter take a step: no request is open, and the
    /// instruction pointer lies on a cell of data space?
    pub open spec fn running(self) -> bool {
        self.idle() && self.mem.has_cell(self.ip() as int)
    }

    /// One step of the inner interpreter: fetch the execution token at
    /// the instruction pointer, advance, and execute the word.
    pub open spec fn step(self, d: nat) -> Self {
        self.with_ip((self.ip() + 8) as usize).execute_word(self.mem.ucell(self.ip() as int), d)
    }

    /// The machine after the inner interpreter ran for at most `n` steps:
    /// it stops when the instruction pointer leaves data space or a request
    /// to the host is open.
    pub open spec fn run(self, d: nat, n: nat) -> Self
        decreases n,
    {
        if n == 0 || !self.running() {
            self
        } else {
            self.step(d).run(d, (n - 1) as nat)
        }
    }

    /// The machine after the next token of the input was taken: compiled
    /// in compile state, interpreted otherwise.
    pub open spec fn take_token(self, d: nat) -> Self {
        if self.st().is_compiling {
            self.compile_token(d)
        } else {
            self.interpret_token(d)
        }
    }

    /// Does the outer interpreter stop here: with an error, or with a
    /// request to the host?
    pub open spec fn stopped(self) -> bool {
        self.last_error.is_some() || !self.idle()
    }

    /// The machine after the outer interpreter evaluated the input, at
    /// most `n` tokens of it, the inner interpreter running for at most
    /// `limit` steps after each. It stops at the end of the input, at the
    /// first error, and when a request to the host is open.
    pub open spec fn evaluate_input(self, d: nat, limit: nat, n: nat) -> Self
        decreases n,
    {
        let a = self.parse_word();
        if n == 0 {
            self
        } else if a.token.len() == 0 {
            a
        } else {
            let b = a.take_token(d);
            if b.stopped() {
                b
            } else {
                let c = b.run(d, limit).check_stacks(d);
                if c.stopped() {
                    c
                } else {
                    c.evaluate_input(d, limit, (n - 1) as nat)
                }
            }
        }
    }

    /// The machine after the host handed over the value of the float
    /// literal that it was asked for: the value is compiled in compile
    /// state and pushed on the float stack otherwise. Without such a
    /// request nothing changes.
    pub open spec fn accept_float(self, bits: u64, d: nat) -> Self {
        match self.request {
            Request::Float(_) => {
                let vm = VmView { request: Request::Nothing, ..self };
                if vm.st().is_compiling {
                    vm.compile_float(bits, d)
                } else {
                    vm.with_f(vm.f().push(bits))
                }
            },
            _ => self,
        }
    }
}

impl VM {
    /// The execution token that `name` finds, or 0 where it finds none.
    pub fn lookup(&self, name: &str) -> (r: usize)
        requires
            self.wf(),
        ensures
            r == self@.found(name.spec_bytes()),
    {
        match self.find(name) {
            Some(xt) => xt,
            None => 0,
        }
    }

    /// Adds the run-time words that compiled code refers to.
    pub fn run_time_words(&mut self)
        requires
            old(self).wf(),
        ensures
            final(self).follows(old(self), old(self)@.run_time_words()),
            old(self)@.words.chained() ==> final(self)@.words.chained(),
    {
        reveal(VmView::run_time_words);
        self.add_primitive("", Action::Noop);
        self.add_primitive("noop", Action::Noop);
        self.add_compile_only("exit", Action::Exit);
        self.add_compile_only("lit", Action::Lit);
        self.add_compile_only("flit", Action::Flit);
        self.add_compile_only("_s\"", Action::SQuote);
        self.add_compile_only("branch", Action::Branch);
        self.add_compile_only("0branch", Action::ZeroBranch);
        self.add_compile_only("_do", Action::RunDo);
        self.add_compile_only("_qdo", Action::RunQdo);
        self.add_compile_only("_loop", Action::RunLoop);
        self.add_compile_only("_+loop", Action::RunPlusLoop);
        self.add_compile_only("unloop", Action::Unloop);
        self.add_compile_only("leave", Action::Leave);
        self.add_compile_only("i", Action::I);
        self.add_compile_only("j", Action::J);
        self.add_compile_only(">r", Action::ToR);
        self.add_compile_only("r>", Action::RFrom);
        self.add_compile_only("r@", Action::RFetch);
        self.add_compile_only("2>r", Action::TwoToR);
        self.add_compile_only("2r>", Action::TwoRFrom);
        self.add_compile_only("2r@", Action::TwoRFetch);
        self.add_compile_only("compile,", Action::CompileComma);
        self.add_compile_only("_postpone", Action::RunPostpone);
        self.add_compile_only("_does", Action::RunDoes);
    }

    /// Adds the words for the stacks, arithmetic and memory.
    pub fn stack_and_memory_words(&mut self)
        requires
            old(self).wf(),
        ensures
            final(self).follows(old(self), old(self)@.stack_and_memory_words()),
            old(self)@.words.chained() ==> final(self)@.words.chained(),
    {
        reveal(VmView::stack_and_memory_words);
        self.add_primitive("execute", Action::Execute);
        self.add_primitive("dup", Action::Dup);
        self.add_primitive("drop", Action::Drop);
        self.add_primitive("swap", Action::Swap);
        self.add_primitive("over", Action::Over);
        self.add_primitive("nip", Action::Nip);
        self.add_primitive("depth", Action::Depth);
        self.add_primitive("?stacks", Action::CheckStacks);
        self.add_primitive("0<", Action::ZeroLess);
        self.add_primitive("=", Action::Equals);
        self.add_primitive("<", Action::LessThan);
        self.add_primitive("invert", Action::Invert);
        self.add_primitive("and", Action::And);
        self.add_primitive("or", Action::Or);
        self.add_primitive("xor", Action::Xor);
        self.add_primitive("lshift", Action::Lshift);
        self.add_primitive("rshift", Action::Rshift);
        self.add_primitive("1+", Action::OnePlus);
        self.add_primitive("1-", Action::OneMinus);
        self.add_primitive("-", Action::Minus);
        self.add_primitive("+", Action::Plus);
        self.add_primitive("*", Action::Star);
        self.add_primitive("/mod", Action::SlashMod);
        self.add_primitive("cell+", Action::CellPlus);
        self.add_primitive("cells", Action::Cells);
        self.add_primitive("@", Action::Fetch);
        self.add_primitive("!", Action::Store);
        self.add_primitive("char+", Action::CharPlus);
        self.add_primitive("here", Action::Here);
        self.add_primitive("allot", Action::Allot);
        self.add_primitive("aligned", Action::Aligned);
        self.add_primitive("align", Action::Align);
        self.add_primitive("c@", Action::CFetch);
        self.add_primitive("c!", Action::CStore);
        self.add_primitive("move", Action::Move);
        self.add_primitive("base", Action::Base);
        self.add_primitive("immediate", Action::Immediate);
        self.add_primitive("compile-only", Action::CompileOnly);
    }

    /// Adds the immediate words of the compiler.
    pub fn compiling_words(&mut self)
        requires
            old(self).wf(),
        ensures
            final(self).follows(old(self), old(self)@.compiling_words()),
            old(self)@.words.chained() ==> final(self)@.words.chained(),
    {
        reveal(VmView::compiling_words);
        self.add_immediate("(", Action::Paren);
        self.add_immediate("\\", Action::Backslash);
        self.add_immediate("[", Action::LeftBracket);
        self.add_immediate_and_compile_only("[']", Action::BracketTick);
        self.add_immediate_and_compile_only("[char]", Action::BracketChar);
        self.add_immediate_and_compile_only(";", Action::Semicolon);
        self.add_immediate_and_compile_only("if", Action::If);
        self.add_immediate_and_compile_only("else", Action::Else);
        self.add_immediate_and_compile_only("then", Action::Then);
        self.add_immediate_and_compile_only("case", Action::Case);
        self.add_immediate_and_compile_only("of", Action::Of);
        self.add_immediate_and_compile_only("endof", Action::Endof);
        self.add_immediate_and_compile_only("endcase", Action::Endcase);
        self.add_immediate_and_compile_only("begin", Action::Begin);
        self.add_immediate_and_compile_only("while", Action::While);
        self.add_immediate_and_compile_only("repeat", Action::Repeat);
        self.add_immediate_and_compile_only("until", Action::Until);
        self.add_immediate_and_compile_only("again", Action::Again);
        self.add_immediate("0labels", Action::ClearLabels);
        self.add_immediate_and_compile_only("label", Action::Label);
        self.add_immediate_and_compile_only("goto", Action::Goto);
        self.add_immediate_and_compile_only("call", Action::Call);
        self.add_immediate_and_compile_only("recurse", Action::Recurse);
        self.add_immediate_and_compile_only("do", Action::Do);
        self.add_immediate_and_compile_only("?do", Action::Qdo);
        self.add_immediate_and_compile_only("loop", Action::Loop);
        self.add_immediate_and_compile_only("+loop", Action::PlusLoop);
        self.add_immediate_and_compile_only("postpone", Action::Postpone);
        self.add_immediate_and_compile_only("does>", Action::Does);
    }

    /// Adds more words for the stacks and arithmetic, and the tokenizer.
    pub fn more_stack_words(&mut self)
        requires
            old(self).wf(),
        ensures
            final(self).follows(old(self), old(self)@.more_stack_words()),
            old(self)@.words.chained() ==> final(self)@.words.chained(),
    {
        reveal(VmView::more_stack_words);
        self.add_primitive("true", Action::True);
        self.add_primitive("false", Action::False);
        self.add_primitive("not", Action::ZeroEquals);
        self.add_primitive("0=", Action::ZeroEquals);
        self.add_primitive("0>", Action::ZeroGreater);
        self.add_primitive("0<>", Action::ZeroNotEquals);
        self.add_primitive(">", Action::GreaterThan);
        self.add_primitive("<>", Action::NotEquals);
        self.add_primitive("within", Action::Within);
        self.add_primitive("rot", Action::Rot);
        self.add_primitive("-rot", Action::MinusRot);
        self.add_primitive("pick", Action::Pick);
        self.add_primitive("2dup", Action::TwoDup);
        self.add_primitive("2drop", Action::TwoDrop);
        self.add_primitive("2swap", Action::TwoSwap);
        self.add_primitive("2over", Action::TwoOver);
        self.add_primitive("/", Action::Slash);
        self.add_primitive("mod", Action::Mod);
        self.add_primitive("abs", Action::Abs);
        self.add_primitive("negate", Action::Negate);
        self.add_primitive("parse-word", Action::ParseWord);
        self.add_primitive("char", Action::Char);
        self.add_primitive("_skip", Action::Skip);
        self.add_primitive("parse", Action::Parse);
    }

    /// Adds the defining words and the words of the outer interpreter.
    pub fn defining_words(&mut self)
        requires
            old(self).wf(),
        ensures
            final(self).follows(old(self), old(self)@.defining_words()),
            old(self)@.words.chained() ==> final(self)@.words.chained(),
    {
        reveal(VmView::defining_words);
        self.add_primitive(":", Action::Colon);
        self.add_primitive("constant", Action::Constant);
        self.add_primitive("create", Action::Create);
        self.add_primitive("'", Action::Tick);
        self.add_primitive(">body", Action::ToBody);
        self.add_primitive(">name", Action::ToName);
        self.add_primitive("]", Action::RightBracket);
        self.add_primitive(",", Action::Comma);
        self.add_primitive("marker", Action::Marker);
        self.add_primitive("handler!", Action::HandlerStore);
        self.add_primitive("error", Action::Error);
        self.add_primitive(".error", Action::DotError);
        self.add_primitive("0error", Action::ClearError);
        self.add_primitive("0stacks", Action::ClearStacks);
        self.add_primitive("reset", Action::Reset);
        self.add_primitive("abort", Action::Abort);
        self.add_primitive("compiling?", Action::Compiling);
        self.add_primitive("token-empty?", Action::TokenEmpty);
        self.add_primitive(".token", Action::DotToken);
        self.add_primitive("!token", Action::StoreToken);
        self.add_primitive("compile-token", Action::CompileToken);
        self.add_primitive("interpret-token", Action::InterpretToken);
        self.add_primitive("source-id", Action::SourceId);
        self.add_primitive("source-id!", Action::SetSourceId);
        self.add_primitive("source-idx", Action::SourceIdx);
        self.add_primitive("source-idx!", Action::SetSourceIdx);
        self.add_primitive("bye", Action::Bye);
    }

    /// Adds the words of the multitasker.
    pub fn task_words(&mut self)
        requires
            old(self).wf(),
        ensures
            final(self).follows(old(self), old(self)@.task_words()),
            old(self)@.words.chained() ==> final(self)@.words.chained(),
    {
        reveal(VmView::task_words);
        self.add_compile_only("pause", Action::Pause);
        self.add_compile_only("activate", Action::Activate);
        self.add_primitive("me", Action::Me);
        self.add_primitive("suspend", Action::Suspend);
        self.add_primitive("resume", Action::Resume);
    }

    /// Looks up the words that the compiler emits by itself.
    pub fn set_references(&mut self)
        requires
            old(self).wf(),
        ensures
            final(self).follows(old(self), old(self)@.with_references()),
            old(self)@.words.chained() ==> final(self)@.words.chained(),
    {
        reveal(VmView::with_references);
        let idx_lit = self.lookup("lit");
        let idx_flit = self.lookup("flit");
        let idx_exit = self.lookup("exit");
        let idx_zero_branch = self.lookup("0branch");
        let idx_branch = self.lookup("branch");
        let idx_do = self.lookup("_do");
        let idx_qdo = self.lookup("_qdo");
        let idx_loop = self.lookup("_loop");
        let idx_plus_loop = self.lookup("_+loop");
        let idx_over = self.lookup("over");
        let idx_equal = self.lookup("=");
        let idx_drop = self.lookup("drop");
        let idx__postpone = self.lookup("_postpone");
        let idx_to_r = self.lookup(">r");
        let idx__does = self.lookup("_does");
        self.references.idx_lit = idx_lit;
        self.references.idx_flit = idx_flit;
        self.references.idx_exit = idx_exit;
        self.references.idx_zero_branch = idx_zero_branch;
        self.references.idx_branch = idx_branch;
        self.references.idx_do = idx_do;
        self.references.idx_qdo = idx_qdo;
        self.references.idx_loop = idx_loop;
        self.references.idx_plus_loop = idx_plus_loop;
        self.references.idx_over = idx_over;
        self.references.idx_equal = idx_equal;
        self.references.idx_drop = idx_drop;
        self.references.idx__postpone = idx__postpone;
        self.references.idx_to_r = idx_to_r;
        self.references.idx__does = idx__does;
    }

    /// Lets `leave` be compiled by its own rule.
    pub fn patch_compilation_semanticses(&mut self)
        requires
            old(self).wf(),
        ensures
            final(self).follows(old(self), old(self)@.patch_compilation_semanticses()),
            old(self)@.words.chained() ==> final(self)@.words.chained(),
    {
        reveal(VmView::patch_compilation_semanticses);
        let idx_leave = self.lookup("leave");
        if idx_leave < self.wordlist.len() {
            let mut w = self.wordlist.get(idx_leave);
            w.compilation_semantics = Semantics::Leave;
            self.wordlist.set(idx_leave, w);
        }
    }

    /// Adds the core words to the machine.
    pub fn add_core(&mut self)
        requires
            old(self).wf(),
        ensures
            final(self).follows(old(self), old(self)@.add_core()),
            old(self)@.words.chained() ==> final(self)@.words.chained(),
    {
        self.run_time_words();
        self.stack_and_memory_words();
        self.compiling_words();
        self.more_stack_words();
        self.defining_words();
        self.set_references();
        self.patch_compilation_semanticses();
        self.task_words();
        self.set_awake(0, true);
    }

    /// A machine with the core words and a data space of `cap` bytes.
    pub fn with_capacity(cap: usize) -> (r: VM)
        requires
            cap >= SYSTEM_VARIABLES_SIZE,
            BASE_ADDR + cap <= isize::MAX,
        ensures
            r.wf(),
            r@ == VmView::fresh(DataSpaceView::fresh(cap as int)).add_core(),
            r@.words.chained(),
    {
        let mut vm = VM::bare(DataSpace::with_capacity(cap));
        vm.add_core();
        vm
    }

    /// A machine with the core words and a data space of `data_pages`
    /// memory pages of the host, or `None` where that many pages cannot
    /// serve as a data space.
    pub fn new(data_pages: usize) -> (r: Option<VM>)
        ensures
            r.is_some() ==> r.unwrap().wf() && exists|page: usize|
                r.unwrap()@ == VmView::fresh(
                    #[trigger] DataSpaceView::paged(data_pages, page),
                ).add_core(),
            r.is_some() ==> r.unwrap()@.words.chained(),
    {
        match DataSpace::new(data_pages) {
            Some(data_space) => {
                let ghost page = choose|page: usize|
                    data_space@ == #[trigger] DataSpaceView::paged(data_pages, page);
                let mut vm = VM::bare(data_space);
                vm.add_core();
                assert(vm@ == VmView::fresh(DataSpaceView::paged(data_pages, page)).add_core());
                Some(vm)
            },
            None => None,
        }
    }

    /// Is a request to the host open?
    pub fn pending(&self) -> (r: bool)
        ensures
            r == !self@.idle(),
    {
        match self.request {
            Request::Nothing => false,
            _ => true,
        }
    }

    /// Can the inner interpreter take a step?
    pub fn is_running(&self) -> (r: bool)
        requires
            self.wf(),
        ensures
            r == self@.running(),
    {
        !self.pending() && self.data_space.has_range(self.task.state.instruction_pointer, 8)
    }

    /// Executes one step of the inner interpreter, if it can take one, and
    /// tells whether it did.
    pub fn forth(&mut self) -> (r: bool)
        requires
            old(self).wf(),
        ensures
            r == old(self)@.running(),
            final(self).follows(
                old(self),
                if r {
                    old(self)@.step(old(self).depth as nat)
                } else {
                    old(self)@
                },
            ),
    {
        if self.is_running() {
            let ip = self.task.state.instruction_pointer;
            let w = self.data_space.get_usize(ip);
            self.task.state.instruction_pointer = ip + 8;
            self.execute_word(w);
            true
        } else {
            false
        }
    }

    /// Runs the compiled program at the instruction pointer until the
    /// instruction pointer leaves data space, a request to the host is
    /// open, or the step limit is reached.
    pub fn run(&mut self)
        requires
            old(self).wf(),
        ensures
            final(self).follows(
                old(self),
                old(self)@.run(old(self).depth as nat, old(self).limit as nat),
            ),
    {
        let mut steps = self.limit;
        while steps > 0 && self.is_running()
            invariant
                self.wf(),
                self.depth == old(self).depth,
                self.limit == old(self).limit,
                old(self)@.run(old(self).depth as nat, old(self).limit as nat) == self@.run(
                    self.depth as nat,
                    steps as nat,
                ),
            decreases steps,
        {
            let _ = self.forth();
            steps -= 1;
        }
    }

    /// Compiles the last token in compile state and interprets it
    /// otherwise.
    pub fn take_token(&mut self)
        requires
            old(self).wf(),
        ensures
            final(self).follows(old(self), old(self)@.take_token(old(self).depth as nat)),
    {
        if self.task.state.is_compiling {
            self.compile_token();
        } else {
            self.interpret_token();
        }
    }

    /// Has the outer interpreter to stop here?
    pub fn stopped(&self) -> (r: bool)
        ensures
            r == self@.stopped(),
    {
        self.last_error.is_some() || self.pending()
    }

    /// Evaluates the input of the running task, token by token.
    pub fn evaluate_input(&mut self)
        requires
            old(self).wf(),
        ensures
            final(self).follows(
                old(self),
                old(self)@.evaluate_input(
                    old(self).depth as nat,
                    old(self).limit as nat,
                    old(self).limit as nat,
                ),
            ),
    {
        let mut budget = self.limit;
        loop
            invariant
                self.wf(),
                self.depth == old(self).depth,
                self.limit == old(self).limit,
                old(self)@.evaluate_input(
                    old(self).depth as nat,
                    old(self).limit as nat,
                    old(self).limit as nat,
                ) == self@.evaluate_input(self.depth as nat, self.limit as nat, budget as nat),
            decreases budget,
        {
            if budget == 0 {
                return ;
            }
            self.parse_word();
            if self.tkn.len() == 0 {
                return ;
            }
            self.take_token();
            if self.stopped() {
                return ;
            }
            self.run();
            self.check_stacks();
            if self.stopped() {
                return ;
            }
            budget -= 1;
        }
    }

    /// What the host is asked to do.
    pub fn request(&self) -> (r: Request)
        ensures
            r == self@.request,
    {
        self.request
    }

    /// Tells the machine that the host has done what it was asked for.
    pub fn complete_request(&mut self)
        requires
            old(self).wf(),
        ensures
            final(self).follows(old(self), (VmView { request: Request::Nothing, ..old(self)@ })),
    {
        self.request = Request::Nothing;
    }

    /// Hands over the value, as its bit pattern, of the float literal
    /// that the host was asked for.
    pub fn accept_float(&mut self, bits: u64)
        requires
            old(self).wf(),
        ensures
            final(self).follows(old(self), old(self)@.accept_float(bits, old(self).depth as nat)),
    {
        match self.request {
            Request::Float(_) => {
                self.request = Request::Nothing;
                if self.task.state.is_compiling {
                    self.compile_float(bits);
                } else {
                    self.task.f_stk.push(bits);
                }
            },
            _ => {},
        }
    }

    /// Sets how deep words may execute words.
    pub fn set_nesting_limit(&mut self, depth: usize)
        ensures
            *final(self) == (VM { depth, ..*old(self) }),
    {
        self.depth = depth;
    }

    /// Sets how many steps one call of `run` or `evaluate_input` may take.
    pub fn set_step_limit(&mut self, limit: usize)
        ensures
            *final(self) == (VM { limit, ..*old(self) }),
    {
        self.limit = limit;
    }

    /// The error that was raised last, if it was not cleared since.
    pub fn last_error(&self) -> (r: Option<Exception>)
        ensures
            r == self@.last_error,
    {
        self.last_error
    }

    /// Records or clears the last error.
    pub fn set_error(&mut self, e: Option<Exception>)
        ensures
            *final(self) == (VM { last_error: e, ..*old(self) }),
    {
        self.last_error = e;
    }

    /// Execution token of the exception handler.
    pub fn handler(&self) -> (r: usize)
        ensures
            r == self@.handler,
    {
        self.handler
    }

    /// Sets the execution token of the exception handler.
    pub fn set_handler(&mut self, h: usize)
        ensures
            *final(self) == (VM { handler: h, ..*old(self) }),
    {
        self.handler = h;
    }

    /// Number of the source that the running task reads from.
    pub fn source_id(&self) -> (r: isize)
        ensures
            r == self@.st().source_id,
    {
        self.task.state.source_id
    }

    /// The parameter stack of the running task.
    pub fn s_stack(&mut self) -> (r: &mut Stack<isize>)
        ensures
            *r == old(self).task.s_stk,
            *final(self) == (VM {
                task: Task { s_stk: *final(r), ..old(self).task },
                ..*old(self)
            }),
    {
        &mut self.task.s_stk
    }

    /// The return stack of the running task.
    pub fn r_stack(&mut self) -> (r: &mut Stack<isize>)
        ensures
            *r == old(self).task.r_stk,
            *final(self) == (VM {
                task: Task { r_stk: *final(r), ..old(self).task },
                ..*old(self)
            }),
    {
        &mut self.task.r_stk
    }

    /// The control stack of the running task.
    pub fn c_stack(&mut self) -> (r: &mut Stack<Control>)
        ensures
            *r == old(self).task.c_stk,
            *final(self) == (VM {
                task: Task { c_stk: *final(r), ..old(self).task },
                ..*old(self)
            }),
    {
        &mut self.task.c_stk
    }

    /// The float stack of the running task, which holds bit patterns.
    pub fn f_stack(&mut self) -> (r: &mut Stack<u64>)
        ensures
            *r == old(self).task.f_stk,
            *final(self) == (VM {
                task: Task { f_stk: *final(r), ..old(self).task },
                ..*old(self)
            }),
    {
        &mut self.task.f_stk
    }

    /// The registers of the running task.
    pub fn state(&mut self) -> (r: &mut State)
        ensures
            *r == old(self).task.state,
            *final(self) == (VM {
                task: Task { state: *final(r), ..old(self).task },
                ..*old(self)
            }),
    {
        &mut self.task.state
    }

    /// The compiler's references.
    pub fn references(&mut self) -> (r: &mut ForwardReferences)
        ensures
            *r == old(self).references,
            *final(self) == (VM { references: *final(r), ..*old(self) }),
    {
        &mut self.references
    }

    /// The data space.
    pub fn data_space(&mut self) -> (r: &mut DataSpace)
        ensures
            *r == old(self).data_space,
            *final(self) == (VM { data_space: *final(r), ..*old(self) }),
    {
        &mut self.data_space
    }

    /// The data space, to read from.
    pub fn data_space_const(&self) -> (r: &DataSpace)
        ensures
            *r == self.data_space,
    {
        &self.data_space
    }

    /// The dictionary.
    pub fn wordlist(&self) -> (r: &Wordlist)
        ensures
            *r == self.wordlist,
    {
        &self.wordlist
    }

    /// The dictionary, to change.
    pub fn wordlist_mut(&mut self) -> (r: &mut Wordlist)
        ensures
            *r == old(self).wordlist,
            *final(self) == (VM { wordlist: *final(r), ..*old(self) }),
    {
        &mut self.wordlist
    }

    /// The buffer for numeric output.
    pub fn hold_buffer(&mut self) -> (r: &mut Vec<u8>)
        ensures
            *r == old(self).hldbuf,
            *final(self) == (VM { hldbuf: *final(r), ..*old(self) }),
    {
        &mut self.hldbuf
    }

    /// The output buffer.
    pub fn output_buffer(&mut self) -> (r: &mut Option<Vec<u8>>)
        ensures
            *r == old(self).outbuf,
            *final(self) == (VM { outbuf: *final(r), ..*old(self) }),
    {
        &mut self.outbuf
    }

    /// Hands the machine an output buffer.
    pub fn set_output_buffer(&mut self, buffer: Vec<u8>)
        ensures
            *final(self) == (VM { outbuf: Some(buffer), ..*old(self) }),
    {
        self.outbuf = Some(buffer);
    }

    /// The text in the buffer that the running task reads from, where
    /// there is such a buffer and it holds valid UTF-8.
    pub fn input_buffer(&self) -> (r: Option<String>)
        ensures
            r.is_some() == (self@.task.input().is_some() && valid_utf8(
                self@.task.input().unwrap(),
            )),
            r.is_some() ==> r.unwrap()@ == decode_utf8(self@.task.input().unwrap()),
    {
        match self.task.input() {
            Some(text) => text_of(text.as_slice()),
            None => None,
        }
    }

    /// Replaces the text in the buffer that the running task reads from.
    pub fn set_input_buffer(&mut self, buffer: &str)
        requires
            old(self).wf(),
        ensures
            final(self).follows(
                old(self),
                (VmView { task: old(self)@.task.with_input(buffer.spec_bytes()), ..old(self)@ }),
            ),
    {
        self.task.set_input(buffer.as_bytes_vec());
    }

    /// The last token, where it is valid UTF-8.
    pub fn last_token(&self) -> (r: Option<String>)
        ensures
            r.is_some() == valid_utf8(self@.token),
            r.is_some() ==> r.unwrap()@ == decode_utf8(self@.token),
    {
        text_of(self.tkn.as_slice())
    }

    /// Replaces the last token.
    pub fn set_last_token(&mut self, buffer: &str)
        requires
            old(self).wf(),
        ensures
            final(self).follows(old(self), old(self)@.with_token(buffer.spec_bytes())),
    {
        self.tkn = buffer.as_bytes_vec();
    }

    /// The labels that are referenced and not yet defined.
    pub fn forward_bitset(&self) -> (r: &hibitset::BitSet)
        ensures
            crate::labels::bitset_members(*r) == self@.forward,
    {
        &self.forward_bitset
    }

    /// The labels that are defined.
    pub fn resolved_bitset(&self) -> (r: &hibitset::BitSet)
        ensures
            crate::labels::bitset_members(*r) == self@.resolved,
    {
        &self.resolved_bitset
    }

    /// The label table.
    pub fn labels(&self) -> (r: &Vec<usize>)
        ensures
            r@ == self@.labels,
    {
        &self.labels
    }
}

} // verus!
