//! The words of the outer interpreter that cannot fail: the tokenizer, the
//! input and output buffers, lookup, and the registration of words.
use crate::dictionary::{lower, to_lower, Action, Semantics, Word};
use crate::exception::{description, description_of, DICTIONARY_OVERFLOW, UNSUPPORTED_OPERATION};
use crate::parser::{
    delimited_next, delimited_token, float_of, parse_float, run_end, scan_delimited, scan_run,
    scan_word, word_next, word_token,
};
use crate::vm::{Request, State, VmView, VM};
use vstd::prelude::*;
use vstd::slice::{slice_subrange, slice_to_vec};
use vstd::string::*;
use vstd::utf8::encode_utf8;

verus! {

/// The text that announces a redefinition, as bytes.
pub open spec fn redefining_notice() -> Seq<u8> {
    "Redefining ".spec_bytes()
}

/// The description of an exception, as bytes.
pub open spec fn description_bytes(e: isize) -> Seq<u8> {
    encode_utf8(description_of(e))
}

/// A name with its ASCII letters in lower case.
pub open spec fn lowered(name: Seq<u8>) -> Seq<u8> {
    name.map_values(|c: u8| lower(c))
}

/// Puts the ASCII letters of `name` into lower case.
pub fn make_lower(name: &mut Vec<u8>)
    ensures
        final(name)@ == lowered(old(name)@),
{
    let n = name.len();
    let mut i: usize = 0;
    while i < n
        invariant
            i <= n,
            n == name@.len(),
            n == old(name)@.len(),
            forall|j: int| 0 <= j < i ==> name@[j] == lower(old(name)@[j]),
            forall|j: int| i <= j < n ==> name@[j] == old(name)@[j],
        decreases n - i,
    {
        let c = to_lower(name[i]);
        name[i] = c;
        i += 1;
    }
    assert(name@ =~= lowered(old(name)@));
}

/// Appends the bytes of `s` to `v`.
pub fn append_bytes(v: &mut Vec<u8>, s: &[u8])
    ensures
        final(v)@ == old(v)@ + s@,
{
    let n = s.len();
    let mut i: usize = 0;
    while i < n
        invariant
            i <= n,
            n == s@.len(),
            v@ == old(v)@ + s@.subrange(0, i as int),
        decreases n - i,
    {
        v.push(s[i]);
        assert(v@ =~= old(v)@ + s@.subrange(0, i + 1));
        i += 1;
    }
    assert(s@.subrange(0, n as int) =~= s@);
}

impl VmView {
    /// The word that `name` finds in the dictionary.
    pub open spec fn find(self, name: Seq<u8>) -> Option<usize> {
        self.words.find(self.mem, name)
    }

    /// The machine with `source_index` set to `i`.
    pub open spec fn with_source_index(self, i: usize) -> Self {
        self.with_st(State { source_index: i, ..self.st() })
    }

    /// The machine with the last token set to `token`.
    pub open spec fn with_token(self, token: Seq<u8>) -> Self {
        VmView { token, ..self }
    }

    /// The machine with `text` in the buffer that the running task reads
    /// from, to be read from its start.
    pub open spec fn set_source(self, text: Seq<u8>) -> Self {
        VmView { task: self.task.with_input(text), ..self }.with_source_index(0)
    }

    /// The machine with `text` appended to the buffer that the running
    /// task reads from.
    pub open spec fn push_source(self, text: Seq<u8>) -> Self {
        match self.task.input() {
            Some(old) => VmView { task: self.task.with_input(old + text), ..self },
            None => self,
        }
    }

    /// `parse-word`: the last token becomes the next whitespace-delimited
    /// token of the input, and reading goes on behind the token and the
    /// one delimiter after it. Without input the token is empty.
    pub open spec fn parse_word(self) -> Self {
        let i = self.st().source_index;
        match self.task.input() {
            Some(text) => if i <= text.len() {
                self.with_token(word_token(text, i as int)).with_source_index(
                    word_next(text, i as int) as usize,
                )
            } else {
                self.with_token(Seq::empty())
            },
            None => self.with_token(Seq::empty()),
        }
    }

    /// `parse ( char -- )`: the last token becomes the input up to the
    /// next occurrence of `char`, and reading goes on behind that
    /// occurrence.
    pub open spec fn parse(self) -> Self {
        let i = self.st().source_index;
        let v = self.s().top();
        let vm = self.drop_n(1);
        match self.task.input() {
            Some(text) => if i <= text.len() {
                vm.with_token(delimited_token(text, i as int, v)).with_source_index(
                    delimited_next(text, i as int, v) as usize,
                )
            } else {
                vm.with_token(Seq::empty())
            },
            None => vm.with_token(Seq::empty()),
        }
    }

    /// `_skip ( char -- )`: reading goes on behind the run of `char` at the
    /// current position.
    pub open spec fn skip(self) -> Self {
        let i = self.st().source_index;
        let v = self.s().top();
        let vm = self.drop_n(1);
        match self.task.input() {
            Some(text) => if i <= text.len() {
                vm.with_source_index(run_end(text, i as int, v) as usize)
            } else {
                vm
            },
            None => vm,
        }
    }

    /// `(`: skip a comment up to the closing parenthesis.
    pub open spec fn imm_paren(self) -> Self {
        self.push(41).parse()
    }

    /// `\`: skip the rest of the line.
    pub open spec fn imm_backslash(self) -> Self {
        self.push(10).parse()
    }

    /// The machine with `text` appended to the output buffer, if the
    /// machine holds one.
    pub open spec fn print(self, text: Seq<u8>) -> Self {
        match self.outbuf {
            Some(b) => VmView { outbuf: Some(b + text), ..self },
            None => self,
        }
    }

    /// `.token`: print the last token.
    pub open spec fn dot_token(self) -> Self {
        self.print(self.token)
    }

    /// `.error`: print the description of the last error, if there is one.
    pub open spec fn dot_error(self) -> Self {
        match self.last_error {
            Some(e) => self.print(description_bytes(e)),
            None => self,
        }
    }

    /// `immediate`: make the last definition immediate.
    pub open spec fn immediate(self) -> Self {
        let def = self.words.last as int;
        if 0 <= def < self.words.words.len() {
            self.with_words(
                self.words.set_word(def, Word { is_immediate: true, ..self.words.words[def] }),
            )
        } else {
            self
        }
    }

    /// `compile-only`: make the last definition compile-only.
    pub open spec fn compile_only(self) -> Self {
        let def = self.words.last as int;
        if 0 <= def < self.words.words.len() {
            self.with_words(
                self.words.set_word(def, Word { is_compile_only: true, ..self.words.words[def] }),
            )
        } else {
            self
        }
    }

    /// There is room in data space for a header named `name`: its length
    /// cell, its bytes, and the padding up to the next cell.
    pub open spec fn room_for_name(self, name: Seq<u8>) -> bool {
        self.mem.room(name.len() as int + 16)
    }

    /// The machine with a new word `name` whose header lies at `here`: the
    /// name is stored as a string, `here` is aligned, and the word's data
    /// field starts there.
    pub open spec fn with_header(self, name: Seq<u8>, action: Action, sem: Semantics) -> Self {
        let mem = self.mem.compile_str(name).align(8);
        self.with_mem(mem).with_words(
            self.words.push(
                name,
                Word {
                    is_immediate: false,
                    is_compile_only: false,
                    hidden: false,
                    link: 0,
                    hash: 0,
                    nfa: self.mem.here,
                    dfa: mem.here,
                    doer: 0,
                    action,
                    compilation_semantics: sem,
                    min_execution_time: 0,
                    max_execution_time: 0,
                },
            ),
        )
    }

    /// The machine with the primitive `name` added, or, where data space
    /// has no room for it, with a dictionary overflow recorded.
    pub open spec fn add_primitive(self, name: Seq<u8>, action: Action) -> Self {
        if self.room_for_name(name) {
            self.with_header(name, action, Semantics::Word)
        } else {
            self.with_error(Some(DICTIONARY_OVERFLOW))
        }
    }

    /// The machine with the immediate word `name` added.
    pub open spec fn add_immediate(self, name: Seq<u8>, action: Action) -> Self {
        self.add_primitive(name, action).immediate()
    }

    /// The machine with the compile-only word `name` added.
    pub open spec fn add_compile_only(self, name: Seq<u8>, action: Action) -> Self {
        self.add_primitive(name, action).compile_only()
    }

    /// The machine with the word `name` added, immediate and compile-only.
    pub open spec fn add_immediate_and_compile_only(self, name: Seq<u8>, action: Action) -> Self {
        self.add_primitive(name, action).immediate().compile_only()
    }

    /// The machine after the last token was tried as a float literal: the
    /// host is asked for its value, or, where the token is no float literal
    /// or floats are not set up, an unsupported operation is recorded.
    pub open spec fn evaluate_float(self) -> Self {
        match float_of(self.token) {
            Some(literal) => if self.refs.idx_flit == 0 {
                self.with_error(Some(UNSUPPORTED_OPERATION))
            } else {
                VmView { request: Request::Float(literal), ..self }
            },
            None => self.with_error(Some(UNSUPPORTED_OPERATION)),
        }
    }
}

impl VM {
    /// Finds the word named `name`.
    pub fn find(&self, name: &str) -> (r: Option<usize>)
        requires
            self.wf(),
        ensures
            r == self@.find(name.spec_bytes()),
            r.is_some() ==> r.unwrap() < self@.words.words.len(),
    {
        self.wordlist.find(&self.data_space, name.as_bytes())
    }

    /// Finds the word named by the last token.
    pub fn find_token(&self) -> (r: Option<usize>)
        requires
            self.wf(),
        ensures
            r == self@.find(self@.token),
            r.is_some() ==> r.unwrap() < self@.words.words.len(),
    {
        self.wordlist.find(&self.data_space, self.tkn.as_slice())
    }

    /// Copies `s` into the buffer that the running task reads from and
    /// starts reading at its first byte.
    pub fn set_source(&mut self, s: &str)
        requires
            old(self).wf(),
        ensures
            final(self).follows(old(self), old(self)@.set_source(s.spec_bytes())),
    {
        self.task.set_input(s.as_bytes_vec());
        self.task.state.source_index = 0;
    }

    /// Appends `s` to the buffer that the running task reads from.
    pub fn push_source(&mut self, s: &str)
        requires
            old(self).wf(),
        ensures
            final(self).follows(old(self), old(self)@.push_source(s.spec_bytes())),
    {
        let mut text: Vec<u8> = Vec::new();
        match self.task.input() {
            Some(old_text) => {
                text = slice_to_vec(old_text.as_slice());
            },
            None => {
                return ;
            },
        }
        append_bytes(&mut text, s.as_bytes());
        self.task.set_input(text);
    }

    /// `parse-word`: the last token becomes the next whitespace-delimited
    /// token of the input, and reading goes on behind the token and the
    /// one delimiter after it. Without input the token is empty.
    pub fn parse_word(&mut self)
        requires
            old(self).wf(),
        ensures
            final(self).follows(old(self), old(self)@.parse_word()),
    {
        let idx = self.task.state.source_index;
        let mut token: Vec<u8> = Vec::new();
        let mut next = idx;
        match self.task.input() {
            Some(text) => {
                if idx <= text.len() {
                    let (b, e, n) = scan_word(text.as_slice(), idx);
                    token = slice_to_vec(slice_subrange(text.as_slice(), b, e));
                    next = n;
                }
            },
            None => {},
        }
        self.tkn = token;
        self.task.state.source_index = next;
    }

    /// `parse ( char -- )`: the last token becomes the input up to the
    /// next occurrence of `char`, and reading goes on behind that
    /// occurrence.
    pub fn parse(&mut self)
        requires
            old(self).wf(),
        ensures
            final(self).follows(old(self), old(self)@.parse()),
    {
        let v = self.task.s_stk.pop();
        let idx = self.task.state.source_index;
        let mut token: Vec<u8> = Vec::new();
        let mut next = idx;
        match self.task.input() {
            Some(text) => {
                if idx <= text.len() {
                    let (e, n) = scan_delimited(text.as_slice(), idx, v);
                    token = slice_to_vec(slice_subrange(text.as_slice(), idx, e));
                    next = n;
                }
            },
            None => {},
        }
        self.tkn = token;
        self.task.state.source_index = next;
    }

    /// `_skip ( char -- )`: reading goes on behind the run of `char` at the
    /// current position.
    pub fn _skip(&mut self)
        requires
            old(self).wf(),
        ensures
            final(self).follows(old(self), old(self)@.skip()),
    {
        let v = self.task.s_stk.pop();
        let idx = self.task.state.source_index;
        let mut next = idx;
        match self.task.input() {
            Some(text) => {
                if idx <= text.len() {
                    next = scan_run(text.as_slice(), idx, v);
                }
            },
            None => {},
        }
        self.task.state.source_index = next;
    }

    /// `(`: skip a comment up to the closing parenthesis.
    pub fn imm_paren(&mut self)
        requires
            old(self).wf(),
        ensures
            final(self).follows(old(self), old(self)@.imm_paren()),
    {
        self.task.s_stk.push(41);
        self.parse();
    }

    /// `\`: skip the rest of the line.
    pub fn imm_backslash(&mut self)
        requires
            old(self).wf(),
        ensures
            final(self).follows(old(self), old(self)@.imm_backslash()),
    {
        self.task.s_stk.push(10);
        self.parse();
    }

    /// Appends `text` to the output buffer, if the machine holds one.
    pub fn print(&mut self, text: &[u8])
        requires
            old(self).wf(),
        ensures
            final(self).follows(old(self), old(self)@.print(text@)),
    {
        match self.outbuf.take() {
            Some(mut buf) => {
                append_bytes(&mut buf, text);
                self.outbuf = Some(buf);
            },
            None => {},
        }
    }

    /// `.token`: print the last token.
    pub fn dot_token(&mut self)
        requires
            old(self).wf(),
        ensures
            final(self).follows(old(self), old(self)@.dot_token()),
    {
        let token = slice_to_vec(self.tkn.as_slice());
        self.print(token.as_slice());
    }

    /// `.error`: print the description of the last error, if there is one.
    pub fn dot_error(&mut self)
        requires
            old(self).wf(),
        ensures
            final(self).follows(old(self), old(self)@.dot_error()),
    {
        match self.last_error {
            Some(e) => {
                self.print(description(e).as_bytes());
            },
            None => {},
        }
    }

    /// Makes the last definition immediate.
    pub fn immediate(&mut self)
        requires
            old(self).wf(),
        ensures
            final(self).follows(old(self), old(self)@.immediate()),
            old(self)@.words.chained() ==> final(self)@.words.chained(),
    {
        let def = self.wordlist.last;
        if def < self.wordlist.len() {
            let mut w = self.wordlist.get(def);
            w.set_immediate(true);
            self.wordlist.set(def, w);
        }
    }

    /// Makes the last definition compile-only.
    pub fn compile_only(&mut self)
        requires
            old(self).wf(),
        ensures
            final(self).follows(old(self), old(self)@.compile_only()),
            old(self)@.words.chained() ==> final(self)@.words.chained(),
    {
        let def = self.wordlist.last;
        if def < self.wordlist.len() {
            let mut w = self.wordlist.get(def);
            w.set_compile_only(true);
            self.wordlist.set(def, w);
        }
    }

    /// Is there room in data space for a header named `name`?
    pub fn room_for_name(&self, name: &[u8]) -> (r: bool)
        requires
            self.wf(),
        ensures
            r == self@.room_for_name(name@),
    {
        let free = self.data_space.limit() - self.data_space.here();
        free >= 16 && name.len() <= free - 16
    }

    /// Appends a header for the word `name` and links it into the
    /// dictionary.
    pub fn add_header(&mut self, name: &[u8], action: Action, sem: Semantics)
        requires
            old(self).wf(),
            old(self)@.room_for_name(name@),
        ensures
            final(self).follows(old(self), old(self)@.with_header(name@, action, sem)),
            old(self)@.words.chained() ==> final(self)@.words.chained(),
    {
        proof {
            crate::cell::lemma_cell_round_trip(name@.len() as isize);
        }
        let nfa = self.data_space.compile_str(name);
        proof {
            crate::memory::lemma_aligned_to(self@.mem.here, 8);
        }
        self.data_space.align();
        let word = Word::new(action, sem, nfa, self.data_space.here());
        self.wordlist.push(name, word);
    }

    /// Adds a primitive word to the dictionary.
    pub fn add_primitive(&mut self, name: &str, action: Action)
        requires
            old(self).wf(),
        ensures
            final(self).follows(old(self), old(self)@.add_primitive(name.spec_bytes(), action)),
            old(self)@.words.chained() ==> final(self)@.words.chained(),
    {
        if self.room_for_name(name.as_bytes()) {
            self.add_header(name.as_bytes(), action, Semantics::Word);
        } else {
            self.last_error = Some(DICTIONARY_OVERFLOW);
        }
    }

    /// Adds an immediate word to the dictionary.
    pub fn add_immediate(&mut self, name: &str, action: Action)
        requires
            old(self).wf(),
        ensures
            final(self).follows(old(self), old(self)@.add_immediate(name.spec_bytes(), action)),
            old(self)@.words.chained() ==> final(self)@.words.chained(),
    {
        self.add_primitive(name, action);
        self.immediate();
    }

    /// Adds a compile-only word to the dictionary.
    pub fn add_compile_only(&mut self, name: &str, action: Action)
        requires
            old(self).wf(),
        ensures
            final(self).follows(old(self), old(self)@.add_compile_only(name.spec_bytes(), action)),
            old(self)@.words.chained() ==> final(self)@.words.chained(),
    {
        self.add_primitive(name, action);
        self.compile_only();
    }

    /// Adds an immediate and compile-only word to the dictionary.
    pub fn add_immediate_and_compile_only(&mut self, name: &str, action: Action)
        requires
            old(self).wf(),
        ensures
            final(self).follows(
                old(self),
                old(self)@.add_immediate_and_compile_only(name.spec_bytes(), action),
            ),
            old(self)@.words.chained() ==> final(self)@.words.chained(),
    {
        self.add_primitive(name, action);
        self.immediate();
        self.compile_only();
    }

    /// Tries the last token as a float literal.
    pub fn evaluate_float(&mut self)
        requires
            old(self).wf(),
        ensures
            final(self).follows(old(self), old(self)@.evaluate_float()),
    {
        match parse_float(self.tkn.as_slice()) {
            Some(literal) => {
                if self.references.idx_flit == 0 {
                    self.last_error = Some(UNSUPPORTED_OPERATION);
                } else {
                    self.request = Request::Float(literal);
                }
            },
            None => {
                self.last_error = Some(UNSUPPORTED_OPERATION);
            },
        }
    }
}

} // verus!
