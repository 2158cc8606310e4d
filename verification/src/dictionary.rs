//! The dictionary: word headers, the hashed word list, and lookup by name
//! and by address.
//!
//! An execution token is a word's position in the list. Words whose name
//! hashes fall into the same bucket are chained through their `link`
//! fields, newest first; position 0 ends a chain.
use crate::memory::{DataSpace, DataSpaceView};
use vstd::prelude::*;

verus! {

/// Number of hash buckets.
pub const BUCKET_SIZE: usize = 64;

/// The words of the file-access word set, which the host carries out on
/// the machine's behalf.
#[derive(Clone, Copy, PartialEq, Eq, Structural, Debug)]
pub enum FileWord {
    FileSize,
    FilePosition,
    CloseFile,
    CreateFile,
    DeleteFile,
    OpenFile,
    ReadFile,
    WriteFile,
    ResizeFile,
    RepositionFile,
}

/// The words that handle text sources other than the terminal.
#[derive(Clone, Copy, PartialEq, Eq, Structural, Debug)]
pub enum SourceWord {
    OpenSource,
    CloseSource,
    DotSourcePath,
    LoadLine,
    DotSourceLine,
}

/// What a word does when it is executed.
#[derive(Clone, Copy, PartialEq, Eq, Structural, Debug)]
pub enum Action {
    Noop,
    Exit,
    Lit,
    Flit,
    SQuote,
    Branch,
    ZeroBranch,
    RunDo,
    RunQdo,
    RunLoop,
    RunPlusLoop,
    Unloop,
    Leave,
    I,
    J,
    ToR,
    RFrom,
    RFetch,
    TwoToR,
    TwoRFrom,
    TwoRFetch,
    CompileComma,
    RunPostpone,
    RunDoes,
    Execute,
    Dup,
    Drop,
    Swap,
    Over,
    Nip,
    Depth,
    CheckStacks,
    ZeroLess,
    Equals,
    LessThan,
    Invert,
    And,
    Or,
    Xor,
    Lshift,
    Rshift,
    OnePlus,
    OneMinus,
    Minus,
    Plus,
    Star,
    SlashMod,
    CellPlus,
    Cells,
    Fetch,
    Store,
    CharPlus,
    Here,
    Allot,
    Aligned,
    Align,
    CFetch,
    CStore,
    Move,
    Base,
    Immediate,
    CompileOnly,
    Paren,
    Backslash,
    LeftBracket,
    BracketTick,
    BracketChar,
    Semicolon,
    If,
    Else,
    Then,
    Case,
    Of,
    Endof,
    Endcase,
    Begin,
    While,
    Repeat,
    Until,
    Again,
    ClearLabels,
    Label,
    Goto,
    Call,
    Recurse,
    Do,
    Qdo,
    Loop,
    PlusLoop,
    Postpone,
    Does,
    True,
    False,
    ZeroEquals,
    ZeroGreater,
    ZeroNotEquals,
    GreaterThan,
    NotEquals,
    Within,
    Rot,
    MinusRot,
    Pick,
    TwoDup,
    TwoDrop,
    TwoSwap,
    TwoOver,
    Slash,
    Mod,
    Abs,
    Negate,
    ParseWord,
    Char,
    Skip,
    Parse,
    Colon,
    Constant,
    Create,
    Tick,
    ToBody,
    ToName,
    RightBracket,
    Comma,
    Marker,
    HandlerStore,
    Error,
    DotError,
    ClearError,
    ClearStacks,
    Reset,
    Abort,
    Compiling,
    TokenEmpty,
    DotToken,
    StoreToken,
    CompileToken,
    InterpretToken,
    SourceId,
    SetSourceId,
    SourceIdx,
    SetSourceIdx,
    Bye,
    Pause,
    Activate,
    Me,
    Suspend,
    Resume,
    /// Enter a colon definition.
    Nest,
    /// Push the data-field address.
    Var,
    /// Push the cell at the data-field address.
    Const,
    /// Roll the dictionary back to a marker.
    Unmark,
    /// Push the data-field address, then enter the code behind `does>`.
    XDoes,
    /// A word of the file-access word set.
    File(FileWord),
    /// A word that handles text sources.
    Source(SourceWord),
    /// Any other word that the host of the machine carries out.
    Host(usize),
}

/// How a reference to a word is compiled into a definition.
#[derive(Clone, Copy, PartialEq, Eq, Structural, Debug)]
pub enum Semantics {
    /// Append a cell that holds the execution token.
    Word,
    /// As `Word`, for a colon definition.
    Nest,
    /// As `Word`, for a word made by `create`.
    Var,
    /// As `Word`, for a constant.
    Const,
    /// As `Word`, for a marker.
    Unmark,
    /// As `Word`, for a float constant.
    FConst,
    /// As `Word`, but only inside a `do` loop.
    Leave,
}

/// A word header.
#[derive(Clone, Copy, Debug)]
pub struct Word {
    pub is_immediate: bool,
    pub is_compile_only: bool,
    pub hidden: bool,
    pub link: usize,
    pub hash: u32,
    pub nfa: usize,
    pub dfa: usize,
    pub doer: usize,
    pub action: Action,
    pub compilation_semantics: Semantics,
    /// Minimum execution time in nanoseconds.
    pub min_execution_time: usize,
    /// Maximum execution time in nanoseconds.
    pub max_execution_time: usize,
}

impl Word {
    /// A header with the given behaviour and addresses, no flag set, and
    /// not yet linked into a list.
    pub fn new(action: Action, compilation_semantics: Semantics, nfa: usize, dfa: usize) -> (r:
        Word)
        ensures
            r == (Word {
                is_immediate: false,
                is_compile_only: false,
                hidden: false,
                link: 0,
                hash: 0,
                nfa,
                dfa,
                doer: 0,
                action,
                compilation_semantics,
                min_execution_time: 0,
                max_execution_time: 0,
            }),
    {
        Word {
            is_immediate: false,
            is_compile_only: false,
            hidden: false,
            link: 0,
            hash: 0,
            nfa,
            dfa,
            doer: 0,
            action,
            compilation_semantics,
            min_execution_time: 0,
            max_execution_time: 0,
        }
    }

    /// Is the word executed even in compile state?
    pub fn is_immediate(&self) -> (r: bool)
        ensures
            r == self.is_immediate,
    {
        self.is_immediate
    }

    /// Sets whether the word is executed even in compile state.
    pub fn set_immediate(&mut self, flag: bool)
        ensures
            *final(self) == (Word { is_immediate: flag, ..*old(self) }),
    {
        self.is_immediate = flag;
    }

    /// May the word only be used in a definition?
    pub fn is_compile_only(&self) -> (r: bool)
        ensures
            r == self.is_compile_only,
    {
        self.is_compile_only
    }

    /// Sets whether the word may only be used in a definition.
    pub fn set_compile_only(&mut self, flag: bool)
        ensures
            *final(self) == (Word { is_compile_only: flag, ..*old(self) }),
    {
        self.is_compile_only = flag;
    }

    /// Is the word skipped by lookup?
    pub fn is_hidden(&self) -> (r: bool)
        ensures
            r == self.hidden,
    {
        self.hidden
    }

    /// Sets whether the word is skipped by lookup.
    pub fn set_hidden(&mut self, flag: bool)
        ensures
            *final(self) == (Word { hidden: flag, ..*old(self) }),
    {
        self.hidden = flag;
    }

    /// Name-field address.
    pub fn nfa(&self) -> (r: usize)
        ensures
            r == self.nfa,
    {
        self.nfa
    }

    /// Data-field address.
    pub fn dfa(&self) -> (r: usize)
        ensures
            r == self.dfa,
    {
        self.dfa
    }

    /// What the word does when it is executed.
    pub fn action(&self) -> (r: Action)
        ensures
            r == self.action,
    {
        self.action
    }
}

/// The lower-case form of an ASCII letter, and any other byte unchanged.
pub open spec fn lower(c: u8) -> u8 {
    if 65 <= c <= 90 {
        (c + 32) as u8
    } else {
        c
    }
}

/// Computes `lower(c)`.
pub fn to_lower(c: u8) -> (r: u8)
    ensures
        r == lower(c),
{
    if 65 <= c && c <= 90 {
        c + 32
    } else {
        c
    }
}

/// Are the two names equal when the case of ASCII letters is ignored?
pub open spec fn same_name(a: Seq<u8>, b: Seq<u8>) -> bool {
    a.len() == b.len() && forall|i: int| 0 <= i < a.len() ==> lower(#[trigger] a[i]) == lower(b[i])
}

/// Decides `same_name(a, b)`.
pub fn names_match(a: &[u8], b: &[u8]) -> (r: bool)
    ensures
        r == same_name(a@, b@),
{
    if a.len() != b.len() {
        return false;
    }
    let n = a.len();
    let mut i: usize = 0;
    while i < n
        invariant
            i <= n,
            n == a@.len(),
            n == b@.len(),
            forall|j: int| 0 <= j < i ==> lower(#[trigger] a@[j]) == lower(b@[j]),
        decreases n - i,
    {
        if to_lower(a[i]) != to_lower(b[i]) {
            return false;
        }
        i += 1;
    }
    true
}

/// One step of the hash: the hash so far times 33, plus the lower-case
/// form of the next byte, in 32 bits.
pub open spec fn hash_step(h: u32, c: u8) -> u32 {
    h.wrapping_mul(33).wrapping_add(lower(c) as u32)
}

/// The hash of a name: DJB2 over its lower-case bytes.
pub open spec fn hash_of(name: Seq<u8>) -> u32
    decreases name.len(),
{
    if name.len() == 0 {
        5381
    } else {
        hash_step(hash_of(name.drop_last()), name.last())
    }
}

/// Names that differ only in the case of ASCII letters have the same hash.
pub proof fn lemma_hash_ignores_case(a: Seq<u8>, b: Seq<u8>)
    requires
        same_name(a, b),
    ensures
        hash_of(a) == hash_of(b),
    decreases a.len(),
{
    if a.len() > 0 {
        assert(lower(a[a.len() - 1]) == lower(b[a.len() - 1]));
        assert forall|i: int| 0 <= i < a.drop_last().len() implies lower(
            #[trigger] a.drop_last()[i],
        ) == lower(b.drop_last()[i]) by {
            assert(lower(a[i]) == lower(b[i]));
        }
        lemma_hash_ignores_case(a.drop_last(), b.drop_last());
    }
}

/// The cells at `addr`, `addr + 8`, ... of a data space as unsigned words,
/// `n` of them.
pub open spec fn saved_words(mem: DataSpaceView, addr: int, n: int) -> Seq<usize> {
    Seq::new(n as nat, |i: int| mem.ucell(addr + 8 * i))
}

/// What a word list holds.
pub struct WordlistView {
    pub words: Seq<Word>,
    pub buckets: Seq<usize>,
    pub temp_buckets: Seq<usize>,
    pub last: usize,
}

impl WordlistView {
    /// Both bucket arrays have their 64 entries.
    pub open spec fn wf(self) -> bool {
        self.buckets.len() == BUCKET_SIZE && self.temp_buckets.len() == BUCKET_SIZE
    }

    /// The bucket that the hash `h` falls into.
    pub open spec fn bucket_of(h: u32) -> int {
        h as int % (BUCKET_SIZE as int)
    }

    /// The list with `w` appended under the name `name`: `w` gets the hash
    /// of the name and becomes the head of its bucket's chain.
    pub open spec fn push(self, name: Seq<u8>, w: Word) -> Self {
        let h = hash_of(name);
        let b = Self::bucket_of(h);
        WordlistView {
            words: self.words.push(Word { hash: h, link: self.buckets[b], ..w }),
            buckets: self.buckets.update(b, self.words.len() as usize),
            last: self.words.len() as usize,
            ..self
        }
    }

    /// The list cut back to its first `i` words.
    pub open spec fn truncate(self, i: int) -> Self {
        let words = if i < self.words.len() {
            self.words.subrange(0, i)
        } else {
            self.words
        };
        WordlistView {
            words,
            last: if words.len() == 0 {
                0
            } else {
                (words.len() - 1) as usize
            },
            ..self
        }
    }

    /// The list with the word at `i` replaced by `w`.
    pub open spec fn set_word(self, i: int, w: Word) -> Self {
        WordlistView { words: self.words.update(i, w), ..self }
    }

    /// Does the word at `w` answer to `name`? It does when it is not
    /// hidden, has the hash `h`, and its stored name equals `name` up to the
    /// case of ASCII letters.
    pub open spec fn answers(self, mem: DataSpaceView, name: Seq<u8>, h: u32, w: int) -> bool {
        &&& !self.words[w].hidden
        &&& self.words[w].hash == h
        &&& mem.has_str(self.words[w].nfa as int)
        &&& same_name(mem.str_at(self.words[w].nfa as int), name)
    }

    /// The first word on the chain from `w` on that answers to `name`. The
    /// chain ends at position 0, at a position beyond the list, and at a
    /// link that does not lead to an older word.
    pub open spec fn find_from(self, mem: DataSpaceView, name: Seq<u8>, h: u32, w: usize) -> Option<
        usize,
    >
        decreases w,
    {
        if w == 0 || w >= self.words.len() {
            None
        } else if self.answers(mem, name, h, w as int) {
            Some(w)
        } else if self.words[w as int].link < w {
            self.find_from(mem, name, h, self.words[w as int].link)
        } else {
            None
        }
    }

    /// The word that `name` finds: the first that answers on the chain of
    /// the name's bucket.
    pub open spec fn find(self, mem: DataSpaceView, name: Seq<u8>) -> Option<usize> {
        self.find_from(mem, name, hash_of(name), self.buckets[Self::bucket_of(hash_of(name))])
    }

    /// The name-field addresses do not decrease along the list.
    pub open spec fn nfa_sorted(self) -> bool {
        forall|i: int, j: int|
            0 <= i <= j < self.words.len() ==> self.words[i].nfa <= self.words[j].nfa
    }

    /// The last word whose name-field address does not exceed `addr`, in a
    /// list with sorted name-field addresses.
    pub open spec fn find_xt(self, addr: usize) -> Option<usize> {
        if self.words.len() == 0 || self.words[0].nfa > addr {
            None
        } else {
            Some(self.last_not_above(addr, self.words.len() as int))
        }
    }

    /// The greatest position below `n` whose name-field address does not
    /// exceed `addr`, or 0.
    pub open spec fn last_not_above(self, addr: usize, n: int) -> usize
        decreases n,
    {
        if n <= 1 {
            0
        } else if self.words[n - 1].nfa <= addr {
            (n - 1) as usize
        } else {
            self.last_not_above(addr, n - 1)
        }
    }
}

/// The word list.
pub struct Wordlist {
    pub words: Vec<Word>,
    pub buckets: [usize; 64],
    pub temp_buckets: [usize; 64],
    pub last: usize,
}

impl View for Wordlist {
    type V = WordlistView;

    open spec fn view(&self) -> WordlistView {
        WordlistView {
            words: self.words@,
            buckets: self.buckets@,
            temp_buckets: self.temp_buckets@,
            last: self.last,
        }
    }
}

impl Wordlist {
    /// An empty word list with room for `cap` words.
    pub fn with_capacity(cap: usize) -> (r: Wordlist)
        ensures
            r@.wf(),
            r@.words.len() == 0,
            r@.last == 0,
            r@.buckets == Seq::new(64, |i: int| 0usize),
            r@.temp_buckets == Seq::new(64, |i: int| 0usize),
            r@.chained(),
    {
        let r = Wordlist {
            words: Vec::with_capacity(cap),
            buckets: [0;64],
            temp_buckets: [0;64],
            last: 0,
        };
        assert(r@.buckets =~= Seq::new(64, |i: int| 0usize));
        assert(r@.temp_buckets =~= Seq::new(64, |i: int| 0usize));
        proof {
            law_empty_chained(r@);
        }
        r
    }

    /// Word count.
    pub fn len(&self) -> (r: usize)
        ensures
            r == self@.words.len(),
    {
        self.words.len()
    }

    /// The hash of a name: DJB2 over its lower-case bytes.
    pub fn hash(name: &[u8]) -> (r: u32)
        ensures
            r == hash_of(name@),
    {
        let mut hash: u32 = 5381;
        let n = name.len();
        let mut i: usize = 0;
        while i < n
            invariant
                i <= n,
                n == name@.len(),
                hash == hash_of(name@.subrange(0, i as int)),
            decreases n - i,
        {
            assert(name@.subrange(0, i + 1).drop_last() =~= name@.subrange(0, i as int));
            hash = hash.wrapping_mul(33).wrapping_add(to_lower(name[i]) as u32);
            i += 1;
        }
        assert(name@.subrange(0, n as int) =~= name@);
        hash
    }

    /// Appends `w` under the name `name`.
    pub fn push(&mut self, name: &[u8], w: Word)
        ensures
            final(self)@ == old(self)@.push(name@, w),
            old(self)@.chained() ==> final(self)@.chained(),
    {
        let mut linked = w;
        linked.hash = Self::hash(name);
        let b = linked.hash as usize % BUCKET_SIZE;
        linked.link = self.buckets[b];
        self.last = self.words.len();
        self.buckets[b] = self.last;
        self.words.push(linked);
        let count = self.words.len();
        proof {
            if old(self)@.chained() {
                assert(count == old(self)@.words.len() + 1);
                law_push_keeps_chains(old(self)@, name@, w);
            }
        }
    }

    /// Removes the word at `i` and all words behind it.
    pub fn truncate(&mut self, i: usize)
        ensures
            final(self)@ == old(self)@.truncate(i as int),
    {
        self.words.truncate(i);
        assert(self.words@ =~= old(self)@.truncate(i as int).words);
        self.last = if self.words.len() == 0 {
            0
        } else {
            self.words.len() - 1
        };
    }

    /// The word at `i`.
    pub fn get(&self, i: usize) -> (r: Word)
        requires
            i < self@.words.len(),
        ensures
            r == self@.words[i as int],
    {
        self.words[i]
    }

    /// Replaces the word at `i` by `w`.
    pub fn set(&mut self, i: usize, w: Word)
        requires
            i < old(self)@.words.len(),
        ensures
            final(self)@ == old(self)@.set_word(i as int, w),
            old(self)@.chained() && w.hash == old(self)@.words[i as int].hash && w.link == old(
                self,
            )@.words[i as int].link ==> final(self)@.chained(),
    {
        self.words[i] = w;
        proof {
            if old(self)@.chained() && w.hash == old(self)@.words[i as int].hash && w.link == old(
                self,
            )@.words[i as int].link {
                law_set_word_keeps_chains(old(self)@, i as int, w);
            }
        }
    }

    /// Replaces the bucket heads by the 64 unsigned words that data space
    /// holds from `addr` on.
    pub fn load_buckets(&mut self, mem: &DataSpace, addr: usize)
        requires
            mem.wf(),
            mem@.has_range(addr as int, 512),
        ensures
            final(self)@ == (WordlistView { buckets: saved_words(mem@, addr as int, 64), ..old(self)@ }),
    {
        let mut i: usize = 0;
        while i < 64
            invariant
                i <= 64,
                mem.wf(),
                mem@.has_range(addr as int, 512),
                self.words == old(self).words,
                self.temp_buckets == old(self).temp_buckets,
                self.last == old(self).last,
                forall|j: int| 0 <= j < i ==> self.buckets@[j] == mem@.ucell(addr + 8 * j),
            decreases 64 - i,
        {
            let v = mem.get_usize(addr + 8 * i);
            self.buckets[i] = v;
            i += 1;
        }
        assert(self@.buckets =~= saved_words(mem@, addr as int, 64));
    }

    /// Finds the newest word on the chain of `name`'s bucket that is not
    /// hidden and has this name, up to the case of ASCII letters.
    pub fn find(&self, mem: &DataSpace, name: &[u8]) -> (r: Option<usize>)
        requires
            mem.wf(),
        ensures
            r == self@.find(mem@, name@),
            r.is_some() ==> r.unwrap() < self@.words.len(),
    {
        let hash = Self::hash(name);
        let mut w = self.buckets[hash as usize % BUCKET_SIZE];
        loop
            invariant
                mem.wf(),
                hash == hash_of(name@),
                self@.find(mem@, name@) == self@.find_from(mem@, name@, hash, w),
            decreases w,
        {
            if w == 0 || w >= self.words.len() {
                return None;
            }
            let word = self.words[w];
            if !word.hidden && word.hash == hash && mem.has_range(word.nfa, 8) {
                let n = mem.get_usize(word.nfa);
                if n <= mem.limit() - word.nfa - 8 {
                    if names_match(mem.get_str(word.nfa), name) {
                        return Some(w);
                    }
                }
            }
            if word.link < w {
                w = word.link;
            } else {
                return None;
            }
        }
    }

    /// Finds the execution token of the word to which the address `addr`
    /// belongs: the last word whose name-field address does not exceed it.
    pub fn find_xt(&self, addr: usize) -> (r: Option<usize>)
        ensures
            self@.nfa_sorted() ==> r == self@.find_xt(addr),
            r.is_some() ==> r.unwrap() < self@.words.len(),
    {
        let n = self.words.len();
        if n == 0 || self.words[0].nfa > addr {
            return None;
        }
        let mut lo: usize = 0;
        let mut hi: usize = n;
        while hi - lo > 1
            invariant
                lo < hi <= n,
                n == self@.words.len(),
                self@.words[lo as int].nfa <= addr,
                self@.nfa_sorted() ==> forall|k: int| hi <= k < n ==> self@.words[k].nfa > addr,
            decreases hi - lo,
        {
            let mid = lo + (hi - lo) / 2;
            if self.words[mid].nfa <= addr {
                lo = mid;
            } else {
                hi = mid;
            }
        }
        proof {
            if self@.nfa_sorted() {
                lemma_last_not_above(self@, addr, lo as int, n as int);
            }
        }
        Some(lo)
    }
}

/// In a list with sorted name-field addresses, a position that does not
/// exceed `addr` and whose successors all do is the last such position.
pub proof fn lemma_last_not_above(l: WordlistView, addr: usize, lo: int, n: int)
    requires
        0 <= lo < n <= l.words.len(),
        n <= usize::MAX,
        l.words[lo].nfa <= addr,
        forall|k: int| lo < k < n ==> l.words[k].nfa > addr,
    ensures
        l.last_not_above(addr, n) == lo,
    decreases n,
{
    if n > 1 && lo < n - 1 {
        lemma_last_not_above(l, addr, lo, n - 1);
    }
}

/// Every spelling of a name finds the same word: lookup ignores the case
/// of ASCII letters.
pub proof fn lemma_find_ignores_case(l: WordlistView, mem: DataSpaceView, a: Seq<u8>, b: Seq<u8>)
    requires
        same_name(a, b),
    ensures
        l.find(mem, a) == l.find(mem, b),
{
    lemma_hash_ignores_case(a, b);
    let h = hash_of(a);
    lemma_find_from_ignores_case(l, mem, a, b, h, l.buckets[WordlistView::bucket_of(h)]);
}

/// The walk along a chain gives the same word for every spelling of a name.
pub proof fn lemma_find_from_ignores_case(
    l: WordlistView,
    mem: DataSpaceView,
    a: Seq<u8>,
    b: Seq<u8>,
    h: u32,
    w: usize,
)
    requires
        same_name(a, b),
    ensures
        l.find_from(mem, a, h, w) == l.find_from(mem, b, h, w),
    decreases w,
{
    if w == 0 || w >= l.words.len() {
    } else {
        let stored = mem.str_at(l.words[w as int].nfa as int);
        assert(same_name(stored, a) == same_name(stored, b)) by {
            if same_name(stored, a) {
                assert forall|i: int| 0 <= i < stored.len() implies lower(#[trigger] stored[i])
                    == lower(b[i]) by {
                    assert(lower(a[i]) == lower(b[i]));
                }
            }
            if same_name(stored, b) {
                assert forall|i: int| 0 <= i < stored.len() implies lower(#[trigger] stored[i])
                    == lower(a[i]) by {
                    assert(lower(a[i]) == lower(b[i]));
                }
            }
        }
        if !l.answers(mem, a, h, w as int) && l.words[w as int].link < w {
            lemma_find_from_ignores_case(l, mem, a, b, h, l.words[w as int].link);
        }
    }
}


impl WordlistView {
    /// The newest word below position `n`, word 0 aside, whose hash falls
    /// into bucket `b`, or 0 where there is none.
    pub open spec fn newest_in(self, b: int, n: int) -> usize
        decreases n,
    {
        if n <= 1 {
            0
        } else if Self::bucket_of(self.words[n - 1].hash) == b {
            (n - 1) as usize
        } else {
            self.newest_in(b, n - 1)
        }
    }

    /// The newest word below position `n`, word 0 aside, that answers to
    /// `name`.
    pub open spec fn newest_answer(self, mem: DataSpaceView, name: Seq<u8>, h: u32, n: int)
        -> Option<usize>
        decreases n,
    {
        if n <= 1 {
            None
        } else if self.answers(mem, name, h, n - 1) {
            Some((n - 1) as usize)
        } else {
            self.newest_answer(mem, name, h, n - 1)
        }
    }

    /// The invariant of the chains: every bucket heads the chain of all
    /// words whose hash falls into it, newest first. The head of a bucket
    /// is the newest such word, and the link of a word is the newest such
    /// word before it; 0 stands for none.
    #[verifier::opaque]
    pub open spec fn chained(self) -> bool {
        &&& self.wf()
        &&& self.words.len() <= usize::MAX
        &&& forall|b: int|
            0 <= b < BUCKET_SIZE ==> #[trigger] self.buckets[b] == self.newest_in(
                b,
                self.words.len() as int,
            )
        &&& forall|w: int|
            1 <= w < self.words.len() ==> (#[trigger] self.words[w]).link == self.newest_in(
                Self::bucket_of(self.words[w].hash),
                w,
            )
    }
}

/// The newest word of a bucket below `n` lies below `n` and in the
/// bucket, and it is the same in any list whose words have the same hashes
/// up to `n`.
pub proof fn lemma_newest_in(l: WordlistView, m: WordlistView, b: int, n: int)
    requires
        0 <= n <= l.words.len(),
        n <= m.words.len(),
        n <= usize::MAX,
        forall|i: int| 0 <= i < n ==> l.words[i].hash == m.words[i].hash,
    ensures
        l.newest_in(b, n) == m.newest_in(b, n),
        l.newest_in(b, n) == 0 || 1 <= l.newest_in(b, n) < n,
        l.newest_in(b, n) != 0 ==> WordlistView::bucket_of(
            l.words[l.newest_in(b, n) as int].hash,
        ) == b,
    decreases n,
{
    if n > 1 {
        lemma_newest_in(l, m, b, n - 1);
    }
}

/// An empty word list has well-formed chains.
pub proof fn law_empty_chained(l: WordlistView)
    requires
        l.wf(),
        l.words.len() == 0,
        forall|b: int| 0 <= b < BUCKET_SIZE ==> l.buckets[b] == 0,
    ensures
        l.chained(),
{
    reveal(WordlistView::chained);
}

/// Appending a word keeps the chains well formed, and the new word gets
/// the next execution token.
pub proof fn law_push_keeps_chains(l: WordlistView, name: Seq<u8>, w: Word)
    requires
        l.chained(),
        l.words.len() < usize::MAX,
    ensures
        l.push(name, w).chained(),
        l.push(name, w).words.len() == l.words.len() + 1,
        l.push(name, w).last == l.words.len(),
        forall|i: int| 0 <= i < l.words.len() ==> l.push(name, w).words[i] == l.words[i],
{
    reveal(WordlistView::chained);
    let p = l.push(name, w);
    let k = l.words.len() as int;
    let h = hash_of(name);
    let nb = WordlistView::bucket_of(h);
    assert(0 <= nb < 64);
    assert(p.words[k].hash == h);
    assert forall|b: int| 0 <= b < BUCKET_SIZE implies #[trigger] p.buckets[b] == p.newest_in(
        b,
        p.words.len() as int,
    ) by {
        lemma_newest_in(l, p, b, k);
        assert(l.buckets[b] == l.newest_in(b, k));
        if k == 0 {
            assert(p.newest_in(b, 1) == 0);
        }
    }
    assert forall|v: int| 1 <= v < p.words.len() implies (#[trigger] p.words[v]).link
        == p.newest_in(WordlistView::bucket_of(p.words[v].hash), v) by {
        if v < k {
            assert(p.words[v] == l.words[v]);
            lemma_newest_in(l, p, WordlistView::bucket_of(l.words[v].hash), v);
        } else {
            lemma_newest_in(l, p, nb, k);
            assert(l.buckets[nb] == l.newest_in(nb, k));
        }
    }
}

/// Replacing a word by one with the same hash and link keeps the chains
/// well formed.
pub proof fn law_set_word_keeps_chains(l: WordlistView, i: int, w: Word)
    requires
        l.chained(),
        0 <= i < l.words.len(),
        w.hash == l.words[i].hash,
        w.link == l.words[i].link,
    ensures
        l.set_word(i, w).chained(),
{
    reveal(WordlistView::chained);
    let p = l.set_word(i, w);
    assert forall|b: int| 0 <= b < BUCKET_SIZE implies #[trigger] p.buckets[b] == p.newest_in(
        b,
        p.words.len() as int,
    ) by {
        lemma_newest_in(l, p, b, l.words.len() as int);
        assert(l.buckets[b] == l.newest_in(b, l.words.len() as int));
    }
    assert forall|v: int| 1 <= v < p.words.len() implies (#[trigger] p.words[v]).link
        == p.newest_in(WordlistView::bucket_of(p.words[v].hash), v) by {
        assert(l.words[v].link == l.newest_in(WordlistView::bucket_of(l.words[v].hash), v));
        lemma_newest_in(l, p, WordlistView::bucket_of(l.words[v].hash), v);
    }
}

/// With well-formed chains, the walk from the newest word of a bucket
/// finds the newest word that answers to the name.
pub proof fn lemma_find_from_newest(
    l: WordlistView,
    mem: DataSpaceView,
    name: Seq<u8>,
    h: u32,
    n: int,
)
    requires
        l.chained(),
        0 <= n <= l.words.len(),
    ensures
        l.find_from(mem, name, h, l.newest_in(WordlistView::bucket_of(h), n)) == l.newest_answer(
            mem,
            name,
            h,
            n,
        ),
    decreases n,
{
    reveal(WordlistView::chained);
    let b = WordlistView::bucket_of(h);
    if n > 1 {
        let w = n - 1;
        lemma_newest_in(l, l, b, n);
        if WordlistView::bucket_of(l.words[w].hash) == b {
            if !l.answers(mem, name, h, w) {
                assert(l.words[w].link == l.newest_in(b, w));
                lemma_newest_in(l, l, b, w);
                lemma_find_from_newest(l, mem, name, h, w);
            }
        } else {
            lemma_find_from_newest(l, mem, name, h, w);
        }
    }
}

/// With well-formed chains, a name finds the newest word, word 0 aside,
/// that is not hidden, has the hash of the name, and whose stored name
/// equals the name up to the case of ASCII letters.
pub proof fn law_find_is_newest(l: WordlistView, mem: DataSpaceView, name: Seq<u8>)
    requires
        l.chained(),
    ensures
        l.find(mem, name) == l.newest_answer(mem, name, hash_of(name), l.words.len() as int),
{
    reveal(WordlistView::chained);
    let h = hash_of(name);
    assert(0 <= WordlistView::bucket_of(h) < 64);
    lemma_find_from_newest(l, mem, name, h, l.words.len() as int);
}

} // verus!
