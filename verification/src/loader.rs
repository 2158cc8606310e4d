//! Text sources other than the terminal, as far as the machine decides
//! them.
//!
//! A source is numbered from one; source 0 is the terminal. The machine
//! keeps, for each source, whether it is open, the path it was opened from
//! and its current line. The host keeps the readers: it is told which file
//! becomes a source and which source is closed, and it reads the lines.
use crate::dictionary::{Action, SourceWord};
use crate::exception::{FILE_IO_EXCEPTION, INVALID_MEMORY_ADDRESS, INVALID_NUMERIC_ARGUMENT};
use crate::primitives::{flag, flag_of};
use crate::vm::{Source, SourceView, TaskView, VmView, VM};
use vstd::prelude::*;
use vstd::slice::{slice_subrange, slice_to_vec};
use vstd::string::*;

verus! {

/// What the host is to do with its readers. A file and a source are named
/// by their positions in the task's tables, counted from zero.
#[derive(Clone, Copy, PartialEq, Eq, Structural, Debug)]
pub enum SourceOp {
    /// The file at `file` becomes the reader of the source at `source`.
    Open { file: usize, source: usize },
    /// Close the reader of the source.
    Close { source: usize },
    /// Read the next line of the source, line end included, and hand it to
    /// `load_line_end`.
    LoadLine { source: usize },
}

/// The first position of `sources` from `i` on that holds no open source,
/// or the length of `sources`.
pub open spec fn free_source(sources: Seq<SourceView>, i: int) -> int
    decreases sources.len() - i,
{
    if 0 <= i < sources.len() && sources[i].open {
        free_source(sources, i + 1)
    } else {
        i
    }
}

/// A line as it was read, without its line end: a line feed, or a carriage
/// return and a line feed.
pub open spec fn chomp(raw: Seq<u8>) -> Seq<u8> {
    if raw.len() >= 2 && raw[raw.len() - 1] == 10 && raw[raw.len() - 2] == 13 {
        raw.subrange(0, raw.len() - 2)
    } else if raw.len() >= 1 && raw[raw.len() - 1] == 10 {
        raw.subrange(0, raw.len() - 1)
    } else {
        raw
    }
}

/// Computes how long `raw` is without its line end.
pub fn chomped_len(raw: &[u8]) -> (r: usize)
    ensures
        r == chomp(raw@).len(),
        r <= raw@.len(),
        chomp(raw@) == raw@.subrange(0, r as int),
{
    let n = raw.len();
    let r = if n >= 2 && raw[n - 1] == 10 && raw[n - 2] == 13 {
        n - 2
    } else if n >= 1 && raw[n - 1] == 10 {
        n - 1
    } else {
        n
    };
    assert(raw@.subrange(0, n as int) =~= raw@);
    r
}

impl VmView {
    /// The machine with the sources `sources` in the running task.
    pub open spec fn with_sources(self, sources: Seq<SourceView>) -> Self {
        VmView { task: TaskView { sources, ..self.task }, ..self }
    }

    /// The position in the table of sources that the number `id` names,
    /// where there is a source under it.
    pub open spec fn source_slot(self, id: isize) -> Option<usize> {
        if 0 < id <= self.task.sources.len() {
            Some((id - 1) as usize)
        } else {
            None
        }
    }

    /// The machine after the arguments of the source word `w` were taken
    /// from the stack and checked, and what the host is to do.
    ///
    /// `open-source ( c-addr u file-id -- source-id )` turns an open file
    /// into a source: the file identifier is no longer valid, and the
    /// source takes the first free position. `close-source ( source-id -- )`
    /// closes a source other than the one that is read. `.source-path` and
    /// `.source-line ( source-id -- )` print the path and the current line.
    /// `load-line ( source-id -- count not-eof? )` asks for the next line.
    /// A number that names no such source raises an invalid numeric
    /// argument.
    pub open spec fn source_begin(self, w: SourceWord, d: nat) -> (Self, Option<SourceOp>) {
        let s = self.s();
        let sources = self.task.sources;
        match w {
            SourceWord::OpenSource => {
                let (caddr, u, id) = (s.nth(2), s.nth(1), s.nth(0));
                let vm = self.drop_n(3);
                match self.file_slot(id) {
                    Some(file) => if !self.mem.has_range(caddr as int, u as int) {
                        (vm.abort_with(INVALID_MEMORY_ADDRESS, d), None)
                    } else if free_source(sources, 0) >= isize::MAX {
                        (vm.abort_with(INVALID_NUMERIC_ARGUMENT, d), None)
                    } else {
                        let sid = free_source(sources, 0);
                        let path = self.mem.range(caddr as int, u as int);
                        let opened = if sid < sources.len() {
                            sources.update(
                                sid,
                                SourceView { open: true, path, line: sources[sid].line },
                            )
                        } else {
                            sources.push(SourceView { open: true, path, line: Seq::empty() })
                        };
                        (
                            vm.with_files(self.task.files.update(file as int, false)).with_sources(
                                opened,
                            ).push((sid + 1) as isize),
                            Some(SourceOp::Open { file, source: sid as usize }),
                        )
                    },
                    None => (vm.abort_with(INVALID_NUMERIC_ARGUMENT, d), None),
                }
            },
            SourceWord::CloseSource => {
                let id = s.nth(0);
                let vm = self.drop_n(1);
                match self.source_slot(id) {
                    Some(source) => if id != self.st().source_id && sources[source as int].open {
                        (
                            vm.with_sources(
                                sources.update(
                                    source as int,
                                    SourceView { open: false, ..sources[source as int] },
                                ),
                            ),
                            Some(SourceOp::Close { source }),
                        )
                    } else {
                        (vm.abort_with(INVALID_NUMERIC_ARGUMENT, d), None)
                    },
                    None => (vm.abort_with(INVALID_NUMERIC_ARGUMENT, d), None),
                }
            },
            SourceWord::DotSourcePath => {
                let vm = self.drop_n(1);
                match self.source_slot(s.nth(0)) {
                    Some(source) => if sources[source as int].open {
                        (vm.print(sources[source as int].path), None)
                    } else {
                        (vm.abort_with(INVALID_NUMERIC_ARGUMENT, d), None)
                    },
                    None => (vm.abort_with(INVALID_NUMERIC_ARGUMENT, d), None),
                }
            },
            SourceWord::DotSourceLine => {
                let vm = self.drop_n(1);
                match self.source_slot(s.nth(0)) {
                    Some(source) => (vm.print(sources[source as int].line), None),
                    None => (vm.abort_with(INVALID_NUMERIC_ARGUMENT, d), None),
                }
            },
            SourceWord::LoadLine => {
                let vm = self.drop_n(1);
                match self.source_slot(s.nth(0)) {
                    Some(source) => if sources[source as int].open {
                        (vm, Some(SourceOp::LoadLine { source }))
                    } else {
                        (vm.abort_with(INVALID_NUMERIC_ARGUMENT, d), None)
                    },
                    None => (vm.abort_with(INVALID_NUMERIC_ARGUMENT, d), None),
                }
            },
        }
    }

    /// The machine after the host read a line for the source at `source`:
    /// the line, without its line end, is the source's current line, and
    /// the stack holds its length and whether the end of the source was not
    /// reached yet, which shows in a line that is not empty as read. A
    /// failed read raises a file I/O exception.
    pub open spec fn load_line_end(self, source: usize, raw: Option<Seq<u8>>, d: nat) -> Self {
        let sources = self.task.sources;
        match raw {
            Some(raw) => if source < sources.len() {
                self.with_sources(
                    sources.update(
                        source as int,
                        SourceView { line: chomp(raw), ..sources[source as int] },
                    ),
                ).push(chomp(raw).len() as isize).push(flag(raw.len() != 0))
            } else {
                self.abort_with(INVALID_NUMERIC_ARGUMENT, d)
            },
            None => self.abort_with(FILE_IO_EXCEPTION, d),
        }
    }

    /// The machine with the source words added.
    pub open spec fn add_loader(self) -> Self {
        self.add_primitive(
            "open-source".spec_bytes(),
            Action::Source(SourceWord::OpenSource),
        ).add_primitive(
            "close-source".spec_bytes(),
            Action::Source(SourceWord::CloseSource),
        ).add_primitive(
            ".source-path".spec_bytes(),
            Action::Source(SourceWord::DotSourcePath),
        ).add_primitive("load-line".spec_bytes(), Action::Source(SourceWord::LoadLine)).add_primitive(
            ".source-line".spec_bytes(),
            Action::Source(SourceWord::DotSourceLine),
        )
    }
}

impl VM {
    /// Adds the source words.
    pub fn add_loader(&mut self)
        requires
            old(self).wf(),
        ensures
            final(self).follows(old(self), old(self)@.add_loader()),
            old(self)@.words.chained() ==> final(self)@.words.chained(),
    {
        self.add_primitive("open-source", Action::Source(SourceWord::OpenSource));
        self.add_primitive("close-source", Action::Source(SourceWord::CloseSource));
        self.add_primitive(".source-path", Action::Source(SourceWord::DotSourcePath));
        self.add_primitive("load-line", Action::Source(SourceWord::LoadLine));
        self.add_primitive(".source-line", Action::Source(SourceWord::DotSourceLine));
    }

    /// The position in the table of sources that the number `id` names.
    pub fn source_slot(&self, id: isize) -> (r: Option<usize>)
        ensures
            r == self@.source_slot(id),
    {
        if 0 < id && (id as usize) <= self.task.sources.len() {
            Some(id as usize - 1)
        } else {
            None
        }
    }

    /// The first position of the table of sources that holds no open
    /// source, or the length of the table.
    pub fn free_source_slot(&self) -> (r: usize)
        ensures
            r == free_source(self@.task.sources, 0),
            r <= self@.task.sources.len(),
    {
        let n = self.task.sources.len();
        let mut i: usize = 0;
        while i < n && self.task.sources[i].open
            invariant
                i <= n,
                n == self@.task.sources.len(),
                free_source(self@.task.sources, 0) == free_source(self@.task.sources, i as int),
            decreases n - i,
        {
            i += 1;
        }
        i
    }

    /// Takes the arguments of the source word `w` from the stack, checks
    /// them, and returns what the host is to do, if anything.
    pub fn source_begin(&mut self, w: SourceWord) -> (r: Option<SourceOp>)
        requires
            old(self).wf(),
        ensures
            final(self).follows(old(self), old(self)@.source_begin(w, old(self).depth as nat).0),
            r == old(self)@.source_begin(w, old(self).depth as nat).1,
    {
        match w {
            SourceWord::OpenSource => {
                let (caddr, u, id) = self.task.s_stk.pop3();
                match self.file_slot(id) {
                    Some(file) => {
                        if !self.in_data_space(caddr, u) {
                            self.abort_with(INVALID_MEMORY_ADDRESS);
                            None
                        } else if self.free_source_slot() >= isize::MAX as usize {
                            self.abort_with(INVALID_NUMERIC_ARGUMENT);
                            None
                        } else {
                            let sid = self.free_source_slot();
                            let path = slice_to_vec(
                                self.data_space.buffer_from_raw_parts(caddr as usize, u as usize),
                            );
                            self.task.files[file] = false;
                            if sid < self.task.sources.len() {
                                self.task.sources[sid].open = true;
                                self.task.sources[sid].path = path;
                            } else {
                                self.task.sources.push(
                                    Source { open: true, path, line: Vec::new() },
                                );
                            }
                            assert(self@.task.sources =~= old(self)@.source_begin(
                                w,
                                old(self).depth as nat,
                            ).0.task.sources);
                            self.task.s_stk.push((sid + 1) as isize);
                            Some(SourceOp::Open { file, source: sid })
                        }
                    },
                    None => {
                        self.abort_with(INVALID_NUMERIC_ARGUMENT);
                        None
                    },
                }
            },
            SourceWord::CloseSource => {
                let id = self.task.s_stk.pop();
                match self.source_slot(id) {
                    Some(source) => {
                        if id != self.task.state.source_id && self.task.sources[source].open {
                            self.task.sources[source].open = false;
                            assert(self@.task.sources =~= old(self)@.source_begin(
                                w,
                                old(self).depth as nat,
                            ).0.task.sources);
                            Some(SourceOp::Close { source })
                        } else {
                            self.abort_with(INVALID_NUMERIC_ARGUMENT);
                            None
                        }
                    },
                    None => {
                        self.abort_with(INVALID_NUMERIC_ARGUMENT);
                        None
                    },
                }
            },
            SourceWord::DotSourcePath => {
                let id = self.task.s_stk.pop();
                match self.source_slot(id) {
                    Some(source) => {
                        if self.task.sources[source].open {
                            let path = slice_to_vec(self.task.sources[source].path.as_slice());
                            self.print(path.as_slice());
                        } else {
                            self.abort_with(INVALID_NUMERIC_ARGUMENT);
                        }
                    },
                    None => {
                        self.abort_with(INVALID_NUMERIC_ARGUMENT);
                    },
                }
                None
            },
            SourceWord::DotSourceLine => {
                let id = self.task.s_stk.pop();
                match self.source_slot(id) {
                    Some(source) => {
                        let line = slice_to_vec(self.task.sources[source].line.as_slice());
                        self.print(line.as_slice());
                    },
                    None => {
                        self.abort_with(INVALID_NUMERIC_ARGUMENT);
                    },
                }
                None
            },
            SourceWord::LoadLine => {
                let id = self.task.s_stk.pop();
                match self.source_slot(id) {
                    Some(source) => {
                        if self.task.sources[source].open {
                            Some(SourceOp::LoadLine { source })
                        } else {
                            self.abort_with(INVALID_NUMERIC_ARGUMENT);
                            None
                        }
                    },
                    None => {
                        self.abort_with(INVALID_NUMERIC_ARGUMENT);
                        None
                    },
                }
            },
        }
    }

    /// Takes the line that the host read for the source at `source`, with
    /// its line end, or `None` where reading failed.
    pub fn load_line_end(&mut self, source: usize, raw: Option<&[u8]>)
        requires
            old(self).wf(),
        ensures
            final(self).follows(
                old(self),
                old(self)@.load_line_end(
                    source,
                    match raw {
                        Some(raw) => Some(raw@),
                        None => None,
                    },
                    old(self).depth as nat,
                ),
            ),
    {
        match raw {
            Some(raw) => {
                if source < self.task.sources.len() {
                    let n = chomped_len(raw);
                    self.task.sources[source].line = slice_to_vec(slice_subrange(raw, 0, n));
                    assert(self@.task.sources =~= old(self)@.task.sources.update(
                        source as int,
                        SourceView { line: chomp(raw@), ..old(self)@.task.sources[source as int] },
                    ));
                    self.task.s_stk.push2(n as isize, flag_of(raw.len() != 0));
                } else {
                    self.abort_with(INVALID_NUMERIC_ARGUMENT);
                }
            },
            None => {
                self.abort_with(FILE_IO_EXCEPTION);
            },
        }
    }

    /// Evaluates `script` as the input of the running task.
    pub fn load_str(&mut self, script: &str)
        requires
            old(self).wf(),
        ensures
            final(self).follows(
                old(self),
                old(self)@.set_source(script.spec_bytes()).evaluate_input(
                    old(self).depth as nat,
                    old(self).limit as nat,
                    old(self).limit as nat,
                ),
            ),
    {
        self.set_source(script);
        self.evaluate_input();
    }
}

} // verus!
