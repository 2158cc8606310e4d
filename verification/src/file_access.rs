//! The file-access word set, as far as the machine decides it.
//!
//! The machine does not touch the file system. For each word it takes the
//! arguments from the stack and checks them (`file_begin`), tells the host
//! what to do with the file system, and puts the results on the stack when
//! the host reports how that went (`file_end`). A file identifier is the
//! position of a file in the task's table, counted from one; zero is never
//! valid. The last cell that a word leaves is its result code: zero for
//! success, an exception code otherwise.
use crate::dictionary::{Action, FileWord};
use crate::exception::{
    FILE_IO_EXCEPTION, INVALID_MEMORY_ADDRESS, INVALID_NUMERIC_ARGUMENT, RESULT_OUT_OF_RANGE,
};
use crate::vm::{TaskView, VmView, VM};
use vstd::prelude::*;
use vstd::string::*;

verus! {

/// The greatest length of a path name, in bytes.
pub const PATH_NAME_MAX_LEN: usize = 256;

/// What the host is to do with the file system. A file is named by its
/// position in the task's table, counted from zero; a path name lies in
/// data space, `len` bytes from `addr` on.
#[derive(Clone, Copy, PartialEq, Eq, Structural, Debug)]
pub enum FileOp {
    /// Report the size of the file.
    Size { file: usize },
    /// Report the position in the file.
    Position { file: usize },
    /// Close the file.
    Close { file: usize },
    /// Create or truncate the file at the path, open it for writing, and
    /// for reading too if `read` is set, and keep it at `file`.
    Create { addr: usize, len: usize, read: bool, file: usize },
    /// Delete the file at the path.
    Delete { addr: usize, len: usize },
    /// Open the file at the path and keep it at `file`.
    Open { addr: usize, len: usize, read: bool, write: bool, file: usize },
    /// Read up to `len` bytes from the file into data space at `addr`, and
    /// report how many were read.
    Read { file: usize, addr: usize, len: usize },
    /// Write the `len` bytes of data space at `addr` to the file.
    Write { file: usize, addr: usize, len: usize },
    /// Set the size of the file.
    Resize { file: usize, size: usize },
    /// Set the position in the file.
    Reposition { file: usize, position: usize },
}

/// How the host fared.
#[derive(Clone, Copy, PartialEq, Eq, Structural, Debug)]
pub enum FileOutcome {
    /// The file system refused.
    Failed,
    /// Done.
    Done,
    /// Done, and this is the size, the position, or the number of bytes
    /// read.
    Value(u64),
}

/// The first position of `files` from `i` on at which no file is open, or
/// the length of `files`.
pub open spec fn free_slot(files: Seq<bool>, i: int) -> int
    decreases files.len() - i,
{
    if 0 <= i < files.len() && files[i] {
        free_slot(files, i + 1)
    } else {
        i
    }
}

/// The table with a file open at `slot`, the table growing by one where
/// `slot` is its length.
pub open spec fn with_open(files: Seq<bool>, slot: int) -> Seq<bool> {
    if 0 <= slot < files.len() {
        files.update(slot, true)
    } else if slot == files.len() {
        files.push(true)
    } else {
        files
    }
}

impl VmView {
    /// The machine with the file table `files` in the running task.
    pub open spec fn with_files(self, files: Seq<bool>) -> Self {
        VmView { task: TaskView { files, ..self.task }, ..self }
    }

    /// The position in the file table that the file identifier `id` names,
    /// where a file is open under it.
    pub open spec fn file_slot(self, id: isize) -> Option<usize> {
        if 0 < id <= self.task.files.len() && self.task.files[id - 1] {
            Some((id - 1) as usize)
        } else {
            None
        }
    }

    /// Is `u` the length of a path name?
    pub open spec fn path_len_ok(u: isize) -> bool {
        0 <= u <= PATH_NAME_MAX_LEN
    }

    /// The machine after the arguments of the file-access word `w` were
    /// taken from the stack and checked, and what the host is to do. Where
    /// the arguments are refused, the results are on the stack already and
    /// the host has nothing to do.
    pub open spec fn file_begin(self, w: FileWord) -> (Self, Option<FileOp>) {
        let s = self.s();
        let ina = INVALID_NUMERIC_ARGUMENT;
        match w {
            FileWord::FileSize => {
                let vm = self.drop_n(1);
                match self.file_slot(s.nth(0)) {
                    Some(file) => (vm, Some(FileOp::Size { file })),
                    None => (vm.push(-1isize).push(-1isize).push(ina), None),
                }
            },
            FileWord::FilePosition => {
                let vm = self.drop_n(1);
                match self.file_slot(s.nth(0)) {
                    Some(file) => (vm, Some(FileOp::Position { file })),
                    None => (vm.push(-1isize).push(-1isize).push(ina), None),
                }
            },
            FileWord::CloseFile => {
                let vm = self.drop_n(1);
                match self.file_slot(s.nth(0)) {
                    Some(file) => (
                        vm.with_files(self.task.files.update(file as int, false)).push(0),
                        Some(FileOp::Close { file }),
                    ),
                    None => (vm.push(ina), None),
                }
            },
            FileWord::CreateFile => {
                let (caddr, u, fam) = (s.nth(2), s.nth(1), s.nth(0));
                let vm = self.drop_n(3);
                if !Self::path_len_ok(u) || !(fam == 1 || fam == 2) {
                    (vm.push(-1isize).push(ina), None)
                } else if !self.mem.has_range(caddr as int, u as int) {
                    (vm.push(-1isize).push(INVALID_MEMORY_ADDRESS), None)
                } else {
                    (
                        vm,
                        Some(
                            FileOp::Create {
                                addr: caddr as usize,
                                len: u as usize,
                                read: fam == 2,
                                file: free_slot(self.task.files, 0) as usize,
                            },
                        ),
                    )
                }
            },
            FileWord::OpenFile => {
                let (caddr, u, fam) = (s.nth(2), s.nth(1), s.nth(0));
                let vm = self.drop_n(3);
                if !Self::path_len_ok(u) || !(0 <= fam <= 2) {
                    (vm.push(-1isize).push(ina), None)
                } else if !self.mem.has_range(caddr as int, u as int) {
                    (vm.push(-1isize).push(INVALID_MEMORY_ADDRESS), None)
                } else {
                    (
                        vm,
                        Some(
                            FileOp::Open {
                                addr: caddr as usize,
                                len: u as usize,
                                read: fam == 0 || fam == 2,
                                write: fam == 1 || fam == 2,
                                file: free_slot(self.task.files, 0) as usize,
                            },
                        ),
                    )
                }
            },
            FileWord::DeleteFile => {
                let (caddr, u) = (s.nth(1), s.nth(0));
                let vm = self.drop_n(2);
                if !Self::path_len_ok(u) {
                    (vm.push(-1isize).push(ina), None)
                } else if !self.mem.has_range(caddr as int, u as int) {
                    (vm.push(INVALID_MEMORY_ADDRESS), None)
                } else {
                    (vm, Some(FileOp::Delete { addr: caddr as usize, len: u as usize }))
                }
            },
            FileWord::ReadFile => {
                let (caddr, u1, fileid) = (s.nth(2), s.nth(1), s.nth(0));
                let vm = self.drop_n(3);
                if fileid == 0 {
                    (vm.push(-1isize).push(ina), None)
                } else {
                    match self.file_slot(fileid) {
                        None => (vm.push(0).push(ina), None),
                        Some(file) => if self.mem.has_range(caddr as int, u1 as int) {
                            (
                                vm,
                                Some(
                                    FileOp::Read { file, addr: caddr as usize, len: u1 as usize },
                                ),
                            )
                        } else {
                            (vm.push(0).push(INVALID_MEMORY_ADDRESS), None)
                        },
                    }
                }
            },
            FileWord::WriteFile => {
                let (caddr, u, fileid) = (s.nth(2), s.nth(1), s.nth(0));
                let vm = self.drop_n(3);
                match self.file_slot(fileid) {
                    None => (vm.push(ina), None),
                    Some(file) => if self.mem.has_range(caddr as int, u as int) {
                        (vm, Some(FileOp::Write { file, addr: caddr as usize, len: u as usize }))
                    } else {
                        (vm.push(FILE_IO_EXCEPTION), None)
                    },
                }
            },
            FileWord::ResizeFile => {
                let (ud_lower, ud_upper, fileid) = (s.nth(2), s.nth(1), s.nth(0));
                let vm = self.drop_n(3);
                match self.file_slot(fileid) {
                    Some(file) => if ud_upper == 0 && ud_lower >= 0 {
                        (vm, Some(FileOp::Resize { file, size: ud_lower as usize }))
                    } else {
                        (vm.push(ina), None)
                    },
                    None => (vm.push(ina), None),
                }
            },
            FileWord::RepositionFile => {
                let (ud_lower, ud_upper, fileid) = (s.nth(2), s.nth(1), s.nth(0));
                let vm = self.drop_n(3);
                match self.file_slot(fileid) {
                    Some(file) => if ud_upper == 0 && ud_lower >= 0 {
                        (vm, Some(FileOp::Reposition { file, position: ud_lower as usize }))
                    } else {
                        (vm.push(ina), None)
                    },
                    None => (vm.push(ina), None),
                }
            },
        }
    }

    /// The machine after the host reported how `op` went: the results of
    /// the word are on the stack, and a file that was opened is in the
    /// table.
    ///
    /// A size or position beyond what a cell holds is out of range. A
    /// report that does not fit the operation counts as a failure.
    pub open spec fn file_end(self, op: FileOp, outcome: FileOutcome) -> Self {
        let io = FILE_IO_EXCEPTION;
        match op {
            FileOp::Size { .. } | FileOp::Position { .. } => match outcome {
                FileOutcome::Value(ud) => if ud <= isize::MAX {
                    self.push(ud as isize).push(0).push(0)
                } else {
                    self.push(-1isize).push(-1isize).push(RESULT_OUT_OF_RANGE)
                },
                _ => self.push(-1isize).push(-1isize).push(io),
            },
            FileOp::Close { .. } => self,
            FileOp::Create { file, .. } | FileOp::Open { file, .. } => match outcome {
                FileOutcome::Done => if file <= self.task.files.len() && file < isize::MAX {
                    self.with_files(with_open(self.task.files, file as int)).push(
                        (file + 1) as isize,
                    ).push(0)
                } else {
                    self.push(-1isize).push(io)
                },
                _ => self.push(-1isize).push(io),
            },
            FileOp::Read { len, .. } => match outcome {
                FileOutcome::Value(u2) => if u2 <= len && u2 <= isize::MAX {
                    self.push(u2 as isize).push(0)
                } else {
                    self.push(0).push(io)
                },
                _ => self.push(0).push(io),
            },
            FileOp::Delete { .. } | FileOp::Write { .. } | FileOp::Resize { .. }
            | FileOp::Reposition { .. } => match outcome {
                FileOutcome::Done => self.push(0),
                _ => self.push(io),
            },
        }
    }

    /// The machine with the words of the file-access word set added.
    pub open spec fn add_file_access(self) -> Self {
        self.add_primitive("file-size".spec_bytes(), Action::File(FileWord::FileSize)).add_primitive(
            "file-position".spec_bytes(),
            Action::File(FileWord::FilePosition),
        ).add_primitive("close-file".spec_bytes(), Action::File(FileWord::CloseFile)).add_primitive(
            "create-file".spec_bytes(),
            Action::File(FileWord::CreateFile),
        ).add_primitive(
            "delete-file".spec_bytes(),
            Action::File(FileWord::DeleteFile),
        ).add_primitive("open-file".spec_bytes(), Action::File(FileWord::OpenFile)).add_primitive(
            "read-file".spec_bytes(),
            Action::File(FileWord::ReadFile),
        ).add_primitive("write-file".spec_bytes(), Action::File(FileWord::WriteFile)).add_primitive(
            "resize-file".spec_bytes(),
            Action::File(FileWord::ResizeFile),
        ).add_primitive("reposition-file".spec_bytes(), Action::File(FileWord::RepositionFile))
    }
}

impl VM {
    /// Adds the words of the file-access word set.
    pub fn add_file_access(&mut self)
        requires
            old(self).wf(),
        ensures
            final(self).follows(old(self), old(self)@.add_file_access()),
            old(self)@.words.chained() ==> final(self)@.words.chained(),
    {
        self.add_primitive("file-size", Action::File(FileWord::FileSize));
        self.add_primitive("file-position", Action::File(FileWord::FilePosition));
        self.add_primitive("close-file", Action::File(FileWord::CloseFile));
        self.add_primitive("create-file", Action::File(FileWord::CreateFile));
        self.add_primitive("delete-file", Action::File(FileWord::DeleteFile));
        self.add_primitive("open-file", Action::File(FileWord::OpenFile));
        self.add_primitive("read-file", Action::File(FileWord::ReadFile));
        self.add_primitive("write-file", Action::File(FileWord::WriteFile));
        self.add_primitive("resize-file", Action::File(FileWord::ResizeFile));
        self.add_primitive("reposition-file", Action::File(FileWord::RepositionFile));
    }

    /// The position in the file table that the file identifier `id` names,
    /// where a file is open under it.
    pub fn file_slot(&self, id: isize) -> (r: Option<usize>)
        ensures
            r == self@.file_slot(id),
    {
        if 0 < id && (id as usize) <= self.task.files.len() && self.task.files[id as usize - 1] {
            Some(id as usize - 1)
        } else {
            None
        }
    }

    /// The first position of the file table at which no file is open, or
    /// the length of the table.
    pub fn free_file_slot(&self) -> (r: usize)
        ensures
            r == free_slot(self@.task.files, 0),
            r <= self@.task.files.len(),
    {
        let n = self.task.files.len();
        let mut i: usize = 0;
        while i < n && self.task.files[i]
            invariant
                i <= n,
                n == self@.task.files.len(),
                free_slot(self@.task.files, 0) == free_slot(self@.task.files, i as int),
            decreases n - i,
        {
            i += 1;
        }
        i
    }

    /// Do the `u` bytes from `caddr` on lie in data space?
    pub fn in_data_space(&self, caddr: isize, u: isize) -> (r: bool)
        requires
            self.wf(),
        ensures
            r == self@.mem.has_range(caddr as int, u as int),
    {
        caddr >= 0 && u >= 0 && self.data_space.has_range(caddr as usize, u as usize)
    }

    /// Takes the arguments of the file-access word `w` from the stack,
    /// checks them, and returns what the host is to do, if anything.
    pub fn file_begin(&mut self, w: FileWord) -> (r: Option<FileOp>)
        requires
            old(self).wf(),
        ensures
            final(self).follows(old(self), old(self)@.file_begin(w).0),
            r == old(self)@.file_begin(w).1,
    {
        let ina = INVALID_NUMERIC_ARGUMENT;
        match w {
            FileWord::FileSize => {
                let fileid = self.task.s_stk.pop();
                match self.file_slot(fileid) {
                    Some(file) => Some(FileOp::Size { file }),
                    None => {
                        self.task.s_stk.push3(-1, -1, ina);
                        None
                    },
                }
            },
            FileWord::FilePosition => {
                let fileid = self.task.s_stk.pop();
                match self.file_slot(fileid) {
                    Some(file) => Some(FileOp::Position { file }),
                    None => {
                        self.task.s_stk.push3(-1, -1, ina);
                        None
                    },
                }
            },
            FileWord::CloseFile => {
                let fileid = self.task.s_stk.pop();
                match self.file_slot(fileid) {
                    Some(file) => {
                        self.task.files[file] = false;
                        self.task.s_stk.push(0);
                        Some(FileOp::Close { file })
                    },
                    None => {
                        self.task.s_stk.push(ina);
                        None
                    },
                }
            },
            FileWord::CreateFile => {
                let (caddr, u, fam) = self.task.s_stk.pop3();
                if !(0 <= u && u <= 256) || !(fam == 1 || fam == 2) {
                    self.task.s_stk.push2(-1, ina);
                    None
                } else if !self.in_data_space(caddr, u) {
                    self.task.s_stk.push2(-1, INVALID_MEMORY_ADDRESS);
                    None
                } else {
                    let file = self.free_file_slot();
                    Some(
                        FileOp::Create { addr: caddr as usize, len: u as usize, read: fam == 2, file },
                    )
                }
            },
            FileWord::OpenFile => {
                let (caddr, u, fam) = self.task.s_stk.pop3();
                if !(0 <= u && u <= 256) || !(0 <= fam && fam <= 2) {
                    self.task.s_stk.push2(-1, ina);
                    None
                } else if !self.in_data_space(caddr, u) {
                    self.task.s_stk.push2(-1, INVALID_MEMORY_ADDRESS);
                    None
                } else {
                    let file = self.free_file_slot();
                    Some(
                        FileOp::Open {
                            addr: caddr as usize,
                            len: u as usize,
                            read: fam == 0 || fam == 2,
                            write: fam == 1 || fam == 2,
                            file,
                        },
                    )
                }
            },
            FileWord::DeleteFile => {
                let (caddr, u) = self.task.s_stk.pop2();
                if !(0 <= u && u <= 256) {
                    self.task.s_stk.push2(-1, ina);
                    None
                } else if !self.in_data_space(caddr, u) {
                    self.task.s_stk.push(INVALID_MEMORY_ADDRESS);
                    None
                } else {
                    Some(FileOp::Delete { addr: caddr as usize, len: u as usize })
                }
            },
            FileWord::ReadFile => {
                let (caddr, u1, fileid) = self.task.s_stk.pop3();
                if fileid == 0 {
                    self.task.s_stk.push2(-1, ina);
                    None
                } else {
                    match self.file_slot(fileid) {
                        None => {
                            self.task.s_stk.push2(0, ina);
                            None
                        },
                        Some(file) => {
                            if self.in_data_space(caddr, u1) {
                                Some(FileOp::Read { file, addr: caddr as usize, len: u1 as usize })
                            } else {
                                self.task.s_stk.push2(0, INVALID_MEMORY_ADDRESS);
                                None
                            }
                        },
                    }
                }
            },
            FileWord::WriteFile => {
                let (caddr, u, fileid) = self.task.s_stk.pop3();
                match self.file_slot(fileid) {
                    None => {
                        self.task.s_stk.push(ina);
                        None
                    },
                    Some(file) => {
                        if self.in_data_space(caddr, u) {
                            Some(FileOp::Write { file, addr: caddr as usize, len: u as usize })
                        } else {
                            self.task.s_stk.push(FILE_IO_EXCEPTION);
                            None
                        }
                    },
                }
            },
            FileWord::ResizeFile => {
                let (ud_lower, ud_upper, fileid) = self.task.s_stk.pop3();
                match self.file_slot(fileid) {
                    Some(file) => {
                        if ud_upper == 0 && ud_lower >= 0 {
                            Some(FileOp::Resize { file, size: ud_lower as usize })
                        } else {
                            self.task.s_stk.push(ina);
                            None
                        }
                    },
                    None => {
                        self.task.s_stk.push(ina);
                        None
                    },
                }
            },
            FileWord::RepositionFile => {
                let (ud_lower, ud_upper, fileid) = self.task.s_stk.pop3();
                match self.file_slot(fileid) {
                    Some(file) => {
                        if ud_upper == 0 && ud_lower >= 0 {
                            Some(FileOp::Reposition { file, position: ud_lower as usize })
                        } else {
                            self.task.s_stk.push(ina);
                            None
                        }
                    },
                    None => {
                        self.task.s_stk.push(ina);
                        None
                    },
                }
            },
        }
    }

    /// Puts the results of the file-access word on the stack, after the
    /// host has done `op` with the outcome `outcome`.
    pub fn file_end(&mut self, op: FileOp, outcome: FileOutcome)
        requires
            old(self).wf(),
        ensures
            final(self).follows(old(self), old(self)@.file_end(op, outcome)),
    {
        let io = FILE_IO_EXCEPTION;
        match op {
            FileOp::Size { .. } | FileOp::Position { .. } => {
                match outcome {
                    FileOutcome::Value(ud) => {
                        if ud <= isize::MAX as u64 {
                            self.task.s_stk.push3(ud as isize, 0, 0);
                        } else {
                            self.task.s_stk.push3(-1, -1, RESULT_OUT_OF_RANGE);
                        }
                    },
                    _ => {
                        self.task.s_stk.push3(-1, -1, io);
                    },
                }
            },
            FileOp::Close { .. } => {},
            FileOp::Create { file, .. } | FileOp::Open { file, .. } => {
                match outcome {
                    FileOutcome::Done => {
                        if file <= self.task.files.len() && file < isize::MAX as usize {
                            if file < self.task.files.len() {
                                self.task.files[file] = true;
                            } else {
                                self.task.files.push(true);
                            }
                            self.task.s_stk.push2((file + 1) as isize, 0);
                        } else {
                            self.task.s_stk.push2(-1, io);
                        }
                    },
                    _ => {
                        self.task.s_stk.push2(-1, io);
                    },
                }
            },
            FileOp::Read { len, .. } => {
                match outcome {
                    FileOutcome::Value(u2) => {
                        if u2 <= len as u64 && u2 <= isize::MAX as u64 {
                            self.task.s_stk.push2(u2 as isize, 0);
                        } else {
                            self.task.s_stk.push2(0, io);
                        }
                    },
                    _ => {
                        self.task.s_stk.push2(0, io);
                    },
                }
            },
            FileOp::Delete { .. } | FileOp::Write { .. } | FileOp::Resize { .. }
            | FileOp::Reposition { .. } => {
                match outcome {
                    FileOutcome::Done => {
                        self.task.s_stk.push(0);
                    },
                    _ => {
                        self.task.s_stk.push(io);
                    },
                }
            },
        }
    }
}

} // verus!
