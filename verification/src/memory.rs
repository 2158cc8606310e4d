//! Data space: one flat byte arena with a bump pointer.
//!
//! Addresses are absolute: the first byte of the arena has the address
//! `BASE_ADDR`. The arena starts with the system variables, a null cell
//! followed by the numeric base.
use crate::cell::{
    bits_bytes, bytes_bits, bytes_cell, cell_bytes, decode_cell, encode_cell, lemma_bits_round_trip,
    lemma_cell_round_trip, signed_of, to_signed, to_unsigned, unsigned_of, CELL_SIZE,
};
use crate::exception::{Exception, INVALID_MEMORY_ADDRESS};
use vstd::prelude::*;
use vstd::slice::*;

verus! {

/// Address of the first byte of data space.
pub const BASE_ADDR: usize = 0x4000_0000;

/// Number of bytes that the system variables occupy.
pub const SYSTEM_VARIABLES_SIZE: usize = 16;

/// The block of system variables at the start of data space.
#[derive(Clone, Copy, PartialEq, Eq, Structural, Hash, Debug)]
pub struct SystemVariables {
    pub null: isize,
    pub base: isize,
}

impl SystemVariables {
    /// Address of the cell that holds the numeric base.
    pub fn base_addr(&self) -> (r: usize)
        ensures
            r == BASE_ADDR + CELL_SIZE,
    {
        BASE_ADDR + CELL_SIZE
    }

    /// Reads the system variables from the first sixteen bytes of `buffer`.
    pub fn read(buffer: &[u8]) -> (r: Self)
        requires
            buffer@.len() >= 16,
        ensures
            r.null == bytes_cell(buffer@.subrange(0, 8)),
            r.base == bytes_cell(buffer@.subrange(8, 16)),
    {
        let null = decode_cell(slice_subrange(buffer, 0, 8));
        let base = decode_cell(slice_subrange(buffer, 8, 16));
        SystemVariables { null, base }
    }

    /// Writes the system variables to the first sixteen bytes of `buffer`
    /// and leaves the rest as it is.
    pub fn write(&self, buffer: &mut [u8])
        requires
            old(buffer)@.len() >= 16,
        ensures
            final(buffer)@ == cell_bytes(self.null) + cell_bytes(self.base) + old(
                buffer,
            )@.subrange(16, old(buffer)@.len() as int),
    {
        let a = encode_cell(self.null);
        let b = encode_cell(self.base);
        let mut i: usize = 0;
        while i < 8
            invariant
                i <= 8,
                a@ == cell_bytes(self.null),
                b@ == cell_bytes(self.base),
                a@.len() == 8,
                b@.len() == 8,
                buffer@.len() == old(buffer)@.len(),
                buffer@.len() >= 16,
                forall|j: int| 0 <= j < i ==> buffer@[j] == a@[j],
                forall|j: int| 8 <= j < 8 + i ==> buffer@[j] == b@[j - 8],
                forall|j: int| 16 <= j < buffer@.len() ==> buffer@[j] == old(buffer)@[j],
            decreases 8 - i,
        {
            buffer[i] = a[i];
            buffer[i + 8] = b[i];
            i += 1;
        }
        assert(buffer@ =~= cell_bytes(self.null) + cell_bytes(self.base) + old(buffer)@.subrange(
            16,
            old(buffer)@.len() as int,
        ));
    }
}

/// Writing the system variables and reading them back gives the same values.
pub proof fn lemma_system_variables_round_trip(v: SystemVariables, rest: Seq<u8>)
    ensures
        bytes_cell((cell_bytes(v.null) + cell_bytes(v.base) + rest).subrange(0, 8)) == v.null,
        bytes_cell((cell_bytes(v.null) + cell_bytes(v.base) + rest).subrange(8, 16)) == v.base,
{
    lemma_cell_round_trip(v.null);
    lemma_cell_round_trip(v.base);
    let s = cell_bytes(v.null) + cell_bytes(v.base) + rest;
    assert(s.subrange(0, 8) =~= cell_bytes(v.null));
    assert(s.subrange(8, 16) =~= cell_bytes(v.base));
}

/// The first `N` items of `slice`.
pub fn pull_slice<const N: usize>(slice: &[u8]) -> (r: [u8; N])
    requires
        slice@.len() >= N,
    ensures
        r@ == slice@.subrange(0, N as int),
{
    let mut r = [0u8;N];
    let mut i: usize = 0;
    while i < N
        invariant
            i <= N,
            slice@.len() >= N,
            r@.len() == N,
            forall|j: int| 0 <= j < i ==> r@[j] == slice@[j],
        decreases N - i,
    {
        r[i] = slice[i];
        i += 1;
    }
    assert(r@ =~= slice@.subrange(0, N as int));
    r
}

/// Overwrites the first `N` items of `slice` with `bytes`.
pub fn push_slice<const N: usize>(slice: &mut [u8], bytes: [u8; N])
    requires
        old(slice)@.len() >= N,
    ensures
        final(slice)@ == bytes@ + old(slice)@.subrange(N as int, old(slice)@.len() as int),
{
    let mut i: usize = 0;
    while i < N
        invariant
            i <= N,
            slice@.len() == old(slice)@.len(),
            slice@.len() >= N,
            bytes@.len() == N,
            forall|j: int| 0 <= j < i ==> slice@[j] == bytes@[j],
            forall|j: int| N <= j < slice@.len() ==> slice@[j] == old(slice)@[j],
        decreases N - i,
    {
        slice[i] = bytes[i];
        i += 1;
    }
    assert(slice@ =~= bytes@ + old(slice)@.subrange(N as int, old(slice)@.len() as int));
}

/// First address at or after `pos` that is a multiple of `unit`, wrapping to
/// zero where no such address fits a word.
pub open spec fn aligned_to(pos: usize, unit: usize) -> usize
    recommends
        unit > 0,
{
    if pos % unit == 0 {
        pos
    } else if pos + (unit - pos % unit) > usize::MAX {
        0
    } else {
        (pos + (unit - pos % unit)) as usize
    }
}

/// Computes `aligned_to(pos, unit)`.
pub fn align_up(pos: usize, unit: usize) -> (r: usize)
    requires
        unit > 0,
    ensures
        r == aligned_to(pos, unit),
{
    let rem = pos % unit;
    if rem == 0 {
        pos
    } else {
        match pos.checked_add(unit - rem) {
            Some(r) => r,
            None => 0,
        }
    }
}

/// An aligned address is a multiple of the unit and skips less than one
/// unit.
pub proof fn lemma_aligned_to(pos: usize, unit: usize)
    requires
        unit > 0,
        pos + unit <= usize::MAX,
    ensures
        aligned_to(pos, unit) % unit == 0,
        pos <= aligned_to(pos, unit) < pos + unit,
{
    if pos % unit != 0 {
        let r = pos + (unit - pos % unit);
        assert(r % (unit as int) == 0) by (nonlinear_arith)
            requires
                r == pos + (unit - pos % unit),
                unit > 0,
                pos >= 0,
        {
            assert(pos == unit * (pos / unit) + pos % unit);
            assert(r == unit * (pos / unit + 1));
        }
    }
}

/// What a data space holds: its bytes and the address of the next free one.
pub struct DataSpaceView {
    pub bytes: Seq<u8>,
    pub here: usize,
}

impl DataSpaceView {
    /// A new data space of `cap` bytes: the system variables, a null cell
    /// and the base ten, then zeros, with `here` behind the variables.
    pub open spec fn fresh(cap: int) -> Self {
        DataSpaceView {
            bytes: cell_bytes(0) + cell_bytes(10) + Seq::new((cap - 16) as nat, |i: int| 0u8),
            here: (BASE_ADDR + SYSTEM_VARIABLES_SIZE) as usize,
        }
    }

    /// A new data space of `num_pages` pages of `page` bytes each.
    pub open spec fn paged(num_pages: usize, page: usize) -> Self {
        Self::fresh(num_pages * page)
    }

    /// One past the last address.
    pub open spec fn limit(self) -> int {
        BASE_ADDR + self.bytes.len()
    }

    /// The bytes hold the system variables, every address fits a cell, and
    /// `here` lies in the arena or one past its end.
    pub open spec fn wf(self) -> bool {
        &&& self.bytes.len() >= SYSTEM_VARIABLES_SIZE
        &&& self.limit() <= isize::MAX
        &&& BASE_ADDR <= self.here <= self.limit()
    }

    /// The byte at `addr` lies in the arena.
    pub open spec fn has(self, addr: int) -> bool {
        BASE_ADDR <= addr < self.limit()
    }

    /// The `n` bytes from `addr` on lie in the arena.
    pub open spec fn has_range(self, addr: int, n: int) -> bool {
        BASE_ADDR <= addr && n >= 0 && addr + n <= self.limit()
    }

    /// The cell at `addr` lies in the arena.
    pub open spec fn has_cell(self, addr: int) -> bool {
        self.has_range(addr, 8)
    }

    /// The byte at `addr`.
    pub open spec fn byte(self, addr: int) -> u8 {
        self.bytes[addr - BASE_ADDR]
    }

    /// The `n` bytes from `addr` on.
    pub open spec fn range(self, addr: int, n: int) -> Seq<u8> {
        self.bytes.subrange(addr - BASE_ADDR, addr - BASE_ADDR + n)
    }

    /// The cell at `addr`.
    pub open spec fn cell(self, addr: int) -> isize {
        bytes_cell(self.range(addr, 8))
    }

    /// The cell at `addr`, read as an unsigned word.
    pub open spec fn ucell(self, addr: int) -> usize {
        unsigned_of(self.cell(addr))
    }

    /// The 64-bit pattern at `addr`.
    pub open spec fn bits(self, addr: int) -> u64 {
        bytes_bits(self.range(addr, 8))
    }

    /// The numeric base held in the system variables.
    pub open spec fn base(self) -> isize {
        self.cell(BASE_ADDR + 8)
    }

    /// The data space with the bytes `s` written from `addr` on.
    pub open spec fn put_range(self, addr: int, s: Seq<u8>) -> Self {
        DataSpaceView {
            bytes: self.bytes.subrange(0, addr - BASE_ADDR) + s + self.bytes.subrange(
                addr - BASE_ADDR + s.len(),
                self.bytes.len() as int,
            ),
            ..self
        }
    }

    /// The data space with `v` written at `addr`.
    pub open spec fn put_byte(self, addr: int, v: u8) -> Self {
        DataSpaceView { bytes: self.bytes.update(addr - BASE_ADDR, v), ..self }
    }

    /// The data space with the cell `v` written at `addr`.
    pub open spec fn put_cell(self, addr: int, v: isize) -> Self {
        self.put_range(addr, cell_bytes(v))
    }

    /// The data space with the 64-bit pattern `v` written at `addr`.
    pub open spec fn put_bits(self, addr: int, v: u64) -> Self {
        self.put_range(addr, bits_bytes(v))
    }

    /// The data space with `here` moved to `pos` where `pos` lies in the
    /// arena or one past its end, and unchanged otherwise.
    pub open spec fn set_here(self, pos: int) -> Self {
        if BASE_ADDR <= pos <= self.limit() {
            DataSpaceView { here: pos as usize, ..self }
        } else {
            self
        }
    }

    /// There is room for `n` more bytes at `here`.
    pub open spec fn room(self, n: int) -> bool {
        self.here + n <= self.limit()
    }

    /// The data space with `v` appended at `here`.
    pub open spec fn compile_byte(self, v: u8) -> Self {
        self.put_byte(self.here as int, v).set_here(self.here + 1)
    }

    /// The data space with the cell `v` appended at `here`.
    pub open spec fn compile_cell(self, v: isize) -> Self {
        self.put_cell(self.here as int, v).set_here(self.here + 8)
    }

    /// The data space with the 64-bit pattern `v` appended at `here`.
    pub open spec fn compile_bits(self, v: u64) -> Self {
        self.put_bits(self.here as int, v).set_here(self.here + 8)
    }

    /// The data space with the bytes `s` appended at `here`.
    pub open spec fn compile_range(self, s: Seq<u8>) -> Self {
        self.put_range(self.here as int, s).set_here(self.here + s.len())
    }

    /// The data space with the unsigned words of `vs` appended at `here`,
    /// one cell each.
    pub open spec fn compile_words(self, vs: Seq<usize>) -> Self
        decreases vs.len(),
    {
        if vs.len() == 0 {
            self
        } else {
            self.compile_words(vs.drop_last()).compile_cell(signed_of(vs.last()))
        }
    }

    /// The data space with a string appended at `here`: a cell that holds
    /// its length, then its bytes.
    pub open spec fn compile_str(self, s: Seq<u8>) -> Self {
        self.compile_cell(s.len() as isize).compile_range(s)
    }

    /// The bytes of the string stored at `addr`: a cell that holds the
    /// length, then that many bytes.
    pub open spec fn str_at(self, addr: int) -> Seq<u8> {
        self.range(addr + 8, self.ucell(addr) as int)
    }

    /// A whole string is stored at `addr` within the arena.
    pub open spec fn has_str(self, addr: int) -> bool {
        self.has_cell(addr) && addr + 8 + self.ucell(addr) <= self.limit()
    }

    /// The data space with `here` moved up to the next multiple of `unit`,
    /// or unchanged where that lies beyond the arena.
    pub open spec fn align(self, unit: usize) -> Self {
        self.set_here(aligned_to(self.here, unit) as int)
    }

    /// The data space with `here` moved by `n` bytes, or unchanged where
    /// that lies outside the arena.
    pub open spec fn allot(self, n: isize) -> Self {
        self.set_here(self.here + n)
    }

    /// The data space with a counted string written at `addr`: one byte
    /// that holds the length, capped at 255, then that many bytes of `s`.
    pub open spec fn put_cstr(self, addr: int, s: Seq<u8>) -> Self {
        let n = if s.len() < 255 {
            s.len() as int
        } else {
            255
        };
        self.put_range(addr, seq![n as u8] + s.subrange(0, n))
    }
}

/// A cell stored in data space is read back unchanged, and so is a 64-bit
/// pattern.
pub proof fn lemma_put_get_cell(m: DataSpaceView, addr: int, v: isize, b: u64)
    requires
        m.has_cell(addr),
    ensures
        m.put_cell(addr, v).cell(addr) == v,
        m.put_cell(addr, v).bytes.len() == m.bytes.len(),
        m.put_bits(addr, b).bits(addr) == b,
        m.put_bits(addr, b).bytes.len() == m.bytes.len(),
{
    lemma_cell_round_trip(v);
    lemma_bits_round_trip(b);
    assert(m.put_cell(addr, v).range(addr, 8) =~= cell_bytes(v));
    assert(m.put_bits(addr, b).range(addr, 8) =~= bits_bytes(b));
}

/// A cell stored in data space changes no cell that does not overlap it.
pub proof fn lemma_put_cell_frame(m: DataSpaceView, addr: int, v: isize, other: int)
    requires
        m.has_cell(addr),
        m.has_cell(other),
        other + 8 <= addr || addr + 8 <= other,
    ensures
        m.put_cell(addr, v).cell(other) == m.cell(other),
{
    lemma_cell_round_trip(v);
    assert(m.put_cell(addr, v).range(other, 8) =~= m.range(other, 8));
}

/// Words appended to data space move `here` by a cell each and leave the
/// size of the arena as it is.
pub proof fn lemma_compile_words_shape(m: DataSpaceView, vs: Seq<usize>)
    requires
        m.wf(),
        m.room(8 * (vs.len() as int)),
    ensures
        m.compile_words(vs).wf(),
        m.compile_words(vs).here == m.here + 8 * vs.len(),
        m.compile_words(vs).bytes.len() == m.bytes.len(),
    decreases vs.len(),
{
    if vs.len() > 0 {
        lemma_compile_words_shape(m, vs.drop_last());
        lemma_cell_round_trip(signed_of(vs.last()));
    }
}

/// Words appended to data space are read back, each from its cell.
pub proof fn lemma_compile_words_read(m: DataSpaceView, vs: Seq<usize>, i: int)
    requires
        m.wf(),
        m.room(8 * (vs.len() as int)),
        0 <= i < vs.len(),
    ensures
        m.compile_words(vs).ucell(m.here + 8 * i) == vs[i],
    decreases vs.len(),
{
    let p = m.compile_words(vs.drop_last());
    lemma_compile_words_shape(m, vs.drop_last());
    lemma_cell_round_trip(signed_of(vs.last()));
    crate::cell::lemma_signed_unsigned(0, vs.last());
    let written = p.put_cell(p.here as int, signed_of(vs.last()));
    assert(m.compile_words(vs).bytes == written.bytes);
    if i < vs.len() - 1 {
        lemma_compile_words_read(m, vs.drop_last(), i);
        lemma_put_cell_frame(p, p.here as int, signed_of(vs.last()), m.here + 8 * i);
        assert(vs.drop_last()[i] == vs[i]);
    } else {
        lemma_put_get_cell(p, p.here as int, signed_of(vs.last()), 0);
    }
}

/// A byte stored in data space is read back unchanged.
pub proof fn lemma_put_get_byte(m: DataSpaceView, addr: int, v: u8)
    requires
        m.has(addr),
    ensures
        m.put_byte(addr, v).byte(addr) == v,
        m.put_byte(addr, v).bytes.len() == m.bytes.len(),
{
}

/// Writing a range changes no byte outside it.
pub proof fn lemma_put_range_frame(m: DataSpaceView, addr: int, s: Seq<u8>, other: int)
    requires
        m.has_range(addr, s.len() as int),
        m.has(other),
        other < addr || other >= addr + s.len(),
    ensures
        m.put_range(addr, s).byte(other) == m.byte(other),
        m.put_range(addr, s).bytes.len() == m.bytes.len(),
{
}

/// The data space.
pub struct DataSpace {
    inner: Vec<u8>,
    here: usize,
}

impl View for DataSpace {
    type V = DataSpaceView;

    closed spec fn view(&self) -> DataSpaceView {
        DataSpaceView { bytes: self.inner@, here: self.here }
    }
}

/// `page_size::get`: the size of a memory page on this host. It differs
/// from host to host, so nothing is stated of it.
#[verifier::external_body]
fn host_page_size() -> usize {
    page_size::get()
}

impl DataSpace {
    /// The invariant of the data space, on its view.
    pub open spec fn wf(&self) -> bool {
        self@.wf()
    }

    /// A data space of `num_pages` memory pages of the host, or `None`
    /// where that many bytes cannot serve as a data space.
    pub fn new(num_pages: usize) -> (r: Option<Self>)
        ensures
            r.is_some() ==> r.unwrap().wf() && exists|page: usize|
                r.unwrap()@ == #[trigger] DataSpaceView::paged(num_pages, page),
    {
        let page = host_page_size();
        let r = Self::with_pages(num_pages, page);
        proof {
            if r.is_some() {
                assert(r.unwrap()@ == DataSpaceView::paged(num_pages, page));
            }
        }
        r
    }

    /// A data space of `num_pages` pages of `page_size` bytes each, or
    /// `None` where that is too small for the system variables or too large
    /// for its addresses to fit a cell.
    pub fn with_pages(num_pages: usize, page_size: usize) -> (r: Option<Self>)
        ensures
            r.is_some() <==> SYSTEM_VARIABLES_SIZE <= num_pages * page_size && BASE_ADDR
                + num_pages * page_size <= isize::MAX,
            r.is_some() ==> r.unwrap().wf() && r.unwrap()@ == DataSpaceView::fresh(
                num_pages * page_size,
            ),
    {
        match num_pages.checked_mul(page_size) {
            Some(cap) => {
                if cap >= SYSTEM_VARIABLES_SIZE && cap <= isize::MAX as usize - BASE_ADDR {
                    Some(Self::with_capacity(cap))
                } else {
                    None
                }
            },
            None => None,
        }
    }

    /// A data space of `cap` bytes, all zero but for the system variables,
    /// with `here` just behind them.
    pub fn with_capacity(cap: usize) -> (r: Self)
        requires
            cap >= SYSTEM_VARIABLES_SIZE,
            BASE_ADDR + cap <= isize::MAX,
        ensures
            r.wf(),
            r@ == DataSpaceView::fresh(cap as int),
    {
        let mut inner = vec![0u8; cap];
        let variables = SystemVariables { null: 0, base: 10 };
        variables.write(inner.as_mut_slice());
        proof {
            lemma_cell_round_trip(0);
            lemma_cell_round_trip(10);
            assert(inner@ =~= cell_bytes(0) + cell_bytes(10) + Seq::new(
                (cap - 16) as nat,
                |i: int| 0u8,
            ));
        }
        DataSpace { inner, here: BASE_ADDR + SYSTEM_VARIABLES_SIZE }
    }

    /// The system variables as the data space holds them now.
    pub fn system_variables(&self) -> (r: SystemVariables)
        requires
            self.wf(),
        ensures
            r.null == self@.cell(BASE_ADDR as int),
            r.base == self@.base(),
    {
        SystemVariables::read(self.inner.as_slice())
    }

    /// Address of the first byte.
    pub fn start(&self) -> (r: usize)
        ensures
            r == BASE_ADDR,
    {
        BASE_ADDR
    }

    /// One past the address of the last byte.
    pub fn limit(&self) -> (r: usize)
        requires
            self.wf(),
        ensures
            r == self@.limit(),
    {
        BASE_ADDR + self.inner.len()
    }

    /// Number of bytes in the arena.
    pub fn capacity(&self) -> (r: usize)
        ensures
            r == self@.bytes.len(),
    {
        self.inner.len()
    }

    /// Does the arena hold the address `pos`?
    pub fn has(&self, pos: usize) -> (r: bool)
        requires
            self.wf(),
        ensures
            r == self@.has(pos as int),
    {
        BASE_ADDR <= pos && pos < self.limit()
    }

    /// Does the arena hold the `n` bytes from `pos` on?
    pub fn has_range(&self, pos: usize, n: usize) -> (r: bool)
        requires
            self.wf(),
        ensures
            r == self@.has_range(pos as int, n as int),
    {
        BASE_ADDR <= pos && pos <= self.limit() && n <= self.limit() - pos
    }

    /// Address of the next free byte.
    pub fn here(&self) -> (r: usize)
        requires
            self.wf(),
        ensures
            r == self@.here,
    {
        self.here
    }

    /// Moves `here` to `pos`. `pos` may be one past the last address; any
    /// other address outside the arena is refused and `here` stays.
    pub fn set_here(&mut self, pos: usize) -> (r: Result<(), Exception>)
        requires
            old(self).wf(),
        ensures
            final(self).wf(),
            final(self)@ == old(self)@.set_here(pos as int),
            r.is_ok() <==> BASE_ADDR <= pos <= old(self)@.limit(),
            r.is_err() ==> r == Err::<(), Exception>(INVALID_MEMORY_ADDRESS),
    {
        if BASE_ADDR <= pos && pos <= self.limit() {
            self.here = pos;
            Ok(())
        } else {
            Err(INVALID_MEMORY_ADDRESS)
        }
    }

    /// The byte at `addr`.
    pub fn get_u8(&self, addr: usize) -> (r: u8)
        requires
            self.wf(),
            self@.has(addr as int),
        ensures
            r == self@.byte(addr as int),
    {
        self.inner[addr - BASE_ADDR]
    }

    /// The cell at `addr`.
    pub fn get_isize(&self, addr: usize) -> (r: isize)
        requires
            self.wf(),
            self@.has_cell(addr as int),
        ensures
            r == self@.cell(addr as int),
    {
        let off = addr - BASE_ADDR;
        decode_cell(slice_subrange(self.inner.as_slice(), off, off + 8))
    }

    /// The cell at `addr`, read as an unsigned word.
    pub fn get_usize(&self, addr: usize) -> (r: usize)
        requires
            self.wf(),
            self@.has_cell(addr as int),
        ensures
            r == self@.ucell(addr as int),
    {
        to_unsigned(self.get_isize(addr))
    }

    /// The 64-bit pattern at `addr`.
    pub fn get_bits(&self, addr: usize) -> (r: u64)
        requires
            self.wf(),
            self@.has_cell(addr as int),
        ensures
            r == self@.bits(addr as int),
    {
        let off = addr - BASE_ADDR;
        vstd::bytes::u64_from_le_bytes(slice_subrange(self.inner.as_slice(), off, off + 8))
    }

    /// The `len` bytes from `addr` on.
    pub fn buffer_from_raw_parts(&self, addr: usize, len: usize) -> (r: &[u8])
        requires
            self.wf(),
            self@.has_range(addr as int, len as int),
        ensures
            r@ == self@.range(addr as int, len as int),
    {
        let off = addr - BASE_ADDR;
        slice_subrange(self.inner.as_slice(), off, off + len)
    }

    /// The bytes of the string stored at `addr`.
    pub fn get_str(&self, addr: usize) -> (r: &[u8])
        requires
            self.wf(),
            self@.has_str(addr as int),
        ensures
            r@ == self@.str_at(addr as int),
    {
        let len = self.get_usize(addr);
        self.buffer_from_raw_parts(addr + CELL_SIZE, len)
    }

    /// Stores the byte `v` at `pos`.
    pub fn put_u8(&mut self, v: u8, pos: usize)
        requires
            old(self).wf(),
            old(self)@.has(pos as int),
        ensures
            final(self).wf(),
            final(self)@ == old(self)@.put_byte(pos as int, v),
    {
        self.inner[pos - BASE_ADDR] = v;
    }

    /// Stores the bytes of `s` from `pos` on.
    pub fn put_bytes(&mut self, s: &[u8], pos: usize)
        requires
            old(self).wf(),
            old(self)@.has_range(pos as int, s@.len() as int),
        ensures
            final(self).wf(),
            final(self)@ == old(self)@.put_range(pos as int, s@),
    {
        let off = pos - BASE_ADDR;
        let n = s.len();
        let total = self.inner.len();
        let mut i: usize = 0;
        while i < n
            invariant
                i <= n,
                n == s@.len(),
                off + n <= total,
                total == self.inner@.len(),
                self.inner@.len() == old(self).inner@.len(),
                self.here == old(self).here,
                forall|j: int| 0 <= j < off ==> self.inner@[j] == old(self).inner@[j],
                forall|j: int| off <= j < off + i ==> self.inner@[j] == s@[j - off],
                forall|j: int|
                    off + i <= j < self.inner@.len() ==> self.inner@[j] == old(self).inner@[j],
            decreases n - i,
        {
            self.inner[off + i] = s[i];
            i += 1;
        }
        assert(self@.bytes =~= old(self)@.put_range(pos as int, s@).bytes);
    }

    /// Stores the cell `v` at `pos`.
    pub fn put_isize(&mut self, v: isize, pos: usize)
        requires
            old(self).wf(),
            old(self)@.has_cell(pos as int),
        ensures
            final(self).wf(),
            final(self)@ == old(self)@.put_cell(pos as int, v),
    {
        let b = encode_cell(v);
        self.put_bytes(b.as_slice(), pos);
    }

    /// Stores the unsigned word `v` at `pos`, as the cell with the same bits.
    pub fn put_usize(&mut self, v: usize, pos: usize)
        requires
            old(self).wf(),
            old(self)@.has_cell(pos as int),
        ensures
            final(self).wf(),
            final(self)@ == old(self)@.put_cell(pos as int, signed_of(v)),
    {
        self.put_isize(to_signed(v), pos);
    }

    /// Stores the 64-bit pattern `v` at `pos`.
    pub fn put_bits(&mut self, v: u64, pos: usize)
        requires
            old(self).wf(),
            old(self)@.has_cell(pos as int),
        ensures
            final(self).wf(),
            final(self)@ == old(self)@.put_bits(pos as int, v),
    {
        let b = vstd::bytes::u64_to_le_bytes(v);
        self.put_bytes(b.as_slice(), pos);
    }

    /// Appends the byte `v` at `here`.
    pub fn compile_u8(&mut self, v: u8)
        requires
            old(self).wf(),
            old(self)@.room(1),
        ensures
            final(self).wf(),
            final(self)@ == old(self)@.compile_byte(v),
    {
        let here = self.here();
        self.put_u8(v, here);
        let _ = self.set_here(here + 1);
    }

    /// Appends the cell `v` at `here`.
    pub fn compile_isize(&mut self, v: isize)
        requires
            old(self).wf(),
            old(self)@.room(8),
        ensures
            final(self).wf(),
            final(self)@ == old(self)@.compile_cell(v),
    {
        let here = self.here();
        self.put_isize(v, here);
        proof {
            lemma_cell_round_trip(v);
        }
        let _ = self.set_here(here + CELL_SIZE);
    }

    /// Appends the unsigned word `v` at `here`.
    pub fn compile_usize(&mut self, v: usize)
        requires
            old(self).wf(),
            old(self)@.room(8),
        ensures
            final(self).wf(),
            final(self)@ == old(self)@.compile_cell(signed_of(v)),
    {
        self.compile_isize(to_signed(v));
    }

    /// Appends the 64-bit pattern `v` at `here`.
    pub fn compile_bits(&mut self, v: u64)
        requires
            old(self).wf(),
            old(self)@.room(8),
        ensures
            final(self).wf(),
            final(self)@ == old(self)@.compile_bits(v),
    {
        let here = self.here();
        self.put_bits(v, here);
        proof {
            lemma_bits_round_trip(v);
        }
        let _ = self.set_here(here + CELL_SIZE);
    }

    /// Appends the unsigned words of `vs` at `here`, one cell each.
    pub fn compile_usizes(&mut self, vs: &[usize])
        requires
            old(self).wf(),
            old(self)@.room(8 * (vs@.len() as int)),
        ensures
            final(self).wf(),
            final(self)@ == old(self)@.compile_words(vs@),
            final(self)@.here == old(self)@.here + 8 * vs@.len(),
            final(self)@.bytes.len() == old(self)@.bytes.len(),
    {
        let n = vs.len();
        let mut i: usize = 0;
        while i < n
            invariant
                i <= n,
                n == vs@.len(),
                self.wf(),
                old(self)@.room(8 * (vs@.len() as int)),
                old(self).wf(),
                self@ == old(self)@.compile_words(vs@.subrange(0, i as int)),
                self@.here == old(self)@.here + 8 * i,
                self@.bytes.len() == old(self)@.bytes.len(),
            decreases n - i,
        {
            assert(vs@.subrange(0, i + 1).drop_last() =~= vs@.subrange(0, i as int));
            proof {
                lemma_cell_round_trip(signed_of(vs@[i as int]));
            }
            self.compile_usize(vs[i]);
            i += 1;
        }
        assert(vs@.subrange(0, n as int) =~= vs@);
    }

    /// Appends the distance from the end of the appended cell to `f`,
    /// wrapping.
    pub fn compile_relative(&mut self, f: usize)
        requires
            old(self).wf(),
            old(self)@.room(8),
        ensures
            final(self).wf(),
            final(self)@ == old(self)@.compile_cell(
                signed_of(f.wrapping_sub((old(self)@.here + 8) as usize)),
            ),
    {
        let there = self.here() + CELL_SIZE;
        self.compile_usize(f.wrapping_sub(there));
    }

    /// Writes `s` at `pos` as a counted string: one byte that holds the
    /// length, capped at 255, then that many bytes.
    pub fn put_cstr(&mut self, s: &[u8], pos: usize)
        requires
            old(self).wf(),
            old(self)@.has_range(
                pos as int,
                1 + if s@.len() < 255 {
                    s@.len() as int
                } else {
                    255
                },
            ),
        ensures
            final(self).wf(),
            final(self)@ == old(self)@.put_cstr(pos as int, s@),
    {
        let len: usize = if s.len() < 255 {
            s.len()
        } else {
            255
        };
        self.put_u8(len as u8, pos);
        self.put_bytes(slice_subrange(s, 0, len), pos + 1);
        assert(self@.bytes =~= old(self)@.put_cstr(pos as int, s@).bytes);
    }

    /// Appends `s` at `here` as a string, a cell that holds the length and
    /// then the bytes, and returns the address of that cell.
    pub fn compile_str(&mut self, s: &[u8]) -> (r: usize)
        requires
            old(self).wf(),
            old(self)@.room(s@.len() as int + 8),
        ensures
            final(self).wf(),
            final(self)@ == old(self)@.compile_str(s@),
            r == old(self)@.here,
    {
        let here = self.here();
        self.compile_isize(s.len() as isize);
        proof {
            lemma_cell_round_trip(s@.len() as isize);
        }
        let at = self.here();
        self.put_bytes(s, at);
        let _ = self.set_here(at + s.len());
        here
    }

    /// First cell-aligned address at or after `pos`.
    pub fn aligned(pos: usize) -> (r: usize)
        ensures
            r == aligned_to(pos, 8),
    {
        align_up(pos, 8)
    }

    /// Moves `here` up to a cell boundary.
    pub fn align(&mut self)
        requires
            old(self).wf(),
        ensures
            final(self).wf(),
            final(self)@ == old(self)@.align(8),
    {
        let here = self.here();
        let _ = self.set_here(Self::aligned(here));
    }

    /// First float-aligned address at or after `pos`.
    pub fn aligned_float(pos: usize) -> (r: usize)
        ensures
            r == aligned_to(pos, 8),
    {
        align_up(pos, 8)
    }

    /// Moves `here` up to a float boundary.
    pub fn align_float(&mut self)
        requires
            old(self).wf(),
        ensures
            final(self).wf(),
            final(self)@ == old(self)@.align(8),
    {
        let here = self.here();
        let _ = self.set_here(Self::aligned_float(here));
    }

    /// First address at or after `pos` on a 16-byte boundary.
    pub fn aligned_16bytes(pos: usize) -> (r: usize)
        ensures
            r == aligned_to(pos, 16),
    {
        align_up(pos, 16)
    }

    /// Moves `here` up to a 16-byte boundary.
    pub fn align_16bytes(&mut self)
        requires
            old(self).wf(),
        ensures
            final(self).wf(),
            final(self)@ == old(self)@.align(16),
    {
        let here = self.here();
        let _ = self.set_here(Self::aligned_16bytes(here));
    }

    /// Reserves `v` bytes at `here`, or releases `-v` bytes where `v` is
    /// negative. A move out of the arena is not made.
    pub fn allot(&mut self, v: isize)
        requires
            old(self).wf(),
        ensures
            final(self).wf(),
            final(self)@ == old(self)@.allot(v),
    {
        let here = self.here();
        if v >= 0 {
            if (v as usize) <= self.limit() - here {
                let _ = self.set_here(here + v as usize);
            }
        } else {
            if v >= -(here as isize) {
                let _ = self.set_here((here as isize + v) as usize);
            }
        }
    }

    /// Moves `here` back to `pos`.
    pub fn truncate(&mut self, pos: usize)
        requires
            old(self).wf(),
        ensures
            final(self).wf(),
            final(self)@ == old(self)@.set_here(pos as int),
    {
        let _ = self.set_here(pos);
    }
}

} // verus!
