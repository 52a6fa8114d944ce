//! The extent of the kernel image that is mapped in memory.
//!
//! The kernel is an ELF image. Its program headers say which ranges of
//! addresses it occupies, and the end of the last such range is the end of the
//! image. The headers are read from a copy of the first bytes of the image.

use crate::bytes::{le_u16, le_u32, le_u64, read_u16, read_u32, read_u64};
use crate::elf::ProgramType;
use vstd::prelude::*;

verus! {

/// Offset of the number of program headers (`e_phnum`) in the ELF header.
pub const EHDR_PHNUM: usize = 0x38;

/// Size of the ELF header: the program headers follow it.
pub const EHDR_SIZE: usize = 0x40;

/// Size of one program header.
pub const PHDR_SIZE: usize = 0x38;

/// Offset of the type (`p_type`) in a program header.
pub const PHDR_TYPE: usize = 0x00;

/// Offset of the virtual address (`p_vaddr`) in a program header.
pub const PHDR_VADDR: usize = 0x10;

/// Offset of the size in memory (`p_memsz`) in a program header.
pub const PHDR_MEMSZ: usize = 0x28;

/// Offset of the alignment (`p_align`) in a program header.
pub const PHDR_ALIGN: usize = 0x30;

/// What the scan reads of one program header.
#[derive(Debug, Clone, Copy, PartialEq, Eq, Structural)]
pub struct Program {
    pub ty: ProgramType,
    pub addr: u64,
    pub len: u64,
    pub align: u64,
}

/// Why the program headers of an image give no extent.
#[derive(Debug, Clone, Copy, PartialEq, Eq, Structural)]
pub enum ImageError {
    /// The bytes end before the last program header does.
    Truncated,
    /// The mapped program at `index` starts below the end of the one before.
    Unordered { index: usize },
    /// The mapped program at `index` has an alignment of zero.
    ZeroAlignment { index: usize },
    /// The end of the mapped program at `index` is not an address.
    Overflow { index: usize },
}

/// Number of program headers that the ELF header announces.
pub open spec fn program_count(image: Seq<u8>) -> int {
    le_u16(image, EHDR_PHNUM as int)
}

/// Offset of the program header `i` in the image.
pub open spec fn program_offset(i: int) -> int {
    EHDR_SIZE + i * PHDR_SIZE
}

/// Whether the image holds its ELF header and all the program headers.
pub open spec fn holds_programs(image: Seq<u8>) -> bool {
    EHDR_SIZE <= image.len() && program_offset(program_count(image)) <= image.len()
}

/// The program header `i` of the image.
pub open spec fn program(image: Seq<u8>, i: int) -> Program {
    Program {
        ty: ProgramType::spec_new(le_u32(image, program_offset(i) + PHDR_TYPE) as u32),
        addr: le_u64(image, program_offset(i) + PHDR_VADDR) as u64,
        len: le_u64(image, program_offset(i) + PHDR_MEMSZ) as u64,
        align: le_u64(image, program_offset(i) + PHDR_ALIGN) as u64,
    }
}

/// The least multiple of `align` that is not below `n`, for a positive
/// `align`.
pub open spec fn round_up(n: int, align: int) -> int {
    if n % align == 0 {
        n
    } else {
        n + align - n % align
    }
}

impl Program {
    /// The address just behind this program: its start plus its size, the
    /// size rounded up to its alignment.
    pub open spec fn end(&self) -> int {
        self.addr + round_up(self.len as int, self.align as int)
    }

    /// What is wrong with this program, the one at `index`, if it is mapped
    /// and the mapped programs before it end at `end`: it starts below that
    /// end, or it has no alignment, or it ends behind the last address.
    pub open spec fn fault(&self, end: int, index: int) -> Option<ImageError> {
        if !self.ty.spec_is_mapped() {
            None
        } else if self.addr < end {
            Some(ImageError::Unordered { index: index as usize })
        } else if self.align == 0 {
            Some(ImageError::ZeroAlignment { index: index as usize })
        } else if self.end() > u64::MAX {
            Some(ImageError::Overflow { index: index as usize })
        } else {
            None
        }
    }
}

/// The end of the image as the first `n` program headers give it: the end of
/// the last mapped program among them, and `base` where none is mapped.
pub open spec fn end_after(base: int, image: Seq<u8>, n: int) -> int
    decreases n,
{
    if n <= 0 {
        base
    } else if program(image, n - 1).ty.spec_is_mapped() {
        program(image, n - 1).end()
    } else {
        end_after(base, image, n - 1)
    }
}

/// What is wrong with the program header `i`, given the headers before it.
pub open spec fn fault_at(base: int, image: Seq<u8>, i: int) -> Option<ImageError> {
    program(image, i).fault(end_after(base, image, i), i)
}

/// Whether none of the first `n` program headers has a fault.
pub open spec fn sound_before(base: int, image: Seq<u8>, n: int) -> bool {
    forall|i: int| 0 <= i < n ==> fault_at(base, image, i) is None
}

/// The length of the mapped image, or why the headers give none: the fault
/// of the first program header that has one.
pub open spec fn mapped_len(base: int, image: Seq<u8>) -> Result<int, ImageError> {
    if !holds_programs(image) {
        Err(ImageError::Truncated)
    } else if sound_before(base, image, program_count(image)) {
        Ok(end_after(base, image, program_count(image)) - base)
    } else {
        let first = choose|i: int|
            0 <= i < program_count(image) && sound_before(base, image, i) && fault_at(
                base,
                image,
                i,
            ) is Some;
        Err(fault_at(base, image, first)->Some_0)
    }
}

/// Rounding up gives a multiple of the alignment that is not below the
/// number and less than one alignment above it.
pub proof fn lemma_round_up(n: int, align: int)
    requires
        0 <= n,
        0 < align,
    ensures
        round_up(n, align) % align == 0,
        n <= round_up(n, align) < n + align,
{
    let r = round_up(n, align);
    assert(r % align == 0 && n <= r < n + align) by (nonlinear_arith)
        requires
            0 <= n,
            0 < align,
            r == if n % align == 0 {
                n
            } else {
                n + align - n % align
            },
    ;
}

/// No multiple of the alignment lies between a number and what it rounds up
/// to.
pub proof fn lemma_round_up_least(n: int, align: int, m: int)
    requires
        0 <= n <= m,
        0 < align,
        m % align == 0,
    ensures
        round_up(n, align) <= m,
{
    let r = round_up(n, align);
    lemma_round_up(n, align);
    if m < r {
        assert(false) by (nonlinear_arith)
            requires
                n <= m < r,
                r < n + align,
                r % align == 0,
                m % align == 0,
                0 < align,
        ;
    }
}

/// Rounds `n` up to a multiple of `align`; `None` where that multiple is not
/// a 64-bit number.
pub fn checked_round_up(n: u64, align: u64) -> (r: Option<u64>)
    requires
        align > 0,
    ensures
        r is Some <==> round_up(n as int, align as int) <= u64::MAX,
        r is Some ==> r->Some_0 == round_up(n as int, align as int),
{
    let rest: u64 = n % align;
    if rest == 0 {
        Some(n)
    } else {
        n.checked_add(align - rest)
    }
}

/// Number of bytes that the ELF header and the program headers take
/// together, read from the ELF header; `None` where the bytes end before the
/// ELF header does.
pub fn headers_len(image: &[u8]) -> (n: Option<usize>)
    ensures
        n is Some <==> EHDR_SIZE <= image@.len(),
        n is Some ==> n->Some_0 == program_offset(program_count(image@)),
{
    if image.len() < EHDR_SIZE {
        return None;
    }
    let count: usize = read_u16(image, EHDR_PHNUM) as usize;
    Some(EHDR_SIZE + count * PHDR_SIZE)
}

/// Reads the program header `i`.
pub fn read_program(image: &[u8], i: usize) -> (p: Program)
    requires
        i < program_count(image@),
        holds_programs(image@),
    ensures
        p == program(image@, i as int),
{
    let at: usize = EHDR_SIZE + i * PHDR_SIZE;
    Program {
        ty: ProgramType::new(read_u32(image, at + PHDR_TYPE)),
        addr: read_u64(image, at + PHDR_VADDR),
        len: read_u64(image, at + PHDR_MEMSZ),
        align: read_u64(image, at + PHDR_ALIGN),
    }
}

/// Checks the mapped program `p`, the one at `index`, against the end of the
/// mapped programs before it, and returns the address at which it ends.
pub fn check_program(p: &Program, end: u64, index: usize) -> (r: Result<u64, ImageError>)
    requires
        p.ty.spec_is_mapped(),
    ensures
        match r {
            Ok(next) => p.fault(end as int, index as int) is None && next == p.end(),
            Err(e) => p.fault(end as int, index as int) == Some(e),
        },
{
    if p.addr < end {
        return Err(ImageError::Unordered { index });
    }
    if p.align == 0 {
        return Err(ImageError::ZeroAlignment { index });
    }
    let span = match checked_round_up(p.len, p.align) {
        Some(span) => span,
        None => { return Err(ImageError::Overflow { index }); },
    };
    match p.addr.checked_add(span) {
        Some(next) => Ok(next),
        None => Err(ImageError::Overflow { index }),
    }
}

/// Scans the program headers of the image loaded at `base` and returns the
/// number of bytes that the image occupies from `base` on.
///
/// `image` holds the first bytes of the image: the ELF header and the program
/// headers. Programs that are not mapped are skipped. Each mapped program has
/// to start at or behind the end of the mapped program before it (at or
/// behind `base` for the first); the scan stops at the first that does not.
pub fn scan_programs(base: u64, image: &[u8]) -> (r: Result<u64, ImageError>)
    ensures
        match r {
            Ok(len) => mapped_len(base as int, image@) == Ok::<int, ImageError>(len as int),
            Err(e) => mapped_len(base as int, image@) == Err::<int, ImageError>(e),
        },
{
    if image.len() < EHDR_SIZE {
        return Err(ImageError::Truncated);
    }
    let count: usize = read_u16(image, EHDR_PHNUM) as usize;
    if image.len() < EHDR_SIZE + count * PHDR_SIZE {
        return Err(ImageError::Truncated);
    }
    let mut end: u64 = base;
    let mut i: usize = 0;
    while i < count
        invariant
            i <= count,
            count == program_count(image@),
            holds_programs(image@),
            sound_before(base as int, image@, i as int),
            end == end_after(base as int, image@, i as int),
            base <= end,
        decreases count - i,
    {
        let p = read_program(image, i);
        if p.ty.is_mapped() {
            match check_program(&p, end, i) {
                Ok(next) => {
                    proof {
                        lemma_round_up(p.len as int, p.align as int);
                    }
                    end = next;
                },
                Err(e) => {
                    proof {
                        lemma_first_fault(base as int, image@, i as int);
                    }
                    return Err(e);
                },
            }
        }
        i += 1;
    }
    Ok(end - base)
}

/// Returns the number of bytes that the image loaded at `base` occupies, for
/// program headers of which [`scan_programs`] finds no fault. Headers with a
/// fault belong to another kernel build than the one this was told of: the
/// caller has to stop on them.
pub fn get_mapped_elf(base: u64, image: &[u8]) -> (len: u64)
    requires
        mapped_len(base as int, image@) is Ok,
    ensures
        mapped_len(base as int, image@) == Ok::<int, ImageError>(len as int),
{
    match scan_programs(base, image) {
        Ok(len) => len,
        Err(_) => 0,
    }
}

/// The kernel image in memory: where it starts and how many bytes it
/// occupies. The bytes may change while they are read, as some of the mapped
/// programs are writable.
#[derive(Debug, Clone, Copy, PartialEq, Eq, Structural)]
pub struct KernelImage {
    base: u64,
    len: u64,
}

impl KernelImage {
    /// Address of the first byte.
    pub closed spec fn spec_base(&self) -> u64 {
        self.base
    }

    /// Number of bytes.
    pub closed spec fn spec_len(&self) -> u64 {
        self.len
    }

    /// The image ends at an address.
    #[verifier::type_invariant]
    spec fn ends_at_address(&self) -> bool {
        self.base + self.len <= u64::MAX
    }

    /// The image that is loaded at `base`, its extent taken from the program
    /// headers in `image`.
    pub fn new(base: u64, image: &[u8]) -> (k: Self)
        requires
            mapped_len(base as int, image@) is Ok,
        ensures
            k.spec_base() == base,
            mapped_len(base as int, image@) == Ok::<int, ImageError>(k.spec_len() as int),
    {
        let len = get_mapped_elf(base, image);
        proof {
            lemma_end_is_address(base as int, image@, program_count(image@));
        }
        Self { base, len }
    }

    /// Address of the first byte.
    #[verifier::when_used_as_spec(spec_base)]
    pub fn base(&self) -> (a: u64)
        ensures
            a == self.spec_base(),
    {
        self.base
    }

    /// Number of bytes.
    #[verifier::when_used_as_spec(spec_len)]
    pub fn len(&self) -> (n: u64)
        ensures
            n == self.spec_len(),
    {
        self.len
    }

    /// The address `offset` bytes behind the base, for an offset that does
    /// not lead out of the image.
    pub fn address_at(&self, offset: u64) -> (addr: u64)
        requires
            offset <= self.spec_len(),
        ensures
            addr == self.spec_base() + offset,
    {
        proof {
            use_type_invariant(self);
        }
        self.base + offset
    }

    /// The address of the byte at `offset`, if the image holds such a byte.
    pub fn address_of(&self, offset: u64) -> (addr: Option<u64>)
        ensures
            addr is Some <==> offset < self.spec_len(),
            addr is Some ==> addr->Some_0 == self.spec_base() + offset,
    {
        proof {
            use_type_invariant(self);
        }
        if offset < self.len {
            Some(self.base + offset)
        } else {
            None
        }
    }
}

/// Where no program header has a fault, the end that they give is an address
/// at or behind the base.
pub proof fn lemma_end_is_address(base: int, image: Seq<u8>, n: int)
    requires
        0 <= base <= u64::MAX,
        sound_before(base, image, n),
    ensures
        base <= end_after(base, image, n) <= u64::MAX,
    decreases n,
{
    if n > 0 {
        assert(sound_before(base, image, n - 1));
        lemma_end_is_address(base, image, n - 1);
        let p = program(image, n - 1);
        assert(fault_at(base, image, n - 1) is None);
        if p.ty.spec_is_mapped() {
            lemma_round_up(p.len as int, p.align as int);
        }
    }
}

/// Where no program header has a fault, the end of the image moves up, never
/// down, as more headers are taken in.
pub proof fn lemma_end_grows(base: int, image: Seq<u8>, m: int, n: int)
    requires
        0 <= m <= n,
        sound_before(base, image, n),
    ensures
        end_after(base, image, m) <= end_after(base, image, n),
    decreases n - m,
{
    if m < n {
        lemma_end_grows(base, image, m, n - 1);
        let p = program(image, n - 1);
        assert(fault_at(base, image, n - 1) is None);
        if p.ty.spec_is_mapped() {
            lemma_round_up(p.len as int, p.align as int);
        }
    }
}

/// In an image whose headers give an extent, the mapped programs lie in the
/// order of their headers, one behind the other, and inside the extent: each
/// starts at or behind the base, a later one starts at or behind the end of
/// an earlier one, and none ends behind the end of the image.
pub proof fn lemma_programs_in_order(base: int, image: Seq<u8>, i: int, j: int)
    requires
        mapped_len(base, image) is Ok,
        0 <= i < j < program_count(image),
        program(image, i).ty.spec_is_mapped(),
        program(image, j).ty.spec_is_mapped(),
    ensures
        base <= program(image, i).addr,
        program(image, i).end() <= program(image, j).addr,
        program(image, j).end() <= base + mapped_len(base, image)->Ok_0,
{
    let n = program_count(image);
    assert(sound_before(base, image, n));
    assert(fault_at(base, image, i) is None);
    assert(fault_at(base, image, j) is None);
    lemma_end_grows(base, image, 0, i);
    lemma_end_grows(base, image, i + 1, j);
    lemma_end_grows(base, image, j + 1, n);
}

/// The first program header with a fault decides the error of the scan.
pub proof fn lemma_first_fault(base: int, image: Seq<u8>, i: int)
    requires
        holds_programs(image),
        0 <= i < program_count(image),
        sound_before(base, image, i),
        fault_at(base, image, i) is Some,
    ensures
        mapped_len(base, image) == Err::<int, ImageError>(fault_at(base, image, i)->Some_0),
{
    let n = program_count(image);
    assert(!sound_before(base, image, n));
    let first = choose|k: int|
        0 <= k < n && sound_before(base, image, k) && fault_at(base, image, k) is Some;
    assert(0 <= first < n && sound_before(base, image, first) && fault_at(base, image, first)
        is Some);
    if first < i {
        assert(fault_at(base, image, first) is None);
    }
    if i < first {
        assert(fault_at(base, image, i) is None);
    }
}

} // verus!
