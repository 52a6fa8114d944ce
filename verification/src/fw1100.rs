//! The kernel of firmware 11.00: where its image keeps what the dumper needs,
//! and how its structures are laid out.

use crate::abi::KernelVersion;
use crate::file::File as FileObject;
use crate::patch::{Patch, NOP};
use crate::thread::Thread as ThreadObject;
use std::sync::atomic::AtomicU32;
use vstd::prelude::*;

verus! {

/// Offset of `f_count` in the `file` structure.
pub const FILE_REFCNT: usize = 0x28;

/// Offset of `td_retval` in the `thread` structure.
pub const THREAD_RETVAL: usize = 0x398;

/// The offsets of the build. `kern_fsync` and `kern_writev` have not been
/// found in it.
pub fn version() -> (v: KernelVersion)
    ensures
        v == (KernelVersion {
            fget_write: Some(0x4191C0u64),
            fdrop: Some(0x4161B0u64),
            kern_openat: Some(0xE63B0u64),
            kern_close: Some(0x416920u64),
            kern_fsync: None,
            kern_writev: None,
            sysents: 0x1101760,
        }),
{
    KernelVersion {
        fget_write: Some(0x4191C0),
        fdrop: Some(0x4161B0),
        kern_openat: Some(0xE63B0),
        kern_close: Some(0x416920),
        kern_fsync: None,
        kern_writev: None,
        sysents: 0x1101760,
    }
}

/// The patches that take the address checks out of `copyout`, `copyin` and
/// `copyinstr`: each replaces a jump by instructions that do nothing.
pub fn copy_guards() -> (patches: Vec<Patch>)
    ensures
        patches@ == seq![
            Patch { offset: 0x2DDF42, len: 2, fill: NOP },
            Patch { offset: 0x2DDF4E, len: 3, fill: NOP },
            Patch { offset: 0x2DE037, len: 2, fill: NOP },
            Patch { offset: 0x2DE043, len: 3, fill: NOP },
            Patch { offset: 0x2DE4E3, len: 2, fill: NOP },
            Patch { offset: 0x2DE4EF, len: 3, fill: NOP },
            Patch { offset: 0x2DE520, len: 2, fill: NOP },
        ],
{
    vec![
        Patch { offset: 0x2DDF42, len: 2, fill: NOP },  // copyout
        Patch { offset: 0x2DDF4E, len: 3, fill: NOP },  // copyout
        Patch { offset: 0x2DE037, len: 2, fill: NOP },  // copyin
        Patch { offset: 0x2DE043, len: 3, fill: NOP },  // copyin
        Patch { offset: 0x2DE4E3, len: 2, fill: NOP },  // copyinstr
        Patch { offset: 0x2DE4EF, len: 3, fill: NOP },  // copyinstr
        Patch { offset: 0x2DE520, len: 2, fill: NOP },  // copyinstr
    ]
}

/// The patches that give `kmem_alloc` back the two bytes that the exploit
/// has changed in it.
pub fn kmem_alloc() -> (patches: Vec<Patch>)
    ensures
        patches@ == seq![
            Patch { offset: 0x245EDC, len: 1, fill: 3 },
            Patch { offset: 0x245EE4, len: 1, fill: 3 },
        ],
{
    vec![Patch { offset: 0x245EDC, len: 1, fill: 3 }, Patch { offset: 0x245EE4, len: 1, fill: 3 }]
}

/// What the dumper reads of the `file` structure: the count of references.
pub struct File {
    refcnt: AtomicU32,
}

impl File {
    /// A file object with `count` references.
    pub fn new(count: u32) -> Self {
        Self { refcnt: AtomicU32::new(count) }
    }
}

impl FileObject for File {
    closed spec fn counter(&self) -> &AtomicU32 {
        &self.refcnt
    }

    fn refcnt(&self) -> (count: &AtomicU32) {
        &self.refcnt
    }
}

/// What the dumper reads of the `thread` structure: the return values.
#[derive(Debug, Clone, Copy, PartialEq, Eq)]
pub struct Thread {
    ret: [usize; 2],
}

impl Thread {
    /// A thread with the return values `ret`.
    pub fn new(ret: [usize; 2]) -> (td: Self)
        ensures
            td.retval(0) == ret[0],
            td.retval(1) == ret[1],
    {
        Self { ret }
    }
}

impl ThreadObject for Thread {
    closed spec fn retval(&self, i: int) -> usize {
        self.ret[i]
    }

    fn ret(&self, i: usize) -> (v: usize) {
        self.ret[i]
    }
}

} // verus!
