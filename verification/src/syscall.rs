//! Dumping through the kernel's table of system calls.
//!
//! The handlers of the table copy their arguments with `copyin`, `copyout`
//! and `copyinstr`, which refuse addresses inside the kernel. The method
//! therefore needs the checks of those three patched away first, so it can
//! not give an unpatched dump. It is the method for a build of which nothing
//! but the place of the table is known.

use crate::abi::Kernel;
use crate::method::{DumpMethod, OpenFlags, Request, Syscall, WriteOp};
use crate::patch::{all_fit, critical_section, plan, Patch, Step};
use vstd::prelude::*;

verus! {

/// Number of entries in the table of system calls.
pub const SYSENT_COUNT: u64 = 678;

/// Size of one entry (`sysent`).
pub const SYSENT_SIZE: u64 = 0x30;

/// Offset of the handler (`sy_call`) in an entry.
pub const SYSENT_HANDLER: u64 = 0x8;

/// Index of `write` in the table.
pub const SYS_WRITE: usize = 4;

/// Index of `open` in the table.
pub const SYS_OPEN: usize = 5;

/// Index of `close` in the table.
pub const SYS_CLOSE: usize = 6;

/// Index of `fsync` in the table.
pub const SYS_FSYNC: usize = 95;

/// Implementation of [`DumpMethod`] using system calls.
#[derive(Debug, Clone, Copy)]
pub struct SyscallMethod {
    sysents: u64,
}

impl SyscallMethod {
    /// The table ends at an address.
    #[verifier::type_invariant]
    spec fn table_ends_at_address(&self) -> bool {
        self.sysents + SYSENT_COUNT * SYSENT_SIZE <= u64::MAX
    }

    /// Address of the table of system calls.
    pub closed spec fn spec_sysents(&self) -> u64 {
        self.sysents
    }

    /// Address of the handler field of the entry `index`.
    pub open spec fn spec_handler(&self, index: usize) -> u64 {
        (self.spec_sysents() + index * SYSENT_SIZE + SYSENT_HANDLER) as u64
    }

    /// Whether the whole table lies inside the image of the kernel.
    pub open spec fn table_fits(kernel: Kernel) -> bool {
        kernel.spec_version().sysents + SYSENT_COUNT * SYSENT_SIZE <= kernel.spec_elf().spec_len()
    }

    /// The method for this kernel. There is none if the table of system
    /// calls, at the offset that the build gives, does not lie inside the
    /// image.
    pub fn new(kernel: &Kernel) -> (method: Option<Self>)
        ensures
            method is Some <==> Self::table_fits(*kernel),
            method is Some ==> method->Some_0.spec_sysents() == kernel.spec_elf().spec_base()
                + kernel.spec_version().sysents,
    {
        let image = kernel.elf();
        let off: u64 = kernel.version().sysents;
        if image.len() < SYSENT_COUNT * SYSENT_SIZE || off > image.len() - SYSENT_COUNT
            * SYSENT_SIZE {
            return None;
        }
        // The table ends inside the image, so it ends at an address.
        let _end: u64 = image.address_at(off + SYSENT_COUNT * SYSENT_SIZE);
        Some(Self { sysents: image.address_at(off) })
    }

    /// Lays out the critical section that removes the address checks from
    /// `copyin`, `copyout` and `copyinstr`, given the value `cr0` of CR0 and
    /// the patches of the build. It has to be carried out before the first
    /// request is made.
    pub fn patch_kernel(kernel: &Kernel, cr0: u64, patches: &Vec<Patch>) -> (steps: Option<
        Vec<Step>,
    >)
        ensures
            steps is Some <==> all_fit(kernel.spec_elf(), patches@),
            steps is Some ==> steps->Some_0@ == critical_section(
                kernel.spec_elf(),
                cr0,
                patches@,
            ),
    {
        let image = kernel.elf();
        plan(&image, cr0, patches)
    }

    /// Address of the handler field of the entry `index`: the handler to
    /// call is the routine whose address is stored there.
    #[verifier::when_used_as_spec(spec_handler)]
    pub fn handler(&self, index: usize) -> (addr: u64)
        requires
            index < SYSENT_COUNT,
        ensures
            addr == self.spec_handler(index),
            addr == self.spec_sysents() + index * SYSENT_SIZE + SYSENT_HANDLER,
    {
        proof {
            use_type_invariant(self);
        }
        self.sysents + (index as u64) * SYSENT_SIZE + SYSENT_HANDLER
    }
}

/// The word that carries a C `int` to a handler: the number, sign-extended.
pub open spec fn int_word(v: i32) -> u64 {
    v as i64 as u64
}

/// The word that carries a C `int` to a handler.
pub fn int_to_word(v: i32) -> (w: u64)
    ensures
        w == int_word(v),
{
    v as i64 as u64
}

impl DumpMethod for SyscallMethod {
    open spec fn opens(&self, r: Request, td: u64, path: u64, flags: OpenFlags, mode: i32) -> bool {
        r matches Request::Syscall(s) && s.index == SYS_OPEN && s.handler == self.spec_handler(
            SYS_OPEN,
        ) && s.args@ == seq![path, flags@ as u64, int_word(mode)]
    }

    open spec fn writes(&self, r: WriteOp, td: u64, fd: i32, buf: u64, len: usize) -> bool {
        r matches WriteOp::Ask(Request::Syscall(s)) && s.index == SYS_WRITE && s.handler
            == self.spec_handler(SYS_WRITE) && s.args@ == seq![int_word(fd), buf, len as u64]
    }

    open spec fn syncs(&self, r: Request, td: u64, fd: i32) -> bool {
        r matches Request::Syscall(s) && s.index == SYS_FSYNC && s.handler == self.spec_handler(
            SYS_FSYNC,
        ) && s.args@ == seq![int_word(fd)]
    }

    open spec fn closes(&self, r: Request, td: u64, fd: i32) -> bool {
        r matches Request::Syscall(s) && s.index == SYS_CLOSE && s.handler == self.spec_handler(
            SYS_CLOSE,
        ) && s.args@ == seq![int_word(fd)]
    }

    /// Opens through the entry of `open`, with the path, the flags and the
    /// mode as its arguments.
    fn open(&self, td: u64, path: u64, flags: OpenFlags, mode: i32) -> (r: Request) {
        Request::Syscall(
            Syscall {
                index: SYS_OPEN,
                handler: self.handler(SYS_OPEN),
                args: vec![path, flags.bits() as u64, int_to_word(mode)],
            },
        )
    }

    /// Writes through the entry of `write`, with the descriptor, the buffer
    /// and the length as its arguments.
    fn write(&self, td: u64, fd: i32, buf: u64, len: usize) -> (r: WriteOp) {
        WriteOp::Ask(
            Request::Syscall(
                Syscall {
                    index: SYS_WRITE,
                    handler: self.handler(SYS_WRITE),
                    args: vec![int_to_word(fd), buf, len as u64],
                },
            ),
        )
    }

    /// Synchronizes through the entry of `fsync`.
    fn fsync(&self, td: u64, fd: i32) -> (r: Request) {
        let args: Vec<u64> = vec![int_to_word(fd)];
        assert(args@ =~= seq![int_word(fd)]);
        Request::Syscall(Syscall { index: SYS_FSYNC, handler: self.handler(SYS_FSYNC), args })
    }

    /// Closes through the entry of `close`.
    fn close(&self, td: u64, fd: i32) -> (r: Request) {
        let args: Vec<u64> = vec![int_to_word(fd)];
        assert(args@ =~= seq![int_word(fd)]);
        Request::Syscall(Syscall { index: SYS_CLOSE, handler: self.handler(SYS_CLOSE), args })
    }
}

} // verus!
