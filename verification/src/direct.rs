//! Dumping through kernel routines that are called by their address.
//!
//! The addresses have to be known for the build; they are found in a dump
//! that the method of system calls has given before.

use crate::abi::{Arg, Call, Kernel, Routine};
use crate::method::{DumpMethod, OpenFlags, Request, WriteOp};
use crate::patch::{all_fit, critical_section, plan, Patch, Step};
use crate::uio::UioSeg;
use vstd::prelude::*;

verus! {

/// The descriptor that stands for the current directory (`AT_FDCWD`).
pub const AT_FDCWD: i32 = -100;

/// Implementation of [`DumpMethod`] using internal kernel routines.
#[derive(Debug, Clone, Copy)]
pub struct DirectMethod {
    kernel: Kernel,
}

impl DirectMethod {
    /// Whether the kernel has an address for each routine that the method
    /// calls.
    pub open spec fn usable(kernel: Kernel) -> bool {
        &&& kernel.spec_resolve(Routine::KernOpenat) is Some
        &&& kernel.spec_resolve(Routine::KernFsync) is Some
        &&& kernel.spec_resolve(Routine::KernClose) is Some
    }

    #[verifier::type_invariant]
    spec fn routines_resolve(&self) -> bool {
        Self::usable(self.kernel)
    }

    /// The kernel whose routines are called.
    pub closed spec fn spec_kernel(&self) -> Kernel {
        self.kernel
    }

    /// The method for this kernel. There is none if the build lacks one of
    /// the routines that the method calls.
    pub fn new(kernel: Kernel) -> (method: Option<Self>)
        ensures
            method is Some <==> Self::usable(kernel),
            method is Some ==> method->Some_0.spec_kernel() == kernel,
    {
        if kernel.resolve(Routine::KernOpenat).is_some() && kernel.resolve(
            Routine::KernFsync,
        ).is_some() && kernel.resolve(Routine::KernClose).is_some() {
            Some(Self { kernel })
        } else {
            None
        }
    }

    /// Lays out the critical section that puts the kernel's allocator back
    /// into the state in which the build shipped it, given the value `cr0` of
    /// CR0 and the patches of the build. It has to be carried out before the
    /// first request is made.
    pub fn restore_kernel(kernel: &Kernel, cr0: u64, patches: &Vec<Patch>) -> (steps: Option<
        Vec<Step>,
    >)
        ensures
            steps is Some <==> all_fit(kernel.spec_elf(), patches@),
            steps is Some ==> steps->Some_0@ == critical_section(
                kernel.spec_elf(),
                cr0,
                patches@,
            ),
    {
        let image = kernel.elf();
        plan(&image, cr0, patches)
    }

    /// The kernel whose routines are called.
    #[verifier::when_used_as_spec(spec_kernel)]
    pub fn kernel(&self) -> (kernel: Kernel)
        ensures
            kernel == self.spec_kernel(),
            Self::usable(kernel),
    {
        proof {
            use_type_invariant(self);
        }
        self.kernel
    }
}

/// Whether the request is the call of `routine`, resolved against `kernel`,
/// with the arguments `args`.
pub open spec fn is_call(r: Request, kernel: Kernel, routine: Routine, args: Seq<Arg>) -> bool {
    r matches Request::Routine(c) && c.routine == routine && Some(c.addr) == kernel.spec_resolve(
        routine,
    ) && c.args@ == args
}

/// Takes the call out of an `Option` that holds one.
fn prepared(call: Option<Call>) -> (c: Call)
    requires
        call is Some,
    ensures
        Some(c) == call,
{
    match call {
        Some(c) => c,
        None => vstd::pervasive::unreached(),
    }
}

impl DumpMethod for DirectMethod {
    open spec fn opens(&self, r: Request, td: u64, path: u64, flags: OpenFlags, mode: i32) -> bool {
        is_call(
            r,
            self.spec_kernel(),
            Routine::KernOpenat,
            seq![
                Arg::Thread(td),
                Arg::Int(AT_FDCWD),
                Arg::Pointer(path),
                Arg::Seg(UioSeg::Kernel),
                Arg::Int(flags@ as i32),
                Arg::Int(mode),
            ],
        )
    }

    open spec fn writes(&self, r: WriteOp, td: u64, fd: i32, buf: u64, len: usize) -> bool {
        r == WriteOp::Done(len)
    }

    open spec fn syncs(&self, r: Request, td: u64, fd: i32) -> bool {
        is_call(
            r,
            self.spec_kernel(),
            Routine::KernFsync,
            seq![Arg::Thread(td), Arg::Int(fd), Arg::Int(1)],
        )
    }

    open spec fn closes(&self, r: Request, td: u64, fd: i32) -> bool {
        is_call(r, self.spec_kernel(), Routine::KernClose, seq![Arg::Thread(td), Arg::Int(fd)])
    }

    /// Opens through `kern_openat`, relative to the current directory, with
    /// the path taken from kernel memory.
    fn open(&self, td: u64, path: u64, flags: OpenFlags, mode: i32) -> (r: Request) {
        let kernel = self.kernel();
        Request::Routine(
            prepared(
                kernel.kern_openat(td, AT_FDCWD, path, UioSeg::Kernel, flags.bits() as i32, mode),
            ),
        )
    }

    /// Asks nothing of the kernel and reports every byte as taken: with this
    /// method a dump creates its file and leaves it empty.
    fn write(&self, td: u64, fd: i32, buf: u64, len: usize) -> (r: WriteOp) {
        WriteOp::Done(len)
    }

    /// Synchronizes through `kern_fsync`, data and metadata.
    fn fsync(&self, td: u64, fd: i32) -> (r: Request) {
        let kernel = self.kernel();
        Request::Routine(prepared(kernel.kern_fsync(td, fd, 1)))
    }

    /// Closes through `kern_close`.
    fn close(&self, td: u64, fd: i32) -> (r: Request) {
        let kernel = self.kernel();
        Request::Routine(prepared(kernel.kern_close(td, fd)))
    }
}

} // verus!
