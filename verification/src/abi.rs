//! Kernel routines that are reached by their place in the image.
//!
//! The routines that the dumper needs are not exported by the kernel. Each
//! build of the kernel keeps them at fixed offsets from the start of its
//! image, so a build is described by a table of offsets, and a call by the
//! address of the routine and the arguments for it. Making the call is left
//! to the one place in the program that may jump to an address.

use crate::image::KernelImage;
use crate::uio::UioSeg;
use vstd::prelude::*;

verus! {

/// The kernel routines that can be called. Each returns an error code, zero
/// for success.
#[derive(Debug, Clone, Copy, PartialEq, Eq, Structural)]
pub enum Routine {
    /// `fget_write(td, fd, unused, fp)`: looks up the file object of a
    /// descriptor that is open for writing, and takes a reference to it.
    FgetWrite,
    /// `fdrop(fp, td)`: finalizes a file object whose last reference is gone.
    Fdrop,
    /// `kern_openat(td, fd, path, seg, flags, mode)`.
    KernOpenat,
    /// `kern_close(td, fd)`.
    KernClose,
    /// `kern_fsync(td, fd, fullsync)`.
    KernFsync,
    /// `kern_writev(td, fd, auio)`.
    KernWritev,
}

/// Kind of one argument of a routine.
#[derive(Debug, Clone, Copy, PartialEq, Eq, Structural)]
pub enum ArgKind {
    /// Address of the calling thread's `thread` structure.
    Thread,
    /// A C `int`.
    Int,
    /// Address of anything else.
    Pointer,
    /// A `uio_seg`.
    Seg,
}

/// One argument of a call.
#[derive(Debug, Clone, Copy, PartialEq, Eq, Structural)]
pub enum Arg {
    Thread(u64),
    Int(i32),
    Pointer(u64),
    Seg(UioSeg),
}

impl Arg {
    /// The kind of this argument.
    pub open spec fn spec_kind(&self) -> ArgKind {
        match self {
            Arg::Thread(_) => ArgKind::Thread,
            Arg::Int(_) => ArgKind::Int,
            Arg::Pointer(_) => ArgKind::Pointer,
            Arg::Seg(_) => ArgKind::Seg,
        }
    }

    /// The kind of this argument.
    #[verifier::when_used_as_spec(spec_kind)]
    pub fn kind(&self) -> (k: ArgKind)
        ensures
            k == self.spec_kind(),
    {
        match self {
            Arg::Thread(_) => ArgKind::Thread,
            Arg::Int(_) => ArgKind::Int,
            Arg::Pointer(_) => ArgKind::Pointer,
            Arg::Seg(_) => ArgKind::Seg,
        }
    }
}

/// Whether the arguments are of the kinds that the shape lists, one for one.
pub open spec fn fits_shape(args: Seq<Arg>, shape: Seq<ArgKind>) -> bool {
    args.len() == shape.len() && forall|i: int|
        0 <= i < args.len() ==> (#[trigger] args[i]).spec_kind() == shape[i]
}

impl Routine {
    /// The kinds of the arguments that the routine takes, in their order.
    pub open spec fn spec_shape(&self) -> Seq<ArgKind> {
        match self {
            Routine::FgetWrite => seq![
                ArgKind::Thread,
                ArgKind::Int,
                ArgKind::Int,
                ArgKind::Pointer,
            ],
            Routine::Fdrop => seq![ArgKind::Pointer, ArgKind::Thread],
            Routine::KernOpenat => seq![
                ArgKind::Thread,
                ArgKind::Int,
                ArgKind::Pointer,
                ArgKind::Seg,
                ArgKind::Int,
                ArgKind::Int,
            ],
            Routine::KernClose => seq![ArgKind::Thread, ArgKind::Int],
            Routine::KernFsync => seq![ArgKind::Thread, ArgKind::Int, ArgKind::Int],
            Routine::KernWritev => seq![ArgKind::Thread, ArgKind::Int, ArgKind::Pointer],
        }
    }

    /// The kinds of the arguments that the routine takes, in their order.
    pub fn shape(&self) -> (shape: Vec<ArgKind>)
        ensures
            shape@ == self.spec_shape(),
    {
        let shape = match self {
            Routine::FgetWrite => vec![
                ArgKind::Thread,
                ArgKind::Int,
                ArgKind::Int,
                ArgKind::Pointer,
            ],
            Routine::Fdrop => vec![ArgKind::Pointer, ArgKind::Thread],
            Routine::KernOpenat => vec![
                ArgKind::Thread,
                ArgKind::Int,
                ArgKind::Pointer,
                ArgKind::Seg,
                ArgKind::Int,
                ArgKind::Int,
            ],
            Routine::KernClose => vec![ArgKind::Thread, ArgKind::Int],
            Routine::KernFsync => vec![ArgKind::Thread, ArgKind::Int, ArgKind::Int],
            Routine::KernWritev => vec![ArgKind::Thread, ArgKind::Int, ArgKind::Pointer],
        };
        assert(shape@ =~= self.spec_shape());
        shape
    }
}

/// Whether the arguments are of the kinds that the shape lists, one for one.
pub fn check_shape(args: &Vec<Arg>, shape: &Vec<ArgKind>) -> (ok: bool)
    ensures
        ok == fits_shape(args@, shape@),
{
    if args.len() != shape.len() {
        return false;
    }
    let mut i: usize = 0;
    while i < args.len()
        invariant
            i <= args.len(),
            args.len() == shape.len(),
            forall|j: int| 0 <= j < i ==> (#[trigger] args@[j]).spec_kind() == shape@[j],
        decreases args.len() - i,
    {
        if args[i].kind() != shape[i] {
            return false;
        }
        i += 1;
    }
    true
}

/// The offsets of one kernel build: where its image keeps each routine, and
/// where it keeps the table of system calls (`sysent`). A routine that has
/// not been found in the build has no offset.
#[derive(Debug, Clone, Copy, PartialEq, Eq, Structural)]
pub struct KernelVersion {
    pub fget_write: Option<u64>,
    pub fdrop: Option<u64>,
    pub kern_openat: Option<u64>,
    pub kern_close: Option<u64>,
    pub kern_fsync: Option<u64>,
    pub kern_writev: Option<u64>,
    pub sysents: u64,
}

impl KernelVersion {
    /// The offset of the routine in the image of this build.
    pub open spec fn spec_offset(&self, routine: Routine) -> Option<u64> {
        match routine {
            Routine::FgetWrite => self.fget_write,
            Routine::Fdrop => self.fdrop,
            Routine::KernOpenat => self.kern_openat,
            Routine::KernClose => self.kern_close,
            Routine::KernFsync => self.kern_fsync,
            Routine::KernWritev => self.kern_writev,
        }
    }

    /// The offset of the routine in the image of this build.
    #[verifier::when_used_as_spec(spec_offset)]
    pub fn offset(&self, routine: Routine) -> (off: Option<u64>)
        ensures
            off == self.spec_offset(routine),
    {
        match routine {
            Routine::FgetWrite => self.fget_write,
            Routine::Fdrop => self.fdrop,
            Routine::KernOpenat => self.kern_openat,
            Routine::KernClose => self.kern_close,
            Routine::KernFsync => self.kern_fsync,
            Routine::KernWritev => self.kern_writev,
        }
    }
}

/// A call of a kernel routine, ready to be made: the address to jump to and
/// the arguments.
#[derive(Debug)]
pub struct Call {
    pub routine: Routine,
    pub addr: u64,
    pub args: Vec<Arg>,
}

/// A kernel in memory: the offsets of its build and the place of its image.
#[derive(Debug, Clone, Copy, PartialEq, Eq, Structural)]
pub struct Kernel {
    version: KernelVersion,
    image: KernelImage,
}

impl Kernel {
    /// The offsets of the build.
    pub closed spec fn spec_version(&self) -> KernelVersion {
        self.version
    }

    /// The mapped image.
    pub closed spec fn spec_elf(&self) -> KernelImage {
        self.image
    }

    /// The address of the routine: the base of the image plus the offset
    /// that the build has for it. A routine without an offset, or with one
    /// that does not lie inside the image, has no address.
    pub open spec fn spec_resolve(&self, routine: Routine) -> Option<u64> {
        match self.spec_version().spec_offset(routine) {
            Some(off) if off < self.spec_elf().spec_len() => Some(
                (self.spec_elf().spec_base() + off) as u64,
            ),
            _ => None,
        }
    }


    /// The call of the routine with these arguments. There is none where the
    /// routine has no address or the arguments are not of its shape.
    pub open spec fn spec_call(&self, routine: Routine, args: Seq<Arg>) -> Option<
        (Routine, u64, Seq<Arg>),
    > {
        match self.spec_resolve(routine) {
            Some(addr) if fits_shape(args, routine.spec_shape()) => Some((routine, addr, args)),
            _ => None,
        }
    }

    /// The kernel of the given build whose image is `image`.
    pub fn new(version: KernelVersion, image: KernelImage) -> (k: Self)
        ensures
            k.spec_version() == version,
            k.spec_elf() == image,
    {
        Self { version, image }
    }

    /// The offsets of the build.
    #[verifier::when_used_as_spec(spec_version)]
    pub fn version(&self) -> (v: KernelVersion)
        ensures
            v == self.spec_version(),
    {
        self.version
    }

    /// The mapped image of the kernel.
    #[verifier::when_used_as_spec(spec_elf)]
    pub fn elf(&self) -> (image: KernelImage)
        ensures
            image == self.spec_elf(),
    {
        self.image
    }

    /// Resolves the routine against the base of the image.
    #[verifier::when_used_as_spec(spec_resolve)]
    pub fn resolve(&self, routine: Routine) -> (addr: Option<u64>)
        ensures
            addr == self.spec_resolve(routine),
            addr is Some ==> addr->Some_0 == self.spec_elf().spec_base()
                + self.spec_version().spec_offset(routine)->Some_0,
    {
        match self.version.offset(routine) {
            Some(off) => self.image.address_of(off),
            None => None,
        }
    }

    /// Prepares the call of the routine with these arguments.
    pub fn call(&self, routine: Routine, args: Vec<Arg>) -> (call: Option<Call>)
        ensures
            match call {
                Some(c) => self.spec_call(routine, args@) == Some((c.routine, c.addr, c.args@)),
                None => self.spec_call(routine, args@) is None,
            },
    {
        let shape = routine.shape();
        if !check_shape(&args, &shape) {
            return None;
        }
        match self.resolve(routine) {
            Some(addr) => Some(Call { routine, addr, args }),
            None => None,
        }
    }
}

impl Kernel {
    /// The call `fget_write(td, fd, 0, fp)`: the kernel stores the address of
    /// the file object of `fd` at `fp`.
    pub fn fget_write(&self, td: u64, fd: i32, fp: u64) -> (call: Option<Call>)
        ensures
            call is Some <==> self.spec_resolve(Routine::FgetWrite) is Some,
            call is Some ==> {
                &&& call->Some_0.routine == Routine::FgetWrite
                &&& Some(call->Some_0.addr) == self.spec_resolve(Routine::FgetWrite)
                &&& call->Some_0.args@ == seq![
                    Arg::Thread(td),
                    Arg::Int(fd),
                    Arg::Int(0),
                    Arg::Pointer(fp),
                ]
            },
    {
        self.call(Routine::FgetWrite, vec![Arg::Thread(td), Arg::Int(fd), Arg::Int(0), Arg::Pointer(fp)])
    }

    /// The call `fdrop(fp, td)`.
    pub fn fdrop(&self, fp: u64, td: u64) -> (call: Option<Call>)
        ensures
            call is Some <==> self.spec_resolve(Routine::Fdrop) is Some,
            call is Some ==> {
                &&& call->Some_0.routine == Routine::Fdrop
                &&& Some(call->Some_0.addr) == self.spec_resolve(Routine::Fdrop)
                &&& call->Some_0.args@ == seq![Arg::Pointer(fp), Arg::Thread(td)]
            },
    {
        self.call(Routine::Fdrop, vec![Arg::Pointer(fp), Arg::Thread(td)])
    }

    /// The call `kern_openat(td, fd, path, seg, flags, mode)`.
    pub fn kern_openat(
        &self,
        td: u64,
        fd: i32,
        path: u64,
        seg: UioSeg,
        flags: i32,
        mode: i32,
    ) -> (call: Option<Call>)
        ensures
            call is Some <==> self.spec_resolve(Routine::KernOpenat) is Some,
            call is Some ==> {
                &&& call->Some_0.routine == Routine::KernOpenat
                &&& Some(call->Some_0.addr) == self.spec_resolve(Routine::KernOpenat)
                &&& call->Some_0.args@ == seq![
                    Arg::Thread(td),
                    Arg::Int(fd),
                    Arg::Pointer(path),
                    Arg::Seg(seg),
                    Arg::Int(flags),
                    Arg::Int(mode),
                ]
            },
    {
        self.call(
            Routine::KernOpenat,
            vec![
                Arg::Thread(td),
                Arg::Int(fd),
                Arg::Pointer(path),
                Arg::Seg(seg),
                Arg::Int(flags),
                Arg::Int(mode),
            ],
        )
    }

    /// The call `kern_close(td, fd)`.
    pub fn kern_close(&self, td: u64, fd: i32) -> (call: Option<Call>)
        ensures
            call is Some <==> self.spec_resolve(Routine::KernClose) is Some,
            call is Some ==> {
                &&& call->Some_0.routine == Routine::KernClose
                &&& Some(call->Some_0.addr) == self.spec_resolve(Routine::KernClose)
                &&& call->Some_0.args@ == seq![Arg::Thread(td), Arg::Int(fd)]
            },
    {
        self.call(Routine::KernClose, vec![Arg::Thread(td), Arg::Int(fd)])
    }

    /// The call `kern_fsync(td, fd, fullsync)`.
    pub fn kern_fsync(&self, td: u64, fd: i32, fullsync: i32) -> (call: Option<Call>)
        ensures
            call is Some <==> self.spec_resolve(Routine::KernFsync) is Some,
            call is Some ==> {
                &&& call->Some_0.routine == Routine::KernFsync
                &&& Some(call->Some_0.addr) == self.spec_resolve(Routine::KernFsync)
                &&& call->Some_0.args@ == seq![Arg::Thread(td), Arg::Int(fd), Arg::Int(fullsync)]
            },
    {
        self.call(Routine::KernFsync, vec![Arg::Thread(td), Arg::Int(fd), Arg::Int(fullsync)])
    }

    /// The call `kern_writev(td, fd, auio)`.
    pub fn kern_writev(&self, td: u64, fd: i32, auio: u64) -> (call: Option<Call>)
        ensures
            call is Some <==> self.spec_resolve(Routine::KernWritev) is Some,
            call is Some ==> {
                &&& call->Some_0.routine == Routine::KernWritev
                &&& Some(call->Some_0.addr) == self.spec_resolve(Routine::KernWritev)
                &&& call->Some_0.args@ == seq![Arg::Thread(td), Arg::Int(fd), Arg::Pointer(auio)]
            },
    {
        self.call(Routine::KernWritev, vec![Arg::Thread(td), Arg::Int(fd), Arg::Pointer(auio)])
    }
}

} // verus!
