//! What a dumping method offers: open, write, fsync and close on files, each
//! made of a request to the kernel and of the reading of what came back.

use crate::abi::Call;
use crate::thread::Thread;
use vstd::prelude::*;

verus! {

pub const O_RDONLY: u32 = 0x00000000;
pub const O_WRONLY: u32 = 0x00000001;
pub const O_RDWR: u32 = 0x00000002;
pub const O_ACCMODE: u32 = 0x00000003;
pub const O_SHLOCK: u32 = 0x00000010;
pub const O_EXLOCK: u32 = 0x00000020;
pub const O_CREAT: u32 = 0x00000200;
pub const O_TRUNC: u32 = 0x00000400;
pub const O_EXCL: u32 = 0x00000800;
pub const O_EXEC: u32 = 0x00040000;
pub const O_CLOEXEC: u32 = 0x00100000;

/// A flag of unknown meaning. It is passed through as it is.
pub const UNK1: u32 = 0x00400000;

/// Flags for [`DumpMethod::open()`]: a set of the bits above.
#[derive(Debug, Clone, Copy, PartialEq, Eq, Structural)]
pub struct OpenFlags(u32);

impl OpenFlags {
    /// The bits of the set.
    pub closed spec fn view(&self) -> u32 {
        self.0
    }

    /// The set with exactly the bits of `bits`.
    pub closed spec fn spec_from_bits(bits: u32) -> Self {
        Self(bits)
    }

    /// The set with exactly the bits of `bits`, known or not.
    pub fn from_bits_retain(bits: u32) -> (flags: Self)
        ensures
            flags == Self::spec_from_bits(bits),
            flags@ == bits,
    {
        Self(bits)
    }

    /// The bits of the set.
    pub fn bits(&self) -> (bits: u32)
        ensures
            bits == self@,
    {
        self.0
    }

    /// The set of the bits that are in either set.
    pub fn union(self, other: Self) -> (flags: Self)
        ensures
            flags@ == self@ | other@,
    {
        Self(self.0 | other.0)
    }

    /// Whether every bit of `other` is in this set.
    pub fn contains(&self, other: Self) -> (b: bool)
        ensures
            b == (self@ & other@ == other@),
    {
        self.0 & other.0 == other.0
    }
}

/// An error code of the kernel. It is never zero, and what it means is the
/// kernel's business: it is handed on as it came.
#[derive(Debug, Clone, Copy, PartialEq, Eq, Structural)]
pub struct Errno(i32);

impl Errno {
    #[verifier::type_invariant]
    spec fn nonzero(&self) -> bool {
        self.0 != 0
    }

    /// The code.
    pub closed spec fn view(&self) -> i32 {
        self.0
    }

    /// The error with this code; there is none for zero.
    pub fn new(code: i32) -> (e: Option<Self>)
        ensures
            e is Some <==> code != 0,
            e is Some ==> e->Some_0@ == code,
    {
        if code == 0 {
            None
        } else {
            Some(Self(code))
        }
    }

    /// The code.
    pub fn get(&self) -> (code: i32)
        ensures
            code == self@,
            code != 0,
    {
        proof {
            use_type_invariant(self);
        }
        self.0
    }
}

/// What a call that returns nothing but its error code has done: zero means
/// success, any other code is the failure, unchanged.
pub open spec fn spec_status(errno: i32) -> Result<(), i32> {
    if errno == 0 {
        Ok(())
    } else {
        Err(errno)
    }
}

/// What a call that leaves a value in `td_retval[0]` has done: on success
/// the value, else the error code, unchanged.
pub open spec fn spec_value(errno: i32, retval: usize) -> Result<usize, i32> {
    if errno == 0 {
        Ok(retval)
    } else {
        Err(errno)
    }
}

/// Reads the result of a call that returns nothing but its error code
/// (fsync, close).
pub fn status(errno: i32) -> (r: Result<(), Errno>)
    ensures
        match r {
            Ok(_) => spec_status(errno) is Ok,
            Err(e) => spec_status(errno) == Err::<(), i32>(e@),
        },
{
    match Errno::new(errno) {
        Some(e) => Err(e),
        None => Ok(()),
    }
}

/// Reads the result of a write: on success the number of bytes that the
/// kernel took, which it left in the first return value of the thread.
pub fn write_result<T: Thread>(errno: i32, td: &T) -> (r: Result<usize, Errno>)
    ensures
        match r {
            Ok(n) => spec_value(errno, td.retval(0)) == Ok::<usize, i32>(n),
            Err(e) => spec_value(errno, td.retval(0)) == Err::<usize, i32>(e@),
        },
{
    match Errno::new(errno) {
        Some(e) => Err(e),
        None => Ok(td.ret(0)),
    }
}

/// Whether the first return value of the thread is a descriptor: the kernel
/// hands out descriptors that fit a C `int`.
pub open spec fn holds_descriptor(retval: usize) -> bool {
    retval <= i32::MAX
}

/// Whether the first return value of the thread is a descriptor.
pub fn check_descriptor<T: Thread>(td: &T) -> (ok: bool)
    ensures
        ok == holds_descriptor(td.retval(0)),
{
    td.ret(0) <= 0x7fff_ffff
}

/// Reads the result of an open: on success the new descriptor, which the
/// kernel left in the first return value of the thread. A successful open
/// that left no descriptor there means that the thread structure is not
/// the one of this kernel build; the caller has to stop then.
pub fn open_result<T: Thread>(errno: i32, td: &T) -> (r: Result<i32, Errno>)
    requires
        errno == 0 ==> holds_descriptor(td.retval(0)),
    ensures
        match r {
            Ok(fd) => spec_value(errno, td.retval(0)) == Ok::<usize, i32>(fd as usize),
            Err(e) => spec_value(errno, td.retval(0)) == Err::<usize, i32>(e@),
        },
{
    match Errno::new(errno) {
        Some(e) => Err(e),
        None => Ok(td.ret(0) as i32),
    }
}

/// A request to the kernel through an entry of its table of system calls:
/// the index of the entry, the address of the entry's handler field, and the
/// arguments, which the handler finds in an array of words.
#[derive(Debug)]
pub struct Syscall {
    pub index: usize,
    pub handler: u64,
    pub args: Vec<u64>,
}

/// A request to the kernel.
#[derive(Debug)]
pub enum Request {
    /// Through the table of system calls.
    Syscall(Syscall),
    /// To a routine by its address.
    Routine(Call),
}

/// What a method wants done for a write.
#[derive(Debug)]
pub enum WriteOp {
    /// This request is to be made; [`write_result`] reads what comes back.
    Ask(Request),
    /// Nothing is to be asked of the kernel: the write counts as done, with
    /// this many bytes taken.
    Done(usize),
}

/// A method to dump the kernel: how files are opened, written, synchronized
/// and closed from inside the kernel. `td` is the address of the calling
/// thread, taken anew for each request.
pub trait DumpMethod: Sized {
    /// Whether `r` is the request by which this method opens the file whose
    /// path, a C string, is at `path`.
    spec fn opens(&self, r: Request, td: u64, path: u64, flags: OpenFlags, mode: i32) -> bool;

    /// Whether `r` is what this method wants done to write the `len` bytes
    /// at `buf` to `fd`.
    spec fn writes(&self, r: WriteOp, td: u64, fd: i32, buf: u64, len: usize) -> bool;

    /// Whether `r` is the request by which this method synchronizes `fd`.
    spec fn syncs(&self, r: Request, td: u64, fd: i32) -> bool;

    /// Whether `r` is the request by which this method closes `fd`.
    spec fn closes(&self, r: Request, td: u64, fd: i32) -> bool;

    /// The request that opens the file whose path, a C string, is at `path`.
    /// [`open_result`] reads what comes back.
    fn open(&self, td: u64, path: u64, flags: OpenFlags, mode: i32) -> (r: Request)
        ensures
            self.opens(r, td, path, flags, mode),
    ;

    /// What is to be done to write the `len` bytes at `buf` to `fd`.
    fn write(&self, td: u64, fd: i32, buf: u64, len: usize) -> (r: WriteOp)
        ensures
            self.writes(r, td, fd, buf, len),
    ;

    /// The request that synchronizes `fd`. [`status`] reads what comes back.
    fn fsync(&self, td: u64, fd: i32) -> (r: Request)
        ensures
            self.syncs(r, td, fd),
    ;

    /// The request that closes `fd`. [`status`] reads what comes back.
    fn close(&self, td: u64, fd: i32) -> (r: Request)
        ensures
            self.closes(r, td, fd),
    ;
}

/// An open descriptor and the method that opened it. Giving it up consumes
/// it, so that the descriptor is closed once.
pub struct OwnedFd<'a, T: DumpMethod> {
    method: &'a T,
    fd: i32,
}

impl<'a, T: DumpMethod> OwnedFd<'a, T> {
    /// The descriptor.
    pub closed spec fn spec_fd(&self) -> i32 {
        self.fd
    }

    /// The method that opened the descriptor.
    pub closed spec fn spec_method(&self) -> &'a T {
        self.method
    }

    pub fn new(method: &'a T, fd: i32) -> (owned: Self)
        ensures
            owned.spec_fd() == fd,
            owned.spec_method() == method,
    {
        Self { method, fd }
    }

    #[verifier::when_used_as_spec(spec_fd)]
    pub fn as_raw_fd(&self) -> (fd: i32)
        ensures
            fd == self.spec_fd(),
    {
        self.fd
    }

    /// Gives the descriptor up: returns the request by which the method
    /// that opened it closes it. The close of a descriptor that was open can
    /// not fail; where [`status`] reads a failure from what comes back, the
    /// caller has to stop.
    pub fn release(self, td: u64) -> (r: Request)
        ensures
            self.spec_method().closes(r, td, self.spec_fd()),
    {
        self.method.close(td, self.fd)
    }
}

} // verus!
