//! Scatter/gather requests as the kernel takes them (`uio`).

use vstd::prelude::*;

verus! {

/// Most vectors that one request may hold (`UIO_MAXIOV`).
pub const UIO_MAXIOV: usize = 1024;

/// Most bytes that one request may move (`IOSIZE_MAX`).
pub const IOSIZE_MAX: usize = 0x7fffffff;

/// Where the buffers of a request live (`uio_seg`).
#[derive(Debug, Clone, Copy, PartialEq, Eq, Structural)]
pub enum UioSeg {
    /// UIO_USERSPACE
    User,
    /// UIO_SYSSPACE
    Kernel,
}

/// Direction of a request (`uio_rw`).
#[derive(Debug, Clone, Copy, PartialEq, Eq, Structural)]
pub enum UioRw {
    /// UIO_READ
    Read,
    /// UIO_WRITE
    Write,
}

impl UioSeg {
    /// The number that the kernel knows the segment by.
    pub open spec fn spec_value(&self) -> i32 {
        match self {
            UioSeg::User => 0,
            UioSeg::Kernel => 1,
        }
    }

    /// The number that the kernel knows the segment by.
    #[verifier::when_used_as_spec(spec_value)]
    pub fn value(&self) -> (v: i32)
        ensures
            v == self.spec_value(),
    {
        match self {
            UioSeg::User => 0,
            UioSeg::Kernel => 1,
        }
    }
}

impl UioRw {
    /// The number that the kernel knows the direction by.
    pub open spec fn spec_value(&self) -> i32 {
        match self {
            UioRw::Read => 0,
            UioRw::Write => 1,
        }
    }

    /// The number that the kernel knows the direction by.
    #[verifier::when_used_as_spec(spec_value)]
    pub fn value(&self) -> (v: i32)
        ensures
            v == self.spec_value(),
    {
        match self {
            UioRw::Read => 0,
            UioRw::Write => 1,
        }
    }
}

/// One buffer of a request (`iovec`): the address of its first byte and its
/// length in bytes.
#[derive(Debug, Clone, Copy, PartialEq, Eq, Structural)]
pub struct IoVec {
    pub ptr: u64,
    pub len: usize,
}

/// Sum of the lengths of the vectors.
pub open spec fn total_len(iov: Seq<IoVec>) -> int
    decreases iov.len(),
{
    if iov.len() == 0 {
        0
    } else {
        total_len(iov.drop_last()) + iov.last().len
    }
}

/// Whether the kernel takes a request made of these vectors: there are no
/// more of them than `UIO_MAXIOV`, and together they are no longer than
/// `IOSIZE_MAX`.
pub open spec fn within_limits(iov: Seq<IoVec>) -> bool {
    iov.len() <= UIO_MAXIOV && total_len(iov) <= IOSIZE_MAX
}

/// The first vectors of a request are together no longer than all of them.
pub proof fn lemma_total_len_prefix(iov: Seq<IoVec>, n: int)
    requires
        0 <= n <= iov.len(),
    ensures
        0 <= total_len(iov.take(n)) <= total_len(iov),
    decreases iov.len(),
{
    if n == iov.len() {
        assert(iov.take(n) =~= iov);
        if iov.len() > 0 {
            lemma_total_len_prefix(iov.drop_last(), n - 1);
        }
    } else {
        lemma_total_len_prefix(iov.drop_last(), n);
        assert(iov.drop_last().take(n) =~= iov.take(n));
    }
}

/// A request for vectored I/O, as handed to the kernel.
#[derive(Debug)]
pub struct Uio {
    iov: Vec<IoVec>,
    len: i32,
    off: i64,
    res: i64,
    seg: UioSeg,
    op: UioRw,
    td: u64,
}

/// What a request holds.
pub struct UioView {
    pub iov: Seq<IoVec>,
    pub len: int,
    pub off: int,
    pub res: int,
    pub seg: UioSeg,
    pub op: UioRw,
    pub td: u64,
}

impl View for Uio {
    type V = UioView;

    closed spec fn view(&self) -> UioView {
        UioView {
            iov: self.iov@,
            len: self.len as int,
            off: self.off as int,
            res: self.res as int,
            seg: self.seg,
            op: self.op,
            td: self.td,
        }
    }
}

impl Uio {
    /// Builds the request of thread `td` that moves the vectors `iov` in the
    /// direction `op`: it holds the vectors in their order, their number and,
    /// as the bytes still to move, their summed length. The offset is left
    /// undefined (-1): the kernel finds the position itself.
    ///
    /// Returns `None`, and nothing else happens, if there are more vectors
    /// than [`Uio::vec_max()`] or if they are together longer than
    /// [`Uio::io_max()`].
    pub fn new(td: u64, op: UioRw, seg: UioSeg, iov: Vec<IoVec>) -> (r: Option<Self>)
        ensures
            r is Some <==> within_limits(iov@),
            r is Some ==> r->Some_0@ == (UioView {
                iov: iov@,
                len: iov@.len() as int,
                off: -1,
                res: total_len(iov@),
                seg,
                op,
                td,
            }),
    {
        // Check vec count.
        if iov.len() > Self::vec_max() {
            return None;
        }
        // Get total length.
        let mut res: usize = 0;
        let mut i: usize = 0;
        while i < iov.len()
            invariant
                i <= iov.len(),
                res == total_len(iov@.take(i as int)),
            decreases iov.len() - i,
        {
            proof {
                assert(iov@.take(i + 1).drop_last() =~= iov@.take(i as int));
                lemma_total_len_prefix(iov@, i + 1);
            }
            res = match res.checked_add(iov[i].len) {
                Some(sum) => sum,
                None => { return None; },
            };
            i += 1;
        }
        proof {
            assert(iov@.take(i as int) =~= iov@);
        }
        if res > Self::io_max() {
            return None;
        }
        Some(Self { len: iov.len() as i32, off: -1, res: res as i64, seg, op, td, iov })
    }

    /// Most vectors that one request may hold.
    pub fn vec_max() -> (n: usize)
        ensures
            n == UIO_MAXIOV,
    {
        UIO_MAXIOV
    }

    /// Most bytes that one request may move.
    pub fn io_max() -> (n: usize)
        ensures
            n == IOSIZE_MAX,
    {
        IOSIZE_MAX
    }

    /// The vectors of the request, in their order.
    pub fn iov(&self) -> (v: &Vec<IoVec>)
        ensures
            v@ == self@.iov,
    {
        &self.iov
    }

    /// Number of vectors.
    pub fn len(&self) -> (n: i32)
        ensures
            n == self@.len,
    {
        self.len
    }

    /// Position in the target; -1 where it is undefined.
    pub fn offset(&self) -> (n: i64)
        ensures
            n == self@.off,
    {
        self.off
    }

    /// Bytes still to move.
    pub fn resid(&self) -> (n: i64)
        ensures
            n == self@.res,
    {
        self.res
    }

    /// Where the buffers live.
    pub fn seg(&self) -> (s: UioSeg)
        ensures
            s == self@.seg,
    {
        self.seg
    }

    /// Direction of the request.
    pub fn op(&self) -> (o: UioRw)
        ensures
            o == self@.op,
    {
        self.op
    }

    /// The thread that makes the request.
    pub fn td(&self) -> (t: u64)
        ensures
            t == self@.td,
    {
        self.td
    }
}

} // verus!
