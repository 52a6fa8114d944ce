//! The kernel's record of a thread, and the per-CPU record that leads to it.

use vstd::prelude::*;

verus! {

/// Number of return values that a thread holds (`td_retval`).
pub const RETVAL_SLOTS: usize = 2;

/// The `thread` structure of a kernel build.
///
/// A kernel routine leaves what it returns beside its error code in the
/// return values of the thread that called it.
pub trait Thread: Sized {
    /// The return value `td_retval[i]` of the thread.
    spec fn retval(&self, i: int) -> usize;

    /// Returns the value of `td_retval[i]`, for `i` zero or one.
    fn ret(&self, i: usize) -> (v: usize)
        requires
            i < RETVAL_SLOTS,
        ensures
            v == self.retval(i as int),
    ;
}

/// The `pcpu` structure: what a CPU knows of itself. It starts with the
/// address of the thread that the CPU runs (`pc_curthread`).
#[derive(Debug, Clone, Copy, PartialEq, Eq, Structural)]
pub struct CpuContext {
    thread: u64,
}

impl CpuContext {
    /// The address of the running thread.
    pub closed spec fn view(&self) -> u64 {
        self.thread
    }

    /// The record of a CPU that runs the thread at `thread`.
    pub fn new(thread: u64) -> (cpu: Self)
        ensures
            cpu@ == thread,
    {
        Self { thread }
    }

    /// The address of the thread that this CPU runs.
    pub fn thread(&self) -> (td: u64)
        ensures
            td == self@,
    {
        self.thread
    }
}

} // verus!
