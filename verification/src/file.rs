//! Kernel file objects and the handle that owns a reference to one.
//!
//! A file object is shared between its owners through a counter of
//! references. Whoever gives up the last reference has to ask the kernel to
//! finalize the object; nobody else may.

use std::sync::atomic::{fence, AtomicU32, Ordering};
use vstd::prelude::*;

verus! {

/// `core::sync::atomic::fence`: a memory fence of the given ordering. It
/// returns nothing; a relaxed ordering makes it panic, so that ordering is
/// left out.
pub assume_specification[ core::sync::atomic::fence ](order: Ordering)
    requires
        !(order is Relaxed),
;

/// The `file` structure of a kernel build.
pub trait File: Sized {
    /// The counter of the references to this object (`f_count`).
    spec fn counter(&self) -> &AtomicU32;

    /// Returns the `f_count` field: the counter of this object, and of no
    /// other.
    fn refcnt(&self) -> (count: &AtomicU32)
        ensures
            count == self.counter(),
    ;
}

/// What is left to do once a reference has been given up.
#[derive(Debug, Clone, Copy, PartialEq, Eq, Structural)]
pub enum Release {
    /// Other owners remain: nothing is to be done.
    Shared,
    /// The last reference is gone: the kernel has to finalize the object,
    /// once.
    Finalize,
}

/// What a release finds: the count before it, and what is left to do.
#[derive(Debug, Clone, Copy, PartialEq, Eq, Structural)]
pub struct Released {
    pub prior: u32,
    pub action: Release,
}

/// What is left to do after a release that found the count `prior`: the
/// object is finalized if and only if the count was exactly one.
pub open spec fn release_action(prior: u32) -> Release {
    if prior == 1 {
        Release::Finalize
    } else {
        Release::Shared
    }
}

/// The count that a release leaves behind when it found the count `prior`.
/// The counter wraps, as the kernel's does.
pub open spec fn count_after(prior: u32) -> int {
    if prior == 0 {
        0xffff_ffff
    } else {
        prior - 1
    }
}

/// The object is finalized by the release that brings the count to zero,
/// and by no other: not while owners remain, and not by a release of an
/// object that has no owner left.
pub proof fn lemma_finalize_at_zero(prior: u32)
    ensures
        release_action(prior) == Release::Finalize <==> count_after(prior) == 0,
        prior > 1 ==> release_action(prior) == Release::Shared,
{
}

/// Decides what is left to do after a release that found the count `prior`.
pub fn after_release(prior: u32) -> (r: Released)
    ensures
        r.prior == prior,
        r.action == release_action(prior),
{
    if prior == 1 {
        Released { prior, action: Release::Finalize }
    } else {
        Released { prior, action: Release::Shared }
    }
}

/// Owner of one reference to a file object. Giving the reference up consumes
/// the handle, so that it happens once.
pub struct OwnedFile<'a, F: File> {
    file: &'a F,
}

impl<'a, F: File> OwnedFile<'a, F> {
    /// Takes over a reference that the caller holds. The count is not
    /// increased.
    pub fn new(file: &'a F) -> (owned: Self)
        ensures
            owned.file() == file,
    {
        Self { file }
    }

    /// The file object that this handle refers to.
    pub closed spec fn file(&self) -> &'a F {
        self.file
    }

    /// Gives the reference up: decrements the count with release ordering
    /// and, where the count was exactly one, fences with acquire ordering and
    /// tells the caller to finalize the object.
    ///
    /// The count belongs to the running kernel, so nothing is known of it
    /// beforehand; whatever it was, the action is the one that
    /// [`release_action`] gives for it.
    pub fn release(self) -> (r: Released)
        ensures
            r.action == release_action(r.prior),
    {
        let prior: u32 = self.file.refcnt().fetch_sub(1, Ordering::Release);
        let r = after_release(prior);
        match r.action {
            Release::Finalize => fence(Ordering::Acquire),
            Release::Shared => {},
        }
        r
    }
}

} // verus!
