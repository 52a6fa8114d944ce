//! Patching the code of the running kernel.
//!
//! Kernel code is mapped read-only, and the CPU honours that in supervisor
//! mode as long as the write-protect bit of CR0 is set. A patch therefore
//! runs as one critical section: clear the bit, store the bytes, put the old
//! value of CR0 back. This module lays that section out as a list of steps;
//! carrying them out is left to the program.

use crate::image::KernelImage;
use vstd::prelude::*;

verus! {

/// The write-protect bit of CR0.
pub const CR0_WP: u64 = 0x10000;

/// The instruction that does nothing (`nop`).
pub const NOP: u8 = 0x90;

/// A patch: `len` bytes at `offset` from the start of the image, each set to
/// `fill`.
#[derive(Debug, Clone, Copy, PartialEq, Eq, Structural)]
pub struct Patch {
    pub offset: u64,
    pub len: u64,
    pub fill: u8,
}

/// One step of a critical section.
#[derive(Debug, Clone, Copy, PartialEq, Eq, Structural)]
pub enum Step {
    /// Load CR0 with this value.
    WriteCr0(u64),
    /// Set the `len` bytes at the address `addr` to `fill`.
    Fill { addr: u64, len: u64, fill: u8 },
}

/// The value of CR0 with the write-protect bit cleared and every other bit
/// as it is.
pub open spec fn without_wp(cr0: u64) -> u64 {
    cr0 & !CR0_WP
}

/// Whether the patch lies inside the image.
pub open spec fn fits(image: KernelImage, patch: Patch) -> bool {
    patch.offset + patch.len <= image.spec_len()
}

/// Whether all the patches lie inside the image.
pub open spec fn all_fit(image: KernelImage, patches: Seq<Patch>) -> bool {
    forall|i: int| 0 <= i < patches.len() ==> fits(image, #[trigger] patches[i])
}

/// The step that applies the patch to the image.
pub open spec fn fill_step(image: KernelImage, patch: Patch) -> Step {
    Step::Fill {
        addr: (image.spec_base() + patch.offset) as u64,
        len: patch.len,
        fill: patch.fill,
    }
}

/// The critical section that applies the patches, in their order, while CR0
/// holds `cr0`: the bit is cleared first, then come the stores, and the last
/// step puts `cr0` back.
pub open spec fn critical_section(image: KernelImage, cr0: u64, patches: Seq<Patch>) -> Seq<
    Step,
> {
    seq![Step::WriteCr0(without_wp(cr0))] + Seq::new(
        patches.len(),
        |i: int| fill_step(image, patches[i]),
    ) + seq![Step::WriteCr0(cr0)]
}

/// Clears the write-protect bit in a value of CR0.
pub fn clear_wp(cr0: u64) -> (v: u64)
    ensures
        v == without_wp(cr0),
{
    cr0 & !CR0_WP
}

/// Clearing the write-protect bit clears that bit and no other.
pub proof fn lemma_without_wp(cr0: u64)
    ensures
        without_wp(cr0) & CR0_WP == 0,
        without_wp(cr0) | (cr0 & CR0_WP) == cr0,
        without_wp(without_wp(cr0)) == without_wp(cr0),
{
    assert((cr0 & !0x10000u64) & 0x10000u64 == 0) by (bit_vector);
    assert((cr0 & !0x10000u64) | (cr0 & 0x10000u64) == cr0) by (bit_vector);
    assert((cr0 & !0x10000u64) & !0x10000u64 == cr0 & !0x10000u64) by (bit_vector);
}

/// Lays out the critical section that applies the patches to the image
/// while CR0 holds `cr0`. There is none if a patch does not lie inside the
/// image: then nothing is to be touched.
pub fn plan(image: &KernelImage, cr0: u64, patches: &Vec<Patch>) -> (steps: Option<Vec<Step>>)
    ensures
        steps is Some <==> all_fit(*image, patches@),
        steps is Some ==> steps->Some_0@ == critical_section(*image, cr0, patches@),
{
    let mut steps: Vec<Step> = Vec::new();
    steps.push(Step::WriteCr0(clear_wp(cr0)));
    let mut i: usize = 0;
    while i < patches.len()
        invariant
            i <= patches.len(),
            steps@.len() == i + 1,
            steps@[0] == Step::WriteCr0(without_wp(cr0)),
            forall|j: int| 0 <= j < i ==> fits(*image, #[trigger] patches@[j]),
            forall|k: int|
                1 <= k <= i ==> #[trigger] steps@[k] == fill_step(*image, patches@[k - 1]),
        decreases patches.len() - i,
    {
        let p = patches[i];
        let end = match p.offset.checked_add(p.len) {
            Some(end) => end,
            None => { return None; },
        };
        if end > image.len() {
            return None;
        }
        let addr = image.address_at(p.offset);
        steps.push(Step::Fill { addr, len: p.len, fill: p.fill });
        i += 1;
    }
    steps.push(Step::WriteCr0(cr0));
    assert(steps@ =~= critical_section(*image, cr0, patches@));
    Some(steps)
}

/// A critical section clears the write-protect bit first, puts the old
/// value of CR0 back last, and touches CR0 nowhere in between: whatever the
/// patches are, the bit is set again when the section ends, if it was set
/// before.
pub proof fn lemma_critical_section(image: KernelImage, cr0: u64, patches: Seq<Patch>)
    ensures
        critical_section(image, cr0, patches).len() == patches.len() + 2,
        critical_section(image, cr0, patches).first() == Step::WriteCr0(without_wp(cr0)),
        without_wp(cr0) & CR0_WP == 0,
        critical_section(image, cr0, patches).last() == Step::WriteCr0(cr0),
        forall|i: int|
            1 <= i <= patches.len() ==> #[trigger] critical_section(image, cr0, patches)[i]
                == fill_step(image, patches[i - 1]),
{
    lemma_without_wp(cr0);
}

} // verus!
