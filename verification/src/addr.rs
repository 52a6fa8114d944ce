//! Finding the kernel in memory.
//!
//! The kernel is loaded at a random address. The CPU keeps the address of
//! the handler of the `syscall` instruction in a register, and the handler
//! lies at the same place in the image of every build, so the address of the
//! handler gives the base of the image. Addresses are computed as
//! `x86_64::VirtAddr` computes them.

use vstd::prelude::*;
use x86_64::VirtAddr;

verus! {

/// Address of the handler of `syscall` in an image that is loaded where it
/// was linked for.
pub const SYSCALL_HANDLER: u64 = 0xffffffff822001c0;

/// Base of an image that is loaded where it was linked for.
pub const LINKED_BASE: u64 = 0xffffffff82200000;

/// Whether the number is a virtual address: the bits from 47 up are all
/// equal.
pub open spec fn is_canonical(addr: u64) -> bool {
    addr < 0x0000_8000_0000_0000 || addr >= 0xffff_8000_0000_0000
}

/// `VirtAddr::try_new`: whether the number is a canonical virtual address,
/// that is, whether extending the sign of bit 47 over the bits above it
/// leaves the number as it is.
#[verifier::external_body]
fn canonical(addr: u64) -> (b: bool)
    ensures
        b == is_canonical(addr),
{
    VirtAddr::try_new(addr).is_ok()
}

/// `VirtAddr - u64`: the address that many bytes below. The subtraction
/// panics where it goes below zero or gives no canonical address, so those
/// are left out; `VirtAddr::new` panics on a number that is not canonical.
#[verifier::external_body]
fn address_sub(addr: u64, rhs: u64) -> (r: u64)
    requires
        is_canonical(addr),
        rhs <= addr,
        is_canonical((addr - rhs) as u64),
    ensures
        r == addr - rhs,
{
    (VirtAddr::new(addr) - rhs).as_u64()
}

/// `VirtAddr + u64`: the address that many bytes above. The addition panics
/// where it overflows or gives no canonical address, so those are left out;
/// `VirtAddr::new` panics on a number that is not canonical.
#[verifier::external_body]
fn address_add(addr: u64, rhs: u64) -> (r: u64)
    requires
        is_canonical(addr),
        addr + rhs <= u64::MAX,
        is_canonical((addr + rhs) as u64),
    ensures
        r == addr + rhs,
{
    (VirtAddr::new(addr) + rhs).as_u64()
}

/// Whether the number can be the address of the handler of `syscall` in a
/// loaded kernel: it is an address, and the kernel has not been moved below
/// the place it was linked for.
pub open spec fn is_handler(lstar: u64) -> bool {
    is_canonical(lstar) && lstar >= SYSCALL_HANDLER
}

/// The base of the kernel image, given the address of the handler of
/// `syscall`: the image has been moved by as much as the handler has.
pub fn kernel_base(lstar: u64) -> (base: Option<u64>)
    ensures
        base is Some <==> is_handler(lstar),
        base is Some ==> base->Some_0 == lstar - SYSCALL_HANDLER + LINKED_BASE,
{
    if !canonical(lstar) || lstar < SYSCALL_HANDLER {
        return None;
    }
    let aslr = address_sub(lstar, SYSCALL_HANDLER);
    Some(address_add(aslr, LINKED_BASE))
}

} // verus!
