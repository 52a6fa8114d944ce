//! Little-endian integers inside a byte image.

use vstd::prelude::*;

verus! {

/// The 16-bit little-endian integer that starts at `at`.
pub open spec fn le_u16(s: Seq<u8>, at: int) -> int {
    s[at] as int + 0x100 * (s[at + 1] as int)
}

/// The 32-bit little-endian integer that starts at `at`.
pub open spec fn le_u32(s: Seq<u8>, at: int) -> int {
    le_u16(s, at) + 0x1_0000 * le_u16(s, at + 2)
}

/// The 64-bit little-endian integer that starts at `at`.
pub open spec fn le_u64(s: Seq<u8>, at: int) -> int {
    le_u32(s, at) + 0x1_0000_0000 * le_u32(s, at + 4)
}

pub fn read_u16(image: &[u8], at: usize) -> (v: u16)
    requires
        at + 2 <= image.len(),
    ensures
        v == le_u16(image@, at as int),
{
    let lo: u16 = image[at] as u16;
    let hi: u16 = image[at + 1] as u16;
    lo + 0x100 * hi
}

pub fn read_u32(image: &[u8], at: usize) -> (v: u32)
    requires
        at + 4 <= image.len(),
    ensures
        v == le_u32(image@, at as int),
{
    let lo: u32 = read_u16(image, at) as u32;
    let hi: u32 = read_u16(image, at + 2) as u32;
    lo + 0x1_0000 * hi
}

pub fn read_u64(image: &[u8], at: usize) -> (v: u64)
    requires
        at + 8 <= image.len(),
    ensures
        v == le_u64(image@, at as int),
{
    let lo: u64 = read_u32(image, at) as u64;
    let hi: u64 = read_u32(image, at + 4) as u64;
    lo + 0x1_0000_0000 * hi
}

} // verus!
