//! Kernel access layer for dumping the mapped image of a running kernel.
//!
//! The crate holds the decisions of the dumper as functions on plain values:
//! the extent of the mapped image, the catalogue of kernel routines of a
//! build, the validation of scatter/gather requests, the reference-count
//! protocol of file objects, the two dumping methods and the driver that
//! streams the image. Touching memory, registers and the kernel itself is
//! left to the program that links this crate.

pub mod abi;
pub mod addr;
pub mod bytes;
pub mod direct;
pub mod dump;
pub mod elf;
pub mod file;
pub mod fw1100;
pub mod image;
pub mod method;
pub mod notify;
pub mod patch;
pub mod syscall;
pub mod thread;
pub mod uio;
