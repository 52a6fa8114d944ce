use kernel_dumper::abi::{Arg, Kernel, Routine};
use kernel_dumper::direct::{DirectMethod, AT_FDCWD};
use kernel_dumper::elf::PT_LOAD;
use kernel_dumper::fw1100;
use kernel_dumper::image::KernelImage;
use kernel_dumper::method::{
    check_descriptor, open_result, status, write_result, DumpMethod, Errno, OpenFlags, OwnedFd,
    Request, WriteOp, O_ACCMODE, O_CLOEXEC, O_CREAT, O_EXCL, O_EXEC, O_EXLOCK, O_RDONLY, O_RDWR,
    O_SHLOCK, O_TRUNC, O_WRONLY, UNK1,
};
use kernel_dumper::syscall::{
    int_to_word, SyscallMethod, SYSENT_COUNT, SYSENT_HANDLER, SYSENT_SIZE, SYS_CLOSE, SYS_FSYNC,
    SYS_OPEN, SYS_WRITE,
};
use kernel_dumper::thread::{CpuContext, Thread, RETVAL_SLOTS};
use kernel_dumper::uio::UioSeg;

fn image_at(base: u64, len: u64) -> KernelImage {
    let mut header = vec![0u8; 0x40 + 0x38];
    header[0x38] = 1;
    header[0x40..0x44].copy_from_slice(&PT_LOAD.to_le_bytes());
    header[0x50..0x58].copy_from_slice(&base.to_le_bytes());
    header[0x68..0x70].copy_from_slice(&len.to_le_bytes());
    header[0x70..0x78].copy_from_slice(&1u64.to_le_bytes());
    KernelImage::new(base, &header)
}

fn kernel() -> Kernel {
    Kernel::new(fw1100::version(), image_at(0xffffffff82200000, 0x2000000))
}

fn syscall_of(r: Request) -> (usize, u64, Vec<u64>) {
    match r {
        Request::Syscall(s) => (s.index, s.handler, s.args),
        Request::Routine(c) => panic!("unexpected call of {:?}", c.routine),
    }
}

fn call_of(r: Request) -> (Routine, u64, Vec<Arg>) {
    match r {
        Request::Routine(c) => (c.routine, c.addr, c.args),
        Request::Syscall(s) => panic!("unexpected system call {}", s.index),
    }
}

#[test]
fn open_flags() {
    assert_eq!(O_RDONLY, 0);
    assert_eq!(O_WRONLY, 1);
    assert_eq!(O_RDWR, 2);
    assert_eq!(O_ACCMODE, O_WRONLY | O_RDWR);
    assert_eq!(O_SHLOCK, 0x10);
    assert_eq!(O_EXLOCK, 0x20);
    assert_eq!(O_CREAT, 0x200);
    assert_eq!(O_TRUNC, 0x400);
    assert_eq!(O_EXCL, 0x800);
    assert_eq!(O_EXEC, 0x40000);
    assert_eq!(O_CLOEXEC, 0x100000);
    assert_eq!(UNK1, 0x400000);
    let flags = OpenFlags::from_bits_retain(O_WRONLY)
        .union(OpenFlags::from_bits_retain(O_CREAT))
        .union(OpenFlags::from_bits_retain(O_TRUNC));
    assert_eq!(flags.bits(), 0x601);
    assert_eq!(flags, OpenFlags::from_bits_retain(0x601));
    assert!(flags.contains(OpenFlags::from_bits_retain(O_CREAT)));
    assert!(flags.contains(OpenFlags::from_bits_retain(O_CREAT | O_WRONLY)));
    assert!(!flags.contains(OpenFlags::from_bits_retain(O_EXCL)));
    assert!(!flags.contains(OpenFlags::from_bits_retain(O_EXCL | O_CREAT)));
    assert!(flags.contains(OpenFlags::from_bits_retain(O_RDONLY)));
    assert_eq!(OpenFlags::from_bits_retain(0xffff_ffff).bits(), 0xffff_ffff);
}

#[test]
fn error_codes_are_never_zero() {
    assert!(Errno::new(0).is_none());
    assert_eq!(Errno::new(2).unwrap().get(), 2);
    assert_eq!(Errno::new(-1).unwrap().get(), -1);
    assert_eq!(Errno::new(i32::MIN).unwrap().get(), i32::MIN);
}

#[test]
fn zero_is_success_and_anything_else_the_failure_unchanged() {
    assert_eq!(status(0), Ok(()));
    assert_eq!(status(2), Err(Errno::new(2).unwrap()));
    assert_eq!(status(-7), Err(Errno::new(-7).unwrap()));

    let td = fw1100::Thread::new([0x4000, 77]);
    assert_eq!(write_result(0, &td), Ok(0x4000));
    assert_eq!(write_result(28, &td), Err(Errno::new(28).unwrap()));
    assert_eq!(open_result(0, &fw1100::Thread::new([3, 77])), Ok(3));
    assert_eq!(open_result(2, &fw1100::Thread::new([3, 77])), Err(Errno::new(2).unwrap()));
    assert_eq!(
        open_result(13, &fw1100::Thread::new([usize::MAX, 0])),
        Err(Errno::new(13).unwrap())
    );
}

#[test]
fn a_descriptor_fits_an_int() {
    assert!(check_descriptor(&fw1100::Thread::new([0, 0])));
    assert!(check_descriptor(&fw1100::Thread::new([0x7fff_ffff, 0])));
    assert!(!check_descriptor(&fw1100::Thread::new([0x8000_0000, 0])));
    assert_eq!(open_result(0, &fw1100::Thread::new([0x7fff_ffff, 0])), Ok(i32::MAX));
}

#[test]
fn return_values_of_a_thread() {
    let td = fw1100::Thread::new([11, 22]);
    assert_eq!(td.ret(0), 11);
    assert_eq!(td.ret(1), 22);
    assert_eq!(RETVAL_SLOTS, 2);
    let cpu = CpuContext::new(0xffff_8000_1234_0000);
    assert_eq!(cpu.thread(), 0xffff_8000_1234_0000);
}

#[test]
fn table_of_system_calls() {
    assert_eq!(SYSENT_COUNT, 678);
    assert_eq!(SYSENT_SIZE, 0x30);
    assert_eq!(SYSENT_HANDLER, 8);
    assert_eq!((SYS_WRITE, SYS_OPEN, SYS_CLOSE, SYS_FSYNC), (4, 5, 6, 95));
    let method = SyscallMethod::new(&kernel()).unwrap();
    assert_eq!(method.handler(0), 0xffffffff83301760 + 8);
    assert_eq!(method.handler(5), 0xffffffff83301760 + 5 * 0x30 + 8);
    assert_eq!(method.handler(677), 0xffffffff83301760 + 677 * 0x30 + 8);
}

#[test]
fn the_table_has_to_lie_inside_the_image() {
    let end = 0x1101760 + 678 * 0x30;
    assert!(SyscallMethod::new(&Kernel::new(fw1100::version(), image_at(0x1000, end))).is_some());
    assert!(SyscallMethod::new(&Kernel::new(fw1100::version(), image_at(0x1000, end - 1)))
        .is_none());
    assert!(SyscallMethod::new(&Kernel::new(fw1100::version(), image_at(0x1000, 0x100))).is_none());
    let mut v = fw1100::version();
    v.sysents = u64::MAX - 8;
    assert!(SyscallMethod::new(&Kernel::new(v, image_at(0x1000, end))).is_none());
}

#[test]
fn requests_through_the_table() {
    let method = SyscallMethod::new(&kernel()).unwrap();
    let table = 0xffffffff83301760u64;
    assert_eq!(
        syscall_of(method.open(0x10, 0x9000, OpenFlags::from_bits_retain(0x601), 0o777)),
        (5, table + 5 * 0x30 + 8, vec![0x9000, 0x601, 0o777])
    );
    assert_eq!(
        syscall_of(method.open(0x10, 0x9000, OpenFlags::from_bits_retain(0x8000_0000), -1)),
        (5, table + 5 * 0x30 + 8, vec![0x9000, 0x8000_0000, u64::MAX])
    );
    match method.write(0x10, 3, 0xffffffff82200000, 0x4000) {
        WriteOp::Ask(r) => assert_eq!(
            syscall_of(r),
            (4, table + 4 * 0x30 + 8, vec![3, 0xffffffff82200000, 0x4000])
        ),
        WriteOp::Done(n) => panic!("no request, {} bytes", n),
    }
    assert_eq!(syscall_of(method.fsync(0x10, 3)), (95, table + 95 * 0x30 + 8, vec![3]));
    assert_eq!(syscall_of(method.close(0x10, 3)), (6, table + 6 * 0x30 + 8, vec![3]));
    assert_eq!(
        syscall_of(method.close(0x10, -2)),
        (6, table + 6 * 0x30 + 8, vec![0xffff_ffff_ffff_fffe])
    );
}

#[test]
fn ints_are_sign_extended() {
    assert_eq!(int_to_word(0), 0);
    assert_eq!(int_to_word(3), 3);
    assert_eq!(int_to_word(-1), u64::MAX);
    assert_eq!(int_to_word(i32::MIN), 0xffff_ffff_8000_0000);
    assert_eq!(int_to_word(i32::MAX), 0x7fff_ffff);
}

#[test]
fn direct_method_needs_its_routines() {
    assert!(DirectMethod::new(kernel()).is_none());
    let mut v = fw1100::version();
    v.kern_fsync = Some(0x416A00);
    let k = Kernel::new(v, image_at(0xffffffff82200000, 0x2000000));
    let method = DirectMethod::new(k).unwrap();
    assert_eq!(method.kernel(), k);
    v.kern_close = None;
    assert!(DirectMethod::new(Kernel::new(v, image_at(0xffffffff82200000, 0x2000000))).is_none());
    v.kern_close = Some(0x416920);
    v.kern_openat = Some(0x2000000);
    assert!(DirectMethod::new(Kernel::new(v, image_at(0xffffffff82200000, 0x2000000))).is_none());
}

#[test]
fn requests_by_address() {
    let mut v = fw1100::version();
    v.kern_fsync = Some(0x416A00);
    let method = DirectMethod::new(Kernel::new(v, image_at(0xffffffff82200000, 0x2000000))).unwrap();
    assert_eq!(AT_FDCWD, -100);
    assert_eq!(
        call_of(method.open(0x10, 0x9000, OpenFlags::from_bits_retain(0x601), 0o777)),
        (
            Routine::KernOpenat,
            0xffffffff822e63b0,
            vec![
                Arg::Thread(0x10),
                Arg::Int(-100),
                Arg::Pointer(0x9000),
                Arg::Seg(UioSeg::Kernel),
                Arg::Int(0x601),
                Arg::Int(0o777),
            ]
        )
    );
    let (_, _, args) =
        call_of(method.open(0x10, 0x9000, OpenFlags::from_bits_retain(0x8000_0001), 0));
    assert_eq!(args[4], Arg::Int(i32::MIN + 1));
    assert_eq!(
        call_of(method.fsync(0x10, 3)),
        (Routine::KernFsync, 0xffffffff82616a00, vec![Arg::Thread(0x10), Arg::Int(3), Arg::Int(1)])
    );
    assert_eq!(
        call_of(method.close(0x10, 3)),
        (Routine::KernClose, 0xffffffff82616920, vec![Arg::Thread(0x10), Arg::Int(3)])
    );
}

#[test]
fn direct_write_asks_nothing_and_reports_all_bytes() {
    let mut v = fw1100::version();
    v.kern_fsync = Some(0x416A00);
    let method = DirectMethod::new(Kernel::new(v, image_at(0xffffffff82200000, 0x2000000))).unwrap();
    assert!(matches!(method.write(0x10, 3, 0xffffffff82200000, 0x4000), WriteOp::Done(0x4000)));
    assert!(matches!(method.write(0x10, 3, 0, 0), WriteOp::Done(0)));
}

#[test]
fn an_owned_descriptor_is_closed_by_its_method() {
    let method = SyscallMethod::new(&kernel()).unwrap();
    let fd = OwnedFd::new(&method, 3);
    assert_eq!(fd.as_raw_fd(), 3);
    assert_eq!(syscall_of(fd.release(0x10)), syscall_of(method.close(0x10, 3)));

    let mut v = fw1100::version();
    v.kern_fsync = Some(0x416A00);
    let method = DirectMethod::new(Kernel::new(v, image_at(0xffffffff82200000, 0x2000000))).unwrap();
    let fd = OwnedFd::new(&method, 4);
    assert_eq!(fd.as_raw_fd(), 4);
    assert_eq!(
        call_of(fd.release(0x20)),
        (Routine::KernClose, 0xffffffff82616920, vec![Arg::Thread(0x20), Arg::Int(4)])
    );
}
