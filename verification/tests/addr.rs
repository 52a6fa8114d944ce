use kernel_dumper::addr::{kernel_base, LINKED_BASE, SYSCALL_HANDLER};

#[test]
fn kernel_that_was_not_moved() {
    assert_eq!(kernel_base(0xffffffff822001c0), Some(0xffffffff82200000));
    assert_eq!(kernel_base(SYSCALL_HANDLER), Some(LINKED_BASE));
}

#[test]
fn kernel_that_was_moved() {
    assert_eq!(kernel_base(0xffffffff922001c0), Some(0xffffffff92200000));
    assert_eq!(kernel_base(0xffffffffd34c41c0), Some(0xffffffffd34c4000));
    assert_eq!(kernel_base(u64::MAX), Some(u64::MAX - 0x1c0));
}

#[test]
fn handler_below_its_linked_place() {
    assert_eq!(kernel_base(0xffffffff822001bf), None);
    assert_eq!(kernel_base(0xffff800000000000), None);
    assert_eq!(kernel_base(0), None);
    assert_eq!(kernel_base(0x00007fffffffffff), None);
}

#[test]
fn number_that_is_no_address() {
    assert_eq!(kernel_base(0x0000800000000000), None);
    assert_eq!(kernel_base(0xffff7fffffffffff), None);
    assert_eq!(kernel_base(0x8000000000000000), None);
}
