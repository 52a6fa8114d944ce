use kernel_dumper::dump::Status;
use kernel_dumper::notify::{
    build_request, status_request, MESSAGE, MESSAGE_SIZE, REQUEST_SIZE, TARGET_ID,
    USE_ICON_IMAGE_URI,
};

#[test]
fn request_holds_target_icon_and_message() {
    let data = build_request(b"Dump completed!");
    assert_eq!(data.len(), 3120);
    let mut expected = vec![0u8; 3120];
    expected[16..20].copy_from_slice(&(-1i32).to_le_bytes());
    expected[44] = 1;
    expected[45..60].copy_from_slice(b"Dump completed!");
    assert_eq!(data, expected);
}

#[test]
fn layout_of_the_request() {
    assert_eq!(REQUEST_SIZE, 3120);
    assert_eq!(TARGET_ID, 16);
    assert_eq!(USE_ICON_IMAGE_URI, 44);
    assert_eq!(MESSAGE, 45);
    assert_eq!(MESSAGE_SIZE, 1024);
}

#[test]
fn empty_message() {
    let data = build_request(b"");
    let mut expected = vec![0u8; 3120];
    expected[16..20].copy_from_slice(&[0xff; 4]);
    expected[44] = 1;
    assert_eq!(data, expected);
}

#[test]
fn long_message_is_cut_to_leave_the_terminator() {
    let msg = vec![b'a'; 2000];
    let data = build_request(&msg);
    assert_eq!(data.len(), 3120);
    assert!(data[45..45 + 1023].iter().all(|b| *b == b'a'));
    assert!(data[45 + 1023..].iter().all(|b| *b == 0));

    let msg = vec![b'b'; 1023];
    let data = build_request(&msg);
    assert!(data[45..45 + 1023].iter().all(|b| *b == b'b'));
    assert_eq!(data[45 + 1023], 0);

    let msg = vec![b'c'; 1022];
    let data = build_request(&msg);
    assert!(data[45..45 + 1022].iter().all(|b| *b == b'c'));
    assert_eq!(data[45 + 1022], 0);
}

#[test]
fn request_of_a_status() {
    assert_eq!(
        status_request(Status::OpenFailed),
        build_request(b"Failed to open /mnt/usb0/kernel.elf")
    );
    assert_eq!(status_request(Status::Completed), build_request(b"Dump completed!"));
}
