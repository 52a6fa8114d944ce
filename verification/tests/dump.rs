use kernel_dumper::dump::{Action, Dumper, Event, Phase, State, Status, Target, CHUNK, OUTPUT_MODE};
use kernel_dumper::method::{Errno, OpenFlags, O_CREAT, O_TRUNC, O_WRONLY};

fn errno(code: i32) -> Errno {
    Errno::new(code).unwrap()
}

fn open_device() -> Action {
    Action::Open {
        target: Target::Notification0,
        flags: OpenFlags::from_bits_retain(O_WRONLY),
        mode: 0,
    }
}

/// Feeds the events to the driver and returns the requests that it answers with.
fn drive(dumper: &mut Dumper, events: &[Event]) -> Vec<Action> {
    let mut actions = Vec::new();
    for event in events {
        assert!(dumper.accepts(event), "{:?} does not accept {:?}", dumper.state(), event);
        actions.push(dumper.step(*event));
    }
    actions
}

#[test]
fn dump_starts_by_creating_the_output_file() {
    let (dumper, first) = Dumper::start(0x10000, CHUNK);
    assert_eq!(
        first,
        Action::Open {
            target: Target::Output,
            flags: OpenFlags::from_bits_retain(0x601),
            mode: 0o777,
        }
    );
    assert_eq!(O_WRONLY | O_CREAT | O_TRUNC, 0x601);
    assert_eq!(OUTPUT_MODE, 0o777);
    assert_eq!(CHUNK, 0x4000);
    assert_eq!(
        dumper.state(),
        State { len: 0x10000, chunk: 0x4000, written: 0, status: None, phase: Phase::OpeningOutput }
    );
    assert_eq!(dumper.status(), None);
    assert!(!dumper.is_done());
}

#[test]
fn four_windows_then_sync_then_notification() {
    let (mut dumper, _) = Dumper::start(0x10000, 0x4000);
    let actions = drive(
        &mut dumper,
        &[
            Event::Opened(Ok(3)),
            Event::Written(Ok(0x4000)),
            Event::Written(Ok(0x4000)),
            Event::Written(Ok(0x4000)),
            Event::Written(Ok(0x4000)),
            Event::Synced(Ok(())),
            Event::Opened(Ok(4)),
            Event::Written(Ok(3120)),
            Event::Closed(Ok(())),
            Event::Closed(Ok(())),
        ],
    );
    assert_eq!(
        actions,
        vec![
            Action::Write { fd: 3, offset: 0, len: 0x4000 },
            Action::Write { fd: 3, offset: 0x4000, len: 0x4000 },
            Action::Write { fd: 3, offset: 0x8000, len: 0x4000 },
            Action::Write { fd: 3, offset: 0xc000, len: 0x4000 },
            Action::Fsync { fd: 3 },
            open_device(),
            Action::Notify { fd: 4, status: Status::Completed },
            Action::Close { fd: 4 },
            Action::Close { fd: 3 },
            Action::Exit,
        ]
    );
    assert_eq!(dumper.status(), Some(Status::Completed));
    assert_eq!(dumper.state().written, 0x10000);
    assert!(dumper.is_done());
}

#[test]
fn failed_open_notifies_and_writes_nothing() {
    let (mut dumper, _) = Dumper::start(0x10000, 0x4000);
    let actions = drive(
        &mut dumper,
        &[
            Event::Opened(Err(errno(2))),
            Event::Opened(Ok(9)),
            Event::Written(Err(errno(5))),
            Event::Closed(Ok(())),
        ],
    );
    assert_eq!(
        actions,
        vec![
            open_device(),
            Action::Notify { fd: 9, status: Status::OpenFailed },
            Action::Close { fd: 9 },
            Action::Exit,
        ]
    );
    assert!(actions.iter().all(|a| !matches!(a, Action::Write { .. })));
    assert_eq!(dumper.status(), Some(Status::OpenFailed));
    assert_eq!(Status::OpenFailed.message(), "Failed to open /mnt/usb0/kernel.elf");
    assert_eq!(dumper.state().written, 0);
    assert!(dumper.is_done());
}

#[test]
fn a_write_that_takes_nothing_halts_the_dump() {
    let (mut dumper, _) = Dumper::start(0x10000, 0x4000);
    let actions = drive(
        &mut dumper,
        &[
            Event::Opened(Ok(3)),
            Event::Written(Ok(0x4000)),
            Event::Written(Ok(0)),
            Event::Opened(Ok(4)),
            Event::Written(Ok(3120)),
            Event::Closed(Ok(())),
            Event::Closed(Ok(())),
        ],
    );
    assert_eq!(
        actions,
        vec![
            Action::Write { fd: 3, offset: 0, len: 0x4000 },
            Action::Write { fd: 3, offset: 0x4000, len: 0x4000 },
            open_device(),
            Action::Notify { fd: 4, status: Status::DestinationFull },
            Action::Close { fd: 4 },
            Action::Close { fd: 3 },
            Action::Exit,
        ]
    );
    assert_eq!(dumper.status(), Some(Status::DestinationFull));
    assert_eq!(dumper.state().written, 0x4000);
}

#[test]
fn a_failed_write_halts_the_dump() {
    let (mut dumper, _) = Dumper::start(0x10000, 0x4000);
    let actions =
        drive(&mut dumper, &[Event::Opened(Ok(3)), Event::Written(Err(errno(28)))]);
    assert_eq!(actions, vec![Action::Write { fd: 3, offset: 0, len: 0x4000 }, open_device()]);
    assert_eq!(dumper.status(), Some(Status::WriteFailed));
    assert_eq!(
        dumper.state().phase,
        Phase::OpeningDevice { out: Some(3), second: false }
    );
}

#[test]
fn a_failed_sync_is_reported() {
    let (mut dumper, _) = Dumper::start(0x100, 0x4000);
    let actions = drive(
        &mut dumper,
        &[Event::Opened(Ok(3)), Event::Written(Ok(0x100)), Event::Synced(Err(errno(5)))],
    );
    assert_eq!(
        actions,
        vec![Action::Write { fd: 3, offset: 0, len: 0x100 }, Action::Fsync { fd: 3 }, open_device()]
    );
    assert_eq!(dumper.status(), Some(Status::SyncFailed));
    assert_eq!(dumper.state().written, 0x100);
}

#[test]
fn writes_go_on_by_what_was_taken() {
    let (mut dumper, _) = Dumper::start(0x5000, 0x4000);
    let actions = drive(
        &mut dumper,
        &[
            Event::Opened(Ok(3)),
            Event::Written(Ok(0x1000)),
            Event::Written(Ok(0x3fff)),
            Event::Written(Ok(1)),
        ],
    );
    assert_eq!(
        actions,
        vec![
            Action::Write { fd: 3, offset: 0, len: 0x4000 },
            Action::Write { fd: 3, offset: 0x1000, len: 0x4000 },
            Action::Write { fd: 3, offset: 0x4fff, len: 1 },
            Action::Fsync { fd: 3 },
        ]
    );
}

#[test]
fn the_last_window_is_what_is_left() {
    let (mut dumper, _) = Dumper::start(0x4001, 0x4000);
    let actions = drive(
        &mut dumper,
        &[Event::Opened(Ok(3)), Event::Written(Ok(0x4000)), Event::Written(Ok(1))],
    );
    assert_eq!(
        actions,
        vec![
            Action::Write { fd: 3, offset: 0, len: 0x4000 },
            Action::Write { fd: 3, offset: 0x4000, len: 1 },
            Action::Fsync { fd: 3 },
        ]
    );
}

#[test]
fn an_empty_image_is_synchronized_at_once() {
    let (mut dumper, _) = Dumper::start(0, 0x4000);
    let actions = drive(&mut dumper, &[Event::Opened(Ok(3)), Event::Synced(Ok(()))]);
    assert_eq!(actions, vec![Action::Fsync { fd: 3 }, open_device()]);
    assert_eq!(dumper.status(), Some(Status::Completed));
}

#[test]
fn the_second_device_is_tried_after_the_first() {
    let (mut dumper, _) = Dumper::start(0, 0x4000);
    let actions = drive(
        &mut dumper,
        &[
            Event::Opened(Ok(3)),
            Event::Synced(Ok(())),
            Event::Opened(Err(errno(2))),
            Event::Opened(Ok(5)),
            Event::Written(Ok(3120)),
            Event::Closed(Ok(())),
            Event::Closed(Ok(())),
        ],
    );
    assert_eq!(
        actions[2..],
        [
            Action::Open {
                target: Target::Notification1,
                flags: OpenFlags::from_bits_retain(O_WRONLY),
                mode: 0,
            },
            Action::Notify { fd: 5, status: Status::Completed },
            Action::Close { fd: 5 },
            Action::Close { fd: 3 },
            Action::Exit,
        ]
    );
}

#[test]
fn without_a_device_the_notification_is_skipped() {
    let (mut dumper, _) = Dumper::start(0, 0x4000);
    let actions = drive(
        &mut dumper,
        &[
            Event::Opened(Ok(3)),
            Event::Synced(Ok(())),
            Event::Opened(Err(errno(2))),
            Event::Opened(Err(errno(2))),
            Event::Closed(Ok(())),
        ],
    );
    assert_eq!(actions[3..], [Action::Close { fd: 3 }, Action::Exit]);
    assert!(dumper.is_done());

    let (mut dumper, _) = Dumper::start(0, 0x4000);
    let actions = drive(
        &mut dumper,
        &[Event::Opened(Err(errno(2))), Event::Opened(Err(errno(6))), Event::Opened(Err(errno(6)))],
    );
    assert_eq!(actions[2], Action::Exit);
    assert!(dumper.is_done());
    assert_eq!(dumper.status(), Some(Status::OpenFailed));
}

#[test]
fn events_that_are_not_awaited_are_not_accepted() {
    let (mut dumper, _) = Dumper::start(0x100, 0x40);
    assert!(!dumper.accepts(&Event::Written(Ok(1))));
    assert!(!dumper.accepts(&Event::Synced(Ok(()))));
    assert!(!dumper.accepts(&Event::Closed(Ok(()))));
    dumper.step(Event::Opened(Ok(3)));
    // A write can not take more than its window.
    assert!(dumper.accepts(&Event::Written(Ok(0x40))));
    assert!(!dumper.accepts(&Event::Written(Ok(0x41))));
    assert!(!dumper.accepts(&Event::Opened(Ok(4))));
    drive(
        &mut dumper,
        &[Event::Written(Err(errno(5))), Event::Opened(Ok(4)), Event::Written(Ok(0))],
    );
    // The close of a descriptor that the dump holds can not fail.
    assert!(!dumper.accepts(&Event::Closed(Err(errno(9)))));
    assert!(dumper.accepts(&Event::Closed(Ok(()))));
    drive(&mut dumper, &[Event::Closed(Ok(())), Event::Closed(Ok(()))]);
    assert!(dumper.is_done());
    assert!(!dumper.accepts(&Event::Closed(Ok(()))));
}

#[test]
fn full_writes_take_one_request_for_each_window() {
    for (len, chunk) in [(0usize, 7usize), (1, 7), (7, 7), (8, 7), (20, 7), (21, 7), (0x10000, 0x4000)] {
        let (mut dumper, _) = Dumper::start(len, chunk);
        let mut action = dumper.step(Event::Opened(Ok(3)));
        let mut writes = 0;
        let mut total = 0;
        while let Action::Write { len: window, offset, .. } = action {
            assert_eq!(offset, total);
            writes += 1;
            total += window;
            action = dumper.step(Event::Written(Ok(window)));
        }
        assert_eq!(action, Action::Fsync { fd: 3 });
        assert_eq!(writes, (len + chunk - 1) / chunk);
        assert_eq!(total, len);
        assert_eq!(dumper.state().written, len);
    }
}

#[test]
fn partial_writes_take_more_requests_than_windows() {
    let (mut dumper, _) = Dumper::start(2, 2);
    let actions =
        drive(&mut dumper, &[Event::Opened(Ok(3)), Event::Written(Ok(1)), Event::Written(Ok(1))]);
    assert_eq!(
        actions,
        vec![
            Action::Write { fd: 3, offset: 0, len: 2 },
            Action::Write { fd: 3, offset: 1, len: 1 },
            Action::Fsync { fd: 3 },
        ]
    );
}

#[test]
fn paths_and_messages() {
    assert_eq!(Target::Output.path(), "/mnt/usb0/kernel.elf");
    assert_eq!(Target::Notification0.path(), "/dev/notification0");
    assert_eq!(Target::Notification1.path(), "/dev/notification1");
    assert_eq!(Status::Completed.message(), "Dump completed!");
    assert_eq!(Status::WriteFailed.message(), "Failed to write /mnt/usb0/kernel.elf");
    assert_eq!(Status::DestinationFull.message(), "Not enough space to dump the kernel");
    assert_eq!(
        Status::SyncFailed.message(),
        "Failed to synchronize changes to a /mnt/usb0/kernel.elf"
    );
}
