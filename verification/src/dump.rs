//! The driver of a dump.
//!
//! A dump creates its output file, streams the image of the kernel into it
//! window by window, synchronizes it and tells the user how it went. Each of
//! these is a request to the kernel that the program makes. The driver only
//! decides: it is a machine that is told what the last request gave and
//! answers with the next request.

use crate::method::{Errno, OpenFlags, O_CREAT, O_TRUNC, O_WRONLY};
use vstd::prelude::*;

verus! {

/// Size of a window: most bytes that one write is asked to take.
pub const CHUNK: usize = 0x4000;

/// The mode that the output file is created with.
pub const OUTPUT_MODE: i32 = 0o777;

/// The files that a dump opens.
#[derive(Debug, Clone, Copy, PartialEq, Eq, Structural)]
pub enum Target {
    /// The file that receives the image.
    Output,
    /// The device that takes notifications.
    Notification0,
    /// The device to try where the first can not be opened.
    Notification1,
}

/// How a dump ended.
#[derive(Debug, Clone, Copy, PartialEq, Eq, Structural)]
pub enum Status {
    /// The whole image was written and synchronized.
    Completed,
    /// The output file could not be opened.
    OpenFailed,
    /// A write failed.
    WriteFailed,
    /// A write took nothing while bytes were left: the destination is full.
    DestinationFull,
    /// The output file could not be synchronized.
    SyncFailed,
}

/// What the driver wants done next.
#[derive(Debug, Clone, Copy, PartialEq, Eq)]
pub enum Action {
    /// Open the file.
    Open { target: Target, flags: OpenFlags, mode: i32 },
    /// Write the `len` bytes of the image that start at `offset` to `fd`.
    Write { fd: i32, offset: usize, len: usize },
    /// Synchronize `fd`.
    Fsync { fd: i32 },
    /// Write the notification of `status` to the device `fd`.
    Notify { fd: i32, status: Status },
    /// Close `fd`.
    Close { fd: i32 },
    /// Nothing is left to do.
    Exit,
}

/// What the last request gave.
#[derive(Debug, Clone, Copy, PartialEq, Eq)]
pub enum Event {
    /// An open has given a descriptor, or failed.
    Opened(Result<i32, Errno>),
    /// A write has taken so many bytes, or failed.
    Written(Result<usize, Errno>),
    /// A synchronization has gone through, or failed.
    Synced(Result<(), Errno>),
    /// A close has gone through, or failed.
    Closed(Result<(), Errno>),
}

/// What the driver waits for.
#[derive(Debug, Clone, Copy, PartialEq, Eq)]
pub enum Phase {
    /// For the output file to be opened.
    OpeningOutput,
    /// For a window to be written to the output file `fd`.
    Writing { fd: i32 },
    /// For the output file `fd` to be synchronized.
    Syncing { fd: i32 },
    /// For a notification device to be opened: the first one, or the
    /// `second`. `out` is the output file, if it is open.
    OpeningDevice { out: Option<i32>, second: bool },
    /// For the notification to be written to the device `dev`.
    Notifying { out: Option<i32>, dev: i32 },
    /// For the notification device to be closed.
    ClosingDevice { out: Option<i32> },
    /// For the output file to be closed.
    ClosingOutput,
    /// For nothing: the dump is over.
    Done,
}

/// The state of a dump: the length of the image, the size of a window, the
/// bytes that the output file has taken so far, how the dump ended, if it
/// has, and what the driver waits for.
#[derive(Debug, Clone, Copy, PartialEq, Eq)]
pub struct State {
    pub len: usize,
    pub chunk: usize,
    pub written: usize,
    pub status: Option<Status>,
    pub phase: Phase,
}

/// The flags that the output file is opened with: for writing only, created
/// if it is missing, emptied if it is not.
pub open spec fn output_flags() -> u32 {
    O_WRONLY | O_CREAT | O_TRUNC
}

impl State {
    /// Bytes of the image that the output file has not taken yet.
    pub open spec fn remaining(&self) -> int {
        self.len - self.written
    }

    /// Length of the next window: what is left of the image, but no more
    /// than a chunk.
    pub open spec fn window(&self) -> int {
        if self.remaining() < self.chunk {
            self.remaining()
        } else {
            self.chunk as int
        }
    }

    /// Number of windows that are left if each write takes all of its
    /// window: what is left, divided by the chunk size and rounded up.
    pub open spec fn windows_left(&self) -> int {
        (self.remaining() + self.chunk - 1) / (self.chunk as int)
    }

    /// Whether the bytes written so far agree with the way the dump ended.
    pub open spec fn agrees(&self, status: Status) -> bool {
        match status {
            Status::Completed | Status::SyncFailed => self.written == self.len,
            Status::WriteFailed | Status::DestinationFull => self.written < self.len,
            Status::OpenFailed => self.written == 0,
        }
    }

    /// Whether the output file `out` agrees with the way the dump ended: it
    /// is open unless it could not be opened.
    pub open spec fn holds_output(status: Option<Status>, out: Option<i32>) -> bool {
        out is None <==> status == Some(Status::OpenFailed)
    }

    /// Whether this is a state that a dump can be in.
    pub open spec fn wf(&self) -> bool {
        &&& self.chunk > 0
        &&& self.written <= self.len
        &&& match self.phase {
            Phase::OpeningOutput => self.written == 0 && self.status is None,
            Phase::Writing { .. } => self.written < self.len && self.status is None,
            Phase::Syncing { .. } => self.written == self.len && self.status is None,
            Phase::OpeningDevice { out, .. } => self.status is Some && self.agrees(
                self.status->Some_0,
            ) && Self::holds_output(self.status, out),
            Phase::Notifying { out, .. } => self.status is Some && self.agrees(
                self.status->Some_0,
            ) && Self::holds_output(self.status, out),
            Phase::ClosingDevice { out } => self.status is Some && self.agrees(
                self.status->Some_0,
            ) && Self::holds_output(self.status, out),
            Phase::ClosingOutput | Phase::Done => self.status is Some && self.agrees(
                self.status->Some_0,
            ),
        }
    }

    /// Whether the event can be what the request that the driver waits for
    /// has given. A write can not take more than its window, and a close of
    /// a descriptor that the dump holds can not fail: where either happens
    /// the state of the kernel is not what the dump takes it for, and the
    /// program has to stop.
    pub open spec fn accepts(&self, event: Event) -> bool {
        match (self.phase, event) {
            (Phase::OpeningOutput, Event::Opened(_)) => true,
            (Phase::Writing { .. }, Event::Written(Ok(n))) => n <= self.window(),
            (Phase::Writing { .. }, Event::Written(Err(_))) => true,
            (Phase::Syncing { .. }, Event::Synced(_)) => true,
            (Phase::OpeningDevice { .. }, Event::Opened(_)) => true,
            (Phase::Notifying { .. }, Event::Written(_)) => true,
            (Phase::ClosingDevice { .. }, Event::Closed(Ok(_))) => true,
            (Phase::ClosingOutput, Event::Closed(Ok(_))) => true,
            _ => false,
        }
    }

    /// The state in which the output file `fd` waits for its next window, or
    /// for its synchronization where nothing is left, and the request for
    /// that.
    pub open spec fn proceed(&self, fd: i32, written: usize) -> (State, Action) {
        let s = State { written, ..*self };
        if written == self.len {
            (State { phase: Phase::Syncing { fd }, ..s }, Action::Fsync { fd })
        } else {
            (
                State { phase: Phase::Writing { fd }, ..s },
                Action::Write { fd, offset: written, len: s.window() as usize },
            )
        }
    }

    /// The state in which the dump has ended with `status` and the user is
    /// about to be told, and the request that opens the first notification
    /// device.
    pub open spec fn report(&self, out: Option<i32>, status: Status) -> (State, Action) {
        (
            State {
                status: Some(status),
                phase: Phase::OpeningDevice { out, second: false },
                ..*self
            },
            Action::Open {
                target: Target::Notification0,
                flags: OpenFlags::spec_from_bits(O_WRONLY),
                mode: 0,
            },
        )
    }

    /// The state after the notification: the output file is closed if it is
    /// open, and the dump is over if it is not.
    pub open spec fn finish(&self, out: Option<i32>) -> (State, Action) {
        match out {
            Some(fd) => (State { phase: Phase::ClosingOutput, ..*self }, Action::Close { fd }),
            None => (State { phase: Phase::Done, ..*self }, Action::Exit),
        }
    }

    /// The state that follows on an event, and the next request. It is
    /// meant for events that the state accepts; on others the dump is left
    /// as it is.
    pub open spec fn next(&self, event: Event) -> (State, Action) {
        match (self.phase, event) {
            (Phase::OpeningOutput, Event::Opened(Ok(fd))) => self.proceed(fd, 0),
            (Phase::OpeningOutput, Event::Opened(Err(_))) => self.report(
                None,
                Status::OpenFailed,
            ),
            (Phase::Writing { fd }, Event::Written(Ok(n))) => if n == 0 {
                self.report(Some(fd), Status::DestinationFull)
            } else if n <= self.window() {
                self.proceed(fd, (self.written + n) as usize)
            } else {
                (*self, Action::Exit)
            },
            (Phase::Writing { fd }, Event::Written(Err(_))) => self.report(
                Some(fd),
                Status::WriteFailed,
            ),
            (Phase::Syncing { fd }, Event::Synced(Ok(_))) => self.report(
                Some(fd),
                Status::Completed,
            ),
            (Phase::Syncing { fd }, Event::Synced(Err(_))) => self.report(
                Some(fd),
                Status::SyncFailed,
            ),
            (Phase::OpeningDevice { out, .. }, Event::Opened(Ok(dev))) => (
                State { phase: Phase::Notifying { out, dev }, ..*self },
                Action::Notify { fd: dev, status: self.status->Some_0 },
            ),
            (Phase::OpeningDevice { out, second }, Event::Opened(Err(_))) => if second {
                self.finish(out)
            } else {
                (
                    State { phase: Phase::OpeningDevice { out, second: true }, ..*self },
                    Action::Open {
                        target: Target::Notification1,
                        flags: OpenFlags::spec_from_bits(O_WRONLY),
                        mode: 0,
                    },
                )
            },
            (Phase::Notifying { out, dev }, Event::Written(_)) => (
                State { phase: Phase::ClosingDevice { out }, ..*self },
                Action::Close { fd: dev },
            ),
            (Phase::ClosingDevice { out }, Event::Closed(Ok(_))) => self.finish(out),
            (Phase::ClosingOutput, Event::Closed(Ok(_))) => (
                State { phase: Phase::Done, ..*self },
                Action::Exit,
            ),
            _ => (*self, Action::Exit),
        }
    }

    /// The state in which a dump of `len` bytes in windows of `chunk` bytes
    /// starts.
    pub open spec fn initial(len: usize, chunk: usize) -> State {
        State { len, chunk, written: 0, status: None, phase: Phase::OpeningOutput }
    }

    /// The request that a dump starts with: it opens the output file.
    pub open spec fn first_action() -> Action {
        Action::Open {
            target: Target::Output,
            flags: OpenFlags::spec_from_bits(output_flags()),
            mode: OUTPUT_MODE,
        }
    }
}

/// Whether each of the events, in turn, is accepted by the state that the
/// events before it lead to.
pub open spec fn accepts_all(s: State, events: Seq<Event>) -> bool
    decreases events.len(),
{
    events.len() == 0 || (s.accepts(events[0]) && accepts_all(
        s.next(events[0]).0,
        events.drop_first(),
    ))
}

/// Whether each write among the events takes the whole of its window.
pub open spec fn takes_all(s: State, events: Seq<Event>) -> bool
    decreases events.len(),
{
    events.len() == 0 || ((s.phase is Writing && events[0] is Written ==> events[0]
        == Event::Written(Ok(s.window() as usize))) && takes_all(
        s.next(events[0]).0,
        events.drop_first(),
    ))
}

/// The state that the events lead to.
pub open spec fn run(s: State, events: Seq<Event>) -> State
    decreases events.len(),
{
    if events.len() == 0 {
        s
    } else {
        run(s.next(events[0]).0, events.drop_first())
    }
}

/// Number of writes to the output file that the driver asks for in answer to
/// the events.
pub open spec fn writes_in(s: State, events: Seq<Event>) -> int
    decreases events.len(),
{
    if events.len() == 0 {
        0
    } else {
        (if s.next(events[0]).1 is Write {
            1int
        } else {
            0int
        }) + writes_in(s.next(events[0]).0, events.drop_first())
    }
}

impl State {
    /// Most writes that the driver can still ask for: one for each byte that
    /// is left, less the write that is under way.
    pub open spec fn writes_left(&self) -> int {
        match self.phase {
            Phase::OpeningOutput => self.remaining(),
            Phase::Writing { .. } => self.remaining() - 1,
            _ => 0,
        }
    }

    /// The writes that the driver still asks for if each takes the whole of
    /// its window: one for each window that is left, less the write that is
    /// under way.
    pub open spec fn full_writes_left(&self) -> int {
        match self.phase {
            Phase::OpeningOutput => self.windows_left(),
            Phase::Writing { .. } => self.windows_left() - 1,
            _ => 0,
        }
    }

    /// Most events that the dump can still take in: one for each byte that
    /// is left, as a write may take as little as one byte, and one for each
    /// request that is still to come after the writes.
    pub open spec fn steps_left(&self) -> int {
        match self.phase {
            Phase::OpeningOutput => self.remaining() + 7,
            Phase::Writing { .. } => self.remaining() + 6,
            Phase::Syncing { .. } => 6,
            Phase::OpeningDevice { second, .. } => if second {
                4
            } else {
                5
            },
            Phase::Notifying { .. } => 3,
            Phase::ClosingDevice { .. } => 2,
            Phase::ClosingOutput => 1,
            Phase::Done => 0,
        }
    }

    /// Whether the output file has been opened and has taken the whole
    /// image.
    pub open spec fn wrote_all(&self) -> bool {
        self.written == self.len && !(self.phase is OpeningOutput) && self.status != Some(
            Status::OpenFailed,
        )
    }
}

/// Dividing and rounding up: no window for no byte, one window for up to a
/// chunk, and one window less once a chunk is gone.
pub proof fn lemma_windows(left: int, chunk: int)
    requires
        0 <= left,
        0 < chunk,
    ensures
        left == 0 ==> (left + chunk - 1) / chunk == 0,
        0 < left <= chunk ==> (left + chunk - 1) / chunk == 1,
        chunk < left ==> (left - chunk + chunk - 1) / chunk == (left + chunk - 1) / chunk - 1,
        0 < left ==> (left + chunk - 1) / chunk >= 1,
{
    if left == 0 {
        assert((left + chunk - 1) / chunk == 0) by (nonlinear_arith)
            requires
                left == 0,
                0 < chunk,
        ;
    } else if left <= chunk {
        assert((left + chunk - 1) / chunk == 1) by (nonlinear_arith)
            requires
                0 < left <= chunk,
        ;
    } else {
        assert((left - chunk + chunk - 1) / chunk == (left + chunk - 1) / chunk - 1
            && (left + chunk - 1) / chunk >= 1) by (nonlinear_arith)
            requires
                0 < chunk < left,
        ;
    }
}

/// A step on an accepted event leads from a state that a dump can be in to
/// another such state, and nearer to the end. It never takes back a status,
/// and what it asks for is within the writes that were left.
pub proof fn lemma_step(s: State, event: Event)
    requires
        s.wf(),
        s.accepts(event),
    ensures
        s.next(event).0.wf(),
        s.next(event).0.len == s.len,
        s.next(event).0.chunk == s.chunk,
        s.status is Some ==> s.next(event).0.status == s.status,
        (if s.next(event).1 is Write {
            1int
        } else {
            0int
        }) + s.next(event).0.writes_left() <= s.writes_left(),
        0 <= s.next(event).0.steps_left() < s.steps_left(),
        s.next(event).1 is Exit <==> s.next(event).0.phase is Done,
{
}

/// A dump ends: it takes in no more events than the bytes of the image and
/// seven more, whatever the requests give, and a dump that is over accepts
/// no event.
pub proof fn lemma_ends(s: State, events: Seq<Event>)
    requires
        s.wf(),
        accepts_all(s, events),
    ensures
        events.len() <= s.steps_left(),
        events.len() <= s.len + 7,
        s.phase is Done ==> events.len() == 0,
    decreases events.len(),
{
    if events.len() > 0 {
        lemma_step(s, events[0]);
        lemma_ends(s.next(events[0]).0, events.drop_first());
    }
}

/// Whatever the requests give, the dump stays in a state that it can be in:
/// the bytes written agree with the way it ended. It asks for no more writes
/// than bytes were left, and once it has a status it keeps it.
pub proof fn lemma_run(s: State, events: Seq<Event>)
    requires
        s.wf(),
        accepts_all(s, events),
    ensures
        run(s, events).wf(),
        run(s, events).len == s.len,
        0 <= writes_in(s, events) <= s.writes_left(),
        s.status is Some ==> run(s, events).status == s.status,
    decreases events.len(),
{
    if events.len() > 0 {
        lemma_step(s, events[0]);
        lemma_run(s.next(events[0]).0, events.drop_first());
    }
}

/// A dump of `len` bytes whose requests give these events has written the
/// whole image if it has got as far as synchronizing, and less than the
/// whole image if a write failed or took nothing. It has asked for `len`
/// writes at most.
pub proof fn lemma_dump_total(len: usize, chunk: usize, events: Seq<Event>)
    requires
        chunk > 0,
        accepts_all(State::initial(len, chunk), events),
    ensures
        ({
            let end = run(State::initial(len, chunk), events);
            &&& end.phase is Syncing ==> end.written == len
            &&& end.status == Some(Status::Completed) ==> end.written == len
            &&& end.status == Some(Status::SyncFailed) ==> end.written == len
            &&& end.status == Some(Status::WriteFailed) ==> end.written < len
            &&& end.status == Some(Status::DestinationFull) ==> end.written < len
            &&& end.status == Some(Status::OpenFailed) ==> end.written == 0
        }),
        writes_in(State::initial(len, chunk), events) <= len,
{
    lemma_run(State::initial(len, chunk), events);
}

/// Where each write takes the whole of its window, the driver asks for no
/// more writes than windows were left, and for exactly that many if the
/// whole image gets written.
pub proof fn lemma_full_writes(s: State, events: Seq<Event>)
    requires
        s.wf(),
        accepts_all(s, events),
        takes_all(s, events),
    ensures
        0 <= writes_in(s, events) <= s.full_writes_left(),
        run(s, events).wrote_all() && !s.wrote_all() ==> writes_in(s, events)
            == s.full_writes_left(),
    decreases events.len(),
{
    lemma_windows(s.remaining(), s.chunk as int);
    if events.len() > 0 {
        let t = s.next(events[0]).0;
        lemma_step(s, events[0]);
        lemma_windows(t.remaining(), t.chunk as int);
        lemma_full_writes(t, events.drop_first());
        lemma_run(t, events.drop_first());
    }
}

/// A dump of `len` bytes in windows of `chunk` bytes, each write of which
/// takes the whole of its window, asks for `len / chunk` writes, rounded up,
/// at most, and for exactly that many if the whole image gets written.
pub proof fn lemma_dump_windows(len: usize, chunk: usize, events: Seq<Event>)
    requires
        chunk > 0,
        accepts_all(State::initial(len, chunk), events),
        takes_all(State::initial(len, chunk), events),
    ensures
        writes_in(State::initial(len, chunk), events) <= (len + chunk - 1) / (chunk as int),
        run(State::initial(len, chunk), events).wrote_all() ==> writes_in(
            State::initial(len, chunk),
            events,
        ) == (len + chunk - 1) / (chunk as int),
{
    lemma_full_writes(State::initial(len, chunk), events);
}

/// A write that takes nothing while bytes are left ends the dump at once
/// with the status of a full destination: the next request opens the
/// notification device, and no write is asked for again, whatever follows.
pub proof fn lemma_destination_full(s: State, events: Seq<Event>)
    requires
        s.wf(),
        s.phase is Writing,
        events.len() > 0,
        events[0] == Event::Written(Ok(0)),
        accepts_all(s, events),
    ensures
        s.next(events[0]).1 == (Action::Open {
            target: Target::Notification0,
            flags: OpenFlags::spec_from_bits(O_WRONLY),
            mode: 0,
        }),
        s.next(events[0]).0.written == s.written,
        run(s, events).status == Some(Status::DestinationFull),
        run(s, events).written == s.written,
        writes_in(s, events) == 0,
{
    let t = s.next(events[0]).0;
    lemma_step(s, events[0]);
    lemma_run(t, events.drop_first());
    lemma_halted(t, events.drop_first());
}

/// Once a dump has a status, the bytes written stay as they are.
pub proof fn lemma_halted(s: State, events: Seq<Event>)
    requires
        s.wf(),
        s.status is Some,
        accepts_all(s, events),
    ensures
        run(s, events).written == s.written,
        run(s, events).status == s.status,
        writes_in(s, events) == 0,
    decreases events.len(),
{
    if events.len() > 0 {
        lemma_step(s, events[0]);
        lemma_halted(s.next(events[0]).0, events.drop_first());
    }
}

impl Target {
    /// The path of the file.
    pub open spec fn spec_path(&self) -> Seq<char> {
        match self {
            Target::Output => "/mnt/usb0/kernel.elf"@,
            Target::Notification0 => "/dev/notification0"@,
            Target::Notification1 => "/dev/notification1"@,
        }
    }

    /// The path of the file.
    pub fn path(&self) -> (path: &'static str)
        ensures
            path@ == self.spec_path(),
    {
        match self {
            Target::Output => "/mnt/usb0/kernel.elf",
            Target::Notification0 => "/dev/notification0",
            Target::Notification1 => "/dev/notification1",
        }
    }
}

impl Status {
    /// What the user is told.
    pub open spec fn spec_message(&self) -> Seq<char> {
        match self {
            Status::Completed => "Dump completed!"@,
            Status::OpenFailed => "Failed to open /mnt/usb0/kernel.elf"@,
            Status::WriteFailed => "Failed to write /mnt/usb0/kernel.elf"@,
            Status::DestinationFull => "Not enough space to dump the kernel"@,
            Status::SyncFailed => "Failed to synchronize changes to a /mnt/usb0/kernel.elf"@,
        }
    }

    /// What the user is told.
    pub fn message(&self) -> (msg: &'static str)
        ensures
            msg@ == self.spec_message(),
    {
        match self {
            Status::Completed => "Dump completed!",
            Status::OpenFailed => "Failed to open /mnt/usb0/kernel.elf",
            Status::WriteFailed => "Failed to write /mnt/usb0/kernel.elf",
            Status::DestinationFull => "Not enough space to dump the kernel",
            Status::SyncFailed => "Failed to synchronize changes to a /mnt/usb0/kernel.elf",
        }
    }
}

/// The driver of one dump.
#[derive(Debug)]
pub struct Dumper {
    state: State,
}

impl View for Dumper {
    type V = State;

    closed spec fn view(&self) -> State {
        self.state
    }
}

impl Dumper {
    #[verifier::type_invariant]
    spec fn inv(&self) -> bool {
        self.state.wf()
    }

    /// Starts a dump of `len` bytes in windows of `chunk` bytes: returns the
    /// driver and its first request, which opens the output file.
    pub fn start(len: usize, chunk: usize) -> (r: (Self, Action))
        requires
            chunk > 0,
        ensures
            r.0@ == State::initial(len, chunk),
            r.1 == State::first_action(),
    {
        let flags = OpenFlags::from_bits_retain(O_WRONLY | O_CREAT | O_TRUNC);
        let state = State { len, chunk, written: 0, status: None, phase: Phase::OpeningOutput };
        (Self { state }, Action::Open { target: Target::Output, flags, mode: OUTPUT_MODE })
    }

    /// The state of the dump.
    pub fn state(&self) -> (s: State)
        ensures
            s == self@,
            s.wf(),
    {
        proof {
            use_type_invariant(self);
        }
        self.state
    }

    /// How the dump ended, once it has.
    pub fn status(&self) -> (s: Option<Status>)
        ensures
            s == self@.status,
    {
        self.state.status
    }

    /// Whether the dump is over.
    pub fn is_done(&self) -> (b: bool)
        ensures
            b == (self@.phase == Phase::Done),
    {
        match self.state.phase {
            Phase::Done => true,
            _ => false,
        }
    }

    /// Length of the next window.
    fn window(&self) -> (n: usize)
        ensures
            n == self@.window(),
    {
        proof {
            use_type_invariant(self);
        }
        let left: usize = self.state.len - self.state.written;
        if left < self.state.chunk {
            left
        } else {
            self.state.chunk
        }
    }

    /// Whether the event can be what the awaited request has given.
    pub fn accepts(&self, event: &Event) -> (b: bool)
        ensures
            b == self@.accepts(*event),
    {
        match (self.state.phase, event) {
            (Phase::OpeningOutput, Event::Opened(_)) => true,
            (Phase::Writing { .. }, Event::Written(Ok(n))) => *n <= self.window(),
            (Phase::Writing { .. }, Event::Written(Err(_))) => true,
            (Phase::Syncing { .. }, Event::Synced(_)) => true,
            (Phase::OpeningDevice { .. }, Event::Opened(_)) => true,
            (Phase::Notifying { .. }, Event::Written(_)) => true,
            (Phase::ClosingDevice { .. }, Event::Closed(Ok(_))) => true,
            (Phase::ClosingOutput, Event::Closed(Ok(_))) => true,
            _ => false,
        }
    }

    /// Goes on with the output file `fd` after it has taken `written` bytes
    /// in all.
    fn proceed(&mut self, fd: i32, written: usize) -> (action: Action)
        requires
            written <= old(self)@.len,
            old(self)@.status is None,
        ensures
            (final(self)@, action) == old(self)@.proceed(fd, written),
    {
        proof {
            use_type_invariant(&*self);
        }
        if written == self.state.len {
            self.state = State { written, phase: Phase::Syncing { fd }, ..self.state };
            Action::Fsync { fd }
        } else {
            self.state = State { written, phase: Phase::Writing { fd }, ..self.state };
            let len = self.window();
            Action::Write { fd, offset: written, len }
        }
    }

    /// Ends the dump with `status` and starts to tell the user.
    fn report(&mut self, out: Option<i32>, status: Status) -> (action: Action)
        requires
            old(self)@.agrees(status),
            State::holds_output(Some(status), out),
        ensures
            (final(self)@, action) == old(self)@.report(out, status),
    {
        proof {
            use_type_invariant(&*self);
        }
        self.state = State {
            status: Some(status),
            phase: Phase::OpeningDevice { out, second: false },
            ..self.state
        };
        Action::Open {
            target: Target::Notification0,
            flags: OpenFlags::from_bits_retain(O_WRONLY),
            mode: 0,
        }
    }

    /// Closes the output file, if it is open, and ends.
    fn finish(&mut self, out: Option<i32>) -> (action: Action)
        requires
            old(self)@.status is Some,
        ensures
            (final(self)@, action) == old(self)@.finish(out),
    {
        proof {
            use_type_invariant(&*self);
        }
        match out {
            Some(fd) => {
                self.state = State { phase: Phase::ClosingOutput, ..self.state };
                Action::Close { fd }
            },
            None => {
                self.state = State { phase: Phase::Done, ..self.state };
                Action::Exit
            },
        }
    }

    /// Takes in what the last request gave, and returns the next request.
    pub fn step(&mut self, event: Event) -> (action: Action)
        requires
            old(self)@.accepts(event),
        ensures
            (final(self)@, action) == old(self)@.next(event),
            final(self)@.wf(),
    {
        proof {
            use_type_invariant(&*self);
        }
        let action = match (self.state.phase, event) {
            (Phase::OpeningOutput, Event::Opened(Ok(fd))) => self.proceed(fd, 0),
            (Phase::OpeningOutput, Event::Opened(Err(_))) => self.report(None, Status::OpenFailed),
            (Phase::Writing { fd }, Event::Written(Ok(n))) => if n == 0 {
                self.report(Some(fd), Status::DestinationFull)
            } else {
                let written: usize = self.state.written + n;
                self.proceed(fd, written)
            },
            (Phase::Writing { fd }, Event::Written(Err(_))) => self.report(
                Some(fd),
                Status::WriteFailed,
            ),
            (Phase::Syncing { fd }, Event::Synced(Ok(_))) => self.report(
                Some(fd),
                Status::Completed,
            ),
            (Phase::Syncing { fd }, Event::Synced(Err(_))) => self.report(
                Some(fd),
                Status::SyncFailed,
            ),
            (Phase::OpeningDevice { out, .. }, Event::Opened(Ok(dev))) => {
                let status = match self.state.status {
                    Some(status) => status,
                    None => Status::Completed,
                };
                self.state = State { phase: Phase::Notifying { out, dev }, ..self.state };
                Action::Notify { fd: dev, status }
            },
            (Phase::OpeningDevice { out, second }, Event::Opened(Err(_))) => if second {
                self.finish(out)
            } else {
                self.state = State {
                    phase: Phase::OpeningDevice { out, second: true },
                    ..self.state
                };
                Action::Open {
                    target: Target::Notification1,
                    flags: OpenFlags::from_bits_retain(O_WRONLY),
                    mode: 0,
                }
            },
            (Phase::Notifying { out, dev }, Event::Written(_)) => {
                self.state = State { phase: Phase::ClosingDevice { out }, ..self.state };
                Action::Close { fd: dev }
            },
            (Phase::ClosingDevice { out }, Event::Closed(Ok(_))) => self.finish(out),
            (Phase::ClosingOutput, Event::Closed(Ok(_))) => {
                self.state = State { phase: Phase::Done, ..self.state };
                Action::Exit
            },
            _ => Action::Exit,
        };
        proof {
            use_type_invariant(&*self);
        }
        action
    }
}

} // verus!
