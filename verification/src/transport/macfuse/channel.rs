//! Channels, on which requests arrive one after the other.
use crate::transport::Error;
use vstd::prelude::*;
use vstd::string::*;

verus! {

/// The errors of a read from the FUSE device.
#[derive(Debug)]
pub enum Errno {
    /// The operation was interrupted by the driver.
    ENOENT,
    /// Nothing can be read yet.
    EAGAIN,
    /// A signal came in between.
    EINTR,
    /// The file system is no longer mounted.
    ENODEV,
    /// Any other error, by its name.
    Other(String),
}

/// An error of a read, with the characters of its name.
#[verifier::ext_equal]
pub enum ErrnoView {
    ENOENT,
    EAGAIN,
    EINTR,
    ENODEV,
    Other(Seq<char>),
}

impl View for Errno {
    type V = ErrnoView;

    open spec fn view(&self) -> ErrnoView {
        match self {
            Errno::ENOENT => ErrnoView::ENOENT,
            Errno::EAGAIN => ErrnoView::EAGAIN,
            Errno::EINTR => ErrnoView::EINTR,
            Errno::ENODEV => ErrnoView::ENODEV,
            Errno::Other(name) => ErrnoView::Other(name@),
        }
    }
}

/// What happens on a channel.
#[derive(Debug)]
pub enum ChannelEvent {
    /// A signal is pending on the exiting event channel.
    Exit,
    /// A read from the FUSE device gave this many bytes, or failed.
    Read(Result<usize, Errno>),
}

/// What happens on a channel, with the error of a read by its view.
#[verifier::ext_equal]
pub enum ChannelEventView {
    Exit,
    Read(Result<nat, ErrnoView>),
}

impl View for ChannelEvent {
    type V = ChannelEventView;

    open spec fn view(&self) -> ChannelEventView {
        match self {
            ChannelEvent::Exit => ChannelEventView::Exit,
            ChannelEvent::Read(Ok(len)) => ChannelEventView::Read(Ok(*len as nat)),
            ChannelEvent::Read(Err(e)) => ChannelEventView::Read(Err(e@)),
        }
    }
}

/// A request in the buffer of a channel. The request and the reply share the buffer: the request
/// is not to be looked at once the reply has been begun.
#[derive(Debug, Clone, Copy, PartialEq, Eq, Structural)]
pub struct Request {
    /// How many bytes at the start of the buffer hold the request.
    pub len: usize,
    /// How many bytes at the start of the buffer may hold the reply.
    pub capacity: usize,
}

/// What to do after an event.
#[derive(Debug)]
pub enum RequestStep {
    /// Read again.
    Again,
    /// Stop, with a request, with none because no more will come, or with an error.
    Return(Result<Option<Request>, Error>),
}

/// What an event leads to.
#[verifier::ext_equal]
pub enum Outcome {
    /// Another read.
    Again,
    /// A request of `len` bytes, with room for a reply of `capacity` bytes.
    Request { len: nat, capacity: nat },
    /// The end: no more requests will come.
    End,
    /// An error, with its message.
    Failure(Seq<char>),
}

impl View for RequestStep {
    type V = Outcome;

    open spec fn view(&self) -> Outcome {
        match self {
            RequestStep::Again => Outcome::Again,
            RequestStep::Return(Ok(Some(request))) => Outcome::Request {
                len: request.len as nat,
                capacity: request.capacity as nat,
            },
            RequestStep::Return(Ok(None)) => Outcome::End,
            RequestStep::Return(Err(Error::SessionFailure(message))) => Outcome::Failure(message@),
        }
    }
}

/// What an event on a channel with a buffer of `capacity` bytes leads to. A signal to exit and a
/// missing device are the end, an interrupted read is made again, and any other error is a
/// failure.
pub open spec fn outcome(event: ChannelEventView, capacity: nat) -> Outcome {
    match event {
        ChannelEventView::Exit => Outcome::End,
        ChannelEventView::Read(Ok(len)) => Outcome::Request { len, capacity },
        ChannelEventView::Read(Err(e)) => match e {
            ErrnoView::ENOENT => Outcome::Again,
            ErrnoView::EAGAIN => Outcome::Again,
            ErrnoView::EINTR => Outcome::Again,
            ErrnoView::ENODEV => Outcome::End,
            ErrnoView::Other(name) => Outcome::Failure("read new request: "@ + name),
        },
    }
}

/// What a series of events leads to: what the first of them leads to that ends the wait.
pub open spec fn outcome_of_events(events: Seq<ChannelEventView>, capacity: nat) -> Outcome
    decreases events.len(),
{
    if events.len() == 0 {
        Outcome::Again
    } else {
        match outcome(events.first(), capacity) {
            Outcome::Again => outcome_of_events(events.drop_first(), capacity),
            decided => decided,
        }
    }
}

/// What is done on a channel to get a request.
#[derive(Debug)]
pub enum ChannelPhase {
    /// Wait for the FUSE device or the exiting event channel, and look whether a signal is pending
    /// on the latter.
    Look,
    /// Read from the FUSE device.
    Read,
    /// Stop, with this result.
    Return(Result<Option<Request>, Error>),
}

/// What came of what was done on a channel.
#[derive(Debug)]
pub enum PhaseEvent {
    /// Whether a signal is pending on the exiting event channel.
    Looked(bool),
    /// How many bytes were read, or why none were.
    Read(Result<usize, Errno>),
}

/// What is done on a channel, with what it stops with by its view.
#[verifier::ext_equal]
pub enum ChannelPhaseView {
    Look,
    Read,
    Return(Outcome),
}

/// What came of what was done on a channel, with the error of a read by its view.
#[verifier::ext_equal]
pub enum PhaseEventView {
    Looked(bool),
    Read(Result<nat, ErrnoView>),
}

impl View for ChannelPhase {
    type V = ChannelPhaseView;

    open spec fn view(&self) -> ChannelPhaseView {
        match self {
            ChannelPhase::Look => ChannelPhaseView::Look,
            ChannelPhase::Read => ChannelPhaseView::Read,
            ChannelPhase::Return(Ok(Some(request))) => ChannelPhaseView::Return(
                Outcome::Request { len: request.len as nat, capacity: request.capacity as nat },
            ),
            ChannelPhase::Return(Ok(None)) => ChannelPhaseView::Return(Outcome::End),
            ChannelPhase::Return(Err(Error::SessionFailure(message))) => ChannelPhaseView::Return(
                Outcome::Failure(message@),
            ),
        }
    }
}

impl View for PhaseEvent {
    type V = PhaseEventView;

    open spec fn view(&self) -> PhaseEventView {
        match self {
            PhaseEvent::Looked(pending) => PhaseEventView::Looked(*pending),
            PhaseEvent::Read(Ok(len)) => PhaseEventView::Read(Ok(*len as nat)),
            PhaseEvent::Read(Err(e)) => PhaseEventView::Read(Err(e@)),
        }
    }
}

impl ChannelPhaseView {
    /// Whether an event can come of the phase, with a buffer of `capacity` bytes.
    pub open spec fn admits(self, event: PhaseEventView, capacity: nat) -> bool {
        match (self, event) {
            (ChannelPhaseView::Look, PhaseEventView::Looked(_)) => true,
            (ChannelPhaseView::Read, PhaseEventView::Read(Ok(len))) => len <= capacity,
            (ChannelPhaseView::Read, PhaseEventView::Read(Err(_))) => true,
            _ => false,
        }
    }

    /// The phase that follows on an event. A signal that was found is the end. Where none was
    /// found a read follows, and after a read that is to be made again another look.
    pub open spec fn after(self, event: PhaseEventView, capacity: nat) -> ChannelPhaseView {
        match event {
            PhaseEventView::Looked(true) => ChannelPhaseView::Return(Outcome::End),
            PhaseEventView::Looked(false) => ChannelPhaseView::Read,
            PhaseEventView::Read(read) => match outcome(ChannelEventView::Read(read), capacity) {
                Outcome::Again => ChannelPhaseView::Look,
                decided => ChannelPhaseView::Return(decided),
            },
        }
    }
}

/// The phase of a channel with a buffer of `capacity` bytes after a series of events.
pub open spec fn phase_after(events: Seq<PhaseEventView>, capacity: nat) -> ChannelPhaseView
    decreases events.len(),
{
    if events.len() == 0 {
        ChannelPhaseView::Look
    } else {
        phase_after(events.drop_last(), capacity).after(events.last(), capacity)
    }
}

/// Whether a channel with a buffer of `capacity` bytes can see a series of events.
pub open spec fn can_happen(events: Seq<PhaseEventView>, capacity: nat) -> bool
    decreases events.len(),
{
    events.len() == 0 || {
        &&& can_happen(events.drop_last(), capacity)
        &&& phase_after(events.drop_last(), capacity).admits(events.last(), capacity)
    }
}

/// What a server does with what a channel gave.
#[derive(Debug, Clone, Copy, PartialEq, Eq, Structural)]
pub enum ServeStep {
    /// Handle the request.
    Handle(Request),
    /// Stop serving.
    Stop,
}

/// What a server does with what a channel gave: it handles a request, and stops when there is
/// none or getting one failed.
pub fn serve_step(found: Result<Option<Request>, Error>) -> (step: ServeStep)
    ensures
        match found {
            Ok(Some(request)) => step == ServeStep::Handle(request),
            _ => step is Stop,
        },
{
    match found {
        Ok(Some(request)) => ServeStep::Handle(request),
        Ok(None) => ServeStep::Stop,
        Err(_e) => ServeStep::Stop,
    }
}

/// A fuse channel abstraction. Each session can hold multiple channels.
///
/// `F` is the type of the open FUSE device.
#[derive(Debug)]
pub struct FuseChannel<F> {
    file: F,
    pipe_fd: i32,
    buf: Vec<u8>,
}

/// What a channel is made of.
#[verifier::ext_equal]
pub struct FuseChannelView<F> {
    pub file: F,
    pub pipe_fd: i32,
    pub buf: Seq<u8>,
}

impl<F> View for FuseChannel<F> {
    type V = FuseChannelView<F>;

    closed spec fn view(&self) -> FuseChannelView<F> {
        FuseChannelView { file: self.file, pipe_fd: self.pipe_fd, buf: self.buf@ }
    }
}

/// A channel on `file` as it is made: its buffer is `bufsize` zeros.
pub open spec fn fresh_channel<F>(file: F, pipe_fd: i32, bufsize: nat) -> FuseChannelView<F> {
    FuseChannelView { file, pipe_fd, buf: Seq::new(bufsize, |i: int| 0u8) }
}

impl<F> FuseChannel<F> {
    /// Create a channel on an open FUSE device, with a buffer of `bufsize` bytes.
    pub fn new(file: F, pipe_fd: i32, bufsize: usize) -> (channel: Result<Self, Error>)
        ensures
            channel matches Ok(made) && made@ == fresh_channel(file, pipe_fd, bufsize as nat),
            channel matches Ok(made) && {
                &&& made@.file == file
                &&& made@.pipe_fd == pipe_fd
                &&& made@.buf.len() == bufsize
                &&& forall|i: int| 0 <= i < bufsize ==> #[trigger] made@.buf[i] == 0u8
            },
    {
        let buf: Vec<u8> = vec![0x0u8; bufsize];
        proof {
            assert(buf@ =~= Seq::new(bufsize as nat, |i: int| 0u8));
        }
        Ok(FuseChannel { file, pipe_fd, buf })
    }

    /// The open FUSE device to read requests from.
    pub fn file(&self) -> (file: &F)
        ensures
            *file == self@.file,
    {
        &self.file
    }

    /// The descriptor of the exiting event channel.
    pub fn pipe_fd(&self) -> (fd: i32)
        ensures
            fd == self@.pipe_fd,
    {
        self.pipe_fd
    }

    /// The buffer to read the next request into.
    pub fn buf_mut(&mut self) -> (buf: &mut [u8])
        ensures
            buf@ == old(self)@.buf,
            final(self)@ == (FuseChannelView { buf: final(buf)@, ..old(self)@ }),
    {
        self.buf.as_mut_slice()
    }

    /// The bytes of a request that has been read.
    pub fn request(&self, request: Request) -> (bytes: &[u8])
        requires
            request.len <= self@.buf.len(),
        ensures
            bytes@ == self@.buf.take(request.len as int),
    {
        let bytes = &self.buf.as_slice()[0..request.len];
        proof {
            assert(bytes@ =~= self@.buf.take(request.len as int));
        }
        bytes
    }

    /// Get next available FUSE request from the underlying fuse device file, on which `event`
    /// happened.
    ///
    /// Returns:
    /// - Again: the read was interrupted, it's safe to restart
    /// - Return(Ok(None)): signal has pending on the exiting event channel, or the file system
    ///   has been unmounted
    /// - Return(Ok(Some(request))): where in the buffer the request is and the reply may go
    /// - Return(Err(e)): error message
    pub fn get_request(&self, event: ChannelEvent) -> (step: RequestStep)
        requires
            event matches ChannelEvent::Read(Ok(len)) ==> len <= self@.buf.len(),
        ensures
            step@ == outcome(event@, self@.buf.len()),
            match event {
                ChannelEvent::Exit => {
                    &&& step matches RequestStep::Return(result)
                    &&& result matches Ok(found)
                    &&& found is None
                },
                ChannelEvent::Read(Ok(len)) => {
                    &&& step matches RequestStep::Return(result)
                    &&& result matches Ok(found)
                    &&& found matches Some(request)
                    &&& request.len == len
                    &&& request.capacity == self@.buf.len()
                },
                ChannelEvent::Read(Err(e)) => match e {
                    Errno::ENOENT => step is Again,
                    Errno::EAGAIN => step is Again,
                    Errno::EINTR => step is Again,
                    Errno::ENODEV => {
                        &&& step matches RequestStep::Return(result)
                        &&& result matches Ok(found)
                        &&& found is None
                    },
                    Errno::Other(name) => {
                        &&& step matches RequestStep::Return(result)
                        &&& result matches Err(Error::SessionFailure(message))
                        &&& message@ == "read new request: "@ + name@
                    },
                },
            },
    {
        match event {
            ChannelEvent::Exit => RequestStep::Return(Ok(None)),
            ChannelEvent::Read(Ok(len)) => RequestStep::Return(
                Ok(Some(Request { len, capacity: self.buf.len() })),
            ),
            ChannelEvent::Read(Err(e)) => match e {
                Errno::ENOENT => RequestStep::Again,
                Errno::EAGAIN | Errno::EINTR => RequestStep::Again,
                Errno::ENODEV => RequestStep::Return(Ok(None)),
                Errno::Other(name) => {
                    let mut message: String = "read new request: ".to_owned();
                    message.append(name.as_str());
                    RequestStep::Return(Err(Error::SessionFailure(message)))
                },
            },
        }
    }

    /// What to do next to get a request, after `event` came of what was done in `phase`. It starts
    /// with `ChannelPhase::Look`: the exiting event channel is looked at before each read.
    pub fn next_phase(&self, phase: ChannelPhase, event: PhaseEvent) -> (next: ChannelPhase)
        requires
            phase@.admits(event@, self@.buf.len()),
        ensures
            next@ == phase@.after(event@, self@.buf.len()),
            match event {
                PhaseEvent::Looked(pending) => if pending {
                    &&& next matches ChannelPhase::Return(result)
                    &&& result matches Ok(found)
                    &&& found is None
                } else {
                    next is Read
                },
                PhaseEvent::Read(Ok(len)) => {
                    &&& next matches ChannelPhase::Return(result)
                    &&& result matches Ok(found)
                    &&& found matches Some(request)
                    &&& request.len == len
                    &&& request.capacity == self@.buf.len()
                },
                PhaseEvent::Read(Err(e)) => match e {
                    Errno::ENOENT => next is Look,
                    Errno::EAGAIN => next is Look,
                    Errno::EINTR => next is Look,
                    Errno::ENODEV => {
                        &&& next matches ChannelPhase::Return(result)
                        &&& result matches Ok(found)
                        &&& found is None
                    },
                    Errno::Other(name) => {
                        &&& next matches ChannelPhase::Return(result)
                        &&& result matches Err(Error::SessionFailure(message))
                        &&& message@ == "read new request: "@ + name@
                    },
                },
            },
    {
        let step = match event {
            PhaseEvent::Looked(pending) => {
                if !pending {
                    return ChannelPhase::Read;
                }
                self.get_request(ChannelEvent::Exit)
            },
            PhaseEvent::Read(read) => self.get_request(ChannelEvent::Read(read)),
        };
        match step {
            RequestStep::Again => ChannelPhase::Look,
            RequestStep::Return(result) => ChannelPhase::Return(result),
        }
    }
}

/// The wait for a request is over exactly when the last event was a signal that was found, or a
/// read that is not to be made again; it ends with what that event leads to.
pub proof fn law_end_is_decided_by_last_event(events: Seq<PhaseEventView>, capacity: nat)
    requires
        can_happen(events, capacity),
    ensures
        phase_after(events, capacity) is Return <==> events.len() > 0 && match events.last() {
            PhaseEventView::Looked(pending) => pending,
            PhaseEventView::Read(read) => !(outcome(
                ChannelEventView::Read(read),
                capacity,
            ) is Again),
        },
        phase_after(events, capacity) matches ChannelPhaseView::Return(decided) ==> decided == (
        match events.last() {
            PhaseEventView::Looked(_) => outcome(ChannelEventView::Exit, capacity),
            PhaseEventView::Read(read) => outcome(ChannelEventView::Read(read), capacity),
        }),
{
}

/// Nothing follows a signal that was found, no read in particular: it is the last event, and it
/// is the end.
pub proof fn law_no_read_after_signal(events: Seq<PhaseEventView>, at: int, capacity: nat)
    requires
        can_happen(events, capacity),
        0 <= at < events.len(),
        events[at] == PhaseEventView::Looked(true),
    ensures
        at == events.len() - 1,
        phase_after(events, capacity) == ChannelPhaseView::Return(Outcome::End),
    decreases events.len(),
{
    if at < events.len() - 1 {
        law_no_read_after_signal(events.drop_last(), at, capacity);
    }
}

/// Each read comes right after a look that found no signal.
pub proof fn law_look_before_each_read(events: Seq<PhaseEventView>, at: int, capacity: nat)
    requires
        can_happen(events, capacity),
        0 <= at < events.len(),
        events[at] is Read,
    ensures
        at > 0,
        events[at - 1] == PhaseEventView::Looked(false),
    decreases events.len(),
{
    if at < events.len() - 1 {
        law_look_before_each_read(events.drop_last(), at, capacity);
    }
}

/// A request is what the first event gives that is not an interrupted read, however many of those
/// were before it.
pub proof fn law_interruptions_do_not_matter(
    events: Seq<ChannelEventView>,
    first: int,
    capacity: nat,
)
    requires
        0 <= first < events.len(),
        forall|i: int| 0 <= i < first ==> outcome(#[trigger] events[i], capacity) is Again,
        !(outcome(events[first], capacity) is Again),
    ensures
        outcome_of_events(events, capacity) == outcome(events[first], capacity),
    decreases first,
{
    if first > 0 {
        let rest = events.drop_first();
        assert(outcome(events[0], capacity) is Again);
        assert forall|i: int| 0 <= i < first - 1 implies outcome(#[trigger] rest[i], capacity)
            is Again by {
            assert(rest[i] == events[i + 1]);
        }
        law_interruptions_do_not_matter(rest, first - 1, capacity);
    }
}

/// Whatever was read is handed over whole: a read of `len` bytes is a request of `len` bytes, with
/// the whole buffer for the reply. Requests of different lengths stay different.
pub proof fn law_request_is_handed_over_whole(len: nat, other: nat, capacity: nat)
    ensures
        outcome(ChannelEventView::Read(Ok(len)), capacity) is Request,
        outcome(ChannelEventView::Read(Ok(len)), capacity)->len == len,
        outcome(ChannelEventView::Read(Ok(len)), capacity)->capacity == capacity,
        outcome(ChannelEventView::Read(Ok(len)), capacity) == outcome(
            ChannelEventView::Read(Ok(other)),
            capacity,
        ) ==> len == other,
{
}

/// What an event leads to when it is no request: an interrupted read to another read, a missing
/// device and a signal to the end, and any other error to a failure that ends with its name.
/// Whatever the size of the buffer.
pub proof fn law_errors_are_told_apart(e: ErrnoView, capacity: nat)
    ensures
        outcome(ChannelEventView::Exit, capacity) is End,
        outcome(ChannelEventView::Read(Err(e)), capacity) is Again <==> (e is ENOENT || e is EAGAIN
            || e is EINTR),
        outcome(ChannelEventView::Read(Err(e)), capacity) is End <==> e is ENODEV,
        outcome(ChannelEventView::Read(Err(e)), capacity) is Failure <==> e is Other,
        e matches ErrnoView::Other(name) ==> outcome(ChannelEventView::Read(Err(e)), capacity)
            == Outcome::Failure("read new request: "@ + name),
{
}

/// While every event is an interrupted read, there is no request.
pub proof fn law_only_interruptions_give_nothing(events: Seq<ChannelEventView>, capacity: nat)
    requires
        forall|i: int| 0 <= i < events.len() ==> outcome(#[trigger] events[i], capacity) is Again,
    ensures
        outcome_of_events(events, capacity) is Again,
    decreases events.len(),
{
    if events.len() > 0 {
        let rest = events.drop_first();
        assert(outcome(events[0], capacity) is Again);
        assert forall|i: int| 0 <= i < rest.len() implies outcome(#[trigger] rest[i], capacity)
            is Again by {
            assert(rest[i] == events[i + 1]);
        }
        law_only_interruptions_give_nothing(rest, capacity);
    }
}

/// A new channel has the file and the exit descriptor that it was given, and a buffer of exactly
/// the size that was asked for, all zeros.
pub proof fn law_channel_is_made_as_asked<F>(file: F, pipe_fd: i32, bufsize: nat)
    ensures
        fresh_channel(file, pipe_fd, bufsize).file == file,
        fresh_channel(file, pipe_fd, bufsize).pipe_fd == pipe_fd,
        fresh_channel(file, pipe_fd, bufsize).buf.len() == bufsize,
        forall|i: int|
            0 <= i < bufsize ==> #[trigger] fresh_channel(file, pipe_fd, bufsize).buf[i] == 0u8,
{
}

/// A wait begins with a look, and goes on from any event that can come of where it is: from a look
/// by what it found, and from a read by any error and by any length that fits in the buffer.
/// Nothing can come of a wait that is over.
pub proof fn law_wait_goes_on(events: Seq<PhaseEventView>, event: PhaseEventView, capacity: nat)
    requires
        can_happen(events, capacity),
    ensures
        events.len() == 0 ==> phase_after(events, capacity) is Look,
        can_happen(events.push(event), capacity) <==> match phase_after(events, capacity) {
            ChannelPhaseView::Look => event is Looked,
            ChannelPhaseView::Read => event matches PhaseEventView::Read(read) && (read matches Ok(
                len,
            ) ==> len <= capacity),
            ChannelPhaseView::Return(_) => false,
        },
{
    assert(events.push(event).drop_last() =~= events);
}

/// Where a wait is after an event: a look that found no signal is followed by a read, an
/// interrupted read by a look, and a read of `len` bytes is the end, with a request of `len` bytes
/// and the whole buffer for the reply.
pub proof fn law_wait_follows_its_events(
    events: Seq<PhaseEventView>,
    len: nat,
    e: ErrnoView,
    capacity: nat,
)
    ensures
        phase_after(events.push(PhaseEventView::Looked(false)), capacity) is Read,
        phase_after(events.push(PhaseEventView::Looked(true)), capacity)
            == ChannelPhaseView::Return(Outcome::End),
        phase_after(events.push(PhaseEventView::Read(Ok(len))), capacity)
            == ChannelPhaseView::Return(Outcome::Request { len, capacity }),
        phase_after(events.push(PhaseEventView::Read(Err(e))), capacity) == (match e {
            ErrnoView::ENODEV => ChannelPhaseView::Return(Outcome::End),
            ErrnoView::Other(name) => ChannelPhaseView::Return(
                Outcome::Failure("read new request: "@ + name),
            ),
            _ => ChannelPhaseView::Look,
        }),
{
    assert(events.push(PhaseEventView::Looked(false)).drop_last() =~= events);
    assert(events.push(PhaseEventView::Looked(true)).drop_last() =~= events);
    assert(events.push(PhaseEventView::Read(Ok(len))).drop_last() =~= events);
    assert(events.push(PhaseEventView::Read(Err(e))).drop_last() =~= events);
}

/// A length that was read, and the name of an error, are seen as they are.
pub proof fn law_reads_are_seen_as_they_are(len: usize, name: String)
    ensures
        ChannelEvent::Read(Ok(len))@ == ChannelEventView::Read(Ok(len as nat)),
        ChannelEvent::Read(Err(Errno::Other(name)))@ == ChannelEventView::Read(
            Err(ErrnoView::Other(name@)),
        ),
        PhaseEvent::Read(Ok(len))@ == PhaseEventView::Read(Ok(len as nat)),
        PhaseEvent::Read(Err(Errno::Other(name)))@ == PhaseEventView::Read(
            Err(ErrnoView::Other(name@)),
        ),
{
}

} // verus!
