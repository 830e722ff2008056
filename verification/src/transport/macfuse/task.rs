//! Tasks, which handle requests in asynchronous mode.
use vstd::prelude::*;

verus! {

/// What a task does next.
#[derive(Debug, Clone, Copy, PartialEq, Eq, Structural)]
pub enum TaskPhase {
    /// Ask whether the task is to stop.
    Check,
    /// Read a request into the buffer.
    Read,
    /// Handle the request that takes the first `len` bytes of the buffer.
    Handle {
        /// The length of the request.
        len: usize,
    },
    /// Report that the task has stopped. Nothing follows.
    Report,
}

/// What came of what a task did.
#[derive(Debug)]
pub enum TaskEvent<E> {
    /// Whether the task is to stop.
    Quiescing(bool),
    /// How many bytes were read, or why none were.
    Read(Result<usize, E>),
    /// How many bytes the reply took, or why the request could not be handled.
    Handled(Result<usize, E>),
}

impl TaskPhase {
    /// Whether an event can come of the phase, with a buffer of `capacity` bytes.
    pub open spec fn admits<E>(self, event: TaskEvent<E>, capacity: nat) -> bool {
        match (self, event) {
            (TaskPhase::Check, TaskEvent::Quiescing(_)) => true,
            (TaskPhase::Read, TaskEvent::Read(Ok(len))) => len <= capacity,
            (TaskPhase::Read, TaskEvent::Read(Err(_))) => true,
            (TaskPhase::Handle { .. }, TaskEvent::Handled(_)) => true,
            _ => false,
        }
    }

    /// The phase that follows on an event. A task stops when it is told to, and for no other
    /// reason: a request that cannot be read or handled is passed over.
    pub open spec fn after<E>(self, event: TaskEvent<E>) -> TaskPhase {
        match event {
            TaskEvent::Quiescing(true) => TaskPhase::Report,
            TaskEvent::Quiescing(false) => TaskPhase::Read,
            TaskEvent::Read(Ok(len)) => TaskPhase::Handle { len },
            TaskEvent::Read(Err(_)) => TaskPhase::Check,
            TaskEvent::Handled(_) => TaskPhase::Check,
        }
    }
}

/// The phase of a task after a series of events.
pub open spec fn phase_after<E>(events: Seq<TaskEvent<E>>) -> TaskPhase
    decreases events.len(),
{
    if events.len() == 0 {
        TaskPhase::Check
    } else {
        phase_after(events.drop_last()).after(events.last())
    }
}

/// Whether a task with a buffer of `capacity` bytes can see a series of events.
pub open spec fn can_happen<E>(events: Seq<TaskEvent<E>>, capacity: nat) -> bool
    decreases events.len(),
{
    events.len() == 0 || {
        &&& can_happen(events.drop_last(), capacity)
        &&& phase_after(events.drop_last()).admits(events.last(), capacity)
    }
}

/// Task context to handle fuse request in asynchronous mode.
///
/// This structure provides a context to handle fuse request in asynchronous mode, including
/// the fuse fd, a internal buffer and a server instance, of type `S`, to serve requests. `C` is
/// the type of the shared state that controls the task.
#[derive(Debug)]
pub struct FuseDevTask<S, C> {
    fd: i32,
    buf: Vec<u8>,
    state: C,
    server: S,
}

/// What a task is made of.
#[verifier::ext_equal]
pub struct FuseDevTaskView<S, C> {
    pub fd: i32,
    pub buf: Seq<u8>,
    pub state: C,
    pub server: S,
}

impl<S, C> View for FuseDevTask<S, C> {
    type V = FuseDevTaskView<S, C>;

    closed spec fn view(&self) -> FuseDevTaskView<S, C> {
        FuseDevTaskView { fd: self.fd, buf: self.buf@, state: self.state, server: self.server }
    }
}

impl<S, C> FuseDevTask<S, C> {
    /// Create a new fuse task context for asynchronous IO.
    ///
    /// # Parameters
    /// - buf_size: size of buffer to receive requests from/send reply to the fuse fd
    /// - fd: fuse device file descriptor
    /// - server: server instance to serve requests from the fuse fd
    /// - state: shared state object to control the task object
    ///
    /// # Safety
    /// The caller must ensure `fd` is valid during the lifetime of the returned task object.
    pub fn new(buf_size: usize, fd: i32, server: S, state: C) -> (task: Self)
        ensures
            task@ == (FuseDevTaskView {
                fd,
                buf: Seq::new(buf_size as nat, |i: int| 0u8),
                state,
                server,
            }),
    {
        let buf: Vec<u8> = vec![0x0u8; buf_size];
        proof {
            assert(buf@ =~= Seq::new(buf_size as nat, |i: int| 0u8));
        }
        FuseDevTask { fd, server, state, buf }
    }

    /// The descriptor of the FUSE device.
    pub fn fd(&self) -> (fd: i32)
        ensures
            fd == self@.fd,
    {
        self.fd
    }

    /// The server that handles the requests.
    pub fn server(&self) -> (server: &S)
        ensures
            *server == self@.server,
    {
        &self.server
    }

    /// The state that controls the task.
    pub fn state(&self) -> (state: &C)
        ensures
            *state == self@.state,
    {
        &self.state
    }

    /// The buffer to read the next request into.
    pub fn buf_mut(&mut self) -> (buf: &mut [u8])
        ensures
            buf@ == old(self)@.buf,
            final(self)@ == (FuseDevTaskView { buf: final(buf)@, ..old(self)@ }),
    {
        self.buf.as_mut_slice()
    }

    /// A task like this one on the same device, with a buffer of its own: `room` zeros.
    pub fn with_room(&self, room: usize) -> (task: Self) where S: Clone, C: Clone
        ensures
            task@.fd == self@.fd,
            cloned(self@.server, task@.server),
            cloned(self@.state, task@.state),
            task@.buf == Seq::new(room as nat, |i: int| 0u8),
    {
        let buf: Vec<u8> = vec![0x0u8; room];
        proof {
            assert(buf@ =~= Seq::new(room as nat, |i: int| 0u8));
        }
        FuseDevTask { fd: self.fd, server: self.server.clone(), state: self.state.clone(), buf }
    }

    /// Handler to process fuse requests in asynchronous mode: what the task does next, after
    /// `event` came of what it did in `phase`. A task starts with `TaskPhase::Check`.
    ///
    /// The task reads and handles requests until the state has been set to quiesce mode.
    pub fn poll_handler<E>(&self, phase: TaskPhase, event: TaskEvent<E>) -> (next: TaskPhase)
        requires
            phase.admits(event, self@.buf.len()),
        ensures
            next == phase.after(event),
            match event {
                TaskEvent::Quiescing(quiescing) => if quiescing {
                    next is Report
                } else {
                    next is Read
                },
                TaskEvent::Read(Ok(len)) => next == (TaskPhase::Handle { len }),
                TaskEvent::Read(Err(_)) => next is Check,
                TaskEvent::Handled(_) => next is Check,
            },
    {
        match event {
            TaskEvent::Quiescing(quiescing) => if !quiescing {
                TaskPhase::Read
            } else {
                TaskPhase::Report
            },
            TaskEvent::Read(result) => match result {
                Ok(len) => TaskPhase::Handle { len },
                Err(_e) => TaskPhase::Check,
            },
            TaskEvent::Handled(_result) => TaskPhase::Check,
        }
    }
}

impl<S: Clone, C: Clone> Clone for FuseDevTask<S, C> {
    /// A task like this one on the same device, with a buffer of its own: as many zeros as the
    /// buffer of this one holds bytes, which is all that it has room for.
    fn clone(&self) -> (task: Self)
        ensures
            task@.fd == self@.fd,
            cloned(self@.server, task@.server),
            cloned(self@.state, task@.state),
            task@.buf == Seq::new(self@.buf.len(), |i: int| 0u8),
    {
        self.with_room(self.buf.len())
    }
}

/// A task reports that it has stopped once it has been told to stop, which nothing precedes and
/// nothing follows: of all events, exactly the last told it so. Before that it goes on, whatever
/// fails.
pub proof fn law_task_stops_when_told<E>(events: Seq<TaskEvent<E>>, capacity: nat)
    requires
        can_happen(events, capacity),
    ensures
        forall|i: int|
            0 <= i < events.len() - 1 ==> #[trigger] events[i] != TaskEvent::<E>::Quiescing(true),
        phase_after(events) is Report <==> events.len() > 0 && events.last() == TaskEvent::<
            E,
        >::Quiescing(true),
    decreases events.len(),
{
    if events.len() > 0 {
        let before = events.drop_last();
        law_task_stops_when_told(before, capacity);
        assert forall|i: int| 0 <= i < events.len() - 1 implies #[trigger] events[i]
            != TaskEvent::<E>::Quiescing(true) by {
            assert(events[i] == before[i]);
        }
    }
}

/// A request that is to be handled is in the buffer: it is what the last read gave, and no longer
/// than the buffer.
pub proof fn law_request_is_in_buffer<E>(events: Seq<TaskEvent<E>>, capacity: nat)
    requires
        can_happen(events, capacity),
        phase_after(events) is Handle,
    ensures
        events.len() > 0,
        events.last() == TaskEvent::<E>::Read(Ok(phase_after(events)->len)),
        phase_after(events)->len <= capacity,
{
}

/// Every request that is read is handled, whatever its length: a task that has just read `len`
/// bytes handles `len` bytes, and after each read that is not the last event the request was
/// handled.
pub proof fn law_every_request_is_handled<E>(events: Seq<TaskEvent<E>>, capacity: nat)
    requires
        can_happen(events, capacity),
    ensures
        events.len() > 0 && events.last() is Read && events.last()->Read_0 is Ok ==> phase_after(
            events,
        ) == (TaskPhase::Handle { len: events.last()->Read_0->Ok_0 }),
        forall|i: int|
            0 <= i < events.len() - 1 && (#[trigger] events[i]) is Read && events[i]->Read_0 is Ok
                ==> events[i + 1] is Handled,
    decreases events.len(),
{
    if events.len() > 0 {
        let before = events.drop_last();
        law_every_request_is_handled(before, capacity);
        assert forall|i: int|
            0 <= i < events.len() - 1 && (#[trigger] events[i]) is Read && events[i]->Read_0
                is Ok implies events[i + 1] is Handled by {
            assert(events[i] == before[i]);
            if i < before.len() - 1 {
                assert(events[i + 1] == before[i + 1]);
            } else {
                assert(before.last() == events[i]);
                assert(events.last() == events[i + 1]);
            }
        }
    }
}

/// Where a task is after an event: it asks whether to stop before each read, and again after each
/// request that was handled or could not be, and after each read that failed.
pub proof fn law_task_follows_its_events<E>(
    events: Seq<TaskEvent<E>>,
    len: usize,
    failure: E,
    handled: Result<usize, E>,
)
    ensures
        phase_after(Seq::<TaskEvent<E>>::empty()) is Check,
        phase_after(events.push(TaskEvent::Quiescing(false))) is Read,
        phase_after(events.push(TaskEvent::Quiescing(true))) is Report,
        phase_after(events.push(TaskEvent::Read(Ok(len)))) == (TaskPhase::Handle { len }),
        phase_after(events.push(TaskEvent::Read(Err(failure)))) is Check,
        phase_after(events.push(TaskEvent::Handled(handled))) is Check,
{
    assert(events.push(TaskEvent::Quiescing(false)).drop_last() =~= events);
    assert(events.push(TaskEvent::Quiescing(true)).drop_last() =~= events);
    assert(events.push(TaskEvent::Read(Ok(len))).drop_last() =~= events);
    assert(events.push(TaskEvent::Read(Err(failure))).drop_last() =~= events);
    assert(events.push(TaskEvent::Handled(handled)).drop_last() =~= events);
}

/// A task goes on from any event that can come of where it is: from a check by either answer, from
/// a read by any failure and by any length that fits in the buffer, and from a request however it
/// was handled. Nothing can come of a task that has reported.
pub proof fn law_task_goes_on<E>(events: Seq<TaskEvent<E>>, event: TaskEvent<E>, capacity: nat)
    requires
        can_happen(events, capacity),
    ensures
        can_happen(events.push(event), capacity) <==> match phase_after(events) {
            TaskPhase::Check => event is Quiescing,
            TaskPhase::Read => event matches TaskEvent::Read(read) && (read matches Ok(len) ==> len
                <= capacity),
            TaskPhase::Handle { .. } => event is Handled,
            TaskPhase::Report => false,
        },
{
    assert(events.push(event).drop_last() =~= events);
}

} // verus!
