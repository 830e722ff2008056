use macfuse_session::transport::macfuse::task::{FuseDevTask, TaskEvent, TaskPhase};

type Event = TaskEvent<String>;

#[test]
fn test_fuse_task() {
    let task = FuseDevTask::new(0x1000, 3, "server", "state");
    let mut quiescing = false;
    let mut phase = TaskPhase::Check;
    let mut handled = 0;

    for _i in 0..10 {
        phase = match phase {
            TaskPhase::Check => task.poll_handler(phase, Event::Quiescing(quiescing)),
            TaskPhase::Read => task.poll_handler(phase, Event::Read(Ok(40))),
            TaskPhase::Handle { len } => {
                assert_eq!(len, 40);
                handled += 1;
                task.poll_handler(phase, Event::Handled(Ok(16)))
            }
            TaskPhase::Report => unreachable!(),
        };
    }
    assert_eq!(handled, 3);

    quiescing = true;
    for _i in 0..10 {
        phase = match phase {
            TaskPhase::Check => task.poll_handler(phase, Event::Quiescing(quiescing)),
            TaskPhase::Read => task.poll_handler(phase, Event::Read(Err(String::from("closed")))),
            TaskPhase::Handle { .. } => task.poll_handler(phase, Event::Handled(Ok(0))),
            TaskPhase::Report => break,
        };
    }
    assert_eq!(phase, TaskPhase::Report);
}

#[test]
fn failures_do_not_stop_a_task() {
    let task = FuseDevTask::new(16, 3, (), ());
    let failed = String::from("EIO");
    assert_eq!(
        task.poll_handler(TaskPhase::Read, Event::Read(Err(failed.clone()))),
        TaskPhase::Check
    );
    assert_eq!(
        task.poll_handler(TaskPhase::Handle { len: 4 }, Event::Handled(Err(failed))),
        TaskPhase::Check
    );
}

#[test]
fn task_stops_when_told() {
    let task = FuseDevTask::new(16, 3, (), ());
    assert_eq!(task.poll_handler(TaskPhase::Check, Event::Quiescing(false)), TaskPhase::Read);
    assert_eq!(task.poll_handler(TaskPhase::Check, Event::Quiescing(true)), TaskPhase::Report);
}

#[test]
fn request_is_in_the_buffer() {
    let task = FuseDevTask::new(16, 3, (), ());
    assert_eq!(
        task.poll_handler(TaskPhase::Read, Event::Read(Ok(16))),
        TaskPhase::Handle { len: 16 }
    );
}

#[test]
fn task_keeps_what_it_is_made_with() {
    let mut task = FuseDevTask::new(4, 3, "server", "state");
    assert_eq!(task.fd(), 3);
    assert_eq!(*task.server(), "server");
    assert_eq!(*task.state(), "state");
    assert_eq!(task.buf_mut().to_vec(), vec![0, 0, 0, 0]);
}

#[test]
fn room_can_be_chosen() {
    let mut task = FuseDevTask::new(4, 3, "server", "state");
    task.buf_mut()[0] = 7;
    for room in [0, 2, 6] {
        let mut other = task.with_room(room);
        assert_eq!(other.fd(), 3);
        assert_eq!(*other.server(), "server");
        assert_eq!(*other.state(), "state");
        assert_eq!(other.buf_mut().to_vec(), vec![0; room]);
    }
}

#[test]
fn clone_has_a_buffer_of_its_own() {
    let mut task = FuseDevTask::new(4, 3, "server", "state");
    task.buf_mut()[0] = 7;
    let mut other = task.clone();
    assert_eq!(other.fd(), 3);
    assert_eq!(*other.server(), "server");
    assert_eq!(*other.state(), "state");
    assert_eq!(other.buf_mut().to_vec(), vec![0, 0, 0, 0]);
    assert_eq!(task.buf_mut().to_vec(), vec![7, 0, 0, 0]);
}
