use macfuse_session::transport::macfuse::channel::{
    serve_step, ChannelEvent, ChannelPhase, Errno, FuseChannel, PhaseEvent, Request, RequestStep,
    ServeStep,
};
use macfuse_session::transport::Error;

fn channel() -> FuseChannel<i32> {
    FuseChannel::new(3, 0, 8).unwrap()
}

#[test]
fn request_is_at_the_start_of_the_buffer() {
    let mut ch = channel();
    ch.buf_mut()[..3].copy_from_slice(b"abc");
    match ch.get_request(ChannelEvent::Read(Ok(3))) {
        RequestStep::Return(Ok(Some(request))) => {
            assert_eq!(request, Request { len: 3, capacity: 8 });
            assert_eq!(ch.request(request), b"abc");
        }
        step => panic!("{:?}", step),
    }
}

#[test]
fn empty_and_full_reads_are_requests() {
    let ch = channel();
    for len in [0, 8] {
        match ch.get_request(ChannelEvent::Read(Ok(len))) {
            RequestStep::Return(Ok(Some(request))) => {
                assert_eq!(request.len, len);
                assert_eq!(ch.request(request).len(), len);
            }
            step => panic!("{:?}", step),
        }
    }
}

#[test]
fn interrupted_reads_are_made_again() {
    let ch = channel();
    for errno in [Errno::ENOENT, Errno::EAGAIN, Errno::EINTR] {
        assert!(matches!(ch.get_request(ChannelEvent::Read(Err(errno))), RequestStep::Again));
    }
}

#[test]
fn interruptions_do_not_matter() {
    let ch = channel();
    let mut reads = vec![Err(Errno::EINTR), Err(Errno::ENOENT), Err(Errno::EAGAIN), Ok(5)].into_iter();
    let request = loop {
        match ch.get_request(ChannelEvent::Read(reads.next().unwrap())) {
            RequestStep::Again => continue,
            RequestStep::Return(found) => break found.unwrap().unwrap(),
        }
    };
    assert_eq!(request.len, 5);
}

#[test]
fn missing_device_is_the_end() {
    assert!(matches!(
        channel().get_request(ChannelEvent::Read(Err(Errno::ENODEV))),
        RequestStep::Return(Ok(None))
    ));
}

#[test]
fn other_errors_are_named() {
    let read = Err(Errno::Other(String::from("EIO")));
    match channel().get_request(ChannelEvent::Read(read)) {
        RequestStep::Return(Err(Error::SessionFailure(message))) => {
            assert_eq!(message, "read new request: EIO");
        }
        step => panic!("{:?}", step),
    }
}

#[test]
fn pending_exit_is_the_end() {
    assert!(matches!(
        channel().get_request(ChannelEvent::Exit),
        RequestStep::Return(Ok(None))
    ));
}

#[test]
fn signal_is_looked_for_before_each_read() {
    let ch = channel();
    let phase = ch.next_phase(ChannelPhase::Look, PhaseEvent::Looked(false));
    assert!(matches!(phase, ChannelPhase::Read));
    let phase = ch.next_phase(phase, PhaseEvent::Read(Err(Errno::EINTR)));
    assert!(matches!(phase, ChannelPhase::Look));
    let phase = ch.next_phase(phase, PhaseEvent::Looked(true));
    assert!(matches!(phase, ChannelPhase::Return(Ok(None))));
}

#[test]
fn wait_ends_with_what_was_read() {
    let ch = channel();
    match ch.next_phase(ChannelPhase::Read, PhaseEvent::Read(Ok(5))) {
        ChannelPhase::Return(Ok(Some(request))) => {
            assert_eq!(request, Request { len: 5, capacity: 8 });
        }
        phase => panic!("{:?}", phase),
    }
    assert!(matches!(
        ch.next_phase(ChannelPhase::Read, PhaseEvent::Read(Err(Errno::ENODEV))),
        ChannelPhase::Return(Ok(None))
    ));
    let read = Err(Errno::Other(String::from("EIO")));
    match ch.next_phase(ChannelPhase::Read, PhaseEvent::Read(read)) {
        ChannelPhase::Return(Err(Error::SessionFailure(message))) => {
            assert_eq!(message, "read new request: EIO");
        }
        phase => panic!("{:?}", phase),
    }
}

#[test]
fn serving_stops_without_a_request() {
    let request = Request { len: 3, capacity: 8 };
    assert_eq!(serve_step(Ok(Some(request))), ServeStep::Handle(request));
    assert_eq!(serve_step(Ok(None)), ServeStep::Stop);
    let failure = Error::SessionFailure(String::from("read new request: EIO"));
    assert_eq!(serve_step(Err(failure)), ServeStep::Stop);
}
