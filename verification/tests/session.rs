use std::path::Path;

use macfuse_session::transport::macfuse::channel::FuseChannel;
use macfuse_session::transport::macfuse::kern::{
    check_mountable, create_disk, fuse_kern_mount, fuse_kern_mount_call, fuse_kern_umount, Connection, FUSE_FD_DEAD,
    FUSE_FD_DEAD_MAGIC,
};
use macfuse_session::transport::macfuse::session::{
    Destination, FuseSession, MountAction, MountEvent, UmountAction, UmountEvent,
};
use macfuse_session::transport::Error;
use vmm_sys_util::tempdir::TempDir;

type Session = FuseSession<String, u32>;

fn resolve(mountpoint: &Path) -> Option<Destination> {
    let dest = mountpoint.canonicalize().ok()?;
    Some(Destination {
        path: dest.as_os_str().as_encoded_bytes().to_vec(),
        shown: format!("{:?}", dest),
        is_dir: dest.is_dir(),
    })
}

fn open(mountpoint: &Path, fsname: &str, subtype: &str) -> Result<Session, Error> {
    FuseSession::new(
        &format!("{:?}", mountpoint),
        resolve(mountpoint),
        fsname,
        subtype,
        4096,
    )
}

fn session_at(path: &[u8]) -> Session {
    let dest = Destination {
        path: path.to_vec(),
        shown: String::new(),
        is_dir: true,
    };
    FuseSession::new("", Some(dest), "npmfs", "", 4096).unwrap()
}

fn message(e: Error) -> String {
    match e {
        Error::SessionFailure(message) => message,
    }
}

#[test]
fn test_new_session() {
    let se = open(Path::new("haha"), "foo", "bar");
    assert!(se.is_err());

    let dir = TempDir::new().unwrap();
    let se = open(dir.as_path(), "foo", "bar");
    assert!(se.is_ok());
}

#[test]
fn test_new_channel() {
    let ch = FuseChannel::new(0, 0, 3);
    assert!(ch.is_ok());
}

#[test]
fn channel_buffer_is_zeroed() {
    let mut ch = FuseChannel::new(7, 1, 3).unwrap();
    assert_eq!(*ch.file(), 7);
    assert_eq!(ch.pipe_fd(), 1);
    assert_eq!(ch.buf_mut().to_vec(), vec![0, 0, 0]);
}

#[test]
fn missing_mountpoint_is_shown() {
    let e = open(Path::new("haha"), "foo", "bar").unwrap_err();
    assert_eq!(message(e), "invalid mountpoint \"haha\"");
}

#[test]
fn mountpoint_must_be_a_directory() {
    let dest = Destination {
        path: b"/tmp/f".to_vec(),
        shown: String::from("\"/tmp/f\""),
        is_dir: false,
    };
    let se: Result<Session, Error> = FuseSession::new("\"f\"", Some(dest), "foo", "bar", 4096);
    assert_eq!(message(se.unwrap_err()), "\"/tmp/f\" is not a directory");
}

#[test]
fn session_keeps_what_it_is_made_with() {
    let dir = TempDir::new().unwrap();
    let se = open(dir.as_path(), "foo", "bar").unwrap();
    let path = dir.as_path().canonicalize().unwrap();
    assert_eq!(se.mountpoint(), path.as_os_str().as_encoded_bytes());
    assert_eq!(se.fsname(), "foo");
    assert_eq!(se.subtype(), "bar");
    assert_eq!(se.bufsize(), 1052672);
}

#[test]
fn bufsize_follows_page_size() {
    let dest = Destination {
        path: b"/".to_vec(),
        shown: String::from("\"/\""),
        is_dir: true,
    };
    let se: Session = FuseSession::new("\"/\"", Some(dest), "", "", 16384).unwrap();
    assert_eq!(se.bufsize(), 4198400);
}

fn mounted(path: &[u8]) -> Session {
    let mut se = session_at(path);
    let file = String::from("dev");
    match se.mount(MountEvent::DiskCreated { file, disk: 9 }) {
        MountAction::Return(result) => result.unwrap(),
        action => panic!("{:?}", action),
    }
    se
}

fn umount(se: &mut Session) -> UmountAction<String, u32> {
    se.umount(UmountEvent::<String, u32, ()>::Start)
}

fn is_unmounted(action: UmountAction<String, u32>) -> bool {
    matches!(action, UmountAction::Return(Ok(())))
}

#[test]
fn mount_step_by_step() {
    let mut se = session_at(b"/mnt");
    match se.mount(MountEvent::Start) {
        MountAction::KernMount(call) => {
            assert_eq!(call.mountpoint, b"/mnt\0".to_vec());
            assert_eq!(call.args.argv, vec![b"/mnt\0".to_vec()]);
        }
        action => panic!("{:?}", action),
    }
    match se.mount(MountEvent::KernMounted(5)) {
        MountAction::CreateDisk { fd, path } => {
            assert_eq!(fd, 5);
            assert_eq!(path.bytes, b"/mnt\0".to_vec());
            assert_eq!(path.len, 4);
        }
        action => panic!("{:?}", action),
    }
    assert!(se.get_fuse_file().is_none());
    let file = String::from("dev");
    assert!(matches!(
        se.mount(MountEvent::DiskCreated { file, disk: 9 }),
        MountAction::Return(Ok(()))
    ));
    assert_eq!(se.get_fuse_file().cloned(), Some(String::from("dev")));
}

#[test]
fn failed_mount_changes_nothing() {
    let mut se = session_at(b"/mnt");
    match se.mount(MountEvent::KernMounted(-1)) {
        MountAction::Return(Err(e)) => assert_eq!(message(e), "failed to mount"),
        action => panic!("{:?}", action),
    }
    assert!(se.get_fuse_file().is_none());
    assert!(is_unmounted(umount(&mut se)));
}

#[test]
fn umount_undoes_mount() {
    let mut se = mounted(b"/mnt");
    let connection = match umount(&mut se) {
        UmountAction::SetDead(connection) => connection,
        action => panic!("{:?}", action),
    };
    assert_eq!(connection.file, "dev");
    assert_eq!(connection.disk, Some(9));
    assert!(se.get_fuse_file().is_none());

    let set_dead = Ok::<(), ()>(());
    match se.umount(UmountEvent::SetDead { connection, set_dead }) {
        UmountAction::UnmountDisk(disk) => assert_eq!(disk, 9),
        action => panic!("{:?}", action),
    }
    assert!(is_unmounted(
        se.umount(UmountEvent::<String, u32, ()>::DiskUnmounted)
    ));
}

#[test]
fn living_daemon_keeps_the_disk() {
    let mut se = session_at(b"/mnt");
    let connection = Connection { file: String::from("dev"), disk: Some(9) };
    match se.umount(UmountEvent::SetDead { connection, set_dead: Err(()) }) {
        UmountAction::Return(Err(e)) => {
            assert_eq!(message(e), "ioctl set fuse deamon dead failed");
        }
        action => panic!("{:?}", action),
    }
    let connection = Connection { file: String::from("dev"), disk: None };
    let set_dead = Ok::<(), ()>(());
    assert!(is_unmounted(
        se.umount(UmountEvent::SetDead { connection, set_dead })
    ));
}

#[test]
fn second_umount_does_nothing() {
    let mut se = mounted(b"/mnt");
    assert!(matches!(umount(&mut se), UmountAction::SetDead(_)));
    assert!(is_unmounted(umount(&mut se)));
    assert!(is_unmounted(umount(&mut session_at(b"/mnt"))));
}

#[test]
fn umount_needs_a_textual_mountpoint() {
    let mut se = session_at(b"/mnt/\xff");
    se.set_fuse_file(String::from("dev"));
    match umount(&mut se) {
        UmountAction::Return(Err(e)) => assert_eq!(message(e), "invalid mountpoint"),
        action => panic!("{:?}", action),
    }
    assert!(is_unmounted(umount(&mut se)));
}

#[test]
fn mountpoint_may_hold_any_text() {
    let mut se = mounted("/mnt/\u{e9}\u{4e2d}\u{1f600}".as_bytes());
    assert!(matches!(umount(&mut se), UmountAction::SetDead(_)));
}

#[test]
fn mountable_paths() {
    assert!(check_mountable(b"/mnt"));
    assert!(check_mountable("/\u{e9}".as_bytes()));
    assert!(check_mountable(b""));
    assert!(!check_mountable(b"/mnt/\xff"));
    assert!(!check_mountable(b"/mnt\0"));
}

#[test]
fn file_can_be_set() {
    let mut se = session_at(b"/mnt");
    se.set_fuse_file(String::from("dev"));
    assert_eq!(se.get_fuse_file().cloned(), Some(String::from("dev")));
    match umount(&mut se) {
        UmountAction::SetDead(connection) => assert_eq!(connection.disk, None),
        action => panic!("{:?}", action),
    }
}

#[test]
fn identity_is_kept() {
    let mut se = mounted(b"/mnt");
    se.set_fuse_file(String::from("other"));
    umount(&mut se);
    assert_eq!(se.mountpoint(), b"/mnt");
    assert_eq!(se.fsname(), "npmfs");
    assert_eq!(se.subtype(), "");
    assert_eq!(se.bufsize(), 1052672);
}

#[test]
fn channel_needs_a_mounted_session() {
    let e = session_at(b"/mnt")
        .new_channel(Ok(String::from("dup")), 0)
        .unwrap_err();
    assert_eq!(message(e), "invalid fuse session");

    let mut se = mounted(b"/mnt");
    let mut ch = se.new_channel(Ok(String::from("dup")), 0).unwrap();
    assert_eq!(ch.file(), "dup");
    assert_eq!(ch.buf_mut().len(), se.bufsize());

    let e = se
        .new_channel(Err(String::from("Too many open files")), 0)
        .unwrap_err();
    assert_eq!(message(e), "dup fd: Too many open files");

    umount(&mut se);
    assert!(se.new_channel(Ok(String::from("dup")), 0).is_err());
}

#[test]
fn session_can_have_many_channels() {
    let se = mounted(b"/mnt");
    let first = se.new_channel(Ok(String::from("one")), 0).unwrap();
    let second = se.new_channel(Ok(String::from("two")), 1).unwrap();
    assert_eq!(first.file(), "one");
    assert_eq!(second.file(), "two");
}

#[test]
fn mount_call_takes_the_mountpoint_twice() {
    let call = fuse_kern_mount_call(b"/mnt");
    assert_eq!(call.mountpoint, b"/mnt\0".to_vec());
    assert_eq!(call.args.argc, 1);
    assert_eq!(call.args.argv, vec![b"/mnt\0".to_vec()]);
    assert_eq!(call.args.allocated, 0);
}

#[test]
fn mount_call_fails_with_a_negative_descriptor() {
    assert_eq!(fuse_kern_mount(0).unwrap(), 0);
    assert_eq!(fuse_kern_mount(5).unwrap(), 5);
    assert_eq!(message(fuse_kern_mount(-1).unwrap_err()), "failed to mount");
}

#[test]
fn disk_is_found_by_the_mountpoint() {
    let path = create_disk(b"/mnt");
    assert_eq!(path.bytes, b"/mnt\0".to_vec());
    assert_eq!(path.len, 4);
    assert!(path.is_external_representation);
    assert!(path.is_directory);
}

#[test]
fn disk_is_unmounted_once_the_daemon_is_dead() {
    let connection = Connection { file: 3, disk: Some(9) };
    assert_eq!(fuse_kern_umount(connection, Ok::<(), ()>(())).unwrap(), Some(9));

    let connection = Connection { file: 3, disk: None::<u32> };
    assert_eq!(fuse_kern_umount(connection, Ok::<(), ()>(())).unwrap(), None);

    let connection = Connection { file: 3, disk: Some(9) };
    let e = fuse_kern_umount(connection, Err::<(), ()>(())).unwrap_err();
    assert_eq!(message(e), "ioctl set fuse deamon dead failed");
}

#[test]
fn daemon_dead_ioctl() {
    assert_eq!(FUSE_FD_DEAD_MAGIC, b'F');
    assert_eq!(FUSE_FD_DEAD, 3);
}
