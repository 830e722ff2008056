use macfuse_session::error::Error;
use macfuse_session::fs::{read_reply, FakeFileSystemOne, ReadDir};
use macfuse_session::modes::{directory_mode, regular_file_mode};
use macfuse_session::types::{Attr, DirEntry, Timeout};

const NOW: u64 = 1_650_000_000;

fn fs() -> FakeFileSystemOne {
    FakeFileSystemOne { fuse_session_end: false }
}

fn read(size: u32, offset: u64) -> Vec<u8> {
    fs().read(2, 0, size, offset, None, 0).unwrap()
}

#[test]
fn lookup_finds_the_file() {
    let entry = fs().lookup(1, b"hello", NOW).unwrap();
    assert_eq!(entry.inode, 2);
    assert_eq!(entry.generation, 0);
    assert_eq!(entry.attr_flags, 0);
    assert_eq!(entry.attr_timeout, Timeout { secs: 0, nanos: 0 });
    assert_eq!(entry.entry_timeout, Timeout { secs: 0, nanos: 0 });
    assert_eq!(
        entry.attr,
        Attr {
            ino: 2,
            size: 11,
            blocks: 1,
            atime: NOW,
            mtime: NOW,
            ctime: NOW,
            crtime: NOW,
            mode: 0o100555,
            nlink: 1,
            blksize: 4096,
            ..Attr::default()
        }
    );
}

#[test]
fn every_name_stands_for_the_file() {
    let entry = fs().lookup(1, b"hello", NOW).unwrap();
    assert_eq!(fs().lookup(9, b"nothing", NOW).unwrap(), entry);
}

#[test]
fn root_is_a_directory() {
    let (stat, timeout) = fs().getattr(1, None, NOW).unwrap();
    assert_eq!(timeout, Timeout { secs: 1, nanos: 0 });
    assert_eq!(stat.st_mode, 0o040555);
    assert_eq!(stat.st_nlink, 1);
    assert_eq!(stat.st_ino, 1);
    assert_eq!(stat.st_size, 0);
    assert_eq!(stat.st_blocks, 0);
    assert_eq!(stat.st_blksize, 4096);
    assert_eq!(stat.st_atime, NOW as i64);
    assert_eq!(stat.st_mtime, NOW as i64);
    assert_eq!(stat.st_ctime, NOW as i64);
    assert_eq!(stat.st_birthtime, 0);
    assert_eq!(stat.st_qspare, [0, 0]);
}

#[test]
fn other_inodes_are_the_file() {
    let (stat, timeout) = fs().getattr(2, Some(5), NOW).unwrap();
    assert_eq!(timeout, Timeout { secs: 1, nanos: 0 });
    assert_eq!(stat.st_mode, 0o100555);
    assert_eq!(stat.st_ino, 1);
    assert_eq!(stat.st_size, 11);
    assert_eq!(stat.st_blocks, 1);
    assert_eq!(fs().getattr(77, None, NOW).unwrap().0, stat);
}

#[test]
fn lookup_agrees_with_getattr() {
    let entry = fs().lookup(1, b"hello", NOW).unwrap();
    let (stat, _) = fs().getattr(entry.inode, None, NOW).unwrap();
    assert_eq!(entry.attr.mode, stat.st_mode as u32);
    assert_eq!(entry.attr.size, stat.st_size as u64);
    assert_eq!(entry.attr.blocks, stat.st_blocks as u64);
}

#[test]
fn modes_are_those_of_libc() {
    let all = libc::S_IREAD
        | libc::S_IEXEC
        | libc::S_IRGRP
        | libc::S_IXGRP
        | libc::S_IROTH
        | libc::S_IXOTH;
    assert_eq!(regular_file_mode(), (libc::S_IFREG | all) as u32);
    assert_eq!(directory_mode(), (libc::S_IFDIR | all) as u32);
    assert_eq!(regular_file_mode(), 0o100555);
    assert_eq!(directory_mode(), 0o040555);
}

#[test]
fn reads() {
    assert_eq!(read(4096, 0), b"hello, fuse");
    assert_eq!(read(11, 0), b"hello, fuse");
    assert_eq!(read(10, 0), b"hello, fus");
    assert_eq!(read(5, 0), b"hello");
    assert_eq!(read(4, 7), b"fuse");
    assert_eq!(read(400, 7), b"fuse");
    assert_eq!(read(2, 7), b"fu");
    assert_eq!(read(0, 3), b"");
    assert_eq!(read(u32::MAX, 11), b"");
}

#[test]
fn read_reply_counts_what_was_read() {
    assert_eq!(read_reply(b"fuse", Ok::<usize, ()>(4)).unwrap(), 4);
    assert_eq!(read_reply(b"fuse", Ok::<usize, ()>(1)).unwrap(), 4);
    assert_eq!(read_reply(b"fuse", Err::<usize, ()>(())).unwrap(), 4);
    assert_eq!(read_reply(b"", Ok::<usize, ()>(0)).unwrap(), 0);
}

#[test]
fn reads_join() {
    let mut whole = read(4, 0);
    whole.extend(read(4, 4));
    whole.extend(read(4, 8));
    assert_eq!(whole, b"hello, fuse");
}

#[test]
fn reported_size_is_read() {
    let size = fs().lookup(1, b"hello", NOW).unwrap().attr.size;
    assert_eq!(read(size as u32, 0), b"hello, fuse");
    assert_eq!(read(1, size), b"");
}

#[test]
fn listing() {
    let listing = fs().readdir(1, 0, 4096, 0);
    assert_eq!(
        listing.entry(),
        Some(DirEntry { ino: 1, offset: 0, type_: 4, name: b"." })
    );
    let listing = listing.added(Ok::<usize, ()>(32));
    assert_eq!(
        listing.entry(),
        Some(DirEntry { ino: 1, offset: 32, type_: 4, name: b".." })
    );
    let listing = listing.added(Ok::<usize, ()>(24));
    assert_eq!(
        listing.entry(),
        Some(DirEntry { ino: 2, offset: 56, type_: 8, name: b"hello" })
    );
    assert_eq!(listing.added(Err::<usize, ()>(())), ReadDir::Done);
    assert_eq!(listing.added(Ok::<usize, ()>(32)), ReadDir::Done);
    assert_eq!(ReadDir::Done.entry(), None);
}

#[test]
fn entry_types_are_those_of_libc() {
    assert_eq!(ReadDir::Dot.entry().unwrap().type_, libc::DT_DIR as u32);
    assert_eq!(ReadDir::DotDot { offset: 0 }.entry().unwrap().type_, libc::DT_DIR as u32);
    assert_eq!(ReadDir::Hello { offset: 0 }.entry().unwrap().type_, libc::DT_REG as u32);
}

#[test]
fn listing_is_not_resumed() {
    assert_eq!(fs().readdir(1, 0, 4096, 32).entry(), None);
}

#[test]
fn listing_agrees_with_entries() {
    let root = fs().mount().unwrap().0;
    let file = fs().lookup(1, b"hello", NOW).unwrap();
    assert_eq!(ReadDir::Dot.entry().unwrap().ino, root.inode);
    assert_eq!(ReadDir::Hello { offset: 0 }.entry().unwrap().ino, file.inode);
}

#[test]
fn root_entry_has_no_attributes() {
    let (root, last) = fs().mount().unwrap();
    assert_eq!(root.inode, 1);
    assert_eq!(root.generation, 0);
    assert_eq!(root.attr, Attr::default());
    assert_eq!(root.attr.mode, 0);
    assert_eq!(last, 0);
}

#[test]
fn access_is_always_allowed() {
    assert!(fs().access(2, 7).is_ok());
}

#[test]
fn destroy_ends_the_session() {
    let mut fs = fs();
    fs.destroy();
    assert!(fs.fuse_session_end);
}

#[test]
fn errors_can_be_shown() {
    assert_eq!(format!("{:?}", Error::MissingParameter), "MissingParameter");
    assert_eq!(format!("{:?}", Error::InvalidXattrSize((3, 4))), "InvalidXattrSize((3, 4))");
}
