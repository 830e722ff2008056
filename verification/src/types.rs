//! The plain values that a file system answers requests with.
use vstd::prelude::*;

verus! {

/// A length of time.
#[derive(Debug, Clone, Copy, PartialEq, Eq, Structural)]
pub struct Timeout {
    /// Whole seconds.
    pub secs: u64,
    /// The rest, in nanoseconds.
    pub nanos: u32,
}

/// The attributes of a file, as the FUSE protocol carries them.
#[derive(Debug, Clone, Copy, PartialEq, Eq, Structural)]
pub struct Attr {
    /// Inode number.
    pub ino: u64,
    /// Size in bytes.
    pub size: u64,
    /// Size in blocks.
    pub blocks: u64,
    /// Time of the last access, in seconds since the Unix epoch.
    pub atime: u64,
    /// Time of the last modification.
    pub mtime: u64,
    /// Time of the last change of the attributes.
    pub ctime: u64,
    /// Time of creation.
    pub crtime: u64,
    /// Nanoseconds of `atime`.
    pub atimensec: u32,
    /// Nanoseconds of `mtime`.
    pub mtimensec: u32,
    /// Nanoseconds of `ctime`.
    pub ctimensec: u32,
    /// Nanoseconds of `crtime`.
    pub crtimensec: u32,
    /// File type and permissions.
    pub mode: u32,
    /// Number of hard links.
    pub nlink: u32,
    /// Owner.
    pub uid: u32,
    /// Group.
    pub gid: u32,
    /// Device, for a device file.
    pub rdev: u32,
    /// Flags of the file.
    pub flags: u32,
    /// Block size.
    pub blksize: u32,
    /// Unused.
    pub padding: u32,
}

impl Attr {
    /// The attributes in which every field is zero.
    pub open spec fn zero() -> Attr {
        Attr {
            ino: 0,
            size: 0,
            blocks: 0,
            atime: 0,
            mtime: 0,
            ctime: 0,
            crtime: 0,
            atimensec: 0,
            mtimensec: 0,
            ctimensec: 0,
            crtimensec: 0,
            mode: 0,
            nlink: 0,
            uid: 0,
            gid: 0,
            rdev: 0,
            flags: 0,
            blksize: 0,
            padding: 0,
        }
    }
}

impl Default for Attr {
    /// The attributes in which every field is zero.
    fn default() -> (attr: Attr)
        ensures
            attr == Attr::zero(),
            attr.ino == 0 && attr.size == 0 && attr.blocks == 0,
            attr.atime == 0 && attr.mtime == 0 && attr.ctime == 0 && attr.crtime == 0,
            attr.atimensec == 0 && attr.mtimensec == 0,
            attr.ctimensec == 0 && attr.crtimensec == 0,
            attr.mode == 0 && attr.nlink == 0 && attr.uid == 0 && attr.gid == 0,
            attr.rdev == 0 && attr.flags == 0 && attr.blksize == 0 && attr.padding == 0,
    {
        Attr {
            ino: 0,
            size: 0,
            blocks: 0,
            atime: 0,
            mtime: 0,
            ctime: 0,
            crtime: 0,
            atimensec: 0,
            mtimensec: 0,
            ctimensec: 0,
            crtimensec: 0,
            mode: 0,
            nlink: 0,
            uid: 0,
            gid: 0,
            rdev: 0,
            flags: 0,
            blksize: 0,
            padding: 0,
        }
    }
}

/// What a name stands for.
#[derive(Debug, Clone, Copy, PartialEq, Eq, Structural)]
pub struct Entry {
    /// The inode behind the name.
    pub inode: u64,
    /// Tells apart the files that have had this inode number.
    pub generation: u64,
    /// The attributes of the inode.
    pub attr: Attr,
    /// Flags of the attributes.
    pub attr_flags: u32,
    /// How long the attributes stay valid.
    pub attr_timeout: Timeout,
    /// How long the name stays valid.
    pub entry_timeout: Timeout,
}

/// The status of a file, field for field that of macOS.
#[derive(Debug, Clone, Copy, PartialEq, Eq)]
pub struct Stat {
    /// Device that holds the file.
    pub st_dev: i32,
    /// File type and permissions.
    pub st_mode: u16,
    /// Number of hard links.
    pub st_nlink: u16,
    /// Inode number.
    pub st_ino: u64,
    /// Owner.
    pub st_uid: u32,
    /// Group.
    pub st_gid: u32,
    /// Device, for a device file.
    pub st_rdev: i32,
    /// Time of the last access, in seconds since the Unix epoch.
    pub st_atime: i64,
    /// Nanoseconds of `st_atime`.
    pub st_atime_nsec: i64,
    /// Time of the last modification.
    pub st_mtime: i64,
    /// Nanoseconds of `st_mtime`.
    pub st_mtime_nsec: i64,
    /// Time of the last change of the status.
    pub st_ctime: i64,
    /// Nanoseconds of `st_ctime`.
    pub st_ctime_nsec: i64,
    /// Time of creation.
    pub st_birthtime: i64,
    /// Nanoseconds of `st_birthtime`.
    pub st_birthtime_nsec: i64,
    /// Size in bytes.
    pub st_size: i64,
    /// Size in blocks.
    pub st_blocks: i64,
    /// Block size.
    pub st_blksize: i32,
    /// Flags of the file.
    pub st_flags: u32,
    /// Generation number.
    pub st_gen: u32,
    /// Unused.
    pub st_lspare: i32,
    /// Unused.
    pub st_qspare: [i64; 2],
}

/// One name in a directory.
#[derive(Debug, Clone, Copy, PartialEq, Eq)]
pub struct DirEntry<'a> {
    /// The inode that the name stands for.
    pub ino: u64,
    /// Where in the listing the entry stands.
    pub offset: u64,
    /// The type of the file.
    pub type_: u32,
    /// The name.
    pub name: &'a [u8],
}

/// What a directory entry says, with the bytes of its name.
#[verifier::ext_equal]
pub struct DirEntryView {
    pub ino: u64,
    pub offset: u64,
    pub type_: u32,
    pub name: Seq<u8>,
}

impl<'a> View for DirEntry<'a> {
    type V = DirEntryView;

    open spec fn view(&self) -> DirEntryView {
        DirEntryView { ino: self.ino, offset: self.offset, type_: self.type_, name: self.name@ }
    }
}

} // verus!
