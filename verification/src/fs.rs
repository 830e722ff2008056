//! A file system with one directory, the root, which holds one file, `hello`.
use crate::modes::{directory_mode, dt_dir, dt_reg, regular_file_mode};
use crate::types::{Attr, DirEntry, DirEntryView, Entry, Stat, Timeout};
use vstd::prelude::*;
use vstd::string::*;
use vstd::utf8::encode_utf8;

verus! {

/// What the file `hello` holds: the text `hello, fuse`.
pub open spec fn content() -> Seq<u8> {
    seq![104u8, 101u8, 108u8, 108u8, 111u8, 44u8, 32u8, 102u8, 117u8, 115u8, 101u8]
}

/// What a read of at most `size` bytes at `offset` gives: the bytes from there to the end of the
/// file, or the first `size` of them.
pub open spec fn read_at(offset: nat, size: nat) -> Seq<u8> {
    let end = if offset + size < content().len() {
        (offset + size) as int
    } else {
        content().len() as int
    };
    content().subrange(offset as int, end)
}

/// The bytes of the file `hello`.
pub fn content_bytes() -> (bytes: &'static [u8])
    ensures
        bytes@ == content(),
        bytes@ == encode_utf8("hello, fuse"@),
{
    let text = "hello, fuse";
    proof {
        reveal_strlit("hello, fuse");
        assert(text@ =~= seq!['h', 'e', 'l', 'l', 'o', ',', ' ', 'f', 'u', 's', 'e']);
        assert(text.is_ascii());
        assert(text.spec_bytes() =~= content());
    }
    text.as_bytes()
}

/// The file system. It keeps nothing but whether its session has ended.
#[derive(Debug)]
pub struct FakeFileSystemOne {
    /// Set once the driver has told the file system to shut down.
    pub fuse_session_end: bool,
}

/// The entry that every name stands for, at the time `now`: the file `hello`, whose times are
/// all `now`.
pub open spec fn hello_entry(now: u64) -> Entry {
    Entry {
        inode: 2,
        generation: 0,
        attr: Attr {
            ino: 2,
            size: content().len() as u64,
            blocks: 1,
            atime: now,
            mtime: now,
            ctime: now,
            crtime: now,
            mode: 0o10_0555,
            nlink: 1,
            blksize: 4096,
            ..Attr::zero()
        },
        attr_flags: 0,
        attr_timeout: Timeout { secs: 0, nanos: 0 },
        entry_timeout: Timeout { secs: 0, nanos: 0 },
    }
}

/// The entry of the root directory. Its attributes are all zero.
pub open spec fn root_entry() -> Entry {
    Entry {
        inode: 1,
        generation: 0,
        attr: Attr::zero(),
        attr_flags: 0,
        attr_timeout: Timeout { secs: 0, nanos: 0 },
        entry_timeout: Timeout { secs: 0, nanos: 0 },
    }
}

/// The status of an inode at the time `now`. Inode 1 is the root directory; every other inode has
/// the status of the file `hello`.
pub open spec fn inode_stat(inode: u64, now: u64) -> Stat {
    Stat {
        st_dev: 0,
        st_mode: if inode == 1 {
            0o4_0555
        } else {
            0o10_0555
        },
        st_nlink: 1,
        st_ino: 1,
        st_uid: 0,
        st_gid: 0,
        st_rdev: 0,
        st_atime: now as i64,
        st_atime_nsec: 0,
        st_mtime: now as i64,
        st_mtime_nsec: 0,
        st_ctime: now as i64,
        st_ctime_nsec: 0,
        st_birthtime: 0,
        st_birthtime_nsec: 0,
        st_size: if inode == 1 {
            0
        } else {
            content().len() as i64
        },
        st_blocks: if inode == 1 {
            0
        } else {
            1
        },
        st_blksize: 4096,
        st_flags: 0,
        st_gen: 0,
        st_lspare: 0,
        st_qspare: [0, 0],
    }
}

/// A listing of the root directory under way: which entry is due, and the offset that it carries.
///
/// Each entry is handed to the caller, who answers how many bytes of the reply it took. The offset
/// of an entry is the number of bytes that the entries before it took.
#[derive(Debug, Clone, Copy, PartialEq, Eq, Structural)]
pub enum ReadDir {
    /// The directory itself is due.
    Dot,
    /// Its parent is due.
    DotDot {
        /// Bytes taken so far.
        offset: usize,
    },
    /// The file `hello` is due.
    Hello {
        /// Bytes taken so far.
        offset: usize,
    },
    /// No entry is left.
    Done,
}

impl ReadDir {
    /// A listing that starts at `offset`: the whole one at the start, an empty one elsewhere.
    pub open spec fn starting_at(offset: u64) -> ReadDir {
        if offset == 0 {
            ReadDir::Dot
        } else {
            ReadDir::Done
        }
    }

    /// The entry that is due.
    pub open spec fn due(self) -> Option<DirEntryView> {
        match self {
            ReadDir::Dot => Some(DirEntryView { ino: 1, offset: 0, type_: 4, name: seq![46u8] }),
            ReadDir::DotDot { offset } => Some(
                DirEntryView { ino: 1, offset: offset as u64, type_: 4, name: seq![46u8, 46u8] },
            ),
            ReadDir::Hello { offset } => Some(
                DirEntryView {
                    ino: 2,
                    offset: offset as u64,
                    type_: 8,
                    name: seq![104u8, 101u8, 108u8, 108u8, 111u8],
                },
            ),
            ReadDir::Done => None,
        }
    }

    /// Whether the listing can go on after the entry that is due was answered with `added`: the
    /// first two entries must have been added, and the offset must stay in range. How the last
    /// one fared does not matter.
    pub open spec fn can_go_on<E>(self, added: Result<usize, E>) -> bool {
        match self {
            ReadDir::Dot => added is Ok,
            ReadDir::DotDot { offset } => added matches Ok(bytes) && offset + bytes <= usize::MAX,
            ReadDir::Hello { .. } => true,
            ReadDir::Done => false,
        }
    }

    /// The listing after the entry that is due was answered with `added`.
    pub open spec fn after<E>(self, added: Result<usize, E>) -> ReadDir {
        match self {
            ReadDir::Dot => ReadDir::DotDot { offset: added->Ok_0 },
            ReadDir::DotDot { offset } => ReadDir::Hello {
                offset: (offset + added->Ok_0) as usize,
            },
            _ => ReadDir::Done,
        }
    }

    /// The entry to hand out next, if one is left.
    pub fn entry(&self) -> (entry: Option<DirEntry<'static>>)
        ensures
            match entry {
                Some(found) => self.due() == Some(found@),
                None => self.due() is None,
            },
            match *self {
                ReadDir::Dot => {
                    &&& entry matches Some(found)
                    &&& found.ino == 1 && found.offset == 0 && found.type_ == 4
                    &&& found.name@ == seq![46u8]
                },
                ReadDir::DotDot { offset } => {
                    &&& entry matches Some(found)
                    &&& found.ino == 1 && found.offset == offset && found.type_ == 4
                    &&& found.name@ == seq![46u8, 46u8]
                },
                ReadDir::Hello { offset } => {
                    &&& entry matches Some(found)
                    &&& found.ino == 2 && found.offset == offset && found.type_ == 8
                    &&& found.name@ == seq![104u8, 101u8, 108u8, 108u8, 111u8]
                },
                ReadDir::Done => entry is None,
            },
    {
        match *self {
            ReadDir::Dot => {
                let name = ".";
                proof {
                    reveal_strlit(".");
                    assert(name@ =~= seq!['.']);
                    assert(name.is_ascii());
                    assert(name.spec_bytes() =~= seq![46u8]);
                }
                Some(DirEntry { ino: 1, offset: 0, type_: dt_dir(), name: name.as_bytes() })
            },
            ReadDir::DotDot { offset } => {
                let name = "..";
                proof {
                    reveal_strlit("..");
                    assert(name@ =~= seq!['.', '.']);
                    assert(name.is_ascii());
                    assert(name.spec_bytes() =~= seq![46u8, 46u8]);
                }
                Some(
                    DirEntry {
                        ino: 1,
                        offset: offset as u64,
                        type_: dt_dir(),
                        name: name.as_bytes(),
                    },
                )
            },
            ReadDir::Hello { offset } => {
                let name = "hello";
                proof {
                    reveal_strlit("hello");
                    assert(name@ =~= seq!['h', 'e', 'l', 'l', 'o']);
                    assert(name.is_ascii());
                    assert(name.spec_bytes() =~= seq![104u8, 101u8, 108u8, 108u8, 111u8]);
                }
                Some(
                    DirEntry {
                        ino: 2,
                        offset: offset as u64,
                        type_: dt_reg(),
                        name: name.as_bytes(),
                    },
                )
            },
            ReadDir::Done => None,
        }
    }

    /// Go on after the entry that was due was answered with `added`: the number of bytes that it
    /// took, or the reason why it could not be added.
    pub fn added<E>(self, added: Result<usize, E>) -> (next: ReadDir)
        requires
            self.can_go_on(added),
        ensures
            next == self.after(added),
    {
        match (self, added) {
            (ReadDir::Dot, Ok(bytes)) => ReadDir::DotDot { offset: bytes },
            (ReadDir::DotDot { offset }, Ok(bytes)) => ReadDir::Hello { offset: offset + bytes },
            _ => ReadDir::Done,
        }
    }
}

impl FakeFileSystemOne {
    /// Look a name up, at the time `now`, in seconds since the Unix epoch. Every name in every
    /// directory stands for the file `hello`.
    pub fn lookup(&self, _parent: u64, _name: &[u8], now: u64) -> (entry: Result<
        Entry,
        std::io::Error,
    >)
        ensures
            entry == Ok::<Entry, std::io::Error>(hello_entry(now)),
            entry matches Ok(found) && {
                &&& found.attr.atime == now && found.attr.mtime == now
                &&& found.attr.ctime == now && found.attr.crtime == now
            },
    {
        let content = content_bytes();
        Ok(
            Entry {
                inode: 2,
                generation: 0,
                attr: Attr {
                    ino: 2,
                    size: content.len() as u64,
                    blocks: 1,
                    atime: now,
                    mtime: now,
                    ctime: now,
                    crtime: now,
                    atimensec: 0,
                    mtimensec: 0,
                    ctimensec: 0,
                    crtimensec: 0,
                    mode: regular_file_mode(),
                    nlink: 1,
                    uid: 0,
                    gid: 0,
                    rdev: 0,
                    flags: 0,
                    blksize: 4096,
                    padding: 0,
                },
                attr_flags: 0,
                attr_timeout: Timeout { secs: 0, nanos: 0 },
                entry_timeout: Timeout { secs: 0, nanos: 0 },
            },
        )
    }

    /// List a directory from `offset` on. The listing takes no notice of which directory it is.
    pub fn readdir(&self, _inode: u64, _handle: u64, _size: u32, offset: u64) -> (listing: ReadDir)
        ensures
            listing == ReadDir::starting_at(offset),
    {
        if offset != 0 {
            return ReadDir::Done;
        }
        ReadDir::Dot
    }

    /// Read at most `size` bytes at `offset`. Every inode holds what `hello` holds.
    ///
    /// An offset beyond the end of the file is left out.
    pub fn read(
        &self,
        _inode: u64,
        _handle: u64,
        size: u32,
        offset: u64,
        _lock_owner: Option<u64>,
        _flags: u32,
    ) -> (data: Result<Vec<u8>, std::io::Error>)
        requires
            offset <= content().len(),
        ensures
            data matches Ok(bytes) && bytes@ == read_at(offset as nat, size as nat),
            data matches Ok(bytes) && {
                &&& bytes@.len() <= size
                &&& offset + bytes@.len() <= content().len()
                &&& bytes@.len() == size || offset + bytes@.len() == content().len()
                &&& forall|i: int|
                    0 <= i < bytes@.len() ==> #[trigger] bytes@[i] == content()[offset + i]
            },
    {
        let offset = offset as usize;
        let content = content_bytes();
        let can_read_size = content.len() - offset;
        let read_size = if can_read_size < size as usize {
            can_read_size
        } else {
            size as usize
        };
        let read_end = offset + read_size;
        let mut buf: Vec<u8> = Vec::with_capacity(read_size);
        buf.extend_from_slice(&content[offset..read_end]);
        proof {
            assert(buf@ =~= content@.subrange(offset as int, read_end as int));
        }
        Ok(buf)
    }

    /// The driver is done with the file system: the session ends.
    pub fn destroy(&mut self)
        ensures
            final(self).fuse_session_end,
    {
        self.fuse_session_end = true;
    }

    /// The status of an inode, at the time `now`, in seconds since the Unix epoch, and how long
    /// it stays valid.
    pub fn getattr(&self, inode: u64, _handle: Option<u64>, now: u64) -> (attr: Result<
        (Stat, Timeout),
        std::io::Error,
    >)
        ensures
            attr == Ok::<(Stat, Timeout), std::io::Error>(
                (inode_stat(inode, now), Timeout { secs: 1, nanos: 0 }),
            ),
            now <= i64::MAX ==> (attr matches Ok((stat, _)) && {
                &&& stat.st_atime == now
                &&& stat.st_mtime == now
                &&& stat.st_ctime == now
            }),
    {
        let time = now as i64;
        if inode == 1 {
            return Ok(
                (
                    Stat {
                        st_dev: 0,
                        st_mode: directory_mode() as u16,
                        st_nlink: 1,
                        st_ino: 1,
                        st_uid: 0,
                        st_gid: 0,
                        st_rdev: 0,
                        st_atime: time,
                        st_atime_nsec: 0,
                        st_mtime: time,
                        st_mtime_nsec: 0,
                        st_ctime: time,
                        st_ctime_nsec: 0,
                        st_birthtime: 0,
                        st_birthtime_nsec: 0,
                        st_size: 0,
                        st_blocks: 0,
                        st_blksize: 4096,
                        st_flags: 0,
                        st_gen: 0,
                        st_lspare: 0,
                        st_qspare: [0, 0],
                    },
                    Timeout { secs: 1, nanos: 0 },
                ),
            );
        } else {
            let content = content_bytes();
            return Ok(
                (
                    Stat {
                        st_dev: 0,
                        st_mode: regular_file_mode() as u16,
                        st_nlink: 1,
                        st_ino: 1,
                        st_uid: 0,
                        st_gid: 0,
                        st_rdev: 0,
                        st_atime: time,
                        st_atime_nsec: 0,
                        st_mtime: time,
                        st_mtime_nsec: 0,
                        st_ctime: time,
                        st_ctime_nsec: 0,
                        st_birthtime: 0,
                        st_birthtime_nsec: 0,
                        st_size: content.len() as i64,
                        st_blocks: 1,
                        st_blksize: 4096,
                        st_flags: 0,
                        st_gen: 0,
                        st_lspare: 0,
                        st_qspare: [0, 0],
                    },
                    Timeout { secs: 1, nanos: 0 },
                ),
            );
        }
    }

    /// Whether an inode may be accessed in the ways of `mask`: it always may.
    pub fn access(&self, _inode: u64, _mask: u32) -> (allowed: Result<(), std::io::Error>)
        ensures
            allowed == Ok::<(), std::io::Error>(()),
    {
        return Ok(());
    }

    /// The entry of the root directory, and the largest inode number in use, given as zero.
    pub fn mount(&self) -> (root: Result<(Entry, u64), std::io::Error>)
        ensures
            root == Ok::<(Entry, u64), std::io::Error>((root_entry(), 0)),
    {
        Ok(
            (
                Entry {
                    inode: 1,
                    generation: 0,
                    attr: Attr::default(),
                    attr_flags: 0,
                    attr_timeout: Timeout { secs: 0, nanos: 0 },
                    entry_timeout: Timeout { secs: 0, nanos: 0 },
                },
                0,
            ),
        )
    }
}

/// The answer to a read of `bytes`, of which `written` is what writing them to the reply gave: the
/// number of bytes read, whether or not they were written.
pub fn read_reply<E>(bytes: &[u8], _written: Result<usize, E>) -> (count: Result<
    usize,
    std::io::Error,
>)
    ensures
        count matches Ok(read_size) && read_size == bytes@.len(),
{
    Ok(bytes.len())
}

/// A file read piece by piece, each piece where the one before it ended, is read as a whole.
pub proof fn law_reads_join(offset: nat, first: nat, second: nat)
    requires
        offset <= content().len(),
    ensures
        offset + read_at(offset, first).len() <= content().len(),
        read_at(offset, first) + read_at(offset + read_at(offset, first).len(), second) == read_at(
            offset,
            first + second,
        ),
{
    assert(read_at(offset, first) + read_at(offset + read_at(offset, first).len(), second)
        =~= read_at(offset, first + second));
}

/// A read gives fewer bytes than it was asked for only at the end of the file, and there it gives
/// all that is left.
pub proof fn law_short_read_ends_file(offset: nat, size: nat)
    requires
        offset <= content().len(),
    ensures
        read_at(offset, size).len() <= size,
        read_at(offset, size).len() < size ==> offset + read_at(offset, size).len()
            == content().len(),
{
}

/// The size that `lookup` and `getattr` report is the number of bytes that a reader finds: a read
/// of that size from the start gives the whole file, and a read from there on gives nothing.
pub proof fn law_reported_size_is_read(inode: u64, now: u64, size: nat)
    requires
        inode != 1,
    ensures
        hello_entry(now).attr.size == content().len(),
        inode_stat(inode, now).st_size == content().len(),
        read_at(0, hello_entry(now).attr.size as nat) == content(),
        read_at(hello_entry(now).attr.size as nat, size).len() == 0,
{
    assert(read_at(0, content().len()) =~= content());
}

/// `lookup` and `getattr` agree on the file behind a name: on its type, its permissions, its
/// sizes, its links, its owner, its flags and, up to the last time that `getattr` can tell, its
/// times. They do not agree on its inode number and on when it was created.
pub proof fn law_lookup_agrees_with_getattr(now: u64)
    ensures
        hello_entry(now).inode != root_entry().inode,
        hello_entry(now).attr.mode == inode_stat(hello_entry(now).inode, now).st_mode,
        hello_entry(now).attr.size == inode_stat(hello_entry(now).inode, now).st_size,
        hello_entry(now).attr.blocks == inode_stat(hello_entry(now).inode, now).st_blocks,
        hello_entry(now).attr.nlink == inode_stat(hello_entry(now).inode, now).st_nlink,
        hello_entry(now).attr.uid == inode_stat(hello_entry(now).inode, now).st_uid,
        hello_entry(now).attr.gid == inode_stat(hello_entry(now).inode, now).st_gid,
        hello_entry(now).attr.rdev == inode_stat(hello_entry(now).inode, now).st_rdev,
        hello_entry(now).attr.flags == inode_stat(hello_entry(now).inode, now).st_flags,
        hello_entry(now).attr.blksize == inode_stat(hello_entry(now).inode, now).st_blksize,
        now <= i64::MAX ==> {
            &&& hello_entry(now).attr.atime == inode_stat(hello_entry(now).inode, now).st_atime
            &&& hello_entry(now).attr.mtime == inode_stat(hello_entry(now).inode, now).st_mtime
            &&& hello_entry(now).attr.ctime == inode_stat(hello_entry(now).inode, now).st_ctime
        },
{
}

/// A listing from the start hands out three entries, whatever room they take: the directory, its
/// parent and the file. Each carries as its offset the bytes that those before it took.
pub proof fn law_listing<E>(first: usize, second: usize, third: Result<usize, E>)
    requires
        first + second <= usize::MAX,
    ensures
        ({
            let dot = ReadDir::starting_at(0);
            let dot_dot = dot.after(Ok::<usize, E>(first));
            let hello = dot_dot.after(Ok::<usize, E>(second));
            let done = hello.after(third);
            &&& dot.can_go_on(Ok::<usize, E>(first))
            &&& dot_dot.can_go_on(Ok::<usize, E>(second))
            &&& hello.can_go_on(third)
            &&& dot.due() == Some(
                DirEntryView { ino: 1, offset: 0, type_: 4, name: seq![46u8] },
            )
            &&& dot_dot.due() == Some(
                DirEntryView { ino: 1, offset: first as u64, type_: 4, name: seq![46u8, 46u8] },
            )
            &&& hello.due() == Some(
                DirEntryView {
                    ino: 2,
                    offset: (first + second) as u64,
                    type_: 8,
                    name: seq![104u8, 101u8, 108u8, 108u8, 111u8],
                },
            )
            &&& done.due() is None
        }),
{
}

/// A listing that does not start at the start is empty.
pub proof fn law_listing_is_not_resumed(offset: u64)
    requires
        offset != 0,
    ensures
        ReadDir::starting_at(offset).due() is None,
{
}

/// The inodes of a listing are those of the entries: the first two are the root, which has the
/// status of a directory, and the third is what `lookup` finds, a regular file.
pub proof fn law_listing_agrees_with_entries(offset: usize, now: u64)
    ensures
        ReadDir::Dot.due() matches Some(entry) && entry.ino == root_entry().inode,
        (ReadDir::DotDot { offset }).due() matches Some(entry) && entry.ino == root_entry().inode,
        (ReadDir::Hello { offset }).due() matches Some(entry) && entry.ino == hello_entry(
            now,
        ).inode,
        inode_stat(root_entry().inode, now).st_mode == 0o4_0555,
        inode_stat(hello_entry(now).inode, now).st_mode == 0o10_0555,
{
}

/// The file holds the text `hello, fuse`, of eleven bytes.
pub proof fn law_content_is_the_text()
    ensures
        content() == encode_utf8("hello, fuse"@),
        content().len() == 11,
{
    let text = "hello, fuse";
    reveal_strlit("hello, fuse");
    assert(text@ =~= seq!['h', 'e', 'l', 'l', 'o', ',', ' ', 'f', 'u', 's', 'e']);
    assert(text.is_ascii());
    assert(text.spec_bytes() =~= content());
}

/// A read gives the bytes that the file holds from the offset on, each in its place: as many as
/// were asked for, or all that are left.
pub proof fn law_read_gives_the_bytes_there(offset: nat, size: nat)
    requires
        offset <= content().len(),
    ensures
        read_at(offset, size).len() <= size,
        offset + read_at(offset, size).len() <= content().len(),
        read_at(offset, size).len() == size || offset + read_at(offset, size).len()
            == content().len(),
        forall|i: int|
            0 <= i < read_at(offset, size).len() ==> #[trigger] read_at(offset, size)[i]
                == content()[offset + i],
{
}

/// Every time that `lookup` and `getattr` report is the time of the call: `lookup` at any time,
/// and `getattr` as far as a signed number of seconds goes, from where it wraps around. The time
/// of creation is not among those that `getattr` reports.
pub proof fn law_times_are_the_time_of_the_call(inode: u64, now: u64)
    ensures
        hello_entry(now).attr.atime == now,
        hello_entry(now).attr.mtime == now,
        hello_entry(now).attr.ctime == now,
        hello_entry(now).attr.crtime == now,
        now <= i64::MAX ==> {
            &&& inode_stat(inode, now).st_atime == now
            &&& inode_stat(inode, now).st_mtime == now
            &&& inode_stat(inode, now).st_ctime == now
        },
        now > i64::MAX ==> {
            &&& inode_stat(inode, now).st_atime == now - 0x1_0000_0000_0000_0000
            &&& inode_stat(inode, now).st_mtime == now - 0x1_0000_0000_0000_0000
            &&& inode_stat(inode, now).st_ctime == now - 0x1_0000_0000_0000_0000
        },
        inode_stat(inode, now).st_birthtime == 0,
{
    assert(now > 0x7fff_ffff_ffff_ffff ==> now as i64 == now - 0x1_0000_0000_0000_0000)
        by (bit_vector);
}

/// No time that is reported has a fraction of a second.
pub proof fn law_times_are_whole_seconds(inode: u64, now: u64)
    ensures
        hello_entry(now).attr.atimensec == 0,
        hello_entry(now).attr.mtimensec == 0,
        hello_entry(now).attr.ctimensec == 0,
        hello_entry(now).attr.crtimensec == 0,
        inode_stat(inode, now).st_atime_nsec == 0,
        inode_stat(inode, now).st_mtime_nsec == 0,
        inode_stat(inode, now).st_ctime_nsec == 0,
        inode_stat(inode, now).st_birthtime_nsec == 0,
{
}

/// Inode 1 is a directory and every other inode is a regular file. Everybody may read and execute
/// either, and nobody may write it.
pub proof fn law_types_and_permissions(inode: u64, now: u64)
    ensures
        inode_stat(inode, now).st_mode / 0o1_0000 == (if inode == 1 {
            4u16
        } else {
            8u16
        }),
        (inode_stat(inode, now).st_mode / 0o1000) % 8 == 0,
        (inode_stat(inode, now).st_mode / 0o100) % 8 == 5,
        (inode_stat(inode, now).st_mode / 0o10) % 8 == 5,
        inode_stat(inode, now).st_mode % 8 == 5,
        hello_entry(now).attr.mode / 0o1_0000 == 8,
        (hello_entry(now).attr.mode / 0o1000) % 8 == 0,
        (hello_entry(now).attr.mode / 0o100) % 8 == 5,
        (hello_entry(now).attr.mode / 0o10) % 8 == 5,
        hello_entry(now).attr.mode % 8 == 5,
{
}

/// What `lookup` finds is inode 2, with the size of the content, one block of 4096 bytes and one
/// link, owned by the superuser. It is not to be kept.
pub proof fn law_lookup_finds_the_file(now: u64)
    ensures
        hello_entry(now).inode == 2,
        hello_entry(now).attr.ino == hello_entry(now).inode,
        hello_entry(now).generation == 0,
        hello_entry(now).attr.size == content().len(),
        hello_entry(now).attr.blocks == 1,
        hello_entry(now).attr.blksize == 4096,
        hello_entry(now).attr.nlink == 1,
        hello_entry(now).attr.uid == 0,
        hello_entry(now).attr.gid == 0,
        hello_entry(now).attr.rdev == 0,
        hello_entry(now).attr.flags == 0,
        hello_entry(now).attr.padding == 0,
        hello_entry(now).attr_flags == 0,
        hello_entry(now).attr_timeout.secs == 0,
        hello_entry(now).attr_timeout.nanos == 0,
        hello_entry(now).entry_timeout.secs == 0,
        hello_entry(now).entry_timeout.nanos == 0,
{
}

/// What `getattr` reports of an inode: the root takes no room, every other inode the room of the
/// content, which is one block. The rest is the same for all, and those other than the root cannot
/// be told apart.
pub proof fn law_getattr_tells_the_root_apart(inode: u64, other: u64, now: u64)
    ensures
        inode_stat(inode, now).st_size == (if inode == 1 {
            0
        } else {
            content().len() as int
        }),
        inode_stat(inode, now).st_blocks == (if inode == 1 {
            0int
        } else {
            1int
        }),
        inode_stat(inode, now).st_ino == 1,
        inode_stat(inode, now).st_nlink == 1,
        inode_stat(inode, now).st_blksize == 4096,
        inode_stat(inode, now).st_dev == 0,
        inode_stat(inode, now).st_uid == 0,
        inode_stat(inode, now).st_gid == 0,
        inode_stat(inode, now).st_rdev == 0,
        inode_stat(inode, now).st_flags == 0,
        inode_stat(inode, now).st_gen == 0,
        inode_stat(inode, now).st_lspare == 0,
        inode_stat(inode, now).st_qspare@ == seq![0i64, 0i64],
        inode != 1 && other != 1 ==> inode_stat(inode, now) == inode_stat(other, now),
{
    assert(inode_stat(inode, now).st_qspare@ =~= seq![0i64, 0i64]);
}

/// The root is inode 1. Nothing is told of its attributes, and it is not to be kept.
pub proof fn law_root_is_inode_one()
    ensures
        root_entry().inode == 1,
        root_entry().generation == 0,
        root_entry().attr == Attr::zero(),
        root_entry().attr_flags == 0,
        root_entry().attr_timeout.secs == 0,
        root_entry().attr_timeout.nanos == 0,
        root_entry().entry_timeout.secs == 0,
        root_entry().entry_timeout.nanos == 0,
{
}

/// A listing goes on exactly where the first two entries were added and the offset stays in range,
/// and it never goes on past its end.
pub proof fn law_listing_goes_on<E>(offset: usize, added: Result<usize, E>)
    ensures
        ReadDir::Dot.can_go_on(added) <==> added is Ok,
        (ReadDir::DotDot { offset }).can_go_on(added) <==> added is Ok && offset + added->Ok_0
            <= usize::MAX,
        (ReadDir::Hello { offset }).can_go_on(added),
        !ReadDir::Done.can_go_on(added),
        ReadDir::Done.due() is None,
{
}

} // verus!
