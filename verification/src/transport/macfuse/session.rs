//! Sessions, each of which connects one mountpoint with a server.
use crate::transport::macfuse::channel::{fresh_channel, FuseChannel};
use crate::transport::macfuse::kern::{
    create_disk, fuse_kern_mount, fuse_kern_mount_call, fuse_kern_umount, is_mountable, to_str,
    Connection, KernMount, VolumePath,
};
use crate::transport::Error;
use vstd::prelude::*;
use vstd::string::*;
use vstd::utf8::valid_utf8;

verus! {

/// The largest message that the driver sends, in pages.
pub const FUSE_KERN_BUF_SIZE: usize = 256;

/// The room in a buffer for the header of a message.
pub const FUSE_HEADER_SIZE: usize = 0x1000;

/// Where a mountpoint leads to, once every link has been followed.
#[derive(Debug)]
pub struct Destination {
    /// The bytes of the path.
    pub path: Vec<u8>,
    /// The path as it is shown in a message.
    pub shown: String,
    /// Whether the path leads to a directory.
    pub is_dir: bool,
}

/// What came of a step of mounting.
#[derive(Debug)]
pub enum MountEvent<F, D> {
    /// The session is to be mounted.
    Start,
    /// The mount call returned this descriptor.
    KernMounted(i32),
    /// The FUSE device behind the descriptor is open, and the disk has been found.
    DiskCreated {
        /// The open FUSE device.
        file: F,
        /// The disk of the mounted file system.
        disk: D,
    },
}

/// What to do to mount a session.
#[derive(Debug)]
pub enum MountAction {
    /// Make the mount call.
    KernMount(KernMount),
    /// Open the FUSE device behind the descriptor, and find the disk at the path.
    CreateDisk {
        /// The descriptor of the FUSE device.
        fd: i32,
        /// The path of the disk.
        path: VolumePath,
    },
    /// Stop, with this result.
    Return(Result<(), Error>),
}

/// What came of a step of unmounting.
#[derive(Debug)]
pub enum UmountEvent<F, D, E> {
    /// The session is to be unmounted.
    Start,
    /// The driver has been told that the daemon is dead, or could not be told.
    SetDead {
        /// The connection.
        connection: Connection<F, D>,
        /// What telling it gave.
        set_dead: Result<(), E>,
    },
    /// The disk has been unmounted and released.
    DiskUnmounted,
}

/// What to do to unmount a session.
#[derive(Debug)]
pub enum UmountAction<F, D> {
    /// Tell the driver at the other end of the connection that the daemon is dead.
    SetDead(Connection<F, D>),
    /// Unmount the disk by force, and release it.
    UnmountDisk(D),
    /// Stop, with this result.
    Return(Result<(), Error>),
}

impl<F, D> UmountAction<F, D> {
    /// Whether the session is left with success.
    pub open spec fn succeeds(self) -> bool {
        self matches UmountAction::Return(result) && result is Ok
    }

    /// Whether the session is left with an error that is explained by `message`.
    pub open spec fn fails(self, message: Seq<char>) -> bool {
        self matches UmountAction::Return(result) && result matches Err(e) && e.says(message)
    }
}

/// A fuse session manager to manage the connection with the in kernel fuse driver.
///
/// `F` is the type of the open FUSE device, and `D` that of the disk of a mounted file system.
#[derive(Debug)]
pub struct FuseSession<F, D> {
    mountpoint: Vec<u8>,
    fsname: String,
    subtype: String,
    file: Option<F>,
    bufsize: usize,
    disk: Option<D>,
}

/// What a session is made of.
#[verifier::ext_equal]
pub struct FuseSessionView<F, D> {
    /// The bytes of the path of the mountpoint.
    pub mountpoint: Seq<u8>,
    pub fsname: Seq<char>,
    pub subtype: Seq<char>,
    /// The open FUSE device, while the session is mounted.
    pub file: Option<F>,
    pub bufsize: nat,
    /// The disk of the file system, while it is mounted.
    pub disk: Option<D>,
}

impl<F, D> View for FuseSession<F, D> {
    type V = FuseSessionView<F, D>;

    closed spec fn view(&self) -> FuseSessionView<F, D> {
        FuseSessionView {
            mountpoint: self.mountpoint@,
            fsname: self.fsname@,
            subtype: self.subtype@,
            file: self.file,
            bufsize: self.bufsize as nat,
            disk: self.disk,
        }
    }
}

/// The size of the buffers of a session on a machine with pages of `page_size` bytes.
pub open spec fn bufsize_for(page_size: nat) -> nat {
    FUSE_KERN_BUF_SIZE as nat * page_size + FUSE_HEADER_SIZE as nat
}

impl<F, D> FuseSessionView<F, D> {
    /// A session as it is made.
    pub open spec fn fresh(
        mountpoint: Seq<u8>,
        fsname: Seq<char>,
        subtype: Seq<char>,
        page_size: nat,
    ) -> Self {
        FuseSessionView {
            mountpoint,
            fsname,
            subtype,
            file: None,
            bufsize: bufsize_for(page_size),
            disk: None,
        }
    }

    /// The session once the driver is connected through `file`, and the file system is on `disk`.
    pub open spec fn mounted(self, file: F, disk: D) -> Self {
        FuseSessionView { file: Some(file), disk: Some(disk), ..self }
    }

    /// The session with another open FUSE device.
    pub open spec fn with_file(self, file: F) -> Self {
        FuseSessionView { file: Some(file), ..self }
    }

    /// The session once it has been unmounted. The open device is always given up; the disk is
    /// kept where the path of the mountpoint is not text.
    pub open spec fn umounted(self) -> Self {
        if self.file is None {
            self
        } else if valid_utf8(self.mountpoint) {
            FuseSessionView { file: None, disk: None, ..self }
        } else {
            FuseSessionView { file: None, ..self }
        }
    }

    /// The connection that is left to be closed when the session is unmounted.
    pub open spec fn connection(self) -> Option<Connection<F, D>> {
        match self.file {
            Some(file) => Some(Connection { file, disk: self.disk }),
            None => None,
        }
    }

    /// Whether unmounting the session fails: it is mounted, and its mountpoint is not text.
    pub open spec fn umount_fails(self) -> bool {
        self.file is Some && !valid_utf8(self.mountpoint)
    }

    /// Whether the two sessions have the same mountpoint, names and buffer size.
    pub open spec fn same_identity(self, other: Self) -> bool {
        &&& self.mountpoint == other.mountpoint
        &&& self.fsname == other.fsname
        &&& self.subtype == other.subtype
        &&& self.bufsize == other.bufsize
    }
}

impl<F, D> FuseSession<F, D> {
    /// Create a new fuse session, without mounting/connecting to the in kernel fuse driver.
    ///
    /// `mountpoint` is the mountpoint as it is shown in a message, `dest` is where it leads to,
    /// if it leads anywhere, and `page_size` is the size of a page of memory.
    pub fn new(
        mountpoint: &str,
        dest: Option<Destination>,
        fsname: &str,
        subtype: &str,
        page_size: usize,
    ) -> (session: Result<FuseSession<F, D>, Error>)
        requires
            dest matches Some(found) && found.is_dir ==> bufsize_for(page_size as nat)
                <= usize::MAX,
        ensures
            match dest {
                None => session matches Err(e) && e.says("invalid mountpoint "@ + mountpoint@),
                Some(found) => if found.is_dir {
                    &&& session matches Ok(made)
                    &&& made@ == FuseSessionView::<F, D>::fresh(
                        found.path@,
                        fsname@,
                        subtype@,
                        page_size as nat,
                    )
                    &&& made@.mountpoint == found.path@
                    &&& made@.fsname == fsname@
                    &&& made@.subtype == subtype@
                    &&& made@.file is None
                    &&& made@.disk is None
                    &&& made@.bufsize == 256 * page_size + 0x1000
                } else {
                    session matches Err(e) && e.says(found.shown@ + " is not a directory"@)
                },
            },
    {
        let dest = match dest {
            Some(found) => found,
            None => {
                let mut message: String = "invalid mountpoint ".to_owned();
                message.append(mountpoint);
                return Err(Error::SessionFailure(message));
            },
        };
        if !dest.is_dir {
            let mut message: String = dest.shown;
            message.append(" is not a directory");
            return Err(Error::SessionFailure(message));
        }
        Ok(
            FuseSession {
                mountpoint: dest.path,
                fsname: fsname.to_owned(),
                subtype: subtype.to_owned(),
                file: None,
                bufsize: FUSE_KERN_BUF_SIZE * page_size + FUSE_HEADER_SIZE,
                disk: None,
            },
        )
    }

    /// Mount the fuse mountpoint, building connection with the in kernel fuse driver: what to do
    /// after `event`. The session is connected once the driver has accepted the mountpoint and
    /// the disk has been found; until then it stays as it was.
    pub fn mount(&mut self, event: MountEvent<F, D>) -> (action: MountAction)
        requires
            is_mountable(old(self)@.mountpoint),
        ensures
            match event {
                MountEvent::Start => {
                    &&& final(self)@ == old(self)@
                    &&& action matches MountAction::KernMount(call)
                    &&& call.is_for(old(self)@.mountpoint)
                    &&& call.mountpoint@.drop_last() == old(self)@.mountpoint
                    &&& call.args.argv@.len() == 1
                    &&& call.args.argv@[0]@.drop_last() == old(self)@.mountpoint
                },
                MountEvent::KernMounted(fd) => {
                    &&& final(self)@ == old(self)@
                    &&& if fd < 0 {
                        &&& action matches MountAction::Return(result)
                        &&& result matches Err(e)
                        &&& e.says("failed to mount"@)
                    } else {
                        &&& action matches MountAction::CreateDisk { fd: device, path }
                        &&& device == fd
                        &&& path.is_for(old(self)@.mountpoint)
                        &&& path.bytes@.drop_last() == old(self)@.mountpoint
                    }
                },
                MountEvent::DiskCreated { file, disk } => {
                    &&& final(self)@ == old(self)@.mounted(file, disk)
                    &&& final(self)@.file == Some(file)
                    &&& final(self)@.disk == Some(disk)
                    &&& action matches MountAction::Return(result)
                    &&& result is Ok
                },
            },
    {
        match event {
            MountEvent::Start => MountAction::KernMount(
                fuse_kern_mount_call(self.mountpoint.as_slice()),
            ),
            MountEvent::KernMounted(fd) => match fuse_kern_mount(fd) {
                Ok(device) => MountAction::CreateDisk {
                    fd: device,
                    path: create_disk(self.mountpoint.as_slice()),
                },
                Err(e) => MountAction::Return(Err(e)),
            },
            MountEvent::DiskCreated { file, disk } => {
                self.file = Some(file);
                self.disk = Some(disk);
                MountAction::Return(Ok(()))
            },
        }
    }

    /// Expose the associated FUSE session file.
    pub fn get_fuse_file(&mut self) -> (file: Option<&F>)
        ensures
            match file {
                Some(found) => old(self)@.file == Some(*found),
                None => old(self)@.file is None,
            },
            final(self)@ == old(self)@,
    {
        self.file.as_ref()
    }

    /// Force setting the associated FUSE session file.
    pub fn set_fuse_file(&mut self, file: F)
        ensures
            final(self)@ == old(self)@.with_file(file),
            final(self)@ == (FuseSessionView { file: Some(file), ..old(self)@ }),
    {
        self.file = Some(file);
    }

    /// Destroy a fuse session: what to do after `event`. The session gives its connection up at
    /// once. The driver is then told that the daemon is dead, and only if that succeeds the disk
    /// is unmounted. Where the session is not mounted there is nothing to do.
    pub fn umount<E>(&mut self, event: UmountEvent<F, D, E>) -> (action: UmountAction<F, D>)
        ensures
            match event {
                UmountEvent::Start => {
                    &&& final(self)@ == old(self)@.umounted()
                    &&& if old(self)@.umount_fails() {
                        action.fails("invalid mountpoint"@)
                    } else {
                        match old(self)@.connection() {
                            Some(connection) => action == UmountAction::SetDead(connection),
                            None => action.succeeds(),
                        }
                    }
                },
                UmountEvent::SetDead { connection, set_dead } => {
                    &&& final(self)@ == old(self)@
                    &&& if set_dead is Err {
                        action.fails("ioctl set fuse deamon dead failed"@)
                    } else {
                        match connection.disk {
                            Some(disk) => action == UmountAction::<F, D>::UnmountDisk(disk),
                            None => action.succeeds(),
                        }
                    }
                },
                UmountEvent::DiskUnmounted => final(self)@ == old(self)@ && action.succeeds(),
            },
            event is Start ==> {
                &&& final(self)@.file is None
                &&& action is SetDead <==> old(self)@.file is Some && valid_utf8(
                    old(self)@.mountpoint,
                )
                &&& action matches UmountAction::SetDead(connection) ==> {
                    &&& old(self)@.file == Some(connection.file)
                    &&& old(self)@.disk == connection.disk
                    &&& final(self)@.disk is None
                }
                &&& !(action is SetDead) ==> {
                    &&& action matches UmountAction::Return(result)
                    &&& result is Ok <==> old(self)@.file is None
                    &&& final(self)@.disk == old(self)@.disk
                }
            },
            event matches UmountEvent::SetDead { connection, set_dead } ==> {
                &&& action is UnmountDisk <==> set_dead is Ok && connection.disk is Some
                &&& action matches UmountAction::UnmountDisk(disk) ==> connection.disk == Some(disk)
                &&& !(action is UnmountDisk) ==> {
                    &&& action matches UmountAction::Return(result)
                    &&& result is Ok <==> set_dead is Ok
                }
            },
            event is DiskUnmounted ==> {
                &&& action matches UmountAction::Return(result)
                &&& result is Ok
            },
    {
        match event {
            UmountEvent::Start => if let Some(file) = self.file.take() {
                if let Some(_mountpoint) = to_str(self.mountpoint.as_slice()) {
                    UmountAction::SetDead(Connection { file, disk: self.disk.take() })
                } else {
                    UmountAction::Return(
                        Err(Error::SessionFailure("invalid mountpoint".to_owned())),
                    )
                }
            } else {
                UmountAction::Return(Ok(()))
            },
            UmountEvent::SetDead { connection, set_dead } => match fuse_kern_umount(
                connection,
                set_dead,
            ) {
                Ok(Some(disk)) => UmountAction::UnmountDisk(disk),
                Ok(None) => UmountAction::Return(Ok(())),
                Err(e) => UmountAction::Return(Err(e)),
            },
            UmountEvent::DiskUnmounted => UmountAction::Return(Ok(())),
        }
    }

    /// Get the mountpoint of the session.
    pub fn mountpoint(&self) -> (path: &[u8])
        ensures
            path@ == self@.mountpoint,
    {
        self.mountpoint.as_slice()
    }

    /// Get the file system name of the session.
    pub fn fsname(&self) -> (name: &str)
        ensures
            name@ == self@.fsname,
    {
        self.fsname.as_str()
    }

    /// Get the subtype of the session.
    pub fn subtype(&self) -> (name: &str)
        ensures
            name@ == self@.subtype,
    {
        self.subtype.as_str()
    }

    /// Get the default buffer size of the session.
    pub fn bufsize(&self) -> (size: usize)
        ensures
            size == self@.bufsize,
    {
        self.bufsize
    }

    /// Create a new fuse message channel. `duplicate` is a duplicate of the session's file, or
    /// why there is none; where the session has no file it does not matter.
    pub fn new_channel(&self, duplicate: Result<F, String>, fuse_session_end: i32) -> (channel:
        Result<FuseChannel<F>, Error>)
        ensures
            match (self@.file, duplicate) {
                (Some(_), Ok(file)) => {
                    &&& channel matches Ok(made)
                    &&& made@ == fresh_channel(file, fuse_session_end, self@.bufsize)
                    &&& made@.file == file
                    &&& made@.pipe_fd == fuse_session_end
                    &&& made@.buf.len() == self@.bufsize
                },
                (Some(_), Err(reason)) => channel matches Err(e) && e.says("dup fd: "@ + reason@),
                (None, _) => channel matches Err(e) && e.says("invalid fuse session"@),
            },
    {
        if let Some(_file) = &self.file {
            match duplicate {
                Ok(file) => FuseChannel::new(file, fuse_session_end, self.bufsize),
                Err(reason) => {
                    let mut message: String = "dup fd: ".to_owned();
                    message.append(reason.as_str());
                    Err(Error::SessionFailure(message))
                },
            }
        } else {
            Err(Error::SessionFailure("invalid fuse session".to_owned()))
        }
    }
}

/// Unmounting gives back what mounting took, and leaves the session without a connection: a
/// session that had none is what it was before.
pub proof fn law_umount_undoes_mount<F, D>(session: FuseSessionView<F, D>, file: F, disk: D)
    requires
        valid_utf8(session.mountpoint),
    ensures
        !session.mounted(file, disk).umount_fails(),
        session.mounted(file, disk).connection() == Some(Connection { file, disk: Some(disk) }),
        session.mounted(file, disk).umounted() == (FuseSessionView {
            file: None,
            disk: None,
            ..session
        }),
        session.file is None && session.disk is None ==> session.mounted(file, disk).umounted()
            == session,
{
}

/// Unmounting a second time succeeds and does nothing, whatever the first time came to.
pub proof fn law_second_umount_does_nothing<F, D>(session: FuseSessionView<F, D>)
    ensures
        session.umounted().umounted() == session.umounted(),
        session.umounted().connection() is None,
        !session.umounted().umount_fails(),
{
}

/// A session has the file that its channels need from when it is mounted, or the file is set, to
/// when it is unmounted: a session that is fresh or unmounted has none.
pub proof fn law_file_only_while_mounted<F, D>(
    session: FuseSessionView<F, D>,
    page_size: nat,
    file: F,
    disk: D,
)
    ensures
        FuseSessionView::<F, D>::fresh(
            session.mountpoint,
            session.fsname,
            session.subtype,
            page_size,
        ).file is None,
        session.mounted(file, disk).file == Some(file),
        session.with_file(file).file == Some(file),
        session.umounted().file is None,
{
}

/// A session keeps its mountpoint, its names and its buffer size for life.
pub proof fn law_identity_is_kept<F, D>(session: FuseSessionView<F, D>, file: F, disk: D)
    ensures
        session.mounted(file, disk).same_identity(session),
        session.with_file(file).same_identity(session),
        session.umounted().same_identity(session),
        session.mounted(file, disk).mountpoint == session.mountpoint,
        session.mounted(file, disk).fsname == session.fsname,
        session.mounted(file, disk).subtype == session.subtype,
        session.mounted(file, disk).bufsize == session.bufsize,
        session.with_file(file).mountpoint == session.mountpoint,
        session.with_file(file).fsname == session.fsname,
        session.with_file(file).subtype == session.subtype,
        session.with_file(file).bufsize == session.bufsize,
        session.with_file(file).disk == session.disk,
        session.umounted().mountpoint == session.mountpoint,
        session.umounted().fsname == session.fsname,
        session.umounted().subtype == session.subtype,
        session.umounted().bufsize == session.bufsize,
{
}

/// A new session has the mountpoint and the names that it was given and no connection. Its buffers
/// hold 256 pages and a header of 4096 bytes: a page that is a byte larger takes 256 bytes more.
pub proof fn law_session_is_made_as_asked<F, D>(
    mountpoint: Seq<u8>,
    fsname: Seq<char>,
    subtype: Seq<char>,
    page_size: nat,
)
    ensures
        FuseSessionView::<F, D>::fresh(mountpoint, fsname, subtype, page_size).mountpoint
            == mountpoint,
        FuseSessionView::<F, D>::fresh(mountpoint, fsname, subtype, page_size).fsname == fsname,
        FuseSessionView::<F, D>::fresh(mountpoint, fsname, subtype, page_size).subtype == subtype,
        FuseSessionView::<F, D>::fresh(mountpoint, fsname, subtype, page_size).file is None,
        FuseSessionView::<F, D>::fresh(mountpoint, fsname, subtype, page_size).disk is None,
        FuseSessionView::<F, D>::fresh(mountpoint, fsname, subtype, page_size).bufsize == 256
            * page_size + 4096,
        bufsize_for(page_size + 1) == bufsize_for(page_size) + 256,
{
}

/// Mounting connects the session through the file and the disk that were found.
pub proof fn law_mount_connects<F, D>(session: FuseSessionView<F, D>, file: F, disk: D)
    ensures
        session.mounted(file, disk).file == Some(file),
        session.mounted(file, disk).disk == Some(disk),
        session.mounted(file, disk).connection() == Some(Connection { file, disk: Some(disk) }),
{
}

/// Unmounting fails exactly where there is a file and the mountpoint is not text, and then the disk
/// is kept. Otherwise what is left to be closed is the file and the disk that the session had, and
/// it keeps neither.
pub proof fn law_umount_gives_up_what_there_is<F, D>(session: FuseSessionView<F, D>)
    ensures
        session.umount_fails() <==> session.file is Some && !valid_utf8(session.mountpoint),
        session.umount_fails() ==> session.umounted().disk == session.disk,
        session.file is None ==> session.umounted() == session,
        session.file is Some && !session.umount_fails() ==> session.umounted().disk is None,
        session.umounted().file is None,
        session.connection() is Some <==> session.file is Some,
        session.connection() matches Some(connection) ==> {
            &&& session.file == Some(connection.file)
            &&& session.disk == connection.disk
        },
{
}

/// Unmounting either succeeds, fails or goes on: what stops with success does not fail, and what
/// stops with an error fails with the text of the error, whole.
pub proof fn law_umount_ends_one_way<F, D>(action: UmountAction<F, D>, message: Seq<char>)
    ensures
        action.succeeds() <==> action is Return && action->Return_0 is Ok,
        action.fails(message) <==> action is Return && action->Return_0 is Err
            && action->Return_0->Err_0->SessionFailure_0@ == message,
{
}

} // verus!
