//! What the calls that mount and unmount a file system are given, and what their results mean.
use crate::transport::Error;
use vstd::prelude::*;
use vstd::string::*;
use vstd::utf8::valid_utf8;

verus! {

/// The group of the `ioctl` that tells the driver that the daemon is dead: the letter `F`.
pub const FUSE_FD_DEAD_MAGIC: u8 = 70;

/// The number of that `ioctl` in its group.
pub const FUSE_FD_DEAD: u8 = 3;

/// Whether a path can be handed to the kernel: it is UTF-8 text without a zero byte.
pub open spec fn is_mountable(path: Seq<u8>) -> bool {
    valid_utf8(path) && !path.contains(0u8)
}

/// The bytes as text, by `std::str::from_utf8`: there is text exactly where the bytes are UTF-8,
/// and the bytes are its encoding.
#[verifier::external_body]
pub(crate) fn to_str(bytes: &[u8]) -> (text: Option<&str>)
    ensures
        text is Some <==> valid_utf8(bytes@),
        text matches Some(found) ==> found.spec_bytes() == bytes@,
{
    std::str::from_utf8(bytes).ok()
}

/// Whether a path can be handed to the kernel.
pub fn check_mountable(path: &[u8]) -> (mountable: bool)
    ensures
        mountable == is_mountable(path@),
        mountable <==> valid_utf8(path@) && forall|i: int|
            0 <= i < path@.len() ==> #[trigger] path@[i] != 0u8,
{
    if to_str(path).is_none() {
        return false;
    }
    for i in 0..path.len()
        invariant
            valid_utf8(path@),
            forall|j: int| 0 <= j < i ==> path@[j] != 0u8,
    {
        if path[i] == 0u8 {
            proof {
                assert(path@.contains(0u8));
            }
            return false;
        }
    }
    true
}

/// The bytes as a C string: a zero follows them.
fn c_string(bytes: &[u8]) -> (string: Vec<u8>)
    ensures
        string@ == bytes@.push(0u8),
{
    let mut string: Vec<u8> = Vec::with_capacity(bytes.len());
    string.extend_from_slice(bytes);
    string.push(0u8);
    proof {
        assert(string@ =~= bytes@.push(0u8));
    }
    string
}

/// An argument vector for the mount call.
#[derive(Debug)]
pub struct FuseArgs {
    /// The number of arguments.
    pub argc: i32,
    /// The arguments, as C strings.
    pub argv: Vec<Vec<u8>>,
    /// Whether the callee is to free the vector.
    pub allocated: i32,
}

/// What the mount call is given.
#[derive(Debug)]
pub struct KernMount {
    /// The mountpoint, as a C string.
    pub mountpoint: Vec<u8>,
    /// The arguments.
    pub args: FuseArgs,
}

impl KernMount {
    /// Whether this is what the call for a mountpoint is given: the mountpoint, and as the only
    /// argument the mountpoint again.
    pub open spec fn is_for(self, mountpoint: Seq<u8>) -> bool {
        &&& self.mountpoint@ == mountpoint.push(0u8)
        &&& self.args.argc == 1
        &&& self.args.argv@.len() == 1
        &&& self.args.argv@[0]@ == mountpoint.push(0u8)
        &&& self.args.allocated == 0
    }
}

/// What the mount call for a mountpoint is given.
pub fn fuse_kern_mount_call(mountpoint: &[u8]) -> (call: KernMount)
    requires
        is_mountable(mountpoint@),
    ensures
        call.is_for(mountpoint@),
        call.mountpoint@.len() == mountpoint@.len() + 1,
        call.mountpoint@.drop_last() == mountpoint@,
        call.mountpoint@.last() == 0u8,
        call.args.argc == 1,
        call.args.argv@.len() == 1,
        call.args.argv@[0]@.len() == mountpoint@.len() + 1,
        call.args.argv@[0]@.drop_last() == mountpoint@,
        call.args.argv@[0]@.last() == 0u8,
        call.args.allocated == 0,
{
    let mut argv: Vec<Vec<u8>> = Vec::new();
    argv.push(c_string(mountpoint));
    let args = FuseArgs { argc: argv.len() as i32, argv, allocated: 0 };
    KernMount { mountpoint: c_string(mountpoint), args }
}

/// Mount a fuse file system: what the mount call returned is the descriptor of the FUSE device,
/// unless it is negative.
pub fn fuse_kern_mount(fd: i32) -> (mounted: Result<i32, Error>)
    ensures
        match mounted {
            Ok(device) => fd >= 0 && device == fd,
            Err(e) => fd < 0 && e.says("failed to mount"@),
        },
{
    if fd < 0 {
        return Err(Error::SessionFailure("failed to mount".to_owned()));
    }
    return Ok(fd);
}

/// The path of a volume, as its URL is made from it.
#[derive(Debug)]
pub struct VolumePath {
    /// The path, as a C string.
    pub bytes: Vec<u8>,
    /// How many of the bytes belong to the path.
    pub len: i64,
    /// Whether the bytes may start with a byte order mark.
    pub is_external_representation: bool,
    /// Whether the path is that of a directory.
    pub is_directory: bool,
}

impl VolumePath {
    /// Whether this is the path of the directory `mountpoint`.
    pub open spec fn is_for(self, mountpoint: Seq<u8>) -> bool {
        &&& self.bytes@ == mountpoint.push(0u8)
        &&& self.len == mountpoint.len() as i64
        &&& self.is_external_representation
        &&& self.is_directory
    }
}

/// The path by which the disk of a mounted file system is found.
pub fn create_disk(mountpoint: &[u8]) -> (path: VolumePath)
    requires
        is_mountable(mountpoint@),
    ensures
        path.is_for(mountpoint@),
        path.bytes@.len() == mountpoint@.len() + 1,
        path.bytes@.drop_last() == mountpoint@,
        path.bytes@.last() == 0u8,
        mountpoint@.len() <= i64::MAX ==> path.len == mountpoint@.len(),
        path.is_external_representation,
        path.is_directory,
{
    VolumePath {
        bytes: c_string(mountpoint),
        len: mountpoint.len() as i64,
        is_external_representation: true,
        is_directory: true,
    }
}

/// The connection of a mounted session, to be closed.
#[derive(Debug)]
pub struct Connection<F, D> {
    /// The open FUSE device.
    pub file: F,
    /// The disk of the mounted file system.
    pub disk: Option<D>,
}

/// Umount a fuse file system: once the driver has been told that the daemon is dead, the disk, if
/// there is one, is to be unmounted by force and released. `set_dead` is what telling it gave.
/// The FUSE device is closed either way.
pub fn fuse_kern_umount<F, D, E>(
    connection: Connection<F, D>,
    set_dead: Result<(), E>,
) -> (unmount: Result<Option<D>, Error>)
    ensures
        match unmount {
            Ok(disk) => set_dead is Ok && disk == connection.disk,
            Err(e) => set_dead is Err && e.says("ioctl set fuse deamon dead failed"@),
        },
{
    if let Err(_e) = set_dead {
        return Err(Error::SessionFailure("ioctl set fuse deamon dead failed".to_owned()));
    }
    return Ok(connection.disk);
}

/// The mount call is given the whole path, of any length: its mountpoint and its only argument are
/// the bytes of the path, followed by one zero, and no call is for two paths.
pub proof fn law_mount_call_is_given_the_whole_path(
    call: KernMount,
    mountpoint: Seq<u8>,
    other: Seq<u8>,
)
    requires
        call.is_for(mountpoint),
    ensures
        call.mountpoint@.len() == mountpoint.len() + 1,
        call.mountpoint@.drop_last() == mountpoint,
        call.mountpoint@.last() == 0u8,
        call.args.argc == 1,
        call.args.argv@.len() == 1,
        call.args.argv@[0]@ == call.mountpoint@,
        call.args.allocated == 0,
        call.is_for(other) ==> other == mountpoint,
{
    assert(call.mountpoint@.drop_last() =~= mountpoint);
    if call.is_for(other) {
        assert(call.mountpoint@.drop_last() =~= other);
    }
}

/// The disk is looked for at the whole path of the mountpoint, of any length: its bytes followed by
/// one zero, which is not counted. No path of a disk is for two mountpoints.
pub proof fn law_disk_is_at_the_whole_path(
    path: VolumePath,
    mountpoint: Seq<u8>,
    other: Seq<u8>,
)
    requires
        path.is_for(mountpoint),
    ensures
        path.bytes@.len() == mountpoint.len() + 1,
        path.bytes@.drop_last() == mountpoint,
        path.bytes@.last() == 0u8,
        mountpoint.len() <= i64::MAX ==> path.len == mountpoint.len(),
        path.is_external_representation,
        path.is_directory,
        path.is_for(other) ==> other == mountpoint,
{
    assert(path.bytes@.drop_last() =~= mountpoint);
    if path.is_for(other) {
        assert(path.bytes@.drop_last() =~= other);
    }
}

/// Any text without a zero byte can be mounted on, and nothing else.
pub proof fn law_mountable_is_text_without_zero(path: Seq<u8>)
    ensures
        is_mountable(path) <==> valid_utf8(path) && forall|i: int|
            0 <= i < path.len() ==> #[trigger] path[i] != 0u8,
{
    if path.contains(0u8) {
        let i = path.index_of(0u8);
        assert(path[i] == 0u8);
    }
}

} // verus!
