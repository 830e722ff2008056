//! File modes and directory entry types, made of the constants of `libc`.
use vstd::prelude::*;

verus! {

/// `libc::S_IFREG`: the file type of a regular file. Linux and macOS agree on its value.
#[verifier::external_body]
fn s_ifreg() -> (bits: u32)
    ensures
        bits == 0o10_0000,
{
    libc::S_IFREG as u32
}

/// `libc::S_IFDIR`: the file type of a directory. Linux and macOS agree on its value.
#[verifier::external_body]
fn s_ifdir() -> (bits: u32)
    ensures
        bits == 0o4_0000,
{
    libc::S_IFDIR as u32
}

/// `libc::S_IREAD`: read permission of the owner. Linux and macOS agree on its value.
#[verifier::external_body]
fn s_iread() -> (bits: u32)
    ensures
        bits == 0o0400,
{
    libc::S_IREAD as u32
}

/// `libc::S_IEXEC`: execute permission of the owner. Linux and macOS agree on its value.
#[verifier::external_body]
fn s_iexec() -> (bits: u32)
    ensures
        bits == 0o0100,
{
    libc::S_IEXEC as u32
}

/// `libc::S_IRGRP`: read permission of the group. Linux and macOS agree on its value.
#[verifier::external_body]
fn s_irgrp() -> (bits: u32)
    ensures
        bits == 0o0040,
{
    libc::S_IRGRP as u32
}

/// `libc::S_IXGRP`: execute permission of the group. Linux and macOS agree on its value.
#[verifier::external_body]
fn s_ixgrp() -> (bits: u32)
    ensures
        bits == 0o0010,
{
    libc::S_IXGRP as u32
}

/// `libc::S_IROTH`: read permission of the others. Linux and macOS agree on its value.
#[verifier::external_body]
fn s_iroth() -> (bits: u32)
    ensures
        bits == 0o0004,
{
    libc::S_IROTH as u32
}

/// `libc::S_IXOTH`: execute permission of the others. Linux and macOS agree on its value.
#[verifier::external_body]
fn s_ixoth() -> (bits: u32)
    ensures
        bits == 0o0001,
{
    libc::S_IXOTH as u32
}

/// `libc::DT_DIR`: the type of an entry that names a directory. Linux and macOS agree on its value.
#[verifier::external_body]
pub(crate) fn dt_dir() -> (kind: u32)
    ensures
        kind == 4,
{
    libc::DT_DIR as u32
}

/// `libc::DT_REG`: the type of an entry that names a regular file. Linux and macOS agree on its
/// value.
#[verifier::external_body]
pub(crate) fn dt_reg() -> (kind: u32)
    ensures
        kind == 8,
{
    libc::DT_REG as u32
}

/// The permissions that everybody has on everything: to read and to execute.
fn read_execute_all() -> (bits: u32)
    ensures
        bits == 0o0555,
{
    assert(0o0400u32 | 0o0100u32 | 0o0040u32 | 0o0010u32 | 0o0004u32 | 0o0001u32 == 0o0555u32)
        by (bit_vector);
    s_iread() | s_iexec() | s_irgrp() | s_ixgrp() | s_iroth() | s_ixoth()
}

/// The mode of a regular file that everybody may read and execute.
pub fn regular_file_mode() -> (mode: u32)
    ensures
        mode == 0o10_0555,
{
    assert(0o10_0000u32 | 0o0555u32 == 0o10_0555u32) by (bit_vector);
    s_ifreg() | read_execute_all()
}

/// The mode of a directory that everybody may read and search.
pub fn directory_mode() -> (mode: u32)
    ensures
        mode == 0o4_0555,
{
    assert(0o4_0000u32 | 0o0555u32 == 0o4_0555u32) by (bit_vector);
    s_ifdir() | read_execute_all()
}

} // verus!
