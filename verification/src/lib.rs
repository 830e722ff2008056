//! The rules of a macFUSE file system server: a read-only file system that holds one file, and
//! the session that connects a server with the FUSE driver in the kernel.
//!
//! Nothing here performs I/O. Where a request takes a system call, the library says which call to
//! make and takes its result; the program around it makes the call.

pub mod error;
pub mod fs;
pub mod modes;
pub mod transport;
pub mod types;
