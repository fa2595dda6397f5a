//! Parts of the virtual file system: file names, directory entries, file descriptors and
//! their table, seek types and POSIX constants.
use vstd::prelude::*;

pub mod direntry;
pub mod fildes;
pub mod inode;
pub mod posix_consts;
pub mod user;

verus! {

/// The error numbers of the file system interface the library returns.
#[derive(Debug, Copy, Clone, PartialEq, Eq, Structural)]
pub enum Errno {
    /// Input/output error.
    Eio,
    /// File name too long.
    Enametoolong,
}

} // verus!
