//! POSIX limits and types.
use vstd::prelude::*;

verus! {

/// The maximum size (in bytes) of any component of a pathname.
pub const NAME_MAX: usize = 256;

/// The maximum size (in bytes) of any path (including null byte).
pub const PATH_MAX: usize = 4096;

#[allow(non_camel_case_types)]
pub type off_t = usize;

#[allow(non_camel_case_types)]
pub type uid_t = usize;

#[allow(non_camel_case_types)]
pub type gid_t = usize;

#[allow(non_camel_case_types)]
pub type ino_t = usize;

#[allow(non_camel_case_types)]
pub type dev_t = usize;

#[allow(non_camel_case_types)]
pub type nlink_t = usize;

#[allow(non_camel_case_types)]
pub type blksize_t = usize;

#[allow(non_camel_case_types)]
pub type blkcnt_t = usize;

#[allow(non_camel_case_types)]
pub type time_t = usize;

/// A time: seconds and nanoseconds.
#[allow(non_camel_case_types)]
pub struct timespec {
    seconds: time_t,
    nanoseconds: time_t,
}

} // verus!
