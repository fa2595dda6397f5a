//! Inodes: where a seek starts from.
use vstd::prelude::*;

verus! {

/// Where a seek starts from: the start, the current offset or the end.
#[derive(Debug, Copy, Clone, PartialEq, Eq, Structural)]
pub enum SeekType {
    SeekSet,
    SeekCur,
    SeekEnd,
}

/// An offset in a file.
pub type Offset = usize;

} // verus!
