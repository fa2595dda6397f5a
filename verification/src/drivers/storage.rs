//! The storage drivers: sector arithmetic, the IDE/ATA controller, UDMA,
//! the BIOS int 13h interface, and their errors.
use vstd::prelude::*;

pub mod bios_int13h;
pub mod ext2;
pub mod ide_ata_controller;
pub mod ide_controller;
pub mod sata_controller;
pub mod tools;
pub mod vfs;

use ide_ata_controller::AtaError;
use tools::{NbrSectors, Sector};

verus! {

/// The size of a sector in bytes.
pub const SECTOR_SIZE: usize = 512;

/// The log2 of the size of a sector.
pub const SECTOR_SHIFT: usize = 9;

/// The mask of the offset inside a sector.
pub const SECTOR_MASK: usize = 0x1ff;

/// The errors of the disk drivers.
#[derive(Debug, Copy, Clone, PartialEq, Eq, Structural)]
pub enum DiskError {
    OutOfBound,
    InternalError,
    NotSupported,
    NothingToDo,
    IOError,
}

/// The disk error an ATA error stands for.
pub open spec fn disk_error_of(e: AtaError) -> DiskError {
    match e {
        AtaError::DeviceNotFound => DiskError::NotSupported,
        AtaError::NotSupported => DiskError::NotSupported,
        AtaError::OutOfBound => DiskError::OutOfBound,
        AtaError::NothingToDo => DiskError::NothingToDo,
        AtaError::IoError => DiskError::IOError,
    }
}

impl From<AtaError> for DiskError {
    fn from(ata_error: AtaError) -> (r: DiskError) {
        match ata_error {
            AtaError::DeviceNotFound => DiskError::NotSupported,
            AtaError::NotSupported => DiskError::NotSupported,
            AtaError::OutOfBound => DiskError::OutOfBound,
            AtaError::NothingToDo => DiskError::NothingToDo,
            AtaError::IoError => DiskError::IOError,
        }
    }
}

impl vstd::std_specs::convert::FromSpecImpl<AtaError> for DiskError {
    open spec fn obeys_from_spec() -> bool {
        true
    }

    open spec fn from_spec(v: AtaError) -> Self {
        disk_error_of(v)
    }
}

/// The kinds of disk drivers.
#[derive(Debug, Copy, Clone, PartialEq, Eq, Structural)]
pub enum DiskDriverType {
    Sata,
    Ide,
    Bios,
}

/// The result of the disk drivers.
pub type DiskResult<T> = Result<T, DiskError>;

/// Block devices, read and written by whole sectors.
pub trait BlockIo {
    /// Reads `nbr_sectors` sectors from `start_sector` into `buf`.
    fn read(&self, start_sector: Sector, nbr_sectors: NbrSectors, buf: &mut Vec<u8>) -> DiskResult<()>;

    /// Writes `nbr_sectors` sectors from `buf` at `start_sector`.
    fn write(&self, start_sector: Sector, nbr_sectors: NbrSectors, buf: &Vec<u8>) -> DiskResult<()>;
}

} // verus!
