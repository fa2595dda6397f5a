//! The disk interface of the BIOS (interrupt 13h, extensions): what its
//! answers tell of the boot drive, and the disk address packets of a
//! transfer. The calls themselves go through 16-bit payloads run by the
//! caller. See https://en.wikipedia.org/wiki/INT_13H.
use super::ide_ata_controller::chunk_plan;
use super::tools::{NbrSectors, Sector};
use super::{DiskError, DiskResult, SECTOR_SIZE};
use crate::bits::{bits_of_u32, get_bits_u32};
use vstd::prelude::*;

verus! {

/// Where the disk address packet goes (real address 0x8000:0000).
pub const DAP_LOCATION: usize = 0x80000;
/// The most sectors one packet moves.
pub const N_SECTOR: usize = 96;
/// The size of the transfer buffer: 48K.
pub const CHUNK_SIZE: usize = 49152;
/// Where the transfer buffer is, between 0x8000:4000 and 0x9000:0000.
pub const BUFFER_LOCATION: u32 = 0x84000;
/// The transfer buffer as a real mode address.
pub const REAL_BUFFER_LOCATION: u32 = 0x8400_0000;

/// The interfaces the extensions support.
#[derive(Debug, Copy, Clone, PartialEq, Eq, Structural)]
pub struct InterfaceSupport {
    pub bits: u16,
}

impl InterfaceSupport {
    /// Device access using the packet structure.
    pub const DAP: u16 = 0x1;
    /// Drive locking and ejecting.
    pub const LOCK_AND_EJECT: u16 = 0x2;
    /// Enhanced disk drive support.
    pub const EDD: u16 = 0x4;
}

/// What the payload that checks the extensions answered: its return value
/// and the registers EAX and ECX.
#[derive(Debug, Copy, Clone, PartialEq, Eq, Structural)]
pub struct ExtensionCheck {
    pub ret: i32,
    pub eax: u32,
    pub ecx: u32,
}

/// What the payload that reads the drive parameters answered: its return
/// value, the number of sectors and the bytes per sector.
#[derive(Debug, Copy, Clone, PartialEq, Eq, Structural)]
pub struct DriveParametersAnswer {
    pub ret: i32,
    pub nb_sector: u64,
    pub bytes_per_sector: u16,
}

/// A disk address packet: the transfer of `nb_sectors` sectors from
/// `sector` through the buffer at `memory`.
#[derive(Debug, Copy, Clone, PartialEq, Eq, Structural)]
pub struct Dap {
    /// Size of the packet (0x10)
    pub size_of_dap: u8,
    pub unused: u8,
    pub nb_sectors: u16,
    pub memory: u32,
    pub sector: u64,
}

/// The boot drive as the BIOS sees it.
#[derive(Debug, Copy, Clone, PartialEq, Eq, Structural)]
pub struct BiosInt13h {
    /// Device the BIOS booted from (80h, 81h ...)
    pub boot_device: u8,
    pub interface_support: InterfaceSupport,
    pub nb_sector: NbrSectors,
    pub sector_size: u16,
    pub version: u16,
}

/// What the check of the extensions tells: `NotSupported` when the call
/// failed or when the packet interface is not supported, else the version
/// (the low 16 bits of EAX) and the interfaces (those of ECX).
pub open spec fn extension_spec(answer: ExtensionCheck) -> DiskResult<(u16, InterfaceSupport)> {
    if answer.ret == -1 {
        Err(DiskError::NotSupported)
    } else if bits_of_u32(answer.ecx, 0, 16) as u16 & InterfaceSupport::DAP == 0 {
        Err(DiskError::NotSupported)
    } else {
        Ok((answer.eax as u16, InterfaceSupport { bits: bits_of_u32(answer.ecx, 0, 16) as u16 }))
    }
}

/// The drive the answers describe, or `NotSupported` when the extensions
/// fail, when reading the parameters fails, or when a sector is not 512
/// bytes.
pub open spec fn bios_spec(boot_device: u8, ext: ExtensionCheck, params: DriveParametersAnswer) -> DiskResult<
    BiosInt13h,
> {
    match extension_spec(ext) {
        Err(e) => Err(e),
        Ok((version, interface_support)) => if params.ret == -1 {
            Err(DiskError::NotSupported)
        } else if params.bytes_per_sector != 512 {
            Err(DiskError::NotSupported)
        } else {
            Ok(
                BiosInt13h {
                    boot_device,
                    interface_support,
                    nb_sector: NbrSectors(params.nb_sector as usize),
                    sector_size: params.bytes_per_sector,
                    version,
                },
            )
        },
    }
}

/// Whether `nbr_sectors` sectors from `start_sector` fit on a drive of
/// `capacity` sectors: none is nothing to do, and they must end within the
/// drive.
pub open spec fn disk_bounds(start_sector: Sector, nbr_sectors: NbrSectors, capacity: NbrSectors) -> DiskResult<()> {
    if nbr_sectors.0 == 0 {
        Err(DiskError::NothingToDo)
    } else if start_sector.0 + nbr_sectors.0 > u64::MAX {
        Err(DiskError::OutOfBound)
    } else if start_sector.0 + nbr_sectors.0 > capacity.0 {
        Err(DiskError::OutOfBound)
    } else {
        Ok(())
    }
}

/// The packet of a transfer of `nb_sectors` sectors from `start_sector`
/// through the transfer buffer.
pub open spec fn dap_spec(start_sector: Sector, nb_sectors: NbrSectors) -> Dap {
    Dap {
        size_of_dap: 0x10,
        unused: 0,
        nb_sectors: nb_sectors.0 as u16,
        memory: REAL_BUFFER_LOCATION,
        sector: start_sector.0 as u64,
    }
}

/// The packets of a transfer of `nbr` sectors from `start`: one for each
/// chunk of 96 sectors.
pub open spec fn daps_spec(start: Sector, nbr: NbrSectors) -> Seq<Dap> {
    chunk_plan(start.0 as int, nbr.0 as int, N_SECTOR as int).map_values(
        |c: (Sector, NbrSectors)| dap_spec(c.0, c.1),
    )
}

/// Checks that a transfer fits on the drive.
pub fn check_bounds(start_sector: Sector, nbr_sectors: NbrSectors, drive_capacity: NbrSectors) -> (r: DiskResult<()>)
    ensures
        r == disk_bounds(start_sector, nbr_sectors, drive_capacity),
{
    if nbr_sectors.0 == 0 {
        Err(DiskError::NothingToDo)
    } else if start_sector.0 as u64 > u64::MAX - nbr_sectors.0 as u64 {
        Err(DiskError::OutOfBound)
    } else if start_sector.0 as u64 + nbr_sectors.0 as u64 > drive_capacity.0 as u64 {
        Err(DiskError::OutOfBound)
    } else {
        Ok(())
    }
}

/// The packet of a transfer of `nb_sectors` sectors from `start_sector`.
pub fn create_dap(start_sector: Sector, nb_sectors: NbrSectors) -> (r: Dap)
    ensures
        r == dap_spec(start_sector, nb_sectors),
{
    Dap {
        size_of_dap: 0x10,
        unused: 0,
        nb_sectors: nb_sectors.0 as u16,
        memory: REAL_BUFFER_LOCATION,
        sector: start_sector.0 as u64,
    }
}

impl BiosInt13h {
    /// What the check of the extensions tells (see `extension_spec`).
    pub fn check_extension(answer: ExtensionCheck) -> (r: DiskResult<(u16, InterfaceSupport)>)
        ensures
            r == extension_spec(answer),
    {
        if answer.ret == -1 {
            return Err(DiskError::NotSupported);
        }
        let version = answer.eax as u16;
        let interface_support = InterfaceSupport { bits: get_bits_u32(answer.ecx, 0, 16) as u16 };
        if interface_support.bits & InterfaceSupport::DAP == 0 {
            return Err(DiskError::NotSupported);
        }
        Ok((version, interface_support))
    }

    /// The boot drive `boot_device` from the answers of the BIOS: the
    /// check of the extensions, then the drive parameters (asked only when
    /// the check succeeds; see `bios_spec`).
    pub fn new(boot_device: u8, extension: ExtensionCheck, parameters: DriveParametersAnswer) -> (r:
        DiskResult<Self>)
        ensures
            r == bios_spec(boot_device, extension, parameters),
    {
        let (version, interface_support) = match BiosInt13h::check_extension(extension) {
            Ok(v) => v,
            Err(e) => return Err(e),
        };
        if parameters.ret == -1 {
            return Err(DiskError::NotSupported);
        }
        let nb_sector = NbrSectors(parameters.nb_sector as usize);
        let sector_size = parameters.bytes_per_sector;
        if sector_size != SECTOR_SIZE as u16 {
            return Err(DiskError::NotSupported);
        }
        Ok(BiosInt13h { boot_device, interface_support, nb_sector, sector_size, version })
    }

    /// The packets of a transfer of `nbr_sectors` sectors from
    /// `start_sector`, once its bounds are checked.
    fn transfer(&self, start_sector: Sector, nbr_sectors: NbrSectors) -> (r: DiskResult<Vec<Dap>>)
        ensures
            disk_bounds(start_sector, nbr_sectors, self.nb_sector) matches Err(e) ==> r == Err::<
                Vec<Dap>,
                DiskError,
            >(e),
            disk_bounds(start_sector, nbr_sectors, self.nb_sector) is Ok ==> (r matches Ok(v) && v@
                == daps_spec(start_sector, nbr_sectors)),
    {
        match check_bounds(start_sector, nbr_sectors, self.nb_sector) {
            Err(e) => return Err(e),
            Ok(()) => {},
        }
        let start = start_sector.0;
        let nbr = nbr_sectors.0;
        let c = N_SECTOR;
        let total: usize = nbr / c + if nbr % c != 0 {
            1
        } else {
            0
        };
        let ghost plan = chunk_plan(start as int, nbr as int, c as int);
        proof {
            assert(total == (nbr + c - 1) / (c as int)) by (nonlinear_arith)
                requires
                    total == nbr / c + if nbr % c != 0 {
                        1int
                    } else {
                        0int
                    },
                    c > 0,
            ;
        }
        let mut v: Vec<Dap> = Vec::new();
        let mut k: usize = 0;
        while k < total
            invariant
                c == N_SECTOR,
                start + nbr <= self.nb_sector.0,
                total == (nbr + c - 1) / (c as int),
                k <= total,
                plan == chunk_plan(start as int, nbr as int, c as int),
                v@ == plan.take(k as int).map_values(|p: (Sector, NbrSectors)| dap_spec(p.0, p.1)),
            decreases total - k,
        {
            proof {
                assert(k * c < nbr) by (nonlinear_arith)
                    requires
                        k < total,
                        total == (nbr + c - 1) / (c as int),
                        c > 0,
                ;
            }
            let off = k * c;
            let left = nbr - off;
            let n = if left < c {
                left
            } else {
                c
            };
            v.push(create_dap(Sector(start + off), NbrSectors(n)));
            proof {
                assert(v@ =~= plan.take(k as int + 1).map_values(
                    |p: (Sector, NbrSectors)| dap_spec(p.0, p.1),
                ));
            }
            k = k + 1;
        }
        proof {
            assert(plan.take(total as int) =~= plan);
        }
        Ok(v)
    }

    /// The packets of a read of `nbr_sectors` sectors from `start_sector`:
    /// the bounds error, or one packet per chunk of 96 sectors.
    pub fn read(&self, start_sector: Sector, nbr_sectors: NbrSectors) -> (r: DiskResult<Vec<Dap>>)
        ensures
            disk_bounds(start_sector, nbr_sectors, self.nb_sector) matches Err(e) ==> r == Err::<
                Vec<Dap>,
                DiskError,
            >(e),
            disk_bounds(start_sector, nbr_sectors, self.nb_sector) is Ok ==> (r matches Ok(v) && v@
                == daps_spec(start_sector, nbr_sectors)),
    {
        self.transfer(start_sector, nbr_sectors)
    }

    /// The packets of a write of `nbr_sectors` sectors from
    /// `start_sector`: the bounds error, or one packet per chunk of 96
    /// sectors.
    pub fn write(&self, start_sector: Sector, nbr_sectors: NbrSectors) -> (r: DiskResult<Vec<Dap>>)
        ensures
            disk_bounds(start_sector, nbr_sectors, self.nb_sector) matches Err(e) ==> r == Err::<
                Vec<Dap>,
                DiskError,
            >(e),
            disk_bounds(start_sector, nbr_sectors, self.nb_sector) is Ok ==> (r matches Ok(v) && v@
                == daps_spec(start_sector, nbr_sectors)),
    {
        self.transfer(start_sector, nbr_sectors)
    }

    /// What the return value of a read or write payload tells: an
    /// `IOError` when it is -1.
    pub fn payload_result(ret: i32) -> (r: DiskResult<()>)
        ensures
            r == if ret == -1 {
                Err(DiskError::IOError)
            } else {
                Ok(())
            },
    {
        if ret == -1 {
            Err(DiskError::IOError)
        } else {
            Ok(())
        }
    }
}

} // verus!
