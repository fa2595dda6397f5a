use turbofish::drivers::storage::bios_int13h::{
    check_bounds, create_dap, BiosInt13h, DriveParametersAnswer, ExtensionCheck, InterfaceSupport,
    N_SECTOR, REAL_BUFFER_LOCATION,
};
use turbofish::drivers::storage::tools::{NbrSectors, Sector};
use turbofish::drivers::storage::DiskError;

fn good_extension() -> ExtensionCheck {
    ExtensionCheck { ret: 0, eax: 0xabcd_3000, ecx: 0xffff_0007 }
}

fn params(nb_sector: u64) -> DriveParametersAnswer {
    DriveParametersAnswer { ret: 0, nb_sector, bytes_per_sector: 512 }
}

#[test]
fn extension_keeps_low_halves() {
    let (version, support) = BiosInt13h::check_extension(good_extension()).unwrap();
    assert_eq!(version, 0x3000);
    assert_eq!(support, InterfaceSupport { bits: 0x7 });
}

#[test]
fn extension_refused_without_packets() {
    let answer = ExtensionCheck { ret: 0, eax: 0x3000, ecx: 0x0001_0006 };
    assert_eq!(BiosInt13h::check_extension(answer), Err(DiskError::NotSupported));
    let failed = ExtensionCheck { ret: -1, eax: 0x3000, ecx: 0x7 };
    assert_eq!(BiosInt13h::check_extension(failed), Err(DiskError::NotSupported));
}

#[test]
fn new_describes_the_drive() {
    let bios = BiosInt13h::new(0x80, good_extension(), params(1000)).unwrap();
    assert_eq!(bios.boot_device, 0x80);
    assert_eq!(bios.nb_sector, NbrSectors(1000));
    assert_eq!(bios.sector_size, 512);
    assert_eq!(bios.version, 0x3000);
    assert_eq!(bios.interface_support.bits, 0x7);
}

#[test]
fn new_refuses_other_sector_sizes() {
    let p = DriveParametersAnswer { ret: 0, nb_sector: 1000, bytes_per_sector: 4096 };
    assert_eq!(BiosInt13h::new(0x80, good_extension(), p), Err(DiskError::NotSupported));
    let p = DriveParametersAnswer { ret: -1, nb_sector: 1000, bytes_per_sector: 512 };
    assert_eq!(BiosInt13h::new(0x80, good_extension(), p), Err(DiskError::NotSupported));
}

#[test]
fn bounds_are_checked() {
    assert_eq!(check_bounds(Sector(0), NbrSectors(0), NbrSectors(10)), Err(DiskError::NothingToDo));
    assert_eq!(check_bounds(Sector(5), NbrSectors(6), NbrSectors(10)), Err(DiskError::OutOfBound));
    assert_eq!(check_bounds(Sector(5), NbrSectors(5), NbrSectors(10)), Ok(()));
}

#[test]
fn dap_points_at_the_buffer() {
    let dap = create_dap(Sector(42), NbrSectors(7));
    assert_eq!(dap.size_of_dap, 0x10);
    assert_eq!(dap.unused, 0);
    assert_eq!(dap.nb_sectors, 7);
    assert_eq!(dap.memory, REAL_BUFFER_LOCATION);
    assert_eq!(dap.sector, 42);
}

#[test]
fn read_is_cut_in_chunks_of_96() {
    let bios = BiosInt13h::new(0x80, good_extension(), params(1000)).unwrap();
    let daps = bios.read(Sector(10), NbrSectors(200)).unwrap();
    let got: Vec<(u64, u16)> = daps.iter().map(|d| (d.sector, d.nb_sectors)).collect();
    assert_eq!(got, vec![(10, 96), (106, 96), (202, 8)]);
    assert_eq!(N_SECTOR, 96);
}

#[test]
fn write_of_exact_chunks() {
    let bios = BiosInt13h::new(0x80, good_extension(), params(1000)).unwrap();
    let daps = bios.write(Sector(0), NbrSectors(192)).unwrap();
    let got: Vec<(u64, u16)> = daps.iter().map(|d| (d.sector, d.nb_sectors)).collect();
    assert_eq!(got, vec![(0, 96), (96, 96)]);
}

#[test]
fn transfer_errors() {
    let bios = BiosInt13h::new(0x80, good_extension(), params(100)).unwrap();
    assert_eq!(bios.read(Sector(90), NbrSectors(11)), Err(DiskError::OutOfBound));
    assert_eq!(bios.write(Sector(0), NbrSectors(0)), Err(DiskError::NothingToDo));
}

#[test]
fn payload_results() {
    assert_eq!(BiosInt13h::payload_result(-1), Err(DiskError::IOError));
    assert_eq!(BiosInt13h::payload_result(0), Ok(()));
}
