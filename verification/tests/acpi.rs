use turbofish::drivers::acpi::{
    find_fadt, get_rsdp_descriptor_ptr, memschr, rsdp_checksum, Acpi, AcpiError, Fadt, RsdpDescriptor,
    SwitchStep, RSDP_SEARCH_RANGE, SWITCH_ATTEMPTS,
};
use turbofish::io::{PortWrite, PortWrite16};

fn put_u32(b: &mut [u8], off: usize, v: u32) {
    b[off..off + 4].copy_from_slice(&v.to_le_bytes());
}

fn rsdp_bytes(revision: u8) -> Vec<u8> {
    let mut b = vec![0u8; 36];
    b[..8].copy_from_slice(b"RSD PTR ");
    b[15] = revision;
    put_u32(&mut b, 16, 0x1234_5678);
    put_u32(&mut b, 24, 0x9abc_def0);
    b
}

fn headers_with_fadt_at(index: usize) -> Vec<u8> {
    let mut h = vec![0u8; 36 * 3 + 129];
    h[0..4].copy_from_slice(b"APIC");
    let off = 36 * index;
    h[off..off + 4].copy_from_slice(b"FACP");
    put_u32(&mut h, off + 40, 0xd5d7);
    put_u32(&mut h, off + 48, 0xb2);
    h[off + 52] = 0xa0;
    h[off + 53] = 0xa1;
    put_u32(&mut h, off + 64, 0x404);
    put_u32(&mut h, off + 68, 0x408);
    put_u32(&mut h, off + 120, 0xcf9);
    h[off + 128] = 0x6;
    h
}

fn acpi(revision: u8) -> Acpi {
    Acpi::init(&rsdp_bytes(revision), 48, &headers_with_fadt_at(1)).unwrap()
}

#[test]
fn rsdp_descriptor_decoding() {
    let legacy = RsdpDescriptor::from_bytes(&rsdp_bytes(0));
    assert_eq!(legacy, RsdpDescriptor::LegacyRSDPDescriptor { revision: 0, rsdt_address: 0x1234_5678 });
    assert_eq!(legacy.table_address(), 0x1234_5678);
    let advanced = RsdpDescriptor::from_bytes(&rsdp_bytes(2));
    assert_eq!(advanced.revision(), 2);
    assert_eq!(advanced.table_address(), 0x9abc_def0);
}

#[test]
fn fadt_is_found_and_decoded() {
    assert_eq!(find_fadt(48, &headers_with_fadt_at(1)), Ok(1));
    let a = acpi(2);
    assert_eq!(
        a.fadt,
        Fadt {
            dsdt: 0xd5d7,
            smi_command_port: 0xb2,
            acpi_enable: 0xa0,
            acpi_disable: 0xa1,
            pm1a_control_block: 0x404,
            pm1b_control_block: 0x408,
            reset_reg_address_0_31: 0xcf9,
            reset_value: 0x6,
        }
    );
    assert_eq!(Fadt::from_bytes(&headers_with_fadt_at(1), 36), a.fadt);
}

#[test]
fn no_fadt_cannot_initialize() {
    let h = vec![0u8; 36 * 3 + 129];
    assert_eq!(find_fadt(48, &h), Err(AcpiError::CannotInitialize));
    assert_eq!(Acpi::init(&rsdp_bytes(2), 48, &h), Err(AcpiError::CannotInitialize));
}

#[test]
fn memschr_finds_the_first_match() {
    let mem = b"xxabcxxabcxxxxxxxxxx".to_vec();
    assert_eq!(memschr(&mem, 0, 20, &b"abc".to_vec(), false), Ok(2));
    assert_eq!(memschr(&mem, 0, 20, &b"zzz".to_vec(), false), Err(AcpiError::InternalError));
    assert_eq!(memschr(&mem, 0, 20, &Vec::new(), false), Err(AcpiError::InternalError));
    assert_eq!(memschr(&mem, 0xffff_fff0, 20, &b"abc".to_vec(), false), Err(AcpiError::InternalError));
}

#[test]
fn rsdp_search_checks_the_checksum() {
    let mut mem = vec![0u8; RSDP_SEARCH_RANGE + 20];
    mem[0x10..0x18].copy_from_slice(b"RSD PTR ");
    mem[0x18] = 1;
    mem[0x100..0x108].copy_from_slice(b"RSD PTR ");
    let sum: u32 = mem[0x100..0x114].iter().map(|&b| b as u32).sum();
    mem[0x108] = ((256 - sum % 256) % 256) as u8;
    assert!(!rsdp_checksum(&mem, 0x10));
    assert!(rsdp_checksum(&mem, 0x100));
    assert_eq!(get_rsdp_descriptor_ptr(&mem), Ok(0x100));
    let empty = vec![0u8; RSDP_SEARCH_RANGE + 20];
    assert_eq!(get_rsdp_descriptor_ptr(&empty), Err(AcpiError::AcpiAbsent));
}

#[test]
fn switch_steps() {
    let a = acpi(2);
    assert_eq!(a.enable(SWITCH_ATTEMPTS, 0), SwitchStep::Send(PortWrite { port: 0xb2, value: 0xa0 }));
    assert_eq!(a.enable(3, 1), SwitchStep::Finished(Ok(())));
    assert_eq!(a.enable(0, 0), SwitchStep::Finished(Err(AcpiError::Timeout)));
    assert_eq!(a.disable(5, 1), SwitchStep::Send(PortWrite { port: 0xb2, value: 0xa1 }));
    assert_eq!(a.disable(5, 0), SwitchStep::Finished(Ok(())));
    assert!(Acpi::is_enable(0x1) && Acpi::is_disable(0x2));
}

#[test]
fn reboot_needs_acpi_2() {
    assert_eq!(acpi(2).reboot_computer(1), Ok(PortWrite { port: 0xcf9, value: 0x6 }));
    assert_eq!(acpi(0).reboot_computer(1), Err(AcpiError::BadAcpiVersion));
    assert_eq!(acpi(2).reboot_computer(0), Err(AcpiError::Disabled));
}

#[test]
fn shutdown_writes_the_sleep_types() {
    let a = acpi(2);
    let mut dsdt = vec![0u8; 36 + 40];
    dsdt[10..14].copy_from_slice(b"_S5_");
    dsdt[14] = 0x12;
    dsdt[18] = 5;
    dsdt[20] = 7;
    let w = a.shutdown(1, &dsdt, 0x1000).unwrap();
    assert_eq!(
        w,
        vec![
            PortWrite16 { port: 0x404, value: (5 << 10) | 0x2000 },
            PortWrite16 { port: 0x408, value: (7 << 10) | 0x2000 },
        ]
    );
    dsdt[14] = 0;
    assert_eq!(a.shutdown(1, &dsdt, 0x1000), Ok(Vec::new()));
    assert_eq!(a.shutdown(0, &dsdt, 0x1000), Err(AcpiError::Disabled));
    let nothing = vec![0u8; 36 + 40];
    assert_eq!(a.shutdown(1, &nothing, 0x1000), Err(AcpiError::InternalError));
}
