use turbofish::drivers::pci::{Pci, PciDeviceClass, MassStorageControllerSubClass, SerialAtaProgIf, IdeControllerProgIf, AddressSpace, get_pci_device};
use turbofish::drivers::sata_controller::SataController as SataDevice;
use turbofish::drivers::storage::ide_controller::IdeController;
use turbofish::drivers::storage::sata_controller::{
    AccessPort, Cap, CmdHeaderFlags, FisRegH2DFlags, PrdtFlags, SataController, SataError, SataIssue,
    SATA_SIG_ATA, SATA_SIG_ATAPI,
};
use turbofish::drivers::storage::tools::{NbrSectors, Sector};
use turbofish::drivers::pci::PciConfigWrite;
use turbofish::io::MemWrite32;

fn config_words(class: u8, subclass: u8, prog_if: u8, bar5: u32) -> Vec<u32> {
    let mut w = vec![0u32; 16];
    w[0] = 0x2922_8086;
    w[2] = ((class as u32) << 24) | ((subclass as u32) << 16) | ((prog_if as u32) << 8);
    w[9] = bar5;
    w
}

fn bus_with(devices: &[(u8, u8, u8, u8)]) -> Pci {
    let mut pci = Pci::new();
    for &(slot, class, subclass, prog_if) in devices {
        let d = pci.check_device(0, slot, 0, &config_words(class, subclass, prog_if, 0xfebf_0000)).unwrap();
        pci.devices_list.push(d).unwrap();
    }
    pci
}

#[test]
fn pci_device_decoding_and_query() {
    let pci = bus_with(&[(3, 0x01, 0x01, 0x80), (5, 0x01, 0x06, 0x01)]);
    assert_eq!(pci.devices_list.len(), 2);
    let ahci = PciDeviceClass::MassStorageController(MassStorageControllerSubClass::SerialAta(SerialAtaProgIf::Ahci1));
    assert_eq!(pci.query_device(ahci), Some(0x8000_2800));
    let ide = PciDeviceClass::MassStorageController(MassStorageControllerSubClass::IdeController(
        IdeControllerProgIf::IsaCompatibilityModeOnlyControllerBusMastered,
    ));
    assert_eq!(pci.query_device(ide), Some(0x8000_1800));
    assert_eq!(get_pci_device(0x01, 0x06, 0x01), ahci);
    assert!(pci.check_device(0, 1, 0, &vec![0xffff_ffffu32; 16]).is_none());
    assert_eq!(AddressSpace { bus: 1, slot: 2, function: 3 }.get_location(), 0x8001_1300);
}

#[test]
fn pci_query_of_an_absent_class() {
    let pci = bus_with(&[(3, 0x01, 0x01, 0x80)]);
    let ahci = PciDeviceClass::MassStorageController(MassStorageControllerSubClass::SerialAta(SerialAtaProgIf::Ahci1));
    assert_eq!(pci.query_device(ahci), None);
    assert!(SataDevice::init(&pci, |l: u32| config_words(1, 6, 1, l)).is_none());
}

#[test]
fn controllers_from_the_bus() {
    let pci = bus_with(&[(3, 0x01, 0x01, 0x80), (5, 0x01, 0x06, 0x01)]);
    let ide = IdeController::init(&pci, |_l: u32| config_words(1, 1, 0x80, 0)).unwrap();
    assert_eq!(ide.location, 0x8000_1800);
    let sata = SataDevice::init(&pci, |_l: u32| config_words(1, 6, 1, 0xfebf_0000)).unwrap();
    assert_eq!(sata.location, 0x8000_2800);
    assert_eq!(sata.pci.bar5, 0xfebf_0000);
}

fn tables(p: usize) -> (u32, u32, Vec<u32>) {
    let p = p as u32;
    (0x20_0000 + p * 0x400, 0x30_0000 + p * 0x100, (0..32u32).map(|j| 0x10_0000 + j * 0x100).collect())
}

#[test]
fn sata_init_selects_valid_ports() {
    let pci = bus_with(&[(5, 0x01, 0x06, 0x01)]);
    let (c, setup) = SataController::init(
        &pci,
        |_l: u32| config_words(1, 6, 1, 0xfebf_0000),
        |_b: u32| {
            let mut sigs = vec![0u32; 32];
            sigs[0] = SATA_SIG_ATA;
            sigs[1] = 0x1234;
            sigs[2] = SATA_SIG_ATAPI;
            sigs[3] = SATA_SIG_ATA;
            (0b0111u32, sigs)
        },
        tables,
    )
    .unwrap();
    let ports: Vec<usize> = c.access_ports.iter().map(|p| p.port).collect();
    assert_eq!(ports, vec![0, 2]);
    assert_eq!(c.access_ports[1].cmdlist[3].ctba, 0x10_0300);
    assert_eq!(c.access_ports[1].cmdlist[3].prdtl, 56);
    assert_eq!(c.access_ports[0].regs, 0xfebf_0100);
    assert_eq!(c.access_ports[1].regs, 0xfebf_0200);
    assert_eq!(setup.bus_master, PciConfigWrite { address: 0x8000_2804, data: 0x0004 });
    assert_eq!(
        setup.port_writes,
        vec![
            MemWrite32 { address: 0xfebf_0100, value: 0x20_0000 },
            MemWrite32 { address: 0xfebf_0108, value: 0x30_0000 },
            MemWrite32 { address: 0xfebf_0200, value: 0x20_0800 },
            MemWrite32 { address: 0xfebf_0208, value: 0x30_0200 },
        ]
    );
}

#[test]
fn select_ports_by_bit_and_signature() {
    let mut sigs = vec![SATA_SIG_ATA; 32];
    sigs[5] = 0;
    assert_eq!(SataController::select_ports(0b10_0110, &sigs), vec![1, 2]);
}

#[test]
fn command_slots() {
    assert_eq!(AccessPort::find_cmdslot(0, 0), Some(0));
    assert_eq!(AccessPort::find_cmdslot(0b0101, 0b0010), Some(3));
    assert_eq!(AccessPort::find_cmdslot(0xffff_0000, 0x0000_ffff), None);
    assert_eq!(Cap(0x0000_1f00).get_number_of_command_slots(), 32);
    assert_eq!(Cap(0xffff_e0ff).get_number_of_command_slots(), 1);
}

#[test]
fn read_sets_up_the_slot() {
    let (mut port, w) = AccessPort::new(2, 0xfebf_0200, 0x1000, 0x2000, &tables(2).2);
    assert_eq!(
        w,
        vec![MemWrite32 { address: 0xfebf_0200, value: 0x1000 }, MemWrite32 { address: 0xfebf_0208, value: 0x2000 }]
    );
    let (clear, r) = port.read(Sector(0x0102_0304_0506), NbrSectors(0x0203), 0xdead_0000, 0b1, 0b10);
    assert_eq!(clear, MemWrite32 { address: 0xfebf_0210, value: 0xffff_ffff });
    assert_eq!(r, Ok(SataIssue { slot: 2, issue: 4, size: 0x0203 * 512 }));
    let h = port.cmdlist[2];
    assert_eq!(h.flags.get_command_fis_length(), 5);
    assert_eq!(h.flags.0 & 0x40, 0);
    let e = port.cmdtbl[2].prdt_entry[0];
    assert_eq!(e.dba, 0xdead_0000);
    assert_eq!(e.flags.get_byte_count(), 0x0203 * 512);
    assert!(e.flags.get_interrupt_on_completion());
    let f = port.cmdtbl[2].cfis;
    assert_eq!(f.fis_type, 0x27);
    assert!(f.flags.get_command());
    assert_eq!(f.command, 0x25);
    assert_eq!(f.device, 0x40);
    assert_eq!((f.lba0, f.lba1, f.lba2, f.lba3, f.lba4, f.lba5), (0x06, 0x05, 0x04, 0x03, 0x02, 0x01));
    assert_eq!((f.countl, f.counth), (0x03, 0x02));
    assert_eq!(port.cmdtbl[1].cfis.fis_type, 0);
}

#[test]
fn read_without_a_free_slot() {
    let (mut port, _) = AccessPort::new(0, 0x100, 0, 0, &tables(0).2);
    let (clear, r) = port.read(Sector(0), NbrSectors(1), 0, 0xffff_ffff, 0);
    assert_eq!(clear, MemWrite32 { address: 0x110, value: 0xffff_ffff });
    assert_eq!(r, Err(SataError::NoSlot));
    assert_eq!(port.cmdtbl[0].cfis.fis_type, 0);
}

#[test]
fn read_polling() {
    assert_eq!(AccessPort::read_poll(3, 0b0111, 0), Some(Ok(())));
    assert_eq!(AccessPort::read_poll(1, 0b0101, 0x4000_0000), Some(Ok(())));
    assert_eq!(AccessPort::read_poll(2, 0b0100, 0x4000_0000), Some(Err(SataError::TaskFileError)));
    assert_eq!(AccessPort::read_poll(2, 0b0100, 0), None);
}

#[test]
fn flag_fields() {
    let mut f = CmdHeaderFlags(0xffff);
    f.set_write(false);
    assert_eq!(f.0, 0xffbf);
    f.set_command_fis_length(5);
    assert_eq!(f.get_command_fis_length(), 5);
    assert_eq!(f.0, 0xffa5);
    let mut p = PrdtFlags(0);
    p.set_byte_count(512);
    assert_eq!(p.0, 511);
    p.set_interrupt_on_completion(true);
    assert_eq!(p.0, 0x8000_01ff);
    let mut fl = FisRegH2DFlags(0x01);
    fl.set_command(true);
    assert_eq!(fl.0, 0x81);
}

#[test]
fn a_device_pushed_is_found_only_first() {
    let mut pci = bus_with(&[(3, 0x01, 0x01, 0x80)]);
    let ahci = PciDeviceClass::MassStorageController(MassStorageControllerSubClass::SerialAta(SerialAtaProgIf::Ahci1));
    assert_eq!(pci.query_device(ahci), None);
    let d = pci.check_device(0, 7, 0, &config_words(1, 6, 1, 0)).unwrap();
    pci.devices_list.push(d).unwrap();
    assert_eq!(pci.query_device(ahci), Some(0x8000_3800));
    let e = pci.check_device(0, 9, 0, &config_words(1, 6, 1, 0)).unwrap();
    pci.devices_list.push(e).unwrap();
    assert_eq!(pci.query_device(ahci), Some(0x8000_3800));
}

#[test]
fn iteration_gives_the_devices_in_push_order() {
    let pci = bus_with(&[(3, 0x01, 0x01, 0x80), (5, 0x01, 0x06, 0x01), (9, 0x01, 0x06, 0x01)]);
    let mut it = pci.devices_list.iter();
    let mut slots = Vec::new();
    while let Some(d) = it.next() {
        slots.push(d.address_space.slot);
    }
    assert_eq!(slots, vec![3, 5, 9]);
    assert!(it.next().is_none());
    assert!(Pci::new().devices_list.iter().next().is_none());
}

#[test]
fn bus_scan_finds_functions_in_order() {
    let mut pci = Pci::new();
    let r = pci.scan_pci_buses(|b: u8, s: u8, f: u8| {
        if b == 0 && s == 2 && f == 0 {
            let mut w = config_words(0x01, 0x06, 0x01, 0);
            w[3] = 0x0080_0000;
            w
        } else if b == 0 && s == 2 && f == 3 {
            config_words(0x01, 0x01, 0x80, 0)
        } else if b == 1 && s == 4 && (f == 0 || f == 1) {
            config_words(0x02, 0x00, 0x00, 0)
        } else {
            vec![0xffff_ffffu32; 16]
        }
    });
    assert_eq!(r, Ok(()));
    let mut it = pci.devices_list.iter();
    let mut found = Vec::new();
    while let Some(d) = it.next() {
        found.push((d.address_space.bus, d.address_space.slot, d.address_space.function));
    }
    assert_eq!(found, vec![(0, 2, 0), (0, 2, 3), (1, 4, 0)]);
    let ahci = PciDeviceClass::MassStorageController(MassStorageControllerSubClass::SerialAta(SerialAtaProgIf::Ahci1));
    assert_eq!(pci.query_device(ahci), Some(0x8000_1000));
}
