use turbofish::drivers::pci::{PciDevice, PciType0};
use turbofish::drivers::storage::ide_ata_controller::pci_udma::{DmaTransfer, ATA_CMD_READ_DMA_EXT, ATA_CMD_WRITE_DMA};
use turbofish::drivers::storage::ide_ata_controller::pio_polling::{bytes_to_words, words_to_bytes};
use turbofish::drivers::storage::ide_ata_controller::udma::{init_prdt, Channel, DmaStatus, PrdEntry, Udma};
use turbofish::drivers::storage::ide_ata_controller::{
    check_bounds, AtaError, Capabilities, DmaIo, Drive, Hierarchy, IdeAtaController, PioIo, Rank,
    ATA_CMD_READ_PIO, ATA_CMD_READ_PIO_EXT, ATA_CMD_WRITE_PIO_EXT,
};
use turbofish::drivers::storage::tools::{NbrSectors, Sector};
use turbofish::drivers::pci::PciConfigWrite;
use turbofish::interrupts::pic_8259::Irq;
use turbofish::io::{PortWrite, PortWrite32};

fn drive(capabilities: Capabilities, capacity: usize, rank: Rank) -> Drive {
    Drive {
        command_register: 0x1F0,
        control_register: 0x3F6,
        capabilities,
        sector_capacity: NbrSectors(capacity),
        udma_support: 0,
        rank,
    }
}

fn identify_words() -> Vec<u16> {
    vec![0u16; 256]
}

#[test]
fn identify_reads_lba48_capacity() {
    let mut v = identify_words();
    v[83] = 0x400;
    v[88] = 0x3f;
    v[100] = 0x5678;
    v[101] = 0x1234;
    v[102] = 0x1;
    let d = Drive::identify(Rank::Primary(Hierarchy::Master), 0x1F0, 0x3F6, 0x50, false, &v).unwrap();
    assert_eq!(d.capabilities, Capabilities::Lba48);
    assert_eq!(d.sector_capacity, NbrSectors(0x1_1234_5678));
    assert_eq!(d.udma_support, 0x3f);
}

#[test]
fn identify_reads_lba28_or_chs() {
    let mut v = identify_words();
    v[60] = 0x10;
    v[61] = 0x2;
    let d = Drive::identify(Rank::Secondary(Hierarchy::Slave), 0x170, 0x376, 0x50, false, &v).unwrap();
    assert_eq!(d.capabilities, Capabilities::Lba28);
    assert_eq!(d.sector_capacity, NbrSectors(0x2_0010));
    let d = Drive::identify(Rank::Primary(Hierarchy::Master), 0x1F0, 0x3F6, 0x50, false, &identify_words()).unwrap();
    assert_eq!(d.capabilities, Capabilities::Chs);
    assert_eq!(d.sector_capacity, NbrSectors(0));
    assert!(Drive::identify(Rank::Primary(Hierarchy::Master), 0x1F0, 0x3F6, 0, false, &v).is_none());
    assert!(Drive::identify(Rank::Primary(Hierarchy::Master), 0x1F0, 0x3F6, 0x51, true, &v).is_none());
}

#[test]
fn identify_writes_select_then_command() {
    let w = Drive::identify_writes(Rank::Primary(Hierarchy::Slave), 0x1F0);
    assert_eq!(w[0], PortWrite { port: 0x1F6, value: 0xB0 });
    assert_eq!(w[5], PortWrite { port: 0x1F7, value: 0xEC });
    assert_eq!(w.len(), 6);
}

#[test]
fn ata_bounds() {
    assert_eq!(check_bounds(Sector(0), NbrSectors(0), NbrSectors(10)), Err(AtaError::NothingToDo));
    assert_eq!(check_bounds(Sector(9), NbrSectors(2), NbrSectors(10)), Err(AtaError::OutOfBound));
    assert_eq!(check_bounds(Sector(8), NbrSectors(2), NbrSectors(10)), Ok(()));
}

#[test]
fn lba28_setup_writes() {
    let d = drive(Capabilities::Lba28, 1 << 20, Rank::Primary(Hierarchy::Master));
    let w = d.init_lba28(Sector(0x0A12_3456), NbrSectors(3));
    assert_eq!(
        w,
        vec![
            PortWrite { port: 0x1F6, value: 0xEA },
            PortWrite { port: 0x1F1, value: 0 },
            PortWrite { port: 0x1F2, value: 3 },
            PortWrite { port: 0x1F3, value: 0x56 },
            PortWrite { port: 0x1F4, value: 0x34 },
            PortWrite { port: 0x1F5, value: 0x12 },
        ]
    );
}

#[test]
fn lba48_setup_writes() {
    let d = drive(Capabilities::Lba48, 1 << 40, Rank::Primary(Hierarchy::Slave));
    let w = d.init_lba48(Sector(0x0605_0403_0201), NbrSectors(0x0102));
    let values: Vec<u8> = w.iter().map(|p| p.value).collect();
    assert_eq!(values, vec![0x50, 0x01, 0x04, 0x05, 0x06, 0x02, 0x01, 0x02, 0x03]);
    assert_eq!(w[0].port, 0x1F6);
    assert_eq!(w[1].port, 0x1F2);
}

#[test]
fn pio_read_in_chunks_of_256() {
    let d = drive(Capabilities::Lba28, 1000, Rank::Primary(Hierarchy::Master));
    let cmds = PioIo::read(&d, Sector(10), NbrSectors(300)).unwrap();
    assert_eq!(cmds.len(), 2);
    assert_eq!((cmds[0].start, cmds[0].count), (Sector(10), NbrSectors(256)));
    assert_eq!((cmds[1].start, cmds[1].count), (Sector(266), NbrSectors(44)));
    assert_eq!(cmds[0].command, PortWrite { port: 0x1F7, value: ATA_CMD_READ_PIO });
    assert_eq!(cmds[1].setup, d.init_lba28(Sector(266), NbrSectors(44)));
}

#[test]
fn pio_write_lba48_and_errors() {
    let d = drive(Capabilities::Lba48, 100, Rank::Primary(Hierarchy::Master));
    let cmds = PioIo::write(&d, Sector(0), NbrSectors(5)).unwrap();
    assert_eq!(cmds.len(), 1);
    assert_eq!(cmds[0].command, PortWrite { port: 0x1F7, value: ATA_CMD_WRITE_PIO_EXT });
    assert_eq!(PioIo::read(&d, Sector(99), NbrSectors(2)).err(), Some(AtaError::OutOfBound));
    let chs = drive(Capabilities::Chs, 100, Rank::Primary(Hierarchy::Master));
    assert_eq!(PioIo::read(&chs, Sector(0), NbrSectors(2)).err(), Some(AtaError::NotSupported));
    assert_ne!(ATA_CMD_READ_PIO_EXT, ATA_CMD_READ_PIO);
}

#[test]
fn pio_status_decisions() {
    assert_eq!(Drive::busy_wait(0x01), Some(Err(AtaError::IoError)));
    assert_eq!(Drive::busy_wait(0x08), Some(Ok(())));
    assert_eq!(Drive::busy_wait(0x88), None);
    assert!(Drive::wait_available(0x80));
    assert!(!Drive::wait_available(0x40));
    assert!(Drive::is_busy(0x80));
    assert!(!Drive::is_busy(0x08));
}

#[test]
fn flush_commands() {
    let d = drive(Capabilities::Lba48, 100, Rank::Primary(Hierarchy::Master));
    assert_eq!(d.fflush_write_cache(), Some(PortWrite { port: 0x1F7, value: 0xEA }));
    let d = drive(Capabilities::Lba28, 100, Rank::Primary(Hierarchy::Master));
    assert_eq!(d.fflush_write_cache(), Some(PortWrite { port: 0x1F7, value: 0xE7 }));
    let d = drive(Capabilities::Chs, 100, Rank::Primary(Hierarchy::Master));
    assert_eq!(d.fflush_write_cache(), None);
}

#[test]
fn words_and_bytes_roundtrip() {
    let words = vec![0x1234u16, 0xabcd];
    let bytes = words_to_bytes(&words);
    assert_eq!(bytes, vec![0x34, 0x12, 0xcd, 0xab]);
    assert_eq!(bytes_to_words(&bytes), words);
}

#[test]
fn udma_copy_in_then_out() {
    let (mut u, prdt, irq) = Udma::init(0xC001, Channel::Primary, 0x0010_0080);
    assert_eq!(prdt, PortWrite32 { port: 0xC004, value: 0x0010_0080 });
    assert_eq!(irq, Irq::PrimaryATAChannel);
    assert_eq!(u.get_bus_mastered_register(), 0xC000);
    assert_eq!(u.get_memory_amount(), 16 * 65536);
    let data: Vec<u8> = (0..70000u32).map(|i| (i % 253) as u8).collect();
    u.copy_in(&data);
    assert_eq!(u.copy_out(70000), data);
    assert_eq!(u.copy_out(70001)[70000], 0);
}

#[test]
fn udma_register_writes() {
    let (u, prdt, irq) = Udma::init(0xC008, Channel::Secondary, 0);
    assert_eq!(prdt.port, 0xC00C);
    assert_eq!(irq, Irq::SecondaryATAChannel);
    assert_eq!(u.start_transfer(0x8), PortWrite { port: 0xC008, value: 0x9 });
    assert_eq!(u.stop_transfer(0x9), PortWrite { port: 0xC008, value: 0x8 });
    assert_eq!(u.set_read(0x1), PortWrite { port: 0xC008, value: 0x9 });
    assert_eq!(u.set_write(0x9), PortWrite { port: 0xC008, value: 0x1 });
    assert_eq!(u.clear_interrupt(), PortWrite { port: 0xC00A, value: 0x4 });
    assert_eq!(u.clear_error(0x7), PortWrite { port: 0xC00A, value: 0x5 });
    assert_eq!(u.reset_command(), PortWrite { port: 0xC008, value: 0 });
    assert_eq!(u.get_status(0x42).bits, 0x42);
}

#[test]
fn dma_transfers() {
    let d = drive(Capabilities::Lba48, 1 << 20, Rank::Primary(Hierarchy::Master));
    let (mut u, _, _) = Udma::init(0xC000, Channel::Primary, 0);
    let t: DmaTransfer = DmaIo::read(&d, Sector(7), NbrSectors(5000), &mut u).unwrap();
    assert_eq!(t.sectors, NbrSectors(2048));
    assert_eq!(t.command, Some(PortWrite { port: 0x1F7, value: ATA_CMD_READ_DMA_EXT }));
    assert_eq!(t.setup, d.init_lba48(Sector(7), NbrSectors(2048)));
    let empty = DmaIo::read(&d, Sector(7), NbrSectors(0), &mut u).unwrap();
    assert_eq!(empty.sectors, NbrSectors(0));
    assert!(empty.command.is_none());
    let d28 = drive(Capabilities::Lba28, 1 << 20, Rank::Primary(Hierarchy::Master));
    let data = vec![0x5au8; 1024];
    let t = DmaIo::write(&d28, Sector(1), NbrSectors(2), &data, &mut u).unwrap();
    assert_eq!(t.command, Some(PortWrite { port: 0x1F7, value: ATA_CMD_WRITE_DMA }));
    assert_eq!(u.copy_out(1024), data);
    let chs = drive(Capabilities::Chs, 100, Rank::Primary(Hierarchy::Master));
    assert_eq!(DmaIo::read(&chs, Sector(0), NbrSectors(1), &mut u).err(), Some(AtaError::NotSupported));
}

#[test]
fn dma_status_decisions() {
    assert_eq!(Drive::dma_started(DmaStatus { bits: 0x2 }), Err(AtaError::IoError));
    assert_eq!(Drive::dma_started(DmaStatus { bits: 0x1 }), Ok(()));
    assert_eq!(Drive::dma_completion(DmaStatus { bits: 0x6 }), Some(Err(AtaError::IoError)));
    assert_eq!(Drive::dma_completion(DmaStatus { bits: 0x4 }), Some(Ok(())));
    assert_eq!(Drive::dma_completion(DmaStatus { bits: 0x1 }), None);
    assert_eq!(Drive::dma_disk_status(0x51), Err(AtaError::IoError));
    assert_eq!(Drive::dma_disk_status(0x50), Ok(()));
}

fn pci_words(bar4: u32) -> Vec<u32> {
    let mut w = vec![0u32; 16];
    w[0] = 0x7010_8086;
    w[2] = 0x0101_8000;
    w[8] = bar4;
    w
}

#[test]
fn controller_probes_its_drives() {
    let pci = PciType0::from_words(&pci_words(0xC001));
    let (mut c, setup) = IdeAtaController::new(pci, 0x8000_0800, (0x1000, 0x1080), |rank: Rank, cmd: u16, _ctl: u16| {
        if cmd == 0x1F0 && rank == Rank::Primary(Hierarchy::Master) {
            Some(drive(Capabilities::Lba28, 1000, rank))
        } else {
            None
        }
    });
    assert!(c.primary_master.is_some());
    assert!(c.secondary_master.is_none() && c.primary_slave.is_none() && c.secondary_slave.is_none());
    assert_eq!(c.udma_primary.as_ref().map(|u| u.get_bus_mastered_register()), Some(0xC000));
    assert_eq!(c.udma_secondary.as_ref().map(|u| u.get_bus_mastered_register()), Some(0xC008));
    assert_eq!(c.read().err(), Some(AtaError::DeviceNotFound));
    assert_eq!(c.select_drive(Rank::Primary(Hierarchy::Slave)), Err(AtaError::DeviceNotFound));
    assert_eq!(c.select_drive(Rank::Primary(Hierarchy::Master)), Ok(PortWrite { port: 0x1F6, value: 0xA0 }));
    let t = c.write().unwrap();
    assert!(t.dma);
    assert_eq!(t.drive.sector_capacity, NbrSectors(1000));
    assert_eq!(setup.bus_master, PciConfigWrite { address: 0x8000_0804, data: 0x0004 });
    assert_eq!(
        setup.prdt_writes,
        vec![PortWrite32 { port: 0xC004, value: 0x1000 }, PortWrite32 { port: 0xC00C, value: 0x1080 }]
    );
    assert_eq!(setup.irqs, vec![Irq::PrimaryATAChannel, Irq::SecondaryATAChannel]);
}

#[test]
fn controller_without_bus_master() {
    let pci = PciType0::from_words(&pci_words(0));
    let (c, setup) = IdeAtaController::new(pci, 0, (0, 0), |_r: Rank, _c: u16, _t: u16| -> Option<Drive> { None });
    assert!(setup.prdt_writes.is_empty() && setup.irqs.is_empty());
    assert_eq!(setup.bus_master, PciConfigWrite { address: 4, data: 0x0004 });
    assert!(c.udma_primary.is_none() && c.udma_secondary.is_none());
    let _unused: Option<PciDevice> = None;
}

#[test]
fn prdt_describes_each_buffer() {
    let phys: Vec<u32> = (0..16u32).map(|i| 0x0100_0000 + i * 0x10000).collect();
    let prdt = init_prdt(&phys);
    assert_eq!(prdt.len(), 16);
    assert_eq!(prdt[3], PrdEntry { addr: 0x0103_0000, size: 0, is_end: 0 });
}

#[test]
fn secondary_drives_are_probed_with_their_rank() {
    let pci = PciType0::from_words(&pci_words(0));
    let (c, _) = IdeAtaController::new(pci, 0, (0, 0), |rank: Rank, cmd: u16, _ctl: u16| {
        if cmd == 0x170 && rank == Rank::Secondary(Hierarchy::Slave) {
            Some(drive(Capabilities::Lba28, 10, rank))
        } else {
            None
        }
    });
    assert!(c.secondary_slave.is_some());
    assert!(c.primary_master.is_none() && c.primary_slave.is_none() && c.secondary_master.is_none());
}
