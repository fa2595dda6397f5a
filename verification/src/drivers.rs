//! Device drivers: the 8259 PIC, the PCI bus, and friends.

pub mod acpi;
pub mod nmi;
pub mod pci;
pub mod pic_8259;
pub mod pit_8253;
pub mod sata_controller;
pub mod storage;
