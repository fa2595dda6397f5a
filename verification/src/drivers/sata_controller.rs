//! The SATA controller as found on the PCI bus: the AHCI mass storage
//! device and its configuration space.
use super::pci::{
    first_of_class, MassStorageControllerSubClass, Pci, PciDeviceClass, PciType0, SerialAtaProgIf,
};
use vstd::prelude::*;

verus! {

/// The class of an AHCI 1.0 SATA controller.
pub open spec fn ahci_class() -> PciDeviceClass {
    PciDeviceClass::MassStorageController(
        MassStorageControllerSubClass::SerialAta(SerialAtaProgIf::Ahci1),
    )
}

/// A SATA controller: its configuration space and where it was found.
#[derive(Copy, Clone, Debug)]
pub struct SataController {
    pub pci: PciType0,
    pub location: u32,
}

impl SataController {
    /// The first AHCI controller of the devices found on `pci_bus`, its
    /// configuration space read with `read_config` at its location; `None`
    /// when there is none.
    pub fn init<F: Fn(u32) -> Vec<u32>>(pci_bus: &Pci, read_config: F) -> (r: Option<Self>)
        requires
            forall|l: u32| call_requires(read_config, (l,)),
            forall|l: u32, v: Vec<u32>| call_ensures(read_config, (l,), v) ==> v@.len() == 16,
        ensures
            first_of_class(pci_bus.devices_list.devices(), ahci_class()) is None ==> r is None,
            first_of_class(pci_bus.devices_list.devices(), ahci_class()) matches Some(l) ==> (
            r matches Some(s) && s.location == l && exists|v: Vec<u32>|
                call_ensures(read_config, (l,), v) && s.pci == PciType0::from_words_spec(v@)),
    {
        let location = match pci_bus.query_device(
            PciDeviceClass::MassStorageController(
                MassStorageControllerSubClass::SerialAta(SerialAtaProgIf::Ahci1),
            ),
        ) {
            Some(l) => l,
            None => return None,
        };
        let words = read_config(location);
        Some(SataController { pci: PciType0::from_words(&words), location })
    }
}

} // verus!
