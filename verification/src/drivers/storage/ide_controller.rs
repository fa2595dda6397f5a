//! The IDE controller as found on the PCI bus.
use crate::drivers::pci::{
    first_of_class, IdeControllerProgIf, MassStorageControllerSubClass, Pci, PciDeviceClass,
    PciType0,
};
use vstd::prelude::*;

verus! {

/// The class of an IDE controller in ISA compatibility mode only, bus
/// mastered.
pub open spec fn ide_class() -> PciDeviceClass {
    PciDeviceClass::MassStorageController(
        MassStorageControllerSubClass::IdeController(
            IdeControllerProgIf::IsaCompatibilityModeOnlyControllerBusMastered,
        ),
    )
}

/// An IDE controller: its configuration space and where it was found.
#[derive(Copy, Clone, Debug)]
pub struct IdeController {
    pub pci: PciType0,
    pub location: u32,
}

impl IdeController {
    /// The first bus mastered IDE controller of the devices found on
    /// `pci_bus`, its configuration space read with `read_config` at its
    /// location; `None` when there is none.
    pub fn init<F: Fn(u32) -> Vec<u32>>(pci_bus: &Pci, read_config: F) -> (r: Option<Self>)
        requires
            forall|l: u32| call_requires(read_config, (l,)),
            forall|l: u32, v: Vec<u32>| call_ensures(read_config, (l,), v) ==> v@.len() == 16,
        ensures
            first_of_class(pci_bus.devices_list.devices(), ide_class()) is None ==> r is None,
            first_of_class(pci_bus.devices_list.devices(), ide_class()) matches Some(l) ==> (
            r matches Some(s) && s.location == l && exists|v: Vec<u32>|
                call_ensures(read_config, (l,), v) && s.pci == PciType0::from_words_spec(v@)),
    {
        let location = match pci_bus.query_device(
            PciDeviceClass::MassStorageController(
                MassStorageControllerSubClass::IdeController(
                    IdeControllerProgIf::IsaCompatibilityModeOnlyControllerBusMastered,
                ),
            ),
        ) {
            Some(l) => l,
            None => return None,
        };
        let words = read_config(location);
        Some(IdeController { pci: PciType0::from_words(&words), location })
    }
}

} // verus!
