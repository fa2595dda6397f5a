//! The PCI bus: configuration space addresses, header decoding, class
//! decoding and the list of the devices found.
//!
//! See [PCI](https://wiki.osdev.org/PCI). The configuration space is read
//! through the CONFIG_ADDRESS and CONFIG_DATA ports by the caller; the
//! library decides what to read and decodes what was read.
use vstd::prelude::*;

verus! {

/// The class of a PCI device, with its subclass and programming interface where they are told apart.
#[derive(Debug, Copy, Clone, PartialEq, Eq, Structural)]
pub enum PciDeviceClass {
    Unclassified(UnclassifiedSubClass),
    MassStorageController(MassStorageControllerSubClass),
    NetworkController(NetworkControllerSubClass),
    DisplayController(DisplayControllerSubClass),
    MultimediaController(MultimediaControllerSubClass),
    MemoryController(MemoryControllerSubClass),
    BridgeDevice(BridgeDeviceSubClass),
    SimpleCommunicationController(SimpleCommunicationControllerSubClass),
    BaseSystemPeripheral(BaseSystemPeripheralSubClass),
    InputDeviceController(InputDeviceControllerSubClass),
    DockingStation(DockingStationSubClass),
    Processor(ProcessorSubClass),
    SerialBusController(SerialBusControllerSubClass),
    WirelessController(WirelessControllerSubClass),
    IntelligentController(IntelligentControllerSubClass),
    SatelliteCommunicationController(SatelliteCommunicationControllerSubClass),
    EncryptionController(EncryptionControllerSubClass),
    SignalProcessingController(SignalProcessingControllerSubClass),
    ProcessingAccelerator,
    NonEssentialInstrumentation,
    Reserved0x3f,
    CoProcessor,
    Reserved0xfe,
    UnassignedClassVendorSpecific,
    Unknown,
}

/// The subclasses of the `Unclassified` class.
#[derive(Debug, Copy, Clone, PartialEq, Eq, Structural)]
pub enum UnclassifiedSubClass {
    NonVgaCompatibleDevice,
    VgaCompatibleDevice,
    Unknown,
}

/// The subclasses of the `MassStorageController` class.
#[derive(Debug, Copy, Clone, PartialEq, Eq, Structural)]
pub enum MassStorageControllerSubClass {
    ScsiBusController,
    IdeController(IdeControllerProgIf),
    FloppyDiskController,
    IpiBusController,
    RaidController,
    AtaController(AtaControllerProgIf),
    SerialAta(SerialAtaProgIf),
    SerialAttachedScsi(SerialAttachedScsiProgIf),
    NonVolatileMemoryController(NonVolatileMemoryControllerProgIf),
    Other,
    Unknown,
}

/// The programming interfaces of the `IdeController` subclass.
#[derive(Debug, Copy, Clone, PartialEq, Eq, Structural)]
pub enum IdeControllerProgIf {
    IsaCompatibilityModeOnlyController,
    PciNativeModeOnlyController,
    IsaCompatibilityModeController,
    PciNativeModeController,
    IsaCompatibilityModeOnlyControllerBusMastered,
    PciNativeModeOnlyControllerBusMastered,
    IsaCompatibilityModeControllerBusMastered,
    PciNativeModeControllerBusMastered,
    Unknown,
}

/// The programming interfaces of the `AtaController` subclass.
#[derive(Debug, Copy, Clone, PartialEq, Eq, Structural)]
pub enum AtaControllerProgIf {
    SingleDma,
    ChainedDma,
    Unknown,
}

/// The programming interfaces of the `SerialAta` subclass.
#[derive(Debug, Copy, Clone, PartialEq, Eq, Structural)]
pub enum SerialAtaProgIf {
    VendorSpecificInterface,
    Ahci1,
    SerialStorageBus,
    Unknown,
}

/// The programming interfaces of the `SerialAttachedScsi` subclass.
#[derive(Debug, Copy, Clone, PartialEq, Eq, Structural)]
pub enum SerialAttachedScsiProgIf {
    Sas,
    SerialStorageBus,
    Unknown,
}

/// The programming interfaces of the `NonVolatileMemoryController` subclass.
#[derive(Debug, Copy, Clone, PartialEq, Eq, Structural)]
pub enum NonVolatileMemoryControllerProgIf {
    Nvmhci,
    NvmExpress,
    Unknown,
}

/// The subclasses of the `NetworkController` class.
#[derive(Debug, Copy, Clone, PartialEq, Eq, Structural)]
pub enum NetworkControllerSubClass {
    EthernetController,
    TokenRingController,
    FddiController,
    AtmController,
    IsdnController,
    WorldFipController,
    Picmg214MultiComputing,
    InfinibandController,
    FabricController,
    Other,
    Unknown,
}

/// The subclasses of the `DisplayController` class.
#[derive(Debug, Copy, Clone, PartialEq, Eq, Structural)]
pub enum DisplayControllerSubClass {
    VgaCompatibleController(VgaCompatibleControllerProgIf),
    XgaController,
    Controller3d,
    Other,
    Unknown,
}

/// The programming interfaces of the `VgaCompatibleController` subclass.
#[derive(Debug, Copy, Clone, PartialEq, Eq, Structural)]
pub enum VgaCompatibleControllerProgIf {
    VgaController,
    Compatible8514Controller,
    Unknown,
}

/// The subclasses of the `MultimediaController` class.
#[derive(Debug, Copy, Clone, PartialEq, Eq, Structural)]
pub enum MultimediaControllerSubClass {
    MultimediaVideoController,
    MultimediaAudioController,
    ComputerTelephonyDevice,
    AudioDevice,
    Other,
    Unknown,
}

/// The subclasses of the `MemoryController` class.
#[derive(Debug, Copy, Clone, PartialEq, Eq, Structural)]
pub enum MemoryControllerSubClass {
    RamController,
    FlashController,
    Other,
    Unknown,
}

/// The subclasses of the `BridgeDevice` class.
#[derive(Debug, Copy, Clone, PartialEq, Eq, Structural)]
pub enum BridgeDeviceSubClass {
    HostBridge,
    IsaBridge,
    EisaBridge,
    McaBridge,
    PciToPciBridge(PciToPciBridgeProgIf),
    PcmciaBridge,
    NuBusBridge,
    CardBusBridge,
    RaceWayBridge(RaceWayBridgeProgIf),
    PciToPciBridge2(PciToPciBridge2ProgIf),
    InfiniBandToPciHostBridge,
    Other,
    Unknown,
}

/// The programming interfaces of the `PciToPciBridge` subclass.
#[derive(Debug, Copy, Clone, PartialEq, Eq, Structural)]
pub enum PciToPciBridgeProgIf {
    NormalDecode,
    SubtractiveDecode,
    Unknown,
}

/// The programming interfaces of the `RaceWayBridge` subclass.
#[derive(Debug, Copy, Clone, PartialEq, Eq, Structural)]
pub enum RaceWayBridgeProgIf {
    TransparentMode,
    EndpointMode,
    Unknown,
}

/// The programming interfaces of the `PciToPciBridge2` subclass.
#[derive(Debug, Copy, Clone, PartialEq, Eq, Structural)]
pub enum PciToPciBridge2ProgIf {
    SemiTransparentPrimaryBusTowardsHostCPU,
    SemiTransparentSecondaryBusTowardsHostCPU,
    Unknown,
}

/// The subclasses of the `SimpleCommunicationController` class.
#[derive(Debug, Copy, Clone, PartialEq, Eq, Structural)]
pub enum SimpleCommunicationControllerSubClass {
    SerialController(SerialControllerProgIf),
    ParallelController(ParallelControllerProgIf),
    MultiportSerialController,
    Modem(ModemProgIf),
    Ieee488v1s2GpibController,
    SmartCard,
    Other,
    Unknown,
}

/// The programming interfaces of the `SerialController` subclass.
#[derive(Debug, Copy, Clone, PartialEq, Eq, Structural)]
pub enum SerialControllerProgIf {
    CompatibleGenericXT,
    Compatible16450,
    Compatible16550,
    Compatible16650,
    Compatible16750,
    Compatible16850,
    Compatible16950,
    Unknown,
}

/// The programming interfaces of the `ParallelController` subclass.
#[derive(Debug, Copy, Clone, PartialEq, Eq, Structural)]
pub enum ParallelControllerProgIf {
    StandardParallelPort,
    BiDirectionalParallelPort,
    ECPv1XCompliantParallelPort,
    IEEE1284Controller,
    IEEE1284TargetDevice,
    Unknown,
}

/// The programming interfaces of the `Modem` subclass.
#[derive(Debug, Copy, Clone, PartialEq, Eq, Structural)]
pub enum ModemProgIf {
    GenericModem,
    Hayes16450CompatibleInterface,
    Hayes16550CompatibleInterface,
    Hayes16650CompatibleInterface,
    Hayes16750CompatibleInterface,
    Unknown,
}

/// The subclasses of the `BaseSystemPeripheral` class.
#[derive(Debug, Copy, Clone, PartialEq, Eq, Structural)]
pub enum BaseSystemPeripheralSubClass {
    Pic(PicProgIf),
    DmaController(DmaControllerProgIf),
    Timer(TimerProgIf),
    RtcController(RtcControllerProgIf),
    PciHotPlugController,
    SdHostController,
    Iommu,
    Other,
    Unknown,
}

/// The programming interfaces of the `Pic` subclass.
#[derive(Debug, Copy, Clone, PartialEq, Eq, Structural)]
pub enum PicProgIf {
    Generic8259Compatible,
    ISACompatible,
    EISACompatible,
    IOAPICInterruptController,
    IOxAPICInterruptController,
    Unknown,
}

/// The programming interfaces of the `DmaController` subclass.
#[derive(Debug, Copy, Clone, PartialEq, Eq, Structural)]
pub enum DmaControllerProgIf {
    Generic8237Compatible,
    ISACompatible,
    EISACompatible,
    Unknown,
}

/// The programming interfaces of the `Timer` subclass.
#[derive(Debug, Copy, Clone, PartialEq, Eq, Structural)]
pub enum TimerProgIf {
    Generic8254Compatible,
    ISACompatible,
    EISACompatible,
    HPET,
    Unknown,
}

/// The programming interfaces of the `RtcController` subclass.
#[derive(Debug, Copy, Clone, PartialEq, Eq, Structural)]
pub enum RtcControllerProgIf {
    GenericRTC,
    ISACompatible,
    Unknown,
}

/// The subclasses of the `InputDeviceController` class.
#[derive(Debug, Copy, Clone, PartialEq, Eq, Structural)]
pub enum InputDeviceControllerSubClass {
    KeyboardController,
    DigitizerPen,
    MouseController,
    ScannerController,
    GameportController(GameportControllerProgIf),
    Other,
    Unknown,
}

/// The programming interfaces of the `GameportController` subclass.
#[derive(Debug, Copy, Clone, PartialEq, Eq, Structural)]
pub enum GameportControllerProgIf {
    Generic,
    Extended,
    Unknown,
}

/// The subclasses of the `DockingStation` class.
#[derive(Debug, Copy, Clone, PartialEq, Eq, Structural)]
pub enum DockingStationSubClass {
    Generic,
    Other,
    Unknown,
}

/// The subclasses of the `Processor` class.
#[derive(Debug, Copy, Clone, PartialEq, Eq, Structural)]
pub enum ProcessorSubClass {
    I386,
    I486,
    Pentium,
    Alpha,
    PowerPC,
    Mips,
    CoProcessor,
    Unknown,
}

/// The subclasses of the `SerialBusController` class.
#[derive(Debug, Copy, Clone, PartialEq, Eq, Structural)]
pub enum SerialBusControllerSubClass {
    FireWireIeee1394Controller(FireWireIeee1394ControllerProgIf),
    AccessBus,
    Ssa,
    UsbController(UsbControllerProgIf),
    FibreChannel,
    SmBus,
    InfiniBand,
    IpmiInterface(IpmiInterfaceProgIf),
    SercosInterfaceIec61491,
    CANbus,
    Unknown,
}

/// The programming interfaces of the `FireWireIeee1394Controller` subclass.
#[derive(Debug, Copy, Clone, PartialEq, Eq, Structural)]
pub enum FireWireIeee1394ControllerProgIf {
    Generic,
    OHCI,
    Unknown,
}

/// The programming interfaces of the `UsbController` subclass.
#[derive(Debug, Copy, Clone, PartialEq, Eq, Structural)]
pub enum UsbControllerProgIf {
    UHCIController,
    OHCIController,
    EHCIUsb2Controller,
    XHCIUsb3Controller,
    Unspecified,
    USBDeviceNotAHostControler,
    Unknown,
}

/// The programming interfaces of the `IpmiInterface` subclass.
#[derive(Debug, Copy, Clone, PartialEq, Eq, Structural)]
pub enum IpmiInterfaceProgIf {
    SMIC,
    KeyboardControllerStyle,
    BlockTransfer,
    Unknown,
}

/// The subclasses of the `WirelessController` class.
#[derive(Debug, Copy, Clone, PartialEq, Eq, Structural)]
pub enum WirelessControllerSubClass {
    IrdaCompatibleController,
    ConsumerIrController,
    RfController,
    BluetoothController,
    BroadbandController,
    EthernetController802v1a,
    EthernetController802v1b,
    Other,
    Unknown,
}

/// The subclasses of the `IntelligentController` class.
#[derive(Debug, Copy, Clone, PartialEq, Eq, Structural)]
pub enum IntelligentControllerSubClass {
    I20,
    Unknown,
}

/// The subclasses of the `SatelliteCommunicationController` class.
#[derive(Debug, Copy, Clone, PartialEq, Eq, Structural)]
pub enum SatelliteCommunicationControllerSubClass {
    SatelliteTVController,
    SatelliteAudioController,
    SatelliteVoiceController,
    SatelliteDataController,
    Unknown,
}

/// The subclasses of the `EncryptionController` class.
#[derive(Debug, Copy, Clone, PartialEq, Eq, Structural)]
pub enum EncryptionControllerSubClass {
    NetworkAndComputingEncrpytionDecryption,
    EntertainmentEncryptionDecryption,
    OtherEncryptionDecryption,
    Unknown,
}

/// The subclasses of the `SignalProcessingController` class.
#[derive(Debug, Copy, Clone, PartialEq, Eq, Structural)]
pub enum SignalProcessingControllerSubClass {
    DpioModules,
    PerformanceCounters,
    CommunicationSynchronizer,
    SignalProcessingManagement,
    Other,
    Unknown,
}

/// The class that the codes of a PCI header name: `id` (the class code),
/// `subclass` and `prog_if`, as the PCI specification lists them.
pub open spec fn pci_class(id: u8, subclass: u8, prog_if: u8) -> PciDeviceClass {
    match id {
        0x0u8 => PciDeviceClass::Unclassified(
            match subclass {
                0x0u8 => UnclassifiedSubClass::NonVgaCompatibleDevice,
                0x1u8 => UnclassifiedSubClass::VgaCompatibleDevice,
                _ => UnclassifiedSubClass::Unknown,
            }
        ),
        0x1u8 => PciDeviceClass::MassStorageController(
            match subclass {
                0x0u8 => MassStorageControllerSubClass::ScsiBusController,
                0x1u8 => MassStorageControllerSubClass::IdeController(
                    match prog_if {
                        0x0u8 => IdeControllerProgIf::IsaCompatibilityModeOnlyController,
                        0x5u8 => IdeControllerProgIf::PciNativeModeOnlyController,
                        0xAu8 => IdeControllerProgIf::IsaCompatibilityModeController,
                        0xFu8 => IdeControllerProgIf::PciNativeModeController,
                        0x80u8 => IdeControllerProgIf::IsaCompatibilityModeOnlyControllerBusMastered,
                        0x85u8 => IdeControllerProgIf::PciNativeModeOnlyControllerBusMastered,
                        0x8Au8 => IdeControllerProgIf::IsaCompatibilityModeControllerBusMastered,
                        0x8Fu8 => IdeControllerProgIf::PciNativeModeControllerBusMastered,
                        _ => IdeControllerProgIf::Unknown,
                    }
                ),
                0x2u8 => MassStorageControllerSubClass::FloppyDiskController,
                0x3u8 => MassStorageControllerSubClass::IpiBusController,
                0x4u8 => MassStorageControllerSubClass::RaidController,
                0x5u8 => MassStorageControllerSubClass::AtaController(
                    match prog_if {
                        0x20u8 => AtaControllerProgIf::SingleDma,
                        0x30u8 => AtaControllerProgIf::ChainedDma,
                        _ => AtaControllerProgIf::Unknown,
                    }
                ),
                0x6u8 => MassStorageControllerSubClass::SerialAta(
                    match prog_if {
                        0x0u8 => SerialAtaProgIf::VendorSpecificInterface,
                        0x1u8 => SerialAtaProgIf::Ahci1,
                        0x2u8 => SerialAtaProgIf::SerialStorageBus,
                        _ => SerialAtaProgIf::Unknown,
                    }
                ),
                0x7u8 => MassStorageControllerSubClass::SerialAttachedScsi(
                    match prog_if {
                        0x0u8 => SerialAttachedScsiProgIf::Sas,
                        0x1u8 => SerialAttachedScsiProgIf::SerialStorageBus,
                        _ => SerialAttachedScsiProgIf::Unknown,
                    }
                ),
                0x8u8 => MassStorageControllerSubClass::NonVolatileMemoryController(
                    match prog_if {
                        0x1u8 => NonVolatileMemoryControllerProgIf::Nvmhci,
                        0x2u8 => NonVolatileMemoryControllerProgIf::NvmExpress,
                        _ => NonVolatileMemoryControllerProgIf::Unknown,
                    }
                ),
                0x80u8 => MassStorageControllerSubClass::Other,
                _ => MassStorageControllerSubClass::Unknown,
            }
        ),
        0x2u8 => PciDeviceClass::NetworkController(
            match subclass {
                0x0u8 => NetworkControllerSubClass::EthernetController,
                0x1u8 => NetworkControllerSubClass::TokenRingController,
                0x2u8 => NetworkControllerSubClass::FddiController,
                0x3u8 => NetworkControllerSubClass::AtmController,
                0x4u8 => NetworkControllerSubClass::IsdnController,
                0x5u8 => NetworkControllerSubClass::WorldFipController,
                0x6u8 => NetworkControllerSubClass::Picmg214MultiComputing,
                0x7u8 => NetworkControllerSubClass::InfinibandController,
                0x8u8 => NetworkControllerSubClass::FabricController,
                0x80u8 => NetworkControllerSubClass::Other,
                _ => NetworkControllerSubClass::Unknown,
            }
        ),
        0x3u8 => PciDeviceClass::DisplayController(
            match subclass {
                0x0u8 => DisplayControllerSubClass::VgaCompatibleController(
                    match prog_if {
                        0x0u8 => VgaCompatibleControllerProgIf::VgaController,
                        0x1u8 => VgaCompatibleControllerProgIf::Compatible8514Controller,
                        _ => VgaCompatibleControllerProgIf::Unknown,
                    }
                ),
                0x1u8 => DisplayControllerSubClass::XgaController,
                0x2u8 => DisplayControllerSubClass::Controller3d,
                0x80u8 => DisplayControllerSubClass::Other,
                _ => DisplayControllerSubClass::Unknown,
            }
        ),
        0x4u8 => PciDeviceClass::MultimediaController(
            match subclass {
                0x0u8 => MultimediaControllerSubClass::MultimediaVideoController,
                0x1u8 => MultimediaControllerSubClass::MultimediaAudioController,
                0x2u8 => MultimediaControllerSubClass::ComputerTelephonyDevice,
                0x3u8 => MultimediaControllerSubClass::AudioDevice,
                0x80u8 => MultimediaControllerSubClass::Other,
                _ => MultimediaControllerSubClass::Unknown,
            }
        ),
        0x5u8 => PciDeviceClass::MemoryController(
            match subclass {
                0x0u8 => MemoryControllerSubClass::RamController,
                0x1u8 => MemoryControllerSubClass::FlashController,
                0x80u8 => MemoryControllerSubClass::Other,
                _ => MemoryControllerSubClass::Unknown,
            }
        ),
        0x6u8 => PciDeviceClass::BridgeDevice(
            match subclass {
                0x0u8 => BridgeDeviceSubClass::HostBridge,
                0x1u8 => BridgeDeviceSubClass::IsaBridge,
                0x2u8 => BridgeDeviceSubClass::EisaBridge,
                0x3u8 => BridgeDeviceSubClass::McaBridge,
                0x4u8 => BridgeDeviceSubClass::PciToPciBridge(
                    match prog_if {
                        0x0u8 => PciToPciBridgeProgIf::NormalDecode,
                        0x1u8 => PciToPciBridgeProgIf::SubtractiveDecode,
                        _ => PciToPciBridgeProgIf::Unknown,
                    }
                ),
                0x5u8 => BridgeDeviceSubClass::PcmciaBridge,
                0x6u8 => BridgeDeviceSubClass::NuBusBridge,
                0x7u8 => BridgeDeviceSubClass::CardBusBridge,
                0x8u8 => BridgeDeviceSubClass::RaceWayBridge(
                    match prog_if {
                        0x0u8 => RaceWayBridgeProgIf::TransparentMode,
                        0x1u8 => RaceWayBridgeProgIf::EndpointMode,
                        _ => RaceWayBridgeProgIf::Unknown,
                    }
                ),
                0x9u8 => BridgeDeviceSubClass::PciToPciBridge2(
                    match prog_if {
                        0x40u8 => PciToPciBridge2ProgIf::SemiTransparentPrimaryBusTowardsHostCPU,
                        0x80u8 => PciToPciBridge2ProgIf::SemiTransparentSecondaryBusTowardsHostCPU,
                        _ => PciToPciBridge2ProgIf::Unknown,
                    }
                ),
                0xAu8 => BridgeDeviceSubClass::InfiniBandToPciHostBridge,
                0x80u8 => BridgeDeviceSubClass::Other,
                _ => BridgeDeviceSubClass::Unknown,
            }
        ),
        0x7u8 => PciDeviceClass::SimpleCommunicationController(
            match subclass {
                0x0u8 => SimpleCommunicationControllerSubClass::SerialController(
                    match prog_if {
                        0x0u8 => SerialControllerProgIf::CompatibleGenericXT,
                        0x1u8 => SerialControllerProgIf::Compatible16450,
                        0x2u8 => SerialControllerProgIf::Compatible16550,
                        0x3u8 => SerialControllerProgIf::Compatible16650,
                        0x4u8 => SerialControllerProgIf::Compatible16750,
                        0x5u8 => SerialControllerProgIf::Compatible16850,
                        0x6u8 => SerialControllerProgIf::Compatible16950,
                        _ => SerialControllerProgIf::Unknown,
                    }
                ),
                0x1u8 => SimpleCommunicationControllerSubClass::ParallelController(
                    match prog_if {
                        0x0u8 => ParallelControllerProgIf::StandardParallelPort,
                        0x1u8 => ParallelControllerProgIf::BiDirectionalParallelPort,
                        0x2u8 => ParallelControllerProgIf::ECPv1XCompliantParallelPort,
                        0x3u8 => ParallelControllerProgIf::IEEE1284Controller,
                        0xFEu8 => ParallelControllerProgIf::IEEE1284TargetDevice,
                        _ => ParallelControllerProgIf::Unknown,
                    }
                ),
                0x2u8 => SimpleCommunicationControllerSubClass::MultiportSerialController,
                0x3u8 => SimpleCommunicationControllerSubClass::Modem(
                    match prog_if {
                        0x0u8 => ModemProgIf::GenericModem,
                        0x1u8 => ModemProgIf::Hayes16450CompatibleInterface,
                        0x2u8 => ModemProgIf::Hayes16550CompatibleInterface,
                        0x3u8 => ModemProgIf::Hayes16650CompatibleInterface,
                        0x4u8 => ModemProgIf::Hayes16750CompatibleInterface,
                        _ => ModemProgIf::Unknown,
                    }
                ),
                0x4u8 => SimpleCommunicationControllerSubClass::Ieee488v1s2GpibController,
                0x5u8 => SimpleCommunicationControllerSubClass::SmartCard,
                0x80u8 => SimpleCommunicationControllerSubClass::Other,
                _ => SimpleCommunicationControllerSubClass::Unknown,
            }
        ),
        0x8u8 => PciDeviceClass::BaseSystemPeripheral(
            match subclass {
                0x0u8 => BaseSystemPeripheralSubClass::Pic(
                    match prog_if {
                        0x0u8 => PicProgIf::Generic8259Compatible,
                        0x1u8 => PicProgIf::ISACompatible,
                        0x2u8 => PicProgIf::EISACompatible,
                        0x10u8 => PicProgIf::IOAPICInterruptController,
                        0x20u8 => PicProgIf::IOxAPICInterruptController,
                        _ => PicProgIf::Unknown,
                    }
                ),
                0x1u8 => BaseSystemPeripheralSubClass::DmaController(
                    match prog_if {
                        0x0u8 => DmaControllerProgIf::Generic8237Compatible,
                        0x1u8 => DmaControllerProgIf::ISACompatible,
                        0x2u8 => DmaControllerProgIf::EISACompatible,
                        _ => DmaControllerProgIf::Unknown,
                    }
                ),
                0x2u8 => BaseSystemPeripheralSubClass::Timer(
                    match prog_if {
                        0x0u8 => TimerProgIf::Generic8254Compatible,
                        0x1u8 => TimerProgIf::ISACompatible,
                        0x2u8 => TimerProgIf::EISACompatible,
                        0x3u8 => TimerProgIf::HPET,
                        _ => TimerProgIf::Unknown,
                    }
                ),
                0x3u8 => BaseSystemPeripheralSubClass::RtcController(
                    match prog_if {
                        0x0u8 => RtcControllerProgIf::GenericRTC,
                        0x1u8 => RtcControllerProgIf::ISACompatible,
                        _ => RtcControllerProgIf::Unknown,
                    }
                ),
                0x4u8 => BaseSystemPeripheralSubClass::PciHotPlugController,
                0x5u8 => BaseSystemPeripheralSubClass::SdHostController,
                0x6u8 => BaseSystemPeripheralSubClass::Iommu,
                0x80u8 => BaseSystemPeripheralSubClass::Other,
                _ => BaseSystemPeripheralSubClass::Unknown,
            }
        ),
        0x9u8 => PciDeviceClass::InputDeviceController(
            match subclass {
                0x0u8 => InputDeviceControllerSubClass::KeyboardController,
                0x1u8 => InputDeviceControllerSubClass::DigitizerPen,
                0x2u8 => InputDeviceControllerSubClass::MouseController,
                0x3u8 => InputDeviceControllerSubClass::ScannerController,
                0x4u8 => InputDeviceControllerSubClass::GameportController(
                    match prog_if {
                        0x0u8 => GameportControllerProgIf::Generic,
                        0x10u8 => GameportControllerProgIf::Extended,
                        _ => GameportControllerProgIf::Unknown,
                    }
                ),
                0x80u8 => InputDeviceControllerSubClass::Other,
                _ => InputDeviceControllerSubClass::Unknown,
            }
        ),
        0xAu8 => PciDeviceClass::DockingStation(
            match subclass {
                0x0u8 => DockingStationSubClass::Generic,
                0x80u8 => DockingStationSubClass::Other,
                _ => DockingStationSubClass::Unknown,
            }
        ),
        0xBu8 => PciDeviceClass::Processor(
            match subclass {
                0x0u8 => ProcessorSubClass::I386,
                0x1u8 => ProcessorSubClass::I486,
                0x2u8 => ProcessorSubClass::Pentium,
                0x10u8 => ProcessorSubClass::Alpha,
                0x20u8 => ProcessorSubClass::PowerPC,
                0x30u8 => ProcessorSubClass::Mips,
                0x40u8 => ProcessorSubClass::CoProcessor,
                _ => ProcessorSubClass::Unknown,
            }
        ),
        0xCu8 => PciDeviceClass::SerialBusController(
            match subclass {
                0x0u8 => SerialBusControllerSubClass::FireWireIeee1394Controller(
                    match prog_if {
                        0x0u8 => FireWireIeee1394ControllerProgIf::Generic,
                        0x10u8 => FireWireIeee1394ControllerProgIf::OHCI,
                        _ => FireWireIeee1394ControllerProgIf::Unknown,
                    }
                ),
                0x1u8 => SerialBusControllerSubClass::AccessBus,
                0x2u8 => SerialBusControllerSubClass::Ssa,
                0x3u8 => SerialBusControllerSubClass::UsbController(
                    match prog_if {
                        0x0u8 => UsbControllerProgIf::UHCIController,
                        0x10u8 => UsbControllerProgIf::OHCIController,
                        0x20u8 => UsbControllerProgIf::EHCIUsb2Controller,
                        0x30u8 => UsbControllerProgIf::XHCIUsb3Controller,
                        0x80u8 => UsbControllerProgIf::Unspecified,
                        0xFEu8 => UsbControllerProgIf::USBDeviceNotAHostControler,
                        _ => UsbControllerProgIf::Unknown,
                    }
                ),
                0x4u8 => SerialBusControllerSubClass::FibreChannel,
                0x5u8 => SerialBusControllerSubClass::SmBus,
                0x6u8 => SerialBusControllerSubClass::InfiniBand,
                0x7u8 => SerialBusControllerSubClass::IpmiInterface(
                    match prog_if {
                        0x0u8 => IpmiInterfaceProgIf::SMIC,
                        0x1u8 => IpmiInterfaceProgIf::KeyboardControllerStyle,
                        0x2u8 => IpmiInterfaceProgIf::BlockTransfer,
                        _ => IpmiInterfaceProgIf::Unknown,
                    }
                ),
                0x8u8 => SerialBusControllerSubClass::SercosInterfaceIec61491,
                0x9u8 => SerialBusControllerSubClass::CANbus,
                _ => SerialBusControllerSubClass::Unknown,
            }
        ),
        0xDu8 => PciDeviceClass::WirelessController(
            match subclass {
                0x0u8 => WirelessControllerSubClass::IrdaCompatibleController,
                0x1u8 => WirelessControllerSubClass::ConsumerIrController,
                0x10u8 => WirelessControllerSubClass::RfController,
                0x11u8 => WirelessControllerSubClass::BluetoothController,
                0x12u8 => WirelessControllerSubClass::BroadbandController,
                0x20u8 => WirelessControllerSubClass::EthernetController802v1a,
                0x21u8 => WirelessControllerSubClass::EthernetController802v1b,
                0x80u8 => WirelessControllerSubClass::Other,
                _ => WirelessControllerSubClass::Unknown,
            }
        ),
        0xEu8 => PciDeviceClass::IntelligentController(
            match subclass {
                0x0u8 => IntelligentControllerSubClass::I20,
                _ => IntelligentControllerSubClass::Unknown,
            }
        ),
        0xFu8 => PciDeviceClass::SatelliteCommunicationController(
            match subclass {
                0x1u8 => SatelliteCommunicationControllerSubClass::SatelliteTVController,
                0x2u8 => SatelliteCommunicationControllerSubClass::SatelliteAudioController,
                0x3u8 => SatelliteCommunicationControllerSubClass::SatelliteVoiceController,
                0x4u8 => SatelliteCommunicationControllerSubClass::SatelliteDataController,
                _ => SatelliteCommunicationControllerSubClass::Unknown,
            }
        ),
        0x10u8 => PciDeviceClass::EncryptionController(
            match subclass {
                0x0u8 => EncryptionControllerSubClass::NetworkAndComputingEncrpytionDecryption,
                0x10u8 => EncryptionControllerSubClass::EntertainmentEncryptionDecryption,
                0x80u8 => EncryptionControllerSubClass::OtherEncryptionDecryption,
                _ => EncryptionControllerSubClass::Unknown,
            }
        ),
        0x11u8 => PciDeviceClass::SignalProcessingController(
            match subclass {
                0x0u8 => SignalProcessingControllerSubClass::DpioModules,
                0x1u8 => SignalProcessingControllerSubClass::PerformanceCounters,
                0x10u8 => SignalProcessingControllerSubClass::CommunicationSynchronizer,
                0x20u8 => SignalProcessingControllerSubClass::SignalProcessingManagement,
                0x80u8 => SignalProcessingControllerSubClass::Other,
                _ => SignalProcessingControllerSubClass::Unknown,
            }
        ),
        0x12u8 => PciDeviceClass::ProcessingAccelerator,
        0x13u8 => PciDeviceClass::NonEssentialInstrumentation,
        0x14u8 => PciDeviceClass::Reserved0x3f,
        0x40u8 => PciDeviceClass::CoProcessor,
        0x41u8 => PciDeviceClass::Reserved0xfe,
        0xFFu8 => PciDeviceClass::UnassignedClassVendorSpecific,
        _ => PciDeviceClass::Unknown,
    }
}

/// The class code, subclass and programming interface that name the class
/// `c` in the PCI class code table, each `None` where `c` is the unknown
/// entry of that level (a subclass or programming interface the table does
/// not name).
pub open spec fn pci_class_code(c: PciDeviceClass) -> (Option<u8>, Option<u8>, Option<u8>) {
    match c {
        PciDeviceClass::Unclassified(s) => match s {
            UnclassifiedSubClass::NonVgaCompatibleDevice => (Some(0x0u8), Some(0x0u8), None),
            UnclassifiedSubClass::VgaCompatibleDevice => (Some(0x0u8), Some(0x1u8), None),
            UnclassifiedSubClass::Unknown => (Some(0x0u8), None, None),
        },
        PciDeviceClass::MassStorageController(s) => match s {
            MassStorageControllerSubClass::ScsiBusController => (Some(0x1u8), Some(0x0u8), None),
            MassStorageControllerSubClass::IdeController(p) => match p {
                IdeControllerProgIf::IsaCompatibilityModeOnlyController => (Some(0x1u8), Some(0x1u8), Some(0x0u8)),
                IdeControllerProgIf::PciNativeModeOnlyController => (Some(0x1u8), Some(0x1u8), Some(0x5u8)),
                IdeControllerProgIf::IsaCompatibilityModeController => (Some(0x1u8), Some(0x1u8), Some(0xAu8)),
                IdeControllerProgIf::PciNativeModeController => (Some(0x1u8), Some(0x1u8), Some(0xFu8)),
                IdeControllerProgIf::IsaCompatibilityModeOnlyControllerBusMastered => (Some(0x1u8), Some(0x1u8), Some(0x80u8)),
                IdeControllerProgIf::PciNativeModeOnlyControllerBusMastered => (Some(0x1u8), Some(0x1u8), Some(0x85u8)),
                IdeControllerProgIf::IsaCompatibilityModeControllerBusMastered => (Some(0x1u8), Some(0x1u8), Some(0x8Au8)),
                IdeControllerProgIf::PciNativeModeControllerBusMastered => (Some(0x1u8), Some(0x1u8), Some(0x8Fu8)),
                IdeControllerProgIf::Unknown => (Some(0x1u8), Some(0x1u8), None),
            },
            MassStorageControllerSubClass::FloppyDiskController => (Some(0x1u8), Some(0x2u8), None),
            MassStorageControllerSubClass::IpiBusController => (Some(0x1u8), Some(0x3u8), None),
            MassStorageControllerSubClass::RaidController => (Some(0x1u8), Some(0x4u8), None),
            MassStorageControllerSubClass::AtaController(p) => match p {
                AtaControllerProgIf::SingleDma => (Some(0x1u8), Some(0x5u8), Some(0x20u8)),
                AtaControllerProgIf::ChainedDma => (Some(0x1u8), Some(0x5u8), Some(0x30u8)),
                AtaControllerProgIf::Unknown => (Some(0x1u8), Some(0x5u8), None),
            },
            MassStorageControllerSubClass::SerialAta(p) => match p {
                SerialAtaProgIf::VendorSpecificInterface => (Some(0x1u8), Some(0x6u8), Some(0x0u8)),
                SerialAtaProgIf::Ahci1 => (Some(0x1u8), Some(0x6u8), Some(0x1u8)),
                SerialAtaProgIf::SerialStorageBus => (Some(0x1u8), Some(0x6u8), Some(0x2u8)),
                SerialAtaProgIf::Unknown => (Some(0x1u8), Some(0x6u8), None),
            },
            MassStorageControllerSubClass::SerialAttachedScsi(p) => match p {
                SerialAttachedScsiProgIf::Sas => (Some(0x1u8), Some(0x7u8), Some(0x0u8)),
                SerialAttachedScsiProgIf::SerialStorageBus => (Some(0x1u8), Some(0x7u8), Some(0x1u8)),
                SerialAttachedScsiProgIf::Unknown => (Some(0x1u8), Some(0x7u8), None),
            },
            MassStorageControllerSubClass::NonVolatileMemoryController(p) => match p {
                NonVolatileMemoryControllerProgIf::Nvmhci => (Some(0x1u8), Some(0x8u8), Some(0x1u8)),
                NonVolatileMemoryControllerProgIf::NvmExpress => (Some(0x1u8), Some(0x8u8), Some(0x2u8)),
                NonVolatileMemoryControllerProgIf::Unknown => (Some(0x1u8), Some(0x8u8), None),
            },
            MassStorageControllerSubClass::Other => (Some(0x1u8), Some(0x80u8), None),
            MassStorageControllerSubClass::Unknown => (Some(0x1u8), None, None),
        },
        PciDeviceClass::NetworkController(s) => match s {
            NetworkControllerSubClass::EthernetController => (Some(0x2u8), Some(0x0u8), None),
            NetworkControllerSubClass::TokenRingController => (Some(0x2u8), Some(0x1u8), None),
            NetworkControllerSubClass::FddiController => (Some(0x2u8), Some(0x2u8), None),
            NetworkControllerSubClass::AtmController => (Some(0x2u8), Some(0x3u8), None),
            NetworkControllerSubClass::IsdnController => (Some(0x2u8), Some(0x4u8), None),
            NetworkControllerSubClass::WorldFipController => (Some(0x2u8), Some(0x5u8), None),
            NetworkControllerSubClass::Picmg214MultiComputing => (Some(0x2u8), Some(0x6u8), None),
            NetworkControllerSubClass::InfinibandController => (Some(0x2u8), Some(0x7u8), None),
            NetworkControllerSubClass::FabricController => (Some(0x2u8), Some(0x8u8), None),
            NetworkControllerSubClass::Other => (Some(0x2u8), Some(0x80u8), None),
            NetworkControllerSubClass::Unknown => (Some(0x2u8), None, None),
        },
        PciDeviceClass::DisplayController(s) => match s {
            DisplayControllerSubClass::VgaCompatibleController(p) => match p {
                VgaCompatibleControllerProgIf::VgaController => (Some(0x3u8), Some(0x0u8), Some(0x0u8)),
                VgaCompatibleControllerProgIf::Compatible8514Controller => (Some(0x3u8), Some(0x0u8), Some(0x1u8)),
                VgaCompatibleControllerProgIf::Unknown => (Some(0x3u8), Some(0x0u8), None),
            },
            DisplayControllerSubClass::XgaController => (Some(0x3u8), Some(0x1u8), None),
            DisplayControllerSubClass::Controller3d => (Some(0x3u8), Some(0x2u8), None),
            DisplayControllerSubClass::Other => (Some(0x3u8), Some(0x80u8), None),
            DisplayControllerSubClass::Unknown => (Some(0x3u8), None, None),
        },
        PciDeviceClass::MultimediaController(s) => match s {
            MultimediaControllerSubClass::MultimediaVideoController => (Some(0x4u8), Some(0x0u8), None),
            MultimediaControllerSubClass::MultimediaAudioController => (Some(0x4u8), Some(0x1u8), None),
            MultimediaControllerSubClass::ComputerTelephonyDevice => (Some(0x4u8), Some(0x2u8), None),
            MultimediaControllerSubClass::AudioDevice => (Some(0x4u8), Some(0x3u8), None),
            MultimediaControllerSubClass::Other => (Some(0x4u8), Some(0x80u8), None),
            MultimediaControllerSubClass::Unknown => (Some(0x4u8), None, None),
        },
        PciDeviceClass::MemoryController(s) => match s {
            MemoryControllerSubClass::RamController => (Some(0x5u8), Some(0x0u8), None),
            MemoryControllerSubClass::FlashController => (Some(0x5u8), Some(0x1u8), None),
            MemoryControllerSubClass::Other => (Some(0x5u8), Some(0x80u8), None),
            MemoryControllerSubClass::Unknown => (Some(0x5u8), None, None),
        },
        PciDeviceClass::BridgeDevice(s) => match s {
            BridgeDeviceSubClass::HostBridge => (Some(0x6u8), Some(0x0u8), None),
            BridgeDeviceSubClass::IsaBridge => (Some(0x6u8), Some(0x1u8), None),
            BridgeDeviceSubClass::EisaBridge => (Some(0x6u8), Some(0x2u8), None),
            BridgeDeviceSubClass::McaBridge => (Some(0x6u8), Some(0x3u8), None),
            BridgeDeviceSubClass::PciToPciBridge(p) => match p {
                PciToPciBridgeProgIf::NormalDecode => (Some(0x6u8), Some(0x4u8), Some(0x0u8)),
                PciToPciBridgeProgIf::SubtractiveDecode => (Some(0x6u8), Some(0x4u8), Some(0x1u8)),
                PciToPciBridgeProgIf::Unknown => (Some(0x6u8), Some(0x4u8), None),
            },
            BridgeDeviceSubClass::PcmciaBridge => (Some(0x6u8), Some(0x5u8), None),
            BridgeDeviceSubClass::NuBusBridge => (Some(0x6u8), Some(0x6u8), None),
            BridgeDeviceSubClass::CardBusBridge => (Some(0x6u8), Some(0x7u8), None),
            BridgeDeviceSubClass::RaceWayBridge(p) => match p {
                RaceWayBridgeProgIf::TransparentMode => (Some(0x6u8), Some(0x8u8), Some(0x0u8)),
                RaceWayBridgeProgIf::EndpointMode => (Some(0x6u8), Some(0x8u8), Some(0x1u8)),
                RaceWayBridgeProgIf::Unknown => (Some(0x6u8), Some(0x8u8), None),
            },
            BridgeDeviceSubClass::PciToPciBridge2(p) => match p {
                PciToPciBridge2ProgIf::SemiTransparentPrimaryBusTowardsHostCPU => (Some(0x6u8), Some(0x9u8), Some(0x40u8)),
                PciToPciBridge2ProgIf::SemiTransparentSecondaryBusTowardsHostCPU => (Some(0x6u8), Some(0x9u8), Some(0x80u8)),
                PciToPciBridge2ProgIf::Unknown => (Some(0x6u8), Some(0x9u8), None),
            },
            BridgeDeviceSubClass::InfiniBandToPciHostBridge => (Some(0x6u8), Some(0xAu8), None),
            BridgeDeviceSubClass::Other => (Some(0x6u8), Some(0x80u8), None),
            BridgeDeviceSubClass::Unknown => (Some(0x6u8), None, None),
        },
        PciDeviceClass::SimpleCommunicationController(s) => match s {
            SimpleCommunicationControllerSubClass::SerialController(p) => match p {
                SerialControllerProgIf::CompatibleGenericXT => (Some(0x7u8), Some(0x0u8), Some(0x0u8)),
                SerialControllerProgIf::Compatible16450 => (Some(0x7u8), Some(0x0u8), Some(0x1u8)),
                SerialControllerProgIf::Compatible16550 => (Some(0x7u8), Some(0x0u8), Some(0x2u8)),
                SerialControllerProgIf::Compatible16650 => (Some(0x7u8), Some(0x0u8), Some(0x3u8)),
                SerialControllerProgIf::Compatible16750 => (Some(0x7u8), Some(0x0u8), Some(0x4u8)),
                SerialControllerProgIf::Compatible16850 => (Some(0x7u8), Some(0x0u8), Some(0x5u8)),
                SerialControllerProgIf::Compatible16950 => (Some(0x7u8), Some(0x0u8), Some(0x6u8)),
                SerialControllerProgIf::Unknown => (Some(0x7u8), Some(0x0u8), None),
            },
            SimpleCommunicationControllerSubClass::ParallelController(p) => match p {
                ParallelControllerProgIf::StandardParallelPort => (Some(0x7u8), Some(0x1u8), Some(0x0u8)),
                ParallelControllerProgIf::BiDirectionalParallelPort => (Some(0x7u8), Some(0x1u8), Some(0x1u8)),
                ParallelControllerProgIf::ECPv1XCompliantParallelPort => (Some(0x7u8), Some(0x1u8), Some(0x2u8)),
                ParallelControllerProgIf::IEEE1284Controller => (Some(0x7u8), Some(0x1u8), Some(0x3u8)),
                ParallelControllerProgIf::IEEE1284TargetDevice => (Some(0x7u8), Some(0x1u8), Some(0xFEu8)),
                ParallelControllerProgIf::Unknown => (Some(0x7u8), Some(0x1u8), None),
            },
            SimpleCommunicationControllerSubClass::MultiportSerialController => (Some(0x7u8), Some(0x2u8), None),
            SimpleCommunicationControllerSubClass::Modem(p) => match p {
                ModemProgIf::GenericModem => (Some(0x7u8), Some(0x3u8), Some(0x0u8)),
                ModemProgIf::Hayes16450CompatibleInterface => (Some(0x7u8), Some(0x3u8), Some(0x1u8)),
                ModemProgIf::Hayes16550CompatibleInterface => (Some(0x7u8), Some(0x3u8), Some(0x2u8)),
                ModemProgIf::Hayes16650CompatibleInterface => (Some(0x7u8), Some(0x3u8), Some(0x3u8)),
                ModemProgIf::Hayes16750CompatibleInterface => (Some(0x7u8), Some(0x3u8), Some(0x4u8)),
                ModemProgIf::Unknown => (Some(0x7u8), Some(0x3u8), None),
            },
            SimpleCommunicationControllerSubClass::Ieee488v1s2GpibController => (Some(0x7u8), Some(0x4u8), None),
            SimpleCommunicationControllerSubClass::SmartCard => (Some(0x7u8), Some(0x5u8), None),
            SimpleCommunicationControllerSubClass::Other => (Some(0x7u8), Some(0x80u8), None),
            SimpleCommunicationControllerSubClass::Unknown => (Some(0x7u8), None, None),
        },
        PciDeviceClass::BaseSystemPeripheral(s) => match s {
            BaseSystemPeripheralSubClass::Pic(p) => match p {
                PicProgIf::Generic8259Compatible => (Some(0x8u8), Some(0x0u8), Some(0x0u8)),
                PicProgIf::ISACompatible => (Some(0x8u8), Some(0x0u8), Some(0x1u8)),
                PicProgIf::EISACompatible => (Some(0x8u8), Some(0x0u8), Some(0x2u8)),
                PicProgIf::IOAPICInterruptController => (Some(0x8u8), Some(0x0u8), Some(0x10u8)),
                PicProgIf::IOxAPICInterruptController => (Some(0x8u8), Some(0x0u8), Some(0x20u8)),
                PicProgIf::Unknown => (Some(0x8u8), Some(0x0u8), None),
            },
            BaseSystemPeripheralSubClass::DmaController(p) => match p {
                DmaControllerProgIf::Generic8237Compatible => (Some(0x8u8), Some(0x1u8), Some(0x0u8)),
                DmaControllerProgIf::ISACompatible => (Some(0x8u8), Some(0x1u8), Some(0x1u8)),
                DmaControllerProgIf::EISACompatible => (Some(0x8u8), Some(0x1u8), Some(0x2u8)),
                DmaControllerProgIf::Unknown => (Some(0x8u8), Some(0x1u8), None),
            },
            BaseSystemPeripheralSubClass::Timer(p) => match p {
                TimerProgIf::Generic8254Compatible => (Some(0x8u8), Some(0x2u8), Some(0x0u8)),
                TimerProgIf::ISACompatible => (Some(0x8u8), Some(0x2u8), Some(0x1u8)),
                TimerProgIf::EISACompatible => (Some(0x8u8), Some(0x2u8), Some(0x2u8)),
                TimerProgIf::HPET => (Some(0x8u8), Some(0x2u8), Some(0x3u8)),
                TimerProgIf::Unknown => (Some(0x8u8), Some(0x2u8), None),
            },
            BaseSystemPeripheralSubClass::RtcController(p) => match p {
                RtcControllerProgIf::GenericRTC => (Some(0x8u8), Some(0x3u8), Some(0x0u8)),
                RtcControllerProgIf::ISACompatible => (Some(0x8u8), Some(0x3u8), Some(0x1u8)),
                RtcControllerProgIf::Unknown => (Some(0x8u8), Some(0x3u8), None),
            },
            BaseSystemPeripheralSubClass::PciHotPlugController => (Some(0x8u8), Some(0x4u8), None),
            BaseSystemPeripheralSubClass::SdHostController => (Some(0x8u8), Some(0x5u8), None),
            BaseSystemPeripheralSubClass::Iommu => (Some(0x8u8), Some(0x6u8), None),
            BaseSystemPeripheralSubClass::Other => (Some(0x8u8), Some(0x80u8), None),
            BaseSystemPeripheralSubClass::Unknown => (Some(0x8u8), None, None),
        },
        PciDeviceClass::InputDeviceController(s) => match s {
            InputDeviceControllerSubClass::KeyboardController => (Some(0x9u8), Some(0x0u8), None),
            InputDeviceControllerSubClass::DigitizerPen => (Some(0x9u8), Some(0x1u8), None),
            InputDeviceControllerSubClass::MouseController => (Some(0x9u8), Some(0x2u8), None),
            InputDeviceControllerSubClass::ScannerController => (Some(0x9u8), Some(0x3u8), None),
            InputDeviceControllerSubClass::GameportController(p) => match p {
                GameportControllerProgIf::Generic => (Some(0x9u8), Some(0x4u8), Some(0x0u8)),
                GameportControllerProgIf::Extended => (Some(0x9u8), Some(0x4u8), Some(0x10u8)),
                GameportControllerProgIf::Unknown => (Some(0x9u8), Some(0x4u8), None),
            },
            InputDeviceControllerSubClass::Other => (Some(0x9u8), Some(0x80u8), None),
            InputDeviceControllerSubClass::Unknown => (Some(0x9u8), None, None),
        },
        PciDeviceClass::DockingStation(s) => match s {
            DockingStationSubClass::Generic => (Some(0xAu8), Some(0x0u8), None),
            DockingStationSubClass::Other => (Some(0xAu8), Some(0x80u8), None),
            DockingStationSubClass::Unknown => (Some(0xAu8), None, None),
        },
        PciDeviceClass::Processor(s) => match s {
            ProcessorSubClass::I386 => (Some(0xBu8), Some(0x0u8), None),
            ProcessorSubClass::I486 => (Some(0xBu8), Some(0x1u8), None),
            ProcessorSubClass::Pentium => (Some(0xBu8), Some(0x2u8), None),
            ProcessorSubClass::Alpha => (Some(0xBu8), Some(0x10u8), None),
            ProcessorSubClass::PowerPC => (Some(0xBu8), Some(0x20u8), None),
            ProcessorSubClass::Mips => (Some(0xBu8), Some(0x30u8), None),
            ProcessorSubClass::CoProcessor => (Some(0xBu8), Some(0x40u8), None),
            ProcessorSubClass::Unknown => (Some(0xBu8), None, None),
        },
        PciDeviceClass::SerialBusController(s) => match s {
            SerialBusControllerSubClass::FireWireIeee1394Controller(p) => match p {
                FireWireIeee1394ControllerProgIf::Generic => (Some(0xCu8), Some(0x0u8), Some(0x0u8)),
                FireWireIeee1394ControllerProgIf::OHCI => (Some(0xCu8), Some(0x0u8), Some(0x10u8)),
                FireWireIeee1394ControllerProgIf::Unknown => (Some(0xCu8), Some(0x0u8), None),
            },
            SerialBusControllerSubClass::AccessBus => (Some(0xCu8), Some(0x1u8), None),
            SerialBusControllerSubClass::Ssa => (Some(0xCu8), Some(0x2u8), None),
            SerialBusControllerSubClass::UsbController(p) => match p {
                UsbControllerProgIf::UHCIController => (Some(0xCu8), Some(0x3u8), Some(0x0u8)),
                UsbControllerProgIf::OHCIController => (Some(0xCu8), Some(0x3u8), Some(0x10u8)),
                UsbControllerProgIf::EHCIUsb2Controller => (Some(0xCu8), Some(0x3u8), Some(0x20u8)),
                UsbControllerProgIf::XHCIUsb3Controller => (Some(0xCu8), Some(0x3u8), Some(0x30u8)),
                UsbControllerProgIf::Unspecified => (Some(0xCu8), Some(0x3u8), Some(0x80u8)),
                UsbControllerProgIf::USBDeviceNotAHostControler => (Some(0xCu8), Some(0x3u8), Some(0xFEu8)),
                UsbControllerProgIf::Unknown => (Some(0xCu8), Some(0x3u8), None),
            },
            SerialBusControllerSubClass::FibreChannel => (Some(0xCu8), Some(0x4u8), None),
            SerialBusControllerSubClass::SmBus => (Some(0xCu8), Some(0x5u8), None),
            SerialBusControllerSubClass::InfiniBand => (Some(0xCu8), Some(0x6u8), None),
            SerialBusControllerSubClass::IpmiInterface(p) => match p {
                IpmiInterfaceProgIf::SMIC => (Some(0xCu8), Some(0x7u8), Some(0x0u8)),
                IpmiInterfaceProgIf::KeyboardControllerStyle => (Some(0xCu8), Some(0x7u8), Some(0x1u8)),
                IpmiInterfaceProgIf::BlockTransfer => (Some(0xCu8), Some(0x7u8), Some(0x2u8)),
                IpmiInterfaceProgIf::Unknown => (Some(0xCu8), Some(0x7u8), None),
            },
            SerialBusControllerSubClass::SercosInterfaceIec61491 => (Some(0xCu8), Some(0x8u8), None),
            SerialBusControllerSubClass::CANbus => (Some(0xCu8), Some(0x9u8), None),
            SerialBusControllerSubClass::Unknown => (Some(0xCu8), None, None),
        },
        PciDeviceClass::WirelessController(s) => match s {
            WirelessControllerSubClass::IrdaCompatibleController => (Some(0xDu8), Some(0x0u8), None),
            WirelessControllerSubClass::ConsumerIrController => (Some(0xDu8), Some(0x1u8), None),
            WirelessControllerSubClass::RfController => (Some(0xDu8), Some(0x10u8), None),
            WirelessControllerSubClass::BluetoothController => (Some(0xDu8), Some(0x11u8), None),
            WirelessControllerSubClass::BroadbandController => (Some(0xDu8), Some(0x12u8), None),
            WirelessControllerSubClass::EthernetController802v1a => (Some(0xDu8), Some(0x20u8), None),
            WirelessControllerSubClass::EthernetController802v1b => (Some(0xDu8), Some(0x21u8), None),
            WirelessControllerSubClass::Other => (Some(0xDu8), Some(0x80u8), None),
            WirelessControllerSubClass::Unknown => (Some(0xDu8), None, None),
        },
        PciDeviceClass::IntelligentController(s) => match s {
            IntelligentControllerSubClass::I20 => (Some(0xEu8), Some(0x0u8), None),
            IntelligentControllerSubClass::Unknown => (Some(0xEu8), None, None),
        },
        PciDeviceClass::SatelliteCommunicationController(s) => match s {
            SatelliteCommunicationControllerSubClass::SatelliteTVController => (Some(0xFu8), Some(0x1u8), None),
            SatelliteCommunicationControllerSubClass::SatelliteAudioController => (Some(0xFu8), Some(0x2u8), None),
            SatelliteCommunicationControllerSubClass::SatelliteVoiceController => (Some(0xFu8), Some(0x3u8), None),
            SatelliteCommunicationControllerSubClass::SatelliteDataController => (Some(0xFu8), Some(0x4u8), None),
            SatelliteCommunicationControllerSubClass::Unknown => (Some(0xFu8), None, None),
        },
        PciDeviceClass::EncryptionController(s) => match s {
            EncryptionControllerSubClass::NetworkAndComputingEncrpytionDecryption => (Some(0x10u8), Some(0x0u8), None),
            EncryptionControllerSubClass::EntertainmentEncryptionDecryption => (Some(0x10u8), Some(0x10u8), None),
            EncryptionControllerSubClass::OtherEncryptionDecryption => (Some(0x10u8), Some(0x80u8), None),
            EncryptionControllerSubClass::Unknown => (Some(0x10u8), None, None),
        },
        PciDeviceClass::SignalProcessingController(s) => match s {
            SignalProcessingControllerSubClass::DpioModules => (Some(0x11u8), Some(0x0u8), None),
            SignalProcessingControllerSubClass::PerformanceCounters => (Some(0x11u8), Some(0x1u8), None),
            SignalProcessingControllerSubClass::CommunicationSynchronizer => (Some(0x11u8), Some(0x10u8), None),
            SignalProcessingControllerSubClass::SignalProcessingManagement => (Some(0x11u8), Some(0x20u8), None),
            SignalProcessingControllerSubClass::Other => (Some(0x11u8), Some(0x80u8), None),
            SignalProcessingControllerSubClass::Unknown => (Some(0x11u8), None, None),
        },
        PciDeviceClass::ProcessingAccelerator => (Some(0x12u8), None, None),
        PciDeviceClass::NonEssentialInstrumentation => (Some(0x13u8), None, None),
        PciDeviceClass::Reserved0x3f => (Some(0x14u8), None, None),
        PciDeviceClass::CoProcessor => (Some(0x40u8), None, None),
        PciDeviceClass::Reserved0xfe => (Some(0x41u8), None, None),
        PciDeviceClass::UnassignedClassVendorSpecific => (Some(0xFFu8), None, None),
        PciDeviceClass::Unknown => (None, None, None),
    }
}

/// `o`'s value, or `d` when there is none.
pub open spec fn code_or(o: Option<u8>, d: u8) -> u8 {
    match o {
        Some(v) => v,
        None => d,
    }
}

/// Decoding keeps the codes: the class that `(id, subclass, prog_if)`
/// decodes to is named, at each level the table names it, by those very
/// codes.
pub proof fn lemma_class_decoding_keeps_codes(id: u8, subclass: u8, prog_if: u8)
    ensures
        pci_class_code(pci_class(id, subclass, prog_if)).0 matches Some(a) ==> a == id,
        pci_class_code(pci_class(id, subclass, prog_if)).1 matches Some(b) ==> b == subclass,
        pci_class_code(pci_class(id, subclass, prog_if)).2 matches Some(p) ==> p == prog_if,
{
}

/// Each class of the table is what its own codes decode to (0xFF, which
/// the table names at no level below the class, standing for a subclass
/// or programming interface it does not name): class 0x02, subclass 0x00
/// is an Ethernet controller, class 0x01, subclass 0x06, programming
/// interface 0x01 an AHCI controller, and so on.
pub proof fn lemma_class_codes_decode(c: PciDeviceClass)
    ensures
        pci_class_code(c).0 matches Some(a) ==> pci_class(
            a,
            code_or(pci_class_code(c).1, 0xFF),
            code_or(pci_class_code(c).2, 0xFF),
        ) == c,
{    match c {
        PciDeviceClass::Unclassified(_) => {},
        PciDeviceClass::MassStorageController(_) => {},
        PciDeviceClass::NetworkController(_) => {},
        PciDeviceClass::DisplayController(_) => {},
        PciDeviceClass::MultimediaController(_) => {},
        PciDeviceClass::MemoryController(_) => {},
        PciDeviceClass::BridgeDevice(_) => {},
        PciDeviceClass::SimpleCommunicationController(_) => {},
        PciDeviceClass::BaseSystemPeripheral(_) => {},
        PciDeviceClass::InputDeviceController(_) => {},
        PciDeviceClass::DockingStation(_) => {},
        PciDeviceClass::Processor(_) => {},
        PciDeviceClass::SerialBusController(_) => {},
        PciDeviceClass::WirelessController(_) => {},
        PciDeviceClass::IntelligentController(_) => {},
        PciDeviceClass::SatelliteCommunicationController(_) => {},
        PciDeviceClass::EncryptionController(_) => {},
        PciDeviceClass::SignalProcessingController(_) => {},
        PciDeviceClass::ProcessingAccelerator => {},
        PciDeviceClass::NonEssentialInstrumentation => {},
        PciDeviceClass::Reserved0x3f => {},
        PciDeviceClass::CoProcessor => {},
        PciDeviceClass::Reserved0xfe => {},
        PciDeviceClass::UnassignedClassVendorSpecific => {},
        PciDeviceClass::Unknown => {},
    }
}

/// Decodes the class of a PCI device from the class code `id`, the
/// `subclass` and the programming interface `prog_if` of its header.
pub fn get_pci_device(id: u8, subclass: u8, prog_if: u8) -> (r: PciDeviceClass)
    ensures
        r == pci_class(id, subclass, prog_if),
{
    match id {
        0x0u8 => PciDeviceClass::Unclassified(
            match subclass {
                0x0u8 => UnclassifiedSubClass::NonVgaCompatibleDevice,
                0x1u8 => UnclassifiedSubClass::VgaCompatibleDevice,
                _ => UnclassifiedSubClass::Unknown,
            }
        ),
        0x1u8 => PciDeviceClass::MassStorageController(
            match subclass {
                0x0u8 => MassStorageControllerSubClass::ScsiBusController,
                0x1u8 => MassStorageControllerSubClass::IdeController(
                    match prog_if {
                        0x0u8 => IdeControllerProgIf::IsaCompatibilityModeOnlyController,
                        0x5u8 => IdeControllerProgIf::PciNativeModeOnlyController,
                        0xAu8 => IdeControllerProgIf::IsaCompatibilityModeController,
                        0xFu8 => IdeControllerProgIf::PciNativeModeController,
                        0x80u8 => IdeControllerProgIf::IsaCompatibilityModeOnlyControllerBusMastered,
                        0x85u8 => IdeControllerProgIf::PciNativeModeOnlyControllerBusMastered,
                        0x8Au8 => IdeControllerProgIf::IsaCompatibilityModeControllerBusMastered,
                        0x8Fu8 => IdeControllerProgIf::PciNativeModeControllerBusMastered,
                        _ => IdeControllerProgIf::Unknown,
                    }
                ),
                0x2u8 => MassStorageControllerSubClass::FloppyDiskController,
                0x3u8 => MassStorageControllerSubClass::IpiBusController,
                0x4u8 => MassStorageControllerSubClass::RaidController,
                0x5u8 => MassStorageControllerSubClass::AtaController(
                    match prog_if {
                        0x20u8 => AtaControllerProgIf::SingleDma,
                        0x30u8 => AtaControllerProgIf::ChainedDma,
                        _ => AtaControllerProgIf::Unknown,
                    }
                ),
                0x6u8 => MassStorageControllerSubClass::SerialAta(
                    match prog_if {
                        0x0u8 => SerialAtaProgIf::VendorSpecificInterface,
                        0x1u8 => SerialAtaProgIf::Ahci1,
                        0x2u8 => SerialAtaProgIf::SerialStorageBus,
                        _ => SerialAtaProgIf::Unknown,
                    }
                ),
                0x7u8 => MassStorageControllerSubClass::SerialAttachedScsi(
                    match prog_if {
                        0x0u8 => SerialAttachedScsiProgIf::Sas,
                        0x1u8 => SerialAttachedScsiProgIf::SerialStorageBus,
                        _ => SerialAttachedScsiProgIf::Unknown,
                    }
                ),
                0x8u8 => MassStorageControllerSubClass::NonVolatileMemoryController(
                    match prog_if {
                        0x1u8 => NonVolatileMemoryControllerProgIf::Nvmhci,
                        0x2u8 => NonVolatileMemoryControllerProgIf::NvmExpress,
                        _ => NonVolatileMemoryControllerProgIf::Unknown,
                    }
                ),
                0x80u8 => MassStorageControllerSubClass::Other,
                _ => MassStorageControllerSubClass::Unknown,
            }
        ),
        0x2u8 => PciDeviceClass::NetworkController(
            match subclass {
                0x0u8 => NetworkControllerSubClass::EthernetController,
                0x1u8 => NetworkControllerSubClass::TokenRingController,
                0x2u8 => NetworkControllerSubClass::FddiController,
                0x3u8 => NetworkControllerSubClass::AtmController,
                0x4u8 => NetworkControllerSubClass::IsdnController,
                0x5u8 => NetworkControllerSubClass::WorldFipController,
                0x6u8 => NetworkControllerSubClass::Picmg214MultiComputing,
                0x7u8 => NetworkControllerSubClass::InfinibandController,
                0x8u8 => NetworkControllerSubClass::FabricController,
                0x80u8 => NetworkControllerSubClass::Other,
                _ => NetworkControllerSubClass::Unknown,
            }
        ),
        0x3u8 => PciDeviceClass::DisplayController(
            match subclass {
                0x0u8 => DisplayControllerSubClass::VgaCompatibleController(
                    match prog_if {
                        0x0u8 => VgaCompatibleControllerProgIf::VgaController,
                        0x1u8 => VgaCompatibleControllerProgIf::Compatible8514Controller,
                        _ => VgaCompatibleControllerProgIf::Unknown,
                    }
                ),
                0x1u8 => DisplayControllerSubClass::XgaController,
                0x2u8 => DisplayControllerSubClass::Controller3d,
                0x80u8 => DisplayControllerSubClass::Other,
                _ => DisplayControllerSubClass::Unknown,
            }
        ),
        0x4u8 => PciDeviceClass::MultimediaController(
            match subclass {
                0x0u8 => MultimediaControllerSubClass::MultimediaVideoController,
                0x1u8 => MultimediaControllerSubClass::MultimediaAudioController,
                0x2u8 => MultimediaControllerSubClass::ComputerTelephonyDevice,
                0x3u8 => MultimediaControllerSubClass::AudioDevice,
                0x80u8 => MultimediaControllerSubClass::Other,
                _ => MultimediaControllerSubClass::Unknown,
            }
        ),
        0x5u8 => PciDeviceClass::MemoryController(
            match subclass {
                0x0u8 => MemoryControllerSubClass::RamController,
                0x1u8 => MemoryControllerSubClass::FlashController,
                0x80u8 => MemoryControllerSubClass::Other,
                _ => MemoryControllerSubClass::Unknown,
            }
        ),
        0x6u8 => PciDeviceClass::BridgeDevice(
            match subclass {
                0x0u8 => BridgeDeviceSubClass::HostBridge,
                0x1u8 => BridgeDeviceSubClass::IsaBridge,
                0x2u8 => BridgeDeviceSubClass::EisaBridge,
                0x3u8 => BridgeDeviceSubClass::McaBridge,
                0x4u8 => BridgeDeviceSubClass::PciToPciBridge(
                    match prog_if {
                        0x0u8 => PciToPciBridgeProgIf::NormalDecode,
                        0x1u8 => PciToPciBridgeProgIf::SubtractiveDecode,
                        _ => PciToPciBridgeProgIf::Unknown,
                    }
                ),
                0x5u8 => BridgeDeviceSubClass::PcmciaBridge,
                0x6u8 => BridgeDeviceSubClass::NuBusBridge,
                0x7u8 => BridgeDeviceSubClass::CardBusBridge,
                0x8u8 => BridgeDeviceSubClass::RaceWayBridge(
                    match prog_if {
                        0x0u8 => RaceWayBridgeProgIf::TransparentMode,
                        0x1u8 => RaceWayBridgeProgIf::EndpointMode,
                        _ => RaceWayBridgeProgIf::Unknown,
                    }
                ),
                0x9u8 => BridgeDeviceSubClass::PciToPciBridge2(
                    match prog_if {
                        0x40u8 => PciToPciBridge2ProgIf::SemiTransparentPrimaryBusTowardsHostCPU,
                        0x80u8 => PciToPciBridge2ProgIf::SemiTransparentSecondaryBusTowardsHostCPU,
                        _ => PciToPciBridge2ProgIf::Unknown,
                    }
                ),
                0xAu8 => BridgeDeviceSubClass::InfiniBandToPciHostBridge,
                0x80u8 => BridgeDeviceSubClass::Other,
                _ => BridgeDeviceSubClass::Unknown,
            }
        ),
        0x7u8 => PciDeviceClass::SimpleCommunicationController(
            match subclass {
                0x0u8 => SimpleCommunicationControllerSubClass::SerialController(
                    match prog_if {
                        0x0u8 => SerialControllerProgIf::CompatibleGenericXT,
                        0x1u8 => SerialControllerProgIf::Compatible16450,
                        0x2u8 => SerialControllerProgIf::Compatible16550,
                        0x3u8 => SerialControllerProgIf::Compatible16650,
                        0x4u8 => SerialControllerProgIf::Compatible16750,
                        0x5u8 => SerialControllerProgIf::Compatible16850,
                        0x6u8 => SerialControllerProgIf::Compatible16950,
                        _ => SerialControllerProgIf::Unknown,
                    }
                ),
                0x1u8 => SimpleCommunicationControllerSubClass::ParallelController(
                    match prog_if {
                        0x0u8 => ParallelControllerProgIf::StandardParallelPort,
                        0x1u8 => ParallelControllerProgIf::BiDirectionalParallelPort,
                        0x2u8 => ParallelControllerProgIf::ECPv1XCompliantParallelPort,
                        0x3u8 => ParallelControllerProgIf::IEEE1284Controller,
                        0xFEu8 => ParallelControllerProgIf::IEEE1284TargetDevice,
                        _ => ParallelControllerProgIf::Unknown,
                    }
                ),
                0x2u8 => SimpleCommunicationControllerSubClass::MultiportSerialController,
                0x3u8 => SimpleCommunicationControllerSubClass::Modem(
                    match prog_if {
                        0x0u8 => ModemProgIf::GenericModem,
                        0x1u8 => ModemProgIf::Hayes16450CompatibleInterface,
                        0x2u8 => ModemProgIf::Hayes16550CompatibleInterface,
                        0x3u8 => ModemProgIf::Hayes16650CompatibleInterface,
                        0x4u8 => ModemProgIf::Hayes16750CompatibleInterface,
                        _ => ModemProgIf::Unknown,
                    }
                ),
                0x4u8 => SimpleCommunicationControllerSubClass::Ieee488v1s2GpibController,
                0x5u8 => SimpleCommunicationControllerSubClass::SmartCard,
                0x80u8 => SimpleCommunicationControllerSubClass::Other,
                _ => SimpleCommunicationControllerSubClass::Unknown,
            }
        ),
        0x8u8 => PciDeviceClass::BaseSystemPeripheral(
            match subclass {
                0x0u8 => BaseSystemPeripheralSubClass::Pic(
                    match prog_if {
                        0x0u8 => PicProgIf::Generic8259Compatible,
                        0x1u8 => PicProgIf::ISACompatible,
                        0x2u8 => PicProgIf::EISACompatible,
                        0x10u8 => PicProgIf::IOAPICInterruptController,
                        0x20u8 => PicProgIf::IOxAPICInterruptController,
                        _ => PicProgIf::Unknown,
                    }
                ),
                0x1u8 => BaseSystemPeripheralSubClass::DmaController(
                    match prog_if {
                        0x0u8 => DmaControllerProgIf::Generic8237Compatible,
                        0x1u8 => DmaControllerProgIf::ISACompatible,
                        0x2u8 => DmaControllerProgIf::EISACompatible,
                        _ => DmaControllerProgIf::Unknown,
                    }
                ),
                0x2u8 => BaseSystemPeripheralSubClass::Timer(
                    match prog_if {
                        0x0u8 => TimerProgIf::Generic8254Compatible,
                        0x1u8 => TimerProgIf::ISACompatible,
                        0x2u8 => TimerProgIf::EISACompatible,
                        0x3u8 => TimerProgIf::HPET,
                        _ => TimerProgIf::Unknown,
                    }
                ),
                0x3u8 => BaseSystemPeripheralSubClass::RtcController(
                    match prog_if {
                        0x0u8 => RtcControllerProgIf::GenericRTC,
                        0x1u8 => RtcControllerProgIf::ISACompatible,
                        _ => RtcControllerProgIf::Unknown,
                    }
                ),
                0x4u8 => BaseSystemPeripheralSubClass::PciHotPlugController,
                0x5u8 => BaseSystemPeripheralSubClass::SdHostController,
                0x6u8 => BaseSystemPeripheralSubClass::Iommu,
                0x80u8 => BaseSystemPeripheralSubClass::Other,
                _ => BaseSystemPeripheralSubClass::Unknown,
            }
        ),
        0x9u8 => PciDeviceClass::InputDeviceController(
            match subclass {
                0x0u8 => InputDeviceControllerSubClass::KeyboardController,
                0x1u8 => InputDeviceControllerSubClass::DigitizerPen,
                0x2u8 => InputDeviceControllerSubClass::MouseController,
                0x3u8 => InputDeviceControllerSubClass::ScannerController,
                0x4u8 => InputDeviceControllerSubClass::GameportController(
                    match prog_if {
                        0x0u8 => GameportControllerProgIf::Generic,
                        0x10u8 => GameportControllerProgIf::Extended,
                        _ => GameportControllerProgIf::Unknown,
                    }
                ),
                0x80u8 => InputDeviceControllerSubClass::Other,
                _ => InputDeviceControllerSubClass::Unknown,
            }
        ),
        0xAu8 => PciDeviceClass::DockingStation(
            match subclass {
                0x0u8 => DockingStationSubClass::Generic,
                0x80u8 => DockingStationSubClass::Other,
                _ => DockingStationSubClass::Unknown,
            }
        ),
        0xBu8 => PciDeviceClass::Processor(
            match subclass {
                0x0u8 => ProcessorSubClass::I386,
                0x1u8 => ProcessorSubClass::I486,
                0x2u8 => ProcessorSubClass::Pentium,
                0x10u8 => ProcessorSubClass::Alpha,
                0x20u8 => ProcessorSubClass::PowerPC,
                0x30u8 => ProcessorSubClass::Mips,
                0x40u8 => ProcessorSubClass::CoProcessor,
                _ => ProcessorSubClass::Unknown,
            }
        ),
        0xCu8 => PciDeviceClass::SerialBusController(
            match subclass {
                0x0u8 => SerialBusControllerSubClass::FireWireIeee1394Controller(
                    match prog_if {
                        0x0u8 => FireWireIeee1394ControllerProgIf::Generic,
                        0x10u8 => FireWireIeee1394ControllerProgIf::OHCI,
                        _ => FireWireIeee1394ControllerProgIf::Unknown,
                    }
                ),
                0x1u8 => SerialBusControllerSubClass::AccessBus,
                0x2u8 => SerialBusControllerSubClass::Ssa,
                0x3u8 => SerialBusControllerSubClass::UsbController(
                    match prog_if {
                        0x0u8 => UsbControllerProgIf::UHCIController,
                        0x10u8 => UsbControllerProgIf::OHCIController,
                        0x20u8 => UsbControllerProgIf::EHCIUsb2Controller,
                        0x30u8 => UsbControllerProgIf::XHCIUsb3Controller,
                        0x80u8 => UsbControllerProgIf::Unspecified,
                        0xFEu8 => UsbControllerProgIf::USBDeviceNotAHostControler,
                        _ => UsbControllerProgIf::Unknown,
                    }
                ),
                0x4u8 => SerialBusControllerSubClass::FibreChannel,
                0x5u8 => SerialBusControllerSubClass::SmBus,
                0x6u8 => SerialBusControllerSubClass::InfiniBand,
                0x7u8 => SerialBusControllerSubClass::IpmiInterface(
                    match prog_if {
                        0x0u8 => IpmiInterfaceProgIf::SMIC,
                        0x1u8 => IpmiInterfaceProgIf::KeyboardControllerStyle,
                        0x2u8 => IpmiInterfaceProgIf::BlockTransfer,
                        _ => IpmiInterfaceProgIf::Unknown,
                    }
                ),
                0x8u8 => SerialBusControllerSubClass::SercosInterfaceIec61491,
                0x9u8 => SerialBusControllerSubClass::CANbus,
                _ => SerialBusControllerSubClass::Unknown,
            }
        ),
        0xDu8 => PciDeviceClass::WirelessController(
            match subclass {
                0x0u8 => WirelessControllerSubClass::IrdaCompatibleController,
                0x1u8 => WirelessControllerSubClass::ConsumerIrController,
                0x10u8 => WirelessControllerSubClass::RfController,
                0x11u8 => WirelessControllerSubClass::BluetoothController,
                0x12u8 => WirelessControllerSubClass::BroadbandController,
                0x20u8 => WirelessControllerSubClass::EthernetController802v1a,
                0x21u8 => WirelessControllerSubClass::EthernetController802v1b,
                0x80u8 => WirelessControllerSubClass::Other,
                _ => WirelessControllerSubClass::Unknown,
            }
        ),
        0xEu8 => PciDeviceClass::IntelligentController(
            match subclass {
                0x0u8 => IntelligentControllerSubClass::I20,
                _ => IntelligentControllerSubClass::Unknown,
            }
        ),
        0xFu8 => PciDeviceClass::SatelliteCommunicationController(
            match subclass {
                0x1u8 => SatelliteCommunicationControllerSubClass::SatelliteTVController,
                0x2u8 => SatelliteCommunicationControllerSubClass::SatelliteAudioController,
                0x3u8 => SatelliteCommunicationControllerSubClass::SatelliteVoiceController,
                0x4u8 => SatelliteCommunicationControllerSubClass::SatelliteDataController,
                _ => SatelliteCommunicationControllerSubClass::Unknown,
            }
        ),
        0x10u8 => PciDeviceClass::EncryptionController(
            match subclass {
                0x0u8 => EncryptionControllerSubClass::NetworkAndComputingEncrpytionDecryption,
                0x10u8 => EncryptionControllerSubClass::EntertainmentEncryptionDecryption,
                0x80u8 => EncryptionControllerSubClass::OtherEncryptionDecryption,
                _ => EncryptionControllerSubClass::Unknown,
            }
        ),
        0x11u8 => PciDeviceClass::SignalProcessingController(
            match subclass {
                0x0u8 => SignalProcessingControllerSubClass::DpioModules,
                0x1u8 => SignalProcessingControllerSubClass::PerformanceCounters,
                0x10u8 => SignalProcessingControllerSubClass::CommunicationSynchronizer,
                0x20u8 => SignalProcessingControllerSubClass::SignalProcessingManagement,
                0x80u8 => SignalProcessingControllerSubClass::Other,
                _ => SignalProcessingControllerSubClass::Unknown,
            }
        ),
        0x12u8 => PciDeviceClass::ProcessingAccelerator,
        0x13u8 => PciDeviceClass::NonEssentialInstrumentation,
        0x14u8 => PciDeviceClass::Reserved0x3f,
        0x40u8 => PciDeviceClass::CoProcessor,
        0x41u8 => PciDeviceClass::Reserved0xfe,
        0xFFu8 => PciDeviceClass::UnassignedClassVendorSpecific,
        _ => PciDeviceClass::Unknown,
    }
}


/// Byte 0 (the least significant) of a 32-bit word.
pub open spec fn b0_spec(w: u32) -> u8 {
    w as u8
}

/// Byte 1 of a 32-bit word.
pub open spec fn b1_spec(w: u32) -> u8 {
    (w >> 8u32) as u8
}

/// Byte 2 of a 32-bit word.
pub open spec fn b2_spec(w: u32) -> u8 {
    (w >> 16u32) as u8
}

/// Byte 3 (the most significant) of a 32-bit word.
pub open spec fn b3_spec(w: u32) -> u8 {
    (w >> 24u32) as u8
}

/// The low half of a 32-bit word.
pub open spec fn h0_spec(w: u32) -> u16 {
    w as u16
}

/// The high half of a 32-bit word.
pub open spec fn h1_spec(w: u32) -> u16 {
    (w >> 16u32) as u16
}

fn b0(w: u32) -> (r: u8)
    ensures
        r == b0_spec(w),
{
    w as u8
}

fn b1(w: u32) -> (r: u8)
    ensures
        r == b1_spec(w),
{
    (w >> 8u32) as u8
}

fn b2(w: u32) -> (r: u8)
    ensures
        r == b2_spec(w),
{
    (w >> 16u32) as u8
}

fn b3(w: u32) -> (r: u8)
    ensures
        r == b3_spec(w),
{
    (w >> 24u32) as u8
}

fn h0(w: u32) -> (r: u16)
    ensures
        r == h0_spec(w),
{
    w as u16
}

fn h1(w: u32) -> (r: u16)
    ensures
        r == h1_spec(w),
{
    (w >> 16u32) as u16
}

/// Pci header, bytes 0x0 to 0x4.
#[derive(Debug, Copy, Clone, PartialEq, Eq, Structural)]
pub struct PciDeviceHeaderL0 {
    pub vendor_id: u16,
    pub device_id: u16,
}

impl PciDeviceHeaderL0 {
    /// Decodes the structure from the sixteen 32-bit words of a configuration space.
    pub open spec fn from_words_spec(w: Seq<u32>) -> Self {
        PciDeviceHeaderL0 {
            vendor_id: h0_spec(w[0]),
            device_id: h1_spec(w[0]),
        }
    }

    /// Decodes the structure from the sixteen 32-bit words of a configuration space.
    pub fn from_words(w: &Vec<u32>) -> (r: Self)
        requires
            w@.len() == 16,
        ensures
            r == Self::from_words_spec(w@),
    {
        PciDeviceHeaderL0 {
            vendor_id: h0(w[0]),
            device_id: h1(w[0]),
        }
    }
}

/// Pci header, bytes 0x4 to 0x10.
#[derive(Debug, Copy, Clone, PartialEq, Eq, Structural)]
pub struct PciDeviceHeaderBody {
    pub command: u16,
    pub status: u16,
    pub revision_id: u8,
    pub prog_if: u8,
    pub sub_class: u8,
    pub class_code: u8,
    pub cache_line_size: u8,
    pub latency_timer: u8,
    pub header_type: u8,
    pub bist: u8,
}

impl PciDeviceHeaderBody {
    /// Decodes the structure from the sixteen 32-bit words of a configuration space.
    pub open spec fn from_words_spec(w: Seq<u32>) -> Self {
        PciDeviceHeaderBody {
            command: h0_spec(w[1]),
            status: h1_spec(w[1]),
            revision_id: b0_spec(w[2]),
            prog_if: b1_spec(w[2]),
            sub_class: b2_spec(w[2]),
            class_code: b3_spec(w[2]),
            cache_line_size: b0_spec(w[3]),
            latency_timer: b1_spec(w[3]),
            header_type: b2_spec(w[3]),
            bist: b3_spec(w[3]),
        }
    }

    /// Decodes the structure from the sixteen 32-bit words of a configuration space.
    pub fn from_words(w: &Vec<u32>) -> (r: Self)
        requires
            w@.len() == 16,
        ensures
            r == Self::from_words_spec(w@),
    {
        PciDeviceHeaderBody {
            command: h0(w[1]),
            status: h1(w[1]),
            revision_id: b0(w[2]),
            prog_if: b1(w[2]),
            sub_class: b2(w[2]),
            class_code: b3(w[2]),
            cache_line_size: b0(w[3]),
            latency_timer: b1(w[3]),
            header_type: b2(w[3]),
            bist: b3(w[3]),
        }
    }
}

/// The registers of a device whose header type is 0x0.
#[derive(Debug, Copy, Clone)]
pub struct PciDeviceType0 {
    pub bar0: u32,
    pub bar1: u32,
    pub bar2: u32,
    pub bar3: u32,
    pub bar4: u32,
    pub bar5: u32,
    pub cardbus_cis_pointer: u32,
    pub subsystem_vendor_id: u16,
    pub subsystem_id: u16,
    pub expansion_rom_base_address: u32,
    pub capabilities_pointer: u8,
    pub reserved: [u8; 7],
    pub interrupt_line: u8,
    pub interrupt_pin: u8,
    pub min_grant: u8,
    pub max_latency: u8,
}

impl PciDeviceType0 {
    /// Decodes the structure from the sixteen 32-bit words of a configuration space.
    pub open spec fn from_words_spec(w: Seq<u32>) -> Self {
        PciDeviceType0 {
            bar0: w[4],
            bar1: w[5],
            bar2: w[6],
            bar3: w[7],
            bar4: w[8],
            bar5: w[9],
            cardbus_cis_pointer: w[10],
            subsystem_vendor_id: h0_spec(w[11]),
            subsystem_id: h1_spec(w[11]),
            expansion_rom_base_address: w[12],
            capabilities_pointer: b0_spec(w[13]),
            reserved: [b1_spec(w[13]), b2_spec(w[13]), b3_spec(w[13]), b0_spec(w[14]), b1_spec(w[14]), b2_spec(w[14]), b3_spec(w[14])],
            interrupt_line: b0_spec(w[15]),
            interrupt_pin: b1_spec(w[15]),
            min_grant: b2_spec(w[15]),
            max_latency: b3_spec(w[15]),
        }
    }

    /// Decodes the structure from the sixteen 32-bit words of a configuration space.
    pub fn from_words(w: &Vec<u32>) -> (r: Self)
        requires
            w@.len() == 16,
        ensures
            r == Self::from_words_spec(w@),
    {
        PciDeviceType0 {
            bar0: w[4],
            bar1: w[5],
            bar2: w[6],
            bar3: w[7],
            bar4: w[8],
            bar5: w[9],
            cardbus_cis_pointer: w[10],
            subsystem_vendor_id: h0(w[11]),
            subsystem_id: h1(w[11]),
            expansion_rom_base_address: w[12],
            capabilities_pointer: b0(w[13]),
            reserved: [b1(w[13]), b2(w[13]), b3(w[13]), b0(w[14]), b1(w[14]), b2(w[14]), b3(w[14])],
            interrupt_line: b0(w[15]),
            interrupt_pin: b1(w[15]),
            min_grant: b2(w[15]),
            max_latency: b3(w[15]),
        }
    }
}

/// The registers of a PCI-to-PCI bridge (header type 0x1).
#[derive(Debug, Copy, Clone)]
pub struct PciDeviceType1 {
    pub bar0: u32,
    pub bar1: u32,
    pub primary_bus_number: u8,
    pub secondary_bus_number: u8,
    pub subordinate_bus_number: u8,
    pub secondary_latency_timer: u8,
    pub io_base: u8,
    pub io_limit: u8,
    pub secondary_status: u16,
    pub memory_base: u16,
    pub memory_limit: u16,
    pub prefetchable_memory_base: u16,
    pub prefetchable_memory_limit: u16,
    pub prefetchable_base_upper_32_bits: u32,
    pub prefetchable_limit_upper_32_bits: u32,
    pub io_base_upper_16_bits: u16,
    pub io_limit_upper_16_bits: u16,
    pub capability_pointer: u8,
    pub reserved: [u8; 3],
    pub expansion_rom_base_address: u32,
    pub interrupt_line: u8,
    pub interrupt_pin: u8,
    pub bridge_control: u16,
}

impl PciDeviceType1 {
    /// Decodes the structure from the sixteen 32-bit words of a configuration space.
    pub open spec fn from_words_spec(w: Seq<u32>) -> Self {
        PciDeviceType1 {
            bar0: w[4],
            bar1: w[5],
            primary_bus_number: b0_spec(w[6]),
            secondary_bus_number: b1_spec(w[6]),
            subordinate_bus_number: b2_spec(w[6]),
            secondary_latency_timer: b3_spec(w[6]),
            io_base: b0_spec(w[7]),
            io_limit: b1_spec(w[7]),
            secondary_status: h1_spec(w[7]),
            memory_base: h0_spec(w[8]),
            memory_limit: h1_spec(w[8]),
            prefetchable_memory_base: h0_spec(w[9]),
            prefetchable_memory_limit: h1_spec(w[9]),
            prefetchable_base_upper_32_bits: w[10],
            prefetchable_limit_upper_32_bits: w[11],
            io_base_upper_16_bits: h0_spec(w[12]),
            io_limit_upper_16_bits: h1_spec(w[12]),
            capability_pointer: b0_spec(w[13]),
            reserved: [b1_spec(w[13]), b2_spec(w[13]), b3_spec(w[13])],
            expansion_rom_base_address: w[14],
            interrupt_line: b0_spec(w[15]),
            interrupt_pin: b1_spec(w[15]),
            bridge_control: h1_spec(w[15]),
        }
    }

    /// Decodes the structure from the sixteen 32-bit words of a configuration space.
    pub fn from_words(w: &Vec<u32>) -> (r: Self)
        requires
            w@.len() == 16,
        ensures
            r == Self::from_words_spec(w@),
    {
        PciDeviceType1 {
            bar0: w[4],
            bar1: w[5],
            primary_bus_number: b0(w[6]),
            secondary_bus_number: b1(w[6]),
            subordinate_bus_number: b2(w[6]),
            secondary_latency_timer: b3(w[6]),
            io_base: b0(w[7]),
            io_limit: b1(w[7]),
            secondary_status: h1(w[7]),
            memory_base: h0(w[8]),
            memory_limit: h1(w[8]),
            prefetchable_memory_base: h0(w[9]),
            prefetchable_memory_limit: h1(w[9]),
            prefetchable_base_upper_32_bits: w[10],
            prefetchable_limit_upper_32_bits: w[11],
            io_base_upper_16_bits: h0(w[12]),
            io_limit_upper_16_bits: h1(w[12]),
            capability_pointer: b0(w[13]),
            reserved: [b1(w[13]), b2(w[13]), b3(w[13])],
            expansion_rom_base_address: w[14],
            interrupt_line: b0(w[15]),
            interrupt_pin: b1(w[15]),
            bridge_control: h1(w[15]),
        }
    }
}

/// The registers of a PCI-to-CardBus bridge (header type 0x2).
#[derive(Debug, Copy, Clone, PartialEq, Eq, Structural)]
pub struct PciDeviceType2 {
    pub card_bus_socket_exca_base_address: u32,
    pub offset_of_capabilities_list: u8,
    pub reserved: u8,
    pub secondary_status: u16,
    pub pci_bus_number: u8,
    pub card_bus_bus_number: u8,
    pub subordinate_bus_number: u8,
    pub card_bus_latency_timer: u8,
    pub memory_base_address_0: u32,
    pub memory_limit_0: u32,
    pub memory_base_address_1: u32,
    pub memory_limit_1: u32,
    pub io_base_address_0: u32,
    pub io_limit_0: u32,
    pub io_base_address_1: u32,
    pub io_limit_1: u32,
    pub interrupt_line: u8,
    pub interrupt_pin: u8,
    pub bridge_control: u16,
}

impl PciDeviceType2 {
    /// Decodes the structure from the sixteen 32-bit words of a configuration space.
    pub open spec fn from_words_spec(w: Seq<u32>) -> Self {
        PciDeviceType2 {
            card_bus_socket_exca_base_address: w[4],
            offset_of_capabilities_list: b0_spec(w[5]),
            reserved: b1_spec(w[5]),
            secondary_status: h1_spec(w[5]),
            pci_bus_number: b0_spec(w[6]),
            card_bus_bus_number: b1_spec(w[6]),
            subordinate_bus_number: b2_spec(w[6]),
            card_bus_latency_timer: b3_spec(w[6]),
            memory_base_address_0: w[7],
            memory_limit_0: w[8],
            memory_base_address_1: w[9],
            memory_limit_1: w[10],
            io_base_address_0: w[11],
            io_limit_0: w[12],
            io_base_address_1: w[13],
            io_limit_1: w[14],
            interrupt_line: b0_spec(w[15]),
            interrupt_pin: b1_spec(w[15]),
            bridge_control: h1_spec(w[15]),
        }
    }

    /// Decodes the structure from the sixteen 32-bit words of a configuration space.
    pub fn from_words(w: &Vec<u32>) -> (r: Self)
        requires
            w@.len() == 16,
        ensures
            r == Self::from_words_spec(w@),
    {
        PciDeviceType2 {
            card_bus_socket_exca_base_address: w[4],
            offset_of_capabilities_list: b0(w[5]),
            reserved: b1(w[5]),
            secondary_status: h1(w[5]),
            pci_bus_number: b0(w[6]),
            card_bus_bus_number: b1(w[6]),
            subordinate_bus_number: b2(w[6]),
            card_bus_latency_timer: b3(w[6]),
            memory_base_address_0: w[7],
            memory_limit_0: w[8],
            memory_base_address_1: w[9],
            memory_limit_1: w[10],
            io_base_address_0: w[11],
            io_limit_0: w[12],
            io_base_address_1: w[13],
            io_limit_1: w[14],
            interrupt_line: b0(w[15]),
            interrupt_pin: b1(w[15]),
            bridge_control: h1(w[15]),
        }
    }
}

/// The whole configuration space of a device whose header type is 0x0.
#[derive(Debug, Copy, Clone)]
pub struct PciType0 {
    pub vendor_id: u16,
    pub device_id: u16,
    pub command: u16,
    pub status: u16,
    pub revision_id: u8,
    pub prog_if: u8,
    pub sub_class: u8,
    pub class_code: u8,
    pub cache_line_size: u8,
    pub latency_timer: u8,
    pub header_type: u8,
    pub bist: u8,
    pub bar0: u32,
    pub bar1: u32,
    pub bar2: u32,
    pub bar3: u32,
    pub bar4: u32,
    pub bar5: u32,
    pub cardbus_cis_pointer: u32,
    pub subsystem_vendor_id: u16,
    pub subsystem_id: u16,
    pub expansion_rom_base_address: u32,
    pub capabilities_pointer: u8,
    pub reserved: [u8; 7],
    pub interrupt_line: u8,
    pub interrupt_pin: u8,
    pub min_grant: u8,
    pub max_latency: u8,
}

impl PciType0 {
    /// Decodes the structure from the sixteen 32-bit words of a configuration space.
    pub open spec fn from_words_spec(w: Seq<u32>) -> Self {
        PciType0 {
            vendor_id: h0_spec(w[0]),
            device_id: h1_spec(w[0]),
            command: h0_spec(w[1]),
            status: h1_spec(w[1]),
            revision_id: b0_spec(w[2]),
            prog_if: b1_spec(w[2]),
            sub_class: b2_spec(w[2]),
            class_code: b3_spec(w[2]),
            cache_line_size: b0_spec(w[3]),
            latency_timer: b1_spec(w[3]),
            header_type: b2_spec(w[3]),
            bist: b3_spec(w[3]),
            bar0: w[4],
            bar1: w[5],
            bar2: w[6],
            bar3: w[7],
            bar4: w[8],
            bar5: w[9],
            cardbus_cis_pointer: w[10],
            subsystem_vendor_id: h0_spec(w[11]),
            subsystem_id: h1_spec(w[11]),
            expansion_rom_base_address: w[12],
            capabilities_pointer: b0_spec(w[13]),
            reserved: [b1_spec(w[13]), b2_spec(w[13]), b3_spec(w[13]), b0_spec(w[14]), b1_spec(w[14]), b2_spec(w[14]), b3_spec(w[14])],
            interrupt_line: b0_spec(w[15]),
            interrupt_pin: b1_spec(w[15]),
            min_grant: b2_spec(w[15]),
            max_latency: b3_spec(w[15]),
        }
    }

    /// Decodes the structure from the sixteen 32-bit words of a configuration space.
    pub fn from_words(w: &Vec<u32>) -> (r: Self)
        requires
            w@.len() == 16,
        ensures
            r == Self::from_words_spec(w@),
    {
        PciType0 {
            vendor_id: h0(w[0]),
            device_id: h1(w[0]),
            command: h0(w[1]),
            status: h1(w[1]),
            revision_id: b0(w[2]),
            prog_if: b1(w[2]),
            sub_class: b2(w[2]),
            class_code: b3(w[2]),
            cache_line_size: b0(w[3]),
            latency_timer: b1(w[3]),
            header_type: b2(w[3]),
            bist: b3(w[3]),
            bar0: w[4],
            bar1: w[5],
            bar2: w[6],
            bar3: w[7],
            bar4: w[8],
            bar5: w[9],
            cardbus_cis_pointer: w[10],
            subsystem_vendor_id: h0(w[11]),
            subsystem_id: h1(w[11]),
            expansion_rom_base_address: w[12],
            capabilities_pointer: b0(w[13]),
            reserved: [b1(w[13]), b2(w[13]), b3(w[13]), b0(w[14]), b1(w[14]), b2(w[14]), b3(w[14])],
            interrupt_line: b0(w[15]),
            interrupt_pin: b1(w[15]),
            min_grant: b2(w[15]),
            max_latency: b3(w[15]),
        }
    }
}


/// The registers after the header, told apart by the header type.
#[derive(Debug, Copy, Clone)]
pub enum PciDeviceRegisters {
    PciType0(PciDeviceType0),
    PciType1(PciDeviceType1),
    PciType2(PciDeviceType2),
}

/// The registers of a device whose header type is `header_type`: a
/// PCI-to-PCI bridge for 0x1, a PCI-to-CardBus bridge for 0x2, and a basic
/// device otherwise (the two low bits are looked at).
pub open spec fn registers_spec(header_type: u8, w: Seq<u32>) -> PciDeviceRegisters {
    if header_type & 0x3 == 0x1 {
        PciDeviceRegisters::PciType1(PciDeviceType1::from_words_spec(w))
    } else if header_type & 0x3 == 0x2 {
        PciDeviceRegisters::PciType2(PciDeviceType2::from_words_spec(w))
    } else {
        PciDeviceRegisters::PciType0(PciDeviceType0::from_words_spec(w))
    }
}

/// The location of a device on the PCI bus.
#[derive(Debug, Copy, Clone, PartialEq, Eq, Structural)]
pub struct AddressSpace {
    pub bus: u8,
    pub slot: u8,
    pub function: u8,
}

/// The configuration address of a device: the enable bit (bit 31), then
/// the bus (bits 16 to 23), the slot (from bit 11) and the function (from
/// bit 8).
pub open spec fn location_spec(bus: u8, slot: u8, function: u8) -> u32 {
    (0x80000000 + bus * 0x10000 + slot * 0x800 + function * 0x100) as u32
}

impl AddressSpace {
    /// The configuration address of the device.
    pub fn get_location(&self) -> (r: u32)
        ensures
            r == location_spec(self.bus, self.slot, self.function),
            r as int == 0x80000000 + self.bus * 0x10000 + self.slot * 0x800 + self.function * 0x100,
    {
        let bus = self.bus;
        let slot = self.slot;
        let function = self.function;
        proof {
            lemma_location_shifts(bus, slot, function);
        }
        0x80000000 + ((bus as u32) << 16u32) + ((slot as u32) << 11u32) + ((function as u32)
            << 8u32)
    }
}

/// A device found on the PCI bus.
#[derive(Copy, Clone, Debug)]
pub struct PciDevice {
    pub header_l0: PciDeviceHeaderL0,
    pub header_body: PciDeviceHeaderBody,
    pub registers: PciDeviceRegisters,
    pub class: PciDeviceClass,
    pub address_space: AddressSpace,
}

/// The device at (`bus`, `slot`, `function`) whose configuration space
/// reads `w`, or `None` when the vendor id reads 0xFFFF (no device).
pub open spec fn device_spec(bus: u8, slot: u8, function: u8, w: Seq<u32>) -> Option<PciDevice> {
    let header_l0 = PciDeviceHeaderL0::from_words_spec(w);
    let header_body = PciDeviceHeaderBody::from_words_spec(w);
    if header_l0.vendor_id == 0xffff {
        None
    } else {
        Some(
            PciDevice {
                header_l0,
                header_body,
                registers: registers_spec(header_body.header_type, w),
                class: pci_class(header_body.class_code, header_body.sub_class, header_body.prog_if),
                address_space: AddressSpace { bus, slot, function },
            },
        )
    }
}

/// Whether a device has more than one function: bit 7 of its header type.
pub open spec fn is_multi_function(d: PciDevice) -> bool {
    d.header_body.header_type & 0x80 != 0
}

impl PciDevice {
    /// Whether the device has more than one function (bit 7 of its header
    /// type).
    pub fn is_multi_function(&self) -> (r: bool)
        ensures
            r == is_multi_function(*self),
    {
        self.header_body.header_type & 0x80 != 0
    }
}

/// The configuration address of the 32-bit word `index` of the device at
/// `location`.
pub open spec fn word_location_spec(location: u32, index: u32) -> u32 {
    (location + 4 * index) as u32
}

/// The fixed value of the `CONFIG_ADDRESS` port, where configuration
/// addresses are written.
pub const CONFIG_ADDRESS: u16 = 0x0CF8;

/// The fixed value of the `CONFIG_DATA` port, where configuration words are
/// read and written.
pub const CONFIG_DATA: u16 = 0x0CFC;

/// The flags of the command register of a PCI device.
#[derive(Debug, Copy, Clone, PartialEq, Eq, Structural)]
pub struct PciCommand {
    pub bits: u16,
}

impl PciCommand {
    /// If set the assertion of the device's INTx# signal is disabled.
    pub const INTERRUPT_DISABLE: u16 = 0x400;
    /// If set the device may generate fast back-to-back transactions.
    pub const FAST_BACK_TO_BACK_ENABLE: u16 = 0x200;
    /// If set the SERR# driver is enabled.
    pub const SERR_ENABLE: u16 = 0x100;
    /// Hardwired to 0 since revision 3.0 of the specification.
    pub const BIT_7: u16 = 0x80;
    /// If set the device takes its normal action on parity errors.
    pub const PARITY_ERROR_RESPONDE: u16 = 0x40;
    /// If set the device snoops palette register writes.
    pub const VGA_PALETTE_SNOOP: u16 = 0x20;
    /// If set the device can generate Memory Write and Invalidate.
    pub const MEMORY_WRITE_AND_INVALIDABLE_ENABLE: u16 = 0x10;
    /// If set the device can monitor Special Cycle operations.
    pub const SPECIAL_CYCLES: u16 = 0x8;
    /// If set the device can behave as a bus master.
    pub const BUS_MASTER: u16 = 0x4;
    /// If set the device responds to Memory Space accesses.
    pub const MEMORY_SPACE: u16 = 0x2;
    /// If set the device responds to I/O Space accesses.
    pub const IO_SPACE: u16 = 0x1;

    /// The flags whose bits are `bits`.
    pub fn from_bits_retain(bits: u16) -> (r: Self)
        ensures
            r.bits == bits,
    {
        PciCommand { bits }
    }
}

/// The flags of the status register of a PCI device.
#[derive(Debug, Copy, Clone, PartialEq, Eq, Structural)]
pub struct PciStatus {
    pub bits: u16,
}

impl PciStatus {
    /// The state of the device's INTx# signal.
    pub const INTERRUPT_STATUS: u16 = 0x8;
    /// The device implements a capabilities list at offset 0x34.
    pub const CAPABILITIES_LIST: u16 = 0x10;
    /// The device can run at 66 MHz.
    pub const MHZ_66_CAPABLE: u16 = 0x20;
    /// The device accepts fast back-to-back transactions from other agents.
    pub const FAST_BACK_TO_BACK_CAPABLE: u16 = 0x80;
    /// A master data parity error occurred.
    pub const MASTER_DATA_PARITY_ERROR: u16 = 0x100;
    /// The DEVSEL# timing (two bits).
    pub const DEVSEL_TIMING: u16 = 0x600;
    /// The device terminated a transaction with Target-Abort.
    pub const SIGNALED_TARGET_ABORT: u16 = 0x800;
    /// A transaction of the device was terminated with Target-Abort.
    pub const RECEIVED_TARGET_ABORT: u16 = 0x1000;
    /// A transaction of the device was terminated with Master-Abort.
    pub const RECEIVED_MASTER_ABORT: u16 = 0x2000;
    /// The device asserted SERR#.
    pub const SIGNALED_SYSTEM_ERROR: u16 = 0x4000;
    /// The device detected a parity error.
    pub const DETECTED_PARITY_ERROR: u16 = 0x8000;
}

/// The command register after setting (`state`) or clearing the flags of
/// `command`, given `l1`, the word at offset 4 of the configuration space.
pub open spec fn command_after(l1: u32, command: PciCommand, state: bool) -> u16 {
    if state {
        (l1 as u16) | command.bits
    } else {
        (l1 as u16) & !command.bits
    }
}

/// A write to the configuration space of a device: `address` to
/// `CONFIG_ADDRESS` (32 bits), then `data` to `CONFIG_DATA` (16 bits).
#[derive(Debug, Copy, Clone, PartialEq, Eq, Structural)]
pub struct PciConfigWrite {
    pub address: u32,
    pub data: u16,
}

/// The write that lets the device at `pci_location`, whose configuration
/// space reads `pci`, behave as a bus master: its command register with
/// `BUS_MASTER` set, at offset 4.
pub open spec fn bus_master_write(pci: PciType0, pci_location: u32) -> PciConfigWrite {
    PciConfigWrite { address: (pci_location + 4) as u32, data: pci.command | PciCommand::BUS_MASTER }
}

impl PciType0 {
    /// The write that makes the device at `pci_location` a bus master (see
    /// `bus_master_write`); its command register is the one read in `self`.
    pub fn enable_bus_master(&self, pci_location: u32) -> (w: PciConfigWrite)
        requires
            pci_location <= 0xffff_fffb,
        ensures
            w == bus_master_write(*self, pci_location),
    {
        let l1 = self.command as u32;
        PciConfigWrite {
            address: PciType0::command_location(pci_location),
            data: self.set_command(PciCommand::from_bits_retain(PciCommand::BUS_MASTER), true, l1),
        }
    }

    /// The configuration address of the command and status registers of
    /// the device at `pci_location`: its word at offset 4.
    pub fn command_location(pci_location: u32) -> (r: u32)
        requires
            pci_location <= 0xffff_fffb,
        ensures
            r == pci_location + 4,
    {
        pci_location + 4
    }

    /// The value to write back to the command register to set (`state`) or
    /// clear the flags of `command`, given `l1`, the word read at the
    /// command location. It is written as 16 bits to `CONFIG_DATA` after
    /// the command location is written again to `CONFIG_ADDRESS`.
    pub fn set_command(&self, command: PciCommand, state: bool, l1: u32) -> (r: u16)
        ensures
            r == command_after(l1, command, state),
    {
        if state {
            (l1 as u16) | command.bits
        } else {
            (l1 as u16) & !command.bits
        }
    }

    /// The status of the device, given `l1`, the word read at the command
    /// location: its high half.
    pub fn get_status(&self, l1: u32) -> (r: PciStatus)
        ensures
            r.bits == h1_spec(l1),
    {
        PciStatus { bits: h1(l1) }
    }
}


/// The devices in a sequence of probe results, in order.
pub open spec fn somes(r: Seq<Option<PciDevice>>) -> Seq<PciDevice>
    decreases r.len(),
{
    if r.len() == 0 {
        Seq::empty()
    } else {
        somes(r.drop_last()) + match r.last() {
            Some(d) => seq![d],
            None => Seq::<PciDevice>::empty(),
        }
    }
}

/// The devices in the probe results of successive slots, in order.
pub open spec fn somes_all(ps: Seq<Seq<Option<PciDevice>>>) -> Seq<PciDevice>
    decreases ps.len(),
{
    if ps.len() == 0 {
        Seq::empty()
    } else {
        somes_all(ps.drop_last()) + somes(ps.last())
    }
}

/// The functions probed in one slot: function 0, then, when it holds a
/// multi-function device, functions 1 to 7 too.
pub open spec fn slot_probed_as_scanned(r: Seq<Option<PciDevice>>) -> bool {
    &&& r.len() >= 1
    &&& match r[0] {
        Some(d) => if is_multi_function(d) {
            r.len() == 8
        } else {
            r.len() == 1
        },
        None => r.len() == 1,
    }
}

/// `d` is the device `check_device` decodes at (`b`, `s`, `f`) from the
/// sixteen words `read_config` read there.
pub open spec fn decodes<R: Fn(u8, u8, u8) -> Vec<u32>>(read_config: R, b: u8, s: u8, f: u8, d: Option<PciDevice>) -> bool {
    exists|w: Vec<u32>| call_ensures(read_config, (b, s, f), w) && d == device_spec(b, s, f, w@)
}

/// `ps[n]` holds the devices decoded for the functions of slot `n % 32`
/// of bus `n / 32`, for each slot scanned so far, in the order of the scan.
pub open spec fn probes_answered<R: Fn(u8, u8, u8) -> Vec<u32>>(
    read_config: R,
    ps: Seq<Seq<Option<PciDevice>>>,
) -> bool {
    forall|n: int, f: int|
        #![trigger ps[n][f]]
        0 <= n < ps.len() && 0 <= f < ps[n].len() ==> decodes(
            read_config,
            (n / 32) as u8,
            (n % 32) as u8,
            f as u8,
            ps[n][f],
        )
}

/// A bounded list of the PCI devices found: 256 at most.
pub struct CustomPciDeviceAllocator {
    devices_array: Vec<PciDevice>,
}

/// The number of devices a `CustomPciDeviceAllocator` can hold.
pub const PCI_DEVICES_CAPACITY: usize = 256;

impl CustomPciDeviceAllocator {
    #[verifier::type_invariant]
    closed spec fn bounded(self) -> bool {
        self.devices_array@.len() <= PCI_DEVICES_CAPACITY
    }

    /// The devices held, in the order they were pushed.
    pub closed spec fn devices(self) -> Seq<PciDevice> {
        self.devices_array@
    }

    /// An empty list.
    pub fn new() -> (r: Self)
        ensures
            r.devices() == Seq::<PciDevice>::empty(),
    {
        CustomPciDeviceAllocator { devices_array: Vec::new() }
    }

    /// The number of devices held.
    pub fn len(&self) -> (r: usize)
        ensures
            r == self.devices().len(),
            r <= PCI_DEVICES_CAPACITY,
    {
        proof {
            use_type_invariant(self);
        }
        self.devices_array.len()
    }

    /// Appends `s`, unless the list already holds 256 devices.
    pub fn push(&mut self, s: PciDevice) -> (r: Result<(), ()>)
        ensures
            r is Ok <==> old(self).devices().len() < PCI_DEVICES_CAPACITY,
            r is Ok ==> final(self).devices() == old(self).devices().push(s),
            r is Err ==> final(self).devices() == old(self).devices(),
    {
        proof {
            use_type_invariant(&*self);
        }
        if self.devices_array.len() >= PCI_DEVICES_CAPACITY {
            Err(())
        } else {
            let mut devices = Vec::new();
            core::mem::swap(&mut devices, &mut self.devices_array);
            devices.push(s);
            core::mem::swap(&mut devices, &mut self.devices_array);
            Ok(())
        }
    }

    /// A cursor over the devices held, from the first.
    pub fn iter(&self) -> (r: CustomPciDeviceAllocatorIterator<'_>)
        ensures
            r.parent() == self.devices(),
            r.position() == 0,
    {
        CustomPciDeviceAllocatorIterator { parent_reference: self, current_iter: 0 }
    }
}

/// A cursor over the devices of a `CustomPciDeviceAllocator`.
pub struct CustomPciDeviceAllocatorIterator<'a> {
    parent_reference: &'a CustomPciDeviceAllocator,
    current_iter: usize,
}

impl<'a> CustomPciDeviceAllocatorIterator<'a> {
    /// The devices walked through.
    pub closed spec fn parent(self) -> Seq<PciDevice> {
        self.parent_reference.devices()
    }

    /// How many devices were handed out.
    pub closed spec fn position(self) -> nat {
        self.current_iter as nat
    }

    /// The next device, or `None` once all were handed out.
    pub fn next(&mut self) -> (r: Option<PciDevice>)
        requires
            old(self).position() <= old(self).parent().len(),
        ensures
            final(self).parent() == old(self).parent(),
            old(self).position() < old(self).parent().len() ==> r == Some(
                old(self).parent()[old(self).position() as int],
            ) && final(self).position() == old(self).position() + 1,
            old(self).position() == old(self).parent().len() ==> r is None && final(self).position()
                == old(self).position(),
            (r, final(self).position()) == iter_step(old(self).parent(), old(self).position()),
    {
        if self.current_iter >= self.parent_reference.devices_array.len() {
            None
        } else {
            self.current_iter = self.current_iter + 1;
            Some(self.parent_reference.devices_array[self.current_iter - 1])
        }
    }
}

/// One step of a cursor at `pos` over `devices`: the device there and the
/// next position, or nothing at the end.
pub open spec fn iter_step(devices: Seq<PciDevice>, pos: nat) -> (Option<PciDevice>, nat) {
    if pos < devices.len() {
        (Some(devices[pos as int]), pos + 1)
    } else {
        (None, pos)
    }
}

/// The answers of `k` steps of a cursor from the first device, and where
/// it is then.
pub open spec fn iter_run(devices: Seq<PciDevice>, k: nat) -> (Seq<Option<PciDevice>>, nat)
    decreases k,
{
    if k == 0 {
        (Seq::empty(), 0)
    } else {
        let (answers, pos) = iter_run(devices, (k - 1) as nat);
        let (r, next) = iter_step(devices, pos);
        (answers.push(r), next)
    }
}

/// A cursor from the first device hands out the devices in the order they
/// were pushed, each once, then nothing: its `k` first answers are the
/// devices up to `k`, then `None`s.
pub proof fn lemma_iteration_in_order(devices: Seq<PciDevice>, k: nat)
    ensures
        iter_run(devices, k).0.len() == k,
        iter_run(devices, k).1 == if k < devices.len() {
            k
        } else {
            devices.len()
        },
        forall|i: int|
            0 <= i < k ==> #[trigger] iter_run(devices, k).0[i] == if i < devices.len() {
                Some(devices[i])
            } else {
                None
            },
    decreases k,
{
    if k > 0 {
        lemma_iteration_in_order(devices, (k - 1) as nat);
    }
}

/// The configuration address of the first device of `devices` whose class
/// is `class`, if there is one.
#[verifier::opaque]
pub open spec fn first_of_class(devices: Seq<PciDevice>, class: PciDeviceClass) -> Option<u32> {
    if exists|i: int| 0 <= i < devices.len() && devices[i].class == class {
        let i = choose|i: int|
            0 <= i < devices.len() && devices[i].class == class && forall|j: int|
                0 <= j < i ==> devices[j].class != class;
        Some(
            location_spec(
                devices[i].address_space.bus,
                devices[i].address_space.slot,
                devices[i].address_space.function,
            ),
        )
    } else {
        None
    }
}

/// The first device of a class found at `i` gives `first_of_class`.
proof fn lemma_first_of_class(devices: Seq<PciDevice>, class: PciDeviceClass, i: int)
    requires
        0 <= i < devices.len(),
        devices[i].class == class,
        forall|j: int| 0 <= j < i ==> devices[j].class != class,
    ensures
        first_of_class(devices, class) == Some(
            location_spec(
                devices[i].address_space.bus,
                devices[i].address_space.slot,
                devices[i].address_space.function,
            ),
        ),
{
    reveal(first_of_class);
    let k = choose|k: int|
        0 <= k < devices.len() && devices[k].class == class && forall|j: int|
            0 <= j < k ==> devices[j].class != class;
    assert(0 <= k < devices.len() && devices[k].class == class && forall|j: int|
        0 <= j < k ==> devices[j].class != class);
    if k < i {
        assert(devices[k].class != class);
    }
    if i < k {
        assert(devices[i].class != class);
    }
}

/// With no device of a class, `first_of_class` finds none.
proof fn lemma_no_device_of_class(devices: Seq<PciDevice>, class: PciDeviceClass)
    requires
        forall|j: int| 0 <= j < devices.len() ==> (#[trigger] devices[j]).class != class,
    ensures
        first_of_class(devices, class) is None,
{
    reveal(first_of_class);
}

/// Adding a device to the list changes what a query finds only when no
/// device of the class was there before: then the device added is found
/// when it is of the class.
#[verifier::spinoff_prover]
pub proof fn lemma_query_after_push(devices: Seq<PciDevice>, d: PciDevice, class: PciDeviceClass)
    ensures
        first_of_class(devices.push(d), class) == match first_of_class(devices, class) {
            Some(l) => Some(l),
            None => if d.class == class {
                Some(location_spec(d.address_space.bus, d.address_space.slot, d.address_space.function))
            } else {
                None
            },
        },
{
    let all = devices.push(d);
    assert forall|j: int| 0 <= j < devices.len() implies #[trigger] all[j] == devices[j] by {}
    if exists|k: int| 0 <= k < devices.len() && devices[k].class == class {
        let k = choose|k: int| 0 <= k < devices.len() && devices[k].class == class;
        let i = lemma_least_of_class(devices, class, k);
        lemma_first_of_class(devices, class, i);
        lemma_first_of_class(all, class, i);
    } else {
        lemma_no_device_of_class(devices, class);
        if d.class == class {
            lemma_first_of_class(all, class, devices.len() as int);
        } else {
            lemma_no_device_of_class(all, class);
        }
    }
}

/// Where a device of a class is at `k`, one is first at or before `k`:
/// the index returned.
proof fn lemma_least_of_class(devices: Seq<PciDevice>, class: PciDeviceClass, k: int) -> (i: int)
    requires
        0 <= k < devices.len(),
        devices[k].class == class,
    ensures
        0 <= i <= k,
        devices[i].class == class,
        forall|j: int| 0 <= j < i ==> devices[j].class != class,
    decreases k,
{
    if exists|j: int| 0 <= j < k && devices[j].class == class {
        let j = choose|j: int| 0 <= j < k && devices[j].class == class;
        lemma_least_of_class(devices, class, j)
    } else {
        k
    }
}

/// The location a query finds leaves room for the offset of the command
/// register.
pub proof fn lemma_found_location_bound(devices: Seq<PciDevice>, class: PciDeviceClass)
    ensures
        first_of_class(devices, class) matches Some(l) ==> l <= 0xffff_fffb,
{
    reveal(first_of_class);
    if exists|i: int| 0 <= i < devices.len() && devices[i].class == class {
        let i = choose|i: int|
            0 <= i < devices.len() && devices[i].class == class && forall|j: int|
                0 <= j < i ==> devices[j].class != class;
        let a = devices[i].address_space;
        assert(0x80000000 + a.bus * 0x10000 + a.slot * 0x800 + a.function * 0x100 <= 0x8107_f700)
            by (nonlinear_arith)
            requires
                a.bus <= 0xff,
                a.slot <= 0xff,
                a.function <= 0xff,
        ;
    }
}

/// The fields of a configuration address, shifted into place.
proof fn lemma_location_shifts(bus: u8, slot: u8, function: u8)
    by (bit_vector)
    ensures
        (bus as u32) << 16u32 == bus * 0x10000,
        (slot as u32) << 11u32 == slot * 0x800,
        (function as u32) << 8u32 == function * 0x100,
{
}

/// The PCI bus and the devices found on it.
pub struct Pci {
    pub devices_list: CustomPciDeviceAllocator,
}

impl Pci {
    /// The PCI bus with no device found yet.
    pub fn new() -> (r: Pci)
        ensures
            r.devices_list.devices() == Seq::<PciDevice>::empty(),
    {
        Pci { devices_list: CustomPciDeviceAllocator::new() }
    }

    /// Decodes the device at (`bus`, `slot`, `function`) from the sixteen
    /// words `w` read from its configuration space; `None` when its vendor
    /// id reads 0xFFFF, that is, when there is no device there.
    pub fn check_device(&self, bus: u8, slot: u8, function: u8, w: &Vec<u32>) -> (r: Option<PciDevice>)
        requires
            w@.len() == 16,
        ensures
            r == device_spec(bus, slot, function, w@),
    {
        let header_l0 = PciDeviceHeaderL0::from_words(w);
        if header_l0.vendor_id == 0xffff {
            return None;
        }
        let header_body = PciDeviceHeaderBody::from_words(w);
        let registers = if header_body.header_type & 0x3 == 0x1 {
            PciDeviceRegisters::PciType1(PciDeviceType1::from_words(w))
        } else if header_body.header_type & 0x3 == 0x2 {
            PciDeviceRegisters::PciType2(PciDeviceType2::from_words(w))
        } else {
            PciDeviceRegisters::PciType0(PciDeviceType0::from_words(w))
        };
        Some(
            PciDevice {
                header_l0,
                header_body,
                registers,
                class: get_pci_device(
                    header_body.class_code,
                    header_body.sub_class,
                    header_body.prog_if,
                ),
                address_space: AddressSpace { bus, slot, function },
            },
        )
    }

    /// The configuration address of the first device found of class
    /// `device_class`, or `None` when there is none.
    pub fn query_device(&self, device_class: PciDeviceClass) -> (r: Option<u32>)
        ensures
            r == first_of_class(self.devices_list.devices(), device_class),
            r is None <==> forall|i: int|
                0 <= i < self.devices_list.devices().len() ==> (
                #[trigger] self.devices_list.devices()[i]).class != device_class,
            r matches Some(loc) ==> exists|i: int|
                0 <= i < self.devices_list.devices().len() && (
                #[trigger] self.devices_list.devices()[i]).class == device_class && (forall|j: int|
                    0 <= j < i ==> self.devices_list.devices()[j].class != device_class) && loc
                    == location_spec(
                    self.devices_list.devices()[i].address_space.bus,
                    self.devices_list.devices()[i].address_space.slot,
                    self.devices_list.devices()[i].address_space.function,
                ),
    {
        let mut it = self.devices_list.iter();
        let mut i: usize = 0;
        while i < self.devices_list.len()
            invariant
                i <= self.devices_list.devices().len(),
                it.parent() == self.devices_list.devices(),
                it.position() == i,
                forall|j: int|
                    0 <= j < i ==> (#[trigger] self.devices_list.devices()[j]).class != device_class,
            decreases self.devices_list.devices().len() - i,
        {
            match it.next() {
                Some(d) => {
                    if d.class == device_class {
                        proof {
                            lemma_first_of_class(self.devices_list.devices(), device_class, i as int);
                        }
                        return Some(d.address_space.get_location());
                    }
                },
                None => {},
            }
            i = i + 1;
        }
        proof {
            lemma_no_device_of_class(self.devices_list.devices(), device_class);
        }
        None
    }

    /// Scans every slot of every bus, each location decoded with
    /// `check_device` from the sixteen words `read_config` reads from its
    /// configuration space: function 0 of each slot, and functions 1 to 7
    /// when function 0 holds a multi-function device. The devices found are added in the
    /// order of the scan, when they all fit in the list; otherwise the list
    /// is left as it was and `Err` is returned.
    pub fn scan_pci_buses<R: Fn(u8, u8, u8) -> Vec<u32>>(&mut self, read_config: R) -> (r: Result<(), ()>)
        requires
            forall|b: u8, s: u8, f: u8| call_requires(read_config, (b, s, f)),
            forall|b: u8, s: u8, f: u8, w: Vec<u32>| call_ensures(read_config, (b, s, f), w) ==> w@.len() == 16,
        ensures
            exists|ps: Seq<Seq<Option<PciDevice>>>|
                {
                    &&& ps.len() == 256 * 32
                    &&& forall|n: int| 0 <= n < ps.len() ==> slot_probed_as_scanned(#[trigger] ps[n])
                    &&& probes_answered(read_config, ps)
                    &&& (r is Ok <==> old(self).devices_list.devices().len() + somes_all(ps).len()
                        <= PCI_DEVICES_CAPACITY)
                    &&& r is Ok ==> final(self).devices_list.devices() == old(
                        self,
                    ).devices_list.devices() + somes_all(ps)
                },
            r is Err ==> final(self).devices_list.devices() == old(self).devices_list.devices(),
    {
        let mut found: Vec<PciDevice> = Vec::new();
        let ghost mut ps: Seq<Seq<Option<PciDevice>>> = Seq::empty();
        let mut bus: u16 = 0;
        while bus < 256
            invariant
                bus <= 256,
                ps.len() == bus * 32,
                forall|b: u8, s: u8, f: u8| call_requires(read_config, (b, s, f)),
            forall|b: u8, s: u8, f: u8, w: Vec<u32>| call_ensures(read_config, (b, s, f), w) ==> w@.len() == 16,
                forall|n: int| 0 <= n < ps.len() ==> slot_probed_as_scanned(#[trigger] ps[n]),
                probes_answered(read_config, ps),
                found@ == somes_all(ps),
            decreases 256 - bus,
        {
            let mut slot: u8 = 0;
            while slot < 32
                invariant
                    bus < 256,
                    slot <= 32,
                    ps.len() == bus * 32 + slot,
                    forall|b: u8, s: u8, f: u8| call_requires(read_config, (b, s, f)),
            forall|b: u8, s: u8, f: u8, w: Vec<u32>| call_ensures(read_config, (b, s, f), w) ==> w@.len() == 16,
                    forall|n: int| 0 <= n < ps.len() ==> slot_probed_as_scanned(#[trigger] ps[n]),
                    probes_answered(read_config, ps),
                    found@ == somes_all(ps),
                decreases 32 - slot,
            {
                let ghost n = ps.len() as int;
                assert(n / 32 == bus as int && n % 32 == slot as int);
                let w0 = read_config(bus as u8, slot, 0);
                let first = self.check_device(bus as u8, slot, 0, &w0);
                assert(decodes(read_config, bus as u8, slot, 0, first));
                let ghost mut cur: Seq<Option<PciDevice>> = seq![first];
                proof {
                    assert(cur.drop_last() =~= Seq::<Option<PciDevice>>::empty());
                    assert(somes(Seq::<Option<PciDevice>>::empty()) == Seq::<PciDevice>::empty());
                }
                match first {
                    Some(device) => {
                        found.push(device);
                        if device.is_multi_function() {
                            let mut function: u8 = 1;
                            while function < 8
                                invariant
                                    1 <= function <= 8,
                                    bus < 256,
                                    cur.len() == function,
                                    cur[0] == first,
                                    forall|b: u8, s: u8, f: u8| call_requires(read_config, (b, s, f)),
            forall|b: u8, s: u8, f: u8, w: Vec<u32>| call_ensures(read_config, (b, s, f), w) ==> w@.len() == 16,
                                    forall|f: int|
                                        0 <= f < cur.len() ==> decodes(
                                            read_config,
                                            bus as u8,
                                            slot,
                                            f as u8,
                                            #[trigger] cur[f],
                                        ),
                                    found@ == somes_all(ps) + somes(cur),
                                decreases 8 - function,
                            {
                                let wf = read_config(bus as u8, slot, function);
                                let d = self.check_device(bus as u8, slot, function, &wf);
                                assert(decodes(read_config, bus as u8, slot, function, d));
                                proof {
                                    let old_cur = cur;
                                    cur = cur.push(d);
                                    assert(cur.drop_last() =~= old_cur);
                                }
                                match d {
                                    Some(device) => {
                                        found.push(device);
                                    },
                                    None => {},
                                }
                                proof {
                                    assert(found@ =~= somes_all(ps) + somes(cur));
                                }
                                function = function + 1;
                            }
                        }
                    },
                    None => {},
                }
                proof {
                    let old_ps = ps;
                    ps = ps.push(cur);
                    assert(ps.drop_last() =~= old_ps);
                    assert(found@ =~= somes_all(ps));
                    assert forall|m: int, f: int|
                        0 <= m < ps.len() && 0 <= f < ps[m].len() implies decodes(
                        read_config,
                        (m / 32) as u8,
                        (m % 32) as u8,
                        f as u8,
                        #[trigger] ps[m][f],
                    ) by {
                        if m < n {
                            assert(ps[m] == old_ps[m]);
                        } else {
                            assert(m == n);
                            assert(ps[m] == cur);
                        }
                    }
                }
                slot = slot + 1;
            }
            bus = bus + 1;
        }
        if found.len() > PCI_DEVICES_CAPACITY - self.devices_list.len() {
            return Err(());
        }
        let mut i: usize = 0;
        let ghost before = self.devices_list.devices();
        while i < found.len()
            invariant
                i <= found@.len(),
                before.len() + found@.len() <= PCI_DEVICES_CAPACITY,
                self.devices_list.devices() == before + found@.take(i as int),
            decreases found@.len() - i,
        {
            let r = self.devices_list.push(found[i]);
            proof {
                assert(found@.take(i as int + 1) =~= found@.take(i as int).push(found@[i as int]));
            }
            i = i + 1;
        }
        proof {
            assert(found@.take(found@.len() as int) =~= found@);
        }
        Ok(())
    }
}

} // verus!
