use turbofish::drivers::nmi::{Nmi, CONTROL_PORT};
use turbofish::drivers::pit_8253::{Channel, OperatingMode, Pit};
use turbofish::io::PortWrite;

#[test]
fn nmi_switches_bit_7() {
    assert_eq!(Nmi::enable(0xff), PortWrite { port: CONTROL_PORT, value: 0x7f });
    assert_eq!(Nmi::disable(0x0f), PortWrite { port: 0x70, value: 0x8f });
    assert_eq!(Nmi::enable(Nmi::disable(0x2a).value).value, Nmi::enable(0x2a).value);
    let _ = Nmi::new();
}

#[test]
fn pit_command_bytes() {
    let mut pit = Pit::new(Channel::Channel0);
    assert_eq!(pit.operating_mode(), None);
    assert_eq!(pit.configure(OperatingMode::SquareWaveGenerator), PortWrite { port: 0x43, value: 0x36 });
    assert_eq!(pit.operating_mode(), Some(OperatingMode::SquareWaveGenerator));
    let mut pit2 = Pit::new(Channel::Channel2);
    assert_eq!(pit2.configure(OperatingMode::RateGenerator), PortWrite { port: 0x43, value: 0xb4 });
    assert_eq!(Channel::Channel1.number(), 1);
    assert_eq!(OperatingMode::HardwareTriggeredStrobe.number(), 5);
}

#[test]
fn pit_divisor_bytes() {
    let pit = Pit::new(Channel::Channel0);
    assert_eq!(
        pit.divisor_writes(0x1234),
        vec![PortWrite { port: 0x40, value: 0x34 }, PortWrite { port: 0x40, value: 0x12 }]
    );
    assert_eq!(
        pit.divisor_writes(0x12345),
        vec![PortWrite { port: 0x40, value: 0xff }, PortWrite { port: 0x40, value: 0xff }]
    );
    assert_eq!(
        pit.divisor_writes(0),
        vec![PortWrite { port: 0x40, value: 0x01 }, PortWrite { port: 0x40, value: 0x00 }]
    );
    let pit1 = Pit::new(Channel::Channel1);
    assert_eq!(pit1.divisor_writes(2)[0].port, 0x41);
}
