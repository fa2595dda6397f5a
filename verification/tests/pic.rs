use turbofish::drivers::pic_8259::PICKind;
use turbofish::drivers::pic_8259::icws::{ICWs, ICW1, ICW2, ICW3, ICW4};
use turbofish::drivers::pic_8259::{PICRegister, Pic, Pic8259, PicConfiguration, RegisterRead};
use turbofish::interrupts::pic_8259::Irq;
use turbofish::io::PortWrite;

fn pw(port: u16, value: u8) -> PortWrite {
    PortWrite { port, value }
}

#[test]
fn init_sends_the_kernel_configuration_and_masks_all() {
    let mut pic = Pic8259::new();
    assert!(!pic.is_initialized());
    let w = pic.init(0xb8fa);
    assert!(pic.is_initialized());
    assert_eq!(
        w,
        vec![
            pw(0x20, 0x11),
            pw(0x21, 0x20),
            pw(0x21, 0x04),
            pw(0x21, 0x01),
            pw(0xA0, 0x11),
            pw(0xA1, 0x28),
            pw(0xA1, 0x02),
            pw(0xA1, 0x01),
            pw(0x21, 0xff),
            pw(0xA1, 0xff),
        ]
    );
}

#[test]
fn reset_restores_the_bios_masks() {
    let mut pic = Pic8259::new();
    pic.init(0xb8fa);
    let (masks, w) = pic.reset_to_default(0x1234);
    assert_eq!(masks, 0x1234);
    assert_eq!(w[1], pw(0x21, 0x08));
    assert_eq!(w[5], pw(0xA1, 0x70));
    assert_eq!(&w[8..], &[pw(0x21, 0xfa), pw(0xA1, 0xb8)]);
}

#[test]
fn irq_masks() {
    let pic = Pic8259::new();
    assert_eq!(pic.disable_irq(Irq::KeyboardController, 0x0000), pw(0x21, 0x02));
    assert_eq!(pic.disable_irq(Irq::RealTimeClock, 0x00f0), pw(0xA1, 0x01));
    let mut handlers = vec![0u32; 16];
    assert_eq!(pic.enable_irq(Irq::SystemTimer, None, &mut handlers, 0xffff), vec![pw(0x21, 0xfe)]);
    assert_eq!(
        pic.enable_irq(Irq::RealTimeClock, None, &mut handlers, 0xffff),
        vec![pw(0xA1, 0xfe), pw(0x21, 0xfb)]
    );
    assert_eq!(handlers, vec![0u32; 16]);
    assert_eq!(pic.enable_all_irqs(), vec![pw(0x21, 0), pw(0xA1, 0)]);
    assert_eq!(pic.set_masks(0xabcd), vec![pw(0x21, 0xcd), pw(0xA1, 0xab)]);
}

#[test]
fn end_of_interrupt() {
    let pic = Pic8259::new();
    assert_eq!(pic.send_eoi(Irq::KeyboardController), vec![pw(0x20, 0x20)]);
    assert_eq!(pic.send_eoi(Irq::RealTimeClock), vec![pw(0xA0, 0x20), pw(0x20, 0x20)]);
}

#[test]
fn register_reads() {
    let pic = Pic8259::new();
    let (m, s) = pic.get_pics_register(PICRegister::InRequest);
    assert_eq!(m, RegisterRead { command: Some(pw(0x20, 0x0a)), read_port: 0x20 });
    assert_eq!(s, RegisterRead { command: Some(pw(0xA0, 0x0a)), read_port: 0xA0 });
    let (m, _) = pic.get_pics_register(PICRegister::InService);
    assert_eq!(m.command, Some(pw(0x20, 0x0b)));
    let (m, s) = pic.get_pics_register(PICRegister::InterruptMasks);
    assert_eq!((m.command, m.read_port, s.read_port), (None, 0x21, 0xA1));
    assert_eq!(pic.get_masks(0x12, 0x34), 0x3412);
    assert_eq!(pic.get_irr(0x01, 0x80), 0x8001);
    assert_eq!(pic.get_isr(0, 0), 0);
}

#[test]
fn one_chip() {
    let chip = Pic::new(0x20);
    assert_eq!(chip.get_interrupt_masks(), RegisterRead { command: None, read_port: 0x21 });
    assert_eq!(chip.set_interrupt_masks(0x5a), pw(0x21, 0x5a));
    assert_eq!(chip.send_non_specific_eoi(), pw(0x20, 0x20));
}

#[test]
fn enable_irq_records_the_handler() {
    let pic = Pic8259::new();
    let mut handlers = vec![0u32; 16];
    let w = pic.enable_irq(Irq::KeyboardController, Some(0xc010_0000), &mut handlers, 0xffff);
    assert_eq!(w, vec![pw(0x21, 0xfd)]);
    let mut expected = vec![0u32; 16];
    expected[1] = 0xc010_0000;
    assert_eq!(handlers, expected);
    pic.enable_irq(Irq::RealTimeClock, Some(0x42), &mut handlers, 0xfffd);
    expected[8] = 0x42;
    assert_eq!(handlers, expected);
}

#[test]
fn icw3_counts_the_lines_set() {
    let w = ICW3::new(PICKind::Master).set_cascaded_line(2, true).set_cascaded_line(2, true);
    assert_eq!(w.cascaded_lines(), 1);
    assert_eq!(w.byte(), 0b100);
    let w = w.set_cascaded_line(5, true).set_cascaded_line(7, false);
    assert_eq!(w.cascaded_lines(), 2);
    let w = w.set_cascaded_line(2, false);
    assert_eq!(w.cascaded_lines(), 1);
    assert_eq!(ICW3::new(PICKind::Master).cascaded_lines(), 0);
}

#[test]
fn icw4_is_sent_only_when_icw1_asks_for_it() {
    let master = ICWs::new()
        .push_icw1(ICW1::new())
        .push_icw2(ICW2::new().set_interrupt_vector(0x20))
        .push_icw3(ICW3::new(PICKind::Master).set_cascaded_line(2, true));
    assert!(master.is_complete());
    let mut chip = Pic::new(0x20);
    assert_eq!(chip.configure(master), vec![pw(0x20, 0x10), pw(0x21, 0x20), pw(0x21, 0x04)]);
    let slave = ICWs::new()
        .push_icw1(ICW1::new().set_icw4_needed(true))
        .push_icw2(ICW2::new().set_interrupt_vector(0x28))
        .push_icw3(ICW3::new(PICKind::Slave).set_slave_identity(2))
        .push_icw4(ICW4::new());
    let mut conf = PicConfiguration::new();
    conf.add_pic_configuration(master).add_pic_configuration(slave);
    assert!(conf.is_complete());
    let mut pic = Pic8259::new();
    let w = pic.initialize(conf);
    assert_eq!(
        w,
        vec![pw(0x20, 0x10), pw(0x21, 0x20), pw(0x21, 0x04), pw(0xA0, 0x11), pw(0xA1, 0x28), pw(0xA1, 0x02), pw(0xA1, 0x01)]
    );
}
