use turbofish::drivers::pic_8259::pic_8259_isr::{initial_processes, schedule, Process};
use turbofish::interrupts::{get_interrupts_state, restore_interrupts_state};
use turbofish::interrupts::idt::{kernel_gate_entry, GateType, IdtGateEntry, Idtr, InterruptTable};
use turbofish::interrupts::interrupt_manager::{
    DummyHandler, FnHandler, GenericManager, HandlingState, InterruptHandler, InterruptManager,
    InterruptManagerError, Manager, Registered,
};

fn only_33(n: u8) -> HandlingState {
    if n == 33 {
        HandlingState::Handled
    } else {
        HandlingState::NotHandled
    }
}

fn table() -> InterruptTable {
    InterruptTable::from_entries(vec![IdtGateEntry::new(); 256])
}

#[test]
fn interrupt_flag() {
    assert!(get_interrupts_state(0x202));
    assert!(!get_interrupts_state(0x002));
}

#[test]
fn gate_entries() {
    let e = kernel_gate_entry(GateType::TrapGate32, 0x1234_5678);
    assert_eq!((e.offset_1, e.offset_2, e.selector, e.type_attr), (0x5678, 0x1234, 0x8, 0x8f));
    assert_eq!(e.handler(), 0x1234_5678);
    assert_eq!(e.gate_type(), GateType::TrapGate32);
    assert!(e.present());
    assert_eq!(e.get_privilege_level(), 0);
    let mut f = IdtGateEntry::new();
    f.set_privilege_level(3).set_storage_segment(true);
    assert_eq!(f.get_privilege_level(), 3);
    assert!(f.storage_segment());
    assert_eq!(GateType::from(0xE), GateType::InterruptGate32);
    assert_eq!(GateType::from(0x3), GateType::InvalidGateType);
    assert_eq!(GateType::TaskGate32.code(), 0x5);
}

#[test]
fn idtr_and_tables() {
    let idtr = Idtr::default();
    assert_eq!((idtr.length, idtr.idt_addr), (2047, 0x1000));
    assert_eq!(idtr.entries_count(), 256);
    let mut t = table();
    t.init_default_exceptions(0xdead);
    assert_eq!(t.get(200), kernel_gate_entry(GateType::InterruptGate32, 0xdead));
    let handlers: Vec<u32> = (0..32).map(|i| 0x1000 + i).collect();
    t.init_cpu_exceptions(&handlers);
    assert_eq!(t.get(3).gate_type(), GateType::TrapGate32);
    assert_eq!(t.get(5).gate_type(), GateType::InterruptGate32);
    assert_eq!(t.get(5).handler(), 0x1005);
    assert_eq!(t.get(32).handler(), 0xdead);
    assert_eq!(t.len(), 256);
}

#[test]
fn manager_registers_and_dispatches() {
    assert!(matches!(
        Manager::<DummyHandler>::new(None),
        Err(InterruptManagerError::IdtNotInitialized)
    ));
    let mut m: Manager<FnHandler<fn(u8) -> HandlingState>> = Manager::new(Some(table())).unwrap();
    assert_eq!(m.dispatch_to(33), HandlingState::NotHandled);
    assert_eq!(m.register_at(Registered::Handler(FnHandler::new(only_33 as fn(u8) -> HandlingState)), 33, 0xc000_1000), Ok(()));
    assert_eq!(m.dispatch_to(33), HandlingState::Handled);
    assert_eq!(m.register_at(Registered::Handler(FnHandler::new(only_33 as fn(u8) -> HandlingState)), 33, 0), Err(()));
    assert_eq!(m.dispatch(34), HandlingState::NotHandled);
    assert_eq!(m.register((Registered::Handler(FnHandler::new(only_33 as fn(u8) -> HandlingState)), 0x10), 34), Ok(()));
}

fn only_40(n: u8) -> HandlingState {
    if n == 40 {
        HandlingState::Handled
    } else {
        HandlingState::NotHandled
    }
}

fn never(_n: u8) -> HandlingState {
    HandlingState::NotHandled
}

fn always(_n: u8) -> HandlingState {
    HandlingState::Handled
}

#[test]
fn registering_where_a_manager_is_delegates_to_it() {
    let mut m: Manager<FnHandler<fn(u8) -> HandlingState>> = Manager::new(Some(table())).unwrap();
    assert_eq!(m.register_at(Registered::Manager(GenericManager::new()), 40, 0xc000_4000), Ok(()));
    assert_eq!(m.dispatch_to(40), HandlingState::NotHandled);
    assert_eq!(m.register_at(Registered::Handler(FnHandler::new(never as fn(u8) -> HandlingState)), 40, 0), Ok(()));
    assert_eq!(m.dispatch_to(40), HandlingState::NotHandled);
    assert_eq!(m.register((Registered::Handler(FnHandler::new(only_40 as fn(u8) -> HandlingState)), 0), 40), Ok(()));
    assert_eq!(m.dispatch_to(40), HandlingState::Handled);
    // A manager registered with the manager of an interrupt.
    assert_eq!(m.register_at(Registered::Manager(GenericManager::new()), 41, 0xc000_4100), Ok(()));
    let mut inner = GenericManager::new();
    assert_eq!(inner.register(Registered::Handler(FnHandler::new(never as fn(u8) -> HandlingState)), 0), Ok(()));
    assert_eq!(m.register_at(Registered::Manager(inner), 41, 0), Ok(()));
    assert_eq!(m.dispatch_to(41), HandlingState::NotHandled);
    assert_eq!(m.register_at(Registered::Handler(FnHandler::new(always as fn(u8) -> HandlingState)), 41, 0), Ok(()));
    assert_eq!(m.dispatch_to(41), HandlingState::Handled);
    // A handler already registered refuses another.
    assert_eq!(m.register_at(Registered::Manager(GenericManager::new()), 33, 0), Ok(()));
    assert_eq!(m.register_at(Registered::Handler(FnHandler::new(always as fn(u8) -> HandlingState)), 34, 0), Ok(()));
    assert_eq!(m.register_at(Registered::Handler(FnHandler::new(always as fn(u8) -> HandlingState)), 34, 0), Err(()));
}

#[test]
fn generic_manager_tries_each_handler() {
    let mut g: GenericManager<FnHandler<fn(u8) -> HandlingState>> = GenericManager::new();
    assert_eq!(g.dispatch(33), HandlingState::NotHandled);
    assert_eq!(g.register(Registered::Handler(FnHandler::new(never as fn(u8) -> HandlingState)), 0), Ok(()));
    assert_eq!(g.register(Registered::Handler(FnHandler::new(only_33 as fn(u8) -> HandlingState)), 0), Ok(()));
    assert_eq!(g.dispatch(33), HandlingState::Handled);
    assert_eq!(g.dispatch(1), HandlingState::NotHandled);
    assert_eq!(g.handle(33), HandlingState::Handled);
    let mut d = DummyHandler::new();
    assert_eq!(d.handle(33), HandlingState::NotHandled);
}

#[test]
fn other_setters_keep_gate_type_and_privilege_level() {
    let mut e = IdtGateEntry::new();
    e.set_gate_type(GateType::TrapGate16).set_privilege_level(2);
    e.set_present(true).set_storage_segment(false).set_selector(0x18).set_handler(0xdead_beef);
    e.set_present(false);
    assert_eq!(e.gate_type(), GateType::TrapGate16);
    assert_eq!(e.get_privilege_level(), 2);
    assert_eq!(e.handler(), 0xdead_beef);
}

#[test]
fn timer_ticks_alternate_between_two_processes() {
    let mut procs = initial_processes(0x1000, 0x9000, 0x2000, 0xa000, 0x8, 0x202, [0u32; 8]);
    assert_eq!((procs[0].eip, procs[0].esp, procs[1].eip, procs[1].esp), (0x1000, 0x9000, 0x2000, 0xa000));
    let boot = Process { eip: 0x5555, esp: 0x6666, eflags: 0x202, segment: 0x8, registers: [1u32; 8] };
    let next = schedule(None, &mut procs, boot);
    assert_eq!(next, 0);
    assert_eq!(procs[0].eip, 0x1000);
    let ctx_a = Process { eip: 0x1010, esp: 0x8ff0, eflags: 0x246, segment: 0x8, registers: [7u32; 8] };
    let next = schedule(Some(next), &mut procs, ctx_a);
    assert_eq!(next, 1);
    assert_eq!((procs[0].eip, procs[0].esp, procs[0].registers), (0x1010, 0x8ff0, [7u32; 8]));
    let ctx_b = Process { eip: 0x2020, esp: 0x9ff0, eflags: 0x202, segment: 0x8, registers: [9u32; 8] };
    let next = schedule(Some(next), &mut procs, ctx_b);
    assert_eq!(next, 0);
    assert_eq!((procs[1].eip, procs[1].esp), (0x2020, 0x9ff0));
    assert_eq!(procs[0].eip, 0x1010);
}

#[test]
fn restored_interrupt_state_reads_back() {
    assert_eq!(restore_interrupts_state(0x0000_0002, true), 0x0000_0202);
    assert_eq!(restore_interrupts_state(0x0000_0246, false), 0x0000_0046);
    assert!(get_interrupts_state(restore_interrupts_state(0x46, true)));
    assert!(!get_interrupts_state(restore_interrupts_state(0x246, false)));
}
