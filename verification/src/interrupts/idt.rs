//! The Interrupt Descriptor Table: its gate entries, the IDTR, and the
//! default content of the table.
//!
//! See [IDT](https://wiki.osdev.org/IDT) and
//! [Interrupts](https://wiki.osdev.org/Interrupts).
use crate::bits::{
    bit_of_u8, bits_of_u8, get_bit_u8, get_bits_u8, set_bit_u8, set_bits_u8, with_bit_u8,
    with_bits_u8,
};
use vstd::prelude::*;

verus! {

/// The type of a gate:
/// 0x5 is a 80386 32 bit task gate, 0x6 a 80286 16-bit interrupt gate,
/// 0x7 a 80286 16-bit trap gate, 0xE a 80386 32-bit interrupt gate and
/// 0xF a 80386 32-bit trap gate.
#[derive(Debug, Copy, Clone, PartialEq, Eq, Structural)]
pub enum GateType {
    TaskGate32,
    InterruptGate16,
    TrapGate16,
    InterruptGate32,
    TrapGate32,
    InvalidGateType,
}

/// The four-bit code of a valid gate type.
pub open spec fn gate_type_code(g: GateType) -> u8 {
    match g {
        GateType::TaskGate32 => 0x5,
        GateType::InterruptGate16 => 0x6,
        GateType::TrapGate16 => 0x7,
        GateType::InterruptGate32 => 0xE,
        GateType::TrapGate32 => 0xF,
        GateType::InvalidGateType => 0x10,
    }
}

/// Which gate type a code stands for.
pub open spec fn gate_type_of(value: u8) -> GateType {
    if value == 0x5 {
        GateType::TaskGate32
    } else if value == 0x6 {
        GateType::InterruptGate16
    } else if value == 0x7 {
        GateType::TrapGate16
    } else if value == 0xE {
        GateType::InterruptGate32
    } else if value == 0xF {
        GateType::TrapGate32
    } else {
        GateType::InvalidGateType
    }
}

impl From<u8> for GateType {
    /// Which gate type a code stands for; any other code is invalid.
    fn from(value: u8) -> (r: Self) {
        match value {
            0x5 => GateType::TaskGate32,
            0x6 => GateType::InterruptGate16,
            0x7 => GateType::TrapGate16,
            0xE => GateType::InterruptGate32,
            0xF => GateType::TrapGate32,
            _ => GateType::InvalidGateType,
        }
    }
}

impl vstd::std_specs::convert::FromSpecImpl<u8> for GateType {
    open spec fn obeys_from_spec() -> bool {
        true
    }

    open spec fn from_spec(v: u8) -> Self {
        gate_type_of(v)
    }
}

impl GateType {
    /// The code of a gate type.
    pub fn code(self) -> (r: u8)
        ensures
            r == gate_type_code(self),
    {
        match self {
            GateType::TaskGate32 => 0x5,
            GateType::InterruptGate16 => 0x6,
            GateType::TrapGate16 => 0x7,
            GateType::InterruptGate32 => 0xE,
            GateType::TrapGate32 => 0xF,
            GateType::InvalidGateType => 0x10,
        }
    }
}

/// A descriptor of the Interrupt Descriptor Table.
///
/// The handler's address is split between `offset_1` (low half) and
/// `offset_2` (high half); `selector` is the code segment of the handler.
/// `type_attr` is laid out as: bit 7 present, bits 5 and 6 the descriptor
/// privilege level, bit 4 the storage segment, bits 0 to 3 its gate type.
#[derive(Debug, Copy, Clone, PartialEq, Eq, Structural)]
pub struct IdtGateEntry {
    pub offset_1: u16,
    pub selector: u16,
    pub _zero: u8,
    pub type_attr: u8,
    pub offset_2: u16,
}

/// The handler address an entry holds.
pub open spec fn handler_of(e: IdtGateEntry) -> u32 {
    ((e.offset_2 as u32) << 16u32) | (e.offset_1 as u32)
}

impl IdtGateEntry {
    /// A zeroed entry.
    fn minimal() -> (r: Self)
        ensures
            r == (IdtGateEntry { offset_1: 0, selector: 0, _zero: 0, type_attr: 0, offset_2: 0 }),
    {
        IdtGateEntry { offset_1: 0, selector: 0, _zero: 0, type_attr: 0, offset_2: 0 }
    }

    /// A new entry: present, everything else zeroed.
    pub fn new() -> (r: Self)
        ensures
            r == (IdtGateEntry { offset_1: 0, selector: 0, _zero: 0, type_attr: 0x80, offset_2: 0 }),
    {
        let mut new = Self::minimal();
        new.set_present(true);
        proof {
            crate::bits::lemma_u8_constants(0);
        }
        new
    }

    /// Sets the present flag (bit 7 of `type_attr`).
    pub fn set_present(&mut self, present: bool) -> (r: &mut Self)
        ensures
            *r == (IdtGateEntry { type_attr: with_bit_u8(old(self).type_attr, 7, present), ..*old(self) }),
            *final(self) == *final(r),
    {
        self.type_attr = set_bit_u8(self.type_attr, 7, present);
        self
    }

    /// The present flag.
    pub fn present(&self) -> (r: bool)
        ensures
            r == bit_of_u8(self.type_attr, 7),
    {
        get_bit_u8(self.type_attr, 7)
    }

    /// Sets the storage segment flag (bit 4 of `type_attr`).
    pub fn set_storage_segment(&mut self, storage: bool) -> (r: &mut Self)
        ensures
            *r == (IdtGateEntry { type_attr: with_bit_u8(old(self).type_attr, 4, storage), ..*old(self) }),
            *final(self) == *final(r),
    {
        self.type_attr = set_bit_u8(self.type_attr, 4, storage);
        self
    }

    /// The storage segment flag.
    pub fn storage_segment(&self) -> (r: bool)
        ensures
            r == bit_of_u8(self.type_attr, 4),
    {
        get_bit_u8(self.type_attr, 4)
    }

    /// Sets its gate type (bits 0 to 3 of `type_attr`); it must be valid.
    pub fn set_gate_type(&mut self, gate_type: GateType) -> (r: &mut Self)
        requires
            gate_type != GateType::InvalidGateType,
        ensures
            *r == (IdtGateEntry {
                type_attr: with_bits_u8(old(self).type_attr, 0, 4, gate_type_code(gate_type)),
                ..*old(self)
            }),
            *final(self) == *final(r),
    {
        let code = gate_type.code();
        proof {
            crate::bits::lemma_u8_fits(code);
        }
        self.type_attr = set_bits_u8(self.type_attr, 0, 4, code);
        self
    }

    /// Its gate type.
    pub fn gate_type(&self) -> (r: GateType)
        ensures
            r == gate_type_of(bits_of_u8(self.type_attr, 0, 4)),
    {
        GateType::from(get_bits_u8(self.type_attr, 0, 4))
    }

    /// Sets the descriptor privilege level (bits 5 and 6 of `type_attr`),
    /// from 0 to 3.
    pub fn set_privilege_level(&mut self, dpl: u8) -> (r: &mut Self)
        requires
            dpl < 4,
        ensures
            *r == (IdtGateEntry { type_attr: with_bits_u8(old(self).type_attr, 5, 7, dpl), ..*old(self) }),
            *final(self) == *final(r),
    {
        proof {
            crate::bits::lemma_u8_fits(dpl);
        }
        self.type_attr = set_bits_u8(self.type_attr, 5, 7, dpl);
        self
    }

    /// The descriptor privilege level.
    pub fn get_privilege_level(&self) -> (r: u8)
        ensures
            r == bits_of_u8(self.type_attr, 5, 7),
    {
        get_bits_u8(self.type_attr, 5, 7)
    }

    /// Sets the code segment selector of the handler.
    pub fn set_selector(&mut self, selector: u16) -> (r: &mut Self)
        ensures
            *r == (IdtGateEntry { selector, ..*old(self) }),
            *final(self) == *final(r),
    {
        self.selector = selector;
        self
    }

    /// Sets the handler's address: its low half in `offset_1`, its high
    /// half in `offset_2`.
    pub fn set_handler(&mut self, handler: u32) -> (r: &mut Self)
        ensures
            *r == (IdtGateEntry {
                offset_1: handler as u16,
                offset_2: (handler >> 16u32) as u16,
                ..*old(self)
            }),
            *final(self) == *final(r),
    {
        self.offset_1 = handler as u16;
        self.offset_2 = (handler >> 16u32) as u16;
        self
    }

    /// The handler's address.
    pub fn handler(&self) -> (r: u32)
        ensures
            r == handler_of(*self),
    {
        ((self.offset_2 as u32) << 16u32) | (self.offset_1 as u32)
    }
}

/// Setting the handler then reading it gives back the address set.
pub proof fn lemma_handler_roundtrip(e: IdtGateEntry, handler: u32)
    ensures
        handler_of(IdtGateEntry { offset_1: handler as u16, offset_2: (handler >> 16u32) as u16, ..e })
            == handler,
{
    crate::bits::lemma_u32_halves(handler);
}

/// Setting a valid gate type then reading it gives back that gate type.
pub proof fn lemma_gate_type_roundtrip(type_attr: u8, g: GateType)
    requires
        g != GateType::InvalidGateType,
    ensures
        gate_type_of(bits_of_u8(with_bits_u8(type_attr, 0, 4, gate_type_code(g)), 0, 4)) == g,
{
    let code = gate_type_code(g);
    crate::bits::lemma_u8_fits(code);
    crate::bits::lemma_u8_bits_roundtrip(type_attr, 0, 4, code);
}

/// No setter of an entry changes what another one wrote. Setting the
/// present bit or the storage bit keeps the entry's gate type (bits 0 to 3) and
/// the privilege level (bits 5 and 6); setting the entry's gate type keeps the
/// privilege level, the present bit and the storage bit; for the privilege
/// level, see `lemma_privilege_level_roundtrip`; the selector and the
/// handler do not touch `type_attr`.
pub proof fn lemma_setters_keep_fields(e: IdtGateEntry, flag: bool, g: GateType, selector: u16, handler: u32)
    requires
        g != GateType::InvalidGateType,
    ensures
        bits_of_u8(with_bit_u8(e.type_attr, 7, flag), 0, 4) == bits_of_u8(e.type_attr, 0, 4),
        bits_of_u8(with_bit_u8(e.type_attr, 7, flag), 5, 7) == bits_of_u8(e.type_attr, 5, 7),
        bits_of_u8(with_bit_u8(e.type_attr, 4, flag), 0, 4) == bits_of_u8(e.type_attr, 0, 4),
        bits_of_u8(with_bit_u8(e.type_attr, 4, flag), 5, 7) == bits_of_u8(e.type_attr, 5, 7),
        bits_of_u8(with_bits_u8(e.type_attr, 0, 4, gate_type_code(g)), 5, 7) == bits_of_u8(
            e.type_attr,
            5,
            7,
        ),
        bit_of_u8(with_bits_u8(e.type_attr, 0, 4, gate_type_code(g)), 7) == bit_of_u8(e.type_attr, 7),
        bit_of_u8(with_bits_u8(e.type_attr, 0, 4, gate_type_code(g)), 4) == bit_of_u8(e.type_attr, 4),
        (IdtGateEntry { selector, ..e }).type_attr == e.type_attr,
        (IdtGateEntry { offset_1: handler as u16, offset_2: (handler >> 16u32) as u16, ..e }).type_attr
            == e.type_attr,
{
    let t = e.type_attr;
    let code = gate_type_code(g);
    crate::bits::lemma_u8_bit_bits_frame(t, 7, flag, 0, 4);
    crate::bits::lemma_u8_bit_bits_frame(t, 7, flag, 5, 7);
    crate::bits::lemma_u8_bit_bits_frame(t, 4, flag, 0, 4);
    crate::bits::lemma_u8_bit_bits_frame(t, 4, flag, 5, 7);
    crate::bits::lemma_u8_fits(code);
    crate::bits::lemma_u8_bits_frame(t, 0, 4, code, 5, 7);
    crate::bits::lemma_u8_bits_bit_frame(t, 0, 4, code, 7);
    crate::bits::lemma_u8_bits_bit_frame(t, 0, 4, code, 4);
}

/// Setting the privilege level then reading it gives back the level set,
/// and leaves the present flag, the storage flag and its gate type as they
/// were.
pub proof fn lemma_privilege_level_roundtrip(type_attr: u8, dpl: u8)
    requires
        dpl < 4,
    ensures
        bits_of_u8(with_bits_u8(type_attr, 5, 7, dpl), 5, 7) == dpl,
        bit_of_u8(with_bits_u8(type_attr, 5, 7, dpl), 7) == bit_of_u8(type_attr, 7),
        bit_of_u8(with_bits_u8(type_attr, 5, 7, dpl), 4) == bit_of_u8(type_attr, 4),
        bits_of_u8(with_bits_u8(type_attr, 5, 7, dpl), 0, 4) == bits_of_u8(type_attr, 0, 4),
{
    crate::bits::lemma_u8_fits(dpl);
    crate::bits::lemma_u8_bits_roundtrip(type_attr, 5, 7, dpl);
    crate::bits::lemma_u8_bits_bit_frame(type_attr, 5, 7, dpl, 7);
    crate::bits::lemma_u8_bits_bit_frame(type_attr, 5, 7, dpl, 4);
    crate::bits::lemma_u8_bits_frame(type_attr, 5, 7, dpl, 0, 4);
}


/// A call of one of the setters of an entry, with its argument.
pub enum GateSetter {
    Present(bool),
    StorageSegment(bool),
    GateType(GateType),
    PrivilegeLevel(u8),
    Selector(u16),
    Handler(u32),
}

/// What the setter call `s` makes of the entry `e`: what the `ensures` of
/// that setter says.
pub open spec fn apply_setter(e: IdtGateEntry, s: GateSetter) -> IdtGateEntry {
    match s {
        GateSetter::Present(p) => IdtGateEntry { type_attr: with_bit_u8(e.type_attr, 7, p), ..e },
        GateSetter::StorageSegment(b) => IdtGateEntry { type_attr: with_bit_u8(e.type_attr, 4, b), ..e },
        GateSetter::GateType(g) => IdtGateEntry {
            type_attr: with_bits_u8(e.type_attr, 0, 4, gate_type_code(g)),
            ..e
        },
        GateSetter::PrivilegeLevel(d) => IdtGateEntry { type_attr: with_bits_u8(e.type_attr, 5, 7, d), ..e },
        GateSetter::Selector(sel) => IdtGateEntry { selector: sel, ..e },
        GateSetter::Handler(h) => IdtGateEntry { offset_1: h as u16, offset_2: (h >> 16u32) as u16, ..e },
    }
}

/// Whether the setter takes the call `s`: a valid gate type, a privilege
/// level below 4.
pub open spec fn setter_accepts(s: GateSetter) -> bool {
    match s {
        GateSetter::GateType(g) => g != GateType::InvalidGateType,
        GateSetter::PrivilegeLevel(d) => d < 4,
        _ => true,
    }
}

/// The entry `e` after the setter calls `ops`, in order.
pub open spec fn apply_setters(e: IdtGateEntry, ops: Seq<GateSetter>) -> IdtGateEntry
    decreases ops.len(),
{
    if ops.len() == 0 {
        e
    } else {
        apply_setters(apply_setter(e, ops[0]), ops.drop_first())
    }
}

/// A run of setter calls in which no call sets the type of gate keeps
/// its bits; one in which none sets the privilege level keeps the
/// privilege level bits.
proof fn lemma_run_keeps_fields(e: IdtGateEntry, ops: Seq<GateSetter>)
    requires
        forall|i: int| 0 <= i < ops.len() ==> setter_accepts(#[trigger] ops[i]),
    ensures
        (forall|i: int| 0 <= i < ops.len() ==> !(#[trigger] ops[i] is GateType)) ==> bits_of_u8(
            apply_setters(e, ops).type_attr,
            0,
            4,
        ) == bits_of_u8(e.type_attr, 0, 4),
        (forall|i: int| 0 <= i < ops.len() ==> !(#[trigger] ops[i] is PrivilegeLevel)) ==> bits_of_u8(
            apply_setters(e, ops).type_attr,
            5,
            7,
        ) == bits_of_u8(e.type_attr, 5, 7),
    decreases ops.len(),
{
    if ops.len() > 0 {
        let s = ops[0];
        assert(setter_accepts(ops[0]));
        let e1 = apply_setter(e, s);
        match s {
            GateSetter::Present(p) => lemma_setters_keep_fields(e, p, GateType::TaskGate32, 0, 0),
            GateSetter::StorageSegment(b) => lemma_setters_keep_fields(e, b, GateType::TaskGate32, 0, 0),
            GateSetter::GateType(g) => lemma_setters_keep_fields(e, true, g, 0, 0),
            GateSetter::PrivilegeLevel(d) => lemma_privilege_level_roundtrip(e.type_attr, d),
            _ => {},
        }
        assert forall|i: int| 0 <= i < ops.drop_first().len() implies setter_accepts(
            #[trigger] ops.drop_first()[i],
        ) by {
            assert(ops.drop_first()[i] == ops[i + 1]);
        }
        lemma_run_keeps_fields(e1, ops.drop_first());
        if forall|i: int| 0 <= i < ops.len() ==> !(#[trigger] ops[i] is GateType) {
            assert(!(ops[0] is GateType));
            assert forall|i: int| 0 <= i < ops.drop_first().len() implies !(
            #[trigger] ops.drop_first()[i] is GateType) by {
                assert(ops.drop_first()[i] == ops[i + 1]);
            }
        }
        if forall|i: int| 0 <= i < ops.len() ==> !(#[trigger] ops[i] is PrivilegeLevel) {
            assert(!(ops[0] is PrivilegeLevel));
            assert forall|i: int| 0 <= i < ops.drop_first().len() implies !(
            #[trigger] ops.drop_first()[i] is PrivilegeLevel) by {
                assert(ops.drop_first()[i] == ops[i + 1]);
            }
        }
    }
}

/// After `set_gate_type(g)`, any run of calls of the other setters keeps
/// `g` as the type of gate: `gate_type` gives it back.
pub proof fn lemma_gate_type_kept(e: IdtGateEntry, g: GateType, ops: Seq<GateSetter>)
    requires
        g != GateType::InvalidGateType,
        forall|i: int| 0 <= i < ops.len() ==> setter_accepts(#[trigger] ops[i]),
        forall|i: int| 0 <= i < ops.len() ==> !(#[trigger] ops[i] is GateType),
    ensures
        gate_type_of(
            bits_of_u8(apply_setters(apply_setter(e, GateSetter::GateType(g)), ops).type_attr, 0, 4),
        ) == g,
{
    lemma_gate_type_roundtrip(e.type_attr, g);
    lemma_run_keeps_fields(apply_setter(e, GateSetter::GateType(g)), ops);
}

/// After `set_privilege_level(dpl)`, any run of calls of the other setters
/// leaves the privilege level `dpl`: `get_privilege_level` gives it back.
pub proof fn lemma_privilege_level_kept(e: IdtGateEntry, dpl: u8, ops: Seq<GateSetter>)
    requires
        dpl < 4,
        forall|i: int| 0 <= i < ops.len() ==> setter_accepts(#[trigger] ops[i]),
        forall|i: int| 0 <= i < ops.len() ==> !(#[trigger] ops[i] is PrivilegeLevel),
    ensures
        bits_of_u8(apply_setters(apply_setter(e, GateSetter::PrivilegeLevel(dpl)), ops).type_attr, 5, 7)
            == dpl,
{
    lemma_privilege_level_roundtrip(e.type_attr, dpl);
    lemma_run_keeps_fields(apply_setter(e, GateSetter::PrivilegeLevel(dpl)), ops);
}

/// The entry the kernel installs for a handler at `handler` with gate type
/// `g`: present, privilege level 0, no storage segment, selector 0x8 (the
/// kernel code segment).
pub open spec fn kernel_gate(g: GateType, handler: u32) -> IdtGateEntry {
    IdtGateEntry {
        offset_1: handler as u16,
        selector: 0x8,
        _zero: 0,
        type_attr: 0x80 | gate_type_code(g),
        offset_2: (handler >> 16u32) as u16,
    }
}

/// The kernel's entry for a handler at `handler` with gate type `g`, which
/// must be valid.
pub fn kernel_gate_entry(g: GateType, handler: u32) -> (r: IdtGateEntry)
    requires
        g != GateType::InvalidGateType,
    ensures
        r == kernel_gate(g, handler),
{
    let mut gate_entry = IdtGateEntry::new();
    gate_entry.set_storage_segment(false);
    gate_entry.set_privilege_level(0);
    gate_entry.set_selector(0x8);
    gate_entry.set_gate_type(g);
    gate_entry.set_handler(handler);
    proof {
        crate::bits::lemma_u8_constants(gate_type_code(g));
    }
    gate_entry
}

/// The type of gate of each of the 32 CPU exception vectors: trap gates for
/// the debug (1), breakpoint (3) and overflow (4) exceptions, interrupt
/// gates for the others.
pub open spec fn cpu_exception_gate_type(vector: int) -> GateType {
    if vector == 1 || vector == 3 || vector == 4 {
        GateType::TrapGate32
    } else {
        GateType::InterruptGate32
    }
}

/// The fields of a kernel entry as its type byte holds them, for a gate
/// code below 16.
proof fn lemma_kernel_type_byte(code: u8)
    by (bit_vector)
    requires
        code < 16,
    ensures
        (((0x80u8 | code) << 4u8) >> 4u8) >> 0u8 == code,
        ((0x80u8 | code) << 1u8) >> 1u8 >> 5u8 == 0,
        (0x80u8 | code) & (1u8 << 7u8) != 0,
        (0x80u8 | code) & (1u8 << 4u8) == 0,
{
}

/// An entry the kernel installs reads back as what it was made of: its
/// handler at `handler`, its gate type `g`, present, privilege level 0, no
/// storage segment, the kernel code selector 0x8.
pub proof fn lemma_kernel_gate_reads_back(g: GateType, handler: u32)
    requires
        g != GateType::InvalidGateType,
    ensures
        handler_of(kernel_gate(g, handler)) == handler,
        gate_type_of(bits_of_u8(kernel_gate(g, handler).type_attr, 0, 4)) == g,
        bit_of_u8(kernel_gate(g, handler).type_attr, 7),
        bits_of_u8(kernel_gate(g, handler).type_attr, 5, 7) == 0,
        !bit_of_u8(kernel_gate(g, handler).type_attr, 4),
        kernel_gate(g, handler).selector == 0x8,
{
    crate::bits::lemma_u32_halves(handler);
    let code = gate_type_code(g);
    lemma_kernel_type_byte(code);
}

/// How the processor reports an exception (Intel SDM, volume 3, table
/// 6-1): a fault before the instruction completes, a trap after it, an
/// abort, an external interrupt, or a vector that is reserved.
pub enum ExceptionClass {
    Fault,
    Trap,
    FaultOrTrap,
    Abort,
    Interrupt,
    Reserved,
}

/// The class of each of the 32 CPU exception vectors: divide error (0),
/// debug (1, a fault or a trap), NMI (2), breakpoint (3), overflow (4),
/// BOUND range (5), invalid opcode (6), no math coprocessor (7), double
/// fault (8), coprocessor segment overrun (9), invalid TSS (10), segment
/// not present (11), stack segment fault (12), general protection (13),
/// page fault (14), x87 FPU error (16), alignment check (17), machine check
/// (18), SIMD floating point (19), virtualization (20), security (30); the
/// others are reserved.
pub open spec fn exception_class(vector: int) -> ExceptionClass {
    if vector == 1 {
        ExceptionClass::FaultOrTrap
    } else if vector == 3 || vector == 4 {
        ExceptionClass::Trap
    } else if vector == 2 {
        ExceptionClass::Interrupt
    } else if vector == 8 || vector == 18 {
        ExceptionClass::Abort
    } else if (0 <= vector <= 14) || (16 <= vector <= 20) || vector == 30 {
        ExceptionClass::Fault
    } else {
        ExceptionClass::Reserved
    }
}

/// The CPU exceptions that the processor may report as traps, after the
/// instruction (debug, breakpoint, overflow), get trap gates, which leave
/// interrupts enabled; all the others get interrupt gates.
pub proof fn lemma_exception_gates(vector: int)
    requires
        0 <= vector < 32,
    ensures
        (cpu_exception_gate_type(vector) == GateType::TrapGate32) == (exception_class(vector) is Trap
            || exception_class(vector) is FaultOrTrap),
        cpu_exception_gate_type(vector) == GateType::TrapGate32 || cpu_exception_gate_type(vector)
            == GateType::InterruptGate32,
{
}

/// The Interrupt Descriptor Table Register: the length in bytes of the
/// table, minus one, and the table's address.
#[derive(Debug, Copy, Clone, PartialEq, Eq, Structural)]
pub struct Idtr {
    pub length: u16,
    pub idt_addr: u32,
}

/// The size in bytes of the table, and its maximal size on x86: 256
/// entries of 8 bytes.
pub const DEFAULT_IDT_SIZE: u16 = 2048;

/// The address of the table.
pub const DEFAULT_IDT_ADDR: u32 = 0x1000;

impl Default for Idtr {
    /// The register for the default table: 256 entries at 0x1000.
    fn default() -> (r: Self)
        ensures
            r.length == 2047,
            r.idt_addr == 0x1000,
    {
        Idtr { length: DEFAULT_IDT_SIZE - 1, idt_addr: DEFAULT_IDT_ADDR }
    }
}

impl Idtr {
    /// The number of entries of the table the register points to:
    /// `(length + 1) / 8`.
    pub fn entries_count(&self) -> (r: usize)
        ensures
            r == (self.length + 1) / 8,
    {
        ((self.length as u32 + 1) / 8) as usize
    }
}

/// The content of the Interrupt Descriptor Table.
pub struct InterruptTable {
    entries: Vec<IdtGateEntry>,
}

impl InterruptTable {
    /// The entries of the table.
    pub closed spec fn entries_view(self) -> Seq<IdtGateEntry> {
        self.entries@
    }

    /// The table holding `entries`.
    pub fn from_entries(entries: Vec<IdtGateEntry>) -> (r: Self)
        ensures
            r.entries_view() == entries@,
    {
        InterruptTable { entries }
    }

    /// The number of entries.
    pub fn len(&self) -> (r: usize)
        ensures
            r == self.entries_view().len(),
    {
        self.entries.len()
    }

    /// The entry at `index`, which must be in the table.
    pub fn get(&self, index: usize) -> (r: IdtGateEntry)
        requires
            index < self.entries_view().len(),
        ensures
            r == self.entries_view()[index as int],
    {
        self.entries[index]
    }

    /// Replaces the entry at `index`, which must be in the table.
    pub fn set(&mut self, index: usize, entry: IdtGateEntry)
        requires
            index < old(self).entries_view().len(),
        ensures
            final(self).entries_view() == old(self).entries_view().update(index as int, entry),
    {
        self.entries.set(index, entry);
    }

    /// Sets the 32 CPU exception vectors to their handlers, whose
    /// addresses are `handlers`, with their gate types. The other entries
    /// are left as they were.
    pub fn init_cpu_exceptions(&mut self, handlers: &Vec<u32>)
        requires
            handlers@.len() == 32,
            old(self).entries_view().len() >= 32,
        ensures
            final(self).entries_view().len() == old(self).entries_view().len(),
            forall|i: int|
                0 <= i < 32 ==> #[trigger] final(self).entries_view()[i] == kernel_gate(
                    cpu_exception_gate_type(i),
                    handlers@[i],
                ),
            forall|i: int|
                32 <= i < final(self).entries_view().len() ==> #[trigger] final(self).entries_view()[i]
                    == old(self).entries_view()[i],
    {
        let mut index: usize = 0;
        while index < 32
            invariant
                index <= 32,
                handlers@.len() == 32,
                old(self).entries@.len() >= 32,
                self.entries@.len() == old(self).entries@.len(),
                forall|i: int|
                    0 <= i < index ==> #[trigger] self.entries@[i] == kernel_gate(
                        cpu_exception_gate_type(i),
                        handlers@[i],
                    ),
                forall|i: int|
                    index <= i < self.entries@.len() ==> #[trigger] self.entries@[i] == old(
                        self,
                    ).entries@[i],
            decreases 32 - index,
        {
            let gate_type = if index == 1 || index == 3 || index == 4 {
                GateType::TrapGate32
            } else {
                GateType::InterruptGate32
            };
            let entry = kernel_gate_entry(gate_type, handlers[index]);
            self.entries.set(index, entry);
            index = index + 1;
        }
    }

    /// Sets every entry to the default handler, whose address is
    /// `default_isr`, as an interrupt gate.
    pub fn init_default_exceptions(&mut self, default_isr: u32)
        ensures
            final(self).entries_view().len() == old(self).entries_view().len(),
            forall|i: int|
                0 <= i < final(self).entries_view().len() ==> #[trigger] final(self).entries_view()[i]
                    == kernel_gate(GateType::InterruptGate32, default_isr),
    {
        let entry = kernel_gate_entry(GateType::InterruptGate32, default_isr);
        let mut index: usize = 0;
        while index < self.entries.len()
            invariant
                index <= self.entries@.len(),
                self.entries@.len() == old(self).entries@.len(),
                entry == kernel_gate(GateType::InterruptGate32, default_isr),
                forall|i: int| 0 <= i < index ==> #[trigger] self.entries@[i] == entry,
            decreases self.entries@.len() - index,
        {
            self.entries.set(index, entry);
            index = index + 1;
        }
    }
}

} // verus!
