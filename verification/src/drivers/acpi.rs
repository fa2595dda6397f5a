//! A minimal ACPI driver: finding the root descriptor and the fixed ACPI
//! description table in memory, enabling and disabling ACPI, rebooting and
//! shutting down.
//!
//! The memory is read, and the ports written, by the caller; the library
//! searches and decodes what was read and says what to write.
//! See https://wiki.osdev.org/RSDP, https://wiki.osdev.org/FADT and
//! https://wiki.osdev.org/Shutdown.
use crate::io::{PortWrite, PortWrite16};
use vstd::prelude::*;

verus! {

/// The ACPI errors.
#[derive(Copy, Clone, Debug, PartialEq, Eq, Structural)]
pub enum AcpiError {
    AcpiAbsent,
    CannotInitialize,
    Disabled,
    Enabled,
    Timeout,
    InternalError,
    BadAcpiVersion,
}

/// The result of ACPI operations.
pub type AcpiResult<T> = Result<T, AcpiError>;

/// Where the BIOS area searched for the root descriptor starts.
pub const RSDP_BIOS_ADDR: usize = 0xe0000;
/// The size of the BIOS area searched for the root descriptor.
pub const RSDP_SEARCH_RANGE: usize = 0x20000;
/// The size of the ACPI 1.0 root descriptor.
pub const RSDP_SIZE: usize = 20;
/// The size of a system description table header.
pub const SDT_HEADER_SIZE: usize = 36;
/// The size of the fields of the FADT the driver reads.
pub const FADT_SIZE: usize = 129;
/// The sleep enable bit of the PM1 control registers.
pub const SLP_EN: u16 = 0x2000;
/// Where the sleep type goes in the PM1 control registers.
pub const SLEEP_STATE_MAGIC_SHL: u16 = 10;
/// The times ACPI is asked to switch before giving up (3 seconds at 50 ms).
pub const SWITCH_ATTEMPTS: u32 = 60;

/// The little-endian 32-bit word at `off` in `b`.
pub open spec fn le_u32(b: Seq<u8>, off: int) -> u32 {
    (b[off] + b[off + 1] * 0x100 + b[off + 2] * 0x1_0000 + b[off + 3] * 0x100_0000) as u32
}

/// The little-endian 32-bit word at `off` in `b`.
fn read_u32(b: &Vec<u8>, off: usize) -> (r: u32)
    requires
        off + 4 <= b.len(),
    ensures
        r == le_u32(b@, off as int),
{
    let b0 = b[off] as u64;
    let b1 = b[off + 1] as u64;
    let b2 = b[off + 2] as u64;
    let b3 = b[off + 3] as u64;
    (b0 + b1 * 0x100 + b2 * 0x1_0000 + b3 * 0x100_0000) as u32
}

/// The root system description pointer: ACPI 1.0 (revision 0) gives the
/// address of the RSDT, ACPI 2.0 and later that of the XSDT too.
#[derive(Copy, Clone, Debug, PartialEq, Eq, Structural)]
pub enum RsdpDescriptor {
    LegacyRSDPDescriptor { revision: u8, rsdt_address: u32 },
    AdvancedRSDPDescriptor { revision: u8, rsdt_address: u32, xsdt_address_0_31: u32 },
}

/// The descriptor the bytes `b` of a root descriptor hold: the revision at
/// 15, the RSDT address at 16, and from revision 1 on the low XSDT address
/// at 24.
pub open spec fn rsdp_spec(b: Seq<u8>) -> RsdpDescriptor {
    if b[15] == 0 {
        RsdpDescriptor::LegacyRSDPDescriptor { revision: b[15], rsdt_address: le_u32(b, 16) }
    } else {
        RsdpDescriptor::AdvancedRSDPDescriptor {
            revision: b[15],
            rsdt_address: le_u32(b, 16),
            xsdt_address_0_31: le_u32(b, 24),
        }
    }
}

impl RsdpDescriptor {
    /// Decodes a root descriptor from its bytes (36 of them, as ACPI 2.0
    /// lays it out).
    pub fn from_bytes(b: &Vec<u8>) -> (r: Self)
        requires
            b.len() >= 36,
        ensures
            r == rsdp_spec(b@),
    {
        if b[15] == 0 {
            RsdpDescriptor::LegacyRSDPDescriptor { revision: b[15], rsdt_address: read_u32(b, 16) }
        } else {
            RsdpDescriptor::AdvancedRSDPDescriptor {
                revision: b[15],
                rsdt_address: read_u32(b, 16),
                xsdt_address_0_31: read_u32(b, 24),
            }
        }
    }

    /// The address of the table the driver searches: the RSDT for ACPI
    /// 1.0, the low half of the XSDT address otherwise.
    pub fn table_address(&self) -> (r: u32)
        ensures
            r == match *self {
                RsdpDescriptor::LegacyRSDPDescriptor { rsdt_address, .. } => rsdt_address,
                RsdpDescriptor::AdvancedRSDPDescriptor { xsdt_address_0_31, .. } => xsdt_address_0_31,
            },
    {
        match *self {
            RsdpDescriptor::LegacyRSDPDescriptor { rsdt_address, .. } => rsdt_address,
            RsdpDescriptor::AdvancedRSDPDescriptor { xsdt_address_0_31, .. } => xsdt_address_0_31,
        }
    }

    /// The revision of ACPI.
    pub fn revision(&self) -> (r: u8)
        ensures
            r == match *self {
                RsdpDescriptor::LegacyRSDPDescriptor { revision, .. } => revision,
                RsdpDescriptor::AdvancedRSDPDescriptor { revision, .. } => revision,
            },
    {
        match *self {
            RsdpDescriptor::LegacyRSDPDescriptor { revision, .. } => revision,
            RsdpDescriptor::AdvancedRSDPDescriptor { revision, .. } => revision,
        }
    }
}

/// The fields of the fixed ACPI description table the driver uses.
#[derive(Copy, Clone, Debug, PartialEq, Eq, Structural)]
pub struct Fadt {
    pub dsdt: u32,
    pub smi_command_port: u32,
    pub acpi_enable: u8,
    pub acpi_disable: u8,
    pub pm1a_control_block: u32,
    pub pm1b_control_block: u32,
    pub reset_reg_address_0_31: u32,
    pub reset_value: u8,
}

/// The fields the bytes `b` of a FADT from `off` on hold.
pub open spec fn fadt_spec(b: Seq<u8>, off: int) -> Fadt {
    Fadt {
        dsdt: le_u32(b, off + 40),
        smi_command_port: le_u32(b, off + 48),
        acpi_enable: b[off + 52],
        acpi_disable: b[off + 53],
        pm1a_control_block: le_u32(b, off + 64),
        pm1b_control_block: le_u32(b, off + 68),
        reset_reg_address_0_31: le_u32(b, off + 120),
        reset_value: b[off + 128],
    }
}

impl Fadt {
    /// Decodes the FADT that starts at `off` in `b`.
    pub fn from_bytes(b: &Vec<u8>, off: usize) -> (r: Self)
        requires
            off + FADT_SIZE <= b.len(),
        ensures
            r == fadt_spec(b@, off as int),
    {
        Fadt {
            dsdt: read_u32(b, off + 40),
            smi_command_port: read_u32(b, off + 48),
            acpi_enable: b[off + 52],
            acpi_disable: b[off + 53],
            pm1a_control_block: read_u32(b, off + 64),
            pm1b_control_block: read_u32(b, off + 68),
            reset_reg_address_0_31: read_u32(b, off + 120),
            reset_value: b[off + 128],
        }
    }
}

/// The sum of the bytes of `s`, modulo 256.
pub open spec fn byte_sum(s: Seq<u8>) -> nat
    decreases s.len(),
{
    if s.len() == 0 {
        0
    } else {
        ((byte_sum(s.drop_last()) + s.last()) % 256) as nat
    }
}

/// Whether the 20 bytes of a root descriptor at `at` in `mem` sum to 0.
pub open spec fn checksum_ok(mem: Seq<u8>, at: int) -> bool {
    byte_sum(mem.subrange(at, at + RSDP_SIZE as int)) == 0
}

/// Whether `expr` is found at `p` in the first `range` bytes of `mem`,
/// and the checksum holds there when asked.
pub open spec fn found_at(mem: Seq<u8>, range: int, expr: Seq<u8>, check: bool, p: int) -> bool {
    &&& 0 <= p
    &&& p + expr.len() < range
    &&& mem.subrange(p, p + expr.len()) == expr
    &&& check ==> checksum_ok(mem, p)
}

/// Whether the search of `expr` in the `range` bytes of memory at `base`
/// fails from the start: an empty pattern, or an area reaching past 4G.
pub open spec fn memschr_refused(base: usize, range: usize, expr: Seq<u8>) -> bool {
    expr.len() == 0 || base > u32::MAX - range
}

/// Whether the 20 bytes of a root descriptor at `at` in `mem` sum to 0.
pub fn rsdp_checksum(mem: &Vec<u8>, at: usize) -> (r: bool)
    requires
        at + RSDP_SIZE <= mem.len(),
    ensures
        r == checksum_ok(mem@, at as int),
{
    let mut checksum: u8 = 0;
    let mut i: usize = 0;
    while i < RSDP_SIZE
        invariant
            at + RSDP_SIZE <= mem.len(),
            i <= RSDP_SIZE,
            checksum == byte_sum(mem@.subrange(at as int, at + i)),
        decreases RSDP_SIZE - i,
    {
        proof {
            assert(mem@.subrange(at as int, at + i + 1).drop_last() =~= mem@.subrange(
                at as int,
                at + i,
            ));
        }
        checksum = ((checksum as u16 + mem[at + i] as u16) % 256) as u8;
        i = i + 1;
    }
    checksum == 0
}

/// Searches `expr` in the first `range` bytes of the memory `mem` found at
/// the address `base`: the offset of the first place where it is found
/// with room left after it (and, when `check` is set, where a root
/// descriptor with a valid checksum starts). `InternalError` when the
/// pattern is empty, when the area reaches past 4G, or when it is not
/// found.
pub fn memschr(mem: &Vec<u8>, base: usize, range: usize, expr: &Vec<u8>, check: bool) -> (r: AcpiResult<usize>)
    requires
        range <= u32::MAX,
        range <= mem@.len(),
        check ==> range + RSDP_SIZE <= mem@.len(),
    ensures
        memschr_refused(base, range, expr@) ==> r == Err::<usize, AcpiError>(AcpiError::InternalError),
        !memschr_refused(base, range, expr@) ==> match r {
            Ok(p) => found_at(mem@, range as int, expr@, check, p as int) && forall|q: int|
                0 <= q < p ==> !found_at(mem@, range as int, expr@, check, q),
            Err(e) => e == AcpiError::InternalError && forall|q: int|
                !found_at(mem@, range as int, expr@, check, q),
        },
{
    let len_expr = expr.len();
    if len_expr == 0 {
        return Err(AcpiError::InternalError);
    }
    if base > u32::MAX as usize - range {
        return Err(AcpiError::InternalError);
    }
    let mut p: usize = 0;
    while len_expr < range && p < range - len_expr
        invariant
            !memschr_refused(base, range, expr@),
            range <= u32::MAX,
            range <= mem@.len(),
            check ==> range + RSDP_SIZE <= mem@.len(),
            len_expr == expr@.len(),
            len_expr > 0,
            forall|q: int| 0 <= q < p ==> !found_at(mem@, range as int, expr@, check, q),
        decreases range - p,
    {
        let mut len: usize = 0;
        while len < len_expr && mem[p + len] == expr[len]
            invariant
                p + len_expr < range,
                range <= mem@.len(),
                len_expr == expr@.len(),
                len <= len_expr,
                forall|j: int| 0 <= j < len ==> mem@[p + j] == expr@[j],
            decreases len_expr - len,
        {
            len = len + 1;
        }
        if len == len_expr {
            proof {
                assert(mem@.subrange(p as int, p + len_expr) =~= expr@);
            }
            if !check || rsdp_checksum(mem, p) {
                return Ok(p);
            }
        } else {
            proof {
                assert(mem@.subrange(p as int, p + len_expr)[len as int] != expr@[len as int]);
            }
        }
        p = p + 1;
    }
    proof {
        assert forall|q: int| !found_at(mem@, range as int, expr@, check, q) by {
            if q >= p {
                assert(q + expr@.len() >= range);
            }
        }
    }
    Err(AcpiError::InternalError)
}

/// The signature that starts a root descriptor.
pub open spec fn rsdp_signature() -> Seq<u8> {
    seq![0x52u8, 0x53, 0x44, 0x20, 0x50, 0x54, 0x52, 0x20]
}

/// The offset in the BIOS area `mem` (read from `RSDP_BIOS_ADDR`) of the
/// root descriptor: the first "RSD PTR " whose checksum is valid;
/// `AcpiAbsent` when there is none.
pub fn get_rsdp_descriptor_ptr(mem: &Vec<u8>) -> (r: AcpiResult<usize>)
    requires
        RSDP_SEARCH_RANGE + RSDP_SIZE <= mem@.len(),
    ensures
        match r {
            Ok(p) => found_at(mem@, RSDP_SEARCH_RANGE as int, rsdp_signature(), true, p as int)
                && forall|q: int|
                0 <= q < p ==> !found_at(mem@, RSDP_SEARCH_RANGE as int, rsdp_signature(), true, q),
            Err(e) => e == AcpiError::AcpiAbsent && forall|q: int|
                !found_at(mem@, RSDP_SEARCH_RANGE as int, rsdp_signature(), true, q),
        },
{
    let expr: Vec<u8> = vec![0x52u8, 0x53, 0x44, 0x20, 0x50, 0x54, 0x52, 0x20];
    proof {
        assert(expr@ =~= rsdp_signature());
    }
    match memschr(mem, RSDP_BIOS_ADDR, RSDP_SEARCH_RANGE, &expr, true) {
        Ok(p) => Ok(p),
        Err(_) => Err(AcpiError::AcpiAbsent),
    }
}

/// The signature of the FADT.
pub open spec fn facp_signature() -> Seq<u8> {
    seq![0x46u8, 0x41, 0x43, 0x50]
}

/// Whether the header `i` of `headers` (each of 36 bytes) is that of the
/// FADT.
pub open spec fn is_facp(headers: Seq<u8>, i: int) -> bool {
    headers.subrange(SDT_HEADER_SIZE * i, SDT_HEADER_SIZE * i + 4) == facp_signature()
}

/// The number of entries of a root table of `length` bytes.
pub open spec fn rsdt_entries(length: u32) -> int {
    (length - SDT_HEADER_SIZE) / 4
}

/// The index of the FADT among the headers of the entries of the root
/// table of `rsdt_length` bytes, read one after the other in `headers`:
/// the first whose signature is "FACP"; `CannotInitialize` when none is.
pub fn find_fadt(rsdt_length: u32, headers: &Vec<u8>) -> (r: AcpiResult<usize>)
    requires
        rsdt_length >= SDT_HEADER_SIZE,
        SDT_HEADER_SIZE * rsdt_entries(rsdt_length) <= headers.len(),
    ensures
        match r {
            Ok(i) => i < rsdt_entries(rsdt_length) && is_facp(headers@, i as int) && forall|j: int|
                0 <= j < i ==> !is_facp(headers@, j),
            Err(e) => e == AcpiError::CannotInitialize && forall|j: int|
                0 <= j < rsdt_entries(rsdt_length) ==> !is_facp(headers@, j),
        },
{
    let entries = ((rsdt_length - SDT_HEADER_SIZE as u32) / 4) as usize;
    let mut i: usize = 0;
    while i < entries
        invariant
            entries == rsdt_entries(rsdt_length),
            SDT_HEADER_SIZE * entries <= headers.len(),
            i <= entries,
            forall|j: int| 0 <= j < i ==> !is_facp(headers@, j),
        decreases entries - i,
    {
        let h = SDT_HEADER_SIZE * i;
        if headers[h] == 0x46 && headers[h + 1] == 0x41 && headers[h + 2] == 0x43 && headers[h + 3]
            == 0x50 {
            proof {
                assert(headers@.subrange(h as int, h + 4) =~= facp_signature());
            }
            return Ok(i);
        }
        proof {
            assert(!is_facp(headers@, i as int)) by {
                if is_facp(headers@, i as int) {
                    assert(headers@.subrange(h as int, h + 4)[0] == 0x46);
                    assert(headers@.subrange(h as int, h + 4)[1] == 0x41);
                    assert(headers@.subrange(h as int, h + 4)[2] == 0x43);
                    assert(headers@.subrange(h as int, h + 4)[3] == 0x50);
                }
            }
        }
        i = i + 1;
    }
    Err(AcpiError::CannotInitialize)
}

/// What a step of the loop that enables or disables ACPI decides.
#[derive(Copy, Clone, Debug, PartialEq, Eq)]
pub enum SwitchStep {
    /// Write to the SMI command port, wait 50 ms, and try again with one
    /// attempt less.
    Send(PortWrite),
    /// The switch is over, with this outcome.
    Finished(AcpiResult<()>),
}

/// The ACPI driver: the root descriptor and the FADT.
#[derive(Copy, Clone, Debug, PartialEq, Eq, Structural)]
pub struct Acpi {
    pub rsdp_descriptor: RsdpDescriptor,
    pub fadt: Fadt,
}

/// What a step of the loop that switches ACPI on (`enable`) or off
/// decides, with `count` attempts left and the PM1a control register
/// reading `pm1a`: with attempts left and ACPI not yet switched, send the
/// command; else done, or a `Timeout` with no attempt left.
pub open spec fn switch_step(fadt: Fadt, enable: bool, count: u32, pm1a: u16) -> SwitchStep {
    if count != 0 && (if enable {
        pm1a & 1 == 0
    } else {
        pm1a & 1 == 1
    }) {
        SwitchStep::Send(
            PortWrite {
                port: fadt.smi_command_port as u16,
                value: if enable {
                    fadt.acpi_enable
                } else {
                    fadt.acpi_disable
                },
            },
        )
    } else if count != 0 {
        SwitchStep::Finished(Ok(()))
    } else {
        SwitchStep::Finished(Err(AcpiError::Timeout))
    }
}

/// The sleep type `slp_typ` in the PM1 control register, with the sleep
/// enable bit.
pub open spec fn sleep_value(slp_typ: u8) -> u16 {
    ((slp_typ as u16) << 10u16) | SLP_EN
}

/// What shutting down does, once ACPI is enabled: the offset of "_S5_" in
/// the DSDT body `dsdt` (of `dsdt.len() - 36` bytes searched) found at
/// `base`, then, when the \_S5 package follows, the sleep type A to the
/// PM1a control register and, if there is one, the sleep type B to the
/// PM1b control register; no write when the package is not there, and
/// `InternalError` when "_S5_" is not found.
pub open spec fn shutdown_spec(fadt: Fadt, dsdt: Seq<u8>, base: usize, r: AcpiResult<Vec<PortWrite16>>) -> bool {
    let range = (dsdt.len() - SDT_HEADER_SIZE) as usize;
    if memschr_refused(base, range, s5_signature()) {
        r == Err::<Vec<PortWrite16>, AcpiError>(AcpiError::InternalError)
    } else if exists|p: int| found_at(dsdt, range as int, s5_signature(), false, p) {
        let p = choose|p: int|
            found_at(dsdt, range as int, s5_signature(), false, p) && forall|q: int|
                0 <= q < p ==> !found_at(dsdt, range as int, s5_signature(), false, q);
        r matches Ok(w) && if dsdt[p + 4] == 0x12 {
            w@ == seq![
                PortWrite16 {
                    port: fadt.pm1a_control_block as u16,
                    value: sleep_value(dsdt[p + 8]),
                },
            ] + if fadt.pm1b_control_block != 0 {
                seq![
                    PortWrite16 {
                        port: fadt.pm1b_control_block as u16,
                        value: sleep_value(dsdt[p + 10]),
                    },
                ]
            } else {
                Seq::empty()
            }
        } else {
            w@.len() == 0
        }
    } else {
        r == Err::<Vec<PortWrite16>, AcpiError>(AcpiError::InternalError)
    }
}

/// The name of the \_S5 object.
pub open spec fn s5_signature() -> Seq<u8> {
    seq![0x5Fu8, 0x53, 0x35, 0x5F]
}

impl Acpi {
    /// The driver of the root descriptor whose bytes are `rsdp`, with the
    /// FADT found among the headers of the entries of the root table of
    /// `rsdt_length` bytes (see `find_fadt`), decoded from `headers`.
    pub fn init(rsdp: &Vec<u8>, rsdt_length: u32, headers: &Vec<u8>) -> (r: AcpiResult<Acpi>)
        requires
            rsdp.len() >= 36,
            rsdt_length >= SDT_HEADER_SIZE,
            SDT_HEADER_SIZE * rsdt_entries(rsdt_length) + FADT_SIZE <= headers.len(),
        ensures
            match r {
                Ok(a) => a.rsdp_descriptor == rsdp_spec(rsdp@) && exists|i: int|
                    0 <= i < rsdt_entries(rsdt_length) && is_facp(headers@, i) && (forall|j: int|
                        0 <= j < i ==> !is_facp(headers@, j)) && a.fadt == fadt_spec(
                        headers@,
                        SDT_HEADER_SIZE * i,
                    ),
                Err(e) => e == AcpiError::CannotInitialize && forall|j: int|
                    0 <= j < rsdt_entries(rsdt_length) ==> !is_facp(headers@, j),
            },
    {
        let rsdp_descriptor = RsdpDescriptor::from_bytes(rsdp);
        match find_fadt(rsdt_length, headers) {
            Ok(i) => {
                let fadt = Fadt::from_bytes(headers, SDT_HEADER_SIZE * i);
                Ok(Acpi { rsdp_descriptor, fadt })
            },
            Err(e) => Err(e),
        }
    }

    /// What a step of the loop that enables ACPI decides, with `count`
    /// attempts left (`SWITCH_ATTEMPTS` at first) and the PM1a control
    /// register reading `pm1a`.
    pub fn enable(&self, count: u32, pm1a: u16) -> (r: SwitchStep)
        ensures
            r == switch_step(self.fadt, true, count, pm1a),
    {
        if count != 0 && Acpi::is_disable(pm1a) {
            SwitchStep::Send(
                PortWrite { port: self.fadt.smi_command_port as u16, value: self.fadt.acpi_enable },
            )
        } else if count != 0 {
            SwitchStep::Finished(Ok(()))
        } else {
            SwitchStep::Finished(Err(AcpiError::Timeout))
        }
    }

    /// What a step of the loop that disables ACPI decides, with `count`
    /// attempts left (`SWITCH_ATTEMPTS` at first) and the PM1a control
    /// register reading `pm1a`.
    pub fn disable(&self, count: u32, pm1a: u16) -> (r: SwitchStep)
        ensures
            r == switch_step(self.fadt, false, count, pm1a),
    {
        if count != 0 && Acpi::is_enable(pm1a) {
            SwitchStep::Send(
                PortWrite { port: self.fadt.smi_command_port as u16, value: self.fadt.acpi_disable },
            )
        } else if count != 0 {
            SwitchStep::Finished(Ok(()))
        } else {
            SwitchStep::Finished(Err(AcpiError::Timeout))
        }
    }

    /// Whether ACPI is enabled, from the PM1a control register `pm1a`:
    /// its bit 0 is set.
    pub fn is_enable(pm1a: u16) -> (r: bool)
        ensures
            r == (pm1a & 1 == 1),
    {
        pm1a & 0x1 == 1
    }

    /// Whether ACPI is disabled, from the PM1a control register `pm1a`:
    /// its bit 0 is clear.
    pub fn is_disable(pm1a: u16) -> (r: bool)
        ensures
            r == (pm1a & 1 == 0),
    {
        pm1a & 0x1 == 0
    }

    /// The write that reboots the computer, with the PM1a control register
    /// reading `pm1a`: the reset value to the reset register. `Disabled`
    /// when ACPI is disabled, `BadAcpiVersion` for ACPI 1.0. (When the
    /// computer is still there a second later, the reboot failed.)
    pub fn reboot_computer(&self, pm1a: u16) -> (r: AcpiResult<PortWrite>)
        ensures
            r == if pm1a & 1 == 0 {
                Err(AcpiError::Disabled)
            } else if self.rsdp_descriptor.revision_spec() == 0 {
                Err(AcpiError::BadAcpiVersion)
            } else {
                Ok(
                    PortWrite {
                        port: self.fadt.reset_reg_address_0_31 as u16,
                        value: self.fadt.reset_value,
                    },
                )
            },
    {
        if Acpi::is_disable(pm1a) {
            return Err(AcpiError::Disabled);
        }
        if self.rsdp_descriptor.revision() == 0 {
            return Err(AcpiError::BadAcpiVersion);
        }
        Ok(
            PortWrite {
                port: self.fadt.reset_reg_address_0_31 as u16,
                value: self.fadt.reset_value,
            },
        )
    }

    /// The writes that shut the computer down (see `shutdown_spec`), with
    /// the PM1a control register reading `pm1a` and the DSDT after its
    /// header read in `dsdt` from `base`; `Disabled` when ACPI is
    /// disabled.
    pub fn shutdown(&self, pm1a: u16, dsdt: &Vec<u8>, base: usize) -> (r: AcpiResult<Vec<PortWrite16>>)
        requires
            SDT_HEADER_SIZE <= dsdt@.len() <= u32::MAX,
        ensures
            pm1a & 1 == 0 ==> r == Err::<Vec<PortWrite16>, AcpiError>(AcpiError::Disabled),
            pm1a & 1 != 0 ==> shutdown_spec(self.fadt, dsdt@, base, r),
    {
        if Acpi::is_disable(pm1a) {
            return Err(AcpiError::Disabled);
        }
        let range = dsdt.len() - SDT_HEADER_SIZE;
        let expr: Vec<u8> = vec![0x5Fu8, 0x53, 0x35, 0x5F];
        proof {
            assert(expr@ =~= s5_signature());
        }
        match memschr(dsdt, base, range, &expr, false) {
            Ok(p) => {
                proof {
                    lemma_first_found(dsdt@, range as int, s5_signature(), p as int);
                }
                let mut w: Vec<PortWrite16> = Vec::new();
                if dsdt[p + 4] == 0x12 {
                    w.push(
                        PortWrite16 {
                            port: self.fadt.pm1a_control_block as u16,
                            value: ((dsdt[p + 8] as u16) << 10u16) | SLP_EN,
                        },
                    );
                    if self.fadt.pm1b_control_block != 0 {
                        w.push(
                            PortWrite16 {
                                port: self.fadt.pm1b_control_block as u16,
                                value: ((dsdt[p + 10] as u16) << 10u16) | SLP_EN,
                            },
                        );
                    }
                }
                proof {
                    if dsdt@[p + 4] == 0x12 {
                        if self.fadt.pm1b_control_block != 0 {
                            assert(w@ =~= seq![
                                PortWrite16 {
                                    port: self.fadt.pm1a_control_block as u16,
                                    value: sleep_value(dsdt@[p + 8]),
                                },
                            ] + seq![
                                PortWrite16 {
                                    port: self.fadt.pm1b_control_block as u16,
                                    value: sleep_value(dsdt@[p + 10]),
                                },
                            ]);
                        } else {
                            assert(w@ =~= seq![
                                PortWrite16 {
                                    port: self.fadt.pm1a_control_block as u16,
                                    value: sleep_value(dsdt@[p + 8]),
                                },
                            ] + Seq::<PortWrite16>::empty());
                        }
                    }
                }
                Ok(w)
            },
            Err(e) => Err(e),
        }
    }
}

impl RsdpDescriptor {
    /// The revision of ACPI.
    pub open spec fn revision_spec(self) -> u8 {
        match self {
            RsdpDescriptor::LegacyRSDPDescriptor { revision, .. } => revision,
            RsdpDescriptor::AdvancedRSDPDescriptor { revision, .. } => revision,
        }
    }
}

/// The first place where a pattern is found is the one `choose` picks
/// among the first places.
proof fn lemma_first_found(mem: Seq<u8>, range: int, expr: Seq<u8>, p: int)
    requires
        found_at(mem, range, expr, false, p),
        forall|q: int| 0 <= q < p ==> !found_at(mem, range, expr, false, q),
    ensures
        (choose|k: int|
            found_at(mem, range, expr, false, k) && forall|q: int|
                0 <= q < k ==> !found_at(mem, range, expr, false, q)) == p,
{
    let k = choose|k: int|
        found_at(mem, range, expr, false, k) && forall|q: int|
            0 <= q < k ==> !found_at(mem, range, expr, false, q);
    assert(found_at(mem, range, expr, false, k) && forall|q: int|
        0 <= q < k ==> !found_at(mem, range, expr, false, q));
    if k < p {
        assert(!found_at(mem, range, expr, false, k));
    }
    if p < k {
        assert(!found_at(mem, range, expr, false, p));
    }
}

/// ACPI reads either enabled or disabled, never both: the PM1a control
/// register's bit 0 is set or clear.
pub proof fn lemma_enabled_or_disabled(pm1a: u16)
    by (bit_vector)
    ensures
        (pm1a & 1 == 1) != (pm1a & 1 == 0),
{
}

/// Once ACPI reads switched, the loop that switches it is over, with
/// success while attempts are left; it sends the command while it reads
/// unswitched; with no attempt left it times out.
pub proof fn lemma_switch_ends(fadt: Fadt, enable: bool, count: u32, pm1a: u16)
    ensures
        count != 0 && (pm1a & 1 == 1) == enable ==> switch_step(fadt, enable, count, pm1a)
            == SwitchStep::Finished(Ok(())),
        count != 0 && (pm1a & 1 == 1) != enable ==> switch_step(fadt, enable, count, pm1a) is Send,
        count == 0 ==> switch_step(fadt, enable, count, pm1a) == SwitchStep::Finished(
            Err(AcpiError::Timeout),
        ),
{
    lemma_enabled_or_disabled(pm1a);
}

} // verus!
