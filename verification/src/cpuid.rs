//! The CPUID instruction: what its answers tell of the processor.
//!
//! The instruction itself is run by the caller, which hands the library
//! the four registers it answered. See https://en.wikipedia.org/wiki/CPUID.
use crate::bits::{bit_of_u32, bits_of_u32, get_bit_u32, get_bits_u32};
use vstd::prelude::*;

verus! {

/// The registers CPUID answered.
#[derive(Debug, Copy, Clone, PartialEq, Eq, Structural)]
pub struct CpuidResult {
    pub eax: u32,
    pub ebx: u32,
    pub ecx: u32,
    pub edx: u32,
}

/// What can be asked of CPUID.
#[derive(Debug, Copy, Clone, PartialEq, Eq, Structural)]
pub enum CpuidFeatures {
    HighestCpuidParameter,
    ManufacturerId,
    ProcessorInfo,
}

impl CpuidFeatures {
    /// The input value of CPUID that answers: 0 for the highest parameter
    /// and the manufacturer, 1 for the processor information.
    pub fn leaf(self) -> (r: u32)
        ensures
            r == match self {
                CpuidFeatures::ProcessorInfo => 1u32,
                _ => 0u32,
            },
    {
        match self {
            CpuidFeatures::ProcessorInfo => 1,
            _ => 0,
        }
    }
}

/// The manufacturer identification: twelve ASCII bytes.
#[derive(Debug, Copy, Clone, PartialEq, Eq)]
pub struct ManufacturerIdStr(pub [u8; 12]);

/// What CPUID answered.
#[derive(Debug, Copy, Clone, PartialEq, Eq)]
pub enum CpuidRes {
    HighestCpuidParameter(u32),
    ManufacturerId(ManufacturerIdStr),
    ProcInfoAndFeatures { proc_info: ProcessorInfo, additional_info: ProcessorAdditionalInfo },
}

/// The type of the processor.
#[derive(Debug, Copy, Clone, PartialEq, Eq, Structural)]
pub enum ProcessorType {
    /// Generic type of processor.
    OriginalEOM,
    /// The Pentium Overdrive.
    IntelOverdrive,
    /// This not applicable to Intel486 processors.
    DualProcessor,
    ReservedValue,
}

/// The type of processor the code `value` stands for.
pub open spec fn processor_type_of(value: u8) -> ProcessorType {
    match value {
        0 => ProcessorType::OriginalEOM,
        1 => ProcessorType::IntelOverdrive,
        2 => ProcessorType::DualProcessor,
        _ => ProcessorType::ReservedValue,
    }
}

impl From<u8> for ProcessorType {
    fn from(value: u8) -> (r: Self) {
        match value {
            0 => ProcessorType::OriginalEOM,
            1 => ProcessorType::IntelOverdrive,
            2 => ProcessorType::DualProcessor,
            _ => ProcessorType::ReservedValue,
        }
    }
}

impl vstd::std_specs::convert::FromSpecImpl<u8> for ProcessorType {
    open spec fn obeys_from_spec() -> bool {
        true
    }

    open spec fn from_spec(v: u8) -> Self {
        processor_type_of(v)
    }
}

/// The processor information of EAX (CPUID with the input value 1).
#[derive(Debug, Copy, Clone, PartialEq, Eq, Structural)]
pub struct ProcessorInfo {
    pub extended_family_id: u8,
    pub extended_model_id: u8,
    pub processor_type: ProcessorType,
    pub family_id: u8,
    pub model_id: u8,
    pub stepping_id: u8,
}

/// The fields of EAX: extended family 20 to 27, extended model 16 to 19,
/// type 12, family 8 to 11, model 4 to 7, stepping 0 to 3.
pub open spec fn processor_info_of(eax: u32) -> ProcessorInfo {
    ProcessorInfo {
        extended_family_id: bits_of_u32(eax, 20, 28) as u8,
        extended_model_id: bits_of_u32(eax, 16, 20) as u8,
        processor_type: processor_type_of(bits_of_u32(eax, 12, 13) as u8),
        family_id: bits_of_u32(eax, 8, 12) as u8,
        model_id: bits_of_u32(eax, 4, 8) as u8,
        stepping_id: bits_of_u32(eax, 0, 4) as u8,
    }
}

impl From<u32> for ProcessorInfo {
    fn from(eax: u32) -> (r: Self) {
        ProcessorInfo {
            extended_family_id: get_bits_u32(eax, 20, 28) as u8,
            extended_model_id: get_bits_u32(eax, 16, 20) as u8,
            processor_type: ProcessorType::from(get_bits_u32(eax, 12, 13) as u8),
            family_id: get_bits_u32(eax, 8, 12) as u8,
            model_id: get_bits_u32(eax, 4, 8) as u8,
            stepping_id: get_bits_u32(eax, 0, 4) as u8,
        }
    }
}

impl vstd::std_specs::convert::FromSpecImpl<u32> for ProcessorInfo {
    open spec fn obeys_from_spec() -> bool {
        true
    }

    open spec fn from_spec(v: u32) -> Self {
        processor_info_of(v)
    }
}

/// The additional information of EBX (CPUID with the input value 1).
#[derive(Debug, Copy, Clone, PartialEq, Eq, Structural)]
pub struct ProcessorAdditionalInfo {
    /// EBX[0..8], the brand index.
    pub brand_index: u8,
    /// EBX[8..16], the line size of CLFLUSH, valid with the CLFLUSH feature.
    pub clflush_line_size: u8,
    /// EBX[16..24], the maximum number of addressable IDs for logical
    /// processors in this physical package, valid with hyper-threading.
    pub max_id: u8,
    /// EBX[24..32], the initial local APIC ID of the executing logical
    /// processor.
    pub local_apic_id: u8,
}

/// The four bytes of EBX.
pub open spec fn additional_info_of(ebx: u32) -> ProcessorAdditionalInfo {
    ProcessorAdditionalInfo {
        brand_index: bits_of_u32(ebx, 0, 8) as u8,
        clflush_line_size: bits_of_u32(ebx, 8, 16) as u8,
        max_id: bits_of_u32(ebx, 16, 24) as u8,
        local_apic_id: bits_of_u32(ebx, 24, 32) as u8,
    }
}

impl From<u32> for ProcessorAdditionalInfo {
    fn from(ebx: u32) -> (r: Self) {
        ProcessorAdditionalInfo {
            brand_index: get_bits_u32(ebx, 0, 8) as u8,
            clflush_line_size: get_bits_u32(ebx, 8, 16) as u8,
            max_id: get_bits_u32(ebx, 16, 24) as u8,
            local_apic_id: get_bits_u32(ebx, 24, 32) as u8,
        }
    }
}

impl vstd::std_specs::convert::FromSpecImpl<u32> for ProcessorAdditionalInfo {
    open spec fn obeys_from_spec() -> bool {
        true
    }

    open spec fn from_spec(v: u32) -> Self {
        additional_info_of(v)
    }
}

/// The four bytes of `x` in memory order, the low byte first.
pub open spec fn le_bytes(x: u32) -> Seq<u8> {
    seq![x as u8, (x >> 8u32) as u8, (x >> 16u32) as u8, (x >> 24u32) as u8]
}

/// The manufacturer identification CPUID answered with the input value
/// 0: the bytes of EBX, then EDX, then ECX.
pub open spec fn manufacturer_of(res: CpuidResult) -> Seq<u8> {
    le_bytes(res.ebx) + le_bytes(res.edx) + le_bytes(res.ecx)
}

/// What `feature` is, from the registers `res` CPUID answered with the
/// input value of `feature.leaf()`: the highest parameter in EAX, the
/// manufacturer in EBX, EDX and ECX, or the processor information in EAX
/// and EBX.
pub fn get_cpuid_feature(feature: CpuidFeatures, res: CpuidResult) -> (r: CpuidRes)
    ensures
        feature == CpuidFeatures::HighestCpuidParameter ==> r == CpuidRes::HighestCpuidParameter(
            res.eax,
        ),
        feature == CpuidFeatures::ManufacturerId ==> (r matches CpuidRes::ManufacturerId(id) && id.0@
            == manufacturer_of(res)),
        feature == CpuidFeatures::ProcessorInfo ==> r == (CpuidRes::ProcInfoAndFeatures {
            proc_info: processor_info_of(res.eax),
            additional_info: additional_info_of(res.ebx),
        }),
{
    match feature {
        CpuidFeatures::HighestCpuidParameter => CpuidRes::HighestCpuidParameter(res.eax),
        CpuidFeatures::ManufacturerId => {
            let b = res.ebx;
            let d = res.edx;
            let c = res.ecx;
            let id: [u8; 12] = [
                b as u8,
                (b >> 8u32) as u8,
                (b >> 16u32) as u8,
                (b >> 24u32) as u8,
                d as u8,
                (d >> 8u32) as u8,
                (d >> 16u32) as u8,
                (d >> 24u32) as u8,
                c as u8,
                (c >> 8u32) as u8,
                (c >> 16u32) as u8,
                (c >> 24u32) as u8,
            ];
            proof {
                assert(id@ =~= manufacturer_of(res));
            }
            CpuidRes::ManufacturerId(ManufacturerIdStr(id))
        },
        CpuidFeatures::ProcessorInfo => CpuidRes::ProcInfoAndFeatures {
            proc_info: ProcessorInfo::from(res.eax),
            additional_info: ProcessorAdditionalInfo::from(res.ebx),
        },
    }
}

/// The features described in EDX and ECX by CPUID with the input value 1.
#[derive(Debug, Copy, Clone, PartialEq, Eq, Structural)]
pub enum Feature {
    /// Onboard x87 FPU.
    Fpu,
    /// Virtual 8086 mode extensions.
    Vme,
    /// Debugging extensions.
    De,
    /// Page Size Extension.
    Pse,
    /// Time Stamp Counter.
    Tsc,
    /// Model-specific registers.
    Msr,
    /// Physical Address Extension.
    Pae,
    /// Machine Check Exception.
    Mce,
    /// CMPXCHG8 (compare-and-swap) instruction.
    Cx8,
    /// Onboard Advanced Programmable Interrupt Controller (apic).
    Apic,
    /// SYSENTER and SYSEXIT instructions.
    Sep,
    /// Memory Type Range Registers.
    Mtrr,
    /// Page Global Enable bit in CR4.
    Pge,
    /// Machine check architecture.
    Mca,
    /// Conditional move and FCMOV instructions.
    Cmov,
    /// Page Attribute Table.
    Pat,
    /// 36-bit page size extension.
    Pse36,
    /// Processor Serial Number.
    Psn,
    /// CLFLUSH instruction (SSE2)
    Clfsh,
    /// Debug store: save trace of executed jumps.
    Ds,
    /// Onboard thermal control MSRs for ACPI.
    Acpi,
    /// MMX instructions.
    Mmx,
    /// FXSAVE, FXRESTOR instructions CR4 bit 9.
    Fxsr,
    /// SSE instructions.
    Sse,
    /// SSE2 instructions.
    Sse2,
    /// CPU cache implements self-snoop
    Ss,
    /// Hyper-threading.
    Htt,
    /// Thermal monitor automatically limits temperature.
    Tm,
    /// IA64 processor emulating x86
    Ia64,
    /// Pending Break Enable wakeup capability.
    Pbe,
    /// SSE3 instructions.
    Sse3,
    /// PCLMULQDQ instruction.
    Pclmulqdq,
    /// 64-bit debug store (edx bit 21).
    Dtes64,
    /// Monitor and MWAIT instructions (SSE3)
    Monitor,
    /// CPL qualified debug store.
    DsCpl,
    /// Virtual Machine Extensions.
    Vmx,
    /// Safer Mode extensions (LaGrande).
    Smx,
    /// Enhanced SpeedStep.
    Est,
    /// Thermal Monitor 2.
    Tm2,
    /// Supplemental SSE3 instructions.
    Ssse3,
    /// L1 Context ID.
    CnxtId,
    /// Silicon Debug interface.
    Sdbg,
    /// Fused multiply-add (FMA3)
    Fma,
    /// CMPXCHG16B instruction.
    Cx16,
    /// Can disable sending task priority messages.
    Xtpr,
    /// Perfmon and debug capability.
    Pdcm,
    /// Process Context Identifiers (CR4 bit 17).
    Pcid,
    /// Direct cache access for DMA writes.
    Dca,
    /// SSE4.1 instructions.
    Sse41,
    /// SSE4.2 instructions.
    Sse42,
    /// x2APIC.
    X2APIC,
    /// MOVBE instruction (bid-endian).
    Movbe,
    /// POPCNT instruction.
    Popcnt,
    /// APIC implements one-shot operation using TSC deadline value.
    TscDeadline,
    /// AES instruction set.
    Aes,
    /// XSAVE, XRESTOR, XSETBV, XGETBV instructions.
    Xsave,
    /// XSAVE enabled by OS.
    OsXsave,
    /// Advanced Vector Extensions (AVX).
    Avx,
    /// F16C (half-precision) FP feature.
    F16c,
    /// RDRAND (on-ship random number generator) feature.
    Rdrnd,
}

/// The bit of `feature` among the feature bits.
pub open spec fn feature_index(f: Feature) -> usize {
    match f {
        Feature::Fpu => 0,
        Feature::Vme => 1,
        Feature::De => 2,
        Feature::Pse => 3,
        Feature::Tsc => 4,
        Feature::Msr => 5,
        Feature::Pae => 6,
        Feature::Mce => 7,
        Feature::Cx8 => 8,
        Feature::Apic => 9,
        Feature::Sep => 11,
        Feature::Mtrr => 12,
        Feature::Pge => 13,
        Feature::Mca => 14,
        Feature::Cmov => 15,
        Feature::Pat => 16,
        Feature::Pse36 => 17,
        Feature::Psn => 18,
        Feature::Clfsh => 19,
        Feature::Ds => 21,
        Feature::Acpi => 22,
        Feature::Mmx => 23,
        Feature::Fxsr => 24,
        Feature::Sse => 25,
        Feature::Sse2 => 26,
        Feature::Ss => 27,
        Feature::Htt => 28,
        Feature::Tm => 29,
        Feature::Ia64 => 30,
        Feature::Pbe => 31,
        Feature::Sse3 => 32,
        Feature::Pclmulqdq => 33,
        Feature::Dtes64 => 34,
        Feature::Monitor => 35,
        Feature::DsCpl => 36,
        Feature::Vmx => 37,
        Feature::Smx => 38,
        Feature::Est => 39,
        Feature::Tm2 => 40,
        Feature::Ssse3 => 41,
        Feature::CnxtId => 42,
        Feature::Sdbg => 43,
        Feature::Fma => 44,
        Feature::Cx16 => 45,
        Feature::Xtpr => 46,
        Feature::Pdcm => 47,
        Feature::Pcid => 49,
        Feature::Dca => 50,
        Feature::Sse41 => 51,
        Feature::Sse42 => 52,
        Feature::X2APIC => 53,
        Feature::Movbe => 54,
        Feature::Popcnt => 55,
        Feature::TscDeadline => 56,
        Feature::Aes => 57,
        Feature::Xsave => 58,
        Feature::OsXsave => 59,
        Feature::Avx => 60,
        Feature::F16c => 61,
        Feature::Rdrnd => 62,
    }
}

impl Feature {
    /// The bit of the feature among the feature bits.
    pub fn index(self) -> (r: usize)
        ensures
            r == feature_index(self),
    {
        match self {
            Feature::Fpu => 0,
            Feature::Vme => 1,
            Feature::De => 2,
            Feature::Pse => 3,
            Feature::Tsc => 4,
            Feature::Msr => 5,
            Feature::Pae => 6,
            Feature::Mce => 7,
            Feature::Cx8 => 8,
            Feature::Apic => 9,
            Feature::Sep => 11,
            Feature::Mtrr => 12,
            Feature::Pge => 13,
            Feature::Mca => 14,
            Feature::Cmov => 15,
            Feature::Pat => 16,
            Feature::Pse36 => 17,
            Feature::Psn => 18,
            Feature::Clfsh => 19,
            Feature::Ds => 21,
            Feature::Acpi => 22,
            Feature::Mmx => 23,
            Feature::Fxsr => 24,
            Feature::Sse => 25,
            Feature::Sse2 => 26,
            Feature::Ss => 27,
            Feature::Htt => 28,
            Feature::Tm => 29,
            Feature::Ia64 => 30,
            Feature::Pbe => 31,
            Feature::Sse3 => 32,
            Feature::Pclmulqdq => 33,
            Feature::Dtes64 => 34,
            Feature::Monitor => 35,
            Feature::DsCpl => 36,
            Feature::Vmx => 37,
            Feature::Smx => 38,
            Feature::Est => 39,
            Feature::Tm2 => 40,
            Feature::Ssse3 => 41,
            Feature::CnxtId => 42,
            Feature::Sdbg => 43,
            Feature::Fma => 44,
            Feature::Cx16 => 45,
            Feature::Xtpr => 46,
            Feature::Pdcm => 47,
            Feature::Pcid => 49,
            Feature::Dca => 50,
            Feature::Sse41 => 51,
            Feature::Sse42 => 52,
            Feature::X2APIC => 53,
            Feature::Movbe => 54,
            Feature::Popcnt => 55,
            Feature::TscDeadline => 56,
            Feature::Aes => 57,
            Feature::Xsave => 58,
            Feature::OsXsave => 59,
            Feature::Avx => 60,
            Feature::F16c => 61,
            Feature::Rdrnd => 62,
        }
    }
}

/// The features described in EBX, ECX and EDX by CPUID with the input value 7.
#[derive(Debug, Copy, Clone, PartialEq, Eq, Structural)]
pub enum ExtendedFeature {
    /// Access to base of %fs and %gs.
    FsgsBase,
    /// IA32_TSC_ADJUST.
    TscAdjust,
    /// Software Guard Extensions.
    Sgx,
    /// Bit Manipulation Instruction Set 1.
    Bmi1,
    /// Transactional Synchronization Extensions.
    Hle,
    /// Advanced Vector Extensions 2.
    Avx2,
    /// Supervisor-Mode Execution Prevention.
    Smep,
    /// Bit Manipulation Instruction Set 2.
    Bmi2,
    /// Enhanced REP MOVSB/STOSB instructions.
    Erms,
    /// INVPCID instruction.
    Invpcid,
    /// Transactional Synchronization Extensions (Restricted Transactional Memory).
    Rtm,
    /// Platform Quality of Service Monitoring.
    Pqm,
    /// FPU CS and FPU DS deprecated.
    FpuCsDsDeprecated,
    /// Intel MPX (Memory Protection Extensions).
    Mpx,
    /// Platform Quality Of Service Enforcement.
    Pqe,
    /// AVX-512 Foundation.
    Avx512f,
    /// AVX-512 Doubleword and Quadword instructions.
    Avx512dq,
    /// RDSEED instruction.
    Rdseed,
    /// Intel ADX (Multi-Precision Add-Carry Instruction Extensions).
    Adx,
    /// Supervisor-Mode Access Prevention.
    Smap,
    /// AVX-512 Integer Fused Multiply-Add instructions.
    Avx512ifma,
    /// PCOMMIT instruction.
    Pcommit,
    /// CLFLUSHOPT instruction.
    Clflushopt,
    /// CLWB instruction.
    Clwb,
    /// Intel Processor Trace.
    IntelPt,
    /// AVX-512 Prefetch instructions.
    Avx512pf,
    /// AVX-512 Exponential and Reciprocal instructions.
    Avx512er,
    /// AVX-512 Conflict Detection instructions.
    Avx512cd,
    /// Intel SHA extensions,
    Sha,
    /// AVX-512 Byte and Word instructions.
    Avx512bw,
    /// AVX-512 Vector Length Extensions.
    Avx512vl,
    /// PREFETCHWT1 instruction.
    Prefetchwt1,
    /// AVX-512 Vector Bit Manipulation Instructions.
    Avx512vbmi,
    /// User-mode Instruction Prevention.
    Umip,
    /// Memory Protection Keys for User-mode pages.
    Pku,
    /// PKU enabled by OS.
    OsPke,
    /// AVX-512 Vector Bit Manipulation Instructions 2.
    Avx512vbmi2,
    /// Galois field instructions.
    Gfni,
    /// Vector AES instruction set (VEX-256/EVEX).
    Vaes,
    /// CLMUL instruction set (VEX-256/EVEX).
    Vpclmulqdq,
    /// AVX-512 Vector Neural Network Instructions.
    Avx512vnni,
    /// AVX-512 BITALG instructions.
    Avx512bitalg,
    /// AVX-512 Vector Population Count Double and Quad-word.
    Avx512vpopcntdq,
    /// Read Processor ID.
    Rdpid,
    /// SGX Launch Configuration.
    SgxLc,
    /// AVX-512 4-register Neural Network instructions.
    Avx5124vnniw,
    /// AVX-512 4-register Multipy Accumulation Single precision.
    Avx5124fmaps,
    /// Platform Configuration (Memory Encryption Technologies instructions).
    Pconfig,
    /// Speculation Control:
    /// Indirect Branch Restricted Speculation (IBRS) and
    /// Indirect Branch Prediction Barrier (IBPB).
    SpecCtrl,
    /// Single Thread Indirect Branch Predictor (STIBP),
    Stibp,
    /// IA32_ARCH_CAPABILITIES.
    IA32ArchCapabilities,
    /// Speculative Store Bypass Disable (SSBD) as mitigation for Speculative Store Bypass.
    Ssbd,
}

/// The bit of `extendedfeature` among the feature bits.
pub open spec fn extended_feature_index(f: ExtendedFeature) -> usize {
    match f {
        ExtendedFeature::FsgsBase => 0,
        ExtendedFeature::TscAdjust => 1,
        ExtendedFeature::Sgx => 2,
        ExtendedFeature::Bmi1 => 3,
        ExtendedFeature::Hle => 4,
        ExtendedFeature::Avx2 => 5,
        ExtendedFeature::Smep => 7,
        ExtendedFeature::Bmi2 => 8,
        ExtendedFeature::Erms => 9,
        ExtendedFeature::Invpcid => 10,
        ExtendedFeature::Rtm => 11,
        ExtendedFeature::Pqm => 12,
        ExtendedFeature::FpuCsDsDeprecated => 13,
        ExtendedFeature::Mpx => 14,
        ExtendedFeature::Pqe => 15,
        ExtendedFeature::Avx512f => 16,
        ExtendedFeature::Avx512dq => 17,
        ExtendedFeature::Rdseed => 18,
        ExtendedFeature::Adx => 19,
        ExtendedFeature::Smap => 20,
        ExtendedFeature::Avx512ifma => 21,
        ExtendedFeature::Pcommit => 22,
        ExtendedFeature::Clflushopt => 23,
        ExtendedFeature::Clwb => 24,
        ExtendedFeature::IntelPt => 25,
        ExtendedFeature::Avx512pf => 26,
        ExtendedFeature::Avx512er => 27,
        ExtendedFeature::Avx512cd => 28,
        ExtendedFeature::Sha => 29,
        ExtendedFeature::Avx512bw => 30,
        ExtendedFeature::Avx512vl => 31,
        ExtendedFeature::Prefetchwt1 => 32,
        ExtendedFeature::Avx512vbmi => 33,
        ExtendedFeature::Umip => 34,
        ExtendedFeature::Pku => 35,
        ExtendedFeature::OsPke => 36,
        ExtendedFeature::Avx512vbmi2 => 38,
        ExtendedFeature::Gfni => 40,
        ExtendedFeature::Vaes => 41,
        ExtendedFeature::Vpclmulqdq => 42,
        ExtendedFeature::Avx512vnni => 43,
        ExtendedFeature::Avx512bitalg => 44,
        ExtendedFeature::Avx512vpopcntdq => 46,
        ExtendedFeature::Rdpid => 54,
        ExtendedFeature::SgxLc => 62,
        ExtendedFeature::Avx5124vnniw => 66,
        ExtendedFeature::Avx5124fmaps => 67,
        ExtendedFeature::Pconfig => 82,
        ExtendedFeature::SpecCtrl => 90,
        ExtendedFeature::Stibp => 91,
        ExtendedFeature::IA32ArchCapabilities => 93,
        ExtendedFeature::Ssbd => 94,
    }
}

impl ExtendedFeature {
    /// The bit of the feature among the feature bits.
    pub fn index(self) -> (r: usize)
        ensures
            r == extended_feature_index(self),
    {
        match self {
            ExtendedFeature::FsgsBase => 0,
            ExtendedFeature::TscAdjust => 1,
            ExtendedFeature::Sgx => 2,
            ExtendedFeature::Bmi1 => 3,
            ExtendedFeature::Hle => 4,
            ExtendedFeature::Avx2 => 5,
            ExtendedFeature::Smep => 7,
            ExtendedFeature::Bmi2 => 8,
            ExtendedFeature::Erms => 9,
            ExtendedFeature::Invpcid => 10,
            ExtendedFeature::Rtm => 11,
            ExtendedFeature::Pqm => 12,
            ExtendedFeature::FpuCsDsDeprecated => 13,
            ExtendedFeature::Mpx => 14,
            ExtendedFeature::Pqe => 15,
            ExtendedFeature::Avx512f => 16,
            ExtendedFeature::Avx512dq => 17,
            ExtendedFeature::Rdseed => 18,
            ExtendedFeature::Adx => 19,
            ExtendedFeature::Smap => 20,
            ExtendedFeature::Avx512ifma => 21,
            ExtendedFeature::Pcommit => 22,
            ExtendedFeature::Clflushopt => 23,
            ExtendedFeature::Clwb => 24,
            ExtendedFeature::IntelPt => 25,
            ExtendedFeature::Avx512pf => 26,
            ExtendedFeature::Avx512er => 27,
            ExtendedFeature::Avx512cd => 28,
            ExtendedFeature::Sha => 29,
            ExtendedFeature::Avx512bw => 30,
            ExtendedFeature::Avx512vl => 31,
            ExtendedFeature::Prefetchwt1 => 32,
            ExtendedFeature::Avx512vbmi => 33,
            ExtendedFeature::Umip => 34,
            ExtendedFeature::Pku => 35,
            ExtendedFeature::OsPke => 36,
            ExtendedFeature::Avx512vbmi2 => 38,
            ExtendedFeature::Gfni => 40,
            ExtendedFeature::Vaes => 41,
            ExtendedFeature::Vpclmulqdq => 42,
            ExtendedFeature::Avx512vnni => 43,
            ExtendedFeature::Avx512bitalg => 44,
            ExtendedFeature::Avx512vpopcntdq => 46,
            ExtendedFeature::Rdpid => 54,
            ExtendedFeature::SgxLc => 62,
            ExtendedFeature::Avx5124vnniw => 66,
            ExtendedFeature::Avx5124fmaps => 67,
            ExtendedFeature::Pconfig => 82,
            ExtendedFeature::SpecCtrl => 90,
            ExtendedFeature::Stibp => 91,
            ExtendedFeature::IA32ArchCapabilities => 93,
            ExtendedFeature::Ssbd => 94,
        }
    }
}


/// Whether the processor has `feature`, from the registers `res` CPUID
/// answered with the input value 1: bit `index` of EDX for the first 32
/// features, bit `index - 32` of ECX for the others.
pub fn has_feature(feature: Feature, res: CpuidResult) -> (r: bool)
    ensures
        r == if feature_index(feature) > 31 {
            bit_of_u32(res.ecx, (feature_index(feature) - 32) as usize)
        } else {
            bit_of_u32(res.edx, feature_index(feature))
        },
{
    let index = feature.index();
    if index > 31 {
        get_bit_u32(res.ecx, index - 32)
    } else {
        get_bit_u32(res.edx, index)
    }
}

/// Whether the processor has `feature`, from the registers `res` CPUID
/// answered with the input value 7: bit `index` of EBX for the first 32
/// features, of ECX for the next 32, of EDX for the others.
pub fn has_extended_feature(feature: ExtendedFeature, res: CpuidResult) -> (r: bool)
    ensures
        r == if extended_feature_index(feature) > 63 {
            bit_of_u32(res.edx, (extended_feature_index(feature) - 64) as usize)
        } else if extended_feature_index(feature) > 31 {
            bit_of_u32(res.ecx, (extended_feature_index(feature) - 32) as usize)
        } else {
            bit_of_u32(res.ebx, extended_feature_index(feature))
        },
{
    let index = feature.index();
    if index > 63 {
        get_bit_u32(res.edx, index - 64)
    } else if index > 31 {
        get_bit_u32(res.ecx, index - 32)
    } else {
        get_bit_u32(res.ebx, index)
    }
}

} // verus!
