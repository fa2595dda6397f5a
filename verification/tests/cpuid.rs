use turbofish::cpuid::{
    get_cpuid_feature, has_extended_feature, has_feature, CpuidFeatures, CpuidRes, CpuidResult, ExtendedFeature,
    Feature, ManufacturerIdStr, ProcessorAdditionalInfo, ProcessorInfo, ProcessorType,
};

fn res(eax: u32, ebx: u32, ecx: u32, edx: u32) -> CpuidResult {
    CpuidResult { eax, ebx, ecx, edx }
}

#[test]
fn leaves() {
    assert_eq!(CpuidFeatures::HighestCpuidParameter.leaf(), 0);
    assert_eq!(CpuidFeatures::ManufacturerId.leaf(), 0);
    assert_eq!(CpuidFeatures::ProcessorInfo.leaf(), 1);
}

#[test]
fn manufacturer_and_highest_parameter() {
    let r = res(0xd, 0x756e_6547, 0x6c65_746e, 0x4965_6e69);
    assert_eq!(get_cpuid_feature(CpuidFeatures::HighestCpuidParameter, r), CpuidRes::HighestCpuidParameter(0xd));
    assert_eq!(
        get_cpuid_feature(CpuidFeatures::ManufacturerId, r),
        CpuidRes::ManufacturerId(ManufacturerIdStr(*b"GenuineIntel"))
    );
}

#[test]
fn processor_information() {
    let r = res(0x0001_06a5, 0x0102_0304, 0, 0);
    match get_cpuid_feature(CpuidFeatures::ProcessorInfo, r) {
        CpuidRes::ProcInfoAndFeatures { proc_info, additional_info } => {
            assert_eq!(
                proc_info,
                ProcessorInfo {
                    extended_family_id: 0,
                    extended_model_id: 1,
                    processor_type: ProcessorType::OriginalEOM,
                    family_id: 6,
                    model_id: 0xa,
                    stepping_id: 5,
                }
            );
            assert_eq!(
                additional_info,
                ProcessorAdditionalInfo { brand_index: 4, clflush_line_size: 3, max_id: 2, local_apic_id: 1 }
            );
        }
        _ => panic!("processor information expected"),
    }
    assert_eq!(ProcessorInfo::from(0x0ff0_3000).processor_type, ProcessorType::IntelOverdrive);
    assert_eq!(ProcessorInfo::from(0x0ff0_3000).extended_family_id, 0xff);
    assert_eq!(ProcessorType::from(2), ProcessorType::DualProcessor);
    assert_eq!(ProcessorType::from(7), ProcessorType::ReservedValue);
}

#[test]
fn features_by_bit() {
    let r = res(0, 0, 0x1, 1 << 26);
    assert!(has_feature(Feature::Sse2, r));
    assert!(has_feature(Feature::Sse3, r));
    assert!(!has_feature(Feature::Fpu, r));
    assert_eq!(Feature::Sse3.index(), 32);
    let e = res(0, 1 << 5, 0, 1 << 30);
    assert!(has_extended_feature(ExtendedFeature::Avx2, e));
    assert!(has_extended_feature(ExtendedFeature::Ssbd, e));
    assert!(!has_extended_feature(ExtendedFeature::FsgsBase, e));
    assert_eq!(ExtendedFeature::Ssbd.index(), 94);
}
