use mshv_bindings::msr::{
    get_partition_supported_msrs, msr_to_hv_reg_name, msrs_cet_ss, msrs_common, msrs_other,
    msrs_synic, HvRegisterName, VpFeatures, HV_X64_MSR_GUEST_OS_ID, HV_X64_MSR_REFERENCE_TSC,
    HV_X64_MSR_SINT0, HV_X64_MSR_SINT15, IA32_MSR_DEBUG_CTL, IA32_MSR_TSC, IA32_MSR_TSC_AUX,
    MSR_IA32_INTERRUPT_SSP_TABLE_ADDR, MSR_IA32_REGISTER_U_XSS, MSR_IA32_U_CET,
};

#[test]
fn test_msr_to_hv_reg_name_catalogue() {
    assert_eq!(msr_to_hv_reg_name(IA32_MSR_TSC), Ok(HvRegisterName::Tsc));
    assert_eq!(msr_to_hv_reg_name(IA32_MSR_TSC_AUX), Ok(HvRegisterName::TscAux));
    assert_eq!(msr_to_hv_reg_name(IA32_MSR_DEBUG_CTL), Ok(HvRegisterName::DebugCtl));
    assert_eq!(msr_to_hv_reg_name(HV_X64_MSR_SINT0), Ok(HvRegisterName::Sint0));
    assert_eq!(msr_to_hv_reg_name(HV_X64_MSR_SINT15), Ok(HvRegisterName::Sint15));
    assert_eq!(msr_to_hv_reg_name(HV_X64_MSR_GUEST_OS_ID), Ok(HvRegisterName::GuestOsId));
    assert_eq!(
        msr_to_hv_reg_name(MSR_IA32_INTERRUPT_SSP_TABLE_ADDR),
        Ok(HvRegisterName::InterruptSspTableAddr)
    );
}

#[test]
fn test_msr_to_hv_reg_name_unsupported() {
    assert_eq!(msr_to_hv_reg_name(0x1234_5678), Err("Not a supported hv_register_name msr"));
    assert_eq!(msr_to_hv_reg_name(0xFFFF_FFFF), Err("Not a supported hv_register_name msr"));
    // just outside the synthetic-interrupt range
    assert!(msr_to_hv_reg_name(0x4000_00A0).is_err());
}

#[test]
fn test_msr_table_sizes() {
    assert_eq!(msrs_common().len(), 42);
    assert_eq!(msrs_synic().len(), 19);
    assert_eq!(msrs_cet_ss().len(), 8);
    assert_eq!(msrs_other().len(), 4);
}

#[test]
fn test_msr_set_determinism() {
    let features = VpFeatures {
        cet_ss_support: true,
        rdtscp_support: true,
        xsave_supervisor_support: false,
        access_synic_regs: true,
        access_partition_reference_tsc: false,
        access_hypercall_regs: true,
    };
    let first = get_partition_supported_msrs(&features);
    let second = get_partition_supported_msrs(&features);
    assert_eq!(first, second);
}

#[test]
fn test_msr_set_base_is_common() {
    let features = VpFeatures::default();
    let msrs = get_partition_supported_msrs(&features);
    assert_eq!(msrs, msrs_common());
    assert_eq!(msrs.len(), 42);
}

#[test]
fn test_msr_set_cet_appends_after_common() {
    let features = VpFeatures { cet_ss_support: true, ..VpFeatures::default() };
    let msrs = get_partition_supported_msrs(&features);
    assert_eq!(msrs.len(), 50);
    assert_eq!(&msrs[0..42], &msrs_common()[..]);
    assert_eq!(&msrs[42..50], &msrs_cet_ss()[..]);
    assert_eq!(msrs[42], MSR_IA32_U_CET);
}

#[test]
fn test_msr_set_all_features() {
    let features = VpFeatures {
        cet_ss_support: true,
        rdtscp_support: true,
        xsave_supervisor_support: true,
        access_synic_regs: true,
        access_partition_reference_tsc: true,
        access_hypercall_regs: true,
    };
    let msrs = get_partition_supported_msrs(&features);
    assert_eq!(msrs.len(), 42 + 8 + 1 + 1 + 19 + 1 + 1);
    assert_eq!(&msrs[0..42], &msrs_common()[..]);
    assert_eq!(&msrs[42..50], &msrs_cet_ss()[..]);
    assert_eq!(msrs[50], IA32_MSR_TSC_AUX);
    assert_eq!(msrs[51], MSR_IA32_REGISTER_U_XSS);
    assert_eq!(&msrs[52..71], &msrs_synic()[..]);
    assert_eq!(msrs[71], HV_X64_MSR_REFERENCE_TSC);
    assert_eq!(msrs[72], HV_X64_MSR_GUEST_OS_ID);
}

#[test]
fn test_msr_set_single_flags() {
    let features = VpFeatures { rdtscp_support: true, ..VpFeatures::default() };
    let msrs = get_partition_supported_msrs(&features);
    assert_eq!(msrs.len(), 43);
    assert_eq!(msrs[42], IA32_MSR_TSC_AUX);

    let features = VpFeatures { access_hypercall_regs: true, ..VpFeatures::default() };
    let msrs = get_partition_supported_msrs(&features);
    assert_eq!(msrs.len(), 43);
    assert_eq!(msrs[42], HV_X64_MSR_GUEST_OS_ID);
}
