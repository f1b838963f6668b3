//! Model-specific register (MSR) support: the numeric MSR catalogue, the
//! pure lookup from an MSR index to the hypervisor's internal register
//! identifier, and the feature-gated builder of the ordered MSR set a
//! virtual processor must synchronize.

use vstd::prelude::*;

verus! {

pub const IA32_MSR_TSC: u32 = 0x00000010;
pub const IA32_MSR_EFER: u32 = 0xC0000080;
pub const IA32_MSR_KERNEL_GS_BASE: u32 = 0xC0000102;
pub const IA32_MSR_APIC_BASE: u32 = 0x0000001B;
pub const IA32_MSR_PAT: u32 = 0x0277;
pub const IA32_MSR_SYSENTER_CS: u32 = 0x00000174;
pub const IA32_MSR_SYSENTER_ESP: u32 = 0x00000175;
pub const IA32_MSR_SYSENTER_EIP: u32 = 0x00000176;
pub const IA32_MSR_STAR: u32 = 0xC0000081;
pub const IA32_MSR_LSTAR: u32 = 0xC0000082;
pub const IA32_MSR_CSTAR: u32 = 0xC0000083;
pub const IA32_MSR_SFMASK: u32 = 0xC0000084;

pub const IA32_MSR_MTRR_CAP: u32 = 0x00FE;
pub const IA32_MSR_MTRR_DEF_TYPE: u32 = 0x02FF;
pub const IA32_MSR_MTRR_PHYSBASE0: u32 = 0x0200;
pub const IA32_MSR_MTRR_PHYSMASK0: u32 = 0x0201;
pub const IA32_MSR_MTRR_PHYSBASE1: u32 = 0x0202;
pub const IA32_MSR_MTRR_PHYSMASK1: u32 = 0x0203;
pub const IA32_MSR_MTRR_PHYSBASE2: u32 = 0x0204;
pub const IA32_MSR_MTRR_PHYSMASK2: u32 = 0x0205;
pub const IA32_MSR_MTRR_PHYSBASE3: u32 = 0x0206;
pub const IA32_MSR_MTRR_PHYSMASK3: u32 = 0x0207;
pub const IA32_MSR_MTRR_PHYSBASE4: u32 = 0x0208;
pub const IA32_MSR_MTRR_PHYSMASK4: u32 = 0x0209;
pub const IA32_MSR_MTRR_PHYSBASE5: u32 = 0x020A;
pub const IA32_MSR_MTRR_PHYSMASK5: u32 = 0x020B;
pub const IA32_MSR_MTRR_PHYSBASE6: u32 = 0x020C;
pub const IA32_MSR_MTRR_PHYSMASK6: u32 = 0x020D;
pub const IA32_MSR_MTRR_PHYSBASE7: u32 = 0x020E;
pub const IA32_MSR_MTRR_PHYSMASK7: u32 = 0x020F;

pub const IA32_MSR_MTRR_FIX64K_00000: u32 = 0x0250;
pub const IA32_MSR_MTRR_FIX16K_80000: u32 = 0x0258;
pub const IA32_MSR_MTRR_FIX16K_A0000: u32 = 0x0259;
pub const IA32_MSR_MTRR_FIX4K_C0000: u32 = 0x0268;
pub const IA32_MSR_MTRR_FIX4K_C8000: u32 = 0x0269;
pub const IA32_MSR_MTRR_FIX4K_D0000: u32 = 0x026A;
pub const IA32_MSR_MTRR_FIX4K_D8000: u32 = 0x026B;
pub const IA32_MSR_MTRR_FIX4K_E0000: u32 = 0x026C;
pub const IA32_MSR_MTRR_FIX4K_E8000: u32 = 0x026D;
pub const IA32_MSR_MTRR_FIX4K_F0000: u32 = 0x026E;
pub const IA32_MSR_MTRR_FIX4K_F8000: u32 = 0x026F;

pub const IA32_MSR_TSC_AUX: u32 = 0xC0000103;
pub const IA32_MSR_BNDCFGS: u32 = 0x00000d90;
pub const IA32_MSR_DEBUG_CTL: u32 = 0x1D9;
pub const IA32_MSR_SPEC_CTRL: u32 = 0x00000048;
pub const IA32_MSR_TSC_ADJUST: u32 = 0x0000003b;

pub const IA32_MSR_MISC_ENABLE: u32 = 0x000001a0;
pub const MSR_IA32_SSP: u32 = 0x000007a0;
pub const MSR_IA32_U_CET: u32 = 0x000006a0;  // user mode cet
pub const MSR_IA32_S_CET: u32 = 0x000006a2;  // kernel mode cet
pub const MSR_IA32_PL0_SSP: u32 = 0x000006a4;  // ring-0 shadow stack pointer
pub const MSR_IA32_PL1_SSP: u32 = 0x000006a5;  // ring-1 shadow stack pointer
pub const MSR_IA32_PL2_SSP: u32 = 0x000006a6;  // ring-2 shadow stack pointer
pub const MSR_IA32_PL3_SSP: u32 = 0x000006a7;  // ring-3 shadow stack pointer
pub const MSR_IA32_INTERRUPT_SSP_TABLE_ADDR: u32 = 0x000006A8;
pub const MSR_IA32_REGISTER_U_XSS: u32 = 0x8008B;

// The hypervisor's synthetic MSRs.
pub const HV_X64_MSR_GUEST_OS_ID: u32 = 0x40000000;
pub const HV_X64_MSR_REFERENCE_TSC: u32 = 0x40000021;
pub const HV_X64_MSR_SCONTROL: u32 = 0x40000080;
pub const HV_X64_MSR_SIEFP: u32 = 0x40000082;
pub const HV_X64_MSR_SIMP: u32 = 0x40000083;
pub const HV_X64_MSR_EOM: u32 = 0x40000084;
pub const HV_X64_MSR_SINT0: u32 = 0x40000090;
pub const HV_X64_MSR_SINT1: u32 = 0x40000091;
pub const HV_X64_MSR_SINT2: u32 = 0x40000092;
pub const HV_X64_MSR_SINT3: u32 = 0x40000093;
pub const HV_X64_MSR_SINT4: u32 = 0x40000094;
pub const HV_X64_MSR_SINT5: u32 = 0x40000095;
pub const HV_X64_MSR_SINT6: u32 = 0x40000096;
pub const HV_X64_MSR_SINT7: u32 = 0x40000097;
pub const HV_X64_MSR_SINT8: u32 = 0x40000098;
pub const HV_X64_MSR_SINT9: u32 = 0x40000099;
pub const HV_X64_MSR_SINT10: u32 = 0x4000009A;
pub const HV_X64_MSR_SINT11: u32 = 0x4000009B;
pub const HV_X64_MSR_SINT12: u32 = 0x4000009C;
pub const HV_X64_MSR_SINT13: u32 = 0x4000009D;
pub const HV_X64_MSR_SINT14: u32 = 0x4000009E;
pub const HV_X64_MSR_SINT15: u32 = 0x4000009F;

/// The hypervisor's internal register identifiers for the MSRs in the
/// supported catalogue.
#[derive(Clone, Copy, Debug, PartialEq, Eq, Structural)]
pub enum HvRegisterName {
    Tsc,
    Efer,
    KernelGsBase,
    ApicBase,
    Pat,
    SysenterCs,
    SysenterEsp,
    SysenterEip,
    Star,
    Lstar,
    Cstar,
    Sfmask,
    MsrMtrrCap,
    MsrMtrrDefType,
    MsrMtrrPhysBase0,
    MsrMtrrPhysMask0,
    MsrMtrrPhysBase1,
    MsrMtrrPhysMask1,
    MsrMtrrPhysBase2,
    MsrMtrrPhysMask2,
    MsrMtrrPhysBase3,
    MsrMtrrPhysMask3,
    MsrMtrrPhysBase4,
    MsrMtrrPhysMask4,
    MsrMtrrPhysBase5,
    MsrMtrrPhysMask5,
    MsrMtrrPhysBase6,
    MsrMtrrPhysMask6,
    MsrMtrrPhysBase7,
    MsrMtrrPhysMask7,
    MsrMtrrFix64k00000,
    MsrMtrrFix16k80000,
    MsrMtrrFix16kA0000,
    MsrMtrrFix4kC0000,
    MsrMtrrFix4kC8000,
    MsrMtrrFix4kD0000,
    MsrMtrrFix4kD8000,
    MsrMtrrFix4kE0000,
    MsrMtrrFix4kE8000,
    MsrMtrrFix4kF0000,
    MsrMtrrFix4kF8000,
    TscAux,
    Bndcfgs,
    DebugCtl,
    TscAdjust,
    SpecCtrl,
    GuestOsId,
    Sint0,
    Sint1,
    Sint2,
    Sint3,
    Sint4,
    Sint5,
    Sint6,
    Sint7,
    Sint8,
    Sint9,
    Sint10,
    Sint11,
    Sint12,
    Sint13,
    Sint14,
    Sint15,
    MsrIa32MiscEnable,
    Scontrol,
    Siefp,
    Simp,
    ReferenceTsc,
    Eom,
    UXss,
    UCet,
    SCet,
    Ssp,
    Pl0Ssp,
    Pl1Ssp,
    Pl2Ssp,
    Pl3Ssp,
    InterruptSspTableAddr,
}

/// The register identifier a supported MSR index resolves to, and `None`
/// for every index outside the catalogue.
pub open spec fn spec_msr_lookup(msr: u32) -> Option<HvRegisterName> {
    if msr == IA32_MSR_TSC {
        Some(HvRegisterName::Tsc)
    } else if msr == IA32_MSR_EFER {
        Some(HvRegisterName::Efer)
    } else if msr == IA32_MSR_KERNEL_GS_BASE {
        Some(HvRegisterName::KernelGsBase)
    } else if msr == IA32_MSR_APIC_BASE {
        Some(HvRegisterName::ApicBase)
    } else if msr == IA32_MSR_PAT {
        Some(HvRegisterName::Pat)
    } else if msr == IA32_MSR_SYSENTER_CS {
        Some(HvRegisterName::SysenterCs)
    } else if msr == IA32_MSR_SYSENTER_ESP {
        Some(HvRegisterName::SysenterEsp)
    } else if msr == IA32_MSR_SYSENTER_EIP {
        Some(HvRegisterName::SysenterEip)
    } else if msr == IA32_MSR_STAR {
        Some(HvRegisterName::Star)
    } else if msr == IA32_MSR_LSTAR {
        Some(HvRegisterName::Lstar)
    } else if msr == IA32_MSR_CSTAR {
        Some(HvRegisterName::Cstar)
    } else if msr == IA32_MSR_SFMASK {
        Some(HvRegisterName::Sfmask)
    } else if msr == IA32_MSR_MTRR_CAP {
        Some(HvRegisterName::MsrMtrrCap)
    } else if msr == IA32_MSR_MTRR_DEF_TYPE {
        Some(HvRegisterName::MsrMtrrDefType)
    } else if msr == IA32_MSR_MTRR_PHYSBASE0 {
        Some(HvRegisterName::MsrMtrrPhysBase0)
    } else if msr == IA32_MSR_MTRR_PHYSMASK0 {
        Some(HvRegisterName::MsrMtrrPhysMask0)
    } else if msr == IA32_MSR_MTRR_PHYSBASE1 {
        Some(HvRegisterName::MsrMtrrPhysBase1)
    } else if msr == IA32_MSR_MTRR_PHYSMASK1 {
        Some(HvRegisterName::MsrMtrrPhysMask1)
    } else if msr == IA32_MSR_MTRR_PHYSBASE2 {
        Some(HvRegisterName::MsrMtrrPhysBase2)
    } else if msr == IA32_MSR_MTRR_PHYSMASK2 {
        Some(HvRegisterName::MsrMtrrPhysMask2)
    } else if msr == IA32_MSR_MTRR_PHYSBASE3 {
        Some(HvRegisterName::MsrMtrrPhysBase3)
    } else if msr == IA32_MSR_MTRR_PHYSMASK3 {
        Some(HvRegisterName::MsrMtrrPhysMask3)
    } else if msr == IA32_MSR_MTRR_PHYSBASE4 {
        Some(HvRegisterName::MsrMtrrPhysBase4)
    } else if msr == IA32_MSR_MTRR_PHYSMASK4 {
        Some(HvRegisterName::MsrMtrrPhysMask4)
    } else if msr == IA32_MSR_MTRR_PHYSBASE5 {
        Some(HvRegisterName::MsrMtrrPhysBase5)
    } else if msr == IA32_MSR_MTRR_PHYSMASK5 {
        Some(HvRegisterName::MsrMtrrPhysMask5)
    } else if msr == IA32_MSR_MTRR_PHYSBASE6 {
        Some(HvRegisterName::MsrMtrrPhysBase6)
    } else if msr == IA32_MSR_MTRR_PHYSMASK6 {
        Some(HvRegisterName::MsrMtrrPhysMask6)
    } else if msr == IA32_MSR_MTRR_PHYSBASE7 {
        Some(HvRegisterName::MsrMtrrPhysBase7)
    } else if msr == IA32_MSR_MTRR_PHYSMASK7 {
        Some(HvRegisterName::MsrMtrrPhysMask7)
    } else if msr == IA32_MSR_MTRR_FIX64K_00000 {
        Some(HvRegisterName::MsrMtrrFix64k00000)
    } else if msr == IA32_MSR_MTRR_FIX16K_80000 {
        Some(HvRegisterName::MsrMtrrFix16k80000)
    } else if msr == IA32_MSR_MTRR_FIX16K_A0000 {
        Some(HvRegisterName::MsrMtrrFix16kA0000)
    } else if msr == IA32_MSR_MTRR_FIX4K_C0000 {
        Some(HvRegisterName::MsrMtrrFix4kC0000)
    } else if msr == IA32_MSR_MTRR_FIX4K_C8000 {
        Some(HvRegisterName::MsrMtrrFix4kC8000)
    } else if msr == IA32_MSR_MTRR_FIX4K_D0000 {
        Some(HvRegisterName::MsrMtrrFix4kD0000)
    } else if msr == IA32_MSR_MTRR_FIX4K_D8000 {
        Some(HvRegisterName::MsrMtrrFix4kD8000)
    } else if msr == IA32_MSR_MTRR_FIX4K_E0000 {
        Some(HvRegisterName::MsrMtrrFix4kE0000)
    } else if msr == IA32_MSR_MTRR_FIX4K_E8000 {
        Some(HvRegisterName::MsrMtrrFix4kE8000)
    } else if msr == IA32_MSR_MTRR_FIX4K_F0000 {
        Some(HvRegisterName::MsrMtrrFix4kF0000)
    } else if msr == IA32_MSR_MTRR_FIX4K_F8000 {
        Some(HvRegisterName::MsrMtrrFix4kF8000)
    } else if msr == IA32_MSR_TSC_AUX {
        Some(HvRegisterName::TscAux)
    } else if msr == IA32_MSR_BNDCFGS {
        Some(HvRegisterName::Bndcfgs)
    } else if msr == IA32_MSR_DEBUG_CTL {
        Some(HvRegisterName::DebugCtl)
    } else if msr == IA32_MSR_TSC_ADJUST {
        Some(HvRegisterName::TscAdjust)
    } else if msr == IA32_MSR_SPEC_CTRL {
        Some(HvRegisterName::SpecCtrl)
    } else if msr == HV_X64_MSR_GUEST_OS_ID {
        Some(HvRegisterName::GuestOsId)
    } else if msr == HV_X64_MSR_SINT0 {
        Some(HvRegisterName::Sint0)
    } else if msr == HV_X64_MSR_SINT1 {
        Some(HvRegisterName::Sint1)
    } else if msr == HV_X64_MSR_SINT2 {
        Some(HvRegisterName::Sint2)
    } else if msr == HV_X64_MSR_SINT3 {
        Some(HvRegisterName::Sint3)
    } else if msr == HV_X64_MSR_SINT4 {
        Some(HvRegisterName::Sint4)
    } else if msr == HV_X64_MSR_SINT5 {
        Some(HvRegisterName::Sint5)
    } else if msr == HV_X64_MSR_SINT6 {
        Some(HvRegisterName::Sint6)
    } else if msr == HV_X64_MSR_SINT7 {
        Some(HvRegisterName::Sint7)
    } else if msr == HV_X64_MSR_SINT8 {
        Some(HvRegisterName::Sint8)
    } else if msr == HV_X64_MSR_SINT9 {
        Some(HvRegisterName::Sint9)
    } else if msr == HV_X64_MSR_SINT10 {
        Some(HvRegisterName::Sint10)
    } else if msr == HV_X64_MSR_SINT11 {
        Some(HvRegisterName::Sint11)
    } else if msr == HV_X64_MSR_SINT12 {
        Some(HvRegisterName::Sint12)
    } else if msr == HV_X64_MSR_SINT13 {
        Some(HvRegisterName::Sint13)
    } else if msr == HV_X64_MSR_SINT14 {
        Some(HvRegisterName::Sint14)
    } else if msr == HV_X64_MSR_SINT15 {
        Some(HvRegisterName::Sint15)
    } else if msr == IA32_MSR_MISC_ENABLE {
        Some(HvRegisterName::MsrIa32MiscEnable)
    } else if msr == HV_X64_MSR_SCONTROL {
        Some(HvRegisterName::Scontrol)
    } else if msr == HV_X64_MSR_SIEFP {
        Some(HvRegisterName::Siefp)
    } else if msr == HV_X64_MSR_SIMP {
        Some(HvRegisterName::Simp)
    } else if msr == HV_X64_MSR_REFERENCE_TSC {
        Some(HvRegisterName::ReferenceTsc)
    } else if msr == HV_X64_MSR_EOM {
        Some(HvRegisterName::Eom)
    } else if msr == MSR_IA32_REGISTER_U_XSS {
        Some(HvRegisterName::UXss)
    } else if msr == MSR_IA32_U_CET {
        Some(HvRegisterName::UCet)
    } else if msr == MSR_IA32_S_CET {
        Some(HvRegisterName::SCet)
    } else if msr == MSR_IA32_SSP {
        Some(HvRegisterName::Ssp)
    } else if msr == MSR_IA32_PL0_SSP {
        Some(HvRegisterName::Pl0Ssp)
    } else if msr == MSR_IA32_PL1_SSP {
        Some(HvRegisterName::Pl1Ssp)
    } else if msr == MSR_IA32_PL2_SSP {
        Some(HvRegisterName::Pl2Ssp)
    } else if msr == MSR_IA32_PL3_SSP {
        Some(HvRegisterName::Pl3Ssp)
    } else if msr == MSR_IA32_INTERRUPT_SSP_TABLE_ADDR {
        Some(HvRegisterName::InterruptSspTableAddr)
    } else {
        None
    }
}

/// Resolves a numeric MSR index to the hypervisor's internal register
/// identifier. Succeeds exactly on the fixed supported catalogue; any other
/// index is unsupported.
#[verifier::rlimit(50)]
pub fn msr_to_hv_reg_name(msr: u32) -> (r: Result<HvRegisterName, &'static str>)
    ensures
        match r {
            Ok(name) => spec_msr_lookup(msr) == Some(name),
            Err(_) => spec_msr_lookup(msr) is None,
        },
{
    match msr {
        IA32_MSR_TSC => Ok(HvRegisterName::Tsc),
        IA32_MSR_EFER => Ok(HvRegisterName::Efer),
        IA32_MSR_KERNEL_GS_BASE => Ok(HvRegisterName::KernelGsBase),
        IA32_MSR_APIC_BASE => Ok(HvRegisterName::ApicBase),
        IA32_MSR_PAT => Ok(HvRegisterName::Pat),
        IA32_MSR_SYSENTER_CS => Ok(HvRegisterName::SysenterCs),
        IA32_MSR_SYSENTER_ESP => Ok(HvRegisterName::SysenterEsp),
        IA32_MSR_SYSENTER_EIP => Ok(HvRegisterName::SysenterEip),
        IA32_MSR_STAR => Ok(HvRegisterName::Star),
        IA32_MSR_LSTAR => Ok(HvRegisterName::Lstar),
        IA32_MSR_CSTAR => Ok(HvRegisterName::Cstar),
        IA32_MSR_SFMASK => Ok(HvRegisterName::Sfmask),
        IA32_MSR_MTRR_CAP => Ok(HvRegisterName::MsrMtrrCap),
        IA32_MSR_MTRR_DEF_TYPE => Ok(HvRegisterName::MsrMtrrDefType),
        IA32_MSR_MTRR_PHYSBASE0 => Ok(HvRegisterName::MsrMtrrPhysBase0),
        IA32_MSR_MTRR_PHYSMASK0 => Ok(HvRegisterName::MsrMtrrPhysMask0),
        IA32_MSR_MTRR_PHYSBASE1 => Ok(HvRegisterName::MsrMtrrPhysBase1),
        IA32_MSR_MTRR_PHYSMASK1 => Ok(HvRegisterName::MsrMtrrPhysMask1),
        IA32_MSR_MTRR_PHYSBASE2 => Ok(HvRegisterName::MsrMtrrPhysBase2),
        IA32_MSR_MTRR_PHYSMASK2 => Ok(HvRegisterName::MsrMtrrPhysMask2),
        IA32_MSR_MTRR_PHYSBASE3 => Ok(HvRegisterName::MsrMtrrPhysBase3),
        IA32_MSR_MTRR_PHYSMASK3 => Ok(HvRegisterName::MsrMtrrPhysMask3),
        IA32_MSR_MTRR_PHYSBASE4 => Ok(HvRegisterName::MsrMtrrPhysBase4),
        IA32_MSR_MTRR_PHYSMASK4 => Ok(HvRegisterName::MsrMtrrPhysMask4),
        IA32_MSR_MTRR_PHYSBASE5 => Ok(HvRegisterName::MsrMtrrPhysBase5),
        IA32_MSR_MTRR_PHYSMASK5 => Ok(HvRegisterName::MsrMtrrPhysMask5),
        IA32_MSR_MTRR_PHYSBASE6 => Ok(HvRegisterName::MsrMtrrPhysBase6),
        IA32_MSR_MTRR_PHYSMASK6 => Ok(HvRegisterName::MsrMtrrPhysMask6),
        IA32_MSR_MTRR_PHYSBASE7 => Ok(HvRegisterName::MsrMtrrPhysBase7),
        IA32_MSR_MTRR_PHYSMASK7 => Ok(HvRegisterName::MsrMtrrPhysMask7),
        IA32_MSR_MTRR_FIX64K_00000 => Ok(HvRegisterName::MsrMtrrFix64k00000),
        IA32_MSR_MTRR_FIX16K_80000 => Ok(HvRegisterName::MsrMtrrFix16k80000),
        IA32_MSR_MTRR_FIX16K_A0000 => Ok(HvRegisterName::MsrMtrrFix16kA0000),
        IA32_MSR_MTRR_FIX4K_C0000 => Ok(HvRegisterName::MsrMtrrFix4kC0000),
        IA32_MSR_MTRR_FIX4K_C8000 => Ok(HvRegisterName::MsrMtrrFix4kC8000),
        IA32_MSR_MTRR_FIX4K_D0000 => Ok(HvRegisterName::MsrMtrrFix4kD0000),
        IA32_MSR_MTRR_FIX4K_D8000 => Ok(HvRegisterName::MsrMtrrFix4kD8000),
        IA32_MSR_MTRR_FIX4K_E0000 => Ok(HvRegisterName::MsrMtrrFix4kE0000),
        IA32_MSR_MTRR_FIX4K_E8000 => Ok(HvRegisterName::MsrMtrrFix4kE8000),
        IA32_MSR_MTRR_FIX4K_F0000 => Ok(HvRegisterName::MsrMtrrFix4kF0000),
        IA32_MSR_MTRR_FIX4K_F8000 => Ok(HvRegisterName::MsrMtrrFix4kF8000),
        IA32_MSR_TSC_AUX => Ok(HvRegisterName::TscAux),
        IA32_MSR_BNDCFGS => Ok(HvRegisterName::Bndcfgs),
        IA32_MSR_DEBUG_CTL => Ok(HvRegisterName::DebugCtl),
        IA32_MSR_TSC_ADJUST => Ok(HvRegisterName::TscAdjust),
        IA32_MSR_SPEC_CTRL => Ok(HvRegisterName::SpecCtrl),
        HV_X64_MSR_GUEST_OS_ID => Ok(HvRegisterName::GuestOsId),
        HV_X64_MSR_SINT0 => Ok(HvRegisterName::Sint0),
        HV_X64_MSR_SINT1 => Ok(HvRegisterName::Sint1),
        HV_X64_MSR_SINT2 => Ok(HvRegisterName::Sint2),
        HV_X64_MSR_SINT3 => Ok(HvRegisterName::Sint3),
        HV_X64_MSR_SINT4 => Ok(HvRegisterName::Sint4),
        HV_X64_MSR_SINT5 => Ok(HvRegisterName::Sint5),
        HV_X64_MSR_SINT6 => Ok(HvRegisterName::Sint6),
        HV_X64_MSR_SINT7 => Ok(HvRegisterName::Sint7),
        HV_X64_MSR_SINT8 => Ok(HvRegisterName::Sint8),
        HV_X64_MSR_SINT9 => Ok(HvRegisterName::Sint9),
        HV_X64_MSR_SINT10 => Ok(HvRegisterName::Sint10),
        HV_X64_MSR_SINT11 => Ok(HvRegisterName::Sint11),
        HV_X64_MSR_SINT12 => Ok(HvRegisterName::Sint12),
        HV_X64_MSR_SINT13 => Ok(HvRegisterName::Sint13),
        HV_X64_MSR_SINT14 => Ok(HvRegisterName::Sint14),
        HV_X64_MSR_SINT15 => Ok(HvRegisterName::Sint15),
        IA32_MSR_MISC_ENABLE => Ok(HvRegisterName::MsrIa32MiscEnable),
        HV_X64_MSR_SCONTROL => Ok(HvRegisterName::Scontrol),
        HV_X64_MSR_SIEFP => Ok(HvRegisterName::Siefp),
        HV_X64_MSR_SIMP => Ok(HvRegisterName::Simp),
        HV_X64_MSR_REFERENCE_TSC => Ok(HvRegisterName::ReferenceTsc),
        HV_X64_MSR_EOM => Ok(HvRegisterName::Eom),
        MSR_IA32_REGISTER_U_XSS => Ok(HvRegisterName::UXss),
        MSR_IA32_U_CET => Ok(HvRegisterName::UCet),
        MSR_IA32_S_CET => Ok(HvRegisterName::SCet),
        MSR_IA32_SSP => Ok(HvRegisterName::Ssp),
        MSR_IA32_PL0_SSP => Ok(HvRegisterName::Pl0Ssp),
        MSR_IA32_PL1_SSP => Ok(HvRegisterName::Pl1Ssp),
        MSR_IA32_PL2_SSP => Ok(HvRegisterName::Pl2Ssp),
        MSR_IA32_PL3_SSP => Ok(HvRegisterName::Pl3Ssp),
        MSR_IA32_INTERRUPT_SSP_TABLE_ADDR => Ok(HvRegisterName::InterruptSspTableAddr),
        _ => Err("Not a supported hv_register_name msr"),
    }
}


/// The 42 architectural MSR indices always synchronized, in their fixed order.
pub open spec fn spec_msrs_common() -> Seq<u32> {
    seq![
        IA32_MSR_TSC,
        IA32_MSR_EFER,
        IA32_MSR_KERNEL_GS_BASE,
        IA32_MSR_APIC_BASE,
        IA32_MSR_PAT,
        IA32_MSR_SYSENTER_CS,
        IA32_MSR_SYSENTER_ESP,
        IA32_MSR_SYSENTER_EIP,
        IA32_MSR_STAR,
        IA32_MSR_LSTAR,
        IA32_MSR_CSTAR,
        IA32_MSR_SFMASK,
        IA32_MSR_MTRR_DEF_TYPE,
        IA32_MSR_MTRR_PHYSBASE0,
        IA32_MSR_MTRR_PHYSMASK0,
        IA32_MSR_MTRR_PHYSBASE1,
        IA32_MSR_MTRR_PHYSMASK1,
        IA32_MSR_MTRR_PHYSBASE2,
        IA32_MSR_MTRR_PHYSMASK2,
        IA32_MSR_MTRR_PHYSBASE3,
        IA32_MSR_MTRR_PHYSMASK3,
        IA32_MSR_MTRR_PHYSBASE4,
        IA32_MSR_MTRR_PHYSMASK4,
        IA32_MSR_MTRR_PHYSBASE5,
        IA32_MSR_MTRR_PHYSMASK5,
        IA32_MSR_MTRR_PHYSBASE6,
        IA32_MSR_MTRR_PHYSMASK6,
        IA32_MSR_MTRR_PHYSBASE7,
        IA32_MSR_MTRR_PHYSMASK7,
        IA32_MSR_MTRR_FIX64K_00000,
        IA32_MSR_MTRR_FIX16K_80000,
        IA32_MSR_MTRR_FIX16K_A0000,
        IA32_MSR_MTRR_FIX4K_C0000,
        IA32_MSR_MTRR_FIX4K_C8000,
        IA32_MSR_MTRR_FIX4K_D0000,
        IA32_MSR_MTRR_FIX4K_D8000,
        IA32_MSR_MTRR_FIX4K_E0000,
        IA32_MSR_MTRR_FIX4K_E8000,
        IA32_MSR_MTRR_FIX4K_F0000,
        IA32_MSR_MTRR_FIX4K_F8000,
        IA32_MSR_DEBUG_CTL,
        HV_X64_MSR_EOM,
    ]
}

/// The synthetic-interrupt-controller MSR block, in its fixed order.
pub open spec fn spec_msrs_synic() -> Seq<u32> {
    seq![
        HV_X64_MSR_SINT0,
        HV_X64_MSR_SINT1,
        HV_X64_MSR_SINT2,
        HV_X64_MSR_SINT3,
        HV_X64_MSR_SINT4,
        HV_X64_MSR_SINT5,
        HV_X64_MSR_SINT6,
        HV_X64_MSR_SINT7,
        HV_X64_MSR_SINT8,
        HV_X64_MSR_SINT9,
        HV_X64_MSR_SINT10,
        HV_X64_MSR_SINT11,
        HV_X64_MSR_SINT12,
        HV_X64_MSR_SINT13,
        HV_X64_MSR_SINT14,
        HV_X64_MSR_SINT15,
        HV_X64_MSR_SCONTROL,
        HV_X64_MSR_SIEFP,
        HV_X64_MSR_SIMP,
    ]
}

/// The shadow-stack (CET) MSR block, in its fixed order.
pub open spec fn spec_msrs_cet_ss() -> Seq<u32> {
    seq![
        MSR_IA32_U_CET,
        MSR_IA32_S_CET,
        MSR_IA32_SSP,
        MSR_IA32_PL0_SSP,
        MSR_IA32_PL1_SSP,
        MSR_IA32_PL2_SSP,
        MSR_IA32_PL3_SSP,
        MSR_IA32_INTERRUPT_SSP_TABLE_ADDR,
    ]
}

/// The feature-gated single MSR indices, in their fixed order.
pub open spec fn spec_msrs_other() -> Seq<u32> {
    seq![
        MSR_IA32_REGISTER_U_XSS,
        IA32_MSR_TSC_AUX,
        HV_X64_MSR_REFERENCE_TSC,
        HV_X64_MSR_GUEST_OS_ID,
    ]
}

/// The common MSR set: the 42 architectural MSRs always synchronized.
pub fn msrs_common() -> (v: Vec<u32>)
    ensures
        v@ == spec_msrs_common(),
{
    let mut v: Vec<u32> = Vec::new();
    v.push(IA32_MSR_TSC);
    v.push(IA32_MSR_EFER);
    v.push(IA32_MSR_KERNEL_GS_BASE);
    v.push(IA32_MSR_APIC_BASE);
    v.push(IA32_MSR_PAT);
    v.push(IA32_MSR_SYSENTER_CS);
    v.push(IA32_MSR_SYSENTER_ESP);
    v.push(IA32_MSR_SYSENTER_EIP);
    v.push(IA32_MSR_STAR);
    v.push(IA32_MSR_LSTAR);
    v.push(IA32_MSR_CSTAR);
    v.push(IA32_MSR_SFMASK);
    v.push(IA32_MSR_MTRR_DEF_TYPE);
    v.push(IA32_MSR_MTRR_PHYSBASE0);
    v.push(IA32_MSR_MTRR_PHYSMASK0);
    v.push(IA32_MSR_MTRR_PHYSBASE1);
    v.push(IA32_MSR_MTRR_PHYSMASK1);
    v.push(IA32_MSR_MTRR_PHYSBASE2);
    v.push(IA32_MSR_MTRR_PHYSMASK2);
    v.push(IA32_MSR_MTRR_PHYSBASE3);
    v.push(IA32_MSR_MTRR_PHYSMASK3);
    v.push(IA32_MSR_MTRR_PHYSBASE4);
    v.push(IA32_MSR_MTRR_PHYSMASK4);
    v.push(IA32_MSR_MTRR_PHYSBASE5);
    v.push(IA32_MSR_MTRR_PHYSMASK5);
    v.push(IA32_MSR_MTRR_PHYSBASE6);
    v.push(IA32_MSR_MTRR_PHYSMASK6);
    v.push(IA32_MSR_MTRR_PHYSBASE7);
    v.push(IA32_MSR_MTRR_PHYSMASK7);
    v.push(IA32_MSR_MTRR_FIX64K_00000);
    v.push(IA32_MSR_MTRR_FIX16K_80000);
    v.push(IA32_MSR_MTRR_FIX16K_A0000);
    v.push(IA32_MSR_MTRR_FIX4K_C0000);
    v.push(IA32_MSR_MTRR_FIX4K_C8000);
    v.push(IA32_MSR_MTRR_FIX4K_D0000);
    v.push(IA32_MSR_MTRR_FIX4K_D8000);
    v.push(IA32_MSR_MTRR_FIX4K_E0000);
    v.push(IA32_MSR_MTRR_FIX4K_E8000);
    v.push(IA32_MSR_MTRR_FIX4K_F0000);
    v.push(IA32_MSR_MTRR_FIX4K_F8000);
    v.push(IA32_MSR_DEBUG_CTL);
    v.push(HV_X64_MSR_EOM);
    proof {
        assert(v@ =~= spec_msrs_common());
    }
    v
}

/// The synthetic-interrupt-controller MSR block.
pub fn msrs_synic() -> (v: Vec<u32>)
    ensures
        v@ == spec_msrs_synic(),
{
    let mut v: Vec<u32> = Vec::new();
    v.push(HV_X64_MSR_SINT0);
    v.push(HV_X64_MSR_SINT1);
    v.push(HV_X64_MSR_SINT2);
    v.push(HV_X64_MSR_SINT3);
    v.push(HV_X64_MSR_SINT4);
    v.push(HV_X64_MSR_SINT5);
    v.push(HV_X64_MSR_SINT6);
    v.push(HV_X64_MSR_SINT7);
    v.push(HV_X64_MSR_SINT8);
    v.push(HV_X64_MSR_SINT9);
    v.push(HV_X64_MSR_SINT10);
    v.push(HV_X64_MSR_SINT11);
    v.push(HV_X64_MSR_SINT12);
    v.push(HV_X64_MSR_SINT13);
    v.push(HV_X64_MSR_SINT14);
    v.push(HV_X64_MSR_SINT15);
    v.push(HV_X64_MSR_SCONTROL);
    v.push(HV_X64_MSR_SIEFP);
    v.push(HV_X64_MSR_SIMP);
    proof {
        assert(v@ =~= spec_msrs_synic());
    }
    v
}

/// The shadow-stack (CET) MSR block.
pub fn msrs_cet_ss() -> (v: Vec<u32>)
    ensures
        v@ == spec_msrs_cet_ss(),
{
    let mut v: Vec<u32> = Vec::new();
    v.push(MSR_IA32_U_CET);
    v.push(MSR_IA32_S_CET);
    v.push(MSR_IA32_SSP);
    v.push(MSR_IA32_PL0_SSP);
    v.push(MSR_IA32_PL1_SSP);
    v.push(MSR_IA32_PL2_SSP);
    v.push(MSR_IA32_PL3_SSP);
    v.push(MSR_IA32_INTERRUPT_SSP_TABLE_ADDR);
    proof {
        assert(v@ =~= spec_msrs_cet_ss());
    }
    v
}

/// The feature-gated single MSR indices.
pub fn msrs_other() -> (v: Vec<u32>)
    ensures
        v@ == spec_msrs_other(),
{
    let mut v: Vec<u32> = Vec::new();
    v.push(MSR_IA32_REGISTER_U_XSS);
    v.push(IA32_MSR_TSC_AUX);
    v.push(HV_X64_MSR_REFERENCE_TSC);
    v.push(HV_X64_MSR_GUEST_OS_ID);
    proof {
        assert(v@ =~= spec_msrs_other());
    }
    v
}


/// The negotiated per-feature flags of one virtual processor that gate
/// which MSRs must be synchronized; consumed read-only by the set builder.
#[derive(Debug, Default, Copy, Clone, PartialEq, Eq, Structural)]
pub struct VpFeatures {
    /// Shadow-stack (CET-SS) support.
    pub cet_ss_support: bool,
    /// RDTSCP support.
    pub rdtscp_support: bool,
    /// XSAVE supervisor-state support.
    pub xsave_supervisor_support: bool,
    /// Synthetic-register access support.
    pub access_synic_regs: bool,
    /// Partition-reference-TSC access support.
    pub access_partition_reference_tsc: bool,
    /// Hypercall-register access support.
    pub access_hypercall_regs: bool,
}

/// The ordered MSR set for the features `f`: the fixed common base set,
/// followed, in this fixed order, by the conditional blocks the feature
/// flags enable.
pub open spec fn spec_msr_set(f: VpFeatures) -> Seq<u32> {
    spec_msrs_common() + (if f.cet_ss_support {
        spec_msrs_cet_ss()
    } else {
        Seq::empty()
    }) + (if f.rdtscp_support {
        seq![IA32_MSR_TSC_AUX]
    } else {
        Seq::empty()
    }) + (if f.xsave_supervisor_support {
        seq![MSR_IA32_REGISTER_U_XSS]
    } else {
        Seq::empty()
    }) + (if f.access_synic_regs {
        spec_msrs_synic()
    } else {
        Seq::empty()
    }) + (if f.access_partition_reference_tsc {
        seq![HV_X64_MSR_REFERENCE_TSC]
    } else {
        Seq::empty()
    }) + (if f.access_hypercall_regs {
        seq![HV_X64_MSR_GUEST_OS_ID]
    } else {
        Seq::empty()
    })
}

/// Returns the ordered list of MSR indices a virtual processor with the
/// given features must synchronize: the common base set, then each
/// feature-gated block in its fixed order. The order is deterministic: it
/// is a function of the feature flags alone.
pub fn get_partition_supported_msrs(features: &VpFeatures) -> (msrs: Vec<u32>)
    ensures
        msrs@ == spec_msr_set(*features),
{
    let mut msrs: Vec<u32> = msrs_common();

    if features.cet_ss_support {
        let mut block = msrs_cet_ss();
        msrs.append(&mut block);
    }
    if features.rdtscp_support {
        msrs.push(IA32_MSR_TSC_AUX);
    }
    if features.xsave_supervisor_support {
        msrs.push(MSR_IA32_REGISTER_U_XSS);
    }
    if features.access_synic_regs {
        let mut block = msrs_synic();
        msrs.append(&mut block);
    }
    if features.access_partition_reference_tsc {
        msrs.push(HV_X64_MSR_REFERENCE_TSC);
    }
    if features.access_hypercall_regs {
        msrs.push(HV_X64_MSR_GUEST_OS_ID);
    }

    proof {
        assert(msrs@ =~= spec_msr_set(*features));
    }
    msrs
}

/// Determinism: the computed MSR set is a function of the feature flags
/// alone, so two calls with identical features yield identical ordered
/// lists.
pub proof fn lemma_msr_set_deterministic(f1: VpFeatures, f2: VpFeatures)
    requires
        f1 == f2,
    ensures
        spec_msr_set(f1) == spec_msr_set(f2),
{
}

/// The common base set is a stable prefix: for every feature combination
/// the first 42 entries are exactly the common set, and enabling
/// shadow-stack support appends the 8 CET MSR indices directly after them,
/// never reordering the common block.
#[verifier::rlimit(100)]
pub proof fn lemma_msr_set_common_prefix(f: VpFeatures)
    ensures
        spec_msr_set(f).len() >= 42,
        spec_msr_set(f).subrange(0, 42) =~= spec_msrs_common(),
        f.cet_ss_support ==> spec_msr_set(f).len() >= 50 && spec_msr_set(f).subrange(42, 50)
            =~= spec_msrs_cet_ss(),
{
    let c = spec_msrs_common();
    let s = spec_msr_set(f);
    assert(c.len() == 42);
    assert forall|i: int| 0 <= i < 42 implies s[i] == c[i] by {}
    assert(s.subrange(0, 42) =~= c);
    if f.cet_ss_support {
        let cs = spec_msrs_cet_ss();
        assert(cs.len() == 8);
        assert forall|i: int| 42 <= i < 50 implies s[i] == cs[i - 42] by {}
        assert(s.subrange(42, 50) =~= cs);
    }
}

} // verus!
