//! Plain virtual-processor register state structs: general-purpose,
//! special, debug, floating-point, and event state, plus the MSR and cpuid
//! transfer records exchanged with the hypervisor interface.

use crate::segment::{SegmentRegister, TableRegister};
use vstd::prelude::*;

verus! {

/// The general-purpose register file of one virtual processor.
#[derive(Debug, Default, Copy, Clone, PartialEq, Eq, Structural)]
pub struct StandardRegisters {
    pub rax: u64,
    pub rbx: u64,
    pub rcx: u64,
    pub rdx: u64,
    pub rsi: u64,
    pub rdi: u64,
    pub rsp: u64,
    pub rbp: u64,
    pub r8: u64,
    pub r9: u64,
    pub r10: u64,
    pub r11: u64,
    pub r12: u64,
    pub r13: u64,
    pub r14: u64,
    pub r15: u64,
    pub rip: u64,
    pub rflags: u64,
}

/// Segment, table, control and extended registers, plus the interrupt
/// bitmap, of one virtual processor.
#[derive(Debug, Default, Copy, Clone, PartialEq)]
pub struct SpecialRegisters {
    pub cs: SegmentRegister,
    pub ds: SegmentRegister,
    pub es: SegmentRegister,
    pub fs: SegmentRegister,
    pub gs: SegmentRegister,
    pub ss: SegmentRegister,
    pub tr: SegmentRegister,
    pub ldt: SegmentRegister,
    pub gdt: TableRegister,
    pub idt: TableRegister,
    pub cr0: u64,
    pub cr2: u64,
    pub cr3: u64,
    pub cr4: u64,
    pub cr8: u64,
    pub efer: u64,
    pub apic_base: u64,
    pub interrupt_bitmap: [u64; 4],
}

/// The debug register file of one virtual processor.
#[derive(Debug, Default, Copy, Clone, PartialEq, Eq, Structural)]
pub struct DebugRegisters {
    pub dr0: u64,
    pub dr1: u64,
    pub dr2: u64,
    pub dr3: u64,
    pub dr6: u64,
    pub dr7: u64,
}

/// The legacy floating-point unit state of one virtual processor.
#[derive(Debug, Default, Copy, Clone, PartialEq)]
pub struct FloatingPointUnit {
    pub fpr: [[u8; 16]; 8],
    pub fcw: u16,
    pub fsw: u16,
    pub ftwx: u8,
    pub pad1: u8,
    pub last_opcode: u16,
    pub last_ip: u64,
    pub last_dp: u64,
    pub xmm: [[u8; 16]; 16],
    pub mxcsr: u32,
    pub pad2: u32,
}

/// One MSR as transferred to or from the hypervisor: its numeric index and
/// its value.
#[derive(Debug, Default, Copy, Clone, PartialEq, Eq, Structural)]
pub struct msr_entry {
    pub index: u32,
    pub reserved: u32,
    pub data: u64,
}

/// A counted list of MSR entries for one get/set operation.
#[derive(Debug, Default, Clone, PartialEq)]
pub struct msrs {
    pub nmsrs: u32,
    pub pad: u32,
    pub entries: Vec<msr_entry>,
}

impl msrs {
    /// The count field matches the number of entries.
    pub open spec fn wf(&self) -> bool {
        self.nmsrs == self.entries@.len()
    }
}

/// A counted list of MSR indices.
#[derive(Debug, Default, Clone, PartialEq)]
pub struct msr_list {
    pub nmsrs: u32,
    pub indices: Vec<u32>,
}

impl msr_list {
    /// The count field matches the number of indices.
    pub open spec fn wf(&self) -> bool {
        self.nmsrs == self.indices@.len()
    }
}

/// Pending interruption and activity state of one virtual processor.
#[derive(Debug, Default, Copy, Clone, PartialEq)]
pub struct VcpuEvents {
    pub pending_interruption: u64,
    pub interrupt_state: u64,
    pub internal_activity_state: u64,
    pub pending_event0: [u8; 16],
    pub pending_event1: [u8; 16],
}

/// The extended control registers of one virtual processor.
#[derive(Debug, Default, Copy, Clone, PartialEq, Eq, Structural)]
pub struct Xcrs {
    pub xcr0: u64,
}

/// One cpuid leaf: the queried function/index and the returned registers.
#[derive(Debug, Default, Copy, Clone, PartialEq)]
pub struct hv_cpuid_entry {
    pub function: u32,
    pub index: u32,
    pub flags: u32,
    pub eax: u32,
    pub ebx: u32,
    pub ecx: u32,
    pub edx: u32,
    pub padding: [u32; 3],
}

/// A counted list of cpuid leaves.
#[derive(Debug, Default, Clone, PartialEq)]
pub struct hv_cpuid {
    pub nent: u32,
    pub padding: u32,
    pub entries: Vec<hv_cpuid_entry>,
}

impl hv_cpuid {
    /// The count field matches the number of entries.
    pub open spec fn wf(&self) -> bool {
        self.nent == self.entries@.len()
    }
}

/// Registers describing a suspended virtual processor.
#[derive(Debug, Default, Copy, Clone, PartialEq, Eq, Structural)]
pub struct SuspendRegisters {
    pub explicit_register: u64,
    pub intercept_register: u64,
}

/// Miscellaneous synthetic registers of one virtual processor.
#[derive(Debug, Default, Copy, Clone, PartialEq, Eq, Structural)]
pub struct MiscRegs {
    pub hypercall: u64,
    pub int_vec: u64,
}

} // verus!
