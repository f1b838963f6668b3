//! Local interrupt controller (LAPIC) state codec: bidirectional conversion
//! between the hypervisor's compact interrupt-controller record and a
//! 1024-byte register-file buffer addressed by documented MMIO-style
//! offsets, including derivation of the processor-priority register from the
//! in-service vector.

use crate::buffer::{read_u32, u32_le_at, write_u32, zeroed_bytes, Buffer};
use crate::{RegsError, HV_HYP_PAGE_SHIFT, HV_PAGE_SIZE};
use vstd::prelude::*;
use vstd::std_specs::bits::{axiom_u32_leading_zeros, u32_leading_zeros};

verus! {

/// Size in bytes of the LAPIC register-file buffer.
pub const LAPIC_STATE_SIZE: usize = 1024;

pub const LOCAL_APIC_OFFSET_APIC_ID: usize = 0x20;  // APIC ID Register.
pub const LOCAL_APIC_OFFSET_VERSION: usize = 0x30;  // APIC Version Register.
pub const LOCAL_APIC_OFFSET_TPR: usize = 0x80;  // Task Priority Register.
pub const LOCAL_APIC_OFFSET_APR: usize = 0x90;  // Arbitration Priority Register.
pub const LOCAL_APIC_OFFSET_PPR: usize = 0xA0;  // Processor Priority Register.
pub const LOCAL_APIC_OFFSET_EOI: usize = 0xB0;  // End Of Interrupt Register.
pub const LOCAL_APIC_OFFSET_REMOTE_READ: usize = 0xC0;  // Remote Read Register.
pub const LOCAL_APIC_OFFSET_LDR: usize = 0xD0;  // Logical Destination Register.
pub const LOCAL_APIC_OFFSET_DFR: usize = 0xE0;  // Destination Format Register.
pub const LOCAL_APIC_OFFSET_SPURIOUS: usize = 0xF0;  // Spurious Interrupt Vector.
pub const LOCAL_APIC_OFFSET_ISR: usize = 0x100;  // In-Service Register.
pub const LOCAL_APIC_OFFSET_TMR: usize = 0x180;  // Trigger Mode Register.
pub const LOCAL_APIC_OFFSET_IRR: usize = 0x200;  // Interrupt Request Register.
pub const LOCAL_APIC_OFFSET_ERROR: usize = 0x280;  // Error Status Register.
pub const LOCAL_APIC_OFFSET_ICR_LOW: usize = 0x300;  // ICR Low.
pub const LOCAL_APIC_OFFSET_ICR_HIGH: usize = 0x310;  // ICR High.
pub const LOCAL_APIC_OFFSET_TIMER_LVT: usize = 0x320;  // LVT Timer Register.
pub const LOCAL_APIC_OFFSET_THERMAL_LVT: usize = 0x330;  // LVT Thermal Register.
pub const LOCAL_APIC_OFFSET_PERFMON_LVT: usize = 0x340;  // LVT Performance Monitor Register.
pub const LOCAL_APIC_OFFSET_LINT0_LVT: usize = 0x350;  // LVT Local Int0 Register.
pub const LOCAL_APIC_OFFSET_LINT1_LVT: usize = 0x360;  // LVT Local Int1 Register.
pub const LOCAL_APIC_OFFSET_ERROR_LVT: usize = 0x370;  // LVT Error Register.
pub const LOCAL_APIC_OFFSET_INITIAL_COUNT: usize = 0x380;  // Initial count Register.
pub const LOCAL_APIC_OFFSET_CURRENT_COUNT: usize = 0x390;  // R/O Current count Register.
pub const LOCAL_APIC_OFFSET_DIVIDER: usize = 0x3E0;  // Divide configuration Register.
pub const LOCAL_X2APIC_OFFSET_SELF_IPI: usize = 0x3F0;  // Self IPI register, only present in x2APIC.

/// Size in bytes of the hypervisor's interrupt-controller record: forty-four
/// 32-bit fields laid out contiguously.
pub const HV_LAPIC_RECORD_SIZE: usize = 176;

// Byte offsets of the fields of the hypervisor's interrupt-controller
// record.
pub const HV_LAPIC_REC_APIC_ID: usize = 0;
pub const HV_LAPIC_REC_VERSION: usize = 4;
pub const HV_LAPIC_REC_LDR: usize = 8;
pub const HV_LAPIC_REC_DFR: usize = 12;
pub const HV_LAPIC_REC_SPURIOUS: usize = 16;
pub const HV_LAPIC_REC_ISR: usize = 20;  // eight 32-bit words
pub const HV_LAPIC_REC_TMR: usize = 52;  // eight 32-bit words
pub const HV_LAPIC_REC_IRR: usize = 84;  // eight 32-bit words
pub const HV_LAPIC_REC_ESR: usize = 116;
pub const HV_LAPIC_REC_ICR_HIGH: usize = 120;
pub const HV_LAPIC_REC_ICR_LOW: usize = 124;
pub const HV_LAPIC_REC_LVT_TIMER: usize = 128;
pub const HV_LAPIC_REC_LVT_THERMAL: usize = 132;
pub const HV_LAPIC_REC_LVT_PERFMON: usize = 136;
pub const HV_LAPIC_REC_LVT_LINT0: usize = 140;
pub const HV_LAPIC_REC_LVT_LINT1: usize = 144;
pub const HV_LAPIC_REC_LVT_ERROR: usize = 148;
pub const HV_LAPIC_REC_LVT_CMCI: usize = 152;
pub const HV_LAPIC_REC_ERROR_STATUS: usize = 156;
pub const HV_LAPIC_REC_INITIAL_COUNT: usize = 160;
pub const HV_LAPIC_REC_COUNTER_VALUE: usize = 164;
pub const HV_LAPIC_REC_DIVIDE_CONF: usize = 168;
pub const HV_LAPIC_REC_REMOTE_READ: usize = 172;

/// Fixed 1024-byte register-file buffer for LAPIC state, addressed by the
/// `LOCAL_APIC_OFFSET_*` register offsets.
#[derive(Debug, Clone, PartialEq)]
pub struct LapicState {
    /// The register-file bytes.
    pub regs: Vec<u8>,
}

impl LapicState {
    /// The register file has its fixed size.
    pub open spec fn wf(&self) -> bool {
        self.regs@.len() == LAPIC_STATE_SIZE
    }
}

impl core::default::Default for LapicState {
    /// An all-zero register file.
    fn default() -> (d: LapicState)
        ensures
            d.wf(),
            forall|i: int| 0 <= i < LAPIC_STATE_SIZE ==> d.regs@[i] == 0,
    {
        LapicState { regs: zeroed_bytes(LAPIC_STATE_SIZE) }
    }
}

/// The `i`-th in-service (ISR) word of the hypervisor record `src`.
pub open spec fn spec_isr_word(src: Seq<u8>, i: int) -> u32 {
    u32_le_at(src, HV_LAPIC_REC_ISR + 4 * i)
}

/// The processor priority derived from the eight in-service words: scanning
/// from the highest word down, the first nonzero word `w` at index `i`
/// yields `i*32` plus the index of the most significant set bit of `w`;
/// all-zero words yield zero. The task-priority contribution is not
/// included: this layer derives the value from the in-service vector alone.
pub open spec fn spec_ppr_from_words(
    w0: u32,
    w1: u32,
    w2: u32,
    w3: u32,
    w4: u32,
    w5: u32,
    w6: u32,
    w7: u32,
) -> u32 {
    if w7 != 0 {
        (7 * 32 + (31 - u32_leading_zeros(w7))) as u32
    } else if w6 != 0 {
        (6 * 32 + (31 - u32_leading_zeros(w6))) as u32
    } else if w5 != 0 {
        (5 * 32 + (31 - u32_leading_zeros(w5))) as u32
    } else if w4 != 0 {
        (4 * 32 + (31 - u32_leading_zeros(w4))) as u32
    } else if w3 != 0 {
        (3 * 32 + (31 - u32_leading_zeros(w3))) as u32
    } else if w2 != 0 {
        (2 * 32 + (31 - u32_leading_zeros(w2))) as u32
    } else if w1 != 0 {
        (1 * 32 + (31 - u32_leading_zeros(w1))) as u32
    } else if w0 != 0 {
        (31 - u32_leading_zeros(w0)) as u32
    } else {
        0
    }
}

/// The processor priority derived from the in-service vector of the
/// hypervisor record `src`.
pub open spec fn spec_ppr_of(src: Seq<u8>) -> u32 {
    spec_ppr_from_words(
        spec_isr_word(src, 0),
        spec_isr_word(src, 1),
        spec_isr_word(src, 2),
        spec_isr_word(src, 3),
        spec_isr_word(src, 4),
        spec_isr_word(src, 5),
        spec_isr_word(src, 6),
        spec_isr_word(src, 7),
    )
}

/// Derives the processor priority from the eight in-service words. The
/// highest nonzero word wins, then the highest set bit within it; the
/// result is that bit's index plus 32 times the word's index.
pub fn derive_ppr(
    w0: u32,
    w1: u32,
    w2: u32,
    w3: u32,
    w4: u32,
    w5: u32,
    w6: u32,
    w7: u32,
) -> (r: u32)
    ensures
        r == spec_ppr_from_words(w0, w1, w2, w3, w4, w5, w6, w7),
{
    if w7 != 0 {
        proof {
            axiom_u32_leading_zeros(w7);
        }
        7 * 32 + (31 - w7.leading_zeros())
    } else if w6 != 0 {
        proof {
            axiom_u32_leading_zeros(w6);
        }
        6 * 32 + (31 - w6.leading_zeros())
    } else if w5 != 0 {
        proof {
            axiom_u32_leading_zeros(w5);
        }
        5 * 32 + (31 - w5.leading_zeros())
    } else if w4 != 0 {
        proof {
            axiom_u32_leading_zeros(w4);
        }
        4 * 32 + (31 - w4.leading_zeros())
    } else if w3 != 0 {
        proof {
            axiom_u32_leading_zeros(w3);
        }
        3 * 32 + (31 - w3.leading_zeros())
    } else if w2 != 0 {
        proof {
            axiom_u32_leading_zeros(w2);
        }
        2 * 32 + (31 - w2.leading_zeros())
    } else if w1 != 0 {
        proof {
            axiom_u32_leading_zeros(w1);
        }
        1 * 32 + (31 - w1.leading_zeros())
    } else if w0 != 0 {
        proof {
            axiom_u32_leading_zeros(w0);
        }
        31 - w0.leading_zeros()
    } else {
        0
    }
}

/// A byte offset of the register file that some decoded 32-bit register
/// lands on.
pub open spec fn lapic_reg_mapped(j: int) -> bool {
    ||| 0x20 <= j < 0x24  // APIC ID
    ||| 0x30 <= j < 0x34  // version
    ||| 0xA0 <= j < 0xA4  // PPR
    ||| 0xC0 <= j < 0xC4  // remote read
    ||| 0xD0 <= j < 0xD4  // LDR
    ||| 0xE0 <= j < 0xE4  // DFR
    ||| 0xF0 <= j < 0xF4  // spurious
    ||| (0x100 <= j < 0x280 && j % 16 < 4)  // ISR, TMR, IRR words
    ||| 0x280 <= j < 0x284  // error status
    ||| (0x300 <= j < 0x380 && j % 16 < 4)  // ICR low/high and the five LVTs plus error LVT
    ||| 0x380 <= j < 0x384  // initial count
    ||| 0x390 <= j < 0x394  // current count
    ||| 0x3E0 <= j < 0x3E4  // divider
}

/// The register file `regs` is the decoded form of the hypervisor record
/// `src`: every managed 32-bit field sits at its documented register
/// offset, the processor priority is derived from the in-service vector,
/// and every unmapped byte is zero.
pub open spec fn lapic_regs_decode_ok(src: Seq<u8>, regs: Seq<u8>) -> bool {
    &&& regs.len() == LAPIC_STATE_SIZE
    &&& u32_le_at(regs, LOCAL_APIC_OFFSET_APIC_ID as int) == u32_le_at(
        src,
        HV_LAPIC_REC_APIC_ID as int,
    )
    &&& u32_le_at(regs, LOCAL_APIC_OFFSET_VERSION as int) == u32_le_at(
        src,
        HV_LAPIC_REC_VERSION as int,
    )
    &&& u32_le_at(regs, LOCAL_APIC_OFFSET_REMOTE_READ as int) == u32_le_at(
        src,
        HV_LAPIC_REC_REMOTE_READ as int,
    )
    &&& u32_le_at(regs, LOCAL_APIC_OFFSET_LDR as int) == u32_le_at(src, HV_LAPIC_REC_LDR as int)
    &&& u32_le_at(regs, LOCAL_APIC_OFFSET_DFR as int) == u32_le_at(src, HV_LAPIC_REC_DFR as int)
    &&& u32_le_at(regs, LOCAL_APIC_OFFSET_SPURIOUS as int) == u32_le_at(
        src,
        HV_LAPIC_REC_SPURIOUS as int,
    )
    &&& u32_le_at(regs, LOCAL_APIC_OFFSET_ERROR as int) == u32_le_at(src, HV_LAPIC_REC_ESR as int)
    &&& u32_le_at(regs, LOCAL_APIC_OFFSET_ICR_LOW as int) == u32_le_at(
        src,
        HV_LAPIC_REC_ICR_LOW as int,
    )
    &&& u32_le_at(regs, LOCAL_APIC_OFFSET_ICR_HIGH as int) == u32_le_at(
        src,
        HV_LAPIC_REC_ICR_HIGH as int,
    )
    &&& u32_le_at(regs, LOCAL_APIC_OFFSET_TIMER_LVT as int) == u32_le_at(
        src,
        HV_LAPIC_REC_LVT_TIMER as int,
    )
    &&& u32_le_at(regs, LOCAL_APIC_OFFSET_THERMAL_LVT as int) == u32_le_at(
        src,
        HV_LAPIC_REC_LVT_THERMAL as int,
    )
    &&& u32_le_at(regs, LOCAL_APIC_OFFSET_PERFMON_LVT as int) == u32_le_at(
        src,
        HV_LAPIC_REC_LVT_PERFMON as int,
    )
    &&& u32_le_at(regs, LOCAL_APIC_OFFSET_LINT0_LVT as int) == u32_le_at(
        src,
        HV_LAPIC_REC_LVT_LINT0 as int,
    )
    &&& u32_le_at(regs, LOCAL_APIC_OFFSET_LINT1_LVT as int) == u32_le_at(
        src,
        HV_LAPIC_REC_LVT_LINT1 as int,
    )
    &&& u32_le_at(regs, LOCAL_APIC_OFFSET_ERROR_LVT as int) == u32_le_at(
        src,
        HV_LAPIC_REC_LVT_ERROR as int,
    )
    &&& u32_le_at(regs, LOCAL_APIC_OFFSET_INITIAL_COUNT as int) == u32_le_at(
        src,
        HV_LAPIC_REC_INITIAL_COUNT as int,
    )
    &&& u32_le_at(regs, LOCAL_APIC_OFFSET_CURRENT_COUNT as int) == u32_le_at(
        src,
        HV_LAPIC_REC_COUNTER_VALUE as int,
    )
    &&& u32_le_at(regs, LOCAL_APIC_OFFSET_DIVIDER as int) == u32_le_at(
        src,
        HV_LAPIC_REC_DIVIDE_CONF as int,
    )
    &&& u32_le_at(regs, 0x100) == spec_isr_word(src, 0)
    &&& u32_le_at(regs, 0x110) == spec_isr_word(src, 1)
    &&& u32_le_at(regs, 0x120) == spec_isr_word(src, 2)
    &&& u32_le_at(regs, 0x130) == spec_isr_word(src, 3)
    &&& u32_le_at(regs, 0x140) == spec_isr_word(src, 4)
    &&& u32_le_at(regs, 0x150) == spec_isr_word(src, 5)
    &&& u32_le_at(regs, 0x160) == spec_isr_word(src, 6)
    &&& u32_le_at(regs, 0x170) == spec_isr_word(src, 7)
    &&& u32_le_at(regs, 0x180) == u32_le_at(src, HV_LAPIC_REC_TMR + 0)
    &&& u32_le_at(regs, 0x190) == u32_le_at(src, HV_LAPIC_REC_TMR + 4)
    &&& u32_le_at(regs, 0x1A0) == u32_le_at(src, HV_LAPIC_REC_TMR + 8)
    &&& u32_le_at(regs, 0x1B0) == u32_le_at(src, HV_LAPIC_REC_TMR + 12)
    &&& u32_le_at(regs, 0x1C0) == u32_le_at(src, HV_LAPIC_REC_TMR + 16)
    &&& u32_le_at(regs, 0x1D0) == u32_le_at(src, HV_LAPIC_REC_TMR + 20)
    &&& u32_le_at(regs, 0x1E0) == u32_le_at(src, HV_LAPIC_REC_TMR + 24)
    &&& u32_le_at(regs, 0x1F0) == u32_le_at(src, HV_LAPIC_REC_TMR + 28)
    &&& u32_le_at(regs, 0x200) == u32_le_at(src, HV_LAPIC_REC_IRR + 0)
    &&& u32_le_at(regs, 0x210) == u32_le_at(src, HV_LAPIC_REC_IRR + 4)
    &&& u32_le_at(regs, 0x220) == u32_le_at(src, HV_LAPIC_REC_IRR + 8)
    &&& u32_le_at(regs, 0x230) == u32_le_at(src, HV_LAPIC_REC_IRR + 12)
    &&& u32_le_at(regs, 0x240) == u32_le_at(src, HV_LAPIC_REC_IRR + 16)
    &&& u32_le_at(regs, 0x250) == u32_le_at(src, HV_LAPIC_REC_IRR + 20)
    &&& u32_le_at(regs, 0x260) == u32_le_at(src, HV_LAPIC_REC_IRR + 24)
    &&& u32_le_at(regs, 0x270) == u32_le_at(src, HV_LAPIC_REC_IRR + 28)
    &&& u32_le_at(regs, LOCAL_APIC_OFFSET_PPR as int) == spec_ppr_of(src)
    &&& forall|j: int| 0 <= j < LAPIC_STATE_SIZE && !lapic_reg_mapped(j) ==> regs[j] == 0
}

/// The page-sized buffer `out` is the encoded form of the register file
/// `regs`: every managed field of the hypervisor record is filled from its
/// documented register offset, the record fields this layer does not manage
/// (error status, corrected-machine-check LVT) are zero, and every byte
/// beyond the record is zero.
pub open spec fn lapic_record_encode_ok(regs: Seq<u8>, out: Seq<u8>) -> bool {
    &&& out.len() == HV_PAGE_SIZE
    &&& u32_le_at(out, HV_LAPIC_REC_APIC_ID as int) == u32_le_at(
        regs,
        LOCAL_APIC_OFFSET_APIC_ID as int,
    )
    &&& u32_le_at(out, HV_LAPIC_REC_VERSION as int) == u32_le_at(
        regs,
        LOCAL_APIC_OFFSET_VERSION as int,
    )
    &&& u32_le_at(out, HV_LAPIC_REC_LDR as int) == u32_le_at(regs, LOCAL_APIC_OFFSET_LDR as int)
    &&& u32_le_at(out, HV_LAPIC_REC_DFR as int) == u32_le_at(regs, LOCAL_APIC_OFFSET_DFR as int)
    &&& u32_le_at(out, HV_LAPIC_REC_SPURIOUS as int) == u32_le_at(
        regs,
        LOCAL_APIC_OFFSET_SPURIOUS as int,
    )
    &&& u32_le_at(out, HV_LAPIC_REC_ISR + 0) == u32_le_at(regs, 0x100)
    &&& u32_le_at(out, HV_LAPIC_REC_ISR + 4) == u32_le_at(regs, 0x110)
    &&& u32_le_at(out, HV_LAPIC_REC_ISR + 8) == u32_le_at(regs, 0x120)
    &&& u32_le_at(out, HV_LAPIC_REC_ISR + 12) == u32_le_at(regs, 0x130)
    &&& u32_le_at(out, HV_LAPIC_REC_ISR + 16) == u32_le_at(regs, 0x140)
    &&& u32_le_at(out, HV_LAPIC_REC_ISR + 20) == u32_le_at(regs, 0x150)
    &&& u32_le_at(out, HV_LAPIC_REC_ISR + 24) == u32_le_at(regs, 0x160)
    &&& u32_le_at(out, HV_LAPIC_REC_ISR + 28) == u32_le_at(regs, 0x170)
    &&& u32_le_at(out, HV_LAPIC_REC_TMR + 0) == u32_le_at(regs, 0x180)
    &&& u32_le_at(out, HV_LAPIC_REC_TMR + 4) == u32_le_at(regs, 0x190)
    &&& u32_le_at(out, HV_LAPIC_REC_TMR + 8) == u32_le_at(regs, 0x1A0)
    &&& u32_le_at(out, HV_LAPIC_REC_TMR + 12) == u32_le_at(regs, 0x1B0)
    &&& u32_le_at(out, HV_LAPIC_REC_TMR + 16) == u32_le_at(regs, 0x1C0)
    &&& u32_le_at(out, HV_LAPIC_REC_TMR + 20) == u32_le_at(regs, 0x1D0)
    &&& u32_le_at(out, HV_LAPIC_REC_TMR + 24) == u32_le_at(regs, 0x1E0)
    &&& u32_le_at(out, HV_LAPIC_REC_TMR + 28) == u32_le_at(regs, 0x1F0)
    &&& u32_le_at(out, HV_LAPIC_REC_IRR + 0) == u32_le_at(regs, 0x200)
    &&& u32_le_at(out, HV_LAPIC_REC_IRR + 4) == u32_le_at(regs, 0x210)
    &&& u32_le_at(out, HV_LAPIC_REC_IRR + 8) == u32_le_at(regs, 0x220)
    &&& u32_le_at(out, HV_LAPIC_REC_IRR + 12) == u32_le_at(regs, 0x230)
    &&& u32_le_at(out, HV_LAPIC_REC_IRR + 16) == u32_le_at(regs, 0x240)
    &&& u32_le_at(out, HV_LAPIC_REC_IRR + 20) == u32_le_at(regs, 0x250)
    &&& u32_le_at(out, HV_LAPIC_REC_IRR + 24) == u32_le_at(regs, 0x260)
    &&& u32_le_at(out, HV_LAPIC_REC_IRR + 28) == u32_le_at(regs, 0x270)
    &&& u32_le_at(out, HV_LAPIC_REC_ESR as int) == u32_le_at(regs, LOCAL_APIC_OFFSET_ERROR as int)
    &&& u32_le_at(out, HV_LAPIC_REC_ICR_HIGH as int) == u32_le_at(
        regs,
        LOCAL_APIC_OFFSET_ICR_HIGH as int,
    )
    &&& u32_le_at(out, HV_LAPIC_REC_ICR_LOW as int) == u32_le_at(
        regs,
        LOCAL_APIC_OFFSET_ICR_LOW as int,
    )
    &&& u32_le_at(out, HV_LAPIC_REC_LVT_TIMER as int) == u32_le_at(
        regs,
        LOCAL_APIC_OFFSET_TIMER_LVT as int,
    )
    &&& u32_le_at(out, HV_LAPIC_REC_LVT_THERMAL as int) == u32_le_at(
        regs,
        LOCAL_APIC_OFFSET_THERMAL_LVT as int,
    )
    &&& u32_le_at(out, HV_LAPIC_REC_LVT_PERFMON as int) == u32_le_at(
        regs,
        LOCAL_APIC_OFFSET_PERFMON_LVT as int,
    )
    &&& u32_le_at(out, HV_LAPIC_REC_LVT_LINT0 as int) == u32_le_at(
        regs,
        LOCAL_APIC_OFFSET_LINT0_LVT as int,
    )
    &&& u32_le_at(out, HV_LAPIC_REC_LVT_LINT1 as int) == u32_le_at(
        regs,
        LOCAL_APIC_OFFSET_LINT1_LVT as int,
    )
    &&& u32_le_at(out, HV_LAPIC_REC_LVT_ERROR as int) == u32_le_at(
        regs,
        LOCAL_APIC_OFFSET_ERROR_LVT as int,
    )
    &&& u32_le_at(out, HV_LAPIC_REC_LVT_CMCI as int) == 0
    &&& u32_le_at(out, HV_LAPIC_REC_ERROR_STATUS as int) == 0
    &&& u32_le_at(out, HV_LAPIC_REC_INITIAL_COUNT as int) == u32_le_at(
        regs,
        LOCAL_APIC_OFFSET_INITIAL_COUNT as int,
    )
    &&& u32_le_at(out, HV_LAPIC_REC_COUNTER_VALUE as int) == u32_le_at(
        regs,
        LOCAL_APIC_OFFSET_CURRENT_COUNT as int,
    )
    &&& u32_le_at(out, HV_LAPIC_REC_DIVIDE_CONF as int) == u32_le_at(
        regs,
        LOCAL_APIC_OFFSET_DIVIDER as int,
    )
    &&& u32_le_at(out, HV_LAPIC_REC_REMOTE_READ as int) == u32_le_at(
        regs,
        LOCAL_APIC_OFFSET_REMOTE_READ as int,
    )
    &&& forall|j: int| HV_LAPIC_RECORD_SIZE <= j < out.len() ==> out[j] == 0
}

impl LapicState {
    /// Decodes the hypervisor's interrupt-controller record held at the
    /// start of `buf` into a register-file buffer: each managed 32-bit
    /// field is written at its documented offset, the processor priority is
    /// derived from the in-service vector, and every unmapped byte is zero.
    /// Fails exactly when `buf` is smaller than the record.
    #[verifier::rlimit(100)]
    pub fn from_buffer(buf: &Buffer) -> (r: Result<LapicState, RegsError>)
        ensures
            match r {
                Ok(state) => {
                    &&& buf@.len() >= HV_LAPIC_RECORD_SIZE
                    &&& state.wf()
                    &&& lapic_regs_decode_ok(buf@, state.regs@)
                },
                Err(e) => buf@.len() < HV_LAPIC_RECORD_SIZE && e == RegsError::SizeMismatch,
            },
    {
        if buf.size() < HV_LAPIC_RECORD_SIZE {
            return Err(RegsError::SizeMismatch);
        }
        let mut regs = zeroed_bytes(LAPIC_STATE_SIZE);

        write_u32(&mut regs, LOCAL_APIC_OFFSET_APIC_ID, read_u32(&buf.data, HV_LAPIC_REC_APIC_ID));
        write_u32(&mut regs, LOCAL_APIC_OFFSET_VERSION, read_u32(&buf.data, HV_LAPIC_REC_VERSION));
        write_u32(
            &mut regs,
            LOCAL_APIC_OFFSET_REMOTE_READ,
            read_u32(&buf.data, HV_LAPIC_REC_REMOTE_READ),
        );
        write_u32(&mut regs, LOCAL_APIC_OFFSET_LDR, read_u32(&buf.data, HV_LAPIC_REC_LDR));
        write_u32(&mut regs, LOCAL_APIC_OFFSET_DFR, read_u32(&buf.data, HV_LAPIC_REC_DFR));
        write_u32(
            &mut regs,
            LOCAL_APIC_OFFSET_SPURIOUS,
            read_u32(&buf.data, HV_LAPIC_REC_SPURIOUS),
        );
        write_u32(&mut regs, LOCAL_APIC_OFFSET_ERROR, read_u32(&buf.data, HV_LAPIC_REC_ESR));
        write_u32(&mut regs, LOCAL_APIC_OFFSET_ICR_LOW, read_u32(&buf.data, HV_LAPIC_REC_ICR_LOW));
        write_u32(
            &mut regs,
            LOCAL_APIC_OFFSET_ICR_HIGH,
            read_u32(&buf.data, HV_LAPIC_REC_ICR_HIGH),
        );
        write_u32(
            &mut regs,
            LOCAL_APIC_OFFSET_TIMER_LVT,
            read_u32(&buf.data, HV_LAPIC_REC_LVT_TIMER),
        );
        write_u32(
            &mut regs,
            LOCAL_APIC_OFFSET_THERMAL_LVT,
            read_u32(&buf.data, HV_LAPIC_REC_LVT_THERMAL),
        );
        write_u32(
            &mut regs,
            LOCAL_APIC_OFFSET_PERFMON_LVT,
            read_u32(&buf.data, HV_LAPIC_REC_LVT_PERFMON),
        );
        write_u32(
            &mut regs,
            LOCAL_APIC_OFFSET_LINT0_LVT,
            read_u32(&buf.data, HV_LAPIC_REC_LVT_LINT0),
        );
        write_u32(
            &mut regs,
            LOCAL_APIC_OFFSET_LINT1_LVT,
            read_u32(&buf.data, HV_LAPIC_REC_LVT_LINT1),
        );
        write_u32(
            &mut regs,
            LOCAL_APIC_OFFSET_ERROR_LVT,
            read_u32(&buf.data, HV_LAPIC_REC_LVT_ERROR),
        );
        write_u32(
            &mut regs,
            LOCAL_APIC_OFFSET_INITIAL_COUNT,
            read_u32(&buf.data, HV_LAPIC_REC_INITIAL_COUNT),
        );
        write_u32(
            &mut regs,
            LOCAL_APIC_OFFSET_CURRENT_COUNT,
            read_u32(&buf.data, HV_LAPIC_REC_COUNTER_VALUE),
        );
        write_u32(
            &mut regs,
            LOCAL_APIC_OFFSET_DIVIDER,
            read_u32(&buf.data, HV_LAPIC_REC_DIVIDE_CONF),
        );

        // vectors: in-service, trigger-mode, interrupt-request
        let isr0 = read_u32(&buf.data, HV_LAPIC_REC_ISR);
        let isr1 = read_u32(&buf.data, HV_LAPIC_REC_ISR + 4);
        let isr2 = read_u32(&buf.data, HV_LAPIC_REC_ISR + 8);
        let isr3 = read_u32(&buf.data, HV_LAPIC_REC_ISR + 12);
        let isr4 = read_u32(&buf.data, HV_LAPIC_REC_ISR + 16);
        let isr5 = read_u32(&buf.data, HV_LAPIC_REC_ISR + 20);
        let isr6 = read_u32(&buf.data, HV_LAPIC_REC_ISR + 24);
        let isr7 = read_u32(&buf.data, HV_LAPIC_REC_ISR + 28);
        write_u32(&mut regs, LOCAL_APIC_OFFSET_ISR, isr0);
        write_u32(&mut regs, LOCAL_APIC_OFFSET_ISR + 16, isr1);
        write_u32(&mut regs, LOCAL_APIC_OFFSET_ISR + 32, isr2);
        write_u32(&mut regs, LOCAL_APIC_OFFSET_ISR + 48, isr3);
        write_u32(&mut regs, LOCAL_APIC_OFFSET_ISR + 64, isr4);
        write_u32(&mut regs, LOCAL_APIC_OFFSET_ISR + 80, isr5);
        write_u32(&mut regs, LOCAL_APIC_OFFSET_ISR + 96, isr6);
        write_u32(&mut regs, LOCAL_APIC_OFFSET_ISR + 112, isr7);
        write_u32(&mut regs, LOCAL_APIC_OFFSET_TMR, read_u32(&buf.data, HV_LAPIC_REC_TMR));
        write_u32(&mut regs, LOCAL_APIC_OFFSET_TMR + 16, read_u32(&buf.data, HV_LAPIC_REC_TMR + 4));
        write_u32(&mut regs, LOCAL_APIC_OFFSET_TMR + 32, read_u32(&buf.data, HV_LAPIC_REC_TMR + 8));
        write_u32(
            &mut regs,
            LOCAL_APIC_OFFSET_TMR + 48,
            read_u32(&buf.data, HV_LAPIC_REC_TMR + 12),
        );
        write_u32(
            &mut regs,
            LOCAL_APIC_OFFSET_TMR + 64,
            read_u32(&buf.data, HV_LAPIC_REC_TMR + 16),
        );
        write_u32(
            &mut regs,
            LOCAL_APIC_OFFSET_TMR + 80,
            read_u32(&buf.data, HV_LAPIC_REC_TMR + 20),
        );
        write_u32(
            &mut regs,
            LOCAL_APIC_OFFSET_TMR + 96,
            read_u32(&buf.data, HV_LAPIC_REC_TMR + 24),
        );
        write_u32(
            &mut regs,
            LOCAL_APIC_OFFSET_TMR + 112,
            read_u32(&buf.data, HV_LAPIC_REC_TMR + 28),
        );
        write_u32(&mut regs, LOCAL_APIC_OFFSET_IRR, read_u32(&buf.data, HV_LAPIC_REC_IRR));
        write_u32(&mut regs, LOCAL_APIC_OFFSET_IRR + 16, read_u32(&buf.data, HV_LAPIC_REC_IRR + 4));
        write_u32(&mut regs, LOCAL_APIC_OFFSET_IRR + 32, read_u32(&buf.data, HV_LAPIC_REC_IRR + 8));
        write_u32(
            &mut regs,
            LOCAL_APIC_OFFSET_IRR + 48,
            read_u32(&buf.data, HV_LAPIC_REC_IRR + 12),
        );
        write_u32(
            &mut regs,
            LOCAL_APIC_OFFSET_IRR + 64,
            read_u32(&buf.data, HV_LAPIC_REC_IRR + 16),
        );
        write_u32(
            &mut regs,
            LOCAL_APIC_OFFSET_IRR + 80,
            read_u32(&buf.data, HV_LAPIC_REC_IRR + 20),
        );
        write_u32(
            &mut regs,
            LOCAL_APIC_OFFSET_IRR + 96,
            read_u32(&buf.data, HV_LAPIC_REC_IRR + 24),
        );
        write_u32(
            &mut regs,
            LOCAL_APIC_OFFSET_IRR + 112,
            read_u32(&buf.data, HV_LAPIC_REC_IRR + 28),
        );

        // highest in-service interrupt priority; the task-priority register
        // is not populated on this path, so the derived value stands alone
        let isrv = derive_ppr(isr0, isr1, isr2, isr3, isr4, isr5, isr6, isr7);
        write_u32(&mut regs, LOCAL_APIC_OFFSET_PPR, isrv);

        Ok(LapicState { regs })
    }

    /// Encodes the register file into a freshly allocated page-granularity
    /// buffer shaped as the hypervisor's interrupt-controller record: each
    /// managed field is read back from its documented register offset; the
    /// record fields this layer does not manage are zeroed. Fails exactly
    /// when the buffer cannot be allocated.
    #[verifier::rlimit(100)]
    pub fn to_buffer(&self) -> (r: Result<Buffer, RegsError>)
        requires
            self.wf(),
        ensures
            match r {
                Ok(buf) => {
                    &&& buf.align == HV_PAGE_SIZE
                    &&& lapic_record_encode_ok(self.regs@, buf@)
                },
                Err(e) => e == RegsError::AllocationFailure,
            },
    {
        let num_pages = (HV_LAPIC_RECORD_SIZE + HV_PAGE_SIZE - 1) >> HV_HYP_PAGE_SHIFT;
        proof {
            assert((4271usize >> 12) == 1usize) by (bit_vector);
        }
        let mut buffer = match Buffer::new(num_pages * HV_PAGE_SIZE, HV_PAGE_SIZE) {
            Ok(b) => b,
            Err(e) => {
                return Err(e);
            },
        };

        write_u32(
            &mut buffer.data,
            HV_LAPIC_REC_APIC_ID,
            read_u32(&self.regs, LOCAL_APIC_OFFSET_APIC_ID),
        );
        write_u32(
            &mut buffer.data,
            HV_LAPIC_REC_VERSION,
            read_u32(&self.regs, LOCAL_APIC_OFFSET_VERSION),
        );
        write_u32(&mut buffer.data, HV_LAPIC_REC_LDR, read_u32(&self.regs, LOCAL_APIC_OFFSET_LDR));
        write_u32(&mut buffer.data, HV_LAPIC_REC_DFR, read_u32(&self.regs, LOCAL_APIC_OFFSET_DFR));
        write_u32(
            &mut buffer.data,
            HV_LAPIC_REC_SPURIOUS,
            read_u32(&self.regs, LOCAL_APIC_OFFSET_SPURIOUS),
        );
        write_u32(&mut buffer.data, HV_LAPIC_REC_ISR, read_u32(&self.regs, LOCAL_APIC_OFFSET_ISR));
        write_u32(
            &mut buffer.data,
            HV_LAPIC_REC_ISR + 4,
            read_u32(&self.regs, LOCAL_APIC_OFFSET_ISR + 16),
        );
        write_u32(
            &mut buffer.data,
            HV_LAPIC_REC_ISR + 8,
            read_u32(&self.regs, LOCAL_APIC_OFFSET_ISR + 32),
        );
        write_u32(
            &mut buffer.data,
            HV_LAPIC_REC_ISR + 12,
            read_u32(&self.regs, LOCAL_APIC_OFFSET_ISR + 48),
        );
        write_u32(
            &mut buffer.data,
            HV_LAPIC_REC_ISR + 16,
            read_u32(&self.regs, LOCAL_APIC_OFFSET_ISR + 64),
        );
        write_u32(
            &mut buffer.data,
            HV_LAPIC_REC_ISR + 20,
            read_u32(&self.regs, LOCAL_APIC_OFFSET_ISR + 80),
        );
        write_u32(
            &mut buffer.data,
            HV_LAPIC_REC_ISR + 24,
            read_u32(&self.regs, LOCAL_APIC_OFFSET_ISR + 96),
        );
        write_u32(
            &mut buffer.data,
            HV_LAPIC_REC_ISR + 28,
            read_u32(&self.regs, LOCAL_APIC_OFFSET_ISR + 112),
        );
        write_u32(&mut buffer.data, HV_LAPIC_REC_TMR, read_u32(&self.regs, LOCAL_APIC_OFFSET_TMR));
        write_u32(
            &mut buffer.data,
            HV_LAPIC_REC_TMR + 4,
            read_u32(&self.regs, LOCAL_APIC_OFFSET_TMR + 16),
        );
        write_u32(
            &mut buffer.data,
            HV_LAPIC_REC_TMR + 8,
            read_u32(&self.regs, LOCAL_APIC_OFFSET_TMR + 32),
        );
        write_u32(
            &mut buffer.data,
            HV_LAPIC_REC_TMR + 12,
            read_u32(&self.regs, LOCAL_APIC_OFFSET_TMR + 48),
        );
        write_u32(
            &mut buffer.data,
            HV_LAPIC_REC_TMR + 16,
            read_u32(&self.regs, LOCAL_APIC_OFFSET_TMR + 64),
        );
        write_u32(
            &mut buffer.data,
            HV_LAPIC_REC_TMR + 20,
            read_u32(&self.regs, LOCAL_APIC_OFFSET_TMR + 80),
        );
        write_u32(
            &mut buffer.data,
            HV_LAPIC_REC_TMR + 24,
            read_u32(&self.regs, LOCAL_APIC_OFFSET_TMR + 96),
        );
        write_u32(
            &mut buffer.data,
            HV_LAPIC_REC_TMR + 28,
            read_u32(&self.regs, LOCAL_APIC_OFFSET_TMR + 112),
        );
        write_u32(&mut buffer.data, HV_LAPIC_REC_IRR, read_u32(&self.regs, LOCAL_APIC_OFFSET_IRR));
        write_u32(
            &mut buffer.data,
            HV_LAPIC_REC_IRR + 4,
            read_u32(&self.regs, LOCAL_APIC_OFFSET_IRR + 16),
        );
        write_u32(
            &mut buffer.data,
            HV_LAPIC_REC_IRR + 8,
            read_u32(&self.regs, LOCAL_APIC_OFFSET_IRR + 32),
        );
        write_u32(
            &mut buffer.data,
            HV_LAPIC_REC_IRR + 12,
            read_u32(&self.regs, LOCAL_APIC_OFFSET_IRR + 48),
        );
        write_u32(
            &mut buffer.data,
            HV_LAPIC_REC_IRR + 16,
            read_u32(&self.regs, LOCAL_APIC_OFFSET_IRR + 64),
        );
        write_u32(
            &mut buffer.data,
            HV_LAPIC_REC_IRR + 20,
            read_u32(&self.regs, LOCAL_APIC_OFFSET_IRR + 80),
        );
        write_u32(
            &mut buffer.data,
            HV_LAPIC_REC_IRR + 24,
            read_u32(&self.regs, LOCAL_APIC_OFFSET_IRR + 96),
        );
        write_u32(
            &mut buffer.data,
            HV_LAPIC_REC_IRR + 28,
            read_u32(&self.regs, LOCAL_APIC_OFFSET_IRR + 112),
        );
        write_u32(&mut buffer.data, HV_LAPIC_REC_ESR, read_u32(&self.regs, LOCAL_APIC_OFFSET_ERROR));
        write_u32(
            &mut buffer.data,
            HV_LAPIC_REC_ICR_HIGH,
            read_u32(&self.regs, LOCAL_APIC_OFFSET_ICR_HIGH),
        );
        write_u32(
            &mut buffer.data,
            HV_LAPIC_REC_ICR_LOW,
            read_u32(&self.regs, LOCAL_APIC_OFFSET_ICR_LOW),
        );
        write_u32(
            &mut buffer.data,
            HV_LAPIC_REC_LVT_TIMER,
            read_u32(&self.regs, LOCAL_APIC_OFFSET_TIMER_LVT),
        );
        write_u32(
            &mut buffer.data,
            HV_LAPIC_REC_LVT_THERMAL,
            read_u32(&self.regs, LOCAL_APIC_OFFSET_THERMAL_LVT),
        );
        write_u32(
            &mut buffer.data,
            HV_LAPIC_REC_LVT_PERFMON,
            read_u32(&self.regs, LOCAL_APIC_OFFSET_PERFMON_LVT),
        );
        write_u32(
            &mut buffer.data,
            HV_LAPIC_REC_LVT_LINT0,
            read_u32(&self.regs, LOCAL_APIC_OFFSET_LINT0_LVT),
        );
        write_u32(
            &mut buffer.data,
            HV_LAPIC_REC_LVT_LINT1,
            read_u32(&self.regs, LOCAL_APIC_OFFSET_LINT1_LVT),
        );
        write_u32(
            &mut buffer.data,
            HV_LAPIC_REC_LVT_ERROR,
            read_u32(&self.regs, LOCAL_APIC_OFFSET_ERROR_LVT),
        );
        write_u32(&mut buffer.data, HV_LAPIC_REC_LVT_CMCI, 0);
        write_u32(&mut buffer.data, HV_LAPIC_REC_ERROR_STATUS, 0);
        write_u32(
            &mut buffer.data,
            HV_LAPIC_REC_INITIAL_COUNT,
            read_u32(&self.regs, LOCAL_APIC_OFFSET_INITIAL_COUNT),
        );
        write_u32(
            &mut buffer.data,
            HV_LAPIC_REC_COUNTER_VALUE,
            read_u32(&self.regs, LOCAL_APIC_OFFSET_CURRENT_COUNT),
        );
        write_u32(
            &mut buffer.data,
            HV_LAPIC_REC_DIVIDE_CONF,
            read_u32(&self.regs, LOCAL_APIC_OFFSET_DIVIDER),
        );
        write_u32(
            &mut buffer.data,
            HV_LAPIC_REC_REMOTE_READ,
            read_u32(&self.regs, LOCAL_APIC_OFFSET_REMOTE_READ),
        );

        Ok(buffer)
    }
}

/// Codec idempotence: decoding a hypervisor record into a register file and
/// re-encoding that register file reproduces the original record for every
/// field this layer manages; the fields outside its scope (error status,
/// corrected-machine-check LVT) come back zero.
pub proof fn lemma_lapic_codec_round_trip(src: Seq<u8>, regs: Seq<u8>, out: Seq<u8>)
    requires
        src.len() >= HV_LAPIC_RECORD_SIZE,
        lapic_regs_decode_ok(src, regs),
        lapic_record_encode_ok(regs, out),
    ensures
        u32_le_at(out, HV_LAPIC_REC_APIC_ID as int) == u32_le_at(src, HV_LAPIC_REC_APIC_ID as int),
        u32_le_at(out, HV_LAPIC_REC_VERSION as int) == u32_le_at(src, HV_LAPIC_REC_VERSION as int),
        u32_le_at(out, HV_LAPIC_REC_LDR as int) == u32_le_at(src, HV_LAPIC_REC_LDR as int),
        u32_le_at(out, HV_LAPIC_REC_DFR as int) == u32_le_at(src, HV_LAPIC_REC_DFR as int),
        u32_le_at(out, HV_LAPIC_REC_SPURIOUS as int) == u32_le_at(
            src,
            HV_LAPIC_REC_SPURIOUS as int,
        ),
        u32_le_at(out, HV_LAPIC_REC_ISR + 0) == u32_le_at(src, HV_LAPIC_REC_ISR + 0),
        u32_le_at(out, HV_LAPIC_REC_ISR + 4) == u32_le_at(src, HV_LAPIC_REC_ISR + 4),
        u32_le_at(out, HV_LAPIC_REC_ISR + 8) == u32_le_at(src, HV_LAPIC_REC_ISR + 8),
        u32_le_at(out, HV_LAPIC_REC_ISR + 12) == u32_le_at(src, HV_LAPIC_REC_ISR + 12),
        u32_le_at(out, HV_LAPIC_REC_ISR + 16) == u32_le_at(src, HV_LAPIC_REC_ISR + 16),
        u32_le_at(out, HV_LAPIC_REC_ISR + 20) == u32_le_at(src, HV_LAPIC_REC_ISR + 20),
        u32_le_at(out, HV_LAPIC_REC_ISR + 24) == u32_le_at(src, HV_LAPIC_REC_ISR + 24),
        u32_le_at(out, HV_LAPIC_REC_ISR + 28) == u32_le_at(src, HV_LAPIC_REC_ISR + 28),
        u32_le_at(out, HV_LAPIC_REC_TMR + 0) == u32_le_at(src, HV_LAPIC_REC_TMR + 0),
        u32_le_at(out, HV_LAPIC_REC_TMR + 4) == u32_le_at(src, HV_LAPIC_REC_TMR + 4),
        u32_le_at(out, HV_LAPIC_REC_TMR + 8) == u32_le_at(src, HV_LAPIC_REC_TMR + 8),
        u32_le_at(out, HV_LAPIC_REC_TMR + 12) == u32_le_at(src, HV_LAPIC_REC_TMR + 12),
        u32_le_at(out, HV_LAPIC_REC_TMR + 16) == u32_le_at(src, HV_LAPIC_REC_TMR + 16),
        u32_le_at(out, HV_LAPIC_REC_TMR + 20) == u32_le_at(src, HV_LAPIC_REC_TMR + 20),
        u32_le_at(out, HV_LAPIC_REC_TMR + 24) == u32_le_at(src, HV_LAPIC_REC_TMR + 24),
        u32_le_at(out, HV_LAPIC_REC_TMR + 28) == u32_le_at(src, HV_LAPIC_REC_TMR + 28),
        u32_le_at(out, HV_LAPIC_REC_IRR + 0) == u32_le_at(src, HV_LAPIC_REC_IRR + 0),
        u32_le_at(out, HV_LAPIC_REC_IRR + 4) == u32_le_at(src, HV_LAPIC_REC_IRR + 4),
        u32_le_at(out, HV_LAPIC_REC_IRR + 8) == u32_le_at(src, HV_LAPIC_REC_IRR + 8),
        u32_le_at(out, HV_LAPIC_REC_IRR + 12) == u32_le_at(src, HV_LAPIC_REC_IRR + 12),
        u32_le_at(out, HV_LAPIC_REC_IRR + 16) == u32_le_at(src, HV_LAPIC_REC_IRR + 16),
        u32_le_at(out, HV_LAPIC_REC_IRR + 20) == u32_le_at(src, HV_LAPIC_REC_IRR + 20),
        u32_le_at(out, HV_LAPIC_REC_IRR + 24) == u32_le_at(src, HV_LAPIC_REC_IRR + 24),
        u32_le_at(out, HV_LAPIC_REC_IRR + 28) == u32_le_at(src, HV_LAPIC_REC_IRR + 28),
        u32_le_at(out, HV_LAPIC_REC_ESR as int) == u32_le_at(src, HV_LAPIC_REC_ESR as int),
        u32_le_at(out, HV_LAPIC_REC_ICR_HIGH as int) == u32_le_at(
            src,
            HV_LAPIC_REC_ICR_HIGH as int,
        ),
        u32_le_at(out, HV_LAPIC_REC_ICR_LOW as int) == u32_le_at(src, HV_LAPIC_REC_ICR_LOW as int),
        u32_le_at(out, HV_LAPIC_REC_LVT_TIMER as int) == u32_le_at(
            src,
            HV_LAPIC_REC_LVT_TIMER as int,
        ),
        u32_le_at(out, HV_LAPIC_REC_LVT_THERMAL as int) == u32_le_at(
            src,
            HV_LAPIC_REC_LVT_THERMAL as int,
        ),
        u32_le_at(out, HV_LAPIC_REC_LVT_PERFMON as int) == u32_le_at(
            src,
            HV_LAPIC_REC_LVT_PERFMON as int,
        ),
        u32_le_at(out, HV_LAPIC_REC_LVT_LINT0 as int) == u32_le_at(
            src,
            HV_LAPIC_REC_LVT_LINT0 as int,
        ),
        u32_le_at(out, HV_LAPIC_REC_LVT_LINT1 as int) == u32_le_at(
            src,
            HV_LAPIC_REC_LVT_LINT1 as int,
        ),
        u32_le_at(out, HV_LAPIC_REC_LVT_ERROR as int) == u32_le_at(
            src,
            HV_LAPIC_REC_LVT_ERROR as int,
        ),
        u32_le_at(out, HV_LAPIC_REC_INITIAL_COUNT as int) == u32_le_at(
            src,
            HV_LAPIC_REC_INITIAL_COUNT as int,
        ),
        u32_le_at(out, HV_LAPIC_REC_COUNTER_VALUE as int) == u32_le_at(
            src,
            HV_LAPIC_REC_COUNTER_VALUE as int,
        ),
        u32_le_at(out, HV_LAPIC_REC_DIVIDE_CONF as int) == u32_le_at(
            src,
            HV_LAPIC_REC_DIVIDE_CONF as int,
        ),
        u32_le_at(out, HV_LAPIC_REC_REMOTE_READ as int) == u32_le_at(
            src,
            HV_LAPIC_REC_REMOTE_READ as int,
        ),
        u32_le_at(out, HV_LAPIC_REC_ERROR_STATUS as int) == 0,
        u32_le_at(out, HV_LAPIC_REC_LVT_CMCI as int) == 0,
{
}

} // verus!
