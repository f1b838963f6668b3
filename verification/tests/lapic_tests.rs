use mshv_bindings::buffer::Buffer;
use mshv_bindings::lapic::{
    LapicState, HV_LAPIC_RECORD_SIZE, HV_LAPIC_REC_APIC_ID, HV_LAPIC_REC_DFR,
    HV_LAPIC_REC_DIVIDE_CONF, HV_LAPIC_REC_ERROR_STATUS, HV_LAPIC_REC_ESR, HV_LAPIC_REC_ICR_HIGH,
    HV_LAPIC_REC_ICR_LOW, HV_LAPIC_REC_INITIAL_COUNT, HV_LAPIC_REC_IRR, HV_LAPIC_REC_ISR,
    HV_LAPIC_REC_LDR, HV_LAPIC_REC_LVT_CMCI, HV_LAPIC_REC_LVT_ERROR, HV_LAPIC_REC_LVT_LINT0,
    HV_LAPIC_REC_LVT_LINT1, HV_LAPIC_REC_LVT_PERFMON, HV_LAPIC_REC_LVT_THERMAL,
    HV_LAPIC_REC_LVT_TIMER, HV_LAPIC_REC_COUNTER_VALUE, HV_LAPIC_REC_REMOTE_READ,
    HV_LAPIC_REC_SPURIOUS, HV_LAPIC_REC_TMR, HV_LAPIC_REC_VERSION, LOCAL_APIC_OFFSET_APIC_ID,
    LOCAL_APIC_OFFSET_DFR, LOCAL_APIC_OFFSET_DIVIDER, LOCAL_APIC_OFFSET_ERROR,
    LOCAL_APIC_OFFSET_ICR_HIGH, LOCAL_APIC_OFFSET_ICR_LOW, LOCAL_APIC_OFFSET_INITIAL_COUNT,
    LOCAL_APIC_OFFSET_IRR, LOCAL_APIC_OFFSET_ISR, LOCAL_APIC_OFFSET_LDR, LOCAL_APIC_OFFSET_PPR,
    LOCAL_APIC_OFFSET_SPURIOUS, LOCAL_APIC_OFFSET_TMR, LOCAL_APIC_OFFSET_VERSION,
};
use mshv_bindings::lapic::derive_ppr;
use mshv_bindings::RegsError;

fn put_u32(bytes: &mut [u8], off: usize, v: u32) {
    bytes[off..off + 4].copy_from_slice(&v.to_le_bytes());
}

fn get_u32(bytes: &[u8], off: usize) -> u32 {
    u32::from_le_bytes([bytes[off], bytes[off + 1], bytes[off + 2], bytes[off + 3]])
}

/// A record buffer where every 32-bit field holds a value derived from its
/// own offset, so misplaced fields are caught.
fn patterned_record() -> Buffer {
    let mut buf = Buffer::new(4096, 4096).unwrap();
    let mut off = 0;
    while off < HV_LAPIC_RECORD_SIZE {
        put_u32(&mut buf.data, off, 0xA000_0000u32 + off as u32);
        off += 4;
    }
    buf
}

#[test]
fn test_lapic_decode_field_offsets() {
    let buf = patterned_record();
    let state = LapicState::from_buffer(&buf).unwrap();
    let r = &state.regs;
    assert_eq!(r.len(), 1024);
    assert_eq!(get_u32(r, LOCAL_APIC_OFFSET_APIC_ID), 0xA000_0000);
    assert_eq!(get_u32(r, LOCAL_APIC_OFFSET_VERSION), 0xA000_0004);
    assert_eq!(get_u32(r, LOCAL_APIC_OFFSET_LDR), 0xA000_0000 + HV_LAPIC_REC_LDR as u32);
    assert_eq!(get_u32(r, LOCAL_APIC_OFFSET_DFR), 0xA000_0000 + HV_LAPIC_REC_DFR as u32);
    assert_eq!(get_u32(r, LOCAL_APIC_OFFSET_SPURIOUS), 0xA000_0000 + HV_LAPIC_REC_SPURIOUS as u32);
    assert_eq!(get_u32(r, LOCAL_APIC_OFFSET_ERROR), 0xA000_0000 + HV_LAPIC_REC_ESR as u32);
    assert_eq!(get_u32(r, LOCAL_APIC_OFFSET_ICR_LOW), 0xA000_0000 + HV_LAPIC_REC_ICR_LOW as u32);
    assert_eq!(get_u32(r, LOCAL_APIC_OFFSET_ICR_HIGH), 0xA000_0000 + HV_LAPIC_REC_ICR_HIGH as u32);
    assert_eq!(
        get_u32(r, LOCAL_APIC_OFFSET_INITIAL_COUNT),
        0xA000_0000 + HV_LAPIC_REC_INITIAL_COUNT as u32
    );
    assert_eq!(get_u32(r, LOCAL_APIC_OFFSET_DIVIDER), 0xA000_0000 + HV_LAPIC_REC_DIVIDE_CONF as u32);
    for i in 0..8 {
        assert_eq!(
            get_u32(r, LOCAL_APIC_OFFSET_ISR + 16 * i),
            0xA000_0000 + (HV_LAPIC_REC_ISR + 4 * i) as u32
        );
        assert_eq!(
            get_u32(r, LOCAL_APIC_OFFSET_TMR + 16 * i),
            0xA000_0000 + (HV_LAPIC_REC_TMR + 4 * i) as u32
        );
        assert_eq!(
            get_u32(r, LOCAL_APIC_OFFSET_IRR + 16 * i),
            0xA000_0000 + (HV_LAPIC_REC_IRR + 4 * i) as u32
        );
    }
    // bytes not covered by any mapped register stay zero
    assert_eq!(get_u32(r, 0x40), 0);
    assert_eq!(get_u32(r, 0x104), 0);
    assert_eq!(get_u32(r, 0x3F0), 0);
}

#[test]
fn test_lapic_codec_round_trip() {
    let src = patterned_record();
    let state = LapicState::from_buffer(&src).unwrap();
    let out = state.to_buffer().unwrap();
    // every field this layer manages is reproduced exactly
    let managed = [
        HV_LAPIC_REC_APIC_ID,
        HV_LAPIC_REC_VERSION,
        HV_LAPIC_REC_LDR,
        HV_LAPIC_REC_DFR,
        HV_LAPIC_REC_SPURIOUS,
        HV_LAPIC_REC_ESR,
        HV_LAPIC_REC_ICR_HIGH,
        HV_LAPIC_REC_ICR_LOW,
        HV_LAPIC_REC_LVT_TIMER,
        HV_LAPIC_REC_LVT_THERMAL,
        HV_LAPIC_REC_LVT_PERFMON,
        HV_LAPIC_REC_LVT_LINT0,
        HV_LAPIC_REC_LVT_LINT1,
        HV_LAPIC_REC_LVT_ERROR,
        HV_LAPIC_REC_INITIAL_COUNT,
        HV_LAPIC_REC_COUNTER_VALUE,
        HV_LAPIC_REC_DIVIDE_CONF,
        HV_LAPIC_REC_REMOTE_READ,
    ];
    for off in managed {
        assert_eq!(get_u32(&out.data, off), get_u32(&src.data, off));
    }
    for i in 0..8 {
        assert_eq!(get_u32(&out.data, HV_LAPIC_REC_ISR + 4 * i), get_u32(&src.data, HV_LAPIC_REC_ISR + 4 * i));
        assert_eq!(get_u32(&out.data, HV_LAPIC_REC_TMR + 4 * i), get_u32(&src.data, HV_LAPIC_REC_TMR + 4 * i));
        assert_eq!(get_u32(&out.data, HV_LAPIC_REC_IRR + 4 * i), get_u32(&src.data, HV_LAPIC_REC_IRR + 4 * i));
    }
    // fields outside this layer's scope reset to zero
    assert_eq!(get_u32(&out.data, HV_LAPIC_REC_ERROR_STATUS), 0);
    assert_eq!(get_u32(&out.data, HV_LAPIC_REC_LVT_CMCI), 0);
}

#[test]
fn test_lapic_ppr_derivation() {
    // in-service words [0,0,0,0,0,0,0,0x00000004]: word 7, bit 2 set
    let mut buf = Buffer::new(4096, 4096).unwrap();
    put_u32(&mut buf.data, HV_LAPIC_REC_ISR + 28, 0x0000_0004);
    let state = LapicState::from_buffer(&buf).unwrap();
    assert_eq!(get_u32(&state.regs, LOCAL_APIC_OFFSET_PPR), 2 + 7 * 32);
    assert_eq!(get_u32(&state.regs, LOCAL_APIC_OFFSET_PPR), 226);

    // all in-service words zero: priority zero
    let zero = Buffer::new(4096, 4096).unwrap();
    let state = LapicState::from_buffer(&zero).unwrap();
    assert_eq!(get_u32(&state.regs, LOCAL_APIC_OFFSET_PPR), 0);
}

#[test]
fn test_derive_ppr_words() {
    assert_eq!(derive_ppr(0, 0, 0, 0, 0, 0, 0, 0x4), 226);
    assert_eq!(derive_ppr(0, 0, 0, 0, 0, 0, 0, 0), 0);
    assert_eq!(derive_ppr(1, 0, 0, 0, 0, 0, 0, 0), 0);
    assert_eq!(derive_ppr(0x8000_0000, 0, 0, 0, 0, 0, 0, 0), 31);
    // the highest word wins even when lower words are nonzero
    assert_eq!(derive_ppr(0xffff_ffff, 0x1, 0, 0, 0, 0, 0, 0), 32);
}

#[test]
fn test_lapic_decode_rejects_short_buffer() {
    let buf = Buffer::new(HV_LAPIC_RECORD_SIZE - 1, 1).unwrap();
    assert_eq!(LapicState::from_buffer(&buf).unwrap_err(), RegsError::SizeMismatch);
    // exactly the record size is accepted
    let buf = Buffer::new(HV_LAPIC_RECORD_SIZE, 1).unwrap();
    assert!(LapicState::from_buffer(&buf).is_ok());
}

#[test]
fn test_lapic_default_is_zeroed() {
    let state = LapicState::default();
    assert_eq!(state.regs.len(), 1024);
    assert!(state.regs.iter().all(|b| *b == 0));
}
