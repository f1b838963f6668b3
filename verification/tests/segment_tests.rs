use mshv_bindings::segment::{hv_x64_segment_register, hv_x64_table_register, SegmentRegister, TableRegister};

#[test]
fn test_segment_register_pack_unpack_round_trip() {
    let reg = SegmentRegister {
        base: 0xdead_beef_00c0_ffee,
        limit: 0x000f_ffff,
        selector: 0x2b,
        type_: 0xb,
        present: 1,
        dpl: 3,
        db: 0,
        s: 1,
        l: 1,
        g: 1,
        avl: 1,
        unusable: 0,
        padding: 0,
    };
    let packed = hv_x64_segment_register::from(reg);
    let unpacked = SegmentRegister::from(packed);
    assert_eq!(unpacked, reg);
}

#[test]
fn test_segment_register_attribute_bit_positions() {
    let reg = SegmentRegister {
        base: 0,
        limit: 0,
        selector: 0,
        type_: 0xb,
        present: 1,
        dpl: 3,
        db: 0,
        s: 1,
        l: 1,
        g: 1,
        avl: 1,
        unusable: 0,
        padding: 0,
    };
    let packed = hv_x64_segment_register::from(reg);
    // type 0xb | s<<4 | dpl 3<<5 | present<<7 | avl<<12 | l<<13 | g<<15
    assert_eq!(packed.attributes, 0xB0FB);
}

#[test]
fn test_segment_register_attribute_word_round_trip() {
    // every attribute word with zero reserved bits survives unpack + pack
    let packed = hv_x64_segment_register {
        base: 0x1234_5678_9abc_def0,
        limit: 0xffff,
        selector: 0x10,
        attributes: 0xa09b,
    };
    let unpacked = SegmentRegister::from(packed);
    let repacked = hv_x64_segment_register::from(unpacked);
    assert_eq!(repacked, packed);
}

#[test]
fn test_table_register_round_trip() {
    let reg = TableRegister { base: 0xffff_8000_0000_1000, limit: 0x7f };
    let packed = hv_x64_table_register::from(reg);
    assert_eq!(packed.base, reg.base);
    assert_eq!(packed.limit, reg.limit);
    // reserved pad words are zero on output
    assert_eq!(packed.pad, [0u16; 3]);
    let unpacked = TableRegister::from(packed);
    assert_eq!(unpacked, reg);
}
