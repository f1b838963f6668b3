use mshv_bindings::regs::{
    msr_entry, msr_list, msrs, DebugRegisters, SpecialRegisters, StandardRegisters,
};

#[test]
fn test_standard_registers_default_and_eq() {
    let mut regs = StandardRegisters::default();
    assert_eq!(regs, StandardRegisters::default());
    regs.rip = 0xfff0;
    regs.rflags = 0x2;
    assert_ne!(regs, StandardRegisters::default());
    assert_eq!(regs.rip, 0xfff0);
}

#[test]
fn test_special_registers_hold_segments() {
    let mut sregs = SpecialRegisters::default();
    sregs.cs.selector = 0xf000;
    sregs.cs.base = 0xffff_0000;
    sregs.gdt.limit = 0xffff;
    sregs.cr0 = 0x6000_0010;
    sregs.interrupt_bitmap = [1, 2, 3, 4];
    assert_eq!(sregs.cs.selector, 0xf000);
    assert_eq!(sregs.interrupt_bitmap[2], 3);
}

#[test]
fn test_debug_registers_default() {
    let dregs = DebugRegisters::default();
    assert_eq!(dregs.dr7, 0);
}

#[test]
fn test_msr_lists() {
    let entries = vec![
        msr_entry { index: 0x10, reserved: 0, data: 1234 },
        msr_entry { index: 0xC000_0080, reserved: 0, data: 0x500 },
    ];
    let set = msrs { nmsrs: entries.len() as u32, pad: 0, entries };
    assert_eq!(set.nmsrs, 2);
    assert_eq!(set.entries[1].data, 0x500);

    let list = msr_list { nmsrs: 1, indices: vec![0x10] };
    assert_eq!(list.indices.len(), list.nmsrs as usize);
}
