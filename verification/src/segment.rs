//! Segment and table register codec: bit-exact conversion between the packed
//! hardware descriptor forms used by the hypervisor and plain unpacked
//! structs.

use vstd::prelude::*;

verus! {

/// A segment register together with its descriptor, unpacked: every
/// descriptor attribute widened to its own byte-sized field.
#[derive(Debug, Default, Copy, Clone, PartialEq, Eq, Structural)]
pub struct SegmentRegister {
    /// Segment base address.
    pub base: u64,
    /// Segment limit.
    pub limit: u32,
    /// Segment selector.
    pub selector: u16,
    /// Descriptor type (4 bits).
    pub type_: u8,
    /// Present flag (1 bit); if clear, an exception is generated on use.
    pub present: u8,
    /// Descriptor privilege level (2 bits).
    pub dpl: u8,
    /// Default/big operand size flag (1 bit).
    pub db: u8,
    /// Non-system segment flag (1 bit).
    pub s: u8,
    /// Long-mode (64-bit) flag (1 bit).
    pub l: u8,
    /// Granularity flag (1 bit): byte or 4096-byte-page units.
    pub g: u8,
    /// Available-for-software flag (1 bit).
    pub avl: u8,
    /// Unusable marker; zero unless explicitly set.
    pub unusable: u8,
    /// Reserved padding; zero unless explicitly set.
    pub padding: u8,
}

/// The packed hardware form of a segment register: base, limit, selector,
/// and a 16-bit attribute word holding the descriptor attributes at their
/// designated bit positions (type at bits 0..=3, non-system at bit 4,
/// privilege level at bits 5..=6, present at bit 7, bits 8..=11 reserved,
/// available at bit 12, long at bit 13, default-size at bit 14, granularity
/// at bit 15).
#[derive(Debug, Default, Copy, Clone, PartialEq, Eq, Structural)]
pub struct hv_x64_segment_register {
    /// Segment base address.
    pub base: u64,
    /// Segment limit.
    pub limit: u32,
    /// Segment selector.
    pub selector: u16,
    /// Packed descriptor attribute word.
    pub attributes: u16,
}

/// The attribute word that packs the descriptor attributes of `reg`, with
/// every bit not covered by a named attribute left zero.
pub open spec fn spec_pack_segment_attributes(reg: SegmentRegister) -> u16 {
    (reg.type_ as u16 & 0xf) | ((reg.s as u16 & 1) << 4) | ((reg.dpl as u16 & 3) << 5) | ((
    reg.present as u16 & 1) << 7) | ((reg.avl as u16 & 1) << 12) | ((reg.l as u16 & 1) << 13) | ((
    reg.db as u16 & 1) << 14) | ((reg.g as u16 & 1) << 15)
}

/// The unpacked form of the packed segment register `p`.
pub open spec fn spec_unpack_segment(p: hv_x64_segment_register) -> SegmentRegister {
    SegmentRegister {
        base: p.base,
        limit: p.limit,
        selector: p.selector,
        type_: (p.attributes & 0xf) as u8,
        s: ((p.attributes >> 4) & 1) as u8,
        dpl: ((p.attributes >> 5) & 3) as u8,
        present: ((p.attributes >> 7) & 1) as u8,
        avl: ((p.attributes >> 12) & 1) as u8,
        l: ((p.attributes >> 13) & 1) as u8,
        db: ((p.attributes >> 14) & 1) as u8,
        g: ((p.attributes >> 15) & 1) as u8,
        unusable: 0,
        padding: 0,
    }
}

/// The packed form of the unpacked segment register `r`.
pub open spec fn spec_pack_segment(r: SegmentRegister) -> hv_x64_segment_register {
    hv_x64_segment_register {
        base: r.base,
        limit: r.limit,
        selector: r.selector,
        attributes: spec_pack_segment_attributes(r),
    }
}

impl core::convert::From<hv_x64_segment_register> for SegmentRegister {
    /// Unpacks each descriptor attribute from its designated bit position;
    /// the unusable and padding fields are zeroed.
    fn from(hv_reg: hv_x64_segment_register) -> (r: SegmentRegister) {
        SegmentRegister {
            base: hv_reg.base,
            limit: hv_reg.limit,
            selector: hv_reg.selector,
            type_: #[verifier::truncate] ((hv_reg.attributes & 0xf) as u8),
            s: #[verifier::truncate] (((hv_reg.attributes >> 4u16) & 1) as u8),
            dpl: #[verifier::truncate] (((hv_reg.attributes >> 5u16) & 3) as u8),
            present: #[verifier::truncate] (((hv_reg.attributes >> 7u16) & 1) as u8),
            avl: #[verifier::truncate] (((hv_reg.attributes >> 12u16) & 1) as u8),
            l: #[verifier::truncate] (((hv_reg.attributes >> 13u16) & 1) as u8),
            db: #[verifier::truncate] (((hv_reg.attributes >> 14u16) & 1) as u8),
            g: #[verifier::truncate] (((hv_reg.attributes >> 15u16) & 1) as u8),
            unusable: 0,
            padding: 0,
        }
    }
}

impl vstd::std_specs::convert::FromSpecImpl<hv_x64_segment_register> for SegmentRegister {
    open spec fn obeys_from_spec() -> bool {
        true
    }

    open spec fn from_spec(t: hv_x64_segment_register) -> SegmentRegister {
        spec_unpack_segment(t)
    }
}

impl core::convert::From<SegmentRegister> for hv_x64_segment_register {
    /// Re-packs each descriptor attribute into its designated bit position,
    /// defaulting all non-specified bits to zero.
    fn from(reg: SegmentRegister) -> (r: hv_x64_segment_register) {
        hv_x64_segment_register {
            base: reg.base,
            limit: reg.limit,
            selector: reg.selector,
            attributes: (reg.type_ as u16 & 0xf) | ((reg.s as u16 & 1) << 4u16) | ((reg.dpl as u16
                & 3) << 5u16) | ((reg.present as u16 & 1) << 7u16) | ((reg.avl as u16 & 1)
                << 12u16) | ((reg.l as u16 & 1) << 13u16) | ((reg.db as u16 & 1) << 14u16) | ((
            reg.g as u16 & 1) << 15u16),
        }
    }
}

impl vstd::std_specs::convert::FromSpecImpl<SegmentRegister> for hv_x64_segment_register {
    open spec fn obeys_from_spec() -> bool {
        true
    }

    open spec fn from_spec(t: SegmentRegister) -> hv_x64_segment_register {
        spec_pack_segment(t)
    }
}

/// A segment register holds well-formed field values: every descriptor
/// attribute fits its designated bit width and the unusable and padding
/// fields are zero.
pub open spec fn segment_register_well_formed(r: SegmentRegister) -> bool {
    &&& r.type_ < 16
    &&& r.s < 2
    &&& r.dpl < 4
    &&& r.present < 2
    &&& r.avl < 2
    &&& r.l < 2
    &&& r.db < 2
    &&& r.g < 2
    &&& r.unusable == 0
    &&& r.padding == 0
}

/// Round trip: for every well-formed segment register, unpacking its packed
/// form reproduces every field bit-for-bit.
pub proof fn lemma_segment_register_round_trip(x: SegmentRegister)
    requires
        segment_register_well_formed(x),
    ensures
        spec_unpack_segment(spec_pack_segment(x)) == x,
{
    let t = x.type_;
    let s = x.s;
    let d = x.dpl;
    let p = x.present;
    let av = x.avl;
    let l = x.l;
    let db = x.db;
    let g = x.g;
    let a: u16 = spec_pack_segment_attributes(x);
    assert((a & 0xf) as u8 == t && ((a >> 4) & 1) as u8 == s && ((a >> 5) & 3) as u8 == d && ((a
        >> 7) & 1) as u8 == p && ((a >> 12) & 1) as u8 == av && ((a >> 13) & 1) as u8 == l && ((a
        >> 14) & 1) as u8 == db && ((a >> 15) & 1) as u8 == g) by (bit_vector)
        requires
            a == (t as u16 & 0xf) | ((s as u16 & 1) << 4) | ((d as u16 & 3) << 5) | ((p as u16 & 1)
                << 7) | ((av as u16 & 1) << 12) | ((l as u16 & 1) << 13) | ((db as u16 & 1) << 14)
                | ((g as u16 & 1) << 15),
            t < 16,
            s < 2,
            d < 4,
            p < 2,
            av < 2,
            l < 2,
            db < 2,
            g < 2,
    ;
}

/// Round trip: for every packed segment register whose reserved attribute
/// bits (bits 8..=11) are zero, packing its unpacked form reproduces the
/// attribute word bit-for-bit.
pub proof fn lemma_segment_attributes_round_trip(y: hv_x64_segment_register)
    requires
        y.attributes & 0x0f00 == 0,
    ensures
        spec_pack_segment(spec_unpack_segment(y)) == y,
{
    let a = y.attributes;
    assert(((a & 0xf) as u8 as u16 & 0xf) | ((((a >> 4) & 1) as u8 as u16 & 1) << 4) | ((((a >> 5)
        & 3) as u8 as u16 & 3) << 5) | ((((a >> 7) & 1) as u8 as u16 & 1) << 7) | ((((a >> 12) & 1)
        as u8 as u16 & 1) << 12) | ((((a >> 13) & 1) as u8 as u16 & 1) << 13) | ((((a >> 14) & 1)
        as u8 as u16 & 1) << 14) | ((((a >> 15) & 1) as u8 as u16 & 1) << 15) == a) by (bit_vector)
        requires
            a & 0x0f00 == 0,
    ;
}

/// A descriptor table register (GDTR/IDTR), unpacked: base plus limit.
#[derive(Debug, Default, Copy, Clone, PartialEq, Eq, Structural)]
pub struct TableRegister {
    /// Table base address.
    pub base: u64,
    /// Table limit.
    pub limit: u16,
}

/// The packed hardware form of a table register: three reserved 16-bit pad
/// words (always zero on output), the limit, and the base.
#[derive(Debug, Default, Copy, Clone, PartialEq, Eq)]
pub struct hv_x64_table_register {
    /// Reserved padding, zero on output.
    pub pad: [u16; 3],
    /// Table limit.
    pub limit: u16,
    /// Table base address.
    pub base: u64,
}

/// The unpacked form of the packed table register `p`.
pub open spec fn spec_unpack_table(p: hv_x64_table_register) -> TableRegister {
    TableRegister { base: p.base, limit: p.limit }
}

/// The packed form of the unpacked table register `t`: base and limit
/// copied, the three reserved pad words zero.
pub open spec fn spec_pack_table(t: TableRegister) -> hv_x64_table_register {
    hv_x64_table_register { pad: [0u16, 0u16, 0u16], limit: t.limit, base: t.base }
}

impl core::convert::From<hv_x64_table_register> for TableRegister {
    /// Copies the base and limit; the reserved pad is dropped.
    fn from(reg: hv_x64_table_register) -> (r: TableRegister) {
        TableRegister { base: reg.base, limit: reg.limit }
    }
}

impl vstd::std_specs::convert::FromSpecImpl<hv_x64_table_register> for TableRegister {
    open spec fn obeys_from_spec() -> bool {
        true
    }

    open spec fn from_spec(t: hv_x64_table_register) -> TableRegister {
        spec_unpack_table(t)
    }
}

impl core::convert::From<TableRegister> for hv_x64_table_register {
    /// Packs `reg`: copies the base and limit and zero-fills the three
    /// reserved pad words.
    fn from(reg: TableRegister) -> (r: hv_x64_table_register) {
        hv_x64_table_register { pad: [0u16, 0u16, 0u16], limit: reg.limit, base: reg.base }
    }
}

impl vstd::std_specs::convert::FromSpecImpl<TableRegister> for hv_x64_table_register {
    open spec fn obeys_from_spec() -> bool {
        true
    }

    open spec fn from_spec(t: TableRegister) -> hv_x64_table_register {
        spec_pack_table(t)
    }
}

/// Round trip: for every table register, unpacking its packed form
/// reproduces base and limit exactly, and the packed form's reserved pad
/// words are zero.
pub proof fn lemma_table_register_round_trip(x: TableRegister)
    ensures
        spec_unpack_table(spec_pack_table(x)) == x,
        spec_pack_table(x).pad@ =~= seq![0u16, 0u16, 0u16],
{
}

} // verus!
