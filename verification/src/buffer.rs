//! Raw transfer buffer: an owned, explicitly sized byte region used as the
//! transfer medium to and from the hypervisor interface, together with
//! bounds-checked 32-bit little-endian accessors over byte vectors.

use crate::RegsError;
use vstd::pervasive::VecAdditionalExecFns;
use vstd::prelude::*;

verus! {

/// An owned byte region of a fixed size.
///
/// The region is created by an explicit allocation request and released
/// exactly once, automatically, when its owner drops it. The alignment the
/// region was requested with is recorded alongside the bytes.
#[derive(Debug)]
pub struct Buffer {
    /// The bytes of the region.
    pub data: Vec<u8>,
    /// The alignment the region was requested with.
    pub align: usize,
}

impl View for Buffer {
    type V = Seq<u8>;

    open spec fn view(&self) -> Seq<u8> {
        self.data@
    }
}

impl Buffer {
    /// Allocates a zero-filled region of exactly `size` bytes, recording
    /// `align`; fails recoverably when the allocator cannot reserve the
    /// requested capacity.
    pub fn new(size: usize, align: usize) -> (r: Result<Buffer, RegsError>)
        ensures
            match r {
                Ok(b) => {
                    &&& b@.len() == size
                    &&& b.align == align
                    &&& forall|i: int| 0 <= i < size ==> b@[i] == 0
                },
                Err(e) => e == RegsError::AllocationFailure,
            },
    {
        let mut data: Vec<u8> = Vec::new();
        if data.try_reserve(size).is_err() {
            return Err(RegsError::AllocationFailure);
        }
        let mut i: usize = 0;
        while i < size
            invariant
                i <= size,
                data@.len() == i,
                forall|j: int| 0 <= j < i ==> data@[j] == 0,
            decreases size - i,
        {
            data.push(0u8);
            i = i + 1;
        }
        Ok(Buffer { data, align })
    }

    /// Reports the allocated size of the region.
    pub fn size(&self) -> (s: usize)
        ensures
            s == self@.len(),
    {
        self.data.len()
    }

    /// Overwrites every byte of the region with zero.
    pub fn zero_out_buf(&mut self)
        ensures
            final(self)@.len() == old(self)@.len(),
            forall|i: int| 0 <= i < final(self)@.len() ==> final(self)@[i] == 0,
            final(self).align == old(self).align,
    {
        let n = self.data.len();
        let mut i: usize = 0;
        while i < n
            invariant
                i <= n,
                self.data@.len() == n,
                self.align == old(self).align,
                forall|j: int| 0 <= j < i ==> self.data@[j] == 0,
            decreases n - i,
        {
            self.data.set(i, 0u8);
            i = i + 1;
        }
    }
}

/// Returns a vector of `n` zero bytes.
pub fn zeroed_bytes(n: usize) -> (v: Vec<u8>)
    ensures
        v@.len() == n,
        forall|i: int| 0 <= i < n ==> v@[i] == 0,
{
    let mut v: Vec<u8> = Vec::new();
    let mut i: usize = 0;
    while i < n
        invariant
            i <= n,
            v@.len() == i,
            forall|j: int| 0 <= j < i ==> v@[j] == 0,
        decreases n - i,
    {
        v.push(0u8);
        i = i + 1;
    }
    v
}

/// The 32-bit value stored little-endian at byte offset `i` of `s`.
pub open spec fn u32_le_at(s: Seq<u8>, i: int) -> u32
    recommends
        0 <= i,
        i + 4 <= s.len(),
{
    (s[i] as u32) | (s[i + 1] as u32) << 8 | (s[i + 2] as u32) << 16 | (s[i + 3] as u32) << 24
}

/// Reads the 32-bit little-endian value at byte offset `off` of `b`.
pub fn read_u32(b: &Vec<u8>, off: usize) -> (v: u32)
    requires
        off + 4 <= b@.len(),
    ensures
        v == u32_le_at(b@, off as int),
{
    // observe the length as a usize so the index arithmetic is bounded
    let n = b.len();
    assert(off + 4 <= n);
    let b0 = b[off];
    let b1 = b[off + 1];
    let b2 = b[off + 2];
    let b3 = b[off + 3];
    (b0 as u32) | (b1 as u32) << 8u32 | (b2 as u32) << 16u32 | (b3 as u32) << 24u32
}

/// Writes `v` little-endian into the four bytes of `b` starting at `off`;
/// every other byte, and every 32-bit slot disjoint from the written one,
/// is left unchanged.
pub fn write_u32(b: &mut Vec<u8>, off: usize, v: u32)
    requires
        off + 4 <= old(b)@.len(),
    ensures
        final(b)@.len() == old(b)@.len(),
        u32_le_at(final(b)@, off as int) == v,
        forall|j: int| 0 <= j < old(b)@.len() && !(off <= j < off + 4) ==> final(b)@[j] == old(
            b,
        )@[j],
        forall|k: int|
            0 <= k && k + 4 <= old(b)@.len() && (k + 4 <= off || off + 4 <= k) ==> #[trigger] u32_le_at(
                final(b)@,
                k,
            ) == u32_le_at(old(b)@, k),
{
    // observe the length as a usize so the index arithmetic is bounded
    let n = b.len();
    assert(off + 4 <= n);
    let b0: u8 = #[verifier::truncate] ((v & 0xff) as u8);
    let b1: u8 = #[verifier::truncate] (((v >> 8u32) & 0xff) as u8);
    let b2: u8 = #[verifier::truncate] (((v >> 16u32) & 0xff) as u8);
    let b3: u8 = #[verifier::truncate] (((v >> 24u32) & 0xff) as u8);
    b.set(off, b0);
    b.set(off + 1, b1);
    b.set(off + 2, b2);
    b.set(off + 3, b3);
    proof {
        assert(((v & 0xff) as u8 as u32) | (((v >> 8u32) & 0xff) as u8 as u32) << 8 | (((v
            >> 16u32) & 0xff) as u8 as u32) << 16 | (((v >> 24u32) & 0xff) as u8 as u32) << 24
            == v) by (bit_vector);
    }
}

} // verus!
