//! Extended vector/FPU state (XSAVE) codec: bidirectional conversion
//! between a fixed 4096-byte vector-state buffer, treated as an
//! undifferentiated byte blob, and a page-aligned raw buffer sized to
//! hypervisor page granularity.

use crate::buffer::{zeroed_bytes, Buffer};
use crate::{RegsError, HV_HYP_PAGE_SHIFT, HV_PAGE_SIZE};
use vstd::pervasive::VecAdditionalExecFns;
use vstd::prelude::*;

verus! {

/// Size in bytes of the vector-state buffer.
pub const XSAVE_STATE_SIZE: usize = 4096;

/// Fixed 4096-byte buffer for vector state. The contents are opaque to this
/// layer: their semantics are owned by the processor architecture.
#[derive(Debug, Clone, PartialEq)]
pub struct XSave {
    /// The vector-state bytes.
    pub buffer: Vec<u8>,
}

impl XSave {
    /// The vector-state buffer has its fixed size.
    pub open spec fn wf(&self) -> bool {
        self.buffer@.len() == XSAVE_STATE_SIZE
    }
}

impl core::default::Default for XSave {
    /// An all-zero vector-state buffer.
    fn default() -> (d: XSave)
        ensures
            d.wf(),
            forall|i: int| 0 <= i < XSAVE_STATE_SIZE ==> d.buffer@[i] == 0,
    {
        XSave { buffer: zeroed_bytes(XSAVE_STATE_SIZE) }
    }
}

impl XSave {
    /// Copies the contents of `buf` into a fresh vector-state buffer; bytes
    /// past the end of `buf` are zero. Fails exactly when `buf` is larger
    /// than the vector-state buffer.
    pub fn from_buffer(buf: &Buffer) -> (r: Result<XSave, RegsError>)
        ensures
            match r {
                Ok(x) => {
                    &&& buf@.len() <= XSAVE_STATE_SIZE
                    &&& x.wf()
                    &&& forall|i: int| 0 <= i < buf@.len() ==> x.buffer@[i] == buf@[i]
                    &&& forall|i: int| buf@.len() <= i < XSAVE_STATE_SIZE ==> x.buffer@[i] == 0
                },
                Err(e) => buf@.len() > XSAVE_STATE_SIZE && e == RegsError::SizeMismatch,
            },
    {
        if XSAVE_STATE_SIZE < buf.size() {
            return Err(RegsError::SizeMismatch);
        }
        let mut bytes = zeroed_bytes(XSAVE_STATE_SIZE);
        let n = buf.size();
        let mut i: usize = 0;
        while i < n
            invariant
                i <= n,
                n == buf@.len() <= XSAVE_STATE_SIZE,
                bytes@.len() == XSAVE_STATE_SIZE,
                forall|j: int| 0 <= j < i ==> bytes@[j] == buf@[j],
                forall|j: int| i <= j < XSAVE_STATE_SIZE ==> bytes@[j] == 0,
            decreases n - i,
        {
            bytes.set(i, buf.data[i]);
            i = i + 1;
        }
        Ok(XSave { buffer: bytes })
    }

    /// Copies the vector-state bytes into a freshly allocated
    /// page-granularity, page-aligned buffer. Fails exactly when the buffer
    /// cannot be allocated.
    pub fn to_buffer(&self) -> (r: Result<Buffer, RegsError>)
        requires
            self.wf(),
        ensures
            match r {
                Ok(b) => {
                    &&& b@.len() == XSAVE_STATE_SIZE
                    &&& b.align == HV_PAGE_SIZE
                    &&& b@ == self.buffer@
                },
                Err(e) => e == RegsError::AllocationFailure,
            },
    {
        let num_pages = (XSAVE_STATE_SIZE + HV_PAGE_SIZE - 1) >> HV_HYP_PAGE_SHIFT;
        proof {
            assert((8191usize >> 12) == 1usize) by (bit_vector);
        }
        let mut buffer = match Buffer::new(num_pages * HV_PAGE_SIZE, HV_PAGE_SIZE) {
            Ok(b) => b,
            Err(e) => {
                return Err(e);
            },
        };
        let mut i: usize = 0;
        while i < XSAVE_STATE_SIZE
            invariant
                i <= XSAVE_STATE_SIZE,
                self.wf(),
                buffer@.len() == XSAVE_STATE_SIZE,
                buffer.align == HV_PAGE_SIZE,
                forall|j: int| 0 <= j < i ==> buffer@[j] == self.buffer@[j],
            decreases XSAVE_STATE_SIZE - i,
        {
            buffer.data.set(i, self.buffer[i]);
            i = i + 1;
        }
        proof {
            assert(buffer@ =~= self.buffer@);
        }
        Ok(buffer)
    }
}

} // verus!
