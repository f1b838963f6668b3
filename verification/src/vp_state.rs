//! VP-state component directory: five heterogeneous, fixed-size hypervisor
//! state blobs presented as one contiguous owned buffer, with indexed
//! copy-in/copy-out against an external transfer buffer.

use crate::buffer::{zeroed_bytes, Buffer};
use crate::lapic::LAPIC_STATE_SIZE;
use crate::xsave::XSAVE_STATE_SIZE;
use crate::{RegsError, HV_PAGE_SIZE};
use vstd::pervasive::VecAdditionalExecFns;
use vstd::prelude::*;

verus! {

// Component indices, in the fixed storage order.
pub const MSHV_VP_STATE_LAPIC: usize = 0;
pub const MSHV_VP_STATE_XSAVE: usize = 1;
pub const MSHV_VP_STATE_SIMP: usize = 2;
pub const MSHV_VP_STATE_SIEFP: usize = 3;
pub const MSHV_VP_STATE_SYNTHETIC_TIMERS: usize = 4;
pub const MSHV_VP_STATE_COUNT: usize = 5;

/// Size in bytes of the hypervisor's synthetic-timer state record.
pub const HV_SYNTHETIC_TIMERS_STATE_SIZE: usize = 200;

/// Total size of the component directory buffer: the sum of the five fixed
/// component sizes (local APIC register file, vector state, synthetic
/// message page, synthetic event-flags page, synthetic timers).
pub const VP_STATE_COMPONENTS_BUFFER_SIZE: usize = LAPIC_STATE_SIZE + XSAVE_STATE_SIZE
    + HV_PAGE_SIZE + HV_PAGE_SIZE + HV_SYNTHETIC_TIMERS_STATE_SIZE;

/// The fixed size of component `i`.
pub open spec fn spec_comp_size(i: int) -> int {
    if i == 0 {
        LAPIC_STATE_SIZE as int
    } else if i == 1 {
        XSAVE_STATE_SIZE as int
    } else if i == 2 {
        HV_PAGE_SIZE as int
    } else if i == 3 {
        HV_PAGE_SIZE as int
    } else if i == 4 {
        HV_SYNTHETIC_TIMERS_STATE_SIZE as int
    } else {
        0
    }
}

/// The start offset of component `i`: the sum of the sizes of all
/// components with a smaller index.
pub open spec fn spec_comp_offset(i: int) -> int
    decreases i,
{
    if i <= 0 {
        0
    } else {
        spec_comp_offset(i - 1) + spec_comp_size(i - 1)
    }
}

/// Every component lies inside the directory buffer, and the five
/// components exactly fill it.
pub proof fn lemma_comp_layout(i: int)
    requires
        0 <= i < MSHV_VP_STATE_COUNT,
    ensures
        0 <= spec_comp_offset(i),
        spec_comp_offset(i) + spec_comp_size(i) <= VP_STATE_COMPONENTS_BUFFER_SIZE,
{
    assert(spec_comp_offset(0) == 0);
    assert(spec_comp_offset(1) == 1024);
    assert(spec_comp_offset(2) == 5120);
    assert(spec_comp_offset(3) == 9216);
    assert(spec_comp_offset(4) == 13312);
}

/// The directory's total size is the sum of the five component sizes,
/// 13512 bytes.
pub proof fn lemma_vp_state_total_size()
    ensures
        spec_comp_offset(MSHV_VP_STATE_COUNT as int) == VP_STATE_COMPONENTS_BUFFER_SIZE,
        VP_STATE_COMPONENTS_BUFFER_SIZE == 13512,
{
    assert(spec_comp_offset(0) == 0);
    assert(spec_comp_offset(1) == 1024);
    assert(spec_comp_offset(2) == 5120);
    assert(spec_comp_offset(3) == 9216);
    assert(spec_comp_offset(4) == 13312);
    assert(spec_comp_offset(5) == 13512);
}

/// The table of the five component sizes, indexed by component index.
pub fn initialize_comp_sizes() -> (sizes: [usize; 5])
    ensures
        forall|i: int| 0 <= i < 5 ==> #[trigger] sizes@[i] == spec_comp_size(i),
{
    let sizes: [usize; 5] = [
        LAPIC_STATE_SIZE,
        XSAVE_STATE_SIZE,
        HV_PAGE_SIZE,  // synthetic message page, allocated at page size
        HV_PAGE_SIZE,  // synthetic event-flags page, allocated at page size
        HV_SYNTHETIC_TIMERS_STATE_SIZE,
    ];
    sizes
}

/// The start offset of component `index` inside the directory buffer.
pub fn get_vp_state_comp_start_offset(index: usize) -> (off: usize)
    requires
        index <= MSHV_VP_STATE_COUNT,
    ensures
        off == spec_comp_offset(index as int),
{
    let sizes = initialize_comp_sizes();
    let mut off: usize = 0;
    let mut i: usize = 0;
    while i < index
        invariant
            i <= index <= MSHV_VP_STATE_COUNT,
            off == spec_comp_offset(i as int),
            forall|k: int| 0 <= k < 5 ==> #[trigger] sizes@[k] == spec_comp_size(k),
        decreases index - i,
    {
        proof {
            lemma_comp_layout(i as int);
        }
        off = off + sizes[i];
        i = i + 1;
    }
    off
}

/// The five VP-state components stored serially in a single buffer, in the
/// fixed order: local APIC, vector state, synthetic message page, synthetic
/// event-flags page, synthetic timers.
#[derive(Debug, Clone, PartialEq)]
pub struct AllVpStateComponents {
    /// The directory bytes.
    pub buffer: Vec<u8>,
}

impl AllVpStateComponents {
    /// The directory buffer has its fixed total size.
    pub open spec fn wf(&self) -> bool {
        self.buffer@.len() == VP_STATE_COMPONENTS_BUFFER_SIZE
    }
}

impl core::default::Default for AllVpStateComponents {
    /// An all-zero directory buffer.
    fn default() -> (d: AllVpStateComponents)
        ensures
            d.wf(),
            forall|i: int| 0 <= i < VP_STATE_COMPONENTS_BUFFER_SIZE ==> d.buffer@[i] == 0,
    {
        AllVpStateComponents { buffer: zeroed_bytes(VP_STATE_COMPONENTS_BUFFER_SIZE) }
    }
}

/// The effect of copying component `index` between the directory and an
/// external transfer buffer. With `to_buffer` the component bytes land at
/// the start of the buffer and the directory is untouched; without it the
/// buffer's first bytes land in the component's slot of the directory and
/// the buffer is untouched. Either way, no byte outside the copied range
/// changes.
pub open spec fn spec_copy_effect(
    pre_dir: AllVpStateComponents,
    post_dir: AllVpStateComponents,
    pre_buf: Buffer,
    post_buf: Buffer,
    index: int,
    to_buffer: bool,
) -> bool {
    let start = spec_comp_offset(index);
    let size = spec_comp_size(index);
    if to_buffer {
        &&& post_dir == pre_dir
        &&& post_buf@.len() == pre_buf@.len()
        &&& post_buf.align == pre_buf.align
        &&& forall|j: int| 0 <= j < size ==> #[trigger] post_buf@[j] == pre_dir.buffer@[start + j]
        &&& forall|j: int| size <= j < pre_buf@.len() ==> #[trigger] post_buf@[j] == pre_buf@[j]
    } else {
        &&& post_buf == pre_buf
        &&& post_dir.buffer@.len() == pre_dir.buffer@.len()
        &&& forall|k: int|
            start <= k < start + size ==> #[trigger] post_dir.buffer@[k] == pre_buf@[k - start]
        &&& forall|k: int|
            0 <= k < pre_dir.buffer@.len() && !(start <= k < start + size)
                ==> #[trigger] post_dir.buffer@[k] == pre_dir.buffer@[k]
    }
}

impl AllVpStateComponents {
    /// Copies exactly the component's size in bytes between the component's
    /// slot of the directory and the start of `buffer`. The external buffer
    /// must be at least as large as the component; violating that is a
    /// contract violation, excluded here by precondition (see
    /// [`Self::try_copy_to_or_from_buffer`] for the checked form).
    pub fn copy_to_or_from_buffer(&mut self, index: usize, buffer: &mut Buffer, to_buffer: bool)
        requires
            old(self).wf(),
            index < MSHV_VP_STATE_COUNT,
            spec_comp_size(index as int) <= old(buffer)@.len(),
        ensures
            final(self).wf(),
            spec_copy_effect(
                *old(self),
                *final(self),
                *old(buffer),
                *final(buffer),
                index as int,
                to_buffer,
            ),
    {
        let sizes = initialize_comp_sizes();
        let len: usize = sizes[index];
        let start = get_vp_state_comp_start_offset(index);
        proof {
            lemma_comp_layout(index as int);
        }

        if to_buffer {
            let mut i: usize = 0;
            while i < len
                invariant
                    i <= len,
                    self == old(self),
                    self.wf(),
                    len == spec_comp_size(index as int),
                    start == spec_comp_offset(index as int),
                    start + len <= VP_STATE_COMPONENTS_BUFFER_SIZE,
                    len <= buffer@.len(),
                    buffer@.len() == old(buffer)@.len(),
                    buffer.align == old(buffer).align,
                    forall|j: int| 0 <= j < i ==> #[trigger] buffer@[j] == self.buffer@[start + j],
                    forall|j: int| i <= j < buffer@.len() ==> #[trigger] buffer@[j] == old(
                        buffer,
                    )@[j],
                decreases len - i,
            {
                buffer.data.set(i, self.buffer[start + i]);
                i = i + 1;
            }
        } else {
            let mut i: usize = 0;
            while i < len
                invariant
                    i <= len,
                    buffer == old(buffer),
                    self.buffer@.len() == old(self).buffer@.len(),
                    old(self).wf(),
                    len == spec_comp_size(index as int),
                    start == spec_comp_offset(index as int),
                    start + len <= VP_STATE_COMPONENTS_BUFFER_SIZE,
                    len <= buffer@.len(),
                    forall|k: int|
                        start <= k < start + i ==> #[trigger] self.buffer@[k] == buffer@[k - start],
                    forall|k: int|
                        0 <= k < self.buffer@.len() && !(start <= k < start + i)
                            ==> #[trigger] self.buffer@[k] == old(self).buffer@[k],
                decreases len - i,
            {
                self.buffer.set(start + i, buffer.data[i]);
                i = i + 1;
            }
        }
    }

    /// Checked component copy: rejects, before any byte is copied, an
    /// external buffer smaller than the component's required size; behaves
    /// as [`Self::copy_to_or_from_buffer`] otherwise.
    pub fn try_copy_to_or_from_buffer(
        &mut self,
        index: usize,
        buffer: &mut Buffer,
        to_buffer: bool,
    ) -> (r: Result<(), RegsError>)
        requires
            old(self).wf(),
            index < MSHV_VP_STATE_COUNT,
        ensures
            final(self).wf(),
            match r {
                Ok(()) => {
                    &&& spec_comp_size(index as int) <= old(buffer)@.len()
                    &&& spec_copy_effect(
                        *old(self),
                        *final(self),
                        *old(buffer),
                        *final(buffer),
                        index as int,
                        to_buffer,
                    )
                },
                Err(e) => {
                    &&& e == RegsError::InvalidBufferLength
                    &&& spec_comp_size(index as int) > old(buffer)@.len()
                    &&& *final(self) == *old(self)
                    &&& *final(buffer) == *old(buffer)
                },
            },
    {
        let sizes = initialize_comp_sizes();
        let len: usize = sizes[index];
        if len > buffer.size() {
            return Err(RegsError::InvalidBufferLength);
        }
        self.copy_to_or_from_buffer(index, buffer, to_buffer);
        Ok(())
    }
}

/// Directory round trip: copying a component out to a transfer buffer and
/// then copying that buffer into a second directory reproduces the original
/// component bytes exactly in the second directory's slot.
pub proof fn lemma_component_copy_round_trip(
    src_dir: AllVpStateComponents,
    buf_pre: Buffer,
    buf_mid: Buffer,
    dst_pre: AllVpStateComponents,
    dst_post: AllVpStateComponents,
    buf_post: Buffer,
    index: int,
)
    requires
        src_dir.wf(),
        dst_pre.wf(),
        0 <= index < MSHV_VP_STATE_COUNT,
        spec_comp_size(index) <= buf_pre@.len(),
        spec_copy_effect(src_dir, src_dir, buf_pre, buf_mid, index, true),
        spec_copy_effect(dst_pre, dst_post, buf_mid, buf_post, index, false),
    ensures
        forall|k: int|
            spec_comp_offset(index) <= k < spec_comp_offset(index) + spec_comp_size(index)
                ==> #[trigger] dst_post.buffer@[k] == src_dir.buffer@[k],
{
    lemma_comp_layout(index);
    let start = spec_comp_offset(index);
    let size = spec_comp_size(index);
    assert forall|k: int| start <= k < start + size implies #[trigger] dst_post.buffer@[k]
        == src_dir.buffer@[k] by {
        assert(dst_post.buffer@[k] == buf_mid@[k - start]);
        assert(buf_mid@[k - start] == src_dir.buffer@[start + (k - start)]);
    }
}

} // verus!
