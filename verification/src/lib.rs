//! Marshalling layer between a hypervisor's fixed binary representation of
//! virtual-processor architectural state and an in-process representation a
//! virtual-machine monitor can safely build, inspect, and mutate.
//!
//! The layer covers: packed segment/table descriptor conversion, the local
//! interrupt controller (LAPIC) state codec, the extended vector state
//! (XSAVE) codec, the multi-component VP-state buffer directory, and the
//! model-specific register (MSR) catalogue and set builder.
#![allow(non_camel_case_types)]

use vstd::prelude::*;

pub mod buffer;
pub mod lapic;
pub mod msr;
pub mod regs;
pub mod segment;
pub mod vp_state;
pub mod xsave;

verus! {

/// Granularity, in bytes, of the pages the hypervisor transfers state in.
pub const HV_PAGE_SIZE: usize = 4096;

/// Base-two logarithm of `HV_PAGE_SIZE`.
pub const HV_HYP_PAGE_SHIFT: usize = 12;

/// Errors surfaced by this layer.
#[derive(Clone, Copy, Debug, PartialEq, Eq, Structural)]
pub enum RegsError {
    /// A raw buffer of the requested size could not be allocated.
    AllocationFailure,
    /// A supplied buffer is smaller than the structure being decoded or
    /// encoded requires.
    SizeMismatch,
    /// An external transfer buffer is smaller than the state component
    /// being copied.
    InvalidBufferLength,
}

} // verus!
