//! Frame orchestration and GPU synchronization core of a real-time render
//! loop, together with the staging-to-device upload pipeline for static
//! assets.
//!
//! The crate models the CPU-observable state of the synchronization
//! primitives (fences, the shared image-acquired semaphore) and of device
//! memory with plain values, and proves the frame pacing and upload logic
//! against that model.  The unverified layer that talks to the graphics API
//! drives these functions and mirrors every transition onto the real
//! primitives.
use vstd::prelude::*;

pub mod asset;
pub mod device;
pub mod error;
pub mod frame;
pub mod loops;
pub mod sync;
pub mod vma;

verus! {

/// Unsigned integer type commonly used by the graphics API (uint32_t).
#[allow(non_camel_case_types)]
pub type vkuint = u32;

} // verus!
