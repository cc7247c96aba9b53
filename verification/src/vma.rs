//! Builder for allocation parameters handed to the device-memory
//! allocator, modeled with plain values: the usage class, allocation flag
//! bits, required and preferred property flag bits, the acceptable
//! memory-type mask, and an optional custom pool, named by its handle.
use vstd::prelude::*;

use crate::vkuint;

verus! {

/// Intended usage class of an allocation.
#[derive(Clone, Copy, Debug, PartialEq, Eq, Structural)]
pub enum MemoryUsage {
    Unknown,
    GpuOnly,
    CpuOnly,
    CpuToGpu,
    GpuToCpu,
}

/// Allocation creation parameters.
#[derive(Clone, Copy, Debug, PartialEq, Eq, Structural)]
pub struct AllocationCreateInfo {
    pub usage: MemoryUsage,
    pub flags: vkuint,
    pub required_flags: vkuint,
    pub preferred_flags: vkuint,
    /// Acceptable memory-type mask; 0 accepts every memory type index.
    pub memory_type_bits: vkuint,
    /// Handle of a custom allocator pool, if any.
    pub pool: Option<u64>,
}

/// Wrapper class for [`AllocationCreateInfo`].
#[derive(Clone, Copy, Debug, PartialEq, Eq, Structural)]
pub struct VmaAllocationCI {
    pub ci: AllocationCreateInfo,
}

impl VmaAllocationCI {
    /// The defaults: unknown usage, no flags, no property requirements or
    /// preferences, every memory type acceptable, no custom pool.
    pub fn default_ci() -> (r: AllocationCreateInfo)
        ensures
            r == (AllocationCreateInfo {
                usage: MemoryUsage::Unknown,
                flags: 0,
                required_flags: 0,
                preferred_flags: 0,
                memory_type_bits: 0,
                pool: None,
            }),
    {
        AllocationCreateInfo {
            usage: MemoryUsage::Unknown,
            flags: 0,
            required_flags: 0,
            preferred_flags: 0,
            memory_type_bits: 0,
            pool: None,
        }
    }

    /// Start from the defaults with the given usage class and required
    /// property flags.
    pub fn new(usage: MemoryUsage, required_flags: vkuint) -> (r: VmaAllocationCI)
        ensures
            r.ci == (AllocationCreateInfo { usage, required_flags, ..Self::default_ci_spec() }),
    {
        VmaAllocationCI { ci: AllocationCreateInfo { usage, required_flags, ..Self::default_ci() } }
    }

    /// The defaults, as a spec value.
    pub open spec fn default_ci_spec() -> AllocationCreateInfo {
        AllocationCreateInfo {
            usage: MemoryUsage::Unknown,
            flags: 0,
            required_flags: 0,
            preferred_flags: 0,
            memory_type_bits: 0,
            pool: None,
        }
    }

    /// Set the allocation flag bits.
    pub fn flags(self, flags: vkuint) -> (r: VmaAllocationCI)
        ensures
            r.ci == (AllocationCreateInfo { flags, ..self.ci }),
    {
        VmaAllocationCI { ci: AllocationCreateInfo { flags, ..self.ci } }
    }

    /// Set the preferred property flag bits.
    pub fn preferred_flags(self, flags: vkuint) -> (r: VmaAllocationCI)
        ensures
            r.ci == (AllocationCreateInfo { preferred_flags: flags, ..self.ci }),
    {
        VmaAllocationCI { ci: AllocationCreateInfo { preferred_flags: flags, ..self.ci } }
    }

    /// Restrict the acceptable memory type indices to the given mask.
    pub fn accept_memory_types(self, acceptable_type_bits: vkuint) -> (r: VmaAllocationCI)
        ensures
            r.ci == (AllocationCreateInfo { memory_type_bits: acceptable_type_bits, ..self.ci }),
    {
        VmaAllocationCI {
            ci: AllocationCreateInfo { memory_type_bits: acceptable_type_bits, ..self.ci },
        }
    }

    /// Allocate from the given custom pool.
    pub fn with_pool(self, pool: u64) -> (r: VmaAllocationCI)
        ensures
            r.ci == (AllocationCreateInfo { pool: Some(pool), ..self.ci }),
    {
        VmaAllocationCI { ci: AllocationCreateInfo { pool: Some(pool), ..self.ci } }
    }

    /// The assembled creation parameters.
    pub fn value(&self) -> (r: AllocationCreateInfo)
        ensures
            r == self.ci,
    {
        self.ci
    }
}

} // verus!
