use vkbase::vma::AllocationCreateInfo;
use vkbase::vma::MemoryUsage;
use vkbase::vma::VmaAllocationCI;

#[test]
fn default_parameters_accept_everything() {
    let ci = VmaAllocationCI::default_ci();
    assert_eq!(
        ci,
        AllocationCreateInfo {
            usage: MemoryUsage::Unknown,
            flags: 0,
            required_flags: 0,
            preferred_flags: 0,
            memory_type_bits: 0,
            pool: None,
        }
    );
}

#[test]
fn new_sets_usage_and_required_flags_only() {
    let ci = VmaAllocationCI::new(MemoryUsage::GpuOnly, 0x1).value();
    assert_eq!(ci.usage, MemoryUsage::GpuOnly);
    assert_eq!(ci.required_flags, 0x1);
    assert_eq!(ci.flags, 0);
    assert_eq!(ci.preferred_flags, 0);
    assert_eq!(ci.memory_type_bits, 0);
    assert_eq!(ci.pool, None);
}

#[test]
fn builder_chain_assembles_all_parameters() {
    let ci = VmaAllocationCI::new(MemoryUsage::CpuToGpu, 0x6)
        .flags(0x2)
        .preferred_flags(0x1)
        .accept_memory_types(0b101)
        .with_pool(7)
        .value();
    assert_eq!(
        ci,
        AllocationCreateInfo {
            usage: MemoryUsage::CpuToGpu,
            flags: 0x2,
            required_flags: 0x6,
            preferred_flags: 0x1,
            memory_type_bits: 0b101,
            pool: Some(7),
        }
    );
}
