use vstd::prelude::*;

verus! {

/// Raw value of the descriptor allocator's update-after-bind layout flag.
pub const DESCRIPTOR_UPDATE_AFTER_BIND: u32 = 0x2;
/// Cap on update-after-bind descriptors across all descriptor pools.
pub const UPDATE_AFTER_BIND_DESCRIPTORS_IN_ALL_POOLS: u32 = 2;

const MIB: u64 = 1024 * 1024;

/// Thresholds and chunk sizes of the GPU memory allocator, in bytes.
#[derive(Debug, Clone, Copy, PartialEq, Eq, Structural)]
pub struct MemoryAllocatorConfig {
    pub dedicated_threshold: u64,
    pub preferred_dedicated_threshold: u64,
    pub transient_dedicated_threshold: u64,
    pub starting_free_list_chunk: u64,
    pub final_free_list_chunk: u64,
    pub minimal_buddy_size: u64,
    pub initial_buddy_dedicated_size: u64,
}

/// The memory allocator settings of the device.
pub fn memory_allocator_config() -> (r: MemoryAllocatorConfig)
    ensures
        r.dedicated_threshold == 32 * 1024 * 1024,
        r.preferred_dedicated_threshold == 16 * 1024 * 1024,
        r.transient_dedicated_threshold == 16 * 1024 * 1024,
        r.starting_free_list_chunk == 256 * 1024 * 1024,
        r.final_free_list_chunk == 8 * 1024 * 1024,
        r.minimal_buddy_size == 64 * 1024,
        r.initial_buddy_dedicated_size == 64 * 1024 * 1024,
{
    MemoryAllocatorConfig {
        dedicated_threshold: 32 * MIB,
        preferred_dedicated_threshold: 16 * MIB,
        transient_dedicated_threshold: 16 * MIB,
        starting_free_list_chunk: 256 * MIB,
        final_free_list_chunk: 8 * MIB,
        minimal_buddy_size: 64 * 1024,
        initial_buddy_dedicated_size: 64 * MIB,
    }
}

/// Layout flags of a descriptor set request: update-after-bind exactly for
/// bindless sets.
pub fn descriptor_layout_flags(bindless: bool) -> (r: u32)
    ensures
        r == if bindless { DESCRIPTOR_UPDATE_AFTER_BIND } else { 0 },
{
    if bindless {
        DESCRIPTOR_UPDATE_AFTER_BIND
    } else {
        0
    }
}

} // verus!
