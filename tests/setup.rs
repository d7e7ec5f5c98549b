use dess_backend::allocator::{descriptor_layout_flags, memory_allocator_config, DESCRIPTOR_UPDATE_AFTER_BIND};
use dess_backend::error::{
    descriptor_allocation_result, memory_allocation_result, vulkan_result, BackendError,
    DescriptorAllocationError, DescriptorRequest, MemoryAllocationError, MemoryRequest,
};
use dess_backend::instance::{
    api_version, debug_message_severities, debug_message_types, make_api_version,
    message_log_level, message_type_label, InstanceBuilder, InstanceExtension, InstanceLayer,
    LogLevel,
};
use dess_backend::physical_device::{queue_families, select_main_queue, QueueFamily};

#[test]
fn submission_and_allocation_failures_are_distinct() {
    let submit = vulkan_result(Err(-4));
    assert_eq!(submit, Err(BackendError::VulkanError(-4)));
    assert_eq!(vulkan_result(Ok(())), Ok(()));

    let request = MemoryRequest { size: 4096, align_mask: 255, usage: 0x1, memory_types: 0b1011 };
    let alloc: Result<u64, BackendError> =
        memory_allocation_result(Err(MemoryAllocationError::OutOfDeviceMemory), request);
    match alloc {
        Err(BackendError::MemoryAllocationFailed(kind, req)) => {
            assert_eq!(kind, MemoryAllocationError::OutOfDeviceMemory);
            assert_eq!(req, request);
            assert_eq!(req.size, 4096);
        }
        _ => panic!("expected an allocation failure"),
    }
    assert_ne!(alloc, submit.map(|_| 0u64));
    assert_eq!(memory_allocation_result::<u64>(Ok(9), request), Ok(9));
}

#[test]
fn descriptor_failure_keeps_the_request() {
    let request = DescriptorRequest { layout: 77, count: 3, bindless: true };
    let r: Result<Vec<u64>, BackendError> =
        descriptor_allocation_result(Err(DescriptorAllocationError::Fragmentation), request);
    assert_eq!(
        r,
        Err(BackendError::DescriptorAllocationFailed(DescriptorAllocationError::Fragmentation, request))
    );
    assert_eq!(descriptor_allocation_result(Ok(vec![1u64, 2]), request), Ok(vec![1, 2]));
}

#[test]
fn main_queue_is_the_first_graphics_and_compute_family() {
    let families = queue_families(&vec![0x4, 0x1, 0x7, 0x3]);
    assert_eq!(families[1], QueueFamily { index: 1, queue_flags: 0x1 });
    assert_eq!(select_main_queue(&families), Ok(QueueFamily { index: 2, queue_flags: 0x7 }));
    let none = queue_families(&vec![0x1, 0x2, 0x4]);
    assert_eq!(select_main_queue(&none), Err(BackendError::NoSuitableQueue));
    assert_eq!(select_main_queue(&Vec::new()), Err(BackendError::NoSuitableQueue));
}

#[test]
fn builder_picks_extensions_and_layers() {
    let plain = InstanceBuilder::default().title("demo");
    assert!(!plain.is_debug());
    assert_eq!(plain.get_title(), Some("demo"));
    assert_eq!(plain.extensions(), vec![InstanceExtension::GetPhysicalDeviceProperties2]);
    assert!(plain.layers().is_empty());

    let debug = InstanceBuilder::new().debug(true);
    assert!(debug.is_debug());
    assert_eq!(debug.get_title(), None);
    assert_eq!(
        debug.extensions(),
        vec![InstanceExtension::GetPhysicalDeviceProperties2, InstanceExtension::DebugUtils]
    );
    assert_eq!(debug.layers(), vec![InstanceLayer::KhronosValidation]);
    assert!(!debug.debug(false).is_debug());
}

#[test]
fn api_version_packs_fields() {
    assert_eq!(api_version(), 4206592);
    assert_eq!(make_api_version(0, 1, 3, 0), (1 << 22) | (3 << 12));
    assert_eq!(make_api_version(1, 2, 3, 4), (1 << 29) | (2 << 22) | (3 << 12) | 4);
}

#[test]
fn debug_messages_are_classified() {
    assert_eq!(debug_message_types(), 0x7);
    assert_eq!(debug_message_severities(), 0x1110);
    assert_eq!(message_type_label(0x8), "Device address binding");
    assert_eq!(message_type_label(0x4), "Perf");
    assert_eq!(message_type_label(0x2), "Validation");
    assert_eq!(message_type_label(0x1), "");
    assert_eq!(message_type_label(0x6), "");
    assert_eq!(message_log_level(0x1000), LogLevel::Error);
    assert_eq!(message_log_level(0x100), LogLevel::Warn);
    assert_eq!(message_log_level(0x1), LogLevel::Trace);
    assert_eq!(message_log_level(0x10), LogLevel::Info);
}

#[test]
fn allocator_settings() {
    let c = memory_allocator_config();
    assert_eq!(c.dedicated_threshold, 32 << 20);
    assert_eq!(c.preferred_dedicated_threshold, 16 << 20);
    assert_eq!(c.transient_dedicated_threshold, 16 << 20);
    assert_eq!(c.starting_free_list_chunk, 256 << 20);
    assert_eq!(c.final_free_list_chunk, 8 << 20);
    assert_eq!(c.minimal_buddy_size, 64 << 10);
    assert_eq!(c.initial_buddy_dedicated_size, 64 << 20);
    assert_eq!(descriptor_layout_flags(true), DESCRIPTOR_UPDATE_AFTER_BIND);
    assert_eq!(descriptor_layout_flags(false), 0);
}
