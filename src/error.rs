use vstd::prelude::*;

verus! {

/// Why a display or window handle could not be obtained.
#[derive(Debug, Clone, Copy, PartialEq, Eq, Structural)]
pub enum WindowHandleError {
    NotSupported,
    Unavailable,
    Other,
}

/// Why the memory allocator could not serve a request.
#[derive(Debug, Clone, Copy, PartialEq, Eq, Structural)]
pub enum MemoryAllocationError {
    OutOfDeviceMemory,
    OutOfHostMemory,
    NoCompatibleMemoryTypes,
    TooManyObjects,
}

/// Why the descriptor allocator could not serve a request.
#[derive(Debug, Clone, Copy, PartialEq, Eq, Structural)]
pub enum DescriptorAllocationError {
    OutOfDeviceMemory,
    OutOfHostMemory,
    Fragmentation,
}

/// A request for a block of GPU memory.
#[derive(Debug, Clone, Copy, PartialEq, Eq, Structural)]
pub struct MemoryRequest {
    /// Minimal size of the block.
    pub size: u64,
    /// Minimal alignment mask of the block.
    pub align_mask: u64,
    /// Bits of the intended usage.
    pub usage: u8,
    /// Mask of the memory types the block may come from.
    pub memory_types: u32,
}

/// A request for descriptor sets of one layout.
#[derive(Debug, Clone, Copy, PartialEq, Eq, Structural)]
pub struct DescriptorRequest {
    /// Raw handle of the descriptor set layout.
    pub layout: u64,
    /// Number of sets asked for.
    pub count: u32,
    /// Whether the sets were asked for with update-after-bind semantics.
    pub bindless: bool,
}

/// Everything that can go wrong in the backend.
#[derive(Debug, Clone, Copy, PartialEq, Eq, Structural)]
pub enum BackendError {
    /// The Vulkan library could not be loaded.
    LoadingError,
    /// A driver call reported this non-success status code.
    VulkanError(i32),
    /// The display or window handle could not be obtained.
    RawWindowHandleError(WindowHandleError),
    /// No queue family supports both graphics and compute.
    NoSuitableQueue,
    /// The memory allocator failed; the request is kept for diagnostics.
    MemoryAllocationFailed(MemoryAllocationError, MemoryRequest),
    /// The descriptor allocator failed; the request is kept for diagnostics.
    DescriptorAllocationFailed(DescriptorAllocationError, DescriptorRequest),
}

/// The outcome of a driver call, as the library reports it.
pub fn vulkan_result(r: Result<(), i32>) -> (e: Result<(), BackendError>)
    ensures
        r is Ok <==> e is Ok,
        r is Err ==> e == Err::<(), BackendError>(BackendError::VulkanError(r->Err_0)),
{
    match r {
        Ok(()) => Ok(()),
        Err(code) => Err(BackendError::VulkanError(code)),
    }
}

/// The outcome of a memory allocation, with the request attached to a failure.
pub fn memory_allocation_result<T>(
    r: Result<T, MemoryAllocationError>,
    request: MemoryRequest,
) -> (e: Result<T, BackendError>)
    ensures
        r is Ok <==> e is Ok,
        r is Ok ==> e->Ok_0 == r->Ok_0,
        r is Err ==> e->Err_0 == BackendError::MemoryAllocationFailed(r->Err_0, request),
{
    match r {
        Ok(block) => Ok(block),
        Err(err) => Err(BackendError::MemoryAllocationFailed(err, request)),
    }
}

/// The outcome of a descriptor set allocation, with the request attached to
/// a failure.
pub fn descriptor_allocation_result<T>(
    r: Result<T, DescriptorAllocationError>,
    request: DescriptorRequest,
) -> (e: Result<T, BackendError>)
    ensures
        r is Ok <==> e is Ok,
        r is Ok ==> e->Ok_0 == r->Ok_0,
        r is Err ==> e->Err_0 == BackendError::DescriptorAllocationFailed(r->Err_0, request),
{
    match r {
        Ok(sets) => Ok(sets),
        Err(err) => Err(BackendError::DescriptorAllocationFailed(err, request)),
    }
}

} // verus!
