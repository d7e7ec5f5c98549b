use vstd::prelude::*;
use crate::error::BackendError;

verus! {

/// Raw value of `VK_QUEUE_GRAPHICS_BIT`.
pub const QUEUE_GRAPHICS: u32 = 0x1;
/// Raw value of `VK_QUEUE_COMPUTE_BIT`.
pub const QUEUE_COMPUTE: u32 = 0x2;

/// A queue family of a physical device: its index and its capability bits.
#[derive(Debug, Clone, Copy, PartialEq, Eq, Structural)]
pub struct QueueFamily {
    pub index: u32,
    pub queue_flags: u32,
}

/// Whether a family with these capability bits can host the main queue:
/// it supports both graphics and compute.
pub open spec fn supports_main_queue(queue_flags: u32) -> bool {
    queue_flags & (QUEUE_GRAPHICS | QUEUE_COMPUTE) == (QUEUE_GRAPHICS | QUEUE_COMPUTE)
}

/// The queue families of a device, numbered in the order the driver lists
/// their capability bits.
pub fn queue_families(flags: &Vec<u32>) -> (r: Vec<QueueFamily>)
    requires
        flags@.len() <= u32::MAX as nat + 1,
    ensures
        r@.len() == flags@.len(),
        forall|i: int|
            0 <= i < r@.len() ==> (#[trigger] r@[i]).index == i && r@[i].queue_flags == flags@[i],
{
    let mut r: Vec<QueueFamily> = Vec::new();
    let mut i: usize = 0;
    while i < flags.len()
        invariant
            flags@.len() <= u32::MAX as nat + 1,
            i <= flags@.len(),
            r@.len() == i,
            forall|j: int|
                0 <= j < i ==> (#[trigger] r@[j]).index == j && r@[j].queue_flags == flags@[j],
        decreases flags@.len() - i,
    {
        r.push(QueueFamily { index: i as u32, queue_flags: flags[i] });
        i = i + 1;
    }
    r
}

/// The family of the main queue: the first that supports both graphics and
/// compute, or `NoSuitableQueue` when none does.
pub fn select_main_queue(families: &Vec<QueueFamily>) -> (r: Result<QueueFamily, BackendError>)
    ensures
        r is Ok ==> exists|i: int|
            0 <= i < families@.len() && families@[i] == r->Ok_0 && supports_main_queue(
                families@[i].queue_flags,
            ) && forall|j: int|
                0 <= j < i ==> !supports_main_queue(#[trigger] families@[j].queue_flags),
        r is Err <==> forall|i: int|
            0 <= i < families@.len() ==> !supports_main_queue(#[trigger] families@[i].queue_flags),
        r is Err ==> r->Err_0 == BackendError::NoSuitableQueue,
{
    let mask: u32 = QUEUE_GRAPHICS | QUEUE_COMPUTE;
    let mut i: usize = 0;
    while i < families.len()
        invariant
            mask == QUEUE_GRAPHICS | QUEUE_COMPUTE,
            i <= families@.len(),
            forall|j: int|
                0 <= j < i ==> !supports_main_queue(#[trigger] families@[j].queue_flags),
        decreases families@.len() - i,
    {
        if families[i].queue_flags & mask == mask {
            return Ok(families[i]);
        }
        i = i + 1;
    }
    Err(BackendError::NoSuitableQueue)
}

} // verus!
