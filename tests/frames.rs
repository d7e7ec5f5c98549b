use dess_backend::device::{CommandBuffer, Device, FrameResources, Queue};
use dess_backend::droplist::DropList;
use dess_backend::error::BackendError;
use dess_backend::sampler::SamplerCache;

fn resources(base: u64) -> FrameResources {
    FrameResources {
        pool: base,
        swapchain_acquired: base + 1,
        rendering_finished: base + 2,
        main_cb: CommandBuffer { cb: base + 3, fence: base + 4 },
        presentation_cb: CommandBuffer { cb: base + 5, fence: base + 6 },
    }
}

fn device() -> Device<u64, u64> {
    let samplers = SamplerCache::new((900..908).collect()).unwrap();
    Device::new(Queue { raw: 7, queue_family_index: 0 }, resources(100), resources(200), samplers)
}

fn images(list: DropList<u64, u64>) -> Vec<u64> {
    list.into_parts().0
}

#[test]
fn retired_objects_are_destroyed_two_frames_later() {
    let mut dev = device();
    dev.drop_image(1);
    dev.drop_buffer(2);
    dev.drop_memory(3);
    dev.drop_descriptor_set(4);

    let (frame, reclaimed) = dev.begin_frame(Ok(())).unwrap();
    assert!(reclaimed.is_empty());
    dev.drop_image(10);
    frame.end(&mut dev);

    let (frame, reclaimed) = dev.begin_frame(Ok(())).unwrap();
    assert!(reclaimed.is_empty());
    frame.end(&mut dev);

    let (frame, reclaimed) = dev.begin_frame(Ok(())).unwrap();
    let (imgs, bufs, mem, sets) = reclaimed.into_parts();
    assert_eq!(imgs, vec![1]);
    assert_eq!(bufs, vec![2]);
    assert_eq!(mem, vec![3]);
    assert_eq!(sets, vec![4]);
    frame.end(&mut dev);

    let (frame, reclaimed) = dev.begin_frame(Ok(())).unwrap();
    assert_eq!(images(reclaimed), vec![10]);
    frame.end(&mut dev);

    let (_frame, reclaimed) = dev.begin_frame(Ok(())).unwrap();
    assert!(reclaimed.is_empty());
}

#[test]
fn failed_fence_wait_does_not_begin_a_frame() {
    let mut dev = device();
    dev.drop_image(5);
    let r = dev.begin_frame(Err(-4));
    assert!(matches!(r, Err(BackendError::VulkanError(-4))));
    assert!(!dev.is_frame_open());
    assert_eq!(dev.next_frame_resources(), resources(100));

    let (frame, reclaimed) = dev.begin_frame(Ok(())).unwrap();
    assert!(reclaimed.is_empty());
    assert!(dev.is_frame_open());
    assert_eq!(frame.resources(), resources(100));
    assert_eq!(frame.queue(), Queue { raw: 7, queue_family_index: 0 });
}

#[test]
fn ending_a_frame_swaps_the_slots() {
    let mut dev = device();
    assert_eq!(dev.next_frame_resources(), resources(100));
    let (frame, _) = dev.begin_frame(Ok(())).unwrap();
    frame.end(&mut dev);
    assert!(!dev.is_frame_open());
    assert_eq!(dev.next_frame_resources(), resources(200));
    let (frame, _) = dev.begin_frame(Ok(())).unwrap();
    assert_eq!(frame.resources(), resources(200));
    dev.end_frame(frame);
    assert_eq!(dev.next_frame_resources(), resources(100));
}

#[test]
fn fresh_device_teardown_hands_out_everything_once() {
    let dev = device();
    let t = dev.teardown();
    assert!(t.current.is_empty());
    assert!(t.first.drop_list.is_empty());
    assert!(t.second.drop_list.is_empty());
    assert_eq!(t.first.resources, resources(100));
    assert_eq!(t.second.resources, resources(200));
    assert_eq!(t.samplers, (900..908).collect::<Vec<u64>>());
}

#[test]
fn teardown_hands_out_pending_objects() {
    let mut dev = device();
    dev.drop_image(1);
    let (frame, _) = dev.begin_frame(Ok(())).unwrap();
    dev.drop_buffer(2);
    frame.end(&mut dev);
    let t = dev.teardown();
    assert_eq!(t.current.into_parts().1, vec![2]);
    assert_eq!(t.first.resources, resources(200));
    assert!(t.first.drop_list.is_empty());
    assert_eq!(t.second.resources, resources(100));
    assert_eq!(images(t.second.drop_list), vec![1]);
}

#[test]
fn submit_info_uses_the_command_buffer_fence() {
    let mut dev = device();
    let (frame, _) = dev.begin_frame(Ok(())).unwrap();
    let cb = frame.resources().main_cb;
    let info = frame.submit_info(cb, 41, 0x400, 42, 0x1);
    assert_eq!(info.queue, 7);
    assert_eq!(info.command_buffer, 103);
    assert_eq!(info.fence, 104);
    assert_eq!((info.signal, info.signal_stage), (41, 0x400));
    assert_eq!((info.wait, info.wait_stage), (42, 0x1));
}
