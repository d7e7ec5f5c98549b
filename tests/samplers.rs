use dess_backend::device::{CommandBuffer, Device, FrameResources, Queue};
use dess_backend::sampler::{
    sampler_configs, sampler_index, SamplerCache, SamplerDesc, ADDRESS_MODE_CLAMP_TO_EDGE,
    ADDRESS_MODE_REPEAT, FILTER_LINEAR, FILTER_NEAREST, MIPMAP_MODE_LINEAR, MIPMAP_MODE_NEAREST,
};

fn res(base: u64) -> FrameResources {
    FrameResources {
        pool: base,
        swapchain_acquired: base,
        rendering_finished: base,
        main_cb: CommandBuffer { cb: base, fence: base },
        presentation_cb: CommandBuffer { cb: base, fence: base },
    }
}

#[test]
fn configs_cover_the_cross_product_in_order() {
    let configs = sampler_configs();
    assert_eq!(configs.len(), 8);
    assert_eq!(configs[0].desc, SamplerDesc(FILTER_NEAREST, MIPMAP_MODE_NEAREST, ADDRESS_MODE_REPEAT));
    assert_eq!(configs[1].desc, SamplerDesc(FILTER_NEAREST, MIPMAP_MODE_NEAREST, ADDRESS_MODE_CLAMP_TO_EDGE));
    assert_eq!(configs[2].desc, SamplerDesc(FILTER_NEAREST, MIPMAP_MODE_LINEAR, ADDRESS_MODE_REPEAT));
    assert_eq!(configs[7].desc, SamplerDesc(FILTER_LINEAR, MIPMAP_MODE_LINEAR, ADDRESS_MODE_CLAMP_TO_EDGE));
    for c in &configs {
        assert_eq!(c.anisotropy, c.desc.0 == FILTER_LINEAR);
    }
}

#[test]
fn every_precomputed_sampler_is_found() {
    let handles: Vec<u64> = (50..58).collect();
    let dev: Device<u64, u64> = Device::new(
        Queue { raw: 1, queue_family_index: 0 },
        res(1),
        res(2),
        SamplerCache::new(handles.clone()).unwrap(),
    );
    for (i, c) in sampler_configs().iter().enumerate() {
        assert_eq!(sampler_index(c.desc), Some(i));
        assert_eq!(dev.get_sampler(c.desc), Some(handles[i]));
    }
}

#[test]
fn other_configurations_are_not_found() {
    let cache = SamplerCache::new((0..8).collect()).unwrap();
    // Cubic filtering, mirrored repeat and clamp to border are not cached.
    assert_eq!(cache.get(SamplerDesc(1000015000, MIPMAP_MODE_LINEAR, ADDRESS_MODE_REPEAT)), None);
    assert_eq!(cache.get(SamplerDesc(FILTER_LINEAR, MIPMAP_MODE_LINEAR, 1)), None);
    assert_eq!(cache.get(SamplerDesc(FILTER_NEAREST, MIPMAP_MODE_NEAREST, 3)), None);
    assert_eq!(cache.get(SamplerDesc(FILTER_NEAREST, 2, ADDRESS_MODE_REPEAT)), None);
    assert_eq!(sampler_index(SamplerDesc(-1, 0, 0)), None);
}

#[test]
fn cache_needs_one_sampler_per_configuration() {
    assert!(SamplerCache::new((0..7).collect()).is_none());
    assert!(SamplerCache::new((0..9).collect()).is_none());
    assert!(SamplerCache::new(Vec::new()).is_none());
    let cache = SamplerCache::new((10..18).collect()).unwrap();
    assert_eq!(cache.get(SamplerDesc(FILTER_LINEAR, MIPMAP_MODE_NEAREST, ADDRESS_MODE_CLAMP_TO_EDGE)), Some(15));
    assert_eq!(cache.into_handles(), (10..18).collect::<Vec<u64>>());
}
