use vstd::prelude::*;

verus! {

/// Raw value of `VK_FILTER_NEAREST`.
pub const FILTER_NEAREST: i32 = 0;
/// Raw value of `VK_FILTER_LINEAR`.
pub const FILTER_LINEAR: i32 = 1;
/// Raw value of `VK_SAMPLER_MIPMAP_MODE_NEAREST`.
pub const MIPMAP_MODE_NEAREST: i32 = 0;
/// Raw value of `VK_SAMPLER_MIPMAP_MODE_LINEAR`.
pub const MIPMAP_MODE_LINEAR: i32 = 1;
/// Raw value of `VK_SAMPLER_ADDRESS_MODE_REPEAT`.
pub const ADDRESS_MODE_REPEAT: i32 = 0;
/// Raw value of `VK_SAMPLER_ADDRESS_MODE_CLAMP_TO_EDGE`.
pub const ADDRESS_MODE_CLAMP_TO_EDGE: i32 = 2;
/// Number of samplers built up front: two filters, two mipmap modes, two
/// address modes.
pub const SAMPLER_COUNT: usize = 8;

/// A sampler configuration: raw filter, mipmap mode and address mode.
#[derive(Debug, Clone, Copy, PartialEq, Eq, Hash, Structural)]
pub struct SamplerDesc(pub i32, pub i32, pub i32);

/// A sampler configuration to create, and whether anisotropic filtering is
/// enabled for it.
#[derive(Debug, Clone, Copy, PartialEq, Eq, Structural)]
pub struct SamplerConfig {
    pub desc: SamplerDesc,
    pub anisotropy: bool,
}

pub open spec fn filter_at(i: int) -> i32 {
    if i == 0 { FILTER_NEAREST } else { FILTER_LINEAR }
}

pub open spec fn mipmap_mode_at(i: int) -> i32 {
    if i == 0 { MIPMAP_MODE_NEAREST } else { MIPMAP_MODE_LINEAR }
}

pub open spec fn address_mode_at(i: int) -> i32 {
    if i == 0 { ADDRESS_MODE_REPEAT } else { ADDRESS_MODE_CLAMP_TO_EDGE }
}

/// The `i`-th configuration of the cache: filter outermost, address mode
/// innermost.
pub open spec fn precomputed_desc(i: int) -> SamplerDesc {
    SamplerDesc(filter_at(i / 4), mipmap_mode_at((i / 2) % 2), address_mode_at(i % 2))
}

/// Whether the cache holds a sampler for `d`.
pub open spec fn is_precomputed(d: SamplerDesc) -> bool {
    &&& (d.0 == FILTER_NEAREST || d.0 == FILTER_LINEAR)
    &&& (d.1 == MIPMAP_MODE_NEAREST || d.1 == MIPMAP_MODE_LINEAR)
    &&& (d.2 == ADDRESS_MODE_REPEAT || d.2 == ADDRESS_MODE_CLAMP_TO_EDGE)
}

/// Where the cache keeps the sampler for `d`, if it keeps one.
pub open spec fn desc_index(d: SamplerDesc) -> Option<int> {
    if is_precomputed(d) {
        Some(
            4 * (if d.0 == FILTER_NEAREST { 0int } else { 1int }) + 2 * (if d.1
                == MIPMAP_MODE_NEAREST {
                0int
            } else {
                1int
            }) + (if d.2 == ADDRESS_MODE_REPEAT { 0int } else { 1int }),
        )
    } else {
        None
    }
}

/// Every configuration of the cache, in the order `precomputed_desc` gives;
/// anisotropic filtering goes with the linear filter.
pub fn sampler_configs() -> (r: Vec<SamplerConfig>)
    ensures
        r@.len() == SAMPLER_COUNT,
        forall|i: int|
            0 <= i < SAMPLER_COUNT ==> (#[trigger] r@[i]).desc == precomputed_desc(i)
                && r@[i].anisotropy == (r@[i].desc.0 == FILTER_LINEAR),
{
    let filters: [i32; 2] = [FILTER_NEAREST, FILTER_LINEAR];
    let mipmap_modes: [i32; 2] = [MIPMAP_MODE_NEAREST, MIPMAP_MODE_LINEAR];
    let address_modes: [i32; 2] = [ADDRESS_MODE_REPEAT, ADDRESS_MODE_CLAMP_TO_EDGE];
    let mut r: Vec<SamplerConfig> = Vec::new();
    let mut f: usize = 0;
    while f < 2
        invariant
            f <= 2,
            r@.len() == 4 * f,
            filters@ == seq![FILTER_NEAREST, FILTER_LINEAR],
            mipmap_modes@ == seq![MIPMAP_MODE_NEAREST, MIPMAP_MODE_LINEAR],
            address_modes@ == seq![ADDRESS_MODE_REPEAT, ADDRESS_MODE_CLAMP_TO_EDGE],
            forall|i: int|
                0 <= i < r@.len() ==> (#[trigger] r@[i]).desc == precomputed_desc(i)
                    && r@[i].anisotropy == (r@[i].desc.0 == FILTER_LINEAR),
        decreases 2 - f,
    {
        let mut m: usize = 0;
        while m < 2
            invariant
                f < 2,
                m <= 2,
                r@.len() == 4 * f + 2 * m,
                filters@ == seq![FILTER_NEAREST, FILTER_LINEAR],
                mipmap_modes@ == seq![MIPMAP_MODE_NEAREST, MIPMAP_MODE_LINEAR],
                address_modes@ == seq![ADDRESS_MODE_REPEAT, ADDRESS_MODE_CLAMP_TO_EDGE],
                forall|i: int|
                    0 <= i < r@.len() ==> (#[trigger] r@[i]).desc == precomputed_desc(i)
                        && r@[i].anisotropy == (r@[i].desc.0 == FILTER_LINEAR),
            decreases 2 - m,
        {
            let mut a: usize = 0;
            while a < 2
                invariant
                    f < 2,
                    m < 2,
                    a <= 2,
                    r@.len() == 4 * f + 2 * m + a,
                    filters@ == seq![FILTER_NEAREST, FILTER_LINEAR],
                    mipmap_modes@ == seq![MIPMAP_MODE_NEAREST, MIPMAP_MODE_LINEAR],
                    address_modes@ == seq![ADDRESS_MODE_REPEAT, ADDRESS_MODE_CLAMP_TO_EDGE],
                    forall|i: int|
                        0 <= i < r@.len() ==> (#[trigger] r@[i]).desc == precomputed_desc(i)
                            && r@[i].anisotropy == (r@[i].desc.0 == FILTER_LINEAR),
                decreases 2 - a,
            {
                let filter = filters[f];
                let desc = SamplerDesc(filter, mipmap_modes[m], address_modes[a]);
                let config = SamplerConfig { desc, anisotropy: filter == FILTER_LINEAR };
                let ghost k: int = r@.len() as int;
                assert(k / 4 == f && (k / 2) % 2 == m && k % 2 == a);
                r.push(config);
                a = a + 1;
            }
            m = m + 1;
        }
        f = f + 1;
    }
    r
}

/// Where the cache keeps the sampler for `desc`, or `None` where it keeps none.
pub fn sampler_index(desc: SamplerDesc) -> (r: Option<usize>)
    ensures
        r is Some <==> desc_index(desc) is Some,
        r is Some ==> r->Some_0 == desc_index(desc)->Some_0,
{
    let f: usize = if desc.0 == FILTER_NEAREST {
        0
    } else if desc.0 == FILTER_LINEAR {
        1
    } else {
        return None;
    };
    let m: usize = if desc.1 == MIPMAP_MODE_NEAREST {
        0
    } else if desc.1 == MIPMAP_MODE_LINEAR {
        1
    } else {
        return None;
    };
    let a: usize = if desc.2 == ADDRESS_MODE_REPEAT {
        0
    } else if desc.2 == ADDRESS_MODE_CLAMP_TO_EDGE {
        1
    } else {
        return None;
    };
    Some(4 * f + 2 * m + a)
}

/// Immutable samplers, one for each precomputed configuration, stored at
/// the configuration's place in `sampler_configs`.
pub struct SamplerCache {
    samplers: Vec<u64>,
}

impl View for SamplerCache {
    type V = Seq<u64>;

    closed spec fn view(&self) -> Seq<u64> {
        self.samplers@
    }
}

impl SamplerCache {
    #[verifier::type_invariant]
    spec fn inv(&self) -> bool {
        self.samplers@.len() == SAMPLER_COUNT
    }

    /// Builds the cache from the samplers created for `sampler_configs()`, in
    /// that order; `None` unless there is exactly one sampler for each.
    pub fn new(samplers: Vec<u64>) -> (r: Option<SamplerCache>)
        ensures
            r is Some <==> samplers@.len() == SAMPLER_COUNT,
            r is Some ==> r->Some_0@ == samplers@,
    {
        if samplers.len() == SAMPLER_COUNT {
            Some(SamplerCache { samplers })
        } else {
            None
        }
    }

    /// The sampler for `desc`: a constant-time lookup.
    pub fn get(&self, desc: SamplerDesc) -> (r: Option<u64>)
        ensures
            r == (match desc_index(desc) {
                Some(i) => Some(self@[i]),
                None => None,
            }),
    {
        proof {
            use_type_invariant(self);
        }
        match sampler_index(desc) {
            Some(i) => Some(self.samplers[i]),
            None => None,
        }
    }

    /// Every sampler of the cache, for destruction.
    pub fn into_handles(self) -> (r: Vec<u64>)
        ensures
            r@ == self@,
    {
        self.samplers
    }
}

/// Each precomputed configuration has its own place in the cache, the one
/// where `sampler_configs` lists it, and a configuration outside the
/// precomputed set has none.
pub proof fn lemma_sampler_cache_exact(d: SamplerDesc)
    ensures
        desc_index(d) is Some <==> is_precomputed(d),
        is_precomputed(d) ==> 0 <= desc_index(d)->Some_0 < SAMPLER_COUNT && precomputed_desc(
            desc_index(d)->Some_0,
        ) == d,
        forall|i: int| 0 <= i < SAMPLER_COUNT ==> desc_index(#[trigger] precomputed_desc(i)) == Some(i),
{
    assert forall|i: int| 0 <= i < SAMPLER_COUNT implies desc_index(#[trigger] precomputed_desc(i)) == Some(i) by {
        assert(0 <= i / 4 < 2 && 0 <= (i / 2) % 2 < 2 && 0 <= i % 2 < 2);
        assert(i == 4 * (i / 4) + 2 * ((i / 2) % 2) + i % 2);
    }
}

} // verus!
