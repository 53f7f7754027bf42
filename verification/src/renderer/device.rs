use vstd::prelude::*;

verus! {

/// The largest sample count bit set in `counts`, from 64 down to 2; 1 where none is.
pub open spec fn spec_max_usable_sample_count(counts: u32) -> u32 {
    if counts & 64 == 64 {
        64
    } else if counts & 32 == 32 {
        32
    } else if counts & 16 == 16 {
        16
    } else if counts & 8 == 8 {
        8
    } else if counts & 4 == 4 {
        4
    } else if counts & 2 == 2 {
        2
    } else {
        1
    }
}

/// The sample count chosen from `counts` is one of the counts 1, 2, 4, ...,
/// 64; it is in `counts` unless it is 1, and no larger count from 2 to 64 is.
pub proof fn lemma_max_usable_sample_count_is_largest(counts: u32)
    ensures
        ({
            let r = spec_max_usable_sample_count(counts);
            &&& r == 1 || r == 2 || r == 4 || r == 8 || r == 16 || r == 32 || r == 64
            &&& r == 1 || counts & r == r
            &&& forall|p: u32|
                (p == 2 || p == 4 || p == 8 || p == 16 || p == 32 || p == 64) && p > r ==> #[trigger] (
                counts & p) != p
        }),
{
}

/// Both attachments support `p` samples.
pub open spec fn shared_count(color: u32, depth: u32, p: u32) -> bool {
    color & p == p && depth & p == p
}

/// The multisampling level is the largest count that both attachments
/// support, capped at eight: it is 1, 2, 4 or 8. Below eight it is shared by
/// both attachments (unless it is 1) and no larger count from 2 to 64 is;
/// eight means that some count from 8 to 64 is shared.
pub proof fn lemma_choose_sample_count_is_largest_shared(color: u32, depth: u32)
    ensures
        ({
            let r = spec_choose_sample_count(color, depth);
            &&& r == 1 || r == 2 || r == 4 || r == 8
            &&& r < 8 ==> (r == 1 || shared_count(color, depth, r)) && forall|p: u32|
                (p == 2 || p == 4 || p == 8 || p == 16 || p == 32 || p == 64) && p > r
                    ==> !#[trigger] shared_count(color, depth, p)
            &&& r == 8 ==> shared_count(color, depth, 8) || shared_count(color, depth, 16)
                || shared_count(color, depth, 32) || shared_count(color, depth, 64)
        }),
{
    let both = color & depth;
    lemma_max_usable_sample_count_is_largest(both);
    assert forall|p: u32| (p == 1 || p == 2 || p == 4 || p == 8 || p == 16 || p == 32 || p == 64)
        implies (both & p == p) == #[trigger] shared_count(color, depth, p) by {
        assert(((color & depth) & p == p) == (color & p == p && depth & p == p)) by (bit_vector);
    }
    assert((both & 2 == 2) == shared_count(color, depth, 2));
    assert((both & 4 == 4) == shared_count(color, depth, 4));
    assert((both & 8 == 8) == shared_count(color, depth, 8));
    assert((both & 16 == 16) == shared_count(color, depth, 16));
    assert((both & 32 == 32) == shared_count(color, depth, 32));
    assert((both & 64 == 64) == shared_count(color, depth, 64));
}

/// The most samples per pixel that `counts` (a set of `VK_SAMPLE_COUNT_*` bits) allows.
pub fn max_usable_sample_count(counts: u32) -> (r: u32)
    ensures
        r == spec_max_usable_sample_count(counts),
{
    if counts & 64 == 64 {
        64
    } else if counts & 32 == 32 {
        32
    } else if counts & 16 == 16 {
        16
    } else if counts & 8 == 8 {
        8
    } else if counts & 4 == 4 {
        4
    } else if counts & 2 == 2 {
        2
    } else {
        1
    }
}

/// The most samples that both color and depth attachments support, but no more than eight.
pub open spec fn spec_choose_sample_count(color_sample_counts: u32, depth_sample_counts: u32) -> u32 {
    if spec_max_usable_sample_count(color_sample_counts & depth_sample_counts) > 8 {
        8
    } else {
        spec_max_usable_sample_count(color_sample_counts & depth_sample_counts)
    }
}

/// The multisampling level: the most samples that both color and depth
/// attachments support, but no more than eight.
pub fn choose_sample_count(color_sample_counts: u32, depth_sample_counts: u32) -> (r: u32)
    ensures
        r == spec_choose_sample_count(color_sample_counts, depth_sample_counts),
{
    let max = max_usable_sample_count(color_sample_counts & depth_sample_counts);
    if max > 8 {
        8
    } else if max < 1 {
        1
    } else {
        max
    }
}

/// No feature is requested (nonzero) where the device reports it missing
/// (zero), as far as the shorter list goes.
pub open spec fn spec_feature_subset(requested: Seq<u32>, capabilities: Seq<u32>) -> bool {
    forall|i: int|
        0 <= i < requested.len() && i < capabilities.len() ==> !(requested[i] != 0
            && capabilities[i] == 0)
}

/// Whether the device has every feature requested: no feature is requested
/// (nonzero) where the device reports it missing (zero). The lists are
/// compared as far as the shorter one goes.
pub fn feature_subset(requested: &[u32], capabilities: &[u32]) -> (r: bool)
    ensures
        r == spec_feature_subset(requested@, capabilities@),
{
    let n = if requested.len() < capabilities.len() {
        requested.len()
    } else {
        capabilities.len()
    };
    let mut i: usize = 0;
    while i < n
        invariant
            n <= requested@.len(),
            n <= capabilities@.len(),
            n == requested@.len() || n == capabilities@.len(),
            i <= n,
            forall|j: int| 0 <= j < i ==> !(requested@[j] != 0 && capabilities@[j] == 0),
        decreases n - i,
    {
        if requested[i] != 0 && capabilities[i] == 0 {
            return false;
        }
        i = i + 1;
    }
    true
}

/// What the device reports of one of its queue families.
#[derive(Copy, Clone, Debug, PartialEq, Eq)]
pub struct QueueFamily {
    /// The family supports graphics work.
    pub graphics: bool,
    /// The family can present to the window's surface.
    pub present: bool,
}

/// The queue families to use: the first that supports graphics and the
/// first that can present. `None` where the device lacks either, so that it
/// cannot be used.
pub fn find_queue_families(families: &[QueueFamily]) -> (r: Option<(u32, u32)>)
    requires
        families@.len() <= u32::MAX,
    ensures
        match r {
            Some((g, p)) => {
                &&& g < families@.len() && families@[g as int].graphics
                &&& forall|j: int| 0 <= j < g ==> !families@[j].graphics
                &&& p < families@.len() && families@[p as int].present
                &&& forall|j: int| 0 <= j < p ==> !families@[j].present
            },
            None => (forall|j: int| 0 <= j < families@.len() ==> !families@[j].graphics) || (
            forall|j: int| 0 <= j < families@.len() ==> !families@[j].present),
        },
{
    let mut graphics_index: Option<u32> = None;
    let mut present_index: Option<u32> = None;
    let n = families.len();
    let mut i: usize = 0;
    while i < n
        invariant
            n == families@.len() <= u32::MAX,
            i <= n,
            !(graphics_index is Some && present_index is Some),
            match graphics_index {
                Some(g) => g < i && families@[g as int].graphics && forall|j: int|
                    0 <= j < g ==> !families@[j].graphics,
                None => forall|j: int| 0 <= j < i ==> !families@[j].graphics,
            },
            match present_index {
                Some(p) => p < i && families@[p as int].present && forall|j: int|
                    0 <= j < p ==> !families@[j].present,
                None => forall|j: int| 0 <= j < i ==> !families@[j].present,
            },
        decreases n - i,
    {
        let family = families[i];
        if graphics_index.is_none() && family.graphics {
            graphics_index = Some(i as u32);
        }
        if present_index.is_none() && family.present {
            present_index = Some(i as u32);
        }
        if let (Some(g), Some(p)) = (graphics_index, present_index) {
            return Some((g, p));
        }
        i = i + 1;
    }
    None
}

/// Feature flags, one `u32` per feature (nonzero when set), for the core
/// features and those of Vulkan 1.1, 1.2 and 1.3.
#[derive(Clone, Debug)]
pub struct FeatureLists {
    pub core: Vec<u32>,
    pub vulkan11: Vec<u32>,
    pub vulkan12: Vec<u32>,
    pub vulkan13: Vec<u32>,
}

/// Every requested feature of every list is one the device has.
pub open spec fn spec_features_supported(requested: FeatureLists, device: FeatureLists) -> bool {
    &&& spec_feature_subset(requested.core@, device.core@)
    &&& spec_feature_subset(requested.vulkan11@, device.vulkan11@)
    &&& spec_feature_subset(requested.vulkan12@, device.vulkan12@)
    &&& spec_feature_subset(requested.vulkan13@, device.vulkan13@)
}

/// What a physical device reports: its features, the sample counts its
/// framebuffers support, and its queue families.
#[derive(Clone, Debug)]
pub struct DeviceReport {
    pub features: FeatureLists,
    pub color_sample_counts: u32,
    pub depth_sample_counts: u32,
    pub queue_families: Vec<QueueFamily>,
}

/// The device can be used: it has the requested features, a queue family
/// for graphics and one that can present.
pub open spec fn spec_device_suitable(requested: FeatureLists, device: DeviceReport) -> bool {
    &&& spec_features_supported(requested, device.features)
    &&& exists|j: int| 0 <= j < device.queue_families@.len() && device.queue_families@[j].graphics
    &&& exists|j: int| 0 <= j < device.queue_families@.len() && device.queue_families@[j].present
}

/// `g` is the first graphics family and `p` the first presenting family of `families`.
pub open spec fn spec_first_queue_families(families: Seq<QueueFamily>, g: u32, p: u32) -> bool {
    &&& g < families.len() && families[g as int].graphics
    &&& forall|j: int| 0 <= j < g ==> !families[j].graphics
    &&& p < families.len() && families[p as int].present
    &&& forall|j: int| 0 <= j < p ==> !families[j].present
}

/// Whether the device has every requested feature.
pub fn features_supported(requested: &FeatureLists, device: &FeatureLists) -> (r: bool)
    ensures
        r == spec_features_supported(*requested, *device),
{
    feature_subset(requested.core.as_slice(), device.core.as_slice())
        && feature_subset(requested.vulkan11.as_slice(), device.vulkan11.as_slice())
        && feature_subset(requested.vulkan12.as_slice(), device.vulkan12.as_slice())
        && feature_subset(requested.vulkan13.as_slice(), device.vulkan13.as_slice())
}

/// Picks the first suitable device: returns its index, the graphics and
/// present queue families to use (the first of each) and its multisampling
/// level. `None` where no device is suitable.
pub fn pick_physical_device(requested: &FeatureLists, devices: &[DeviceReport]) -> (r: Option<(usize, (u32, u32), u32)>)
    requires
        forall|i: int| 0 <= i < devices@.len() ==> devices@[i].queue_families@.len() <= u32::MAX,
    ensures
        match r {
            Some((i, (g, p), samples)) => {
                &&& i < devices@.len()
                &&& spec_device_suitable(*requested, devices@[i as int])
                &&& forall|j: int| 0 <= j < i ==> !spec_device_suitable(*requested, #[trigger] devices@[j])
                &&& spec_first_queue_families(devices@[i as int].queue_families@, g, p)
                &&& samples == spec_choose_sample_count(
                    devices@[i as int].color_sample_counts,
                    devices@[i as int].depth_sample_counts,
                )
            },
            None => forall|j: int| 0 <= j < devices@.len() ==> !spec_device_suitable(*requested, #[trigger] devices@[j]),
        },
{
    let n = devices.len();
    let mut i: usize = 0;
    while i < n
        invariant
            n == devices@.len(),
            i <= n,
            forall|k: int| 0 <= k < devices@.len() ==> devices@[k].queue_families@.len() <= u32::MAX,
            forall|j: int| 0 <= j < i ==> !spec_device_suitable(*requested, #[trigger] devices@[j]),
        decreases n - i,
    {
        let device = &devices[i];
        if features_supported(requested, &device.features) {
            match find_queue_families(device.queue_families.as_slice()) {
                Some((g, p)) => {
                    let samples = choose_sample_count(device.color_sample_counts, device.depth_sample_counts);
                    return Some((i, (g, p), samples));
                },
                None => {},
            }
        }
        i = i + 1;
    }
    None
}

} // verus!
