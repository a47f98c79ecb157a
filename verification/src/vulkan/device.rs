use vstd::prelude::*;
use crate::vulkan::error::{DeviceFeature, Unsupported, VulkanError};
use crate::vulkan::names::{missing, missing_names, name_views};

verus! {

/// The queue families that graphics and presentation go to.
#[derive(Debug, Default, Copy, Clone, PartialEq, Eq, Structural)]
pub struct QueueFamilyIndices {
    pub graphics_family: u32,
    pub present_family: u32,
}

/// Whether a queue family can present to the surface, as the driver answered.
#[derive(Debug, Copy, Clone, PartialEq, Eq, Structural)]
pub enum PresentSupport {
    Supported,
    Unsupported,
    /// The query failed with this `VkResult` code.
    Failed(i32),
}

/// What the driver reports of one queue family.
#[derive(Debug, Copy, Clone, PartialEq, Eq, Structural)]
pub struct QueueFamilyInfo {
    pub queue_count: u32,
    pub supports_graphics: bool,
    pub present_support: PresentSupport,
}

/// Whether a family can take graphics work.
pub open spec fn is_graphics_family(f: QueueFamilyInfo) -> bool {
    f.queue_count > 0 && f.supports_graphics
}

/// Whether a family can present.
pub open spec fn is_present_family(f: QueueFamilyInfo) -> bool {
    f.queue_count > 0 && f.present_support == PresentSupport::Supported
}

/// The last index below `n` of a family that `graphics` (else `present`) selects.
pub open spec fn last_family(families: Seq<QueueFamilyInfo>, n: int, graphics: bool) -> Option<u32>
    decreases n,
{
    if n <= 0 {
        None
    } else if (if graphics {
        is_graphics_family(families[n - 1])
    } else {
        is_present_family(families[n - 1])
    }) {
        Some((n - 1) as u32)
    } else {
        last_family(families, n - 1, graphics)
    }
}

/// The outcome of the search from family `i` on: families are looked at in
/// order; a failed presentation query ends the search with its error, and the
/// search ends with success at the first family by which both a graphics and a
/// presenting family were seen, the last of each seen so far.
pub open spec fn queue_search(families: Seq<QueueFamilyInfo>, i: int) -> QueueSearch
    decreases families.len() - i,
{
    if i < 0 || i >= families.len() {
        QueueSearch::NotFound
    } else if families[i].present_support is Failed {
        QueueSearch::QueryFailed(families[i].present_support->Failed_0)
    } else if last_family(families, i + 1, true) is Some && last_family(families, i + 1, false) is Some {
        QueueSearch::Found(QueueFamilyIndices {
            graphics_family: last_family(families, i + 1, true)->Some_0,
            present_family: last_family(families, i + 1, false)->Some_0,
        })
    } else {
        queue_search(families, i + 1)
    }
}

/// How a search for queue families ends.
pub enum QueueSearch {
    Found(QueueFamilyIndices),
    QueryFailed(i32),
    NotFound,
}

/// Finds a graphics and a presenting queue family; see [`queue_search`]. When
/// the search runs out of families the device has no suitable families.
pub fn find_queue_families(families: &Vec<QueueFamilyInfo>) -> (r: Result<QueueFamilyIndices, VulkanError>)
    requires
        families@.len() <= u32::MAX,
    ensures
        match queue_search(families@, 0) {
            QueueSearch::Found(indices) => r == Ok::<QueueFamilyIndices, VulkanError>(indices),
            QueueSearch::QueryFailed(code) => r matches Err(VulkanError::Vulkan(c)) && c == code,
            QueueSearch::NotFound => r matches Err(VulkanError::Unsupported(Unsupported::NoQueueFamilies)),
        },
{
    let mut graphics_family: Option<u32> = None;
    let mut present_family: Option<u32> = None;
    let mut i: usize = 0;
    while i < families.len()
        invariant
            i <= families@.len(),
            families@.len() <= u32::MAX,
            graphics_family == last_family(families@, i as int, true),
            present_family == last_family(families@, i as int, false),
            queue_search(families@, 0) == queue_search(families@, i as int),
        decreases families@.len() - i,
    {
        let family = families[i];
        if family.queue_count > 0 && family.supports_graphics {
            graphics_family = Some(i as u32);
        }
        match family.present_support {
            PresentSupport::Failed(code) => {
                return Err(VulkanError::Vulkan(code));
            },
            PresentSupport::Supported => {
                if family.queue_count > 0 {
                    present_family = Some(i as u32);
                }
            },
            PresentSupport::Unsupported => {},
        }
        if let (Some(g), Some(p)) = (graphics_family, present_family) {
            return Ok(QueueFamilyIndices { graphics_family: g, present_family: p });
        }
        i = i + 1;
    }
    proof {
        lemma_search_exhausted(families@, i as int);
    }
    Err(VulkanError::Unsupported(Unsupported::NoQueueFamilies))
}

proof fn lemma_last_family(families: Seq<QueueFamilyInfo>, n: int, graphics: bool)
    requires
        n <= families.len(),
        families.len() <= u32::MAX,
    ensures
        last_family(families, n, graphics) matches Some(k) ==> 0 <= k < n && (if graphics {
            is_graphics_family(families[k as int])
        } else {
            is_present_family(families[k as int])
        }),
    decreases n,
{
    if n > 0 {
        lemma_last_family(families, n - 1, graphics);
    }
}

/// The families a search finds are real: the graphics family can take graphics
/// work and the present family can present, and both are families of the device.
pub proof fn lemma_found_families_are_capable(families: Seq<QueueFamilyInfo>, i: int)
    requires
        0 <= i,
        families.len() <= u32::MAX,
    ensures
        queue_search(families, i) matches QueueSearch::Found(ix) ==> (ix.graphics_family < families.len()
            && is_graphics_family(families[ix.graphics_family as int])
            && ix.present_family < families.len()
            && is_present_family(families[ix.present_family as int])),
    decreases families.len() - i,
{
    if i < families.len() {
        lemma_last_family(families, i + 1, true);
        lemma_last_family(families, i + 1, false);
        lemma_found_families_are_capable(families, i + 1);
    }
}

proof fn lemma_search_exhausted(families: Seq<QueueFamilyInfo>, i: int)
    requires
        i >= families.len(),
    ensures
        queue_search(families, i) == QueueSearch::NotFound,
{
}

// Raw values of `VkPhysicalDeviceType`.
pub const PHYSICAL_DEVICE_TYPE_OTHER: i32 = 0;
pub const PHYSICAL_DEVICE_TYPE_INTEGRATED_GPU: i32 = 1;
pub const PHYSICAL_DEVICE_TYPE_DISCRETE_GPU: i32 = 2;
pub const PHYSICAL_DEVICE_TYPE_VIRTUAL_GPU: i32 = 3;
pub const PHYSICAL_DEVICE_TYPE_CPU: i32 = 4;

/// How much a device type is preferred: lower is better, discrete GPUs first.
pub open spec fn spec_device_score(device_type: i32) -> u32 {
    if device_type == PHYSICAL_DEVICE_TYPE_DISCRETE_GPU {
        0
    } else if device_type == PHYSICAL_DEVICE_TYPE_INTEGRATED_GPU {
        1
    } else if device_type == PHYSICAL_DEVICE_TYPE_VIRTUAL_GPU {
        2
    } else if device_type == PHYSICAL_DEVICE_TYPE_CPU {
        3
    } else if device_type == PHYSICAL_DEVICE_TYPE_OTHER {
        4
    } else {
        5
    }
}

/// How much a device type is preferred: lower is better, discrete GPUs first.
pub fn device_score(device_type: i32) -> (s: u32)
    ensures
        s == spec_device_score(device_type),
{
    if device_type == PHYSICAL_DEVICE_TYPE_DISCRETE_GPU {
        0
    } else if device_type == PHYSICAL_DEVICE_TYPE_INTEGRATED_GPU {
        1
    } else if device_type == PHYSICAL_DEVICE_TYPE_VIRTUAL_GPU {
        2
    } else if device_type == PHYSICAL_DEVICE_TYPE_CPU {
        3
    } else if device_type == PHYSICAL_DEVICE_TYPE_OTHER {
        4
    } else {
        5
    }
}

/// A physical device as the selection sees it.
#[derive(Debug, Copy, Clone, PartialEq, Eq, Structural)]
pub struct DeviceCandidate {
    pub suitable: bool,
    pub device_type: i32,
}

/// Whether device `i` is the one to pick: it is suitable, no suitable device
/// scores lower, and every suitable device before it scores higher.
pub open spec fn is_best_device(devices: Seq<DeviceCandidate>, i: int) -> bool {
    &&& 0 <= i < devices.len()
    &&& devices[i].suitable
    &&& forall|j: int| 0 <= j < devices.len() && devices[j].suitable ==> spec_device_score(devices[i].device_type) <= spec_device_score(#[trigger] devices[j].device_type)
    &&& forall|j: int| 0 <= j < i && devices[j].suitable ==> spec_device_score(devices[i].device_type) < spec_device_score(#[trigger] devices[j].device_type)
}

/// Picks the first suitable device of the most preferred type, by index; fails
/// when no device is suitable.
pub fn pick_physical_device(devices: &Vec<DeviceCandidate>) -> (r: Result<usize, VulkanError>)
    ensures
        r matches Ok(i) ==> is_best_device(devices@, i as int),
        r is Err <==> forall|j: int| 0 <= j < devices@.len() ==> !(#[trigger] devices@[j]).suitable,
        r matches Err(e) ==> e matches VulkanError::Unsupported(Unsupported::NoSuitableDevice),
{
    let mut best: Option<usize> = None;
    let mut best_score: u32 = 0;
    let mut i: usize = 0;
    while i < devices.len()
        invariant
            i <= devices@.len(),
            best is None ==> forall|j: int| 0 <= j < i ==> !(#[trigger] devices@[j]).suitable,
            best matches Some(b) ==> (b < i && best_score == spec_device_score(devices@[b as int].device_type)
                && devices@[b as int].suitable
                && (forall|j: int| 0 <= j < i && devices@[j].suitable ==> best_score <= spec_device_score(#[trigger] devices@[j].device_type))
                && (forall|j: int| 0 <= j < b && devices@[j].suitable ==> best_score < spec_device_score(#[trigger] devices@[j].device_type))),
        decreases devices@.len() - i,
    {
        let candidate = devices[i];
        if candidate.suitable {
            let score = device_score(candidate.device_type);
            match best {
                None => {
                    best = Some(i);
                    best_score = score;
                },
                Some(_) => {
                    if score < best_score {
                        best = Some(i);
                        best_score = score;
                    }
                },
            }
        }
        i = i + 1;
    }
    match best {
        Some(b) => Ok(b),
        None => Err(VulkanError::Unsupported(Unsupported::NoSuitableDevice)),
    }
}

/// The surface formats and present modes a device offers, counted.
#[derive(Debug, Copy, Clone, PartialEq, Eq, Structural)]
pub struct SwapchainSupportCounts {
    pub formats: usize,
    pub present_modes: usize,
}

/// What the suitability check learned of a device: whether queue families were
/// found, whether the device extensions and features are supported, and the
/// swapchain support (`None` when the query failed or was not made).
#[derive(Debug, Copy, Clone, PartialEq, Eq, Structural)]
pub struct SuitabilityReport {
    pub queue_families_found: bool,
    pub extensions_supported: bool,
    pub swapchain_support: Option<SwapchainSupportCounts>,
    pub features_supported: bool,
}

/// A device is suitable when it has the queue families, the device extensions
/// and the features, and (its extensions being supported) a successful swapchain
/// query shows at least one surface format and one present mode.
pub open spec fn spec_is_suitable(report: SuitabilityReport) -> bool {
    &&& report.queue_families_found
    &&& report.extensions_supported
    &&& report.swapchain_support matches Some(c) && c.formats > 0 && c.present_modes > 0
    &&& report.features_supported
}

/// Whether a device is suitable; see [`spec_is_suitable`].
pub fn is_suitable(report: SuitabilityReport) -> (r: bool)
    ensures
        r == spec_is_suitable(report),
{
    let swapchain_adequate = if report.extensions_supported {
        match report.swapchain_support {
            Some(counts) => counts.formats != 0 && counts.present_modes != 0,
            None => {
                return false;
            },
        }
    } else {
        false
    };
    report.queue_families_found && report.extensions_supported && swapchain_adequate
        && report.features_supported
}

/// The device extensions the renderer needs: the swapchain extension.
pub open spec fn spec_device_extensions() -> Seq<Seq<char>> {
    seq!["VK_KHR_swapchain"@]
}

/// The device extensions the renderer needs.
pub fn device_extensions() -> (names: Vec<String>)
    ensures
        name_views(names@) == spec_device_extensions(),
{
    let mut names: Vec<String> = Vec::new();
    names.push(String::from_str("VK_KHR_swapchain"));
    assert(name_views(names@) == spec_device_extensions());
    names
}

/// Checks that a device offers every extension the renderer needs, given the
/// names of the extensions it offers; fails with the missing ones.
pub fn device_extensions_supported(supported: &Vec<String>) -> (r: Result<(), VulkanError>)
    ensures
        r is Ok <==> missing(spec_device_extensions(), name_views(supported@)).len() == 0,
        r matches Err(e) ==> e matches VulkanError::Unsupported(Unsupported::MissingDeviceExtensions(m)) && name_views(m@) == missing(spec_device_extensions(), name_views(supported@)),
{
    let required = device_extensions();
    let missing_extensions = missing_names(&required, supported);
    if missing_extensions.len() > 0 {
        Err(VulkanError::Unsupported(Unsupported::MissingDeviceExtensions(missing_extensions)))
    } else {
        Ok(())
    }
}

/// The Vulkan 1.2 and 1.3 features the renderer needs.
#[derive(Debug, Copy, Clone, PartialEq, Eq, Structural)]
pub struct ExtendedFeatures {
    pub buffer_device_address: bool,
    pub descriptor_indexing: bool,
    pub dynamic_rendering: bool,
    pub synchronization2: bool,
}

/// The features a device reports: the 1.0 features, and the newer ones when the
/// driver chained them in.
#[derive(Debug, Copy, Clone, PartialEq, Eq, Structural)]
pub struct DeviceFeatures {
    pub sampler_anisotropy: bool,
    pub extended: Option<ExtendedFeatures>,
}

/// The first needed feature the device lacks, checked in the order sampler
/// anisotropy, buffer device address, descriptor indexing, dynamic rendering,
/// synchronization2; the newer ones only when reported.
pub open spec fn first_missing_feature(features: DeviceFeatures) -> Option<DeviceFeature> {
    if !features.sampler_anisotropy {
        Some(DeviceFeature::SamplerAnisotropy)
    } else {
        match features.extended {
            None => None,
            Some(x) => if !x.buffer_device_address {
                Some(DeviceFeature::BufferDeviceAddress)
            } else if !x.descriptor_indexing {
                Some(DeviceFeature::DescriptorIndexing)
            } else if !x.dynamic_rendering {
                Some(DeviceFeature::DynamicRendering)
            } else if !x.synchronization2 {
                Some(DeviceFeature::Synchronization2)
            } else {
                None
            },
        }
    }
}

/// Checks that a device has the features the renderer needs; fails with the
/// first one it lacks.
pub fn device_features_supported(features: DeviceFeatures) -> (r: Result<(), VulkanError>)
    ensures
        match first_missing_feature(features) {
            None => r is Ok,
            Some(f) => r matches Err(VulkanError::Unsupported(Unsupported::MissingFeature(g))) && g == f,
        },
{
    if !features.sampler_anisotropy {
        return Err(VulkanError::Unsupported(Unsupported::MissingFeature(DeviceFeature::SamplerAnisotropy)));
    }
    if let Some(x) = features.extended {
        if !x.buffer_device_address {
            return Err(VulkanError::Unsupported(Unsupported::MissingFeature(DeviceFeature::BufferDeviceAddress)));
        }
        if !x.descriptor_indexing {
            return Err(VulkanError::Unsupported(Unsupported::MissingFeature(DeviceFeature::DescriptorIndexing)));
        }
        if !x.dynamic_rendering {
            return Err(VulkanError::Unsupported(Unsupported::MissingFeature(DeviceFeature::DynamicRendering)));
        }
        if !x.synchronization2 {
            return Err(VulkanError::Unsupported(Unsupported::MissingFeature(DeviceFeature::Synchronization2)));
        }
    }
    Ok(())
}

/// One of the memory types a device reports.
#[derive(Debug, Default, Copy, Clone, PartialEq, Eq, Structural)]
pub struct MemoryType {
    pub property_flags: u32,
    pub heap_index: u32,
}

/// Whether memory type `t` is accepted: the bit of its heap index is set in
/// `type_filter`, and it has all `properties`.
pub open spec fn accepts_memory_type(type_filter: u32, properties: u32, t: MemoryType) -> bool {
    type_filter & (1u32 << t.heap_index) != 0 && t.property_flags & properties == properties
}

/// The first accepted memory type, or the all-zero type when none is.
pub fn find_memory_type(type_filter: u32, properties: u32, memory_types: &Vec<MemoryType>) -> (r: MemoryType)
    requires
        forall|i: int| 0 <= i < memory_types@.len() ==> (#[trigger] memory_types@[i]).heap_index < 32,
    ensures
        (exists|i: int| 0 <= i < memory_types@.len() && accepts_memory_type(type_filter, properties, #[trigger] memory_types@[i]))
            ==> (exists|i: int| 0 <= i < memory_types@.len() && r == memory_types@[i] && accepts_memory_type(type_filter, properties, #[trigger] memory_types@[i]) && forall|j: int| 0 <= j < i ==> !accepts_memory_type(type_filter, properties, #[trigger] memory_types@[j])),
        (forall|i: int| 0 <= i < memory_types@.len() ==> !accepts_memory_type(type_filter, properties, #[trigger] memory_types@[i]))
            ==> r == (MemoryType { property_flags: 0, heap_index: 0 }),
{
    let mut i: usize = 0;
    while i < memory_types.len()
        invariant
            i <= memory_types@.len(),
            forall|k: int| 0 <= k < memory_types@.len() ==> (#[trigger] memory_types@[k]).heap_index < 32,
            forall|j: int| 0 <= j < i ==> !accepts_memory_type(type_filter, properties, #[trigger] memory_types@[j]),
        decreases memory_types@.len() - i,
    {
        let t = memory_types[i];
        if (type_filter & (1u32 << t.heap_index)) != 0 && (t.property_flags & properties) == properties {
            assert(accepts_memory_type(type_filter, properties, memory_types@[i as int]));
            return t;
        }
        i = i + 1;
    }
    MemoryType { property_flags: 0, heap_index: 0 }
}

// Raw values of `VkImageTiling` and the format used when none is supported.
pub const IMAGE_TILING_OPTIMAL: i32 = 0;
pub const IMAGE_TILING_LINEAR: i32 = 1;
pub const FORMAT_B8G8R8_UNORM: i32 = 30;

/// A candidate format with the features the device offers for it.
#[derive(Debug, Copy, Clone, PartialEq, Eq, Structural)]
pub struct FormatCandidate {
    pub format: i32,
    pub linear_tiling_features: u32,
    pub optimal_tiling_features: u32,
}

/// Whether a candidate offers all `features` with `tiling`.
pub open spec fn supports_format(c: FormatCandidate, tiling: i32, features: u32) -> bool {
    (tiling == IMAGE_TILING_LINEAR && c.linear_tiling_features & features == features)
        || (tiling == IMAGE_TILING_OPTIMAL && c.optimal_tiling_features & features == features)
}

/// The first candidate format that offers `features` with `tiling`, or
/// `B8G8R8_UNORM` when none does.
pub fn find_supported_format(candidates: &Vec<FormatCandidate>, tiling: i32, features: u32) -> (format: i32)
    ensures
        (exists|i: int| 0 <= i < candidates@.len() && supports_format(#[trigger] candidates@[i], tiling, features))
            ==> (exists|i: int| 0 <= i < candidates@.len() && format == candidates@[i].format && supports_format(#[trigger] candidates@[i], tiling, features) && forall|j: int| 0 <= j < i ==> !supports_format(#[trigger] candidates@[j], tiling, features)),
        (forall|i: int| 0 <= i < candidates@.len() ==> !supports_format(#[trigger] candidates@[i], tiling, features))
            ==> format == FORMAT_B8G8R8_UNORM,
{
    let mut i: usize = 0;
    while i < candidates.len()
        invariant
            i <= candidates@.len(),
            forall|j: int| 0 <= j < i ==> !supports_format(#[trigger] candidates@[j], tiling, features),
        decreases candidates@.len() - i,
    {
        let c = candidates[i];
        if (tiling == IMAGE_TILING_LINEAR && (c.linear_tiling_features & features) == features) || (tiling
            == IMAGE_TILING_OPTIMAL && (c.optimal_tiling_features & features) == features) {
            assert(supports_format(candidates@[i as int], tiling, features));
            return c.format;
        }
        i = i + 1;
    }
    FORMAT_B8G8R8_UNORM
}

/// The distinct queue families a logical device needs a queue from: the
/// graphics family, and the present family when it differs.
pub fn unique_queue_families(indices: QueueFamilyIndices) -> (families: Vec<u32>)
    ensures
        families@ == (if indices.present_family == indices.graphics_family {
            seq![indices.graphics_family]
        } else {
            seq![indices.graphics_family, indices.present_family]
        }),
{
    let mut families: Vec<u32> = Vec::new();
    families.push(indices.graphics_family);
    if indices.present_family != indices.graphics_family {
        families.push(indices.present_family);
    }
    families
}

} // verus!
