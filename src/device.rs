use vstd::prelude::*;

verus! {

/// Most memory types a device can report.
pub const MAX_MEMORY_TYPES: usize = 32;

/// `flags` has every bit of `required`.
pub open spec fn flags_contain(flags: u32, required: u32) -> bool {
    flags & required == required
}

/// Memory type `i` is allowed by the requirement bits and has the wanted properties.
pub open spec fn memory_type_fits(type_bits: u32, type_flags: Seq<u32>, required: u32, i: int) -> bool {
    0 <= i < type_flags.len() && i < MAX_MEMORY_TYPES && type_bits & (1u32 << (i as u32)) != 0
        && flags_contain(type_flags[i], required)
}

/// The first memory type that a resource with requirement bits `type_bits`
/// may use and whose property flags include `required`.
pub fn find_memory_type(type_bits: u32, type_flags: &Vec<u32>, required: u32) -> (r: Option<u32>)
    ensures
        r matches Some(i) ==> memory_type_fits(type_bits, type_flags@, required, i as int) && forall|
            j: int,
        |
            0 <= j < i ==> !memory_type_fits(type_bits, type_flags@, required, j),
        r is None ==> forall|j: int| !memory_type_fits(type_bits, type_flags@, required, j),
{
    let mut i: usize = 0;
    while i < type_flags.len() && i < MAX_MEMORY_TYPES
        invariant
            i <= MAX_MEMORY_TYPES,
            i <= type_flags@.len(),
            forall|j: int| 0 <= j < i ==> !memory_type_fits(type_bits, type_flags@, required, j),
        decreases MAX_MEMORY_TYPES - i,
    {
        if type_bits & (1u32 << (i as u32)) != 0 && type_flags[i] & required == required {
            return Some(i as u32);
        }
        i = i + 1;
    }
    None
}

#[derive(Clone, Copy, PartialEq, Eq, Debug, Structural)]
pub enum ImageTiling {
    Linear,
    Optimal,
}

/// A candidate format with the features the device supports for it under each tiling.
#[derive(Clone, Copy, PartialEq, Eq, Debug, Structural)]
pub struct FormatSupport {
    pub format: i32,
    pub linear_features: u32,
    pub optimal_features: u32,
}

pub open spec fn format_supports(f: FormatSupport, tiling: ImageTiling, features: u32) -> bool {
    match tiling {
        ImageTiling::Linear => flags_contain(f.linear_features, features),
        ImageTiling::Optimal => flags_contain(f.optimal_features, features),
    }
}

/// The first candidate format that supports `features` under `tiling`.
pub fn find_supported_format(candidates: &Vec<FormatSupport>, tiling: ImageTiling, features: u32) -> (r:
    Option<i32>)
    ensures
        r matches Some(fmt) ==> exists|i: int|
            0 <= i < candidates@.len() && candidates@[i].format == fmt && format_supports(
                candidates@[i],
                tiling,
                features,
            ) && forall|j: int| 0 <= j < i ==> !format_supports(#[trigger] candidates@[j], tiling, features),
        r is None ==> forall|i: int|
            0 <= i < candidates@.len() ==> !format_supports(#[trigger] candidates@[i], tiling, features),
{
    let mut i: usize = 0;
    while i < candidates.len()
        invariant
            i <= candidates@.len(),
            forall|j: int| 0 <= j < i ==> !format_supports(#[trigger] candidates@[j], tiling, features),
        decreases candidates.len() - i,
    {
        let c = candidates[i];
        let ok = match tiling {
            ImageTiling::Linear => c.linear_features & features == features,
            ImageTiling::Optimal => c.optimal_features & features == features,
        };
        if ok {
            assert(format_supports(candidates@[i as int], tiling, features));
            return Some(c.format);
        }
        i = i + 1;
    }
    None
}

/// Format feature bit of formats usable as depth/stencil attachments.
pub const FEATURE_DEPTH_STENCIL_ATTACHMENT: u32 = 0x200;

/// The depth formats tried, in order of preference: 32-bit float depth, then
/// with 8-bit stencil, then 24-bit normalized depth with 8-bit stencil.
pub fn depth_format_candidates() -> (r: Vec<i32>)
    ensures
        r@ == seq![126i32, 130i32, 129i32],
{
    vec![126, 130, 129]
}

/// The first depth format, in the order of `depth_format_candidates`, usable
/// as an optimally tiled depth/stencil attachment; `supports` holds what the
/// device reports for each candidate.
pub fn find_depth_format(supports: &Vec<FormatSupport>) -> (r: Option<i32>)
    ensures
        r matches Some(fmt) ==> exists|i: int|
            0 <= i < supports@.len() && supports@[i].format == fmt && format_supports(
                supports@[i],
                ImageTiling::Optimal,
                FEATURE_DEPTH_STENCIL_ATTACHMENT,
            ) && forall|j: int|
                0 <= j < i ==> !format_supports(
                    #[trigger] supports@[j],
                    ImageTiling::Optimal,
                    FEATURE_DEPTH_STENCIL_ATTACHMENT,
                ),
        r is None ==> forall|i: int|
            0 <= i < supports@.len() ==> !format_supports(
                #[trigger] supports@[i],
                ImageTiling::Optimal,
                FEATURE_DEPTH_STENCIL_ATTACHMENT,
            ),
{
    find_supported_format(supports, ImageTiling::Optimal, FEATURE_DEPTH_STENCIL_ATTACHMENT)
}

/// The highest sample count, from 64 down to 2, in both the color and the
/// depth sample-count masks; 1 when there is none.
pub open spec fn max_sample_count_spec(color_counts: u32, depth_counts: u32) -> u32 {
    let counts = color_counts & depth_counts;
    if counts & 64 != 0 {
        64
    } else if counts & 32 != 0 {
        32
    } else if counts & 16 != 0 {
        16
    } else if counts & 8 != 0 {
        8
    } else if counts & 4 != 0 {
        4
    } else if counts & 2 != 0 {
        2
    } else {
        1
    }
}

pub fn max_usable_sample_count(color_counts: u32, depth_counts: u32) -> (r: u32)
    ensures
        r == max_sample_count_spec(color_counts, depth_counts),
{
    let counts = color_counts & depth_counts;
    if counts & 64 != 0 {
        64
    } else if counts & 32 != 0 {
        32
    } else if counts & 16 != 0 {
        16
    } else if counts & 8 != 0 {
        8
    } else if counts & 4 != 0 {
        4
    } else if counts & 2 != 0 {
        2
    } else {
        1
    }
}

/// What one queue family of a device can do.
#[derive(Clone, Copy, PartialEq, Eq, Debug, Structural)]
pub struct QueueFamilySupport {
    pub graphics: bool,
    pub present: bool,
}

#[derive(Clone, Copy, PartialEq, Eq, Debug, Structural)]
pub struct QueueFamilyIndices {
    pub graphics: u32,
    pub present: u32,
}

pub open spec fn first_graphics(f: Seq<QueueFamilySupport>, i: int) -> bool {
    0 <= i < f.len() && f[i].graphics && forall|j: int| 0 <= j < i ==> !(#[trigger] f[j]).graphics
}

pub open spec fn first_present(f: Seq<QueueFamilySupport>, i: int) -> bool {
    0 <= i < f.len() && f[i].present && forall|j: int| 0 <= j < i ==> !(#[trigger] f[j]).present
}

pub open spec fn has_graphics(f: Seq<QueueFamilySupport>) -> bool {
    exists|i: int| 0 <= i < f.len() && (#[trigger] f[i]).graphics
}

pub open spec fn has_present(f: Seq<QueueFamilySupport>) -> bool {
    exists|i: int| 0 <= i < f.len() && (#[trigger] f[i]).present
}

/// The first family with graphics support and the first with presentation
/// support, when both exist.
pub fn find_queue_families(families: &Vec<QueueFamilySupport>) -> (r: Option<QueueFamilyIndices>)
    requires
        families@.len() <= u32::MAX,
    ensures
        r is Some <==> has_graphics(families@) && has_present(families@),
        r matches Some(q) ==> first_graphics(families@, q.graphics as int) && first_present(
            families@,
            q.present as int,
        ),
{
    let mut graphics: Option<u32> = None;
    let mut present: Option<u32> = None;
    let mut i: usize = 0;
    while i < families.len()
        invariant
            i <= families@.len(),
            families@.len() <= u32::MAX,
            graphics matches Some(g) ==> g < i && first_graphics(families@, g as int),
            graphics is None ==> forall|j: int| 0 <= j < i ==> !(#[trigger] families@[j]).graphics,
            present matches Some(p) ==> p < i && first_present(families@, p as int),
            present is None ==> forall|j: int| 0 <= j < i ==> !(#[trigger] families@[j]).present,
        decreases families.len() - i,
    {
        let f = families[i];
        if graphics.is_none() && f.graphics {
            graphics = Some(i as u32);
        }
        if present.is_none() && f.present {
            present = Some(i as u32);
        }
        i = i + 1;
    }
    match (graphics, present) {
        (Some(g), Some(p)) => Some(QueueFamilyIndices { graphics: g, present: p }),
        _ => None,
    }
}

/// Queue families that get a queue at device creation: the graphics family,
/// and the presentation family when it is a different one.
pub fn queue_families_to_create(q: QueueFamilyIndices) -> (r: Vec<u32>)
    ensures
        q.graphics == q.present ==> r@ == seq![q.graphics],
        q.graphics != q.present ==> r@ == seq![q.graphics, q.present],
{
    let mut v: Vec<u32> = Vec::new();
    v.push(q.graphics);
    if q.present != q.graphics {
        v.push(q.present);
    }
    v
}

fn bytes_equal(a: &Vec<u8>, b: &Vec<u8>) -> (r: bool)
    ensures
        r == (a@ == b@),
{
    if a.len() != b.len() {
        return false;
    }
    let mut i: usize = 0;
    while i < a.len()
        invariant
            i <= a@.len(),
            a@.len() == b@.len(),
            forall|j: int| 0 <= j < i ==> a@[j] == b@[j],
        decreases a.len() - i,
    {
        if a[i] != b[i] {
            return false;
        }
        i = i + 1;
    }
    assert(a@ =~= b@);
    true
}

pub open spec fn name_listed(available: Seq<Vec<u8>>, name: Seq<u8>) -> bool {
    exists|j: int| 0 <= j < available.len() && (#[trigger] available[j])@ == name
}

fn name_present(available: &Vec<Vec<u8>>, name: &Vec<u8>) -> (r: bool)
    ensures
        r == name_listed(available@, name@),
{
    let mut j: usize = 0;
    while j < available.len()
        invariant
            j <= available@.len(),
            forall|k: int| 0 <= k < j ==> (#[trigger] available@[k])@ != name@,
        decreases available.len() - j,
    {
        if bytes_equal(&available[j], name) {
            return true;
        }
        j = j + 1;
    }
    false
}

/// Every required name (a layer or extension name, as bytes) is among the available ones.
pub fn all_names_present(available: &Vec<Vec<u8>>, required: &Vec<Vec<u8>>) -> (r: bool)
    ensures
        r == forall|i: int| 0 <= i < required@.len() ==> name_listed(available@, (#[trigger] required@[i])@),
{
    let mut i: usize = 0;
    while i < required.len()
        invariant
            i <= required@.len(),
            forall|k: int| 0 <= k < i ==> name_listed(available@, (#[trigger] required@[k])@),
        decreases required.len() - i,
    {
        if !name_present(available, &required[i]) {
            return false;
        }
        i = i + 1;
    }
    true
}

/// What the driver reports about one physical device, gathered before selection.
#[derive(Clone, PartialEq, Eq, Debug)]
pub struct DeviceCandidate {
    pub extensions_present: bool,
    pub surface_format_count: usize,
    pub present_mode_count: usize,
    pub sampler_anisotropy: bool,
    pub ray_tracing_pipeline: bool,
    pub buffer_device_address: bool,
    pub discrete_gpu: bool,
    pub geometry_shader: bool,
    pub queue_families: Vec<QueueFamilySupport>,
    pub color_sample_counts: u32,
    pub depth_sample_counts: u32,
}

/// The chosen physical device and the facts derived for it.
#[derive(Clone, Copy, PartialEq, Eq, Debug, Structural)]
pub struct SelectedDevice {
    pub index: usize,
    pub queues: QueueFamilyIndices,
    pub max_msaa_samples: u32,
}

pub open spec fn device_suitable(c: DeviceCandidate, needs_ray_tracing: bool) -> bool {
    &&& c.extensions_present
    &&& c.surface_format_count > 0
    &&& c.present_mode_count > 0
    &&& c.sampler_anisotropy
    &&& (needs_ray_tracing ==> c.ray_tracing_pipeline && c.buffer_device_address)
    &&& c.discrete_gpu
    &&& c.geometry_shader
    &&& has_graphics(c.queue_families@)
    &&& has_present(c.queue_families@)
}

/// The first suitable device: one with the required extensions and features,
/// some surface format and present mode, a discrete GPU with geometry shaders,
/// and queue families for graphics and presentation.
pub fn select_physical_device(candidates: &Vec<DeviceCandidate>, needs_ray_tracing: bool) -> (r: Option<
    SelectedDevice,
>)
    requires
        forall|i: int| 0 <= i < candidates@.len() ==> (#[trigger] candidates@[i]).queue_families@.len() <= u32::MAX,
    ensures
        r is None ==> forall|i: int|
            0 <= i < candidates@.len() ==> !device_suitable(#[trigger] candidates@[i], needs_ray_tracing),
        r matches Some(d) ==> {
            &&& d.index < candidates@.len()
            &&& device_suitable(candidates@[d.index as int], needs_ray_tracing)
            &&& forall|j: int| 0 <= j < d.index ==> !device_suitable(#[trigger] candidates@[j], needs_ray_tracing)
            &&& first_graphics(candidates@[d.index as int].queue_families@, d.queues.graphics as int)
            &&& first_present(candidates@[d.index as int].queue_families@, d.queues.present as int)
            &&& d.max_msaa_samples == max_sample_count_spec(
                candidates@[d.index as int].color_sample_counts,
                candidates@[d.index as int].depth_sample_counts,
            )
        },
{
    let mut i: usize = 0;
    while i < candidates.len()
        invariant
            i <= candidates@.len(),
            forall|k: int| 0 <= k < candidates@.len() ==> (#[trigger] candidates@[k]).queue_families@.len() <= u32::MAX,
            forall|j: int| 0 <= j < i ==> !device_suitable(#[trigger] candidates@[j], needs_ray_tracing),
        decreases candidates.len() - i,
    {
        let c = &candidates[i];
        let features_ok = c.extensions_present && c.surface_format_count > 0 && c.present_mode_count > 0
            && c.sampler_anisotropy && (!needs_ray_tracing || (c.ray_tracing_pipeline
            && c.buffer_device_address)) && c.discrete_gpu && c.geometry_shader;
        if features_ok {
            match find_queue_families(&c.queue_families) {
                Some(q) => {
                    return Some(
                        SelectedDevice {
                            index: i,
                            queues: q,
                            max_msaa_samples: max_usable_sample_count(
                                c.color_sample_counts,
                                c.depth_sample_counts,
                            ),
                        },
                    );
                },
                None => {},
            }
        }
        i = i + 1;
    }
    None
}

} // verus!
