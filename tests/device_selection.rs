use cubulous::device::{
    all_names_present, find_memory_type, find_queue_families, find_supported_format, max_usable_sample_count,
    select_physical_device, DeviceCandidate, FormatSupport, ImageTiling, QueueFamilyIndices, QueueFamilySupport,
    SelectedDevice,
};

const DEVICE_LOCAL: u32 = 0x1;
const HOST_VISIBLE: u32 = 0x2;
const HOST_COHERENT: u32 = 0x4;

#[test]
fn memory_type_must_be_allowed_and_have_properties() {
    let types = vec![DEVICE_LOCAL, HOST_VISIBLE | HOST_COHERENT, DEVICE_LOCAL | HOST_VISIBLE | HOST_COHERENT];
    assert_eq!(find_memory_type(0b111, &types, HOST_VISIBLE | HOST_COHERENT), Some(1));
    assert_eq!(find_memory_type(0b101, &types, HOST_VISIBLE | HOST_COHERENT), Some(2));
    assert_eq!(find_memory_type(0b111, &types, DEVICE_LOCAL), Some(0));
    assert_eq!(find_memory_type(0b001, &types, HOST_VISIBLE), None);
    assert_eq!(find_memory_type(0, &types, 0), None);
}

#[test]
fn supported_format_by_tiling() {
    let c = vec![
        FormatSupport { format: 126, linear_features: 0x200, optimal_features: 0 },
        FormatSupport { format: 130, linear_features: 0, optimal_features: 0x200 },
        FormatSupport { format: 129, linear_features: 0x200, optimal_features: 0x200 },
    ];
    assert_eq!(find_supported_format(&c, ImageTiling::Optimal, 0x200), Some(130));
    assert_eq!(find_supported_format(&c, ImageTiling::Linear, 0x200), Some(126));
    assert_eq!(find_supported_format(&c, ImageTiling::Optimal, 0x400), None);
}

#[test]
fn sample_count_is_highest_common() {
    assert_eq!(max_usable_sample_count(0b1111111, 0b0001111), 8);
    assert_eq!(max_usable_sample_count(0b1111111, 0b1111111), 64);
    assert_eq!(max_usable_sample_count(0b0000101, 0b0000111), 4);
    assert_eq!(max_usable_sample_count(0b1, 0b1), 1);
}

#[test]
fn queue_families_first_of_each() {
    let f = vec![
        QueueFamilySupport { graphics: false, present: false },
        QueueFamilySupport { graphics: true, present: false },
        QueueFamilySupport { graphics: true, present: true },
        QueueFamilySupport { graphics: false, present: true },
    ];
    assert_eq!(find_queue_families(&f), Some(QueueFamilyIndices { graphics: 1, present: 2 }));
    assert_eq!(find_queue_families(&f[..2].to_vec()), None);
}

#[test]
fn required_names_all_listed() {
    let available = vec![b"VK_KHR_swapchain".to_vec(), b"VK_KHR_ray_tracing_pipeline".to_vec()];
    assert!(all_names_present(&available, &vec![b"VK_KHR_swapchain".to_vec()]));
    assert!(all_names_present(&available, &vec![]));
    assert!(!all_names_present(&available, &vec![b"VK_KHR_swapchain".to_vec(), b"VK_KHR_acceleration_structure".to_vec()]));
    assert!(!all_names_present(&available, &vec![b"VK_KHR_swap".to_vec()]));
}

fn candidate(discrete: bool, ray_tracing: bool) -> DeviceCandidate {
    DeviceCandidate {
        extensions_present: true,
        surface_format_count: 2,
        present_mode_count: 1,
        sampler_anisotropy: true,
        ray_tracing_pipeline: ray_tracing,
        buffer_device_address: true,
        discrete_gpu: discrete,
        geometry_shader: true,
        queue_families: vec![QueueFamilySupport { graphics: true, present: true }],
        color_sample_counts: 0b1111,
        depth_sample_counts: 0b0111,
    }
}

#[test]
fn first_suitable_device_is_selected() {
    let devices = vec![candidate(false, true), candidate(true, false), candidate(true, true)];
    assert_eq!(
        select_physical_device(&devices, true),
        Some(SelectedDevice { index: 2, queues: QueueFamilyIndices { graphics: 0, present: 0 }, max_msaa_samples: 4 })
    );
    assert_eq!(select_physical_device(&devices, false).map(|d| d.index), Some(1));
    assert_eq!(select_physical_device(&devices[..1].to_vec(), false), None);
}

#[test]
fn depth_format_choice() {
    let c = cubulous::device::depth_format_candidates();
    assert_eq!(c, vec![126, 130, 129]);
    let supports = vec![
        FormatSupport { format: 126, linear_features: 0x200, optimal_features: 0 },
        FormatSupport { format: 130, linear_features: 0, optimal_features: 0x280 },
        FormatSupport { format: 129, linear_features: 0, optimal_features: 0x200 },
    ];
    assert_eq!(cubulous::device::find_depth_format(&supports), Some(130));
    assert_eq!(cubulous::device::find_depth_format(&supports[..1].to_vec()), None);
}

#[test]
fn one_queue_per_distinct_family() {
    assert_eq!(cubulous::device::queue_families_to_create(QueueFamilyIndices { graphics: 0, present: 0 }), vec![0]);
    assert_eq!(cubulous::device::queue_families_to_create(QueueFamilyIndices { graphics: 0, present: 3 }), vec![0, 3]);
}
