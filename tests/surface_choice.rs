use cubulous::surface::{
    choose_present_mode, choose_surface_format, choose_swap_extent, sharing_mode, swapchain_image_count, Extent2D,
    SharingMode, SurfaceCapabilities, SurfaceFormat, PRESENT_MODE_FIFO, PRESENT_MODE_MAILBOX,
};

fn caps(current: Extent2D, min_count: u32, max_count: u32) -> SurfaceCapabilities {
    SurfaceCapabilities {
        current_extent: current,
        min_image_extent: Extent2D { width: 100, height: 50 },
        max_image_extent: Extent2D { width: 1920, height: 1080 },
        min_image_count: min_count,
        max_image_count: max_count,
    }
}

#[test]
fn fixed_extent_is_taken_as_is() {
    let c = caps(Extent2D { width: 800, height: 600 }, 2, 3);
    assert_eq!(choose_swap_extent(&c, Extent2D { width: 5000, height: 5000 }), Extent2D { width: 800, height: 600 });
}

#[test]
fn free_extent_is_clamped_to_limits() {
    let c = caps(Extent2D { width: u32::MAX, height: u32::MAX }, 2, 3);
    assert_eq!(choose_swap_extent(&c, Extent2D { width: 5000, height: 10 }), Extent2D { width: 1920, height: 50 });
    assert_eq!(choose_swap_extent(&c, Extent2D { width: 640, height: 480 }), Extent2D { width: 640, height: 480 });
}

#[test]
fn image_count_is_one_above_minimum_within_maximum() {
    assert_eq!(swapchain_image_count(&caps(Extent2D { width: 1, height: 1 }, 2, 3)), 3);
    assert_eq!(swapchain_image_count(&caps(Extent2D { width: 1, height: 1 }, 3, 3)), 3);
    assert_eq!(swapchain_image_count(&caps(Extent2D { width: 1, height: 1 }, 2, 0)), 3);
}

#[test]
fn surface_format_prefers_requested() {
    let formats = vec![
        SurfaceFormat { format: 50, color_space: 0 },
        SurfaceFormat { format: 44, color_space: 1 },
        SurfaceFormat { format: 44, color_space: 0 },
    ];
    assert_eq!(choose_surface_format(&formats, 44, None), SurfaceFormat { format: 44, color_space: 1 });
    assert_eq!(choose_surface_format(&formats, 44, Some(0)), SurfaceFormat { format: 44, color_space: 0 });
    assert_eq!(choose_surface_format(&formats, 37, None), SurfaceFormat { format: 50, color_space: 0 });
}

#[test]
fn mailbox_preferred_over_fifo() {
    assert_eq!(choose_present_mode(&vec![0, PRESENT_MODE_FIFO, PRESENT_MODE_MAILBOX]), PRESENT_MODE_MAILBOX);
    assert_eq!(choose_present_mode(&vec![0, PRESENT_MODE_FIFO]), PRESENT_MODE_FIFO);
    assert_eq!(choose_present_mode(&vec![]), PRESENT_MODE_FIFO);
}

#[test]
fn sharing_follows_queue_families() {
    assert_eq!(sharing_mode(0, 0), SharingMode::Exclusive);
    assert_eq!(sharing_mode(0, 2), SharingMode::Concurrent);
}
