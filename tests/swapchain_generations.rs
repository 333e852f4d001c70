use cubulous::swapchain::{SwapchainGeneration, SwapchainResources};

fn generation(base: u64) -> SwapchainGeneration {
    SwapchainGeneration {
        swapchain: base,
        image_views: vec![base + 1, base + 2],
        canvas_images: vec![base + 3, base + 4],
        canvas_views: vec![base + 5, base + 6],
        canvas_memory: vec![base + 7, base + 8],
    }
}

#[test]
fn recreating_twice_keeps_one_generation() {
    let mut s = SwapchainResources::new(generation(100));
    assert_eq!(s.generation(), 0);
    let first = s.recreate(generation(200));
    assert_eq!(first, Some(generation(100)));
    let second = s.recreate(generation(300));
    assert_eq!(second, Some(generation(200)));
    assert_eq!(s.live(), &Some(generation(300)));
    assert_eq!(s.generation(), 2);
}

#[test]
fn retiring_twice_hands_back_once() {
    let mut s = SwapchainResources::new(generation(10));
    assert_eq!(s.retire(), Some(generation(10)));
    assert_eq!(s.retire(), None);
    assert_eq!(s.live(), &None);
    assert_eq!(s.recreate(generation(20)), None);
    assert_eq!(s.generation(), 1);
}
