use nova_ge::swapchain::{
    choose_extent, choose_image_count, choose_present_mode, choose_surface_format, plan_swapchain,
    Extent, SurfaceFormat, SurfaceLimits, SwapchainPlan, FORMAT_B8G8R8A8_UNORM,
    FORMAT_R8G8B8A8_UNORM, PRESENT_MODE_FIFO, PRESENT_MODE_MAILBOX,
};

fn fmt(format: i32, color_space: i32) -> SurfaceFormat {
    SurfaceFormat { format, color_space }
}

#[test]
fn first_preferred_format_is_chosen() {
    let formats = vec![fmt(50, 0), fmt(FORMAT_R8G8B8A8_UNORM, 1), fmt(FORMAT_B8G8R8A8_UNORM, 2)];
    assert_eq!(choose_surface_format(&formats), fmt(37, 1));
    let formats = vec![fmt(44, 7), fmt(37, 1)];
    assert_eq!(choose_surface_format(&formats), fmt(44, 7));
}

#[test]
fn first_format_when_none_preferred() {
    let formats = vec![fmt(50, 3), fmt(64, 0)];
    assert_eq!(choose_surface_format(&formats), fmt(50, 3));
}

#[test]
fn mailbox_preferred_over_fifo() {
    assert_eq!(choose_present_mode(&vec![0, 2, 1]), PRESENT_MODE_MAILBOX);
    assert_eq!(choose_present_mode(&vec![0, 2, 3]), PRESENT_MODE_FIFO);
    assert_eq!(choose_present_mode(&vec![]), PRESENT_MODE_FIFO);
}

fn limits(min_images: u32, max_images: u32) -> SurfaceLimits {
    SurfaceLimits {
        min_image_count: min_images,
        max_image_count: max_images,
        min_extent: Extent { width: 100, height: 50 },
        max_extent: Extent { width: 1920, height: 1080 },
    }
}

#[test]
fn extent_is_clamped() {
    let l = limits(2, 3);
    assert_eq!(choose_extent(Extent { width: 800, height: 600 }, l), Extent { width: 800, height: 600 });
    assert_eq!(choose_extent(Extent { width: 10, height: 5000 }, l), Extent { width: 100, height: 1080 });
    assert_eq!(choose_extent(Extent { width: 4000, height: 0 }, l), Extent { width: 1920, height: 50 });
}

#[test]
fn image_count_is_one_above_minimum_within_maximum() {
    assert_eq!(choose_image_count(2, 0), 3);
    assert_eq!(choose_image_count(2, 8), 3);
    assert_eq!(choose_image_count(2, 2), 2);
    assert_eq!(choose_image_count(3, 3), 3);
    assert_eq!(choose_image_count(u32::MAX - 1, 0), u32::MAX);
}

#[test]
fn whole_swapchain_plan() {
    let formats = vec![fmt(50, 0), fmt(44, 0)];
    let plan = plan_swapchain(limits(2, 0), &formats, &vec![2, 1], Extent { width: 800, height: 600 });
    assert_eq!(
        plan,
        SwapchainPlan {
            format: fmt(44, 0),
            present_mode: PRESENT_MODE_MAILBOX,
            extent: Extent { width: 800, height: 600 },
            image_count: 3,
        }
    );
}
