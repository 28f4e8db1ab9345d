use ironpress::resize::{resize_plan, scale_edge, Filter, ResizePlan};

fn plan(width: u32, height: u32, filter: Option<Filter>) -> ResizePlan {
    ResizePlan { width, height, filter }
}

#[test]
fn larger_square_source_is_brought_down_to_the_maximum() {
    assert_eq!(resize_plan(1024, 1024, 512, 512), plan(512, 512, Some(Filter::CatmullRom)));
    assert_eq!(resize_plan(513, 513, 512, 512), plan(512, 512, Some(Filter::CatmullRom)));
}

#[test]
fn smaller_square_source_is_brought_up_with_lanczos() {
    assert_eq!(resize_plan(256, 256, 512, 512), plan(512, 512, Some(Filter::Lanczos3)));
}

#[test]
fn source_of_the_requested_size_is_kept() {
    assert_eq!(resize_plan(512, 512, 512, 512), plan(512, 512, None));
}

#[test]
fn wide_source_keeps_its_aspect_ratio() {
    assert_eq!(resize_plan(1024, 512, 512, 512), plan(512, 256, Some(Filter::CatmullRom)));
    assert_eq!(resize_plan(512, 1024, 256, 256), plan(128, 256, Some(Filter::CatmullRom)));
}

#[test]
fn source_with_the_longer_edge_at_the_maximum_is_kept() {
    assert_eq!(resize_plan(512, 256, 512, 512), plan(512, 256, None));
}

#[test]
fn small_wide_source_is_brought_up_with_lanczos() {
    assert_eq!(resize_plan(100, 50, 400, 400), plan(400, 200, Some(Filter::Lanczos3)));
}

#[test]
fn shorter_edge_is_rounded_to_the_nearest_integer() {
    // 2 * 10 / 3 = 6.67
    assert_eq!(resize_plan(3, 2, 10, 10), plan(10, 7, Some(Filter::Lanczos3)));
    // 1 * 4 / 3 = 1.33
    assert_eq!(resize_plan(3, 1, 4, 4), plan(4, 1, Some(Filter::Lanczos3)));
    // 1 * 3 / 2 = 1.5, halves go up
    assert_eq!(resize_plan(2, 1, 3, 3), plan(3, 2, Some(Filter::Lanczos3)));
    // 1 * 100 / 1000 = 0.1
    assert_eq!(resize_plan(1000, 1, 100, 100), plan(100, 0, Some(Filter::CatmullRom)));
}

#[test]
fn longer_of_the_requested_edges_is_the_target() {
    assert_eq!(resize_plan(200, 100, 50, 80), plan(80, 40, Some(Filter::CatmullRom)));
    assert_eq!(resize_plan(100, 100, 50, 80), plan(50, 80, Some(Filter::CatmullRom)));
}

#[test]
fn extreme_sizes_do_not_overflow() {
    let max = u32::MAX;
    assert_eq!(resize_plan(max, 1, max, max), plan(max, 1, None));
    assert_eq!(resize_plan(max, max - 1, max, max), plan(max, max - 1, None));
    assert_eq!(resize_plan(1, 2, max, max), plan(2147483648, max, Some(Filter::Lanczos3)));
    assert_eq!(resize_plan(0, 5, 10, 10), plan(0, 10, Some(Filter::Lanczos3)));
    assert_eq!(resize_plan(0, 0, 10, 10), plan(10, 10, Some(Filter::Lanczos3)));
}

#[test]
fn scale_edge_rounds_halves_up() {
    assert_eq!(scale_edge(1, 1, 2), 1);
    assert_eq!(scale_edge(1, 1, 3), 0);
    assert_eq!(scale_edge(2, 1, 3), 1);
    assert_eq!(scale_edge(7, 7, 7), 7);
    assert_eq!(scale_edge(0, 9, 7), 0);
    assert_eq!(scale_edge(u32::MAX, u32::MAX, u32::MAX), u32::MAX);
}

#[test]
fn longest_edge_maps_to_the_target_exactly() {
    for longest in [1u32, 2, 3, 7, 640, 1023, 4096, 65535, u32::MAX] {
        for target in [0u32, 1, 5, 512, 999, u32::MAX] {
            assert_eq!(scale_edge(longest, target, longest), target);
        }
    }
}

#[test]
fn scaled_edges_stay_within_half_a_pixel() {
    for longest in [3u64, 10, 17, 1000, 4096] {
        for value in 0..=longest.min(40) {
            for target in [1u64, 2, 7, 64, 513] {
                let edge = scale_edge(value as u32, target as u32, longest as u32) as i128;
                let error = 2 * (edge * longest as i128 - (value * target) as i128);
                assert!(-(longest as i128) < error && error <= longest as i128);
            }
        }
    }
}
