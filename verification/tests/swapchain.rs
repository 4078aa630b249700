use sigill::constants;
use sigill::swapchain::{
    build_swapchain_config, Extent2D, SharingMode, SurfaceCapabilities, SurfaceFormat,
    SwapchainSupport,
};

fn support_with(formats: Vec<SurfaceFormat>, modes: Vec<u32>) -> SwapchainSupport {
    SwapchainSupport {
        capabilities: SurfaceCapabilities {
            min_image_count: 3,
            current_transform: 1,
            min_image_extent: Extent2D { width: 64, height: 64 },
            max_image_extent: Extent2D { width: 4096, height: 4096 },
        },
        formats,
        present_modes: modes,
    }
}

fn preferred() -> SurfaceFormat {
    SurfaceFormat {
        format: constants::FORMAT_B8G8R8A8_SRGB,
        color_space: constants::COLOR_SPACE_SRGB_NONLINEAR,
    }
}

#[test]
fn extent_clamps_below_minimum() {
    let s = support_with(vec![preferred()], vec![constants::PRESENT_MODE_FIFO]);
    assert_eq!(s.select_extent(10, 10), Extent2D { width: 64, height: 64 });
}

#[test]
fn extent_clamps_above_maximum() {
    let s = support_with(vec![preferred()], vec![constants::PRESENT_MODE_FIFO]);
    assert_eq!(
        s.select_extent(8000, 8000),
        Extent2D { width: 4096, height: 4096 }
    );
}

#[test]
fn extent_in_range_is_unchanged() {
    let s = support_with(vec![preferred()], vec![constants::PRESENT_MODE_FIFO]);
    assert_eq!(s.select_extent(800, 600), Extent2D { width: 800, height: 600 });
}

#[test]
fn present_mode_preferred_when_supported() {
    let s = support_with(
        vec![preferred()],
        vec![
            constants::PRESENT_MODE_FIFO,
            constants::PRESENT_MODE_MAILBOX,
            constants::PRESENT_MODE_IMMEDIATE,
        ],
    );
    assert_eq!(
        s.select_present_mode(constants::PRESENT_MODE_MAILBOX),
        constants::PRESENT_MODE_MAILBOX
    );
}

#[test]
fn present_mode_falls_back_to_fifo() {
    let s = support_with(
        vec![preferred()],
        vec![constants::PRESENT_MODE_FIFO, constants::PRESENT_MODE_IMMEDIATE],
    );
    assert_eq!(
        s.select_present_mode(constants::PRESENT_MODE_MAILBOX),
        constants::PRESENT_MODE_FIFO
    );
}

#[test]
fn format_preferred_when_supported() {
    let other = SurfaceFormat { format: 44, color_space: 0 };
    let s = support_with(vec![other, preferred()], vec![constants::PRESENT_MODE_FIFO]);
    assert_eq!(s.select_format(), preferred());
}

#[test]
fn format_falls_back_to_first_supported() {
    let a = SurfaceFormat { format: 44, color_space: 0 };
    let b = SurfaceFormat { format: 37, color_space: 0 };
    let s = support_with(vec![a, b], vec![constants::PRESENT_MODE_FIFO]);
    assert_eq!(s.select_format(), a);
}

#[test]
fn format_needs_matching_color_space() {
    let wrong_space = SurfaceFormat { format: constants::FORMAT_B8G8R8A8_SRGB, color_space: 9 };
    let s = support_with(vec![wrong_space], vec![constants::PRESENT_MODE_FIFO]);
    assert_eq!(s.select_format(), wrong_space);
}

#[test]
fn config_single_family_is_exclusive() {
    let s = support_with(vec![preferred()], vec![constants::PRESENT_MODE_FIFO]);
    let cfg = build_swapchain_config(
        &s,
        constants::PRESENT_MODE_MAILBOX,
        800,
        600,
        (0, 0),
        (0, 0),
    );
    assert_eq!(cfg.sharing_mode, SharingMode::Exclusive);
    assert!(cfg.queue_family_indices.is_empty());
    assert_eq!(cfg.min_image_count, 3);
    assert_eq!(cfg.pre_transform, 1);
    assert_eq!(cfg.extent, Extent2D { width: 800, height: 600 });
}

#[test]
fn config_distinct_queues_share_concurrently() {
    let s = support_with(vec![preferred()], vec![constants::PRESENT_MODE_FIFO]);
    let cfg = build_swapchain_config(
        &s,
        constants::PRESENT_MODE_MAILBOX,
        800,
        600,
        (0, 0),
        (2, 0),
    );
    assert_eq!(cfg.sharing_mode, SharingMode::Concurrent);
    assert_eq!(cfg.queue_family_indices, vec![0, 2]);
}

#[test]
fn extent_to_3d_is_one_deep() {
    let e = Extent2D { width: 7, height: 9 };
    let v = e.to_3d();
    assert_eq!((v.width, v.height, v.depth), (7, 9, 1));
}

#[test]
fn config_same_family_distinct_queues_is_exclusive() {
    // one family serving both roles through different queues needs no
    // cross-family image sharing
    let s = support_with(vec![preferred()], vec![constants::PRESENT_MODE_FIFO]);
    let cfg = build_swapchain_config(
        &s,
        constants::PRESENT_MODE_MAILBOX,
        800,
        600,
        (0, 0),
        (0, 1),
    );
    assert_eq!(cfg.sharing_mode, SharingMode::Exclusive);
    assert!(cfg.queue_family_indices.is_empty());
}
