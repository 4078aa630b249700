use sigill::constants;
use sigill::device::{DeviceRequirements, DeviceType, PhysicalDeviceInfo};
use sigill::error::RenderError;
use sigill::frame::{plan_frame_commands, Framebuffer, RenderCommand};
use sigill::render::{
    begin_render, check_validation_layers, default_requirements, end_render, plan_initialization,
    render_background, required_validation_layers, FORMAT_R16G16B16A16_SFLOAT,
};
use sigill::swapchain::{
    Extent2D, Extent3D, SharingMode, SurfaceCapabilities, SurfaceFormat, SwapchainSupport,
};

fn mock_device() -> PhysicalDeviceInfo {
    // one graphics-and-present-capable family, two surface formats (one
    // matching the preferred sRGB pair), three present modes including the
    // preferred one and the mandatory fallback
    PhysicalDeviceInfo {
        device_type: DeviceType::IntegratedGpu,
        api_version_major: constants::API_VERSION_MAJOR,
        api_version_minor: constants::API_VERSION_MINOR,
        max_image_dimension_2d: 4096,
        supports_geometry_shader: true,
        queue_family_flags: vec![constants::QUEUE_GRAPHICS],
        present_support: vec![true],
        extensions: vec![
            "VK_EXT_debug_utils".to_string(),
            "VK_KHR_swapchain".to_string(),
        ],
        support: SwapchainSupport {
            capabilities: SurfaceCapabilities {
                min_image_count: 2,
                current_transform: 0,
                min_image_extent: Extent2D { width: 1, height: 1 },
                max_image_extent: Extent2D { width: 4096, height: 4096 },
            },
            formats: vec![
                SurfaceFormat { format: 44, color_space: 0 },
                SurfaceFormat {
                    format: constants::FORMAT_B8G8R8A8_SRGB,
                    color_space: constants::COLOR_SPACE_SRGB_NONLINEAR,
                },
            ],
            present_modes: vec![
                constants::PRESENT_MODE_IMMEDIATE,
                constants::PRESENT_MODE_MAILBOX,
                constants::PRESENT_MODE_FIFO,
            ],
        },
    }
}

#[test]
fn end_to_end_mock_initialization() {
    let devices = vec![mock_device()];
    let requirements = default_requirements();
    let queue_flags = vec![constants::QUEUE_GRAPHICS];
    let mut plan = plan_initialization(
        &devices,
        &requirements,
        &queue_flags,
        800,
        600,
        constants::PRESENT_MODE_MAILBOX,
    )
    .unwrap();

    assert_eq!(plan.device.index, 0);
    // the preferred format and present mode are both available
    assert_eq!(
        plan.swapchain_config.format,
        SurfaceFormat {
            format: constants::FORMAT_B8G8R8A8_SRGB,
            color_space: constants::COLOR_SPACE_SRGB_NONLINEAR,
        }
    );
    assert_eq!(plan.swapchain_config.present_mode, constants::PRESENT_MODE_MAILBOX);
    // graphics and present resolve to the same single family
    assert_eq!(plan.swapchain_config.sharing_mode, SharingMode::Exclusive);
    assert_eq!(plan.swapchain_config.min_image_count, 2);
    assert_eq!(plan.draw_image_extent, Extent2D { width: 800, height: 600 });
    assert_eq!(plan.draw_image_format, FORMAT_R16G16B16A16_SFLOAT);
    assert_eq!(
        *plan.queue_families.graphics().queue_info(),
        *plan.queue_families.present_mode().queue_info()
    );

    // both frame slots are immediately fence-ready
    assert_eq!(plan.framebuffer.current_frame_count(), 0);
    for _ in 0..constants::FRAMEBUFFER_SIZE {
        let slot = plan.framebuffer.current_frame_mut();
        assert_eq!(slot.wait_for_render(false), Ok(()));
        plan.framebuffer.increment_current_frame();
    }
}

#[test]
fn initialization_without_suitable_device_fails() {
    let mut weak = mock_device();
    weak.device_type = DeviceType::Cpu;
    let devices = vec![weak];
    let requirements = default_requirements();
    let queue_flags = vec![constants::QUEUE_GRAPHICS];
    let result = plan_initialization(
        &devices,
        &requirements,
        &queue_flags,
        800,
        600,
        constants::PRESENT_MODE_MAILBOX,
    );
    match result {
        Ok(_) => panic!("a CPU device must not be selected"),
        Err(err) => assert_eq!(err, RenderError::UnsupportedDevice),
    }
}

#[test]
fn validation_layers_all_present() {
    let available = vec![
        "VK_LAYER_A".to_string(),
        "VK_LAYER_KHRONOS_validation".to_string(),
    ];
    assert!(check_validation_layers(&available, &required_validation_layers()).is_ok());
}

#[test]
fn validation_layer_missing_is_named() {
    let available = vec!["VK_LAYER_A".to_string()];
    let err = check_validation_layers(&available, &required_validation_layers()).unwrap_err();
    assert_eq!(
        err,
        RenderError::ValidationLayerNotFound("VK_LAYER_KHRONOS_validation".to_string())
    );
}

#[test]
fn default_requirements_match_configuration() {
    let r = default_requirements();
    assert_eq!(r.api_version_major, constants::API_VERSION_MAJOR);
    assert_eq!(r.api_version_minor, constants::API_VERSION_MINOR);
    assert_eq!(r.required_queue_flags, constants::QUEUE_GRAPHICS);
    assert_eq!(
        r.required_extensions,
        vec!["VK_EXT_debug_utils".to_string(), "VK_KHR_swapchain".to_string()]
    );
}

#[test]
fn staged_frame_matches_the_planned_commands() {
    let draw = Extent3D { width: 800, height: 600, depth: 1 };
    let swap = Extent3D { width: 800, height: 600, depth: 1 };
    let mut ring = Framebuffer::new(2);
    let mut staged: Vec<RenderCommand> = Vec::new();
    staged.extend(begin_render(&mut ring, false).unwrap());
    staged.extend(render_background(&ring));
    staged.extend(end_render(&mut ring, draw, swap, 2, 0));
    assert_eq!(staged, plan_frame_commands(draw, swap));
    assert_eq!(ring.current_frame_count(), 1);
}

#[test]
fn frame_timeout_is_fatal_and_reported() {
    let draw = Extent3D { width: 8, height: 8, depth: 1 };
    let swap = Extent3D { width: 8, height: 8, depth: 1 };
    let mut ring = Framebuffer::new(1);
    begin_render(&mut ring, false).unwrap();
    render_background(&ring);
    end_render(&mut ring, draw, swap, 1, 0);
    // the only slot's fence is now unsignaled; without the GPU signal the
    // bounded wait expires
    let err = begin_render(&mut ring, false).unwrap_err();
    assert_eq!(err, RenderError::Vk(constants::STATUS_TIMEOUT));
    // with the GPU signal the next frame proceeds
    assert!(begin_render(&mut ring, true).is_ok());
}

#[test]
fn end_render_requires_a_real_image_index() {
    // the acquired index names an image inside the swapchain
    let devices = vec![mock_device()];
    let requirements = DeviceRequirements {
        api_version_major: constants::API_VERSION_MAJOR,
        api_version_minor: constants::API_VERSION_MINOR,
        required_queue_flags: constants::QUEUE_GRAPHICS,
        required_extensions: vec![],
    };
    let queue_flags = vec![constants::QUEUE_GRAPHICS];
    let plan = plan_initialization(
        &devices,
        &requirements,
        &queue_flags,
        640,
        480,
        constants::PRESENT_MODE_MAILBOX,
    )
    .unwrap();
    let count = plan.swapchain_config.min_image_count as usize;
    let mut ring = plan.framebuffer;
    begin_render(&mut ring, false).unwrap();
    let cmds = end_render(
        &mut ring,
        plan.draw_image_extent.to_3d(),
        plan.swapchain_config.extent.to_3d(),
        count,
        count - 1,
    );
    assert_eq!(cmds.len(), 4);
}
