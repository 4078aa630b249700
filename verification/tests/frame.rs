use sigill::constants;
use sigill::error::RenderError;
use sigill::frame::{
    full_barrier, plan_frame_commands, transition_image, AspectMask, Frame, FramePhase,
    Framebuffer, ImageLayout, ImageTarget, RenderCommand,
};
use sigill::swapchain::Extent3D;

#[test]
fn fresh_slot_first_wait_returns_immediately() {
    // the fence is created pre-signaled: the wait must not depend on any
    // previous GPU submission
    let mut slot = Frame::new();
    assert!(slot.fence_signaled);
    assert_eq!(slot.wait_for_render(false), Ok(()));
}

#[test]
fn second_wait_needs_the_gpu_signal() {
    let mut slot = Frame::new();
    assert_eq!(slot.wait_for_render(false), Ok(()));
    slot.begin_command_buffer();
    slot.end_command_buffer();
    slot.submit();
    // the fence was reset and only a GPU signal can release the wait now
    assert_eq!(
        slot.wait_for_render(false),
        Err(RenderError::Vk(constants::STATUS_TIMEOUT))
    );
    assert_eq!(slot.wait_for_render(true), Ok(()));
}

#[test]
fn ring_creates_all_slots_fence_ready() {
    let mut ring = Framebuffer::new(constants::FRAMEBUFFER_SIZE);
    assert_eq!(ring.current_frame_count(), 0);
    // every slot in turn accepts its first wait with no GPU signal
    for _ in 0..constants::FRAMEBUFFER_SIZE {
        let slot = ring.current_frame_mut();
        assert_eq!(slot.wait_for_render(false), Ok(()));
        ring.increment_current_frame();
    }
}

#[test]
fn ring_cycles_by_index_modulo_size() {
    let mut ring = Framebuffer::new(2);
    assert_eq!(ring.current_frame_index(), 0);
    ring.increment_current_frame();
    assert_eq!(ring.current_frame_index(), 1);
    ring.increment_current_frame();
    assert_eq!(ring.current_frame_index(), 0);
    assert_eq!(ring.current_frame_count(), 2);
}

#[test]
fn flush_recreates_fresh_slots() {
    let mut ring = Framebuffer::new(2);
    let slot = ring.current_frame_mut();
    assert_eq!(slot.wait_for_render(false), Ok(()));
    ring.flush();
    let slot = ring.current_frame_mut();
    assert!(slot.fence_signaled);
    assert_eq!(slot.phase, FramePhase::Idle);
}

#[test]
fn depth_destination_routes_depth_aspect() {
    let t = transition_image(
        ImageTarget::DrawImage,
        ImageLayout::Undefined,
        ImageLayout::DepthAttachmentOptimal,
    );
    assert!(matches!(
        t,
        RenderCommand::Transition { aspect: AspectMask::Depth, .. }
    ));
}

#[test]
fn color_destination_routes_color_aspect() {
    let t = transition_image(
        ImageTarget::SwapchainImage,
        ImageLayout::Undefined,
        ImageLayout::General,
    );
    assert!(matches!(
        t,
        RenderCommand::Transition { aspect: AspectMask::Color, .. }
    ));
}

#[test]
fn frame_commands_follow_the_protocol_order() {
    let draw = Extent3D { width: 800, height: 600, depth: 1 };
    let swap = Extent3D { width: 1024, height: 768, depth: 1 };
    let cmds = plan_frame_commands(draw, swap);
    assert_eq!(cmds.len(), 6);
    assert!(matches!(
        cmds[0],
        RenderCommand::Transition {
            target: ImageTarget::DrawImage,
            old_layout: ImageLayout::Undefined,
            new_layout: ImageLayout::General,
            aspect: AspectMask::Color,
            ..
        }
    ));
    assert!(matches!(
        cmds[1],
        RenderCommand::ClearColor { target: ImageTarget::DrawImage, layout: ImageLayout::General }
    ));
    assert!(matches!(
        cmds[2],
        RenderCommand::Transition {
            target: ImageTarget::DrawImage,
            new_layout: ImageLayout::TransferSrcOptimal,
            ..
        }
    ));
    assert!(matches!(
        cmds[3],
        RenderCommand::Transition {
            target: ImageTarget::SwapchainImage,
            new_layout: ImageLayout::TransferDstOptimal,
            ..
        }
    ));
    match cmds[4] {
        RenderCommand::Blit { src, dst, src_extent, dst_extent } => {
            assert_eq!(src, ImageTarget::DrawImage);
            assert_eq!(dst, ImageTarget::SwapchainImage);
            assert_eq!(src_extent, draw);
            assert_eq!(dst_extent, swap);
        }
        _ => panic!("fifth command must be the blit"),
    }
    assert!(matches!(
        cmds[5],
        RenderCommand::Transition {
            target: ImageTarget::SwapchainImage,
            old_layout: ImageLayout::TransferDstOptimal,
            new_layout: ImageLayout::PresentSrc,
            ..
        }
    ));
}

#[test]
fn transitions_carry_the_full_barrier() {
    // the conservative policy: all-commands stages, write-source access,
    // read-and-write destination access, on every transition
    let policy = full_barrier();
    assert_eq!(policy.src_stage_mask, 0x10000);
    assert_eq!(policy.src_access_mask, 0x10000);
    assert_eq!(policy.dst_stage_mask, 0x10000);
    assert_eq!(policy.dst_access_mask, 0x18000);
    let draw = Extent3D { width: 4, height: 4, depth: 1 };
    let cmds = plan_frame_commands(draw, draw);
    for cmd in &cmds {
        if let RenderCommand::Transition { masks, .. } = cmd {
            assert_eq!(*masks, policy);
        }
    }
    let single = transition_image(
        ImageTarget::DrawImage,
        ImageLayout::Undefined,
        ImageLayout::General,
    );
    match single {
        RenderCommand::Transition { masks, .. } => assert_eq!(masks, policy),
        _ => panic!("a transition command was expected"),
    }
}
