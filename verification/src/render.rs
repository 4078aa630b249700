//! Renderer initialization planning and the per-frame drive functions.
//!
//! Initialization is a pure decision: given everything queried about the
//! candidate devices, the window size and the configured requirements, it
//! selects the winning device, allocates the queue roles, decides every
//! swapchain parameter and lays out the frame ring. The embedding process
//! queries the driver, hands the plain values in, and creates the native
//! objects that the plan describes.

use vstd::prelude::*;

use crate::constants;
use crate::device::{
    find_suitable_device, spec_device_suitable, spec_rank, spec_winner, DeviceRequirements,
    PhysicalDeviceInfo, RankedDevice, spec_contains_string, spec_extensions_supported,
    lemma_union_single_bit, spec_queue_flags_union,
};
use crate::error::RenderError;
use crate::frame::{
    spec_full_barrier, spec_wait_returns, Frame, FramePhase, Framebuffer, ImageLayout, ImageTarget,
    RenderCommand, transition_image, memcpy_image, AspectMask,
};
use crate::queues::{
    get_queue_family_map, lemma_first_supporting_family, spec_family_supports, spec_first_supporting_family,
    spec_has_flags, spec_map_wf, spec_some_family_supports, spec_supported_entry, QueueFamilies,
    QueueFamilyMap,
};
use crate::swapchain::{
    build_swapchain_config, spec_select_extent, spec_select_format, spec_select_present_mode,
    Extent2D, Extent3D, SharingMode, SwapchainConfig,
};

verus! {

/// The name of the validation layer required in debug runs.
pub fn required_validation_layers() -> (r: Vec<String>)
    ensures
        r@.len() == 1,
        r@[0]@ == "VK_LAYER_KHRONOS_validation"@,
{
    let mut v: Vec<String> = Vec::new();
    v.push("VK_LAYER_KHRONOS_validation".to_owned());
    v
}

/// The compile-time device requirements of the renderer: the configured API
/// version, a graphics-capable queue family, and the extensions enabled at
/// instance and device creation.
pub fn default_requirements() -> (r: DeviceRequirements)
    ensures
        r.api_version_major == constants::API_VERSION_MAJOR,
        r.api_version_minor == constants::API_VERSION_MINOR,
        r.required_queue_flags == constants::QUEUE_GRAPHICS,
        r.required_extensions@.len() == 2,
        r.required_extensions@[0]@ == "VK_EXT_debug_utils"@,
        r.required_extensions@[1]@ == "VK_KHR_swapchain"@,
{
    let mut required_extensions: Vec<String> = Vec::new();
    required_extensions.push("VK_EXT_debug_utils".to_owned());
    required_extensions.push("VK_KHR_swapchain".to_owned());
    DeviceRequirements {
        api_version_major: constants::API_VERSION_MAJOR,
        api_version_minor: constants::API_VERSION_MINOR,
        required_queue_flags: constants::QUEUE_GRAPHICS,
        required_extensions,
    }
}

/// Check that every required validation layer is available. Fails with the
/// first missing layer's name, exactly when one is missing.
pub fn check_validation_layers(available: &Vec<String>, required: &Vec<String>) -> (r: Result<
    (),
    RenderError,
>)
    ensures
        match r {
            Ok(()) => spec_extensions_supported(available@, required@),
            Err(e) => match e {
                RenderError::ValidationLayerNotFound(name) => exists|i: int|
                    0 <= i < required@.len() && !spec_contains_string(
                        available@,
                        (#[trigger] required@[i])@,
                    ) && name@ == required@[i]@ && (forall|j: int|
                        0 <= j < i ==> spec_contains_string(available@, (#[trigger] required@[j])@)),
                _ => false,
            },
        },
{
    let n_req = required.len();
    let mut k: usize = 0;
    while k < n_req
        invariant
            n_req == required@.len(),
            k <= n_req,
            forall|j: int| 0 <= j < k ==> spec_contains_string(available@, (#[trigger] required@[j])@),
        decreases n_req - k,
    {
        let mut found = false;
        let n_av = available.len();
        let mut m: usize = 0;
        while m < n_av
            invariant
                n_av == available@.len(),
                k < n_req,
                n_req == required@.len(),
                m <= n_av,
                found == (exists|q: int|
                    0 <= q < m && (#[trigger] available@[q])@ == required@[k as int]@),
            decreases n_av - m,
        {
            if available[m] == required[k] {
                found = true;
            }
            m += 1;
        }
        if !found {
            proof {
                assert(!spec_contains_string(available@, required@[k as int]@));
            }
            return Err(RenderError::ValidationLayerNotFound(required[k].clone()));
        }
        k += 1;
    }
    Ok(())
}

/// Everything decided by initialization: the winning device, the queue
/// family map and resolved queue roles, the swapchain parameters, the
/// off-screen render target's extent and format, and the frame ring.
pub struct InitPlan {
    pub device: RankedDevice,
    pub queue_family_map: QueueFamilyMap,
    pub queue_families: QueueFamilies,
    pub swapchain_config: SwapchainConfig,
    pub draw_image_extent: Extent2D,
    pub draw_image_format: u32,
    pub framebuffer: Framebuffer,
}

/// Raw value of the 16-bit-float color format the off-screen target uses.
pub const FORMAT_R16G16B16A16_SFLOAT: u32 = 97;

/// The device's first family supporting some requested capability can
/// present to the surface: exactly the condition under which the queue
/// family map built for this device holds a present-capable assignment.
pub open spec fn spec_plan_has_present(d: PhysicalDeviceInfo, qf: Seq<u32>) -> bool {
    exists|p: int|
        0 <= p < qf.len() && spec_some_family_supports(d.queue_family_flags@, #[trigger] qf[p])
            && d.present_support@[spec_first_supporting_family(d.queue_family_flags@, qf[p])]
}

/// The per-device stage of initialization: build the device's queue family
/// map, resolve the graphics and present roles, and decide every swapchain
/// parameter from its surface snapshot and the requested window size.
pub struct DeviceSetup {
    pub queue_family_map: QueueFamilyMap,
    pub queue_families: QueueFamilies,
    pub swapchain_config: SwapchainConfig,
}

/// Set a device up: allocate its queue roles and decide the swapchain
/// parameters. The device must offer a graphics-capable family, and the
/// first family supporting some requested key must present to the surface.
#[verifier::rlimit(60)]
pub fn plan_device_setup(
    d: &PhysicalDeviceInfo,
    queue_flags: &Vec<u32>,
    window_width: u32,
    window_height: u32,
    preferred_present_mode: u32,
) -> (r: DeviceSetup)
    requires
        d.queue_family_flags@.len() <= u32::MAX,
        d.present_support@.len() == d.queue_family_flags@.len(),
        d.support.wf(),
        queue_flags@.len() <= u32::MAX,
        queue_flags@.contains(constants::QUEUE_GRAPHICS),
        spec_queue_flags_union(d.queue_family_flags@) & constants::QUEUE_GRAPHICS
            == constants::QUEUE_GRAPHICS,
        spec_plan_has_present(*d, queue_flags@),
    ensures
        spec_map_wf(r.queue_family_map@, d.queue_family_flags@, queue_flags@),
        exists|i: int|
            0 <= i < r.queue_family_map@.len() && (#[trigger] r.queue_family_map@[i]).flags
                == constants::QUEUE_GRAPHICS && r.queue_families.graphics_spec().queue_info == (
            r.queue_family_map@[i].family_index,
            r.queue_family_map@[i].queue_index,
            ),
        r.queue_families.graphics_spec().priority == constants::QUEUE_PRIORITY_UNIT,
        r.queue_families.graphics_spec().handle is None,
        r.queue_families.present_mode_spec() is Some,
        exists|i: int|
            #[trigger] spec_supported_entry(r.queue_family_map@, d.present_support@, i)
                && r.queue_families.present_mode_spec()->0.queue_info == (
            r.queue_family_map@[i].family_index,
            r.queue_family_map@[i].queue_index,
            ),
        r.swapchain_config.format == spec_select_format(d.support.formats@),
        r.swapchain_config.present_mode == spec_select_present_mode(
            d.support.present_modes@,
            preferred_present_mode,
        ),
        r.swapchain_config.extent == spec_select_extent(
            d.support.capabilities,
            window_width,
            window_height,
        ),
        r.swapchain_config.min_image_count == d.support.capabilities.min_image_count,
        r.swapchain_config.pre_transform == d.support.capabilities.current_transform,
        r.queue_families.graphics_spec().queue_info.0
            == r.queue_families.present_mode_spec()->0.queue_info.0
            <==> r.swapchain_config.sharing_mode == SharingMode::Exclusive,
        r.queue_families.graphics_spec().queue_info.0
            != r.queue_families.present_mode_spec()->0.queue_info.0
            ==> r.swapchain_config.queue_family_indices@ =~= seq![
            r.queue_families.graphics_spec().queue_info.0,
            r.queue_families.present_mode_spec()->0.queue_info.0,
        ],
{
    let queue_family_map = get_queue_family_map(&d.queue_family_flags, queue_flags);
    proof {
        // the graphics bit sits in some one family, being a single bit of
        // the union
        assert(constants::QUEUE_GRAPHICS == 1u32 << 0u32) by (bit_vector);
        lemma_union_single_bit(d.queue_family_flags@, constants::QUEUE_GRAPHICS, 0);
        let fi = choose|fi: int|
            0 <= fi < d.queue_family_flags@.len() && (#[trigger] d.queue_family_flags@[fi])
                & constants::QUEUE_GRAPHICS == constants::QUEUE_GRAPHICS;
        assert(spec_family_supports(d.queue_family_flags@, fi, constants::QUEUE_GRAPHICS));
        // the graphics key was requested, so completeness assigns it
        let pos = choose|pos: int|
            0 <= pos < queue_flags@.len() && queue_flags@[pos] == constants::QUEUE_GRAPHICS;
        assert(spec_some_family_supports(d.queue_family_flags@, queue_flags@[pos]));
        assert(spec_has_flags(queue_family_map@, constants::QUEUE_GRAPHICS));
    }
    let queue_families = QueueFamilies::new_empty(&queue_family_map);
    proof {
        // every assigned family is a real index into the support table
        assert forall|i: int| 0 <= i < queue_family_map@.len() implies (
        #[trigger] queue_family_map@[i]).family_index < d.present_support@.len() by {
            assert(spec_family_supports(
                d.queue_family_flags@,
                queue_family_map@[i].family_index as int,
                queue_family_map@[i].flags,
            ));
        }
    }
    let queue_families = queue_families.query_present_mode_queue(
        &queue_family_map,
        &d.present_support,
    );
    proof {
        // the first family supporting some requested key presents; that
        // key's assignment is in the map and sits in exactly that family
        let p = choose|p: int|
            0 <= p < queue_flags@.len() && spec_some_family_supports(
                d.queue_family_flags@,
                #[trigger] queue_flags@[p],
            ) && d.present_support@[spec_first_supporting_family(
                d.queue_family_flags@,
                queue_flags@[p],
            )];
        assert(spec_has_flags(queue_family_map@, queue_flags@[p]));
        let i = choose|i: int|
            0 <= i < queue_family_map@.len() && (#[trigger] queue_family_map@[i]).flags
                == queue_flags@[p];
        lemma_first_supporting_family(d.queue_family_flags@, queue_flags@[p]);
        let first = spec_first_supporting_family(d.queue_family_flags@, queue_flags@[p]);
        assert(spec_family_supports(
            d.queue_family_flags@,
            queue_family_map@[i].family_index as int,
            queue_family_map@[i].flags,
        ));
        assert(queue_family_map@[i].family_index <= first);
        assert(queue_family_map@[i].family_index >= first);
        assert(spec_supported_entry(queue_family_map@, d.present_support@, i));
    }
    let graphics_info = *queue_families.graphics().queue_info();
    let present_info = *queue_families.present_mode().queue_info();
    let swapchain_config = build_swapchain_config(
        &d.support,
        preferred_present_mode,
        window_width,
        window_height,
        graphics_info,
        present_info,
    );
    DeviceSetup { queue_family_map, queue_families, swapchain_config }
}

/// Plan initialization: select the winning device, build its queue family
/// map, resolve the graphics and present roles, decide the swapchain
/// parameters from the winner's surface snapshot and the requested window
/// size, and lay out the pre-signaled frame ring. Fails with the
/// unsupported-device error exactly when no candidate meets the hard
/// requirements.
#[verifier::rlimit(60)]
pub fn plan_initialization(
    devices: &Vec<PhysicalDeviceInfo>,
    requirements: &DeviceRequirements,
    queue_flags: &Vec<u32>,
    window_width: u32,
    window_height: u32,
    preferred_present_mode: u32,
) -> (r: Result<InitPlan, RenderError>)
    requires
        forall|i: int|
            0 <= i < devices@.len() ==> (#[trigger] devices@[i]).max_image_dimension_2d <= u32::MAX
                - 1000,
        forall|i: int|
            0 <= i < devices@.len() ==> (#[trigger] devices@[i]).queue_family_flags@.len()
                <= u32::MAX,
        forall|i: int|
            0 <= i < devices@.len() ==> (#[trigger] devices@[i]).present_support@.len() == devices@[
                i
            ].queue_family_flags@.len(),
        forall|i: int| 0 <= i < devices@.len() ==> (#[trigger] devices@[i]).support.capabilities.wf(),
        queue_flags@.len() <= u32::MAX,
        queue_flags@.contains(constants::QUEUE_GRAPHICS),
        requirements.required_queue_flags & constants::QUEUE_GRAPHICS == constants::QUEUE_GRAPHICS,
        forall|i: int|
            0 <= i < devices@.len() && spec_device_suitable(#[trigger] devices@[i], *requirements)
                ==> spec_plan_has_present(devices@[i], queue_flags@),
    ensures
        match r {
            Ok(plan) => {
                &&& spec_winner(devices@, *requirements, plan.device.index as int)
                &&& plan.device.rank as int == spec_rank(devices@[plan.device.index as int])
                &&& spec_map_wf(
                    plan.queue_family_map@,
                    devices@[plan.device.index as int].queue_family_flags@,
                    queue_flags@,
                )
                &&& exists|i: int|
                    0 <= i < plan.queue_family_map@.len() && (
                    #[trigger] plan.queue_family_map@[i]).flags == constants::QUEUE_GRAPHICS
                        && plan.queue_families.graphics_spec().queue_info == (
                    plan.queue_family_map@[i].family_index,
                    plan.queue_family_map@[i].queue_index,
                    )
                &&& plan.queue_families.graphics_spec().priority
                    == constants::QUEUE_PRIORITY_UNIT
                &&& plan.queue_families.graphics_spec().handle is None
                &&& plan.queue_families.present_mode_spec() is Some
                &&& exists|i: int|
                    #[trigger] spec_supported_entry(
                        plan.queue_family_map@,
                        devices@[plan.device.index as int].present_support@,
                        i,
                    ) && plan.queue_families.present_mode_spec()->0.queue_info == (
                    plan.queue_family_map@[i].family_index,
                    plan.queue_family_map@[i].queue_index,
                    )
                &&& {
                    let winner = devices@[plan.device.index as int];
                    let cfg = plan.swapchain_config;
                    &&& cfg.format == spec_select_format(winner.support.formats@)
                    &&& cfg.present_mode == spec_select_present_mode(
                        winner.support.present_modes@,
                        preferred_present_mode,
                    )
                    &&& cfg.extent == spec_select_extent(
                        winner.support.capabilities,
                        window_width,
                        window_height,
                    )
                    &&& cfg.min_image_count == winner.support.capabilities.min_image_count
                    &&& cfg.pre_transform == winner.support.capabilities.current_transform
                    &&& (plan.queue_families.graphics_spec().queue_info.0
                        == plan.queue_families.present_mode_spec()->0.queue_info.0
                        <==> cfg.sharing_mode == SharingMode::Exclusive)
                }
                &&& plan.draw_image_extent == plan.swapchain_config.extent
                &&& plan.draw_image_format == FORMAT_R16G16B16A16_SFLOAT
                &&& plan.framebuffer.wf()
                &&& plan.framebuffer.frames_spec().len() == constants::FRAMEBUFFER_SIZE
                &&& forall|i: int|
                    0 <= i < plan.framebuffer.frames_spec().len()
                        ==> plan.framebuffer.frames_spec()[i] == Frame::new_spec()
                &&& plan.framebuffer.current_frame_spec() == 0
            },
            Err(e) => e == RenderError::UnsupportedDevice && forall|j: int|
                0 <= j < devices@.len() ==> !spec_device_suitable(
                    #[trigger] devices@[j],
                    *requirements,
                ),
        },
{
    let winner = match find_suitable_device(devices, requirements) {
        Ok(w) => w,
        Err(e) => {
            return Err(e);
        },
    };
    let d = &devices[winner.index];
    proof {
        // the winner offers every required capability bit, so in particular
        // the single graphics bit sits in the union of its families' bits
        let u = spec_queue_flags_union(d.queue_family_flags@);
        let rq = requirements.required_queue_flags;
        assert(u & constants::QUEUE_GRAPHICS == constants::QUEUE_GRAPHICS) by (bit_vector)
            requires
                u & rq == rq,
                rq & 1u32 == 1u32,
        ;
        assert(spec_plan_has_present(devices@[winner.index as int], queue_flags@));
    }
    let setup = plan_device_setup(
        d,
        queue_flags,
        window_width,
        window_height,
        preferred_present_mode,
    );
    let draw_image_extent = setup.swapchain_config.extent;
    let framebuffer = Framebuffer::new(constants::FRAMEBUFFER_SIZE);
    Ok(
        InitPlan {
            device: winner,
            queue_family_map: setup.queue_family_map,
            queue_families: setup.queue_families,
            swapchain_config: setup.swapchain_config,
            draw_image_extent,
            draw_image_format: FORMAT_R16G16B16A16_SFLOAT,
            framebuffer,
        },
    )
}

/// The slot serving the ring's current frame.
pub open spec fn spec_current_slot(fb: Framebuffer) -> Frame {
    fb.frames_spec()[fb.current_frame_spec() % (fb.frames_spec().len() as int)]
}

/// Begin a frame: wait on the current slot's completion fence with the
/// bounded timeout, reset it, reset the slot's command buffer and begin
/// recording. Returns the commands that open the recording: the off-screen
/// target's transition to the general layout. An expired wait is fatal and
/// leaves the ring untouched.
pub fn begin_render(framebuffer: &mut Framebuffer, gpu_signaled: bool) -> (r: Result<
    Vec<RenderCommand>,
    RenderError,
>)
    requires
        old(framebuffer).wf(),
        spec_current_slot(*old(framebuffer)).phase == FramePhase::Idle,
    ensures
        final(framebuffer).wf(),
        final(framebuffer).current_frame_spec() == old(framebuffer).current_frame_spec(),
        spec_wait_returns(spec_current_slot(*old(framebuffer)), gpu_signaled) ==> match r {
            Ok(cmds) => cmds@ =~= seq![
                RenderCommand::Transition {
                    target: ImageTarget::DrawImage,
                    old_layout: ImageLayout::Undefined,
                    new_layout: ImageLayout::General,
                    aspect: AspectMask::Color,
                    masks: spec_full_barrier(),
                },
            ] && final(framebuffer).frames_spec() =~= old(framebuffer).frames_spec().update(
                old(framebuffer).current_frame_spec() % (
                old(framebuffer).frames_spec().len() as int),
                Frame { fence_signaled: false, phase: FramePhase::Recording },
            ),
            Err(_) => false,
        },
        !spec_wait_returns(spec_current_slot(*old(framebuffer)), gpu_signaled) ==> r == Err::<
            Vec<RenderCommand>,
            RenderError,
        >(RenderError::Vk(constants::STATUS_TIMEOUT)) && final(framebuffer).frames_spec()
            =~= old(framebuffer).frames_spec(),
{
    let slot = framebuffer.current_frame_mut();
    match slot.wait_for_render(gpu_signaled) {
        Ok(()) => {},
        Err(e) => {
            return Err(e);
        },
    }
    slot.reset_command_buffer();
    slot.begin_command_buffer();
    let mut cmds: Vec<RenderCommand> = Vec::new();
    cmds.push(
        transition_image(ImageTarget::DrawImage, ImageLayout::Undefined, ImageLayout::General),
    );
    Ok(cmds)
}

/// The commands that draw the frame's background into the off-screen
/// target: a full-image clear in the general layout. The clear color
/// itself is a floating-point value the embedding process computes.
pub fn render_background(framebuffer: &Framebuffer) -> (r: Vec<RenderCommand>)
    requires
        framebuffer.wf(),
        spec_current_slot(*framebuffer).phase == FramePhase::Recording,
    ensures
        r@ =~= seq![
            RenderCommand::ClearColor {
                target: ImageTarget::DrawImage,
                layout: ImageLayout::General,
            },
        ],
{
    let mut cmds: Vec<RenderCommand> = Vec::new();
    cmds.push(
        RenderCommand::ClearColor { target: ImageTarget::DrawImage, layout: ImageLayout::General },
    );
    cmds
}

/// End a frame: return the commands that move the off-screen target to the
/// transfer-source layout, the acquired swapchain image to the
/// transfer-destination layout, blit the one onto the other, and ready the
/// swapchain image for presentation; then close the recording, submit, and
/// advance the ring. The acquired index must name a real swapchain image.
pub fn end_render(
    framebuffer: &mut Framebuffer,
    draw_extent: Extent3D,
    swapchain_extent: Extent3D,
    swapchain_image_count: usize,
    acquired_image_index: usize,
) -> (r: Vec<RenderCommand>)
    requires
        old(framebuffer).wf(),
        spec_current_slot(*old(framebuffer)).phase == FramePhase::Recording,
        acquired_image_index < swapchain_image_count,
        old(framebuffer).current_frame_spec() < usize::MAX,
    ensures
        final(framebuffer).wf(),
        final(framebuffer).current_frame_spec() == old(framebuffer).current_frame_spec() + 1,
        final(framebuffer).frames_spec() =~= old(framebuffer).frames_spec().update(
            old(framebuffer).current_frame_spec() % (old(framebuffer).frames_spec().len() as int),
            Frame { phase: FramePhase::Idle, ..spec_current_slot(*old(framebuffer)) },
        ),
        r@ =~= seq![
            RenderCommand::Transition {
                target: ImageTarget::DrawImage,
                old_layout: ImageLayout::General,
                new_layout: ImageLayout::TransferSrcOptimal,
                aspect: AspectMask::Color,
                masks: spec_full_barrier(),
            },
            RenderCommand::Transition {
                target: ImageTarget::SwapchainImage,
                old_layout: ImageLayout::Undefined,
                new_layout: ImageLayout::TransferDstOptimal,
                aspect: AspectMask::Color,
                masks: spec_full_barrier(),
            },
            RenderCommand::Blit {
                src: ImageTarget::DrawImage,
                dst: ImageTarget::SwapchainImage,
                src_extent: draw_extent,
                dst_extent: swapchain_extent,
            },
            RenderCommand::Transition {
                target: ImageTarget::SwapchainImage,
                old_layout: ImageLayout::TransferDstOptimal,
                new_layout: ImageLayout::PresentSrc,
                aspect: AspectMask::Color,
                masks: spec_full_barrier(),
            },
        ],
{
    let mut cmds: Vec<RenderCommand> = Vec::new();
    cmds.push(
        transition_image(
            ImageTarget::DrawImage,
            ImageLayout::General,
            ImageLayout::TransferSrcOptimal,
        ),
    );
    cmds.push(
        transition_image(
            ImageTarget::SwapchainImage,
            ImageLayout::Undefined,
            ImageLayout::TransferDstOptimal,
        ),
    );
    cmds.push(memcpy_image(draw_extent, swapchain_extent));
    cmds.push(
        transition_image(
            ImageTarget::SwapchainImage,
            ImageLayout::TransferDstOptimal,
            ImageLayout::PresentSrc,
        ),
    );
    let slot = framebuffer.current_frame_mut();
    slot.end_command_buffer();
    slot.submit();
    framebuffer.increment_current_frame();
    cmds
}

} // verus!
