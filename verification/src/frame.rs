//! The frame synchronization ring and the per-frame command protocol.
//!
//! The renderer owns a fixed number of independent frame slots, cycled by
//! index modulo the slot count. Each slot's completion fence is created
//! pre-signaled, so the first wait on a fresh slot returns at once. A
//! frame's commands are planned here as plain data, in the exact order the
//! protocol demands, and the embedding process replays them into the
//! driver's command buffer.

use vstd::prelude::*;

use crate::constants;
use crate::error::RenderError;
use crate::swapchain::Extent3D;

verus! {

/// Where a slot stands in the per-frame protocol.
#[derive(Clone, Copy, PartialEq, Eq, Structural, Debug)]
pub enum FramePhase {
    /// Between frames; the previous submission may still be in flight.
    Idle,
    /// The completion fence was waited on and reset; recording has not begun.
    Ready,
    /// The command buffer is recording.
    Recording,
    /// Recording ended; the buffer awaits submission.
    Recorded,
}

/// One frame slot: a command-recording context and its synchronization
/// primitives, fully independent of every other slot.
#[derive(Clone, Copy, PartialEq, Eq, Structural, Debug)]
pub struct Frame {
    /// Whether the slot's completion fence is signaled. The fence is
    /// created signaled so that the first wait does not block forever on a
    /// submission that never happened.
    pub fence_signaled: bool,
    pub phase: FramePhase,
}

/// Whether a wait on the slot's fence returns within the timeout: the fence
/// was already signaled, or the GPU signaled it in time.
pub open spec fn spec_wait_returns(f: Frame, gpu_signaled: bool) -> bool {
    f.fence_signaled || gpu_signaled
}

/// A fresh slot's fence is pre-signaled, so the first wait returns
/// immediately without deadlock, whatever the GPU has or has not done.
pub proof fn lemma_first_wait_immediate(f: Frame, gpu_signaled: bool)
    requires
        f == Frame::new_spec(),
    ensures
        spec_wait_returns(f, gpu_signaled),
{
}

impl Frame {
    /// The state of a freshly created slot.
    pub open spec fn new_spec() -> Frame {
        Frame { fence_signaled: true, phase: FramePhase::Idle }
    }

    /// Create a slot: fence pre-signaled, between frames.
    pub fn new() -> (r: Self)
        ensures
            r == Frame::new_spec(),
    {
        Frame { fence_signaled: true, phase: FramePhase::Idle }
    }

    /// Wait for the previous rendering on this slot to finish, bounded by
    /// the fence timeout, then reset the fence. `gpu_signaled` reports
    /// whether the driver signaled the fence within the timeout; an expired
    /// wait is a fatal, reported condition, never silently ignored.
    pub fn wait_for_render(&mut self, gpu_signaled: bool) -> (r: Result<(), RenderError>)
        requires
            old(self).phase == FramePhase::Idle,
        ensures
            spec_wait_returns(*old(self), gpu_signaled) ==> r is Ok && *final(self) == (Frame {
                fence_signaled: false,
                phase: FramePhase::Ready,
            }),
            !spec_wait_returns(*old(self), gpu_signaled) ==> r == Err::<(), RenderError>(
                RenderError::Vk(constants::STATUS_TIMEOUT),
            ) && *final(self) == *old(self),
    {
        if self.fence_signaled || gpu_signaled {
            self.fence_signaled = false;
            self.phase = FramePhase::Ready;
            Ok(())
        } else {
            Err(RenderError::Vk(constants::STATUS_TIMEOUT))
        }
    }

    /// Reset the slot's command buffer for a new recording.
    pub fn reset_command_buffer(&mut self)
        requires
            old(self).phase == FramePhase::Ready,
        ensures
            *final(self) == *old(self),
    {
    }

    /// Begin recording, as a one-time submission.
    pub fn begin_command_buffer(&mut self)
        requires
            old(self).phase == FramePhase::Ready,
        ensures
            *final(self) == (Frame { phase: FramePhase::Recording, ..*old(self) }),
    {
        self.phase = FramePhase::Recording;
    }

    /// End recording.
    pub fn end_command_buffer(&mut self)
        requires
            old(self).phase == FramePhase::Recording,
        ensures
            *final(self) == (Frame { phase: FramePhase::Recorded, ..*old(self) }),
    {
        self.phase = FramePhase::Recorded;
    }

    /// Submit the recorded buffer: the completion fence will be signaled by
    /// the GPU, and the slot returns to rest until the next cycle.
    pub fn submit(&mut self)
        requires
            old(self).phase == FramePhase::Recorded,
        ensures
            *final(self) == (Frame { phase: FramePhase::Idle, ..*old(self) }),
    {
        self.phase = FramePhase::Idle;
    }
}

/// The ring of frame slots, cycled by index modulo the slot count.
pub struct Framebuffer {
    frames: Vec<Frame>,
    current_frame: usize,
}

impl Framebuffer {
    /// The slots.
    pub closed spec fn frames_spec(&self) -> Seq<Frame> {
        self.frames@
    }

    /// How many frames have been finished since creation.
    pub closed spec fn current_frame_spec(&self) -> int {
        self.current_frame as int
    }

    /// The ring never has zero slots.
    pub open spec fn wf(&self) -> bool {
        self.frames_spec().len() > 0
    }

    /// Create the ring: `count` independent fresh slots, all fence-ready.
    pub fn new(count: usize) -> (r: Self)
        requires
            count >= 1,
        ensures
            r.wf(),
            r.frames_spec().len() == count,
            forall|i: int| 0 <= i < count ==> r.frames_spec()[i] == Frame::new_spec(),
            r.current_frame_spec() == 0,
    {
        let mut frames: Vec<Frame> = Vec::new();
        let mut i: usize = 0;
        while i < count
            invariant
                i <= count,
                frames@.len() == i,
                forall|j: int| 0 <= j < i ==> frames@[j] == Frame::new_spec(),
            decreases count - i,
        {
            frames.push(Frame::new());
            i += 1;
        }
        Framebuffer { frames, current_frame: 0 }
    }

    /// Replace every slot with a fresh one, as after a resize.
    pub fn flush(&mut self)
        requires
            old(self).wf(),
        ensures
            final(self).wf(),
            final(self).frames_spec().len() == old(self).frames_spec().len(),
            forall|i: int|
                0 <= i < final(self).frames_spec().len() ==> final(self).frames_spec()[i]
                    == Frame::new_spec(),
            final(self).current_frame_spec() == old(self).current_frame_spec(),
    {
        let count = self.frames.len();
        let mut frames: Vec<Frame> = Vec::new();
        let mut i: usize = 0;
        while i < count
            invariant
                i <= count,
                frames@.len() == i,
                forall|j: int| 0 <= j < i ==> frames@[j] == Frame::new_spec(),
            decreases count - i,
        {
            frames.push(Frame::new());
            i += 1;
        }
        self.frames = frames;
    }

    /// The index of the slot serving the current frame.
    pub fn current_frame_index(&self) -> (r: usize)
        requires
            self.wf(),
        ensures
            r as int == self.current_frame_spec() % (self.frames_spec().len() as int),
    {
        self.current_frame % self.frames.len()
    }

    /// The slot serving the current frame.
    pub fn current_frame(&self) -> (r: &Frame)
        requires
            self.wf(),
        ensures
            *r == self.frames_spec()[self.current_frame_spec() % (
            self.frames_spec().len() as int)],
    {
        let i = self.current_frame_index();
        &self.frames[i]
    }

    /// The slot serving the current frame, for driving the protocol.
    pub fn current_frame_mut(&mut self) -> (r: &mut Frame)
        requires
            old(self).wf(),
        ensures
            *r == old(self).frames_spec()[old(self).current_frame_spec() % (
            old(self).frames_spec().len() as int)],
            final(self).frames_spec() == old(self).frames_spec().update(
                old(self).current_frame_spec() % (old(self).frames_spec().len() as int),
                *final(r),
            ),
            final(self).current_frame_spec() == old(self).current_frame_spec(),
            final(self).wf(),
    {
        let i = self.current_frame % self.frames.len();
        &mut self.frames[i]
    }

    /// Advance the ring to the next slot.
    pub fn increment_current_frame(&mut self)
        requires
            old(self).current_frame_spec() < usize::MAX,
        ensures
            final(self).current_frame_spec() == old(self).current_frame_spec() + 1,
            final(self).frames_spec() == old(self).frames_spec(),
    {
        self.current_frame = self.current_frame + 1;
    }

    /// How many frames have been finished since creation.
    pub fn current_frame_count(&self) -> (r: usize)
        ensures
            r as int == self.current_frame_spec(),
    {
        self.current_frame
    }
}

/// The images a frame's commands may touch.
#[derive(Clone, Copy, PartialEq, Eq, Structural, Debug)]
pub enum ImageTarget {
    /// The off-screen render target drawn into each frame.
    DrawImage,
    /// The presentable image acquired from the swapchain.
    SwapchainImage,
}

/// The image layouts the protocol moves its targets through.
#[derive(Clone, Copy, PartialEq, Eq, Structural, Debug)]
pub enum ImageLayout {
    Undefined,
    General,
    TransferSrcOptimal,
    TransferDstOptimal,
    PresentSrc,
    DepthAttachmentOptimal,
}

/// Which aspect of an image a barrier addresses.
#[derive(Clone, Copy, PartialEq, Eq, Structural, Debug)]
pub enum AspectMask {
    Color,
    Depth,
}

/// The stage and access masks of one barrier, as the API's raw 64-bit flag
/// values.
#[derive(Clone, Copy, PartialEq, Eq, Structural, Debug)]
pub struct BarrierMasks {
    pub src_stage_mask: u64,
    pub src_access_mask: u64,
    pub dst_stage_mask: u64,
    pub dst_access_mask: u64,
}

/// The conservative synchronization policy of the protocol: every
/// transition barrier spans all commands and all read-write access,
/// correctness over throughput.
pub open spec fn spec_full_barrier() -> BarrierMasks {
    BarrierMasks {
        src_stage_mask: constants::PIPELINE_STAGE_ALL_COMMANDS,
        src_access_mask: constants::ACCESS_MEMORY_WRITE,
        dst_stage_mask: constants::PIPELINE_STAGE_ALL_COMMANDS,
        dst_access_mask: constants::ACCESS_MEMORY_WRITE | constants::ACCESS_MEMORY_READ,
    }
}

/// Executable form of [`spec_full_barrier`].
pub fn full_barrier() -> (r: BarrierMasks)
    ensures
        r == spec_full_barrier(),
{
    BarrierMasks {
        src_stage_mask: constants::PIPELINE_STAGE_ALL_COMMANDS,
        src_access_mask: constants::ACCESS_MEMORY_WRITE,
        dst_stage_mask: constants::PIPELINE_STAGE_ALL_COMMANDS,
        dst_access_mask: constants::ACCESS_MEMORY_WRITE | constants::ACCESS_MEMORY_READ,
    }
}

/// The aspect a layout transition routes through: depth-format targets use
/// the depth aspect, everything else the color aspect.
pub open spec fn spec_aspect_for(new_layout: ImageLayout) -> AspectMask {
    if new_layout == ImageLayout::DepthAttachmentOptimal {
        AspectMask::Depth
    } else {
        AspectMask::Color
    }
}

/// One recorded command, as plain data for the embedding process to replay.
#[derive(Clone, Copy, PartialEq, Eq, Structural, Debug)]
pub enum RenderCommand {
    /// A layout transition of `target` under the stated barrier masks.
    Transition {
        target: ImageTarget,
        old_layout: ImageLayout,
        new_layout: ImageLayout,
        aspect: AspectMask,
        masks: BarrierMasks,
    },
    /// Clear the color of `target`, which must be in `layout`.
    ClearColor { target: ImageTarget, layout: ImageLayout },
    /// Blit the whole of `src` (in transfer-source layout) onto the whole
    /// of `dst` (in transfer-destination layout), scaling between extents.
    Blit { src: ImageTarget, dst: ImageTarget, src_extent: Extent3D, dst_extent: Extent3D },
}

/// Build the transition command for `target`: the aspect follows the
/// destination layout, and the barrier is the conservative full one.
pub fn transition_image(target: ImageTarget, old_layout: ImageLayout, new_layout: ImageLayout) -> (r:
    RenderCommand)
    ensures
        r == (RenderCommand::Transition {
            target,
            old_layout,
            new_layout,
            aspect: spec_aspect_for(new_layout),
            masks: spec_full_barrier(),
        }),
{
    let aspect = if let ImageLayout::DepthAttachmentOptimal = new_layout {
        AspectMask::Depth
    } else {
        AspectMask::Color
    };
    RenderCommand::Transition { target, old_layout, new_layout, aspect, masks: full_barrier() }
}

/// Build the blit that copies the whole off-screen target onto the whole
/// acquired swapchain image.
pub fn memcpy_image(src_size: Extent3D, dst_size: Extent3D) -> (r: RenderCommand)
    ensures
        r == (RenderCommand::Blit {
            src: ImageTarget::DrawImage,
            dst: ImageTarget::SwapchainImage,
            src_extent: src_size,
            dst_extent: dst_size,
        }),
{
    RenderCommand::Blit {
        src: ImageTarget::DrawImage,
        dst: ImageTarget::SwapchainImage,
        src_extent: src_size,
        dst_extent: dst_size,
    }
}

/// The layout `target` is in after the first `upto` commands of `cmds`,
/// starting from the undefined layout.
pub open spec fn spec_layout_after(cmds: Seq<RenderCommand>, target: ImageTarget, upto: int) -> ImageLayout
    decreases upto,
{
    if upto <= 0 {
        ImageLayout::Undefined
    } else {
        match cmds[upto - 1] {
            RenderCommand::Transition { target: t, new_layout, .. } => if t == target {
                new_layout
            } else {
                spec_layout_after(cmds, target, upto - 1)
            },
            _ => spec_layout_after(cmds, target, upto - 1),
        }
    }
}

/// The command sequence respects the protocol: every transition leaves from
/// the layout its target is actually in (or discards it from the undefined
/// layout), routes through the aspect its destination layout demands, and
/// carries the conservative full barrier; every clear sees its target in
/// the stated layout; and every blit reads a transfer-source and writes a
/// transfer-destination.
pub open spec fn spec_commands_consistent(cmds: Seq<RenderCommand>) -> bool {
    forall|i: int|
        0 <= i < cmds.len() ==> match #[trigger] cmds[i] {
            RenderCommand::Transition { target, old_layout, new_layout, aspect, masks } => (
            old_layout == spec_layout_after(cmds, target, i) || old_layout
                == ImageLayout::Undefined) && aspect == spec_aspect_for(new_layout) && masks
                == spec_full_barrier(),
            RenderCommand::ClearColor { target, layout } => layout == spec_layout_after(
                cmds,
                target,
                i,
            ),
            RenderCommand::Blit { src, dst, .. } => spec_layout_after(cmds, src, i)
                == ImageLayout::TransferSrcOptimal && spec_layout_after(cmds, dst, i)
                == ImageLayout::TransferDstOptimal,
        }
}

/// Plan one frame's commands, in the protocol's strict order: bring the
/// off-screen target to the general layout, clear it, bring it to the
/// transfer-source layout, bring the acquired swapchain image to the
/// transfer-destination layout, blit the target onto it, and bring the
/// swapchain image to the present layout.
pub fn plan_frame_commands(draw_extent: Extent3D, swapchain_extent: Extent3D) -> (r: Vec<
    RenderCommand,
>)
    ensures
        r@ =~= seq![
            RenderCommand::Transition {
                target: ImageTarget::DrawImage,
                old_layout: ImageLayout::Undefined,
                new_layout: ImageLayout::General,
                aspect: AspectMask::Color,
                masks: spec_full_barrier(),
            },
            RenderCommand::ClearColor {
                target: ImageTarget::DrawImage,
                layout: ImageLayout::General,
            },
            RenderCommand::Transition {
                target: ImageTarget::DrawImage,
                old_layout: ImageLayout::General,
                new_layout: ImageLayout::TransferSrcOptimal,
                aspect: AspectMask::Color,
                masks: spec_full_barrier(),
            },
            RenderCommand::Transition {
                target: ImageTarget::SwapchainImage,
                old_layout: ImageLayout::Undefined,
                new_layout: ImageLayout::TransferDstOptimal,
                aspect: AspectMask::Color,
                masks: spec_full_barrier(),
            },
            RenderCommand::Blit {
                src: ImageTarget::DrawImage,
                dst: ImageTarget::SwapchainImage,
                src_extent: draw_extent,
                dst_extent: swapchain_extent,
            },
            RenderCommand::Transition {
                target: ImageTarget::SwapchainImage,
                old_layout: ImageLayout::TransferDstOptimal,
                new_layout: ImageLayout::PresentSrc,
                aspect: AspectMask::Color,
                masks: spec_full_barrier(),
            },
        ],
        spec_commands_consistent(r@),
{
    let mut cmds: Vec<RenderCommand> = Vec::new();
    cmds.push(
        transition_image(ImageTarget::DrawImage, ImageLayout::Undefined, ImageLayout::General),
    );
    cmds.push(
        RenderCommand::ClearColor { target: ImageTarget::DrawImage, layout: ImageLayout::General },
    );
    cmds.push(
        transition_image(
            ImageTarget::DrawImage,
            ImageLayout::General,
            ImageLayout::TransferSrcOptimal,
        ),
    );
    cmds.push(
        transition_image(
            ImageTarget::SwapchainImage,
            ImageLayout::Undefined,
            ImageLayout::TransferDstOptimal,
        ),
    );
    cmds.push(memcpy_image(draw_extent, swapchain_extent));
    cmds.push(
        transition_image(
            ImageTarget::SwapchainImage,
            ImageLayout::TransferDstOptimal,
            ImageLayout::PresentSrc,
        ),
    );
    proof {
        assert forall|i: int| 0 <= i < cmds@.len() implies match #[trigger] cmds@[i] {
            RenderCommand::Transition { target, old_layout, new_layout, aspect, masks } => (
            old_layout == spec_layout_after(cmds@, target, i) || old_layout
                == ImageLayout::Undefined) && aspect == spec_aspect_for(new_layout) && masks
                == spec_full_barrier(),
            RenderCommand::ClearColor { target, layout } => layout == spec_layout_after(
                cmds@,
                target,
                i,
            ),
            RenderCommand::Blit { src, dst, .. } => spec_layout_after(cmds@, src, i)
                == ImageLayout::TransferSrcOptimal && spec_layout_after(cmds@, dst, i)
                == ImageLayout::TransferDstOptimal,
        } by {
            assert(spec_layout_after(cmds@, ImageTarget::DrawImage, 1)
                == ImageLayout::General);
            assert(spec_layout_after(cmds@, ImageTarget::DrawImage, 2)
                == ImageLayout::General);
            assert(spec_layout_after(cmds@, ImageTarget::DrawImage, 3)
                == ImageLayout::TransferSrcOptimal);
            assert(spec_layout_after(cmds@, ImageTarget::DrawImage, 4)
                == ImageLayout::TransferSrcOptimal);
            assert(spec_layout_after(cmds@, ImageTarget::SwapchainImage, 4)
                == ImageLayout::TransferDstOptimal);
            assert(spec_layout_after(cmds@, ImageTarget::SwapchainImage, 5)
                == ImageLayout::TransferDstOptimal);
        }
    }
    cmds
}

} // verus!
