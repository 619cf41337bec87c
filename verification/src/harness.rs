//! The harness as a whole: the state that lasts from frame to frame, and
//! what each frame and each resize have to do.

use crate::frame::{walk, FrameCursor, IN_FLIGHT_FRAMES};
use crate::resource_manager::{BarrierCommand, FillError, FillStep, Resource, ResourceManager};
use crate::swapchain::{
    recreate_steps,
    recreate_swapchain,
    RecreateStep,
    SwapchainDependentResources,
};
use ash::vk;
use vstd::prelude::*;

verus! {

/// What lasts from frame to frame.
pub struct VulkanApp {
    pub resource_manager: ResourceManager,
    pub vertex_buffer: Resource,
    pub swapchain_dependent_resources: Option<SwapchainDependentResources>,
    pub cursor: FrameCursor,
}

/// What one frame does, in the order in which it is carried out.
#[derive(Debug, Clone, Copy, PartialEq, Eq)]
pub struct FramePlan {
    /// Position of the command buffer to record into and of the semaphores
    /// that order acquisition, rendering and presentation.
    pub frame: usize,
    /// Position of the fence that the submission signals.
    pub in_flight_frame: usize,
    /// How the vertex data reaches the vertex buffer before recording.
    pub fill: FillStep,
    /// The render pass to begin.
    pub render_pass: vk::RenderPass,
    /// The framebuffer of the acquired image, to render into.
    pub framebuffer: vk::Framebuffer,
    /// The pipeline to bind, and the layout that its descriptor sets follow.
    pub graphics_pipeline: vk::Pipeline,
    pub pipeline_layout: vk::PipelineLayout,
    /// The buffer to bind as vertex input.
    pub vertex_buffer: vk::Buffer,
    /// The barrier to record after the render pass.
    pub barrier: BarrierCommand,
}

/// Why a frame cannot be drawn.
#[derive(Debug, Clone, Copy, PartialEq, Eq)]
pub enum FrameError {
    /// There is no swapchain to draw to.
    NoSwapchain,
    /// The vertex data cannot be uploaded.
    Fill(FillError),
    /// The acquired image has no framebuffer.
    ImageIndexOutOfRange,
}

impl VulkanApp {
    /// The frame to draw once image `image_index` was acquired and
    /// `element_count` items of `element_size` bytes are the new vertex
    /// data; or the first reason why none can be drawn.
    pub open spec fn frame_plan(&self, image_index: u32, element_count: usize, element_size: usize)
        -> Result<FramePlan, FrameError> {
        match self.swapchain_dependent_resources {
            None => Err(FrameError::NoSwapchain),
            Some(swapchain) => match self.resource_manager.fill_step(
                self.vertex_buffer,
                element_count,
                element_size,
            ) {
                Err(e) => Err(FrameError::Fill(e)),
                Ok(fill) => if image_index >= swapchain.swapchain_framebuffers@.len() {
                    Err(FrameError::ImageIndexOutOfRange)
                } else {
                    Ok(
                        FramePlan {
                            frame: self.cursor.current(),
                            in_flight_frame: self.cursor.in_flight(),
                            fill,
                            render_pass: swapchain.render_pass,
                            framebuffer: swapchain.swapchain_framebuffers@[image_index as int],
                            graphics_pipeline: swapchain.graphics_pipeline,
                            pipeline_layout: swapchain.pipeline_layout,
                            vertex_buffer: self.vertex_buffer.buffer,
                            barrier: self.resource_manager.vertex_use_barrier(self.vertex_buffer),
                        },
                    )
                },
            },
        }
    }

    /// The state at the first frame; none without a command buffer to
    /// record into.
    pub fn new(
        resource_manager: ResourceManager,
        vertex_buffer: Resource,
        swapchain_dependent_resources: SwapchainDependentResources,
        command_buffer_count: usize,
    ) -> (r: Option<VulkanApp>)
        ensures
            r is Some <==> command_buffer_count > 0,
            r matches Some(app) ==> {
                &&& app.resource_manager == resource_manager
                &&& app.vertex_buffer == vertex_buffer
                &&& app.swapchain_dependent_resources == Some(swapchain_dependent_resources)
                &&& app.cursor.frames() == command_buffer_count
                &&& app.cursor.current() == 0
                &&& app.cursor.in_flight() == 0
            },
    {
        match FrameCursor::new(command_buffer_count) {
            Some(cursor) => Some(
                VulkanApp {
                    resource_manager,
                    vertex_buffer,
                    swapchain_dependent_resources: Some(swapchain_dependent_resources),
                    cursor,
                },
            ),
            None => None,
        }
    }

    /// Plans the frame for the acquired image and moves on to the next
    /// frame. The plan's positions always name a command buffer and a fence
    /// that exist. Where no frame can be drawn nothing changes. A staged fill
    /// takes the staging buffer out of the resource manager, as
    /// `ResourceManager::fill_buffer` does.
    pub fn draw_frame(&mut self, image_index: u32, element_count: usize, element_size: usize) -> (r:
        Result<FramePlan, FrameError>)
        ensures
            r == old(self).frame_plan(image_index, element_count, element_size),
            final(self).vertex_buffer == old(self).vertex_buffer,
            final(self).swapchain_dependent_resources == old(self).swapchain_dependent_resources,
            final(self).resource_manager.buffers() == old(self).resource_manager.buffers(),
            final(self).resource_manager.policy() == old(self).resource_manager.policy(),
            final(self).resource_manager.transfer_fence() == old(
                self,
            ).resource_manager.transfer_fence(),
            final(self).resource_manager.staging() == if r is Ok && old(
                self,
            ).resource_manager.policy().stages() {
                None
            } else {
                old(self).resource_manager.staging()
            },
            final(self).cursor.frames() == old(self).cursor.frames(),
            r is Err ==> final(self).cursor == old(self).cursor,
            r matches Ok(plan) ==> {
                &&& plan.frame < old(self).cursor.frames()
                &&& plan.in_flight_frame < IN_FLIGHT_FRAMES
                &&& final(self).cursor.current() == walk(
                    old(self).cursor.current() as int,
                    old(self).cursor.frames() as int,
                    1,
                )
                &&& final(self).cursor.in_flight() == walk(
                    old(self).cursor.in_flight() as int,
                    IN_FLIGHT_FRAMES as int,
                    1,
                )
            },
    {
        let (render_pass, framebuffer, graphics_pipeline, pipeline_layout) =
            match &self.swapchain_dependent_resources {
            None => {
                return Err(FrameError::NoSwapchain);
            },
            Some(swapchain) => {
                if let Err(e) = self.resource_manager.fill_check(
                    &self.vertex_buffer,
                    element_count,
                    element_size,
                ) {
                    return Err(FrameError::Fill(e));
                }
                if image_index as usize >= swapchain.swapchain_framebuffers.len() {
                    return Err(FrameError::ImageIndexOutOfRange);
                }
                (
                    swapchain.render_pass,
                    swapchain.swapchain_framebuffers[image_index as usize],
                    swapchain.graphics_pipeline,
                    swapchain.pipeline_layout,
                )
            },
        };
        let fill = match self.resource_manager.fill_buffer(
            self.vertex_buffer,
            element_count,
            element_size,
        ) {
            Ok(fill) => fill,
            Err(e) => {
                return Err(FrameError::Fill(e));
            },
        };
        let barrier = self.resource_manager.cmd_barrier_after_vertex_buffer_use(
            &self.vertex_buffer,
        );
        let plan = FramePlan {
            frame: self.cursor.cur_frame(),
            in_flight_frame: self.cursor.in_flight_frame(),
            fill,
            render_pass,
            framebuffer,
            graphics_pipeline,
            pipeline_layout,
            vertex_buffer: self.vertex_buffer.buffer,
            barrier,
        };
        self.cursor.advance();
        Ok(plan)
    }

    /// The steps that follow a change of the framebuffer's size, given the
    /// size that the window reports now.
    pub fn framebuffer_resize(&self, framebuffer_width: i32, framebuffer_height: i32) -> (r: Vec<
        RecreateStep,
    >)
        ensures
            r@ == recreate_steps(
                framebuffer_width,
                framebuffer_height,
                self.swapchain_dependent_resources,
            ),
    {
        recreate_swapchain(
            framebuffer_width,
            framebuffer_height,
            self.swapchain_dependent_resources.as_ref(),
        )
    }
}

/// The size in bytes of a vertex buffer for `float_count` 32-bit floats;
/// none where it does not fit in `u64`.
pub fn vertex_buffer_size(float_count: usize) -> (r: Option<u64>)
    ensures
        r == if float_count * 4 <= u64::MAX {
            Some((float_count * 4) as u64)
        } else {
            None
        },
{
    (float_count as u64).checked_mul(4)
}

} // verus!
