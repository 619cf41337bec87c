//! The swapchain: how it is configured from what the surface offers, and
//! what has to go, in which order, when it is made anew.

use crate::device_choice::position_of;
use crate::vk_values::{
    color_space_srgb_nonlinear,
    color_space_srgb_nonlinear_raw,
    format_b8g8r8a8_unorm,
    format_b8g8r8a8_unorm_raw,
    present_mode_immediate,
    present_mode_immediate_raw,
    present_mode_mailbox,
    present_mode_mailbox_raw,
};
use ash::vk;
use vstd::prelude::*;

verus! {

/// `ash::vk::SwapchainKHR`, carried through as an opaque handle.
#[verifier::external_type_specification]
#[verifier::external_body]
pub struct ExSwapchainKHR(vk::SwapchainKHR);

/// `ash::vk::ImageView`, carried through as an opaque handle.
#[verifier::external_type_specification]
#[verifier::external_body]
pub struct ExImageView(vk::ImageView);

/// `ash::vk::Framebuffer`, carried through as an opaque handle.
#[verifier::external_type_specification]
#[verifier::external_body]
pub struct ExFramebuffer(vk::Framebuffer);

/// `ash::vk::RenderPass`, carried through as an opaque handle.
#[verifier::external_type_specification]
#[verifier::external_body]
pub struct ExRenderPass(vk::RenderPass);

/// `ash::vk::PipelineLayout`, carried through as an opaque handle.
#[verifier::external_type_specification]
#[verifier::external_body]
pub struct ExPipelineLayout(vk::PipelineLayout);

/// `ash::vk::Pipeline`, carried through as an opaque handle.
#[verifier::external_type_specification]
#[verifier::external_body]
pub struct ExPipeline(vk::Pipeline);

/// A pixel format and colour space that the surface can present, both raw.
#[derive(Debug, Clone, Copy, PartialEq, Eq, Structural)]
pub struct SurfaceFormat {
    pub format: i32,
    pub color_space: i32,
}

/// A size in pixels.
#[derive(Debug, Clone, Copy, PartialEq, Eq, Structural)]
pub struct Extent {
    pub width: u32,
    pub height: u32,
}

/// What the surface reports about the images it can take.
#[derive(Debug, Clone, Copy, PartialEq, Eq, Structural)]
pub struct SurfaceLimits {
    /// The surface's own size, or a width of `u32::MAX` where the swapchain
    /// decides the size.
    pub current_extent: Extent,
    pub min_image_extent: Extent,
    pub max_image_extent: Extent,
    pub min_image_count: u32,
}

/// The configuration of a swapchain.
#[derive(Debug, Clone, Copy, PartialEq, Eq, Structural)]
pub struct SwapchainPlan {
    pub format: SurfaceFormat,
    pub present_mode: i32,
    pub extent: Extent,
    pub min_image_count: u32,
}

/// Why no swapchain can be configured.
#[derive(Debug, Clone, Copy, PartialEq, Eq, Structural)]
pub enum SwapchainError {
    /// The surface offers no format.
    NoSurfaceFormat,
    /// The surface offers no present mode.
    NoPresentMode,
    /// One image more than the surface's minimum does not fit in `u32`.
    ImageCountOverflow,
}

/// The format asked for wherever the surface offers it.
pub open spec fn preferred_format() -> SurfaceFormat {
    SurfaceFormat { format: format_b8g8r8a8_unorm(), color_space: color_space_srgb_nonlinear() }
}

/// The format to present in: the preferred one where offered, else the first
/// offered; none where nothing is offered.
pub open spec fn surface_format_of(formats: Seq<SurfaceFormat>) -> Option<SurfaceFormat> {
    if formats.len() == 0 {
        None
    } else if formats.contains(preferred_format()) {
        Some(preferred_format())
    } else {
        Some(formats[0])
    }
}

/// Picks the surface format.
pub fn choose_surface_format(formats: &[SurfaceFormat]) -> (r: Option<SurfaceFormat>)
    ensures
        r == surface_format_of(formats@),
{
    let format = format_b8g8r8a8_unorm_raw();
    let color_space = color_space_srgb_nonlinear_raw();
    let mut i: usize = 0;
    while i < formats.len()
        invariant
            i <= formats.len(),
            format == format_b8g8r8a8_unorm(),
            color_space == color_space_srgb_nonlinear(),
            forall|j: int| 0 <= j < i ==> formats@[j] != preferred_format(),
        decreases formats.len() - i,
    {
        if formats[i].format == format && formats[i].color_space == color_space {
            assert(formats@[i as int] == preferred_format());
            return Some(formats[i]);
        }
        i += 1;
    }
    if formats.len() == 0 {
        None
    } else {
        Some(formats[0])
    }
}

/// The present mode to use: mailbox where offered, else immediate where
/// offered, else the first offered; none where nothing is offered.
pub open spec fn present_mode_of(modes: Seq<i32>) -> Option<i32> {
    if modes.len() == 0 {
        None
    } else if modes.contains(present_mode_mailbox()) {
        Some(present_mode_mailbox())
    } else if modes.contains(present_mode_immediate()) {
        Some(present_mode_immediate())
    } else {
        Some(modes[0])
    }
}

/// Picks the present mode from the raw modes that the surface offers.
pub fn choose_present_mode(modes: &[i32]) -> (r: Option<i32>)
    ensures
        r == present_mode_of(modes@),
{
    let mailbox = present_mode_mailbox_raw();
    let immediate = present_mode_immediate_raw();
    match position_of(modes, mailbox) {
        Some(i) => Some(modes[i]),
        None => match position_of(modes, immediate) {
            Some(i) => Some(modes[i]),
            None => {
                if modes.len() == 0 {
                    None
                } else {
                    Some(modes[0])
                }
            },
        },
    }
}

/// `value` raised to `low` where it is below, then cut to `high` where it is
/// above. Where `low` exceeds `high`, the result is `high`.
pub open spec fn clamped(value: u32, low: u32, high: u32) -> u32 {
    let raised = if value < low {
        low
    } else {
        value
    };
    if raised > high {
        high
    } else {
        raised
    }
}

/// The size of the swapchain's images: the surface's own size where it has
/// one, else the framebuffer's size, read as unsigned and kept within the
/// surface's limits.
pub open spec fn extent_of(limits: SurfaceLimits, framebuffer_width: i32, framebuffer_height: i32)
    -> Extent {
    if limits.current_extent.width != u32::MAX {
        limits.current_extent
    } else {
        Extent {
            width: clamped(
                framebuffer_width as u32,
                limits.min_image_extent.width,
                limits.max_image_extent.width,
            ),
            height: clamped(
                framebuffer_height as u32,
                limits.min_image_extent.height,
                limits.max_image_extent.height,
            ),
        }
    }
}

fn clamp(value: u32, low: u32, high: u32) -> (r: u32)
    ensures
        r == clamped(value, low, high),
{
    let raised = if value < low {
        low
    } else {
        value
    };
    if raised > high {
        high
    } else {
        raised
    }
}

/// Picks the size of the swapchain's images.
pub fn choose_extent(limits: &SurfaceLimits, framebuffer_width: i32, framebuffer_height: i32) -> (r:
    Extent)
    ensures
        r == extent_of(*limits, framebuffer_width, framebuffer_height),
{
    if limits.current_extent.width != u32::MAX {
        limits.current_extent
    } else {
        let width = #[verifier::truncate]
        (framebuffer_width as u32);
        let height = #[verifier::truncate]
        (framebuffer_height as u32);
        Extent {
            width: clamp(width, limits.min_image_extent.width, limits.max_image_extent.width),
            height: clamp(height, limits.min_image_extent.height, limits.max_image_extent.height),
        }
    }
}

/// The configuration that the surface calls for, or the first reason why
/// there is none.
pub open spec fn swapchain_plan_of(
    limits: SurfaceLimits,
    formats: Seq<SurfaceFormat>,
    modes: Seq<i32>,
    framebuffer_width: i32,
    framebuffer_height: i32,
) -> Result<SwapchainPlan, SwapchainError> {
    match (surface_format_of(formats), present_mode_of(modes)) {
        (None, _) => Err(SwapchainError::NoSurfaceFormat),
        (Some(_), None) => Err(SwapchainError::NoPresentMode),
        (Some(format), Some(present_mode)) => if limits.min_image_count == u32::MAX {
            Err(SwapchainError::ImageCountOverflow)
        } else {
            Ok(
                SwapchainPlan {
                    format,
                    present_mode,
                    extent: extent_of(limits, framebuffer_width, framebuffer_height),
                    min_image_count: (limits.min_image_count + 1) as u32,
                },
            )
        },
    }
}

/// Configures a swapchain: format, present mode, image size, and one image
/// more than the surface's minimum.
pub fn plan_swapchain(
    limits: &SurfaceLimits,
    formats: &[SurfaceFormat],
    modes: &[i32],
    framebuffer_width: i32,
    framebuffer_height: i32,
) -> (r: Result<SwapchainPlan, SwapchainError>)
    ensures
        r == swapchain_plan_of(*limits, formats@, modes@, framebuffer_width, framebuffer_height),
{
    let format = match choose_surface_format(formats) {
        Some(format) => format,
        None => {
            return Err(SwapchainError::NoSurfaceFormat);
        },
    };
    let present_mode = match choose_present_mode(modes) {
        Some(present_mode) => present_mode,
        None => {
            return Err(SwapchainError::NoPresentMode);
        },
    };
    let extent = choose_extent(limits, framebuffer_width, framebuffer_height);
    if limits.min_image_count == u32::MAX {
        return Err(SwapchainError::ImageCountOverflow);
    }
    Ok(SwapchainPlan { format, present_mode, extent, min_image_count: limits.min_image_count + 1 })
}

/// A configured swapchain keeps to the surface: its format and present mode
/// are among those offered, and where the surface leaves the size open and
/// its limits are in order, the size lies within them.
pub proof fn plan_keeps_to_surface(
    limits: SurfaceLimits,
    formats: Seq<SurfaceFormat>,
    modes: Seq<i32>,
    framebuffer_width: i32,
    framebuffer_height: i32,
)
    requires
        swapchain_plan_of(limits, formats, modes, framebuffer_width, framebuffer_height) is Ok,
    ensures
        ({
            let plan = swapchain_plan_of(
                limits,
                formats,
                modes,
                framebuffer_width,
                framebuffer_height,
            )->Ok_0;
            &&& formats.contains(plan.format)
            &&& modes.contains(plan.present_mode)
            &&& plan.min_image_count > limits.min_image_count
            &&& limits.current_extent.width == u32::MAX && limits.min_image_extent.width
                <= limits.max_image_extent.width ==> limits.min_image_extent.width
                <= plan.extent.width <= limits.max_image_extent.width
            &&& limits.current_extent.width == u32::MAX && limits.min_image_extent.height
                <= limits.max_image_extent.height ==> limits.min_image_extent.height
                <= plan.extent.height <= limits.max_image_extent.height
        }),
{
    assert(formats[0] == formats[0]);
    assert(modes[0] == modes[0]);
}

/// What was built for one swapchain and has to go with it.
pub struct SwapchainDependentResources {
    pub swapchain: vk::SwapchainKHR,
    pub swapchain_imageviews: Vec<vk::ImageView>,
    pub swapchain_framebuffers: Vec<vk::Framebuffer>,
    pub render_pass: vk::RenderPass,
    pub pipeline_layout: vk::PipelineLayout,
    pub graphics_pipeline: vk::Pipeline,
}

/// One step of making the swapchain anew.
#[derive(Debug, Clone, Copy, PartialEq, Eq)]
pub enum RecreateStep {
    /// The framebuffer has no area: read its size again and ask anew.
    PollFramebufferSize,
    /// Wait until the device is idle.
    WaitIdle,
    DestroyFramebuffer(vk::Framebuffer),
    DestroyPipeline(vk::Pipeline),
    DestroyPipelineLayout(vk::PipelineLayout),
    DestroyRenderPass(vk::RenderPass),
    DestroyImageView(vk::ImageView),
    /// Build the swapchain and everything that depends on it, handing the
    /// old swapchain over.
    Create { old_swapchain: vk::SwapchainKHR },
    DestroySwapchain(vk::SwapchainKHR),
    /// There was no swapchain: nothing is freed and nothing is built.
    NothingToFree,
}

/// The steps that take `current` down and put a new swapchain in its place:
/// framebuffers, pipeline, layout, render pass, image views, then the new
/// swapchain, then the old one.
pub open spec fn replace_steps(current: SwapchainDependentResources) -> Seq<RecreateStep> {
    current.swapchain_framebuffers@.map_values(
        |f: vk::Framebuffer| RecreateStep::DestroyFramebuffer(f),
    ) + seq![
        RecreateStep::DestroyPipeline(current.graphics_pipeline),
        RecreateStep::DestroyPipelineLayout(current.pipeline_layout),
        RecreateStep::DestroyRenderPass(current.render_pass),
    ] + current.swapchain_imageviews@.map_values(
        |v: vk::ImageView| RecreateStep::DestroyImageView(v),
    ) + seq![
        RecreateStep::Create { old_swapchain: current.swapchain },
        RecreateStep::DestroySwapchain(current.swapchain),
    ]
}

/// What to do about the swapchain after the framebuffer changed size.
pub open spec fn recreate_steps(
    framebuffer_width: i32,
    framebuffer_height: i32,
    current: Option<SwapchainDependentResources>,
) -> Seq<RecreateStep> {
    if framebuffer_width == 0 || framebuffer_height == 0 {
        seq![RecreateStep::PollFramebufferSize]
    } else {
        match current {
            Some(current) => seq![RecreateStep::WaitIdle] + replace_steps(current),
            None => seq![RecreateStep::WaitIdle, RecreateStep::NothingToFree],
        }
    }
}

/// Decides, from the framebuffer's size and the swapchain in use, the steps
/// to carry out in order.
pub fn recreate_swapchain(
    framebuffer_width: i32,
    framebuffer_height: i32,
    current: Option<&SwapchainDependentResources>,
) -> (r: Vec<RecreateStep>)
    ensures
        r@ == recreate_steps(
            framebuffer_width,
            framebuffer_height,
            match current {
                Some(c) => Some(*c),
                None => None,
            },
        ),
{
    let mut steps: Vec<RecreateStep> = Vec::new();
    if framebuffer_width == 0 || framebuffer_height == 0 {
        steps.push(RecreateStep::PollFramebufferSize);
        assert(steps@ =~= seq![RecreateStep::PollFramebufferSize]);
        return steps;
    }
    steps.push(RecreateStep::WaitIdle);
    let current = match current {
        Some(current) => current,
        None => {
            steps.push(RecreateStep::NothingToFree);
            assert(steps@ =~= seq![RecreateStep::WaitIdle, RecreateStep::NothingToFree]);
            return steps;
        },
    };
    let ghost framebuffers = current.swapchain_framebuffers@.map_values(
        |f: vk::Framebuffer| RecreateStep::DestroyFramebuffer(f),
    );
    let ghost image_views = current.swapchain_imageviews@.map_values(
        |v: vk::ImageView| RecreateStep::DestroyImageView(v),
    );
    let mut i: usize = 0;
    while i < current.swapchain_framebuffers.len()
        invariant
            i <= current.swapchain_framebuffers.len(),
            framebuffers == current.swapchain_framebuffers@.map_values(
                |f: vk::Framebuffer| RecreateStep::DestroyFramebuffer(f),
            ),
            steps@ =~= seq![RecreateStep::WaitIdle] + framebuffers.subrange(0, i as int),
        decreases current.swapchain_framebuffers.len() - i,
    {
        steps.push(RecreateStep::DestroyFramebuffer(current.swapchain_framebuffers[i]));
        i += 1;
    }
    assert(framebuffers.subrange(0, i as int) =~= framebuffers);
    steps.push(RecreateStep::DestroyPipeline(current.graphics_pipeline));
    steps.push(RecreateStep::DestroyPipelineLayout(current.pipeline_layout));
    steps.push(RecreateStep::DestroyRenderPass(current.render_pass));
    let ghost fixed = seq![RecreateStep::WaitIdle] + framebuffers + seq![
        RecreateStep::DestroyPipeline(current.graphics_pipeline),
        RecreateStep::DestroyPipelineLayout(current.pipeline_layout),
        RecreateStep::DestroyRenderPass(current.render_pass),
    ];
    assert(steps@ =~= fixed);
    let mut j: usize = 0;
    while j < current.swapchain_imageviews.len()
        invariant
            j <= current.swapchain_imageviews.len(),
            image_views == current.swapchain_imageviews@.map_values(
                |v: vk::ImageView| RecreateStep::DestroyImageView(v),
            ),
            steps@ =~= fixed + image_views.subrange(0, j as int),
        decreases current.swapchain_imageviews.len() - j,
    {
        steps.push(RecreateStep::DestroyImageView(current.swapchain_imageviews[j]));
        j += 1;
    }
    assert(image_views.subrange(0, j as int) =~= image_views);
    steps.push(RecreateStep::Create { old_swapchain: current.swapchain });
    steps.push(RecreateStep::DestroySwapchain(current.swapchain));
    assert(steps@ =~= seq![RecreateStep::WaitIdle] + replace_steps(*current));
    steps
}

} // verus!
