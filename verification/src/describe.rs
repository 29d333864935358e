//! What each creation call is handed, as plain values. Codes and flag bits
//! are those of the graphics interface, so the host passes them on as they
//! are.

use vstd::prelude::*;
use crate::negotiate::SwapchainConfig;
use crate::surface::{ColorSpace, Extent, Format, PresentMode};

verus! {

/// Images are used as colour attachments.
pub const IMAGE_USAGE_COLOR_ATTACHMENT: u32 = 0x10;

/// Images belong to one queue family at a time.
pub const SHARING_MODE_EXCLUSIVE: i32 = 0;

/// The window's alpha channel is ignored.
pub const COMPOSITE_ALPHA_OPAQUE: u32 = 1;

/// A view of a two-dimensional image.
pub const IMAGE_VIEW_TYPE_2D: i32 = 1;

/// A channel is read from its own place.
pub const COMPONENT_SWIZZLE_IDENTITY: i32 = 0;

/// The colour aspect of an image.
pub const IMAGE_ASPECT_COLOR: u32 = 1;

/// One sample per pixel.
pub const SAMPLE_COUNT_1: u32 = 1;

/// The attachment is cleared when the pass begins.
pub const LOAD_OP_CLEAR: i32 = 1;

/// What the attachment held before the pass does not matter.
pub const LOAD_OP_DONT_CARE: i32 = 2;

/// The attachment is written back when the pass ends.
pub const STORE_OP_STORE: i32 = 0;

/// What the attachment holds after the pass does not matter.
pub const STORE_OP_DONT_CARE: i32 = 1;

/// The image's contents are not defined.
pub const IMAGE_LAYOUT_UNDEFINED: i32 = 0;

/// The image is laid out for use as a colour attachment.
pub const IMAGE_LAYOUT_COLOR_ATTACHMENT_OPTIMAL: i32 = 2;

/// The image is laid out for presentation.
pub const IMAGE_LAYOUT_PRESENT_SRC: i32 = 1_000_001_002;

/// The subpass binds a graphics pipeline.
pub const PIPELINE_BIND_POINT_GRAPHICS: i32 = 0;

/// Buffers of the pool can be reset one by one.
pub const COMMAND_POOL_RESET_COMMAND_BUFFER: u32 = 2;

/// A buffer that is submitted to a queue directly.
pub const COMMAND_BUFFER_LEVEL_PRIMARY: i32 = 0;

/// The buffer may be submitted again while it is still pending.
pub const COMMAND_BUFFER_USAGE_SIMULTANEOUS_USE: u32 = 4;

/// The commands of the subpass stand in the primary buffer itself.
pub const SUBPASS_CONTENTS_INLINE: i32 = 0;

/// Name under which the application registers with the instance.
pub const APPLICATION_NAME: &'static str = "ol-rusty";

/// Name under which the engine registers with the instance.
pub const ENGINE_NAME: &'static str = "ol_engine";

/// What the instance is created from. The presentation extensions of the
/// platform are added by the host, which alone knows the display.
#[derive(Clone, Copy, Debug, PartialEq, Eq)]
pub struct InstanceDesc {
    pub application_name: &'static str,
    pub application_version: u32,
    pub engine_name: &'static str,
    pub engine_version: u32,
    pub api_version: u32,
}

/// What the logical device is created from.
#[derive(Clone, Copy, Debug, PartialEq, Eq, Structural)]
pub struct DeviceDesc {
    pub physical_device: u64,
    pub queue_family_index: u32,
    pub queue_count: u32,
    /// The queue gets the highest priority there is.
    pub top_priority: bool,
    /// The swapchain extension is enabled.
    pub swapchain_extension: bool,
}

/// What the swapchain is created from.
#[derive(Clone, Copy, Debug, PartialEq, Eq, Structural)]
pub struct SwapchainDesc {
    pub surface: u64,
    pub min_image_count: u32,
    pub format: Format,
    pub color_space: ColorSpace,
    pub extent: Extent,
    pub array_layers: u32,
    pub usage: u32,
    pub sharing_mode: i32,
    pub pre_transform: u32,
    pub composite_alpha: u32,
    pub present_mode: PresentMode,
    pub clipped: bool,
}

/// What the view of one swapchain image is created from.
#[derive(Clone, Copy, Debug, PartialEq, Eq, Structural)]
pub struct ImageViewDesc {
    pub image: u64,
    pub view_type: i32,
    pub format: Format,
    pub swizzle_r: i32,
    pub swizzle_g: i32,
    pub swizzle_b: i32,
    pub swizzle_a: i32,
    pub aspect_mask: u32,
    pub base_mip_level: u32,
    pub level_count: u32,
    pub base_array_layer: u32,
    pub layer_count: u32,
}

/// What the render pass is created from: one subpass over one colour
/// attachment, and no depth or stencil attachment.
#[derive(Clone, Copy, Debug, PartialEq, Eq, Structural)]
pub struct RenderPassDesc {
    pub format: Format,
    pub samples: u32,
    pub load_op: i32,
    pub store_op: i32,
    pub stencil_load_op: i32,
    pub stencil_store_op: i32,
    pub initial_layout: i32,
    pub final_layout: i32,
    pub attachment_count: u32,
    pub subpass_count: u32,
    pub bind_point: i32,
    /// Index of the attachment that the subpass draws to.
    pub color_attachment: u32,
    pub color_attachment_layout: i32,
}

/// What one framebuffer is created from.
#[derive(Clone, Copy, Debug, PartialEq, Eq, Structural)]
pub struct FramebufferDesc {
    pub render_pass: u64,
    /// The one attachment: an image view.
    pub attachment: u64,
    pub width: u32,
    pub height: u32,
    pub layers: u32,
}

/// What the command pool is created from.
#[derive(Clone, Copy, Debug, PartialEq, Eq, Structural)]
pub struct CommandPoolDesc {
    pub flags: u32,
    pub queue_family_index: u32,
}

/// What the command buffers are allocated from.
#[derive(Clone, Copy, Debug, PartialEq, Eq, Structural)]
pub struct CommandBufferAllocDesc {
    pub command_pool: u64,
    pub level: i32,
    pub count: u32,
}

/// What the render pass of a recording begins with.
#[derive(Clone, Copy, Debug, PartialEq, Eq, Structural)]
pub struct RenderPassBegin {
    pub command_buffer: u64,
    pub render_pass: u64,
    pub framebuffer: u64,
    pub area_x: i32,
    pub area_y: i32,
    pub area_extent: Extent,
    /// Red, green, blue and alpha of the clear colour, each out of 255.
    pub clear_red: u8,
    pub clear_green: u8,
    pub clear_blue: u8,
    pub clear_alpha: u8,
    pub contents: i32,
}

/// One call of a recording. Beginning and ending the buffer can be refused;
/// the two calls between them cannot.
#[derive(Clone, Copy, Debug, PartialEq, Eq, Structural)]
pub enum RecordStep {
    BeginCommandBuffer { command_buffer: u64, flags: u32 },
    BeginRenderPass(RenderPassBegin),
    EndRenderPass { command_buffer: u64 },
    EndCommandBuffer { command_buffer: u64 },
}

/// A version number as the graphics interface packs it: the variant in the
/// top three bits, then seven bits of major, ten of minor, twelve of patch.
pub open spec fn packed_version(variant: u32, major: u32, minor: u32, patch: u32) -> u32 {
    (variant << 29u32) | (major << 22u32) | (minor << 12u32) | patch
}

/// `ash::vk::make_api_version`: the four numbers shifted into their places
/// and joined; bits shifted past the top are lost.
#[verifier::external_body]
fn make_version(variant: u32, major: u32, minor: u32, patch: u32) -> (v: u32)
    ensures
        v == packed_version(variant, major, minor, patch),
{
    ash::vk::make_api_version(variant, major, minor, patch)
}

/// The instance: the application and the engine by name, both at version
/// 0.1.0, for version 1.3 of the interface.
pub open spec fn instance_for() -> InstanceDesc {
    InstanceDesc {
        application_name: APPLICATION_NAME,
        application_version: packed_version(0, 0, 1, 0),
        engine_name: ENGINE_NAME,
        engine_version: packed_version(0, 0, 1, 0),
        api_version: packed_version(0, 1, 3, 0),
    }
}

/// Describes the instance.
pub fn instance_desc() -> (d: InstanceDesc)
    ensures
        d == instance_for(),
        d.application_version == 4096,
        d.engine_version == 4096,
        d.api_version == 4_206_592,
{
    assert(packed_version(0, 0, 1, 0) == 4096) by (bit_vector);
    assert(packed_version(0, 1, 3, 0) == 4_206_592) by (bit_vector);
    InstanceDesc {
        application_name: APPLICATION_NAME,
        application_version: make_version(0, 0, 1, 0),
        engine_name: ENGINE_NAME,
        engine_version: make_version(0, 0, 1, 0),
        api_version: make_version(0, 1, 3, 0),
    }
}

/// The logical device: one queue of the chosen family at the highest
/// priority, with the swapchain extension.
pub open spec fn device_for(physical_device: u64, queue_family_index: u32) -> DeviceDesc {
    DeviceDesc {
        physical_device,
        queue_family_index,
        queue_count: 1,
        top_priority: true,
        swapchain_extension: true,
    }
}

/// Describes the logical device.
pub fn device_desc(physical_device: u64, queue_family_index: u32) -> (d: DeviceDesc)
    ensures
        d == device_for(physical_device, queue_family_index),
{
    DeviceDesc {
        physical_device,
        queue_family_index,
        queue_count: 1,
        top_priority: true,
        swapchain_extension: true,
    }
}

/// The swapchain on `surface` as `config` settled it: one array layer,
/// colour-attachment images owned by one queue family, opaque, clipped, with
/// no older swapchain to take over from.
pub open spec fn swapchain_for(surface: u64, config: SwapchainConfig) -> SwapchainDesc {
    SwapchainDesc {
        surface,
        min_image_count: config.min_image_count,
        format: config.surface_format.format,
        color_space: config.surface_format.color_space,
        extent: config.extent,
        array_layers: 1,
        usage: IMAGE_USAGE_COLOR_ATTACHMENT,
        sharing_mode: SHARING_MODE_EXCLUSIVE,
        pre_transform: config.pre_transform,
        composite_alpha: COMPOSITE_ALPHA_OPAQUE,
        present_mode: config.present_mode,
        clipped: true,
    }
}

/// Describes the swapchain.
pub fn swapchain_desc(surface: u64, config: &SwapchainConfig) -> (d: SwapchainDesc)
    ensures
        d == swapchain_for(surface, *config),
{
    SwapchainDesc {
        surface,
        min_image_count: config.min_image_count,
        format: config.surface_format.format,
        color_space: config.surface_format.color_space,
        extent: config.extent,
        array_layers: 1,
        usage: IMAGE_USAGE_COLOR_ATTACHMENT,
        sharing_mode: SHARING_MODE_EXCLUSIVE,
        pre_transform: config.pre_transform,
        composite_alpha: COMPOSITE_ALPHA_OPAQUE,
        present_mode: config.present_mode,
        clipped: true,
    }
}

/// The view of `image`: two-dimensional, every channel in its own place, the
/// colour aspect of the one mip level and the one array layer.
pub open spec fn image_view_for(image: u64, format: Format) -> ImageViewDesc {
    ImageViewDesc {
        image,
        view_type: IMAGE_VIEW_TYPE_2D,
        format,
        swizzle_r: COMPONENT_SWIZZLE_IDENTITY,
        swizzle_g: COMPONENT_SWIZZLE_IDENTITY,
        swizzle_b: COMPONENT_SWIZZLE_IDENTITY,
        swizzle_a: COMPONENT_SWIZZLE_IDENTITY,
        aspect_mask: IMAGE_ASPECT_COLOR,
        base_mip_level: 0,
        level_count: 1,
        base_array_layer: 0,
        layer_count: 1,
    }
}

/// Describes the view of one swapchain image.
pub fn image_view_desc(image: u64, format: Format) -> (d: ImageViewDesc)
    ensures
        d == image_view_for(image, format),
{
    ImageViewDesc {
        image,
        view_type: IMAGE_VIEW_TYPE_2D,
        format,
        swizzle_r: COMPONENT_SWIZZLE_IDENTITY,
        swizzle_g: COMPONENT_SWIZZLE_IDENTITY,
        swizzle_b: COMPONENT_SWIZZLE_IDENTITY,
        swizzle_a: COMPONENT_SWIZZLE_IDENTITY,
        aspect_mask: IMAGE_ASPECT_COLOR,
        base_mip_level: 0,
        level_count: 1,
        base_array_layer: 0,
        layer_count: 1,
    }
}

/// The render pass over images of `format`: one sample, cleared on load and
/// stored at the end, stencil ignored, from an undefined layout to one ready
/// for presentation; its one subpass draws to attachment 0.
pub open spec fn render_pass_for(format: Format) -> RenderPassDesc {
    RenderPassDesc {
        format,
        samples: SAMPLE_COUNT_1,
        load_op: LOAD_OP_CLEAR,
        store_op: STORE_OP_STORE,
        stencil_load_op: LOAD_OP_DONT_CARE,
        stencil_store_op: STORE_OP_DONT_CARE,
        initial_layout: IMAGE_LAYOUT_UNDEFINED,
        final_layout: IMAGE_LAYOUT_PRESENT_SRC,
        attachment_count: 1,
        subpass_count: 1,
        bind_point: PIPELINE_BIND_POINT_GRAPHICS,
        color_attachment: 0,
        color_attachment_layout: IMAGE_LAYOUT_COLOR_ATTACHMENT_OPTIMAL,
    }
}

/// Describes the render pass.
pub fn render_pass_desc(format: Format) -> (d: RenderPassDesc)
    ensures
        d == render_pass_for(format),
{
    RenderPassDesc {
        format,
        samples: SAMPLE_COUNT_1,
        load_op: LOAD_OP_CLEAR,
        store_op: STORE_OP_STORE,
        stencil_load_op: LOAD_OP_DONT_CARE,
        stencil_store_op: STORE_OP_DONT_CARE,
        initial_layout: IMAGE_LAYOUT_UNDEFINED,
        final_layout: IMAGE_LAYOUT_PRESENT_SRC,
        attachment_count: 1,
        subpass_count: 1,
        bind_point: PIPELINE_BIND_POINT_GRAPHICS,
        color_attachment: 0,
        color_attachment_layout: IMAGE_LAYOUT_COLOR_ATTACHMENT_OPTIMAL,
    }
}

/// The framebuffer over `view`: that view alone, as large as `extent`, one
/// layer.
pub open spec fn framebuffer_for(render_pass: u64, view: u64, extent: Extent) -> FramebufferDesc {
    FramebufferDesc {
        render_pass,
        attachment: view,
        width: extent.width,
        height: extent.height,
        layers: 1,
    }
}

/// Describes the framebuffer of one image view.
pub fn framebuffer_desc(render_pass: u64, view: u64, extent: Extent) -> (d: FramebufferDesc)
    ensures
        d == framebuffer_for(render_pass, view, extent),
{
    FramebufferDesc {
        render_pass,
        attachment: view,
        width: extent.width,
        height: extent.height,
        layers: 1,
    }
}

/// Describes the framebuffers of a swapchain: one for each image view, in
/// the order of the views.
pub fn framebuffer_descs(render_pass: u64, image_views: &Vec<u64>, extent: Extent) -> (r: Vec<
    FramebufferDesc,
>)
    ensures
        r@.len() == image_views@.len(),
        forall|i: int|
            0 <= i < r@.len() ==> #[trigger] r@[i] == framebuffer_for(
                render_pass,
                image_views@[i],
                extent,
            ),
{
    let mut out: Vec<FramebufferDesc> = Vec::new();
    let mut i: usize = 0;
    while i < image_views.len()
        invariant
            0 <= i <= image_views@.len(),
            out@.len() == i,
            forall|j: int|
                0 <= j < i ==> #[trigger] out@[j] == framebuffer_for(
                    render_pass,
                    image_views@[j],
                    extent,
                ),
        decreases image_views@.len() - i,
    {
        out.push(framebuffer_desc(render_pass, image_views[i], extent));
        i += 1;
    }
    out
}

/// The command pool: on the chosen queue family, its buffers resettable one
/// by one.
pub open spec fn command_pool_for(queue_family_index: u32) -> CommandPoolDesc {
    CommandPoolDesc { flags: COMMAND_POOL_RESET_COMMAND_BUFFER, queue_family_index }
}

/// Describes the command pool.
pub fn command_pool_desc(queue_family_index: u32) -> (d: CommandPoolDesc)
    ensures
        d == command_pool_for(queue_family_index),
{
    CommandPoolDesc { flags: COMMAND_POOL_RESET_COMMAND_BUFFER, queue_family_index }
}

/// The allocation of `count` primary command buffers from the pool.
pub open spec fn command_buffers_for(command_pool: u64, count: u32) -> CommandBufferAllocDesc {
    CommandBufferAllocDesc { command_pool, level: COMMAND_BUFFER_LEVEL_PRIMARY, count }
}

/// Describes the allocation of the command buffers.
pub fn command_buffer_alloc_desc(command_pool: u64, count: u32) -> (d: CommandBufferAllocDesc)
    ensures
        d == command_buffers_for(command_pool, count),
{
    CommandBufferAllocDesc { command_pool, level: COMMAND_BUFFER_LEVEL_PRIMARY, count }
}

/// The render pass of an empty frame: over the whole extent from its
/// corner, cleared to opaque black, its commands inline.
pub open spec fn render_pass_begin_for(
    command_buffer: u64,
    render_pass: u64,
    framebuffer: u64,
    extent: Extent,
) -> RenderPassBegin {
    RenderPassBegin {
        command_buffer,
        render_pass,
        framebuffer,
        area_x: 0,
        area_y: 0,
        area_extent: extent,
        clear_red: 0,
        clear_green: 0,
        clear_blue: 0,
        clear_alpha: 255,
        contents: SUBPASS_CONTENTS_INLINE,
    }
}

/// The recording of an empty frame into `command_buffer`: begin the buffer
/// for simultaneous use, begin the render pass on the framebuffer, end the
/// pass at once, end the buffer.
pub open spec fn recording_for(
    command_buffer: u64,
    render_pass: u64,
    framebuffer: u64,
    extent: Extent,
) -> Seq<RecordStep> {
    seq![
        RecordStep::BeginCommandBuffer {
            command_buffer,
            flags: COMMAND_BUFFER_USAGE_SIMULTANEOUS_USE,
        },
        RecordStep::BeginRenderPass(
            render_pass_begin_for(command_buffer, render_pass, framebuffer, extent),
        ),
        RecordStep::EndRenderPass { command_buffer },
        RecordStep::EndCommandBuffer { command_buffer },
    ]
}

/// Lists the calls of one recording, in their order.
pub fn record_steps(command_buffer: u64, render_pass: u64, framebuffer: u64, extent: Extent) -> (r:
    Vec<RecordStep>)
    ensures
        r@ == recording_for(command_buffer, render_pass, framebuffer, extent),
{
    let mut steps: Vec<RecordStep> = Vec::new();
    steps.push(
        RecordStep::BeginCommandBuffer {
            command_buffer,
            flags: COMMAND_BUFFER_USAGE_SIMULTANEOUS_USE,
        },
    );
    steps.push(
        RecordStep::BeginRenderPass(
            RenderPassBegin {
                command_buffer,
                render_pass,
                framebuffer,
                area_x: 0,
                area_y: 0,
                area_extent: extent,
                clear_red: 0,
                clear_green: 0,
                clear_blue: 0,
                clear_alpha: 255,
                contents: SUBPASS_CONTENTS_INLINE,
            },
        ),
    );
    steps.push(RecordStep::EndRenderPass { command_buffer });
    steps.push(RecordStep::EndCommandBuffer { command_buffer });
    assert(steps@ =~= recording_for(command_buffer, render_pass, framebuffer, extent));
    steps
}

} // verus!
