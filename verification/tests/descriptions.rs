use ash::vk;
use renderer::describe::{
    command_buffer_alloc_desc, command_pool_desc, device_desc, framebuffer_desc,
    framebuffer_descs, image_view_desc, instance_desc, record_steps, render_pass_desc,
    swapchain_desc, CommandBufferAllocDesc, CommandPoolDesc, DeviceDesc, FramebufferDesc,
    ImageViewDesc, RecordStep, RenderPassBegin, RenderPassDesc, SwapchainDesc, APPLICATION_NAME,
    COMMAND_BUFFER_LEVEL_PRIMARY, COMMAND_BUFFER_USAGE_SIMULTANEOUS_USE,
    COMMAND_POOL_RESET_COMMAND_BUFFER, COMPONENT_SWIZZLE_IDENTITY, COMPOSITE_ALPHA_OPAQUE,
    ENGINE_NAME, IMAGE_ASPECT_COLOR, IMAGE_LAYOUT_COLOR_ATTACHMENT_OPTIMAL,
    IMAGE_LAYOUT_PRESENT_SRC, IMAGE_LAYOUT_UNDEFINED, IMAGE_USAGE_COLOR_ATTACHMENT,
    IMAGE_VIEW_TYPE_2D, LOAD_OP_CLEAR, LOAD_OP_DONT_CARE, PIPELINE_BIND_POINT_GRAPHICS,
    SAMPLE_COUNT_1, SHARING_MODE_EXCLUSIVE, STORE_OP_DONT_CARE, STORE_OP_STORE,
    SUBPASS_CONTENTS_INLINE,
};
use renderer::negotiate::SwapchainConfig;
use renderer::surface::{ColorSpace, Extent, Format, PresentMode, SurfaceFormat};

#[test]
fn description_codes_match_the_graphics_interface() {
    assert_eq!(IMAGE_USAGE_COLOR_ATTACHMENT, vk::ImageUsageFlags::COLOR_ATTACHMENT.as_raw());
    assert_eq!(SHARING_MODE_EXCLUSIVE, vk::SharingMode::EXCLUSIVE.as_raw());
    assert_eq!(COMPOSITE_ALPHA_OPAQUE, vk::CompositeAlphaFlagsKHR::OPAQUE.as_raw());
    assert_eq!(IMAGE_VIEW_TYPE_2D, vk::ImageViewType::TYPE_2D.as_raw());
    assert_eq!(COMPONENT_SWIZZLE_IDENTITY, vk::ComponentSwizzle::IDENTITY.as_raw());
    assert_eq!(IMAGE_ASPECT_COLOR, vk::ImageAspectFlags::COLOR.as_raw());
    assert_eq!(SAMPLE_COUNT_1, vk::SampleCountFlags::TYPE_1.as_raw());
    assert_eq!(LOAD_OP_CLEAR, vk::AttachmentLoadOp::CLEAR.as_raw());
    assert_eq!(LOAD_OP_DONT_CARE, vk::AttachmentLoadOp::DONT_CARE.as_raw());
    assert_eq!(STORE_OP_STORE, vk::AttachmentStoreOp::STORE.as_raw());
    assert_eq!(STORE_OP_DONT_CARE, vk::AttachmentStoreOp::DONT_CARE.as_raw());
    assert_eq!(IMAGE_LAYOUT_UNDEFINED, vk::ImageLayout::UNDEFINED.as_raw());
    assert_eq!(
        IMAGE_LAYOUT_COLOR_ATTACHMENT_OPTIMAL,
        vk::ImageLayout::COLOR_ATTACHMENT_OPTIMAL.as_raw()
    );
    assert_eq!(IMAGE_LAYOUT_PRESENT_SRC, vk::ImageLayout::PRESENT_SRC_KHR.as_raw());
    assert_eq!(PIPELINE_BIND_POINT_GRAPHICS, vk::PipelineBindPoint::GRAPHICS.as_raw());
    assert_eq!(
        COMMAND_POOL_RESET_COMMAND_BUFFER,
        vk::CommandPoolCreateFlags::RESET_COMMAND_BUFFER.as_raw()
    );
    assert_eq!(COMMAND_BUFFER_LEVEL_PRIMARY, vk::CommandBufferLevel::PRIMARY.as_raw());
    assert_eq!(
        COMMAND_BUFFER_USAGE_SIMULTANEOUS_USE,
        vk::CommandBufferUsageFlags::SIMULTANEOUS_USE.as_raw()
    );
    assert_eq!(SUBPASS_CONTENTS_INLINE, vk::SubpassContents::INLINE.as_raw());
}

#[test]
fn instance_is_described_with_packed_versions() {
    let d = instance_desc();
    assert_eq!(d.application_name, "ol-rusty");
    assert_eq!(d.engine_name, "ol_engine");
    assert_eq!(d.application_name, APPLICATION_NAME);
    assert_eq!(d.engine_name, ENGINE_NAME);
    assert_eq!(d.application_version, 4096);
    assert_eq!(d.engine_version, 4096);
    assert_eq!(d.api_version, 4_206_592);
    assert_eq!(d.api_version, ash::vk::API_VERSION_1_3);
    assert_eq!(d.application_version, ash::vk::make_api_version(0, 0, 1, 0));
}

#[test]
fn device_is_described_with_one_queue_and_the_swapchain_extension() {
    assert_eq!(
        device_desc(77, 3),
        DeviceDesc {
            physical_device: 77,
            queue_family_index: 3,
            queue_count: 1,
            top_priority: true,
            swapchain_extension: true,
        }
    );
}

#[test]
fn swapchain_is_described_as_settled() {
    let config = SwapchainConfig {
        surface_format: SurfaceFormat { format: Format(50), color_space: ColorSpace(0) },
        present_mode: PresentMode(1),
        extent: Extent { width: 800, height: 600 },
        min_image_count: 3,
        pre_transform: 1,
    };
    assert_eq!(
        swapchain_desc(9, &config),
        SwapchainDesc {
            surface: 9,
            min_image_count: 3,
            format: Format(50),
            color_space: ColorSpace(0),
            extent: Extent { width: 800, height: 600 },
            array_layers: 1,
            usage: 0x10,
            sharing_mode: 0,
            pre_transform: 1,
            composite_alpha: 1,
            present_mode: PresentMode(1),
            clipped: true,
        }
    );
}

#[test]
fn image_view_is_two_dimensional_with_identity_mapping() {
    assert_eq!(
        image_view_desc(41, Format(50)),
        ImageViewDesc {
            image: 41,
            view_type: 1,
            format: Format(50),
            swizzle_r: 0,
            swizzle_g: 0,
            swizzle_b: 0,
            swizzle_a: 0,
            aspect_mask: 1,
            base_mip_level: 0,
            level_count: 1,
            base_array_layer: 0,
            layer_count: 1,
        }
    );
}

#[test]
fn render_pass_has_one_colour_attachment() {
    assert_eq!(
        render_pass_desc(Format(44)),
        RenderPassDesc {
            format: Format(44),
            samples: 1,
            load_op: 1,
            store_op: 0,
            stencil_load_op: 2,
            stencil_store_op: 1,
            initial_layout: 0,
            final_layout: 1_000_001_002,
            attachment_count: 1,
            subpass_count: 1,
            bind_point: 0,
            color_attachment: 0,
            color_attachment_layout: 2,
        }
    );
}

#[test]
fn framebuffer_references_its_view_alone() {
    assert_eq!(
        framebuffer_desc(5, 17, Extent { width: 640, height: 480 }),
        FramebufferDesc { render_pass: 5, attachment: 17, width: 640, height: 480, layers: 1 }
    );
}

#[test]
fn one_framebuffer_for_each_image_view() {
    let extent = Extent { width: 320, height: 200 };
    let descs = framebuffer_descs(5, &vec![11, 12, 13], extent);
    assert_eq!(
        descs,
        vec![
            FramebufferDesc { render_pass: 5, attachment: 11, width: 320, height: 200, layers: 1 },
            FramebufferDesc { render_pass: 5, attachment: 12, width: 320, height: 200, layers: 1 },
            FramebufferDesc { render_pass: 5, attachment: 13, width: 320, height: 200, layers: 1 },
        ]
    );
    assert_eq!(framebuffer_descs(5, &Vec::new(), extent), Vec::new());
}

#[test]
fn command_pool_is_resettable_on_the_chosen_family() {
    assert_eq!(command_pool_desc(2), CommandPoolDesc { flags: 2, queue_family_index: 2 });
}

#[test]
fn command_buffers_are_primary() {
    assert_eq!(
        command_buffer_alloc_desc(31, 3),
        CommandBufferAllocDesc { command_pool: 31, level: 0, count: 3 }
    );
}

#[test]
fn recording_is_four_calls_in_order() {
    assert_eq!(
        record_steps(61, 5, 21, Extent { width: 800, height: 600 }),
        vec![
            RecordStep::BeginCommandBuffer { command_buffer: 61, flags: 4 },
            RecordStep::BeginRenderPass(RenderPassBegin {
                command_buffer: 61,
                render_pass: 5,
                framebuffer: 21,
                area_x: 0,
                area_y: 0,
                area_extent: Extent { width: 800, height: 600 },
                clear_red: 0,
                clear_green: 0,
                clear_blue: 0,
                clear_alpha: 255,
                contents: 0,
            }),
            RecordStep::EndRenderPass { command_buffer: 61 },
            RecordStep::EndCommandBuffer { command_buffer: 61 },
        ]
    );
}
