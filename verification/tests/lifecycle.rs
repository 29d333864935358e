use renderer::context::{Destroy, Event, Request, Stage};
use renderer::describe::{
    command_buffer_alloc_desc, command_pool_desc, device_desc, framebuffer_desc, image_view_desc,
    instance_desc, record_steps, render_pass_desc, swapchain_desc,
};
use renderer::error::{ErrorKind, RendererError};
use renderer::negotiate::SwapchainConfig;
use renderer::queue::{PresentSupport, QueueFamily};
use renderer::renderer::Renderer;
use renderer::surface::{
    ColorSpace, Extent, Format, PresentMode, SurfaceCapabilities, SurfaceFormat, ANY_EXTENT,
};

const INSTANCE: u64 = 1;
const SURFACE: u64 = 2;
const PHYSICAL: u64 = 3;
const DEVICE: u64 = 4;
const QUEUE: u64 = 5;

fn open_caps() -> SurfaceCapabilities {
    SurfaceCapabilities {
        min_image_count: 2,
        max_image_count: 3,
        current_extent: Extent { width: ANY_EXTENT, height: ANY_EXTENT },
        min_image_extent: Extent { width: 1, height: 1 },
        max_image_extent: Extent { width: 4096, height: 4096 },
        current_transform: 1,
    }
}

fn fixed_caps(width: u32, height: u32) -> SurfaceCapabilities {
    SurfaceCapabilities {
        current_extent: Extent { width, height },
        ..open_caps()
    }
}

fn surface_queried(capabilities: SurfaceCapabilities) -> Event {
    Event::SurfaceQueried {
        capabilities,
        formats: vec![
            SurfaceFormat { format: Format(44), color_space: ColorSpace(0) },
            SurfaceFormat { format: Format(50), color_space: ColorSpace(0) },
        ],
        present_modes: vec![PresentMode(2), PresentMode(1)],
    }
}

fn families() -> Vec<QueueFamily> {
    vec![
        QueueFamily { queue_flags: 4, present: PresentSupport::Unsupported },
        QueueFamily { queue_flags: 7, present: PresentSupport::Supported },
    ]
}

/// The outcomes of a build that succeeds, in their order; handles of a
/// swapchain generation start at `base`.
fn swapchain_events(capabilities: SurfaceCapabilities, base: u64, images: u64) -> Vec<Event> {
    let mut events = vec![surface_queried(capabilities)];
    if base == 100 {
        events.push(Event::DeviceCreated { device: DEVICE, queue: QUEUE });
    }
    events.push(Event::SwapchainCreated(base));
    events.push(Event::SwapchainImages((0..images).map(|i| base + 10 + i).collect()));
    for i in 0..images {
        events.push(Event::ImageViewCreated(base + 20 + i));
    }
    events.push(Event::RenderPassCreated(base + 1));
    for i in 0..images {
        events.push(Event::FramebufferCreated(base + 30 + i));
    }
    events.push(Event::CommandPoolCreated(base + 2));
    events.push(Event::CommandBuffersAllocated((0..images).map(|i| base + 40 + i).collect()));
    events
}

fn build_events(images: u64) -> Vec<Event> {
    let mut events = vec![
        Event::InstanceCreated(INSTANCE),
        Event::SurfaceCreated(SURFACE),
        Event::PhysicalDevices(vec![PHYSICAL, 99]),
        Event::QueueFamilies(families()),
    ];
    events.extend(swapchain_events(open_caps(), 100, images));
    events
}

/// A context that took the first `count` outcomes of a successful build.
fn built_up_to(count: usize, images: u64) -> Renderer {
    let mut r = Renderer::new();
    for event in build_events(images).into_iter().take(count) {
        assert_eq!(r.advance(event), Ok(()));
    }
    r
}

fn ready(images: u64) -> Renderer {
    let r = built_up_to(usize::MAX, images);
    assert!(r.is_ready());
    r
}

fn ranks(destroy: &[Destroy]) -> Vec<u32> {
    destroy
        .iter()
        .map(|d| match d {
            Destroy::ImageView(_) => 0,
            Destroy::Framebuffer(_) => 1,
            Destroy::RenderPass(_) => 2,
            Destroy::Swapchain(_) => 3,
            Destroy::CommandPool(_) => 4,
            Destroy::Device(_) => 5,
            Destroy::Surface(_) => 6,
            Destroy::Instance(_) => 7,
        })
        .collect()
}

fn settled() -> SwapchainConfig {
    SwapchainConfig {
        surface_format: SurfaceFormat { format: Format(50), color_space: ColorSpace(0) },
        present_mode: PresentMode(1),
        extent: Extent { width: 800, height: 600 },
        min_image_count: 3,
        pre_transform: 1,
    }
}

#[test]
fn new_context_owns_nothing_and_asks_for_the_instance() {
    let r = Renderer::new();
    assert_eq!(r.stage(), Stage::AwaitInstance);
    assert!(!r.is_ready());
    assert_eq!(r.failure(), None);
    assert_eq!(r.instance(), None);
    assert_eq!(r.device(), None);
    assert_eq!(r.queue(), None);
    assert_eq!(r.swapchain(), None);
    assert_eq!(r.swapchain_format(), None);
    assert_eq!(r.swapchain_extent(), None);
    assert_eq!(r.desired_extent(), Extent { width: 800, height: 600 });
    assert_eq!(r.request(), Request::CreateInstance(instance_desc()));
}

#[test]
fn build_asks_for_each_call_in_turn() {
    let mut r = Renderer::new();
    let mut asked = Vec::new();
    for event in build_events(2) {
        asked.push(r.request());
        assert_eq!(r.advance(event), Ok(()));
    }
    asked.push(r.request());
    let extent = Extent { width: 800, height: 600 };
    assert_eq!(
        asked,
        vec![
            Request::CreateInstance(instance_desc()),
            Request::CreateSurface { instance: INSTANCE },
            Request::EnumeratePhysicalDevices { instance: INSTANCE },
            Request::QueryQueueFamilies { physical_device: PHYSICAL, surface: SURFACE },
            Request::QuerySurface { physical_device: PHYSICAL, surface: SURFACE },
            Request::CreateDevice(device_desc(PHYSICAL, 1)),
            Request::CreateSwapchain { device: DEVICE, desc: swapchain_desc(SURFACE, &settled()) },
            Request::GetSwapchainImages { device: DEVICE, swapchain: 100 },
            Request::CreateImageView { device: DEVICE, desc: image_view_desc(110, Format(50)) },
            Request::CreateImageView { device: DEVICE, desc: image_view_desc(111, Format(50)) },
            Request::CreateRenderPass { device: DEVICE, desc: render_pass_desc(Format(50)) },
            Request::CreateFramebuffer { device: DEVICE, desc: framebuffer_desc(101, 120, extent) },
            Request::CreateFramebuffer { device: DEVICE, desc: framebuffer_desc(101, 121, extent) },
            Request::CreateCommandPool { device: DEVICE, desc: command_pool_desc(1) },
            Request::AllocateCommandBuffers {
                device: DEVICE,
                desc: command_buffer_alloc_desc(102, 2),
            },
            Request::Nothing,
        ]
    );
}

#[test]
fn ready_context_has_its_counts_in_step() {
    let r = ready(3);
    assert_eq!(r.stage(), Stage::Ready);
    assert_eq!(r.swapchain_images(), &vec![110, 111, 112]);
    assert_eq!(r.swapchain_image_views(), &vec![120, 121, 122]);
    assert_eq!(r.framebuffers(), &vec![130, 131, 132]);
    assert_eq!(r.command_buffers(), &vec![140, 141, 142]);
    assert_eq!(r.swapchain_image_views().len(), r.swapchain_images().len());
    assert_eq!(r.framebuffers().len(), r.swapchain_image_views().len());
    assert_eq!(r.command_buffers().len(), r.swapchain_image_views().len());
}

#[test]
fn ready_context_gives_what_it_holds() {
    let r = ready(2);
    assert_eq!(r.instance(), Some(INSTANCE));
    assert_eq!(r.surface(), Some(SURFACE));
    assert_eq!(r.physical_device(), Some(PHYSICAL));
    assert_eq!(r.queue_family_index(), Some(1));
    assert_eq!(r.device(), Some(DEVICE));
    assert_eq!(r.queue(), Some(QUEUE));
    assert_eq!(r.swapchain(), Some(100));
    assert_eq!(r.render_pass(), Some(101));
    assert_eq!(r.command_pool(), Some(102));
    assert_eq!(r.swapchain_format(), Some(Format(50)));
    assert_eq!(r.swapchain_extent(), Some(Extent { width: 800, height: 600 }));
    assert_eq!(r.failure(), None);
    assert_eq!(r.request(), Request::Nothing);
}

#[test]
fn swapchain_without_images_builds_no_views_and_no_framebuffers() {
    let r = ready(0);
    assert!(r.swapchain_image_views().is_empty());
    assert!(r.framebuffers().is_empty());
    assert!(r.command_buffers().is_empty());
    assert_eq!(r.render_pass(), Some(101));
}

#[test]
fn first_physical_device_is_taken() {
    let r = built_up_to(3, 2);
    assert_eq!(r.physical_device(), Some(PHYSICAL));
    assert_eq!(r.stage(), Stage::AwaitQueueFamilies);
}

#[test]
fn outcome_of_another_call_changes_nothing() {
    let mut r = built_up_to(2, 2);
    let unexpected = RendererError { kind: ErrorKind::UnexpectedEvent, code: None };
    assert_eq!(r.advance(Event::InstanceCreated(9)), Err(unexpected));
    assert_eq!(r.advance(Event::SwapchainCreated(9)), Err(unexpected));
    assert_eq!(r.advance(Event::CommandBuffersAllocated(vec![9])), Err(unexpected));
    assert_eq!(r.stage(), Stage::AwaitPhysicalDevices);
    assert_eq!(r.instance(), Some(INSTANCE));
    assert_eq!(r.swapchain(), None);
    assert_eq!(r.failure(), None);
}

#[test]
fn ready_failed_and_torn_down_contexts_take_no_outcome() {
    let unexpected = RendererError { kind: ErrorKind::UnexpectedEvent, code: None };
    let mut r = ready(1);
    assert_eq!(r.advance(Event::CallFailed(-1)), Err(unexpected));
    assert_eq!(r.advance(Event::FramebufferCreated(9)), Err(unexpected));
    assert!(r.is_ready());
    assert_eq!(r.framebuffers(), &vec![130]);

    let mut f = built_up_to(1, 1);
    assert!(f.advance(Event::CallFailed(-3)).is_err());
    let failure = f.failure();
    assert_eq!(f.advance(Event::CallFailed(-7)), Err(unexpected));
    assert_eq!(f.advance(Event::SurfaceCreated(9)), Err(unexpected));
    assert_eq!(f.failure(), failure);
    assert_eq!(f.surface(), None);

    let mut t = ready(1);
    t.shutdown();
    assert_eq!(t.advance(Event::InstanceCreated(9)), Err(unexpected));
    assert_eq!(t.stage(), Stage::TornDown);
    assert_eq!(t.instance(), None);
}

#[test]
fn refused_call_fails_with_the_kind_of_its_stage() {
    let expected = [
        ErrorKind::Initialization,
        ErrorKind::Initialization,
        ErrorKind::NoSuitableDevice,
        ErrorKind::NoSuitableDevice,
        ErrorKind::SwapchainCreation,
        ErrorKind::DeviceCreation,
        ErrorKind::SwapchainCreation,
        ErrorKind::SwapchainCreation,
        ErrorKind::SwapchainCreation,
        ErrorKind::RenderPassCreation,
        ErrorKind::FramebufferCreation,
        ErrorKind::CommandRecording,
        ErrorKind::CommandRecording,
    ];
    for (count, kind) in expected.iter().enumerate() {
        let mut r = built_up_to(count, 1);
        let error = RendererError { kind: *kind, code: Some(-13) };
        assert_eq!(r.advance(Event::CallFailed(-13)), Err(error));
        assert_eq!(r.stage(), Stage::Failed);
        assert_eq!(r.failure(), Some(error));
        assert_eq!(r.request(), Request::Nothing);
    }
}

#[test]
fn no_physical_device_fails_the_build() {
    let mut r = built_up_to(2, 1);
    let error = RendererError { kind: ErrorKind::NoSuitableDevice, code: None };
    assert_eq!(r.advance(Event::PhysicalDevices(Vec::new())), Err(error));
    assert_eq!(r.stage(), Stage::Failed);
    assert_eq!(r.failure(), Some(error));
    assert_eq!(r.physical_device(), None);
}

#[test]
fn no_suitable_queue_family_fails_the_build() {
    let mut r = built_up_to(3, 1);
    let error = RendererError { kind: ErrorKind::NoSuitableDevice, code: None };
    let only_compute = vec![QueueFamily { queue_flags: 2, present: PresentSupport::Supported }];
    assert_eq!(r.advance(Event::QueueFamilies(only_compute)), Err(error));
    assert_eq!(r.stage(), Stage::Failed);
    assert_eq!(r.queue_family_index(), None);
}

#[test]
fn surface_without_formats_fails_the_build() {
    let mut r = built_up_to(4, 1);
    let error = RendererError { kind: ErrorKind::SwapchainCreation, code: None };
    let event = Event::SurfaceQueried {
        capabilities: open_caps(),
        formats: Vec::new(),
        present_modes: vec![PresentMode(2)],
    };
    assert_eq!(r.advance(event), Err(error));
    assert_eq!(r.failure(), Some(error));
    assert_eq!(r.swapchain_format(), None);
}

#[test]
fn wrong_number_of_command_buffers_fails_the_build() {
    let mut r = built_up_to(14, 2);
    assert_eq!(r.stage(), Stage::AwaitCommandBuffers);
    let error = RendererError { kind: ErrorKind::CommandRecording, code: None };
    assert_eq!(r.advance(Event::CommandBuffersAllocated(vec![140])), Err(error));
    assert_eq!(r.stage(), Stage::Failed);
    assert!(r.command_buffers().is_empty());
}

#[test]
fn shutdown_destroys_in_order() {
    let mut r = ready(2);
    let destroy = r.shutdown();
    assert_eq!(
        destroy,
        vec![
            Destroy::ImageView(120),
            Destroy::ImageView(121),
            Destroy::Framebuffer(130),
            Destroy::Framebuffer(131),
            Destroy::RenderPass(101),
            Destroy::Swapchain(100),
            Destroy::Device(DEVICE),
            Destroy::Surface(SURFACE),
            Destroy::Instance(INSTANCE),
        ]
    );
    assert_eq!(r.stage(), Stage::TornDown);
    assert_eq!(r.request(), Request::Nothing);
}

#[test]
fn shutdown_leaves_nothing_to_destroy_again() {
    let mut r = ready(2);
    r.shutdown();
    assert_eq!(r.instance(), None);
    assert_eq!(r.surface(), None);
    assert_eq!(r.device(), None);
    assert_eq!(r.queue(), None);
    assert_eq!(r.swapchain(), None);
    assert_eq!(r.render_pass(), None);
    assert_eq!(r.command_pool(), None);
    assert!(r.swapchain_image_views().is_empty());
    assert!(r.framebuffers().is_empty());
    assert!(r.command_buffers().is_empty());
    assert_eq!(r.shutdown(), Vec::new());
    assert_eq!(r.stage(), Stage::TornDown);
}

#[test]
fn partial_build_destroys_only_what_was_created() {
    let expected: Vec<Vec<Destroy>> = vec![
        vec![],
        vec![Destroy::Instance(INSTANCE)],
        vec![Destroy::Surface(SURFACE), Destroy::Instance(INSTANCE)],
        vec![Destroy::Surface(SURFACE), Destroy::Instance(INSTANCE)],
        vec![Destroy::Surface(SURFACE), Destroy::Instance(INSTANCE)],
        vec![Destroy::Surface(SURFACE), Destroy::Instance(INSTANCE)],
        vec![Destroy::Device(DEVICE), Destroy::Surface(SURFACE), Destroy::Instance(INSTANCE)],
        vec![
            Destroy::Swapchain(100),
            Destroy::Device(DEVICE),
            Destroy::Surface(SURFACE),
            Destroy::Instance(INSTANCE),
        ],
        vec![
            Destroy::Swapchain(100),
            Destroy::Device(DEVICE),
            Destroy::Surface(SURFACE),
            Destroy::Instance(INSTANCE),
        ],
        vec![
            Destroy::ImageView(120),
            Destroy::Swapchain(100),
            Destroy::Device(DEVICE),
            Destroy::Surface(SURFACE),
            Destroy::Instance(INSTANCE),
        ],
        vec![
            Destroy::ImageView(120),
            Destroy::ImageView(121),
            Destroy::Swapchain(100),
            Destroy::Device(DEVICE),
            Destroy::Surface(SURFACE),
            Destroy::Instance(INSTANCE),
        ],
        vec![
            Destroy::ImageView(120),
            Destroy::ImageView(121),
            Destroy::RenderPass(101),
            Destroy::Swapchain(100),
            Destroy::Device(DEVICE),
            Destroy::Surface(SURFACE),
            Destroy::Instance(INSTANCE),
        ],
        vec![
            Destroy::ImageView(120),
            Destroy::ImageView(121),
            Destroy::Framebuffer(130),
            Destroy::RenderPass(101),
            Destroy::Swapchain(100),
            Destroy::Device(DEVICE),
            Destroy::Surface(SURFACE),
            Destroy::Instance(INSTANCE),
        ],
    ];
    for (count, want) in expected.iter().enumerate() {
        let mut r = built_up_to(count, 2);
        assert!(r.advance(Event::CallFailed(-2)).is_err());
        let destroy = r.shutdown();
        assert_eq!(&destroy, want);
        let mut sorted = ranks(&destroy);
        sorted.sort();
        assert_eq!(ranks(&destroy), sorted);
        assert_eq!(r.stage(), Stage::TornDown);
        assert_eq!(r.failure(), None);
    }
}

#[test]
fn shutdown_of_a_new_context_destroys_nothing() {
    let mut r = Renderer::new();
    assert_eq!(r.shutdown(), Vec::new());
    assert_eq!(r.stage(), Stage::TornDown);
}

#[test]
fn resize_destroys_each_old_handle_once() {
    let mut r = ready(2);
    let destroy = r.resize(Extent { width: 1280, height: 720 });
    assert_eq!(
        destroy,
        vec![
            Destroy::ImageView(120),
            Destroy::ImageView(121),
            Destroy::Framebuffer(130),
            Destroy::Framebuffer(131),
            Destroy::RenderPass(101),
            Destroy::Swapchain(100),
            Destroy::CommandPool(102),
        ]
    );
    assert_eq!(r.stage(), Stage::AwaitSurfaceInfo);
    assert_eq!(r.desired_extent(), Extent { width: 1280, height: 720 });
    assert_eq!(r.swapchain(), None);
    assert_eq!(r.render_pass(), None);
    assert_eq!(r.command_pool(), None);
    assert_eq!(r.swapchain_extent(), None);
    assert!(r.swapchain_images().is_empty());
    assert!(r.swapchain_image_views().is_empty());
    assert!(r.framebuffers().is_empty());
    assert!(r.command_buffers().is_empty());
    assert_eq!(r.instance(), Some(INSTANCE));
    assert_eq!(r.surface(), Some(SURFACE));
    assert_eq!(r.device(), Some(DEVICE));
    assert_eq!(r.queue(), Some(QUEUE));
    assert_eq!(r.request(), Request::QuerySurface { physical_device: PHYSICAL, surface: SURFACE });
}

#[test]
fn resize_builds_a_new_swapchain_at_the_new_extent() {
    let mut r = ready(2);
    let old = r.resize(Extent { width: 1280, height: 720 });
    for event in swapchain_events(fixed_caps(1280, 720), 200, 3) {
        assert_eq!(r.advance(event), Ok(()));
    }
    assert!(r.is_ready());
    assert_eq!(r.swapchain_extent(), Some(Extent { width: 1280, height: 720 }));
    assert_eq!(r.swapchain(), Some(200));
    assert_eq!(r.device(), Some(DEVICE));
    assert_eq!(r.swapchain_image_views(), &vec![220, 221, 222]);
    assert_eq!(r.framebuffers(), &vec![230, 231, 232]);
    assert_eq!(r.command_buffers(), &vec![240, 241, 242]);
    let end = r.shutdown();
    for d in &old {
        assert!(!end.contains(d));
    }
    assert_eq!(
        end,
        vec![
            Destroy::ImageView(220),
            Destroy::ImageView(221),
            Destroy::ImageView(222),
            Destroy::Framebuffer(230),
            Destroy::Framebuffer(231),
            Destroy::Framebuffer(232),
            Destroy::RenderPass(201),
            Destroy::Swapchain(200),
            Destroy::Device(DEVICE),
            Destroy::Surface(SURFACE),
            Destroy::Instance(INSTANCE),
        ]
    );
}

#[test]
fn resize_on_an_open_surface_takes_the_new_size() {
    let mut r = ready(1);
    r.resize(Extent { width: 1024, height: 768 });
    assert_eq!(r.advance(surface_queried(open_caps())), Ok(()));
    assert_eq!(r.stage(), Stage::AwaitSwapchain);
    assert_eq!(r.swapchain_extent(), Some(Extent { width: 1024, height: 768 }));
    r.resize(Extent { width: 1, height: 1 });
    assert_eq!(r.stage(), Stage::AwaitSwapchain);
    assert_eq!(r.desired_extent(), Extent { width: 1024, height: 768 });
}

#[test]
fn resize_of_a_context_that_is_not_ready_does_nothing() {
    let mut r = built_up_to(7, 2);
    assert_eq!(r.resize(Extent { width: 10, height: 10 }), Vec::new());
    assert_eq!(r.stage(), Stage::AwaitImages);
    assert_eq!(r.swapchain(), Some(100));
    assert_eq!(r.desired_extent(), Extent { width: 800, height: 600 });
}

#[test]
fn failure_while_rebuilding_keeps_the_device_for_shutdown() {
    let mut r = ready(1);
    r.resize(Extent { width: 640, height: 480 });
    assert_eq!(r.advance(surface_queried(open_caps())), Ok(()));
    let error = RendererError { kind: ErrorKind::SwapchainCreation, code: Some(-1_000_000_001) };
    assert_eq!(r.advance(Event::CallFailed(-1_000_000_001)), Err(error));
    assert_eq!(
        r.shutdown(),
        vec![Destroy::Device(DEVICE), Destroy::Surface(SURFACE), Destroy::Instance(INSTANCE)]
    );
}

#[test]
fn ready_context_describes_a_recording() {
    let r = ready(2);
    let extent = Extent { width: 800, height: 600 };
    assert_eq!(r.record_commands(140, 130), Ok(record_steps(140, 101, 130, extent)));
    assert_eq!(r.record_commands(141, 131), Ok(record_steps(141, 101, 131, extent)));
}

#[test]
fn context_that_is_not_ready_records_nothing() {
    let error = RendererError { kind: ErrorKind::CommandRecording, code: None };
    assert_eq!(Renderer::new().record_commands(1, 2), Err(error));
    assert_eq!(built_up_to(14, 2).record_commands(1, 2), Err(error));
    let mut r = ready(1);
    r.shutdown();
    assert_eq!(r.record_commands(140, 130), Err(error));
}

#[test]
fn refused_recording_is_a_command_recording_failure() {
    assert_eq!(
        Renderer::recording_failed(-4),
        RendererError { kind: ErrorKind::CommandRecording, code: Some(-4) }
    );
}

#[test]
fn errors_carry_the_code_of_a_refused_call_only() {
    assert_eq!(
        RendererError::own(ErrorKind::Initialization),
        RendererError { kind: ErrorKind::Initialization, code: None }
    );
    assert_eq!(
        RendererError::of_call(ErrorKind::DeviceCreation, -9),
        RendererError { kind: ErrorKind::DeviceCreation, code: Some(-9) }
    );
}
