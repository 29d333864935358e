//! The graphics context: what it owns, what it waits for, and how each
//! outcome of a device call moves it on.

use vstd::prelude::*;
use crate::describe::{
    command_buffers_for, command_pool_for, device_for, framebuffer_for, image_view_for,
    instance_for, render_pass_for, swapchain_for, CommandBufferAllocDesc, CommandPoolDesc,
    DeviceDesc, FramebufferDesc, ImageViewDesc, InstanceDesc, RenderPassDesc, SwapchainDesc,
};
use crate::error::{ErrorKind, RendererError};
use crate::negotiate::{config_for, SwapchainConfig};
use crate::queue::{queue_family_for, QueueFamily};
use crate::surface::{Extent, PresentMode, SurfaceCapabilities, SurfaceFormat};

verus! {

/// Where the context stands: the outcome it waits for, or that it waits for
/// none.
#[derive(Clone, Copy, Debug, PartialEq, Eq, Structural)]
pub enum Stage {
    AwaitInstance,
    AwaitSurface,
    AwaitPhysicalDevices,
    AwaitQueueFamilies,
    AwaitSurfaceInfo,
    AwaitDevice,
    AwaitSwapchain,
    AwaitImages,
    AwaitImageView,
    AwaitRenderPass,
    AwaitFramebuffer,
    AwaitCommandPool,
    AwaitCommandBuffers,
    /// Everything is built.
    Ready,
    /// A step failed; what was created until then is still owned.
    Failed,
    /// Everything was handed out for destruction.
    TornDown,
}

impl Stage {
    /// How far the build has come: the number of stages before this one.
    pub open spec fn progress(self) -> nat {
        match self {
            Stage::AwaitInstance => 0,
            Stage::AwaitSurface => 1,
            Stage::AwaitPhysicalDevices => 2,
            Stage::AwaitQueueFamilies => 3,
            Stage::AwaitSurfaceInfo => 4,
            Stage::AwaitDevice => 5,
            Stage::AwaitSwapchain => 6,
            Stage::AwaitImages => 7,
            Stage::AwaitImageView => 8,
            Stage::AwaitRenderPass => 9,
            Stage::AwaitFramebuffer => 10,
            Stage::AwaitCommandPool => 11,
            Stage::AwaitCommandBuffers => 12,
            Stage::Ready => 13,
            Stage::Failed => 14,
            Stage::TornDown => 15,
        }
    }

    /// The context waits for the outcome of a device call.
    pub open spec fn pending(self) -> bool {
        self.progress() <= 12
    }

    /// The kind of failure that a refused call at this stage stands for.
    pub open spec fn failure_kind(self) -> ErrorKind {
        match self {
            Stage::AwaitInstance | Stage::AwaitSurface => ErrorKind::Initialization,
            Stage::AwaitPhysicalDevices | Stage::AwaitQueueFamilies => ErrorKind::NoSuitableDevice,
            Stage::AwaitDevice => ErrorKind::DeviceCreation,
            Stage::AwaitSurfaceInfo
            | Stage::AwaitSwapchain
            | Stage::AwaitImages
            | Stage::AwaitImageView => ErrorKind::SwapchainCreation,
            Stage::AwaitRenderPass => ErrorKind::RenderPassCreation,
            Stage::AwaitFramebuffer => ErrorKind::FramebufferCreation,
            Stage::AwaitCommandPool | Stage::AwaitCommandBuffers => ErrorKind::CommandRecording,
            Stage::Ready | Stage::Failed | Stage::TornDown => ErrorKind::UnexpectedEvent,
        }
    }
}

/// The outcome of a device call, as the host reports it.
#[derive(Debug)]
pub enum Event {
    InstanceCreated(u64),
    SurfaceCreated(u64),
    /// The physical devices, in the order of their enumeration.
    PhysicalDevices(Vec<u64>),
    /// The queue families of the chosen device, in the order of their indices.
    QueueFamilies(Vec<QueueFamily>),
    SurfaceQueried {
        capabilities: SurfaceCapabilities,
        formats: Vec<SurfaceFormat>,
        present_modes: Vec<PresentMode>,
    },
    DeviceCreated { device: u64, queue: u64 },
    SwapchainCreated(u64),
    /// The images of the swapchain, in the order of their indices.
    SwapchainImages(Vec<u64>),
    ImageViewCreated(u64),
    RenderPassCreated(u64),
    FramebufferCreated(u64),
    CommandPoolCreated(u64),
    CommandBuffersAllocated(Vec<u64>),
    /// The pending call was refused with this result code.
    CallFailed(i32),
}

/// The device call that the context waits for.
#[derive(Clone, Copy, Debug, PartialEq, Eq)]
#[allow(inconsistent_fields)]
pub enum Request {
    CreateInstance(InstanceDesc),
    CreateSurface { instance: u64 },
    EnumeratePhysicalDevices { instance: u64 },
    /// The families of the device, each with its support for the surface.
    QueryQueueFamilies { physical_device: u64, surface: u64 },
    /// Capabilities, formats and present modes of the surface.
    QuerySurface { physical_device: u64, surface: u64 },
    /// Create the device and fetch queue 0 of the family.
    CreateDevice(DeviceDesc),
    CreateSwapchain { device: u64, desc: SwapchainDesc },
    GetSwapchainImages { device: u64, swapchain: u64 },
    CreateImageView { device: u64, desc: ImageViewDesc },
    CreateRenderPass { device: u64, desc: RenderPassDesc },
    CreateFramebuffer { device: u64, desc: FramebufferDesc },
    CreateCommandPool { device: u64, desc: CommandPoolDesc },
    AllocateCommandBuffers { device: u64, desc: CommandBufferAllocDesc },
    /// No call is pending.
    Nothing,
}

/// One handle to destroy.
#[derive(Clone, Copy, Debug, PartialEq, Eq, Structural)]
pub enum Destroy {
    ImageView(u64),
    Framebuffer(u64),
    RenderPass(u64),
    Swapchain(u64),
    /// The pool takes its command buffers with it.
    CommandPool(u64),
    Device(u64),
    Surface(u64),
    Instance(u64),
}

impl Destroy {
    /// Place of the handle's class in the order of destruction.
    pub open spec fn rank(self) -> nat {
        match self {
            Destroy::ImageView(_) => 0,
            Destroy::Framebuffer(_) => 1,
            Destroy::RenderPass(_) => 2,
            Destroy::Swapchain(_) => 3,
            Destroy::CommandPool(_) => 4,
            Destroy::Device(_) => 5,
            Destroy::Surface(_) => 6,
            Destroy::Instance(_) => 7,
        }
    }
}

/// The one destruction of a handle that may be absent.
pub open spec fn one_or_none(handle: Option<Destroy>) -> Seq<Destroy> {
    match handle {
        Some(d) => seq![d],
        None => Seq::empty(),
    }
}

/// The destruction of every image view of `views`, in their order.
pub open spec fn image_view_destroys(views: Seq<u64>) -> Seq<Destroy> {
    Seq::new(views.len(), |i: int| Destroy::ImageView(views[i]))
}

/// The destruction of every framebuffer of `framebuffers`, in their order.
pub open spec fn framebuffer_destroys(framebuffers: Seq<u64>) -> Seq<Destroy> {
    Seq::new(framebuffers.len(), |i: int| Destroy::Framebuffer(framebuffers[i]))
}

/// How many handles `handle` stands for: one or none.
pub open spec fn held(handle: Option<u64>) -> nat {
    if handle is Some {
        1
    } else {
        0
    }
}

/// The context as a mathematical value.
pub ghost struct RendererState {
    pub stage: Stage,
    pub failure: Option<RendererError>,
    pub desired_extent: Extent,
    pub instance: Option<u64>,
    pub surface: Option<u64>,
    pub physical_device: Option<u64>,
    pub queue_family_index: Option<u32>,
    pub device: Option<u64>,
    pub queue: Option<u64>,
    pub config: Option<SwapchainConfig>,
    pub swapchain: Option<u64>,
    pub images: Seq<u64>,
    pub image_views: Seq<u64>,
    pub render_pass: Option<u64>,
    pub framebuffers: Seq<u64>,
    pub command_pool: Option<u64>,
    pub command_buffers: Seq<u64>,
}

/// The event is an outcome of the call that `stage` waits for.
pub open spec fn answers(stage: Stage, event: Event) -> bool {
    match event {
        Event::InstanceCreated(_) => stage == Stage::AwaitInstance,
        Event::SurfaceCreated(_) => stage == Stage::AwaitSurface,
        Event::PhysicalDevices(_) => stage == Stage::AwaitPhysicalDevices,
        Event::QueueFamilies(_) => stage == Stage::AwaitQueueFamilies,
        Event::SurfaceQueried { .. } => stage == Stage::AwaitSurfaceInfo,
        Event::DeviceCreated { .. } => stage == Stage::AwaitDevice,
        Event::SwapchainCreated(_) => stage == Stage::AwaitSwapchain,
        Event::SwapchainImages(_) => stage == Stage::AwaitImages,
        Event::ImageViewCreated(_) => stage == Stage::AwaitImageView,
        Event::RenderPassCreated(_) => stage == Stage::AwaitRenderPass,
        Event::FramebufferCreated(_) => stage == Stage::AwaitFramebuffer,
        Event::CommandPoolCreated(_) => stage == Stage::AwaitCommandPool,
        Event::CommandBuffersAllocated(_) => stage == Stage::AwaitCommandBuffers,
        Event::CallFailed(_) => stage.pending(),
    }
}

impl RendererState {
    /// Nothing is owned.
    pub open spec fn owns_nothing(self) -> bool {
        &&& self.instance.is_none()
        &&& self.surface.is_none()
        &&& self.physical_device.is_none()
        &&& self.queue_family_index.is_none()
        &&& self.device.is_none()
        &&& self.queue.is_none()
        &&& self.config.is_none()
        &&& self.swapchain.is_none()
        &&& self.images.len() == 0
        &&& self.image_views.len() == 0
        &&& self.render_pass.is_none()
        &&& self.framebuffers.len() == 0
        &&& self.command_pool.is_none()
        &&& self.command_buffers.len() == 0
    }

    /// What holds of every context: each stage owns exactly what the stages
    /// before it created, views never outnumber images, and framebuffers
    /// never outnumber views.
    pub open spec fn inv(self) -> bool {
        let p = self.stage.progress();
        &&& (self.failure.is_some() <==> self.stage == Stage::Failed)
        &&& (self.device.is_some() <==> self.queue.is_some())
        &&& self.images.len() <= u32::MAX
        &&& self.image_views.len() <= self.images.len()
        &&& self.framebuffers.len() <= self.image_views.len()
        &&& (self.stage == Stage::TornDown ==> self.owns_nothing())
        &&& (p <= 13 ==> {
            &&& (self.instance.is_some() <==> p >= 1)
            &&& (self.surface.is_some() <==> p >= 2)
            &&& (self.physical_device.is_some() <==> p >= 3)
            &&& (self.queue_family_index.is_some() <==> p >= 4)
            &&& (p <= 3 || p == 5 ==> self.device.is_none())
            &&& (p >= 6 ==> self.device.is_some())
            &&& (self.config.is_some() <==> p >= 5)
            &&& (self.swapchain.is_some() <==> p >= 7)
            &&& (p <= 7 ==> self.images.len() == 0)
            &&& (p == 8 ==> self.image_views.len() < self.images.len())
            &&& (p >= 9 ==> self.image_views.len() == self.images.len())
            &&& (self.render_pass.is_some() <==> p >= 10)
            &&& (p <= 9 ==> self.framebuffers.len() == 0)
            &&& (p == 10 ==> self.framebuffers.len() < self.image_views.len())
            &&& (p >= 11 ==> self.framebuffers.len() == self.image_views.len())
            &&& (self.command_pool.is_some() <==> p >= 12)
            &&& (p <= 12 ==> self.command_buffers.len() == 0)
            &&& (p == 13 ==> self.command_buffers.len() == self.image_views.len())
        })
    }

    /// The context before anything was created, for a window that wants
    /// `desired`.
    pub open spec fn initial(desired: Extent) -> RendererState {
        RendererState {
            stage: Stage::AwaitInstance,
            failure: None,
            desired_extent: desired,
            instance: None,
            surface: None,
            physical_device: None,
            queue_family_index: None,
            device: None,
            queue: None,
            config: None,
            swapchain: None,
            images: Seq::empty(),
            image_views: Seq::empty(),
            render_pass: None,
            framebuffers: Seq::empty(),
            command_pool: None,
            command_buffers: Seq::empty(),
        }
    }

    /// The device call that the context waits for, with what the call is
    /// handed.
    pub open spec fn request(self) -> Request {
        match self.stage {
            Stage::AwaitInstance => Request::CreateInstance(instance_for()),
            Stage::AwaitSurface => Request::CreateSurface { instance: self.instance.unwrap() },
            Stage::AwaitPhysicalDevices => Request::EnumeratePhysicalDevices {
                instance: self.instance.unwrap(),
            },
            Stage::AwaitQueueFamilies => Request::QueryQueueFamilies {
                physical_device: self.physical_device.unwrap(),
                surface: self.surface.unwrap(),
            },
            Stage::AwaitSurfaceInfo => Request::QuerySurface {
                physical_device: self.physical_device.unwrap(),
                surface: self.surface.unwrap(),
            },
            Stage::AwaitDevice => Request::CreateDevice(
                device_for(self.physical_device.unwrap(), self.queue_family_index.unwrap()),
            ),
            Stage::AwaitSwapchain => Request::CreateSwapchain {
                device: self.device.unwrap(),
                desc: swapchain_for(self.surface.unwrap(), self.config.unwrap()),
            },
            Stage::AwaitImages => Request::GetSwapchainImages {
                device: self.device.unwrap(),
                swapchain: self.swapchain.unwrap(),
            },
            Stage::AwaitImageView => Request::CreateImageView {
                device: self.device.unwrap(),
                desc: image_view_for(
                    self.images[self.image_views.len() as int],
                    self.config.unwrap().surface_format.format,
                ),
            },
            Stage::AwaitRenderPass => Request::CreateRenderPass {
                device: self.device.unwrap(),
                desc: render_pass_for(self.config.unwrap().surface_format.format),
            },
            Stage::AwaitFramebuffer => Request::CreateFramebuffer {
                device: self.device.unwrap(),
                desc: framebuffer_for(
                    self.render_pass.unwrap(),
                    self.image_views[self.framebuffers.len() as int],
                    self.config.unwrap().extent,
                ),
            },
            Stage::AwaitCommandPool => Request::CreateCommandPool {
                device: self.device.unwrap(),
                desc: command_pool_for(self.queue_family_index.unwrap()),
            },
            Stage::AwaitCommandBuffers => Request::AllocateCommandBuffers {
                device: self.device.unwrap(),
                desc: command_buffers_for(
                    self.command_pool.unwrap(),
                    self.image_views.len() as u32,
                ),
            },
            Stage::Ready | Stage::Failed | Stage::TornDown => Request::Nothing,
        }
    }

    /// The context owns the handle that `d` destroys.
    pub open spec fn owns(self, d: Destroy) -> bool {
        match d {
            Destroy::ImageView(h) => self.image_views.contains(h),
            Destroy::Framebuffer(h) => self.framebuffers.contains(h),
            Destroy::RenderPass(h) => self.render_pass == Some(h),
            Destroy::Swapchain(h) => self.swapchain == Some(h),
            Destroy::CommandPool(h) => self.command_pool == Some(h),
            Destroy::Device(h) => self.device == Some(h),
            Destroy::Surface(h) => self.surface == Some(h),
            Destroy::Instance(h) => self.instance == Some(h),
        }
    }

    /// What is destroyed of the swapchain and of what was built on it: the
    /// image views, then the framebuffers, then the render pass, then the
    /// swapchain, each as far as it exists.
    pub open spec fn swapchain_teardown(self) -> Seq<Destroy> {
        image_view_destroys(self.image_views) + framebuffer_destroys(self.framebuffers)
            + one_or_none(
            match self.render_pass {
                Some(h) => Some(Destroy::RenderPass(h)),
                None => None,
            },
        ) + one_or_none(
            match self.swapchain {
                Some(h) => Some(Destroy::Swapchain(h)),
                None => None,
            },
        )
    }

    /// What is destroyed before the swapchain is built anew: the swapchain
    /// and what was built on it, then the command pool.
    pub open spec fn rebuild_teardown(self) -> Seq<Destroy> {
        self.swapchain_teardown() + one_or_none(
            match self.command_pool {
                Some(h) => Some(Destroy::CommandPool(h)),
                None => None,
            },
        )
    }

    /// What is destroyed at the end: the swapchain and what was built on it,
    /// then the device, the surface and the instance, each as far as it
    /// exists. The command pool goes with the device.
    pub open spec fn full_teardown(self) -> Seq<Destroy> {
        self.swapchain_teardown() + one_or_none(
            match self.device {
                Some(h) => Some(Destroy::Device(h)),
                None => None,
            },
        ) + one_or_none(
            match self.surface {
                Some(h) => Some(Destroy::Surface(h)),
                None => None,
            },
        ) + one_or_none(
            match self.instance {
                Some(h) => Some(Destroy::Instance(h)),
                None => None,
            },
        )
    }

    /// The context with the swapchain and everything built on it gone,
    /// waiting to build them anew for a window that wants `desired`.
    pub open spec fn rebuilding(self, desired: Extent) -> RendererState {
        RendererState {
            stage: Stage::AwaitSurfaceInfo,
            desired_extent: desired,
            config: None,
            swapchain: None,
            images: Seq::empty(),
            image_views: Seq::empty(),
            render_pass: None,
            framebuffers: Seq::empty(),
            command_pool: None,
            command_buffers: Seq::empty(),
            ..self
        }
    }

    /// The context after a resize to `desired`: a ready context rebuilds,
    /// any other stays as it is.
    pub open spec fn resized(self, desired: Extent) -> RendererState {
        if self.stage == Stage::Ready {
            self.rebuilding(desired)
        } else {
            self
        }
    }

    /// The context after shutdown: it owns nothing.
    pub open spec fn torn_down(self) -> RendererState {
        RendererState {
            stage: Stage::TornDown,
            failure: None,
            ..RendererState::initial(self.desired_extent)
        }
    }

    /// The context after a failure: it keeps what it owns.
    pub open spec fn failed_with(self, e: RendererError) -> RendererState {
        RendererState { stage: Stage::Failed, failure: Some(e), ..self }
    }

    /// The context after `event`. An event that answers no pending call
    /// leaves it as it is.
    pub open spec fn step(self, event: Event) -> RendererState {
        if !answers(self.stage, event) {
            self
        } else {
            match event {
                Event::InstanceCreated(h) => RendererState {
                    instance: Some(h),
                    stage: Stage::AwaitSurface,
                    ..self
                },
                Event::SurfaceCreated(h) => RendererState {
                    surface: Some(h),
                    stage: Stage::AwaitPhysicalDevices,
                    ..self
                },
                Event::PhysicalDevices(list) => if list@.len() == 0 {
                    self.failed_with(
                        RendererError { kind: ErrorKind::NoSuitableDevice, code: None },
                    )
                } else {
                    RendererState {
                        physical_device: Some(list@[0]),
                        stage: Stage::AwaitQueueFamilies,
                        ..self
                    }
                },
                Event::QueueFamilies(families) => match queue_family_for(families@) {
                    Ok(k) => RendererState {
                        queue_family_index: Some(k),
                        stage: Stage::AwaitSurfaceInfo,
                        ..self
                    },
                    Err(e) => self.failed_with(e),
                },
                Event::SurfaceQueried { capabilities, formats, present_modes } => match config_for(
                    capabilities,
                    formats@,
                    present_modes@,
                    self.desired_extent,
                ) {
                    Ok(c) => RendererState {
                        config: Some(c),
                        stage: if self.device.is_some() {
                            Stage::AwaitSwapchain
                        } else {
                            Stage::AwaitDevice
                        },
                        ..self
                    },
                    Err(e) => self.failed_with(e),
                },
                Event::DeviceCreated { device, queue } => RendererState {
                    device: Some(device),
                    queue: Some(queue),
                    stage: Stage::AwaitSwapchain,
                    ..self
                },
                Event::SwapchainCreated(h) => RendererState {
                    swapchain: Some(h),
                    stage: Stage::AwaitImages,
                    ..self
                },
                Event::SwapchainImages(images) => if images@.len() > u32::MAX {
                    self.failed_with(
                        RendererError { kind: ErrorKind::SwapchainCreation, code: None },
                    )
                } else {
                    RendererState {
                        images: images@,
                        stage: if images@.len() == 0 {
                            Stage::AwaitRenderPass
                        } else {
                            Stage::AwaitImageView
                        },
                        ..self
                    }
                },
                Event::ImageViewCreated(h) => RendererState {
                    image_views: self.image_views.push(h),
                    stage: if self.image_views.len() + 1 == self.images.len() {
                        Stage::AwaitRenderPass
                    } else {
                        Stage::AwaitImageView
                    },
                    ..self
                },
                Event::RenderPassCreated(h) => RendererState {
                    render_pass: Some(h),
                    stage: if self.image_views.len() == 0 {
                        Stage::AwaitCommandPool
                    } else {
                        Stage::AwaitFramebuffer
                    },
                    ..self
                },
                Event::FramebufferCreated(h) => RendererState {
                    framebuffers: self.framebuffers.push(h),
                    stage: if self.framebuffers.len() + 1 == self.image_views.len() {
                        Stage::AwaitCommandPool
                    } else {
                        Stage::AwaitFramebuffer
                    },
                    ..self
                },
                Event::CommandPoolCreated(h) => RendererState {
                    command_pool: Some(h),
                    stage: Stage::AwaitCommandBuffers,
                    ..self
                },
                Event::CommandBuffersAllocated(buffers) => if buffers@.len()
                    != self.image_views.len() {
                    self.failed_with(
                        RendererError { kind: ErrorKind::CommandRecording, code: None },
                    )
                } else {
                    RendererState { command_buffers: buffers@, stage: Stage::Ready, ..self }
                },
                Event::CallFailed(code) => self.failed_with(
                    RendererError { kind: self.stage.failure_kind(), code: Some(code) },
                ),
            }
        }
    }

    /// What `event` is answered with: the failure that it brought about,
    /// `UnexpectedEvent` where it answers no pending call, else success.
    pub open spec fn step_result(self, event: Event) -> Result<(), RendererError> {
        if !answers(self.stage, event) {
            Err(RendererError { kind: ErrorKind::UnexpectedEvent, code: None })
        } else {
            match self.step(event).failure {
                Some(e) => Err(e),
                None => Ok(()),
            }
        }
    }
}

/// Every event keeps a well-formed context well formed.
pub proof fn lemma_step_keeps_inv(s: RendererState, event: Event)
    requires
        s.inv(),
    ensures
        s.step(event).inv(),
{
}

} // verus!
