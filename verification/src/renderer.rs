//! The owner of every handle of the graphics context.

use vstd::prelude::*;
use crate::context::{
    answers, framebuffer_destroys, image_view_destroys, Destroy, Event, RendererState, Request,
    Stage,
};
use crate::describe::{
    command_buffer_alloc_desc, command_pool_desc, device_desc, framebuffer_desc, image_view_desc,
    instance_desc, record_steps, recording_for, render_pass_desc, swapchain_desc, RecordStep,
};
use crate::error::{ErrorKind, RendererError};
use crate::negotiate::{negotiate, SwapchainConfig};
use crate::queue::{find_queue_family, select_physical_device};
use crate::surface::{Extent, Format};

verus! {

/// The graphics context. It owns the instance, the surface, the device and
/// everything built on them; the host makes the device calls that it asks
/// for and reports back what came of them.
#[derive(Debug)]
pub struct Renderer {
    stage: Stage,
    failure: Option<RendererError>,
    desired_extent: Extent,
    instance: Option<u64>,
    surface: Option<u64>,
    physical_device: Option<u64>,
    queue_family_index: Option<u32>,
    device: Option<u64>,
    queue: Option<u64>,
    config: Option<SwapchainConfig>,
    swapchain: Option<u64>,
    images: Vec<u64>,
    swapchain_image_views: Vec<u64>,
    render_pass: Option<u64>,
    framebuffers: Vec<u64>,
    command_pool: Option<u64>,
    command_buffers: Vec<u64>,
}

impl View for Renderer {
    type V = RendererState;

    closed spec fn view(&self) -> RendererState {
        RendererState {
            stage: self.stage,
            failure: self.failure,
            desired_extent: self.desired_extent,
            instance: self.instance,
            surface: self.surface,
            physical_device: self.physical_device,
            queue_family_index: self.queue_family_index,
            device: self.device,
            queue: self.queue,
            config: self.config,
            swapchain: self.swapchain,
            images: self.images@,
            image_views: self.swapchain_image_views@,
            render_pass: self.render_pass,
            framebuffers: self.framebuffers@,
            command_pool: self.command_pool,
            command_buffers: self.command_buffers@,
        }
    }
}

impl Renderer {
    /// A context that owns nothing yet and waits for its instance. The
    /// window wants the default extent until it is resized.
    pub fn new() -> (r: Renderer)
        ensures
            r@ == RendererState::initial(Extent::default_window_spec()),
            r@.inv(),
    {
        Renderer {
            stage: Stage::AwaitInstance,
            failure: None,
            desired_extent: Extent::default_window(),
            instance: None,
            surface: None,
            physical_device: None,
            queue_family_index: None,
            device: None,
            queue: None,
            config: None,
            swapchain: None,
            images: Vec::new(),
            swapchain_image_views: Vec::new(),
            render_pass: None,
            framebuffers: Vec::new(),
            command_pool: None,
            command_buffers: Vec::new(),
        }
    }

    /// Where the context stands.
    pub fn stage(&self) -> (s: Stage)
        ensures
            s == self@.stage,
    {
        self.stage
    }

    /// The context is fully built.
    pub fn is_ready(&self) -> (b: bool)
        ensures
            b == (self@.stage == Stage::Ready),
    {
        self.stage == Stage::Ready
    }

    /// The failure that stopped the build, if one did.
    pub fn failure(&self) -> (e: Option<RendererError>)
        ensures
            e == self@.failure,
    {
        self.failure
    }

    /// The device call that the host is to make next, with what the call is
    /// handed; `Nothing` where the context is ready, failed or torn down.
    pub fn request(&self) -> (r: Request)
        requires
            self@.inv(),
        ensures
            r == self@.request(),
            r is Nothing <==> !self@.stage.pending(),
    {
        match self.stage {
            Stage::AwaitInstance => Request::CreateInstance(instance_desc()),
            Stage::AwaitSurface => Request::CreateSurface { instance: self.instance.unwrap() },
            Stage::AwaitPhysicalDevices => Request::EnumeratePhysicalDevices {
                instance: self.instance.unwrap(),
            },
            Stage::AwaitQueueFamilies => Request::QueryQueueFamilies {
                physical_device: self.physical_device.unwrap(),
                surface: self.surface.unwrap(),
            },
            Stage::AwaitSurfaceInfo => Request::QuerySurface {
                physical_device: self.physical_device.unwrap(),
                surface: self.surface.unwrap(),
            },
            Stage::AwaitDevice => Request::CreateDevice(
                device_desc(self.physical_device.unwrap(), self.queue_family_index.unwrap()),
            ),
            Stage::AwaitSwapchain => {
                let config = self.config.unwrap();
                Request::CreateSwapchain {
                    device: self.device.unwrap(),
                    desc: swapchain_desc(self.surface.unwrap(), &config),
                }
            },
            Stage::AwaitImages => Request::GetSwapchainImages {
                device: self.device.unwrap(),
                swapchain: self.swapchain.unwrap(),
            },
            Stage::AwaitImageView => Request::CreateImageView {
                device: self.device.unwrap(),
                desc: image_view_desc(
                    self.images[self.swapchain_image_views.len()],
                    self.config.unwrap().surface_format.format,
                ),
            },
            Stage::AwaitRenderPass => Request::CreateRenderPass {
                device: self.device.unwrap(),
                desc: render_pass_desc(self.config.unwrap().surface_format.format),
            },
            Stage::AwaitFramebuffer => Request::CreateFramebuffer {
                device: self.device.unwrap(),
                desc: framebuffer_desc(
                    self.render_pass.unwrap(),
                    self.swapchain_image_views[self.framebuffers.len()],
                    self.config.unwrap().extent,
                ),
            },
            Stage::AwaitCommandPool => Request::CreateCommandPool {
                device: self.device.unwrap(),
                desc: command_pool_desc(self.queue_family_index.unwrap()),
            },
            Stage::AwaitCommandBuffers => Request::AllocateCommandBuffers {
                device: self.device.unwrap(),
                desc: command_buffer_alloc_desc(
                    self.command_pool.unwrap(),
                    self.swapchain_image_views.len() as u32,
                ),
            },
            Stage::Ready | Stage::Failed | Stage::TornDown => Request::Nothing,
        }
    }

    fn fail(&mut self, e: RendererError) -> (r: Result<(), RendererError>)
        ensures
            final(self)@ == old(self)@.failed_with(e),
            r == Err::<(), RendererError>(e),
    {
        self.stage = Stage::Failed;
        self.failure = Some(e);
        Err(e)
    }

    fn failure_kind(&self) -> (k: ErrorKind)
        ensures
            k == self@.stage.failure_kind(),
    {
        match self.stage {
            Stage::AwaitInstance | Stage::AwaitSurface => ErrorKind::Initialization,
            Stage::AwaitPhysicalDevices | Stage::AwaitQueueFamilies => ErrorKind::NoSuitableDevice,
            Stage::AwaitDevice => ErrorKind::DeviceCreation,
            Stage::AwaitSurfaceInfo
            | Stage::AwaitSwapchain
            | Stage::AwaitImages
            | Stage::AwaitImageView => ErrorKind::SwapchainCreation,
            Stage::AwaitRenderPass => ErrorKind::RenderPassCreation,
            Stage::AwaitFramebuffer => ErrorKind::FramebufferCreation,
            Stage::AwaitCommandPool | Stage::AwaitCommandBuffers => ErrorKind::CommandRecording,
            Stage::Ready | Stage::Failed | Stage::TornDown => ErrorKind::UnexpectedEvent,
        }
    }

    fn is_pending(&self) -> (b: bool)
        ensures
            b == self@.stage.pending(),
    {
        match self.stage {
            Stage::Ready | Stage::Failed | Stage::TornDown => false,
            _ => true,
        }
    }

    /// Takes the outcome of the pending device call and moves the context
    /// on. A refused call, or an outcome that the context cannot build on,
    /// leaves it failed with everything it owned; an outcome of any other
    /// call than the pending one changes nothing.
    pub fn advance(&mut self, event: Event) -> (r: Result<(), RendererError>)
        requires
            old(self)@.inv(),
        ensures
            final(self)@ == old(self)@.step(event),
            r == old(self)@.step_result(event),
            final(self)@.inv(),
            r is Ok ==> answers(old(self)@.stage, event) && final(self)@.stage != Stage::Failed,
    {
        let unexpected = RendererError::own(ErrorKind::UnexpectedEvent);
        match event {
            Event::InstanceCreated(h) => {
                if self.stage != Stage::AwaitInstance {
                    return Err(unexpected);
                }
                self.instance = Some(h);
                self.stage = Stage::AwaitSurface;
                Ok(())
            },
            Event::SurfaceCreated(h) => {
                if self.stage != Stage::AwaitSurface {
                    return Err(unexpected);
                }
                self.surface = Some(h);
                self.stage = Stage::AwaitPhysicalDevices;
                Ok(())
            },
            Event::PhysicalDevices(list) => {
                if self.stage != Stage::AwaitPhysicalDevices {
                    return Err(unexpected);
                }
                match select_physical_device(list.len()) {
                    Ok(k) => {
                        self.physical_device = Some(list[k]);
                        self.stage = Stage::AwaitQueueFamilies;
                        Ok(())
                    },
                    Err(e) => self.fail(e),
                }
            },
            Event::QueueFamilies(families) => {
                if self.stage != Stage::AwaitQueueFamilies {
                    return Err(unexpected);
                }
                match find_queue_family(&families) {
                    Ok(k) => {
                        self.queue_family_index = Some(k);
                        self.stage = Stage::AwaitSurfaceInfo;
                        Ok(())
                    },
                    Err(e) => self.fail(e),
                }
            },
            Event::SurfaceQueried { capabilities, formats, present_modes } => {
                if self.stage != Stage::AwaitSurfaceInfo {
                    return Err(unexpected);
                }
                match negotiate(&capabilities, &formats, &present_modes, self.desired_extent) {
                    Ok(c) => {
                        self.config = Some(c);
                        self.stage = if self.device.is_some() {
                            Stage::AwaitSwapchain
                        } else {
                            Stage::AwaitDevice
                        };
                        Ok(())
                    },
                    Err(e) => self.fail(e),
                }
            },
            Event::DeviceCreated { device, queue } => {
                if self.stage != Stage::AwaitDevice {
                    return Err(unexpected);
                }
                self.device = Some(device);
                self.queue = Some(queue);
                self.stage = Stage::AwaitSwapchain;
                Ok(())
            },
            Event::SwapchainCreated(h) => {
                if self.stage != Stage::AwaitSwapchain {
                    return Err(unexpected);
                }
                self.swapchain = Some(h);
                self.stage = Stage::AwaitImages;
                Ok(())
            },
            Event::SwapchainImages(images) => {
                if self.stage != Stage::AwaitImages {
                    return Err(unexpected);
                }
                if images.len() > 0xFFFF_FFFF {
                    return self.fail(RendererError::own(ErrorKind::SwapchainCreation));
                }
                self.stage = if images.len() == 0 {
                    Stage::AwaitRenderPass
                } else {
                    Stage::AwaitImageView
                };
                self.images = images;
                Ok(())
            },
            Event::ImageViewCreated(h) => {
                if self.stage != Stage::AwaitImageView {
                    return Err(unexpected);
                }
                self.swapchain_image_views.push(h);
                if self.swapchain_image_views.len() == self.images.len() {
                    self.stage = Stage::AwaitRenderPass;
                }
                Ok(())
            },
            Event::RenderPassCreated(h) => {
                if self.stage != Stage::AwaitRenderPass {
                    return Err(unexpected);
                }
                self.render_pass = Some(h);
                self.stage = if self.swapchain_image_views.len() == 0 {
                    Stage::AwaitCommandPool
                } else {
                    Stage::AwaitFramebuffer
                };
                Ok(())
            },
            Event::FramebufferCreated(h) => {
                if self.stage != Stage::AwaitFramebuffer {
                    return Err(unexpected);
                }
                self.framebuffers.push(h);
                if self.framebuffers.len() == self.swapchain_image_views.len() {
                    self.stage = Stage::AwaitCommandPool;
                }
                Ok(())
            },
            Event::CommandPoolCreated(h) => {
                if self.stage != Stage::AwaitCommandPool {
                    return Err(unexpected);
                }
                self.command_pool = Some(h);
                self.stage = Stage::AwaitCommandBuffers;
                Ok(())
            },
            Event::CommandBuffersAllocated(buffers) => {
                if self.stage != Stage::AwaitCommandBuffers {
                    return Err(unexpected);
                }
                if buffers.len() != self.swapchain_image_views.len() {
                    return self.fail(RendererError::own(ErrorKind::CommandRecording));
                }
                self.command_buffers = buffers;
                self.stage = Stage::Ready;
                Ok(())
            },
            Event::CallFailed(code) => {
                if !self.is_pending() {
                    return Err(unexpected);
                }
                let e = RendererError::of_call(self.failure_kind(), code);
                self.fail(e)
            },
        }
    }

    fn push_swapchain_teardown(&self, out: &mut Vec<Destroy>)
        ensures
            final(out)@ == old(out)@ + self@.swapchain_teardown(),
    {
        let ghost before = out@;
        let mut i: usize = 0;
        while i < self.swapchain_image_views.len()
            invariant
                0 <= i <= self.swapchain_image_views@.len(),
                out@ == before + image_view_destroys(self.swapchain_image_views@.take(i as int)),
            decreases self.swapchain_image_views@.len() - i,
        {
            out.push(Destroy::ImageView(self.swapchain_image_views[i]));
            assert(out@ =~= before + image_view_destroys(
                self.swapchain_image_views@.take(i + 1),
            ));
            i += 1;
        }
        assert(self.swapchain_image_views@.take(i as int) =~= self.swapchain_image_views@);
        let ghost with_views = out@;
        let mut j: usize = 0;
        while j < self.framebuffers.len()
            invariant
                0 <= j <= self.framebuffers@.len(),
                out@ == with_views + framebuffer_destroys(self.framebuffers@.take(j as int)),
            decreases self.framebuffers@.len() - j,
        {
            out.push(Destroy::Framebuffer(self.framebuffers[j]));
            assert(out@ =~= with_views + framebuffer_destroys(self.framebuffers@.take(j + 1)));
            j += 1;
        }
        assert(self.framebuffers@.take(j as int) =~= self.framebuffers@);
        if let Some(h) = self.render_pass {
            out.push(Destroy::RenderPass(h));
        }
        if let Some(h) = self.swapchain {
            out.push(Destroy::Swapchain(h));
        }
        assert(out@ =~= before + self@.swapchain_teardown());
    }

    fn forget_swapchain(&mut self)
        ensures
            final(self)@ == (RendererState {
                config: None,
                swapchain: None,
                images: Seq::empty(),
                image_views: Seq::empty(),
                render_pass: None,
                framebuffers: Seq::empty(),
                command_pool: None,
                command_buffers: Seq::empty(),
                ..old(self)@
            }),
    {
        self.config = None;
        self.swapchain = None;
        self.images = Vec::new();
        self.swapchain_image_views = Vec::new();
        self.render_pass = None;
        self.framebuffers = Vec::new();
        self.command_pool = None;
        self.command_buffers = Vec::new();
    }

    /// Starts the rebuild of the swapchain for a window that now wants
    /// `new_extent`. A ready context hands out, in the order of their
    /// destruction, the swapchain, what was built on it and the command
    /// pool, and waits for the surface to be queried anew; a context that is
    /// not ready hands out nothing and stays as it is.
    pub fn resize(&mut self, new_extent: Extent) -> (destroy: Vec<Destroy>)
        requires
            old(self)@.inv(),
        ensures
            final(self)@ == old(self)@.resized(new_extent),
            final(self)@.inv(),
            old(self)@.stage == Stage::Ready ==> destroy@ == old(self)@.rebuild_teardown(),
            old(self)@.stage != Stage::Ready ==> destroy@.len() == 0,
    {
        let mut out: Vec<Destroy> = Vec::new();
        if self.stage != Stage::Ready {
            return out;
        }
        self.push_swapchain_teardown(&mut out);
        if let Some(h) = self.command_pool {
            out.push(Destroy::CommandPool(h));
        }
        assert(out@ =~= self@.rebuild_teardown());
        self.forget_swapchain();
        self.desired_extent = new_extent;
        self.stage = Stage::AwaitSurfaceInfo;
        out
    }

    /// Ends the context: hands out everything it owns, in the order of
    /// destruction, and owns nothing afterwards. A context that was only
    /// partly built hands out what had been created.
    pub fn shutdown(&mut self) -> (destroy: Vec<Destroy>)
        ensures
            destroy@ == old(self)@.full_teardown(),
            final(self)@ == old(self)@.torn_down(),
            final(self)@.inv(),
    {
        let mut out: Vec<Destroy> = Vec::new();
        self.push_swapchain_teardown(&mut out);
        if let Some(h) = self.device {
            out.push(Destroy::Device(h));
        }
        if let Some(h) = self.surface {
            out.push(Destroy::Surface(h));
        }
        if let Some(h) = self.instance {
            out.push(Destroy::Instance(h));
        }
        assert(out@ =~= self@.full_teardown());
        self.forget_swapchain();
        self.stage = Stage::TornDown;
        self.failure = None;
        self.instance = None;
        self.surface = None;
        self.physical_device = None;
        self.queue_family_index = None;
        self.device = None;
        self.queue = None;
        out
    }

    /// The instance, once it is created.
    pub fn instance(&self) -> (h: Option<u64>)
        ensures
            h == self@.instance,
    {
        self.instance
    }

    /// The surface, once it is created.
    pub fn surface(&self) -> (h: Option<u64>)
        ensures
            h == self@.surface,
    {
        self.surface
    }

    /// The physical device, once it is chosen.
    pub fn physical_device(&self) -> (h: Option<u64>)
        ensures
            h == self@.physical_device,
    {
        self.physical_device
    }

    /// The index of the queue family, once it is chosen.
    pub fn queue_family_index(&self) -> (h: Option<u32>)
        ensures
            h == self@.queue_family_index,
    {
        self.queue_family_index
    }

    /// The logical device, once it is created.
    pub fn device(&self) -> (h: Option<u64>)
        ensures
            h == self@.device,
    {
        self.device
    }

    /// The queue, once the device is created.
    pub fn queue(&self) -> (h: Option<u64>)
        ensures
            h == self@.queue,
    {
        self.queue
    }

    /// The swapchain, while there is one.
    pub fn swapchain(&self) -> (h: Option<u64>)
        ensures
            h == self@.swapchain,
    {
        self.swapchain
    }

    /// The render pass, while there is one.
    pub fn render_pass(&self) -> (h: Option<u64>)
        ensures
            h == self@.render_pass,
    {
        self.render_pass
    }

    /// The command pool, while there is one.
    pub fn command_pool(&self) -> (h: Option<u64>)
        ensures
            h == self@.command_pool,
    {
        self.command_pool
    }

    /// The images of the swapchain, in the order of their indices.
    pub fn swapchain_images(&self) -> (v: &Vec<u64>)
        ensures
            v@ == self@.images,
    {
        &self.images
    }

    /// The image views made so far, one for each image from the first on.
    pub fn swapchain_image_views(&self) -> (v: &Vec<u64>)
        ensures
            v@ == self@.image_views,
    {
        &self.swapchain_image_views
    }

    /// The framebuffers made so far, one for each image view from the first on.
    pub fn framebuffers(&self) -> (v: &Vec<u64>)
        ensures
            v@ == self@.framebuffers,
    {
        &self.framebuffers
    }

    /// The command buffers, one for each image view once the context is ready.
    pub fn command_buffers(&self) -> (v: &Vec<u64>)
        ensures
            v@ == self@.command_buffers,
    {
        &self.command_buffers
    }

    /// The format of the swapchain images, once it is settled.
    pub fn swapchain_format(&self) -> (f: Option<Format>)
        ensures
            f == match self@.config {
                Some(c) => Some(c.surface_format.format),
                None => None,
            },
    {
        match self.config {
            Some(c) => Some(c.surface_format.format),
            None => None,
        }
    }

    /// The extent of the swapchain images, once it is settled.
    pub fn swapchain_extent(&self) -> (e: Option<Extent>)
        ensures
            e == match self@.config {
                Some(c) => Some(c.extent),
                None => None,
            },
    {
        match self.config {
            Some(c) => Some(c.extent),
            None => None,
        }
    }

    /// The extent that the window wants.
    pub fn desired_extent(&self) -> (e: Extent)
        ensures
            e == self@.desired_extent,
    {
        self.desired_extent
    }

    /// Lists the calls that record an empty frame into `command_buffer` over
    /// `framebuffer`: the render pass of the context over its whole extent,
    /// cleared to opaque black. Only a ready context records.
    pub fn record_commands(&self, command_buffer: u64, framebuffer: u64) -> (r: Result<
        Vec<RecordStep>,
        RendererError,
    >)
        requires
            self@.inv(),
        ensures
            self@.stage == Stage::Ready ==> r is Ok && r->Ok_0@ == recording_for(
                command_buffer,
                self@.render_pass.unwrap(),
                framebuffer,
                self@.config.unwrap().extent,
            ),
            self@.stage != Stage::Ready ==> r is Err && r->Err_0 == (RendererError {
                kind: ErrorKind::CommandRecording,
                code: None,
            }),
    {
        if self.stage != Stage::Ready {
            return Err(RendererError::own(ErrorKind::CommandRecording));
        }
        Ok(
            record_steps(
                command_buffer,
                self.render_pass.unwrap(),
                framebuffer,
                self.config.unwrap().extent,
            ),
        )
    }

    /// The failure that a refused begin or end of a recording stands for.
    pub fn recording_failed(code: i32) -> (e: RendererError)
        ensures
            e == (RendererError { kind: ErrorKind::CommandRecording, code: Some(code) }),
    {
        RendererError::of_call(ErrorKind::CommandRecording, code)
    }
}

} // verus!
