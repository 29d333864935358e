//! What holds of the negotiation and of the lifecycle as a whole.

use vstd::prelude::*;
use crate::context::{
    framebuffer_destroys, held, image_view_destroys, one_or_none, Destroy, Event, RendererState,
    Stage,
};
use crate::error::{ErrorKind, RendererError};
use crate::negotiate::{
    extent_for, format_for, image_count_for, is_mailbox, is_preferred_format,
    lemma_first_preferred, present_mode_for,
};
use crate::queue::{lemma_first_deciding, queue_family_for, QueueFamily};
use crate::surface::{
    Extent, PresentMode, SurfaceCapabilities, SurfaceFormat, PRESENT_MODE_FIFO,
    PRESENT_MODE_MAILBOX,
};

verus! {

/// Where the surface leaves the extent open and its smallest extent is no
/// larger than its largest, the chosen extent lies between the two in width
/// and in height.
pub proof fn law_extent_within_bounds(caps: SurfaceCapabilities, desired: Extent)
    requires
        caps.any_extent(),
        caps.min_image_extent.le(caps.max_image_extent),
    ensures
        caps.min_image_extent.le(extent_for(caps, desired)),
        extent_for(caps, desired).le(caps.max_image_extent),
{
}

/// Where the surface leaves the extent open and its bounds admit 800 by 600,
/// a window that was never resized gets 800 by 600.
pub proof fn law_extent_defaults(caps: SurfaceCapabilities)
    requires
        caps.any_extent(),
        caps.min_image_extent.le(Extent::default_window()),
        Extent::default_window().le(caps.max_image_extent),
    ensures
        extent_for(caps, Extent::default_window()) == (Extent { width: 800, height: 600 }),
{
}

/// Without a maximum the image count is one more than the minimum; with a
/// maximum it is never above it, and one more than the minimum where that
/// fits.
pub proof fn law_image_count(caps: SurfaceCapabilities)
    ensures
        caps.max_image_count == 0 ==> image_count_for(caps) == caps.min_image_count + 1,
        caps.max_image_count > 0 ==> image_count_for(caps) <= caps.max_image_count,
        caps.min_image_count < caps.max_image_count ==> image_count_for(caps)
            == caps.min_image_count + 1,
{
}

/// A list that holds an 8-bit BGRA sRGB format gives such a format, at
/// whatever position it stands: the first of them.
pub proof fn law_preferred_format_wins(formats: Seq<SurfaceFormat>, k: int)
    requires
        0 <= k < formats.len(),
        is_preferred_format(formats[k]),
    ensures
        format_for(formats) is Some,
        is_preferred_format(format_for(formats).unwrap()),
        (forall|j: int| 0 <= j < k ==> !is_preferred_format(#[trigger] formats[j])) ==> format_for(
            formats,
        ) == Some(formats[k]),
{
    lemma_first_preferred(formats, 0);
}

/// A list that holds no 8-bit BGRA sRGB format gives its first entry.
pub proof fn law_first_format_is_fallback(formats: Seq<SurfaceFormat>)
    requires
        formats.len() > 0,
        forall|j: int| 0 <= j < formats.len() ==> !is_preferred_format(#[trigger] formats[j]),
    ensures
        format_for(formats) == Some(formats[0]),
{
    lemma_first_preferred(formats, 0);
}

/// A list that holds mailbox gives mailbox.
pub proof fn law_mailbox_wins(modes: Seq<PresentMode>, k: int)
    requires
        0 <= k < modes.len(),
        is_mailbox(modes[k]),
    ensures
        present_mode_for(modes) == PresentMode(PRESENT_MODE_MAILBOX),
{
}

/// A list without mailbox gives FIFO, whether it names FIFO or not.
pub proof fn law_fifo_is_fallback(modes: Seq<PresentMode>)
    requires
        forall|j: int| 0 <= j < modes.len() ==> !is_mailbox(#[trigger] modes[j]),
    ensures
        present_mode_for(modes) == PresentMode(PRESENT_MODE_FIFO),
{
}

/// Where family `k` is the only one that draws and presents, and no query
/// failed before it, `k` is chosen.
pub proof fn law_only_suitable_family(families: Seq<QueueFamily>, k: int)
    requires
        0 <= k < families.len(),
        k <= u32::MAX,
        families[k].suitable(),
        forall|j: int| 0 <= j < families.len() && j != k ==> !(#[trigger] families[j]).suitable(),
        forall|j: int| 0 <= j < k ==> !((#[trigger] families[j]).present is QueryFailed),
    ensures
        queue_family_for(families) == Ok::<u32, RendererError>(k as u32),
{
    lemma_first_deciding(families, 0);
}

/// Where no family draws and presents, the scan fails for want of a suitable
/// device.
pub proof fn law_no_suitable_family(families: Seq<QueueFamily>)
    requires
        forall|j: int| 0 <= j < families.len() ==> !(#[trigger] families[j]).suitable(),
    ensures
        queue_family_for(families) is Err,
        queue_family_for(families)->Err_0.kind == ErrorKind::NoSuitableDevice,
{
    lemma_first_deciding(families, 0);
}

/// A family that the scan chooses draws and presents, and none before it
/// does.
pub proof fn law_chosen_family_is_first_suitable(families: Seq<QueueFamily>)
    requires
        queue_family_for(families) is Ok,
    ensures
        queue_family_for(families)->Ok_0 < families.len(),
        families[queue_family_for(families)->Ok_0 as int].suitable(),
        forall|j: int|
            0 <= j < queue_family_for(families)->Ok_0 ==> !(#[trigger] families[j]).suitable(),
{
    lemma_first_deciding(families, 0);
}

/// A ready context has as many image views as images, as many framebuffers
/// as image views and as many command buffers, and owns a render pass, a
/// swapchain and a command pool.
pub proof fn law_ready_counts(s: RendererState)
    requires
        s.inv(),
        s.stage == Stage::Ready,
    ensures
        s.image_views.len() == s.images.len(),
        s.framebuffers.len() == s.image_views.len(),
        s.command_buffers.len() == s.image_views.len(),
        s.render_pass is Some,
        s.swapchain is Some,
        s.command_pool is Some,
        s.config is Some,
{
}

/// Whatever outcome is reported, a context that was well formed stays so,
/// and it is ready only with its counts in step.
pub proof fn law_counts_after_step(s: RendererState, event: Event)
    requires
        s.inv(),
    ensures
        s.step(event).inv(),
        s.step(event).stage == Stage::Ready ==> s.step(event).image_views.len() == s.step(
            event,
        ).framebuffers.len() == s.step(event).images.len(),
{
}

/// Handles leave in the order of their classes: image views, framebuffers,
/// render pass, swapchain, command pool, device, surface, instance.
pub open spec fn in_order(destroy: Seq<Destroy>) -> bool {
    forall|i: int, j: int|
        0 <= i < j < destroy.len() ==> (#[trigger] destroy[i]).rank() <= (
        #[trigger] destroy[j]).rank()
}

/// Only image views and framebuffers come in numbers: no two entries share
/// any other class.
pub open spec fn single_handles_once(destroy: Seq<Destroy>) -> bool {
    forall|i: int, j: int|
        0 <= i < j < destroy.len() && (#[trigger] destroy[i]).rank() == (
        #[trigger] destroy[j]).rank() ==> destroy[i].rank() <= 1
}

/// Every entry of `destroy` has a rank between `lo` and `hi`.
pub open spec fn ranks_within(destroy: Seq<Destroy>, lo: nat, hi: nat) -> bool {
    forall|i: int| 0 <= i < destroy.len() ==> lo <= (#[trigger] destroy[i]).rank() <= hi
}

/// Two orderly runs, the second of higher classes than the first, make one
/// orderly run.
proof fn lemma_join(a: Seq<Destroy>, b: Seq<Destroy>, lo: nat, mid: nat, hi: nat)
    requires
        lo <= mid <= hi,
        in_order(a),
        in_order(b),
        single_handles_once(a),
        single_handles_once(b),
        ranks_within(a, lo, mid),
        ranks_within(b, mid + 1, hi),
    ensures
        in_order(a + b),
        single_handles_once(a + b),
        ranks_within(a + b, lo, hi),
        forall|d: Destroy| #[trigger] (a + b).contains(d) <==> a.contains(d) || b.contains(d),
{
    let t = a + b;
    assert forall|i: int| 0 <= i < t.len() implies lo <= (#[trigger] t[i]).rank() <= hi by {
        if i < a.len() {
            assert(t[i] == a[i]);
        } else {
            assert(t[i] == b[i - a.len()]);
        }
    }
    assert forall|i: int, j: int| 0 <= i < j < t.len() implies (#[trigger] t[i]).rank() <= (
    #[trigger] t[j]).rank() && (t[i].rank() == t[j].rank() ==> t[i].rank() <= 1) by {
        if j < a.len() {
            assert(t[i] == a[i] && t[j] == a[j]);
        } else if i < a.len() {
            assert(t[i] == a[i] && t[j] == b[j - a.len()]);
        } else {
            assert(t[i] == b[i - a.len()] && t[j] == b[j - a.len()]);
        }
    }
    assert forall|d: Destroy| #[trigger] t.contains(d) <==> a.contains(d) || b.contains(d) by {
        if t.contains(d) {
            let i = choose|i: int| 0 <= i < t.len() && t[i] == d;
            if i < a.len() {
                assert(a[i] == d);
            } else {
                assert(b[i - a.len()] == d);
            }
        }
        if a.contains(d) {
            let i = choose|i: int| 0 <= i < a.len() && a[i] == d;
            assert(t[i] == d);
        }
        if b.contains(d) {
            let i = choose|i: int| 0 <= i < b.len() && b[i] == d;
            assert(t[a.len() + i] == d);
        }
    }
}

/// One handle or none is an orderly run of its own class.
proof fn lemma_single(handle: Option<Destroy>, rank: nat)
    requires
        handle is Some ==> handle.unwrap().rank() == rank,
    ensures
        in_order(one_or_none(handle)),
        single_handles_once(one_or_none(handle)),
        ranks_within(one_or_none(handle), rank, rank),
        forall|d: Destroy| #[trigger] one_or_none(handle).contains(d) <==> handle == Some(d),
{
    let t = one_or_none(handle);
    assert forall|d: Destroy| #[trigger] t.contains(d) <==> handle == Some(d) by {
        if handle == Some(d) {
            assert(t[0] == d);
        }
    }
}

/// The image views leave in their order, each once.
proof fn lemma_image_views(views: Seq<u64>)
    ensures
        in_order(image_view_destroys(views)),
        single_handles_once(image_view_destroys(views)),
        ranks_within(image_view_destroys(views), 0, 0),
        forall|d: Destroy| #[trigger]
            image_view_destroys(views).contains(d) <==> d is ImageView && views.contains(
                d->ImageView_0,
            ),
{
    let t = image_view_destroys(views);
    assert forall|d: Destroy| #[trigger]
        t.contains(d) <==> d is ImageView && views.contains(d->ImageView_0) by {
        if t.contains(d) {
            let i = choose|i: int| 0 <= i < t.len() && t[i] == d;
            assert(views[i] == d->ImageView_0);
        }
        if d is ImageView && views.contains(d->ImageView_0) {
            let i = choose|i: int| 0 <= i < views.len() && views[i] == d->ImageView_0;
            assert(t[i] == d);
        }
    }
}

/// The framebuffers leave in their order, each once.
proof fn lemma_framebuffers(framebuffers: Seq<u64>)
    ensures
        in_order(framebuffer_destroys(framebuffers)),
        single_handles_once(framebuffer_destroys(framebuffers)),
        ranks_within(framebuffer_destroys(framebuffers), 1, 1),
        forall|d: Destroy| #[trigger]
            framebuffer_destroys(framebuffers).contains(d) <==> d is Framebuffer
                && framebuffers.contains(d->Framebuffer_0),
{
    let t = framebuffer_destroys(framebuffers);
    assert forall|d: Destroy| #[trigger]
        t.contains(d) <==> d is Framebuffer && framebuffers.contains(d->Framebuffer_0) by {
        if t.contains(d) {
            let i = choose|i: int| 0 <= i < t.len() && t[i] == d;
            assert(framebuffers[i] == d->Framebuffer_0);
        }
        if d is Framebuffer && framebuffers.contains(d->Framebuffer_0) {
            let i = choose|i: int| 0 <= i < framebuffers.len() && framebuffers[i]
                == d->Framebuffer_0;
            assert(t[i] == d);
        }
    }
}

/// The swapchain and what was built on it leave in order, every image view
/// and every framebuffer at its own place, the render pass and the swapchain
/// once each where they exist, and nothing else.
pub proof fn law_swapchain_teardown(s: RendererState)
    ensures
        in_order(s.swapchain_teardown()),
        single_handles_once(s.swapchain_teardown()),
        ranks_within(s.swapchain_teardown(), 0, 3),
        s.swapchain_teardown().len() == s.image_views.len() + s.framebuffers.len() + held(
            s.render_pass,
        ) + held(s.swapchain),
        forall|i: int|
            0 <= i < s.image_views.len() ==> #[trigger] s.swapchain_teardown()[i]
                == Destroy::ImageView(s.image_views[i]),
        forall|i: int|
            0 <= i < s.framebuffers.len() ==> #[trigger] s.swapchain_teardown()[s.image_views.len()
                + i] == Destroy::Framebuffer(s.framebuffers[i]),
        forall|d: Destroy| #[trigger]
            s.swapchain_teardown().contains(d) <==> s.owns(d) && d.rank() <= 3,
{
    let a = image_view_destroys(s.image_views);
    let b = framebuffer_destroys(s.framebuffers);
    let c = one_or_none(
        match s.render_pass {
            Some(h) => Some(Destroy::RenderPass(h)),
            None => None,
        },
    );
    let d = one_or_none(
        match s.swapchain {
            Some(h) => Some(Destroy::Swapchain(h)),
            None => None,
        },
    );
    lemma_image_views(s.image_views);
    lemma_framebuffers(s.framebuffers);
    lemma_single(
        match s.render_pass {
            Some(h) => Some(Destroy::RenderPass(h)),
            None => None,
        },
        2,
    );
    lemma_single(
        match s.swapchain {
            Some(h) => Some(Destroy::Swapchain(h)),
            None => None,
        },
        3,
    );
    lemma_join(a, b, 0, 0, 1);
    lemma_join(a + b, c, 0, 1, 2);
    lemma_join(a + b + c, d, 0, 2, 3);
    assert(s.swapchain_teardown() == a + b + c + d);
}

/// At shutdown every owned handle leaves exactly once and in order, and only
/// what was created leaves: a context that failed half-way hands out what it
/// had built until then. The command pool is not among them; it goes with
/// the device.
pub proof fn law_full_teardown(s: RendererState)
    ensures
        in_order(s.full_teardown()),
        single_handles_once(s.full_teardown()),
        s.full_teardown().len() == s.image_views.len() + s.framebuffers.len() + held(
            s.render_pass,
        ) + held(s.swapchain) + held(s.device) + held(s.surface) + held(s.instance),
        forall|d: Destroy| #[trigger]
            s.full_teardown().contains(d) <==> s.owns(d) && d.rank() != 4,
        s.full_teardown().subrange(0, s.swapchain_teardown().len() as int)
            == s.swapchain_teardown(),
{
    law_swapchain_teardown(s);
    let w = s.swapchain_teardown();
    let a = match s.device {
        Some(h) => Some(Destroy::Device(h)),
        None => None,
    };
    let b = match s.surface {
        Some(h) => Some(Destroy::Surface(h)),
        None => None,
    };
    let c = match s.instance {
        Some(h) => Some(Destroy::Instance(h)),
        None => None,
    };
    lemma_single(a, 5);
    lemma_single(b, 6);
    lemma_single(c, 7);
    lemma_join(w, one_or_none(a), 0, 4, 5);
    lemma_join(w + one_or_none(a), one_or_none(b), 0, 5, 6);
    lemma_join(w + one_or_none(a) + one_or_none(b), one_or_none(c), 0, 6, 7);
    assert(s.full_teardown() == w + one_or_none(a) + one_or_none(b) + one_or_none(c));
    assert(s.full_teardown().subrange(0, w.len() as int) =~= w);
}

/// Before a rebuild the swapchain, what was built on it and the command pool
/// leave exactly once each and in order; device, surface and instance stay.
pub proof fn law_rebuild_teardown(s: RendererState)
    ensures
        in_order(s.rebuild_teardown()),
        single_handles_once(s.rebuild_teardown()),
        s.rebuild_teardown().len() == s.image_views.len() + s.framebuffers.len() + held(
            s.render_pass,
        ) + held(s.swapchain) + held(s.command_pool),
        forall|d: Destroy| #[trigger]
            s.rebuild_teardown().contains(d) <==> s.owns(d) && d.rank() <= 4,
{
    law_swapchain_teardown(s);
    let w = s.swapchain_teardown();
    let a = match s.command_pool {
        Some(h) => Some(Destroy::CommandPool(h)),
        None => None,
    };
    lemma_single(a, 4);
    lemma_join(w, one_or_none(a), 0, 3, 4);
    assert(s.rebuild_teardown() == w + one_or_none(a));
}

/// After shutdown nothing is owned, so nothing can be destroyed twice.
pub proof fn law_shutdown_leaves_nothing(s: RendererState)
    ensures
        s.torn_down().inv(),
        s.torn_down().owns_nothing(),
        s.torn_down().full_teardown().len() == 0,
        s.torn_down().rebuild_teardown().len() == 0,
{
}

/// A failure takes nothing from the context: what was created before it is
/// what shutdown hands out.
pub proof fn law_failure_keeps_handles(s: RendererState, e: RendererError)
    ensures
        s.failed_with(e).full_teardown() == s.full_teardown(),
{
}

/// A resize of a ready context hands out every handle of the old swapchain,
/// of what was built on it and of the command pool exactly once, keeps
/// device, surface and instance, and leaves nothing of the old swapchain to
/// destroy again.
pub proof fn law_resize_leaks_nothing(s: RendererState, desired: Extent)
    requires
        s.inv(),
        s.stage == Stage::Ready,
    ensures
        s.rebuild_teardown().len() == 2 * s.image_views.len() + 3,
        in_order(s.rebuild_teardown()),
        single_handles_once(s.rebuild_teardown()),
        forall|d: Destroy| #[trigger]
            s.rebuild_teardown().contains(d) <==> s.owns(d) && d.rank() <= 4,
        s.resized(desired).inv(),
        s.resized(desired).stage == Stage::AwaitSurfaceInfo,
        s.resized(desired).desired_extent == desired,
        s.resized(desired).rebuild_teardown().len() == 0,
        s.resized(desired).device == s.device,
        s.resized(desired).queue == s.queue,
        s.resized(desired).surface == s.surface,
        s.resized(desired).instance == s.instance,
        s.resized(desired).full_teardown().len() == 3,
{
    law_rebuild_teardown(s);
}

/// The swapchain that is built after a resize has the extent negotiated for
/// the new size: the new size itself where the surface reports it as its
/// current extent, or leaves the extent open and admits it.
pub proof fn law_resize_extent(
    s: RendererState,
    desired: Extent,
    caps: SurfaceCapabilities,
    formats: Vec<SurfaceFormat>,
    present_modes: Vec<PresentMode>,
)
    requires
        s.inv(),
        s.stage == Stage::Ready,
    ensures
        ({
            let t = s.resized(desired).step(
                Event::SurfaceQueried { capabilities: caps, formats, present_modes },
            );
            &&& t.stage == Stage::AwaitSwapchain || t.stage == Stage::Failed
            &&& t.stage == Stage::AwaitSwapchain <==> formats@.len() > 0 && image_count_for(caps)
                <= u32::MAX
            &&& t.stage == Stage::AwaitSwapchain ==> {
                &&& t.config is Some
                &&& t.config.unwrap().extent == extent_for(caps, desired)
                &&& (!caps.any_extent() && caps.current_extent == desired)
                    ==> t.config.unwrap().extent == desired
                &&& (caps.any_extent() && caps.min_image_extent.le(desired) && desired.le(
                    caps.max_image_extent,
                )) ==> t.config.unwrap().extent == desired
            }
        }),
{
}

/// The build never steps back: an outcome leaves the stage where it is or
/// moves it on, and a failure ends it.
pub proof fn law_step_moves_forward(s: RendererState, event: Event)
    requires
        s.inv(),
    ensures
        s.step(event).stage.progress() >= s.stage.progress(),
        s.step(event).stage != s.stage ==> s.stage.pending(),
{
}

/// What was negotiated stays as it is until the surface is queried again.
pub proof fn law_config_settled_once(s: RendererState, event: Event)
    requires
        s.stage != Stage::AwaitSurfaceInfo,
    ensures
        s.step(event).config == s.config,
        s.step(event).desired_extent == s.desired_extent,
{
}

} // verus!
