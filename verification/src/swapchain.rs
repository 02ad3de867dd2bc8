//! The swapchain lifecycle: negotiating image count, format, presentation
//! mode and extent, creating the swapchain and every resource that
//! depends on it, and tearing the whole generation down — dependents
//! first — when the surface invalidates it.
//!
//! Creation and destruction go through the resource registry, and the
//! contracts pin the registry's event log exactly: recreation destroys
//! every dependent resource, in dependency order, before any replacement
//! is created.

use vstd::prelude::*;

use crate::registry::ResourceEvent;
use crate::registry::event_kind;
use crate::registry::ResourceKind;
use crate::registry::ResourceRecord;
use crate::registry::ResourceRegistry;
use crate::selection::Extent2d;
use crate::selection::PresentMode;
use crate::selection::SurfaceDescription;
use crate::selection::SurfaceFormat;
use crate::selection::chosen_extent;
use crate::selection::chosen_image_count;
use crate::selection::chosen_present_mode;
use crate::selection::choose_image_count;
use crate::selection::choose_swapchain_extent;
use crate::selection::choose_swapchain_format;
use crate::selection::choose_swapchain_presentation_mode;
use crate::selection::format_available;

verus! {

/// A setup failure that aborts before any frame is drawn.
#[derive(Clone, Copy, Debug, PartialEq, Eq, Structural)]
pub enum SetupError {
    /// The surface offers no format at all.
    NoSurfaceFormat,
}

/// One generation of the swapchain: the negotiated configuration and the
/// registry identifiers of the swapchain object and of every resource
/// that depends on its image count, extent or format.
#[derive(Debug)]
pub struct SwapchainState {
    /// The negotiated format.
    pub format: SurfaceFormat,
    /// Whether format selection fell back and raised a notice.
    pub format_fallback: bool,
    /// The negotiated presentation mode.
    pub present_mode: PresentMode,
    /// The negotiated extent.
    pub extent: Extent2d,
    /// How many presentable images the swapchain holds.
    pub image_count: u32,
    /// The swapchain object itself.
    pub swapchain: usize,
    /// One view per presentable image.
    pub image_views: Vec<usize>,
    /// The render pass targeting the negotiated format.
    pub render_pass: usize,
    /// The pipeline built against the render pass and extent.
    pub pipeline: usize,
    /// One framebuffer per image view.
    pub framebuffers: Vec<usize>,
}

impl SwapchainState {
    /// Per-image resources match the image count.
    pub open spec fn counts_ok(&self) -> bool {
        &&& self.image_views@.len() == self.image_count as int
        &&& self.framebuffers@.len() == self.image_count as int
    }

    /// Identifiers ascend in creation order, which makes them pairwise
    /// distinct: swapchain, then views, then render pass, pipeline and
    /// framebuffers.
    pub open spec fn ids_ordered(&self) -> bool {
        &&& forall|i: int, j: int|
            0 <= i < j < self.image_views@.len() ==> self.image_views@[i] < self.image_views@[j]
        &&& forall|i: int, j: int|
            0 <= i < j < self.framebuffers@.len() ==> self.framebuffers@[i]
                < self.framebuffers@[j]
        &&& forall|i: int|
            0 <= i < self.image_views@.len() ==> self.swapchain < #[trigger] self.image_views@[i]
                && self.image_views@[i] < self.render_pass
        &&& self.swapchain < self.render_pass
        &&& self.render_pass < self.pipeline
        &&& forall|i: int|
            0 <= i < self.framebuffers@.len() ==> self.pipeline < #[trigger] self.framebuffers@[i]
    }

    /// Every owned resource is alive in `reg` under its kind.
    pub open spec fn live_in(&self, reg: &ResourceRegistry) -> bool {
        &&& reg.is_live(self.swapchain as int)
        &&& reg.kind_of(self.swapchain as int) == ResourceKind::Swapchain
        &&& forall|i: int|
            0 <= i < self.image_views@.len() ==> reg.is_live(
                #[trigger] self.image_views@[i] as int,
            ) && reg.kind_of(self.image_views@[i] as int) == ResourceKind::ImageView
        &&& reg.is_live(self.render_pass as int)
        &&& reg.kind_of(self.render_pass as int) == ResourceKind::RenderPass
        &&& reg.is_live(self.pipeline as int)
        &&& reg.kind_of(self.pipeline as int) == ResourceKind::Pipeline
        &&& forall|i: int|
            0 <= i < self.framebuffers@.len() ==> reg.is_live(
                #[trigger] self.framebuffers@[i] as int,
            ) && reg.kind_of(self.framebuffers@[i] as int) == ResourceKind::Framebuffer
    }

    /// A valid generation relative to the registry.
    pub open spec fn wf(&self, reg: &ResourceRegistry) -> bool {
        &&& self.counts_ok()
        &&& self.ids_ordered()
        &&& self.live_in(reg)
    }

    /// Whether `id` names one of this generation's resources.
    pub open spec fn owns(&self, id: int) -> bool {
        ||| id == self.swapchain as int
        ||| exists|i: int| 0 <= i < self.image_views@.len() && self.image_views@[i] as int == id
        ||| id == self.render_pass as int
        ||| id == self.pipeline as int
        ||| exists|i: int| 0 <= i < self.framebuffers@.len() && self.framebuffers@[i] as int == id
    }
}

/// The identifiers a creation starting at `base` hands out: the swapchain
/// first, then the views, the render pass, the pipeline and the
/// framebuffers, consecutively.
pub open spec fn ids_pinned(sc: SwapchainState, base: int) -> bool {
    &&& sc.swapchain as int == base
    &&& forall|j: int|
        0 <= j < sc.image_views@.len() ==> (#[trigger] sc.image_views@[j]) as int == base + 1 + j
    &&& sc.render_pass as int == base + 1 + sc.image_count
    &&& sc.pipeline as int == base + 2 + sc.image_count
    &&& forall|j: int|
        0 <= j < sc.framebuffers@.len() ==> (#[trigger] sc.framebuffers@[j]) as int == base + 3
            + sc.image_count + j
}

/// The registry events one creation appends, in order.
pub open spec fn create_trace(sc: SwapchainState) -> Seq<ResourceEvent> {
    seq![ResourceEvent::Created(sc.swapchain, ResourceKind::Swapchain)] + Seq::new(
        sc.image_views@.len(),
        |j: int| ResourceEvent::Created(sc.image_views@[j], ResourceKind::ImageView),
    ) + seq![
        ResourceEvent::Created(sc.render_pass, ResourceKind::RenderPass),
        ResourceEvent::Created(sc.pipeline, ResourceKind::Pipeline),
    ] + Seq::new(
        sc.framebuffers@.len(),
        |j: int| ResourceEvent::Created(sc.framebuffers@[j], ResourceKind::Framebuffer),
    )
}

/// The registry events one teardown appends: dependents strictly first —
/// framebuffers, then pipeline, render pass, image views, and the
/// swapchain object last.
pub open spec fn destroy_trace(sc: SwapchainState) -> Seq<ResourceEvent> {
    Seq::new(
        sc.framebuffers@.len(),
        |j: int| ResourceEvent::Destroyed(sc.framebuffers@[j], ResourceKind::Framebuffer),
    ) + seq![
        ResourceEvent::Destroyed(sc.pipeline, ResourceKind::Pipeline),
        ResourceEvent::Destroyed(sc.render_pass, ResourceKind::RenderPass),
    ] + Seq::new(
        sc.image_views@.len(),
        |j: int| ResourceEvent::Destroyed(sc.image_views@[j], ResourceKind::ImageView),
    ) + seq![ResourceEvent::Destroyed(sc.swapchain, ResourceKind::Swapchain)]
}

/// How deeply a resource kind depends on the rest of its generation:
/// lower ranks depend on higher ones and must be destroyed first.
pub open spec fn destruction_rank(k: ResourceKind) -> int {
    match k {
        ResourceKind::Framebuffer => 0,
        ResourceKind::Pipeline => 1,
        ResourceKind::RenderPass => 2,
        ResourceKind::ImageView => 3,
        ResourceKind::Swapchain => 4,
    }
}

/// Recreation never violates dependency order: in the events it appends,
/// every destruction of the old generation comes strictly before every
/// creation of the new one, and among the destructions a dependent
/// resource always goes before what it depends on.
pub proof fn lemma_recreate_destroys_dependents_first(
    old_sc: SwapchainState,
    new_sc: SwapchainState,
)
    ensures
        ({
            let t = destroy_trace(old_sc) + create_trace(new_sc);
            &&& forall|i: int, j: int|
                0 <= i < t.len() && 0 <= j < t.len() && (t[i] is Destroyed) && (t[j] is Created)
                    ==> i < j
            &&& forall|i: int, j: int|
                0 <= i < t.len() && 0 <= j < t.len() && (t[i] is Destroyed) && (t[j] is Destroyed)
                    && destruction_rank(event_kind(t[i])) < destruction_rank(event_kind(t[j]))
                    ==> i < j
        }),
{
    let d = destroy_trace(old_sc);
    let c = create_trace(new_sc);
    let t = d + c;
    let nf = old_sc.framebuffers@.len() as int;
    let nv = old_sc.image_views@.len() as int;
    assert(d.len() == nf + 2 + nv + 1);
    assert forall|i: int| 0 <= i < d.len() implies (t[i] is Destroyed) && destruction_rank(
        event_kind(t[i]),
    ) == (if i < nf {
        0int
    } else if i == nf {
        1int
    } else if i == nf + 1 {
        2int
    } else if i < nf + 2 + nv {
        3int
    } else {
        4int
    }) by {
        assert(t[i] == d[i]);
        if i < nf {
            assert(d[i] == ResourceEvent::Destroyed(
                old_sc.framebuffers@[i],
                ResourceKind::Framebuffer,
            ));
        } else if i == nf {
            assert(d[i] == ResourceEvent::Destroyed(old_sc.pipeline, ResourceKind::Pipeline));
        } else if i == nf + 1 {
            assert(d[i] == ResourceEvent::Destroyed(old_sc.render_pass, ResourceKind::RenderPass));
        } else if i < nf + 2 + nv {
            assert(d[i] == ResourceEvent::Destroyed(
                old_sc.image_views@[i - nf - 2],
                ResourceKind::ImageView,
            ));
        } else {
            assert(d[i] == ResourceEvent::Destroyed(old_sc.swapchain, ResourceKind::Swapchain));
        }
    }
    let nvc = new_sc.image_views@.len() as int;
    let nfc = new_sc.framebuffers@.len() as int;
    assert(c.len() == 3 + nvc + nfc);
    assert forall|j: int| d.len() <= j < t.len() implies (t[j] is Created) by {
        let p = j - d.len();
        assert(t[j] == c[p]);
        if p == 0 {
            assert(c[p] == ResourceEvent::Created(new_sc.swapchain, ResourceKind::Swapchain));
        } else if p < 1 + nvc {
            assert(c[p] == ResourceEvent::Created(
                new_sc.image_views@[p - 1],
                ResourceKind::ImageView,
            ));
        } else if p == 1 + nvc {
            assert(c[p] == ResourceEvent::Created(new_sc.render_pass, ResourceKind::RenderPass));
        } else if p == 2 + nvc {
            assert(c[p] == ResourceEvent::Created(new_sc.pipeline, ResourceKind::Pipeline));
        } else {
            assert(c[p] == ResourceEvent::Created(
                new_sc.framebuffers@[p - 3 - nvc],
                ResourceKind::Framebuffer,
            ));
        }
    }
    assert forall|i: int, j: int|
        0 <= i < t.len() && 0 <= j < t.len() && (t[i] is Destroyed) && (t[j]
            is Created) implies i < j by {
        assert(i < d.len());
        assert(j >= d.len());
    }
    assert forall|i: int, j: int|
        0 <= i < t.len() && 0 <= j < t.len() && (t[i] is Destroyed) && (t[j] is Destroyed)
            && destruction_rank(event_kind(t[i])) < destruction_rank(
            event_kind(t[j]),
        ) implies i < j by {
        assert(i < d.len());
        assert(j < d.len());
    }
}

/// Negotiate a swapchain against what the surface reports and create it
/// together with every dependent resource: image views, render pass,
/// pipeline, framebuffers. Fails only when the surface offers no format,
/// in which case the registry is untouched.
#[verifier::loop_isolation(false)]
pub fn create_swapchain(
    reg: &mut ResourceRegistry,
    surface: &SurfaceDescription,
    preferred_format: SurfaceFormat,
    desired_extent: Extent2d,
) -> (r: Result<SwapchainState, SetupError>)
    requires
        surface.wf(),
    ensures
        r is Err <==> surface.formats@.len() == 0,
        r is Err ==> final(reg).records_seq() == old(reg).records_seq() && final(reg).log() == old(reg).log(),
        r matches Ok(sc) ==> {
            &&& sc.wf(final(reg))
            &&& sc.image_count == chosen_image_count(surface.capabilities)
            &&& sc.present_mode == chosen_present_mode(surface.present_modes@)
            &&& sc.extent == chosen_extent(surface.capabilities, desired_extent)
            &&& (format_available(surface.formats@, preferred_format) ==> sc.format
                == preferred_format && !sc.format_fallback)
            &&& (!format_available(surface.formats@, preferred_format) ==> sc.format
                == surface.formats@[0] && sc.format_fallback)
            &&& ids_pinned(sc, old(reg).next_id())
            &&& final(reg).log() == old(reg).log() + create_trace(sc)
            &&& final(reg).records_seq().len() == old(reg).records_seq().len() + 2 * (
            sc.image_count as int) + 3
            &&& forall|id: int|
                0 <= id < old(reg).records_seq().len() ==> final(reg).records_seq()[id] == old(reg).records_seq()[id]
        },
{
    let (format, format_fallback) = match choose_swapchain_format(
        &surface.formats,
        preferred_format,
    ) {
        Some(choice) => choice,
        None => {
            return Err(SetupError::NoSurfaceFormat);
        },
    };
    let present_mode = choose_swapchain_presentation_mode(&surface.present_modes);
    let extent = choose_swapchain_extent(&surface.capabilities, desired_extent);
    let image_count = choose_image_count(&surface.capabilities);

    let ghost base = old(reg).next_id();
    let ghost log0 = old(reg).log();
    let n = image_count as usize;

    let swapchain = reg.create(ResourceKind::Swapchain);

    let mut image_views: Vec<usize> = Vec::new();
    let mut i: usize = 0;
    while i < n
        invariant
            i <= n,
            image_views@.len() == i as int,
            reg.records_seq().len() == base + 1 + i,
            reg.log().len() == log0.len() + 1 + i,
            forall|id: int| 0 <= id < base ==> reg.records_seq()[id] == old(reg).records_seq()[id],
            reg.records_seq()[base] == (ResourceRecord {
                kind: ResourceKind::Swapchain,
                alive: true,
            }),
            swapchain as int == base,
            forall|j: int| 0 <= j < i ==> (#[trigger] image_views@[j]) as int == base + 1 + j,
            forall|j: int|
                0 <= j < i ==> reg.records_seq()[(#[trigger] image_views@[j]) as int]
                    == (ResourceRecord { kind: ResourceKind::ImageView, alive: true }),
            forall|idx: int| 0 <= idx < log0.len() ==> reg.log()[idx] == log0[idx],
            reg.log()[log0.len() as int] == ResourceEvent::Created(
                swapchain,
                ResourceKind::Swapchain,
            ),
            forall|j: int|
                0 <= j < i ==> reg.log()[log0.len() + 1 + j] == ResourceEvent::Created(
                    image_views@[j],
                    ResourceKind::ImageView,
                ),
        decreases n - i,
    {
        let view = reg.create(ResourceKind::ImageView);
        image_views.push(view);
        i = i + 1;
    }

    let render_pass = reg.create(ResourceKind::RenderPass);
    let pipeline = reg.create(ResourceKind::Pipeline);

    let ghost mid_records = reg.records_seq();
    let ghost mid_log = reg.log();
    proof {
        assert(mid_log.len() == log0.len() + 3 + n);
        assert(forall|idx: int| 0 <= idx < log0.len() ==> mid_log[idx] == log0[idx]);
        assert(mid_log[log0.len() as int] == ResourceEvent::Created(
            swapchain,
            ResourceKind::Swapchain,
        ));
        assert(forall|j: int|
            0 <= j < n ==> mid_log[log0.len() + 1 + j] == ResourceEvent::Created(
                image_views@[j],
                ResourceKind::ImageView,
            ));
        assert(mid_log[log0.len() + 1 + n] == ResourceEvent::Created(
            render_pass,
            ResourceKind::RenderPass,
        ));
        assert(mid_log[log0.len() + 2 + n] == ResourceEvent::Created(
            pipeline,
            ResourceKind::Pipeline,
        ));
        assert(mid_records.len() == base + 3 + n);
        assert(forall|id: int| 0 <= id < base ==> mid_records[id] == old(reg).records_seq()[id]);
        assert(mid_records[base] == (ResourceRecord { kind: ResourceKind::Swapchain, alive: true }));
        assert(forall|j: int|
            0 <= j < n ==> mid_records[(#[trigger] image_views@[j]) as int] == (ResourceRecord {
                kind: ResourceKind::ImageView,
                alive: true,
            }));
        assert(mid_records[base + 1 + n] == (ResourceRecord {
            kind: ResourceKind::RenderPass,
            alive: true,
        }));
        assert(mid_records[base + 2 + n] == (ResourceRecord {
            kind: ResourceKind::Pipeline,
            alive: true,
        }));
    }

    let mut framebuffers: Vec<usize> = Vec::new();
    let mut k: usize = 0;
    while k < n
        invariant
            k <= n,
            framebuffers@.len() == k as int,
            reg.records_seq().len() == base + 3 + n + k,
            reg.log().len() == log0.len() + 3 + n + k,
            mid_records.len() == base + 3 + n,
            mid_log.len() == log0.len() + 3 + n,
            forall|id: int| 0 <= id < base + 3 + n ==> reg.records_seq()[id] == mid_records[id],
            forall|j: int| 0 <= j < k ==> (#[trigger] framebuffers@[j]) as int == base + 3 + n + j,
            forall|j: int|
                0 <= j < k ==> reg.records_seq()[(#[trigger] framebuffers@[j]) as int]
                    == (ResourceRecord { kind: ResourceKind::Framebuffer, alive: true }),
            forall|idx: int| 0 <= idx < log0.len() + 3 + n ==> reg.log()[idx] == mid_log[idx],
            forall|j: int|
                0 <= j < k ==> reg.log()[log0.len() + 3 + n + j] == ResourceEvent::Created(
                    framebuffers@[j],
                    ResourceKind::Framebuffer,
                ),
        decreases n - k,
    {
        let fb = reg.create(ResourceKind::Framebuffer);
        framebuffers.push(fb);
        k = k + 1;
    }

    let sc = SwapchainState {
        format,
        format_fallback,
        present_mode,
        extent,
        image_count,
        swapchain,
        image_views,
        render_pass,
        pipeline,
        framebuffers,
    };
    proof {
        let t = old(reg).log() + create_trace(sc);
        let ni = n as int;
        let base_len = log0.len() as int;
        assert(create_trace(sc).len() == 3 + 2 * ni);
        assert forall|idx: int| 0 <= idx < reg.log().len() implies reg.log()[idx] == t[idx] by {
            if idx < base_len {
                assert(reg.log()[idx] == log0[idx]);
            } else if idx == base_len {
                assert(reg.log()[idx] == ResourceEvent::Created(
                    sc.swapchain,
                    ResourceKind::Swapchain,
                ));
            } else if idx < base_len + 1 + ni {
                let j = idx - base_len - 1;
                assert(reg.log()[idx] == ResourceEvent::Created(
                    sc.image_views@[j],
                    ResourceKind::ImageView,
                ));
            } else if idx == base_len + 1 + ni {
                assert(reg.log()[idx] == ResourceEvent::Created(
                    sc.render_pass,
                    ResourceKind::RenderPass,
                ));
            } else if idx == base_len + 2 + ni {
                assert(reg.log()[idx] == ResourceEvent::Created(
                    sc.pipeline,
                    ResourceKind::Pipeline,
                ));
            } else {
                let j = idx - base_len - 3 - ni;
                assert(reg.log()[idx] == ResourceEvent::Created(
                    sc.framebuffers@[j],
                    ResourceKind::Framebuffer,
                ));
            }
        }
        assert(reg.log() =~= t);
        assert forall|id: int| 0 <= id < old(reg).records_seq().len() implies reg.records_seq()[id]
            == old(reg).records_seq()[id] by {
            assert(reg.records_seq()[id] == mid_records[id]);
        }
        assert(ids_pinned(sc, base));
        assert(sc.counts_ok());
        assert(sc.ids_ordered());
        assert(reg.is_live(sc.swapchain as int));
        assert forall|i2: int| 0 <= i2 < sc.image_views@.len() implies reg.is_live(
            (#[trigger] sc.image_views@[i2]) as int,
        ) && reg.kind_of(sc.image_views@[i2] as int) == ResourceKind::ImageView by {
            assert(reg.records_seq()[sc.image_views@[i2] as int] == mid_records[sc.image_views@[i2] as int]);
        }
        assert(reg.is_live(sc.render_pass as int));
        assert(reg.is_live(sc.pipeline as int));
        assert(sc.live_in(reg));
    }
    Ok(sc)
}

/// Destroy one whole generation, dependents strictly first: every
/// framebuffer, then the pipeline, the render pass, every image view,
/// and the swapchain object last. Nothing else in the registry changes.
#[verifier::loop_isolation(false)]
pub fn cleanup_swapchain(reg: &mut ResourceRegistry, sc: &SwapchainState)
    requires
        sc.wf(old(reg)),
    ensures
        final(reg).records_seq().len() == old(reg).records_seq().len(),
        final(reg).log() == old(reg).log() + destroy_trace(*sc),
        forall|id: int|
            0 <= id < old(reg).records_seq().len() && !sc.owns(id) ==> final(reg).records_seq()[id] == old(reg).records_seq()[id],
        forall|id: int| sc.owns(id) ==> !final(reg).is_live(id),
{
    let ghost rec0 = old(reg).records_seq();
    let ghost log0 = old(reg).log();
    let nf = sc.framebuffers.len();
    let nv = sc.image_views.len();

    let mut i: usize = 0;
    while i < nf
        invariant
            i <= nf,
            nf == sc.framebuffers@.len(),
            nv == sc.image_views@.len(),
            reg.records_seq().len() == rec0.len(),
            reg.log().len() == log0.len() + i,
            forall|id: int|
                0 <= id < rec0.len() && !sc.owns(id) ==> reg.records_seq()[id] == rec0[id],
            forall|j: int|
                i <= j < nf ==> reg.records_seq()[(#[trigger] sc.framebuffers@[j]) as int]
                    == rec0[sc.framebuffers@[j] as int],
            forall|j: int|
                0 <= j < i ==> reg.records_seq()[(#[trigger] sc.framebuffers@[j]) as int]
                    == (ResourceRecord { kind: ResourceKind::Framebuffer, alive: false }),
            reg.records_seq()[sc.swapchain as int] == rec0[sc.swapchain as int],
            reg.records_seq()[sc.render_pass as int] == rec0[sc.render_pass as int],
            reg.records_seq()[sc.pipeline as int] == rec0[sc.pipeline as int],
            forall|j: int|
                0 <= j < nv ==> reg.records_seq()[(#[trigger] sc.image_views@[j]) as int]
                    == rec0[sc.image_views@[j] as int],
            forall|idx: int| 0 <= idx < log0.len() ==> reg.log()[idx] == log0[idx],
            forall|j: int|
                0 <= j < i ==> reg.log()[log0.len() + j] == ResourceEvent::Destroyed(
                    sc.framebuffers@[j],
                    ResourceKind::Framebuffer,
                ),
        decreases nf - i,
    {
        let fb = sc.framebuffers[i];
        reg.destroy(fb);
        i = i + 1;
    }

    reg.destroy(sc.pipeline);
    reg.destroy(sc.render_pass);

    let ghost rec_mid = reg.records_seq();
    let ghost log_mid = reg.log();
    proof {
        assert(log_mid.len() == log0.len() + nf + 2);
        assert(forall|idx: int| 0 <= idx < log0.len() ==> log_mid[idx] == log0[idx]);
        assert(forall|j: int|
            0 <= j < nf ==> log_mid[log0.len() + j] == ResourceEvent::Destroyed(
                (#[trigger] sc.framebuffers@[j]),
                ResourceKind::Framebuffer,
            ));
        assert(log_mid[log0.len() + nf] == ResourceEvent::Destroyed(
            sc.pipeline,
            ResourceKind::Pipeline,
        ));
        assert(log_mid[log0.len() + nf + 1] == ResourceEvent::Destroyed(
            sc.render_pass,
            ResourceKind::RenderPass,
        ));
    }

    let mut v: usize = 0;
    while v < nv
        invariant
            v <= nv,
            nf == sc.framebuffers@.len(),
            nv == sc.image_views@.len(),
            rec_mid.len() == rec0.len(),
            log_mid.len() == log0.len() + nf + 2,
            reg.records_seq().len() == rec0.len(),
            reg.log().len() == log_mid.len() + v,
            forall|id: int|
                0 <= id < rec0.len() && !sc.owns(id) ==> reg.records_seq()[id] == rec0[id],
            forall|j: int|
                v <= j < nv ==> reg.records_seq()[(#[trigger] sc.image_views@[j]) as int]
                    == rec0[sc.image_views@[j] as int],
            forall|j: int|
                0 <= j < v ==> reg.records_seq()[(#[trigger] sc.image_views@[j]) as int]
                    == (ResourceRecord { kind: ResourceKind::ImageView, alive: false }),
            reg.records_seq()[sc.swapchain as int] == rec0[sc.swapchain as int],
            forall|j: int|
                0 <= j < nf ==> reg.records_seq()[(#[trigger] sc.framebuffers@[j]) as int]
                    == (ResourceRecord { kind: ResourceKind::Framebuffer, alive: false }),
            reg.records_seq()[sc.pipeline as int] == (ResourceRecord {
                kind: ResourceKind::Pipeline,
                alive: false,
            }),
            reg.records_seq()[sc.render_pass as int] == (ResourceRecord {
                kind: ResourceKind::RenderPass,
                alive: false,
            }),
            forall|idx: int| 0 <= idx < log_mid.len() ==> reg.log()[idx] == log_mid[idx],
            forall|j: int|
                0 <= j < v ==> reg.log()[log_mid.len() + j] == ResourceEvent::Destroyed(
                    sc.image_views@[j],
                    ResourceKind::ImageView,
                ),
        decreases nv - v,
    {
        let view = sc.image_views[v];
        reg.destroy(view);
        v = v + 1;
    }

    reg.destroy(sc.swapchain);

    proof {
        let t = old(reg).log() + destroy_trace(*sc);
        let nfi = nf as int;
        let nvi = nv as int;
        let base_len = log0.len() as int;
        assert(destroy_trace(*sc).len() == nfi + 2 + nvi + 1);
        assert forall|idx: int| 0 <= idx < reg.log().len() implies reg.log()[idx] == t[idx] by {
            if idx < base_len {
                assert(reg.log()[idx] == log0[idx]);
            } else if idx < base_len + nfi {
                let j = idx - base_len;
                assert(reg.log()[idx] == ResourceEvent::Destroyed(
                    sc.framebuffers@[j],
                    ResourceKind::Framebuffer,
                ));
            } else if idx == base_len + nfi {
                assert(reg.log()[idx] == ResourceEvent::Destroyed(
                    sc.pipeline,
                    ResourceKind::Pipeline,
                ));
            } else if idx == base_len + nfi + 1 {
                assert(reg.log()[idx] == ResourceEvent::Destroyed(
                    sc.render_pass,
                    ResourceKind::RenderPass,
                ));
            } else if idx < base_len + nfi + 2 + nvi {
                let j = idx - base_len - nfi - 2;
                assert(reg.log()[idx] == ResourceEvent::Destroyed(
                    sc.image_views@[j],
                    ResourceKind::ImageView,
                ));
            } else {
                assert(reg.log()[idx] == ResourceEvent::Destroyed(
                    sc.swapchain,
                    ResourceKind::Swapchain,
                ));
            }
        }
        assert(reg.log() =~= t);
        assert forall|id: int| sc.owns(id) implies !reg.is_live(id) by {}
    }
}

/// Tear the old generation down — dependents strictly first — and only
/// then create the new one from what the surface now reports. The caller
/// must have quiesced the device: no in-flight work may still reference
/// the old resources.
pub fn recreate_swapchain(
    reg: &mut ResourceRegistry,
    old_state: &SwapchainState,
    surface: &SurfaceDescription,
    preferred_format: SurfaceFormat,
    desired_extent: Extent2d,
) -> (r: Result<SwapchainState, SetupError>)
    requires
        surface.wf(),
        old_state.wf(old(reg)),
    ensures
        r is Err <==> surface.formats@.len() == 0,
        r is Err ==> final(reg).log() == old(reg).log() + destroy_trace(*old_state),
        r matches Ok(sc) ==> {
            &&& sc.wf(final(reg))
            &&& sc.image_count == chosen_image_count(surface.capabilities)
            &&& sc.present_mode == chosen_present_mode(surface.present_modes@)
            &&& sc.extent == chosen_extent(surface.capabilities, desired_extent)
            &&& (format_available(surface.formats@, preferred_format) ==> sc.format
                == preferred_format && !sc.format_fallback)
            &&& (!format_available(surface.formats@, preferred_format) ==> sc.format
                == surface.formats@[0] && sc.format_fallback)
            &&& final(reg).log() == old(reg).log() + destroy_trace(*old_state) + create_trace(sc)
            &&& forall|id: int| old_state.owns(id) ==> !final(reg).is_live(id)
            &&& forall|id: int|
                0 <= id < old(reg).records_seq().len() && !old_state.owns(id) ==> final(reg).records_seq()[id] == old(reg).records_seq()[id]
        },
{
    cleanup_swapchain(reg, old_state);
    let result = create_swapchain(reg, surface, preferred_format, desired_extent);
    proof {
        if result is Ok {
            let sc = result->Ok_0;
            assert(reg.log() =~= old(reg).log() + destroy_trace(*old_state) + create_trace(sc));
            assert forall|id: int| old_state.owns(id) implies !reg.is_live(id) by {}
        }
    }
    result
}

} // verus!
