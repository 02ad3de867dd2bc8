//! The render-loop core: one frame at a time, it waits on the current
//! slot's guard, interprets what the device reported for acquire and
//! present, writes the acquired image's per-frame uniform buffer, and
//! recreates the swapchain whenever the surface goes stale.
//!
//! The device's answers arrive as plain values — an image index, a stale
//! signal, an error — and the contracts state what the renderer does for
//! every possible answer: staleness is the one recoverable condition,
//! every other failure is fatal.

use vstd::prelude::*;

use crate::frame_sync::FrameSync;
use crate::frame_sync::SlotEvent;
use crate::frame_sync::SlotState;
use crate::registry::ResourceRegistry;
use crate::selection::Extent2d;
use crate::selection::SurfaceDescription;
use crate::selection::SurfaceFormat;
use crate::selection::chosen_extent;
use crate::selection::chosen_image_count;
use crate::selection::chosen_present_mode;
use crate::selection::format_available;
use crate::swapchain::SwapchainState;
use crate::swapchain::cleanup_swapchain;
use crate::swapchain::create_swapchain;
use crate::swapchain::create_trace;
use crate::swapchain::destroy_trace;
use crate::swapchain::recreate_swapchain;
use crate::upload::BufferAllocator;

verus! {

/// Configuration fixed at construction: no process-wide state.
#[derive(Clone, Copy, Debug)]
pub struct RendererConfig {
    /// How many frame slots cycle round-robin; at least one.
    pub frame_slots: usize,
    /// The extent to ask for when the surface leaves the choice open.
    pub desired_extent: Extent2d,
    /// The format and color space to prefer during negotiation.
    pub preferred_format: SurfaceFormat,
    /// The byte size of one per-frame uniform buffer.
    pub uniform_buffer_size: usize,
}

/// What the device reported for an acquire request.
#[derive(Clone, Copy, Debug, PartialEq, Eq, Structural)]
pub enum AcquireOutcome {
    /// The next presentable image's index.
    Image(u32),
    /// The swapchain is stale; recoverable by recreating it.
    OutOfDate,
    /// Any other failure; fatal.
    DeviceError,
}

/// What the device reported for a present request.
#[derive(Clone, Copy, Debug, PartialEq, Eq, Structural)]
pub enum PresentOutcome {
    /// The image was queued for presentation.
    Presented,
    /// The swapchain is stale; recoverable by recreating it.
    OutOfDate,
    /// Presentation succeeded but the swapchain no longer matches the
    /// surface well; recoverable by recreating it.
    Suboptimal,
    /// Any other failure; fatal.
    DeviceError,
}

/// The fatal failures of setup and of the frame loop.
#[derive(Clone, Copy, Debug, PartialEq, Eq, Structural)]
pub enum RenderError {
    /// The surface offers no format at all.
    NoSurfaceFormat,
    /// Acquire failed with something other than a stale signal, or the
    /// device handed back an image index the swapchain does not have.
    AcquireFailed,
    /// Present failed with something other than a stale signal.
    PresentFailed,
}

/// What one call of `draw_frame` did.
#[derive(Clone, Copy, Debug, PartialEq, Eq)]
pub struct FrameReport {
    /// The frame slot this frame used.
    pub slot: usize,
    /// The image that was drawn and presented, when one was acquired.
    pub image_index: Option<u32>,
    /// Whether the swapchain was recreated during this call.
    pub recreated: bool,
    /// Whether work was submitted and presentation requested.
    pub presented: bool,
}

/// Whether present reported a stale or suboptimal swapchain.
pub open spec fn present_is_stale(p: PresentOutcome) -> bool {
    p is OutOfDate || p is Suboptimal
}

/// The swapchain a negotiation against `surface` under `config` yields.
pub open spec fn swapchain_matches(
    sc: SwapchainState,
    surface: SurfaceDescription,
    config: RendererConfig,
) -> bool {
    &&& sc.image_count == chosen_image_count(surface.capabilities)
    &&& sc.present_mode == chosen_present_mode(surface.present_modes@)
    &&& sc.extent == chosen_extent(surface.capabilities, config.desired_extent)
    &&& (format_available(surface.formats@, config.preferred_format) ==> sc.format
        == config.preferred_format && !sc.format_fallback)
    &&& (!format_available(surface.formats@, config.preferred_format) && surface.formats@.len() > 0
        ==> sc.format == surface.formats@[0] && sc.format_fallback)
}

/// The image count a frame will run against: the current one, or the
/// freshly negotiated one when a recreation is already pending.
pub open spec fn effective_image_count(
    s: Renderer,
    surface: SurfaceDescription,
) -> u32 {
    if s.needs_recreate {
        chosen_image_count(surface.capabilities)
    } else {
        s.swapchain.image_count
    }
}

/// The fatal error one call of `draw_frame` returns, if any, decided
/// entirely by the state and the device's answers.
pub open spec fn draw_frame_error(
    s: Renderer,
    acquire: AcquireOutcome,
    present: PresentOutcome,
    surface: SurfaceDescription,
) -> Option<RenderError> {
    if s.needs_recreate && surface.formats@.len() == 0 {
        Some(RenderError::NoSurfaceFormat)
    } else if acquire is DeviceError {
        Some(RenderError::AcquireFailed)
    } else if acquire matches AcquireOutcome::Image(i) && i >= effective_image_count(s, surface) {
        Some(RenderError::AcquireFailed)
    } else if acquire is OutOfDate && surface.formats@.len() == 0 {
        Some(RenderError::NoSurfaceFormat)
    } else if acquire matches AcquireOutcome::Image(i) && present_is_stale(present)
        && surface.formats@.len() == 0 {
        Some(RenderError::NoSurfaceFormat)
    } else if acquire matches AcquireOutcome::Image(i) && present is DeviceError {
        Some(RenderError::PresentFailed)
    } else {
        None
    }
}

/// The render-loop owner: frame slots, the resource registry, the buffer
/// store, the current swapchain generation and its per-image uniform
/// buffers. Single-threaded by construction; the GPU's side shows up
/// only through slot guards and the device outcomes handed to
/// `draw_frame`.
pub struct Renderer {
    pub frame_sync: FrameSync,
    pub registry: ResourceRegistry,
    pub buffers: BufferAllocator,
    pub swapchain: SwapchainState,
    pub uniform_buffers: Vec<usize>,
    pub config: RendererConfig,
    pub needs_recreate: bool,
    pub frames_submitted: u64,
    pub recreate_count: u64,
}

impl Renderer {
    /// The renderer's invariant, kept across every operation.
    pub open spec fn wf(&self) -> bool {
        &&& self.frame_sync.wf()
        &&& self.frame_sync.slot_count() == self.config.frame_slots
        &&& forall|k: int|
            0 <= k < self.frame_sync.slot_count() ==> !(self.frame_sync.slot_states()[k]
                is Recording)
        &&& self.buffers.wf()
        &&& self.swapchain.wf(&self.registry)
        &&& self.uniform_buffers@.len() == self.swapchain.image_count as int
        &&& forall|i: int, j: int|
            0 <= i < j < self.uniform_buffers@.len() ==> self.uniform_buffers@[i]
                < self.uniform_buffers@[j]
        &&& forall|i: int|
            0 <= i < self.uniform_buffers@.len() ==> self.buffers.is_live(
                (#[trigger] self.uniform_buffers@[i]) as int,
            ) && self.buffers.model()[self.uniform_buffers@[i] as int].host_visible
                && self.buffers.model()[self.uniform_buffers@[i] as int].data.len()
                == self.config.uniform_buffer_size
    }

    /// Build the renderer: frame slots all signaled, a fresh registry
    /// and buffer store, one negotiated swapchain generation, and one
    /// uniform buffer per swapchain image.
    pub fn new(config: RendererConfig, surface: &SurfaceDescription) -> (r: Result<
        Renderer,
        RenderError,
    >)
        requires
            surface.wf(),
            config.frame_slots >= 1,
        ensures
            r is Err <==> surface.formats@.len() == 0,
            r matches Ok(ren) ==> {
                &&& ren.wf()
                &&& ren.config == config
                &&& ren.frames_submitted == 0
                &&& ren.recreate_count == 0
                &&& !ren.needs_recreate
                &&& ren.frame_sync.slot_count() == config.frame_slots
                &&& ren.frame_sync.current_spec() == 0
                &&& ren.frame_sync.log() == Seq::<SlotEvent>::empty()
                &&& swapchain_matches(ren.swapchain, *surface, config)
                &&& ren.registry.log() == create_trace(ren.swapchain)
            },
    {
        let frame_sync = FrameSync::new(config.frame_slots);
        let mut registry = ResourceRegistry::new();
        let mut buffers = BufferAllocator::new();
        let swapchain = match create_swapchain(
            &mut registry,
            surface,
            config.preferred_format,
            config.desired_extent,
        ) {
            Ok(sc) => sc,
            Err(_) => {
                return Err(RenderError::NoSurfaceFormat);
            },
        };
        proof {
            crate::upload::lemma_count_live_bounds(buffers.model());
        }
        let uniform_buffers = buffers.create_uniform_buffers(
            config.uniform_buffer_size,
            swapchain.image_count as usize,
        );
        proof {
            assert(registry.log() =~= create_trace(swapchain));
        }
        Ok(
            Renderer {
                frame_sync,
                registry,
                buffers,
                swapchain,
                uniform_buffers,
                config,
                needs_recreate: false,
                frames_submitted: 0,
                recreate_count: 0,
            },
        )
    }

    /// Mark the swapchain as needing recreation on the next frame, as
    /// when the window was resized to `new_extent`.
    pub fn notify_resize(&mut self, new_extent: Extent2d)
        requires
            old(self).wf(),
        ensures
            final(self).wf(),
            final(self).needs_recreate,
            final(self).config.desired_extent == new_extent,
            final(self).config.frame_slots == old(self).config.frame_slots,
            final(self).config.preferred_format == old(self).config.preferred_format,
            final(self).config.uniform_buffer_size == old(self).config.uniform_buffer_size,
            final(self).frame_sync == old(self).frame_sync,
            final(self).registry == old(self).registry,
            final(self).buffers == old(self).buffers,
            final(self).swapchain == old(self).swapchain,
            final(self).uniform_buffers == old(self).uniform_buffers,
            final(self).frames_submitted == old(self).frames_submitted,
            final(self).recreate_count == old(self).recreate_count,
    {
        self.needs_recreate = true;
        self.config.desired_extent = new_extent;
    }

    /// Recreate the swapchain: wait until the device is idle, destroy
    /// the per-image uniform buffers and every resource of the old
    /// generation — dependents strictly first — and only then build the
    /// new generation and its uniform buffers from what the surface now
    /// reports. When the surface offers no format, nothing is changed
    /// and the fatal setup error is returned.
    pub fn recreate_swapchain(&mut self, surface: &SurfaceDescription) -> (r: Result<
        (),
        RenderError,
    >)
        requires
            old(self).wf(),
            surface.wf(),
            old(self).recreate_count < u64::MAX,
            old(self).buffers.live_counter() + chosen_image_count(surface.capabilities)
                <= usize::MAX,
        ensures
            final(self).wf(),
            r is Err <==> surface.formats@.len() == 0,
            r matches Err(e) ==> e is NoSurfaceFormat,
            final(self).config == old(self).config,
            final(self).frames_submitted == old(self).frames_submitted,
            final(self).frame_sync.log() == old(self).frame_sync.log(),
            final(self).frame_sync.current_spec() == old(self).frame_sync.current_spec(),
            final(self).frame_sync.slot_count() == old(self).frame_sync.slot_count(),
            r is Err ==> *final(self) == *old(self),
            r is Ok ==> {
                &&& final(self).recreate_count == old(self).recreate_count + 1
                &&& final(self).buffers.live_counter() == old(self).buffers.live_counter() - old(
                    self,
                ).swapchain.image_count + chosen_image_count(surface.capabilities)
                &&& !final(self).needs_recreate
                &&& swapchain_matches(final(self).swapchain, *surface, old(self).config)
                &&& final(self).registry.log() == old(self).registry.log() + destroy_trace(
                    old(self).swapchain,
                ) + create_trace(final(self).swapchain)
                &&& forall|k: int|
                    0 <= k < final(self).frame_sync.slot_count() ==> final(self).frame_sync.slot_states()[k] is Ready
            },
    {
        if surface.formats.len() == 0 {
            return Err(RenderError::NoSurfaceFormat);
        }
        self.frame_sync.wait_idle();
        self.buffers.free_all(&self.uniform_buffers);
        let new_state = match recreate_swapchain(
            &mut self.registry,
            &self.swapchain,
            surface,
            self.config.preferred_format,
            self.config.desired_extent,
        ) {
            Ok(sc) => sc,
            Err(_) => {
                proof {
                    assert(false);
                }
                return Err(RenderError::NoSurfaceFormat);
            },
        };
        self.swapchain = new_state;
        proof {
            crate::upload::lemma_count_live_bounds(self.buffers.model());
        }
        self.uniform_buffers = self.buffers.create_uniform_buffers(
            self.config.uniform_buffer_size,
            self.swapchain.image_count as usize,
        );
        self.recreate_count = self.recreate_count + 1;
        self.needs_recreate = false;
        Ok(())
    }

    /// Full shutdown: wait for every in-flight frame to complete, then
    /// destroy the per-image uniform buffers and the whole swapchain
    /// generation, dependents strictly first. The frame slots die with
    /// the renderer itself; the registry and the buffer store are
    /// handed back so the teardown can be inspected.
    pub fn destroy(self) -> (r: (ResourceRegistry, BufferAllocator))
        requires
            self.wf(),
        ensures
            ({
                let (reg, buffers) = r;
                &&& reg.log() == self.registry.log() + destroy_trace(self.swapchain)
                &&& forall|id: int| self.swapchain.owns(id) ==> !reg.is_live(id)
                &&& buffers.wf()
                &&& buffers.live_counter() == self.buffers.live_counter()
                    - self.swapchain.image_count
                &&& forall|i: int|
                    0 <= i < self.uniform_buffers@.len() ==> !buffers.is_live(
                        (#[trigger] self.uniform_buffers@[i]) as int,
                    )
            }),
    {
        let mut this = self;
        this.frame_sync.wait_idle();
        this.buffers.free_all(&this.uniform_buffers);
        cleanup_swapchain(&mut this.registry, &this.swapchain);
        (this.registry, this.buffers)
    }

    /// Draw one frame. In order: perform any pending recreation; block —
    /// unbounded — on the current slot's guard and claim the slot;
    /// interpret the device's acquire answer, recreating and retiring
    /// the frame on a stale signal; write the acquired image's uniform
    /// buffer; submit work reusing the slot; interpret the present
    /// answer, recreating on a stale or suboptimal signal; and advance
    /// the round-robin index. Staleness is the single recoverable
    /// condition; every other device failure is returned as fatal.
    pub fn draw_frame(
        &mut self,
        acquire: AcquireOutcome,
        present: PresentOutcome,
        surface: &SurfaceDescription,
        frame_data: &Vec<u8>,
    ) -> (r: Result<FrameReport, RenderError>)
        requires
            old(self).wf(),
            surface.wf(),
            frame_data@.len() == old(self).config.uniform_buffer_size,
            old(self).frames_submitted < u64::MAX,
            old(self).recreate_count + 2 <= u64::MAX,
            old(self).buffers.live_counter() + 2 * chosen_image_count(surface.capabilities)
                <= usize::MAX,
        ensures
            final(self).wf(),
            final(self).config == old(self).config,
            (draw_frame_error(*old(self), acquire, present, *surface) matches Some(e) ==> r
                == Err::<FrameReport, RenderError>(e)),
            (draw_frame_error(*old(self), acquire, present, *surface) is None ==> r is Ok),
            r matches Ok(rep) ==> {
                &&& rep.slot == old(self).frame_sync.current_spec()
                &&& !final(self).needs_recreate
                &&& (acquire is OutOfDate ==> {
                    &&& rep.image_index is None
                    &&& rep.recreated
                    &&& !rep.presented
                    &&& swapchain_matches(final(self).swapchain, *surface, old(self).config)
                    &&& final(self).frames_submitted == old(self).frames_submitted
                    &&& final(self).frame_sync.current_spec() == old(self).frame_sync.current_spec()
                    &&& final(self).frame_sync.log() == old(self).frame_sync.log().push(
                        SlotEvent::Waited(rep.slot),
                    )
                    &&& final(self).recreate_count == old(self).recreate_count + (
                    if old(self).needs_recreate {
                        2int
                    } else {
                        1int
                    })
                })
                &&& (acquire matches AcquireOutcome::Image(i) ==> {
                    &&& rep.image_index == Some(i)
                    &&& rep.presented
                    &&& rep.recreated == present_is_stale(present)
                    &&& final(self).frames_submitted == old(self).frames_submitted + 1
                    &&& final(self).frame_sync.current_spec() == (old(self).frame_sync.current_spec() + 1) % old(self).frame_sync.slot_count()
                    &&& final(self).frame_sync.log() == old(self).frame_sync.log().push(
                        SlotEvent::Waited(rep.slot),
                    ).push(SlotEvent::Submitted(rep.slot))
                    &&& final(self).recreate_count == old(self).recreate_count + (
                    if old(self).needs_recreate {
                        1int
                    } else {
                        0int
                    }) + (if present_is_stale(present) {
                        1int
                    } else {
                        0int
                    })
                    &&& (!rep.recreated && !old(self).needs_recreate ==> final(self).swapchain
                        == old(self).swapchain)
                    &&& (!rep.recreated ==> final(self).buffers.model()[final(self).uniform_buffers@[i as int] as int].data == frame_data@)
                    &&& ((rep.recreated || old(self).needs_recreate) ==> swapchain_matches(
                        final(self).swapchain,
                        *surface,
                        old(self).config,
                    ))
                })
            },
            r matches Err(e) ==> {
                &&& (e is AcquireFailed ==> final(self).frames_submitted == old(self).frames_submitted && final(self).frame_sync.current_spec() == old(self).frame_sync.current_spec())
                &&& (e is PresentFailed ==> final(self).frames_submitted == old(self).frames_submitted + 1)
                &&& (e is NoSurfaceFormat ==> final(self).frame_sync.current_spec() == old(self).frame_sync.current_spec())
            },
    {
        if self.needs_recreate {
            match self.recreate_swapchain(surface) {
                Ok(()) => {},
                Err(e) => {
                    return Err(e);
                },
            }
        }

        let slot = self.frame_sync.current_slot();
        let state = self.frame_sync.slot_state(slot);
        if matches!(state, SlotState::InFlight) {
            // The unbounded fence wait: submitted work runs to
            // completion, so the guard ends up signaled.
            self.frame_sync.signal(slot);
        }
        let claimed = self.frame_sync.begin_frame();
        proof {
            assert(claimed == slot);
        }

        match acquire {
            AcquireOutcome::OutOfDate => {
                self.frame_sync.abort_frame(slot);
                match self.recreate_swapchain(surface) {
                    Ok(()) => {},
                    Err(e) => {
                        return Err(e);
                    },
                }
                Ok(FrameReport { slot, image_index: None, recreated: true, presented: false })
            },
            AcquireOutcome::DeviceError => {
                self.frame_sync.abort_frame(slot);
                Err(RenderError::AcquireFailed)
            },
            AcquireOutcome::Image(image_index) => {
                if image_index >= self.swapchain.image_count {
                    self.frame_sync.abort_frame(slot);
                    return Err(RenderError::AcquireFailed);
                }
                let uniform_buffer = self.uniform_buffers[image_index as usize];
                self.buffers.write(uniform_buffer, frame_data);
                self.frame_sync.submit(slot);
                self.frames_submitted = self.frames_submitted + 1;

                let mut recreated = false;
                match present {
                    PresentOutcome::Presented => {},
                    PresentOutcome::OutOfDate | PresentOutcome::Suboptimal => {
                        match self.recreate_swapchain(surface) {
                            Ok(()) => {},
                            Err(e) => {
                                return Err(e);
                            },
                        }
                        recreated = true;
                    },
                    PresentOutcome::DeviceError => {
                        return Err(RenderError::PresentFailed);
                    },
                }
                self.frame_sync.end_frame();
                Ok(
                    FrameReport {
                        slot,
                        image_index: Some(image_index),
                        recreated,
                        presented: true,
                    },
                )
            },
        }
    }
}

} // verus!
