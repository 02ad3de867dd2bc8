//! Choosing queue families and a physical device from plain capability
//! descriptions: each family's queue count and support flags, each
//! device's type and surface support. Scoring is a pure function over
//! those descriptions.

use vstd::prelude::*;

verus! {

/// The chosen queue family indices: one for graphics work, one for
/// presentation. They may name the same family.
#[derive(Clone, Copy, Debug, PartialEq, Eq, Structural)]
pub struct QueueFamilies {
    pub graphics: u32,
    pub presentation: u32,
}

/// What one queue family reports: how many queues it offers and what
/// work it supports against the target surface.
#[derive(Clone, Copy, Debug, PartialEq, Eq, Structural)]
pub struct QueueFamilyInfo {
    pub queue_count: u32,
    pub supports_graphics: bool,
    pub supports_presentation: bool,
}

/// A family's rank: more queues score higher. A family without queues
/// ranks zero and is never selected.
pub open spec fn family_rank(f: QueueFamilyInfo) -> u64 {
    (f.queue_count * 100) as u64
}

/// A family that graphics work can be scheduled on.
pub open spec fn graphics_candidate(f: QueueFamilyInfo) -> bool {
    f.supports_graphics && f.queue_count >= 1
}

/// A family that presentation can be scheduled on.
pub open spec fn presentation_candidate(f: QueueFamilyInfo) -> bool {
    f.supports_presentation && f.queue_count >= 1
}

/// Accumulates the best-ranked graphics and presentation families seen
/// so far.
#[derive(Clone, Copy, Debug)]
pub struct QueueFamiliesBuilder {
    pub graphics: Option<usize>,
    pub graphics_score: u64,
    pub presentation: Option<usize>,
    pub presentation_score: u64,
}

impl Default for QueueFamiliesBuilder {
    /// Nothing chosen yet; both scores at zero.
    fn default() -> (b: QueueFamiliesBuilder)
        ensures
            b.graphics is None,
            b.graphics_score == 0,
            b.presentation is None,
            b.presentation_score == 0,
    {
        QueueFamiliesBuilder {
            graphics: None,
            graphics_score: 0,
            presentation: None,
            presentation_score: 0,
        }
    }
}

impl QueueFamiliesBuilder {
    /// A family's rank, computed at run time.
    pub fn rank_family(family: &QueueFamilyInfo) -> (r: u64)
        ensures
            r == family_rank(*family),
    {
        (family.queue_count as u64) * 100
    }

    /// Take `family` as the graphics choice when it outranks the
    /// current one.
    pub fn try_graphics(&mut self, index: usize, family: &QueueFamilyInfo)
        ensures
            family_rank(*family) > old(self).graphics_score ==> final(self).graphics == Some(index)
                && final(self).graphics_score == family_rank(*family),
            family_rank(*family) <= old(self).graphics_score ==> final(self).graphics == old(
                self,
            ).graphics && final(self).graphics_score == old(self).graphics_score,
            final(self).presentation == old(self).presentation,
            final(self).presentation_score == old(self).presentation_score,
    {
        let score = Self::rank_family(family);
        if score > self.graphics_score {
            self.graphics_score = score;
            self.graphics = Some(index);
        }
    }

    /// Take `family` as the presentation choice when it outranks the
    /// current one.
    pub fn try_presentation(&mut self, index: usize, family: &QueueFamilyInfo)
        ensures
            family_rank(*family) > old(self).presentation_score ==> final(self).presentation
                == Some(index) && final(self).presentation_score == family_rank(*family),
            family_rank(*family) <= old(self).presentation_score ==> final(self).presentation
                == old(self).presentation && final(self).presentation_score == old(
                self,
            ).presentation_score,
            final(self).graphics == old(self).graphics,
            final(self).graphics_score == old(self).graphics_score,
    {
        let score = Self::rank_family(family);
        if score > self.presentation_score {
            self.presentation_score = score;
            self.presentation = Some(index);
        }
    }

    /// Whether both choices have been made.
    pub fn is_complete(&self) -> (r: bool)
        ensures
            r == (self.graphics is Some && self.presentation is Some),
    {
        self.graphics.is_some() && self.presentation.is_some()
    }

    /// The chosen pair, once both choices exist and fit the index type.
    pub fn build(&self) -> (r: Option<QueueFamilies>)
        requires
            self.graphics matches Some(g) ==> g <= u32::MAX,
            self.presentation matches Some(p) ==> p <= u32::MAX,
        ensures
            r is Some <==> (self.graphics is Some && self.presentation is Some),
            r matches Some(q) ==> self.graphics == Some(q.graphics as usize)
                && self.presentation == Some(q.presentation as usize),
    {
        match (self.graphics, self.presentation) {
            (Some(graphics), Some(presentation)) => Some(
                QueueFamilies { graphics: graphics as u32, presentation: presentation as u32 },
            ),
            _ => None,
        }
    }
}

/// Walk the reported families and pick the best-ranked graphics and
/// presentation families. Succeeds exactly when a usable family exists
/// for each role.
#[verifier::loop_isolation(false)]
pub fn find_queue_families(families: &Vec<QueueFamilyInfo>) -> (r: Option<QueueFamilies>)
    requires
        families@.len() <= u32::MAX,
    ensures
        r is Some <==> ((exists|i: int|
            0 <= i < families@.len() && graphics_candidate(#[trigger] families@[i])) && (
        exists|i: int|
            0 <= i < families@.len() && presentation_candidate(#[trigger] families@[i]))),
        r matches Some(q) ==> {
            &&& q.graphics < families@.len()
            &&& graphics_candidate(families@[q.graphics as int])
            &&& q.presentation < families@.len()
            &&& presentation_candidate(families@[q.presentation as int])
        },
{
    let mut builder = QueueFamiliesBuilder::default();
    let mut i: usize = 0;
    while i < families.len()
        invariant
            i <= families@.len(),
            builder.graphics is None ==> builder.graphics_score == 0 && (forall|j: int|
                0 <= j < i ==> !graphics_candidate(#[trigger] families@[j])),
            builder.graphics matches Some(g) ==> g < i && graphics_candidate(families@[g as int])
                && builder.graphics_score > 0,
            builder.presentation is None ==> builder.presentation_score == 0 && (forall|j: int|
                0 <= j < i ==> !presentation_candidate(#[trigger] families@[j])),
            builder.presentation matches Some(p) ==> p < i && presentation_candidate(
                families@[p as int],
            ) && builder.presentation_score > 0,
        decreases families@.len() - i,
    {
        let family = families[i];
        if family.supports_graphics {
            builder.try_graphics(i, &family);
        }
        if family.queue_count > 0 && family.supports_presentation {
            builder.try_presentation(i, &family);
        }
        i = i + 1;
    }
    builder.build()
}

/// How swapchain images are shared between queues.
#[derive(Clone, Copy, Debug, PartialEq, Eq, Structural)]
pub enum SharingMode {
    /// One queue family owns the images.
    Exclusive,
    /// The graphics and presentation families share them.
    Concurrent,
}

/// The sharing policy, decided once at setup: when the graphics and
/// presentation work land on the same family the images stay exclusive
/// to it, otherwise the two families share them.
pub fn choose_sharing_mode(families: &QueueFamilies) -> (m: SharingMode)
    ensures
        m == (if families.graphics == families.presentation {
            SharingMode::Exclusive
        } else {
            SharingMode::Concurrent
        }),
{
    if families.graphics == families.presentation {
        SharingMode::Exclusive
    } else {
        SharingMode::Concurrent
    }
}

/// The broad kinds a physical device reports itself as.
#[derive(Clone, Copy, Debug, PartialEq, Eq, Structural)]
pub enum DeviceType {
    DiscreteGpu,
    VirtualGpu,
    IntegratedGpu,
    Cpu,
    Other,
}

/// What one physical device reports: its type, its queue families, and
/// whether it supports the required extensions and the surface.
#[derive(Debug)]
pub struct PhysicalDeviceInfo {
    pub device_type: DeviceType,
    pub queue_families: Vec<QueueFamilyInfo>,
    pub extensions_supported: bool,
    pub format_count: usize,
    pub present_mode_count: usize,
}

/// A device's score: dedicated hardware over everything else.
pub open spec fn device_score(t: DeviceType) -> u32 {
    match t {
        DeviceType::DiscreteGpu => 1000,
        DeviceType::VirtualGpu => 500,
        DeviceType::IntegratedGpu => 100,
        DeviceType::Cpu => 0,
        DeviceType::Other => 0,
    }
}

/// A device the renderer can run on: usable queue families, the
/// required extensions, and at least one format and presentation mode.
pub open spec fn device_suitable(d: PhysicalDeviceInfo) -> bool {
    &&& exists|i: int|
        0 <= i < d.queue_families@.len() && graphics_candidate(#[trigger] d.queue_families@[i])
    &&& exists|i: int|
        0 <= i < d.queue_families@.len() && presentation_candidate(#[trigger] d.queue_families@[i])
    &&& d.extensions_supported
    &&& d.format_count > 0
    &&& d.present_mode_count > 0
}

/// A device's score, computed at run time.
pub fn score_device(device_type: DeviceType) -> (s: u32)
    ensures
        s == device_score(device_type),
{
    match device_type {
        DeviceType::DiscreteGpu => 1000,
        DeviceType::VirtualGpu => 500,
        DeviceType::IntegratedGpu => 100,
        DeviceType::Cpu => 0,
        DeviceType::Other => 0,
    }
}

/// The device's score when it is suitable, and nothing otherwise.
pub fn check_suitability_and_score_device(device: &PhysicalDeviceInfo) -> (r: Option<u32>)
    requires
        device.queue_families@.len() <= u32::MAX,
    ensures
        r is Some <==> device_suitable(*device),
        r matches Some(s) ==> s == device_score(device.device_type),
{
    let families_ok = find_queue_families(&device.queue_families).is_some();
    let swapchain_ok = if device.extensions_supported {
        device.format_count > 0 && device.present_mode_count > 0
    } else {
        false
    };
    if families_ok && device.extensions_supported && swapchain_ok {
        Some(score_device(device.device_type))
    } else {
        None
    }
}

/// Pick the highest-scoring suitable device; among equal scores the
/// last one wins. `None` exactly when no device is suitable, which is
/// fatal at startup.
#[verifier::loop_isolation(false)]
pub fn pick_physical_device(devices: &Vec<PhysicalDeviceInfo>) -> (r: Option<usize>)
    requires
        forall|i: int|
            0 <= i < devices@.len() ==> (#[trigger] devices@[i]).queue_families@.len() <= u32::MAX,
    ensures
        r is None <==> (forall|i: int|
            0 <= i < devices@.len() ==> !device_suitable(#[trigger] devices@[i])),
        r matches Some(best) ==> {
            &&& best < devices@.len()
            &&& device_suitable(devices@[best as int])
            &&& forall|i: int|
                0 <= i < devices@.len() && device_suitable(#[trigger] devices@[i]) ==> device_score(
                    devices@[i].device_type,
                ) <= device_score(devices@[best as int].device_type)
            &&& forall|i: int|
                best < i < devices@.len() && device_suitable(#[trigger] devices@[i])
                    ==> device_score(devices@[i].device_type) < device_score(
                    devices@[best as int].device_type,
                )
        },
{
    let mut best: Option<usize> = None;
    let mut best_score: u32 = 0;
    let mut i: usize = 0;
    while i < devices.len()
        invariant
            i <= devices@.len(),
            best is None ==> (forall|j: int|
                0 <= j < i ==> !device_suitable(#[trigger] devices@[j])),
            best matches Some(b) ==> {
                &&& b < i
                &&& device_suitable(devices@[b as int])
                &&& best_score == device_score(devices@[b as int].device_type)
                &&& forall|j: int|
                    0 <= j < i && device_suitable(#[trigger] devices@[j]) ==> device_score(
                        devices@[j].device_type,
                    ) <= best_score
                &&& forall|j: int|
                    b < j < i && device_suitable(#[trigger] devices@[j]) ==> device_score(
                        devices@[j].device_type,
                    ) < best_score
            },
        decreases devices@.len() - i,
    {
        match check_suitability_and_score_device(&devices[i]) {
            Some(score) => {
                if best.is_none() || score >= best_score {
                    best = Some(i);
                    best_score = score;
                }
            },
            None => {},
        }
        i = i + 1;
    }
    best
}

} // verus!
