//! An alternative queue-family choice that ranks families by their
//! spare queues and timestamp precision. Families arrive as plain
//! descriptions carrying their own identifier, so the caller decides
//! how they were enumerated.

use vstd::prelude::*;

verus! {

/// The chosen queue family identifiers: one for graphics work, one for
/// presentation.
#[derive(Clone, Copy, Debug, PartialEq, Eq, Structural)]
pub struct QueueFamilyId {
    pub graphics: u32,
    pub presentation: u32,
}

impl QueueFamilyId {
    /// Pair the two identifiers.
    pub fn new(graphics: u32, presentation: u32) -> (q: QueueFamilyId)
        ensures
            q.graphics == graphics,
            q.presentation == presentation,
    {
        QueueFamilyId { graphics, presentation }
    }
}

/// What one queue family reports: its identifier, how many queues it
/// offers — always at least one — its timestamp precision, and what it
/// supports against the target surface.
#[derive(Clone, Copy, Debug, PartialEq, Eq)]
pub struct QueueFamilyDescription {
    pub id: u32,
    pub queues_count: u32,
    pub timestamp_valid_bits: Option<u32>,
    pub supports_graphics: bool,
    pub surface_supported: bool,
}

/// A family's rank: each queue beyond the first is worth a hundred
/// points, and the timestamp precision breaks ties.
pub open spec fn queue_rank(f: QueueFamilyDescription) -> u64 {
    if f.queues_count == 0 {
        0
    } else {
        ((f.queues_count - 1) * 100 + match f.timestamp_valid_bits {
            Some(bits) => bits as int,
            None => 0,
        }) as u64
    }
}

/// Accumulates the best-ranked graphics and presentation families seen
/// so far.
#[derive(Clone, Copy, Debug)]
pub struct QueueFamilyIdBuilder {
    pub graphics: Option<u32>,
    pub graphics_score: u64,
    pub presentation: Option<u32>,
    pub presentation_score: u64,
}

impl QueueFamilyIdBuilder {
    /// Nothing chosen yet; both scores at zero.
    pub fn new() -> (b: QueueFamilyIdBuilder)
        ensures
            b.graphics is None,
            b.graphics_score == 0,
            b.presentation is None,
            b.presentation_score == 0,
    {
        QueueFamilyIdBuilder {
            graphics: None,
            graphics_score: 0,
            presentation: None,
            presentation_score: 0,
        }
    }

    /// A family's rank, computed at run time.
    pub fn rank_queue(family: &QueueFamilyDescription) -> (r: u64)
        requires
            family.queues_count >= 1,
        ensures
            r == queue_rank(*family),
    {
        let mut score: u64 = ((family.queues_count - 1) as u64) * 100;
        match family.timestamp_valid_bits {
            Some(bits) => {
                score = score + bits as u64;
            },
            None => {},
        }
        score
    }

    /// Take `family` as the graphics choice when it outranks the
    /// current one.
    pub fn try_set_graphics(&mut self, family: &QueueFamilyDescription)
        requires
            family.queues_count >= 1,
        ensures
            queue_rank(*family) > old(self).graphics_score ==> final(self).graphics == Some(
                family.id,
            ) && final(self).graphics_score == queue_rank(*family),
            queue_rank(*family) <= old(self).graphics_score ==> final(self).graphics == old(
                self,
            ).graphics && final(self).graphics_score == old(self).graphics_score,
            final(self).presentation == old(self).presentation,
            final(self).presentation_score == old(self).presentation_score,
    {
        let score = Self::rank_queue(family);
        if score > self.graphics_score {
            self.graphics_score = score;
            self.graphics = Some(family.id);
        }
    }

    /// Take `family` as the presentation choice when it outranks the
    /// current one.
    pub fn try_set_presentation(&mut self, family: &QueueFamilyDescription)
        requires
            family.queues_count >= 1,
        ensures
            queue_rank(*family) > old(self).presentation_score ==> final(self).presentation
                == Some(family.id) && final(self).presentation_score == queue_rank(*family),
            queue_rank(*family) <= old(self).presentation_score ==> final(self).presentation
                == old(self).presentation && final(self).presentation_score == old(
                self,
            ).presentation_score,
            final(self).graphics == old(self).graphics,
            final(self).graphics_score == old(self).graphics_score,
    {
        let score = Self::rank_queue(family);
        if score > self.presentation_score {
            self.presentation_score = score;
            self.presentation = Some(family.id);
        }
    }

    /// Whether both choices have been made.
    pub fn is_complete(&self) -> (r: bool)
        ensures
            r == (self.graphics is Some && self.presentation is Some),
    {
        self.graphics.is_some() && self.presentation.is_some()
    }
}

/// A family that the graphics choice can ever take: it must outrank a
/// zero score.
pub open spec fn graphics_choice(f: QueueFamilyDescription) -> bool {
    f.supports_graphics && queue_rank(f) > 0
}

/// A family that the presentation choice can ever take.
pub open spec fn presentation_choice(f: QueueFamilyDescription) -> bool {
    f.surface_supported && queue_rank(f) > 0
}

/// Walk the families and pick the best-ranked identifiers for graphics
/// and presentation. Succeeds exactly when a family with a positive
/// rank exists for each role.
#[verifier::loop_isolation(false)]
pub fn find_queue_families(families: &Vec<QueueFamilyDescription>) -> (r: Option<QueueFamilyId>)
    requires
        forall|i: int| 0 <= i < families@.len() ==> (#[trigger] families@[i]).queues_count >= 1,
    ensures
        r is Some <==> ((exists|i: int|
            0 <= i < families@.len() && graphics_choice(#[trigger] families@[i])) && (exists|i: int|
            0 <= i < families@.len() && presentation_choice(#[trigger] families@[i]))),
        r matches Some(q) ==> {
            &&& exists|i: int|
                0 <= i < families@.len() && (#[trigger] families@[i]).id == q.graphics
                    && graphics_choice(families@[i])
            &&& exists|i: int|
                0 <= i < families@.len() && (#[trigger] families@[i]).id == q.presentation
                    && presentation_choice(families@[i])
        },
{
    let mut builder = QueueFamilyIdBuilder::new();
    let mut i: usize = 0;
    while i < families.len()
        invariant
            i <= families@.len(),
            builder.graphics is None ==> builder.graphics_score == 0 && (forall|j: int|
                0 <= j < i ==> !graphics_choice(#[trigger] families@[j])),
            builder.graphics matches Some(g) ==> builder.graphics_score > 0 && (exists|j: int|
                0 <= j < i && (#[trigger] families@[j]).id == g && graphics_choice(families@[j])),
            builder.presentation is None ==> builder.presentation_score == 0 && (forall|j: int|
                0 <= j < i ==> !presentation_choice(#[trigger] families@[j])),
            builder.presentation matches Some(p) ==> builder.presentation_score > 0 && (
            exists|j: int|
                0 <= j < i && (#[trigger] families@[j]).id == p && presentation_choice(
                    families@[j],
                )),
        decreases families@.len() - i,
    {
        let family = families[i];
        if family.supports_graphics {
            builder.try_set_graphics(&family);
        }
        if family.surface_supported {
            builder.try_set_presentation(&family);
        }
        i = i + 1;
    }
    match (builder.graphics, builder.presentation) {
        (Some(graphics), Some(presentation)) => Some(QueueFamilyId::new(graphics, presentation)),
        _ => None,
    }
}

} // verus!
