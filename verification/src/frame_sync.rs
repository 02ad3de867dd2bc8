//! In-flight frame tracking: a fixed ring of frame slots, each guarded by
//! a fence-like signal that must be observed signaled before the slot's
//! resources are reused.
//!
//! Every wait and every submission is appended to an event log, and the
//! manager's invariant proves the reuse rule over that log: two
//! submissions on the same slot always have a wait on that slot between
//! them.

use vstd::prelude::*;

verus! {

/// The lifecycle of one frame slot. The guard signal is the state bit:
/// `Ready` means signaled, `InFlight` means submitted and not yet
/// signaled; `Recording` is the window in which the CPU owns the slot,
/// after the guard was observed signaled and cleared but before work is
/// submitted.
#[derive(Clone, Copy, Debug, PartialEq, Eq, Structural)]
pub enum SlotState {
    Ready,
    Recording,
    InFlight,
}

/// One entry of the synchronization log.
#[derive(Clone, Copy, Debug, PartialEq, Eq, Structural)]
pub enum SlotEvent {
    /// The slot's guard was observed signaled and cleared for reuse.
    Waited(usize),
    /// Work reusing the slot's resources was submitted.
    Submitted(usize),
}

/// Whether `e` is a wait on slot `k`.
pub open spec fn is_waited(e: SlotEvent, k: int) -> bool {
    match e {
        SlotEvent::Waited(s) => s == k,
        SlotEvent::Submitted(_) => false,
    }
}

/// Whether `e` is a submission on slot `k`.
pub open spec fn is_submitted(e: SlotEvent, k: int) -> bool {
    match e {
        SlotEvent::Waited(_) => false,
        SlotEvent::Submitted(s) => s == k,
    }
}

/// Position `m` of `log` is a wait on slot `k` with no later submission
/// on `k`.
pub open spec fn armed_at(log: Seq<SlotEvent>, k: int, m: int) -> bool {
    &&& 0 <= m < log.len()
    &&& is_waited(log[m], k)
    &&& forall|j: int| m < j < log.len() ==> !is_submitted(log[j], k)
}

/// Slot `k` has been waited on since it was last submitted, so a new
/// submission on it is permitted.
pub open spec fn armed(log: Seq<SlotEvent>, k: int) -> bool {
    exists|m: int| armed_at(log, k, m)
}

/// Any two submissions on the same slot have a wait on that slot
/// strictly between them.
pub open spec fn submits_gated(log: Seq<SlotEvent>) -> bool {
    forall|i: int, j: int, k: int|
        #![trigger is_submitted(log[i], k), is_submitted(log[j], k)]
        0 <= i < j < log.len() && is_submitted(log[i], k) && is_submitted(log[j], k)
            ==> exists|m: int| i < m < j && is_waited(log[m], k)
}

/// The frame/sync manager: `n` slots cycling round-robin, with the log
/// of every wait and submission.
pub struct FrameSync {
    slots: Vec<SlotState>,
    current: usize,
    events: Vec<SlotEvent>,
}

impl FrameSync {
    /// The state of every slot.
    pub closed spec fn slot_states(&self) -> Seq<SlotState> {
        self.slots@
    }

    /// The index the next frame will use.
    pub closed spec fn current_spec(&self) -> int {
        self.current as int
    }

    /// Every wait and submission so far, in order.
    pub closed spec fn log(&self) -> Seq<SlotEvent> {
        self.events@
    }

    /// The configured number of slots.
    pub open spec fn slot_count(&self) -> int {
        self.slot_states().len() as int
    }

    /// The manager's invariant: the index is in range and the log keeps
    /// the reuse rule, with every recording slot armed by a wait.
    pub open spec fn wf(&self) -> bool {
        &&& self.slot_count() >= 1
        &&& 0 <= self.current_spec() < self.slot_count()
        &&& submits_gated(self.log())
        &&& forall|k: int|
            0 <= k < self.slot_count() && self.slot_states()[k] is Recording ==> armed(
                self.log(),
                k,
            )
    }

    /// Create `n` slots, all signaled, as they are at startup.
    pub fn new(n: usize) -> (fs: FrameSync)
        requires
            1 <= n,
        ensures
            fs.wf(),
            fs.slot_count() == n,
            fs.current_spec() == 0,
            fs.log() == Seq::<SlotEvent>::empty(),
            forall|k: int| 0 <= k < n ==> fs.slot_states()[k] is Ready,
    {
        let mut slots: Vec<SlotState> = Vec::new();
        let mut i: usize = 0;
        while i < n
            invariant
                i <= n,
                slots@.len() == i,
                forall|k: int| 0 <= k < i ==> slots@[k] is Ready,
            decreases n - i,
        {
            slots.push(SlotState::Ready);
            i = i + 1;
        }
        let fs = FrameSync { slots, current: 0, events: Vec::new() };
        proof {
            assert(fs.log() =~= Seq::<SlotEvent>::empty());
        }
        fs
    }

    /// The slot index the next frame will use.
    pub fn current_slot(&self) -> (k: usize)
        ensures
            k == self.current_spec(),
    {
        self.current
    }

    /// The observed state of slot `k`.
    pub fn slot_state(&self, k: usize) -> (s: SlotState)
        requires
            k < self.slot_count(),
        ensures
            s == self.slot_states()[k as int],
    {
        self.slots[k]
    }

    /// The synchronization log, observable at run time.
    pub fn events(&self) -> (r: &Vec<SlotEvent>)
        ensures
            r@ == self.log(),
    {
        &self.events
    }

    /// Observe the current slot's guard signaled and clear it, taking
    /// ownership of the slot for this frame. The caller must have waited
    /// for the guard first: the slot has to be `Ready`.
    pub fn begin_frame(&mut self) -> (k: usize)
        requires
            old(self).wf(),
            old(self).slot_states()[old(self).current_spec()] is Ready,
        ensures
            final(self).wf(),
            k == old(self).current_spec(),
            final(self).current_spec() == old(self).current_spec(),
            final(self).slot_states() == old(self).slot_states().update(
                k as int,
                SlotState::Recording,
            ),
            final(self).log() == old(self).log().push(SlotEvent::Waited(k)),
    {
        let k = self.current;
        self.slots[k] = SlotState::Recording;
        self.events.push(SlotEvent::Waited(k));
        proof {
            let log = self.log();
            let prior = old(self).log();
            assert forall|i: int, j: int, kk: int|
                0 <= i < j < log.len() && is_submitted(log[i], kk) && is_submitted(
                    log[j],
                    kk,
                ) implies exists|m: int| i < m < j && is_waited(log[m], kk) by {
                assert(j < prior.len() + 1);
                if j == prior.len() {
                    assert(!is_submitted(log[j], kk));
                } else {
                    assert(is_submitted(prior[i], kk) && is_submitted(prior[j], kk));
                    let m = choose|m: int| i < m < j && is_waited(prior[m], kk);
                    assert(is_waited(log[m], kk));
                }
            }
            assert forall|kk: int|
                0 <= kk < self.slot_count() && self.slot_states()[kk] is Recording implies armed(
                self.log(),
                kk,
            ) by {
                if kk == k as int {
                    assert(armed_at(log, kk, prior.len() as int));
                } else {
                    assert(old(self).slot_states()[kk] is Recording);
                    assert(armed(prior, kk));
                    let m = choose|m: int| armed_at(prior, kk, m);
                    assert(armed_at(log, kk, m));
                }
            }
        }
        k
    }

    /// Give the slot back without submitting anything, as when the frame
    /// is abandoned because the swapchain went stale: the guard was never
    /// tied to new work, so the slot is signaled again at once.
    pub fn abort_frame(&mut self, k: usize)
        requires
            old(self).wf(),
            k < old(self).slot_count(),
            old(self).slot_states()[k as int] is Recording,
        ensures
            final(self).wf(),
            final(self).current_spec() == old(self).current_spec(),
            final(self).slot_states() == old(self).slot_states().update(
                k as int,
                SlotState::Ready,
            ),
            final(self).log() == old(self).log(),
    {
        self.slots[k] = SlotState::Ready;
    }

    /// Submit GPU work that reuses slot `k`'s resources; the guard will
    /// be signaled only when that work completes.
    pub fn submit(&mut self, k: usize)
        requires
            old(self).wf(),
            k < old(self).slot_count(),
            old(self).slot_states()[k as int] is Recording,
        ensures
            final(self).wf(),
            final(self).current_spec() == old(self).current_spec(),
            final(self).slot_states() == old(self).slot_states().update(
                k as int,
                SlotState::InFlight,
            ),
            final(self).log() == old(self).log().push(SlotEvent::Submitted(k)),
    {
        self.slots[k] = SlotState::InFlight;
        self.events.push(SlotEvent::Submitted(k));
        proof {
            let log = self.log();
            let prior = old(self).log();
            assert forall|i: int, j: int, kk: int|
                0 <= i < j < log.len() && is_submitted(log[i], kk) && is_submitted(
                    log[j],
                    kk,
                ) implies exists|m: int| i < m < j && is_waited(log[m], kk) by {
                if j == prior.len() {
                    assert(kk == k as int);
                    assert(is_submitted(prior[i], kk));
                    assert(armed(prior, kk));
                    let m = choose|m: int| armed_at(prior, kk, m);
                    assert(m != i);
                    if m < i {
                        assert(!is_submitted(prior[i], kk));
                    }
                    assert(i < m < j);
                    assert(is_waited(log[m], kk));
                } else {
                    assert(is_submitted(prior[i], kk) && is_submitted(prior[j], kk));
                    let m = choose|m: int| i < m < j && is_waited(prior[m], kk);
                    assert(is_waited(log[m], kk));
                }
            }
            assert forall|kk: int|
                0 <= kk < self.slot_count() && self.slot_states()[kk] is Recording implies armed(
                self.log(),
                kk,
            ) by {
                assert(kk != k as int);
                assert(old(self).slot_states()[kk] is Recording);
                assert(armed(prior, kk));
                let m = choose|m: int| armed_at(prior, kk, m);
                assert(armed_at(log, kk, m));
            }
        }
    }

    /// The device finished the work submitted on slot `k`: its guard is
    /// signaled and the slot may be reused.
    pub fn signal(&mut self, k: usize)
        requires
            old(self).wf(),
            k < old(self).slot_count(),
            old(self).slot_states()[k as int] is InFlight,
        ensures
            final(self).wf(),
            final(self).current_spec() == old(self).current_spec(),
            final(self).slot_states() == old(self).slot_states().update(
                k as int,
                SlotState::Ready,
            ),
            final(self).log() == old(self).log(),
    {
        self.slots[k] = SlotState::Ready;
    }

    /// Wait until the device is idle: every in-flight slot completes.
    /// The wait is unbounded; in this model all submitted work completes.
    pub fn wait_idle(&mut self)
        requires
            old(self).wf(),
        ensures
            final(self).wf(),
            final(self).current_spec() == old(self).current_spec(),
            final(self).slot_count() == old(self).slot_count(),
            final(self).log() == old(self).log(),
            forall|k: int|
                0 <= k < old(self).slot_count() ==> final(self).slot_states()[k] == (
                if old(self).slot_states()[k] is InFlight {
                    SlotState::Ready
                } else {
                    old(self).slot_states()[k]
                }),
    {
        let n = self.slots.len();
        let mut i: usize = 0;
        while i < n
            invariant
                self.wf(),
                i <= n,
                n == self.slot_count(),
                self.current_spec() == old(self).current_spec(),
                self.log() == old(self).log(),
                forall|k: int|
                    0 <= k < i ==> self.slot_states()[k] == (
                    if old(self).slot_states()[k] is InFlight {
                        SlotState::Ready
                    } else {
                        old(self).slot_states()[k]
                    }),
                forall|k: int| i <= k < n ==> self.slot_states()[k] == old(self).slot_states()[k],
            decreases n - i,
        {
            let state = self.slots[i];
            if matches!(state, SlotState::InFlight) {
                self.signal(i);
            }
            i = i + 1;
        }
    }

    /// Advance the round-robin index after a frame.
    pub fn end_frame(&mut self)
        requires
            old(self).wf(),
        ensures
            final(self).wf(),
            final(self).slot_states() == old(self).slot_states(),
            final(self).log() == old(self).log(),
            final(self).current_spec() == (old(self).current_spec() + 1) % old(self).slot_count(),
    {
        let n = self.slots.len();
        assert(self.current < n);
        self.current = (self.current + 1) % n;
    }
}

/// Two submissions on one slot are always separated by an observed wait
/// on that slot: a slot's resources are never reused before its guard
/// was seen signaled.
pub proof fn lemma_submits_separated_by_wait(fs: &FrameSync, i: int, j: int, k: int)
    requires
        fs.wf(),
        0 <= i < j < fs.log().len(),
        is_submitted(fs.log()[i], k),
        is_submitted(fs.log()[j], k),
    ensures
        exists|m: int| i < m < j && is_waited(fs.log()[m], k),
{
}

} // verus!
