//! A registry of device resources, tracking which handles are alive and
//! logging every creation and destruction.
//!
//! The swapchain lifecycle is stated against this registry: recreation
//! must destroy every dependent resource, in dependency order, before any
//! replacement is created, and the registry's event log is what that
//! claim is proved over.

use vstd::prelude::*;

verus! {

/// The kinds of swapchain-dependent resources the lifecycle manages.
#[derive(Clone, Copy, Debug, PartialEq, Eq, Structural)]
pub enum ResourceKind {
    Swapchain,
    ImageView,
    RenderPass,
    Pipeline,
    Framebuffer,
}

/// One entry of the registry's event log.
#[derive(Clone, Copy, Debug, PartialEq, Eq, Structural)]
pub enum ResourceEvent {
    Created(usize, ResourceKind),
    Destroyed(usize, ResourceKind),
}

/// The kind of the resource an event concerns.
pub open spec fn event_kind(e: ResourceEvent) -> ResourceKind {
    match e {
        ResourceEvent::Created(_, kind) => kind,
        ResourceEvent::Destroyed(_, kind) => kind,
    }
}

/// One registered resource: its kind, and whether it is still alive.
#[derive(Clone, Copy, Debug, PartialEq, Eq, Structural)]
pub struct ResourceRecord {
    pub kind: ResourceKind,
    pub alive: bool,
}

/// The registry itself. Identifiers are handed out in increasing order
/// and never reused; destruction only clears the alive flag.
pub struct ResourceRegistry {
    records: Vec<ResourceRecord>,
    log: Vec<ResourceEvent>,
}

impl ResourceRegistry {
    /// Every resource ever registered, in creation order.
    pub closed spec fn records_seq(&self) -> Seq<ResourceRecord> {
        self.records@
    }

    /// Every creation and destruction, in the order it happened.
    pub closed spec fn log(&self) -> Seq<ResourceEvent> {
        self.log@
    }

    /// The identifier the next creation will receive.
    pub open spec fn next_id(&self) -> int {
        self.records_seq().len() as int
    }

    /// Whether `id` names a resource that is currently alive.
    pub open spec fn is_live(&self, id: int) -> bool {
        0 <= id < self.records_seq().len() && self.records_seq()[id].alive
    }

    /// The kind `id` was registered with.
    pub open spec fn kind_of(&self, id: int) -> ResourceKind {
        self.records_seq()[id].kind
    }

    /// An empty registry: nothing registered, nothing logged.
    pub fn new() -> (reg: ResourceRegistry)
        ensures
            reg.records_seq().len() == 0,
            reg.log().len() == 0,
    {
        ResourceRegistry { records: Vec::new(), log: Vec::new() }
    }

    /// Register a fresh resource of the given kind and log its creation.
    pub fn create(&mut self, kind: ResourceKind) -> (id: usize)
        ensures
            id == old(self).next_id(),
            final(self).records_seq() == old(self).records_seq().push(
                ResourceRecord { kind, alive: true },
            ),
            final(self).log() == old(self).log().push(ResourceEvent::Created(id, kind)),
            final(self).is_live(id as int),
            final(self).kind_of(id as int) == kind,
    {
        let id = self.records.len();
        self.records.push(ResourceRecord { kind, alive: true });
        self.log.push(ResourceEvent::Created(id, kind));
        id
    }

    /// Destroy a live resource and log its destruction. Every other
    /// record is left untouched.
    pub fn destroy(&mut self, id: usize)
        requires
            old(self).is_live(id as int),
        ensures
            final(self).records_seq() == old(self).records_seq().update(
                id as int,
                ResourceRecord { kind: old(self).kind_of(id as int), alive: false },
            ),
            final(self).log() == old(self).log().push(
                ResourceEvent::Destroyed(id, old(self).kind_of(id as int)),
            ),
            !final(self).is_live(id as int),
    {
        let kind = self.records[id].kind;
        self.records[id] = ResourceRecord { kind, alive: false };
        self.log.push(ResourceEvent::Destroyed(id, kind));
    }

    /// Whether `id` names a live resource, observable at run time.
    pub fn live(&self, id: usize) -> (r: bool)
        ensures
            r == self.is_live(id as int),
    {
        id < self.records.len() && self.records[id].alive
    }

    /// The event log, observable at run time.
    pub fn events(&self) -> (r: &Vec<ResourceEvent>)
        ensures
            r@ == self.log(),
    {
        &self.log
    }
}

} // verus!
