//! A registry through which the bridge refers to the display surface without
//! owning it.
//!
//! The bridge keeps an identifier, never the surface. An identifier resolves
//! while its surface is alive and never again once the surface is destroyed,
//! so a dispatch that arrives late finds nothing to draw on.

use vstd::prelude::*;

verus! {

/// Names one registration of a display surface.
#[derive(Clone, Copy, Debug, PartialEq, Eq, Structural)]
pub struct SurfaceId(pub u64);

/// What a registry holds, as plain values.
pub struct RegistryView {
    /// How many identifiers have been handed out; they are `0..issued`.
    pub issued: nat,
    /// The identifier of the surface that is alive, if one is.
    pub live: Option<SurfaceId>,
}

impl RegistryView {
    /// The live identifier is one that was handed out, and no more
    /// identifiers were handed out than there are.
    pub open spec fn wf(self) -> bool {
        &&& self.issued <= u64::MAX
        &&& self.live matches Some(id) ==> id.0 < self.issued
    }

    /// Tells whether an identifier names the surface that is alive.
    pub open spec fn resolves(self, id: SurfaceId) -> bool {
        self.live == Some(id)
    }

    /// Tells whether an identifier was handed out and no longer resolves.
    pub open spec fn stale(self, id: SurfaceId) -> bool {
        id.0 < self.issued && !self.resolves(id)
    }

    /// The identifier that the next registration hands out, if one is left.
    pub open spec fn next_id(self) -> Option<SurfaceId> {
        if self.issued < u64::MAX {
            Some(SurfaceId(self.issued as u64))
        } else {
            None
        }
    }

    /// The registry after one more surface is registered: the new surface is
    /// the one alive. With no identifier left nothing changes.
    pub open spec fn registered(self) -> RegistryView {
        match self.next_id() {
            Some(id) => RegistryView { issued: self.issued + 1, live: Some(id) },
            None => self,
        }
    }

    /// The registry after the surface named by `id` is destroyed.
    pub open spec fn destroyed(self, id: SurfaceId) -> RegistryView {
        if self.resolves(id) {
            RegistryView { live: None, ..self }
        } else {
            self
        }
    }
}

/// Tracks the one display surface that may be alive at a time.
#[derive(Debug)]
pub struct SurfaceRegistry {
    issued: u64,
    live: Option<SurfaceId>,
}

impl View for SurfaceRegistry {
    type V = RegistryView;

    closed spec fn view(&self) -> RegistryView {
        RegistryView { issued: self.issued as nat, live: self.live }
    }
}

impl SurfaceRegistry {
    #[verifier::type_invariant]
    spec fn live_was_issued(self) -> bool {
        self@.wf()
    }

    /// Creates a registry with no surface.
    pub fn new() -> (registry: SurfaceRegistry)
        ensures
            registry@ == (RegistryView { issued: 0, live: None }),
    {
        SurfaceRegistry { issued: 0, live: None }
    }

    /// Registers a surface and returns its identifier, which has never been
    /// handed out before. A surface registered earlier stops resolving: one
    /// surface is alive at a time.
    ///
    /// Returns `None`, and changes nothing, when every identifier has been
    /// used.
    pub fn register(&mut self) -> (id: Option<SurfaceId>)
        ensures
            old(self)@.wf(),
            final(self)@.wf(),
            id == old(self)@.next_id(),
            final(self)@ == old(self)@.registered(),
    {
        proof {
            use_type_invariant(&*self);
        }
        if self.issued == u64::MAX {
            return None;
        }
        let id = SurfaceId(self.issued);
        self.issued = self.issued + 1;
        self.live = Some(id);
        Some(id)
    }

    /// Records that the surface named by `id` is destroyed. From then on the
    /// identifier does not resolve. An identifier that does not resolve
    /// changes nothing.
    pub fn destroy(&mut self, id: SurfaceId)
        ensures
            old(self)@.wf(),
            final(self)@.wf(),
            final(self)@ == old(self)@.destroyed(id),
            !final(self)@.resolves(id),
    {
        proof {
            use_type_invariant(&*self);
        }
        match self.live {
            Some(current) => {
                if current.0 == id.0 {
                    self.live = None;
                }
            },
            None => {},
        }
    }

    /// Tells whether `id` names the surface that is alive.
    pub fn resolves(&self, id: SurfaceId) -> (alive: bool)
        ensures
            alive == self@.resolves(id),
    {
        match self.live {
            Some(current) => current.0 == id.0,
            None => false,
        }
    }
}

/// Registration and destruction keep a registry well formed.
pub proof fn lemma_registry_stays_wf(registry: RegistryView, id: SurfaceId)
    requires
        registry.wf(),
    ensures
        registry.registered().wf(),
        registry.destroyed(id).wf(),
{
}

/// A destroyed identifier does not resolve, whatever the registry held.
pub proof fn lemma_destroyed_does_not_resolve(registry: RegistryView, id: SurfaceId)
    ensures
        !registry.destroyed(id).resolves(id),
        id.0 < registry.issued ==> registry.destroyed(id).stale(id),
{
}

/// Destruction is final: an identifier that is stale stays stale through
/// every later registration and every later destruction.
pub proof fn lemma_stale_forever(registry: RegistryView, id: SurfaceId, other: SurfaceId)
    requires
        registry.wf(),
        registry.stale(id),
    ensures
        registry.registered().stale(id),
        registry.destroyed(other).stale(id),
{
}

/// A registration hands out an identifier that did not resolve before and
/// was never handed out; afterwards it is the only one that resolves.
pub proof fn lemma_registered_is_fresh(registry: RegistryView, id: SurfaceId)
    requires
        registry.wf(),
        registry.next_id() is Some,
    ensures
        !registry.resolves(registry.next_id().unwrap()),
        !registry.stale(registry.next_id().unwrap()),
        registry.registered().resolves(id) <==> Some(id) == registry.next_id(),
{
}

} // verus!
