//! Per-instance state around the registry: the events-enabled switch set at
//! construction, the version gate, the one-shot guards of the registration
//! contexts, the process-wide locale adjustment, the batched file-load
//! session, and the iterator's first-cycle rule.

use vstd::prelude::*;

use crate::errors::{Error, ErrorV};
use crate::events::Event;
use crate::registry::{
    event_views, has_conflict, first_conflict_at, plan_valid, registry_wf, LocalSub, PendingEvent,
    Registry, RegistryV, SubscribePlan,
};

verus! {

/// Mathematical model of an [`InstanceState`].
#[verifier::ext_equal]
pub ghost struct InstanceStateV {
    pub events: bool,
    pub registry: Option<RegistryV>,
    pub protocol_guard_held: bool,
    pub opengl_guard_held: bool,
}

/// The bookkeeping state of one engine handle: whether events were enabled
/// at construction, the observation registry (exactly when they were), and
/// the two mutually exclusive registration guards.
pub struct InstanceState {
    events: bool,
    registry: Option<Registry>,
    protocol_guard_held: bool,
    opengl_guard_held: bool,
}

impl View for InstanceState {
    type V = InstanceStateV;

    closed spec fn view(&self) -> InstanceStateV {
        InstanceStateV {
            events: self.events,
            registry: match &self.registry {
                Some(r) => Some(r@),
                None => None,
            },
            protocol_guard_held: self.protocol_guard_held,
            opengl_guard_held: self.opengl_guard_held,
        }
    }
}

/// Well-formedness: the registry exists exactly when events are enabled, and
/// is itself well-formed.
pub open spec fn instance_wf(s: InstanceStateV) -> bool {
    &&& s.events <==> s.registry is Some
    &&& (s.registry matches Some(r) ==> registry_wf(r))
}

/// A freshly constructed state: both guards free, an empty registry exactly
/// when events are enabled.
pub open spec fn fresh_instance(s: InstanceStateV, events: bool) -> bool {
    &&& s.events == events
    &&& !s.protocol_guard_held
    &&& !s.opengl_guard_held
    &&& (events ==> (s.registry matches Some(r) && r.kinds.len() == 0 && r.props.len() == 0
        && r.next_id == 0 && r.pending.len() == 0))
    &&& (!events ==> s.registry is None)
}

impl InstanceState {
    /// Gate of instance construction: the version loaded at run time must
    /// equal the version compiled against, or nothing is created — in
    /// particular the caller allocates no native handle on a mismatch.
    pub fn create(events: bool, compiled: u32, loaded: u32) -> (r: Result<InstanceState, Error>)
        ensures
            compiled != loaded ==> (r matches Err(e) && e@ == ErrorV::VersionMismatch(
                compiled,
                loaded,
            )),
            compiled == loaded ==> (r matches Ok(s) && fresh_instance(s@, events) && instance_wf(
                s@,
            )),
    {
        if compiled != loaded {
            return Err(Error::VersionMismatch(compiled, loaded));
        }
        let registry = if events {
            Some(Registry::new())
        } else {
            None
        };
        Ok(
            InstanceState {
                events,
                registry,
                protocol_guard_held: false,
                opengl_guard_held: false,
            },
        )
    }

    /// State for a derived client of this instance: its own queue and its
    /// own registry, independent of the parent's. A client name holding an
    /// embedded null byte cannot cross the native boundary and is rejected.
    pub fn new_client(&self, name: &str, events: bool) -> (r: Result<InstanceState, Error>)
        ensures
            crate::commands::contains_nul(name@) ==> (r matches Err(e) && e@
                == ErrorV::InvalidStringArgument),
            !crate::commands::contains_nul(name@) ==> (r matches Ok(s) && fresh_instance(
                s@,
                events,
            ) && instance_wf(s@)),
    {
        crate::commands::check_string_arg(name)?;
        let registry = if events {
            Some(Registry::new())
        } else {
            None
        };
        Ok(
            InstanceState {
                events,
                registry,
                protocol_guard_held: false,
                opengl_guard_held: false,
            },
        )
    }

    /// Whether events were enabled at construction.
    pub fn events(&self) -> (b: bool)
        ensures
            b == self@.events,
    {
        self.events
    }

    /// Try to take the protocol-registration guard: at most one protocol
    /// context is alive per instance, so a second take is refused without
    /// blocking until the first is released.
    pub fn acquire_protocol_guard(&mut self) -> (r: Result<(), Error>)
        ensures
            old(self)@.protocol_guard_held ==> (r matches Err(e) && e@ == ErrorV::ContextExists
                && final(self)@ == old(self)@),
            !old(self)@.protocol_guard_held ==> (r is Ok && final(self)@ == (InstanceStateV {
                protocol_guard_held: true,
                ..old(self)@
            })),
    {
        if self.protocol_guard_held {
            Err(Error::ContextExists)
        } else {
            self.protocol_guard_held = true;
            Ok(())
        }
    }

    /// Release the protocol-registration guard, permitting a new context.
    pub fn release_protocol_guard(&mut self)
        ensures
            final(self)@ == (InstanceStateV { protocol_guard_held: false, ..old(self)@ }),
    {
        self.protocol_guard_held = false;
    }

    /// Try to take the render-callback guard; the categories are
    /// independent, each with its own single owner.
    pub fn acquire_opengl_guard(&mut self) -> (r: Result<(), Error>)
        ensures
            old(self)@.opengl_guard_held ==> (r matches Err(e) && e@ == ErrorV::ContextExists
                && final(self)@ == old(self)@),
            !old(self)@.opengl_guard_held ==> (r is Ok && final(self)@ == (InstanceStateV {
                opengl_guard_held: true,
                ..old(self)@
            })),
    {
        if self.opengl_guard_held {
            Err(Error::ContextExists)
        } else {
            self.opengl_guard_held = true;
            Ok(())
        }
    }

    /// Release the render-callback guard.
    pub fn release_opengl_guard(&mut self)
        ensures
            final(self)@ == (InstanceStateV { opengl_guard_held: false, ..old(self)@ }),
    {
        self.opengl_guard_held = false;
    }

    /// Whether the registry can still reserve this many observation ids;
    /// ids grow without reuse, so an embedding tests this before it begins
    /// a batch.
    pub fn can_reserve_ids(&self, n: usize) -> (b: bool)
        ensures
            b == match self@.registry {
                Some(r) => r.next_id + n <= u64::MAX,
                None => true,
            },
    {
        match &self.registry {
            Some(r) => r.next_observation_id() <= u64::MAX - (n as u64),
            None => true,
        }
    }

    /// Validate a subscription batch against this instance: the event API is
    /// refused whole when the instance was created without events, otherwise
    /// the shared registry judges the batch (see
    /// [`Registry::subscribe_begin`]). Nothing is changed by this step.
    pub fn observe_begin(&self, req: &Vec<Event>) -> (r: Result<SubscribePlan, Error>)
        requires
            instance_wf(self@),
            self@.registry matches Some(reg) ==> reg.next_id + req@.len() <= u64::MAX,
        ensures
            !self@.events ==> (r matches Err(e) && e@ == ErrorV::EventsDisabled),
            self@.events ==> {
                let reg = self@.registry->0;
                &&& !has_conflict(reg, event_views(req@)) ==> (r matches Ok(plan) && plan@.evs
                    == event_views(req@) && plan_valid(reg, plan@))
                &&& has_conflict(reg, event_views(req@)) ==> (r matches Err(e) && exists|j: int|
                    first_conflict_at(reg, event_views(req@), j) && e@ == ErrorV::AlreadyObserved(
                        event_views(req@)[j],
                    ))
            },
    {
        match &self.registry {
            Some(reg) => reg.subscribe_begin(req),
            None => Err(Error::EventsDisabled),
        }
    }

    /// Merge a validated batch (see [`Registry::subscribe_commit`]); the
    /// caller performs the native registrations between begin and commit.
    pub fn observe_commit(&mut self, plan: &SubscribePlan) -> (local: LocalSub)
        requires
            instance_wf(old(self)@),
            old(self)@.events,
            plan_valid(old(self)@.registry->0, plan@),
        ensures
            instance_wf(final(self)@),
            final(self)@.events == old(self)@.events,
            final(self)@.protocol_guard_held == old(self)@.protocol_guard_held,
            final(self)@.opengl_guard_held == old(self)@.opengl_guard_held,
            final(self)@.registry matches Some(r1) && {
                let r0 = old(self)@.registry->0;
                &&& r1.kinds == r0.kinds + crate::registry::kind_ids(plan@.evs)
                &&& r1.props == r0.props + crate::registry::plan_entries(plan@.props)
                &&& r1.next_id == plan@.base_next_id + plan@.props.len()
                &&& r1.pending == r0.pending
            },
            local@.kind_ids == crate::registry::kind_ids(plan@.evs),
            local@.prop_ids == crate::registry::plan_prop_ids(plan@.props),
    {
        match &mut self.registry {
            Some(reg) => reg.subscribe_commit(plan),
            None => {
                proof {
                    assert(false);
                }
                LocalSub { kind_ids: Vec::new(), prop_ids: Vec::new() }
            },
        }
    }

    /// Append an engine-materialized event to the delivery buffer.
    pub fn push_pending(&mut self, ev: PendingEvent)
        requires
            instance_wf(old(self)@),
            old(self)@.events,
        ensures
            instance_wf(final(self)@),
            final(self)@.events == old(self)@.events,
            final(self)@.protocol_guard_held == old(self)@.protocol_guard_held,
            final(self)@.opengl_guard_held == old(self)@.opengl_guard_held,
            final(self)@.registry matches Some(r1) && {
                let r0 = old(self)@.registry->0;
                &&& r1.pending == r0.pending.push(ev@)
                &&& r1.kinds == r0.kinds
                &&& r1.props == r0.props
                &&& r1.next_id == r0.next_id
            },
    {
        match &mut self.registry {
            Some(reg) => reg.push_pending(ev),
            None => {
                proof {
                    assert(false);
                }
            },
        }
    }

    /// Drain the buffer entries this subscription owns (see
    /// [`Registry::drain`]): matching entries come out in emission order;
    /// with none, `NoAssociatedEvent` says to wait for the next wake and the
    /// whole state is untouched, so the iterator stays usable.
    pub fn observe_drain(&mut self, local: &LocalSub) -> (r: Result<Vec<Event>, Error>)
        requires
            instance_wf(old(self)@),
            old(self)@.events,
        ensures
            instance_wf(final(self)@),
            final(self)@.events == old(self)@.events,
            final(self)@.protocol_guard_held == old(self)@.protocol_guard_held,
            final(self)@.opengl_guard_held == old(self)@.opengl_guard_held,
            final(self)@.registry matches Some(r1) && {
                let r0 = old(self)@.registry->0;
                let m = r0.pending.filter(
                    |pe: crate::registry::PendingEventV| crate::registry::matches_local(
                        local@,
                        pe,
                    ),
                );
                &&& r1.kinds == r0.kinds
                &&& r1.props == r0.props
                &&& r1.next_id == r0.next_id
                &&& r1.pending == r0.pending.filter(
                    |pe: crate::registry::PendingEventV| !crate::registry::matches_local(
                        local@,
                        pe,
                    ),
                )
                &&& m.len() > 0 ==> (r matches Ok(v) && crate::registry::event_views(v@)
                    == crate::registry::events_of_pending(m))
                &&& m.len() == 0 ==> (r matches Err(e) && e@ == ErrorV::NoAssociatedEvent
                    && r1.pending == r0.pending)
            },
    {
        match &mut self.registry {
            Some(reg) => reg.drain(local),
            None => {
                proof {
                    assert(false);
                }
                Err(Error::EventsDisabled)
            },
        }
    }

    /// Tear one subscription down (see [`Registry::unsubscribe`]): exactly
    /// its own entries leave the registry; the returned observation ids are
    /// the native registrations for the caller to undo, errors there being
    /// ignored — teardown does not fail.
    pub fn observe_unsubscribe(&mut self, local: &LocalSub) -> (removed: Vec<u64>)
        requires
            instance_wf(old(self)@),
            old(self)@.events,
        ensures
            instance_wf(final(self)@),
            final(self)@.events == old(self)@.events,
            final(self)@.protocol_guard_held == old(self)@.protocol_guard_held,
            final(self)@.opengl_guard_held == old(self)@.opengl_guard_held,
            final(self)@.registry matches Some(r1) && {
                let r0 = old(self)@.registry->0;
                &&& r1.kinds == r0.kinds.filter(|id: u32| !local@.kind_ids.contains(id))
                &&& r1.props == r0.props.filter(
                    |p: crate::registry::PropEntryV| !local@.prop_ids.contains(p.id),
                )
                &&& r1.next_id == r0.next_id
                &&& r1.pending == r0.pending
                &&& removed@ == r0.props.filter(
                    |p: crate::registry::PropEntryV| local@.prop_ids.contains(p.id),
                ).map_values(|p: crate::registry::PropEntryV| p.id)
            },
    {
        match &mut self.registry {
            Some(reg) => reg.unsubscribe(local),
            None => {
                proof {
                    assert(false);
                }
                Vec::new()
            },
        }
    }
}

/// How many times the process-wide locale adjustment has actually run after
/// some number of instance constructions: never more than once.
pub open spec fn locale_calls(constructions: nat) -> nat {
    if constructions == 0 {
        0
    } else {
        1
    }
}

/// Constructing one instance or many leaves the same observable locale
/// state: the adjustment runs exactly once, on the first construction.
pub proof fn lemma_locale_init_idempotent(n: nat)
    requires
        n >= 1,
    ensures
        locale_calls(n) == locale_calls(1),
{
}

/// The process-wide run-once latch for the locale adjustment. The embedding
/// holds one per process and asks it, before each instance construction,
/// whether the native adjustment still has to be performed.
pub struct LocaleOnce {
    initialized: bool,
    constructions: Ghost<nat>,
    performed: Ghost<nat>,
}

impl LocaleOnce {
    /// How many instance constructions have passed through the latch.
    pub closed spec fn constructions(&self) -> nat {
        self.constructions@
    }

    /// How many times the caller was told to run the native adjustment.
    pub closed spec fn performed(&self) -> nat {
        self.performed@
    }

    /// Whether the latch has tripped.
    pub closed spec fn latch_set(&self) -> bool {
        self.initialized
    }

    /// The latch's books are right: it trips on the first construction, and
    /// the adjustment ran exactly once if any construction happened, never
    /// otherwise.
    pub open spec fn wf(&self) -> bool {
        &&& self.performed() == locale_calls(self.constructions())
        &&& self.latch_set() == (self.constructions() > 0)
    }

    /// A fresh latch: nothing ran yet.
    pub fn new() -> (r: LocaleOnce)
        ensures
            r.constructions() == 0,
            r.wf(),
    {
        LocaleOnce { initialized: false, constructions: Ghost(0), performed: Ghost(0) }
    }

    /// Pass one instance construction through the latch; the result says
    /// whether the caller is to perform the native adjustment now — true on
    /// the first pass, false ever after, keeping the adjustment idempotent
    /// across any number of constructions.
    pub fn begin_construction(&mut self) -> (run: bool)
        requires
            old(self).wf(),
        ensures
            final(self).wf(),
            final(self).constructions() == old(self).constructions() + 1,
            run == (old(self).constructions() == 0),
            final(self).performed() == 1,
    {
        let ghost c = self.constructions@;
        self.constructions = Ghost(c + 1);
        if !self.initialized {
            self.initialized = true;
            proof {
                assert(c == 0 || self.performed@ == 1);
            }
            self.performed = Ghost(1);
            true
        } else {
            false
        }
    }
}

/// A batched sequential file load: files are issued one by one; the first
/// native failure stops the batch and is reported with its index, while the
/// files already issued stay issued — they already began loading — and the
/// rest are never attempted.
pub struct LoadFilesBatch {
    /// How many files the batch holds.
    pub total: usize,
    /// The index of the next file to issue.
    pub next: usize,
    /// Whether the batch stopped, by exhaustion or by failure.
    pub done: bool,
}

impl LoadFilesBatch {
    /// A batch over `total` files, none issued yet.
    pub fn new(total: usize) -> (b: LoadFilesBatch)
        ensures
            b.total == total,
            b.next == 0,
            !b.done,
    {
        LoadFilesBatch { total, next: 0, done: false }
    }

    /// The index to issue now, if the batch still runs.
    pub fn current(&self) -> (c: Option<usize>)
        ensures
            (!self.done && self.next < self.total) ==> c == Some(self.next),
            (self.done || self.next >= self.total) ==> c is None,
    {
        if !self.done && self.next < self.total {
            Some(self.next)
        } else {
            None
        }
    }

    /// The file at the current index was issued successfully: move on.
    pub fn advance_ok(&mut self)
        requires
            !old(self).done,
            old(self).next < old(self).total,
        ensures
            final(self).next == old(self).next + 1,
            final(self).total == old(self).total,
            !final(self).done,
    {
        self.next = self.next + 1;
    }

    /// The file at the current index failed: the batch stops here, nothing
    /// further is attempted, and the failure is reported with the index of
    /// the file it struck.
    pub fn fail(&mut self, err: Error) -> (e: Error)
        requires
            !old(self).done,
            old(self).next < old(self).total,
        ensures
            final(self).done,
            final(self).next == old(self).next,
            final(self).total == old(self).total,
            e@ == ErrorV::Loadfiles(old(self).next, Box::new(err@)),
    {
        self.done = true;
        Error::Loadfiles(self.next, Box::new(err))
    }

    /// The whole batch went through.
    pub fn finish(&mut self)
        requires
            !old(self).done,
            old(self).next == old(self).total,
        ensures
            final(self).done,
            final(self).next == old(self).next,
            final(self).total == old(self).total,
    {
        self.done = true;
    }
}

/// The per-iterator cycle rule: the very first consumption never waits, to
/// flush events buffered before the iterator existed; every later cycle
/// waits for a wake first.
pub struct IterCycle {
    first_iteration: bool,
}

impl IterCycle {
    /// Whether the next cycle still is the flushing first one.
    pub closed spec fn is_first(&self) -> bool {
        self.first_iteration
    }

    /// A fresh cursor, about to run its flushing first cycle.
    pub fn new() -> (r: IterCycle)
        ensures
            r.is_first(),
    {
        IterCycle { first_iteration: true }
    }

    /// Start one consumption cycle: reports whether the caller must block on
    /// the shared wakeup first. The first cycle drains without waiting.
    pub fn begin_cycle(&mut self) -> (wait: bool)
        ensures
            wait == !old(self).is_first(),
            !final(self).is_first(),
    {
        let first = self.first_iteration;
        self.first_iteration = false;
        !first
    }
}

/// The wakeup flag the native callback sets and iterators clear: the model
/// of the condition-variable payload. The callback thread only ever raises
/// it; a draining iterator consumes it in one step.
pub struct WakeFlag {
    set: bool,
}

impl WakeFlag {
    /// Whether a wake is pending.
    pub closed spec fn is_set(&self) -> bool {
        self.set
    }

    /// A fresh flag: no wake pending.
    pub fn new() -> (r: WakeFlag)
        ensures
            !r.is_set(),
    {
        WakeFlag { set: false }
    }

    /// The native callback's half: raise the flag. It never clears it.
    pub fn signal(&mut self)
        ensures
            final(self).is_set(),
    {
        self.set = true;
    }

    /// The iterator's half: consume the wake, reporting whether one was
    /// pending, and leave the flag cleared for the next cycle.
    pub fn consume(&mut self) -> (was_set: bool)
        ensures
            was_set == old(self).is_set(),
            !final(self).is_set(),
    {
        let was = self.set;
        self.set = false;
        was
    }
}

} // verus!
