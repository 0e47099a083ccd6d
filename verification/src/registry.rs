//! The shared observation registry of one instance: which event kinds and
//! which named properties are observed, the buffer of events awaiting
//! delivery, and the batched subscribe / drain / teardown protocol that the
//! iterators drive over it.
//!
//! Subscription is a three-step protocol around the native calls, which the
//! embedding performs between the steps: [`Registry::subscribe_begin`]
//! validates a whole batch and plans the native registrations without
//! touching shared state; on native failure [`rollback_ids`] lists the
//! already-made registrations to undo, newest first; on success
//! [`Registry::subscribe_commit`] merges the batch in one step and hands the
//! caller the subscription subset only it may later remove.

use vstd::prelude::*;
use vstd::seq_lib::*;

use crate::data::{data_format, MpvFormat};
use crate::errors::{Error, ErrorV};
use crate::events::{event_id, is_property_change, Event, EventV, PropertyV};

verus! {

broadcast use vstd::seq_lib::group_seq_properties;

/// One observed property: its name and the observation id assigned to it.
pub struct PropEntry {
    pub name: String,
    pub id: u64,
}

/// Mathematical model of a [`PropEntry`].
#[verifier::ext_equal]
pub ghost struct PropEntryV {
    pub name: Seq<char>,
    pub id: u64,
}

impl View for PropEntry {
    type V = PropEntryV;

    open spec fn view(&self) -> PropEntryV {
        PropEntryV { name: self.name@, id: self.id }
    }
}

/// One planned native property registration: the name, the observation id
/// reserved for it, and the value format to ask for.
pub struct PlanProp {
    pub name: String,
    pub id: u64,
    pub format: MpvFormat,
}

/// Mathematical model of a [`PlanProp`].
#[verifier::ext_equal]
pub ghost struct PlanPropV {
    pub name: Seq<char>,
    pub id: u64,
    pub format: MpvFormat,
}

impl View for PlanProp {
    type V = PlanPropV;

    open spec fn view(&self) -> PlanPropV {
        PlanPropV { name: self.name@, id: self.id, format: self.format }
    }
}

/// An event materialized by the engine, awaiting delivery. A property-change
/// entry carries the observation id the engine reported, which ties it back
/// to the subscription it belongs to.
pub struct PendingEvent {
    pub event: Event,
    pub prop_id: Option<u64>,
}

/// Mathematical model of a [`PendingEvent`].
#[verifier::ext_equal]
pub ghost struct PendingEventV {
    pub event: EventV,
    pub prop_id: Option<u64>,
}

impl View for PendingEvent {
    type V = PendingEventV;

    open spec fn view(&self) -> PendingEventV {
        PendingEventV { event: self.event@, prop_id: self.prop_id }
    }
}

/// The views of a sequence of events.
pub open spec fn event_views(s: Seq<Event>) -> Seq<EventV> {
    s.map_values(|e: Event| e@)
}

/// The views of a sequence of pending events.
pub open spec fn pending_views(s: Seq<PendingEvent>) -> Seq<PendingEventV> {
    s.map_values(|e: PendingEvent| e@)
}

/// The events carried by a sequence of pending entries.
pub open spec fn events_of_pending(s: Seq<PendingEventV>) -> Seq<EventV> {
    s.map_values(|pe: PendingEventV| pe.event)
}

/// The views of a sequence of plan entries.
pub open spec fn plan_prop_views(s: Seq<PlanProp>) -> Seq<PlanPropV> {
    s.map_values(|p: PlanProp| p@)
}

/// The views of a sequence of registry property entries.
pub open spec fn prop_entry_views(s: Seq<PropEntry>) -> Seq<PropEntryV> {
    s.map_values(|p: PropEntry| p@)
}

/// Mathematical model of a [`Registry`].
#[verifier::ext_equal]
pub ghost struct RegistryV {
    pub kinds: Seq<u32>,
    pub props: Seq<PropEntryV>,
    pub next_id: u64,
    pub pending: Seq<PendingEventV>,
}

/// The shared observation registry of one instance.
pub struct Registry {
    kinds: Vec<u32>,
    props: Vec<PropEntry>,
    next_id: u64,
    pending: Vec<PendingEvent>,
}

impl View for Registry {
    type V = RegistryV;

    closed spec fn view(&self) -> RegistryV {
        RegistryV {
            kinds: self.kinds@,
            props: prop_entry_views(self.props@),
            next_id: self.next_id,
            pending: pending_views(self.pending@),
        }
    }
}

/// Whether a property with this name is observed.
pub open spec fn has_prop_name(r: RegistryV, name: Seq<char>) -> bool {
    exists|k: int| 0 <= k < r.props.len() && r.props[k].name == name
}

/// Pairwise-distinct elements.
pub open spec fn unique_u32(s: Seq<u32>) -> bool {
    forall|i: int, j: int| 0 <= i < j < s.len() ==> s[i] != s[j]
}

/// Well-formedness of the registry: every observed kind and property appears
/// at most once, observation ids are unique and below the next free id.
pub open spec fn registry_wf(r: RegistryV) -> bool {
    &&& unique_u32(r.kinds)
    &&& (forall|i: int, j: int|
        0 <= i < j < r.props.len() ==> (#[trigger] r.props[i]).name != (
        #[trigger] r.props[j]).name)
    &&& (forall|i: int, j: int|
        0 <= i < j < r.props.len() ==> (#[trigger] r.props[i]).id != (#[trigger] r.props[j]).id)
    &&& (forall|i: int| 0 <= i < r.props.len() ==> (#[trigger] r.props[i].id) < r.next_id)
}

/// The property payloads of the property-change events of a batch, in order.
pub open spec fn prop_changes(req: Seq<EventV>) -> Seq<PropertyV>
    decreases req.len(),
{
    if req.len() == 0 {
        Seq::empty()
    } else {
        let pre = prop_changes(req.drop_last());
        if is_property_change(req.last()) {
            pre.push(req.last()->PropertyChange_0)
        } else {
            pre
        }
    }
}

/// The native ids of the non-property events of a batch, in order.
pub open spec fn kind_ids(req: Seq<EventV>) -> Seq<u32>
    decreases req.len(),
{
    if req.len() == 0 {
        Seq::empty()
    } else {
        let pre = kind_ids(req.drop_last());
        if is_property_change(req.last()) {
            pre
        } else {
            pre.push(event_id(req.last()))
        }
    }
}

/// The names of a sequence of property payloads.
pub open spec fn prop_names(s: Seq<PropertyV>) -> Seq<Seq<char>> {
    s.map_values(|p: PropertyV| p.name)
}

/// Whether the j-th element of a batch collides with the registry or with an
/// earlier element of the same batch: by property name for property-change
/// requests, by native event id for everything else.
pub open spec fn conflict_at(r: RegistryV, req: Seq<EventV>, j: int) -> bool
    recommends
        0 <= j < req.len(),
{
    if is_property_change(req[j]) {
        has_prop_name(r, req[j]->PropertyChange_0.name) || prop_names(
            prop_changes(req.take(j)),
        ).contains(req[j]->PropertyChange_0.name)
    } else {
        r.kinds.contains(event_id(req[j])) || kind_ids(req.take(j)).contains(event_id(req[j]))
    }
}

/// Whether some element of the batch collides.
pub open spec fn has_conflict(r: RegistryV, req: Seq<EventV>) -> bool {
    exists|j: int| 0 <= j < req.len() && conflict_at(r, req, j)
}

/// The j-th element collides and no earlier one does.
pub open spec fn first_conflict_at(r: RegistryV, req: Seq<EventV>, j: int) -> bool {
    &&& 0 <= j < req.len()
    &&& conflict_at(r, req, j)
    &&& forall|k: int| 0 <= k < j ==> !conflict_at(r, req, k)
}

/// Mathematical model of a [`SubscribePlan`].
#[verifier::ext_equal]
pub ghost struct SubscribePlanV {
    pub evs: Seq<EventV>,
    pub props: Seq<PlanPropV>,
    pub base_next_id: u64,
}

/// The validated outcome of [`Registry::subscribe_begin`]: the whole batch,
/// the planned property registrations with their reserved ids, and the id
/// counter the plan was built against.
pub struct SubscribePlan {
    pub evs: Vec<Event>,
    pub props: Vec<PlanProp>,
    pub base_next_id: u64,
}

impl View for SubscribePlan {
    type V = SubscribePlanV;

    open spec fn view(&self) -> SubscribePlanV {
        SubscribePlanV {
            evs: event_views(self.evs@),
            props: plan_prop_views(self.props@),
            base_next_id: self.base_next_id,
        }
    }
}

impl SubscribePlan {
    /// The native registrations to undo after the property registration at
    /// `failed` failed: the observation ids already registered in this same
    /// batch, newest first. Errors while undoing are ignored by the caller —
    /// the batch's own error is what is reported.
    pub fn rollback_ids(&self, failed: usize) -> (ids: Vec<u64>)
        requires
            failed <= self@.props.len(),
        ensures
            ids@.len() == failed,
            forall|k: int| 0 <= k < failed ==> ids@[k] == self@.props[failed - 1 - k].id,
    {
        let mut ids: Vec<u64> = Vec::new();
        let mut i: usize = failed;
        while i > 0
            invariant
                0 <= i <= failed,
                failed <= self.props@.len(),
                ids@.len() == failed - i,
                forall|k: int| 0 <= k < ids@.len() ==> ids@[k] == self@.props[failed - 1 - k].id,
            decreases i,
        {
            i -= 1;
            ids.push(self.props[i].id);
        }
        ids
    }
}

/// A plan fits a registry state: built against its id counter, its reserved
/// ids are consecutive from there without overflow, its property entries are
/// exactly the property-change payloads of the batch, and nothing in the
/// batch collides with the registry or within the batch.
pub open spec fn plan_valid(r: RegistryV, p: SubscribePlanV) -> bool {
    &&& p.base_next_id == r.next_id
    &&& p.base_next_id + p.props.len() <= u64::MAX
    &&& p.props.len() == prop_changes(p.evs).len()
    &&& (forall|k: int|
        0 <= k < p.props.len() ==> (#[trigger] p.props[k]).name == prop_changes(p.evs)[k].name
            && p.props[k].id == p.base_next_id + k && p.props[k].format == data_format(
            prop_changes(p.evs)[k].data,
        ))
    &&& (forall|j: int| 0 <= j < p.evs.len() ==> !conflict_at(r, p.evs, j))
}

/// The subscription subset one iterator owns: the native ids of its plain
/// event kinds and the observation ids of its properties.
pub struct LocalSub {
    pub kind_ids: Vec<u32>,
    pub prop_ids: Vec<u64>,
}

/// Mathematical model of a [`LocalSub`].
#[verifier::ext_equal]
pub ghost struct LocalSubV {
    pub kind_ids: Seq<u32>,
    pub prop_ids: Seq<u64>,
}

impl View for LocalSub {
    type V = LocalSubV;

    open spec fn view(&self) -> LocalSubV {
        LocalSubV { kind_ids: self.kind_ids@, prop_ids: self.prop_ids@ }
    }
}

/// The ids of a sequence of plan entries.
pub open spec fn plan_prop_ids(s: Seq<PlanPropV>) -> Seq<u64> {
    s.map_values(|p: PlanPropV| p.id)
}

/// Taking one more element extends the property payloads by the new payload
/// exactly when the new element is a property change.
proof fn lemma_prop_changes_take_step(req: Seq<EventV>, j: int)
    requires
        0 <= j < req.len(),
    ensures
        prop_changes(req.take(j + 1)) == if is_property_change(req[j]) {
            prop_changes(req.take(j)).push(req[j]->PropertyChange_0)
        } else {
            prop_changes(req.take(j))
        },
{
    assert(req.take(j + 1).drop_last() =~= req.take(j));
    assert(req.take(j + 1).last() == req[j]);
}

/// Taking one more element extends the kind ids by the new id exactly when
/// the new element is not a property change.
proof fn lemma_kind_ids_take_step(req: Seq<EventV>, j: int)
    requires
        0 <= j < req.len(),
    ensures
        kind_ids(req.take(j + 1)) == if is_property_change(req[j]) {
            kind_ids(req.take(j))
        } else {
            kind_ids(req.take(j)).push(event_id(req[j]))
        },
{
    assert(req.take(j + 1).drop_last() =~= req.take(j));
    assert(req.take(j + 1).last() == req[j]);
}

/// The registry entries a plan merges in: its names and reserved ids.
pub open spec fn plan_entries(s: Seq<PlanPropV>) -> Seq<PropEntryV> {
    s.map_values(|p: PlanPropV| PropEntryV { name: p.name, id: p.id })
}

/// Filtering a one-longer prefix keeps the new element exactly when the
/// predicate holds of it.
proof fn lemma_filter_take_step<A>(s: Seq<A>, pred: spec_fn(A) -> bool, i: int)
    requires
        0 <= i < s.len(),
    ensures
        s.take(i + 1).filter(pred) == if pred(s[i]) {
            s.take(i).filter(pred).push(s[i])
        } else {
            s.take(i).filter(pred)
        },
{
    reveal(Seq::filter);
    assert(s.take(i + 1).drop_last() =~= s.take(i));
    assert(s.take(i + 1).last() == s[i]);
}

/// An element of the kind ids of a prefix is the id of an earlier
/// non-property element, and conversely.
proof fn lemma_kind_ids_elem(evs: Seq<EventV>, j: int)
    requires
        0 <= j <= evs.len(),
    ensures
        forall|x: u32|
            #[trigger] kind_ids(evs.take(j)).contains(x) <==> exists|k: int|
                0 <= k < j && !is_property_change(evs[k]) && event_id(#[trigger] evs[k]) == x,
    decreases j,
{
    if j == 0 {
        assert(evs.take(0) =~= Seq::<EventV>::empty());
    } else {
        lemma_kind_ids_elem(evs, j - 1);
        lemma_kind_ids_take_step(evs, j - 1);
        assert forall|x: u32| #[trigger]
            kind_ids(evs.take(j)).contains(x) implies exists|k: int|
            0 <= k < j && !is_property_change(evs[k]) && event_id(#[trigger] evs[k]) == x by {
            if is_property_change(evs[j - 1]) {
                assert(kind_ids(evs.take(j - 1)).contains(x));
            } else {
                if x == event_id(evs[j - 1]) {
                    assert(!is_property_change(evs[j - 1]) && event_id(evs[j - 1]) == x);
                } else {
                    let s = kind_ids(evs.take(j - 1));
                    let t = s.push(event_id(evs[j - 1]));
                    let idx = choose|idx: int| 0 <= idx < t.len() && #[trigger] t[idx] == x;
                    assert(s[idx] == x);
                    assert(s.contains(x));
                }
            }
        }
        assert forall|x: u32|
            (exists|k: int|
                0 <= k < j && !is_property_change(evs[k]) && event_id(#[trigger] evs[k])
                    == x) implies #[trigger] kind_ids(evs.take(j)).contains(x) by {
            let k = choose|k: int|
                0 <= k < j && !is_property_change(evs[k]) && event_id(#[trigger] evs[k]) == x;
            if k < j - 1 {
                assert(kind_ids(evs.take(j - 1)).contains(x));
                let s = kind_ids(evs.take(j - 1));
                let idx = choose|idx: int| 0 <= idx < s.len() && s[idx] == x;
                assert(kind_ids(evs.take(j))[idx] == x);
            } else {
                assert(!is_property_change(evs[j - 1]));
                assert(kind_ids(evs.take(j)).last() == x);
            }
        }
    }
}

/// In a batch free of conflicts against a registry, the kind ids are pairwise
/// distinct and disjoint from the registry's observed kinds.
proof fn lemma_no_conflict_kind_ids(r: RegistryV, evs: Seq<EventV>)
    requires
        forall|j: int| 0 <= j < evs.len() ==> !conflict_at(r, evs, j),
    ensures
        unique_u32(kind_ids(evs)),
        forall|x: u32| #[trigger] kind_ids(evs).contains(x) ==> !r.kinds.contains(x),
{
    lemma_kind_ids_elem(evs, evs.len() as int);
    assert(evs.take(evs.len() as int) =~= evs);
    let full = kind_ids(evs);
    assert forall|x: u32| #[trigger] full.contains(x) implies !r.kinds.contains(x) by {
        let k = choose|k: int|
            0 <= k < evs.len() && !is_property_change(evs[k]) && event_id(#[trigger] evs[k]) == x;
        assert(!conflict_at(r, evs, k));
    }
    assert forall|i: int, j: int| 0 <= i < j < full.len() implies full[i] != full[j] by {
        lemma_unique_kind_ids_by_index(r, evs, i, j);
    }
}

/// Two distinct positions of the kind ids of a conflict-free batch hold
/// distinct ids: a repeated id would make the later contributing element a
/// conflict within its own batch.
proof fn lemma_unique_kind_ids_by_index(r: RegistryV, evs: Seq<EventV>, i: int, j: int)
    requires
        forall|k: int| 0 <= k < evs.len() ==> !conflict_at(r, evs, k),
        0 <= i < j < kind_ids(evs).len(),
    ensures
        kind_ids(evs)[i] != kind_ids(evs)[j],
    decreases evs.len(),
{
    assert(evs.len() > 0);
    let dl = evs.drop_last();
    assert forall|k: int| 0 <= k < dl.len() implies !conflict_at(r, dl, k) by {
        assert(dl.take(k) =~= evs.take(k));
        assert(dl[k] == evs[k]);
        assert(!conflict_at(r, evs, k));
    }
    if is_property_change(evs.last()) {
        lemma_unique_kind_ids_by_index(r, dl, i, j);
    } else if j == kind_ids(evs).len() - 1 {
        if kind_ids(evs)[i] == kind_ids(evs)[j] {
            let x = kind_ids(evs)[j];
            assert(kind_ids(dl)[i] == x);
            assert(kind_ids(dl).contains(x));
            assert(evs.take(evs.len() - 1) =~= dl);
            assert(conflict_at(r, evs, evs.len() - 1));
        }
    } else {
        lemma_unique_kind_ids_by_index(r, dl, i, j);
    }
}

/// In a batch free of conflicts against a registry, the property names are
/// pairwise distinct and none is already observed.
proof fn lemma_no_conflict_props(r: RegistryV, evs: Seq<EventV>)
    requires
        forall|j: int| 0 <= j < evs.len() ==> !conflict_at(r, evs, j),
    ensures
        forall|i: int, j: int|
            0 <= i < j < prop_changes(evs).len() ==> (#[trigger] prop_changes(evs)[i]).name != (
            #[trigger] prop_changes(evs)[j]).name,
        forall|i: int|
            0 <= i < prop_changes(evs).len() ==> !has_prop_name(
                r,
                (#[trigger] prop_changes(evs)[i]).name,
            ),
    decreases evs.len(),
{
    if evs.len() > 0 {
        let dl = evs.drop_last();
        assert forall|k: int| 0 <= k < dl.len() implies !conflict_at(r, dl, k) by {
            assert(dl.take(k) =~= evs.take(k));
            assert(dl[k] == evs[k]);
            assert(!conflict_at(r, evs, k));
        }
        lemma_no_conflict_props(r, dl);
        if is_property_change(evs.last()) {
            let last = evs.last()->PropertyChange_0;
            assert(evs.take(evs.len() - 1) =~= dl);
            assert(!conflict_at(r, evs, evs.len() - 1));
            assert(!has_prop_name(r, last.name));
            assert(!prop_names(prop_changes(dl)).contains(last.name));
            assert(prop_changes(evs) == prop_changes(dl).push(last));
            assert forall|i: int, j: int|
                0 <= i < j < prop_changes(evs).len() implies (#[trigger] prop_changes(
                evs,
            )[i]).name != (#[trigger] prop_changes(evs)[j]).name by {
                if j < prop_changes(evs).len() - 1 {
                    assert(prop_changes(evs)[i] == prop_changes(dl)[i]);
                    assert(prop_changes(evs)[j] == prop_changes(dl)[j]);
                } else {
                    assert(prop_changes(evs)[i] == prop_changes(dl)[i]);
                    assert(prop_changes(evs)[j] == last);
                    if prop_changes(dl)[i].name == last.name {
                        assert(prop_names(prop_changes(dl))[i] == last.name);
                        assert(prop_names(prop_changes(dl)).contains(last.name));
                    }
                }
            }
        }
    }
}

/// Membership test on a vector of native event ids.
fn contains_u32(v: &Vec<u32>, x: u32) -> (b: bool)
    ensures
        b == v@.contains(x),
{
    let mut i: usize = 0;
    while i < v.len()
        invariant
            0 <= i <= v@.len(),
            forall|k: int| 0 <= k < i ==> v@[k] != x,
        decreases v@.len() - i,
    {
        if v[i] == x {
            return true;
        }
        i += 1;
    }
    false
}

/// Membership test on a vector of observation ids.
fn contains_u64(v: &Vec<u64>, x: u64) -> (b: bool)
    ensures
        b == v@.contains(x),
{
    let mut i: usize = 0;
    while i < v.len()
        invariant
            0 <= i <= v@.len(),
            forall|k: int| 0 <= k < i ==> v@[k] != x,
        decreases v@.len() - i,
    {
        if v[i] == x {
            return true;
        }
        i += 1;
    }
    false
}

/// Name search among planned property registrations.
fn plan_has_prop(props: &Vec<PlanProp>, name: &String) -> (b: bool)
    ensures
        b == prop_names_of_plan(plan_prop_views(props@)).contains(name@),
{
    let mut i: usize = 0;
    while i < props.len()
        invariant
            0 <= i <= props@.len(),
            forall|k: int| 0 <= k < i ==> (#[trigger] props@[k])@.name != name@,
        decreases props@.len() - i,
    {
        if props[i].name == *name {
            proof {
                assert(prop_names_of_plan(plan_prop_views(props@))[i as int] == name@);
            }
            return true;
        }
        i += 1;
    }
    proof {
        if prop_names_of_plan(plan_prop_views(props@)).contains(name@) {
            let k = choose|k: int|
                0 <= k < props@.len() && prop_names_of_plan(plan_prop_views(props@))[k] == name@;
            assert(props@[k]@.name == name@);
        }
    }
    false
}

/// The names of a sequence of plan entries.
pub open spec fn prop_names_of_plan(s: Seq<PlanPropV>) -> Seq<Seq<char>> {
    s.map_values(|p: PlanPropV| p.name)
}

impl Registry {
    /// An empty registry: nothing observed, nothing pending, ids start at
    /// zero.
    pub fn new() -> (r: Registry)
        ensures
            r@.kinds == Seq::<u32>::empty(),
            r@.props == Seq::<PropEntryV>::empty(),
            r@.next_id == 0,
            r@.pending == Seq::<PendingEventV>::empty(),
            registry_wf(r@),
    {
        let r = Registry { kinds: Vec::new(), props: Vec::new(), next_id: 0, pending: Vec::new() };
        proof {
            assert(r@.props =~= Seq::<PropEntryV>::empty());
            assert(r@.pending =~= Seq::<PendingEventV>::empty());
        }
        r
    }

    /// How many plain event kinds are observed.
    pub fn kinds_count(&self) -> (n: usize)
        ensures
            n == self@.kinds.len(),
    {
        self.kinds.len()
    }

    /// How many properties are observed.
    pub fn props_count(&self) -> (n: usize)
        ensures
            n == self@.props.len(),
    {
        self.props.len()
    }

    /// How many materialized events await delivery.
    pub fn pending_count(&self) -> (n: usize)
        ensures
            n == self@.pending.len(),
    {
        self.pending.len()
    }

    /// The next observation id that will be assigned; ids are never reused
    /// while the instance lives.
    pub fn next_observation_id(&self) -> (n: u64)
        ensures
            n == self@.next_id,
    {
        self.next_id
    }

    /// Name search among the observed properties.
    fn has_prop(&self, name: &String) -> (b: bool)
        ensures
            b == has_prop_name(self@, name@),
    {
        let mut i: usize = 0;
        while i < self.props.len()
            invariant
                0 <= i <= self.props@.len(),
                forall|k: int| 0 <= k < i ==> (#[trigger] self.props@[k])@.name != name@,
            decreases self.props@.len() - i,
        {
            if self.props[i].name == *name {
                proof {
                    assert(self@.props[i as int].name == name@);
                }
                return true;
            }
            i += 1;
        }
        proof {
            if has_prop_name(self@, name@) {
                let k = choose|k: int|
                    0 <= k < self@.props.len() && self@.props[k].name == name@;
                assert(self.props@[k]@.name == name@);
            }
        }
        false
    }

    /// Validate a whole subscription batch against the shared state, without
    /// changing anything and before any native call: the first element that
    /// is already observed — by property name for property changes, by
    /// event id otherwise, counting earlier elements of this same batch —
    /// fails the batch with `AlreadyObserved`; otherwise the returned plan
    /// reserves consecutive observation ids for the batch's properties.
    pub fn subscribe_begin(&self, req: &Vec<Event>) -> (r: Result<SubscribePlan, Error>)
        requires
            registry_wf(self@),
            self@.next_id + req@.len() <= u64::MAX,
        ensures
            !has_conflict(self@, event_views(req@)) ==> (r matches Ok(plan) && plan@.evs
                == event_views(req@) && plan_valid(self@, plan@)),
            has_conflict(self@, event_views(req@)) ==> (r matches Err(e) && exists|j: int|
                first_conflict_at(self@, event_views(req@), j) && e@ == ErrorV::AlreadyObserved(
                    event_views(req@)[j],
                )),
    {
        let ghost reqv = event_views(req@);
        let mut plan_evs: Vec<Event> = Vec::new();
        let mut plan_props: Vec<PlanProp> = Vec::new();
        let mut plan_kinds: Vec<u32> = Vec::new();
        let mut j: usize = 0;
        proof {
            assert(reqv.take(0) =~= Seq::<EventV>::empty());
            assert(event_views(plan_evs@) =~= reqv.take(0));
            assert(plan_prop_views(plan_props@) =~= Seq::<PlanPropV>::empty());
        }
        while j < req.len()
            invariant
                0 <= j <= req@.len(),
                reqv == event_views(req@),
                reqv.len() == req@.len(),
                registry_wf(self@),
                self@.next_id + req@.len() <= u64::MAX,
                forall|k: int| 0 <= k < j ==> !conflict_at(self@, reqv, k),
                event_views(plan_evs@) == reqv.take(j as int),
                plan_kinds@ == kind_ids(reqv.take(j as int)),
                plan_prop_views(plan_props@).len() == prop_changes(reqv.take(j as int)).len(),
                plan_props@.len() <= j,
                forall|k: int|
                    0 <= k < plan_props@.len() ==> (#[trigger] plan_prop_views(plan_props@)[k]).name
                        == prop_changes(reqv.take(j as int))[k].name && plan_prop_views(
                        plan_props@,
                    )[k].id == self@.next_id + k && plan_prop_views(plan_props@)[k].format
                        == data_format(prop_changes(reqv.take(j as int))[k].data),
            decreases req@.len() - j,
        {
            let ev = &req[j];
            proof {
                assert(reqv[j as int] == ev@);
            }
            match ev {
                Event::PropertyChange(p) => {
                    let in_shared = self.has_prop(&p.name);
                    let in_batch = plan_has_prop(&plan_props, &p.name);
                    proof {
                        assert(prop_names_of_plan(plan_prop_views(plan_props@)) =~= prop_names(
                            prop_changes(reqv.take(j as int)),
                        ));
                    }
                    if in_shared || in_batch {
                        proof {
                            assert(conflict_at(self@, reqv, j as int));
                            assert(first_conflict_at(self@, reqv, j as int));
                        }
                        return Err(Error::AlreadyObserved(Box::new(ev.duplicate())));
                    }
                    let id: u64 = self.next_id + (plan_props.len() as u64);
                    plan_props.push(PlanProp { name: p.name.clone(), id, format: p.data.format() });
                    proof {
                        lemma_prop_changes_take_step(reqv, j as int);
                        lemma_kind_ids_take_step(reqv, j as int);
                        assert(plan_prop_views(plan_props@).drop_last() =~= plan_prop_views(
                            plan_props@.drop_last(),
                        ));
                    }
                },
                _ => {
                    let id32 = ev.as_id();
                    let in_shared = contains_u32(&self.kinds, id32);
                    let in_batch = contains_u32(&plan_kinds, id32);
                    if in_shared || in_batch {
                        proof {
                            assert(conflict_at(self@, reqv, j as int));
                            assert(first_conflict_at(self@, reqv, j as int));
                        }
                        return Err(Error::AlreadyObserved(Box::new(ev.duplicate())));
                    }
                    plan_kinds.push(id32);
                    proof {
                        lemma_prop_changes_take_step(reqv, j as int);
                        lemma_kind_ids_take_step(reqv, j as int);
                    }
                },
            }
            plan_evs.push(ev.duplicate());
            proof {
                assert(event_views(plan_evs@) =~= reqv.take(j + 1));
            }
            j += 1;
        }
        proof {
            assert(reqv.take(reqv.len() as int) =~= reqv);
        }
        let plan = SubscribePlan { evs: plan_evs, props: plan_props, base_next_id: self.next_id };
        proof {
            assert(plan@.evs == reqv);
            assert(plan_valid(self@, plan@));
        }
        Ok(plan)
    }

    /// Merge a validated batch into the shared registry in one step, after
    /// every native registration of the batch succeeded. Returns the subset
    /// the new iterator owns: its kind ids and its observation ids.
    pub fn subscribe_commit(&mut self, plan: &SubscribePlan) -> (local: LocalSub)
        requires
            registry_wf(old(self)@),
            plan_valid(old(self)@, plan@),
        ensures
            final(self)@.kinds == old(self)@.kinds + kind_ids(plan@.evs),
            final(self)@.props == old(self)@.props + plan_entries(plan@.props),
            final(self)@.next_id == plan@.base_next_id + plan@.props.len(),
            final(self)@.pending == old(self)@.pending,
            registry_wf(final(self)@),
            local@.kind_ids == kind_ids(plan@.evs),
            local@.prop_ids == plan_prop_ids(plan@.props),
    {
        let ghost reg0 = self@;
        let ghost evs = plan@.evs;
        let mut local_kinds: Vec<u32> = Vec::new();
        let mut i: usize = 0;
        proof {
            assert(evs.take(0) =~= Seq::<EventV>::empty());
            assert(self@.kinds =~= reg0.kinds + kind_ids(evs.take(0)));
        }
        while i < plan.evs.len()
            invariant
                0 <= i <= plan.evs@.len(),
                evs == event_views(plan.evs@),
                evs.len() == plan.evs@.len(),
                self@.kinds == reg0.kinds + kind_ids(evs.take(i as int)),
                local_kinds@ == kind_ids(evs.take(i as int)),
                self@.props == reg0.props,
                self@.next_id == reg0.next_id,
                self@.pending == reg0.pending,
            decreases plan.evs@.len() - i,
        {
            proof {
                lemma_kind_ids_take_step(evs, i as int);
                assert(evs[i as int] == plan.evs@[i as int]@);
            }
            match &plan.evs[i] {
                Event::PropertyChange(_) => {},
                _ => {
                    let id = plan.evs[i].as_id();
                    self.kinds.push(id);
                    local_kinds.push(id);
                    proof {
                        assert(self@.kinds =~= reg0.kinds + kind_ids(evs.take(i + 1)));
                    }
                },
            }
            i += 1;
        }
        proof {
            assert(evs.take(evs.len() as int) =~= evs);
        }
        let mut local_props: Vec<u64> = Vec::new();
        let ghost pprops = plan@.props;
        let mut k: usize = 0;
        proof {
            assert(pprops.take(0) =~= Seq::<PlanPropV>::empty());
            assert(self@.props =~= reg0.props + plan_entries(pprops.take(0)));
            assert(local_props@ =~= plan_prop_ids(pprops.take(0)));
        }
        while k < plan.props.len()
            invariant
                0 <= k <= plan.props@.len(),
                pprops == plan_prop_views(plan.props@),
                pprops.len() == plan.props@.len(),
                self@.kinds == reg0.kinds + kind_ids(evs),
                self@.props == reg0.props + plan_entries(pprops.take(k as int)),
                local_props@ == plan_prop_ids(pprops.take(k as int)),
                self@.next_id == reg0.next_id,
                self@.pending == reg0.pending,
            decreases plan.props@.len() - k,
        {
            let entry = PropEntry { name: plan.props[k].name.clone(), id: plan.props[k].id };
            proof {
                assert(entry@ == (PropEntryV {
                    name: plan.props@[k as int]@.name,
                    id: plan.props@[k as int]@.id,
                }));
            }
            self.props.push(entry);
            local_props.push(plan.props[k].id);
            proof {
                assert(pprops.take(k + 1).drop_last() =~= pprops.take(k as int));
                assert(pprops[k as int] == plan.props@[k as int]@);
                let before = reg0.props + plan_entries(pprops.take(k as int));
                let after = reg0.props + plan_entries(pprops.take(k + 1));
                assert(k + 1 <= pprops.len());
                assert(pprops.take(k + 1).len() == k + 1);
                assert(plan_entries(pprops.take(k + 1)).len() == k + 1);
                assert(before.len() == reg0.props.len() + k);
                assert(self@.props.len() == before.len() + 1);
                assert(self@.props.len() == after.len());
                assert forall|i: int| 0 <= i < self@.props.len() implies self@.props[i]
                    == after[i] by {
                    if i < before.len() {
                        assert(self@.props[i] == before[i]);
                        if i >= reg0.props.len() {
                            assert(pprops.take(k + 1)[i - reg0.props.len()] == pprops.take(
                                k as int,
                            )[i - reg0.props.len()]);
                            assert(plan_entries(pprops.take(k + 1))[i - reg0.props.len()]
                                == plan_entries(pprops.take(k as int))[i - reg0.props.len()]);
                        }
                    } else {
                        assert(self@.props[i] == (PropEntryV {
                            name: pprops[k as int].name,
                            id: pprops[k as int].id,
                        }));
                        assert(after[i] == plan_entries(pprops.take(k + 1))[k as int]);
                        assert(pprops.take(k + 1)[k as int] == pprops[k as int]);
                    }
                }
                assert(self@.props =~= after);
                assert(local_props@ =~= plan_prop_ids(pprops.take(k + 1)));
            }
            k += 1;
        }
        self.next_id = plan.base_next_id + (plan.props.len() as u64);
        proof {
            assert(pprops.take(pprops.len() as int) =~= pprops);
            lemma_no_conflict_kind_ids(reg0, evs);
            lemma_no_conflict_props(reg0, evs);
            let fin = self@;
            assert forall|a: int, b: int| 0 <= a < b < fin.kinds.len() implies fin.kinds[a]
                != fin.kinds[b] by {
                let base = reg0.kinds.len();
                if b >= base {
                    if a >= base {
                        assert(kind_ids(evs)[a - base] != kind_ids(evs)[b - base]);
                    } else {
                        assert(kind_ids(evs).contains(kind_ids(evs)[b - base]));
                        assert(!reg0.kinds.contains(kind_ids(evs)[b - base]));
                        if fin.kinds[a] == fin.kinds[b] {
                            assert(reg0.kinds[a] == kind_ids(evs)[b - base]);
                            assert(reg0.kinds.contains(kind_ids(evs)[b - base]));
                        }
                    }
                }
            }
            assert forall|a: int, b: int| 0 <= a < b < fin.props.len() implies (
            #[trigger] fin.props[a]).name != (#[trigger] fin.props[b]).name && fin.props[a].id
                != fin.props[b].id by {
                let base = reg0.props.len();
                if b >= base {
                    assert(fin.props[b] == plan_entries(pprops)[b - base]);
                    assert(pprops[b - base].name == prop_changes(evs)[b - base].name);
                    assert(pprops[b - base].id == plan@.base_next_id + (b - base));
                    if a >= base {
                        assert(fin.props[a] == plan_entries(pprops)[a - base]);
                        assert(pprops[a - base].name == prop_changes(evs)[a - base].name);
                    } else {
                        assert(reg0.props[a].id < reg0.next_id);
                        if fin.props[a].name == fin.props[b].name {
                            assert(has_prop_name(reg0, prop_changes(evs)[b - base].name));
                        }
                    }
                }
            }
            assert forall|a: int| 0 <= a < fin.props.len() implies (#[trigger] fin.props[a]).id
                < fin.next_id by {
                let base = reg0.props.len();
                if a >= base {
                    assert(fin.props[a] == plan_entries(pprops)[a - base]);
                }
            }
        }
        LocalSub { kind_ids: local_kinds, prop_ids: local_props }
    }

    /// Append an event the engine materialized to the delivery buffer, in
    /// emission order.
    pub fn push_pending(&mut self, ev: PendingEvent)
        ensures
            final(self)@.pending == old(self)@.pending.push(ev@),
            final(self)@.kinds == old(self)@.kinds,
            final(self)@.props == old(self)@.props,
            final(self)@.next_id == old(self)@.next_id,
            registry_wf(old(self)@) ==> registry_wf(final(self)@),
    {
        let ghost before = self@.pending;
        let ghost evv = ev@;
        self.pending.push(ev);
        proof {
            assert(self@.pending =~= before.push(evv));
        }
    }

    /// Remove from the delivery buffer exactly the entries this subscription
    /// owns and hand them out in emission order; when nothing matches, the
    /// buffer is untouched and the benign `NoAssociatedEvent` sentinel says
    /// to wait for the next wake.
    pub fn drain(&mut self, local: &LocalSub) -> (r: Result<Vec<Event>, Error>)
        ensures
            final(self)@.kinds == old(self)@.kinds,
            final(self)@.props == old(self)@.props,
            final(self)@.next_id == old(self)@.next_id,
            registry_wf(old(self)@) ==> registry_wf(final(self)@),
            final(self)@.pending == old(self)@.pending.filter(
                |pe: PendingEventV| !matches_local(local@, pe),
            ),
            ({
                let m = old(self)@.pending.filter(|pe: PendingEventV| matches_local(local@, pe));
                &&& m.len() > 0 ==> (r matches Ok(v) && event_views(v@) == events_of_pending(m))
                &&& m.len() == 0 ==> (r matches Err(e) && e@ == ErrorV::NoAssociatedEvent
                    && final(self)@.pending == old(self)@.pending)
            }),
    {
        let ghost pend0 = self@.pending;
        let ghost keep_pred = |pe: PendingEventV| !matches_local(local@, pe);
        let ghost take_pred = |pe: PendingEventV| matches_local(local@, pe);
        let mut matched: Vec<Event> = Vec::new();
        let mut kept: Vec<PendingEvent> = Vec::new();
        let mut i: usize = 0;
        proof {
            assert(pend0.take(0) =~= Seq::<PendingEventV>::empty());
            reveal(Seq::filter);
            assert(event_views(matched@) =~= events_of_pending(pend0.take(0).filter(take_pred)));
            assert(pending_views(kept@) =~= pend0.take(0).filter(keep_pred));
        }
        while i < self.pending.len()
            invariant
                0 <= i <= self.pending@.len(),
                pend0 == pending_views(self.pending@),
                pend0.len() == self.pending@.len(),
                take_pred == (|pe: PendingEventV| matches_local(local@, pe)),
                keep_pred == (|pe: PendingEventV| !matches_local(local@, pe)),
                event_views(matched@) == events_of_pending(pend0.take(i as int).filter(take_pred)),
                pending_views(kept@) == pend0.take(i as int).filter(keep_pred),
            decreases self.pending@.len() - i,
        {
            let pe = &self.pending[i];
            proof {
                assert(pe@ == pend0[i as int]);
                lemma_filter_take_step(pend0, take_pred, i as int);
                lemma_filter_take_step(pend0, keep_pred, i as int);
            }
            let is_match: bool = match &pe.event {
                Event::PropertyChange(_) => {
                    match pe.prop_id {
                        Some(id) => contains_u64(&local.prop_ids, id),
                        None => false,
                    }
                },
                _ => contains_u32(&local.kind_ids, pe.event.as_id()),
            };
            proof {
                assert(is_match == matches_local(local@, pend0[i as int]));
            }
            let ghost matched0 = matched@;
            let ghost kept0 = kept@;
            let ghost prev_m = pend0.take(i as int).filter(take_pred);
            let ghost prev_k = pend0.take(i as int).filter(keep_pred);
            let ghost cur_m = pend0.take(i + 1).filter(take_pred);
            let ghost cur_k = pend0.take(i + 1).filter(keep_pred);
            if is_match {
                matched.push(pe.event.duplicate());
                proof {
                    assert(take_pred(pend0[i as int]));
                    assert(!keep_pred(pend0[i as int]));
                    assert(cur_m == prev_m.push(pend0[i as int]));
                    assert(cur_k == prev_k);
                    assert(event_views(matched0).len() == matched0.len());
                    assert(events_of_pending(prev_m).len() == prev_m.len());
                    assert(matched0.len() == prev_m.len());
                    assert(event_views(matched@).len() == matched@.len());
                    assert(matched@.len() == matched0.len() + 1);
                    assert(events_of_pending(cur_m).len() == cur_m.len());
                    assert forall|j: int| 0 <= j < matched@.len() implies event_views(matched@)[j]
                        == events_of_pending(cur_m)[j] by {
                        if j < matched0.len() {
                            assert(matched@[j] == matched0[j]);
                            assert(event_views(matched0)[j] == events_of_pending(prev_m)[j]);
                            assert(cur_m[j] == prev_m[j]);
                        } else {
                            assert(matched@[j]@ == pend0[i as int].event);
                            assert(cur_m[j] == pend0[i as int]);
                        }
                    }
                    assert(event_views(matched@) =~= events_of_pending(cur_m));
                    assert(pending_views(kept@) == prev_k);
                }
            } else {
                let copy = PendingEvent { event: pe.event.duplicate(), prop_id: pe.prop_id };
                kept.push(copy);
                proof {
                    assert(!take_pred(pend0[i as int]));
                    assert(keep_pred(pend0[i as int]));
                    assert(cur_m == prev_m);
                    assert(cur_k == prev_k.push(pend0[i as int]));
                    assert(pending_views(kept0).len() == kept0.len());
                    assert(kept0.len() == prev_k.len());
                    assert(pending_views(kept@).len() == kept@.len());
                    assert(kept@.len() == kept0.len() + 1);
                    assert forall|j: int| 0 <= j < kept@.len() implies pending_views(kept@)[j]
                        == cur_k[j] by {
                        if j < kept0.len() {
                            assert(kept@[j] == kept0[j]);
                            assert(pending_views(kept0)[j] == prev_k[j]);
                            assert(cur_k[j] == prev_k[j]);
                        } else {
                            assert(kept@[j]@ == pend0[i as int]);
                            assert(cur_k[j] == pend0[i as int]);
                        }
                    }
                    assert(pending_views(kept@) =~= cur_k);
                    assert(event_views(matched@) == events_of_pending(prev_m));
                }
            }
            i += 1;
        }
        proof {
            assert(pend0.take(pend0.len() as int) =~= pend0);
        }
        self.pending = kept;
        proof {
            let r0 = old(self)@;
            let r1 = self@;
            assert(r1.kinds == r0.kinds);
            assert(r1.props == r0.props);
            assert(r1.next_id == r0.next_id);
            if registry_wf(r0) {
                assert(unique_u32(r1.kinds));
                assert(registry_wf(r1));
            }
        }
        if matched.len() == 0 {
            proof {
                let m = pend0.filter(take_pred);
                assert(events_of_pending(m).len() == m.len());
                assert(event_views(matched@).len() == 0);
                assert(m.len() == 0);
                lemma_filter_complement_all(pend0, take_pred, keep_pred);
            }
            Err(Error::NoAssociatedEvent)
        } else {
            Ok(matched)
        }
    }

    /// Tear one subscription down: remove exactly its kinds and its
    /// properties from the shared registry — nothing of any sibling — and
    /// return the observation ids whose native registrations are now to be
    /// undone. The delivery buffer is left alone.
    pub fn unsubscribe(&mut self, local: &LocalSub) -> (removed: Vec<u64>)
        requires
            registry_wf(old(self)@),
        ensures
            final(self)@.kinds == old(self)@.kinds.filter(
                |id: u32| !local@.kind_ids.contains(id),
            ),
            final(self)@.props == old(self)@.props.filter(
                |p: PropEntryV| !local@.prop_ids.contains(p.id),
            ),
            final(self)@.next_id == old(self)@.next_id,
            final(self)@.pending == old(self)@.pending,
            removed@ == old(self)@.props.filter(
                |p: PropEntryV| local@.prop_ids.contains(p.id),
            ).map_values(|p: PropEntryV| p.id),
            registry_wf(final(self)@),
    {
        let ghost reg0 = self@;
        let ghost kind_keep = |id: u32| !local@.kind_ids.contains(id);
        let mut kept_kinds: Vec<u32> = Vec::new();
        let mut i: usize = 0;
        proof {
            assert(reg0.kinds.take(0) =~= Seq::<u32>::empty());
            reveal(Seq::filter);
            assert(kept_kinds@ =~= reg0.kinds.take(0).filter(kind_keep));
        }
        while i < self.kinds.len()
            invariant
                0 <= i <= self.kinds@.len(),
                reg0.kinds == self.kinds@,
                reg0.props == prop_entry_views(self.props@),
                reg0.next_id == self@.next_id,
                reg0.pending == self@.pending,
                kind_keep == (|id: u32| !local@.kind_ids.contains(id)),
                kept_kinds@ == reg0.kinds.take(i as int).filter(kind_keep),
            decreases self.kinds@.len() - i,
        {
            proof {
                lemma_filter_take_step(reg0.kinds, kind_keep, i as int);
            }
            let id = self.kinds[i];
            if !contains_u32(&local.kind_ids, id) {
                kept_kinds.push(id);
            }
            i += 1;
        }
        proof {
            assert(reg0.kinds.take(reg0.kinds.len() as int) =~= reg0.kinds);
        }
        let ghost prop_keep = |p: PropEntryV| !local@.prop_ids.contains(p.id);
        let ghost prop_drop = |p: PropEntryV| local@.prop_ids.contains(p.id);
        let mut kept_props: Vec<PropEntry> = Vec::new();
        let mut removed: Vec<u64> = Vec::new();
        let mut k: usize = 0;
        proof {
            assert(reg0.props.take(0) =~= Seq::<PropEntryV>::empty());
            assert(prop_entry_views(kept_props@) =~= reg0.props.take(0).filter(prop_keep));
            assert(removed@ =~= reg0.props.take(0).filter(prop_drop).map_values(
                |p: PropEntryV| p.id,
            ));
        }
        while k < self.props.len()
            invariant
                0 <= k <= self.props@.len(),
                reg0.props == prop_entry_views(self.props@),
                reg0.props.len() == self.props@.len(),
                reg0.kinds == self.kinds@,
                reg0.next_id == self@.next_id,
                reg0.pending == self@.pending,
                prop_keep == (|p: PropEntryV| !local@.prop_ids.contains(p.id)),
                prop_drop == (|p: PropEntryV| local@.prop_ids.contains(p.id)),
                prop_entry_views(kept_props@) == reg0.props.take(k as int).filter(prop_keep),
                removed@ == reg0.props.take(k as int).filter(prop_drop).map_values(
                    |p: PropEntryV| p.id,
                ),
            decreases self.props@.len() - k,
        {
            proof {
                lemma_filter_take_step(reg0.props, prop_keep, k as int);
                lemma_filter_take_step(reg0.props, prop_drop, k as int);
                assert(reg0.props[k as int] == self.props@[k as int]@);
            }
            let id = self.props[k].id;
            if contains_u64(&local.prop_ids, id) {
                removed.push(id);
                proof {
                    assert(removed@ =~= reg0.props.take(k + 1).filter(prop_drop).map_values(
                        |p: PropEntryV| p.id,
                    ));
                }
            } else {
                let entry = PropEntry { name: self.props[k].name.clone(), id };
                kept_props.push(entry);
                proof {
                    assert(prop_entry_views(kept_props@) =~= reg0.props.take(k + 1).filter(
                        prop_keep,
                    ));
                }
            }
            k += 1;
        }
        proof {
            assert(reg0.props.take(reg0.props.len() as int) =~= reg0.props);
        }
        self.kinds = kept_kinds;
        self.props = kept_props;
        proof {
            lemma_filter_unique_u32(reg0.kinds, kind_keep);
            lemma_filter_props_wf(reg0, prop_keep);
        }
        removed
    }
}

/// Filtering keeps pairwise distinctness of ids.
proof fn lemma_filter_unique_u32(s: Seq<u32>, pred: spec_fn(u32) -> bool)
    requires
        unique_u32(s),
    ensures
        unique_u32(s.filter(pred)),
        forall|x: u32| #[trigger] s.filter(pred).contains(x) ==> s.contains(x),
    decreases s.len(),
{
    reveal(Seq::filter);
    if s.len() > 0 {
        let dl = s.drop_last();
        assert(unique_u32(dl)) by {
            assert forall|i: int, j: int| 0 <= i < j < dl.len() implies dl[i] != dl[j] by {
                assert(s[i] != s[j]);
            }
        }
        lemma_filter_unique_u32(dl, pred);
        if pred(s.last()) {
            let f = dl.filter(pred).push(s.last());
            assert forall|i: int, j: int| 0 <= i < j < f.len() implies f[i] != f[j] by {
                if j < f.len() - 1 {
                    assert(dl.filter(pred)[i] != dl.filter(pred)[j]);
                } else {
                    assert(f[i] == dl.filter(pred)[i]);
                    assert(dl.filter(pred).contains(f[i]));
                    assert(dl.contains(f[i]));
                    let w = choose|w: int| 0 <= w < dl.len() && dl[w] == f[i];
                    assert(s[w] != s.last());
                }
            }
            assert forall|x: u32| #[trigger] f.contains(x) implies s.contains(x) by {
                let w = choose|w: int| 0 <= w < f.len() && f[w] == x;
                if w < f.len() - 1 {
                    assert(dl.filter(pred).contains(x));
                    let v = choose|v: int| 0 <= v < dl.len() && dl[v] == x;
                    assert(s[v] == x);
                } else {
                    assert(s[s.len() - 1] == x);
                }
            }
        } else {
            assert forall|x: u32| #[trigger] s.filter(pred).contains(x) implies s.contains(x) by {
                assert(dl.filter(pred).contains(x));
                let v = choose|v: int| 0 <= v < dl.len() && dl[v] == x;
                assert(s[v] == x);
            }
        }
    }
}

/// Filtering the observed properties keeps the registry well-formed.
proof fn lemma_filter_props_wf(r: RegistryV, pred: spec_fn(PropEntryV) -> bool)
    requires
        registry_wf(r),
    ensures
        forall|i: int, j: int|
            0 <= i < j < r.props.filter(pred).len() ==> (#[trigger] r.props.filter(
                pred,
            )[i]).name != (#[trigger] r.props.filter(pred)[j]).name && r.props.filter(pred)[i].id
                != r.props.filter(pred)[j].id,
        forall|i: int|
            0 <= i < r.props.filter(pred).len() ==> (#[trigger] r.props.filter(pred)[i]).id
                < r.next_id,
{
    lemma_filter_props_unique(r.props, pred);
    assert forall|i: int|
        0 <= i < r.props.filter(pred).len() implies (#[trigger] r.props.filter(pred)[i]).id
        < r.next_id by {
        lemma_filter_elem_of(r.props, pred, i);
        let w = choose|w: int|
            0 <= w < r.props.len() && #[trigger] r.props[w] == r.props.filter(pred)[i];
    }
}

/// An element of a filtered sequence occurs in the original.
proof fn lemma_filter_elem_of<A>(s: Seq<A>, pred: spec_fn(A) -> bool, i: int)
    requires
        0 <= i < s.filter(pred).len(),
    ensures
        exists|w: int| 0 <= w < s.len() && #[trigger] s[w] == s.filter(pred)[i],
    decreases s.len(),
{
    reveal(Seq::filter);
    if s.len() > 0 {
        let dl = s.drop_last();
        if pred(s.last()) && i == s.filter(pred).len() - 1 {
            assert(s[s.len() - 1] == s.filter(pred)[i]);
        } else {
            lemma_filter_elem_of(dl, pred, i);
            let w = choose|w: int| 0 <= w < dl.len() && #[trigger] dl[w] == dl.filter(pred)[i];
            assert(s[w] == s.filter(pred)[i]);
        }
    }
}

/// Filtering keeps the pairwise distinctness of property names and ids.
proof fn lemma_filter_props_unique(s: Seq<PropEntryV>, pred: spec_fn(PropEntryV) -> bool)
    requires
        forall|i: int, j: int|
            0 <= i < j < s.len() ==> (#[trigger] s[i]).name != (#[trigger] s[j]).name,
        forall|i: int, j: int| 0 <= i < j < s.len() ==> (#[trigger] s[i]).id != (#[trigger] s[j]).id,
    ensures
        forall|i: int, j: int|
            0 <= i < j < s.filter(pred).len() ==> (#[trigger] s.filter(pred)[i]).name != (
            #[trigger] s.filter(pred)[j]).name && s.filter(pred)[i].id != s.filter(pred)[j].id,
    decreases s.len(),
{
    reveal(Seq::filter);
    if s.len() > 0 {
        let dl = s.drop_last();
        assert forall|i: int, j: int|
            0 <= i < j < dl.len() implies (#[trigger] dl[i]).name != (#[trigger] dl[j]).name && (
        dl[i]).id != (dl[j]).id by {
            assert(s[i].name != s[j].name);
            assert(s[i].id != s[j].id);
        }
        lemma_filter_props_unique(dl, pred);
        if pred(s.last()) {
            let f = dl.filter(pred).push(s.last());
            assert forall|i: int, j: int|
                0 <= i < j < f.len() implies (#[trigger] f[i]).name != (#[trigger] f[j]).name && (
            f[i]).id != (f[j]).id by {
                if j < f.len() - 1 {
                    assert(dl.filter(pred)[i].name != dl.filter(pred)[j].name);
                    assert(dl.filter(pred)[i].id != dl.filter(pred)[j].id);
                } else {
                    assert(f[i] == dl.filter(pred)[i]);
                    lemma_filter_elem_of(dl, pred, i);
                    let w = choose|w: int| 0 <= w < dl.len() && #[trigger] dl[w] == f[i];
                    assert(s[w].name != s.last().name);
                    assert(s[w].id != s.last().id);
                }
            }
        }
    }
}

/// Every buffer entry is kept or handed out: the matched and unmatched parts
/// partition the buffer by length.
proof fn lemma_filter_split(s: Seq<PendingEventV>, pred: spec_fn(PendingEventV) -> bool)
    ensures
        s.filter(pred).len() + s.filter(|pe: PendingEventV| !pred(pe)).len() == s.len(),
    decreases s.len(),
{
    reveal(Seq::filter);
    if s.len() > 0 {
        lemma_filter_split(s.drop_last(), pred);
    }
}

/// When nothing matches, filtering out the matches keeps every entry.
proof fn lemma_filter_complement_all(
    s: Seq<PendingEventV>,
    p: spec_fn(PendingEventV) -> bool,
    q: spec_fn(PendingEventV) -> bool,
)
    requires
        forall|x: PendingEventV| #[trigger] q(x) == !p(x),
        s.filter(p).len() == 0,
    ensures
        s.filter(q) == s,
    decreases s.len(),
{
    reveal(Seq::filter);
    if s.len() == 0 {
        assert(s.filter(q) =~= s);
    } else {
        let dl = s.drop_last();
        assert(dl.filter(p).len() <= s.filter(p).len()) by {
            if p(s.last()) {
                assert(s.filter(p).len() == dl.filter(p).len() + 1);
            }
        }
        lemma_filter_complement_all(dl, p, q);
        assert(q(s.last()));
        assert(s.filter(q) =~= s);
    }
}

/// Whether one pending entry belongs to a subscription subset: a
/// property-change entry by its observation id, anything else by its native
/// event id.
pub open spec fn matches_local(l: LocalSubV, pe: PendingEventV) -> bool {
    if is_property_change(pe.event) {
        pe.prop_id matches Some(id) && l.prop_ids.contains(id)
    } else {
        l.kind_ids.contains(event_id(pe.event))
    }
}

/// Law: subscribing an event kind twice on one instance without an
/// intervening teardown is rejected. Once a batch holding a plain kind is
/// committed (`r1` is the registry after [`Registry::subscribe_commit`]),
/// any later batch holding an event of the same kind conflicts, so
/// [`Registry::subscribe_begin`] answers it with `AlreadyObserved` — and,
/// taking the registry by shared reference, changes nothing of it.
pub proof fn lemma_double_kind_subscription_conflicts(
    r0: RegistryV,
    plan: SubscribePlanV,
    r1: RegistryV,
    i: int,
    req2: Seq<EventV>,
    j: int,
)
    requires
        r1.kinds == r0.kinds + kind_ids(plan.evs),
        0 <= i < plan.evs.len(),
        !is_property_change(plan.evs[i]),
        0 <= j < req2.len(),
        !is_property_change(req2[j]),
        event_id(req2[j]) == event_id(plan.evs[i]),
    ensures
        conflict_at(r1, req2, j),
        has_conflict(r1, req2),
{
    lemma_kind_ids_elem(plan.evs, plan.evs.len() as int);
    assert(plan.evs.take(plan.evs.len() as int) =~= plan.evs);
    let x = event_id(plan.evs[i]);
    assert(kind_ids(plan.evs).contains(x));
    let w = choose|w: int| 0 <= w < kind_ids(plan.evs).len() && kind_ids(plan.evs)[w] == x;
    assert(r1.kinds[r0.kinds.len() + w] == x);
    assert(r1.kinds.contains(x));
    assert(conflict_at(r1, req2, j));
}

/// Law: subscribing a property-change for one name on two live iterators is
/// rejected on the second. Once a batch registering the property is
/// committed (`r1` holds its entry), any later batch asking for the same
/// name conflicts, so [`Registry::subscribe_begin`] answers it with
/// `AlreadyObserved`.
pub proof fn lemma_double_property_subscription_conflicts(
    r0: RegistryV,
    plan: SubscribePlanV,
    r1: RegistryV,
    k: int,
    req2: Seq<EventV>,
    j: int,
)
    requires
        r1.props == r0.props + plan_entries(plan.props),
        0 <= k < plan.props.len(),
        0 <= j < req2.len(),
        is_property_change(req2[j]),
        req2[j]->PropertyChange_0.name == plan.props[k].name,
    ensures
        conflict_at(r1, req2, j),
        has_conflict(r1, req2),
{
    assert(r1.props[r0.props.len() + k] == plan_entries(plan.props)[k]);
    assert(r1.props[r0.props.len() + k].name == plan.props[k].name);
    assert(has_prop_name(r1, plan.props[k].name));
}

/// Law: after the iterator holding a property is torn down, subscribing the
/// same property succeeds. When every registry entry bearing the name
/// belonged to the subscription that was removed (`r2` is the registry
/// after [`Registry::unsubscribe`]), the name is free again, and a batch
/// asking just for it is free of conflicts, so
/// [`Registry::subscribe_begin`] accepts it.
pub proof fn lemma_property_free_after_teardown(
    r1: RegistryV,
    local: LocalSubV,
    r2: RegistryV,
    p: PropertyV,
)
    requires
        r2.props == r1.props.filter(|q: PropEntryV| !local.prop_ids.contains(q.id)),
        forall|k: int|
            0 <= k < r1.props.len() && (#[trigger] r1.props[k]).name == p.name
                ==> local.prop_ids.contains(r1.props[k].id),
    ensures
        !has_prop_name(r2, p.name),
        !has_conflict(r2, seq![EventV::PropertyChange(p)]),
{
    let keep = |q: PropEntryV| !local.prop_ids.contains(q.id);
    assert forall|k: int| 0 <= k < r2.props.len() implies (#[trigger] r2.props[k]).name
        != p.name by {
        r1.props.lemma_filter_pred(keep, k);
        lemma_filter_elem_of(r1.props, keep, k);
        let w = choose|w: int| 0 <= w < r1.props.len() && #[trigger] r1.props[w] == r2.props[k];
        if r2.props[k].name == p.name {
            assert(local.prop_ids.contains(r1.props[w].id));
        }
    }
    let s = seq![EventV::PropertyChange(p)];
    assert forall|j: int| 0 <= j < s.len() implies !conflict_at(r2, s, j) by {
        assert(j == 0);
        assert(s.take(0) =~= Seq::<EventV>::empty());
        assert(prop_changes(s.take(0)).len() == 0);
        assert(prop_names(prop_changes(s.take(0))).len() == 0);
        assert(s[0] == EventV::PropertyChange(p));
    }
}

/// Law: no event is ever delivered to more than one consumer. Two
/// subscription subsets with disjoint ids — as all live subsets are, since
/// a batch that repeats an observed kind or property name is rejected —
/// never both match one buffer entry, so sibling iterators drain disjoint
/// parts of one wake cycle.
pub proof fn lemma_disjoint_consumption(a: LocalSubV, b: LocalSubV, pe: PendingEventV)
    requires
        forall|x: u32| a.kind_ids.contains(x) ==> !b.kind_ids.contains(x),
        forall|x: u64| a.prop_ids.contains(x) ==> !b.prop_ids.contains(x),
    ensures
        !(matches_local(a, pe) && matches_local(b, pe)),
{
}

/// Law: tearing iterator A down never removes iterator B's subscriptions.
/// For subscription subsets with disjoint ids on one instance (`r2` is the
/// registry after A's [`Registry::unsubscribe`]), every kind and every
/// property entry of B survives, and the delivery buffer is untouched, so B
/// drains its events afterwards exactly as before.
pub proof fn lemma_teardown_preserves_sibling(
    r1: RegistryV,
    a: LocalSubV,
    b: LocalSubV,
    r2: RegistryV,
)
    requires
        r2.kinds == r1.kinds.filter(|id: u32| !a.kind_ids.contains(id)),
        r2.props == r1.props.filter(|q: PropEntryV| !a.prop_ids.contains(q.id)),
        r2.pending == r1.pending,
        forall|x: u32| b.kind_ids.contains(x) ==> !a.kind_ids.contains(x),
        forall|x: u64| b.prop_ids.contains(x) ==> !a.prop_ids.contains(x),
    ensures
        forall|k: int|
            0 <= k < r1.kinds.len() && b.kind_ids.contains(#[trigger] r1.kinds[k])
                ==> r2.kinds.contains(r1.kinds[k]),
        forall|k: int|
            0 <= k < r1.props.len() && b.prop_ids.contains((#[trigger] r1.props[k]).id)
                ==> r2.props.contains(r1.props[k]),
        forall|pe: PendingEventV|
            r1.pending.contains(pe) && matches_local(b, pe) ==> r2.pending.contains(pe),
{
    let keep_kind = |id: u32| !a.kind_ids.contains(id);
    let keep_prop = |q: PropEntryV| !a.prop_ids.contains(q.id);
    assert forall|k: int|
        0 <= k < r1.kinds.len() && b.kind_ids.contains(#[trigger] r1.kinds[k]) implies
        r2.kinds.contains(r1.kinds[k]) by {
        assert(keep_kind(r1.kinds[k]));
        r1.kinds.lemma_filter_contains(keep_kind, k);
    }
    assert forall|k: int|
        0 <= k < r1.props.len() && b.prop_ids.contains((#[trigger] r1.props[k]).id) implies
        r2.props.contains(r1.props[k]) by {
        assert(keep_prop(r1.props[k]));
        r1.props.lemma_filter_contains(keep_prop, k);
    }
}

} // verus!
