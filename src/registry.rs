//! The device registry: every known device by identity, with its session
//! and its handle, and the device that is currently selected.
use crate::identity::{identity, info_identity, CameraId, DeviceInfo};
use crate::session::{
    advance_spec, begin_spec, same_outcome, session_wf, sv, Report, Request, Session, SessionView,
    Stage, Step,
};
use crate::Error;
use std::collections::HashMap;
use vstd::prelude::*;

verus! {

broadcast use vstd::std_specs::hash::group_hash_axioms;

/// One known device: its identity, what it reported about itself, its
/// session, and the handle through which the transport reaches it.
pub struct Slot<H> {
    pub id: CameraId,
    pub info: DeviceInfo,
    pub session: Session,
    pub handle: H,
}

/// A slot made for a device that was just discovered.
pub open spec fn is_fresh_slot<H>(s: Slot<H>, id: CameraId, info: DeviceInfo, handle: H) -> bool {
    &&& s.id == id
    &&& s.info == info
    &&& s.handle == handle
    &&& s.session@ == sv(false, false, Stage::Idle)
}

/// `after` is `before` with the session of the slot under `k` replaced by one
/// whose view is `v`, and nothing else changed.
pub open spec fn session_replaced<H>(before: Map<u64, Slot<H>>, after: Map<u64, Slot<H>>, k: u64, v: SessionView) -> bool {
    &&& after.dom() == before.dom()
    &&& after.remove(k) == before.remove(k)
    &&& after[k].id == before[k].id
    &&& after[k].info == before[k].info
    &&& after[k].handle == before[k].handle
    &&& after[k].session@ == v
}

/// Whether one of the enumerated devices has identity `k`.
pub open spec fn is_found<H>(found: Seq<(DeviceInfo, H)>, k: u64) -> bool {
    exists|j: int| 0 <= j < found.len() && info_identity(#[trigger] found[j].0) == k
}

/// Whether `v` holds `k`.
fn contains_value(v: &Vec<u64>, k: u64) -> (r: bool)
    ensures
        r == v@.contains(k),
{
    let mut i: usize = 0;
    while i < v.len()
        invariant
            i <= v@.len(),
            forall|j: int| 0 <= j < i ==> v@[j] != k,
        decreases v@.len() - i,
    {
        if v[i] == k {
            return true;
        }
        i = i + 1;
    }
    false
}

/// What a scan changed: the identities that were added, and the slots of the
/// devices that disappeared, handed back so that their channels can be shut.
pub struct ScanReport<H> {
    pub added: Vec<CameraId>,
    pub removed: Vec<Slot<H>>,
}

/// What a scan of the devices `found` does to a registry `before`, giving
/// `after` and `report`: the known identities become exactly those found;
/// devices found again keep their slot, session included; new devices get a
/// fresh slot from the first enumerated device with their identity; `added`
/// and `removed` list exactly the devices that came and went; a surviving
/// selection is kept, otherwise the smallest identity is selected, if any;
/// and an enumeration of exactly the known devices changes nothing.
pub open spec fn scanned<H>(before: Context<H>, after: Context<H>, found: Seq<(DeviceInfo, H)>, report: ScanReport<H>) -> bool {
    &&& forall|k: u64| #[trigger] after.slots().contains_key(k) <==> is_found(found, k)
    &&& forall|k: u64| #[trigger] before.slots().contains_key(k) && is_found(found, k)
        ==> after.slots()[k] == before.slots()[k]
    &&& forall|k: u64| !before.slots().contains_key(k) && #[trigger] after.slots().contains_key(k)
        ==> exists|j: int| 0 <= j < found.len() && info_identity(#[trigger] found[j].0) == k
            && is_fresh_slot(after.slots()[k], CameraId(k), found[j].0, found[j].1)
    &&& report.added@.no_duplicates()
    &&& forall|i: int| 0 <= i < report.added@.len() ==> !before.slots().contains_key(#[trigger] report.added@[i].0)
        && after.slots().contains_key(report.added@[i].0)
    &&& forall|k: u64| !before.slots().contains_key(k) && #[trigger] after.slots().contains_key(k)
        ==> exists|i: int| 0 <= i < report.added@.len() && #[trigger] report.added@[i].0 == k
    &&& forall|i: int| 0 <= i < report.removed@.len() ==> {
        let s = #[trigger] report.removed@[i];
        &&& before.slots().contains_key(s.id.0)
        &&& !is_found(found, s.id.0)
        &&& s == before.slots()[s.id.0]
    }
    &&& forall|k: u64| #[trigger] before.slots().contains_key(k) && !is_found(found, k)
        ==> exists|i: int| 0 <= i < report.removed@.len() && #[trigger] report.removed@[i].id.0 == k
    &&& match before.selection() {
        Some(s) => is_found(found, s.0) ==> after.selection() == Some(s),
        None => true,
    }
    &&& (forall|k: u64| #[trigger] before.slots().contains_key(k) <==> is_found(found, k)) ==> {
        &&& after.slots() == before.slots()
        &&& report.added@.len() == 0
        &&& report.removed@.len() == 0
        &&& (before.selection() is Some ==> after.selection() == before.selection())
    }
    &&& match after.selection() {
        Some(m) => after.has(m) && (before.selection() == Some(m)
            || forall|k: u64| #[trigger] after.slots().contains_key(k) ==> m.0 <= k),
        None => forall|k: u64| !#[trigger] after.slots().contains_key(k),
    }
}

/// The registry. `H` is the type of the device handles it owns.
pub struct Context<H> {
    slots: HashMap<u64, Slot<H>>,
    order: Vec<CameraId>,
    selected: Option<CameraId>,
}

impl<H> Context<H> {
    /// The known devices, keyed by the value of their identity.
    pub closed spec fn slots(&self) -> Map<u64, Slot<H>> {
        self.slots@
    }

    /// The known identities, in the order in which they were added.
    pub closed spec fn order(&self) -> Seq<CameraId> {
        self.order@
    }

    /// The selected device, if any.
    pub closed spec fn selection(&self) -> Option<CameraId> {
        self.selected
    }

    /// Whether a device with this identity is known.
    pub open spec fn has(&self, id: CameraId) -> bool {
        self.slots().contains_key(id.0)
    }

    /// The registry's invariant: each slot sits under its own identity and
    /// has a well-formed session; the order lists each key exactly once; the
    /// selection, if present, is a known device.
    pub open spec fn wf(&self) -> bool {
        &&& forall|k: u64| #[trigger] self.slots().contains_key(k) ==> {
            &&& self.slots()[k].id.0 == k
            &&& session_wf(self.slots()[k].session@)
        }
        &&& self.order().no_duplicates()
        &&& forall|i: int| 0 <= i < self.order().len() ==> self.slots().contains_key(#[trigger] self.order()[i].0)
        &&& forall|k: u64| #[trigger] self.slots().contains_key(k) ==> exists|i: int|
            0 <= i < self.order().len() && #[trigger] self.order()[i].0 == k
        &&& self.selection() is Some ==> self.has(self.selection().unwrap())
    }

    /// An empty registry.
    pub fn new() -> (r: Context<H>)
        ensures
            r.wf(),
            r.slots() == Map::<u64, Slot<H>>::empty(),
            r.order() == Seq::<CameraId>::empty(),
            r.selection() is None,
    {
        Context { slots: HashMap::new(), order: Vec::new(), selected: None }
    }

    /// The selected device.
    pub fn selected(&self) -> (r: Option<CameraId>)
        ensures
            r == self.selection(),
    {
        self.selected
    }

    /// The known identities, oldest first.
    pub fn ids(&self) -> (r: Vec<CameraId>)
        ensures
            r@ == self.order(),
    {
        let mut r: Vec<CameraId> = Vec::new();
        let mut i: usize = 0;
        while i < self.order.len()
            invariant
                i <= self.order@.len(),
                r@ == self.order@.subrange(0, i as int),
            decreases self.order@.len() - i,
        {
            r.push(self.order[i]);
            i = i + 1;
            assert(r@ =~= self.order@.subrange(0, i as int));
        }
        assert(r@ =~= self.order@);
        r
    }

    /// Whether a device with this identity is known.
    pub fn contains(&self, id: CameraId) -> (r: bool)
        ensures
            r == self.has(id),
    {
        self.slots.contains_key(&id.0)
    }

    /// The slot of a known device; `None` when the identity is unknown.
    pub fn get(&self, id: CameraId) -> (r: Option<&Slot<H>>)
        ensures
            match r {
                Some(s) => self.has(id) && *s == self.slots()[id.0],
                None => !self.has(id),
            },
    {
        self.slots.get(&id.0)
    }

    /// Selects a known device; an unknown identity fails with `NotFound` and
    /// leaves the selection as it was.
    pub fn select(&mut self, id: CameraId) -> (r: Result<(), Error>)
        requires
            old(self).wf(),
        ensures
            final(self).wf(),
            final(self).slots() == old(self).slots(),
            final(self).order() == old(self).order(),
            old(self).has(id) ==> r is Ok && final(self).selection() == Some(id),
            !old(self).has(id) ==> r == Err::<(), Error>(Error::NotFound(id))
                && final(self).selection() == old(self).selection(),
    {
        if self.slots.contains_key(&id.0) {
            self.selected = Some(id);
            Ok(())
        } else {
            Err(Error::NotFound(id))
        }
    }

    /// Adds a device under its identity, with a closed session, and returns
    /// the identity. A device that is already known keeps its slot: the new
    /// description and handle are dropped.
    pub fn add(&mut self, info: DeviceInfo, handle: H) -> (id: CameraId)
        requires
            old(self).wf(),
        ensures
            final(self).wf(),
            id.0 == info_identity(info),
            final(self).selection() == old(self).selection(),
            old(self).has(id) ==> final(self).slots() == old(self).slots()
                && final(self).order() == old(self).order(),
            !old(self).has(id) ==> {
                &&& final(self).slots().dom() == old(self).slots().dom().insert(id.0)
                &&& final(self).slots().remove(id.0) == old(self).slots()
                &&& is_fresh_slot(final(self).slots()[id.0], id, info, handle)
                &&& final(self).order() == old(self).order().push(id)
            },
    {
        let id = identity(&info);
        if !self.slots.contains_key(&id.0) {
            let ghost old_slots = self.slots@;
            let ghost old_order = self.order@;
            self.slots.insert(id.0, Slot { id, info, session: Session::new(), handle });
            self.order.push(id);
            proof {
                assert(self.slots@.remove(id.0) =~= old_slots);
                assert forall|k: u64| #[trigger] self.slots@.contains_key(k) implies exists|i: int|
                    0 <= i < self.order@.len() && #[trigger] self.order@[i].0 == k by {
                    if k == id.0 {
                        assert(self.order@[old_order.len() as int].0 == k);
                    } else {
                        assert(old_slots.contains_key(k));
                        let i = choose|i: int| 0 <= i < old_order.len() && #[trigger] old_order[i].0 == k;
                        assert(self.order@[i].0 == k);
                    }
                }
                assert forall|i: int, j: int| 0 <= i < j < self.order@.len() implies
                    self.order@[i] != self.order@[j] by {
                    if j == old_order.len() {
                        assert(old_slots.contains_key(old_order[i].0));
                    }
                }
            }
        }
        id
    }

    /// Removes a device and hands its slot back, so that the caller can shut
    /// its channels down; the selection is cleared when it was this device.
    /// An unknown identity changes nothing and gives `None`.
    pub fn remove(&mut self, id: CameraId) -> (r: Option<Slot<H>>)
        requires
            old(self).wf(),
        ensures
            final(self).wf(),
            final(self).slots() == old(self).slots().remove(id.0),
            match r {
                Some(s) => old(self).has(id) && s == old(self).slots()[id.0],
                None => !old(self).has(id),
            },
            old(self).selection() == Some(id) ==> final(self).selection() is None,
            old(self).selection() != Some(id) ==> final(self).selection() == old(self).selection(),
            !old(self).has(id) ==> final(self).order() == old(self).order(),
    {
        let ghost old_slots = self.slots@;
        let ghost old_order = self.order@;
        let r = self.slots.remove(&id.0);
        if r.is_some() {
            let mut i: usize = 0;
            while i < self.order.len() && self.order[i].0 != id.0
                invariant
                    self.order@ == old_order,
                    i <= old_order.len(),
                    forall|j: int| 0 <= j < i ==> old_order[j].0 != id.0,
                decreases old_order.len() - i,
            {
                i = i + 1;
            }
            proof {
                if i == old_order.len() {
                    let w = choose|w: int| 0 <= w < old_order.len() && #[trigger] old_order[w].0 == id.0;
                    assert(old_order[w].0 == id.0);
                }
                assert(old_order[i as int].0 == id.0);
            }
            self.order.remove(i);
            proof {
                assert forall|k: u64| #[trigger] self.slots@.contains_key(k) implies exists|j: int|
                    0 <= j < self.order@.len() && #[trigger] self.order@[j].0 == k by {
                    assert(old_slots.contains_key(k));
                    let j = choose|j: int| 0 <= j < old_order.len() && #[trigger] old_order[j].0 == k;
                    if j < i {
                        assert(self.order@[j].0 == k);
                    } else {
                        assert(j != i);
                        assert(self.order@[j - 1].0 == k);
                    }
                }
                assert forall|a: int| 0 <= a < self.order@.len() implies
                    self.slots@.contains_key(#[trigger] self.order@[a].0) by {
                    if a < i {
                        assert(self.order@[a] == old_order[a]);
                        assert(old_order[a] != old_order[i as int]);
                    } else {
                        assert(self.order@[a] == old_order[a + 1]);
                        assert(old_order[a + 1] != old_order[i as int]);
                    }
                }
                assert forall|a: int, b: int| 0 <= a < b < self.order@.len() implies
                    self.order@[a] != self.order@[b] by {
                    let a2 = if a < i { a } else { a + 1 };
                    let b2 = if b < i { b } else { b + 1 };
                    assert(self.order@[a] == old_order[a2]);
                    assert(self.order@[b] == old_order[b2]);
                }
            }
        } else {
            assert(self.slots@ =~= old_slots.remove(id.0));
        }
        if self.selected == Some(id) {
            self.selected = None;
        }
        r
    }

    /// Begins a request on a device's session; an unknown identity fails
    /// with `NotFound` and changes nothing.
    pub fn begin(&mut self, id: CameraId, req: Request) -> (r: Result<Step, Error>)
        requires
            old(self).wf(),
        ensures
            final(self).wf(),
            begun(*old(self), *final(self), id, req, r),
    {
        match self.slots.remove(&id.0) {
            None => {
                proof { assert(self.slots@ =~= old(self).slots@); }
                Err(Error::NotFound(id))
            },
            Some(mut slot) => {
                let step = slot.session.begin(req);
                self.slots.insert(id.0, slot);
                proof {
                    assert(self.slots@.remove(id.0) =~= old(self).slots@.remove(id.0));
                    assert(self.slots@.dom() =~= old(self).slots@.dom());
                }
                Ok(step)
            },
        }
    }

    /// Reports the outcome of a device's pending operation to its session;
    /// an unknown identity fails with `NotFound` and changes nothing.
    pub fn advance(&mut self, id: CameraId, rep: Report) -> (r: Result<Step, Error>)
        requires
            old(self).wf(),
        ensures
            final(self).wf(),
            final(self).order() == old(self).order(),
            final(self).selection() == old(self).selection(),
            !old(self).has(id) ==> r == Err::<Step, Error>(Error::NotFound(id))
                && final(self).slots() == old(self).slots(),
            old(self).has(id) ==> match r {
                Ok(step) => {
                    let before = old(self).slots()[id.0].session@;
                    let (v, expected) = advance_spec(before, rep);
                    &&& session_replaced(old(self).slots(), final(self).slots(), id.0, v)
                    &&& (before.stage is Idle ==> same_outcome(step, expected))
                    &&& (!(before.stage is Idle) ==> step == expected)
                },
                Err(_) => false,
            },
    {
        match self.slots.remove(&id.0) {
            None => {
                proof { assert(self.slots@ =~= old(self).slots@); }
                Err(Error::NotFound(id))
            },
            Some(mut slot) => {
                let step = slot.session.advance(rep);
                self.slots.insert(id.0, slot);
                proof {
                    assert(self.slots@.remove(id.0) =~= old(self).slots@.remove(id.0));
                    assert(self.slots@.dom() =~= old(self).slots@.dom());
                }
                Ok(step)
            },
        }
    }

    /// The smallest known identity by value; `None` only when no device is
    /// known.
    fn smallest(&self) -> (r: Option<CameraId>)
        requires
            self.wf(),
        ensures
            match r {
                Some(m) => self.has(m) && forall|k: u64| #[trigger] self.slots().contains_key(k) ==> m.0 <= k,
                None => forall|k: u64| !#[trigger] self.slots().contains_key(k),
            },
    {
        let mut best: Option<CameraId> = None;
        let mut i: usize = 0;
        while i < self.order.len()
            invariant
                self.wf(),
                i <= self.order@.len(),
                best is None <==> i == 0,
                match best {
                    Some(m) => self.has(m) && forall|ii: int| 0 <= ii < i ==> m.0 <= #[trigger] self.order@[ii].0,
                    None => true,
                },
            decreases self.order@.len() - i,
        {
            let c = self.order[i];
            match best {
                Some(m) => if c.0 < m.0 {
                    best = Some(c);
                },
                None => {
                    best = Some(c);
                },
            }
            i = i + 1;
        }
        proof {
            assert forall|k: u64| #[trigger] self.slots@.contains_key(k) implies
                match best { Some(m) => m.0 <= k, None => false } by {
                let ii = choose|ii: int| 0 <= ii < self.order@.len() && #[trigger] self.order@[ii].0 == k;
                assert(self.order@[ii].0 == k);
            }
        }
        best
    }

    /// Reconciles the registry with the devices an enumeration found, by
    /// identity and not by position. Devices found again keep their slot,
    /// session included; devices not known before are added with a closed
    /// session (the first of several with one identity wins); known devices
    /// that were not found are removed and handed back. A selection that
    /// survives is kept; otherwise the device with the smallest identity
    /// becomes selected, if there is one.
    pub fn scan(&mut self, found: Vec<(DeviceInfo, H)>) -> (report: ScanReport<H>)
        requires
            old(self).wf(),
        ensures
            final(self).wf(),
            scanned(*old(self), *final(self), found@, report),
    {
        let ghost all = found@;
        let ghost old_slots = self.slots@;
        let ghost old_sel = self.selected;
        let mut found = found;
        let mut new_ids: Vec<u64> = Vec::new();
        let mut added: Vec<CameraId> = Vec::new();
        let mut j: usize = 0;
        let total: usize = found.len();
        while found.len() > 0
            invariant
                self.wf(),
                self.selected == old_sel,
                all.len() == total,
                j + found@.len() == all.len(),
                found@ == all.subrange(j as int, all.len() as int),
                new_ids@.len() == j,
                forall|jj: int| 0 <= jj < j ==> new_ids@[jj] == info_identity(#[trigger] all[jj].0),
                forall|k: u64| #[trigger] self.slots@.contains_key(k) <==> (old_slots.contains_key(k) || new_ids@.contains(k)),
                forall|k: u64| #[trigger] old_slots.contains_key(k) ==> self.slots@[k] == old_slots[k],
                forall|k: u64| !old_slots.contains_key(k) && #[trigger] self.slots@.contains_key(k)
                    ==> exists|jj: int| 0 <= jj < j && new_ids@[jj] == k
                        && is_fresh_slot(self.slots@[k], CameraId(k), #[trigger] all[jj].0, all[jj].1),
                forall|i: int| 0 <= i < added@.len() ==> !old_slots.contains_key(#[trigger] added@[i].0)
                    && self.slots@.contains_key(added@[i].0),
                forall|k: u64| !old_slots.contains_key(k) && #[trigger] self.slots@.contains_key(k)
                    ==> exists|i: int| 0 <= i < added@.len() && #[trigger] added@[i].0 == k,
                added@.no_duplicates(),
            decreases found@.len(),
        {
            let ghost before = self.slots@;
            let ghost before_added = added@;
            let ghost before_ids = new_ids@;
            let (info, handle) = found.remove(0);
            assert(all[j as int] == (info, handle));
            let id0 = identity(&info);
            let was_known = self.contains(id0);
            let id = self.add(info, handle);
            new_ids.push(id.0);
            if !was_known {
                added.push(id);
            }
            j = j + 1;
            proof {
                assert(found@ =~= all.subrange(j as int, all.len() as int));
                assert forall|k: u64| #[trigger] self.slots@.contains_key(k) <==> (old_slots.contains_key(k) || new_ids@.contains(k)) by {
                    assert(new_ids@ == before_ids.push(id.0));
                    if new_ids@.contains(k) && k != id.0 {
                        let w = choose|w: int| 0 <= w < new_ids@.len() && new_ids@[w] == k;
                        assert(before_ids[w] == k);
                    }
                    if self.slots@.contains_key(k) && k == id.0 {
                        assert(new_ids@[j - 1] == k);
                    }
                    if self.slots@.contains_key(k) && k != id.0 {
                        assert(before.contains_key(k));
                        if !old_slots.contains_key(k) {
                            let w = choose|w: int| 0 <= w < before_ids.len() && before_ids[w] == k;
                            assert(new_ids@[w] == k);
                        }
                    }
                }
                assert forall|k: u64| #[trigger] old_slots.contains_key(k) implies self.slots@[k] == old_slots[k] by {
                    if !was_known {
                        assert(k != id.0);
                        assert(self.slots@.remove(id.0)[k] == before[k]);
                    }
                }
                assert forall|k: u64| !old_slots.contains_key(k) && #[trigger] self.slots@.contains_key(k)
                    implies exists|jj: int| 0 <= jj < j && new_ids@[jj] == k
                        && is_fresh_slot(self.slots@[k], CameraId(k), #[trigger] all[jj].0, all[jj].1) by {
                    if !was_known && k == id.0 {
                        assert(new_ids@[j - 1] == k);
                        assert(is_fresh_slot(self.slots@[k], CameraId(k), all[j - 1].0, all[j - 1].1));
                    } else {
                        if !was_known {
                            assert(self.slots@.remove(id.0)[k] == before[k]);
                        }
                        assert(before.contains_key(k));
                        let jj = choose|jj: int| 0 <= jj < j - 1 && before_ids[jj] == k
                            && is_fresh_slot(before[k], CameraId(k), #[trigger] all[jj].0, all[jj].1);
                        assert(new_ids@[jj] == k);
                    }
                }
                assert forall|k: u64| !old_slots.contains_key(k) && #[trigger] self.slots@.contains_key(k)
                    implies exists|i: int| 0 <= i < added@.len() && #[trigger] added@[i].0 == k by {
                    if !was_known && k == id.0 {
                        assert(added@[added@.len() - 1].0 == k);
                    } else {
                        assert(before.contains_key(k));
                        let i = choose|i: int| 0 <= i < before_added.len() && #[trigger] before_added[i].0 == k;
                        assert(added@[i].0 == k);
                    }
                }
                assert forall|a: int, b: int| 0 <= a < b < added@.len() implies added@[a] != added@[b] by {
                    if !was_known && b == added@.len() - 1 {
                        assert(before.contains_key(added@[a].0));
                    }
                }
            }
        }

        let ghost mid = self.slots@;
        assert(forall|k: u64| #[trigger] old_slots.contains_key(k) ==> mid[k] == old_slots[k]);
        assert(forall|k: u64| !old_slots.contains_key(k) && #[trigger] mid.contains_key(k)
            ==> exists|i: int| 0 <= i < added@.len() && #[trigger] added@[i].0 == k);
        let keys = self.ids();
        let mut removed: Vec<Slot<H>> = Vec::new();
        let mut i: usize = 0;
        while i < keys.len()
            invariant
                self.wf(),
                keys@.no_duplicates(),
                forall|ii: int| 0 <= ii < keys@.len() ==> mid.contains_key(#[trigger] keys@[ii].0),
                forall|k: u64| #[trigger] mid.contains_key(k) ==> exists|ii: int| 0 <= ii < keys@.len() && #[trigger] keys@[ii].0 == k,
                i <= keys@.len(),
                forall|k: u64| #[trigger] self.slots@.contains_key(k) <==> (mid.contains_key(k) && (new_ids@.contains(k)
                    || !exists|ii: int| 0 <= ii < i && #[trigger] keys@[ii].0 == k)),
                forall|k: u64| #[trigger] self.slots@.contains_key(k) ==> self.slots@[k] == mid[k],
                forall|r: int| 0 <= r < removed@.len() ==> {
                    let s = #[trigger] removed@[r];
                    &&& mid.contains_key(s.id.0)
                    &&& !new_ids@.contains(s.id.0)
                    &&& s == mid[s.id.0]
                },
                forall|ii: int| 0 <= ii < i && !new_ids@.contains(#[trigger] keys@[ii].0)
                    ==> exists|r: int| 0 <= r < removed@.len() && #[trigger] removed@[r].id.0 == keys@[ii].0,
                match self.selected {
                    Some(s) => self.selected == old_sel,
                    None => true,
                },
                match old_sel {
                    Some(s) => new_ids@.contains(s.0) ==> self.selected == old_sel,
                    None => true,
                },
            decreases keys@.len() - i,
        {
            let k = keys[i];
            let ghost before = self.slots@;
            let ghost before_removed = removed@;
            if !contains_value(&new_ids, k.0) {
                match self.remove(k) {
                    Some(s) => {
                        removed.push(s);
                    },
                    None => {},
                }
            }
            i = i + 1;
            proof {
                assert forall|kk: u64| #[trigger] self.slots@.contains_key(kk) <==> (mid.contains_key(kk) && (new_ids@.contains(kk)
                    || !exists|ii: int| 0 <= ii < i && #[trigger] keys@[ii].0 == kk)) by {
                    if exists|ii: int| 0 <= ii < i && #[trigger] keys@[ii].0 == kk {
                        let ii = choose|ii: int| 0 <= ii < i && #[trigger] keys@[ii].0 == kk;
                        if ii < i - 1 {
                            assert(exists|ii2: int| 0 <= ii2 < i - 1 && #[trigger] keys@[ii2].0 == kk);
                        }
                    }
                }
                assert forall|ii: int| 0 <= ii < i && !new_ids@.contains(#[trigger] keys@[ii].0)
                    implies exists|r: int| 0 <= r < removed@.len() && #[trigger] removed@[r].id.0 == keys@[ii].0 by {
                    if ii == i - 1 {
                        assert(before.contains_key(k.0)) by {
                            assert forall|i3: int| 0 <= i3 < i - 1 implies #[trigger] keys@[i3].0 != k.0 by {
                                assert(keys@[i3] != keys@[i - 1]);
                            }
                        }
                        assert(removed@[removed@.len() - 1].id.0 == k.0);
                    } else {
                        let r = choose|r: int| 0 <= r < before_removed.len() && #[trigger] before_removed[r].id.0 == keys@[ii].0;
                        assert(removed@[r].id.0 == keys@[ii].0);
                    }
                }
            }
        }

        if self.selected.is_none() {
            self.selected = self.smallest();
        }
        proof {
            assert forall|k: u64| #[trigger] new_ids@.contains(k) <==> is_found(all, k) by {
                if new_ids@.contains(k) {
                    let w = choose|w: int| 0 <= w < new_ids@.len() && new_ids@[w] == k;
                    assert(info_identity(all[w].0) == k);
                }
                if is_found(all, k) {
                    let w = choose|w: int| 0 <= w < all.len() && info_identity(#[trigger] all[w].0) == k;
                    assert(new_ids@[w] == k);
                }
            }
            assert forall|k: u64| #[trigger] old_slots.contains_key(k) && is_found(all, k)
                implies self.slots@[k] == old_slots[k] by {
                assert(new_ids@.contains(k));
                assert(mid.contains_key(k));
                assert(self.slots@.contains_key(k));
                assert(mid[k] == old_slots[k]);
            }

            assert forall|k: u64| #[trigger] old_slots.contains_key(k) && !is_found(all, k)
                implies exists|r: int| 0 <= r < removed@.len() && #[trigger] removed@[r].id.0 == k by {
                assert(!new_ids@.contains(k));
                assert(mid.contains_key(k));
                let ii = choose|ii: int| 0 <= ii < keys@.len() && #[trigger] keys@[ii].0 == k;
                assert(keys@[ii].0 == k);
            }
        }
        let report = ScanReport { added, removed };
        proof {
            assert forall|k: u64| !old_slots.contains_key(k) && #[trigger] self.slots@.contains_key(k)
                implies exists|i: int| 0 <= i < report.added@.len() && #[trigger] report.added@[i].0 == k by {
                assert(mid.contains_key(k));
                let i = choose|i: int| 0 <= i < added@.len() && #[trigger] added@[i].0 == k;
                assert(report.added@[i].0 == k);
            }
            if forall|k: u64| #[trigger] old_slots.contains_key(k) <==> is_found(all, k) {
                assert(self.slots@ =~= old_slots);
                if report.added@.len() > 0 {
                    assert(!old_slots.contains_key(report.added@[0].0));
                }
                if report.removed@.len() > 0 {
                    assert(old_slots.contains_key(report.removed@[0].id.0));
                }
            }
        }
        report
    }
}

impl CameraId {
    /// Begins opening this device: see `Context::begin`.
    pub fn open<H>(self, ctx: &mut Context<H>) -> (r: Result<Step, Error>)
        requires
            old(ctx).wf(),
        ensures
            final(ctx).wf(),
            begun(*old(ctx), *final(ctx), self, Request::Open, r),
    {
        ctx.begin(self, Request::Open)
    }

    /// Begins closing this device, stopping its stream first when it runs.
    pub fn close<H>(self, ctx: &mut Context<H>) -> (r: Result<Step, Error>)
        requires
            old(ctx).wf(),
        ensures
            final(ctx).wf(),
            begun(*old(ctx), *final(ctx), self, Request::Close, r),
    {
        ctx.begin(self, Request::Close)
    }

    /// Begins streaming from this device into a channel of `buffer_count`
    /// buffers.
    pub fn start_streaming<H>(self, ctx: &mut Context<H>, buffer_count: usize) -> (r: Result<Step, Error>)
        requires
            old(ctx).wf(),
        ensures
            final(ctx).wf(),
            begun(*old(ctx), *final(ctx), self, Request::StartStreaming(buffer_count), r),
    {
        ctx.begin(self, Request::StartStreaming(buffer_count))
    }

    /// Begins stopping this device's stream.
    pub fn stop_streaming<H>(self, ctx: &mut Context<H>) -> (r: Result<Step, Error>)
        requires
            old(ctx).wf(),
        ensures
            final(ctx).wf(),
            begun(*old(ctx), *final(ctx), self, Request::StopStreaming, r),
    {
        ctx.begin(self, Request::StopStreaming)
    }

    /// Whether this known device's control channel is open.
    pub fn is_opened<H>(self, ctx: &Context<H>) -> (r: bool)
        requires
            ctx.has(self),
        ensures
            r == ctx.slots()[self.0].session@.control_open,
    {
        match ctx.get(self) {
            Some(slot) => slot.session.is_opened(),
            None => false,
        }
    }

    /// Whether this known device is streaming.
    pub fn is_streaming<H>(self, ctx: &Context<H>) -> (r: bool)
        requires
            ctx.has(self),
        ensures
            r == ctx.slots()[self.0].session@.streaming,
    {
        match ctx.get(self) {
            Some(slot) => slot.session.is_streaming(),
            None => false,
        }
    }
}

/// `after` and `r` are what `Context::begin` gives for `req` on `id` in
/// `before`.
pub open spec fn begun<H>(before: Context<H>, after: Context<H>, id: CameraId, req: Request, r: Result<Step, Error>) -> bool {
    &&& after.order() == before.order()
    &&& after.selection() == before.selection()
    &&& (!before.has(id) ==> r == Err::<Step, Error>(Error::NotFound(id)) && after.slots() == before.slots())
    &&& (before.has(id) ==> match r {
        Ok(step) => {
            let (v, expected) = begin_spec(before.slots()[id.0].session@, req);
            &&& session_replaced(before.slots(), after.slots(), id.0, v)
            &&& same_outcome(step, expected)
        },
        Err(_) => false,
    })
}

/// Whatever sequence of operations produced a well-formed registry, its
/// selection is either absent or a device the registry knows.
pub proof fn lemma_selection_is_known<H>(ctx: Context<H>)
    requires
        ctx.wf(),
    ensures
        match ctx.selection() {
            Some(id) => ctx.has(id),
            None => true,
        },
{
}

} // verus!
