//! Per-table lock registry.
//!
//! The registry maps a table key to one shared entry that records the serials
//! of its outstanding handles and which handle, if any, holds the table's
//! lock. Each operation is one atomic step on the whole registry: the caller
//! keeps the registry behind a single mutual-exclusion guard, so the release of
//! a handle and the removal of an idle entry can never be split apart.
use vstd::prelude::*;
use dashmap::DashMap;

verus! {

#[verifier::external_type_specification]
#[verifier::external_body]
#[verifier::reject_recursive_types(K)]
#[verifier::reject_recursive_types(V)]
#[verifier::reject_recursive_types(S)]
pub struct ExDashMap<K, V, S>(DashMap<K, V, S>);

/// What the registry stores under a key: the entry's identity, the serials of
/// its outstanding handles, and the serial of the handle holding the lock.
pub type Slot = (u64, Vec<u64>, Option<u64>);

/// The contents of a map of slots, as plain values.
pub uninterp spec fn slots_of(m: DashMap<String, (u64, Vec<u64>, Option<u64>)>) -> Map<
    Seq<char>,
    (u64, Seq<u64>, Option<u64>),
>;

pub open spec fn slot_view(v: Slot) -> (u64, Seq<u64>, Option<u64>) {
    (v.0, v.1@, v.2)
}

pub open spec fn no_slots() -> Map<Seq<char>, (u64, Seq<u64>, Option<u64>)> {
    Map::empty()
}

/// Relies on dashmap::DashMap::new: a map with no entries.
#[verifier::external_body]
fn slots_new() -> (r: DashMap<String, Slot>)
    ensures
        slots_of(r) == no_slots(),
{
    DashMap::new()
}

/// Relies on dashmap::DashMap::get: the value stored under the key, if any
/// (a copy of it).
#[verifier::external_body]
fn slots_get(m: &DashMap<String, Slot>, k: &String) -> (r: Option<Slot>)
    ensures
        match r {
            Some(v) => slots_of(*m).contains_key(k@) && slots_of(*m)[k@] == slot_view(v),
            None => !slots_of(*m).contains_key(k@),
        },
{
    m.get(k).map(|e| e.value().clone())
}

/// Relies on dashmap::DashMap::insert: the key now maps to the value, and
/// every other key is unchanged.
#[verifier::external_body]
fn slots_insert(m: &mut DashMap<String, Slot>, k: String, v: Slot)
    ensures
        slots_of(*final(m)) == slots_of(*old(m)).insert(k@, slot_view(v)),
{
    m.insert(k, v);
}

/// Relies on dashmap::DashMap::remove: the key maps to nothing, and every
/// other key is unchanged.
#[verifier::external_body]
fn slots_remove(m: &mut DashMap<String, Slot>, k: &String)
    ensures
        slots_of(*final(m)) == slots_of(*old(m)).remove(k@),
{
    m.remove(k);
}

/// Relies on dashmap::DashMap::len: the number of keys.
#[verifier::external_body]
fn slots_len(m: &DashMap<String, Slot>) -> (r: usize)
    ensures
        r == slots_of(*m).dom().len(),
{
    m.len()
}

/// What the registry knows of one table.
pub struct EntryModel {
    /// Identity of the entry: the serial of the handle that created it.
    pub id: u64,
    /// Serials of the live handles issued for this entry, one per handle.
    pub holders: Seq<u64>,
    /// Serial of the handle that holds the table's lock.
    pub owner: Option<u64>,
}

/// Abstract state of a registry.
pub struct RegistryModel {
    pub tables: Map<Seq<char>, EntryModel>,
    /// Serial that the next issued handle receives.
    pub next_serial: u64,
}

/// Abstract state of a handle.
pub struct HandleModel {
    pub key: Seq<char>,
    pub id: u64,
    pub serial: u64,
}

pub open spec fn entry_of(v: (u64, Seq<u64>, Option<u64>)) -> EntryModel {
    EntryModel { id: v.0, holders: v.1, owner: v.2 }
}

pub open spec fn has_table(m: RegistryModel, k: Seq<char>) -> bool {
    m.tables.contains_key(k)
}

pub open spec fn entry_wf(m: RegistryModel, e: EntryModel) -> bool {
    &&& e.holders.len() >= 1
    &&& forall|j: int| 0 <= j < e.holders.len() ==> #[trigger] e.holders[j] < m.next_serial
    &&& e.id < m.next_serial
    &&& (e.owner matches Some(s) ==> e.holders.contains(s))
}

/// Every entry is in use: an entry whose last handle is gone is no longer
/// kept, and the lock of an entry is held only by one of its handles.
pub open spec fn registry_wf(m: RegistryModel) -> bool {
    &&& m.tables.dom().finite()
    &&& forall|k: Seq<char>| #[trigger] m.tables.contains_key(k) ==> entry_wf(m, m.tables[k])
}

/// The entry that a handle was issued for is still the one stored under its key.
pub open spec fn entry_for(m: RegistryModel, h: HandleModel) -> bool {
    m.tables.contains_key(h.key) && m.tables[h.key].id == h.id
}

/// The handle is outstanding: its entry is still stored and counts it.
pub open spec fn live(m: RegistryModel, h: HandleModel) -> bool {
    entry_for(m, h) && m.tables[h.key].holders.contains(h.serial)
}

pub open spec fn other_than(s: u64) -> spec_fn(u64) -> bool {
    |x: u64| x != s
}

/// The holders left when the handle with serial `s` is given back.
pub open spec fn without(hs: Seq<u64>, s: u64) -> Seq<u64> {
    hs.filter(other_than(s))
}

pub open spec fn with_holders(e: EntryModel, hs: Seq<u64>) -> EntryModel {
    EntryModel { id: e.id, holders: hs, owner: e.owner }
}

pub open spec fn with_owner(e: EntryModel, o: Option<u64>) -> EntryModel {
    EntryModel { id: e.id, holders: e.holders, owner: o }
}

/// The handle that `after_acquire(m, k)` hands out.
pub open spec fn issued_handle(m: RegistryModel, k: Seq<char>) -> HandleModel {
    HandleModel {
        key: k,
        id: if m.tables.contains_key(k) {
            m.tables[k].id
        } else {
            m.next_serial
        },
        serial: m.next_serial,
    }
}

/// Acquiring a handle: the entry is created if absent, and the new handle is
/// counted as a holder in the same step.
pub open spec fn after_acquire(m: RegistryModel, k: Seq<char>) -> RegistryModel {
    let e = if m.tables.contains_key(k) {
        with_holders(m.tables[k], m.tables[k].holders.push(m.next_serial))
    } else {
        EntryModel { id: m.next_serial, holders: seq![m.next_serial], owner: None }
    };
    RegistryModel { tables: m.tables.insert(k, e), next_serial: (m.next_serial + 1) as u64 }
}

/// Trying the table's lock with a handle: the new state, and whether the
/// handle holds the lock afterwards.
pub open spec fn after_lock(m: RegistryModel, h: HandleModel) -> (RegistryModel, bool) {
    if live(m, h) {
        let e = m.tables[h.key];
        if e.owner is None {
            (
                RegistryModel {
                    tables: m.tables.insert(h.key, with_owner(e, Some(h.serial))),
                    next_serial: m.next_serial,
                },
                true,
            )
        } else {
            (m, e.owner == Some(h.serial))
        }
    } else {
        (m, false)
    }
}

/// Giving the table's lock back; nothing changes unless the handle holds it.
pub open spec fn after_unlock(m: RegistryModel, h: HandleModel) -> RegistryModel {
    if entry_for(m, h) && m.tables[h.key].owner == Some(h.serial) {
        RegistryModel {
            tables: m.tables.insert(h.key, with_owner(m.tables[h.key], None)),
            next_serial: m.next_serial,
        }
    } else {
        m
    }
}

/// Dropping a handle: its lock, if held, is given back, its serial leaves the
/// holders, and an entry left with no holder is removed.
pub open spec fn after_release(m: RegistryModel, h: HandleModel) -> RegistryModel {
    if live(m, h) {
        let e = m.tables[h.key];
        let o = if e.owner == Some(h.serial) {
            None
        } else {
            e.owner
        };
        let hs = without(e.holders, h.serial);
        if hs.len() == 0 {
            RegistryModel { tables: m.tables.remove(h.key), next_serial: m.next_serial }
        } else {
            RegistryModel {
                tables: m.tables.insert(h.key, with_owner(with_holders(e, hs), o)),
                next_serial: m.next_serial,
            }
        }
    } else {
        m
    }
}

/// Whether the handle holds its table's lock.
pub open spec fn holds_lock(m: RegistryModel, h: HandleModel) -> bool {
    entry_for(m, h) && m.tables[h.key].owner == Some(h.serial)
}

/// Registry of per-table locks.
pub struct TableLockManager {
    locks: DashMap<String, Slot>,
    next_serial: u64,
}

/// A handle on one table's entry. It must be given back to the registry with
/// `TableLockManager::release`, whether or not its lock was ever taken.
pub struct TableLock {
    key: String,
    id: u64,
    serial: u64,
}

impl View for TableLockManager {
    type V = RegistryModel;

    closed spec fn view(&self) -> RegistryModel {
        RegistryModel {
            tables: Map::new(
                |k: Seq<char>| slots_of(self.locks).contains_key(k),
                |k: Seq<char>| entry_of(slots_of(self.locks)[k]),
            ),
            next_serial: self.next_serial,
        }
    }
}

impl View for TableLock {
    type V = HandleModel;

    closed spec fn view(&self) -> HandleModel {
        HandleModel { key: self.key@, id: self.id, serial: self.serial }
    }
}

impl TableLock {
    /// The table key this handle was issued for.
    pub fn key(&self) -> (r: &String)
        ensures
            r@ == self@.key,
    {
        &self.key
    }

    /// Tries to take the table's lock for this handle. Returns whether the
    /// handle holds the lock afterwards; a caller that gets `false` waits for
    /// the holder to give the lock back and tries again.
    pub fn lock(&self, registry: &mut TableLockManager) -> (r: bool)
        requires
            registry_wf(old(registry)@),
        ensures
            registry_wf(final(registry)@),
            (final(registry)@, r) == after_lock(old(registry)@, self@),
    {
        registry.take_lock(self)
    }
}

fn has_serial(hs: &Vec<u64>, s: u64) -> (r: bool)
    ensures
        r == hs@.contains(s),
{
    let mut j: usize = 0;
    while j < hs.len()
        invariant
            0 <= j <= hs@.len(),
            forall|k: int| 0 <= k < j ==> hs@[k] != s,
        decreases hs@.len() - j,
    {
        if hs[j] == s {
            return true;
        }
        j = j + 1;
    }
    false
}

fn without_serial(hs: &Vec<u64>, s: u64) -> (r: Vec<u64>)
    ensures
        r@ == without(hs@, s),
{
    let mut r: Vec<u64> = Vec::new();
    let mut j: usize = 0;
    while j < hs.len()
        invariant
            0 <= j <= hs@.len(),
            r@ == without(hs@.take(j as int), s),
        decreases hs@.len() - j,
    {
        proof {
            reveal(Seq::filter);
            assert(hs@.take(j as int + 1).drop_last() == hs@.take(j as int));
        }
        if hs[j] != s {
            r.push(hs[j]);
        }
        j = j + 1;
    }
    proof {
        assert(hs@.take(hs@.len() as int) == hs@);
    }
    r
}

/// What remains after giving back serial `s` keeps exactly the other serials.
proof fn lemma_without(hs: Seq<u64>, s: u64)
    ensures
        forall|j: int| 0 <= j < without(hs, s).len() ==> hs.contains(#[trigger] without(hs, s)[j]),
        forall|x: u64| #[trigger] hs.contains(x) && x != s ==> without(hs, s).contains(x),
        !without(hs, s).contains(s),
{
    let w = without(hs, s);
    let p = other_than(s);
    assert forall|j: int| 0 <= j < w.len() implies hs.contains(#[trigger] w[j]) by {
        assert(w.contains(w[j]));
        hs.lemma_filter_contains_rev(p, w[j]);
    }
    assert forall|x: u64| #[trigger] hs.contains(x) && x != s implies w.contains(x) by {
        let k = choose|k: int| 0 <= k < hs.len() && hs[k] == x;
        hs.lemma_filter_contains(p, k);
    }
    if w.contains(s) {
        let k = choose|k: int| 0 <= k < w.len() && w[k] == s;
        hs.lemma_filter_pred(p, k);
    }
}

impl TableLockManager {
    /// An empty registry.
    pub fn new() -> (r: Self)
        ensures
            r@.tables.dom().len() == 0,
            r@.next_serial == 0,
            registry_wf(r@),
    {
        let r = TableLockManager { locks: slots_new(), next_serial: 0 };
        assert(r@.tables =~= Map::<Seq<char>, EntryModel>::empty());
        r
    }

    proof fn lemma_view(&self)
        ensures
            self@.tables.dom() == slots_of(self.locks).dom(),
            forall|k: Seq<char>| #[trigger] self@.tables.contains_key(k) ==> self@.tables[k] == entry_of(
                slots_of(self.locks)[k],
            ),
    {
        assert(self@.tables.dom() =~= slots_of(self.locks).dom());
    }

    /// Whether the registry keeps an entry for `key`.
    pub fn tracks(&self, key: &str) -> (r: bool)
        ensures
            r == has_table(self@, key@),
    {
        let k = key.to_string();
        slots_get(&self.locks, &k).is_some()
    }

    /// The number of tables that the registry keeps an entry for.
    pub fn len(&self) -> (r: usize)
        ensures
            r == self@.tables.dom().len(),
    {
        proof {
            self.lemma_view();
        }
        slots_len(&self.locks)
    }

    /// Whether the registry can still issue a handle: each handle takes a
    /// fresh serial, and serials are never reused.
    pub fn can_issue(&self) -> (r: bool)
        ensures
            r == (self@.next_serial < u64::MAX),
    {
        self.next_serial < u64::MAX
    }

    /// Issues a handle for `table_uri`, creating the table's entry if there is
    /// none, and counting the handle as a holder in the same step.
    pub fn lock_for(&mut self, table_uri: &str) -> (r: TableLock)
        requires
            registry_wf(old(self)@),
            old(self)@.next_serial < u64::MAX,
        ensures
            registry_wf(final(self)@),
            final(self)@ == after_acquire(old(self)@, table_uri@),
            r@ == issued_handle(old(self)@, table_uri@),
    {
        let key = table_uri.to_string();
        let serial = self.next_serial;
        let ghost m = self@;
        proof {
            self.lemma_view();
        }
        let (id, holders, owner) = match slots_get(&self.locks, &key) {
            Some((id, holders, owner)) => {
                let mut holders = holders;
                holders.push(serial);
                (id, holders, owner)
            },
            None => {
                let mut holders: Vec<u64> = Vec::new();
                holders.push(serial);
                (serial, holders, None)
            },
        };
        slots_insert(&mut self.locks, key.clone(), (id, holders, owner));
        self.next_serial = serial + 1;
        proof {
            self.lemma_view();
            let m2 = after_acquire(m, key@);
            assert(self@.tables =~= m2.tables);
            let e = m2.tables[key@];
            if m.tables.contains_key(key@) {
                let old_e = m.tables[key@];
                if let Some(o) = old_e.owner {
                    let w = choose|w: int| 0 <= w < old_e.holders.len() && old_e.holders[w] == o;
                    assert(e.holders[w] == o);
                }
            }
            assert(entry_wf(self@, e));
            assert forall|k: Seq<char>| #[trigger] self@.tables.contains_key(k) implies entry_wf(self@, self@.tables[k]) by {
                if k != key@ {
                    assert(m.tables.contains_key(k));
                    assert(entry_wf(m, m.tables[k]));
                }
            }
        }
        TableLock { key, id, serial }
    }

    fn take_lock(&mut self, h: &TableLock) -> (r: bool)
        requires
            registry_wf(old(self)@),
        ensures
            registry_wf(final(self)@),
            (final(self)@, r) == after_lock(old(self)@, h@),
    {
        let ghost m = self@;
        proof {
            self.lemma_view();
        }
        match slots_get(&self.locks, &h.key) {
            Some((id, holders, owner)) => {
                if id != h.id || !has_serial(&holders, h.serial) {
                    return false;
                }
                match owner {
                    None => {
                        slots_insert(&mut self.locks, h.key.clone(), (id, holders, Some(h.serial)));
                        proof {
                            self.lemma_view();
                            let m2 = after_lock(m, h@).0;
                            assert(self@.tables =~= m2.tables);
                            assert forall|k: Seq<char>| #[trigger] self@.tables.contains_key(k) implies entry_wf(self@, self@.tables[k]) by {
                                assert(m.tables.contains_key(k));
                                assert(entry_wf(m, m.tables[k]));
                            }
                        }
                        true
                    },
                    Some(o) => o == h.serial,
                }
            },
            None => false,
        }
    }

    /// Gives back the table's lock if `handle` holds it.
    pub fn unlock(&mut self, handle: &TableLock)
        requires
            registry_wf(old(self)@),
        ensures
            registry_wf(final(self)@),
            final(self)@ == after_unlock(old(self)@, handle@),
    {
        let ghost m = self@;
        proof {
            self.lemma_view();
        }
        if let Some((id, holders, owner)) = slots_get(&self.locks, &handle.key) {
            if id == handle.id && owner == Some(handle.serial) {
                slots_insert(&mut self.locks, handle.key.clone(), (id, holders, None));
                proof {
                    self.lemma_view();
                    let m2 = after_unlock(m, handle@);
                    assert(self@.tables =~= m2.tables);
                    assert forall|k: Seq<char>| #[trigger] self@.tables.contains_key(k) implies entry_wf(self@, self@.tables[k]) by {
                        assert(m.tables.contains_key(k));
                        assert(entry_wf(m, m.tables[k]));
                    }
                }
            }
        }
    }

    /// Takes a handle back: its lock is given back if held, and the entry is
    /// removed once its last holder is gone, provided it is still the entry
    /// the handle was issued for.
    pub fn release(&mut self, handle: TableLock)
        requires
            registry_wf(old(self)@),
        ensures
            registry_wf(final(self)@),
            final(self)@ == after_release(old(self)@, handle@),
    {
        let ghost m = self@;
        proof {
            self.lemma_view();
        }
        if let Some((id, holders, owner)) = slots_get(&self.locks, &handle.key) {
            if id == handle.id && has_serial(&holders, handle.serial) {
                let rest = without_serial(&holders, handle.serial);
                if rest.len() == 0 {
                    self.remove_if_unused(&handle.key);
                    proof {
                        let m2 = after_release(m, handle@);
                        assert(self@.tables =~= m2.tables);
                    }
                } else {
                    let o = if owner == Some(handle.serial) {
                        None
                    } else {
                        owner
                    };
                    slots_insert(&mut self.locks, handle.key.clone(), (id, rest, o));
                    proof {
                        self.lemma_view();
                        let m2 = after_release(m, handle@);
                        assert(self@.tables =~= m2.tables);
                        let e = m.tables[handle.key@];
                        assert(entry_wf(m, e));
                        lemma_without(e.holders, handle.serial);
                        let e2 = m2.tables[handle.key@];
                        assert forall|j: int| 0 <= j < e2.holders.len() implies #[trigger] e2.holders[j] < m.next_serial by {
                            assert(e.holders.contains(e2.holders[j]));
                        }
                        if let Some(x) = e2.owner {
                            assert(e.holders.contains(x) && x != handle.serial);
                        }
                        assert(entry_wf(self@, e2));
                        assert forall|k: Seq<char>| #[trigger] self@.tables.contains_key(k) implies entry_wf(self@, self@.tables[k]) by {
                            if k != handle.key@ {
                                assert(m.tables.contains_key(k));
                                assert(entry_wf(m, m.tables[k]));
                            }
                        }
                    }
                }
            }
        }
    }

    /// Removes the entry stored under `key`.
    fn remove_if_unused(&mut self, key: &String)
        requires
            registry_wf(old(self)@),
        ensures
            registry_wf(final(self)@),
            final(self)@ == (RegistryModel { tables: old(self)@.tables.remove(key@), next_serial: old(self)@.next_serial }),
    {
        let ghost m = self@;
        slots_remove(&mut self.locks, key);
        proof {
            self.lemma_view();
            assert(self@.tables =~= m.tables.remove(key@));
            assert forall|k: Seq<char>| #[trigger] self@.tables.contains_key(k) implies entry_wf(self@, self@.tables[k]) by {
                assert(m.tables.contains_key(k));
                assert(entry_wf(m, m.tables[k]));
            }
        }
    }
}

/// Mutual exclusion: while one handle holds a table's lock, no other handle
/// holds it too, and another handle's attempt on it fails and changes nothing.
pub proof fn lemma_lock_excludes_others(m: RegistryModel, a: HandleModel, b: HandleModel)
    requires
        registry_wf(m),
        holds_lock(m, a),
        a.key == b.key,
        a.serial != b.serial,
    ensures
        !holds_lock(m, b),
        !after_lock(m, b).1,
        after_lock(m, b).0 == m,
{
}

/// An acquirer never misses a live entry: a handle issued for a key that
/// already has an entry joins that entry, and every issued handle is live in
/// the state that issued it.
pub proof fn lemma_acquire_joins_entry(m: RegistryModel, k: Seq<char>)
    requires
        registry_wf(m),
        m.next_serial < u64::MAX,
    ensures
        m.tables.contains_key(k) ==> issued_handle(m, k).id == m.tables[k].id,
        live(after_acquire(m, k), issued_handle(m, k)),
        after_acquire(m, k).tables.dom().len() == m.tables.dom().len() + if m.tables.contains_key(k) {
            0int
        } else {
            1int
        },
{
    let m2 = after_acquire(m, k);
    let hs = m2.tables[k].holders;
    assert(hs[hs.len() - 1] == m.next_serial);
    if m.tables.contains_key(k) {
        assert(m.tables.dom().insert(k) =~= m.tables.dom());
    }
}

/// A successful attempt leaves the handle holding its table's lock, and a
/// failed one changes nothing.
pub proof fn lemma_lock_grants(m: RegistryModel, h: HandleModel)
    requires
        registry_wf(m),
    ensures
        after_lock(m, h).1 ==> holds_lock(after_lock(m, h).0, h),
        !after_lock(m, h).1 ==> after_lock(m, h).0 == m,
{
}

/// Tables are independent: taking the lock of one table changes neither
/// whether another table's lock can be taken nor who holds it.
pub proof fn lemma_tables_independent(m: RegistryModel, a: HandleModel, b: HandleModel)
    requires
        registry_wf(m),
        a.key != b.key,
    ensures
        after_lock(after_lock(m, a).0, b).1 == after_lock(m, b).1,
        holds_lock(after_lock(m, a).0, b) == holds_lock(m, b),
        after_lock(m, a).0.tables[b.key] == m.tables[b.key],
{
}

/// Reclamation: once the last outstanding handle of a table is released,
/// the registry keeps no entry for that table.
pub proof fn lemma_last_release_reclaims(m: RegistryModel, h: HandleModel)
    requires
        registry_wf(m),
        live(m, h),
        without(m.tables[h.key].holders, h.serial).len() == 0,
    ensures
        !has_table(after_release(m, h), h.key),
        after_release(m, h).tables.dom().len() == m.tables.dom().len() - 1,
{
}

/// Releasing one handle keeps every other outstanding handle of the same
/// table live: its entry stays, with the same identity, and still counts it.
pub proof fn lemma_release_keeps_other_holders(m: RegistryModel, h: HandleModel, other: HandleModel)
    requires
        registry_wf(m),
        live(m, h),
        live(m, other),
        other.key == h.key,
        other.serial != h.serial,
    ensures
        live(after_release(m, h), other),
        holds_lock(m, other) ==> holds_lock(after_release(m, h), other),
{
    let e = m.tables[h.key];
    lemma_without(e.holders, h.serial);
    assert(without(e.holders, h.serial).contains(other.serial));
}

/// Releasing a handle changes no other table's entry.
pub proof fn lemma_release_keeps_other_tables(m: RegistryModel, h: HandleModel, k: Seq<char>)
    requires
        registry_wf(m),
        k != h.key,
    ensures
        after_release(m, h).tables.contains_key(k) == m.tables.contains_key(k),
        m.tables.contains_key(k) ==> after_release(m, h).tables[k] == m.tables[k],
{
}

} // verus!
