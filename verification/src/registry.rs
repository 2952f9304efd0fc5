//! The generational registry: a slot-based container that hands out a
//! handle for every entry and tells a stale handle from a live one.

use vstd::prelude::*;
use generational_arena::Arena;
use crate::arena::{
    arena_entries, arena_generation, arena_get, arena_get_mut, arena_insert, arena_iter, arena_new,
    arena_remove,
};
use crate::handle::Handle;

verus! {

/// What a registry is, mathematically: its live entries and the number of
/// removals it has seen.
pub struct RegistryState {
    pub entries: Map<Handle, u64>,
    pub generation: nat,
}

impl RegistryState {
    /// The registry that nothing was ever stored in.
    pub open spec fn empty() -> RegistryState {
        RegistryState { entries: Map::empty(), generation: 0 }
    }

    /// Whether the handle refers to an entry.
    pub open spec fn live(self, h: Handle) -> bool {
        self.entries.dom().contains(h)
    }

    /// No live handle is from the future, and no two share a slot.
    pub open spec fn wf(self) -> bool {
        &&& self.entries.dom().finite()
        &&& forall|h: Handle| #[trigger] self.live(h) ==> h.generation <= self.generation
        &&& forall|h: Handle, k: Handle|
            #[trigger] self.live(h) && #[trigger] self.live(k) && h.slot == k.slot ==> h == k
    }

    /// Whether an insertion may hand out this handle: it carries the current
    /// generation and its slot is vacant.
    pub open spec fn fresh(self, h: Handle) -> bool {
        &&& h.generation == self.generation
        &&& forall|k: Handle| #[trigger] self.live(k) ==> k.slot != h.slot
    }

    /// The registry after storing `value` under `h`.
    pub open spec fn insert(self, h: Handle, value: u64) -> RegistryState {
        RegistryState { entries: self.entries.insert(h, value), generation: self.generation }
    }

    /// The registry after a removal through `h`: a live entry leaves and the
    /// generation advances; a stale handle changes nothing.
    pub open spec fn remove(self, h: Handle) -> RegistryState {
        if self.live(h) {
            RegistryState { entries: self.entries.remove(h), generation: self.generation + 1 }
        } else {
            self
        }
    }

    /// What a lookup through `h` gives.
    pub open spec fn get(self, h: Handle) -> Option<u64> {
        if self.live(h) {
            Some(self.entries[h])
        } else {
            None
        }
    }

    /// Whether some live entry holds `value`.
    pub open spec fn holds(self, value: u64) -> bool {
        exists|h: Handle| #[trigger] self.live(h) && self.entries[h] == value
    }

    /// Whether `h` is the live entry of the lowest slot that holds `value`.
    pub open spec fn is_holder(self, h: Handle, value: u64) -> bool {
        &&& self.live(h)
        &&& self.entries[h] == value
        &&& forall|k: Handle| #[trigger] self.live(k) && self.entries[k] == value ==> h.slot <= k.slot
    }

    /// The handle under which `value` is found: the live entry of the lowest
    /// slot that holds it.
    pub open spec fn holder(self, value: u64) -> Handle {
        choose|h: Handle| self.is_holder(h, value)
    }

    /// Whether `listing` shows every live entry exactly once, by ascending
    /// slot.
    pub open spec fn listed_by(self, listing: Seq<(Handle, u64)>) -> bool {
        &&& forall|i: int|
            0 <= i < listing.len() ==> self.live((#[trigger] listing[i]).0) && self.entries[listing[i].0]
                == listing[i].1
        &&& forall|h: Handle| #[trigger]
            self.live(h) ==> exists|i: int| 0 <= i < listing.len() && (#[trigger] listing[i]).0 == h
        &&& forall|i: int, j: int|
            0 <= i < j < listing.len() ==> (#[trigger] listing[i]).0.slot < (#[trigger] listing[j]).0.slot
    }
}

/// Under a well-formed registry a value has at most one holder.
pub proof fn lemma_holder_unique(s: RegistryState, h: Handle, value: u64)
    requires
        s.wf(),
        s.is_holder(h, value),
    ensures
        s.holder(value) == h,
        s.holds(value),
{
    let k = s.holder(value);
    assert(s.is_holder(k, value));
    assert(s.live(k) && s.live(h));
    assert(k.slot == h.slot);
}

/// A value that some entry holds has a holder: among the entries that hold
/// it, one has the lowest slot.
pub proof fn lemma_holder_exists(s: RegistryState, value: u64)
    requires
        s.holds(value),
    ensures
        s.is_holder(s.holder(value), value),
{
    let k = choose|k: Handle| #[trigger] s.live(k) && s.entries[k] == value;
    lemma_lower_holder(s, value, k);
}

/// Below any entry that holds a value lies the lowest one that does.
proof fn lemma_lower_holder(s: RegistryState, value: u64, k: Handle)
    requires
        s.live(k),
        s.entries[k] == value,
    ensures
        exists|h: Handle| s.is_holder(h, value),
    decreases k.slot,
{
    if !s.is_holder(k, value) {
        let j = choose|j: Handle| #[trigger] s.live(j) && s.entries[j] == value && !(k.slot <= j.slot);
        lemma_lower_holder(s, value, j);
    }
}

/// Insertion of a fresh handle and removal keep a registry well formed.
pub proof fn lemma_steps_keep_wf(s: RegistryState, h: Handle, value: u64)
    requires
        s.wf(),
    ensures
        s.fresh(h) ==> s.insert(h, value).wf(),
        s.remove(h).wf(),
{
    if s.fresh(h) {
        let t = s.insert(h, value);
        assert forall|a: Handle, b: Handle|
            #[trigger] t.live(a) && #[trigger] t.live(b) && a.slot == b.slot implies a == b by {
            if a != h {
                assert(s.live(a));
            }
            if b != h {
                assert(s.live(b));
            }
        }
        assert forall|a: Handle| #[trigger] t.live(a) implies a.generation <= t.generation by {
            if a != h {
                assert(s.live(a));
            }
        }
    }
    let r = s.remove(h);
    assert forall|a: Handle| #[trigger] r.live(a) implies a.generation <= r.generation by {
        assert(s.live(a));
    }
    assert forall|a: Handle, b: Handle|
        #[trigger] r.live(a) && #[trigger] r.live(b) && a.slot == b.slot implies a == b by {
        assert(s.live(a));
        assert(s.live(b));
    }
}

/// One operation on a registry, with the handle that it issued or was given.
pub enum Op {
    Insert { handle: Handle, value: u64 },
    Remove { handle: Handle },
}

impl Op {
    /// Whether the operation is the insertion that issued `h`.
    pub open spec fn issues(self, h: Handle) -> bool {
        self matches Op::Insert { handle, .. } && handle == h
    }

    /// Whether the operation is a removal through `h`.
    pub open spec fn retires(self, h: Handle) -> bool {
        self matches Op::Remove { handle } && handle == h
    }
}

impl RegistryState {
    /// Whether the operation can happen in this state: an insertion issues a
    /// fresh handle, a removal may name any handle.
    pub open spec fn admits(self, op: Op) -> bool {
        match op {
            Op::Insert { handle, .. } => self.fresh(handle),
            Op::Remove { .. } => true,
        }
    }

    /// The state after the operation.
    pub open spec fn apply(self, op: Op) -> RegistryState {
        match op {
            Op::Insert { handle, value } => self.insert(handle, value),
            Op::Remove { handle } => self.remove(handle),
        }
    }

    /// The state after the operations, first to last.
    pub open spec fn apply_all(self, ops: Seq<Op>) -> RegistryState
        decreases ops.len(),
    {
        if ops.len() == 0 {
            self
        } else {
            self.apply_all(ops.drop_last()).apply(ops.last())
        }
    }

    /// Whether each operation can happen in the state that the ones before it
    /// lead to.
    pub open spec fn admits_all(self, ops: Seq<Op>) -> bool
        decreases ops.len(),
    {
        if ops.len() == 0 {
            true
        } else {
            self.admits_all(ops.drop_last()) && self.apply_all(ops.drop_last()).admits(ops.last())
        }
    }
}

/// Whether `ops` issue `h` and do not remove it afterwards.
pub open spec fn issued_and_kept(ops: Seq<Op>, h: Handle) -> bool {
    exists|i: int|
        0 <= i < ops.len() && (#[trigger] ops[i]).issues(h) && forall|j: int|
            i < j < ops.len() ==> !(#[trigger] ops[j]).retires(h)
}

/// Any run of operations keeps a registry well formed and never lowers its
/// generation.
pub proof fn lemma_run_keeps_wf(s: RegistryState, ops: Seq<Op>)
    requires
        s.wf(),
        s.admits_all(ops),
    ensures
        s.apply_all(ops).wf(),
        s.generation <= s.apply_all(ops).generation,
    decreases ops.len(),
{
    if ops.len() > 0 {
        lemma_run_keeps_wf(s, ops.drop_last());
        let t = s.apply_all(ops.drop_last());
        match ops.last() {
            Op::Insert { handle, value } => {
                lemma_steps_keep_wf(t, handle, value);
            },
            Op::Remove { handle } => {
                lemma_steps_keep_wf(t, handle, 0);
            },
        }
    }
}

/// Handle staleness: once an entry has been removed through `h`, no run of
/// later insertions and removals makes `h` live again, and every handle
/// issued after the removal carries a later generation than `h`, also where
/// it reuses the slot of `h`.
pub proof fn lemma_removed_handle_stays_stale(s: RegistryState, h: Handle, ops: Seq<Op>)
    requires
        s.wf(),
        s.live(h),
        s.remove(h).admits_all(ops),
    ensures
        s.remove(h).apply_all(ops).get(h) is None,
        h.generation < s.remove(h).apply_all(ops).generation,
        forall|i: int, k: Handle|
            0 <= i < ops.len() && #[trigger] ops[i].issues(k) ==> h.generation < k.generation && k
                != h,
    decreases ops.len(),
{
    let r = s.remove(h);
    if ops.len() > 0 {
        let front = ops.drop_last();
        lemma_removed_handle_stays_stale(s, h, front);
        let t = r.apply_all(front);
        assert forall|i: int, k: Handle| 0 <= i < ops.len() && #[trigger] ops[i].issues(k) implies h.generation
            < k.generation && k != h by {
            if i < ops.len() - 1 {
                assert(front[i] == ops[i]);
            }
        }
    }
}

/// Registry round-trip: after any run of insertions and removals on an empty
/// registry, the live handles are exactly those that were issued and not
/// removed since.
pub proof fn lemma_live_handles_are_issued_and_kept(ops: Seq<Op>, h: Handle)
    requires
        RegistryState::empty().admits_all(ops),
    ensures
        RegistryState::empty().apply_all(ops).live(h) <==> issued_and_kept(ops, h),
    decreases ops.len(),
{
    let e = RegistryState::empty();
    if ops.len() == 0 {
        assert(!e.live(h));
    } else {
        let front = ops.drop_last();
        let n = ops.len() - 1;
        lemma_live_handles_are_issued_and_kept(front, h);
        let t = e.apply_all(front);
        let u = e.apply_all(ops);
        assert(forall|i: int| 0 <= i < n ==> front[i] == ops[i]);
        if issued_and_kept(ops, h) {
            let i = choose|i: int|
                0 <= i < ops.len() && (#[trigger] ops[i]).issues(h) && forall|j: int|
                    i < j < ops.len() ==> !(#[trigger] ops[j]).retires(h);
            if i < n {
                assert(front[i].issues(h));
                assert forall|j: int| i < j < front.len() implies !(#[trigger] front[j]).retires(h) by {
                    assert(!ops[j].retires(h));
                }
                assert(issued_and_kept(front, h));
                assert(t.live(h));
                assert(!ops[n].retires(h));
                assert(u.live(h));
            } else {
                assert(u.live(h));
            }
        }
        if u.live(h) {
            if ops[n].issues(h) {
                assert(issued_and_kept(ops, h));
            } else {
                assert(t.live(h));
                assert(!ops[n].retires(h));
                let i = choose|i: int|
                    0 <= i < front.len() && (#[trigger] front[i]).issues(h) && forall|j: int|
                        i < j < front.len() ==> !(#[trigger] front[j]).retires(h);
                assert(ops[i].issues(h));
                assert forall|j: int| i < j < ops.len() implies !(#[trigger] ops[j]).retires(h) by {
                    if j < n {
                        assert(!front[j].retires(h));
                    }
                }
                assert(issued_and_kept(ops, h));
            }
        }
    }
}

/// A listing of a registry names no handle twice, and names exactly the live
/// ones.
pub proof fn lemma_listing_is_exact(s: RegistryState, listing: Seq<(Handle, u64)>)
    requires
        s.listed_by(listing),
    ensures
        forall|i: int, j: int|
            0 <= i < listing.len() && 0 <= j < listing.len() && i != j ==> (#[trigger] listing[i]).0
                != (#[trigger] listing[j]).0,
        forall|h: Handle|
            s.live(h) <==> exists|i: int| 0 <= i < listing.len() && (#[trigger] listing[i]).0 == h,
{
    assert forall|i: int, j: int|
        0 <= i < listing.len() && 0 <= j < listing.len() && i != j implies (#[trigger] listing[i]).0
        != (#[trigger] listing[j]).0 by {
        if i < j {
            assert(listing[i].0.slot < listing[j].0.slot);
        } else {
            assert(listing[j].0.slot < listing[i].0.slot);
        }
    }
}

/// A registry of entity keys, each stored under a generational handle.
pub struct Registry {
    arena: Arena<u64>,
    removed: u64,
}

impl Registry {
    /// The registry as a mathematical value.
    pub closed spec fn state(&self) -> RegistryState {
        RegistryState { entries: arena_entries(self.arena), generation: arena_generation(self.arena) }
    }

    /// The count of removals that the registry keeps agrees with its state.
    pub closed spec fn counted(&self) -> bool {
        self.removed as nat == arena_generation(self.arena)
    }

    /// The registry's invariant.
    pub open spec fn wf(&self) -> bool {
        self.state().wf() && self.counted()
    }

    /// An empty registry.
    pub fn new() -> (r: Registry)
        ensures
            r.wf(),
            r.state() == RegistryState::empty(),
    {
        let arena = arena_new();
        let r = Registry { arena, removed: 0 };
        assert(r.state().entries =~= Map::<Handle, u64>::empty());
        r
    }

    /// Stores `value` and returns the handle under which it is found from now
    /// on, until it is removed.
    pub fn insert(&mut self, value: u64) -> (h: Handle)
        requires
            old(self).wf(),
        ensures
            final(self).wf(),
            old(self).state().fresh(h),
            !old(self).state().live(h),
            final(self).state() == old(self).state().insert(h, value),
    {
        let h = arena_insert(&mut self.arena, value);
        proof {
            let s = old(self).state();
            assert(s.fresh(h)) by {
                assert forall|k: Handle| #[trigger] s.live(k) implies k.slot != h.slot by {
                    assert(arena_entries(old(self).arena).dom().contains(k));
                }
            }
            if s.live(h) {
                assert(h.slot != h.slot);
            }
            lemma_steps_keep_wf(s, h, value);
        }
        h
    }

    /// The value stored under `h`, or `None` where `h` is stale.
    pub fn get(&self, h: Handle) -> (r: Option<u64>)
        ensures
            r == self.state().get(h),
    {
        arena_get(&self.arena, h)
    }

    /// Access to the value stored under `h`, to read it and to write it, or
    /// `None` where `h` is stale. Writing changes that one value and nothing
    /// else.
    pub fn get_mut(&mut self, h: Handle) -> (r: Option<&mut u64>)
        requires
            old(self).wf(),
        ensures
            final(self).wf(),
            match r {
                Some(value) => {
                    &&& old(self).state().live(h)
                    &&& *value == old(self).state().entries[h]
                    &&& final(self).state() == old(self).state().insert(h, *final(value))
                },
                None => !old(self).state().live(h) && final(self).state() == old(self).state(),
            },
    {
        let r = arena_get_mut(&mut self.arena, h);
        proof {
            let s = old(self).state();
            if s.live(h) {
                assert forall|v: u64|
                    (RegistryState {
                        entries: #[trigger] s.entries.insert(h, v),
                        generation: s.generation,
                    }).wf() by {
                    let t = s.insert(h, v);
                    assert(t.entries.dom() =~= s.entries.dom());
                    assert forall|a: Handle| #[trigger] t.live(a) implies s.live(a) by {}
                }
            }
        }
        r
    }

    /// Whether `h` refers to an entry.
    pub fn contains(&self, h: Handle) -> (r: bool)
        ensures
            r == self.state().live(h),
    {
        arena_get(&self.arena, h).is_some()
    }

    /// How many removals the registry has seen.
    pub fn generation(&self) -> (g: u64)
        requires
            self.wf(),
        ensures
            g == self.state().generation,
    {
        self.removed
    }

    /// Removes the entry under `h` and returns its value; a stale handle
    /// removes nothing and gives `None`.
    pub fn remove(&mut self, h: Handle) -> (r: Option<u64>)
        requires
            old(self).wf(),
            old(self).state().live(h) ==> old(self).state().generation < u64::MAX,
        ensures
            final(self).wf(),
            r == old(self).state().get(h),
            final(self).state() == old(self).state().remove(h),
    {
        let r = arena_remove(&mut self.arena, h);
        if r.is_some() {
            self.removed = self.removed + 1;
        }
        proof {
            lemma_steps_keep_wf(old(self).state(), h, 0);
        }
        r
    }

    /// Removes the entry under `h` as `remove` does, in a registry of any
    /// age. A registry counts its removals in 64 bits; once it has counted as
    /// many as it can, a live entry stays where it is, nothing changes, and
    /// the result is `None`.
    pub fn checked_remove(&mut self, h: Handle) -> (r: Option<Option<u64>>)
        requires
            old(self).wf(),
        ensures
            final(self).wf(),
            r is None <==> old(self).state().live(h) && old(self).state().generation >= u64::MAX,
            r is None ==> final(self).state() == old(self).state(),
            r is Some ==> r->0 == old(self).state().get(h),
            r is Some ==> final(self).state() == old(self).state().remove(h),
    {
        if self.removed == u64::MAX && self.contains(h) {
            None
        } else {
            Some(self.remove(h))
        }
    }

    /// Every live entry with its handle, by ascending slot.
    pub fn iter(&self) -> (listing: Vec<(Handle, u64)>)
        ensures
            self.state().listed_by(listing@),
    {
        arena_iter(&self.arena)
    }

    /// The handle of the entry that holds `value`: of several, the one of the
    /// lowest slot.
    pub fn find(&self, value: u64) -> (r: Option<Handle>)
        ensures
            match r {
                Some(h) => self.state().is_holder(h, value),
                None => !self.state().holds(value),
            },
    {
        let listing = self.iter();
        let mut i: usize = 0;
        while i < listing.len()
            invariant
                0 <= i <= listing.len(),
                self.state().listed_by(listing@),
                forall|j: int| 0 <= j < i ==> (#[trigger] listing@[j]).1 != value,
            decreases listing.len() - i,
        {
            if listing[i].1 == value {
                let h = listing[i].0;
                proof {
                    let s = self.state();
                    assert(s.live(listing@[i as int].0));
                    assert forall|k: Handle| #[trigger] s.live(k) && s.entries[k] == value implies h.slot
                        <= k.slot by {
                        let j = choose|j: int| 0 <= j < listing@.len() && (#[trigger] listing@[j]).0 == k;
                        assert(listing@[j].1 == value);
                        if j < i {
                            assert(false);
                        } else if j > i {
                            assert(listing@[i as int].0.slot < listing@[j].0.slot);
                        }
                    }
                }
                return Some(h);
            }
            i = i + 1;
        }
        proof {
            let s = self.state();
            if s.holds(value) {
                let k = choose|k: Handle| #[trigger] s.live(k) && s.entries[k] == value;
                let j = choose|j: int| 0 <= j < listing@.len() && (#[trigger] listing@[j]).0 == k;
                assert(listing@[j].1 == value);
                assert(false);
            }
        }
        None
    }
}

} // verus!
