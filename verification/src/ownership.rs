//! Single-owner values: transfer, scoped destruction, and shared counting.
//!
//! `OwnerArena` models move semantics as data: every held value lives in one
//! slot, a `Handle` names the slot, and transferring ownership retires the
//! old slot for good. A stale handle is rejected at every later access —
//! use after transfer cannot touch the value. `DropScope` models that
//! destruction runs exactly once per value, at scope exit, in reverse order
//! of construction; `RcShared` models a shared-ownership count whose owner
//! is destroyed exactly when the last reference is given up.

use vstd::prelude::*;

verus! {

/// A named value with constructor and destructor narration around it.
#[derive(Debug, PartialEq, Eq)]
pub struct DataHolder {
    pub value: i32,
    pub name: String,
}

impl DataHolder {
    /// Builds a holder with exactly the given value and label.
    pub fn new(value: i32, name: &str) -> (d: DataHolder)
        ensures
            d.value == value,
            d.name@ == name@,
    {
        DataHolder { value, name: name.to_string() }
    }
}

impl Clone for DataHolder {
    /// A clone carries the same value and label.
    fn clone(&self) -> (r: Self)
        ensures
            r == *self,
    {
        DataHolder { value: self.value, name: self.name.clone() }
    }
}

/// One slot of the arena: its value, and whether the slot still owns it.
struct Slot {
    holder: DataHolder,
    alive: bool,
}

/// A capability to use one owned value. Copying the handle copies only the
/// name of the slot, never the ownership: after a transfer, every copy of
/// the old handle is stale together.
#[derive(Debug, Clone, Copy, PartialEq, Eq, Structural)]
pub struct Handle {
    pub slot: usize,
}

/// The single-owner arena: each value it holds is owned by exactly one live
/// slot, and only the handle to that slot reaches the value.
pub struct OwnerArena {
    slots: Vec<Slot>,
}

impl OwnerArena {
    /// Whether `h` currently grants access: it names a slot that still owns
    /// its value.
    pub closed spec fn grants(self, h: Handle) -> bool {
        h.slot < self.slots@.len() && self.slots@[h.slot as int].alive
    }

    /// The value a handle reaches.
    pub closed spec fn value_of(self, h: Handle) -> DataHolder {
        self.slots@[h.slot as int].holder
    }

    /// An empty arena: no handle grants anything.
    pub fn new() -> (a: OwnerArena)
        ensures
            forall|h: Handle| !a.grants(h),
    {
        OwnerArena { slots: Vec::new() }
    }

    /// Takes ownership of a value and hands back the one handle that
    /// reaches it. Every handle that granted access before still does, to
    /// its unchanged value.
    pub fn adopt(&mut self, d: DataHolder) -> (h: Handle)
        ensures
            final(self).grants(h),
            final(self).value_of(h) == d,
            !old(self).grants(h),
            forall|g: Handle| old(self).grants(g) ==> #[trigger] final(self).grants(g)
                && final(self).value_of(g) == old(self).value_of(g),
    {
        let h = Handle { slot: self.slots.len() };
        self.slots.push(Slot { holder: d, alive: true });
        h
    }

    /// Reads through a handle: the owned value exactly when the handle
    /// still grants access, absent when the handle is stale.
    pub fn access(&self, h: Handle) -> (r: Option<&DataHolder>)
        ensures
            r is Some <==> self.grants(h),
            r matches Some(d) ==> *d == self.value_of(h),
    {
        if h.slot < self.slots.len() && self.slots[h.slot].alive {
            Some(&self.slots[h.slot].holder)
        } else {
            None
        }
    }

    /// Moves ownership to a fresh handle. The transfer happens exactly when
    /// the old handle still granted access; afterwards the old handle (and
    /// every copy of it) is stale, the new handle alone reaches the value,
    /// and it reaches it unchanged. A stale handle transfers nothing.
    pub fn transfer(&mut self, h: Handle) -> (r: Option<Handle>)
        ensures
            r is Some <==> old(self).grants(h),
            r matches Some(h2) ==> final(self).grants(h2) && !final(self).grants(h)
                && final(self).value_of(h2) == old(self).value_of(h) && h2 != h,
            r is None ==> *final(self) == *old(self),
            forall|g: Handle| old(self).grants(g) && g != h ==> #[trigger] final(self).grants(g)
                && final(self).value_of(g) == old(self).value_of(g),
    {
        if h.slot < self.slots.len() && self.slots[h.slot].alive {
            let d = self.slots[h.slot].holder.clone();
            self.slots[h.slot].alive = false;
            let h2 = Handle { slot: self.slots.len() };
            self.slots.push(Slot { holder: d, alive: true });
            Some(h2)
        } else {
            None
        }
    }

    /// Ends an owner's scope: destruction happens exactly when the handle
    /// still granted access, and at most once — a second release of the
    /// same handle finds it stale and does nothing.
    pub fn release(&mut self, h: Handle) -> (destroyed: bool)
        ensures
            destroyed == old(self).grants(h),
            !final(self).grants(h),
            !destroyed ==> *final(self) == *old(self),
            forall|g: Handle| old(self).grants(g) && g != h ==> #[trigger] final(self).grants(g)
                && final(self).value_of(g) == old(self).value_of(g),
    {
        if h.slot < self.slots.len() && self.slots[h.slot].alive {
            self.slots[h.slot].alive = false;
            true
        } else {
            false
        }
    }
}

/// A scope that records construction order and destroys in reverse.
pub struct DropScope {
    created: Vec<u64>,
}

impl DropScope {
    /// The identifiers of the values constructed in this scope, oldest
    /// first.
    pub closed spec fn created_order(self) -> Seq<u64> {
        self.created@
    }

    /// A scope with nothing constructed yet.
    pub fn new() -> (s: DropScope)
        ensures
            s.created_order() == Seq::<u64>::empty(),
    {
        DropScope { created: Vec::new() }
    }

    /// Records one construction, after everything recorded so far.
    pub fn note_created(&mut self, id: u64)
        ensures
            final(self).created_order() == old(self).created_order().push(id),
    {
        self.created.push(id);
    }

    /// Ends the scope, consuming it: every constructed value is destroyed
    /// exactly once, and the destruction order is exactly the reverse of
    /// the construction order.
    pub fn finish(self) -> (destroyed: Vec<u64>)
        ensures
            destroyed@.len() == self.created_order().len(),
            forall|i: int| 0 <= i < destroyed@.len() ==> destroyed@[i] == self.created_order()[
                self.created_order().len() - 1 - i
            ],
    {
        let mut remaining = self.created;
        let ghost order = remaining@;
        let mut destroyed: Vec<u64> = Vec::new();
        loop
            invariant
                remaining@ == order.subrange(0, remaining@.len() as int),
                destroyed@.len() + remaining@.len() == order.len(),
                forall|i: int| 0 <= i < destroyed@.len() ==> destroyed@[i] == order[
                    order.len() - 1 - i
                ],
            ensures
                remaining@.len() == 0,
                destroyed@.len() == order.len(),
                forall|i: int| 0 <= i < destroyed@.len() ==> destroyed@[i] == order[
                    order.len() - 1 - i
                ],
            decreases remaining@.len(),
        {
            match remaining.pop() {
                Some(id) => {
                    destroyed.push(id);
                },
                None => {
                    break;
                },
            }
        }
        destroyed
    }
}

/// The count behind a shared-ownership wrapper: how many references share
/// one value, and the rule that the value is destroyed exactly when the
/// last reference is given up.
pub struct RcShared {
    count: u64,
}

impl RcShared {
    /// How many references currently share the value.
    pub closed spec fn strong_count(self) -> int {
        self.count as int
    }

    /// Creating the value creates its first reference.
    pub fn new() -> (r: RcShared)
        ensures
            r.strong_count() == 1,
    {
        RcShared { count: 1 }
    }

    /// Another reference to the same value: the count grows, nothing is
    /// copied and nothing destroyed.
    pub fn clone_ref(&mut self)
        requires
            old(self).strong_count() >= 1,
            old(self).strong_count() < u64::MAX,
        ensures
            final(self).strong_count() == old(self).strong_count() + 1,
    {
        self.count = self.count + 1;
    }

    /// One reference goes out of scope. Destruction fires exactly when this
    /// was the last reference — never earlier, and never a second time,
    /// since a destroyed value has no reference left to drop.
    pub fn drop_ref(&mut self) -> (destroyed: bool)
        requires
            old(self).strong_count() >= 1,
        ensures
            final(self).strong_count() == old(self).strong_count() - 1,
            destroyed == (old(self).strong_count() == 1),
            destroyed == (final(self).strong_count() == 0),
    {
        self.count = self.count - 1;
        self.count == 0
    }

    /// Reads the current count, as the narration does.
    pub fn get_count(&self) -> (r: u64)
        ensures
            r as int == self.strong_count(),
    {
        self.count
    }
}

} // verus!
