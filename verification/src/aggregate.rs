//! The exclusively guarded shared aggregate: a list of values, their running
//! sum, and a flag that the writer toggles on every update step.
//!
//! The aggregate's consistency invariant says that the three parts always
//! belong to one and the same update step: the sum is the sum of the listed
//! values and the flag records the parity of the number of steps taken. A
//! reader that observes the aggregate only under exclusive access therefore
//! never sees a torn mixture of two steps.

use vstd::prelude::*;

verus! {

/// The mathematical sum of a sequence of values.
pub open spec fn sum_of(s: Seq<i32>) -> int
    decreases s.len(),
{
    if s.len() == 0 {
        0
    } else {
        sum_of(s.drop_last()) + s.last()
    }
}

/// A list of values with their running sum and the writer's toggle flag,
/// only ever mutated as one indivisible update step.
pub struct SharedData {
    data: Vec<i32>,
    sum: i32,
    processing: bool,
}

impl SharedData {
    /// The values appended so far, in order.
    pub closed spec fn values(self) -> Seq<i32> {
        self.data@
    }

    /// The running sum.
    pub closed spec fn sum_spec(self) -> int {
        self.sum as int
    }

    /// The toggle flag.
    pub closed spec fn processing_spec(self) -> bool {
        self.processing
    }

    /// Consistency: sum and flag belong to exactly the update step that
    /// produced the current list — the sum adds up the listed values and the
    /// flag records whether an odd number of steps has run.
    pub open spec fn wf(self) -> bool {
        &&& self.sum_spec() == sum_of(self.values())
        &&& self.processing_spec() == (self.values().len() % 2 == 1)
    }

    /// A fresh aggregate: no values, zero sum, flag down. Consistent from
    /// the start.
    pub fn new() -> (d: SharedData)
        ensures
            d.values() == Seq::<i32>::empty(),
            d.sum_spec() == 0,
            !d.processing_spec(),
            d.wf(),
    {
        SharedData { data: Vec::new(), sum: 0, processing: false }
    }

    /// One whole update step, performed under exclusive access: appends the
    /// value, grows the sum by it, and toggles the flag. Consistency is
    /// preserved because all three parts move together.
    pub fn add_value(&mut self, value: i32)
        requires
            i32::MIN <= old(self).sum_spec() + value <= i32::MAX,
        ensures
            final(self).values() == old(self).values().push(value),
            final(self).sum_spec() == old(self).sum_spec() + value,
            final(self).processing_spec() == !old(self).processing_spec(),
            old(self).wf() ==> final(self).wf(),
    {
        self.data.push(value);
        self.sum = self.sum + value;
        self.processing = !self.processing;
        proof {
            assert(self.data@.drop_last() =~= old(self).data@);
        }
    }

    /// The triple a reader prints: length, sum, and flag, all taken from the
    /// same state.
    pub fn stats(&self) -> (r: (usize, i32, bool))
        ensures
            r.0 as int == self.values().len(),
            r.1 as int == self.sum_spec(),
            r.2 == self.processing_spec(),
    {
        (self.data.len(), self.sum, self.processing)
    }

    /// The value of one update step, for replaying the list.
    pub fn value_at(&self, i: usize) -> (r: Option<i32>)
        ensures
            i < self.values().len() ==> r == Some(self.values()[i as int]),
            i >= self.values().len() ==> r is None,
    {
        if i < self.data.len() {
            Some(self.data[i])
        } else {
            None
        }
    }
}

/// The never-torn-read law: whatever moment a consistent aggregate is
/// observed at, its length, sum and flag all describe the single update step
/// numbered `values().len()` — the sum is the sum of exactly those values and
/// the flag is exactly that step count's parity. Two observations that agree
/// on the list agree on everything.
pub proof fn lemma_observation_single_step(a: SharedData, b: SharedData)
    requires
        a.wf(),
        b.wf(),
        a.values() == b.values(),
    ensures
        a.sum_spec() == sum_of(a.values()),
        a.processing_spec() == (a.values().len() % 2 == 1),
        a.sum_spec() == b.sum_spec(),
        a.processing_spec() == b.processing_spec(),
{
}

} // verus!
