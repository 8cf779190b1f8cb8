//! The exact shared counter and the atomic-increment guarantee.
//!
//! `SafeCounter` is the sequential model of a counter whose increments are
//! individually indivisible. A concurrent run of worker tasks is modelled by
//! a *schedule*: the sequence of task identifiers in the order in which their
//! increments took effect. The central law proves that the final value does
//! not depend on that order at all: any interleaving of `n` tasks that each
//! increment `k` times drives the counter from 0 to exactly `n * k`.

use vstd::prelude::*;

verus! {

/// A counter whose increments are never lost.
pub struct SafeCounter {
    count: i32,
}

impl SafeCounter {
    /// The counter's current value, as a mathematical integer.
    pub closed spec fn count_spec(self) -> int {
        self.count as int
    }

    /// A fresh counter holds zero.
    pub fn new() -> (c: SafeCounter)
        ensures
            c.count_spec() == 0,
    {
        SafeCounter { count: 0 }
    }

    /// One indivisible increment: the value grows by exactly one.
    pub fn increment(&mut self)
        requires
            old(self).count_spec() < i32::MAX,
        ensures
            final(self).count_spec() == old(self).count_spec() + 1,
    {
        self.count = self.count + 1;
    }

    /// Reads the exact current value.
    pub fn get_count(&self) -> (r: i32)
        ensures
            r as int == self.count_spec(),
    {
        self.count
    }

    /// One task's whole workload: `m` increments back to back, each of which
    /// adds exactly one.
    pub fn add_many(&mut self, m: u32)
        requires
            old(self).count_spec() + m <= i32::MAX,
        ensures
            final(self).count_spec() == old(self).count_spec() + m,
    {
        let mut done: u32 = 0;
        while done < m
            invariant
                done <= m,
                self.count_spec() == old(self).count_spec() + done,
                old(self).count_spec() + m <= i32::MAX,
            decreases m - done,
        {
            self.increment();
            done = done + 1;
        }
    }
}

/// How many entries of `s` equal `id`: how many of the recorded increments
/// belong to the task with that identifier.
pub open spec fn occurrences(s: Seq<int>, id: int) -> nat
    decreases s.len(),
{
    if s.len() == 0 {
        0
    } else {
        occurrences(s.drop_last(), id) + if s.last() == id {
            1nat
        } else {
            0nat
        }
    }
}

/// `s` is one possible interleaving of `n` tasks that each perform `k`
/// increments: every entry names one of the `n` tasks, and every task
/// appears exactly `k` times.
pub open spec fn is_schedule(s: Seq<int>, n: int, k: nat) -> bool {
    &&& forall|j: int| 0 <= j < s.len() ==> 0 <= #[trigger] s[j] < n
    &&& forall|id: int| 0 <= id < n ==> #[trigger] occurrences(s, id) == k
}

/// The counter value reached by running the increments of `s` in order,
/// starting from `start`. Each step adds exactly one, whichever task it
/// belongs to.
pub open spec fn run_schedule(start: int, s: Seq<int>) -> int
    decreases s.len(),
{
    if s.len() == 0 {
        start
    } else {
        run_schedule(start, s.drop_last()) + 1
    }
}

/// `s` with every increment of task `id` removed, order otherwise kept.
pub open spec fn remove_id(s: Seq<int>, id: int) -> Seq<int>
    decreases s.len(),
{
    if s.len() == 0 {
        Seq::empty()
    } else if s.last() == id {
        remove_id(s.drop_last(), id)
    } else {
        remove_id(s.drop_last(), id).push(s.last())
    }
}

/// Running a schedule adds exactly its length: no increment is lost and none
/// is counted twice.
pub proof fn lemma_run_schedule_adds_length(start: int, s: Seq<int>)
    ensures
        run_schedule(start, s) == start + s.len(),
    decreases s.len(),
{
    if s.len() > 0 {
        lemma_run_schedule_adds_length(start, s.drop_last());
    }
}

/// Removing one task's increments shortens the schedule by exactly that
/// task's number of occurrences.
proof fn lemma_remove_id_length(s: Seq<int>, id: int)
    ensures
        remove_id(s, id).len() + occurrences(s, id) == s.len(),
    decreases s.len(),
{
    if s.len() > 0 {
        lemma_remove_id_length(s.drop_last(), id);
    }
}

/// Removing one task's increments leaves every other task's count unchanged.
proof fn lemma_remove_id_occurrences(s: Seq<int>, id: int, other: int)
    requires
        other != id,
    ensures
        occurrences(remove_id(s, id), other) == occurrences(s, other),
    decreases s.len(),
{
    if s.len() > 0 {
        lemma_remove_id_occurrences(s.drop_last(), id, other);
        if s.last() != id {
            assert(remove_id(s, id).drop_last() =~= remove_id(s.drop_last(), id));
        }
    }
}

/// Entries survive removal unchanged: what remains still names tasks of the
/// original range, and never the removed one.
proof fn lemma_remove_id_entries(s: Seq<int>, id: int, n: int)
    requires
        forall|j: int| 0 <= j < s.len() ==> 0 <= #[trigger] s[j] < n,
    ensures
        forall|j: int|
            0 <= j < remove_id(s, id).len() ==> 0 <= #[trigger] remove_id(s, id)[j] < n
                && remove_id(s, id)[j] != id,
    decreases s.len(),
{
    if s.len() > 0 {
        assert(forall|j: int|
            0 <= j < s.drop_last().len() ==> 0 <= #[trigger] s.drop_last()[j] < n);
        lemma_remove_id_entries(s.drop_last(), id, n);
        if s.last() != id {
            let r = remove_id(s, id);
            let r0 = remove_id(s.drop_last(), id);
            assert(s.last() == s[s.len() - 1]);
            assert(forall|j: int| 0 <= j < r.len() ==> r[j] == if j < r0.len() {
                r0[j]
            } else {
                s.last()
            });
        }
    }
}

/// A schedule of `n` tasks with `k` increments each has exactly `n * k`
/// entries.
proof fn lemma_schedule_length(s: Seq<int>, n: int, k: nat)
    requires
        n >= 0,
        is_schedule(s, n, k),
    ensures
        s.len() == n * k,
    decreases n,
{
    if n == 0 {
        if s.len() > 0 {
            let x = s[0];
            assert(0 <= x < 0);
        }
    } else {
        let id = n - 1;
        let rest = remove_id(s, id);
        lemma_remove_id_length(s, id);
        lemma_remove_id_entries(s, id, n);
        assert forall|other: int| 0 <= other < n - 1 implies #[trigger] occurrences(rest, other)
            == k by {
            lemma_remove_id_occurrences(s, id, other);
        }
        assert(is_schedule(rest, n - 1, k));
        lemma_schedule_length(rest, n - 1, k);
        assert(occurrences(s, id) == k);
        assert(s.len() == (n - 1) * k + k);
        assert((n - 1) * k + k == n * k) by (nonlinear_arith);
    }
}

/// The exact-count guarantee: however the increments of `n` tasks with `k`
/// increments each interleave, a counter started at 0 ends at exactly
/// `n * k`. No ordering of the schedule can lose or duplicate an increment.
pub proof fn lemma_counter_exact(s: Seq<int>, n: int, k: nat)
    requires
        n >= 0,
        is_schedule(s, n, k),
    ensures
        run_schedule(0, s) == n * k,
{
    lemma_schedule_length(s, n, k);
    lemma_run_schedule_adds_length(0, s);
}

/// A counter paired with a one-shot flag: each step returns the value it
/// saw and raises the flag exactly when that value was two, so the flag
/// records whether the counter has ever crossed three.
pub struct FlagCounter {
    count: u32,
    flag: bool,
}

impl FlagCounter {
    /// The current count.
    pub closed spec fn count_spec(self) -> int {
        self.count as int
    }

    /// Whether some step has observed the value two.
    pub closed spec fn flag_spec(self) -> bool {
        self.flag
    }

    /// A fresh instance: zero, flag down.
    pub fn new() -> (c: FlagCounter)
        ensures
            c.count_spec() == 0,
            !c.flag_spec(),
    {
        FlagCounter { count: 0, flag: false }
    }

    /// One indivisible fetch-and-increment: returns the value it replaced
    /// and raises the flag exactly when that value was two.
    pub fn fetch_increment(&mut self) -> (seen: u32)
        requires
            old(self).count_spec() < u32::MAX,
        ensures
            seen as int == old(self).count_spec(),
            final(self).count_spec() == old(self).count_spec() + 1,
            final(self).flag_spec() == (old(self).flag_spec() || old(self).count_spec() == 2),
    {
        let seen: u32 = self.count;
        self.count = self.count + 1;
        if seen == 2 {
            self.flag = true;
        }
        seen
    }

    /// Reads the pair the way a final report does.
    pub fn snapshot(&self) -> (r: (u32, bool))
        ensures
            r.0 as int == self.count_spec(),
            r.1 == self.flag_spec(),
    {
        (self.count, self.flag)
    }

    /// A run of `m` steps. Afterwards the count has grown by `m`, and the
    /// flag is up exactly when it already was or the count crossed three on
    /// the way: some step then observed the value two, whichever task it
    /// belonged to.
    pub fn run(&mut self, m: u32)
        requires
            old(self).count_spec() + m <= u32::MAX,
        ensures
            final(self).count_spec() == old(self).count_spec() + m,
            final(self).flag_spec() == (old(self).flag_spec() || old(self).count_spec() <= 2
                < old(self).count_spec() + m),
    {
        let mut done: u32 = 0;
        while done < m
            invariant
                done <= m,
                old(self).count_spec() + m <= u32::MAX,
                self.count_spec() == old(self).count_spec() + done,
                self.flag_spec() == (old(self).flag_spec() || old(self).count_spec() <= 2
                    < old(self).count_spec() + done),
            decreases m - done,
        {
            self.fetch_increment();
            done = done + 1;
        }
    }
}

} // verus!
