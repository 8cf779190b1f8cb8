//! The shared-read / exclusive-write monitor.
//!
//! `RwGuardState` is the bookkeeping a read-write lock keeps: how many
//! readers currently hold shared access and whether a writer holds exclusive
//! access. Acquisition succeeds exactly under the usual rules — any number
//! of readers while no writer holds the lock, one writer only while nobody
//! else does. The trace law proves that along any sequence of acquire and
//! release events, a reader's window and the writer's window never overlap.

use vstd::prelude::*;

verus! {

/// The monitor state of a read-write guard.
pub struct RwGuardState {
    readers: usize,
    writer: bool,
}

impl RwGuardState {
    /// How many readers hold shared access.
    pub closed spec fn readers_spec(self) -> int {
        self.readers as int
    }

    /// Whether a writer holds exclusive access.
    pub closed spec fn writer_spec(self) -> bool {
        self.writer
    }

    /// The guarantee the guard exists for: while a writer holds the lock,
    /// no reader does.
    pub open spec fn inv(self) -> bool {
        self.writer_spec() ==> self.readers_spec() == 0
    }

    /// A fresh guard: unheld.
    pub fn new() -> (s: RwGuardState)
        ensures
            s.readers_spec() == 0,
            !s.writer_spec(),
            s.inv(),
    {
        RwGuardState { readers: 0, writer: false }
    }

    /// A reader asks for shared access. Admitted exactly while no writer
    /// holds the lock; a refused reader waits and the state is unchanged.
    pub fn try_acquire_read(&mut self) -> (ok: bool)
        requires
            old(self).readers_spec() < usize::MAX,
        ensures
            ok == !old(self).writer_spec(),
            ok ==> final(self).readers_spec() == old(self).readers_spec() + 1
                && !final(self).writer_spec(),
            !ok ==> *final(self) == *old(self),
            old(self).inv() ==> final(self).inv(),
    {
        if self.writer {
            false
        } else {
            self.readers = self.readers + 1;
            true
        }
    }

    /// The writer asks for exclusive access. Admitted exactly while nobody
    /// at all holds the lock: it waits out every reader, and no new reader
    /// can slip in past an admitted writer.
    pub fn try_acquire_write(&mut self) -> (ok: bool)
        ensures
            ok == (!old(self).writer_spec() && old(self).readers_spec() == 0),
            ok ==> final(self).writer_spec() && final(self).readers_spec() == 0,
            !ok ==> *final(self) == *old(self),
            old(self).inv() ==> final(self).inv(),
    {
        if !self.writer && self.readers == 0 {
            self.writer = true;
            true
        } else {
            false
        }
    }

    /// A reader leaves its read window.
    pub fn release_read(&mut self)
        requires
            old(self).readers_spec() > 0,
        ensures
            final(self).readers_spec() == old(self).readers_spec() - 1,
            final(self).writer_spec() == old(self).writer_spec(),
            old(self).inv() ==> final(self).inv(),
    {
        self.readers = self.readers - 1;
    }

    /// The writer leaves its write window.
    pub fn release_write(&mut self)
        requires
            old(self).writer_spec(),
        ensures
            !final(self).writer_spec(),
            final(self).readers_spec() == old(self).readers_spec(),
            old(self).inv() ==> final(self).inv(),
    {
        self.writer = false;
    }
}

/// One event at the monitor.
pub enum GuardEvent {
    /// A reader asks for shared access.
    AcquireRead,
    /// The writer asks for exclusive access.
    AcquireWrite,
    /// A reader gives shared access back.
    ReleaseRead,
    /// The writer gives exclusive access back.
    ReleaseWrite,
}

/// The monitor's transition relation, as the state machine it is: an
/// acquisition that the rules refuse leaves the state unchanged — that task
/// keeps waiting — and a release that nothing holds is ignored.
pub open spec fn guard_step(readers: nat, writer: bool, ev: GuardEvent) -> (nat, bool) {
    match ev {
        GuardEvent::AcquireRead => if !writer {
            ((readers + 1) as nat, writer)
        } else {
            (readers, writer)
        },
        GuardEvent::AcquireWrite => if !writer && readers == 0 {
            (readers, true)
        } else {
            (readers, writer)
        },
        GuardEvent::ReleaseRead => if readers > 0 {
            ((readers - 1) as nat, writer)
        } else {
            (readers, writer)
        },
        GuardEvent::ReleaseWrite => (readers, false),
    }
}

/// The state after a whole trace of events, starting from the unheld guard.
pub open spec fn guard_run(evs: Seq<GuardEvent>) -> (nat, bool)
    decreases evs.len(),
{
    if evs.len() == 0 {
        (0nat, false)
    } else {
        let prior = guard_run(evs.drop_last());
        guard_step(prior.0, prior.1, evs.last())
    }
}

/// The no-overlap law: along every trace of acquire and release events, a
/// moment at which the writer holds the lock is a moment at which no reader
/// does — no read window ever overlaps a write window.
pub proof fn lemma_no_read_write_overlap(evs: Seq<GuardEvent>)
    ensures
        guard_run(evs).1 ==> guard_run(evs).0 == 0,
    decreases evs.len(),
{
    if evs.len() > 0 {
        lemma_no_read_write_overlap(evs.drop_last());
    }
}

/// The shared-read law: while no writer holds the lock, readers are never
/// turned away — after any trace that leaves the guard writer-free, two
/// further readers are both admitted and overlap.
pub proof fn lemma_two_readers_admitted(evs: Seq<GuardEvent>)
    requires
        !guard_run(evs).1,
    ensures
        guard_run(evs.push(GuardEvent::AcquireRead).push(GuardEvent::AcquireRead)).0
            == guard_run(evs).0 + 2,
        !guard_run(evs.push(GuardEvent::AcquireRead).push(GuardEvent::AcquireRead)).1,
{
    let one = evs.push(GuardEvent::AcquireRead);
    let two = one.push(GuardEvent::AcquireRead);
    assert(one.drop_last() =~= evs);
    assert(two.drop_last() =~= one);
    assert(guard_run(one) == guard_step(guard_run(evs).0, guard_run(evs).1,
        GuardEvent::AcquireRead));
    assert(guard_run(two) == guard_step(guard_run(one).0, guard_run(one).1,
        GuardEvent::AcquireRead));
}

} // verus!
