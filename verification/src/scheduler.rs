//! What the scheduler shares between its processors: the count of coroutines
//! that have been spawned and have not finished, and the list of processors,
//! through which a new processor learns of its neighbours and they of it.
use vstd::prelude::*;

verus! {

/// The count after one more coroutine was spawned (`fetch_add(1)`, which wraps).
pub open spec fn count_after_spawn(count: usize) -> usize {
    if count == usize::MAX { 0 } else { (count + 1) as usize }
}

/// The count after one coroutine finished (`fetch_sub(1)`, which wraps).
pub open spec fn count_after_finish(count: usize) -> usize {
    if count == 0 { usize::MAX } else { (count - 1) as usize }
}

/// The number of coroutines that were spawned and have not finished yet.
pub struct WorkCounter {
    count: usize,
}

impl WorkCounter {
    pub closed spec fn view(&self) -> usize {
        self.count
    }

    /// No coroutine spawned yet.
    pub fn new() -> (counter: WorkCounter)
        ensures
            counter@ == 0,
    {
        WorkCounter { count: 0 }
    }

    /// A coroutine was spawned.
    pub fn spawned(&mut self)
        ensures
            final(self)@ == count_after_spawn(old(self)@),
    {
        self.count = self.count.wrapping_add(1);
    }

    /// A coroutine finished or panicked.
    pub fn finished(&mut self)
        ensures
            final(self)@ == count_after_finish(old(self)@),
    {
        self.count = self.count.wrapping_sub(1);
    }

    /// How many coroutines are still to run to their end.
    pub fn work_count(&self) -> (n: usize)
        ensures
            n == self@,
    {
        self.count
    }
}

/// A coroutine that is spawned and then finishes leaves the count as it was,
/// in either order of the two updates.
pub proof fn lemma_spawn_then_finish(count: usize)
    ensures
        count_after_finish(count_after_spawn(count)) == count,
        count_after_spawn(count_after_finish(count)) == count,
{
}

/// One update of the work count.
#[derive(Clone, Copy, PartialEq, Eq, Structural, Debug)]
pub enum WorkEvent {
    /// `WorkCounter::spawned`.
    Spawned,
    /// `WorkCounter::finished`.
    Finished,
}

/// The count after the updates `events`, in order, starting from `count`.
pub open spec fn replay(count: usize, events: Seq<WorkEvent>) -> usize
    decreases events.len(),
{
    if events.len() == 0 {
        count
    } else {
        let before = replay(count, events.drop_last());
        match events.last() {
            WorkEvent::Spawned => count_after_spawn(before),
            WorkEvent::Finished => count_after_finish(before),
        }
    }
}

/// How many of the updates are spawns.
pub open spec fn spawn_count(events: Seq<WorkEvent>) -> nat
    decreases events.len(),
{
    if events.len() == 0 {
        0
    } else {
        spawn_count(events.drop_last()) + if events.last() == WorkEvent::Spawned { 1nat } else { 0nat }
    }
}

/// How many of the updates are finishes.
pub open spec fn finish_count(events: Seq<WorkEvent>) -> nat
    decreases events.len(),
{
    if events.len() == 0 {
        0
    } else {
        finish_count(events.drop_last()) + if events.last() == WorkEvent::Finished { 1nat } else { 0nat }
    }
}

/// Every prefix of the updates finished no more coroutines than it spawned,
/// and no more than `usize::MAX` coroutines were alive at once.
pub open spec fn well_counted(events: Seq<WorkEvent>) -> bool {
    forall|i: int| 0 <= i <= events.len() ==> {
        &&& #[trigger] finish_count(events.take(i)) <= spawn_count(events.take(i))
        &&& spawn_count(events.take(i)) <= finish_count(events.take(i)) + usize::MAX
    }
}

/// From a fresh counter, after any updates in which each finish follows its
/// coroutine's spawn (so the count is at least 1 before each finish) and the
/// count never passes `usize::MAX`, the work count is the number of spawns
/// minus the number of finishes.
pub proof fn lemma_count_is_spawns_minus_finishes(events: Seq<WorkEvent>)
    requires
        well_counted(events),
    ensures
        replay(0, events) == spawn_count(events) - finish_count(events),
    decreases events.len(),
{
    if events.len() > 0 {
        let prefix = events.drop_last();
        assert forall|i: int| 0 <= i <= prefix.len() implies {
            &&& #[trigger] finish_count(prefix.take(i)) <= spawn_count(prefix.take(i))
            &&& spawn_count(prefix.take(i)) <= finish_count(prefix.take(i)) + usize::MAX
        } by {
            assert(prefix.take(i) =~= events.take(i));
        }
        lemma_count_is_spawns_minus_finishes(prefix);
        assert(events.take(events.len() as int) =~= events);
        assert(finish_count(events.take(events.len() as int)) <= spawn_count(events.take(events.len() as int)));
    }
}

/// Each processor that registers, by the number under which it is known.
pub struct ProcessorRegistry {
    members: Vec<u64>,
}

impl ProcessorRegistry {
    pub closed spec fn view(&self) -> Seq<u64> {
        self.members@
    }

    /// No processor registered yet.
    pub fn new() -> (registry: ProcessorRegistry)
        ensures
            registry@ =~= Seq::<u64>::empty(),
    {
        ProcessorRegistry { members: Vec::new() }
    }

    /// A new processor registers. It is told of every processor registered
    /// before it, and each of those is told of it (the returned list is both
    /// its neighbours and those to announce it to); then it joins the list.
    pub fn join(&mut self, id: u64) -> (neighbors: Vec<u64>)
        ensures
            neighbors@ == old(self)@,
            final(self)@ == old(self)@.push(id),
    {
        let neighbors = self.members.clone();
        self.members.push(id);
        neighbors
    }

    /// A new scheduler enlists: it announces itself to every scheduler
    /// enlisted before it, joins the list, and takes the whole list, itself
    /// included, as its neighbours.
    pub fn enlist(&mut self, id: u64) -> (neighbors: Vec<u64>)
        ensures
            final(self)@ == old(self)@.push(id),
            neighbors@ == final(self)@,
    {
        self.members.push(id);
        self.members.clone()
    }

    /// How many processors registered.
    pub fn len(&self) -> (n: usize)
        ensures
            n == self@.len(),
    {
        self.members.len()
    }
}

/// What the processor at position `i` of the registry learns at its own
/// `join`, followed by what the later ones announce to it.
pub open spec fn learned_by(members: Seq<u64>, i: int) -> Seq<u64> {
    members.take(i) + members.skip(i + 1)
}

/// Every registered processor comes to know every other one, each once and
/// in the order of registration: at its `join` it is told of those before it,
/// and each later `join` announces the newcomer to it.
pub proof fn lemma_each_learns_every_other(members: Seq<u64>, i: int)
    requires
        0 <= i < members.len(),
    ensures
        learned_by(members, i) =~= members.remove(i),
{
}

/// How many threads `Scheduler::run(procs)` starts besides the calling one,
/// which schedules as well.
pub fn helper_threads(procs: usize) -> (n: usize)
    requires
        procs >= 1,
    ensures
        n == procs - 1,
{
    procs - 1
}

} // verus!
