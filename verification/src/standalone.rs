//! The decisions of the single-file scheduler that the demo program runs on
//! each of its threads.
//!
//! Each round it takes one message from its channel, polls its event loop,
//! runs one coroutine from its own queue, and when that queue is empty tries
//! its neighbours in turn until one of them gives a coroutine. It never stops
//! on its own. As with `Processor`, the caller performs each command and
//! answers with what it gave.
use vstd::prelude::*;
use crate::processor::{Message, Steal, ResumeOutcome, Input, Command};

verus! {

/// Which answer the scheduler waits for.
#[derive(Clone, Copy, PartialEq, Eq, Structural, Debug)]
pub enum StandalonePhase {
    Ready,
    AwaitMessage,
    AwaitPoll,
    AwaitLocal,
    AwaitResume(u64),
    AwaitAck,
    /// Stealing from the neighbour at this position.
    AwaitNeighbor(usize),
    Halted,
}

/// The scheduler's loop as a value.
pub struct SchedulerView {
    pub phase: StandalonePhase,
    pub neighbors: Seq<u64>,
}

/// Try the neighbour at position `i`, or start the next round when every
/// neighbour was tried.
pub open spec fn scan_from(neighbors: Seq<u64>, i: nat) -> (StandalonePhase, Command) {
    if i < neighbors.len() {
        (StandalonePhase::AwaitNeighbor(i as usize), Command::StealFrom(i as usize))
    } else {
        (StandalonePhase::AwaitMessage, Command::Receive)
    }
}

/// One step of the loop.
pub open spec fn standalone_next(s: SchedulerView, input: Input) -> (SchedulerView, Command) {
    let same = |phase: StandalonePhase| SchedulerView { phase, neighbors: s.neighbors };
    let go = |pc: (StandalonePhase, Command)| (same(pc.0), pc.1);
    match (s.phase, input) {
        (StandalonePhase::Ready, Input::Start) => (same(StandalonePhase::AwaitMessage), Command::Receive),
        (StandalonePhase::AwaitMessage, Input::Received(Message::NewNeighbor(id))) => {
            (SchedulerView { phase: StandalonePhase::AwaitPoll, neighbors: s.neighbors.push(id) }, Command::PollEvents)
        },
        (StandalonePhase::AwaitMessage, Input::Received(Message::Empty)) => (same(StandalonePhase::AwaitPoll), Command::PollEvents),
        (StandalonePhase::AwaitPoll, Input::Polled(true)) => (same(StandalonePhase::AwaitLocal), Command::StealLocal),
        (StandalonePhase::AwaitLocal, Input::Stolen(Steal::Data(h))) => (same(StandalonePhase::AwaitResume(h)), Command::Resume(h)),
        (StandalonePhase::AwaitLocal, Input::Stolen(_)) => go(scan_from(s.neighbors, 0)),
        (StandalonePhase::AwaitNeighbor(i), Input::Stolen(Steal::Data(h))) => (same(StandalonePhase::AwaitResume(h)), Command::Resume(h)),
        (StandalonePhase::AwaitNeighbor(i), Input::Stolen(_)) => go(scan_from(s.neighbors, (i + 1) as nat)),
        (StandalonePhase::AwaitResume(h), Input::Resumed(ResumeOutcome::Suspended)) => (same(StandalonePhase::AwaitAck), Command::Requeue(h)),
        (StandalonePhase::AwaitResume(h), Input::Resumed(_)) => (same(StandalonePhase::AwaitMessage), Command::Receive),
        (StandalonePhase::AwaitAck, Input::Done) => (same(StandalonePhase::AwaitMessage), Command::Receive),
        _ => (same(StandalonePhase::Halted), Command::Abort),
    }
}

/// The state of the single-file scheduler's loop.
pub struct Scheduler {
    phase: StandalonePhase,
    neighbors: Vec<u64>,
}

impl Scheduler {
    pub closed spec fn view(&self) -> SchedulerView {
        SchedulerView { phase: self.phase, neighbors: self.neighbors@ }
    }

    /// A scheduler that has not started, with the neighbours it found when it
    /// enlisted (itself among them).
    pub fn new(neighbors: Vec<u64>) -> (s: Scheduler)
        ensures
            s.wf(),
            s@.phase == StandalonePhase::Ready,
            s@.neighbors == neighbors@,
    {
        Scheduler { phase: StandalonePhase::Ready, neighbors }
    }

    /// The neighbours known so far.
    pub fn neighbors(&self) -> (ns: &Vec<u64>)
        ensures
            ns@ == self@.neighbors,
    {
        &self.neighbors
    }

    fn scan_from(&mut self, i: usize) -> (cmd: Command)
        requires
            i <= old(self)@.neighbors.len(),
        ensures
            final(self)@.neighbors == old(self)@.neighbors,
            (final(self)@.phase, cmd) == scan_from(old(self)@.neighbors, i as nat),
    {
        if i < self.neighbors.len() {
            self.phase = StandalonePhase::AwaitNeighbor(i);
            Command::StealFrom(i)
        } else {
            self.phase = StandalonePhase::AwaitMessage;
            Command::Receive
        }
    }

    /// The position of the neighbour being tried is within the list.
    pub closed spec fn wf(&self) -> bool {
        self.phase matches StandalonePhase::AwaitNeighbor(i) ==> i < self.neighbors.len()
    }

    /// One step of the loop (`Scheduler::schedule`).
    pub fn schedule(&mut self, input: Input) -> (cmd: Command)
        requires
            old(self).wf(),
        ensures
            final(self).wf(),
            (final(self)@, cmd) == standalone_next(old(self)@, input),
    {
        match (self.phase, input) {
            (StandalonePhase::Ready, Input::Start) => {
                self.phase = StandalonePhase::AwaitMessage;
                Command::Receive
            },
            (StandalonePhase::AwaitMessage, Input::Received(Message::NewNeighbor(id))) => {
                self.neighbors.push(id);
                self.phase = StandalonePhase::AwaitPoll;
                Command::PollEvents
            },
            (StandalonePhase::AwaitMessage, Input::Received(Message::Empty)) => {
                self.phase = StandalonePhase::AwaitPoll;
                Command::PollEvents
            },
            (StandalonePhase::AwaitPoll, Input::Polled(true)) => {
                self.phase = StandalonePhase::AwaitLocal;
                Command::StealLocal
            },
            (StandalonePhase::AwaitLocal, Input::Stolen(stolen)) => {
                match stolen {
                    Steal::Data(h) => {
                        self.phase = StandalonePhase::AwaitResume(h);
                        Command::Resume(h)
                    },
                    _ => self.scan_from(0),
                }
            },
            (StandalonePhase::AwaitNeighbor(i), Input::Stolen(stolen)) => {
                match stolen {
                    Steal::Data(h) => {
                        self.phase = StandalonePhase::AwaitResume(h);
                        Command::Resume(h)
                    },
                    _ => self.scan_from(i + 1),
                }
            },
            (StandalonePhase::AwaitResume(h), Input::Resumed(outcome)) => {
                match outcome {
                    ResumeOutcome::Suspended => {
                        self.phase = StandalonePhase::AwaitAck;
                        Command::Requeue(h)
                    },
                    _ => {
                        self.phase = StandalonePhase::AwaitMessage;
                        Command::Receive
                    },
                }
            },
            (StandalonePhase::AwaitAck, Input::Done) => {
                self.phase = StandalonePhase::AwaitMessage;
                Command::Receive
            },
            _ => {
                self.phase = StandalonePhase::Halted;
                Command::Abort
            },
        }
    }
}

/// The scheduler never decides to stop: short of a broken channel, a failed
/// poll or an answer that does not fit, it keeps scheduling.
pub proof fn lemma_never_stops(s: SchedulerView, input: Input)
    ensures
        standalone_next(s, input).1 != Command::Stop,
        standalone_next(s, input).1 == Command::Abort ==> {
            ||| input == Input::Received(Message::Disconnected)
            ||| input == Input::Polled(false)
            ||| standalone_next(s, input).0.phase == StandalonePhase::Halted
        },
{
}

/// Every round polls the event loop: a message read is always followed by a
/// poll.
pub proof fn lemma_polls_every_round(s: SchedulerView, m: Message)
    requires
        s.phase == StandalonePhase::AwaitMessage,
        m != Message::Disconnected,
    ensures
        standalone_next(s, Input::Received(m)).1 == Command::PollEvents,
{
}

/// Neighbours are tried in the order of the list, each once per round: a
/// failed steal from the neighbour at `i` leads to the one at `i + 1`, or to
/// the next round after the last one.
pub proof fn lemma_neighbors_in_order(neighbors: Seq<u64>, i: usize, stolen: Steal)
    requires
        i < neighbors.len(),
        !(stolen is Data),
    ensures
        ({
            let s = SchedulerView { phase: StandalonePhase::AwaitNeighbor(i), neighbors };
            let cmd = standalone_next(s, Input::Stolen(stolen)).1;
            &&& i + 1 < neighbors.len() ==> cmd == Command::StealFrom((i + 1) as usize)
            &&& i + 1 == neighbors.len() ==> cmd == Command::Receive
        }),
{
}

/// The demo scheduler switches to a coroutine only right after taking it from
/// a queue, puts back on its own queue only a coroutine that came back
/// suspended, and after any other outcome starts the next round.
pub proof fn lemma_standalone_dispositions(s: SchedulerView, input: Input)
    ensures
        standalone_next(s, input).1 matches Command::Resume(h) ==> input == Input::Stolen(Steal::Data(h)),
        standalone_next(s, input).1 matches Command::Requeue(h) ==> {
            &&& input == Input::Resumed(ResumeOutcome::Suspended)
            &&& s.phase == StandalonePhase::AwaitResume(h)
        },
        (s.phase is AwaitResume && input is Resumed && input != Input::Resumed(ResumeOutcome::Suspended))
            ==> standalone_next(s, input).1 == Command::Receive,
{
}

} // verus!
