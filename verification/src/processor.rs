//! The decisions of a processor's scheduling loop.
//!
//! A processor runs coroutines from its own work queue, polls the event loop
//! while coroutines wait for I/O, steals work from a neighbour chosen at
//! random when its queue runs dry, and stops once no coroutine is left to run
//! anywhere. The queue operations, the event loop, the coroutine switches and
//! the message channel are outside work: the caller performs each `Command`
//! that `schedule` hands out and answers with the `Input` that it produced.
use vstd::prelude::*;
use crate::token_table::TokenTable;

verus! {

/// What the processor's message channel gave (`try_recv`).
#[derive(Clone, Copy, PartialEq, Eq, Structural, Debug)]
pub enum Message {
    /// A processor registered after this one; it is known by this number.
    NewNeighbor(u64),
    /// No message was waiting.
    Empty,
    /// The sending side is gone.
    Disconnected,
}

/// What stealing from a work queue gave.
#[derive(Clone, Copy, PartialEq, Eq, Structural, Debug)]
pub enum Steal {
    /// A runnable coroutine.
    Data(u64),
    /// The queue was empty.
    Empty,
    /// The steal lost a race; the queue may still hold work.
    Abort,
}

/// How a coroutine came back from running.
#[derive(Clone, Copy, PartialEq, Eq, Structural, Debug)]
pub enum ResumeOutcome {
    /// It yielded and wants to run again.
    Suspended,
    /// It waits for an I/O event under a token of the processor's table.
    Blocked,
    /// It ran to its end.
    Finished,
    /// It panicked.
    Panicked,
    /// It reported a state that a resumed coroutine cannot be in.
    Unexpected,
    /// The resume itself failed.
    Failed,
}

/// The answer to the last command.
#[derive(Clone, Copy, PartialEq, Eq, Structural, Debug)]
pub enum Input {
    /// The loop starts; no command was given yet.
    Start,
    /// The answer to `Receive`.
    Received(Message),
    /// The answer to `PollEvents`: whether the poll succeeded.
    Polled(bool),
    /// The answer to `StealLocal` or `StealFrom`.
    Stolen(Steal),
    /// The answer to `Resume`.
    Resumed(ResumeOutcome),
    /// `Requeue` or `Retire` was carried out.
    Done,
    /// The answer to `ReadWorkCount`.
    WorkCount(usize),
}

/// What the processor asks its caller to do next.
#[derive(Clone, Copy, PartialEq, Eq, Structural, Debug)]
pub enum Command {
    /// Take one message from the channel, without waiting.
    Receive,
    /// Run the event loop once; it wakes the coroutines whose events came.
    PollEvents,
    /// Steal from the processor's own queue.
    StealLocal,
    /// Switch to the coroutine until it yields.
    Resume(u64),
    /// Put the coroutine back on the processor's own queue.
    Requeue(u64),
    /// Count the coroutine as done in the scheduler's work count.
    Retire(u64),
    /// Steal from the neighbour at this position of the neighbour list.
    StealFrom(usize),
    /// Read the scheduler's work count.
    ReadWorkCount,
    /// Leave the loop: nothing is left to run.
    Stop,
    /// Leave the loop with the poll's error.
    Fail,
    /// Give up: the channel broke, a coroutine came back in an impossible
    /// state, or an answer did not fit the command.
    Abort,
}

/// Where the coroutine being run came from.
#[derive(Clone, Copy, PartialEq, Eq, Structural, Debug)]
pub enum Origin {
    Local,
    Neighbor,
}

/// Which answer the processor waits for.
#[derive(Clone, Copy, PartialEq, Eq, Structural, Debug)]
pub enum Phase {
    Ready,
    AwaitMessage,
    AwaitPoll,
    AwaitLocal,
    AwaitResume(u64, Origin),
    AwaitAck(Origin),
    AwaitNeighbor,
    AwaitCount,
    Halted,
}

/// The state of one processor's scheduling loop.
pub struct Processor {
    phase: Phase,
    neighbors: Vec<u64>,
}

/// The state of a scheduling loop as a value.
pub struct ProcessorView {
    pub phase: Phase,
    pub neighbors: Seq<u64>,
}

/// The neighbour picked by a random draw: the draw modulo the number of
/// neighbours.
pub open spec fn neighbor_pick(draw: usize, count: nat) -> usize {
    (draw as int % count as int) as usize
}

/// After the own queue ran dry: poll again while coroutines wait for I/O,
/// else steal from a neighbour if there is one, else look at the work count.
pub open spec fn after_drain(neighbors: Seq<u64>, waiting: nat, draw: usize) -> (Phase, Command) {
    if waiting != 0 {
        (Phase::AwaitMessage, Command::Receive)
    } else if neighbors.len() > 0 {
        (Phase::AwaitNeighbor, Command::StealFrom(neighbor_pick(draw, neighbors.len())))
    } else {
        (Phase::AwaitCount, Command::ReadWorkCount)
    }
}

/// After a coroutine was dealt with: a local one leads to the next steal from
/// the own queue, one from a neighbour to a new round of the loop.
pub open spec fn continue_from(origin: Origin) -> (Phase, Command) {
    match origin {
        Origin::Local => (Phase::AwaitLocal, Command::StealLocal),
        Origin::Neighbor => (Phase::AwaitMessage, Command::Receive),
    }
}

/// After the message channel was read: poll while coroutines wait for I/O,
/// then turn to the own queue.
pub open spec fn after_message(waiting: nat) -> (Phase, Command) {
    if waiting != 0 {
        (Phase::AwaitPoll, Command::PollEvents)
    } else {
        (Phase::AwaitLocal, Command::StealLocal)
    }
}

/// One step of the loop: from the state, the answer to the last command, the
/// number of coroutines waiting for I/O and a random draw, the next state and
/// command.
pub open spec fn next(s: ProcessorView, input: Input, waiting: nat, draw: usize) -> (ProcessorView, Command) {
    let same = |phase: Phase| ProcessorView { phase, neighbors: s.neighbors };
    let go = |pc: (Phase, Command)| (same(pc.0), pc.1);
    match (s.phase, input) {
        (Phase::Ready, Input::Start) => (same(Phase::AwaitMessage), Command::Receive),
        (Phase::AwaitMessage, Input::Received(Message::NewNeighbor(id))) => {
            let pc = after_message(waiting);
            (ProcessorView { phase: pc.0, neighbors: s.neighbors.push(id) }, pc.1)
        },
        (Phase::AwaitMessage, Input::Received(Message::Empty)) => go(after_message(waiting)),
        (Phase::AwaitPoll, Input::Polled(true)) => (same(Phase::AwaitLocal), Command::StealLocal),
        (Phase::AwaitPoll, Input::Polled(false)) => (same(Phase::Halted), Command::Fail),
        (Phase::AwaitLocal, Input::Stolen(Steal::Data(h))) => (same(Phase::AwaitResume(h, Origin::Local)), Command::Resume(h)),
        (Phase::AwaitLocal, Input::Stolen(Steal::Abort)) => (same(Phase::AwaitLocal), Command::StealLocal),
        (Phase::AwaitLocal, Input::Stolen(Steal::Empty)) => go(after_drain(s.neighbors, waiting, draw)),
        (Phase::AwaitResume(h, origin), Input::Resumed(ResumeOutcome::Suspended)) => (same(Phase::AwaitAck(origin)), Command::Requeue(h)),
        (Phase::AwaitResume(h, origin), Input::Resumed(ResumeOutcome::Finished)) => (same(Phase::AwaitAck(origin)), Command::Retire(h)),
        (Phase::AwaitResume(h, origin), Input::Resumed(ResumeOutcome::Panicked)) => (same(Phase::AwaitAck(origin)), Command::Retire(h)),
        (Phase::AwaitResume(h, origin), Input::Resumed(ResumeOutcome::Blocked)) => go(continue_from(origin)),
        (Phase::AwaitResume(h, origin), Input::Resumed(ResumeOutcome::Failed)) => go(continue_from(origin)),
        (Phase::AwaitAck(origin), Input::Done) => go(continue_from(origin)),
        (Phase::AwaitNeighbor, Input::Stolen(Steal::Data(h))) => (same(Phase::AwaitResume(h, Origin::Neighbor)), Command::Resume(h)),
        (Phase::AwaitNeighbor, Input::Stolen(_)) => (same(Phase::AwaitCount), Command::ReadWorkCount),
        (Phase::AwaitCount, Input::WorkCount(n)) => {
            if n == 0 {
                (same(Phase::Halted), Command::Stop)
            } else {
                (same(Phase::AwaitMessage), Command::Receive)
            }
        },
        _ => (same(Phase::Halted), Command::Abort),
    }
}

/// The loop stops only when it has just read a work count of zero.
pub proof fn lemma_stops_only_without_work(s: ProcessorView, input: Input, waiting: nat, draw: usize)
    ensures
        next(s, input, waiting, draw).1 == Command::Stop ==> s.phase == Phase::AwaitCount && input == Input::WorkCount(0),
{
}

/// The work count is read only after the own queue ran dry while no coroutine
/// waited for I/O, or after a steal from a neighbour brought nothing.
pub proof fn lemma_count_read_when_idle(s: ProcessorView, input: Input, waiting: nat, draw: usize)
    ensures
        next(s, input, waiting, draw).1 == Command::ReadWorkCount ==> {
            ||| s.phase == Phase::AwaitLocal && input == Input::Stolen(Steal::Empty) && waiting == 0
            ||| s.phase == Phase::AwaitNeighbor && !(input matches Input::Stolen(Steal::Data(_)))
        },
{
}

/// The event loop is polled only while some coroutine waits for I/O.
pub proof fn lemma_polls_only_with_waiters(s: ProcessorView, input: Input, waiting: nat, draw: usize)
    ensures
        next(s, input, waiting, draw).1 == Command::PollEvents ==> waiting > 0,
{
}

/// A neighbour is stolen from only by a position in the neighbour list, and
/// only when no coroutine waits for I/O on this processor.
pub proof fn lemma_steal_within_neighbors(s: ProcessorView, input: Input, waiting: nat, draw: usize)
    ensures
        next(s, input, waiting, draw).1 matches Command::StealFrom(i) ==> {
            &&& i < s.neighbors.len()
            &&& waiting == 0
            &&& i == neighbor_pick(draw, s.neighbors.len())
        },
{
}

/// Neighbours are never forgotten: a step keeps the list or appends the one
/// newcomer that a message announced.
pub proof fn lemma_neighbors_only_grow(s: ProcessorView, input: Input, waiting: nat, draw: usize)
    ensures
        ({
            let t = next(s, input, waiting, draw).0;
            ||| t.neighbors == s.neighbors
            ||| (input matches Input::Received(Message::NewNeighbor(id)) && t.neighbors == s.neighbors.push(id))
        }),
{
}

/// A resumed coroutine that yielded goes back on the own queue, one that
/// finished or panicked is retired from the work count, and one that blocked
/// is neither: it waits in the token table until its event comes.
pub proof fn lemma_resumed_coroutine_disposition(h: u64, origin: Origin, neighbors: Seq<u64>, outcome: ResumeOutcome, waiting: nat, draw: usize)
    ensures
        ({
            let s = ProcessorView { phase: Phase::AwaitResume(h, origin), neighbors };
            let cmd = next(s, Input::Resumed(outcome), waiting, draw).1;
            &&& outcome == ResumeOutcome::Suspended ==> cmd == Command::Requeue(h)
            &&& (outcome == ResumeOutcome::Finished || outcome == ResumeOutcome::Panicked) ==> cmd == Command::Retire(h)
            &&& outcome == ResumeOutcome::Blocked ==> !(cmd is Requeue) && !(cmd is Retire) && !(cmd is Abort)
            &&& (outcome == ResumeOutcome::Blocked || outcome == ResumeOutcome::Failed) && origin == Origin::Local
                ==> cmd == Command::StealLocal
            &&& (outcome == ResumeOutcome::Blocked || outcome == ResumeOutcome::Failed) && origin == Origin::Neighbor
                ==> cmd == Command::Receive
        }),
{
}

/// A coroutine is switched to only right after it was taken from a queue: a
/// coroutine that just came back (blocked, yielded or done) is never resumed
/// again by the same step.
pub proof fn lemma_resume_only_after_steal(s: ProcessorView, input: Input, waiting: nat, draw: usize)
    ensures
        next(s, input, waiting, draw).1 matches Command::Resume(h) ==> {
            &&& input == Input::Stolen(Steal::Data(h))
            &&& (s.phase == Phase::AwaitLocal || s.phase == Phase::AwaitNeighbor)
        },
{
}

/// A coroutine goes back on the own queue only after it came back suspended,
/// and is retired only after it finished or panicked; in both cases it is the
/// coroutine that was being run.
pub proof fn lemma_requeue_and_retire_follow_outcome(s: ProcessorView, input: Input, waiting: nat, draw: usize)
    ensures
        next(s, input, waiting, draw).1 matches Command::Requeue(h) ==> {
            &&& input == Input::Resumed(ResumeOutcome::Suspended)
            &&& s.phase matches Phase::AwaitResume(k, _) && k == h
        },
        next(s, input, waiting, draw).1 matches Command::Retire(h) ==> {
            &&& (input == Input::Resumed(ResumeOutcome::Finished) || input == Input::Resumed(ResumeOutcome::Panicked))
            &&& s.phase matches Phase::AwaitResume(k, _) && k == h
        },
{
}

/// Every coroutine taken from a queue, the own or a neighbour's, is run next.
pub proof fn lemma_stolen_coroutine_runs(s: ProcessorView, h: u64, waiting: nat, draw: usize)
    requires
        s.phase == Phase::AwaitLocal || s.phase == Phase::AwaitNeighbor,
    ensures
        next(s, Input::Stolen(Steal::Data(h)), waiting, draw).1 == Command::Resume(h),
        next(s, Input::Stolen(Steal::Data(h)), waiting, draw).0.phase is AwaitResume,
{
}

/// A round in which no message comes, no coroutine waits for I/O, the own
/// queue and the chosen neighbour's queue are empty, and the work count is
/// zero ends the loop: the scheduler exits once every spawned coroutine has
/// finished.
pub proof fn lemma_idle_round_stops(neighbors: Seq<u64>, d1: usize, d2: usize, d3: usize, d4: usize)
    ensures
        ({
            let s0 = ProcessorView { phase: Phase::AwaitMessage, neighbors };
            let (s1, c1) = next(s0, Input::Received(Message::Empty), 0, d1);
            let (s2, c2) = next(s1, Input::Stolen(Steal::Empty), 0, d2);
            &&& c1 == Command::StealLocal
            &&& neighbors.len() == 0 ==> c2 == Command::ReadWorkCount
                && next(s2, Input::WorkCount(0), 0, d3).1 == Command::Stop
            &&& neighbors.len() > 0 ==> (c2 is StealFrom && {
                let (s3, c3) = next(s2, Input::Stolen(Steal::Empty), 0, d3);
                &&& c3 == Command::ReadWorkCount
                &&& next(s3, Input::WorkCount(0), 0, d4).1 == Command::Stop
            })
        }),
{
}

/// How a round goes: after a message the loop polls exactly when some
/// coroutine waits for I/O and otherwise turns to its own queue; a lost race
/// on the own queue is retried; an empty own queue leads back to the channel
/// while coroutines wait for I/O, else to a random neighbour, else to the work
/// count; a non-zero work count starts the next round.
pub proof fn lemma_round_decisions(neighbors: Seq<u64>, waiting: nat, draw: usize, m: Message, n: usize)
    ensures
        m != Message::Disconnected ==> {
            let cmd = next(ProcessorView { phase: Phase::AwaitMessage, neighbors }, Input::Received(m), waiting, draw).1;
            &&& waiting > 0 ==> cmd == Command::PollEvents
            &&& waiting == 0 ==> cmd == Command::StealLocal
        },
        m == Message::Disconnected ==> next(ProcessorView { phase: Phase::AwaitMessage, neighbors }, Input::Received(m), waiting, draw).1 == Command::Abort,
        next(ProcessorView { phase: Phase::AwaitLocal, neighbors }, Input::Stolen(Steal::Abort), waiting, draw).1 == Command::StealLocal,
        ({
            let cmd = next(ProcessorView { phase: Phase::AwaitLocal, neighbors }, Input::Stolen(Steal::Empty), waiting, draw).1;
            &&& waiting > 0 ==> cmd == Command::Receive
            &&& waiting == 0 && neighbors.len() > 0 ==> cmd == Command::StealFrom((draw as int % neighbors.len() as int) as usize)
            &&& waiting == 0 && neighbors.len() == 0 ==> cmd == Command::ReadWorkCount
        }),
        n > 0 ==> next(ProcessorView { phase: Phase::AwaitCount, neighbors }, Input::WorkCount(n), waiting, draw).1 == Command::Receive,
        next(ProcessorView { phase: Phase::AwaitCount, neighbors }, Input::WorkCount(0), waiting, draw).1 == Command::Stop,
{
}

/// Once the loop has ended it stays ended, whatever it is told.
pub proof fn lemma_halted_stays_halted(s: ProcessorView, input: Input, waiting: nat, draw: usize)
    requires
        s.phase == Phase::Halted,
    ensures
        next(s, input, waiting, draw).0.phase == Phase::Halted,
        next(s, input, waiting, draw).1 == Command::Abort,
{
}

/// Calls `rand::random::<usize>()`: a draw from the thread's random number
/// generator. Nothing is stated of the number.
#[verifier::external_body]
fn random_draw() -> usize {
    rand::random::<usize>()
}

/// The neighbour that a draw picks among `count` neighbours.
pub fn neighbor_index(draw: usize, count: usize) -> (i: usize)
    requires
        count > 0,
    ensures
        i == neighbor_pick(draw, count as nat),
        i < count,
{
    draw % count
}

impl Processor {
    pub closed spec fn view(&self) -> ProcessorView {
        ProcessorView { phase: self.phase, neighbors: self.neighbors@ }
    }

    /// A processor that has not started its loop, with the neighbours it was
    /// told of when it registered.
    pub fn new(neighbors: Vec<u64>) -> (p: Processor)
        ensures
            p@.phase == Phase::Ready,
            p@.neighbors == neighbors@,
    {
        Processor { phase: Phase::Ready, neighbors }
    }

    /// The neighbours known so far, in the order they became known.
    pub fn neighbors(&self) -> (ns: &Vec<u64>)
        ensures
            ns@ == self@.neighbors,
    {
        &self.neighbors
    }

    /// Whether the loop has ended.
    pub fn is_halted(&self) -> (b: bool)
        ensures
            b == (self@.phase == Phase::Halted),
    {
        match self.phase {
            Phase::Halted => true,
            _ => false,
        }
    }

    /// One step of the loop with a given draw for the choice of neighbour.
    pub fn schedule_with(&mut self, input: Input, waiting: usize, draw: usize) -> (cmd: Command)
        ensures
            (final(self)@, cmd) == next(old(self)@, input, waiting as nat, draw),
    {
        let phase = self.phase;
        match (phase, input) {
            (Phase::Ready, Input::Start) => {
                self.phase = Phase::AwaitMessage;
                Command::Receive
            },
            (Phase::AwaitMessage, Input::Received(Message::NewNeighbor(id))) => {
                self.neighbors.push(id);
                self.after_message(waiting)
            },
            (Phase::AwaitMessage, Input::Received(Message::Empty)) => self.after_message(waiting),
            (Phase::AwaitPoll, Input::Polled(ok)) => {
                if ok {
                    self.phase = Phase::AwaitLocal;
                    Command::StealLocal
                } else {
                    self.phase = Phase::Halted;
                    Command::Fail
                }
            },
            (Phase::AwaitLocal, Input::Stolen(Steal::Data(h))) => {
                self.phase = Phase::AwaitResume(h, Origin::Local);
                Command::Resume(h)
            },
            (Phase::AwaitLocal, Input::Stolen(Steal::Abort)) => Command::StealLocal,
            (Phase::AwaitLocal, Input::Stolen(Steal::Empty)) => self.after_drain(waiting, draw),
            (Phase::AwaitResume(h, origin), Input::Resumed(outcome)) => {
                match outcome {
                    ResumeOutcome::Suspended => {
                        self.phase = Phase::AwaitAck(origin);
                        Command::Requeue(h)
                    },
                    ResumeOutcome::Finished | ResumeOutcome::Panicked => {
                        self.phase = Phase::AwaitAck(origin);
                        Command::Retire(h)
                    },
                    ResumeOutcome::Blocked | ResumeOutcome::Failed => self.continue_from(origin),
                    ResumeOutcome::Unexpected => {
                        self.phase = Phase::Halted;
                        Command::Abort
                    },
                }
            },
            (Phase::AwaitAck(origin), Input::Done) => self.continue_from(origin),
            (Phase::AwaitNeighbor, Input::Stolen(stolen)) => {
                match stolen {
                    Steal::Data(h) => {
                        self.phase = Phase::AwaitResume(h, Origin::Neighbor);
                        Command::Resume(h)
                    },
                    _ => {
                        self.phase = Phase::AwaitCount;
                        Command::ReadWorkCount
                    },
                }
            },
            (Phase::AwaitCount, Input::WorkCount(n)) => {
                if n == 0 {
                    self.phase = Phase::Halted;
                    Command::Stop
                } else {
                    self.phase = Phase::AwaitMessage;
                    Command::Receive
                }
            },
            _ => {
                self.phase = Phase::Halted;
                Command::Abort
            },
        }
    }

    fn after_message(&mut self, waiting: usize) -> (cmd: Command)
        ensures
            final(self)@.neighbors == old(self)@.neighbors,
            (final(self)@.phase, cmd) == after_message(waiting as nat),
    {
        if waiting != 0 {
            self.phase = Phase::AwaitPoll;
            Command::PollEvents
        } else {
            self.phase = Phase::AwaitLocal;
            Command::StealLocal
        }
    }

    fn after_drain(&mut self, waiting: usize, draw: usize) -> (cmd: Command)
        ensures
            final(self)@.neighbors == old(self)@.neighbors,
            (final(self)@.phase, cmd) == after_drain(old(self)@.neighbors, waiting as nat, draw),
    {
        if waiting != 0 {
            self.phase = Phase::AwaitMessage;
            Command::Receive
        } else if self.neighbors.len() > 0 {
            self.phase = Phase::AwaitNeighbor;
            Command::StealFrom(neighbor_index(draw, self.neighbors.len()))
        } else {
            self.phase = Phase::AwaitCount;
            Command::ReadWorkCount
        }
    }

    fn continue_from(&mut self, origin: Origin) -> (cmd: Command)
        ensures
            final(self)@.neighbors == old(self)@.neighbors,
            (final(self)@.phase, cmd) == continue_from(origin),
    {
        match origin {
            Origin::Local => {
                self.phase = Phase::AwaitLocal;
                Command::StealLocal
            },
            Origin::Neighbor => {
                self.phase = Phase::AwaitMessage;
                Command::Receive
            },
        }
    }

    /// One step of the scheduling loop: the caller has carried out the last
    /// command and hands over what it gave; the processor answers with the
    /// next command. `table` holds the coroutines that wait for I/O on this
    /// processor. A neighbour to steal from is picked at random.
    pub fn schedule(&mut self, input: Input, table: &TokenTable) -> (cmd: Command)
        requires
            table.wf(),
        ensures
            exists|draw: usize| (final(self)@, cmd) == #[trigger] next(old(self)@, input, table@.len(), draw),
    {
        let waiting = table.waiting_count();
        let needs_draw = match (self.phase, input) {
            (Phase::AwaitLocal, Input::Stolen(Steal::Empty)) => waiting == 0 && self.neighbors.len() > 0,
            _ => false,
        };
        let draw: usize = if needs_draw { random_draw() } else { 0 };
        self.schedule_with(input, waiting, draw)
    }
}

} // verus!
