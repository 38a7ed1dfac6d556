//! The decisions of the blocking socket operations that coroutines use.
//!
//! A coroutine reads, writes or accepts without blocking the thread: it tries
//! the non-blocking operation, and when nothing can be done it parks itself
//! until the event loop reports the socket ready, then tries once more. The
//! tries and the wait are outside work; these machines say what to do after
//! each of them.
use vstd::prelude::*;

verus! {

/// What one non-blocking read or write gave.
#[derive(Clone, Copy, PartialEq, Eq, Structural, Debug)]
pub enum TryOutcome {
    /// The operation would block (`Ok(None)`).
    WouldBlock,
    /// The operation moved this many bytes (`Ok(Some(n))`).
    Transferred(usize),
    /// The operation failed; the caller keeps the error.
    Failed,
}

/// The answer to the last command of a transfer.
#[derive(Clone, Copy, PartialEq, Eq, Structural, Debug)]
pub enum TransferInput {
    /// The operation starts.
    Start,
    /// The answer to `Try`.
    Tried(TryOutcome),
    /// The answer to `Wait`: whether the wait for readiness succeeded.
    Waited(bool),
}

/// What the transfer asks for next.
#[derive(Clone, Copy, PartialEq, Eq, Structural, Debug)]
pub enum TransferCommand {
    /// Try the non-blocking operation on what is left of the buffer.
    Try,
    /// Park the coroutine until the socket is ready.
    Wait,
    /// Return `Ok` with this number.
    Finish(usize),
    /// Return the error of the last try or wait.
    Fail,
    /// Give up: an answer did not fit the command.
    Abort,
}

/// Where a transfer stands.
#[derive(Clone, Copy, PartialEq, Eq, Structural, Debug)]
pub enum Round {
    /// Not started.
    Ready,
    /// Trying before any wait.
    First,
    /// Parked until the socket is ready.
    Waiting,
    /// Trying after the wait.
    Second,
    /// A result was handed out.
    Done,
}

/// A transfer as a value: its round, the size of the buffer, how far the
/// buffer's position has moved, and the sum of the counts the operation
/// reported.
pub struct TransferView {
    pub round: Round,
    pub capacity: nat,
    pub position: nat,
    pub total: nat,
}

/// The position after an operation reported `n` bytes: the buffer advances by
/// `n`, but never past its end.
pub open spec fn advanced(capacity: nat, position: nat, n: nat) -> nat {
    if position + n <= capacity { position + n } else { capacity }
}

/// A read into a buffer from a coroutine, reporting the number of bytes read.
/// The first round of tries ends on `WouldBlock`, on zero bytes (end of file)
/// or when the buffer is full. When bytes came, or at end of file, the read
/// ends there. When the first round read nothing and would block, or the
/// buffer has no room at all, it waits once for the socket, then tries a
/// second round if there is room. A
/// failed try ends the read with the error if nothing was read yet, and with
/// the bytes read so far otherwise (the error then shows on the next read); a
/// failed wait ends it with the error.
pub open spec fn read_next(s: TransferView, input: TransferInput) -> (TransferView, TransferCommand) {
    let room = s.capacity - s.position;
    let with = |round: Round, position: nat| TransferView { round, capacity: s.capacity, position, total: s.total };
    let finish = |position: nat| (with(Round::Done, position), TransferCommand::Finish(position as usize));
    let failed = if s.position != 0 {
        finish(s.position)
    } else {
        (with(Round::Done, s.position), TransferCommand::Fail)
    };
    match (s.round, input) {
        (Round::Ready, TransferInput::Start) => {
            if room > 0 {
                (with(Round::First, s.position), TransferCommand::Try)
            } else {
                (with(Round::Waiting, s.position), TransferCommand::Wait)
            }
        },
        (Round::First, TransferInput::Tried(TryOutcome::Transferred(n))) => {
            let p = advanced(s.capacity, s.position, n as nat);
            if n != 0 && s.capacity - p > 0 {
                (with(Round::First, p), TransferCommand::Try)
            } else {
                finish(p)
            }
        },
        (Round::First, TransferInput::Tried(TryOutcome::WouldBlock)) => {
            if s.position != 0 {
                finish(s.position)
            } else {
                (with(Round::Waiting, s.position), TransferCommand::Wait)
            }
        },
        (Round::Waiting, TransferInput::Waited(true)) => {
            if room > 0 {
                (with(Round::Second, s.position), TransferCommand::Try)
            } else {
                finish(s.position)
            }
        },
        (Round::Second, TransferInput::Tried(TryOutcome::Transferred(n))) => {
            let p = advanced(s.capacity, s.position, n as nat);
            if n != 0 && s.capacity - p > 0 {
                (with(Round::Second, p), TransferCommand::Try)
            } else {
                finish(p)
            }
        },
        (Round::Second, TransferInput::Tried(TryOutcome::WouldBlock)) => finish(s.position),
        (Round::First, TransferInput::Tried(TryOutcome::Failed)) => failed,
        (Round::Second, TransferInput::Tried(TryOutcome::Failed)) => failed,
        (Round::Waiting, TransferInput::Waited(false)) => (with(Round::Done, s.position), TransferCommand::Fail),
        _ => (with(Round::Done, s.position), TransferCommand::Abort),
    }
}

/// A write of a buffer from a coroutine: the first round of tries ends on
/// `WouldBlock`, on zero bytes or when the whole buffer went out. When some
/// bytes went out the write reports their number. Otherwise it waits once,
/// tries a second round, and reports the number written. A failed try ends the
/// write with the error if nothing went out yet, and with the number written
/// otherwise (the error then shows on the next write); a failed wait ends it
/// with the error.
pub open spec fn write_next(s: TransferView, input: TransferInput) -> (TransferView, TransferCommand) {
    let room = s.capacity - s.position;
    let with = |round: Round, position: nat, total: nat| TransferView { round, capacity: s.capacity, position, total };
    let end_first = |position: nat, total: nat| if total != 0 {
        (with(Round::Done, position, total), TransferCommand::Finish(total as usize))
    } else {
        (with(Round::Waiting, position, total), TransferCommand::Wait)
    };
    let failed = if s.total != 0 {
        (with(Round::Done, s.position, s.total), TransferCommand::Finish(s.total as usize))
    } else {
        (with(Round::Done, s.position, s.total), TransferCommand::Fail)
    };
    match (s.round, input) {
        (Round::Ready, TransferInput::Start) => {
            if room > 0 { (with(Round::First, s.position, s.total), TransferCommand::Try) } else { end_first(s.position, s.total) }
        },
        (Round::First, TransferInput::Tried(TryOutcome::Transferred(n))) => {
            let p = advanced(s.capacity, s.position, n as nat);
            let t = s.total + (n as nat);
            if n != 0 && s.capacity - p > 0 {
                (with(Round::First, p, t), TransferCommand::Try)
            } else {
                end_first(p, t)
            }
        },
        (Round::First, TransferInput::Tried(TryOutcome::WouldBlock)) => end_first(s.position, s.total),
        (Round::Waiting, TransferInput::Waited(true)) => {
            if room > 0 {
                (with(Round::Second, s.position, s.total), TransferCommand::Try)
            } else {
                (with(Round::Done, s.position, s.total), TransferCommand::Finish(s.total as usize))
            }
        },
        (Round::Second, TransferInput::Tried(TryOutcome::Transferred(n))) => {
            let p = advanced(s.capacity, s.position, n as nat);
            let t = s.total + (n as nat);
            if n != 0 && s.capacity - p > 0 {
                (with(Round::Second, p, t), TransferCommand::Try)
            } else {
                (with(Round::Done, p, t), TransferCommand::Finish(t as usize))
            }
        },
        (Round::Second, TransferInput::Tried(TryOutcome::WouldBlock)) => {
            (with(Round::Done, s.position, s.total), TransferCommand::Finish(s.total as usize))
        },
        (Round::First, TransferInput::Tried(TryOutcome::Failed)) => failed,
        (Round::Second, TransferInput::Tried(TryOutcome::Failed)) => failed,
        (Round::Waiting, TransferInput::Waited(false)) => (with(Round::Done, s.position, s.total), TransferCommand::Fail),
        _ => (with(Round::Done, s.position, s.total), TransferCommand::Abort),
    }
}

/// A transfer between a socket and a buffer of `capacity` bytes.
pub struct Transfer {
    round: Round,
    capacity: usize,
    position: usize,
    total: usize,
}

impl Transfer {
    pub closed spec fn view(&self) -> TransferView {
        TransferView {
            round: self.round,
            capacity: self.capacity as nat,
            position: self.position as nat,
            total: self.total as nat,
        }
    }

    /// The position never passes the end of the buffer.
    pub closed spec fn wf(&self) -> bool {
        self.position <= self.capacity
    }

    /// A transfer that has not started, over a buffer of `capacity` bytes.
    pub fn new(capacity: usize) -> (t: Transfer)
        ensures
            t.wf(),
            t@ == (TransferView { round: Round::Ready, capacity: capacity as nat, position: 0, total: 0 }),
    {
        Transfer { round: Round::Ready, capacity, position: 0, total: 0 }
    }

    /// How many bytes of the buffer are still to be filled or sent.
    pub fn remaining(&self) -> (n: usize)
        requires
            self.wf(),
        ensures
            n == self@.capacity - self@.position,
    {
        self.capacity - self.position
    }

    fn advance(&mut self, n: usize)
        requires
            old(self).wf(),
        ensures
            final(self).wf(),
            final(self)@.position == advanced(old(self)@.capacity, old(self)@.position, n as nat),
            final(self)@.capacity == old(self)@.capacity,
            final(self)@.total == old(self)@.total,
            final(self)@.round == old(self)@.round,
    {
        if n <= self.capacity - self.position {
            self.position = self.position + n;
        } else {
            self.position = self.capacity;
        }
    }

    fn finish_read(&mut self) -> (cmd: TransferCommand)
        requires
            old(self).wf(),
        ensures
            final(self).wf(),
            final(self)@ == (TransferView { round: Round::Done, ..old(self)@ }),
            cmd == TransferCommand::Finish(old(self)@.position as usize),
    {
        self.round = Round::Done;
        TransferCommand::Finish(self.position)
    }

    /// One step of a read (`TcpStream::read`): what to do after the last try
    /// or wait.
    pub fn read_step(&mut self, input: TransferInput) -> (cmd: TransferCommand)
        requires
            old(self).wf(),
        ensures
            final(self).wf(),
            (final(self)@, cmd) == read_next(old(self)@, input),
    {
        match (self.round, input) {
            (Round::Ready, TransferInput::Start) => {
                if self.capacity - self.position > 0 {
                    self.round = Round::First;
                    TransferCommand::Try
                } else {
                    self.round = Round::Waiting;
                    TransferCommand::Wait
                }
            },
            (Round::First, TransferInput::Tried(TryOutcome::Transferred(n))) => {
                self.advance(n);
                if n != 0 && self.capacity - self.position > 0 {
                    TransferCommand::Try
                } else {
                    self.finish_read()
                }
            },
            (Round::First, TransferInput::Tried(TryOutcome::WouldBlock)) => {
                if self.position != 0 {
                    self.finish_read()
                } else {
                    self.round = Round::Waiting;
                    TransferCommand::Wait
                }
            },
            (Round::Waiting, TransferInput::Waited(true)) => {
                if self.capacity - self.position > 0 {
                    self.round = Round::Second;
                    TransferCommand::Try
                } else {
                    self.finish_read()
                }
            },
            (Round::Second, TransferInput::Tried(TryOutcome::Transferred(n))) => {
                self.advance(n);
                if n != 0 && self.capacity - self.position > 0 {
                    TransferCommand::Try
                } else {
                    self.finish_read()
                }
            },
            (Round::Second, TransferInput::Tried(TryOutcome::WouldBlock)) => self.finish_read(),
            (Round::First, TransferInput::Tried(TryOutcome::Failed))
            | (Round::Second, TransferInput::Tried(TryOutcome::Failed)) => {
                if self.position != 0 {
                    self.finish_read()
                } else {
                    self.round = Round::Done;
                    TransferCommand::Fail
                }
            },
            (Round::Waiting, TransferInput::Waited(false)) => {
                self.round = Round::Done;
                TransferCommand::Fail
            },
            _ => {
                self.round = Round::Done;
                TransferCommand::Abort
            },
        }
    }

    fn end_first_write(&mut self) -> (cmd: TransferCommand)
        requires
            old(self).wf(),
        ensures
            final(self).wf(),
            final(self)@.capacity == old(self)@.capacity,
            final(self)@.position == old(self)@.position,
            final(self)@.total == old(self)@.total,
            old(self)@.total != 0 ==> final(self)@.round == Round::Done
                && cmd == TransferCommand::Finish(old(self)@.total as usize),
            old(self)@.total == 0 ==> final(self)@.round == Round::Waiting
                && cmd == TransferCommand::Wait,
    {
        if self.total != 0 {
            self.round = Round::Done;
            TransferCommand::Finish(self.total)
        } else {
            self.round = Round::Waiting;
            TransferCommand::Wait
        }
    }

    /// One step of a write (`TcpStream::write`): what to do after the last try
    /// or wait. The reported counts are summed in a `usize`, so their sum must
    /// fit.
    pub fn write_step(&mut self, input: TransferInput) -> (cmd: TransferCommand)
        requires
            old(self).wf(),
            input matches TransferInput::Tried(TryOutcome::Transferred(n)) ==> old(self)@.total + n <= usize::MAX,
        ensures
            final(self).wf(),
            (final(self)@, cmd) == write_next(old(self)@, input),
    {
        match (self.round, input) {
            (Round::Ready, TransferInput::Start) => {
                if self.capacity - self.position > 0 {
                    self.round = Round::First;
                    TransferCommand::Try
                } else {
                    self.end_first_write()
                }
            },
            (Round::First, TransferInput::Tried(TryOutcome::Transferred(n))) => {
                self.total = self.total + n;
                self.advance(n);
                if n != 0 && self.capacity - self.position > 0 {
                    TransferCommand::Try
                } else {
                    self.end_first_write()
                }
            },
            (Round::First, TransferInput::Tried(TryOutcome::WouldBlock)) => self.end_first_write(),
            (Round::Waiting, TransferInput::Waited(true)) => {
                if self.capacity - self.position > 0 {
                    self.round = Round::Second;
                    TransferCommand::Try
                } else {
                    self.round = Round::Done;
                    TransferCommand::Finish(self.total)
                }
            },
            (Round::Second, TransferInput::Tried(TryOutcome::Transferred(n))) => {
                self.total = self.total + n;
                self.advance(n);
                if n != 0 && self.capacity - self.position > 0 {
                    TransferCommand::Try
                } else {
                    self.round = Round::Done;
                    TransferCommand::Finish(self.total)
                }
            },
            (Round::Second, TransferInput::Tried(TryOutcome::WouldBlock)) => {
                self.round = Round::Done;
                TransferCommand::Finish(self.total)
            },
            (Round::First, TransferInput::Tried(TryOutcome::Failed))
            | (Round::Second, TransferInput::Tried(TryOutcome::Failed)) => {
                self.round = Round::Done;
                if self.total != 0 {
                    TransferCommand::Finish(self.total)
                } else {
                    TransferCommand::Fail
                }
            },
            (Round::Waiting, TransferInput::Waited(false)) => {
                self.round = Round::Done;
                TransferCommand::Fail
            },
            _ => {
                self.round = Round::Done;
                TransferCommand::Abort
            },
        }
    }
}

/// What one non-blocking accept gave.
#[derive(Clone, Copy, PartialEq, Eq, Structural, Debug)]
pub enum AcceptOutcome {
    /// A connection came (`Ok(Some(stream))`); the caller keeps the stream.
    Accepted,
    /// No connection was pending (`Ok(None)`).
    WouldBlock,
    /// The accept failed; the caller keeps the error.
    Failed,
}

/// The answer to the last command of an accept.
#[derive(Clone, Copy, PartialEq, Eq, Structural, Debug)]
pub enum AcceptInput {
    Start,
    Tried(AcceptOutcome),
    Waited(bool),
}

/// What an accept asks for next.
#[derive(Clone, Copy, PartialEq, Eq, Structural, Debug)]
pub enum AcceptCommand {
    /// Try a non-blocking accept.
    Try,
    /// Park the coroutine until the listener is readable.
    Wait,
    /// Return the accepted stream.
    Deliver,
    /// Return the error of the last accept or wait.
    Fail,
    /// Give up: the listener was reported readable and still had no
    /// connection, or an answer did not fit the command.
    Abort,
}

/// `TcpListener::accept`: try once; when no connection is pending, wait for
/// the listener to become readable and try a second time, which must find one.
pub open spec fn accept_next(round: Round, input: AcceptInput) -> (Round, AcceptCommand) {
    match (round, input) {
        (Round::Ready, AcceptInput::Start) => (Round::First, AcceptCommand::Try),
        (Round::First, AcceptInput::Tried(AcceptOutcome::Accepted)) => (Round::Done, AcceptCommand::Deliver),
        (Round::First, AcceptInput::Tried(AcceptOutcome::WouldBlock)) => (Round::Waiting, AcceptCommand::Wait),
        (Round::First, AcceptInput::Tried(AcceptOutcome::Failed)) => (Round::Done, AcceptCommand::Fail),
        (Round::Waiting, AcceptInput::Waited(true)) => (Round::Second, AcceptCommand::Try),
        (Round::Waiting, AcceptInput::Waited(false)) => (Round::Done, AcceptCommand::Fail),
        (Round::Second, AcceptInput::Tried(AcceptOutcome::Accepted)) => (Round::Done, AcceptCommand::Deliver),
        (Round::Second, AcceptInput::Tried(AcceptOutcome::Failed)) => (Round::Done, AcceptCommand::Fail),
        _ => (Round::Done, AcceptCommand::Abort),
    }
}

/// An accept in progress.
pub struct Accept {
    round: Round,
}

impl Accept {
    pub closed spec fn view(&self) -> Round {
        self.round
    }

    /// An accept that has not started.
    pub fn new() -> (a: Accept)
        ensures
            a@ == Round::Ready,
    {
        Accept { round: Round::Ready }
    }

    /// One step of an accept.
    pub fn step(&mut self, input: AcceptInput) -> (cmd: AcceptCommand)
        ensures
            (final(self)@, cmd) == accept_next(old(self)@, input),
    {
        let (round, cmd) = match (self.round, input) {
            (Round::Ready, AcceptInput::Start) => (Round::First, AcceptCommand::Try),
            (Round::First, AcceptInput::Tried(outcome)) => match outcome {
                AcceptOutcome::Accepted => (Round::Done, AcceptCommand::Deliver),
                AcceptOutcome::WouldBlock => (Round::Waiting, AcceptCommand::Wait),
                AcceptOutcome::Failed => (Round::Done, AcceptCommand::Fail),
            },
            (Round::Waiting, AcceptInput::Waited(ok)) => {
                if ok {
                    (Round::Second, AcceptCommand::Try)
                } else {
                    (Round::Done, AcceptCommand::Fail)
                }
            },
            (Round::Second, AcceptInput::Tried(outcome)) => match outcome {
                AcceptOutcome::Accepted => (Round::Done, AcceptCommand::Deliver),
                AcceptOutcome::WouldBlock => (Round::Done, AcceptCommand::Abort),
                AcceptOutcome::Failed => (Round::Done, AcceptCommand::Fail),
            },
            _ => (Round::Done, AcceptCommand::Abort),
        };
        self.round = round;
        cmd
    }
}

/// The answer to the last command of a wait-then-try operation.
#[derive(Clone, Copy, PartialEq, Eq, Structural, Debug)]
pub enum RetryInput {
    Start,
    /// The coroutine was woken: the descriptor is ready.
    Woken,
    Tried(TryOutcome),
    /// The descriptor was taken off the event loop.
    Deregistered,
}

/// What a wait-then-try operation asks for next.
#[derive(Clone, Copy, PartialEq, Eq, Structural, Debug)]
pub enum RetryCommand {
    /// Block the coroutine until the event loop reports the descriptor.
    Block,
    /// Try the non-blocking operation.
    Try,
    /// Take the descriptor off the event loop.
    Deregister,
    /// Return `Ok(Some(n))`.
    Finish(usize),
    /// Return the error of the last try.
    Fail,
    /// Give up: an answer did not fit the command.
    Abort,
}

/// Where a wait-then-try operation stands.
#[derive(Clone, Copy, PartialEq, Eq, Structural, Debug)]
pub enum RetryPhase {
    Ready,
    Blocked,
    Trying,
    /// Deregistering, then returning this count, or the error when `None`.
    Leaving(Option<usize>),
    Done,
}

/// `Scheduler::read_from` and `Scheduler::write_to`: the descriptor is
/// registered for edge-triggered readiness, then the coroutine blocks and
/// tries, again and again while the operation would block; on a count or an
/// error it deregisters the descriptor and returns.
pub open spec fn retry_next(phase: RetryPhase, input: RetryInput) -> (RetryPhase, RetryCommand) {
    match (phase, input) {
        (RetryPhase::Ready, RetryInput::Start) => (RetryPhase::Blocked, RetryCommand::Block),
        (RetryPhase::Blocked, RetryInput::Woken) => (RetryPhase::Trying, RetryCommand::Try),
        (RetryPhase::Trying, RetryInput::Tried(TryOutcome::WouldBlock)) => (RetryPhase::Blocked, RetryCommand::Block),
        (RetryPhase::Trying, RetryInput::Tried(TryOutcome::Transferred(n))) => (RetryPhase::Leaving(Some(n)), RetryCommand::Deregister),
        (RetryPhase::Trying, RetryInput::Tried(TryOutcome::Failed)) => (RetryPhase::Leaving(None), RetryCommand::Deregister),
        (RetryPhase::Leaving(Some(n)), RetryInput::Deregistered) => (RetryPhase::Done, RetryCommand::Finish(n)),
        (RetryPhase::Leaving(None), RetryInput::Deregistered) => (RetryPhase::Done, RetryCommand::Fail),
        _ => (RetryPhase::Done, RetryCommand::Abort),
    }
}

/// A wait-then-try operation in progress.
pub struct Retry {
    phase: RetryPhase,
}

impl Retry {
    pub closed spec fn view(&self) -> RetryPhase {
        self.phase
    }

    /// An operation that has not started.
    pub fn new() -> (r: Retry)
        ensures
            r@ == RetryPhase::Ready,
    {
        Retry { phase: RetryPhase::Ready }
    }

    /// One step of the operation.
    pub fn step(&mut self, input: RetryInput) -> (cmd: RetryCommand)
        ensures
            (final(self)@, cmd) == retry_next(old(self)@, input),
    {
        let (phase, cmd) = match (self.phase, input) {
            (RetryPhase::Ready, RetryInput::Start) => (RetryPhase::Blocked, RetryCommand::Block),
            (RetryPhase::Blocked, RetryInput::Woken) => (RetryPhase::Trying, RetryCommand::Try),
            (RetryPhase::Trying, RetryInput::Tried(outcome)) => match outcome {
                TryOutcome::WouldBlock => (RetryPhase::Blocked, RetryCommand::Block),
                TryOutcome::Transferred(n) => (RetryPhase::Leaving(Some(n)), RetryCommand::Deregister),
                TryOutcome::Failed => (RetryPhase::Leaving(None), RetryCommand::Deregister),
            },
            (RetryPhase::Leaving(result), RetryInput::Deregistered) => match result {
                Some(n) => (RetryPhase::Done, RetryCommand::Finish(n)),
                None => (RetryPhase::Done, RetryCommand::Fail),
            },
            _ => (RetryPhase::Done, RetryCommand::Abort),
        };
        self.phase = phase;
        cmd
    }
}

/// A transfer waits at most once: only a first round that moved nothing leads
/// to the wait, and no round after it leads there again.
pub proof fn lemma_waits_at_most_once(s: TransferView, input: TransferInput)
    ensures
        read_next(s, input).1 == TransferCommand::Wait ==> (s.round == Round::Ready || s.round == Round::First)
            && read_next(s, input).0.round == Round::Waiting,
        write_next(s, input).1 == TransferCommand::Wait ==> (s.round == Round::Ready || s.round == Round::First)
            && write_next(s, input).0.round == Round::Waiting,
        (s.round == Round::Waiting || s.round == Round::Second || s.round == Round::Done) ==> {
            &&& read_next(s, input).0.round != Round::First
            &&& write_next(s, input).0.round != Round::First
        },
{
}

/// A read never moves past the end of its buffer and reports the number of
/// bytes it read; a failed try fails it only when it read nothing; it waits only when its
/// first round read nothing and would block, or its buffer has no room; end of
/// file before any byte ends it with zero.
pub proof fn lemma_read_reports_bytes_read(s: TransferView, input: TransferInput)
    requires
        s.position <= s.capacity <= usize::MAX,
    ensures
        read_next(s, input).0.position <= read_next(s, input).0.capacity,
        read_next(s, input).0.capacity == s.capacity,
        read_next(s, input).1 matches TransferCommand::Finish(n) ==> n == read_next(s, input).0.position,
        input is Tried && read_next(s, input).1 == TransferCommand::Fail ==> s.position == 0,
        read_next(s, input).1 == TransferCommand::Wait ==> {
            ||| s.round == Round::First && s.position == 0 && input == TransferInput::Tried(TryOutcome::WouldBlock)
            ||| s.round == Round::Ready && s.position == s.capacity && input == TransferInput::Start
        },
        s.round == Round::First && s.position == 0 && input == TransferInput::Tried(TryOutcome::Transferred(0))
            ==> read_next(s, input).1 == TransferCommand::Finish(0),
        input matches TransferInput::Tried(TryOutcome::Transferred(n)) ==> ((s.round == Round::First || s.round == Round::Second)
            ==> read_next(s, input).0.position == advanced(s.capacity, s.position, n as nat)),
{
}

/// A write reports the sum of the counts that its tries reported, it reports
/// zero only after it has waited for the socket, and a failed try fails it
/// only when no byte went out.
pub proof fn lemma_write_reports_sum(s: TransferView, input: TransferInput)
    requires
        s.position <= s.capacity <= usize::MAX,
        s.total <= usize::MAX,
        input matches TransferInput::Tried(TryOutcome::Transferred(n)) ==> s.total + n <= usize::MAX,
    ensures
        write_next(s, input).1 matches TransferCommand::Finish(n) ==> {
            &&& n == write_next(s, input).0.total
            &&& n == 0 ==> (s.round == Round::Waiting || s.round == Round::Second)
        },
        input is Tried && write_next(s, input).1 == TransferCommand::Fail ==> s.total == 0,
        input matches TransferInput::Tried(TryOutcome::Transferred(n)) ==> ((s.round == Round::First || s.round == Round::Second)
            ==> write_next(s, input).0.total == s.total + n),
{
}

/// An accept ends with the stream or an error; it waits at most once, and a
/// listener that was reported readable but has no connection is given up.
pub proof fn lemma_accept_waits_at_most_once(round: Round, input: AcceptInput)
    ensures
        accept_next(round, input).1 == AcceptCommand::Wait ==> round == Round::First,
        round == Round::Second && input == AcceptInput::Tried(AcceptOutcome::WouldBlock)
            ==> accept_next(round, input).1 == AcceptCommand::Abort,
        accept_next(round, input).1 == AcceptCommand::Deliver ==> input == AcceptInput::Tried(AcceptOutcome::Accepted),
{
}

/// A wait-then-try operation returns only after it took the descriptor off the
/// event loop, and it returns the count of the try that succeeded.
pub proof fn lemma_retry_deregisters_before_return(phase: RetryPhase, input: RetryInput)
    ensures
        (retry_next(phase, input).1 is Finish || retry_next(phase, input).1 is Fail)
            ==> phase is Leaving && input == RetryInput::Deregistered,
        input matches RetryInput::Tried(TryOutcome::Transferred(n)) ==> (phase == RetryPhase::Trying
            ==> retry_next(retry_next(phase, input).0, RetryInput::Deregistered).1 == RetryCommand::Finish(n)),
{
}

/// A read keeps its position except when a try reports bytes; a failed try
/// with nothing read yet fails the read in either round, and a failed try after
/// some bytes ends it with exactly those bytes.
pub proof fn lemma_read_failure_and_position(s: TransferView, input: TransferInput)
    requires
        s.position <= s.capacity <= usize::MAX,
    ensures
        !(input matches TransferInput::Tried(TryOutcome::Transferred(_)))
            ==> read_next(s, input).0.position == s.position,
        (s.round == Round::First || s.round == Round::Second) && input == TransferInput::Tried(TryOutcome::Failed) ==> {
            &&& s.position == 0 ==> read_next(s, input).1 == TransferCommand::Fail
            &&& s.position != 0 ==> read_next(s, input).1 == TransferCommand::Finish(s.position as usize)
        },
        read_next(s, input).1 matches TransferCommand::Finish(n) ==> {
            &&& input matches TransferInput::Tried(TryOutcome::Transferred(k)) ==> n == advanced(s.capacity, s.position, k as nat)
            &&& !(input matches TransferInput::Tried(TryOutcome::Transferred(_))) ==> n == s.position
        },
{
}

/// Whatever ends a write, it finishes with the sum of the counts its tries
/// reported: the running total so far plus the count of this answer, if it
/// carries one. A failed try with nothing written fails the write in either
/// round; after some bytes went out it ends the write with their number.
pub proof fn lemma_write_finishes_with_total(s: TransferView, input: TransferInput)
    requires
        s.position <= s.capacity <= usize::MAX,
        s.total <= usize::MAX,
        input matches TransferInput::Tried(TryOutcome::Transferred(n)) ==> s.total + n <= usize::MAX,
    ensures
        !(input matches TransferInput::Tried(TryOutcome::Transferred(_))) ==> write_next(s, input).0.total == s.total,
        write_next(s, input).1 matches TransferCommand::Finish(n) ==> {
            &&& input matches TransferInput::Tried(TryOutcome::Transferred(k)) ==> n == s.total + k
            &&& !(input matches TransferInput::Tried(TryOutcome::Transferred(_))) ==> n == s.total
        },
        (s.round == Round::First || s.round == Round::Second) && input == TransferInput::Tried(TryOutcome::Failed) ==> {
            &&& s.total == 0 ==> write_next(s, input).1 == TransferCommand::Fail
            &&& s.total != 0 ==> write_next(s, input).1 == TransferCommand::Finish(s.total as usize)
        },
{
}

/// The first round of a read or write that finds the socket not ready, with
/// nothing moved yet, waits; after the wait, a socket that is still not ready
/// ends the operation with what moved so far.
pub proof fn lemma_not_ready_waits_then_ends(s: TransferView)
    requires
        s.position <= s.capacity <= usize::MAX,
        s.total <= usize::MAX,
    ensures
        s.round == Round::First && s.position == 0 ==> read_next(s, TransferInput::Tried(TryOutcome::WouldBlock)).1 == TransferCommand::Wait,
        s.round == Round::First && s.total == 0 ==> write_next(s, TransferInput::Tried(TryOutcome::WouldBlock)).1 == TransferCommand::Wait,
        s.round == Round::Second ==> read_next(s, TransferInput::Tried(TryOutcome::WouldBlock)).1 == TransferCommand::Finish(s.position as usize),
        s.round == Round::Second ==> write_next(s, TransferInput::Tried(TryOutcome::WouldBlock)).1 == TransferCommand::Finish(s.total as usize),
{
}

/// An accept that finds no pending connection waits, one that finds a
/// connection delivers it, and a failed accept returns its error.
pub proof fn lemma_accept_outcomes(round: Round)
    ensures
        round == Round::First ==> accept_next(round, AcceptInput::Tried(AcceptOutcome::WouldBlock)).1 == AcceptCommand::Wait,
        (round == Round::First || round == Round::Second) ==> {
            &&& accept_next(round, AcceptInput::Tried(AcceptOutcome::Accepted)).1 == AcceptCommand::Deliver
            &&& accept_next(round, AcceptInput::Tried(AcceptOutcome::Failed)).1 == AcceptCommand::Fail
        },
        round == Round::Waiting ==> accept_next(round, AcceptInput::Waited(true)).1 == AcceptCommand::Try,
{
}

/// A wait-then-try operation blocks again for as long as the operation would
/// block, and tries each time it is woken.
pub proof fn lemma_retry_blocks_while_not_ready()
    ensures
        retry_next(RetryPhase::Trying, RetryInput::Tried(TryOutcome::WouldBlock)) == (RetryPhase::Blocked, RetryCommand::Block),
        retry_next(RetryPhase::Blocked, RetryInput::Woken) == (RetryPhase::Trying, RetryCommand::Try),
        retry_next(RetryPhase::Trying, RetryInput::Tried(TryOutcome::Failed)) == (RetryPhase::Leaving(None), RetryCommand::Deregister),
{
}

} // verus!
