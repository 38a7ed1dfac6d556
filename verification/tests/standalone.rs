use cosupport::processor::{Command, Input, Message, ResumeOutcome, Steal};
use cosupport::standalone::Scheduler;

#[test]
fn standalone_round_polls_then_runs_local_work() {
    let mut s = Scheduler::new(vec![0]);
    assert_eq!(s.schedule(Input::Start), Command::Receive);
    assert_eq!(s.schedule(Input::Received(Message::Empty)), Command::PollEvents);
    assert_eq!(s.schedule(Input::Polled(true)), Command::StealLocal);
    assert_eq!(s.schedule(Input::Stolen(Steal::Data(3))), Command::Resume(3));
    assert_eq!(s.schedule(Input::Resumed(ResumeOutcome::Suspended)), Command::Requeue(3));
    assert_eq!(s.schedule(Input::Done), Command::Receive);
}

#[test]
fn standalone_tries_neighbours_in_order() {
    let mut s = Scheduler::new(vec![0, 1, 2]);
    s.schedule(Input::Start);
    s.schedule(Input::Received(Message::NewNeighbor(3)));
    assert_eq!(s.neighbors(), &vec![0, 1, 2, 3]);
    s.schedule(Input::Polled(true));
    assert_eq!(s.schedule(Input::Stolen(Steal::Empty)), Command::StealFrom(0));
    assert_eq!(s.schedule(Input::Stolen(Steal::Abort)), Command::StealFrom(1));
    assert_eq!(s.schedule(Input::Stolen(Steal::Empty)), Command::StealFrom(2));
    assert_eq!(s.schedule(Input::Stolen(Steal::Data(9))), Command::Resume(9));
    assert_eq!(s.schedule(Input::Resumed(ResumeOutcome::Finished)), Command::Receive);
}

#[test]
fn standalone_without_work_starts_the_next_round() {
    let mut s = Scheduler::new(vec![0]);
    s.schedule(Input::Start);
    s.schedule(Input::Received(Message::Empty));
    s.schedule(Input::Polled(true));
    assert_eq!(s.schedule(Input::Stolen(Steal::Empty)), Command::StealFrom(0));
    assert_eq!(s.schedule(Input::Stolen(Steal::Empty)), Command::Receive);
}

#[test]
fn standalone_aborts_on_broken_channel_or_failed_poll() {
    let mut s = Scheduler::new(Vec::new());
    s.schedule(Input::Start);
    assert_eq!(s.schedule(Input::Received(Message::Disconnected)), Command::Abort);
    let mut t = Scheduler::new(Vec::new());
    t.schedule(Input::Start);
    t.schedule(Input::Received(Message::Empty));
    assert_eq!(t.schedule(Input::Polled(false)), Command::Abort);
}
