use cosupport::processor::{neighbor_index, Command, Input, Message, Processor, ResumeOutcome, Steal};
use cosupport::token_table::TokenTable;

#[test]
fn lone_processor_runs_its_queue_and_stops() {
    let table = TokenTable::new();
    let mut p = Processor::new(Vec::new());
    assert_eq!(p.schedule(Input::Start, &table), Command::Receive);
    assert_eq!(p.schedule(Input::Received(Message::Empty), &table), Command::StealLocal);
    assert_eq!(p.schedule(Input::Stolen(Steal::Data(7)), &table), Command::Resume(7));
    assert_eq!(p.schedule(Input::Resumed(ResumeOutcome::Suspended), &table), Command::Requeue(7));
    assert_eq!(p.schedule(Input::Done, &table), Command::StealLocal);
    assert_eq!(p.schedule(Input::Stolen(Steal::Data(7)), &table), Command::Resume(7));
    assert_eq!(p.schedule(Input::Resumed(ResumeOutcome::Finished), &table), Command::Retire(7));
    assert_eq!(p.schedule(Input::Done, &table), Command::StealLocal);
    assert_eq!(p.schedule(Input::Stolen(Steal::Empty), &table), Command::ReadWorkCount);
    assert_eq!(p.schedule(Input::WorkCount(0), &table), Command::Stop);
    assert!(p.is_halted());
}

#[test]
fn work_elsewhere_keeps_the_loop_going() {
    let table = TokenTable::new();
    let mut p = Processor::new(Vec::new());
    p.schedule(Input::Start, &table);
    p.schedule(Input::Received(Message::Empty), &table);
    assert_eq!(p.schedule(Input::Stolen(Steal::Empty), &table), Command::ReadWorkCount);
    assert_eq!(p.schedule(Input::WorkCount(3), &table), Command::Receive);
    assert!(!p.is_halted());
}

#[test]
fn waiting_coroutines_make_the_loop_poll() {
    let mut table = TokenTable::new();
    table.park(5).unwrap();
    let mut p = Processor::new(vec![1, 2]);
    p.schedule(Input::Start, &table);
    assert_eq!(p.schedule(Input::Received(Message::Empty), &table), Command::PollEvents);
    assert_eq!(p.schedule(Input::Polled(true), &table), Command::StealLocal);
    assert_eq!(p.schedule(Input::Stolen(Steal::Empty), &table), Command::Receive);
}

#[test]
fn failed_poll_ends_the_loop() {
    let mut table = TokenTable::new();
    table.park(5).unwrap();
    let mut p = Processor::new(Vec::new());
    p.schedule(Input::Start, &table);
    p.schedule(Input::Received(Message::Empty), &table);
    assert_eq!(p.schedule(Input::Polled(false), &table), Command::Fail);
    assert!(p.is_halted());
}

#[test]
fn new_neighbour_is_appended() {
    let table = TokenTable::new();
    let mut p = Processor::new(vec![1]);
    p.schedule(Input::Start, &table);
    p.schedule(Input::Received(Message::NewNeighbor(9)), &table);
    assert_eq!(p.neighbors(), &vec![1, 9]);
}

#[test]
fn idle_processor_steals_from_a_neighbour() {
    let table = TokenTable::new();
    let mut p = Processor::new(vec![1, 2, 3]);
    p.schedule(Input::Start, &table);
    p.schedule(Input::Received(Message::Empty), &table);
    match p.schedule(Input::Stolen(Steal::Empty), &table) {
        Command::StealFrom(i) => assert!(i < 3),
        other => panic!("unexpected {:?}", other),
    }
    assert_eq!(p.schedule(Input::Stolen(Steal::Data(4)), &table), Command::Resume(4));
    assert_eq!(p.schedule(Input::Resumed(ResumeOutcome::Blocked), &table), Command::Receive);
}

#[test]
fn empty_neighbour_leads_to_the_work_count() {
    let table = TokenTable::new();
    let mut p = Processor::new(vec![1]);
    p.schedule(Input::Start, &table);
    p.schedule(Input::Received(Message::Empty), &table);
    assert_eq!(p.schedule(Input::Stolen(Steal::Empty), &table), Command::StealFrom(0));
    assert_eq!(p.schedule(Input::Stolen(Steal::Abort), &table), Command::ReadWorkCount);
}

#[test]
fn stolen_coroutine_that_finishes_is_retired() {
    let table = TokenTable::new();
    let mut p = Processor::new(vec![1]);
    p.schedule(Input::Start, &table);
    p.schedule(Input::Received(Message::Empty), &table);
    p.schedule(Input::Stolen(Steal::Empty), &table);
    p.schedule(Input::Stolen(Steal::Data(8)), &table);
    assert_eq!(p.schedule(Input::Resumed(ResumeOutcome::Panicked), &table), Command::Retire(8));
    assert_eq!(p.schedule(Input::Done, &table), Command::Receive);
}

#[test]
fn aborted_local_steal_is_retried() {
    let table = TokenTable::new();
    let mut p = Processor::new(Vec::new());
    p.schedule(Input::Start, &table);
    p.schedule(Input::Received(Message::Empty), &table);
    assert_eq!(p.schedule(Input::Stolen(Steal::Abort), &table), Command::StealLocal);
}

#[test]
fn broken_channel_or_impossible_state_aborts() {
    let table = TokenTable::new();
    let mut p = Processor::new(Vec::new());
    p.schedule(Input::Start, &table);
    assert_eq!(p.schedule(Input::Received(Message::Disconnected), &table), Command::Abort);
    assert_eq!(p.schedule(Input::Start, &table), Command::Abort);

    let mut q = Processor::new(Vec::new());
    q.schedule(Input::Start, &table);
    q.schedule(Input::Received(Message::Empty), &table);
    q.schedule(Input::Stolen(Steal::Data(1)), &table);
    assert_eq!(q.schedule(Input::Resumed(ResumeOutcome::Unexpected), &table), Command::Abort);
}

#[test]
fn failed_resume_moves_on() {
    let table = TokenTable::new();
    let mut p = Processor::new(Vec::new());
    p.schedule(Input::Start, &table);
    p.schedule(Input::Received(Message::Empty), &table);
    p.schedule(Input::Stolen(Steal::Data(1)), &table);
    assert_eq!(p.schedule(Input::Resumed(ResumeOutcome::Failed), &table), Command::StealLocal);
}

#[test]
fn schedule_with_draw_picks_draw_modulo_count() {
    let mut p = Processor::new(vec![4, 5, 6]);
    p.schedule_with(Input::Start, 0, 0);
    p.schedule_with(Input::Received(Message::Empty), 0, 0);
    assert_eq!(p.schedule_with(Input::Stolen(Steal::Empty), 0, 7), Command::StealFrom(1));
    assert_eq!(neighbor_index(10, 4), 2);
    assert_eq!(neighbor_index(3, 4), 3);
}
