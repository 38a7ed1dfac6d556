use cosupport::transfer::{
    Accept, AcceptCommand, AcceptInput, AcceptOutcome, Retry, RetryCommand, RetryInput, Transfer,
    TransferCommand, TransferInput, TryOutcome,
};

#[test]
fn read_that_gets_bytes_returns_without_waiting() {
    let mut t = Transfer::new(10);
    assert_eq!(t.read_step(TransferInput::Start), TransferCommand::Try);
    assert_eq!(t.read_step(TransferInput::Tried(TryOutcome::Transferred(3))), TransferCommand::Try);
    assert_eq!(t.remaining(), 7);
    assert_eq!(t.read_step(TransferInput::Tried(TryOutcome::WouldBlock)), TransferCommand::Finish(3));
}

#[test]
fn read_at_end_of_file_reports_zero() {
    let mut t = Transfer::new(4);
    t.read_step(TransferInput::Start);
    assert_eq!(t.read_step(TransferInput::Tried(TryOutcome::Transferred(0))), TransferCommand::Finish(0));
}

#[test]
fn read_that_fills_the_buffer_returns_at_once() {
    let mut t = Transfer::new(4);
    t.read_step(TransferInput::Start);
    assert_eq!(t.read_step(TransferInput::Tried(TryOutcome::Transferred(4))), TransferCommand::Finish(4));
}

#[test]
fn read_of_an_overreported_count_stops_at_the_end() {
    let mut t = Transfer::new(4);
    t.read_step(TransferInput::Start);
    assert_eq!(t.read_step(TransferInput::Tried(TryOutcome::Transferred(9))), TransferCommand::Finish(4));
    assert_eq!(t.remaining(), 0);
}

#[test]
fn read_without_data_waits_once_then_reports_what_came() {
    let mut t = Transfer::new(10);
    t.read_step(TransferInput::Start);
    assert_eq!(t.read_step(TransferInput::Tried(TryOutcome::WouldBlock)), TransferCommand::Wait);
    assert_eq!(t.read_step(TransferInput::Waited(true)), TransferCommand::Try);
    assert_eq!(t.read_step(TransferInput::Tried(TryOutcome::Transferred(5))), TransferCommand::Try);
    assert_eq!(t.read_step(TransferInput::Tried(TryOutcome::WouldBlock)), TransferCommand::Finish(5));
}

#[test]
fn read_into_empty_buffer_waits_then_reports_zero() {
    let mut t = Transfer::new(0);
    assert_eq!(t.read_step(TransferInput::Start), TransferCommand::Wait);
    assert_eq!(t.read_step(TransferInput::Waited(true)), TransferCommand::Finish(0));
}

#[test]
fn read_errors_end_the_read() {
    let mut t = Transfer::new(8);
    t.read_step(TransferInput::Start);
    assert_eq!(t.read_step(TransferInput::Tried(TryOutcome::Failed)), TransferCommand::Fail);
    let mut u = Transfer::new(8);
    u.read_step(TransferInput::Start);
    u.read_step(TransferInput::Tried(TryOutcome::WouldBlock));
    assert_eq!(u.read_step(TransferInput::Waited(false)), TransferCommand::Fail);
    assert_eq!(u.read_step(TransferInput::Start), TransferCommand::Abort);
}

#[test]
fn read_error_after_bytes_reports_the_bytes() {
    let mut t = Transfer::new(8);
    t.read_step(TransferInput::Start);
    t.read_step(TransferInput::Tried(TryOutcome::Transferred(2)));
    assert_eq!(t.read_step(TransferInput::Tried(TryOutcome::Failed)), TransferCommand::Finish(2));
}

#[test]
fn write_reports_what_went_out() {
    let mut t = Transfer::new(10);
    assert_eq!(t.write_step(TransferInput::Start), TransferCommand::Try);
    assert_eq!(t.write_step(TransferInput::Tried(TryOutcome::Transferred(3))), TransferCommand::Try);
    assert_eq!(t.write_step(TransferInput::Tried(TryOutcome::WouldBlock)), TransferCommand::Finish(3));
}

#[test]
fn write_that_sends_nothing_waits_and_tries_again() {
    let mut t = Transfer::new(10);
    t.write_step(TransferInput::Start);
    assert_eq!(t.write_step(TransferInput::Tried(TryOutcome::WouldBlock)), TransferCommand::Wait);
    assert_eq!(t.write_step(TransferInput::Waited(true)), TransferCommand::Try);
    assert_eq!(t.write_step(TransferInput::Tried(TryOutcome::Transferred(6))), TransferCommand::Try);
    assert_eq!(t.write_step(TransferInput::Tried(TryOutcome::Transferred(4))), TransferCommand::Finish(10));
}

#[test]
fn write_of_whole_buffer_returns_at_once() {
    let mut t = Transfer::new(5);
    t.write_step(TransferInput::Start);
    assert_eq!(t.write_step(TransferInput::Tried(TryOutcome::Transferred(5))), TransferCommand::Finish(5));
}

#[test]
fn write_failure_after_bytes_reports_the_bytes() {
    let mut t = Transfer::new(3);
    t.write_step(TransferInput::Start);
    assert_eq!(t.write_step(TransferInput::Tried(TryOutcome::Transferred(2))), TransferCommand::Try);
    assert_eq!(t.write_step(TransferInput::Tried(TryOutcome::Failed)), TransferCommand::Finish(2));
}

#[test]
fn write_failure_after_wait_is_reported() {
    let mut t = Transfer::new(5);
    t.write_step(TransferInput::Start);
    t.write_step(TransferInput::Tried(TryOutcome::Transferred(0)));
    t.write_step(TransferInput::Waited(true));
    assert_eq!(t.write_step(TransferInput::Tried(TryOutcome::Failed)), TransferCommand::Fail);
}

#[test]
fn accept_without_pending_connection_waits_once() {
    let mut a = Accept::new();
    assert_eq!(a.step(AcceptInput::Start), AcceptCommand::Try);
    assert_eq!(a.step(AcceptInput::Tried(AcceptOutcome::WouldBlock)), AcceptCommand::Wait);
    assert_eq!(a.step(AcceptInput::Waited(true)), AcceptCommand::Try);
    assert_eq!(a.step(AcceptInput::Tried(AcceptOutcome::Accepted)), AcceptCommand::Deliver);
}

#[test]
fn accept_with_pending_connection_delivers_at_once() {
    let mut a = Accept::new();
    a.step(AcceptInput::Start);
    assert_eq!(a.step(AcceptInput::Tried(AcceptOutcome::Accepted)), AcceptCommand::Deliver);
}

#[test]
fn accept_still_blocking_after_wait_gives_up() {
    let mut a = Accept::new();
    a.step(AcceptInput::Start);
    a.step(AcceptInput::Tried(AcceptOutcome::WouldBlock));
    a.step(AcceptInput::Waited(true));
    assert_eq!(a.step(AcceptInput::Tried(AcceptOutcome::WouldBlock)), AcceptCommand::Abort);
}

#[test]
fn accept_errors_are_returned() {
    let mut a = Accept::new();
    a.step(AcceptInput::Start);
    assert_eq!(a.step(AcceptInput::Tried(AcceptOutcome::Failed)), AcceptCommand::Fail);
    let mut b = Accept::new();
    b.step(AcceptInput::Start);
    b.step(AcceptInput::Tried(AcceptOutcome::WouldBlock));
    assert_eq!(b.step(AcceptInput::Waited(false)), AcceptCommand::Fail);
}

#[test]
fn retry_blocks_until_the_operation_moves_bytes() {
    let mut r = Retry::new();
    assert_eq!(r.step(RetryInput::Start), RetryCommand::Block);
    assert_eq!(r.step(RetryInput::Woken), RetryCommand::Try);
    assert_eq!(r.step(RetryInput::Tried(TryOutcome::WouldBlock)), RetryCommand::Block);
    assert_eq!(r.step(RetryInput::Woken), RetryCommand::Try);
    assert_eq!(r.step(RetryInput::Tried(TryOutcome::Transferred(12))), RetryCommand::Deregister);
    assert_eq!(r.step(RetryInput::Deregistered), RetryCommand::Finish(12));
}

#[test]
fn retry_error_deregisters_then_fails() {
    let mut r = Retry::new();
    r.step(RetryInput::Start);
    r.step(RetryInput::Woken);
    assert_eq!(r.step(RetryInput::Tried(TryOutcome::Failed)), RetryCommand::Deregister);
    assert_eq!(r.step(RetryInput::Deregistered), RetryCommand::Fail);
    assert_eq!(r.step(RetryInput::Woken), RetryCommand::Abort);
}
