use cosupport::token_table::{TokenTable, MAX_TOKEN_NUM};

#[test]
fn new_table_is_empty_with_default_capacity() {
    let table = TokenTable::new();
    assert_eq!(table.waiting_count(), 0);
    assert_eq!(table.capacity(), MAX_TOKEN_NUM);
    assert_eq!(MAX_TOKEN_NUM, 102400);
}

#[test]
fn park_then_wake_gives_back_the_waiter() {
    let mut table = TokenTable::with_tokens(8);
    let token = table.park(42).expect("a free token");
    assert!(token < 8);
    assert_eq!(table.waiting_count(), 1);
    assert_eq!(table.wake(token), Some(42));
    assert_eq!(table.waiting_count(), 0);
}

#[test]
fn wake_of_unknown_token_changes_nothing() {
    let mut table = TokenTable::with_tokens(4);
    let token = table.park(7).unwrap();
    let other = if token == 0 { 1 } else { 0 };
    assert_eq!(table.wake(other), None);
    assert_eq!(table.wake(1000), None);
    assert_eq!(table.waiting_count(), 1);
    assert_eq!(table.wake(token), Some(7));
}

#[test]
fn second_wake_of_a_token_finds_nothing() {
    let mut table = TokenTable::with_tokens(4);
    let token = table.park(9).unwrap();
    assert_eq!(table.wake(token), Some(9));
    assert_eq!(table.wake(token), None);
}

#[test]
fn tokens_are_distinct_and_full_table_refuses() {
    let mut table = TokenTable::with_tokens(3);
    let a = table.park(1).unwrap();
    let b = table.park(2).unwrap();
    let c = table.park(3).unwrap();
    assert!(a != b && b != c && a != c);
    assert_eq!(table.waiting_count(), 3);
    assert_eq!(table.park(4), None);
    assert_eq!(table.waiting_count(), 3);
    assert_eq!(table.wake(b), Some(2));
    let d = table.park(5).unwrap();
    assert_eq!(d, b);
    assert_eq!(table.wake(a), Some(1));
    assert_eq!(table.wake(c), Some(3));
    assert_eq!(table.wake(d), Some(5));
}

#[test]
fn zero_token_table_refuses_every_park() {
    let mut table = TokenTable::with_tokens(0);
    assert_eq!(table.park(1), None);
    assert_eq!(table.wake(0), None);
    assert_eq!(table.waiting_count(), 0);
}
