use ping_pong_cell::PingPongCell;

#[test]
fn new_then_take() {
    let mut cell = PingPongCell::new(Some(5u32));
    assert_eq!(cell.take(), Some(5));
    assert_eq!(cell.take(), None);
}

#[test]
fn put_overwrites() {
    let mut cell = PingPongCell::new(Some(1u32));
    cell.put(2);
    assert_eq!(cell.take(), Some(2));
}

#[test]
fn put_if_empty_single_winner() {
    let mut cell = PingPongCell::new(None);
    assert_eq!(cell.put_if_empty(1u32), Ok(()));
    assert_eq!(cell.put_if_empty(2), Err(2));
    assert_eq!(cell.put_if_empty(3), Err(3));
    assert_eq!(cell.take(), Some(1));
}

#[test]
fn transact_runs_one_transaction() {
    let mut cell = PingPongCell::new(Some(10u32));
    let seen = cell.transact(|slot| (Some(11), slot));
    assert_eq!(seen, Some(10));
    assert_eq!(cell.take(), Some(11));
}

#[test]
fn put_empty_clone_reports_contents() {
    let mut cell = PingPongCell::new(None);
    assert_eq!(cell.put_empty_clone(String::from("first")), Ok(()));
    assert_eq!(
        cell.put_empty_clone(String::from("second")),
        Err((String::from("second"), String::from("first")))
    );
    assert_eq!(cell.take(), Some(String::from("first")));
}

#[test]
fn clone_inner_leaves_value_in_place() {
    let cell = PingPongCell::new(Some(String::from("kept")));
    assert_eq!(cell.clone_inner(), Some(String::from("kept")));
    assert_eq!(cell.clone_inner(), Some(String::from("kept")));
    let empty: PingPongCell<String> = PingPongCell::new(None);
    assert_eq!(empty.clone_inner(), None);
}

#[test]
fn compare_and_swap_hits_on_equal() {
    let mut cell = PingPongCell::new(Some(9u64));
    assert_eq!(cell.compare_and_swap(&9, 11), Ok(()));
    assert_eq!(cell.clone_inner(), Some(11));
}

#[test]
fn compare_and_swap_misses_leave_slot_untouched() {
    let mut cell = PingPongCell::new(Some(9u64));
    assert_eq!(cell.compare_and_swap(&8, 11), Err(11));
    assert_eq!(cell.clone_inner(), Some(9));
    let mut empty: PingPongCell<u64> = PingPongCell::new(None);
    assert_eq!(empty.compare_and_swap(&8, 11), Err(11));
    assert_eq!(empty.take(), None);
}

#[test]
fn compare_swap_clone_reports_stored_value() {
    let mut cell = PingPongCell::new(Some(9u64));
    assert_eq!(cell.compare_swap_clone(&9, 11), Ok(()));
    assert_eq!(cell.compare_swap_clone(&9, 13), Err((13, Some(11))));
    assert_eq!(cell.clone_inner(), Some(11));
    let mut empty: PingPongCell<u64> = PingPongCell::new(None);
    assert_eq!(empty.compare_swap_clone(&9, 13), Err((13, None)));
}
