use game_launcher::select::{next_index, previous_index};

#[test]
fn next_starts_at_the_top() {
    assert_eq!(next_index(None, 3), 0);
    assert_eq!(next_index(None, 0), 0);
}

#[test]
fn next_moves_down_and_wraps() {
    assert_eq!(next_index(Some(0), 3), 1);
    assert_eq!(next_index(Some(1), 3), 2);
    assert_eq!(next_index(Some(2), 3), 0);
}

#[test]
fn previous_starts_at_the_top() {
    assert_eq!(previous_index(None, 3), 0);
    assert_eq!(previous_index(None, 0), 0);
}

#[test]
fn previous_moves_up_and_wraps() {
    assert_eq!(previous_index(Some(2), 3), 1);
    assert_eq!(previous_index(Some(1), 3), 0);
    assert_eq!(previous_index(Some(0), 3), 2);
}
