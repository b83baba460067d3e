use nostromo_notes::cursor::{clamp_index, next_index, previous_index};

#[test]
fn next_wraps_from_last_to_first() {
    assert_eq!(next_index(Some(0), 3), Some(1));
    assert_eq!(next_index(Some(2), 3), Some(0));
    assert_eq!(next_index(None, 3), Some(0));
}

#[test]
fn previous_wraps_from_first_to_last() {
    assert_eq!(previous_index(Some(2), 3), Some(1));
    assert_eq!(previous_index(Some(0), 3), Some(2));
    assert_eq!(previous_index(None, 3), Some(0));
}

#[test]
fn empty_list_cursor_stays_none() {
    assert_eq!(next_index(None, 0), None);
    assert_eq!(previous_index(None, 0), None);
}

#[test]
fn cycling_len_times_returns_to_start() {
    for len in 1..6usize {
        for start in 0..len {
            let mut fwd = Some(start);
            let mut back = Some(start);
            for _ in 0..len {
                fwd = next_index(fwd, len);
                back = previous_index(back, len);
            }
            assert_eq!(fwd, Some(start));
            assert_eq!(back, Some(start));
        }
    }
}

#[test]
fn clamp_moves_cursor_inside_shorter_list() {
    assert_eq!(clamp_index(Some(5), 3), Some(2));
    assert_eq!(clamp_index(Some(1), 3), Some(1));
    assert_eq!(clamp_index(None, 3), Some(0));
    assert_eq!(clamp_index(Some(1), 0), None);
}
