use tmux_manager::selection::Selection;

fn sel(cursor: Option<usize>) -> Selection {
    Selection { cursor }
}

#[test]
fn repair_empty_list_clears_cursor() {
    let mut s = sel(Some(3));
    s.repair(0);
    assert_eq!(s.cursor, None);
    let mut s = sel(None);
    s.repair(0);
    assert_eq!(s.cursor, None);
}

#[test]
fn repair_unset_cursor_selects_first() {
    let mut s = sel(None);
    s.repair(4);
    assert_eq!(s.cursor, Some(0));
}

#[test]
fn repair_keeps_cursor_that_fits() {
    let mut s = sel(Some(0));
    s.repair(2);
    assert_eq!(s.cursor, Some(0));
    let mut s = sel(Some(4));
    s.repair(5);
    assert_eq!(s.cursor, Some(4));
}

#[test]
fn repair_clamps_to_new_last() {
    let mut s = sel(Some(2));
    s.repair(2);
    assert_eq!(s.cursor, Some(1));
    let mut s = sel(Some(9));
    s.repair(3);
    assert_eq!(s.cursor, Some(2));
}

#[test]
fn next_and_prev_wrap() {
    let mut s = sel(Some(2));
    s.next(3);
    assert_eq!(s.cursor, Some(0));
    s.prev(3);
    assert_eq!(s.cursor, Some(2));
    s.prev(3);
    assert_eq!(s.cursor, Some(1));
}

#[test]
fn next_and_prev_from_unset_select_first() {
    let mut s = sel(None);
    s.next(3);
    assert_eq!(s.cursor, Some(0));
    let mut s = sel(None);
    s.prev(3);
    assert_eq!(s.cursor, Some(0));
}

#[test]
fn moves_on_empty_list_do_nothing() {
    let mut s = sel(None);
    s.next(0);
    assert_eq!(s.cursor, None);
    s.prev(0);
    assert_eq!(s.cursor, None);
}

#[test]
fn single_entry_moves_stay_on_it() {
    let mut s = sel(Some(0));
    for _ in 0..3 {
        s.next(1);
        assert_eq!(s.cursor, Some(0));
        s.prev(1);
        assert_eq!(s.cursor, Some(0));
    }
}

#[test]
fn next_then_prev_returns() {
    for c in 0..5usize {
        let mut s = sel(Some(c));
        s.next(5);
        s.prev(5);
        assert_eq!(s.cursor, Some(c));
        s.prev(5);
        s.next(5);
        assert_eq!(s.cursor, Some(c));
    }
}

#[test]
fn new_selection_is_unset() {
    assert_eq!(Selection::new().selected(), None);
}
