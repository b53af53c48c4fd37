use mule::{Direction, FocusCycle, ListCursor};

#[test]
fn list_cursor_starts_empty() {
    let c = ListCursor::new();
    assert_eq!(c.selected(), None);
}

#[test]
fn list_cursor_select_next_saturates() {
    // From no selection, `select_next` called length times ends on the
    // last index, and further calls do not change it — no wraparound.
    let len = 5;
    let mut c = ListCursor::new();
    for _ in 0..len {
        c.select_next(len);
    }
    assert_eq!(c.selected(), Some(len - 1));
    for _ in 0..3 {
        c.select_next(len);
    }
    assert_eq!(c.selected(), Some(len - 1));
}

#[test]
fn list_cursor_select_previous_saturates() {
    let len = 5;
    let mut c = ListCursor::new();
    for _ in 0..len {
        c.select_previous(len);
    }
    assert_eq!(c.selected(), Some(0));
    for _ in 0..3 {
        c.select_previous(len);
    }
    assert_eq!(c.selected(), Some(0));
}

#[test]
fn list_cursor_first_steps() {
    let mut c = ListCursor::new();
    c.select_next(4);
    assert_eq!(c.selected(), Some(0));
    let mut d = ListCursor::new();
    d.select_previous(4);
    assert_eq!(d.selected(), Some(3));
}

#[test]
fn list_cursor_empty_list_never_selects() {
    let mut c = ListCursor::new();
    c.select_next(0);
    assert_eq!(c.selected(), None);
    c.select_previous(0);
    assert_eq!(c.selected(), None);
}

#[test]
fn focus_cycle_closure() {
    // For a cycle of length 4 and any focused start, 4 forward movements
    // return the focus to its starting value.
    for start in 0..4 {
        let mut f = FocusCycle::new(4, start);
        for _ in 0..4 {
            f.advance(Direction::Forward);
        }
        assert_eq!(f.focus(), Some(start));
    }
}

#[test]
fn focus_cycle_inverse() {
    for start in 0..4 {
        let mut f = FocusCycle::new(4, start);
        f.advance(Direction::Forward);
        f.advance(Direction::Backward);
        assert_eq!(f.focus(), Some(start));
        f.advance(Direction::Backward);
        f.advance(Direction::Forward);
        assert_eq!(f.focus(), Some(start));
    }
}

#[test]
fn focus_cycle_wraps_both_ways() {
    let mut f = FocusCycle::new(3, 2);
    f.advance(Direction::Forward);
    assert_eq!(f.focus(), Some(0));
    let mut g = FocusCycle::new(3, 0);
    g.advance(Direction::Backward);
    assert_eq!(g.focus(), Some(2));
}

#[test]
fn focus_cycle_unfocus_refocus_round_trip() {
    let mut f = FocusCycle::new(4, 2);
    f.unfocus();
    assert_eq!(f.focus(), None);
    f.refocus();
    assert_eq!(f.focus(), Some(2));
}

#[test]
fn focus_cycle_advance_from_sentinel_falls_back_to_start() {
    // From the sentinel, a movement starts at position 0: one step forward
    // lands on position 1, one step backward wraps to the last position.
    let mut f = FocusCycle::new(4, 2);
    f.unfocus();
    f.advance(Direction::Forward);
    assert_eq!(f.focus(), Some(1));
    let mut g = FocusCycle::new(4, 2);
    g.unfocus();
    g.advance(Direction::Backward);
    assert_eq!(g.focus(), Some(3));
}
