use table_selection::{CellRange, DragState, IndexRange, Selection, SelectionType};

#[test]
fn default_is_empty_and_idle() {
    let s = Selection::default();
    assert_eq!(s.current, None);
    assert_eq!(s.drag_state, DragState::Idle);
    assert_eq!(DragState::default(), DragState::Idle);
    assert!(!s.is_dragging());
    assert!(!s.is_cell_selected(0, 0));
}

#[test]
fn clear_twice_same_as_once() {
    let mut s = Selection::default();
    s.start_cell_selection(1, 2);
    s.update_cell_selection(3, 4);
    s.clear();
    let once = s;
    s.clear();
    assert_eq!(s, once);
    assert_eq!(s, Selection::default());
}

#[test]
fn start_row_selects_one_row() {
    let mut s = Selection::default();
    s.start_row_selection(3);
    assert!(s.is_row_selected(3));
    for k in 0..10 {
        if k != 3 {
            assert!(!s.is_row_selected(k));
        }
    }
    for c in 0..10 {
        assert!(s.is_cell_selected(3, c));
    }
    assert!(!s.is_cell_selected(2, 0));
    assert!(!s.is_column_selected(3));
    assert!(s.is_dragging_rows());
}

#[test]
fn column_drag_selects_span() {
    let mut s = Selection::default();
    s.start_column_selection(2);
    s.update_column_selection(5);
    for c in 0..10 {
        assert_eq!(s.is_column_selected(c), (2..=5).contains(&c));
    }
    assert_eq!(s.get_column_range(), Some(IndexRange::new(2, 5)));
    assert_eq!(
        s.drag_state,
        DragState::Dragging(SelectionType::Columns(IndexRange::new(2, 5)))
    );
}

#[test]
fn backward_row_drag_selects_span() {
    let mut s = Selection::default();
    s.start_row_selection(6);
    s.update_row_selection(4);
    assert_eq!(s.get_row_range(), Some(IndexRange::new(6, 4)));
    assert!(!s.is_row_selected(3));
    assert!(s.is_row_selected(4));
    assert!(s.is_row_selected(6));
    assert!(!s.is_row_selected(7));
    assert!(s.is_cell_selected(5, 100));
}

#[test]
fn cell_selection_replaces_row_selection() {
    let mut s = Selection::default();
    s.start_row_selection(2);
    assert!(s.is_row_selected(2));
    s.start_cell_selection(0, 0);
    assert!(!s.is_row_selected(2));
    assert!(!s.is_cell_selected(2, 1));
    assert!(s.is_cell_selected(0, 0));
    assert_eq!(s.get_row_range(), None);
}

#[test]
fn cell_drag_extends_far_corner() {
    let mut s = Selection::default();
    s.start_cell_selection(2, 2);
    s.update_cell_selection(0, 4);
    assert_eq!(s.current, Some(SelectionType::Cells(CellRange::new(2, 2, 0, 4))));
    assert!(s.is_cell_selected(1, 3));
    assert!(s.is_cell_selected(0, 4));
    assert!(!s.is_cell_selected(3, 3));
    assert!(!s.is_row_selected(1));
    assert!(!s.is_column_selected(3));
}

#[test]
fn drag_sequencing_keeps_selection() {
    let mut s = Selection::default();
    s.start_cell_selection(0, 0);
    assert!(s.is_dragging_cells());
    assert!(s.is_dragging());
    s.finish_drag();
    assert!(!s.is_dragging_cells());
    assert!(!s.is_dragging());
    assert!(s.is_cell_selected(0, 0));
}

#[test]
fn update_after_finish_keeps_idle() {
    let mut s = Selection::default();
    s.start_column_selection(1);
    s.finish_drag();
    s.update_column_selection(3);
    assert_eq!(s.drag_state, DragState::Idle);
    assert_eq!(s.get_column_range(), Some(IndexRange::new(1, 3)));
}

#[test]
fn update_of_other_kind_starts_fresh() {
    let mut s = Selection::default();
    s.start_column_selection(4);
    s.update_row_selection(2);
    assert_eq!(s.current, Some(SelectionType::Rows(IndexRange::new(2, 2))));
    assert!(s.is_dragging_rows());
    assert!(!s.is_column_selected(4));

    let mut s = Selection::default();
    s.update_cell_selection(1, 1);
    assert_eq!(s.current, Some(SelectionType::Cells(CellRange::new(1, 1, 1, 1))));
    assert!(s.is_dragging_cells());

    let mut s = Selection::default();
    s.start_row_selection(0);
    s.update_column_selection(7);
    assert!(s.is_column_selected(7));
    assert!(s.is_dragging_columns());
}

#[test]
fn shift_keeps_length() {
    let mut s = Selection::default();
    s.start_column_selection(5);
    s.update_column_selection(3);
    s.shift_column_selection_to(10);
    assert_eq!(s.get_column_range(), Some(IndexRange::new(10, 12)));

    let mut s = Selection::default();
    s.start_row_selection(1);
    s.update_row_selection(2);
    s.shift_row_selection_to(0);
    assert_eq!(s.get_row_range(), Some(IndexRange::new(0, 1)));
}

#[test]
fn shift_of_other_kind_is_noop() {
    let mut s = Selection::default();
    s.start_cell_selection(1, 1);
    let before = s;
    s.shift_column_selection_to(4);
    s.shift_row_selection_to(4);
    assert_eq!(s, before);
}

#[test]
fn escape_clears_during_drag() {
    let mut s = Selection::default();
    s.start_row_selection(1);
    s.update_row_selection(3);
    s.clear();
    assert!(!s.is_dragging());
    assert!(!s.is_row_selected(2));
    assert_eq!(s.current, None);
}
