use crate::range::{CellRange, IndexRange};
use vstd::prelude::*;

verus! {

/// What is selected: a rectangle of cells, a span of whole rows, or a span of
/// whole columns. Only one kind is ever active.
#[derive(Clone, Copy, PartialEq, Eq, Structural, Debug)]
pub enum SelectionType {
    Cells(CellRange),
    Rows(IndexRange),
    Columns(IndexRange),
}

/// Whether a pointer drag is extending the selection, and of which kind.
#[derive(Clone, Copy, PartialEq, Eq, Structural, Debug)]
pub enum DragState {
    Idle,
    Dragging(SelectionType),
}

/// The selection of one grid together with its drag state.
#[derive(Clone, Copy, PartialEq, Eq, Structural, Debug)]
pub struct Selection {
    pub current: Option<SelectionType>,
    pub drag_state: DragState,
}

pub open spec fn single_cell(row: usize, column: usize) -> CellRange {
    CellRange { start_row: row, start_column: column, end_row: row, end_column: column }
}

pub open spec fn single_index(index: usize) -> IndexRange {
    IndexRange { start: index, end: index }
}

/// Both values are the same variant, whatever ranges they carry.
pub open spec fn same_kind(a: SelectionType, b: SelectionType) -> bool {
    ||| a is Cells && b is Cells
    ||| a is Rows && b is Rows
    ||| a is Columns && b is Columns
}

/// A span of the same length as `range`, starting at `to`.
pub open spec fn shifted(range: IndexRange, to: usize) -> IndexRange {
    IndexRange { start: to, end: (to + range.len() - 1) as usize }
}

impl Selection {
    /// Nothing selected, no drag in progress.
    pub open spec fn none() -> Selection {
        Selection { current: None, drag_state: DragState::Idle }
    }

    /// A fresh selection of `kind` with a drag of the same kind begun.
    pub open spec fn started(kind: SelectionType) -> Selection {
        Selection { current: Some(kind), drag_state: DragState::Dragging(kind) }
    }

    /// While a drag is in progress it is of the kind of the current selection.
    pub open spec fn wf(self) -> bool {
        match self.drag_state {
            DragState::Idle => true,
            DragState::Dragging(k) => self.current matches Some(c) && same_kind(k, c),
        }
    }

    /// The drag state after the selection became `kind`: a drag of that
    /// kind follows it, any other drag state stays.
    pub open spec fn mirrored(self, kind: SelectionType) -> DragState {
        if self.drag_state matches DragState::Dragging(d) && same_kind(d, kind) {
            DragState::Dragging(kind)
        } else {
            self.drag_state
        }
    }

    /// The state after `update_cell_selection(row, column)`.
    pub open spec fn after_update_cells(self, row: usize, column: usize) -> Selection {
        match self.current {
            Some(SelectionType::Cells(r)) => {
                let kind = SelectionType::Cells(
                    CellRange { end_row: row, end_column: column, ..r },
                );
                Selection { current: Some(kind), drag_state: self.mirrored(kind) }
            },
            _ => Selection::started(SelectionType::Cells(single_cell(row, column))),
        }
    }

    /// The state after `update_row_selection(row)`.
    pub open spec fn after_update_rows(self, row: usize) -> Selection {
        match self.current {
            Some(SelectionType::Rows(r)) => {
                let kind = SelectionType::Rows(IndexRange { end: row, ..r });
                Selection { current: Some(kind), drag_state: self.mirrored(kind) }
            },
            _ => Selection::started(SelectionType::Rows(single_index(row))),
        }
    }

    /// The state after `update_column_selection(column)`.
    pub open spec fn after_update_columns(self, column: usize) -> Selection {
        match self.current {
            Some(SelectionType::Columns(r)) => {
                let kind = SelectionType::Columns(IndexRange { end: column, ..r });
                Selection { current: Some(kind), drag_state: self.mirrored(kind) }
            },
            _ => Selection::started(SelectionType::Columns(single_index(column))),
        }
    }

    /// The state after `clear()`.
    pub open spec fn after_clear(self) -> Selection {
        Selection::none()
    }

    /// The state after `finish_drag()`.
    pub open spec fn after_finish_drag(self) -> Selection {
        Selection { drag_state: DragState::Idle, ..self }
    }

    /// The state after `shift_row_selection_to(to)`.
    pub open spec fn after_shift_rows(self, to: usize) -> Selection {
        match self.current {
            Some(SelectionType::Rows(r)) => Selection {
                current: Some(SelectionType::Rows(shifted(r, to))),
                ..self
            },
            _ => self,
        }
    }

    /// The state after `shift_column_selection_to(to)`.
    pub open spec fn after_shift_columns(self, to: usize) -> Selection {
        match self.current {
            Some(SelectionType::Columns(r)) => Selection {
                current: Some(SelectionType::Columns(shifted(r, to))),
                ..self
            },
            _ => self,
        }
    }

    /// A shift to `to` keeps every index of the moved span inside `usize`.
    pub open spec fn can_shift_rows(self, to: usize) -> bool {
        self.current matches Some(SelectionType::Rows(r)) ==> to + r.len() - 1 <= usize::MAX
    }

    /// A shift to `to` keeps every index of the moved span inside `usize`.
    pub open spec fn can_shift_columns(self, to: usize) -> bool {
        self.current matches Some(SelectionType::Columns(r)) ==> to + r.len() - 1 <= usize::MAX
    }

    /// A cell is highlighted by a rectangle holding it, or by a row or column
    /// selection that covers its row or its column.
    pub open spec fn cell_selected(self, row: int, column: int) -> bool {
        match self.current {
            Some(SelectionType::Cells(r)) => r.has(row, column),
            Some(SelectionType::Rows(r)) => r.has(row),
            Some(SelectionType::Columns(r)) => r.has(column),
            None => false,
        }
    }

    /// The row header shows as selected.
    pub open spec fn row_selected(self, row: int) -> bool {
        self.current matches Some(SelectionType::Rows(r)) && r.has(row)
    }

    /// The column header shows as selected.
    pub open spec fn column_selected(self, column: int) -> bool {
        self.current matches Some(SelectionType::Columns(r)) && r.has(column)
    }

    pub fn start_cell_selection(&mut self, row: usize, column: usize)
        ensures
            *final(self) == Selection::started(SelectionType::Cells(single_cell(row, column))),
    {
        let range = CellRange::new(row, column, row, column);
        self.current = Some(SelectionType::Cells(range));
        self.drag_state = DragState::Dragging(SelectionType::Cells(range));
    }

    /// Moves the far corner of the cell rectangle; starts a new one when no
    /// cell rectangle is selected.
    pub fn update_cell_selection(&mut self, row: usize, column: usize)
        ensures
            *final(self) == old(self).after_update_cells(row, column),
    {
        match self.current {
            Some(SelectionType::Cells(range)) => {
                let updated = CellRange::new(range.start_row, range.start_column, row, column);
                self.current = Some(SelectionType::Cells(updated));
                if let DragState::Dragging(SelectionType::Cells(_)) = self.drag_state {
                    self.drag_state = DragState::Dragging(SelectionType::Cells(updated));
                }
            },
            _ => self.start_cell_selection(row, column),
        }
    }

    pub fn start_row_selection(&mut self, row: usize)
        ensures
            *final(self) == Selection::started(SelectionType::Rows(single_index(row))),
    {
        let range = IndexRange::new(row, row);
        self.current = Some(SelectionType::Rows(range));
        self.drag_state = DragState::Dragging(SelectionType::Rows(range));
    }

    /// Moves the far end of the row span; starts a new one when no rows are
    /// selected.
    pub fn update_row_selection(&mut self, row: usize)
        ensures
            *final(self) == old(self).after_update_rows(row),
    {
        match self.current {
            Some(SelectionType::Rows(range)) => {
                let updated = IndexRange::new(range.start, row);
                self.current = Some(SelectionType::Rows(updated));
                if let DragState::Dragging(SelectionType::Rows(_)) = self.drag_state {
                    self.drag_state = DragState::Dragging(SelectionType::Rows(updated));
                }
            },
            _ => self.start_row_selection(row),
        }
    }

    pub fn start_column_selection(&mut self, column: usize)
        ensures
            *final(self) == Selection::started(SelectionType::Columns(single_index(column))),
    {
        let range = IndexRange::new(column, column);
        self.current = Some(SelectionType::Columns(range));
        self.drag_state = DragState::Dragging(SelectionType::Columns(range));
    }

    /// Moves the far end of the column span; starts a new one when no columns
    /// are selected.
    pub fn update_column_selection(&mut self, column: usize)
        ensures
            *final(self) == old(self).after_update_columns(column),
    {
        match self.current {
            Some(SelectionType::Columns(range)) => {
                let updated = IndexRange::new(range.start, column);
                self.current = Some(SelectionType::Columns(updated));
                if let DragState::Dragging(SelectionType::Columns(_)) = self.drag_state {
                    self.drag_state = DragState::Dragging(SelectionType::Columns(updated));
                }
            },
            _ => self.start_column_selection(column),
        }
    }

    /// Ends the drag; the selection itself stays.
    pub fn finish_drag(&mut self)
        ensures
            *final(self) == old(self).after_finish_drag(),
    {
        self.drag_state = DragState::Idle;
    }

    pub fn get_row_range(&self) -> (r: Option<IndexRange>)
        ensures
            r == (match self.current {
                Some(SelectionType::Rows(range)) => Some(range),
                _ => None,
            }),
    {
        match self.current {
            Some(SelectionType::Rows(range)) => Some(range),
            _ => None,
        }
    }

    pub fn get_column_range(&self) -> (r: Option<IndexRange>)
        ensures
            r == (match self.current {
                Some(SelectionType::Columns(range)) => Some(range),
                _ => None,
            }),
    {
        match self.current {
            Some(SelectionType::Columns(range)) => Some(range),
            _ => None,
        }
    }

    /// Moves a row selection, keeping its length, so that it starts at `to`.
    /// Any other selection is left alone.
    pub fn shift_row_selection_to(&mut self, to: usize)
        requires
            old(self).can_shift_rows(to),
        ensures
            *final(self) == old(self).after_shift_rows(to),
    {
        if let Some(SelectionType::Rows(range)) = self.current {
            let sorted = range.sorted();
            let end = to + (sorted.end - sorted.start);
            self.current = Some(SelectionType::Rows(IndexRange::new(to, end)));
        }
    }

    /// Moves a column selection, keeping its length, so that it starts at
    /// `to`. Any other selection is left alone.
    pub fn shift_column_selection_to(&mut self, to: usize)
        requires
            old(self).can_shift_columns(to),
        ensures
            *final(self) == old(self).after_shift_columns(to),
    {
        if let Some(SelectionType::Columns(range)) = self.current {
            let sorted = range.sorted();
            let end = to + (sorted.end - sorted.start);
            self.current = Some(SelectionType::Columns(IndexRange::new(to, end)));
        }
    }

    pub fn is_cell_selected(&self, row: usize, column: usize) -> (r: bool)
        ensures
            r == self.cell_selected(row as int, column as int),
    {
        match self.current {
            Some(SelectionType::Cells(range)) => range.contains(row, column),
            Some(SelectionType::Rows(range)) => range.contains(row),
            Some(SelectionType::Columns(range)) => range.contains(column),
            None => false,
        }
    }

    pub fn is_row_selected(&self, row: usize) -> (r: bool)
        ensures
            r == self.row_selected(row as int),
    {
        match self.current {
            Some(SelectionType::Rows(range)) => range.contains(row),
            _ => false,
        }
    }

    pub fn is_column_selected(&self, column: usize) -> (r: bool)
        ensures
            r == self.column_selected(column as int),
    {
        match self.current {
            Some(SelectionType::Columns(range)) => range.contains(column),
            _ => false,
        }
    }

    pub fn is_dragging(&self) -> (r: bool)
        ensures
            r == (self.drag_state is Dragging),
    {
        !matches!(self.drag_state, DragState::Idle)
    }

    pub fn is_dragging_rows(&self) -> (r: bool)
        ensures
            r == (self.drag_state matches DragState::Dragging(k) && k is Rows),
    {
        matches!(self.drag_state, DragState::Dragging(SelectionType::Rows(_)))
    }

    pub fn is_dragging_columns(&self) -> (r: bool)
        ensures
            r == (self.drag_state matches DragState::Dragging(k) && k is Columns),
    {
        matches!(self.drag_state, DragState::Dragging(SelectionType::Columns(_)))
    }

    pub fn is_dragging_cells(&self) -> (r: bool)
        ensures
            r == (self.drag_state matches DragState::Dragging(k) && k is Cells),
    {
        matches!(self.drag_state, DragState::Dragging(SelectionType::Cells(_)))
    }

    /// Drops the selection and ends any drag.
    pub fn clear(&mut self)
        ensures
            *final(self) == old(self).after_clear(),
    {
        self.current = None;
        self.drag_state = DragState::Idle;
    }
}

impl Default for DragState {
    fn default() -> (r: DragState)
        ensures
            r == DragState::Idle,
    {
        DragState::Idle
    }
}

impl Default for Selection {
    fn default() -> (r: Selection)
        ensures
            r == Selection::none(),
    {
        Selection { current: None, drag_state: DragState::Idle }
    }
}

/// Clearing a second time changes nothing.
pub proof fn lemma_clear_twice(s: Selection)
    ensures
        s.after_clear().after_clear() == s.after_clear(),
{
}

/// Starting a row selection selects that row and no other, and highlights
/// every cell of it.
pub proof fn lemma_start_row_selects_one_row(row: usize, other: int, column: int)
    ensures
        ({
            let s = Selection::started(SelectionType::Rows(single_index(row)));
            &&& s.row_selected(row as int)
            &&& other != row ==> !s.row_selected(other)
            &&& s.cell_selected(row as int, column)
        }),
{
}

/// Dragging over columns from `first` to `last` selects exactly the columns
/// between the two, in whichever direction the drag went.
pub proof fn lemma_column_drag_selects_span(first: usize, last: usize, column: int)
    ensures
        Selection::started(SelectionType::Columns(single_index(first))).after_update_columns(
            last,
        ).column_selected(column) <==> (first <= column <= last || last <= column <= first),
{
}

/// Starting a cell selection drops any row or column selection.
pub proof fn lemma_cells_replace_axis_selection(row: usize, column: usize, index: int)
    ensures
        !Selection::started(SelectionType::Cells(single_cell(row, column))).row_selected(index),
        !Selection::started(SelectionType::Cells(single_cell(row, column))).column_selected(index),
{
}

/// A cell drag is in progress until the pointer is released; the cell stays
/// selected afterwards.
pub proof fn lemma_finish_drag_keeps_cell(row: usize, column: usize)
    ensures
        ({
            let s = Selection::started(SelectionType::Cells(single_cell(row, column)));
            &&& s.drag_state matches DragState::Dragging(k) && k is Cells
            &&& s.after_finish_drag().drag_state is Idle
            &&& s.after_finish_drag().cell_selected(row as int, column as int)
        }),
{
}

/// Every operation keeps a drag of the same kind as the selection.
pub proof fn lemma_operations_keep_wf(s: Selection, row: usize, column: usize, to: usize)
    requires
        s.wf(),
    ensures
        Selection::none().wf(),
        s.after_clear().wf(),
        s.after_finish_drag().wf(),
        Selection::started(SelectionType::Cells(single_cell(row, column))).wf(),
        Selection::started(SelectionType::Rows(single_index(row))).wf(),
        Selection::started(SelectionType::Columns(single_index(column))).wf(),
        s.after_update_cells(row, column).wf(),
        s.after_update_rows(row).wf(),
        s.after_update_columns(column).wf(),
        s.after_shift_rows(to).wf(),
        s.after_shift_columns(to).wf(),
{
}

} // verus!
