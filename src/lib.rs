//! Selection engine for a spreadsheet-like grid: cell rectangles, whole rows
//! and whole columns selected by pointer drag, and moving a selected block of
//! rows or columns to a new position.
pub mod grid;
pub mod range;
pub mod reorder;
pub mod selection;

pub use grid::{get_group_columns, get_rows, GroupColumn, PropertyColumn, Row, User};
pub use range::{CellRange, IndexRange, IndexRect};
pub use reorder::{insertion_index, reorder_elements};
pub use selection::{DragState, Selection, SelectionType};
