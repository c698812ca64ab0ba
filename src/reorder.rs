use crate::range::IndexRange;
use crate::selection::{Selection, SelectionType};
use vstd::prelude::*;

verus! {

/// `s` without the block `[start, end]`.
pub open spec fn without_block<T>(s: Seq<T>, start: int, end: int) -> Seq<T> {
    s.subrange(0, start) + s.subrange(end + 1, s.len() as int)
}

/// `s` with the block `[start, end]` taken out and put back so that it begins
/// at `at`, an index into what is left once the block is out.
pub open spec fn moved_block<T>(s: Seq<T>, start: int, end: int, at: int) -> Seq<T> {
    let rest = without_block(s, start, end);
    rest.subrange(0, at) + s.subrange(start, end + 1) + rest.subrange(at, rest.len() as int)
}

/// The block `[start, end]` lies in a sequence of length `len`, and `at` is a
/// position in what is left without it.
pub open spec fn valid_move(len: nat, start: int, end: int, at: int) -> bool {
    &&& 0 <= start <= end < len
    &&& 0 <= at <= len - (end - start + 1)
}

/// Where a block spanning `range` is put back so that it lands at the index
/// `target` of the sequence as it is now; `None` when `target` lies in the
/// block itself.
pub open spec fn rebased(range: IndexRange, target: nat) -> Option<nat> {
    if range.has(target as int) {
        None
    } else if target > range.hi() {
        Some((target - range.len()) as nat)
    } else {
        Some(target)
    }
}

/// Moves the block of `v` that `range` spans (endpoints in either order) so
/// that it starts at `insertion_index` of the sequence left without it.
pub fn reorder_elements<T>(v: &mut Vec<T>, range: IndexRange, insertion_index: usize)
    requires
        valid_move(old(v)@.len(), range.lo() as int, range.hi() as int, insertion_index as int),
    ensures
        final(v)@ == moved_block(old(v)@, range.lo() as int, range.hi() as int, insertion_index as int),
        final(v)@.len() == old(v)@.len(),
{
    let sorted = range.sorted();
    let len = v.len();
    assert(sorted.end < len);
    let mut tail = v.split_off(sorted.end + 1);
    let mut block = v.split_off(sorted.start);
    v.append(&mut tail);
    let mut after = v.split_off(insertion_index);
    v.append(&mut block);
    v.append(&mut after);
}

/// The insertion index for moving the block spanning `range` onto `target`.
pub fn insertion_index(range: IndexRange, target: usize) -> (r: Option<usize>)
    ensures
        r matches Some(i) ==> rebased(range, target as nat) == Some(i as nat),
        r is None ==> rebased(range, target as nat) is None,
{
    let sorted = range.sorted();
    if range.contains(target) {
        None
    } else if target > sorted.end {
        Some(target - (sorted.end - sorted.start) - 1)
    } else {
        Some(target)
    }
}

/// A block that fits in a sequence of length `len`, moved onto an index of
/// that sequence, fits there too.
pub proof fn lemma_rebased_fits(range: IndexRange, target: nat, len: nat)
    requires
        range.hi() < len,
        target < len,
        rebased(range, target) is Some,
    ensures
        valid_move(len, range.lo() as int, range.hi() as int, rebased(range, target)->0 as int),
{
}

/// Moving a block away and then moving it back from where it landed gives
/// the sequence it came from.
pub proof fn lemma_move_back<T>(s: Seq<T>, start: int, end: int, at: int)
    requires
        valid_move(s.len(), start, end, at),
    ensures
        valid_move(s.len(), at, at + (end - start), start),
        moved_block(moved_block(s, start, end, at), at, at + (end - start), start) == s,
{
    let rest = without_block(s, start, end);
    let block = s.subrange(start, end + 1);
    let t = moved_block(s, start, end, at);
    let e = at + (end - start);
    assert(t.subrange(at, e + 1) =~= block);
    assert(without_block(t, at, e) =~= rest);
    assert(rest.subrange(0, start) =~= s.subrange(0, start));
    assert(rest.subrange(start, rest.len() as int) =~= s.subrange(end + 1, s.len() as int));
    assert(moved_block(t, at, e, start) =~= s);
}

impl Selection {
    /// The span of selected rows and where it goes when row `target` is
    /// picked as its new place.
    pub open spec fn row_move(self, target: usize) -> Option<(IndexRange, nat)> {
        match self.current {
            Some(SelectionType::Rows(r)) => match rebased(r, target as nat) {
                Some(at) => Some((r, at)),
                None => None,
            },
            _ => None,
        }
    }

    /// The span of selected columns and where it goes when column `target`
    /// is picked as its new place.
    pub open spec fn column_move(self, target: usize) -> Option<(IndexRange, nat)> {
        match self.current {
            Some(SelectionType::Columns(r)) => match rebased(r, target as nat) {
                Some(at) => Some((r, at)),
                None => None,
            },
            _ => None,
        }
    }

    /// Moves the selected block of `rows` so that it takes the place of row
    /// `target`, and moves the selection with it. Nothing changes when no
    /// rows are selected or `target` is one of them.
    pub fn move_selected_rows<T>(&mut self, rows: &mut Vec<T>, target: usize) -> (moved: bool)
        requires
            old(self).current matches Some(SelectionType::Rows(r)) ==> r.hi() < old(rows).len()
                && target < old(rows).len(),
        ensures
            moved == old(self).row_move(target) is Some,
            match old(self).row_move(target) {
                Some((r, at)) => {
                    &&& final(rows)@ == moved_block(old(rows)@, r.lo() as int, r.hi() as int, at as int)
                    &&& *final(self) == old(self).after_shift_rows(at as usize)
                },
                None => final(rows)@ == old(rows)@ && *final(self) == *old(self),
            },
    {
        if let Some(range) = self.get_row_range() {
            if let Some(at) = insertion_index(range, target) {
                proof {
                    lemma_rebased_fits(range, target as nat, rows.len() as nat);
                }
                reorder_elements(rows, range, at);
                self.shift_row_selection_to(at);
                return true;
            }
        }
        false
    }

    /// Moves the selected block of `columns` so that it takes the place of
    /// column `target`, and moves the selection with it. Nothing changes when
    /// no columns are selected or `target` is one of them.
    pub fn move_selected_columns<T>(&mut self, columns: &mut Vec<T>, target: usize) -> (moved:
        bool)
        requires
            old(self).current matches Some(SelectionType::Columns(r)) ==> r.hi() < old(
                columns,
            ).len() && target < old(columns).len(),
        ensures
            moved == old(self).column_move(target) is Some,
            match old(self).column_move(target) {
                Some((r, at)) => {
                    &&& final(columns)@ == moved_block(old(columns)@, r.lo() as int, r.hi() as int, at as int)
                    &&& *final(self) == old(self).after_shift_columns(at as usize)
                },
                None => final(columns)@ == old(columns)@ && *final(self) == *old(self),
            },
    {
        if let Some(range) = self.get_column_range() {
            if let Some(at) = insertion_index(range, target) {
                proof {
                    lemma_rebased_fits(range, target as nat, columns.len() as nat);
                }
                reorder_elements(columns, range, at);
                self.shift_column_selection_to(at);
                return true;
            }
        }
        false
    }
}

/// After a column move the selection covers exactly the positions where the
/// moved block now stands, and those positions hold the block in its order.
pub proof fn lemma_selection_follows_moved_columns<T>(
    s: Selection,
    columns: Seq<T>,
    target: usize,
    index: int,
)
    requires
        s.current matches Some(SelectionType::Columns(r)) ==> r.hi() < columns.len() && target
            < columns.len(),
        s.column_move(target) is Some,
    ensures
        ({
            let (r, at) = s.column_move(target)->0;
            let moved = moved_block(columns, r.lo() as int, r.hi() as int, at as int);
            &&& s.after_shift_columns(at as usize).column_selected(index) <==> at <= index < at
                + r.len()
            &&& at <= index < at + r.len() ==> moved[index] == columns[r.lo() + index - at]
        }),
{
    let (r, at) = s.column_move(target)->0;
    lemma_rebased_fits(r, target as nat, columns.len());
}

} // verus!
