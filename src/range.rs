use vstd::prelude::*;

verus! {

pub open spec fn min_nat(a: nat, b: nat) -> nat {
    if a <= b {
        a
    } else {
        b
    }
}

pub open spec fn max_nat(a: nat, b: nat) -> nat {
    if a <= b {
        b
    } else {
        a
    }
}

/// An inclusive span of indices whose endpoints may come in either order.
#[derive(Clone, Copy, PartialEq, Eq, Structural, Debug)]
pub struct IndexRange {
    pub start: usize,
    pub end: usize,
}

impl IndexRange {
    /// The smaller endpoint.
    pub open spec fn lo(self) -> nat {
        min_nat(self.start as nat, self.end as nat)
    }

    /// The larger endpoint.
    pub open spec fn hi(self) -> nat {
        max_nat(self.start as nat, self.end as nat)
    }

    /// Number of indices covered, both endpoints included.
    pub open spec fn len(self) -> nat {
        (self.hi() - self.lo() + 1) as nat
    }

    pub open spec fn has(self, index: int) -> bool {
        self.lo() <= index <= self.hi()
    }

    pub fn new(start: usize, end: usize) -> (r: IndexRange)
        ensures
            r.start == start,
            r.end == end,
    {
        IndexRange { start, end }
    }

    /// The same span with `start <= end`.
    pub fn sorted(&self) -> (r: IndexRange)
        ensures
            r.start <= r.end,
            r.start == self.lo(),
            r.end == self.hi(),
    {
        if self.start <= self.end {
            IndexRange { start: self.start, end: self.end }
        } else {
            IndexRange { start: self.end, end: self.start }
        }
    }

    /// Number of indices covered; a single point has length one.
    pub fn length(&self) -> (r: usize)
        requires
            self.len() <= usize::MAX,
        ensures
            r == self.len(),
            r == (if self.start >= self.end {
                self.start - self.end
            } else {
                self.end - self.start
            }) + 1,
    {
        let sorted = self.sorted();
        sorted.end - sorted.start + 1
    }

    pub fn contains(&self, index: usize) -> (r: bool)
        ensures
            r == self.has(index as int),
    {
        let sorted = self.sorted();
        index >= sorted.start && index <= sorted.end
    }
}

/// A rectangle of cells given by two corners, in any order.
#[derive(Clone, Copy, PartialEq, Eq, Structural, Debug)]
pub struct CellRange {
    pub start_row: usize,
    pub start_column: usize,
    pub end_row: usize,
    pub end_column: usize,
}

impl CellRange {
    pub open spec fn rows(self) -> IndexRange {
        IndexRange { start: self.start_row, end: self.end_row }
    }

    pub open spec fn columns(self) -> IndexRange {
        IndexRange { start: self.start_column, end: self.end_column }
    }

    pub open spec fn has(self, row: int, column: int) -> bool {
        self.rows().has(row) && self.columns().has(column)
    }

    pub fn new(start_row: usize, start_column: usize, end_row: usize, end_column: usize) -> (r:
        CellRange)
        ensures
            r.start_row == start_row,
            r.start_column == start_column,
            r.end_row == end_row,
            r.end_column == end_column,
    {
        CellRange { start_row, start_column, end_row, end_column }
    }

    /// The same rectangle with each start no greater than its end.
    pub fn sorted(&self) -> (r: CellRange)
        ensures
            r.start_row == self.rows().lo(),
            r.end_row == self.rows().hi(),
            r.start_column == self.columns().lo(),
            r.end_column == self.columns().hi(),
    {
        let rows = IndexRange::new(self.start_row, self.end_row).sorted();
        let columns = IndexRange::new(self.start_column, self.end_column).sorted();
        CellRange {
            start_row: rows.start,
            end_row: rows.end,
            start_column: columns.start,
            end_column: columns.end,
        }
    }

    pub fn contains(&self, row: usize, column: usize) -> (r: bool)
        ensures
            r == self.has(row as int, column as int),
    {
        let sorted = self.sorted();
        row >= sorted.start_row && row <= sorted.end_row && column >= sorted.start_column && column
            <= sorted.end_column
    }
}

/// A rectangle given as one span of rows and one span of columns.
#[derive(Clone, Copy, PartialEq, Eq, Structural, Debug)]
pub struct IndexRect {
    pub row: IndexRange,
    pub column: IndexRange,
}

impl IndexRect {
    pub open spec fn has(self, row: int, column: int) -> bool {
        self.row.has(row) && self.column.has(column)
    }

    pub fn new(row: IndexRange, column: IndexRange) -> (r: IndexRect)
        ensures
            r.row == row,
            r.column == column,
    {
        IndexRect { row, column }
    }

    /// The same rectangle with both spans sorted.
    pub fn sorted(&self) -> (r: IndexRect)
        ensures
            r.row.start == self.row.lo(),
            r.row.end == self.row.hi(),
            r.column.start == self.column.lo(),
            r.column.end == self.column.hi(),
    {
        IndexRect { row: self.row.sorted(), column: self.column.sorted() }
    }

    pub fn contains(&self, row: usize, column: usize) -> (r: bool)
        ensures
            r == self.has(row as int, column as int),
    {
        self.row.contains(row) && self.column.contains(column)
    }
}

} // verus!
