//! The occupancy store: a bounded `columns × rows` table of optional values.
//!
//! A cell holds `Some(value)` when occupied and `None` when empty.  The table
//! is the authoritative record of locked cells in the playfield; every stored
//! position is in bounds by construction.

use vstd::prelude::*;

verus! {

/// True when every cell of the row is occupied.
pub open spec fn row_full<T>(row: Seq<Option<T>>) -> bool {
    forall|c: int| 0 <= c < row.len() ==> (#[trigger] row[c]) is Some
}

/// True when every cell of the row is empty.
pub open spec fn row_empty<T>(row: Seq<Option<T>>) -> bool {
    forall|c: int| 0 <= c < row.len() ==> (#[trigger] row[c]) is None
}

/// A bounded grid of optional values, indexed by `(column, row)`.
pub struct GameTable<T> {
    columns: usize,
    rows: usize,
    data: Vec<Vec<Option<T>>>,
}

impl<T> View for GameTable<T> {
    type V = Seq<Seq<Option<T>>>;

    closed spec fn view(&self) -> Seq<Seq<Option<T>>> {
        self.data@.map_values(|r: Vec<Option<T>>| r@)
    }
}

impl<T> GameTable<T> {
    /// Number of columns of the table.
    pub closed spec fn spec_columns(&self) -> usize {
        self.columns
    }

    /// Number of rows of the table.
    pub closed spec fn spec_rows(&self) -> usize {
        self.rows
    }

    /// Shape invariant: the stored dimensions describe the data, and both fit
    /// in an `i32` so that positions can be queried with signed coordinates.
    pub open spec fn wf(&self) -> bool {
        &&& self@.len() == self.spec_rows()
        &&& forall|r: int| 0 <= r < self@.len() ==> (#[trigger] self@[r]).len() == self.spec_columns()
        &&& self.spec_columns() <= i32::MAX
        &&& self.spec_rows() <= i32::MAX
    }

    /// True when `(col, row)` lies inside the table.
    pub open spec fn spec_in_bounds(&self, col: int, row: int) -> bool {
        0 <= col < self.spec_columns() && 0 <= row < self.spec_rows()
    }

    /// The value stored at `(col, row)`.
    pub open spec fn cell(&self, col: int, row: int) -> Option<T>
        recommends
            self.spec_in_bounds(col, row),
    {
        self@[row][col]
    }

    /// True when `(col, row)` is in bounds and holds a value.
    pub open spec fn spec_has(&self, col: int, row: int) -> bool {
        self.spec_in_bounds(col, row) && self.cell(col, row) is Some
    }

    /// Create an empty table with the given dimensions.
    pub fn new(columns: usize, rows: usize) -> (table: Self)
        requires
            columns <= i32::MAX,
            rows <= i32::MAX,
        ensures
            table.wf(),
            table.spec_columns() == columns,
            table.spec_rows() == rows,
            forall|r: int| 0 <= r < rows ==> row_empty(#[trigger] table@[r]),
    {
        let mut data: Vec<Vec<Option<T>>> = Vec::new();
        let mut r: usize = 0;
        while r < rows
            invariant
                r <= rows,
                data@.len() == r,
                forall|i: int| 0 <= i < r ==> (#[trigger] data@[i])@.len() == columns,
                forall|i: int| 0 <= i < r ==> row_empty((#[trigger] data@[i])@),
            decreases rows - r,
        {
            data.push(empty_row(columns));
            r = r + 1;
        }
        Self { columns, rows, data }
    }

    /// Number of rows, as the callers see it.
    pub fn rows(&self) -> (r: usize)
        ensures
            r == self.spec_rows(),
    {
        self.rows
    }

    /// True when `(col, row)` lies inside the table.
    pub fn is_valid_position(&self, col: i32, row: i32) -> (r: bool)
        requires
            self.wf(),
        ensures
            r == self.spec_in_bounds(col as int, row as int),
    {
        col >= 0 && (col as usize) < self.columns && row >= 0 && (row as usize) < self.rows
    }

    /// The value at `(col, row)`, or `None` when the position is out of
    /// bounds or empty.
    pub fn get(&self, col: i32, row: i32) -> (r: Option<&T>)
        requires
            self.wf(),
        ensures
            r is Some <==> self.spec_has(col as int, row as int),
            r matches Some(v) ==> self.cell(col as int, row as int) == Some(*v),
    {
        if !self.is_valid_position(col, row) {
            return None;
        }
        self.data[row as usize][col as usize].as_ref()
    }

    /// Store `value` at `(col, row)` and return the previous value there.
    /// A position out of bounds is refused: the table is left unchanged and
    /// `None` comes back.
    pub fn set(&mut self, col: i32, row: i32, value: T) -> (prev: Option<T>)
        requires
            old(self).wf(),
        ensures
            final(self).wf(),
            final(self).spec_columns() == old(self).spec_columns(),
            final(self).spec_rows() == old(self).spec_rows(),
            old(self).spec_in_bounds(col as int, row as int) ==> {
                &&& final(self)@ == old(self)@.update(
                    row as int,
                    old(self)@[row as int].update(col as int, Some(value)),
                )
                &&& prev == old(self).cell(col as int, row as int)
            },
            !old(self).spec_in_bounds(col as int, row as int) ==> final(self)@ == old(self)@
                && prev is None,
    {
        if !self.is_valid_position(col, row) {
            return None;
        }
        let mut slot: Option<T> = Some(value);
        core::mem::swap(&mut slot, &mut self.data[row as usize][col as usize]);
        proof {
            assert(self@ =~= old(self)@.update(
                row as int,
                old(self)@[row as int].update(col as int, Some(value)),
            ));
        }
        slot
    }

    /// True when `(col, row)` is in bounds and occupied.
    pub fn has(&self, col: i32, row: i32) -> (r: bool)
        requires
            self.wf(),
        ensures
            r == self.spec_has(col as int, row as int),
    {
        if !self.is_valid_position(col, row) {
            return false;
        }
        proof {
            assert(self@[row as int].len() == self.spec_columns());
        }
        self.data[row as usize][col as usize].is_some()
    }
}

impl<T> GameTable<T> {
    /// Remove the value at `(col, row)` and return it.  A position out of
    /// bounds is refused: the table is left unchanged and `None` comes back.
    pub fn remove(&mut self, col: i32, row: i32) -> (prev: Option<T>)
        requires
            old(self).wf(),
        ensures
            final(self).wf(),
            final(self).spec_columns() == old(self).spec_columns(),
            final(self).spec_rows() == old(self).spec_rows(),
            old(self).spec_in_bounds(col as int, row as int) ==> {
                &&& final(self)@ == old(self)@.update(
                    row as int,
                    old(self)@[row as int].update(col as int, None),
                )
                &&& prev == old(self).cell(col as int, row as int)
            },
            !old(self).spec_in_bounds(col as int, row as int) ==> final(self)@ == old(self)@
                && prev is None,
    {
        if !self.is_valid_position(col, row) {
            return None;
        }
        let mut slot: Option<T> = None;
        core::mem::swap(&mut slot, &mut self.data[row as usize][col as usize]);
        proof {
            assert(self@ =~= old(self)@.update(
                row as int,
                old(self)@[row as int].update(col as int, None),
            ));
        }
        slot
    }

    /// Empty every cell; the dimensions stay.
    pub fn clear(&mut self)
        requires
            old(self).wf(),
        ensures
            final(self).wf(),
            final(self).spec_columns() == old(self).spec_columns(),
            final(self).spec_rows() == old(self).spec_rows(),
            forall|r: int|
                0 <= r < final(self)@.len() ==> row_empty(#[trigger] final(self)@[r]),
    {
        let mut r: usize = 0;
        let rows = self.data.len();
        while r < rows
            invariant
                self.wf(),
                r <= rows,
                rows == self.spec_rows(),
                self.spec_columns() == old(self).spec_columns(),
                self.spec_rows() == old(self).spec_rows(),
                forall|i: int| 0 <= i < r ==> row_empty(#[trigger] self@[i]),
            decreases rows - r,
        {
            let fresh = empty_row(self.columns);
            let ghost prev = self@;
            let ghost fresh_view = fresh@;
            self.data[r] = fresh;
            proof {
                assert(self@ =~= prev.update(r as int, fresh_view));
            }
            r = r + 1;
        }
    }

    /// Empty every cell of one row; positions out of bounds are refused.
    /// As in the position queries, a table with no columns refuses every row.
    pub fn clear_row(&mut self, row: i32)
        requires
            old(self).wf(),
        ensures
            final(self).wf(),
            final(self).spec_columns() == old(self).spec_columns(),
            final(self).spec_rows() == old(self).spec_rows(),
            old(self).spec_in_bounds(0, row as int) ==> {
                &&& final(self)@ == old(self)@.update(row as int, final(self)@[row as int])
                &&& row_empty(final(self)@[row as int])
            },
            !old(self).spec_in_bounds(0, row as int) ==> final(self)@ == old(self)@,
    {
        if self.is_valid_position(0, row) {
            let fresh = empty_row(self.columns);
            self.data[row as usize] = fresh;
            proof {
                assert(self@ =~= old(self)@.update(row as int, self@[row as int]));
            }
        }
    }

    /// True when `row` is a valid row of a table with at least one column and
    /// every one of its cells is occupied.
    pub fn is_row_full(&self, row: i32) -> (r: bool)
        requires
            self.wf(),
        ensures
            r == (self.spec_in_bounds(0, row as int) && row_full(self@[row as int])),
    {
        if !self.is_valid_position(0, row) {
            return false;
        }
        proof {
            assert(self@[row as int].len() == self.spec_columns());
        }
        let cells = &self.data[row as usize];
        let mut c: usize = 0;
        while c < cells.len()
            invariant
                self.wf(),
                0 <= row < self.spec_rows(),
                cells == &self.data[row as int],
                cells@ == self@[row as int],
                c <= cells@.len(),
                forall|i: int| 0 <= i < c ==> (#[trigger] cells@[i]) is Some,
            decreases cells@.len() - c,
        {
            if cells[c].is_none() {
                return false;
            }
            c = c + 1;
        }
        true
    }

    /// Empty `row`, then shift every row above it one step down, leaving a
    /// fresh empty row at the top.  Rows below `row` are untouched.  A row
    /// out of bounds (or a table with no columns) is refused.
    pub fn remove_row_and_shift_down(&mut self, row: i32) -> (r: bool)
        requires
            old(self).wf(),
        ensures
            final(self).wf(),
            final(self).spec_columns() == old(self).spec_columns(),
            final(self).spec_rows() == old(self).spec_rows(),
            r == old(self).spec_in_bounds(0, row as int),
            r ==> final(self)@ == shifted_down(old(self)@, row as int, old(self).spec_columns() as nat),
            !r ==> final(self)@ == old(self)@,
    {
        if !self.is_valid_position(0, row) {
            return false;
        }
        let removed = self.data.remove(row as usize);
        let fresh = empty_row(self.columns);
        self.data.insert(0, fresh);
        proof {
            assert(self@ =~~= shifted_down(old(self)@, row as int, old(self).spec_columns() as nat));
        }
        true
    }
}

impl<T: Copy> GameTable<T> {
    /// Every occupied cell as a `(col, row, value)` triple, rows in order and
    /// columns in order within each row.
    pub fn iter(&self) -> (result: Vec<(i32, i32, T)>)
        requires
            self.wf(),
        ensures
            result@ == table_triples(self@),
    {
        let mut result: Vec<(i32, i32, T)> = Vec::new();
        let mut r: usize = 0;
        let rows = self.data.len();
        while r < rows
            invariant
                self.wf(),
                r <= rows,
                rows == self.spec_rows(),
                result@ == table_triples(self@.subrange(0, r as int)),
            decreases rows - r,
        {
            proof {
                assert(self@[r as int].len() == self.spec_columns());
            }
            let cells = &self.data[r];
            let mut c: usize = 0;
            while c < cells.len()
                invariant
                    self.wf(),
                    r < self.spec_rows(),
                    cells == &self.data[r as int],
                    cells@ == self@[r as int],
                    c <= cells@.len(),
                    result@ == table_triples(self@.subrange(0, r as int)) + row_triples(
                        self@[r as int].subrange(0, c as int),
                        r as int,
                    ),
                decreases cells@.len() - c,
            {
                proof {
                    let prefix = self@[r as int].subrange(0, c as int + 1);
                    assert(prefix.drop_last() =~= self@[r as int].subrange(0, c as int));
                    assert(prefix.last() == self@[r as int][c as int]);
                }
                if let Some(v) = cells[c] {
                    result.push((c as i32, r as i32, v));
                }
                c = c + 1;
            }
            proof {
                assert(self@[r as int].subrange(0, self@[r as int].len() as int) =~= self@[r as int]);
                let prefix = self@.subrange(0, r as int + 1);
                assert(prefix.drop_last() =~= self@.subrange(0, r as int));
                assert(prefix.last() == self@[r as int]);
            }
            r = r + 1;
        }
        proof {
            assert(self@.subrange(0, self@.len() as int) =~= self@);
        }
        result
    }

    /// The occupied cells of one row as `(col, value)` pairs, columns in
    /// order.  A row out of bounds yields nothing.
    pub fn iter_row(&self, row: i32) -> (result: Vec<(i32, T)>)
        requires
            self.wf(),
        ensures
            0 <= row < self.spec_rows() ==> result@ == row_pairs(self@[row as int]),
            !(0 <= row < self.spec_rows()) ==> result@ == Seq::<(i32, T)>::empty(),
    {
        let mut result: Vec<(i32, T)> = Vec::new();
        if row < 0 || row as usize >= self.rows {
            return result;
        }
        proof {
            assert(self@[row as int].len() == self.spec_columns());
        }
        let cells = &self.data[row as usize];
        let mut c: usize = 0;
        while c < cells.len()
            invariant
                self.wf(),
                0 <= row < self.spec_rows(),
                cells == &self.data[row as int],
                cells@ == self@[row as int],
                c <= cells@.len(),
                result@ == row_pairs(self@[row as int].subrange(0, c as int)),
            decreases cells@.len() - c,
        {
            proof {
                let prefix = self@[row as int].subrange(0, c as int + 1);
                assert(prefix.drop_last() =~= self@[row as int].subrange(0, c as int));
                assert(prefix.last() == self@[row as int][c as int]);
            }
            if let Some(v) = cells[c] {
                result.push((c as i32, v));
            }
            c = c + 1;
        }
        proof {
            assert(self@[row as int].subrange(0, self@[row as int].len() as int) =~= self@[
                row as int
            ]);
        }
        result
    }
}

/// The occupied cells of one row, in column order, as `(col, row, value)`
/// triples for row index `y`.
pub open spec fn row_triples<T>(row: Seq<Option<T>>, y: int) -> Seq<(i32, i32, T)>
    decreases row.len(),
{
    if row.len() == 0 {
        Seq::empty()
    } else {
        row_triples(row.drop_last(), y) + match row.last() {
            Some(v) => seq![(((row.len() - 1) as i32), (y as i32), v)],
            None => Seq::empty(),
        }
    }
}

/// The occupied cells of one row, in column order, as `(col, value)` pairs.
pub open spec fn row_pairs<T>(row: Seq<Option<T>>) -> Seq<(i32, T)>
    decreases row.len(),
{
    if row.len() == 0 {
        Seq::empty()
    } else {
        row_pairs(row.drop_last()) + match row.last() {
            Some(v) => seq![(((row.len() - 1) as i32), v)],
            None => Seq::empty(),
        }
    }
}

/// Every occupied cell of the table, rows in order and columns in order
/// within each row.
pub open spec fn table_triples<T>(t: Seq<Seq<Option<T>>>) -> Seq<(i32, i32, T)>
    decreases t.len(),
{
    if t.len() == 0 {
        Seq::empty()
    } else {
        table_triples(t.drop_last()) + row_triples(t.last(), t.len() - 1)
    }
}

/// Every triple a row yields names a column inside the row and carries the
/// row index it was yielded for.
pub proof fn lemma_row_triples_bounds<T>(row: Seq<Option<T>>, y: int)
    requires
        row.len() <= i32::MAX,
        0 <= y <= i32::MAX,
    ensures
        forall|j: int|
            0 <= j < row_triples(row, y).len() ==> 0 <= (#[trigger] row_triples(row, y)[j]).0
                < row.len() && row_triples(row, y)[j].1 == y,
    decreases row.len(),
{
    if row.len() > 0 {
        lemma_row_triples_bounds(row.drop_last(), y);
        let prefix = row_triples(row.drop_last(), y);
        let whole = row_triples(row, y);
        assert forall|j: int|
            0 <= j < whole.len() implies 0 <= (#[trigger] whole[j]).0 < row.len() && whole[j].1
            == y by {
            if j < prefix.len() {
                assert(whole[j] == prefix[j]);
                assert(0 <= prefix[j].0 < row.drop_last().len());
            }
        }
    }
}

/// Every triple a table yields names a column and a row inside the table.
pub proof fn lemma_table_triples_bounds<T>(t: Seq<Seq<Option<T>>>, columns: nat)
    requires
        t.len() <= i32::MAX,
        columns <= i32::MAX,
        forall|r: int| 0 <= r < t.len() ==> (#[trigger] t[r]).len() == columns,
    ensures
        forall|j: int|
            0 <= j < table_triples(t).len() ==> 0 <= (#[trigger] table_triples(t)[j]).0 < columns
                && 0 <= table_triples(t)[j].1 < t.len(),
    decreases t.len(),
{
    if t.len() > 0 {
        lemma_table_triples_bounds(t.drop_last(), columns);
        lemma_row_triples_bounds(t.last(), t.len() - 1);
        let prefix = table_triples(t.drop_last());
        let last = row_triples(t.last(), t.len() - 1);
        let whole = table_triples(t);
        assert forall|j: int|
            0 <= j < whole.len() implies 0 <= (#[trigger] whole[j]).0 < columns && 0 <= whole[j].1
            < t.len() by {
            if j < prefix.len() {
                assert(whole[j] == prefix[j]);
                assert(0 <= prefix[j].1 < t.drop_last().len());
            } else {
                assert(whole[j] == last[j - prefix.len()]);
            }
        }
    }
}

/// The table after row `y` is removed and every row above it moves one step
/// down: a fresh empty row on top, then the rows that stood above `y`, then
/// the rows below `y` unchanged.
pub open spec fn shifted_down<T>(t: Seq<Seq<Option<T>>>, y: int, columns: nat) -> Seq<
    Seq<Option<T>>,
>
    recommends
        0 <= y < t.len(),
{
    seq![Seq::new(columns, |c: int| None::<T>)] + t.subrange(0, y) + t.subrange(
        y + 1,
        t.len() as int,
    )
}

/// A row of `columns` empty cells.
fn empty_row<T>(columns: usize) -> (row: Vec<Option<T>>)
    ensures
        row@.len() == columns,
        row_empty(row@),
{
    let mut row: Vec<Option<T>> = Vec::new();
    let mut c: usize = 0;
    while c < columns
        invariant
            c <= columns,
            row@.len() == c,
            row_empty(row@),
        decreases columns - c,
    {
        row.push(None);
        c = c + 1;
    }
    row
}

} // verus!
