//! Define [`RowSet`]: owned access to a producer-allocated array of rows.

use vstd::prelude::*;

use crate::row::{adopted, emptied, Row, SRow};

verus! {

/// What a [`RowSet`] owns: the outer array at `rows` (0 for none), holding `contents`.
pub struct RowSetModel {
    pub rows: usize,
    pub contents: Seq<SRow>,
}

/// The number of rows of a row set: none without an outer array.
pub open spec fn row_count(m: RowSetModel) -> nat {
    if m.rows == 0 {
        0
    } else {
        m.contents.len()
    }
}

/// The address that releasing a row set hands out to be freed: its outer array, if any.
pub open spec fn row_set_release(m: RowSetModel) -> Option<usize> {
    if m.rows != 0 {
        Some(m.rows)
    } else {
        None
    }
}

/// Owned outer array of a row set. Each row's records are adopted out of it one by one; the
/// outer array itself is released separately, by the row set.
pub struct RowSet {
    rows: usize,
    contents: Vec<SRow>,
}

impl View for RowSet {
    type V = RowSetModel;

    closed spec fn view(&self) -> RowSetModel {
        RowSetModel { rows: self.rows, contents: self.contents@ }
    }
}

impl Default for RowSet {
    /// A row set without an outer array.
    fn default() -> (r: Self)
        ensures
            r@.rows == 0,
            r@.contents.len() == 0,
    {
        RowSet { rows: 0, contents: Vec::new() }
    }
}

impl RowSet {
    /// Take ownership of the outer array at `rows`, which holds `contents`.
    pub fn adopt(rows: usize, contents: Vec<SRow>) -> (r: Self)
        ensures
            r@ == (RowSetModel { rows, contents: contents@ }),
    {
        RowSet { rows, contents }
    }

    /// The out-parameter that a MAPI call fills in with the address of a new outer array. The
    /// rows known so far are forgotten: a new array's rows are given with [`RowSet::adopt`].
    pub fn as_mut_ptr(&mut self) -> (r: &mut usize)
        ensures
            *r == old(self)@.rows,
            final(self)@ == (RowSetModel { rows: *final(r), contents: Seq::<SRow>::empty() }),
    {
        self.contents = Vec::new();
        &mut self.rows
    }

    /// The address of the outer array; 0 for none.
    pub fn address(&self) -> (r: usize)
        ensures
            r == self@.rows,
    {
        self.rows
    }

    /// Whether the row set has no rows.
    pub fn is_empty(&self) -> (r: bool)
        ensures
            r == (row_count(self@) == 0),
    {
        self.rows == 0 || self.contents.len() == 0
    }

    /// The number of rows; 0 without an outer array.
    pub fn len(&self) -> (r: usize)
        ensures
            r == row_count(self@),
    {
        if self.rows == 0 {
            0
        } else {
            self.contents.len()
        }
    }

    /// Adopt every row's records, in order, as an owned [`Row`]; each row of the set is left
    /// empty, so that releasing the outer array later frees none of them again.
    pub fn into_rows(&mut self) -> (r: Vec<Row>)
        ensures
            r@.len() == row_count(old(self)@),
            forall|i: int| 0 <= i < r@.len() ==> #[trigger] r@[i]@ == adopted(old(self)@.contents[i]),
            final(self)@.rows == old(self)@.rows,
            final(self)@.contents.len() == old(self)@.contents.len(),
            old(self)@.rows != 0 ==> forall|i: int|
                0 <= i < final(self)@.contents.len() ==> #[trigger] final(self)@.contents[i]
                    == emptied(),
            old(self)@.rows == 0 ==> final(self)@ == old(self)@,
    {
        let mut out: Vec<Row> = Vec::new();
        if self.rows == 0 {
            return out;
        }
        let n = self.contents.len();
        let mut i: usize = 0;
        while i < n
            invariant
                n == self.contents@.len() == old(self)@.contents.len(),
                self.rows == old(self)@.rows,
                self.rows != 0,
                i <= n,
                out@.len() == i,
                forall|j: int| 0 <= j < i ==> #[trigger] out@[j]@ == adopted(old(self)@.contents[j]),
                forall|j: int| 0 <= j < i ==> #[trigger] self.contents@[j] == emptied(),
                forall|j: int| i <= j < n ==> #[trigger] self.contents@[j] == old(self)@.contents[j],
            decreases n - i,
        {
            let mut raw = self.contents[i];
            let row = Row::new(&mut raw);
            self.contents.set(i, raw);
            out.push(row);
            i = i + 1;
        }
        out
    }

    /// Give up the outer array: its address is handed out, once, to be passed to
    /// `FreeProws`, and the row set is left without one.
    pub fn release(&mut self) -> (r: Option<usize>)
        ensures
            r == row_set_release(old(self)@),
            final(self)@.rows == 0,
            final(self)@.contents == old(self)@.contents,
    {
        let rows = self.rows;
        self.rows = 0;
        if rows != 0 {
            Some(rows)
        } else {
            None
        }
    }
}

} // verus!
