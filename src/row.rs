//! Define [`Row`]: owned access to a producer-allocated array of property records.

use vstd::prelude::*;

use crate::prop_value::{decode, PropValue, RawPropValue};

verus! {

/// An `SRow` as the producer hands it over: the number of records and the address of the
/// record array (0 for none).
#[derive(Clone, Copy, Debug, PartialEq, Eq, Structural)]
pub struct SRow {
    pub count: u32,
    pub props: usize,
}

/// What a [`Row`] owns: `count` records at `props`.
pub struct RowModel {
    pub count: usize,
    pub props: usize,
}

/// The row that adopting `raw` makes.
pub open spec fn adopted(raw: SRow) -> RowModel {
    RowModel { count: raw.count as usize, props: raw.props }
}

/// An `SRow` that owns nothing.
pub open spec fn emptied() -> SRow {
    SRow { count: 0, props: 0 }
}

/// The address that releasing a row hands out to be freed: its record array, if any.
pub open spec fn row_release(m: RowModel) -> Option<usize> {
    if m.props != 0 {
        Some(m.props)
    } else {
        None
    }
}

/// `value` is the decoding of what `read` returns for the `i`-th record at `props`.
pub open spec fn read_decodes<F: Fn(usize, usize) -> RawPropValue>(
    read: F,
    props: usize,
    i: usize,
    value: PropValue,
) -> bool {
    exists|raw: RawPropValue| #[trigger] read.ensures((props, i), raw) && value == decode(raw)
}

/// The records of a row, as a sequence decoded from what `read` returns for each index.
pub open spec fn decoded_by<F: Fn(usize, usize) -> RawPropValue>(
    read: F,
    props: usize,
    values: Seq<PropValue>,
) -> bool {
    forall|j: int|
        0 <= j < values.len() ==> #[trigger] read_decodes(read, props, j as usize, values[j])
}

/// Owned record array of a row. The producer's `SRow` is emptied when it is adopted, so the
/// array is released in exactly one place.
pub struct Row {
    count: usize,
    props: usize,
}

impl View for Row {
    type V = RowModel;

    closed spec fn view(&self) -> RowModel {
        RowModel { count: self.count, props: self.props }
    }
}

impl Row {
    /// Take ownership of the records of `row`, leaving it empty.
    pub fn new(row: &mut SRow) -> (r: Self)
        ensures
            r@ == adopted(*old(row)),
            *final(row) == emptied(),
    {
        let count = row.count as usize;
        let props = row.props;
        row.count = 0;
        row.props = 0;
        Row { count, props }
    }

    /// Whether the row has no records to give.
    pub fn is_empty(&self) -> (r: bool)
        ensures
            r == (self@.count == 0 || self@.props == 0),
    {
        self.count == 0 || self.props == 0
    }

    /// The number of records of the row.
    pub fn len(&self) -> (r: usize)
        ensures
            r == self@.count,
    {
        self.count
    }

    /// Decode the records of the row, in order. `read(address, i)` reads the `i`-th record of
    /// the array at `address`; it is not called when the row has no array.
    pub fn iter<F: Fn(usize, usize) -> RawPropValue>(&self, read: F) -> (r: Vec<PropValue>)
        requires
            forall|a: usize, i: usize| read.requires((a, i)),
        ensures
            self@.props == 0 ==> r@.len() == 0,
            self@.props != 0 ==> r@.len() == self@.count,
            decoded_by(read, self@.props, r@),
    {
        let mut out: Vec<PropValue> = Vec::new();
        if self.props == 0 {
            return out;
        }
        let mut i: usize = 0;
        while i < self.count
            invariant
                forall|a: usize, k: usize| read.requires((a, k)),
                i <= self.count,
                out@.len() == i,
                decoded_by(read, self.props, out@),
            decreases self.count - i,
        {
            let raw = read(self.props, i);
            let value = PropValue::from(&raw);
            let ghost old_out = out@;
            out.push(value);
            assert(read_decodes(read, self.props, i, value));
            assert forall|j: int| 0 <= j < out@.len() implies #[trigger] read_decodes(
                read,
                self.props,
                j as usize,
                out@[j],
            ) by {
                if j < i {
                    assert(out@[j] == old_out[j]);
                }
            }
            i = i + 1;
        }
        out
    }

    /// Give up the record array: its address is handed out, once, to be passed to
    /// `MAPIFreeBuffer`, and the row is left empty.
    pub fn release(&mut self) -> (r: Option<usize>)
        ensures
            r == row_release(old(self)@),
            final(self)@ == adopted(emptied()),
    {
        let props = self.props;
        self.count = 0;
        self.props = 0;
        if props != 0 {
            Some(props)
        } else {
            None
        }
    }
}

/// Adopting a row takes its count and records, and a second adoption of the emptied source
/// gives a row with no records that frees nothing.
pub proof fn lemma_adopt_once(raw: SRow)
    ensures
        adopted(raw).count == raw.count,
        raw.props != 0 ==> row_release(adopted(raw)) == Some(raw.props),
        adopted(emptied()).count == 0,
        row_release(adopted(emptied())) is None,
{
}

} // verus!
