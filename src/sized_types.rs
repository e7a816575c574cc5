//! Byte sizes of MAPI's variable-length structures, for allocating them with room for a given
//! number of trailing elements (MAPI's `CbNewXXX` sizes). An allocation of that many bytes
//! can be made as a `MAPIBuffer<u8>` and converted to the structure's type with `into`.
//!
//! Elements that hold a pointer are as wide as a pointer on the target, and the trailing
//! array of such elements starts at a pointer-aligned offset.

use vstd::layout::size_of;
use vstd::prelude::*;

verus! {

broadcast use vstd::layout::layout_of_primitives;

/// Bytes in a pointer on the target.
pub open spec fn pointer_bytes() -> nat {
    size_of::<usize>()
}

/// Size of an `ENTRYID` with `count` bytes of identifier: 4 flag bytes, then the bytes.
pub open spec fn entry_id_size(count: nat) -> nat {
    4 + count
}

/// Size of an `SPropTagArray` with `count` tags: a `u32` count, then `u32` tags.
pub open spec fn prop_tag_array_size(count: nat) -> nat {
    4 + 4 * count
}

/// Size of an `SPropProblemArray` with `count` problems: a `u32` count, then problems of
/// three 32-bit fields.
pub open spec fn prop_problem_array_size(count: nat) -> nat {
    4 + 12 * count
}

/// Size of an `ADRLIST` or an `SRowSet` with `count` entries: a `u32` count padded to a
/// pointer, then entries of two `u32` fields and a pointer.
pub open spec fn pointer_entry_list_size(count: nat) -> nat {
    pointer_bytes() + (8 + pointer_bytes()) * count
}

/// Size of an `SSortOrderSet` with `count` sort orders: three `u32` counts, then sort orders
/// of two `u32` fields.
pub open spec fn sort_order_set_size(count: nat) -> nat {
    12 + 8 * count
}

fn pointer_size() -> (r: usize)
    ensures
        r == pointer_bytes(),
        r == 4 || r == 8,
{
    let r = core::mem::size_of::<usize>();
    assert(usize::BITS == 32 || usize::BITS == 64);
    r
}

/// `CbNewENTRYID`: bytes for an `ENTRYID` with `count` identifier bytes.
pub fn cb_new_entry_id(count: usize) -> (r: usize)
    requires
        entry_id_size(count as nat) <= usize::MAX,
    ensures
        r == entry_id_size(count as nat),
{
    4 + count
}

/// `CbNewSPropTagArray`: bytes for an `SPropTagArray` with `count` tags.
pub fn cb_new_s_prop_tag_array(count: usize) -> (r: usize)
    requires
        prop_tag_array_size(count as nat) <= usize::MAX,
    ensures
        r == prop_tag_array_size(count as nat),
{
    4 + 4 * count
}

/// `CbNewSPropProblemArray`: bytes for an `SPropProblemArray` with `count` problems.
pub fn cb_new_s_prop_problem_array(count: usize) -> (r: usize)
    requires
        prop_problem_array_size(count as nat) <= usize::MAX,
    ensures
        r == prop_problem_array_size(count as nat),
{
    4 + 12 * count
}

/// `CbNewADRLIST`: bytes for an `ADRLIST` with `count` address entries.
pub fn cb_new_adr_list(count: usize) -> (r: usize)
    requires
        pointer_entry_list_size(count as nat) <= usize::MAX,
    ensures
        r == pointer_entry_list_size(count as nat),
{
    let p = pointer_size();
    assert(p + (8 + p) * count <= usize::MAX);
    p + (8 + p) * count
}

/// `CbNewSRowSet`: bytes for an `SRowSet` with `count` rows.
pub fn cb_new_s_row_set(count: usize) -> (r: usize)
    requires
        pointer_entry_list_size(count as nat) <= usize::MAX,
    ensures
        r == pointer_entry_list_size(count as nat),
{
    cb_new_adr_list(count)
}

/// `CbNewSSortOrderSet`: bytes for an `SSortOrderSet` with `count` sort orders.
pub fn cb_new_s_sort_order_set(count: usize) -> (r: usize)
    requires
        sort_order_set_size(count as nat) <= usize::MAX,
    ensures
        r == sort_order_set_size(count as nat),
{
    12 + 8 * count
}

} // verus!
