use outlook_mapi::{
    cb_new_adr_list, cb_new_entry_id, cb_new_s_prop_problem_array, cb_new_s_prop_tag_array,
    cb_new_s_row_set, cb_new_s_sort_order_set, MAPIBuffer,
};
use std::mem;

#[allow(dead_code)]
struct EntryId {
    ab_flags: [u8; 4],
    ab: [u8; 1],
}

#[allow(dead_code)]
struct PropTagArray {
    c_values: u32,
    aul_prop_tag: [u32; 1],
}

#[allow(dead_code)]
struct PropProblem {
    ul_index: u32,
    ul_prop_tag: u32,
    scode: i32,
}

#[allow(dead_code)]
struct PropProblemArray {
    c_problem: u32,
    a_problem: [PropProblem; 1],
}

#[allow(dead_code)]
struct PointerEntry {
    ul_reserved: u32,
    c_values: u32,
    values: usize,
}

#[allow(dead_code)]
struct AdrList {
    c_entries: u32,
    a_entries: [PointerEntry; 1],
}

#[allow(dead_code)]
struct RowSet {
    c_rows: u32,
    a_row: [PointerEntry; 1],
}

#[allow(dead_code)]
struct SortOrder {
    ul_prop_tag: u32,
    ul_order: u32,
}

#[allow(dead_code)]
struct SortOrderSet {
    c_sorts: u32,
    c_categories: u32,
    c_expanded: u32,
    a_sort: [SortOrder; 1],
}

#[test]
fn sized_entry_id_1() {
    assert_eq!(cb_new_entry_id(1), mem::size_of::<EntryId>());
}

#[test]
fn sized_prop_tag_array_1() {
    assert_eq!(cb_new_s_prop_tag_array(1), mem::size_of::<PropTagArray>());
}

#[test]
fn sized_prop_problem_array_1() {
    assert_eq!(
        cb_new_s_prop_problem_array(1),
        mem::size_of::<PropProblemArray>()
    );
}

#[test]
fn sized_adr_list_1() {
    assert_eq!(cb_new_adr_list(1), mem::size_of::<AdrList>());
}

#[test]
fn sized_row_set_1() {
    assert_eq!(cb_new_s_row_set(1), mem::size_of::<RowSet>());
}

#[test]
fn sized_sort_order_set_1() {
    assert_eq!(cb_new_s_sort_order_set(1), mem::size_of::<SortOrderSet>());
}

#[test]
fn sized_values_for_several_counts() {
    assert_eq!(cb_new_entry_id(0), 4);
    assert_eq!(cb_new_entry_id(12), 16);
    assert_eq!(cb_new_s_prop_tag_array(2), 12);
    assert_eq!(cb_new_s_prop_problem_array(3), 40);
    assert_eq!(cb_new_s_sort_order_set(2), 28);
    let p = mem::size_of::<usize>();
    assert_eq!(cb_new_adr_list(3), p + 3 * (8 + p));
    assert_eq!(cb_new_s_row_set(0), p);
}

#[test]
fn sized_buffer_converts_to_its_type() {
    let mut bytes = MAPIBuffer::<u8>::new(cb_new_s_prop_tag_array(1), |_| (0, 0x1000))
        .expect("new failed");
    assert!(bytes.uninit_slice(8).is_ok());
    let mut tags = bytes.into::<PropTagArray>().ok().expect("into failed");
    assert!(tags.uninit().is_ok());
    assert!(tags.uninit_slice(2).is_err());
}
