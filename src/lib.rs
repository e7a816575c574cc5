//! Safe wrappers for Outlook MAPI memory and property values.
//!
//! The arena in [`mapi_ptr`] tracks the sizing rules, the initialization state machine and the
//! single free of an allocation tree; the decoder in [`prop_value`] turns a tagged record into
//! a variant; [`row`] and [`row_set`] hand out exactly-once ownership of rows.

pub mod hresult;
pub mod mapi_initialize;
pub mod mapi_logon;
pub mod mapi_ptr;
pub mod prop_tag;
pub mod prop_value;
pub mod row;
pub mod row_set;
pub mod sized_types;

pub use hresult::{check_win32, E_INVALIDARG, E_OUTOFMEMORY, E_POINTER};
pub use mapi_initialize::Flags as InitializeFlags;
pub use mapi_logon::Flags as LogonFlags;
pub use mapi_ptr::{BufferView, MAPIAllocError, MAPIBuffer, MAPIOutParam, NodeModel};
pub use prop_tag::PropTag;
pub use prop_value::{FileTime, PropValue, PropValueData, RawArray, RawPropValue};
pub use row::{Row, SRow};
pub use row_set::RowSet;
pub use sized_types::{
    cb_new_adr_list, cb_new_entry_id, cb_new_s_prop_problem_array, cb_new_s_prop_tag_array,
    cb_new_s_row_set, cb_new_s_sort_order_set,
};
