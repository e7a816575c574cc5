use outlook_mapi::{PropTag, PropValueData, RawPropValue, Row, RowSet, SRow};
use std::cell::Cell;

#[test]
fn adopt_row_takes_ownership_once() {
    let mut raw = SRow { count: 2, props: 0x5000 };
    let mut row = Row::new(&mut raw);
    assert_eq!(row.len(), 2);
    assert!(!row.is_empty());
    assert_eq!(raw, SRow { count: 0, props: 0 });
    let mut again = Row::new(&mut raw);
    assert_eq!(again.len(), 0);
    assert!(again.is_empty());
    assert_eq!(again.release(), None);
    assert_eq!(row.release(), Some(0x5000));
    assert_eq!(row.release(), None);
    assert_eq!(row.len(), 0);
}

#[test]
fn row_with_null_records_is_empty() {
    let mut raw = SRow { count: 3, props: 0 };
    let row = Row::new(&mut raw);
    assert_eq!(row.len(), 3);
    assert!(row.is_empty());
    let called = Cell::new(false);
    let values = row.iter(|_, _| {
        called.set(true);
        RawPropValue { tag: 0, word: 0, pointer: 0 }
    });
    assert!(values.is_empty());
    assert!(!called.get());
}

#[test]
fn row_iter_decodes_each_record() {
    let mut raw = SRow { count: 2, props: 0x6000 };
    let row = Row::new(&mut raw);
    let records = [
        RawPropValue { tag: 0x0FFF_0102, word: 4, pointer: 0 },
        RawPropValue { tag: 0x3001_0003, word: 42, pointer: 0 },
    ];
    let values = row.iter(|address, i| {
        assert_eq!(address, 0x6000);
        records[i]
    });
    assert_eq!(values.len(), 2);
    assert_eq!(values[0].tag, PropTag(0x0FFF_0102));
    assert_eq!(values[0].value, PropValueData::Error(outlook_mapi::E_POINTER));
    assert_eq!(values[1].tag.prop_id(), 0x3001);
    assert_eq!(values[1].value, PropValueData::Long(42));
    let again = row.iter(|_, i| records[i]);
    assert_eq!(again, values);
}

#[test]
fn row_set_default_is_empty() {
    let mut rows = RowSet::default();
    assert_eq!(rows.len(), 0);
    assert!(rows.is_empty());
    assert!(rows.into_rows().is_empty());
    assert_eq!(rows.release(), None);
}

#[test]
fn row_set_hands_out_rows_and_outer_array() {
    let mut rows = RowSet::adopt(
        0x9000,
        vec![SRow { count: 2, props: 0x9100 }, SRow { count: 0, props: 0 }],
    );
    assert_eq!(rows.len(), 2);
    assert!(!rows.is_empty());
    let mut owned = rows.into_rows();
    assert_eq!(owned.len(), 2);
    assert_eq!(owned[0].len(), 2);
    assert!(owned[1].is_empty());
    assert_eq!(rows.len(), 2);
    let again = rows.into_rows();
    assert!(again.iter().all(|row| row.len() == 0 && row.is_empty()));
    assert_eq!(owned[0].release(), Some(0x9100));
    assert_eq!(owned[1].release(), None);
    assert_eq!(rows.release(), Some(0x9000));
    assert_eq!(rows.release(), None);
    assert_eq!(rows.len(), 0);
}

#[test]
fn row_set_out_param_and_null_outer_array() {
    let mut rows = RowSet::adopt(0, vec![SRow { count: 1, props: 0x100 }]);
    assert_eq!(rows.len(), 0);
    assert!(rows.is_empty());
    assert!(rows.into_rows().is_empty());
    *rows.as_mut_ptr() = 0x9000;
    assert_eq!(rows.address(), 0x9000);
    assert_eq!(rows.len(), 0);
    let mut rows = RowSet::adopt(rows.address(), vec![SRow { count: 1, props: 0x100 }]);
    assert_eq!(rows.len(), 1);
    let owned = rows.into_rows();
    assert_eq!(owned[0].len(), 1);
}
