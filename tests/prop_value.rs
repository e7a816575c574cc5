use outlook_mapi::{
    check_win32, FileTime, PropTag, PropValue, PropValueData, RawArray, RawPropValue,
    E_INVALIDARG, E_POINTER,
};

fn decode(tag: u32, word: u64, pointer: usize) -> PropValueData {
    PropValue::from(&RawPropValue { tag, word, pointer }).value
}

#[test]
fn prop_tag_parts() {
    let tag = PropTag::new(0x3001, 0x001F);
    assert_eq!(tag.0, 0x3001_001F);
    assert_eq!(tag.prop_id(), 0x3001);
    assert_eq!(tag.prop_type(), 0x001F);
    let tag = PropTag::from(0xFFFF_0102u32);
    assert_eq!(tag.prop_id(), 0xFFFF);
    assert_eq!(tag.prop_type(), 0x0102);
    assert_eq!(u32::from(PropTag::new(0xFFFF, 0xFFFF)), 0xFFFF_FFFF);
    assert_eq!(u32::from(PropTag::new(0, 0)), 0);
}

#[test]
fn binary_with_null_pointer_is_pointer_error() {
    assert_eq!(decode(0x0FFF_0102, 16, 0), PropValueData::Error(E_POINTER));
    assert_eq!(E_POINTER, 0x8000_4003u32 as i32);
}

#[test]
fn binary_with_pointer_is_counted_array() {
    let value = PropValue::from(&RawPropValue { tag: 0x0FFF_0102, word: 16, pointer: 0x8000 });
    assert_eq!(value.tag, PropTag(0x0FFF_0102));
    assert_eq!(value.value, PropValueData::Binary(RawArray { address: 0x8000, count: 16 }));
}

#[test]
fn scalars_read_their_union_member() {
    assert_eq!(decode(0x0001_0002, 0xFFFF_FFFF_FFFF_FFFF, 0), PropValueData::Short(-1));
    assert_eq!(decode(0x0001_0003, 0x1_0000_0007, 0), PropValueData::Long(7));
    assert_eq!(decode(0x0001_000B, 1, 0), PropValueData::Boolean(1));
    assert_eq!(decode(0x0001_0014, u64::MAX, 0), PropValueData::LargeInteger(-1));
    assert_eq!(decode(0x0001_0006, 12345, 0), PropValueData::Currency(12345));
    assert_eq!(decode(0x0001_0103, 0x55AA, 0), PropValueData::Pointer(0x55AA));
    assert_eq!(
        decode(0x0001_0004, 1.5f32.to_bits() as u64, 0),
        PropValueData::Float(1.5f32.to_bits())
    );
    assert_eq!(
        decode(0x0001_0005, 2.25f64.to_bits(), 0),
        PropValueData::Double(2.25f64.to_bits())
    );
    assert_eq!(decode(0x0001_0007, 3, 0), PropValueData::AppTime(3));
    assert_eq!(
        decode(0x0001_0040, 0x0000_0002_0000_0001, 0),
        PropValueData::FileTime(FileTime { low: 1, high: 2 })
    );
}

#[test]
fn strings_and_guids_check_for_null() {
    assert_eq!(decode(0x0037_001E, 0, 0), PropValueData::Error(E_POINTER));
    assert_eq!(decode(0x0037_001E, 0x9000, 0), PropValueData::AnsiString(0x9000));
    assert_eq!(decode(0x0037_001F, 0, 0), PropValueData::Error(E_POINTER));
    assert_eq!(decode(0x0037_001F, 0x9000, 0), PropValueData::Unicode(0x9000));
    assert_eq!(decode(0x0037_0048, 0, 0), PropValueData::Error(E_POINTER));
    assert_eq!(decode(0x0037_0048, 0x9000, 0), PropValueData::Guid(0x9000));
}

#[test]
fn multi_valued_arrays_check_for_null() {
    let arr = RawArray { address: 0xA000, count: 3 };
    let cases: [(u32, PropValueData); 12] = [
        (0x1002, PropValueData::ShortArray(arr)),
        (0x1003, PropValueData::LongArray(arr)),
        (0x1004, PropValueData::FloatArray(arr)),
        (0x1005, PropValueData::DoubleArray(arr)),
        (0x1006, PropValueData::CurrencyArray(arr)),
        (0x1007, PropValueData::AppTimeArray(arr)),
        (0x1040, PropValueData::FileTimeArray(arr)),
        (0x1102, PropValueData::BinaryArray(arr)),
        (0x101E, PropValueData::AnsiStringArray(arr)),
        (0x101F, PropValueData::UnicodeArray(arr)),
        (0x1048, PropValueData::GuidArray(arr)),
        (0x1014, PropValueData::LargeIntegerArray(arr)),
    ];
    for (kind, expected) in cases {
        assert_eq!(decode(0x0100_0000 | kind, 0xFFFF_FFFF_0000_0003, 0xA000), expected);
        assert_eq!(decode(0x0100_0000 | kind, 3, 0), PropValueData::Error(E_POINTER));
    }
}

#[test]
fn instance_flag_is_ignored() {
    assert_eq!(
        decode(0x0100_3003, 2, 0xB000),
        decode(0x0100_1003, 2, 0xB000)
    );
    assert_eq!(decode(0x0100_2003, 9, 0), PropValueData::Long(9));
}

#[test]
fn errors_objects_and_unknown_codes() {
    assert_eq!(decode(0x0001_000A, 0x8004_010F, 0), PropValueData::Error(0x8004_010Fu32 as i32));
    assert_eq!(decode(0x0001_0001, 4, 0), PropValueData::Object(4));
    assert_eq!(decode(0x0001_000D, 5, 0), PropValueData::Object(5));
    assert_eq!(decode(0x0001_0000, 5, 0), PropValueData::Error(E_INVALIDARG));
    assert_eq!(decode(0x0001_FFFF, 5, 0x1000), PropValueData::Error(E_INVALIDARG));
    assert_eq!(E_INVALIDARG, 0x8007_0057u32 as i32);
}

#[test]
fn win32_status_becomes_hresult() {
    assert_eq!(check_win32(0), Ok(()));
    assert_eq!(check_win32(5), Err(0x8007_0005u32 as i32));
    assert_eq!(check_win32(0x1_0005), Err(0x8007_0005u32 as i32));
    assert_eq!(check_win32(0x8004_0005), Err(0x8004_0005u32 as i32));
}
