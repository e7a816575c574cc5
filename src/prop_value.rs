//! Define [`PropValue`] and [`PropValueData`]: the decoding of a tagged property record,
//! whose type code says which member of its payload union is valid.

use vstd::prelude::*;

use crate::hresult::{E_INVALIDARG, E_POINTER};
use crate::prop_tag::PropTag;

verus! {

/// Flag bit of a type code that marks one instance of a multi-valued property.
pub const MV_INSTANCE: u32 = 0x2000;

/// Flag bit of a type code that marks a multi-valued property.
pub const MV_FLAG: u32 = 0x1000;

pub const PT_NULL: u32 = 1;
pub const PT_SHORT: u32 = 2;
pub const PT_LONG: u32 = 3;
pub const PT_FLOAT: u32 = 4;
pub const PT_DOUBLE: u32 = 5;
pub const PT_CURRENCY: u32 = 6;
pub const PT_APPTIME: u32 = 7;
pub const PT_ERROR: u32 = 10;
pub const PT_BOOLEAN: u32 = 11;
pub const PT_OBJECT: u32 = 13;
pub const PT_LONGLONG: u32 = 20;
pub const PT_STRING8: u32 = 30;
pub const PT_UNICODE: u32 = 31;
pub const PT_SYSTIME: u32 = 64;
pub const PT_CLSID: u32 = 72;
pub const PT_BINARY: u32 = 258;
pub const PT_PTR: u32 = 259;
pub const PT_MV_SHORT: u32 = 0x1002;
pub const PT_MV_LONG: u32 = 0x1003;
pub const PT_MV_FLOAT: u32 = 0x1004;
pub const PT_MV_DOUBLE: u32 = 0x1005;
pub const PT_MV_CURRENCY: u32 = 0x1006;
pub const PT_MV_APPTIME: u32 = 0x1007;
pub const PT_MV_LONGLONG: u32 = 0x1014;
pub const PT_MV_STRING8: u32 = 0x101E;
pub const PT_MV_UNICODE: u32 = 0x101F;
pub const PT_MV_SYSTIME: u32 = 0x1040;
pub const PT_MV_CLSID: u32 = 0x1048;
pub const PT_MV_BINARY: u32 = 0x1102;

/// An `SPropValue` record as it lies in memory on a 64-bit target: the tag, then the 16 bytes
/// of the payload union. `word` holds the first 8 bytes (every scalar member, every single
/// pointer, and in its low 32 bits the count of a counted array); `pointer` holds the next 8
/// bytes, the pointer of a counted array (`SBinary` and the `SxxxArray` members). On a 32-bit
/// target that pointer sits at offset 4 of the union instead, and this layout does not apply.
#[derive(Clone, Copy, Debug, PartialEq, Eq, Structural)]
pub struct RawPropValue {
    pub tag: u32,
    pub word: u64,
    pub pointer: usize,
}

/// A counted array owned by the record's producer: `count` elements at `address`, which is
/// never null.
#[derive(Clone, Copy, Debug, PartialEq, Eq, Structural)]
pub struct RawArray {
    pub address: usize,
    pub count: usize,
}

/// The two halves of a `FILETIME`.
#[derive(Clone, Copy, Debug, PartialEq, Eq, Structural)]
pub struct FileTime {
    pub low: u32,
    pub high: u32,
}

/// The valid member of a record's payload union. Floating-point members are given by their
/// IEEE-754 bits; strings, GUIDs and arrays by the address of the producer's data.
#[derive(Clone, Copy, Debug, PartialEq, Eq, Structural)]
pub enum PropValueData {
    /// `PT_I2` or `PT_SHORT`
    Short(i16),
    /// `PT_I4` or `PT_LONG`
    Long(i32),
    /// `PT_PTR` or `PT_FILE_HANDLE`
    Pointer(usize),
    /// `PT_R4` or `PT_FLOAT`, as the bits of an `f32`
    Float(u32),
    /// `PT_R8` or `PT_DOUBLE`, as the bits of an `f64`
    Double(u64),
    /// `PT_BOOLEAN`
    Boolean(u16),
    /// `PT_CURRENCY`
    Currency(i64),
    /// `PT_APPTIME`, as the bits of an `f64`
    AppTime(u64),
    /// `PT_SYSTIME`
    FileTime(FileTime),
    /// `PT_STRING8`: address of a null-terminated 8-bit string
    AnsiString(usize),
    /// `PT_BINARY`
    Binary(RawArray),
    /// `PT_UNICODE`: address of a null-terminated UTF-16 string
    Unicode(usize),
    /// `PT_CLSID`: address of a GUID
    Guid(usize),
    /// `PT_I8` or `PT_LONGLONG`
    LargeInteger(i64),
    /// `PT_MV_SHORT`
    ShortArray(RawArray),
    /// `PT_MV_LONG`
    LongArray(RawArray),
    /// `PT_MV_FLOAT`
    FloatArray(RawArray),
    /// `PT_MV_DOUBLE`
    DoubleArray(RawArray),
    /// `PT_MV_CURRENCY`
    CurrencyArray(RawArray),
    /// `PT_MV_APPTIME`
    AppTimeArray(RawArray),
    /// `PT_MV_SYSTIME`
    FileTimeArray(RawArray),
    /// `PT_MV_BINARY`
    BinaryArray(RawArray),
    /// `PT_MV_STRING8`
    AnsiStringArray(RawArray),
    /// `PT_MV_UNICODE`
    UnicodeArray(RawArray),
    /// `PT_MV_CLSID`
    GuidArray(RawArray),
    /// `PT_MV_LONGLONG`
    LargeIntegerArray(RawArray),
    /// `PT_ERROR`, or a record that could not be decoded: `E_POINTER` for a null pointer,
    /// `E_INVALIDARG` for an unknown type code
    Error(i32),
    /// `PT_NULL` or `PT_OBJECT`
    Object(i32),
}

/// A decoded record: its tag and the valid member of its payload.
#[derive(Clone, Copy, Debug, PartialEq, Eq, Structural)]
pub struct PropValue {
    pub tag: PropTag,
    pub value: PropValueData,
}

/// The type code that selects the payload member: the tag's type half without the
/// `MV_INSTANCE` bit.
pub open spec fn base_type(tag: u32) -> u32 {
    let t = tag % 0x10000;
    if (t / 0x2000) % 2 == 1 {
        (t - 0x2000) as u32
    } else {
        t
    }
}

/// The counted array of a record.
pub open spec fn counted(v: RawPropValue) -> RawArray {
    RawArray { address: v.pointer, count: v.word as u32 as usize }
}

/// The payload member that a record's type code selects.
pub open spec fn decode_data(v: RawPropValue) -> PropValueData {
    let t = base_type(v.tag);
    if t == PT_SHORT {
        PropValueData::Short(v.word as i16)
    } else if t == PT_LONG {
        PropValueData::Long(v.word as i32)
    } else if t == PT_PTR {
        PropValueData::Pointer(v.word as usize)
    } else if t == PT_FLOAT {
        PropValueData::Float(v.word as u32)
    } else if t == PT_DOUBLE {
        PropValueData::Double(v.word)
    } else if t == PT_BOOLEAN {
        PropValueData::Boolean(v.word as u16)
    } else if t == PT_CURRENCY {
        PropValueData::Currency(v.word as i64)
    } else if t == PT_APPTIME {
        PropValueData::AppTime(v.word)
    } else if t == PT_SYSTIME {
        PropValueData::FileTime(FileTime { low: v.word as u32, high: (v.word / 0x1_0000_0000u64) as u32 })
    } else if t == PT_STRING8 {
        if v.word as usize == 0 { PropValueData::Error(E_POINTER) } else { PropValueData::AnsiString(v.word as usize) }
    } else if t == PT_BINARY {
        if v.pointer == 0 { PropValueData::Error(E_POINTER) } else { PropValueData::Binary(counted(v)) }
    } else if t == PT_UNICODE {
        if v.word as usize == 0 { PropValueData::Error(E_POINTER) } else { PropValueData::Unicode(v.word as usize) }
    } else if t == PT_CLSID {
        if v.word as usize == 0 { PropValueData::Error(E_POINTER) } else { PropValueData::Guid(v.word as usize) }
    } else if t == PT_LONGLONG {
        PropValueData::LargeInteger(v.word as i64)
    } else if t == PT_MV_SHORT {
        if v.pointer == 0 { PropValueData::Error(E_POINTER) } else { PropValueData::ShortArray(counted(v)) }
    } else if t == PT_MV_LONG {
        if v.pointer == 0 { PropValueData::Error(E_POINTER) } else { PropValueData::LongArray(counted(v)) }
    } else if t == PT_MV_FLOAT {
        if v.pointer == 0 { PropValueData::Error(E_POINTER) } else { PropValueData::FloatArray(counted(v)) }
    } else if t == PT_MV_DOUBLE {
        if v.pointer == 0 { PropValueData::Error(E_POINTER) } else { PropValueData::DoubleArray(counted(v)) }
    } else if t == PT_MV_CURRENCY {
        if v.pointer == 0 { PropValueData::Error(E_POINTER) } else { PropValueData::CurrencyArray(counted(v)) }
    } else if t == PT_MV_APPTIME {
        if v.pointer == 0 { PropValueData::Error(E_POINTER) } else { PropValueData::AppTimeArray(counted(v)) }
    } else if t == PT_MV_SYSTIME {
        if v.pointer == 0 { PropValueData::Error(E_POINTER) } else { PropValueData::FileTimeArray(counted(v)) }
    } else if t == PT_MV_BINARY {
        if v.pointer == 0 { PropValueData::Error(E_POINTER) } else { PropValueData::BinaryArray(counted(v)) }
    } else if t == PT_MV_STRING8 {
        if v.pointer == 0 { PropValueData::Error(E_POINTER) } else { PropValueData::AnsiStringArray(counted(v)) }
    } else if t == PT_MV_UNICODE {
        if v.pointer == 0 { PropValueData::Error(E_POINTER) } else { PropValueData::UnicodeArray(counted(v)) }
    } else if t == PT_MV_CLSID {
        if v.pointer == 0 { PropValueData::Error(E_POINTER) } else { PropValueData::GuidArray(counted(v)) }
    } else if t == PT_MV_LONGLONG {
        if v.pointer == 0 { PropValueData::Error(E_POINTER) } else { PropValueData::LargeIntegerArray(counted(v)) }
    } else if t == PT_ERROR {
        PropValueData::Error(v.word as i32)
    } else if t == PT_NULL || t == PT_OBJECT {
        PropValueData::Object(v.word as i32)
    } else {
        PropValueData::Error(E_INVALIDARG)
    }
}

/// The decoding of a record.
pub open spec fn decode(v: RawPropValue) -> PropValue {
    PropValue { tag: PropTag(v.tag), value: decode_data(v) }
}

fn counted_array(value: &RawPropValue) -> (r: RawArray)
    ensures
        r == counted(*value),
{
    RawArray { address: value.pointer, count: value.word as u32 as usize }
}

impl<'a> From<&'a RawPropValue> for PropValue {
    /// Decode a record. Every record decodes: a null pointer gives `Error(E_POINTER)` and an
    /// unknown type code `Error(E_INVALIDARG)`.
    fn from(value: &'a RawPropValue) -> (r: Self)
        ensures
            r == decode(*value),
    {
        let tag = PropTag::from(value.tag);
        let kind = tag.prop_type() as u32;
        let t = kind & !MV_INSTANCE;
        assert(t == if (kind / 0x2000) % 2 == 1 { (kind - 0x2000) as u32 } else { kind })
            by (bit_vector)
            requires
                t == kind & !0x2000u32,
                kind < 0x10000,
        ;
        let data = 
        if t == PT_SHORT {
            PropValueData::Short(value.word as i16)
        } else if t == PT_LONG {
            PropValueData::Long(value.word as i32)
        } else if t == PT_PTR {
            PropValueData::Pointer(value.word as usize)
        } else if t == PT_FLOAT {
            PropValueData::Float(value.word as u32)
        } else if t == PT_DOUBLE {
            PropValueData::Double(value.word)
        } else if t == PT_BOOLEAN {
            PropValueData::Boolean(value.word as u16)
        } else if t == PT_CURRENCY {
            PropValueData::Currency(value.word as i64)
        } else if t == PT_APPTIME {
            PropValueData::AppTime(value.word)
        } else if t == PT_SYSTIME {
            PropValueData::FileTime(FileTime { low: value.word as u32, high: (value.word / 0x1_0000_0000u64) as u32 })
        } else if t == PT_STRING8 {
            if value.word as usize == 0 { PropValueData::Error(E_POINTER) } else { PropValueData::AnsiString(value.word as usize) }
        } else if t == PT_BINARY {
            if value.pointer == 0 { PropValueData::Error(E_POINTER) } else { PropValueData::Binary(counted_array(value)) }
        } else if t == PT_UNICODE {
            if value.word as usize == 0 { PropValueData::Error(E_POINTER) } else { PropValueData::Unicode(value.word as usize) }
        } else if t == PT_CLSID {
            if value.word as usize == 0 { PropValueData::Error(E_POINTER) } else { PropValueData::Guid(value.word as usize) }
        } else if t == PT_LONGLONG {
            PropValueData::LargeInteger(value.word as i64)
        } else if t == PT_MV_SHORT {
            if value.pointer == 0 { PropValueData::Error(E_POINTER) } else { PropValueData::ShortArray(counted_array(value)) }
        } else if t == PT_MV_LONG {
            if value.pointer == 0 { PropValueData::Error(E_POINTER) } else { PropValueData::LongArray(counted_array(value)) }
        } else if t == PT_MV_FLOAT {
            if value.pointer == 0 { PropValueData::Error(E_POINTER) } else { PropValueData::FloatArray(counted_array(value)) }
        } else if t == PT_MV_DOUBLE {
            if value.pointer == 0 { PropValueData::Error(E_POINTER) } else { PropValueData::DoubleArray(counted_array(value)) }
        } else if t == PT_MV_CURRENCY {
            if value.pointer == 0 { PropValueData::Error(E_POINTER) } else { PropValueData::CurrencyArray(counted_array(value)) }
        } else if t == PT_MV_APPTIME {
            if value.pointer == 0 { PropValueData::Error(E_POINTER) } else { PropValueData::AppTimeArray(counted_array(value)) }
        } else if t == PT_MV_SYSTIME {
            if value.pointer == 0 { PropValueData::Error(E_POINTER) } else { PropValueData::FileTimeArray(counted_array(value)) }
        } else if t == PT_MV_BINARY {
            if value.pointer == 0 { PropValueData::Error(E_POINTER) } else { PropValueData::BinaryArray(counted_array(value)) }
        } else if t == PT_MV_STRING8 {
            if value.pointer == 0 { PropValueData::Error(E_POINTER) } else { PropValueData::AnsiStringArray(counted_array(value)) }
        } else if t == PT_MV_UNICODE {
            if value.pointer == 0 { PropValueData::Error(E_POINTER) } else { PropValueData::UnicodeArray(counted_array(value)) }
        } else if t == PT_MV_CLSID {
            if value.pointer == 0 { PropValueData::Error(E_POINTER) } else { PropValueData::GuidArray(counted_array(value)) }
        } else if t == PT_MV_LONGLONG {
            if value.pointer == 0 { PropValueData::Error(E_POINTER) } else { PropValueData::LargeIntegerArray(counted_array(value)) }
        } else if t == PT_ERROR {
            PropValueData::Error(value.word as i32)
        } else if t == PT_NULL || t == PT_OBJECT {
            PropValueData::Object(value.word as i32)
        } else {
            PropValueData::Error(E_INVALIDARG)
        }
        ;
        PropValue { tag, value: data }
    }
}

impl<'a> vstd::std_specs::convert::FromSpecImpl<&'a RawPropValue> for PropValue {
    open spec fn obeys_from_spec() -> bool {
        true
    }

    open spec fn from_spec(v: &'a RawPropValue) -> PropValue {
        decode(*v)
    }
}

} // verus!
