//! Utilities for accessing the `PROP_TYPE` and `PROP_ID` portions of a `u32` `PROP_TAG`.

use vstd::prelude::*;

verus! {

/// Simple wrapper for a MAPI `PROP_TAG`: a 16-bit identifier in the high half and a 16-bit
/// type code in the low half.
#[derive(Clone, Copy, Debug, PartialEq, Eq, Structural)]
pub struct PropTag(pub u32);

impl PropTag {
    /// The identifier half of the tag.
    pub open spec fn id(self) -> u16 {
        (self.0 / 0x10000) as u16
    }

    /// The type half of the tag.
    pub open spec fn kind(self) -> u16 {
        (self.0 % 0x10000) as u16
    }

    /// Combine the `PROP_ID` and `PROP_TYPE` to form a [`PropTag`].
    pub fn new(prop_id: u16, prop_type: u16) -> (r: Self)
        ensures
            r.0 as int == prop_id as int * 0x10000 + prop_type as int,
            r.id() == prop_id,
            r.kind() == prop_type,
    {
        let r = ((prop_id as u32) << 16u32) | (prop_type as u32);
        assert(r == prop_id as u32 * 0x10000 + prop_type as u32 && prop_id as u32 * 0x10000
            + prop_type as u32 <= 0xFFFF_FFFFu32) by (bit_vector)
            requires
                r == ((prop_id as u32) << 16u32) | (prop_type as u32),
        ;
        Self(r)
    }

    /// Extract the `PROP_ID` portion of the [`PropTag`].
    pub fn prop_id(&self) -> (r: u16)
        ensures
            r == self.id(),
            r as int == self.0 as int / 0x10000,
    {
        let v = self.0;
        let r = ((v & 0xFFFF_0000u32) >> 16u32) as u16;
        assert(r as u32 == v / 0x10000) by (bit_vector)
            requires
                r == ((v & 0xFFFF_0000u32) >> 16u32) as u16,
        ;
        r
    }

    /// Extract the `PROP_TYPE` portion of the [`PropTag`].
    pub fn prop_type(&self) -> (r: u16)
        ensures
            r == self.kind(),
            r as int == self.0 as int % 0x10000,
    {
        let v = self.0;
        let r = (v & 0xFFFFu32) as u16;
        assert(r as u32 == v % 0x10000) by (bit_vector)
            requires
                r == (v & 0xFFFFu32) as u16,
        ;
        r
    }
}

impl From<u32> for PropTag {
    /// Wrap a constant `PROP_TAG` value in a [`PropTag`].
    fn from(value: u32) -> (r: Self)
        ensures
            r.0 == value,
    {
        Self(value)
    }
}

impl vstd::std_specs::convert::FromSpecImpl<u32> for PropTag {
    open spec fn obeys_from_spec() -> bool {
        true
    }

    open spec fn from_spec(v: u32) -> PropTag {
        PropTag(v)
    }
}

impl From<PropTag> for u32 {
    /// Get a constant `PROP_TAG` value from a [`PropTag`].
    fn from(value: PropTag) -> (r: u32)
        ensures
            r == value.0,
    {
        value.0
    }
}

impl vstd::std_specs::convert::FromSpecImpl<PropTag> for u32 {
    open spec fn obeys_from_spec() -> bool {
        true
    }

    open spec fn from_spec(v: PropTag) -> u32 {
        v.0
    }
}

} // verus!
