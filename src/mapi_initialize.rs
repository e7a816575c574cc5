//! Flags for `MAPIInitialize`.

use vstd::prelude::*;

verus! {

/// `MAPI_MULTITHREAD_NOTIFICATIONS`
pub const MAPI_MULTITHREAD_NOTIFICATIONS: u32 = 0x0000_0001;

/// `MAPI_NO_COINIT`
pub const MAPI_NO_COINIT: u32 = 0x0000_0008;

/// `MAPI_NT_SERVICE`
pub const MAPI_NT_SERVICE: u32 = 0x0001_0000;

/// `mask` when `on`, else no bits.
pub open spec fn flag_bits(on: bool, mask: u32) -> u32 {
    if on {
        mask
    } else {
        0
    }
}

/// `mask` when `on`, else no bits.
pub fn flag(on: bool, mask: u32) -> (r: u32)
    ensures
        r == flag_bits(on, mask),
{
    if on {
        mask
    } else {
        0
    }
}

/// Options of `MAPIInitialize`.
#[derive(Clone, Copy, Debug, Default, PartialEq, Eq, Structural)]
pub struct Flags {
    pub multithread_notifications: bool,
    pub nt_service: bool,
    pub no_coinit: bool,
}

impl From<Flags> for u32 {
    /// The `ulFlags` bitmask of `MAPIINIT`: one bit for each option that is set.
    fn from(value: Flags) -> (r: u32)
        ensures
            r == flag_bits(value.multithread_notifications, MAPI_MULTITHREAD_NOTIFICATIONS)
                | flag_bits(value.nt_service, MAPI_NT_SERVICE) | flag_bits(
                value.no_coinit,
                MAPI_NO_COINIT,
            ),
            (r & MAPI_MULTITHREAD_NOTIFICATIONS != 0) == value.multithread_notifications,
            (r & MAPI_NT_SERVICE != 0) == value.nt_service,
            (r & MAPI_NO_COINIT != 0) == value.no_coinit,
    {
        let a = flag(value.multithread_notifications, MAPI_MULTITHREAD_NOTIFICATIONS);
        let b = flag(value.nt_service, MAPI_NT_SERVICE);
        let c = flag(value.no_coinit, MAPI_NO_COINIT);
        let r = a | b | c;
        assert((r & 1u32 != 0) == (a != 0) && (r & 0x1_0000u32 != 0) == (b != 0) && (r & 8u32
            != 0) == (c != 0)) by (bit_vector)
            requires
                r == a | b | c,
                a == 0 || a == 1u32,
                b == 0 || b == 0x1_0000u32,
                c == 0 || c == 8u32,
        ;
        r
    }
}

impl vstd::std_specs::convert::FromSpecImpl<Flags> for u32 {
    open spec fn obeys_from_spec() -> bool {
        true
    }

    open spec fn from_spec(v: Flags) -> u32 {
        flag_bits(v.multithread_notifications, MAPI_MULTITHREAD_NOTIFICATIONS) | flag_bits(
            v.nt_service,
            MAPI_NT_SERVICE,
        ) | flag_bits(v.no_coinit, MAPI_NO_COINIT)
    }
}

} // verus!
