//! Flags for `MAPILogonEx`.

use vstd::prelude::*;

use crate::mapi_initialize::{flag, flag_bits};

verus! {

/// `MAPI_ALLOW_OTHERS`
pub const MAPI_ALLOW_OTHERS: u32 = 0x0000_0008;

/// `MAPI_BG_SESSION`
pub const MAPI_BG_SESSION: u32 = 0x0020_0000;

/// `MAPI_EXPLICIT_PROFILE`
pub const MAPI_EXPLICIT_PROFILE: u32 = 0x0000_0010;

/// `MAPI_EXTENDED`
pub const MAPI_EXTENDED: u32 = 0x0000_0020;

/// `MAPI_FORCE_DOWNLOAD`
pub const MAPI_FORCE_DOWNLOAD: u32 = 0x0000_1000;

/// `MAPI_LOGON_UI`
pub const MAPI_LOGON_UI: u32 = 0x0000_0001;

/// `MAPI_NEW_SESSION`
pub const MAPI_NEW_SESSION: u32 = 0x0000_0002;

/// `MAPI_NO_MAIL`
pub const MAPI_NO_MAIL: u32 = 0x0000_8000;

/// `MAPI_NT_SERVICE`
pub const MAPI_NT_SERVICE: u32 = 0x0001_0000;

/// `MAPI_SERVICE_UI_ALWAYS`
pub const MAPI_SERVICE_UI_ALWAYS: u32 = 0x0000_2000;

/// `MAPI_TIMEOUT_SHORT`
pub const MAPI_TIMEOUT_SHORT: u32 = 0x0010_0000;

/// `MAPI_UNICODE`
pub const MAPI_UNICODE: u32 = 0x8000_0000;

/// `MAPI_USE_DEFAULT`
pub const MAPI_USE_DEFAULT: u32 = 0x0000_0040;

/// Options of `MAPILogonEx`.
#[derive(Clone, Copy, Debug, Default, PartialEq, Eq, Structural)]
pub struct Flags {
    pub allow_others: bool,
    pub bg_session: bool,
    pub explicit_profile: bool,
    pub extended: bool,
    pub force_download: bool,
    pub logon_ui: bool,
    pub new_session: bool,
    pub no_mail: bool,
    pub nt_service: bool,
    pub service_ui_always: bool,
    pub timeout_short: bool,
    pub unicode: bool,
    pub use_default: bool,
}

/// The `flFlags` bitmask of `MAPILogonEx`: one bit for each option that is set.
pub open spec fn logon_bits(v: Flags) -> u32 {
    flag_bits(v.allow_others, MAPI_ALLOW_OTHERS)
        | flag_bits(v.bg_session, MAPI_BG_SESSION)
        | flag_bits(v.explicit_profile, MAPI_EXPLICIT_PROFILE)
        | flag_bits(v.extended, MAPI_EXTENDED)
        | flag_bits(v.force_download, MAPI_FORCE_DOWNLOAD)
        | flag_bits(v.logon_ui, MAPI_LOGON_UI)
        | flag_bits(v.new_session, MAPI_NEW_SESSION)
        | flag_bits(v.no_mail, MAPI_NO_MAIL)
        | flag_bits(v.nt_service, MAPI_NT_SERVICE)
        | flag_bits(v.service_ui_always, MAPI_SERVICE_UI_ALWAYS)
        | flag_bits(v.timeout_short, MAPI_TIMEOUT_SHORT)
        | flag_bits(v.unicode, MAPI_UNICODE)
        | flag_bits(v.use_default, MAPI_USE_DEFAULT)
}

impl From<Flags> for u32 {
    /// The `flFlags` bitmask of `MAPILogonEx`: one bit for each option that is set.
    fn from(value: Flags) -> (r: u32)
        ensures
            r == logon_bits(value),
            (r & MAPI_ALLOW_OTHERS != 0) == value.allow_others,
            (r & MAPI_BG_SESSION != 0) == value.bg_session,
            (r & MAPI_EXPLICIT_PROFILE != 0) == value.explicit_profile,
            (r & MAPI_EXTENDED != 0) == value.extended,
            (r & MAPI_FORCE_DOWNLOAD != 0) == value.force_download,
            (r & MAPI_LOGON_UI != 0) == value.logon_ui,
            (r & MAPI_NEW_SESSION != 0) == value.new_session,
            (r & MAPI_NO_MAIL != 0) == value.no_mail,
            (r & MAPI_NT_SERVICE != 0) == value.nt_service,
            (r & MAPI_SERVICE_UI_ALWAYS != 0) == value.service_ui_always,
            (r & MAPI_TIMEOUT_SHORT != 0) == value.timeout_short,
            (r & MAPI_UNICODE != 0) == value.unicode,
            (r & MAPI_USE_DEFAULT != 0) == value.use_default,
    {
        let a = flag(value.allow_others, MAPI_ALLOW_OTHERS);
        let b = flag(value.bg_session, MAPI_BG_SESSION);
        let c = flag(value.explicit_profile, MAPI_EXPLICIT_PROFILE);
        let d = flag(value.extended, MAPI_EXTENDED);
        let e = flag(value.force_download, MAPI_FORCE_DOWNLOAD);
        let f = flag(value.logon_ui, MAPI_LOGON_UI);
        let g = flag(value.new_session, MAPI_NEW_SESSION);
        let h = flag(value.no_mail, MAPI_NO_MAIL);
        let i = flag(value.nt_service, MAPI_NT_SERVICE);
        let j = flag(value.service_ui_always, MAPI_SERVICE_UI_ALWAYS);
        let k = flag(value.timeout_short, MAPI_TIMEOUT_SHORT);
        let l = flag(value.unicode, MAPI_UNICODE);
        let m = flag(value.use_default, MAPI_USE_DEFAULT);
        let r = a | b | c | d | e | f | g | h | i | j | k | l | m;
        assert(
            (r & 0x0000_0008u32 != 0) == (a != 0)
                && (r & 0x0020_0000u32 != 0) == (b != 0)
                && (r & 0x0000_0010u32 != 0) == (c != 0)
                && (r & 0x0000_0020u32 != 0) == (d != 0)
                && (r & 0x0000_1000u32 != 0) == (e != 0)
                && (r & 0x0000_0001u32 != 0) == (f != 0)
                && (r & 0x0000_0002u32 != 0) == (g != 0)
                && (r & 0x0000_8000u32 != 0) == (h != 0)
                && (r & 0x0001_0000u32 != 0) == (i != 0)
                && (r & 0x0000_2000u32 != 0) == (j != 0)
                && (r & 0x0010_0000u32 != 0) == (k != 0)
                && (r & 0x8000_0000u32 != 0) == (l != 0)
                && (r & 0x0000_0040u32 != 0) == (m != 0)
        ) by (bit_vector)
            requires
                r == a | b | c | d | e | f | g | h | i | j | k | l | m,
                a == 0 || a == 0x0000_0008u32,
                b == 0 || b == 0x0020_0000u32,
                c == 0 || c == 0x0000_0010u32,
                d == 0 || d == 0x0000_0020u32,
                e == 0 || e == 0x0000_1000u32,
                f == 0 || f == 0x0000_0001u32,
                g == 0 || g == 0x0000_0002u32,
                h == 0 || h == 0x0000_8000u32,
                i == 0 || i == 0x0001_0000u32,
                j == 0 || j == 0x0000_2000u32,
                k == 0 || k == 0x0010_0000u32,
                l == 0 || l == 0x8000_0000u32,
                m == 0 || m == 0x0000_0040u32,
        ;
        r
    }
}

impl vstd::std_specs::convert::FromSpecImpl<Flags> for u32 {
    open spec fn obeys_from_spec() -> bool {
        true
    }

    open spec fn from_spec(v: Flags) -> u32 {
        logon_bits(v)
    }
}

} // verus!
