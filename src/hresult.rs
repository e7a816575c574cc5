//! `HRESULT` status codes, as plain `i32` values.

use vstd::prelude::*;

verus! {

/// `E_POINTER` (`0x80004003`): a pointer that had to be valid was null.
pub const E_POINTER: i32 = -2147467261;

/// `E_INVALIDARG` (`0x80070057`): an argument was not recognized.
pub const E_INVALIDARG: i32 = -2147024809;

/// `E_OUTOFMEMORY` (`0x8007000E`): an allocation returned no memory.
pub const E_OUTOFMEMORY: i32 = -2147024882;

/// The `HRESULT` that stands for a Win32 status code: codes that read as zero or negative are
/// kept, others are moved into the Win32 facility with the failure bit set.
pub open spec fn win32_hresult(status: u32) -> i32 {
    if status as i32 <= 0 {
        status as i32
    } else {
        ((status & 0xFFFFu32) | 0x8007_0000u32) as i32
    }
}

/// Relies on `windows_core::HRESULT::from_win32`, which maps a Win32 status code to an `HRESULT`.
#[verifier::external_body]
fn hresult_from_win32(status: u32) -> (r: i32)
    ensures
        r == win32_hresult(status),
{
    windows_core::HRESULT::from_win32(status).0
}

/// Relies on `windows_core::HRESULT::is_ok`: a code is a success when it is not negative.
#[verifier::external_body]
fn hresult_is_ok(code: i32) -> (r: bool)
    ensures
        r == (code >= 0),
{
    windows_core::HRESULT(code).is_ok()
}

/// What a Win32 status code reports: `Ok` for a success, the failing `HRESULT` otherwise.
pub open spec fn status_result(status: u32) -> Result<(), i32> {
    if win32_hresult(status) >= 0 {
        Ok(())
    } else {
        Err(win32_hresult(status))
    }
}

/// Read a Win32 status code returned by a MAPI call.
pub fn check_win32(status: u32) -> (r: Result<(), i32>)
    ensures
        r == status_result(status),
{
    let code = hresult_from_win32(status);
    if hresult_is_ok(code) {
        Ok(())
    } else {
        Err(code)
    }
}

} // verus!
