//! Win32 codes: the numbers that decide what to do next.
use vstd::prelude::*;

verus! {

/// The handle value that stands for no handle.
pub const INVALID_HANDLE_VALUE: isize = -1;

/// The named file or pipe does not exist.
pub const ERROR_FILE_NOT_FOUND: u32 = 2;

/// Every instance of the pipe is taken.
pub const ERROR_PIPE_BUSY: u32 = 231;

/// The message is longer than the buffer: more of it is waiting.
pub const ERROR_MORE_DATA: u32 = 234;

/// A client connected before the server started to wait.
pub const ERROR_PIPE_CONNECTED: u32 = 535;

/// The file type of a regular file on a disk.
pub const FILE_TYPE_DISK: u32 = 1;

/// The right to write to an opened pipe.
pub const GENERIC_WRITE_ACCESS: u32 = 0x4000_0000;

/// An opened pipe is not shared with another opener.
pub const FILE_SHARE_NONE: u32 = 0;

/// Opening fails if there is nothing to open.
pub const OPEN_EXISTING: u32 = 3;

/// No special attributes.
pub const FILE_ATTRIBUTE_NORMAL: u32 = 0x0000_0080;

/// Data flows from the client to the server only.
pub const PIPE_ACCESS_INBOUND: u32 = 0x0000_0001;

/// Creation fails if the pipe exists already.
pub const FILE_FLAG_FIRST_PIPE_INSTANCE: u32 = 0x0008_0000;

/// The pipe is written message by message.
pub const PIPE_TYPE_MESSAGE: u32 = 0x0000_0004;

/// The pipe is read message by message.
pub const PIPE_READMODE_MESSAGE: u32 = 0x0000_0002;

/// Calls on the pipe wait until they are done.
pub const PIPE_WAIT: u32 = 0x0000_0000;

/// As many pipe instances as the system allows.
pub const PIPE_UNLIMITED_INSTANCES: u32 = 255;

/// The `HRESULT` of a Win32 error code: zero stays zero, a code in the lower half of the range
/// keeps its low 16 bits under the Win32 facility with the failure bit set, and one in the
/// upper half is an `HRESULT` already.
pub open spec fn hresult_of(code: u32) -> i32 {
    if code == 0 {
        0
    } else if code < 0x8000_0000 {
        (code % 0x1_0000 - 0x7FF9_0000) as i32
    } else {
        (code - 0x1_0000_0000) as i32
    }
}

/// `HRESULT::from_win32` of windows-core (which `windows` offers as `windows::core`, and behind
/// `WIN32_ERROR::to_hresult`) maps a Win32 error code to the `HRESULT` that `hresult_of` gives.
#[verifier::external_body]
fn to_hresult(code: u32) -> (hresult: i32)
    ensures
        hresult == hresult_of(code),
{
    windows_core::HRESULT::from_win32(code).0
}

/// Whether `hresult` reports the Win32 error `code`.
pub fn reports(hresult: i32, code: u32) -> (yes: bool)
    ensures
        yes == (hresult == hresult_of(code)),
{
    hresult == to_hresult(code)
}

/// The `HRESULT` of a Win32 error code, read as an unsigned number, is `0x8007_0000` plus the low
/// 16 bits of a code in the lower half of the range other than zero, and any other code itself.
pub proof fn law_hresult_bits(code: u32)
    ensures
        0 < code < 0x8000_0000 ==> hresult_of(code) + 0x1_0000_0000 == 0x8007_0000 + code
            % 0x1_0000,
        code >= 0x8000_0000 ==> hresult_of(code) + 0x1_0000_0000 == code,
        code == 0 ==> hresult_of(code) == 0,
{
}

/// Two Win32 error codes of 16 bits have the same `HRESULT` only if they are the same, so an
/// `HRESULT` reports at most one of them.
pub proof fn law_hresult_distinct(a: u32, b: u32)
    requires
        a < 0x1_0000,
        b < 0x1_0000,
        hresult_of(a) == hresult_of(b),
    ensures
        a == b,
{
}

} // verus!
