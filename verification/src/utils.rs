//! Convenience one-shots: message boxes and user / computer name lookup.
//!
//! The entry points themselves (`MessageBoxW`, `GetUserNameExW`,
//! `GetComputerNameExW`) happen in the embedding program; what is verified
//! here is the mapping of their raw replies — a button code, or a filled
//! buffer with a length — into the crate's types.

use vstd::prelude::*;

use crate::error::WinError;
use crate::wstring::decode_wide;
use crate::wstring::decode_wide_units;

verus! {

/// The button a `MessageBoxW` call reports, `Error` for the zero status it
/// reports when the call itself failed.
#[derive(Debug, Clone, Copy, PartialEq, Eq, Structural, PartialOrd, Ord)]
pub enum MBResult {
    Error,
    Okay,
    Cancel,
    Abort,
    Retry,
    Ignore,
    Yes,
    No,
    TryAgain,
    Continue,
}

/// The `MBResult` that a raw `MessageBoxW` reply stands for; a value
/// outside the documented set counts as the failure reply.
pub open spec fn mb_result_of(code: int) -> MBResult {
    if code == 1 {
        MBResult::Okay
    } else if code == 2 {
        MBResult::Cancel
    } else if code == 3 {
        MBResult::Abort
    } else if code == 4 {
        MBResult::Retry
    } else if code == 5 {
        MBResult::Ignore
    } else if code == 6 {
        MBResult::Yes
    } else if code == 7 {
        MBResult::No
    } else if code == 10 {
        MBResult::TryAgain
    } else if code == 11 {
        MBResult::Continue
    } else {
        MBResult::Error
    }
}

/// The raw reply code that an `MBResult` stands for.
pub open spec fn mb_result_code(r: MBResult) -> int {
    match r {
        MBResult::Error => 0,
        MBResult::Okay => 1,
        MBResult::Cancel => 2,
        MBResult::Abort => 3,
        MBResult::Retry => 4,
        MBResult::Ignore => 5,
        MBResult::Yes => 6,
        MBResult::No => 7,
        MBResult::TryAgain => 10,
        MBResult::Continue => 11,
    }
}

impl MBResult {
    /// Classifies a raw `MessageBoxW` reply.
    pub fn from_code(code: i32) -> (r: Self)
        ensures
            r == mb_result_of(code as int),
    {
        match code {
            1 => MBResult::Okay,
            2 => MBResult::Cancel,
            3 => MBResult::Abort,
            4 => MBResult::Retry,
            5 => MBResult::Ignore,
            6 => MBResult::Yes,
            7 => MBResult::No,
            10 => MBResult::TryAgain,
            11 => MBResult::Continue,
            _ => MBResult::Error,
        }
    }

    /// The raw reply code this result stands for; inverse of
    /// [`MBResult::from_code`] on the documented set.
    pub fn code(&self) -> (c: i32)
        ensures
            c == mb_result_code(*self),
            mb_result_of(c as int) == *self,
    {
        match self {
            MBResult::Error => 0,
            MBResult::Okay => 1,
            MBResult::Cancel => 2,
            MBResult::Abort => 3,
            MBResult::Retry => 4,
            MBResult::Ignore => 5,
            MBResult::Yes => 6,
            MBResult::No => 7,
            MBResult::TryAgain => 10,
            MBResult::Continue => 11,
        }
    }
}

/// Turns what a name-query entry point left behind — a success flag, the
/// filled buffer and the length it reported — into the decoded name, or
/// surfaces the reported status verbatim.
pub fn info_outcome(succeeded: bool, status: i32, units: &[u16], size: usize) -> (r: Result<
    String,
    WinError,
>)
    requires
        size <= units@.len(),
    ensures
        succeeded ==> r is Ok && r->Ok_0@ == decode_wide(units@.take(size as int)),
        !succeeded ==> r is Err && r->Err_0 == WinError::OsStatus(status),
{
    if !succeeded {
        return Err(WinError::OsStatus(status));
    }
    Ok(decode_wide_units(units, size))
}

pub const NAME_UNKNOWN: u32 = 0;

pub const NAME_FULLY_QUALIFIED_DN: u32 = 1;

pub const NAME_SAM_COMPATIBLE: u32 = 2;

pub const NAME_DISPLAY: u32 = 3;

pub const NAME_UNIQUE_ID: u32 = 6;

pub const NAME_CANONICAL: u32 = 7;

pub const NAME_USER_PRINCIPAL: u32 = 8;

pub const NAME_CANONICAL_EX: u32 = 9;

pub const NAME_SERVICE_PRINCIPAL: u32 = 10;

pub const NAME_DNS_DOMAIN: u32 = 12;

pub const NAME_GIVEN_NAME: u32 = 13;

pub const NAME_SURNAME: u32 = 14;

pub const COMPUTER_NAME_NET_BIOS: u32 = 0;

pub const COMPUTER_NAME_DNS_HOSTNAME: u32 = 1;

pub const COMPUTER_NAME_DNS_DOMAIN: u32 = 2;

pub const COMPUTER_NAME_DNS_FULLY_QUALIFIED: u32 = 3;

pub const COMPUTER_NAME_PHYSICAL_NET_BIOS: u32 = 4;

pub const COMPUTER_NAME_PHYSICAL_DNS_HOSTNAME: u32 = 5;

pub const COMPUTER_NAME_PHYSICAL_DNS_DOMAIN: u32 = 6;

pub const COMPUTER_NAME_PHYSICAL_DNS_FULLY_QUALIFIED: u32 = 7;

pub const COMPUTER_NAME_MAX: u32 = 8;

} // verus!
