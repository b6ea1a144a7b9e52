//! Ownership tokens for COM and Windows Runtime initialization.
//!
//! Construction of a token pairs with one initialize call and its
//! destruction with the matching uninitialize call, exactly once. The calls
//! themselves (`CoInitializeEx`, `CoUninitialize`, `RoInitialize`,
//! `RoUninitialize`) happen in the embedding program; the decision — which
//! status yields a token and which surfaces an error — is verified here.

use vstd::prelude::*;

use crate::error::WinError;

verus! {

/// The `CoInitializeEx` concurrency flag for a single-threaded apartment.
pub const COINIT_APARTMENTTHREADED: u32 = 2;

/// The `CoInitializeEx` concurrency flag for the multi-threaded apartment.
pub const COINIT_MULTITHREADED: u32 = 0;

/// The `RoInitialize` flag for a single-threaded apartment.
pub const RO_INIT_SINGLETHREADED: i32 = 0;

/// The `RoInitialize` flag for the multi-threaded apartment.
pub const RO_INIT_MULTITHREADED: i32 = 1;

/// A token for one outstanding COM initialization on the current thread.
/// Whoever drops it owes the one matching `CoUninitialize` call.
#[derive(Debug)]
pub struct ComInit;

/// A token for one outstanding Windows Runtime initialization on the
/// current thread. Whoever drops it owes the one matching `RoUninitialize`
/// call.
#[derive(Debug)]
pub struct RoInit;

impl ComInit {
    /// Turns the status that `CoInitializeEx` reported into a token or an
    /// error: zero grants the token, any other status is surfaced verbatim
    /// and no token — hence no uninitialize obligation — comes into
    /// existence.
    pub fn from_status(status: i32) -> (r: Result<Self, WinError>)
        ensures
            status == 0 ==> r is Ok,
            status != 0 ==> r is Err && r->Err_0 == WinError::OsStatus(status),
    {
        if status == 0 {
            Ok(ComInit)
        } else {
            Err(WinError::OsStatus(status))
        }
    }
}

impl RoInit {
    /// Turns the status that `RoInitialize` reported into a token or an
    /// error, exactly as [`ComInit::from_status`] does for COM.
    pub fn from_status(status: i32) -> (r: Result<Self, WinError>)
        ensures
            status == 0 ==> r is Ok,
            status != 0 ==> r is Err && r->Err_0 == WinError::OsStatus(status),
    {
        if status == 0 {
            Ok(RoInit)
        } else {
            Err(WinError::OsStatus(status))
        }
    }

    /// The error for a build target whose toolchain cannot link the
    /// runtime-object library: constructors there fail instead of handing
    /// out a token.
    pub fn unavailable() -> (e: WinError)
        ensures
            e == WinError::Unsupported,
    {
        WinError::Unsupported
    }
}

} // verus!
