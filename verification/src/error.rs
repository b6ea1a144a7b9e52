//! The error surface of the crate.

use vstd::prelude::*;

verus! {

/// What a failing call reports.
///
/// The crate never recovers internally: every failing call hands one of
/// these to its immediate caller unmodified.
#[derive(Debug, Clone, Copy, PartialEq, Eq, Structural)]
pub enum WinError {
    /// The raw status the platform reported (an HRESULT or last-error
    /// value), preserved verbatim.
    OsStatus(i32),
    /// A caller-detected precondition violation: a null handle adopted, an
    /// empty name for a resident module.
    InvalidInput,
    /// The facility is unavailable on the current build target.
    Unsupported,
}

} // verus!
