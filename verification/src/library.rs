//! A scoped owner for a loaded module handle, with typed symbol lookup.
//!
//! The OS loader calls themselves (`LoadLibraryW`, `GetModuleHandleW`,
//! `GetProcAddress`, `FreeLibrary`) happen in the embedding program, which
//! hands their raw replies to the constructors here; everything the wrapper
//! decides — how a reply is classified, when a failure is reported, and
//! whether a handle is unloaded when its owner goes — is verified.

use vstd::prelude::*;

use crate::error::WinError;

verus! {

/// How a [`Library`] came to hold its handle. A `Dynamic` handle owns one
/// loader reference and must be unloaded when its owner goes; a `Static`
/// handle merely names an already-resident module and owns nothing.
#[derive(Debug, Clone, Copy, PartialEq, Eq, Structural)]
pub enum LibType {
    Static,
    Dynamic,
}

/// An owned module handle together with its classification.
///
/// The handle is the opaque address the OS loader assigned, carried as a
/// plain integer; zero is the null sentinel.
#[derive(Debug)]
pub struct Library {
    handle: usize,
    lib_type: LibType,
}

impl Library {
    /// Wraps a caller-provided handle; a null handle is refused, and the
    /// flag picks the classification.
    pub fn from_handle(handle: usize, dynamic: bool) -> (r: Result<Self, WinError>)
        ensures
            handle == 0 ==> r is Err && r->Err_0 == WinError::InvalidInput,
            handle != 0 && dynamic ==> r is Ok && r->Ok_0.spec_handle() == handle && r->Ok_0.spec_lib_type()
                == LibType::Dynamic,
            handle != 0 && !dynamic ==> r is Ok && r->Ok_0.spec_handle() == handle && r->Ok_0.spec_lib_type()
                == LibType::Static,
    {
        if handle == 0 {
            return Err(WinError::InvalidInput);
        }
        Ok(Library {
            handle,
            lib_type: if dynamic {
                LibType::Dynamic
            } else {
                LibType::Static
            },
        })
    }

    /// Classifies what the OS loader replied to a load request: a non-null
    /// handle becomes a `Dynamic` library that owns one loader reference; a
    /// null handle surfaces the reported status verbatim.
    pub fn from_load(handle: usize, status: i32) -> (r: Result<Self, WinError>)
        ensures
            handle == 0 ==> r is Err && r->Err_0 == WinError::OsStatus(status),
            handle != 0 ==> r is Ok && r->Ok_0.spec_handle() == handle && r->Ok_0.spec_lib_type()
                == LibType::Dynamic,
    {
        if handle == 0 {
            return Err(WinError::OsStatus(status));
        }
        Ok(Library { handle, lib_type: LibType::Dynamic })
    }

    /// Classifies what the OS loader replied to an already-resident query:
    /// a non-null handle for a non-empty name becomes a `Static` library
    /// that owns no loader reference; a null handle or an empty name is
    /// refused, so that the "empty name means current module" quirk stays
    /// opt-in through [`Library::from_handle`].
    pub fn from_resident(name: &str, handle: usize) -> (r: Result<Self, WinError>)
        ensures
            handle == 0 || name@.len() == 0 ==> r is Err && r->Err_0 == WinError::InvalidInput,
            handle != 0 && name@.len() > 0 ==> r is Ok && r->Ok_0.spec_handle() == handle
                && r->Ok_0.spec_lib_type() == LibType::Static,
    {
        if handle == 0 || name.is_empty() {
            return Err(WinError::InvalidInput);
        }
        Ok(Library { handle, lib_type: LibType::Static })
    }

    /// A null-handle `Static` placeholder, usable before a real handle is
    /// assigned. Not meant for lookup.
    pub fn empty() -> (r: Self)
        ensures
            r.spec_handle() == 0,
            r.spec_lib_type() == LibType::Static,
    {
        Library { handle: 0, lib_type: LibType::Static }
    }

    /// The classification of this library.
    pub fn lib_type(&self) -> (t: LibType)
        ensures
            t == self.spec_lib_type(),
    {
        self.lib_type
    }

    /// The raw handle, for entry points that demand it.
    #[inline]
    pub fn handle(&self) -> (h: usize)
        ensures
            h == self.spec_handle(),
    {
        self.handle
    }

    /// Whether dropping this library must release a loader reference:
    /// exactly for a `Dynamic` handle. The embedding program's unload call
    /// follows this decision, so each load is balanced by one unload and a
    /// resident module is never unloaded.
    pub fn unloads_on_drop(&self) -> (b: bool)
        ensures
            b == (self.spec_lib_type() == LibType::Dynamic),
    {
        match self.lib_type {
            LibType::Dynamic => true,
            LibType::Static => false,
        }
    }

    /// The spec-level handle of this library.
    pub closed spec fn spec_handle(&self) -> usize {
        self.handle
    }

    /// The spec-level classification of this library.
    pub closed spec fn spec_lib_type(&self) -> LibType {
        self.lib_type
    }
}

/// True of a name that can cross to `GetProcAddress`, which takes a
/// null-terminated 8-bit string: the name must hold no interior NUL.
/// A lookup with an invalid name yields an empty [`FnWrapper`] rather than
/// reaching the loader.
pub fn symbol_name_valid(name: &str) -> (b: bool)
    ensures
        b == (forall|i: int| 0 <= i < name@.len() ==> name@[i] != '\0'),
{
    let n = name.unicode_len();
    let mut i: usize = 0;
    while i < n
        invariant
            n == name@.len(),
            i <= n,
            forall|j: int| 0 <= j < i ==> name@[j] != '\0',
        decreases n - i,
    {
        if name.get_char(i) == '\0' {
            return false;
        }
        i = i + 1;
    }
    true
}

/// A typed wrapper around an optional raw procedure address, as a symbol
/// lookup hands it out. The caller picked `F` at the lookup site and
/// asserted that it matches the export's ABI; an empty wrapper records that
/// the lookup failed.
pub struct FnWrapper<F>(pub Option<F>);

impl<F> Default for FnWrapper<F> {
    /// The empty wrapper.
    fn default() -> (r: Self)
        ensures
            r.0 is None,
    {
        FnWrapper(None)
    }
}

impl<F> FnWrapper<F> {
    /// True exactly when an address is present; only then may the wrapper
    /// be unwrapped.
    pub fn is_valid(&self) -> (b: bool)
        ensures
            b == (self.0 is Some),
    {
        self.0.is_some()
    }

    /// Consumes the wrapper and hands out the typed function value. The
    /// wrapper must hold one: callers check [`FnWrapper::is_valid`] first.
    pub fn unwrap(self) -> (f: F)
        requires
            self.0 is Some,
        ensures
            self.0 == Some(f),
    {
        self.0.unwrap()
    }
}

} // verus!
