//! Helpers for calling the Windows "-W" API surface: owned and borrowed
//! null-terminated UTF-16 strings, a scoped loader for shared libraries with
//! typed symbol lookup, tokens for COM / Windows Runtime initialization, and a
//! few small utility types.
//!
//! Everything that computes lives here with a contract; the platform entry
//! points themselves (`LoadLibraryW`, `CoInitializeEx`, ...) are left to the
//! embedding program, which feeds their raw replies to the decision functions
//! of this crate.

pub mod buffer;
pub mod error;
pub mod init;
pub mod library;
pub mod unique;
pub mod utils;
pub mod window;
pub mod wstring;
