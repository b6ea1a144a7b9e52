//! Plain geometry types for Win32 window calls.
//!
//! The windowing helper itself lives outside this crate; these are the two
//! data shapes its entry points exchange.

use vstd::prelude::*;

verus! {

/// A rectangle in screen coordinates, as `GetClientRect` fills it.
#[derive(Debug, Clone, Copy, PartialEq, Eq, Structural, Default)]
pub struct RECT {
    pub left: i32,
    pub top: i32,
    pub right: i32,
    pub bottom: i32,
}

/// A point in screen coordinates.
#[derive(Debug, Clone, Copy, PartialEq, Eq, Structural)]
pub struct POINT {
    pub x: i32,
    pub y: i32,
}

} // verus!
