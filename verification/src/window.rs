//! The fixed properties of the window.

use vstd::prelude::*;

verus! {

/// The outer width with which the window is created.
pub const WINDOW_WIDTH: i32 = 600;

/// The outer height with which the window is created.
pub const WINDOW_HEIGHT: i32 = 400;

/// The name of the window class and the title of the window: `MyApp` in
/// UTF-16, with the terminating zero.
pub open spec fn name() -> Seq<u16> {
    seq![77u16, 121u16, 65u16, 112u16, 112u16, 0u16]
}

/// The name of the window class, in UTF-16 with the terminating zero.
pub fn class_name() -> (text: Vec<u16>)
    ensures
        text@ == name(),
{
    let text: Vec<u16> = vec![77u16, 121u16, 65u16, 112u16, 112u16, 0u16];
    text
}

/// The title of the window, in UTF-16 with the terminating zero.
pub fn window_name() -> (text: Vec<u16>)
    ensures
        text@ == name(),
{
    class_name()
}

} // verus!
