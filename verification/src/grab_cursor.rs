//! Whether the window owns the mouse cursor: clicking into the game grabs
//! it, the escape key releases it. The window call itself is the embedding's.

use vstd::prelude::*;

verus! {

/// The grab state after one step of input: a left click grabs the cursor,
/// escape releases it, and escape wins when both were pressed this step.
pub fn cursor_grab(left_clicked: bool, escape_pressed: bool, grabbed: bool) -> (r: bool)
    ensures
        r == if escape_pressed {
            false
        } else if left_clicked {
            true
        } else {
            grabbed
        },
{
    let mut r = grabbed;
    if left_clicked {
        r = true;
    }
    if escape_pressed {
        r = false;
    }
    r
}

/// A grabbed cursor is locked and hidden; releasing it shows it again. The
/// pair the window must be told.
pub fn set_cursor_grabbed(grabbed: bool) -> (r: (bool, bool))
    ensures
        r.0 == grabbed,
        r.1 == !grabbed,
{
    (grabbed, !grabbed)
}

} // verus!
