//! Backend for X11 sessions.
//!
//! The shell opens the display, queries the pointer once per screen until a
//! query succeeds, and hands the outcome in as plain values; the reply is
//! turned into a position or an error here.  The physical-pixel query is
//! unimplemented on this backend.

use vstd::prelude::*;

use crate::error::MousePosition;

verus! {

/// Turns the outcome of the per-screen pointer queries into a position or an
/// error.  `found` says whether any screen's query succeeded; `x` and `y`
/// are the coordinates the last query filled.  When no query succeeded, no
/// cursor was found; when one succeeded but either coordinate kept its
/// `-1` sentinel, the position was not correctly extracted.
pub fn interpret_pointer_reply(found: bool, x: i32, y: i32) -> (r: Result<
    (i32, i32),
    MousePosition,
>)
    ensures
        !found ==> r == Err::<(i32, i32), MousePosition>(MousePosition::NoMouseFound),
        found && (x == -1 || y == -1) ==> r == Err::<(i32, i32), MousePosition>(
            MousePosition::BadExtract,
        ),
        found && x != -1 && y != -1 ==> r == Ok::<(i32, i32), MousePosition>((x, y)),
{
    if !found {
        return Err(MousePosition::NoMouseFound);
    }
    if x == -1 || y == -1 {
        return Err(MousePosition::BadExtract);
    }
    Ok((x, y))
}

/// The physical (DPI-scaled) cursor position is not implemented on this
/// backend; the query always reports so.
pub fn physical_pos_unimplemented() -> (r: Result<(i32, i32), MousePosition>)
    ensures
        r == Err::<(i32, i32), MousePosition>(MousePosition::Unimplemented),
{
    Err(MousePosition::Unimplemented)
}

} // verus!
