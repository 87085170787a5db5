//! Backend for Windows.
//!
//! Both cursor queries go through the same native call shape: the shell asks
//! the window system to fill a point and reports the call's status code here,
//! where the reply is turned into a position or an error.

use vstd::prelude::*;

use crate::error::MousePosition;

verus! {

/// The Windows backend.  The cursor queries share one native reply shape,
/// interpreted by [`WinMouse::interpret_query`].
#[derive(Clone, Copy, Debug, Default, PartialEq, Eq, Structural)]
pub struct WinMouse;

impl WinMouse {
    /// Turns the raw reply of a native cursor query — its status code and the
    /// point it filled — into a position or an error.  The native call
    /// reports success with status `1`; any other status means no cursor was
    /// found, and the filled point is then meaningless.
    pub fn interpret_query(status: i32, x: i32, y: i32) -> (r: Result<(i32, i32), MousePosition>)
        ensures
            status == 1 ==> r == Ok::<(i32, i32), MousePosition>((x, y)),
            status != 1 ==> r == Err::<(i32, i32), MousePosition>(MousePosition::NoMouseFound),
    {
        if status != 1 {
            return Err(MousePosition::NoMouseFound);
        }
        Ok((x, y))
    }
}

} // verus!
