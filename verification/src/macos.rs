//! Backend for macOS.
//!
//! The shell queries the cursor location from the native event service and
//! hands the reply in as a plain value; only the physical-pixel query is
//! unimplemented on this backend.

use vstd::prelude::*;

use crate::error::MousePosition;

verus! {

/// The macOS backend.  The logical-pixel query's native reply is interpreted
/// by [`MacMouse::interpret_query`]; the physical-pixel query is not
/// implemented for this backend.
#[derive(Clone, Copy, Debug, Default, PartialEq, Eq, Structural)]
pub struct MacMouse;

impl MacMouse {
    /// Turns the reply of the native event query into a position or an
    /// error: the cursor location when the event could be created, and a
    /// malformed-extraction error when it could not.
    pub fn interpret_query(location: Option<(i32, i32)>) -> (r: Result<(i32, i32), MousePosition>)
        ensures
            location matches Some(p) ==> r == Ok::<(i32, i32), MousePosition>(p),
            location is None ==> r == Err::<(i32, i32), MousePosition>(MousePosition::BadExtract),
    {
        match location {
            Some(p) => Ok(p),
            None => Err(MousePosition::BadExtract),
        }
    }

    /// The physical (DPI-scaled) cursor position is not implemented on this
    /// backend; the query always reports so.
    pub fn get_physical_pos(&mut self) -> (r: Result<(i32, i32), MousePosition>)
        ensures
            r == Err::<(i32, i32), MousePosition>(MousePosition::Unimplemented),
    {
        Err(MousePosition::Unimplemented)
    }
}

} // verus!
