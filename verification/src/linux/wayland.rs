//! Backend for Wayland sessions.
//!
//! Wayland offers no synchronous cursor query, so the position is tracked
//! passively: the shell performs the protocol handshake mandated by the
//! compositor — bind the globals, lay an invisible layer surface over each
//! output, attach a buffer and commit — and then keeps dispatching the event
//! stream into the tracked [`State`].  A query reads the position the events
//! have most recently established.

use vstd::prelude::*;

use crate::error::MousePosition;

pub mod dispatch;
pub mod state;

use state::State;

verus! {

/// The Wayland backend: the tracked session state.  The live protocol
/// objects — connection, event queue, surfaces, buffers — stay with the
/// shell, which dispatches their events into this state.
#[derive(Debug)]
pub struct WaylandMouse {
    /// The session state the dispatched events have built up.
    pub state: State,
}

impl WaylandMouse {
    /// Wraps a tracked session state.
    pub fn new(state: State) -> (r: Self)
        ensures
            r.state == state,
    {
        WaylandMouse { state }
    }

    /// The cursor position in logical pixels: the position the dispatched
    /// pointer events have most recently established.  The shell dispatches
    /// pending events before reading.  The query itself cannot fail.
    pub fn get_pos(&self) -> (r: Result<(i32, i32), MousePosition>)
        ensures
            r == Ok::<(i32, i32), MousePosition>(self.state.current_pos),
    {
        Ok(self.state.current_pos)
    }

    /// The physical (DPI-scaled) cursor position cannot be extracted on this
    /// backend; the query always reports so.
    pub fn get_physical_pos(&mut self) -> (r: Result<(i32, i32), MousePosition>)
        ensures
            r == Err::<(i32, i32), MousePosition>(MousePosition::BadExtract),
    {
        Err(MousePosition::BadExtract)
    }
}

} // verus!
