//! Reports the current on-screen mouse cursor position in a cross-platform
//! way.
//!
//! The crate holds one backend per platform family: X11 and Wayland on Linux,
//! and the native cursor queries on Windows and macOS.  Each backend's
//! decision logic — which backend a session selects, how a raw native reply
//! is turned into a position or an error, and the passively tracked Wayland
//! pointer state — lives here, verified.  The native calls themselves
//! (display-server sockets, foreign functions) are performed by the thin
//! program shell around this library, which hands their raw replies in as
//! plain values.

use vstd::prelude::*;

pub mod error;
pub mod linux;
pub mod macos;
pub mod windows;

use error::MousePosition as MouseError;

verus! {

/// The query interface every backend offers: the cursor position in logical
/// pixels, and in physical (DPI-scaled) pixels.  Both fail with a
/// [`MouseError`] category when the underlying native query fails or the
/// feature is unsupported on that backend.
pub trait MouseExt {
    /// The current cursor position in logical pixels.
    fn get_pos(&mut self) -> Result<(i32, i32), MouseError>;

    /// The current cursor position in physical (DPI-scaled) pixels.
    fn get_physical_pos(&mut self) -> Result<(i32, i32), MouseError>;
}

} // verus!
