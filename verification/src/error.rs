//! The error categories a cursor-position query can fail with.

use vstd::prelude::*;

verus! {

/// Why a cursor-position query failed.
///
/// Every backend reports its failures through one of these categories;
/// none of them is retried or recovered internally.
#[derive(Clone, Copy, Debug, PartialEq, Eq, Structural)]
pub enum MousePosition {
    /// An input/output operation against the native display service failed.
    IO,
    /// Text received from the native display service was not valid UTF-8.
    Utf8,
    /// A number received from the native display service could not be parsed.
    ParseInt,
    /// The queried feature is not implemented for this backend.
    Unimplemented,
    /// The position reply was present but malformed.
    BadExtract,
    /// No cursor was found on any connected display.
    NoMouseFound,
    /// The display server's socket was not found.
    SocketNotFound,
    /// No window manager was detected.
    WMNotDetected,
}

impl MousePosition {
    /// The description of each error category, as a sequence of characters.
    pub open spec fn spec_message(self) -> Seq<char> {
        match self {
            MousePosition::IO => "Input/output error"@,
            MousePosition::Utf8 => "Text was not valid UTF-8"@,
            MousePosition::ParseInt => "Integer could not be parsed"@,
            MousePosition::Unimplemented => "This function or feature is not implemented"@,
            MousePosition::BadExtract => "Mouse position could not be correctly extracted"@,
            MousePosition::NoMouseFound => "No cursor found"@,
            MousePosition::SocketNotFound => "Socket Not Found"@,
            MousePosition::WMNotDetected => "WM not detected"@,
        }
    }

    /// A human-readable description of the error category.
    pub fn message(&self) -> (r: String)
        ensures
            r@ == self.spec_message(),
    {
        match self {
            MousePosition::IO => "Input/output error".to_owned(),
            MousePosition::Utf8 => "Text was not valid UTF-8".to_owned(),
            MousePosition::ParseInt => "Integer could not be parsed".to_owned(),
            MousePosition::Unimplemented => "This function or feature is not implemented".to_owned(),
            MousePosition::BadExtract => "Mouse position could not be correctly extracted".to_owned(),
            MousePosition::NoMouseFound => "No cursor found".to_owned(),
            MousePosition::SocketNotFound => "Socket Not Found".to_owned(),
            MousePosition::WMNotDetected => "WM not detected".to_owned(),
        }
    }
}

} // verus!
