//! Backend selection for Linux.
//!
//! A Linux session offers one of two distinct cursor-query mechanisms: the
//! X11 display protocol and the Wayland compositor protocol.  Which one a
//! session runs is decided from the session's advertised display value (the
//! shell reads it from the environment and hands it in as a plain value):
//! Wayland when that value mentions `wayland` in any letter case, X11
//! otherwise.

use vstd::prelude::*;
use vstd::string::StringSliceAdditionalSpecFns;

pub mod wayland;
pub mod xorg;

verus! {

/// The ASCII-lowercased form of a byte: uppercase ASCII letters are shifted
/// to their lowercase form, every other byte is kept.
pub open spec fn ascii_lower(b: u8) -> u8 {
    if 65 <= b && b <= 90 {
        (b + 32) as u8
    } else {
        b
    }
}

/// The marker that identifies a Wayland session: the bytes of `wayland`.
pub open spec fn wayland_marker() -> Seq<u8> {
    seq![119u8, 97u8, 121u8, 108u8, 97u8, 110u8, 100u8]
}

/// The marker stands at position `i` of `s`, ignoring ASCII letter case.
pub open spec fn marker_at(s: Seq<u8>, i: int) -> bool {
    &&& 0 <= i
    &&& i + wayland_marker().len() <= s.len()
    &&& forall|j: int|
        0 <= j < wayland_marker().len() ==> ascii_lower(s[i + j]) == wayland_marker()[j]
}

/// The marker stands somewhere in `s`, ignoring ASCII letter case.
pub open spec fn mentions_wayland(s: Seq<u8>) -> bool {
    exists|i: int| marker_at(s, i)
}

/// The ASCII-lowercased form of one byte.
fn lower_byte(b: u8) -> (r: u8)
    ensures
        r == ascii_lower(b),
{
    if 65 <= b && b <= 90 {
        b + 32
    } else {
        b
    }
}

/// The byte of the Wayland marker at position `j`.
fn wayland_byte(j: usize) -> (r: u8)
    requires
        j < 7,
    ensures
        r == wayland_marker()[j as int],
{
    if j == 0 {
        119
    } else if j == 1 {
        97
    } else if j == 2 {
        121
    } else if j == 3 {
        108
    } else if j == 4 {
        97
    } else if j == 5 {
        110
    } else {
        100
    }
}

/// Whether the Wayland marker stands somewhere in `bytes`, ignoring ASCII
/// letter case.
fn bytes_mention_wayland(bytes: &[u8]) -> (r: bool)
    ensures
        r == mentions_wayland(bytes@),
{
    if bytes.len() < 7 {
        assert(forall|i: int| !marker_at(bytes@, i));
        return false;
    }
    let end: usize = bytes.len() - 7;
    let mut i: usize = 0;
    loop
        invariant
            i <= end + 1,
            end + 7 == bytes.len(),
            forall|k: int| 0 <= k < i ==> !marker_at(bytes@, k),
        decreases end + 1 - i,
    {
        if i > end {
            assert(forall|k: int| !marker_at(bytes@, k)) by {
                assert(forall|k: int| k > end ==> !marker_at(bytes@, k));
            }
            return false;
        }
        let mut j: usize = 0;
        let mut hit = true;
        while j < 7
            invariant
                j <= 7,
                i + 7 <= bytes.len(),
                hit ==> forall|q: int|
                    0 <= q < j ==> ascii_lower(bytes@[i + q]) == wayland_marker()[q],
                !hit ==> !marker_at(bytes@, i as int),
            decreases 7 - j,
        {
            if lower_byte(bytes[i + j]) != wayland_byte(j) {
                proof {
                    assert(ascii_lower(bytes@[i + j]) != wayland_marker()[j as int]);
                }
                hit = false;
            }
            j = j + 1;
        }
        if hit {
            assert(marker_at(bytes@, i as int));
            return true;
        }
        i = i + 1;
    }
}

/// Whether the session's display value names a Wayland session: the value is
/// present and mentions `wayland`, ignoring ASCII letter case.
pub fn is_wayland(session: Option<&str>) -> (r: bool)
    ensures
        r == match session {
            Some(s) => mentions_wayland(s.spec_bytes()),
            None => false,
        },
{
    match session {
        Some(s) => bytes_mention_wayland(s.as_bytes()),
        None => false,
    }
}

/// The two cursor-query mechanisms a Linux session can offer.
#[derive(Clone, Copy, Debug, PartialEq, Eq, Structural)]
pub enum BackendKind {
    /// The Wayland compositor protocol.
    Wayland,
    /// The X11 display protocol.
    Xorg,
}

/// The Linux backend: the record of which query mechanism the session
/// selected.  The shell constructs the matching native adapter and delegates
/// both cursor queries to it.
#[derive(Clone, Copy, Debug, PartialEq, Eq, Structural)]
pub struct LinuxMouse {
    /// The query mechanism the session selected.
    pub backend: BackendKind,
}

impl LinuxMouse {
    /// Selects the backend from the session's display value: Wayland when
    /// the value is present and mentions `wayland` ignoring ASCII letter
    /// case, X11 otherwise.
    pub fn new(session: Option<&str>) -> (r: Self)
        ensures
            r.backend == match session {
                Some(s) => if mentions_wayland(s.spec_bytes()) {
                    BackendKind::Wayland
                } else {
                    BackendKind::Xorg
                },
                None => BackendKind::Xorg,
            },
    {
        if is_wayland(session) {
            LinuxMouse { backend: BackendKind::Wayland }
        } else {
            LinuxMouse { backend: BackendKind::Xorg }
        }
    }

    /// The query mechanism the session selected.
    pub fn backend(&self) -> (r: BackendKind)
        ensures
            r == self.backend,
    {
        self.backend
    }
}

} // verus!
