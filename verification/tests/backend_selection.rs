//! Which backend a Linux session's display value selects.

use mouse_position::linux::{is_wayland, BackendKind, LinuxMouse};

#[test]
fn wayland_value_selects_wayland() {
    let mouse = LinuxMouse::new(Some("wayland"));
    assert_eq!(mouse.backend(), BackendKind::Wayland);
}

#[test]
fn uppercase_wayland_value_selects_wayland() {
    let mouse = LinuxMouse::new(Some("WAYLAND"));
    assert_eq!(mouse.backend(), BackendKind::Wayland);
}

#[test]
fn mixed_case_value_mentioning_wayland_selects_wayland() {
    let mouse = LinuxMouse::new(Some("my-WayLand-session-0"));
    assert_eq!(mouse.backend(), BackendKind::Wayland);
}

#[test]
fn x11_value_selects_xorg() {
    let mouse = LinuxMouse::new(Some("x11"));
    assert_eq!(mouse.backend(), BackendKind::Xorg);
}

#[test]
fn absent_value_selects_xorg() {
    let mouse = LinuxMouse::new(None);
    assert_eq!(mouse.backend(), BackendKind::Xorg);
}

#[test]
fn empty_value_selects_xorg() {
    let mouse = LinuxMouse::new(Some(""));
    assert_eq!(mouse.backend(), BackendKind::Xorg);
}

#[test]
fn truncated_marker_selects_xorg() {
    let mouse = LinuxMouse::new(Some("waylan"));
    assert_eq!(mouse.backend(), BackendKind::Xorg);
}

#[test]
fn is_wayland_detects_marker_anywhere() {
    assert!(is_wayland(Some("wayland-1")));
    assert!(is_wayland(Some("best wayland ever")));
    assert!(is_wayland(Some("type=WAYLAND")));
    assert!(is_wayland(Some("Wayland")));
    assert!(!is_wayland(Some("weyland")));
    assert!(!is_wayland(Some("tty")));
    assert!(!is_wayland(None));
}

#[test]
fn marker_split_across_the_value_is_not_found() {
    assert!(!is_wayland(Some("way land")));
    assert!(!is_wayland(Some("wa")));
}
