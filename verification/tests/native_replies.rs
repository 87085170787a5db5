//! How each backend turns a raw native reply into a position or an error.

use mouse_position::error::MousePosition;
use mouse_position::linux::xorg::{interpret_pointer_reply, physical_pos_unimplemented};
use mouse_position::macos::MacMouse;
use mouse_position::windows::WinMouse;

#[test]
fn xorg_reply_with_no_successful_screen_is_no_mouse() {
    assert_eq!(
        interpret_pointer_reply(false, 10, 10),
        Err(MousePosition::NoMouseFound)
    );
}

#[test]
fn xorg_reply_with_sentinel_coordinate_is_bad_extract() {
    assert_eq!(
        interpret_pointer_reply(true, -1, 10),
        Err(MousePosition::BadExtract)
    );
    assert_eq!(
        interpret_pointer_reply(true, 10, -1),
        Err(MousePosition::BadExtract)
    );
    assert_eq!(
        interpret_pointer_reply(true, -1, -1),
        Err(MousePosition::BadExtract)
    );
}

#[test]
fn xorg_successful_reply_is_the_position() {
    assert_eq!(interpret_pointer_reply(true, 640, 480), Ok((640, 480)));
    assert_eq!(interpret_pointer_reply(true, 0, 0), Ok((0, 0)));
}

#[test]
fn xorg_physical_pos_is_unimplemented() {
    assert_eq!(
        physical_pos_unimplemented(),
        Err(MousePosition::Unimplemented)
    );
}

#[test]
fn mac_located_event_is_the_position() {
    assert_eq!(MacMouse::interpret_query(Some((12, 34))), Ok((12, 34)));
}

#[test]
fn mac_failed_event_is_bad_extract() {
    assert_eq!(
        MacMouse::interpret_query(None),
        Err(MousePosition::BadExtract)
    );
}

#[test]
fn mac_physical_pos_is_unimplemented() {
    let mut mouse = MacMouse::default();
    assert_eq!(
        mouse.get_physical_pos(),
        Err(MousePosition::Unimplemented)
    );
}

#[test]
fn windows_successful_status_is_the_position() {
    assert_eq!(WinMouse::interpret_query(1, 800, 600), Ok((800, 600)));
}

#[test]
fn windows_failed_status_is_no_mouse() {
    assert_eq!(
        WinMouse::interpret_query(0, 800, 600),
        Err(MousePosition::NoMouseFound)
    );
    assert_eq!(
        WinMouse::interpret_query(-1, 0, 0),
        Err(MousePosition::NoMouseFound)
    );
}
