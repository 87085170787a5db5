//! The error categories and their descriptions.

use mouse_position::error::MousePosition;

#[test]
fn categories_compare_by_variant() {
    assert_eq!(MousePosition::NoMouseFound, MousePosition::NoMouseFound);
    assert_ne!(MousePosition::NoMouseFound, MousePosition::BadExtract);
    let copied = MousePosition::Unimplemented;
    assert_eq!(copied, MousePosition::Unimplemented);
}

#[test]
fn every_category_describes_itself() {
    assert_eq!(MousePosition::IO.message(), "Input/output error");
    assert_eq!(MousePosition::Utf8.message(), "Text was not valid UTF-8");
    assert_eq!(MousePosition::ParseInt.message(), "Integer could not be parsed");
    assert_eq!(
        MousePosition::Unimplemented.message(),
        "This function or feature is not implemented"
    );
    assert_eq!(
        MousePosition::BadExtract.message(),
        "Mouse position could not be correctly extracted"
    );
    assert_eq!(MousePosition::NoMouseFound.message(), "No cursor found");
    assert_eq!(MousePosition::SocketNotFound.message(), "Socket Not Found");
    assert_eq!(MousePosition::WMNotDetected.message(), "WM not detected");
}
