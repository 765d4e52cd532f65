use ashpd::desktop::screenshot::{ColorRequest, ScreenshotRequest};
use ashpd::WindowIdentifier;

#[test]
fn default_screenshot_request_sets_nothing() {
    let request = ScreenshotRequest::default();
    assert_eq!(request.identifier, WindowIdentifier::default());
    assert_eq!(request.options.modal, None);
    assert_eq!(request.options.interactive, None);
}

#[test]
fn screenshot_request_is_built_step_by_step() {
    let request = ScreenshotRequest::default()
        .interactive(true)
        .modal(true)
        .identifier(WindowIdentifier::new("x11:7"));
    assert_eq!(request.identifier.as_str(), "x11:7");
    assert_eq!(request.options.modal, Some(true));
    assert_eq!(request.options.interactive, Some(true));
}

#[test]
fn screenshot_request_setters_change_one_field() {
    let mut request = ScreenshotRequest::default().modal(true);
    request.set_interactive(false);
    assert_eq!(request.options.modal, Some(true));
    assert_eq!(request.options.interactive, Some(false));
    request.set_modal(false);
    assert_eq!(request.options.modal, Some(false));
    assert_eq!(request.options.interactive, Some(false));
    request.set_identifier(WindowIdentifier::new("wayland:abc"));
    assert_eq!(request.identifier.as_str(), "wayland:abc");
    assert_eq!(request.options.modal, Some(false));
}

#[test]
fn color_request_takes_a_window() {
    assert_eq!(ColorRequest::default().identifier.as_str(), "");
    let request = ColorRequest::default().identifier(WindowIdentifier::new("x11:8"));
    assert_eq!(request.identifier.as_str(), "x11:8");
}

#[test]
fn window_identifier_is_passed_on_as_given() {
    assert_eq!(WindowIdentifier::default().as_str(), "");
    let identifier = WindowIdentifier::new("wayland:\u{e9}/handle");
    assert_eq!(identifier.as_str(), "wayland:\u{e9}/handle");
    assert_eq!(identifier.clone(), identifier);
}
