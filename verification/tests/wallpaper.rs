use std::str::FromStr;

use ashpd::desktop::wallpaper::{SetOn, WallpaperRequest};
use ashpd::{Error, WindowIdentifier};

#[test]
fn serialize_deserialize() {
    let set_on = SetOn::Both;
    let string = serde_json::to_string(set_on.as_str()).unwrap();
    assert_eq!(string, "\"Both\"");

    let decoded: String = serde_json::from_str(&string).unwrap();
    assert_eq!(set_on, SetOn::from_str(&decoded).unwrap());
}

#[test]
fn places_have_their_names() {
    assert_eq!(SetOn::Lockscreen.as_str(), "Lockscreen");
    assert_eq!(SetOn::Background.as_str(), "Background");
    assert_eq!(SetOn::Both.as_str(), "Both");
    assert_eq!(SetOn::Lockscreen.to_string(), "Lockscreen");
    assert_eq!(SetOn::Background.to_string(), "Background");
    assert_eq!(SetOn::Both.to_string(), "Both");
    let name: &str = SetOn::Background.as_ref();
    assert_eq!(name, "Background");
    let name: &'static str = SetOn::Lockscreen.into();
    assert_eq!(name, "Lockscreen");
}

#[test]
fn names_are_read_back() {
    for place in [SetOn::Lockscreen, SetOn::Background, SetOn::Both] {
        assert_eq!(SetOn::parse(place.as_str()), Ok(place));
        assert_eq!(place.as_str().parse::<SetOn>(), Ok(place));
    }
}

#[test]
fn other_names_are_refused() {
    for text in ["", "both", "Both ", "Lock", "Lockscreens", "Backgr\u{f6}und"] {
        assert_eq!(
            SetOn::parse(text),
            Err(Error::ParseError("Failed to parse SetOn, invalid value")),
            "{:?}",
            text
        );
        assert_eq!(
            SetOn::from_str(text),
            Err(Error::ParseError("Failed to parse SetOn, invalid value"))
        );
    }
}

#[test]
fn default_wallpaper_request_sets_nothing() {
    let request = WallpaperRequest::default();
    assert_eq!(request.identifier, WindowIdentifier::default());
    assert_eq!(request.options.show_preview, None);
    assert_eq!(request.options.set_on, None);
}

#[test]
fn wallpaper_request_is_built_step_by_step() {
    let request = WallpaperRequest::default()
        .set_on(SetOn::Both)
        .show_preview(true)
        .identifier(WindowIdentifier::new("x11:5"));
    assert_eq!(request.identifier.as_str(), "x11:5");
    assert_eq!(request.options.show_preview, Some(true));
    assert_eq!(request.options.set_on, Some(SetOn::Both));
}

#[test]
fn wallpaper_request_setters_change_one_field() {
    let mut request = WallpaperRequest::default().set_on(SetOn::Lockscreen);
    request.set_show_preview(false);
    assert_eq!(request.options.set_on, Some(SetOn::Lockscreen));
    assert_eq!(request.options.show_preview, Some(false));
    request.set_set_on(SetOn::Background);
    assert_eq!(request.options.set_on, Some(SetOn::Background));
    assert_eq!(request.options.show_preview, Some(false));
    request.set_identifier(WindowIdentifier::new("x11:6"));
    assert_eq!(request.identifier.as_str(), "x11:6");
    assert_eq!(request.options.set_on, Some(SetOn::Background));
}
