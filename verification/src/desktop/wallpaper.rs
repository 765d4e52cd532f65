//! Set a wallpaper on lockscreen, background or both.
//!
//! The builder gathers what the `org.freedesktop.portal.Wallpaper` portal is
//! to be asked; sending the request is the caller's part.

use vstd::prelude::*;
use vstd::string::*;

use crate::error::Error;
use crate::text::same_text;
use crate::window_identifier::WindowIdentifier;

verus! {

/// The interface of the portal.
pub const INTERFACE: &'static str = "org.freedesktop.portal.Wallpaper";

/// The method that sets the wallpaper from an open file.
pub const SET_WALLPAPER_FILE_METHOD: &'static str = "SetWallpaperFile";

/// The method that sets the wallpaper from a URI.
pub const SET_WALLPAPER_URI_METHOD: &'static str = "SetWallpaperURI";

/// Where to set the wallpaper on.
#[derive(Debug, Clone, Copy, PartialEq, Eq, Hash, Structural)]
pub enum SetOn {
    /// Set the wallpaper only on the lock-screen.
    Lockscreen,
    /// Set the wallpaper only on the background.
    Background,
    /// Set the wallpaper on both lock-screen and background.
    Both,
}

impl SetOn {
    /// The name of the place, as it is written on the bus and shown to
    /// people.
    pub open spec fn name(self) -> Seq<char> {
        match self {
            SetOn::Lockscreen => "Lockscreen"@,
            SetOn::Background => "Background"@,
            SetOn::Both => "Both"@,
        }
    }

    /// The name of the place.
    pub fn as_str(self) -> (r: &'static str)
        ensures
            r@ == self.name(),
    {
        match self {
            SetOn::Lockscreen => "Lockscreen",
            SetOn::Background => "Background",
            SetOn::Both => "Both",
        }
    }

    /// The name of the place, as an owned string.
    pub fn to_string(&self) -> (r: String)
        ensures
            r@ == self.name(),
    {
        String::from_str(self.as_str())
    }

    /// Reads the name of a place. Any other text is refused.
    pub fn parse(s: &str) -> (r: Result<SetOn, Error>)
        ensures
            forall|place: SetOn| s@ == place.name() ==> r == Ok::<SetOn, Error>(place),
            r is Ok ==> s@ == r->Ok_0.name(),
            r is Err ==> r->Err_0 == Error::ParseError("Failed to parse SetOn, invalid value"),
    {
        proof {
            lemma_names_differ();
            assert(SetOn::Lockscreen.name() == "Lockscreen"@);
            assert(SetOn::Background.name() == "Background"@);
            assert(SetOn::Both.name() == "Both"@);
        }
        if same_text(s, "Lockscreen") {
            Ok(SetOn::Lockscreen)
        } else if same_text(s, "Background") {
            Ok(SetOn::Background)
        } else if same_text(s, "Both") {
            Ok(SetOn::Both)
        } else {
            Err(Error::ParseError("Failed to parse SetOn, invalid value"))
        }
    }
}

/// No two places share a name.
pub proof fn lemma_names_differ()
    ensures
        forall|a: SetOn, b: SetOn| a.name() == b.name() ==> a == b,
{
    reveal_strlit("Lockscreen");
    reveal_strlit("Background");
    reveal_strlit("Both");
    assert("Lockscreen"@[0] == 'L');
    assert("Background"@[0] == 'B');
    assert("Both"@.len() == 4);
}

impl core::str::FromStr for SetOn {
    type Err = Error;

    fn from_str(s: &str) -> (r: Result<Self, Error>)
        ensures
            forall|place: SetOn| s@ == place.name() ==> r == Ok::<SetOn, Error>(place),
            r is Ok ==> s@ == r->Ok_0.name(),
            r is Err ==> r->Err_0 == Error::ParseError("Failed to parse SetOn, invalid value"),
    {
        SetOn::parse(s)
    }
}

impl AsRef<str> for SetOn {
    fn as_ref(&self) -> (r: &str)
        ensures
            r@ == self.name(),
    {
        self.as_str()
    }
}

impl From<SetOn> for &'static str {
    fn from(s: SetOn) -> (r: Self) {
        match s {
            SetOn::Lockscreen => "Lockscreen",
            SetOn::Background => "Background",
            SetOn::Both => "Both",
        }
    }
}

impl vstd::std_specs::convert::FromSpecImpl<SetOn> for &'static str {
    open spec fn obeys_from_spec() -> bool {
        true
    }

    open spec fn from_spec(s: SetOn) -> Self {
        match s {
            SetOn::Lockscreen => "Lockscreen",
            SetOn::Background => "Background",
            SetOn::Both => "Both",
        }
    }
}

/// The wallpaper options as a value.
pub struct WallpaperOptionsView {
    pub show_preview: Option<bool>,
    pub set_on: Option<SetOn>,
}

/// What can be set for a wallpaper change. An option that was never set is
/// left to the portal.
#[derive(Debug)]
pub struct WallpaperOptions {
    pub show_preview: Option<bool>,
    pub set_on: Option<SetOn>,
}

impl View for WallpaperOptions {
    type V = WallpaperOptionsView;

    open spec fn view(&self) -> WallpaperOptionsView {
        WallpaperOptionsView { show_preview: self.show_preview, set_on: self.set_on }
    }
}

impl Default for WallpaperOptions {
    fn default() -> (r: Self)
        ensures
            r@ == (WallpaperOptionsView { show_preview: None, set_on: None }),
    {
        WallpaperOptions { show_preview: None, set_on: None }
    }
}

/// A wallpaper request as a value.
pub struct WallpaperRequestView {
    pub identifier: Seq<char>,
    pub options: WallpaperOptionsView,
}

/// Gathers the settings of a wallpaper change.
#[derive(Debug)]
pub struct WallpaperRequest {
    pub identifier: WindowIdentifier,
    pub options: WallpaperOptions,
}

impl View for WallpaperRequest {
    type V = WallpaperRequestView;

    open spec fn view(&self) -> WallpaperRequestView {
        WallpaperRequestView { identifier: self.identifier@, options: self.options@ }
    }
}

impl Default for WallpaperRequest {
    /// A request for no window, with no option set.
    fn default() -> (r: Self)
        ensures
            r@ == (WallpaperRequestView {
                identifier: Seq::empty(),
                options: WallpaperOptionsView { show_preview: None, set_on: None },
            }),
    {
        WallpaperRequest {
            identifier: WindowIdentifier::default(),
            options: WallpaperOptions::default(),
        }
    }
}

impl WallpaperRequest {
    /// Sets a window identifier.
    #[must_use]
    pub fn identifier(self, identifier: WindowIdentifier) -> (r: Self)
        ensures
            r@ == (WallpaperRequestView { identifier: identifier@, ..self@ }),
    {
        let mut request = self;
        request.set_identifier(identifier);
        request
    }

    /// Sets a window identifier.
    pub fn set_identifier(&mut self, identifier: WindowIdentifier)
        ensures
            final(self)@ == (WallpaperRequestView { identifier: identifier@, ..old(self)@ }),
    {
        self.identifier = identifier;
    }

    /// Whether to show a preview of the picture.
    /// **Note** the portal may decide to show a preview even if this option is
    /// not set.
    #[must_use]
    pub fn show_preview(self, show_preview: bool) -> (r: Self)
        ensures
            r@ == (WallpaperRequestView {
                options: WallpaperOptionsView {
                    show_preview: Some(show_preview),
                    ..self@.options
                },
                ..self@
            }),
    {
        let mut request = self;
        request.set_show_preview(show_preview);
        request
    }

    /// Whether to show a preview of the picture.
    pub fn set_show_preview(&mut self, show_preview: bool)
        ensures
            final(self)@ == (WallpaperRequestView {
                options: WallpaperOptionsView {
                    show_preview: Some(show_preview),
                    ..old(self)@.options
                },
                ..old(self)@
            }),
    {
        self.options.show_preview = Some(show_preview);
    }

    /// Sets where to set the wallpaper on.
    #[must_use]
    pub fn set_on(self, set_on: SetOn) -> (r: Self)
        ensures
            r@ == (WallpaperRequestView {
                options: WallpaperOptionsView { set_on: Some(set_on), ..self@.options },
                ..self@
            }),
    {
        let mut request = self;
        request.set_set_on(set_on);
        request
    }

    /// Sets where to set the wallpaper on.
    pub fn set_set_on(&mut self, set_on: SetOn)
        ensures
            final(self)@ == (WallpaperRequestView {
                options: WallpaperOptionsView { set_on: Some(set_on), ..old(self)@.options },
                ..old(self)@
            }),
    {
        self.options.set_on = Some(set_on);
    }
}

} // verus!
