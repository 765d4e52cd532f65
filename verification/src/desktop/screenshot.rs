//! Take a screenshot or pick a color.
//!
//! The builders gather what the `org.freedesktop.portal.Screenshot` portal
//! is to be asked; sending the request is the caller's part.

use vstd::prelude::*;

use crate::window_identifier::WindowIdentifier;

verus! {

/// The interface of the portal.
pub const INTERFACE: &'static str = "org.freedesktop.portal.Screenshot";

/// The method that takes a screenshot.
pub const SCREENSHOT_METHOD: &'static str = "Screenshot";

/// The method that picks the color of a pixel.
pub const PICK_COLOR_METHOD: &'static str = "PickColor";

/// Gathers the settings of a request for the color of a pixel.
#[derive(Debug)]
pub struct ColorRequest {
    pub identifier: WindowIdentifier,
}

impl View for ColorRequest {
    type V = Seq<char>;

    /// The window that the request is made for.
    open spec fn view(&self) -> Seq<char> {
        self.identifier@
    }
}

impl Default for ColorRequest {
    /// A request for no window.
    fn default() -> (r: Self)
        ensures
            r@ == Seq::<char>::empty(),
    {
        ColorRequest { identifier: WindowIdentifier::default() }
    }
}

impl ColorRequest {
    /// Sets a window identifier.
    #[must_use]
    pub fn identifier(self, identifier: WindowIdentifier) -> (r: Self)
        ensures
            r@ == identifier@,
    {
        let mut request = self;
        request.identifier = identifier;
        request
    }
}

/// The screenshot options as a value.
pub struct ScreenshotOptionsView {
    pub modal: Option<bool>,
    pub interactive: Option<bool>,
}

/// What can be set for a screenshot. An option that was never set is left
/// to the portal.
#[derive(Debug)]
pub struct ScreenshotOptions {
    pub modal: Option<bool>,
    pub interactive: Option<bool>,
}

impl View for ScreenshotOptions {
    type V = ScreenshotOptionsView;

    open spec fn view(&self) -> ScreenshotOptionsView {
        ScreenshotOptionsView { modal: self.modal, interactive: self.interactive }
    }
}

impl Default for ScreenshotOptions {
    fn default() -> (r: Self)
        ensures
            r@ == (ScreenshotOptionsView { modal: None, interactive: None }),
    {
        ScreenshotOptions { modal: None, interactive: None }
    }
}

/// A screenshot request as a value.
pub struct ScreenshotRequestView {
    pub identifier: Seq<char>,
    pub options: ScreenshotOptionsView,
}

/// Gathers the settings of a screenshot.
#[derive(Debug)]
pub struct ScreenshotRequest {
    pub options: ScreenshotOptions,
    pub identifier: WindowIdentifier,
}

impl View for ScreenshotRequest {
    type V = ScreenshotRequestView;

    open spec fn view(&self) -> ScreenshotRequestView {
        ScreenshotRequestView { identifier: self.identifier@, options: self.options@ }
    }
}

impl Default for ScreenshotRequest {
    /// A request for no window, with no option set.
    fn default() -> (r: Self)
        ensures
            r@ == (ScreenshotRequestView {
                identifier: Seq::empty(),
                options: ScreenshotOptionsView { modal: None, interactive: None },
            }),
    {
        ScreenshotRequest {
            options: ScreenshotOptions::default(),
            identifier: WindowIdentifier::default(),
        }
    }
}

impl ScreenshotRequest {
    /// Sets a window identifier.
    #[must_use]
    pub fn identifier(self, identifier: WindowIdentifier) -> (r: Self)
        ensures
            r@ == (ScreenshotRequestView { identifier: identifier@, ..self@ }),
    {
        let mut request = self;
        request.identifier = identifier;
        request
    }

    /// Sets a window identifier.
    pub fn set_identifier(&mut self, identifier: WindowIdentifier)
        ensures
            final(self)@ == (ScreenshotRequestView { identifier: identifier@, ..old(self)@ }),
    {
        self.identifier = identifier;
    }

    /// Sets whether the dialog should be a modal.
    #[must_use]
    pub fn modal(self, modal: bool) -> (r: Self)
        ensures
            r@ == (ScreenshotRequestView {
                options: ScreenshotOptionsView { modal: Some(modal), ..self@.options },
                ..self@
            }),
    {
        let mut request = self;
        request.set_modal(modal);
        request
    }

    /// Sets whether the dialog should be a modal.
    pub fn set_modal(&mut self, modal: bool)
        ensures
            final(self)@ == (ScreenshotRequestView {
                options: ScreenshotOptionsView { modal: Some(modal), ..old(self)@.options },
                ..old(self)@
            }),
    {
        self.options.modal = Some(modal);
    }

    /// Sets whether the dialog should offer customization before a screenshot
    /// or not.
    #[must_use]
    pub fn interactive(self, interactive: bool) -> (r: Self)
        ensures
            r@ == (ScreenshotRequestView {
                options: ScreenshotOptionsView {
                    interactive: Some(interactive),
                    ..self@.options
                },
                ..self@
            }),
    {
        let mut request = self;
        request.set_interactive(interactive);
        request
    }

    /// Sets whether the dialog should offer customization before a screenshot
    /// or not.
    pub fn set_interactive(&mut self, interactive: bool)
        ensures
            final(self)@ == (ScreenshotRequestView {
                options: ScreenshotOptionsView {
                    interactive: Some(interactive),
                    ..old(self)@.options
                },
                ..old(self)@
            }),
    {
        self.options.interactive = Some(interactive);
    }
}

} // verus!
