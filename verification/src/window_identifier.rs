//! The window on whose behalf a request is made.

use vstd::prelude::*;
use vstd::string::*;

verus! {

/// Names the window that a portal dialog belongs to. The text is whatever
/// the display server handed out for the window; it is passed on as it is.
/// The empty text stands for no window.
#[derive(Debug, PartialEq, Eq)]
pub struct WindowIdentifier {
    handle: String,
}

impl View for WindowIdentifier {
    type V = Seq<char>;

    closed spec fn view(&self) -> Seq<char> {
        self.handle@
    }
}

impl DeepView for WindowIdentifier {
    type V = Seq<char>;

    open spec fn deep_view(&self) -> Seq<char> {
        self@
    }
}

impl Clone for WindowIdentifier {
    fn clone(&self) -> (r: Self)
        ensures
            r@ == self@,
    {
        WindowIdentifier { handle: self.handle.clone() }
    }
}

impl Default for WindowIdentifier {
    /// The identifier of no window.
    fn default() -> (r: Self)
        ensures
            r@ == Seq::<char>::empty(),
    {
        WindowIdentifier { handle: String::new() }
    }
}

impl WindowIdentifier {
    /// Takes the handle of a window as the display server gave it.
    pub fn new(handle: &str) -> (r: Self)
        ensures
            r@ == handle@,
    {
        WindowIdentifier { handle: String::from_str(handle) }
    }

    /// The handle, as it goes on the bus.
    pub fn as_str(&self) -> (r: &str)
        ensures
            r@ == self@,
    {
        self.handle.as_str()
    }
}

} // verus!
