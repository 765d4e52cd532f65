//! The portals of the desktop, and what every request to them shares.

pub mod file_chooser;
pub mod handle_token;
pub mod request;
pub mod response;
pub mod screenshot;
pub mod wallpaper;

pub use handle_token::{HandleToken, HandleTokenGenerator};

use vstd::prelude::*;

verus! {

/// `url::Url`, a parsed URL. Files are named by such values; nothing here
/// looks inside one.
#[verifier::external_type_specification]
#[verifier::external_body]
pub struct ExUrl(url::Url);

/// The bus name under which the portals are reached.
pub const DESTINATION: &'static str = "org.freedesktop.portal.Desktop";

/// The object path at which the portals are reached.
pub const PATH: &'static str = "/org/freedesktop/portal/desktop";

} // verus!
