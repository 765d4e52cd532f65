//! Client side of the desktop portal request protocol.
//!
//! A sandboxed application asks a privileged portal for a file, a screenshot
//! or a wallpaper change over the session bus. Every such request follows one
//! lifecycle: a handle token is chosen, the object path of the request is
//! predicted from it, the completion signal is awaited on that path, and the
//! signal's status and payload become a typed result. This crate holds that
//! lifecycle and the option builders of the portals, each with a proved
//! contract. Bus traffic itself is left to the caller.

pub mod camera;
pub mod desktop;
pub mod error;
pub mod invoker;
pub mod text;
pub mod views;
pub mod window_identifier;

pub use error::Error;
pub use window_identifier::WindowIdentifier;
