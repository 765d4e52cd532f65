use vstd::prelude::*;

verus! {

/// The ways in which a portal request can end without a result.
#[derive(Debug, PartialEq, Eq)]
pub enum Error {
    /// The bus call itself failed: the connection was lost, the method is
    /// unknown or the portal refused the arguments. Holds the bus's message.
    Transport(String),
    /// The user dismissed the dialog.
    Cancelled,
    /// The portal reported a failure. Holds the status code of the signal.
    Response(u32),
    /// The portal reported success, but its payload could not be decoded.
    ResponseError,
    /// A value given to a builder could not be parsed.
    ParseError(&'static str),
}

} // verus!
