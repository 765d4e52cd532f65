//! From the status and payload of a completion signal to a typed result.
//!
//! The status alone decides the outcome: 0 is success, 1 means that the user
//! cancelled, anything else is a failure of the portal. Only a successful
//! signal has a payload worth decoding, and only then is the decoder run.

use vstd::prelude::*;

use crate::error::Error;

verus! {

/// What a completion signal says, before its payload is decoded.
#[derive(Debug, PartialEq, Eq)]
pub enum ResponseOutcome<P> {
    /// Status 0. Holds the payload as it came.
    Success(P),
    /// Status 1: the user dismissed the dialog.
    Cancelled,
    /// Any other status. Holds the status code.
    Error(u32),
}

/// What a decoder's answer becomes: the value, or a decoding error.
pub open spec fn decoded_result<T>(decoded: Option<T>) -> Result<T, Error> {
    match decoded {
        Some(value) => Ok(value),
        None => Err(Error::ResponseError),
    }
}

/// `result` is what a signal with `status` and `payload` maps to, given a
/// decoder that may be asked about the payload.
pub open spec fn is_mapped<P, T, D: FnOnce(P) -> Option<T>>(
    status: u32,
    payload: P,
    decode: D,
    result: Result<T, Error>,
) -> bool {
    if status == 0 {
        exists|decoded: Option<T>|
            decode.ensures((payload,), decoded) && result == decoded_result(decoded)
    } else if status == 1 {
        result == Err::<T, Error>(Error::Cancelled)
    } else {
        result == Err::<T, Error>(Error::Response(status))
    }
}

impl<P> ResponseOutcome<P> {
    /// The outcome that `status` selects.
    pub open spec fn of(status: u32, payload: P) -> Self {
        if status == 0 {
            ResponseOutcome::Success(payload)
        } else if status == 1 {
            ResponseOutcome::Cancelled
        } else {
            ResponseOutcome::Error(status)
        }
    }

    /// Sorts a signal by its status. The payload is kept only on success.
    pub fn from_signal(status: u32, payload: P) -> (r: Self)
        ensures
            r == Self::of(status, payload),
    {
        if status == 0 {
            ResponseOutcome::Success(payload)
        } else if status == 1 {
            ResponseOutcome::Cancelled
        } else {
            ResponseOutcome::Error(status)
        }
    }

    /// Turns the outcome into a result. The decoder is run on a successful
    /// payload and on nothing else; where it gives no value, the result is
    /// `ResponseError`.
    pub fn into_result<T, D: FnOnce(P) -> Option<T>>(self, decode: D) -> (r: Result<T, Error>)
        requires
            self matches ResponseOutcome::Success(payload) ==> decode.requires((payload,)),
        ensures
            match self {
                ResponseOutcome::Success(payload) => exists|decoded: Option<T>|
                    decode.ensures((payload,), decoded) && r == decoded_result(decoded),
                ResponseOutcome::Cancelled => r == Err::<T, Error>(Error::Cancelled),
                ResponseOutcome::Error(code) => r == Err::<T, Error>(Error::Response(code)),
            },
    {
        match self {
            ResponseOutcome::Success(payload) => {
                let ghost given = payload;
                let decoded = decode(payload);
                let result = match decoded {
                    Some(value) => Ok(value),
                    None => Err(Error::ResponseError),
                };
                assert(decode.ensures((given,), decoded) && result == decoded_result(decoded));
                result
            },
            ResponseOutcome::Cancelled => Err(Error::Cancelled),
            ResponseOutcome::Error(code) => Err(Error::Response(code)),
        }
    }
}

/// Maps a completion signal to the caller's result.
///
/// Status 0 decodes the payload: a decoded value is the result, a payload
/// that does not decode is `ResponseError`. Status 1 is `Cancelled` whatever
/// the payload holds, and the decoder is not run. Any other status is
/// `Response` with that status.
pub fn map<P, T, D: FnOnce(P) -> Option<T>>(status: u32, payload: P, decode: D) -> (r: Result<
    T,
    Error,
>)
    requires
        status == 0 ==> decode.requires((payload,)),
    ensures
        is_mapped(status, payload, decode, r),
        status == 0 && r is Ok ==> decode.ensures((payload,), Some(r->Ok_0)),
        status == 0 && r is Err ==> r->Err_0 == Error::ResponseError && decode.ensures(
            (payload,),
            None,
        ),
        status == 1 ==> r == Err::<T, Error>(Error::Cancelled),
        status >= 2 ==> r == Err::<T, Error>(Error::Response(status)),
{
    ResponseOutcome::from_signal(status, payload).into_result(decode)
}

} // verus!
