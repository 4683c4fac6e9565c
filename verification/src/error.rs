//! The error taxonomy of the service and its mapping to HTTP replies.

use vstd::prelude::*;

use crate::decimal::{dec_rep, render_u64};

verus! {

/// An error reported by a moderation-provider reply: the HTTP status it
/// answered with and the message found in its body.
#[derive(Debug, Clone)]
pub struct APILayerError {
    pub status: u16,
    pub message: String,
}

impl APILayerError {
    /// Render the error the way the service logs it.
    pub fn describe(&self) -> (r: String)
        ensures
            r@ == "Status: "@ + dec_rep(self.status as int) + ", Message: "@ + self.message@,
    {
        let mut s = String::from_str("Status: ");
        s.append(render_u64(self.status as u64).as_str());
        s.append(", Message: ");
        s.append(self.message.as_str());
        s
    }
}

/// Every failure the service distinguishes.
///
/// A `DataBaseQueryError` carries the numeric constraint code reported by
/// the store, when the store reported one; the uniqueness violation on
/// account creation is recognized by its code.
#[derive(Debug, Clone)]
pub enum Error {
    ParseError,
    MissingParameters,
    WrongPassword,
    CannotDecryptToken,
    Unauthorized,
    ArgonLibraryError,
    InvalidRange,
    DataBaseQueryError(Option<u32>),
    ReqwestAPIError,
    MiddlewareReqwestAPIError,
    ClientError(APILayerError),
    ServerError(APILayerError),
}

/// The SQL constraint code a store reports when an insert collides with
/// an existing unique key.
pub const DUPLICATE_KEY: u32 = 23505;

impl Error {
    /// Render the error the way the service logs it.
    pub fn describe(&self) -> (r: String)
        ensures
            r@ == spec_describe(self),
    {
        match self {
            Error::ParseError => String::from_str("Cannot parse parameter"),
            Error::MissingParameters => String::from_str("Missing parameter"),
            Error::WrongPassword => String::from_str("Wrong password"),
            Error::CannotDecryptToken => String::from_str("Cannot decrypt token"),
            Error::Unauthorized => String::from_str("Unauthorized to change the resource"),
            Error::ArgonLibraryError => String::from_str("Cannot verify password"),
            Error::InvalidRange => String::from_str("Invalid range"),
            Error::DataBaseQueryError(_) => String::from_str("Cannot update, invalid data."),
            Error::ReqwestAPIError => String::from_str("External API error"),
            Error::MiddlewareReqwestAPIError => String::from_str("External API error"),
            Error::ClientError(err) => {
                let s = String::from_str("External Client error: ");
                s.concat(err.describe().as_str())
            },
            Error::ServerError(err) => {
                let s = String::from_str("External Server error: ");
                s.concat(err.describe().as_str())
            },
        }
    }
}

/// What `describe` returns for each error.
pub open spec fn spec_describe(e: &Error) -> Seq<char> {
    match e {
        Error::ParseError => "Cannot parse parameter"@,
        Error::MissingParameters => "Missing parameter"@,
        Error::WrongPassword => "Wrong password"@,
        Error::CannotDecryptToken => "Cannot decrypt token"@,
        Error::Unauthorized => "Unauthorized to change the resource"@,
        Error::ArgonLibraryError => "Cannot verify password"@,
        Error::InvalidRange => "Invalid range"@,
        Error::DataBaseQueryError(_) => "Cannot update, invalid data."@,
        Error::ReqwestAPIError => "External API error"@,
        Error::MiddlewareReqwestAPIError => "External API error"@,
        Error::ClientError(err) => "External Client error: "@ + "Status: "@ + dec_rep(
            err.status as int,
        ) + ", Message: "@ + err.message@,
        Error::ServerError(err) => "External Server error: "@ + "Status: "@ + dec_rep(
            err.status as int,
        ) + ", Message: "@ + err.message@,
    }
}

/// The HTTP status and body the service replies with for each error.
///
/// Authentication and authorization failures all map to 401 so that the
/// wire reply leaks nothing about which check failed; validation and
/// uniqueness failures map to 422; provider and infrastructure
/// failures — a failing store included — map to 500, with a generic
/// body that carries no internal detail.
pub open spec fn spec_error_response(e: &Error) -> (int, Seq<char>) {
    match e {
        Error::ParseError => (422int, "Cannot parse parameter"@),
        Error::MissingParameters => (422int, "Missing parameter"@),
        Error::WrongPassword => (401int, "Wrong E-mail/Password combination"@),
        Error::CannotDecryptToken => (401int, "Cannot decrypt token"@),
        Error::Unauthorized => (401int, "Unauthorized to change the resource"@),
        Error::ArgonLibraryError => (500int, "Internal Server Error"@),
        Error::InvalidRange => (422int, "Invalid range"@),
        Error::DataBaseQueryError(code) => {
            if *code == Some(DUPLICATE_KEY) {
                (422int, "Account already exists"@)
            } else {
                (500int, "Cannot update data"@)
            }
        },
        Error::ReqwestAPIError => (500int, "Internal Server Error"@),
        Error::MiddlewareReqwestAPIError => (500int, "Internal Server Error"@),
        Error::ClientError(_) => (500int, "Internal Server Error"@),
        Error::ServerError(_) => (500int, "Internal Server Error"@),
    }
}

/// Turn an error into the HTTP status code and body of the reply sent to
/// the client.
pub fn error_response(e: &Error) -> (r: (u16, String))
    ensures
        r.0 as int == spec_error_response(e).0,
        r.1@ == spec_error_response(e).1,
{
    match e {
        Error::ParseError => (422, String::from_str("Cannot parse parameter")),
        Error::MissingParameters => (422, String::from_str("Missing parameter")),
        Error::WrongPassword => (401, String::from_str("Wrong E-mail/Password combination")),
        Error::CannotDecryptToken => (401, String::from_str("Cannot decrypt token")),
        Error::Unauthorized => (401, String::from_str("Unauthorized to change the resource")),
        Error::ArgonLibraryError => (500, String::from_str("Internal Server Error")),
        Error::InvalidRange => (422, String::from_str("Invalid range")),
        Error::DataBaseQueryError(code) => {
            match code {
                Some(c) if *c == DUPLICATE_KEY => (422, String::from_str("Account already exists")),
                _ => (500, String::from_str("Cannot update data")),
            }
        },
        Error::ReqwestAPIError => (500, String::from_str("Internal Server Error")),
        Error::MiddlewareReqwestAPIError => (500, String::from_str("Internal Server Error")),
        Error::ClientError(_) => (500, String::from_str("Internal Server Error")),
        Error::ServerError(_) => (500, String::from_str("Internal Server Error")),
    }
}

} // verus!
