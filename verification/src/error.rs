//! The error type shared by every fallible operation of the crate.
use vstd::prelude::*;

verus! {

/// Why an operation on a session or a response failed.
#[derive(Debug, Clone, PartialEq, Eq)]
pub enum Error {
    /// The session token cannot be sent as a cookie header value.
    InvalidCookie,
    /// The home page holds no anti-forgery token, so the session is not usable.
    TokenNotFound,
    /// The server answered with a status outside the success range; the
    /// status code is kept.
    HttpStatus(u16),
    /// A key of a dictionary-shaped collection is not a 32-bit decimal
    /// integer; the offending key is kept.
    InvalidKey(String),
    /// The request reached the platform, which refused it; the platform's
    /// message is kept as it came.
    RemoteRejected(String),
}

} // verus!
