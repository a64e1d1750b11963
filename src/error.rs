//! Why a request is refused.

use vstd::prelude::*;

verus! {

/// Why a request was refused.
#[derive(Clone, Copy, Debug, PartialEq, Eq, Structural)]
pub enum ApiError {
    /// Missing or unknown session, or wrong credentials.
    Unauthorized,
    /// The content was refused by moderation.
    Forbidden,
    /// No such user or post.
    NotFound,
    /// The username is taken.
    Conflict,
    /// Empty content.
    BadRequest,
    /// The store could not complete the request.
    Internal,
}

impl ApiError {
    /// The HTTP status that reports this error.
    pub fn status_code(&self) -> (r: u16)
        ensures
            r == match *self {
                ApiError::Unauthorized => 401u16,
                ApiError::Forbidden => 403u16,
                ApiError::NotFound => 404u16,
                ApiError::Conflict => 409u16,
                ApiError::BadRequest => 400u16,
                ApiError::Internal => 500u16,
            },
    {
        match self {
            ApiError::Unauthorized => 401,
            ApiError::Forbidden => 403,
            ApiError::NotFound => 404,
            ApiError::Conflict => 409,
            ApiError::BadRequest => 400,
            ApiError::Internal => 500,
        }
    }
}

} // verus!
