//! The kinds of failure the service distinguishes.

use vstd::prelude::*;

verus! {

/// Why an operation of the service failed.
#[derive(Clone, Copy, Debug, PartialEq, Eq, Structural)]
pub enum ServiceError {
    /// The identifier that was asked for names no stored post.
    NotFound,
    /// The store could not be reached, refused the statement, or answered
    /// with something that is no post.
    StoreError,
    /// A required setting is missing. Fatal at startup.
    ConfigError,
    /// A parameter of the request could not be parsed.
    BadRequest,
}

/// The HTTP status that stands for each failure.
pub open spec fn spec_status_code(e: ServiceError) -> u16 {
    match e {
        ServiceError::NotFound => 404,
        ServiceError::BadRequest => 400,
        ServiceError::StoreError => 500,
        ServiceError::ConfigError => 500,
    }
}

impl ServiceError {
    /// The HTTP status a request ends with when it fails in this way:
    /// 404 for an absent post, 400 for a malformed parameter, 500 for a
    /// failure of the store. A configuration failure ends the process before
    /// any request is served; should one surface in a handler all the same, it
    /// is the server's fault and reads 500.
    pub fn status_code(self) -> (code: u16)
        ensures
            code == spec_status_code(self),
    {
        match self {
            ServiceError::NotFound => 404,
            ServiceError::BadRequest => 400,
            ServiceError::StoreError => 500,
            ServiceError::ConfigError => 500,
        }
    }
}

} // verus!
