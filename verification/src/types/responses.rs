//! The bodies the master and the volume servers answer with, and the flat
//! success-or-error envelope every master endpoint wraps them in.
//!
//! Cluster-level failures (no free volume, unknown volume id) arrive as
//! HTTP 200 with an `error` field in the body, not as HTTP error statuses:
//! only this envelope tells them apart from success.

use vstd::prelude::*;

use crate::types::Location;

verus! {

/// A placement ticket: the result of a successful `assign`. `fid` routes
/// one physical write to the volume server at `public_url` / `url`.
#[derive(Clone, Debug)]
pub struct AssignResponse {
    pub count: u64,
    pub fid: String,
    pub public_url: String,
    pub url: String,
}

/// The replica locations the master resolved a volume id to; empty only
/// when the cluster itself reports zero locations.
#[derive(Debug)]
pub struct LookupResponse {
    pub locations: Vec<Location>,
}

/// A volume server's answer to an upload: how many bytes it stored.
#[derive(Clone, Copy, Debug)]
pub struct WriteResponse {
    pub size: u64,
}

/// What decoding a response envelope can fail with.
#[derive(Debug)]
pub enum ResponseError {
    /// The cluster reported a business-logic failure in the `error` field.
    WeedError(String),
    /// The body matched neither the success nor the error shape.
    UnexpectedResponse,
}

/// The wire shape of every master-side answer: either the success payload's
/// fields merged flat at top level, or an `error` string — never both
/// meaningfully at once. A body with neither is itself an error.
#[derive(Debug)]
pub struct Response<T> {
    pub response: Option<T>,
    pub error: Option<String>,
}

/// What [`Response::to_result`] returns: the error field wins, then the
/// payload, and a body with neither is an unexpected response.
pub open spec fn to_result_spec<T>(env: Response<T>) -> Result<T, ResponseError> {
    if env.error is Some {
        Err(ResponseError::WeedError(env.error->0))
    } else if env.response is Some {
        Ok(env.response->0)
    } else {
        Err(ResponseError::UnexpectedResponse)
    }
}

impl<T> Response<T> {
    /// Collapse the envelope into a single result-or-error: exactly one of
    /// "has payload" or "has error" is operative, and the error field takes
    /// precedence.
    pub fn to_result(self) -> (r: Result<T, ResponseError>)
        ensures
            r == to_result_spec(self),
    {
        if let Some(error) = self.error {
            Err(ResponseError::WeedError(error))
        } else {
            match self.response {
                None => Err(ResponseError::UnexpectedResponse),
                Some(ok) => Ok(ok),
            }
        }
    }
}

} // verus!
