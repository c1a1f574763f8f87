//! The closed error taxonomy: every failure a protocol call can surface,
//! classified so that callers can branch on the kind rather than on a
//! message string.

use vstd::prelude::*;

use crate::types::responses::ResponseError;

verus! {

/// The kind of a [`WeedFSError`]: a closed set callers can branch on.
#[derive(Clone, Copy, Debug, PartialEq, Eq, Structural)]
pub enum ErrorKind {
    /// DNS, connect, send or receive failure, or a non-2xx HTTP status
    /// other than 404 from a volume server.
    TransportFailure,
    /// A volume server answered a download with HTTP 404: the replica's
    /// bytes are gone even though the master still listed the location.
    NotFound,
    /// A body that did not parse as JSON, or matched neither the success
    /// nor the error envelope shape.
    MalformedResponse,
    /// A cluster business-logic failure delivered through the `error`
    /// field of the response envelope (for example: no free volume).
    ClusterReportedError,
    /// A file id lacked the `,` separator or its volume-id prefix was not
    /// a number.
    MalformedFileId,
    /// A zero-length or non-regular-file upload source, or a URL assembly
    /// failure.
    InvalidInput,
}

/// A protocol failure: a kind to branch on, plus a message for display.
#[derive(Debug)]
pub struct WeedFSError {
    kind: ErrorKind,
    message: String,
}

impl WeedFSError {
    /// The kind of this error, as an abstract value.
    pub closed spec fn spec_kind(&self) -> ErrorKind {
        self.kind
    }

    /// The message carried by this error, as an abstract value.
    pub closed spec fn spec_message(&self) -> Seq<char> {
        self.message@
    }

    /// The kind of this error; the basis for caller-side branching.
    pub fn kind(&self) -> (k: ErrorKind)
        ensures
            k == self.spec_kind(),
    {
        self.kind
    }

    /// The message carried by this error; empty when the kind says it all.
    pub fn message(&self) -> (m: &str)
        ensures
            m@ == self.spec_message(),
    {
        self.message.as_str()
    }

    /// An error that is fully described by its kind.
    pub fn simple(kind: ErrorKind) -> (e: WeedFSError)
        ensures
            e.spec_kind() == kind,
            e.spec_message() == Seq::<char>::empty(),
    {
        WeedFSError { kind, message: String::new() }
    }

    /// An error of the given kind carrying a message.
    pub fn with_message(kind: ErrorKind, message: String) -> (e: WeedFSError)
        ensures
            e.spec_kind() == kind,
            e.spec_message() == message@,
    {
        WeedFSError { kind, message }
    }

    /// Classify an envelope-decoding failure: a cluster-reported message
    /// keeps its text, and an unrecognized body shape is a malformed
    /// response.
    pub fn from_response_error(e: ResponseError) -> (r: WeedFSError)
        ensures
            e matches ResponseError::WeedError(m) ==> r.spec_kind()
                == ErrorKind::ClusterReportedError && r.spec_message() == m@,
            e is UnexpectedResponse ==> r.spec_kind() == ErrorKind::MalformedResponse,
    {
        match e {
            ResponseError::WeedError(message) => WeedFSError {
                kind: ErrorKind::ClusterReportedError,
                message,
            },
            ResponseError::UnexpectedResponse => WeedFSError {
                kind: ErrorKind::MalformedResponse,
                message: String::new(),
            },
        }
    }
}

} // verus!
