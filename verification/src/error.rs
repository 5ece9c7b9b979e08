//! The error that every layer of the gateway reports: a kind, which fixes the
//! HTTP status, and a description for the caller.

use vstd::prelude::*;

verus! {

/// The kinds of failure, each answered with one HTTP status.
#[derive(Debug, Clone, Copy, PartialEq, Eq, Structural)]
pub enum ErrorKind {
    /// Malformed headers, unknown tenant, bad query, chat mirror asked for but
    /// not configured.
    BadRequest,
    /// Missing or unreadable API token, or no storage token could be had.
    Unauthorized,
    /// Missing or unreadable `Content-Length`.
    LengthRequired,
    /// The storage or chat service refused or answered unreadably.
    UpstreamError,
    /// An operation of the gateway itself failed.
    InternalError,
}

/// The HTTP status that answers a failure of the given kind.
pub open spec fn status_of(kind: ErrorKind) -> u16 {
    match kind {
        ErrorKind::BadRequest => 400,
        ErrorKind::Unauthorized => 401,
        ErrorKind::LengthRequired => 411,
        ErrorKind::UpstreamError => 500,
        ErrorKind::InternalError => 500,
    }
}

/// A failure with its kind and a description for the caller.
#[derive(Debug, Clone, PartialEq, Eq)]
pub struct ErrorWithStatusAndDesc {
    pub kind: ErrorKind,
    pub desc: String,
}

/// The mathematical content of an [`ErrorWithStatusAndDesc`].
pub ghost struct ErrorView {
    pub kind: ErrorKind,
    pub desc: Seq<char>,
}

impl View for ErrorWithStatusAndDesc {
    type V = ErrorView;

    open spec fn view(&self) -> ErrorView {
        ErrorView { kind: self.kind, desc: self.desc@ }
    }
}

/// The failure of the given kind with the given description.
pub open spec fn failure(kind: ErrorKind, desc: Seq<char>) -> ErrorView {
    ErrorView { kind, desc }
}

impl ErrorWithStatusAndDesc {
    /// A failure of the given kind with the given description.
    pub fn new_with_status_desc(kind: ErrorKind, desc: &str) -> (r: Self)
        ensures
            r@ == failure(kind, desc@),
    {
        ErrorWithStatusAndDesc { kind, desc: String::from_str(desc) }
    }

    /// The HTTP status that answers this failure.
    pub fn status(&self) -> (r: u16)
        ensures
            r == status_of(self.kind),
    {
        match self.kind {
            ErrorKind::BadRequest => 400,
            ErrorKind::Unauthorized => 401,
            ErrorKind::LengthRequired => 411,
            ErrorKind::UpstreamError => 500,
            ErrorKind::InternalError => 500,
        }
    }
}

} // verus!
