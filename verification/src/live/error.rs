//! The ways in which a call can fail.

use vstd::prelude::*;
use crate::live::decode::DecodeError;

verus! {

/// What went wrong.
#[derive(Debug)]
pub enum Cause {
    /// The request could not be sent or no response came back: the
    /// connection was refused, the TLS handshake failed, the transfer broke
    /// off. The text is the transport's own account of it.
    Connection(String),
    /// The server kept answering with a status other than success until the
    /// retries were used up. The status is that of its last answer.
    HttpStatus(u16),
    /// The server answered with success, but the body does not have the
    /// shape that was asked for.
    Decode(DecodeError),
}

/// The mathematical value of a [`Cause`].
pub ghost enum CauseView {
    Connection(Seq<char>),
    HttpStatus(u16),
    Decode(DecodeError),
}

impl DeepView for Cause {
    type V = CauseView;

    open spec fn deep_view(&self) -> CauseView {
        match self {
            Cause::Connection(detail) => CauseView::Connection(detail@),
            Cause::HttpStatus(status) => CauseView::HttpStatus(*status),
            Cause::Decode(e) => CauseView::Decode(*e),
        }
    }
}

/// A failed call: the cause, the number of times the request had been sent
/// again when it failed, and the status of the last response, if there was
/// one.
#[derive(Debug)]
pub struct LiveClientError {
    pub cause: Cause,
    pub retries: u16,
    pub status_code: Option<u16>,
}

/// The mathematical value of a [`LiveClientError`].
pub ghost struct LiveClientErrorView {
    pub cause: CauseView,
    pub retries: u16,
    pub status_code: Option<u16>,
}

impl DeepView for LiveClientError {
    type V = LiveClientErrorView;

    open spec fn deep_view(&self) -> LiveClientErrorView {
        LiveClientErrorView {
            cause: self.cause.deep_view(),
            retries: self.retries,
            status_code: self.status_code,
        }
    }
}

/// The result of a call.
pub type LiveClientResult<T> = Result<T, LiveClientError>;

impl LiveClientError {
    /// An error with exactly these parts.
    pub fn new(cause: Cause, retries: u16, status_code: Option<u16>) -> (error: Self)
        ensures
            error.cause == cause,
            error.retries == retries,
            error.status_code == status_code,
    {
        Self { cause, retries, status_code }
    }

    /// Whether the call failed before any response came back.
    pub fn is_connection(&self) -> (yes: bool)
        ensures
            yes == (self.cause is Connection),
    {
        match self.cause {
            Cause::Connection(_) => true,
            _ => false,
        }
    }

    /// Whether the call failed on the status of the server's last answer.
    pub fn is_http_status(&self) -> (yes: bool)
        ensures
            yes == (self.cause is HttpStatus),
    {
        match self.cause {
            Cause::HttpStatus(_) => true,
            _ => false,
        }
    }

    /// Whether the call failed on the shape of the body.
    pub fn is_decode(&self) -> (yes: bool)
        ensures
            yes == (self.cause is Decode),
    {
        match self.cause {
            Cause::Decode(_) => true,
            _ => false,
        }
    }
}

} // verus!
