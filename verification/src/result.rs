//! What is handed to the host: a result that is either the value or the
//! failure, and never a bare value.
//!
//! The types here hold plain values. Turning them into the pointers and
//! lengths of the calling convention, and releasing those again, is the
//! caller's narrow edge.

use vstd::prelude::*;
use vstd::string::*;

use crate::error::{ClassifiedError, ClassifiedErrorView, ServerError, ServerErrorView};
use crate::text::opt_text;

verus! {

/// A server's failure as it is handed to the host. No `detail` is handed
/// over as no text at all.
#[derive(Debug, Clone, PartialEq, Eq)]
pub struct FFIServerError {
    pub status: u16,
    pub title: String,
    pub detail: Option<String>,
}

/// A failure as it is handed to the host: what the server said, or the
/// message of a call that was never usably answered.
#[derive(Debug, Clone, PartialEq, Eq)]
pub enum FFIError {
    Server(FFIServerError),
    Network(String),
}

/// What every call hands to the host.
#[derive(Debug, Clone, PartialEq, Eq)]
pub enum FFIResult<T> {
    Okay(T),
    Error(FFIError),
}

/// The mathematical value of an `FFIError`.
pub enum FFIErrorView {
    Server(ServerErrorView),
    Network(Seq<char>),
}

impl View for FFIServerError {
    type V = ServerErrorView;

    open spec fn view(&self) -> ServerErrorView {
        ServerErrorView { status: self.status, title: self.title@, detail: opt_text(self.detail) }
    }
}

impl View for FFIError {
    type V = FFIErrorView;

    open spec fn view(&self) -> FFIErrorView {
        match self {
            FFIError::Server(e) => FFIErrorView::Server(e@),
            FFIError::Network(message) => FFIErrorView::Network(message@),
        }
    }
}

/// The failure as the host sees it: the two classes stay apart.
pub open spec fn ffi_error_of(error: ClassifiedErrorView) -> FFIErrorView {
    match error {
        ClassifiedErrorView::ServerError(e) => FFIErrorView::Server(e),
        ClassifiedErrorView::NetworkError { message } => FFIErrorView::Network(message),
    }
}

impl FFIServerError {
    /// The server's failure as it is handed to the host.
    pub fn from(server_error: &ServerError) -> (e: FFIServerError)
        ensures
            e@ == server_error@,
    {
        FFIServerError {
            status: server_error.status,
            title: server_error.title.clone(),
            detail: match &server_error.detail {
                Some(detail) => Some(detail.clone()),
                None => None,
            },
        }
    }
}

impl FFIError {
    /// The failure as it is handed to the host.
    pub fn from(error: ClassifiedError) -> (e: FFIError)
        ensures
            e@ == ffi_error_of(error@),
    {
        match error {
            ClassifiedError::ServerError(server_error) => FFIError::Server(
                FFIServerError::from(&server_error),
            ),
            ClassifiedError::NetworkError { message } => FFIError::Network(message),
        }
    }
}

impl<T> FFIResult<T> {
    /// The result of a call as it is handed to the host.
    pub fn from(result: Result<T, ClassifiedError>) -> (r: FFIResult<T>)
        ensures
            match result {
                Ok(value) => r == FFIResult::Okay(value),
                Err(error) => r matches FFIResult::Error(e) && e@ == ffi_error_of(error@),
            },
    {
        match result {
            Ok(value) => FFIResult::Okay(value),
            Err(error) => FFIResult::Error(FFIError::from(error)),
        }
    }
}

} // verus!
