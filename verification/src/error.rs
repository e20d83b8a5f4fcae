//! Classification of failed calls.
//!
//! A failure is either something the server said (`ServerError`) or the
//! absence of a usable answer (`NetworkError`); the two are never merged.

use vstd::prelude::*;
use vstd::string::*;
use vstd::utf8::*;

use crate::text::{append_decimal, decimal, opt_text};

verus! {

/// A non-success response, as the server described it.
#[derive(Debug, Clone, PartialEq, Eq)]
pub struct ServerError {
    pub status: u16,
    pub title: String,
    pub detail: Option<String>,
}

/// The mathematical value of a `ServerError`.
pub struct ServerErrorView {
    pub status: u16,
    pub title: Seq<char>,
    pub detail: Option<Seq<char>>,
}

impl View for ServerError {
    type V = ServerErrorView;

    open spec fn view(&self) -> ServerErrorView {
        ServerErrorView { status: self.status, title: self.title@, detail: opt_text(self.detail) }
    }
}

/// A failed call: rejected by the server, or never usably answered.
#[derive(Debug, Clone, PartialEq, Eq)]
pub enum ClassifiedError {
    ServerError(ServerError),
    NetworkError { message: String },
}

/// The mathematical value of a `ClassifiedError`.
pub enum ClassifiedErrorView {
    ServerError(ServerErrorView),
    NetworkError { message: Seq<char> },
}

impl View for ClassifiedError {
    type V = ClassifiedErrorView;

    open spec fn view(&self) -> ClassifiedErrorView {
        match self {
            ClassifiedError::ServerError(e) => ClassifiedErrorView::ServerError(e@),
            ClassifiedError::NetworkError { message } => ClassifiedErrorView::NetworkError {
                message: message@,
            },
        }
    }
}

/// The title and detail that `serde_json::from_slice` reads from `body` as
/// an `http_api_problem::HttpApiProblem`; `None` where it reports an error.
pub uninterp spec fn problem_fields(body: Seq<u8>) -> Option<(Seq<char>, Option<Seq<char>>)>;

/// The reason phrase that `http::StatusCode::canonical_reason` gives for the
/// status code `status`; `None` where it has none, or where
/// `StatusCode::from_u16` refuses the number.
pub uninterp spec fn reason_phrase(status: u16) -> Option<Seq<char>>;

/// The title and detail of a parsed problem description, as texts.
pub open spec fn problem_text(p: Option<(String, Option<String>)>) -> Option<
    (Seq<char>, Option<Seq<char>>),
> {
    match p {
        Some((title, detail)) => Some((title@, opt_text(detail))),
        None => None,
    }
}

/// Calls `serde_json::from_slice::<HttpApiProblem>` on `body` and hands out
/// the `title` and `detail` fields of what it parsed. The contract only
/// names the outcome: it is a function of the bytes.
#[verifier::external_body]
fn parse_problem(body: &[u8]) -> (r: Option<(String, Option<String>)>)
    ensures
        problem_text(r) == problem_fields(body@),
{
    match serde_json::from_slice::<http_api_problem::HttpApiProblem>(body) {
        Ok(problem) => Some((problem.title, problem.detail)),
        Err(_) => None,
    }
}

/// Calls `std::str::from_utf8` on `bytes`. It succeeds exactly on valid
/// UTF-8 and then yields the characters that the bytes encode.
#[verifier::external_body]
fn utf8_text(bytes: &[u8]) -> (r: Option<String>)
    ensures
        r is Some <==> valid_utf8(bytes@),
        r matches Some(s) ==> s@ == decode_utf8(bytes@),
{
    match std::str::from_utf8(bytes) {
        Ok(s) => Some(s.to_string()),
        Err(_) => None,
    }
}

/// Calls `StatusCode::from_u16` and then `StatusCode::canonical_reason`.
/// The contract only names the outcome: it is a function of the number.
#[verifier::external_body]
fn canonical_reason(status: u16) -> (r: Option<String>)
    ensures
        opt_text(r) == reason_phrase(status),
{
    match reqwest::StatusCode::from_u16(status) {
        Ok(code) => match code.canonical_reason() {
            Some(reason) => Some(reason.to_string()),
            None => None,
        },
        Err(_) => None,
    }
}

/// The body as text, where it is valid UTF-8 and not empty.
pub open spec fn body_text(body: Seq<u8>) -> Option<Seq<char>> {
    if valid_utf8(body) && body.len() > 0 {
        Some(decode_utf8(body))
    } else {
        None
    }
}

/// The error that a non-success response stands for, given what was read
/// from it: the parsed problem description if there is one; else the body
/// text as the title; else the reason phrase of the status; else `unknown`.
pub open spec fn server_error_of(
    status: u16,
    problem: Option<(Seq<char>, Option<Seq<char>>)>,
    text: Option<Seq<char>>,
    reason: Option<Seq<char>>,
) -> ServerErrorView {
    match problem {
        Some((title, detail)) => ServerErrorView { status, title, detail },
        None => ServerErrorView {
            status,
            title: match text {
                Some(t) if t.len() > 0 => t,
                _ => match reason {
                    Some(r) => r,
                    None => "unknown"@,
                },
            },
            detail: None,
        },
    }
}

/// The error that a response with this status and body is classified as.
pub open spec fn classified(status: u16, body: Seq<u8>) -> ServerErrorView {
    server_error_of(status, problem_fields(body), body_text(body), reason_phrase(status))
}

/// Builds the `ServerError` for a response from what was read from it.
pub fn server_error_from(
    status: u16,
    problem: Option<(String, Option<String>)>,
    text: Option<String>,
    reason: Option<String>,
) -> (e: ServerError)
    ensures
        e@ == server_error_of(status, problem_text(problem), opt_text(text), opt_text(reason)),
{
    match problem {
        Some((title, detail)) => ServerError { status, title, detail },
        None => {
            let usable = match &text {
                Some(t) => t.as_str().unicode_len() > 0,
                None => false,
            };
            let title = if usable {
                text.unwrap()
            } else {
                match reason {
                    Some(r) => r,
                    None => String::from_str("unknown"),
                }
            };
            ServerError { status, title, detail: None }
        },
    }
}

/// Classifies a non-success response. The result is always a
/// `ServerError` that carries the given status.
pub fn extract_error_from_response(status: u16, bytes: &[u8]) -> (e: ServerError)
    ensures
        e@ == classified(status, bytes@),
        e.status == status,
{
    let problem = parse_problem(bytes);
    let text = if bytes.len() > 0 {
        utf8_text(bytes)
    } else {
        None
    };
    let reason = canonical_reason(status);
    server_error_from(status, problem, text, reason)
}

/// The line that describes a `ServerError` to a reader.
pub open spec fn server_error_text(e: ServerErrorView) -> Seq<char> {
    let head = "Server "@ + decimal(e.status as int) + " "@ + e.title;
    match e.detail {
        Some(d) => head + ": "@ + d,
        None => head,
    }
}

/// The line that describes a failure to a reader.
pub open spec fn error_text(e: ClassifiedErrorView) -> Seq<char> {
    match e {
        ClassifiedErrorView::ServerError(s) => server_error_text(s),
        ClassifiedErrorView::NetworkError { message } => message,
    }
}

impl ServerError {
    /// `Server <status> <title>`, followed by `: <detail>` where there is one.
    pub fn to_text(&self) -> (s: String)
        ensures
            s@ == server_error_text(self@),
    {
        let mut s = String::from_str("Server ");
        append_decimal(&mut s, self.status as i64);
        s.append(" ");
        s.append(self.title.as_str());
        match &self.detail {
            Some(d) => {
                s.append(": ");
                s.append(d.as_str());
            },
            None => {},
        }
        s
    }
}

impl ClassifiedError {
    /// A failure that never reached the server, or whose answer was unusable.
    pub fn network(message: String) -> (e: ClassifiedError)
        ensures
            e@ == (ClassifiedErrorView::NetworkError { message: message@ }),
    {
        ClassifiedError::NetworkError { message }
    }

    /// The line that describes this failure to a reader.
    pub fn to_text(&self) -> (s: String)
        ensures
            s@ == error_text(self@),
    {
        match self {
            ClassifiedError::ServerError(e) => e.to_text(),
            ClassifiedError::NetworkError { message } => message.clone(),
        }
    }

    /// Whether the server itself rejected the call.
    pub fn is_server_error(&self) -> (b: bool)
        ensures
            b == (self@ is ServerError),
    {
        match self {
            ClassifiedError::ServerError(_) => true,
            ClassifiedError::NetworkError { .. } => false,
        }
    }
}

} // verus!
