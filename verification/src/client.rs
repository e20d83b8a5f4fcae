//! The check that the API is there.

use vstd::prelude::*;
use vstd::string::*;

use crate::cache::API_VERSION;
use crate::error::ClassifiedError;
use crate::sync::{
    Header,
    Method,
    Outcome,
    Request,
    dispatch_view,
    dispatched,
    failure_of,
    headers_view,
    request_from,
    resolve_url,
    resolved_url,
};

verus! {

/// The path of the status of the API.
pub open spec fn status_path() -> Seq<char> {
    API_VERSION@ + "/status"@
}

/// Plans the status check: a `GET` of the status path without any header
/// of this client's own.
pub fn status_check(api_url: &str) -> (r: Result<Request, Outcome>)
    ensures
        dispatch_view(r) == dispatched(
            Method::Get,
            resolved_url(api_url@, status_path()),
            Seq::empty(),
        ),
{
    let mut path = String::from_str(API_VERSION);
    path.append("/status");
    let headers: Vec<Header> = Vec::new();
    assert(headers_view(headers@) =~= Seq::empty());
    request_from(Method::Get, resolve_url(api_url, path.as_str()), headers)
}

/// The result of the status check: `true` for a success response, and
/// else the failure that the outcome stands for.
pub fn status_result(outcome: Outcome) -> (r: Result<bool, ClassifiedError>)
    ensures
        match failure_of(outcome@) {
            Some(error) => r matches Err(e) && e@ == error,
            None => r == Ok::<bool, ClassifiedError>(true),
        },
{
    match outcome.into_fresh() {
        Ok(_) => Ok(true),
        Err(error) => Err(error),
    }
}

} // verus!
