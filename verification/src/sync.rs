//! The synchroniser: what to ask of the API, and what to do with its answer.
//!
//! A call is driven from outside. The caller sends the planned request,
//! hands each outcome to the state machine as an event, and performs the
//! action that the machine answers with: decoding a body, reading the
//! cache, or writing it through. A fetch revalidates with the validator
//! token it has and falls back to the cache; a mutation never does.

use vstd::prelude::*;
use vstd::string::*;

use reqwest::header::HeaderMap;

use crate::cache::{Metadata, MetadataView, Resource, header_texts, miss_message};
use crate::error::{
    ClassifiedError,
    ClassifiedErrorView,
    classified,
    extract_error_from_response,
};

verus! {

/// One header of a request: its name and its value.
#[derive(Debug, Clone, PartialEq, Eq)]
pub struct Header {
    pub name: String,
    pub value: String,
}

/// The mathematical value of a `Header`.
pub struct HeaderView {
    pub name: Seq<char>,
    pub value: Seq<char>,
}

impl View for Header {
    type V = HeaderView;

    open spec fn view(&self) -> HeaderView {
        HeaderView { name: self.name@, value: self.value@ }
    }
}

/// The headers of a request as mathematical values.
pub open spec fn headers_view(headers: Seq<Header>) -> Seq<HeaderView> {
    headers.map_values(|h: Header| h@)
}

/// The method of a request.
#[derive(Debug, Clone, Copy, PartialEq, Eq, Structural)]
pub enum Method {
    Get,
    Post,
    Patch,
}

/// A request to send: everything but the body, which the caller encodes.
#[derive(Debug, Clone, PartialEq, Eq)]
pub struct Request {
    pub method: Method,
    pub url: String,
    pub headers: Vec<Header>,
}

/// The mathematical value of a `Request`.
pub struct RequestView {
    pub method: Method,
    pub url: Seq<char>,
    pub headers: Seq<HeaderView>,
}

impl View for Request {
    type V = RequestView;

    open spec fn view(&self) -> RequestView {
        RequestView { method: self.method, url: self.url@, headers: headers_view(self.headers@) }
    }
}

/// What `Url::parse` on `base` followed by `Url::join` with `path` gives:
/// the joined URL as text, or the message of the `ParseError` of the step
/// that failed.
pub uninterp spec fn resolved_url(base: Seq<char>, path: Seq<char>) -> Result<
    Seq<char>,
    Seq<char>,
>;

/// The texts of a result that holds strings.
pub open spec fn result_text(r: Result<String, String>) -> Result<Seq<char>, Seq<char>> {
    match r {
        Ok(s) => Ok(s@),
        Err(s) => Err(s@),
    }
}

/// Parses `base` with `reqwest::Url::parse` and resolves `path` against it
/// with `Url::join`. The contract only names the outcome: it is a function
/// of the two texts.
#[verifier::external_body]
pub(crate) fn resolve_url(base: &str, path: &str) -> (r: Result<String, String>)
    ensures
        result_text(r) == resolved_url(base@, path@),
{
    match reqwest::Url::parse(base) {
        Ok(url) => match url.join(path) {
            Ok(joined) => Ok(String::from(joined)),
            Err(error) => Err(error.to_string()),
        },
        Err(error) => Err(error.to_string()),
    }
}

/// The media type of every payload.
pub const OCTET_STREAM: &'static str = "application/octet-stream";

/// The headers of a fetch: the API key, the accepted media type, and the
/// validator token where one is known.
pub open spec fn fetch_headers(api_key: Seq<char>, validator: Option<Seq<char>>) -> Seq<
    HeaderView,
> {
    let always = seq![
        HeaderView { name: "Api-Key"@, value: api_key },
        HeaderView { name: "Accept"@, value: OCTET_STREAM@ },
    ];
    match validator {
        Some(token) => always.push(HeaderView { name: "If-None-Match"@, value: token }),
        None => always,
    }
}

/// The headers of a mutation: the API key and the media type of the body.
/// A mutation is never conditional.
pub open spec fn mutate_headers(api_key: Seq<char>) -> Seq<HeaderView> {
    seq![
        HeaderView { name: "Api-Key"@, value: api_key },
        HeaderView { name: "Content-Type"@, value: OCTET_STREAM@ },
    ]
}

/// The validator token that the metadata of a cached record supplies.
pub open spec fn validator(metadata: Option<MetadataView>) -> Option<Seq<char>> {
    match metadata {
        Some(m) => m.etag,
        None => None,
    }
}

/// A fetch that is ready to go: where to ask, or why there is nowhere to
/// ask; with which key; and what the answer is cached as.
#[derive(Debug, PartialEq, Eq)]
pub struct FetchPlan {
    pub url: Result<String, String>,
    pub api_key: String,
    pub resource: Resource,
}

/// The mathematical value of a `FetchPlan`.
pub struct FetchPlanView {
    pub url: Result<Seq<char>, Seq<char>>,
    pub api_key: Seq<char>,
    pub resource: Resource,
}

impl View for FetchPlan {
    type V = FetchPlanView;

    open spec fn view(&self) -> FetchPlanView {
        FetchPlanView {
            url: result_text(self.url),
            api_key: self.api_key@,
            resource: self.resource,
        }
    }
}

/// A mutation that is ready to go: what goes to the network, the draft
/// that is its body once encoded, and where the saved record is written
/// through.
#[derive(Debug, PartialEq, Eq)]
pub struct MutationPlan<D> {
    pub request: Result<Request, Outcome>,
    pub target: Target,
    pub draft: D,
}

/// What goes to the network for a call: the request, or, where no URL
/// could be built, the outcome that stands for it. A URL that cannot be
/// built is a failure of the transport like a connection that cannot.
pub open spec fn dispatched(
    method: Method,
    url: Result<Seq<char>, Seq<char>>,
    headers: Seq<HeaderView>,
) -> Result<RequestView, OutcomeView> {
    match url {
        Ok(url) => Ok(RequestView { method, url, headers }),
        Err(cause) => Err(OutcomeView::TransportFailure { cause }),
    }
}

/// The views of what goes to the network.
pub open spec fn dispatch_view(r: Result<Request, Outcome>) -> Result<RequestView, OutcomeView> {
    match r {
        Ok(request) => Ok(request@),
        Err(outcome) => Err(outcome@),
    }
}

/// The fetch of `path` at the API at `api_url`, cached as `resource`.
pub open spec fn planned_fetch(
    api_url: Seq<char>,
    api_key: Seq<char>,
    path: Seq<char>,
    resource: Resource,
) -> FetchPlanView {
    FetchPlanView { url: resolved_url(api_url, path), api_key, resource }
}

/// Whether `plan` is the plan of the mutation of `path` at the API at
/// `api_url` that writes through at `target`.
pub open spec fn plans_request<D>(
    plan: MutationPlan<D>,
    method: Method,
    api_url: Seq<char>,
    api_key: Seq<char>,
    path: Seq<char>,
    target: Target,
) -> bool {
    &&& dispatch_view(plan.request) == dispatched(
        method,
        resolved_url(api_url, path),
        mutate_headers(api_key),
    )
    &&& plan.target == target
}

/// The view of optional metadata.
pub open spec fn metadata_view(metadata: Option<&Metadata>) -> Option<MetadataView> {
    match metadata {
        Some(m) => Some(m@),
        None => None,
    }
}

fn header(name: &str, value: &str) -> (h: Header)
    ensures
        h@ == (HeaderView { name: name@, value: value@ }),
{
    Header { name: String::from_str(name), value: String::from_str(value) }
}

/// What goes to the network for a call with this resolved URL and these
/// headers.
pub fn request_from(method: Method, url: Result<String, String>, headers: Vec<Header>) -> (r:
    Result<Request, Outcome>)
    ensures
        dispatch_view(r) == dispatched(method, result_text(url), headers_view(headers@)),
{
    match url {
        Ok(url) => Ok(Request { method, url, headers }),
        Err(cause) => Err(Outcome::TransportFailure { cause }),
    }
}

/// Plans the fetch of `path` at the API at `api_url`, to be cached as
/// `resource`.
pub fn plan_fetch(api_url: &str, api_key: &str, path: &str, resource: Resource) -> (plan:
    FetchPlan)
    ensures
        plan@ == planned_fetch(api_url@, api_key@, path@, resource),
{
    FetchPlan { url: resolve_url(api_url, path), api_key: String::from_str(api_key), resource }
}

impl FetchPlan {
    /// What goes to the network for this fetch. The metadata of the cached
    /// record, where there is one, supplies the validator token; that
    /// there is none is no error.
    pub fn request(&self, metadata: Option<&Metadata>) -> (r: Result<Request, Outcome>)
        ensures
            dispatch_view(r) == dispatched(
                Method::Get,
                self@.url,
                fetch_headers(self.api_key@, validator(metadata_view(metadata))),
            ),
    {
        let mut headers: Vec<Header> = Vec::new();
        headers.push(header("Api-Key", self.api_key.as_str()));
        headers.push(header("Accept", OCTET_STREAM));
        match metadata {
            Some(m) => match &m.etag {
                Some(token) => {
                    headers.push(header("If-None-Match", token.as_str()));
                },
                None => {},
            },
            None => {},
        }
        assert(headers_view(headers@) =~= fetch_headers(
            self.api_key@,
            validator(metadata_view(metadata)),
        ));
        let url = match &self.url {
            Ok(url) => Ok(url.clone()),
            Err(cause) => Err(cause.clone()),
        };
        request_from(Method::Get, url, headers)
    }
}

/// Makes the plan of a mutation from its resolved URL.
pub fn mutation_plan_from<D>(
    method: Method,
    url: Result<String, String>,
    api_key: &str,
    target: Target,
    draft: D,
) -> (plan: MutationPlan<D>)
    ensures
        dispatch_view(plan.request) == dispatched(
            method,
            result_text(url),
            mutate_headers(api_key@),
        ),
        plan.target == target,
        plan.draft == draft,
{
    let mut headers: Vec<Header> = Vec::new();
    headers.push(header("Api-Key", api_key));
    headers.push(header("Content-Type", OCTET_STREAM));
    assert(headers_view(headers@) =~= mutate_headers(api_key@));
    MutationPlan { request: request_from(method, url, headers), target, draft }
}

/// Plans the mutation that sends `draft` to `path` at the API at
/// `api_url`.
pub fn plan_mutation<D>(
    method: Method,
    api_url: &str,
    api_key: &str,
    path: &str,
    target: Target,
    draft: D,
) -> (plan: MutationPlan<D>)
    ensures
        plans_request(plan, method, api_url@, api_key@, path@, target),
        plan.draft == draft,
{
    mutation_plan_from(method, resolve_url(api_url, path), api_key, target, draft)
}

/// What the transport made of one request.
#[derive(Debug, PartialEq, Eq)]
pub enum Outcome {
    /// A success response with a body.
    Fresh { status: u16, body: Vec<u8>, headers: HeaderMap },
    /// The server says that the validator token still holds.
    NotModified,
    /// Any other response.
    ServerFailure { status: u16, body: Vec<u8> },
    /// No response: the request could not be built, sent or read.
    TransportFailure { cause: String },
}

/// The mathematical value of an `Outcome`.
pub enum OutcomeView {
    Fresh { status: u16, body: Seq<u8>, headers: Map<Seq<char>, Option<Seq<char>>> },
    NotModified,
    ServerFailure { status: u16, body: Seq<u8> },
    TransportFailure { cause: Seq<char> },
}

impl View for Outcome {
    type V = OutcomeView;

    open spec fn view(&self) -> OutcomeView {
        match self {
            Outcome::Fresh { status, body, headers } => OutcomeView::Fresh {
                status: *status,
                body: body@,
                headers: header_texts(*headers),
            },
            Outcome::NotModified => OutcomeView::NotModified,
            Outcome::ServerFailure { status, body } => OutcomeView::ServerFailure {
                status: *status,
                body: body@,
            },
            Outcome::TransportFailure { cause } => OutcomeView::TransportFailure { cause: cause@ },
        }
    }
}

/// The status that says "not modified".
pub const NOT_MODIFIED: u16 = 304;

/// Whether a status is a success: 200 to 299.
pub open spec fn is_success(status: u16) -> bool {
    200 <= status < 300
}

/// The outcome that a response stands for.
pub open spec fn outcome_of(
    status: u16,
    body: Seq<u8>,
    headers: Map<Seq<char>, Option<Seq<char>>>,
) -> OutcomeView {
    if is_success(status) {
        OutcomeView::Fresh { status, body, headers }
    } else if status == NOT_MODIFIED {
        OutcomeView::NotModified
    } else {
        OutcomeView::ServerFailure { status, body }
    }
}

/// Classifies the raw outcome of a request that was answered.
pub fn classify_response(status: u16, body: Vec<u8>, headers: HeaderMap) -> (outcome: Outcome)
    ensures
        outcome@ == outcome_of(status, body@, header_texts(headers)),
{
    if 200 <= status && status < 300 {
        Outcome::Fresh { status, body, headers }
    } else if status == NOT_MODIFIED {
        Outcome::NotModified
    } else {
        Outcome::ServerFailure { status, body }
    }
}

/// Where a served value came from.
#[derive(Debug, Clone, Copy, PartialEq, Eq, Structural)]
pub enum Source {
    /// From the body of a success response.
    Fresh,
    /// From the cache, after the server said "not modified".
    Revalidated,
    /// From the cache, after the call failed.
    Fallback,
}

/// What the caller is to do next.
#[derive(Debug, PartialEq, Eq)]
pub enum Action {
    /// Decode the body that the state holds, and report `Decoded`.
    Decode,
    /// Read the cached body of the resource, and report `CacheRead`.
    ReadCache { resource: Resource },
    /// Persist the body, then the metadata that the headers give, under the
    /// resource. A failure to write is of no concern to the call.
    WriteCache { resource: Resource, body: Vec<u8>, headers: HeaderMap },
    /// Nothing: the call is over, or the event did not apply.
    Nothing,
}

/// The mathematical value of an `Action`.
pub enum ActionView {
    Decode,
    ReadCache { resource: Resource },
    WriteCache { resource: Resource, body: Seq<u8>, headers: Map<Seq<char>, Option<Seq<char>>> },
    Nothing,
}

impl View for Action {
    type V = ActionView;

    open spec fn view(&self) -> ActionView {
        match self {
            Action::Decode => ActionView::Decode,
            Action::ReadCache { resource } => ActionView::ReadCache { resource: *resource },
            Action::WriteCache { resource, body, headers } => ActionView::WriteCache {
                resource: *resource,
                body: body@,
                headers: header_texts(*headers),
            },
            Action::Nothing => ActionView::Nothing,
        }
    }
}

/// The state of a fetch.
#[derive(Debug, PartialEq, Eq)]
pub enum FetchState<T> {
    /// The request is out.
    Requesting,
    /// A fresh body arrived and is being decoded.
    Decoding { body: Vec<u8>, headers: HeaderMap },
    /// The cache is being read: after "not modified", where `failure` is
    /// `None`, or after the failure that it holds.
    Revalidating { failure: Option<ClassifiedError> },
    /// The call ended with a value.
    Serving { value: T, source: Source },
    /// The call ended without one.
    Failed { error: ClassifiedError },
}

/// The mathematical value of a `FetchState`.
pub enum FetchStateView<T> {
    Requesting,
    Decoding { body: Seq<u8>, headers: Map<Seq<char>, Option<Seq<char>>> },
    Revalidating { failure: Option<ClassifiedErrorView> },
    Serving { value: T, source: Source },
    Failed { error: ClassifiedErrorView },
}

impl<T> View for FetchState<T> {
    type V = FetchStateView<T>;

    open spec fn view(&self) -> FetchStateView<T> {
        match self {
            FetchState::Requesting => FetchStateView::Requesting,
            FetchState::Decoding { body, headers } => FetchStateView::Decoding {
                body: body@,
                headers: header_texts(*headers),
            },
            FetchState::Revalidating { failure } => FetchStateView::Revalidating {
                failure: match failure {
                    Some(e) => Some(e@),
                    None => None,
                },
            },
            FetchState::Serving { value, source } => FetchStateView::Serving {
                value: *value,
                source: *source,
            },
            FetchState::Failed { error } => FetchStateView::Failed { error: error@ },
        }
    }
}

/// What happened outside since the last step of a fetch.
#[derive(Debug, PartialEq, Eq)]
pub enum FetchEvent<T> {
    /// The transport is done with the request.
    Responded(Outcome),
    /// The fresh body was decoded, or could not be, for the given reason.
    Decoded(Result<T, String>),
    /// The cache was read. `None` stands for every way of not having a
    /// value: no file, an unreadable one, or one that does not decode.
    CacheRead(Option<T>),
}

/// The mathematical value of a `FetchEvent`.
pub enum FetchEventView<T> {
    Responded(OutcomeView),
    Decoded(Result<T, Seq<char>>),
    CacheRead(Option<T>),
}

/// The view of the result of decoding a body.
pub open spec fn decoded_view<T>(r: Result<T, String>) -> Result<T, Seq<char>> {
    match r {
        Ok(value) => Ok(value),
        Err(reason) => Err(reason@),
    }
}

impl<T> View for FetchEvent<T> {
    type V = FetchEventView<T>;

    open spec fn view(&self) -> FetchEventView<T> {
        match self {
            FetchEvent::Responded(outcome) => FetchEventView::Responded(outcome@),
            FetchEvent::Decoded(r) => FetchEventView::Decoded(decoded_view(*r)),
            FetchEvent::CacheRead(value) => FetchEventView::CacheRead(*value),
        }
    }
}

/// The failure that an outcome other than `Fresh` stands for in a fetch;
/// `None` for "not modified", which is none.
pub open spec fn fetch_failure(outcome: OutcomeView) -> Option<ClassifiedErrorView> {
    match outcome {
        OutcomeView::ServerFailure { status, body } => Some(
            ClassifiedErrorView::ServerError(classified(status, body)),
        ),
        OutcomeView::TransportFailure { cause } => Some(
            ClassifiedErrorView::NetworkError { message: cause },
        ),
        _ => None,
    }
}

/// One step of a fetch of `resource`.
///
/// A fresh body is decoded, written through and served; one that does not
/// decode fails the call. After "not modified" and after every failure the
/// cache is read: a cached value is served, stale or not; without one the
/// call fails, with the failure that led there, or with the miss itself
/// after "not modified". An event that the state does not wait for changes
/// nothing.
pub open spec fn fetch_transition<T>(
    resource: Resource,
    state: FetchStateView<T>,
    event: FetchEventView<T>,
) -> (FetchStateView<T>, ActionView) {
    match (state, event) {
        (FetchStateView::Requesting, FetchEventView::Responded(outcome)) => match outcome {
            OutcomeView::Fresh { status, body, headers } => (
                FetchStateView::Decoding { body, headers },
                ActionView::Decode,
            ),
            _ => (
                FetchStateView::Revalidating { failure: fetch_failure(outcome) },
                ActionView::ReadCache { resource },
            ),
        },
        (FetchStateView::Decoding { body, headers }, FetchEventView::Decoded(decoded)) => {
            match decoded {
                Ok(value) => (
                    FetchStateView::Serving { value, source: Source::Fresh },
                    ActionView::WriteCache { resource, body, headers },
                ),
                Err(reason) => (
                    FetchStateView::Failed {
                        error: ClassifiedErrorView::NetworkError { message: reason },
                    },
                    ActionView::Nothing,
                ),
            }
        },
        (FetchStateView::Revalidating { failure }, FetchEventView::CacheRead(cached)) => {
            match (cached, failure) {
                (Some(value), None) => (
                    FetchStateView::Serving { value, source: Source::Revalidated },
                    ActionView::Nothing,
                ),
                (Some(value), Some(_)) => (
                    FetchStateView::Serving { value, source: Source::Fallback },
                    ActionView::Nothing,
                ),
                (None, Some(error)) => (FetchStateView::Failed { error }, ActionView::Nothing),
                (None, None) => (
                    FetchStateView::Failed {
                        error: ClassifiedErrorView::NetworkError {
                            message: miss_message(resource),
                        },
                    },
                    ActionView::Nothing,
                ),
            }
        },
        _ => (state, ActionView::Nothing),
    }
}

/// Takes one step of a fetch of `resource`: the next state, and what the
/// caller is to do before the next event.
pub fn fetch_step<T>(resource: Resource, state: FetchState<T>, event: FetchEvent<T>) -> (r: (
    FetchState<T>,
    Action,
))
    ensures
        (r.0@, r.1@) == fetch_transition(resource, state@, event@),
{
    match state {
        FetchState::Requesting => match event {
            FetchEvent::Responded(outcome) => match outcome {
                Outcome::Fresh { status, body, headers } => (
                    FetchState::Decoding { body, headers },
                    Action::Decode,
                ),
                Outcome::NotModified => (
                    FetchState::Revalidating { failure: None },
                    Action::ReadCache { resource },
                ),
                Outcome::ServerFailure { status, body } => {
                    let error = extract_error_from_response(status, body.as_slice());
                    (
                        FetchState::Revalidating {
                            failure: Some(ClassifiedError::ServerError(error)),
                        },
                        Action::ReadCache { resource },
                    )
                },
                Outcome::TransportFailure { cause } => (
                    FetchState::Revalidating {
                        failure: Some(ClassifiedError::NetworkError { message: cause }),
                    },
                    Action::ReadCache { resource },
                ),
            },
            _ => (FetchState::Requesting, Action::Nothing),
        },
        FetchState::Decoding { body, headers } => match event {
            FetchEvent::Decoded(decoded) => match decoded {
                Ok(value) => (
                    FetchState::Serving { value, source: Source::Fresh },
                    Action::WriteCache { resource, body, headers },
                ),
                Err(reason) => (
                    FetchState::Failed { error: ClassifiedError::NetworkError { message: reason } },
                    Action::Nothing,
                ),
            },
            _ => (FetchState::Decoding { body, headers }, Action::Nothing),
        },
        FetchState::Revalidating { failure } => match event {
            FetchEvent::CacheRead(cached) => match cached {
                Some(value) => {
                    let source = match failure {
                        None => Source::Revalidated,
                        Some(_) => Source::Fallback,
                    };
                    (FetchState::Serving { value, source }, Action::Nothing)
                },
                None => match failure {
                    Some(error) => (FetchState::Failed { error }, Action::Nothing),
                    None => (
                        FetchState::Failed {
                            error: ClassifiedError::NetworkError {
                                message: resource.miss_message(),
                            },
                        },
                        Action::Nothing,
                    ),
                },
            },
            _ => (FetchState::Revalidating { failure }, Action::Nothing),
        },
        FetchState::Serving { value, source } => (
            FetchState::Serving { value, source },
            Action::Nothing,
        ),
        FetchState::Failed { error } => (FetchState::Failed { error }, Action::Nothing),
    }
}


/// A saved record knows the resource that it is cached as.
pub trait Identified {
    /// The resource that this record is cached as.
    spec fn cache_resource(&self) -> Resource;

    /// The resource that this record is cached as.
    fn resource(&self) -> (r: Resource)
        ensures
            r == self.cache_resource(),
    ;
}

/// Where a mutation writes the saved record through.
#[derive(Debug, Clone, Copy, PartialEq, Eq, Structural)]
pub enum Target {
    /// Under the identity that the server gave the record.
    OfSaved,
    /// Under the resource that the request named.
    At(Resource),
}

/// The resource that a mutation with this target caches `value` as.
pub open spec fn target_resource<T: Identified>(target: Target, value: T) -> Resource {
    match target {
        Target::OfSaved => value.cache_resource(),
        Target::At(resource) => resource,
    }
}

/// The state of a mutation.
#[derive(Debug, PartialEq, Eq)]
pub enum MutateState<T> {
    /// The request is out.
    Requesting,
    /// The saved record arrived and is being decoded.
    Decoding { body: Vec<u8>, headers: HeaderMap },
    /// The call ended with the saved record.
    Saved { value: T },
    /// The call ended without one.
    Failed { error: ClassifiedError },
}

/// The mathematical value of a `MutateState`.
pub enum MutateStateView<T> {
    Requesting,
    Decoding { body: Seq<u8>, headers: Map<Seq<char>, Option<Seq<char>>> },
    Saved { value: T },
    Failed { error: ClassifiedErrorView },
}

impl<T> View for MutateState<T> {
    type V = MutateStateView<T>;

    open spec fn view(&self) -> MutateStateView<T> {
        match self {
            MutateState::Requesting => MutateStateView::Requesting,
            MutateState::Decoding { body, headers } => MutateStateView::Decoding {
                body: body@,
                headers: header_texts(*headers),
            },
            MutateState::Saved { value } => MutateStateView::Saved { value: *value },
            MutateState::Failed { error } => MutateStateView::Failed { error: error@ },
        }
    }
}

/// What happened outside since the last step of a mutation.
#[derive(Debug, PartialEq, Eq)]
pub enum MutateEvent<T> {
    /// The transport is done with the request.
    Responded(Outcome),
    /// The saved record was decoded, or could not be, for the given reason.
    Decoded(Result<T, String>),
}

/// The mathematical value of a `MutateEvent`.
pub enum MutateEventView<T> {
    Responded(OutcomeView),
    Decoded(Result<T, Seq<char>>),
}

impl<T> View for MutateEvent<T> {
    type V = MutateEventView<T>;

    open spec fn view(&self) -> MutateEventView<T> {
        match self {
            MutateEvent::Responded(outcome) => MutateEventView::Responded(outcome@),
            MutateEvent::Decoded(r) => MutateEventView::Decoded(decoded_view(*r)),
        }
    }
}

/// The failure that an outcome stands for where nothing falls back to the
/// cache; `None` for a fresh body, which is none. "Not modified" answers
/// no unconditional request: it is the server's failure, with that status
/// and no body.
pub open spec fn failure_of(outcome: OutcomeView) -> Option<ClassifiedErrorView> {
    match outcome {
        OutcomeView::Fresh { .. } => None,
        OutcomeView::NotModified => Some(
            ClassifiedErrorView::ServerError(classified(NOT_MODIFIED, Seq::empty())),
        ),
        OutcomeView::ServerFailure { status, body } => Some(
            ClassifiedErrorView::ServerError(classified(status, body)),
        ),
        OutcomeView::TransportFailure { cause } => Some(
            ClassifiedErrorView::NetworkError { message: cause },
        ),
    }
}

impl Outcome {
    /// The body and headers of a fresh response, or the failure that
    /// this outcome stands for where nothing falls back to the cache.
    pub fn into_fresh(self) -> (r: Result<(Vec<u8>, HeaderMap), ClassifiedError>)
        ensures
            match failure_of(self@) {
                Some(error) => r matches Err(e) && e@ == error,
                None => r matches Ok(fresh) && self@ matches OutcomeView::Fresh {
                    body,
                    headers,
                    ..
                } && fresh.0@ == body && header_texts(fresh.1) == headers,
            },
    {
        match self {
            Outcome::Fresh { status, body, headers } => Ok((body, headers)),
            Outcome::NotModified => {
                let nothing: Vec<u8> = Vec::new();
                Err(
                    ClassifiedError::ServerError(
                        extract_error_from_response(NOT_MODIFIED, nothing.as_slice()),
                    ),
                )
            },
            Outcome::ServerFailure { status, body } => Err(
                ClassifiedError::ServerError(extract_error_from_response(status, body.as_slice())),
            ),
            Outcome::TransportFailure { cause } => Err(
                ClassifiedError::NetworkError { message: cause },
            ),
        }
    }
}

/// One step of a mutation.
///
/// The saved record is decoded, written through and returned; one that
/// does not decode fails the call. Every other outcome fails the call at
/// once: the cache is never read. An event that the state does not wait
/// for changes nothing.
pub open spec fn mutate_transition<T: Identified>(
    target: Target,
    state: MutateStateView<T>,
    event: MutateEventView<T>,
) -> (MutateStateView<T>, ActionView) {
    match (state, event) {
        (MutateStateView::Requesting, MutateEventView::Responded(outcome)) => match outcome {
            OutcomeView::Fresh { status, body, headers } => (
                MutateStateView::Decoding { body, headers },
                ActionView::Decode,
            ),
            _ => (
                MutateStateView::Failed { error: failure_of(outcome).unwrap() },
                ActionView::Nothing,
            ),
        },
        (MutateStateView::Decoding { body, headers }, MutateEventView::Decoded(decoded)) => {
            match decoded {
                Ok(value) => (
                    MutateStateView::Saved { value },
                    ActionView::WriteCache {
                        resource: target_resource(target, value),
                        body,
                        headers,
                    },
                ),
                Err(reason) => (
                    MutateStateView::Failed {
                        error: ClassifiedErrorView::NetworkError { message: reason },
                    },
                    ActionView::Nothing,
                ),
            }
        },
        _ => (state, ActionView::Nothing),
    }
}

/// Takes one step of a mutation: the next state, and what the caller is to
/// do before the next event.
pub fn mutate_step<T: Identified>(
    target: Target,
    state: MutateState<T>,
    event: MutateEvent<T>,
) -> (r:
    (MutateState<T>, Action))
    ensures
        (r.0@, r.1@) == mutate_transition(target, state@, event@),
{
    match state {
        MutateState::Requesting => match event {
            MutateEvent::Responded(outcome) => match outcome.into_fresh() {
                Ok(fresh) => (
                    MutateState::Decoding { body: fresh.0, headers: fresh.1 },
                    Action::Decode,
                ),
                Err(error) => (MutateState::Failed { error }, Action::Nothing),
            },
            _ => (MutateState::Requesting, Action::Nothing),
        },
        MutateState::Decoding { body, headers } => match event {
            MutateEvent::Decoded(decoded) => match decoded {
                Ok(value) => {
                    let resource = match target {
                        Target::OfSaved => value.resource(),
                        Target::At(resource) => resource,
                    };
                    (MutateState::Saved { value }, Action::WriteCache { resource, body, headers })
                },
                Err(reason) => (
                    MutateState::Failed {
                        error: ClassifiedError::NetworkError { message: reason },
                    },
                    Action::Nothing,
                ),
            },
            _ => (MutateState::Decoding { body, headers }, Action::Nothing),
        },
        MutateState::Saved { value } => (MutateState::Saved { value }, Action::Nothing),
        MutateState::Failed { error } => (MutateState::Failed { error }, Action::Nothing),
    }
}

impl<T> FetchState<T> {
    /// Where a fetch starts.
    pub fn start() -> (state: FetchState<T>)
        ensures
            state@ == FetchStateView::<T>::Requesting,
    {
        FetchState::Requesting
    }

    /// The result of the call, once it is over.
    pub fn into_result(self) -> (r: Option<Result<T, ClassifiedError>>)
        ensures
            match self@ {
                FetchStateView::Serving { value, source } => r == Some(
                    Ok::<T, ClassifiedError>(value),
                ),
                FetchStateView::Failed { error } => r matches Some(Err(e)) && e@ == error,
                _ => r is None,
            },
    {
        match self {
            FetchState::Serving { value, source } => Some(Ok(value)),
            FetchState::Failed { error } => Some(Err(error)),
            _ => None,
        }
    }
}

impl<T> MutateState<T> {
    /// Where a mutation starts.
    pub fn start() -> (state: MutateState<T>)
        ensures
            state@ == MutateStateView::<T>::Requesting,
    {
        MutateState::Requesting
    }

    /// The result of the call, once it is over.
    pub fn into_result(self) -> (r: Option<Result<T, ClassifiedError>>)
        ensures
            match self@ {
                MutateStateView::Saved { value } => r == Some(Ok::<T, ClassifiedError>(value)),
                MutateStateView::Failed { error } => r matches Some(Err(e)) && e@ == error,
                _ => r is None,
            },
    {
        match self {
            MutateState::Saved { value } => Some(Ok(value)),
            MutateState::Failed { error } => Some(Err(error)),
            _ => None,
        }
    }
}

} // verus!
