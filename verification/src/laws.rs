//! What holds of whole calls, one after the other, over one cache.
//!
//! The cache is taken as the files that the calls have written: a call
//! reads what earlier calls wrote through, and every write has ended
//! before the next call starts. The caller is taken to do what the state
//! machines ask: to answer `Decode` with the decoded body, `ReadCache` with
//! the decoded cached body, and `WriteCache` by writing the body file and
//! then the metadata file.

use vstd::prelude::*;

use crate::cache::{
    CacheKeyView,
    MetadataView,
    Resource,
    Timestamp,
    body_path,
    header_text,
    metadata_of,
    metadata_path,
};
use crate::error::{ClassifiedErrorView, classified};
use crate::identity::lemma_key_names_its_files;
use crate::sync::{
    ActionView,
    HeaderView,
    FetchEventView,
    FetchStateView,
    Identified,
    MutateEventView,
    MutateStateView,
    OutcomeView,
    Source,
    Target,
    fetch_failure,
    fetch_headers,
    fetch_transition,
    failure_of,
    mutate_transition,
    target_resource,
    validator,
};

verus! {

/// What one file of the cache holds.
pub enum CachedFile {
    Body(Seq<u8>),
    Metadata(MetadataView),
}

/// The files after a body and the metadata of its response were written
/// under `key`: first the body, then the metadata.
pub open spec fn written(
    files: Map<Seq<char>, CachedFile>,
    key: CacheKeyView,
    body: Seq<u8>,
    headers: Map<Seq<char>, Option<Seq<char>>>,
    now: Timestamp,
) -> Map<Seq<char>, CachedFile> {
    files.insert(body_path(key), CachedFile::Body(body)).insert(
        metadata_path(key),
        CachedFile::Metadata(metadata_of(headers, now)),
    )
}

/// The cached body of `key`, where its file is there and holds a body.
pub open spec fn cached_body(files: Map<Seq<char>, CachedFile>, key: CacheKeyView) -> Option<
    Seq<u8>,
> {
    if files.contains_key(body_path(key)) {
        match files[body_path(key)] {
            CachedFile::Body(body) => Some(body),
            CachedFile::Metadata(_) => None,
        }
    } else {
        None
    }
}

/// The cached metadata of `key`, where its file is there and holds
/// metadata.
pub open spec fn cached_metadata(files: Map<Seq<char>, CachedFile>, key: CacheKeyView) -> Option<
    MetadataView,
> {
    if files.contains_key(metadata_path(key)) {
        match files[metadata_path(key)] {
            CachedFile::Metadata(metadata) => Some(metadata),
            CachedFile::Body(_) => None,
        }
    } else {
        None
    }
}

/// The cached value of `key`: its cached body, decoded. No body and a body
/// that does not decode are the same to the reader.
pub open spec fn cached_value<T>(
    files: Map<Seq<char>, CachedFile>,
    key: CacheKeyView,
    decode: spec_fn(Seq<u8>) -> Result<T, Seq<char>>,
) -> Option<T> {
    match cached_body(files, key) {
        Some(body) => match decode(body) {
            Ok(value) => Some(value),
            Err(_) => None,
        },
        None => None,
    }
}

/// The files after the caller has performed `action`.
pub open spec fn performed(
    files: Map<Seq<char>, CachedFile>,
    api_url: Seq<char>,
    action: ActionView,
    now: Timestamp,
) -> Map<Seq<char>, CachedFile> {
    match action {
        ActionView::WriteCache { resource, body, headers } => written(
            files,
            CacheKeyView { api_url, resource },
            body,
            headers,
            now,
        ),
        _ => files,
    }
}

/// A whole fetch of `resource` whose request met `outcome`: the state it
/// ends in, and the files it leaves.
pub open spec fn fetch_call<T>(
    files: Map<Seq<char>, CachedFile>,
    api_url: Seq<char>,
    resource: Resource,
    outcome: OutcomeView,
    decode: spec_fn(Seq<u8>) -> Result<T, Seq<char>>,
    now: Timestamp,
) -> (FetchStateView<T>, Map<Seq<char>, CachedFile>) {
    let first = fetch_transition::<T>(
        resource,
        FetchStateView::Requesting,
        FetchEventView::Responded(outcome),
    );
    let answer = match first.0 {
        FetchStateView::Decoding { body, headers } => FetchEventView::Decoded(decode(body)),
        _ => FetchEventView::CacheRead(
            cached_value(files, CacheKeyView { api_url, resource }, decode),
        ),
    };
    let second = fetch_transition(resource, first.0, answer);
    (second.0, performed(files, api_url, second.1, now))
}

/// A whole mutation whose request met `outcome`: the state it ends in, and
/// the files it leaves.
pub open spec fn mutate_call<T: Identified>(
    files: Map<Seq<char>, CachedFile>,
    api_url: Seq<char>,
    target: Target,
    outcome: OutcomeView,
    decode: spec_fn(Seq<u8>) -> Result<T, Seq<char>>,
    now: Timestamp,
) -> (MutateStateView<T>, Map<Seq<char>, CachedFile>) {
    let first = mutate_transition::<T>(
        target,
        MutateStateView::Requesting,
        MutateEventView::Responded(outcome),
    );
    match first.0 {
        MutateStateView::Decoding { body, headers } => {
            let second = mutate_transition(target, first.0, MutateEventView::Decoded(decode(body)));
            (second.0, performed(files, api_url, second.1, now))
        },
        _ => (first.0, performed(files, api_url, first.1, now)),
    }
}

/// What was written under a key is what is read under it.
pub proof fn lemma_read_after_write(
    files: Map<Seq<char>, CachedFile>,
    key: CacheKeyView,
    body: Seq<u8>,
    headers: Map<Seq<char>, Option<Seq<char>>>,
    now: Timestamp,
)
    ensures
        cached_body(written(files, key, body, headers, now), key) == Some(body),
        cached_metadata(written(files, key, body, headers, now), key) == Some(
            metadata_of(headers, now),
        ),
{
    lemma_key_names_its_files(key, key);
}

/// What is written under one key leaves every other key as it was:
/// records of different origins or of different resources never collide.
pub proof fn lemma_write_leaves_other_keys(
    files: Map<Seq<char>, CachedFile>,
    key: CacheKeyView,
    other: CacheKeyView,
    body: Seq<u8>,
    headers: Map<Seq<char>, Option<Seq<char>>>,
    now: Timestamp,
)
    requires
        key != other,
    ensures
        cached_body(written(files, key, body, headers, now), other) == cached_body(files, other),
        cached_metadata(written(files, key, body, headers, now), other) == cached_metadata(
            files,
            other,
        ),
{
    lemma_key_names_its_files(key, other);
    lemma_key_names_its_files(other, key);
}

/// The states in which a call has ended are final: whatever happens
/// next, the state stays and nothing is asked for.
pub proof fn lemma_ended_calls_stay<T: Identified>(
    resource: Resource,
    target: Target,
    fetch: FetchStateView<T>,
    fetch_event: FetchEventView<T>,
    mutation: MutateStateView<T>,
    mutate_event: MutateEventView<T>,
)
    ensures
        fetch is Serving || fetch is Failed ==> fetch_transition(resource, fetch, fetch_event) == (
            fetch,
            ActionView::Nothing,
        ),
        mutation is Saved || mutation is Failed ==> mutate_transition(
            target,
            mutation,
            mutate_event,
        ) == (mutation, ActionView::Nothing),
{
}

/// Every fetch ends: it serves a value or it has failed.
pub proof fn lemma_fetch_ends<T>(
    files: Map<Seq<char>, CachedFile>,
    api_url: Seq<char>,
    resource: Resource,
    outcome: OutcomeView,
    decode: spec_fn(Seq<u8>) -> Result<T, Seq<char>>,
    now: Timestamp,
)
    ensures
        ({
            let end = fetch_call(files, api_url, resource, outcome, decode, now).0;
            end is Serving || end is Failed
        }),
{
}

/// Every mutation ends: it has the saved record or it has failed.
pub proof fn lemma_mutation_ends<T: Identified>(
    files: Map<Seq<char>, CachedFile>,
    api_url: Seq<char>,
    target: Target,
    outcome: OutcomeView,
    decode: spec_fn(Seq<u8>) -> Result<T, Seq<char>>,
    now: Timestamp,
)
    ensures
        ({
            let end = mutate_call(files, api_url, target, outcome, decode, now).0;
            end is Saved || end is Failed
        }),
{
}

/// A fetch that meets a fresh body which decodes serves the decoded value
/// and leaves the body and the metadata of the response in the cache.
pub proof fn lemma_fetch_populates<T>(
    files: Map<Seq<char>, CachedFile>,
    api_url: Seq<char>,
    resource: Resource,
    status: u16,
    body: Seq<u8>,
    headers: Map<Seq<char>, Option<Seq<char>>>,
    decode: spec_fn(Seq<u8>) -> Result<T, Seq<char>>,
    now: Timestamp,
    value: T,
)
    requires
        decode(body) == Ok::<T, Seq<char>>(value),
    ensures
        ({
            let key = CacheKeyView { api_url, resource };
            let call = fetch_call(
                files,
                api_url,
                resource,
                OutcomeView::Fresh { status, body, headers },
                decode,
                now,
            );
            &&& call.0 == FetchStateView::Serving { value, source: Source::Fresh }
            &&& call.1 == written(files, key, body, headers, now)
            &&& cached_value(call.1, key, decode) == Some(value)
            &&& cached_metadata(call.1, key) == Some(metadata_of(headers, now))
        }),
{
    lemma_read_after_write(files, CacheKeyView { api_url, resource }, body, headers, now);
}

/// A mutation that meets a fresh body which decodes returns the saved
/// record and writes the body through under the resource of its target.
pub proof fn lemma_mutation_writes_through<T: Identified>(
    files: Map<Seq<char>, CachedFile>,
    api_url: Seq<char>,
    target: Target,
    status: u16,
    body: Seq<u8>,
    headers: Map<Seq<char>, Option<Seq<char>>>,
    decode: spec_fn(Seq<u8>) -> Result<T, Seq<char>>,
    now: Timestamp,
    value: T,
)
    requires
        decode(body) == Ok::<T, Seq<char>>(value),
    ensures
        ({
            let key = CacheKeyView { api_url, resource: target_resource(target, value) };
            let call = mutate_call(
                files,
                api_url,
                target,
                OutcomeView::Fresh { status, body, headers },
                decode,
                now,
            );
            &&& call.0 == MutateStateView::Saved { value }
            &&& call.1 == written(files, key, body, headers, now)
            &&& cached_value(call.1, key, decode) == Some(value)
        }),
{
    lemma_read_after_write(
        files,
        CacheKeyView { api_url, resource: target_resource(target, value) },
        body,
        headers,
        now,
    );
}

/// Only a call that got a fresh value touches the cache: a fetch that
/// serves from the cache or fails, and a mutation that fails, leave the
/// files as they were.
pub proof fn lemma_only_success_writes<T: Identified>(
    files: Map<Seq<char>, CachedFile>,
    api_url: Seq<char>,
    resource: Resource,
    target: Target,
    outcome: OutcomeView,
    decode: spec_fn(Seq<u8>) -> Result<T, Seq<char>>,
    now: Timestamp,
)
    ensures
        ({
            let fetched = fetch_call(files, api_url, resource, outcome, decode, now);
            fetched.0 matches FetchStateView::Serving { source: Source::Fresh, .. } || fetched.1
                == files
        }),
        ({
            let mutated = mutate_call(files, api_url, target, outcome, decode, now);
            mutated.0 is Saved || mutated.1 == files
        }),
{
}

/// No call deletes from the cache: a file that was there before a call is
/// there after it.
pub proof fn lemma_nothing_is_deleted<T: Identified>(
    files: Map<Seq<char>, CachedFile>,
    api_url: Seq<char>,
    resource: Resource,
    target: Target,
    outcome: OutcomeView,
    decode: spec_fn(Seq<u8>) -> Result<T, Seq<char>>,
    now: Timestamp,
    path: Seq<char>,
)
    requires
        files.contains_key(path),
    ensures
        fetch_call(files, api_url, resource, outcome, decode, now).1.contains_key(path),
        mutate_call(files, api_url, target, outcome, decode, now).1.contains_key(path),
{
}

/// Revalidation: once a fetch has cached a body that came with a validator
/// token, the next fetch sends that token as `If-None-Match`; and where
/// the server then answers "not modified", the fetch serves the value of
/// the cached body, and writes nothing.
pub proof fn lemma_fetch_revalidates<T>(
    files: Map<Seq<char>, CachedFile>,
    api_url: Seq<char>,
    api_key: Seq<char>,
    resource: Resource,
    status: u16,
    body: Seq<u8>,
    headers: Map<Seq<char>, Option<Seq<char>>>,
    token: Seq<char>,
    decode: spec_fn(Seq<u8>) -> Result<T, Seq<char>>,
    now: Timestamp,
    later: Timestamp,
    value: T,
)
    requires
        decode(body) == Ok::<T, Seq<char>>(value),
        header_text(headers, "etag"@) == Some(token),
    ensures
        ({
            let key = CacheKeyView { api_url, resource };
            let first = fetch_call(
                files,
                api_url,
                resource,
                OutcomeView::Fresh { status, body, headers },
                decode,
                now,
            );
            let second = fetch_call(
                first.1,
                api_url,
                resource,
                OutcomeView::NotModified,
                decode,
                later,
            );
            &&& fetch_headers(api_key, validator(cached_metadata(first.1, key))) == fetch_headers(
                api_key,
                None,
            ).push(HeaderView { name: "If-None-Match"@, value: token })
            &&& cached_body(first.1, key) == Some(body)
            &&& second.0 == FetchStateView::Serving { value, source: Source::Revalidated }
            &&& second.1 == first.1
        }),
{
    lemma_fetch_populates(files, api_url, resource, status, body, headers, decode, now, value);
    lemma_read_after_write(files, CacheKeyView { api_url, resource }, body, headers, now);
}

/// Fallback: once a fetch has cached a body, a later fetch that fails,
/// by the server's word or for want of an answer, serves the value of
/// the cached body and not the failure.
pub proof fn lemma_fetch_falls_back<T>(
    files: Map<Seq<char>, CachedFile>,
    api_url: Seq<char>,
    resource: Resource,
    status: u16,
    body: Seq<u8>,
    headers: Map<Seq<char>, Option<Seq<char>>>,
    failure: OutcomeView,
    decode: spec_fn(Seq<u8>) -> Result<T, Seq<char>>,
    now: Timestamp,
    later: Timestamp,
    value: T,
)
    requires
        decode(body) == Ok::<T, Seq<char>>(value),
        failure is ServerFailure || failure is TransportFailure,
    ensures
        ({
            let first = fetch_call(
                files,
                api_url,
                resource,
                OutcomeView::Fresh { status, body, headers },
                decode,
                now,
            );
            let second = fetch_call(first.1, api_url, resource, failure, decode, later);
            &&& second.0 == FetchStateView::Serving { value, source: Source::Fallback }
            &&& second.1 == first.1
        }),
{
    lemma_fetch_populates(files, api_url, resource, status, body, headers, decode, now, value);
}

/// A fetch without a usable cached body surfaces the failure it met; after
/// "not modified" it reports the miss.
pub proof fn lemma_fetch_miss<T>(
    files: Map<Seq<char>, CachedFile>,
    api_url: Seq<char>,
    resource: Resource,
    outcome: OutcomeView,
    decode: spec_fn(Seq<u8>) -> Result<T, Seq<char>>,
    now: Timestamp,
)
    requires
        !(outcome is Fresh),
        cached_value(files, CacheKeyView { api_url, resource }, decode) is None,
    ensures
        ({
            let call = fetch_call(files, api_url, resource, outcome, decode, now);
            &&& call.1 == files
            &&& call.0 == FetchStateView::<T>::Failed {
                error: match fetch_failure(outcome) {
                    Some(error) => error,
                    None => ClassifiedErrorView::NetworkError {
                        message: crate::cache::miss_message(resource),
                    },
                },
            }
        }),
{
}

/// A mutation never falls back: whatever the cache holds, a mutation whose
/// request met anything but a fresh body fails with that failure, and the
/// cache stays as it was. The server's failure keeps the status that the
/// server gave.
pub proof fn lemma_mutation_never_falls_back<T: Identified>(
    files: Map<Seq<char>, CachedFile>,
    api_url: Seq<char>,
    target: Target,
    outcome: OutcomeView,
    decode: spec_fn(Seq<u8>) -> Result<T, Seq<char>>,
    now: Timestamp,
)
    requires
        !(outcome is Fresh),
    ensures
        ({
            let call = mutate_call(files, api_url, target, outcome, decode, now);
            &&& call.0 == MutateStateView::<T>::Failed { error: failure_of(outcome).unwrap() }
            &&& call.1 == files
            &&& outcome matches OutcomeView::ServerFailure { status, body } ==> call.0
                == MutateStateView::<T>::Failed {
                error: ClassifiedErrorView::ServerError(classified(status, body)),
            } && classified(status, body).status == status
        }),
{
}

/// No step of a mutation asks for the cache to be read.
pub proof fn lemma_mutation_reads_no_cache<T: Identified>(
    target: Target,
    state: MutateStateView<T>,
    event: MutateEventView<T>,
)
    ensures
        !(mutate_transition(target, state, event).1 is ReadCache),
{
}

/// Round trip: after a creation has returned a saved record, a fetch of
/// the resource that the record is cached as returns that record, whether
/// the server then fails, says "not modified", or sends the same body
/// again.
pub proof fn lemma_create_then_fetch<T: Identified>(
    files: Map<Seq<char>, CachedFile>,
    api_url: Seq<char>,
    status: u16,
    body: Seq<u8>,
    headers: Map<Seq<char>, Option<Seq<char>>>,
    next: OutcomeView,
    decode: spec_fn(Seq<u8>) -> Result<T, Seq<char>>,
    now: Timestamp,
    later: Timestamp,
    value: T,
)
    requires
        decode(body) == Ok::<T, Seq<char>>(value),
        next matches OutcomeView::Fresh { body: again, .. } ==> again == body,
    ensures
        ({
            let created = mutate_call(
                files,
                api_url,
                Target::OfSaved,
                OutcomeView::Fresh { status, body, headers },
                decode,
                now,
            );
            let fetched = fetch_call(
                created.1,
                api_url,
                value.cache_resource(),
                next,
                decode,
                later,
            );
            &&& created.0 == MutateStateView::Saved { value }
            &&& fetched.0 matches FetchStateView::Serving { value: served, .. } && served == value
        }),
{
    lemma_read_after_write(
        files,
        CacheKeyView { api_url, resource: value.cache_resource() },
        body,
        headers,
        now,
    );
}

} // verus!
