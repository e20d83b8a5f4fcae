use reqwest::header::{HeaderMap, HeaderValue};

use bazaar_realm_client::cache::{Metadata, Resource, Timestamp};
use bazaar_realm_client::owner::SavedOwner;
use bazaar_realm_client::error::{ClassifiedError, ServerError};
use bazaar_realm_client::sync::{
    classify_response, fetch_step, mutate_step, mutation_plan_from, plan_fetch, plan_mutation,
    request_from, Action, FetchEvent, FetchPlan, FetchState, Header, Method, MutateEvent,
    MutateState, Outcome, Request, Source, Target, NOT_MODIFIED, OCTET_STREAM,
};

const API: &str = "https://api.example/base/";

type Record = SavedOwner;

fn record(id: i32) -> Record {
    let at = Timestamp { secs: 1_604_000_000, nanos: 0 };
    SavedOwner { id, name: "name".to_string(), mod_version: 1, created_at: at, updated_at: at }
}

fn header(name: &str, value: &str) -> Header {
    Header { name: name.to_string(), value: value.to_string() }
}

fn etag(value: &'static str) -> HeaderMap {
    let mut headers = HeaderMap::new();
    headers.insert("etag", HeaderValue::from_static(value));
    headers
}

fn decoding<T>(body: &[u8], headers: HeaderMap) -> FetchState<T> {
    FetchState::Decoding { body: body.to_vec(), headers }
}

fn network(message: &str) -> ClassifiedError {
    ClassifiedError::NetworkError { message: message.to_string() }
}

#[test]
fn classification_of_responses_by_status() {
    for status in [200u16, 201, 204, 299] {
        assert_eq!(
            classify_response(status, b"body".to_vec(), etag("\"a\"")),
            Outcome::Fresh { status, body: b"body".to_vec(), headers: etag("\"a\"") }
        );
    }
    assert_eq!(classify_response(304, Vec::new(), etag("\"a\"")), Outcome::NotModified);
    assert_eq!(NOT_MODIFIED, 304);
    for status in [100u16, 199, 300, 303, 305, 400, 404, 500, 503, 999] {
        assert_eq!(
            classify_response(status, b"body".to_vec(), etag("\"a\"")),
            Outcome::ServerFailure { status, body: b"body".to_vec() }
        );
    }
}

#[test]
fn fetch_plan_resolves_the_path_against_the_origin() {
    let plan = plan_fetch(API, "key", "v1/shops/1", Resource::Shop(1));
    assert_eq!(
        plan,
        FetchPlan {
            url: Ok("https://api.example/base/v1/shops/1".to_string()),
            api_key: "key".to_string(),
            resource: Resource::Shop(1),
        }
    );
    let plan = plan_fetch("https://api.example/base", "key", "v1/shops/1", Resource::Shop(1));
    assert_eq!(plan.url, Ok("https://api.example/v1/shops/1".to_string()));
}

fn unbuilt(cause: &str) -> Outcome {
    Outcome::TransportFailure { cause: cause.to_string() }
}

#[test]
fn plan_for_a_malformed_origin_holds_the_transport_failure() {
    let plan = plan_fetch("url", "key", "v1/shops/1", Resource::Shop(1));
    assert_eq!(plan.url, Err("relative URL without a base".to_string()));
    assert_eq!(plan.resource, Resource::Shop(1));
    assert_eq!(plan.request(None), Err(unbuilt("relative URL without a base")));
    assert_eq!(
        plan_fetch("http://", "key", "v1/shops/1", Resource::Shop(1)).request(None),
        Err(unbuilt("empty host"))
    );
    assert_eq!(
        plan_mutation(Method::Post, "", "key", "v1/shops", Target::OfSaved, 1u8).request,
        Err(unbuilt("relative URL without a base"))
    );
    assert_eq!(
        plan_fetch("mailto:a@b.example", "key", "v1/shops/1", Resource::Shop(1)).request(None),
        Err(unbuilt("relative URL with a cannot-be-a-base base"))
    );
}

#[test]
fn plans_from_a_resolved_url() {
    let plan = mutation_plan_from(
        Method::Patch,
        Ok("http://a/".to_string()),
        "key",
        Target::At(Resource::Shop(2)),
        "draft",
    );
    let request = plan.request.unwrap();
    assert_eq!(request.method, Method::Patch);
    assert_eq!(request.url, "http://a/");
    assert_eq!(plan.target, Target::At(Resource::Shop(2)));
    assert_eq!(plan.draft, "draft");
    let plan =
        mutation_plan_from(Method::Post, Err("empty host".to_string()), "key", Target::OfSaved, 0);
    assert_eq!(plan.request, Err(unbuilt("empty host")));
    assert_eq!(plan.target, Target::OfSaved);
    assert_eq!(plan.draft, 0);
    assert_eq!(
        request_from(Method::Get, Ok("http://a/".to_string()), Vec::new()),
        Ok(Request { method: Method::Get, url: "http://a/".to_string(), headers: Vec::new() })
    );
    assert_eq!(
        request_from(Method::Get, Err("empty host".to_string()), Vec::new()),
        Err(unbuilt("empty host"))
    );
}

#[test]
fn fetch_request_is_conditional_only_with_a_token() {
    let plan = plan_fetch(API, "key", "v1/shops/1", Resource::Shop(1));
    let plain = vec![header("Api-Key", "key"), header("Accept", "application/octet-stream")];
    assert_eq!(OCTET_STREAM, "application/octet-stream");
    assert_eq!(plan.request(None).unwrap().headers, plain);
    assert_eq!(plan.request(None).unwrap().method, Method::Get);
    let without = Metadata { etag: None, date: None };
    assert_eq!(plan.request(Some(&without)).unwrap().headers, plain);
    let with = Metadata { etag: Some("W/\"v2\"".to_string()), date: None };
    let mut conditional = plain.clone();
    conditional.push(header("If-None-Match", "W/\"v2\""));
    let request = plan.request(Some(&with)).unwrap();
    assert_eq!(request.headers, conditional);
    assert_eq!(request.url, "https://api.example/base/v1/shops/1");
}

#[test]
fn mutation_request_is_never_conditional() {
    for method in [Method::Post, Method::Patch] {
        let plan = plan_mutation(method, API, "key", "v1/owners", Target::OfSaved, ());
        assert_eq!(
            plan.request,
            Ok(Request {
                method,
                url: "https://api.example/base/v1/owners".to_string(),
                headers: vec![
                    header("Api-Key", "key"),
                    header("Content-Type", "application/octet-stream"),
                ],
            })
        );
    }
}

#[test]
fn fetch_steps_on_a_fresh_body() {
    let outcome = classify_response(200, b"body".to_vec(), etag("\"a\""));
    let (state, action) = fetch_step::<Record>(
        Resource::Shop(1),
        FetchState::start(),
        FetchEvent::Responded(outcome),
    );
    assert_eq!(state, decoding(b"body", etag("\"a\"")));
    assert_eq!(action, Action::Decode);
    assert_eq!(state.into_result(), None);

    let (served, action) = fetch_step(
        Resource::Shop(1),
        decoding(b"body", etag("\"a\"")),
        FetchEvent::Decoded(Ok(record(1))),
    );
    assert_eq!(served, FetchState::Serving { value: record(1), source: Source::Fresh });
    assert_eq!(
        action,
        Action::WriteCache {
            resource: Resource::Shop(1),
            body: b"body".to_vec(),
            headers: etag("\"a\""),
        }
    );
    assert_eq!(served.into_result(), Some(Ok(record(1))));

    let (failed, action) = fetch_step::<Record>(
        Resource::Shop(1),
        decoding(b"body", etag("\"a\"")),
        FetchEvent::Decoded(Err("unexpected end of file".to_string())),
    );
    assert_eq!(failed, FetchState::Failed { error: network("unexpected end of file") });
    assert_eq!(action, Action::Nothing);
    assert_eq!(failed.into_result(), Some(Err(network("unexpected end of file"))));
}

#[test]
fn fetch_steps_on_not_modified() {
    let (state, action) = fetch_step::<Record>(
        Resource::Shop(1),
        FetchState::start(),
        FetchEvent::Responded(Outcome::NotModified),
    );
    assert_eq!(state, FetchState::Revalidating { failure: None });
    assert_eq!(action, Action::ReadCache { resource: Resource::Shop(1) });

    let (served, action) = fetch_step(
        Resource::Shop(1),
        FetchState::Revalidating { failure: None },
        FetchEvent::CacheRead(Some(record(1))),
    );
    assert_eq!(served, FetchState::Serving { value: record(1), source: Source::Revalidated });
    assert_eq!(action, Action::Nothing);

    let (failed, action) = fetch_step::<Record>(Resource::Shop(1), state, FetchEvent::CacheRead(None));
    assert_eq!(
        failed,
        FetchState::Failed { error: network("Object not found in API or in cache: shop_1.bin") }
    );
    assert_eq!(action, Action::Nothing);
}

#[test]
fn fetch_steps_on_a_failure() {
    let outcome = classify_response(503, b"try later".to_vec(), HeaderMap::new());
    let error = ClassifiedError::ServerError(ServerError {
        status: 503,
        title: "try later".to_string(),
        detail: None,
    });
    let (state, action) = fetch_step::<Record>(
        Resource::ShopList,
        FetchState::start(),
        FetchEvent::Responded(outcome),
    );
    assert_eq!(state, FetchState::Revalidating { failure: Some(error.clone()) });
    assert_eq!(action, Action::ReadCache { resource: Resource::ShopList });

    let (served, _) = fetch_step(
        Resource::ShopList,
        FetchState::Revalidating { failure: Some(error.clone()) },
        FetchEvent::CacheRead(Some(record(2))),
    );
    assert_eq!(served, FetchState::Serving { value: record(2), source: Source::Fallback });
    let (failed, _) = fetch_step(Resource::ShopList, state, FetchEvent::CacheRead(None));
    assert_eq!(failed, FetchState::Failed { error });

    let refused = Outcome::TransportFailure { cause: "connection refused".to_string() };
    let (state, action) = fetch_step::<Record>(
        Resource::ShopList,
        FetchState::start(),
        FetchEvent::Responded(refused),
    );
    assert_eq!(state, FetchState::Revalidating { failure: Some(network("connection refused")) });
    assert_eq!(action, Action::ReadCache { resource: Resource::ShopList });
}

fn fetch_state(i: usize) -> FetchState<Record> {
    match i {
        0 => FetchState::Requesting,
        1 => decoding(b"body", HeaderMap::new()),
        2 => FetchState::Revalidating { failure: None },
        3 => FetchState::Serving { value: record(1), source: Source::Fresh },
        _ => FetchState::Failed { error: network("down") },
    }
}

fn fetch_event(i: usize) -> FetchEvent<Record> {
    match i {
        0 => FetchEvent::Responded(Outcome::NotModified),
        1 => FetchEvent::Decoded(Ok(record(9))),
        _ => FetchEvent::CacheRead(Some(record(9))),
    }
}

#[test]
fn fetch_ignores_events_that_it_does_not_wait_for() {
    for state in 0..5 {
        for event in 0..3 {
            if state != event {
                let (next, action) =
                    fetch_step(Resource::Shop(1), fetch_state(state), fetch_event(event));
                assert_eq!(next, fetch_state(state));
                assert_eq!(action, Action::Nothing);
            }
        }
    }
}

fn saving(body: &[u8], headers: HeaderMap) -> MutateState<Record> {
    MutateState::Decoding { body: body.to_vec(), headers }
}

#[test]
fn mutation_steps() {
    let outcome = classify_response(201, b"saved".to_vec(), etag("\"a\""));
    let (state, action) = mutate_step::<Record>(
        Target::OfSaved,
        MutateState::start(),
        MutateEvent::Responded(outcome),
    );
    assert_eq!(state, saving(b"saved", etag("\"a\"")));
    assert_eq!(action, Action::Decode);
    assert_eq!(state.into_result(), None);

    let (saved, action) = mutate_step(
        Target::OfSaved,
        saving(b"saved", etag("\"a\"")),
        MutateEvent::Decoded(Ok(record(7))),
    );
    assert_eq!(saved, MutateState::Saved { value: record(7) });
    assert_eq!(
        action,
        Action::WriteCache {
            resource: Resource::Owner(7),
            body: b"saved".to_vec(),
            headers: etag("\"a\""),
        }
    );
    assert_eq!(saved.into_result(), Some(Ok(record(7))));

    let at = Target::At(Resource::ShopMerchandiseList(3));
    let (_, action) =
        mutate_step(at, saving(b"saved", etag("\"a\"")), MutateEvent::Decoded(Ok(record(7))));
    assert_eq!(
        action,
        Action::WriteCache {
            resource: Resource::ShopMerchandiseList(3),
            body: b"saved".to_vec(),
            headers: etag("\"a\""),
        }
    );

    let (failed, action) = mutate_step(
        Target::OfSaved,
        saving(b"saved", etag("\"a\"")),
        MutateEvent::Decoded(Err("unexpected end of file".to_string())),
    );
    assert_eq!(failed, MutateState::Failed { error: network("unexpected end of file") });
    assert_eq!(action, Action::Nothing);

    let (same, action) = mutate_step(
        Target::OfSaved,
        saving(b"saved", etag("\"a\"")),
        MutateEvent::Responded(Outcome::NotModified),
    );
    assert_eq!(same, saving(b"saved", etag("\"a\"")));
    assert_eq!(action, Action::Nothing);
    let (same, action) = mutate_step::<Record>(
        Target::OfSaved,
        MutateState::start(),
        MutateEvent::Decoded(Ok(record(1))),
    );
    assert_eq!(same, MutateState::Requesting);
    assert_eq!(action, Action::Nothing);
    for ended in [
        || MutateState::Saved { value: record(1) },
        || MutateState::Failed { error: network("down") },
    ] {
        let (same, action) =
            mutate_step(Target::OfSaved, ended(), MutateEvent::Decoded(Ok(record(2))));
        assert_eq!(same, ended());
        assert_eq!(action, Action::Nothing);
    }
}

#[test]
fn outcome_splits_into_fresh_body_or_failure() {
    assert_eq!(
        classify_response(200, b"body".to_vec(), etag("\"a\"")).into_fresh(),
        Ok((b"body".to_vec(), etag("\"a\"")))
    );
    assert_eq!(
        classify_response(500, b"Internal Server Error".to_vec(), HeaderMap::new()).into_fresh(),
        Err(ClassifiedError::ServerError(ServerError {
            status: 500,
            title: "Internal Server Error".to_string(),
            detail: None,
        }))
    );
    assert_eq!(
        Outcome::NotModified.into_fresh(),
        Err(ClassifiedError::ServerError(ServerError {
            status: 304,
            title: "Not Modified".to_string(),
            detail: None,
        }))
    );
    assert_eq!(
        Outcome::TransportFailure { cause: "timed out".to_string() }.into_fresh(),
        Err(network("timed out"))
    );
}
