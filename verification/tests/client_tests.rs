use collar::broker::{BrokerError, ExchangeEvent, ExchangeKind, ExchangeStep};
use collar::cache::{Cache, CacheError, Urls};
use collar::client::{
    make_request, Call, CallAction, CallError, CallEvent, CallStep, ErrorResponse, Method,
    Request, ResponseTypes,
};
use collar::credential::Secrets;

fn pair(access: &str, refresh: &str, access_until: i64, refresh_until: i64) -> Secrets {
    Secrets {
        access_token: access.to_string(),
        refresh_token: refresh.to_string(),
        access_token_expires_at: access_until,
        refresh_token_expires_at: refresh_until,
    }
}

fn store(access: &str) -> Cache {
    let mut cache = Cache::new();
    cache.set_urls(Urls {
        api_base_url: "https://api.example".to_string(),
        web_base_url: "https://example".to_string(),
    });
    cache.set_secrets(pair(access, "refresh-1", 100, 1_000));
    cache
}

fn get_call() -> Call {
    Call { method: Method::Get, route: "/api/get/user/by-discord/7".to_string(), with_body: false }
}

fn post_call() -> Call {
    Call { method: Method::Post, route: "/api/post/user/submit".to_string(), with_body: true }
}

fn replied(status: u16, body: &str) -> CallEvent<u32> {
    CallEvent::Replied { status, body: body.to_string() }
}

fn request(method: Method, url: &str, token: &str, with_body: bool) -> Request {
    Request {
        method,
        url: url.to_string(),
        content_type_json: method != Method::Get,
        authorization: format!("Bearer {}", token),
        with_body,
    }
}

#[test]
fn first_attempt_carries_the_current_token() {
    let mut cache = store("token-1");
    let (step, action) = make_request::<u32>(&mut cache, &get_call(), CallStep::Ready, CallEvent::Start);
    assert_eq!(step, CallStep::FirstSent { generation: 1 });
    assert_eq!(
        action,
        CallAction::Send(request(
            Method::Get,
            "https://api.example/api/get/user/by-discord/7",
            "token-1",
            false
        ))
    );
}

#[test]
fn get_declares_no_body_and_other_methods_do() {
    let mut cache = store("token-1");
    let (_, action) = make_request::<u32>(&mut cache, &get_call(), CallStep::Ready, CallEvent::Start);
    match action {
        CallAction::Send(sent) => assert!(!sent.content_type_json),
        other => panic!("unexpected action {:?}", other),
    }
    for method in [Method::Post, Method::Put, Method::Patch, Method::Delete] {
        let call = Call { method, route: "/x".to_string(), with_body: false };
        let (_, action) = make_request::<u32>(&mut cache, &call, CallStep::Ready, CallEvent::Start);
        match action {
            CallAction::Send(sent) => {
                assert!(sent.content_type_json);
                assert_eq!(sent.method, method);
            }
            other => panic!("unexpected action {:?}", other),
        }
    }
}

#[test]
fn success_is_decoded_and_returned() {
    let mut cache = store("token-1");
    let call = get_call();
    let (step, _) = make_request::<u32>(&mut cache, &call, CallStep::Ready, CallEvent::Start);
    let (step, action) = make_request(&mut cache, &call, step, replied(200, "41"));
    assert_eq!(step, CallStep::DecodingSuccess);
    assert_eq!(action, CallAction::DecodeSuccess { body: "41".to_string() });
    let (step, action) = make_request(&mut cache, &call, step, CallEvent::Decoded(41u32));
    assert_eq!(step, CallStep::Finished);
    assert_eq!(action, CallAction::Finish(Ok(ResponseTypes::Success(41u32))));
}

#[test]
fn backend_error_is_surfaced_verbatim_without_retry() {
    let mut cache = store("token-1");
    let call = get_call();
    let before = cache.clone();
    let (step, _) = make_request::<u32>(&mut cache, &call, CallStep::Ready, CallEvent::Start);
    let (step, action) = make_request(&mut cache, &call, step, replied(404, "{\"status\":404}"));
    assert_eq!(step, CallStep::DecodingError);
    assert_eq!(action, CallAction::DecodeError { body: "{\"status\":404}".to_string() });
    let reported = ErrorResponse { status: 404, message: "no such user".to_string() };
    let (step, action) = make_request::<u32>(
        &mut cache,
        &call,
        step,
        CallEvent::DecodedError(ErrorResponse { status: 404, message: "no such user".to_string() }),
    );
    assert_eq!(step, CallStep::Finished);
    assert_eq!(action, CallAction::Finish(Ok(ResponseTypes::Error(reported))));
    assert_eq!(cache, before);
}

#[test]
fn server_error_on_an_ordinary_call_is_not_retried() {
    let mut cache = store("token-1");
    let call = get_call();
    let (step, _) = make_request::<u32>(&mut cache, &call, CallStep::Ready, CallEvent::Start);
    let (step, action) = make_request(&mut cache, &call, step, replied(503, "busy"));
    assert_eq!(step, CallStep::DecodingError);
    assert_eq!(action, CallAction::DecodeError { body: "busy".to_string() });
}

#[test]
fn undecodable_body_is_a_distinct_error_with_the_raw_body() {
    let mut cache = store("token-1");
    let call = get_call();
    let (step, action) = make_request::<u32>(
        &mut cache,
        &call,
        CallStep::DecodingSuccess,
        CallEvent::Undecodable { body: "<html>".to_string(), cause: "expected value".to_string() },
    );
    assert_eq!(step, CallStep::Finished);
    let error = CallError::Decode { body: "<html>".to_string(), cause: "expected value".to_string() };
    assert!(!error.authorization());
    assert_eq!(action, CallAction::Finish(Err(error)));
    let (step, action) = make_request::<u32>(
        &mut cache,
        &call,
        CallStep::DecodingError,
        CallEvent::Undecodable { body: "oops".to_string(), cause: "eof".to_string() },
    );
    assert_eq!(step, CallStep::Finished);
    assert_eq!(
        action,
        CallAction::Finish(Err(CallError::Decode {
            body: "oops".to_string(),
            cause: "eof".to_string()
        }))
    );
}

#[test]
fn transport_failure_is_surfaced_at_once() {
    let mut cache = store("token-1");
    let call = get_call();
    let (step, _) = make_request::<u32>(&mut cache, &call, CallStep::Ready, CallEvent::Start);
    let (step, action) = make_request::<u32>(
        &mut cache,
        &call,
        step,
        CallEvent::TransportFailed("connection reset".to_string()),
    );
    assert_eq!(step, CallStep::Finished);
    assert_eq!(
        action,
        CallAction::Finish(Err(CallError::Transport("connection reset".to_string())))
    );
}

#[test]
fn refused_then_accepted_renews_exactly_once() {
    let mut cache = store("token-1");
    let call = post_call();
    let renewed = pair("token-2", "refresh-2", 200, 2_000);
    let events: Vec<CallEvent<u32>> = vec![
        CallEvent::Start,
        replied(401, "expired"),
        CallEvent::Exchange(ExchangeEvent::Unreachable("blip".to_string())),
        CallEvent::Exchange(ExchangeEvent::Replied { status: 503, body: "".to_string() }),
        CallEvent::Exchange(ExchangeEvent::Replied { status: 200, body: "pair".to_string() }),
        CallEvent::Exchange(ExchangeEvent::Decoded(renewed.clone())),
        CallEvent::Persisted,
        replied(201, "5"),
        CallEvent::Decoded(5u32),
    ];
    let mut step = CallStep::Ready;
    let mut actions = Vec::new();
    for event in events {
        let (next, action) = make_request(&mut cache, &call, step, event);
        step = next;
        actions.push(action);
    }
    assert_eq!(step, CallStep::Finished);
    let renewals = actions.iter().filter(|a| matches!(a, CallAction::Refresh { .. })).count();
    let attempts = actions.iter().filter(|a| matches!(a, CallAction::Send(_))).count();
    assert_eq!(renewals, 1);
    assert_eq!(attempts, 2);
    assert_eq!(
        actions[0],
        CallAction::Send(request(
            Method::Post,
            "https://api.example/api/post/user/submit",
            "token-1",
            true
        ))
    );
    assert_eq!(
        actions[1],
        CallAction::Refresh {
            url: "https://api.example/bot/refresh".to_string(),
            access_token: "token-1".to_string(),
            refresh_token: "refresh-1".to_string(),
        }
    );
    assert_eq!(actions[2], CallAction::RetryRefreshAfter { seconds: 1 });
    assert_eq!(actions[3], CallAction::RetryRefreshAfter { seconds: 1 });
    assert_eq!(actions[4], CallAction::DecodeSecrets { body: "pair".to_string() });
    assert_eq!(actions[5], CallAction::Persist);
    assert_eq!(
        actions[6],
        CallAction::Send(request(
            Method::Post,
            "https://api.example/api/post/user/submit",
            "token-2",
            true
        ))
    );
    assert_eq!(actions[7], CallAction::DecodeSuccess { body: "5".to_string() });
    assert_eq!(actions[8], CallAction::Finish(Ok(ResponseTypes::Success(5u32))));
    assert_eq!(cache.get_secrets(), renewed);
}

#[test]
fn refused_renewal_surfaces_an_authorization_error_and_leaves_the_store_alone() {
    let mut cache = store("token-1");
    let call = get_call();
    let before = cache.clone();
    let (step, _) = make_request::<u32>(&mut cache, &call, CallStep::Ready, CallEvent::Start);
    let (step, action) = make_request(&mut cache, &call, step, replied(401, "expired"));
    assert_eq!(step, CallStep::Refreshing(ExchangeStep::Sending));
    assert!(matches!(action, CallAction::Refresh { .. }));
    let (step, action) = make_request::<u32>(
        &mut cache,
        &call,
        step,
        CallEvent::Exchange(ExchangeEvent::Replied { status: 400, body: "revoked".to_string() }),
    );
    assert_eq!(step, CallStep::Finished);
    let error = CallError::Credential(BrokerError::Rejected {
        kind: ExchangeKind::Refresh,
        status: 400,
        body: "revoked".to_string(),
    });
    assert!(error.authorization());
    assert_eq!(action, CallAction::Finish(Err(error)));
    assert_eq!(cache, before);
}

#[test]
fn second_refusal_is_final() {
    let mut cache = store("token-1");
    let call = get_call();
    let (step, action) = make_request(&mut cache, &call, CallStep::SecondSent, replied(401, "still no"));
    assert_eq!(step, CallStep::Finished);
    let error = CallError::Unauthorized { body: "still no".to_string() };
    assert!(error.authorization());
    assert_eq!(action, CallAction::Finish(Err(error)));
    let (step, action) = make_request(&mut cache, &call, step, replied(200, "late"));
    assert_eq!(step, CallStep::Finished);
    assert_eq!(action, CallAction::Ignore);
}

#[test]
fn second_waiter_finds_the_store_renewed_and_does_not_renew_again() {
    let mut cache = store("token-1");
    let call = get_call();
    let (first, _) = make_request::<u32>(&mut cache, &call, CallStep::Ready, CallEvent::Start);
    let (second, _) = make_request::<u32>(&mut cache, &call, CallStep::Ready, CallEvent::Start);
    let (third, _) = make_request::<u32>(&mut cache, &call, CallStep::Ready, CallEvent::Start);

    let (step, action) = make_request(&mut cache, &call, first, replied(401, ""));
    assert!(matches!(action, CallAction::Refresh { .. }));
    let (step, _) = make_request::<u32>(
        &mut cache,
        &call,
        step,
        CallEvent::Exchange(ExchangeEvent::Replied { status: 200, body: "".to_string() }),
    );
    let (step, action) = make_request::<u32>(
        &mut cache,
        &call,
        step,
        CallEvent::Exchange(ExchangeEvent::Decoded(pair("token-2", "refresh-2", 5, 6))),
    );
    assert_eq!(step, CallStep::Persisting);
    assert_eq!(action, CallAction::Persist);

    for waiter in [second, third] {
        let (step, action) = make_request(&mut cache, &call, waiter, replied(401, ""));
        assert_eq!(step, CallStep::SecondSent);
        assert_eq!(
            action,
            CallAction::Send(request(
                Method::Get,
                "https://api.example/api/get/user/by-discord/7",
                "token-2",
                false
            ))
        );
    }
    assert_eq!(cache.generation(), 2);
}

#[test]
fn failed_persist_is_surfaced() {
    let mut cache = store("token-1");
    let call = get_call();
    let (step, action) = make_request::<u32>(
        &mut cache,
        &call,
        CallStep::Persisting,
        CallEvent::PersistFailed(CacheError::Write("disk full".to_string())),
    );
    assert_eq!(step, CallStep::Finished);
    assert_eq!(
        action,
        CallAction::Finish(Err(CallError::Persist(CacheError::Write("disk full".to_string()))))
    );
}

#[test]
fn token_with_a_line_break_is_never_sent() {
    let mut cache = store("bad\ntoken");
    let (step, action) = make_request::<u32>(&mut cache, &get_call(), CallStep::Ready, CallEvent::Start);
    assert_eq!(step, CallStep::Finished);
    assert_eq!(action, CallAction::Finish(Err(CallError::InvalidHeader)));
}

#[test]
fn token_with_a_control_or_delete_character_is_never_sent() {
    for token in ["a\u{0}b", "a\u{1f}b", "a\u{7f}b", "a\rb"] {
        let mut cache = store(token);
        let (step, action) =
            make_request::<u32>(&mut cache, &get_call(), CallStep::Ready, CallEvent::Start);
        assert_eq!(step, CallStep::Finished);
        assert_eq!(action, CallAction::Finish(Err(CallError::InvalidHeader)));
    }
}

#[test]
fn token_with_tab_space_or_wide_characters_is_sent() {
    for token in ["a\tb", "a b", "~", "caf\u{e9}", "\u{1F600}", ""] {
        let mut cache = store(token);
        let (step, action) =
            make_request::<u32>(&mut cache, &get_call(), CallStep::Ready, CallEvent::Start);
        assert_eq!(step, CallStep::FirstSent { generation: 1 });
        match action {
            CallAction::Send(sent) => assert_eq!(sent.authorization, format!("Bearer {}", token)),
            other => panic!("unexpected action {:?}", other),
        }
    }
}

#[test]
fn renewed_token_that_cannot_be_sent_ends_the_call() {
    let mut cache = store("token-1");
    let call = get_call();
    cache.set_secrets(pair("bad\ntoken", "r", 1, 2));
    let (step, action) = make_request::<u32>(&mut cache, &call, CallStep::Persisting, CallEvent::Persisted);
    assert_eq!(step, CallStep::Finished);
    assert_eq!(action, CallAction::Finish(Err(CallError::InvalidHeader)));
}

#[test]
fn call_events_out_of_turn_are_ignored() {
    let mut cache = store("token-1");
    let call = get_call();
    let before = cache.clone();
    let (step, action) = make_request(&mut cache, &call, CallStep::Ready, replied(200, ""));
    assert_eq!(step, CallStep::Ready);
    assert_eq!(action, CallAction::Ignore);
    let (step, action) =
        make_request::<u32>(&mut cache, &call, CallStep::FirstSent { generation: 1 }, CallEvent::Start);
    assert_eq!(step, CallStep::FirstSent { generation: 1 });
    assert_eq!(action, CallAction::Ignore);
    let (step, action) = make_request::<u32>(
        &mut cache,
        &call,
        CallStep::SecondSent,
        CallEvent::Exchange(ExchangeEvent::Decoded(Secrets::empty())),
    );
    assert_eq!(step, CallStep::SecondSent);
    assert_eq!(action, CallAction::Ignore);
    assert_eq!(cache, before);
}

#[test]
fn error_title_names_the_status() {
    let error = ErrorResponse { status: 404, message: "gone".to_string() };
    assert_eq!(error.title(), "Error 404");
    let error = ErrorResponse { status: 0, message: String::new() };
    assert_eq!(error.title(), "Error 0");
}

#[test]
fn call_error_messages() {
    assert_eq!(CallError::InvalidHeader.message(), "failed to parse header value");
    assert_eq!(CallError::Transport("reset".to_string()).message(), "reset");
    assert_eq!(
        CallError::Unauthorized { body: "nope".to_string() }.message(),
        "Unauthorized: nope"
    );
    assert_eq!(
        CallError::Credential(BrokerError::Malformed { cause: "eof".to_string() }).message(),
        "Could not deserialize secrets: eof"
    );
    assert_eq!(
        CallError::Persist(CacheError::Write("full".to_string())).message(),
        "Could not write to cache file: full"
    );
    assert_eq!(
        CallError::Decode { body: "<html>".to_string(), cause: "expected value".to_string() }
            .message(),
        "Failed to convert response to json: expected value, response: <html>"
    );
}
