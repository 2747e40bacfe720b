//! The authenticated client: one backend call, sent with the current
//! access token, with exactly one renew-and-resend when the backend
//! refuses the token.
//!
//! Like the broker, the client is a state machine. A driver sends what the
//! client asks for and reports what came back; [`make_request`] decides.

use crate::broker::{
    exchange_step, is_setback, is_success, status_is_success, store_after, BrokerError,
    ExchangeAction, ExchangeEvent, ExchangeKind, ExchangeStep, StoreAction, UNAUTHORIZED,
};
use crate::cache::{Cache, CacheError, CacheView};
use crate::credential::Secrets;
use crate::text::{decimal, decimal_string, join};
use vstd::prelude::*;

verus! {

/// The request methods that the backend is called with.
#[derive(Debug, Clone, Copy, PartialEq, Eq, Structural)]
pub enum Method {
    Get,
    Post,
    Put,
    Patch,
    Delete,
}

/// An error as the backend reports it.
#[derive(Debug, PartialEq, Eq)]
pub struct ErrorResponse {
    pub status: u16,
    pub message: String,
}

impl ErrorResponse {
    /// The heading under which the error is shown.
    pub open spec fn heading(self) -> Seq<char> {
        "Error "@ + decimal(self.status as nat)
    }

    /// The heading under which the error is shown, as text.
    pub fn title(&self) -> (text: String)
        ensures
            text@ == self.heading(),
    {
        let status = decimal_string(self.status as u64);
        join("Error ", status.as_str())
    }
}

/// What the backend answered: the decoded value, or the error it reported.
#[derive(Debug, PartialEq, Eq)]
pub enum ResponseTypes<R> {
    Success(R),
    Error(ErrorResponse),
}

/// Why a call ended without an answer from the backend.
#[derive(Debug, PartialEq, Eq)]
pub enum CallError {
    /// The access token cannot stand in a header, so nothing was sent.
    InvalidHeader,
    /// The request could not be sent, or the reply could not be read.
    Transport(String),
    /// The backend refused the renewed token as well.
    Unauthorized { body: String },
    /// The token could not be renewed.
    Credential(BrokerError),
    /// The renewed pair could not be written to disk.
    Persist(CacheError),
    /// A body could not be decoded; the raw body and the cause are given.
    Decode { body: String, cause: String },
}

impl CallError {
    /// The failures that mean that the bot is not authorized: the backend
    /// refused the token after a renewal, or the renewal itself was refused.
    pub open spec fn is_authorization(self) -> bool {
        self is Unauthorized || self is Credential
    }

    /// The report of the failure.
    pub open spec fn text(self) -> Seq<char> {
        match self {
            CallError::InvalidHeader => "failed to parse header value"@,
            CallError::Transport(cause) => cause@,
            CallError::Unauthorized { body } => "Unauthorized: "@ + body@,
            CallError::Credential(error) => error.text(),
            CallError::Persist(error) => error.text(),
            CallError::Decode { body, cause } => "Failed to convert response to json: "@ + cause@
                + ", response: "@ + body@,
        }
    }

    /// The report of the failure as text.
    pub fn message(&self) -> (text: String)
        ensures
            text@ == self.text(),
    {
        match self {
            CallError::InvalidHeader => String::from_str("failed to parse header value"),
            CallError::Transport(cause) => cause.clone(),
            CallError::Unauthorized { body } => join("Unauthorized: ", body.as_str()),
            CallError::Credential(error) => error.message(),
            CallError::Persist(error) => error.message(),
            CallError::Decode { body, cause } => String::from_str(
                "Failed to convert response to json: ",
            ).concat(cause.as_str()).concat(", response: ").concat(body.as_str()),
        }
    }

    /// Whether the failure means that the bot is not authorized.
    pub fn authorization(&self) -> (yes: bool)
        ensures
            yes == self.is_authorization(),
    {
        match self {
            CallError::Unauthorized { .. } => true,
            CallError::Credential(_) => true,
            _ => false,
        }
    }
}

/// The call to make: what stays the same over both attempts.
#[derive(Debug, PartialEq, Eq)]
pub struct Call {
    pub method: Method,
    /// The path below the backend's base address.
    pub route: String,
    /// Whether the caller has a body to send along.
    pub with_body: bool,
}

/// What a [`Call`] holds, as mathematical values.
pub struct CallView {
    pub method: Method,
    pub route: Seq<char>,
    pub with_body: bool,
}

impl View for Call {
    type V = CallView;

    open spec fn view(&self) -> CallView {
        CallView { method: self.method, route: self.route@, with_body: self.with_body }
    }
}

/// A request ready to be sent. Every request asks for JSON back.
#[derive(Debug, PartialEq, Eq)]
pub struct Request {
    pub method: Method,
    pub url: String,
    /// Whether the request declares a JSON body: all methods but `Get` do.
    pub content_type_json: bool,
    /// The value of the authorization header.
    pub authorization: String,
    /// Whether the caller's body goes with the request.
    pub with_body: bool,
}

/// What a [`Request`] holds, as mathematical values.
pub struct RequestView {
    pub method: Method,
    pub url: Seq<char>,
    pub content_type_json: bool,
    pub authorization: Seq<char>,
    pub with_body: bool,
}

impl View for Request {
    type V = RequestView;

    open spec fn view(&self) -> RequestView {
        RequestView {
            method: self.method,
            url: self.url@,
            content_type_json: self.content_type_json,
            authorization: self.authorization@,
            with_body: self.with_body,
        }
    }
}

/// The renewal request that goes with the store's current pair.
pub struct RenewalView {
    pub url: Seq<char>,
    pub access_token: Seq<char>,
    pub refresh_token: Seq<char>,
}

/// Where a call stands.
#[derive(Debug, Clone, Copy, PartialEq, Eq, Structural)]
pub enum CallStep {
    /// Nothing was sent yet.
    Ready,
    /// The first attempt is on its way; it carries the token of this
    /// generation of the store.
    FirstSent { generation: u64 },
    /// The token was refused and is being renewed.
    Refreshing(ExchangeStep),
    /// The renewed pair is being written to disk.
    Persisting,
    /// The second attempt is on its way.
    SecondSent,
    /// The body of a successful reply is being decoded.
    DecodingSuccess,
    /// The body of a failed reply is being decoded.
    DecodingError,
    /// The call has ended.
    Finished,
}

/// What the driver reports to the client.
#[derive(Debug, PartialEq, Eq)]
pub enum CallEvent<R> {
    /// The call is to begin.
    Start,
    /// The request could not be sent, or the reply's body could not be read.
    TransportFailed(String),
    /// A reply came, with this status and body.
    Replied { status: u16, body: String },
    /// The body of the successful reply held this value.
    Decoded(R),
    /// The body of the failed reply held this error.
    DecodedError(ErrorResponse),
    /// This body could not be decoded; the cause is given.
    Undecodable { body: String, cause: String },
    /// The renewal moved on.
    Exchange(ExchangeEvent),
    /// The store was written to disk.
    Persisted,
    /// The store could not be written to disk.
    PersistFailed(CacheError),
}

/// What the driver is to do next.
#[derive(Debug, PartialEq, Eq)]
pub enum CallAction<R> {
    /// Send this request and report `Replied` or `TransportFailed`.
    Send(Request),
    /// Renew the token: post the store's pair to this address and report
    /// what comes of it as `Exchange` events. The store must stay locked
    /// until the renewal has ended.
    Refresh { url: String, access_token: String, refresh_token: String },
    /// Wait this long, then post the renewal again.
    RetryRefreshAfter { seconds: u64 },
    /// Decode this body as a token pair and report it as an `Exchange` event.
    DecodeSecrets { body: String },
    /// The store holds the renewed pair: write it to disk and report
    /// `Persisted` or `PersistFailed`.
    Persist,
    /// Decode this body as the caller's type and report `Decoded` or
    /// `Undecodable`.
    DecodeSuccess { body: String },
    /// Decode this body as a backend error and report `DecodedError` or
    /// `Undecodable`.
    DecodeError { body: String },
    /// The call has ended with this outcome.
    Finish(Result<ResponseTypes<R>, CallError>),
    /// The event does not belong to this step; nothing is to be done.
    Ignore,
}

/// What a [`CallAction`] holds, with the texts that the client built as
/// sequences of characters.
pub enum CallActionView<R> {
    Send(RequestView),
    Refresh(RenewalView),
    RetryRefreshAfter { seconds: u64 },
    DecodeSecrets { body: String },
    Persist,
    DecodeSuccess { body: String },
    DecodeError { body: String },
    Finish(Result<ResponseTypes<R>, CallError>),
    Ignore,
}

impl<R> View for CallAction<R> {
    type V = CallActionView<R>;

    open spec fn view(&self) -> CallActionView<R> {
        match *self {
            CallAction::Send(request) => CallActionView::Send(request@),
            CallAction::Refresh { url, access_token, refresh_token } => CallActionView::Refresh(
                RenewalView {
                    url: url@,
                    access_token: access_token@,
                    refresh_token: refresh_token@,
                },
            ),
            CallAction::RetryRefreshAfter { seconds } => CallActionView::RetryRefreshAfter {
                seconds,
            },
            CallAction::DecodeSecrets { body } => CallActionView::DecodeSecrets { body },
            CallAction::Persist => CallActionView::Persist,
            CallAction::DecodeSuccess { body } => CallActionView::DecodeSuccess { body },
            CallAction::DecodeError { body } => CallActionView::DecodeError { body },
            CallAction::Finish(outcome) => CallActionView::Finish(outcome),
            CallAction::Ignore => CallActionView::Ignore,
        }
    }
}

/// The characters that a header value may hold: the tab, and everything
/// from the space on but the delete character.
pub open spec fn header_char(c: char) -> bool {
    c == '\t' || (c as u32 >= 32 && c as u32 != 127)
}

/// A text that can stand as a header value.
pub open spec fn header_text(text: Seq<char>) -> bool {
    forall|i: int| 0 <= i < text.len() ==> header_char(#[trigger] text[i])
}

/// The authorization header for a token.
pub open spec fn bearer(token: Seq<char>) -> Seq<char> {
    "Bearer "@ + token
}

/// The request for a call under the store's current token, where the token
/// can stand in a header.
pub open spec fn prepared(store: CacheView, call: Call) -> Option<RequestView> {
    if header_text(bearer(store.secrets.access_token)) {
        Some(
            RequestView {
                method: call.method,
                url: store.urls.api_base_url + call.route@,
                content_type_json: call.method != Method::Get,
                authorization: bearer(store.secrets.access_token),
                with_body: call.with_body,
            },
        )
    } else {
        None
    }
}

/// The renewal request for the store's current pair.
pub open spec fn renewal(store: CacheView) -> RenewalView {
    RenewalView {
        url: store.urls.api_base_url + "/bot/refresh"@,
        access_token: store.secrets.access_token,
        refresh_token: store.secrets.refresh_token,
    }
}

/// A sent token is stale when the store has moved on to another
/// generation since: some other call has renewed the pair meanwhile.
pub open spec fn stale(sent: nat, current: nat) -> bool {
    sent != current
}

/// Sending under the store's current token: the step `sent` and the
/// request, or the end of the call where the token cannot be sent.
pub open spec fn send_or_fail<R>(store: CacheView, call: Call, sent: CallStep) -> (
    CallStep,
    CallActionView<R>,
) {
    match prepared(store, call) {
        Some(request) => (sent, CallActionView::Send(request)),
        None => (CallStep::Finished, CallActionView::Finish(Err(CallError::InvalidHeader))),
    }
}

/// What the renewal's answer means for the call.
pub open spec fn after_exchange<R>(decided: (ExchangeStep, ExchangeAction)) -> (
    CallStep,
    CallActionView<R>,
) {
    match decided.1 {
        ExchangeAction::RetryAfter { seconds } => (
            CallStep::Refreshing(decided.0),
            CallActionView::RetryRefreshAfter { seconds },
        ),
        ExchangeAction::Decode { body } => (
            CallStep::Refreshing(decided.0),
            CallActionView::DecodeSecrets { body },
        ),
        ExchangeAction::Install { secrets } => (CallStep::Persisting, CallActionView::Persist),
        ExchangeAction::Fallback => (CallStep::Refreshing(decided.0), CallActionView::Ignore),
        ExchangeAction::Fail(error) => (
            CallStep::Finished,
            CallActionView::Finish(Err(CallError::Credential(error))),
        ),
        ExchangeAction::Ignore => (CallStep::Refreshing(decided.0), CallActionView::Ignore),
    }
}

/// The client's rule: the step that follows, the action to take and the
/// store afterwards, for each step, event and store.
pub open spec fn call_step<R>(call: Call, step: CallStep, event: CallEvent<R>, store: CacheView) -> (
    CallStep,
    CallActionView<R>,
    CacheView,
) {
    match (step, event) {
        (CallStep::Ready, CallEvent::Start) => {
            let (next, action) = send_or_fail::<R>(
                store,
                call,
                CallStep::FirstSent { generation: store.generation as u64 },
            );
            (next, action, store)
        },
        (CallStep::FirstSent { generation }, CallEvent::Replied { status, body }) => {
            if status_is_success(status) {
                (CallStep::DecodingSuccess, CallActionView::DecodeSuccess { body }, store)
            } else if status == UNAUTHORIZED {
                if stale(generation as nat, store.generation) {
                    let (next, action) = send_or_fail::<R>(store, call, CallStep::SecondSent);
                    (next, action, store)
                } else {
                    (
                        CallStep::Refreshing(ExchangeStep::Sending),
                        CallActionView::Refresh(renewal(store)),
                        store,
                    )
                }
            } else {
                (CallStep::DecodingError, CallActionView::DecodeError { body }, store)
            }
        },
        (CallStep::SecondSent, CallEvent::Replied { status, body }) => {
            if status_is_success(status) {
                (CallStep::DecodingSuccess, CallActionView::DecodeSuccess { body }, store)
            } else if status == UNAUTHORIZED {
                (
                    CallStep::Finished,
                    CallActionView::Finish(Err(CallError::Unauthorized { body })),
                    store,
                )
            } else {
                (CallStep::DecodingError, CallActionView::DecodeError { body }, store)
            }
        },
        (CallStep::FirstSent { generation }, CallEvent::TransportFailed(cause)) => (
            CallStep::Finished,
            CallActionView::Finish(Err(CallError::Transport(cause))),
            store,
        ),
        (CallStep::SecondSent, CallEvent::TransportFailed(cause)) => (
            CallStep::Finished,
            CallActionView::Finish(Err(CallError::Transport(cause))),
            store,
        ),
        (CallStep::Refreshing(exchange), CallEvent::Exchange(happened)) => {
            let decided = exchange_step(ExchangeKind::Refresh, exchange, happened, false);
            let (next, action) = after_exchange::<R>(decided);
            (next, action, store_after(store, decided.1))
        },
        (CallStep::Persisting, CallEvent::Persisted) => {
            let (next, action) = send_or_fail::<R>(store, call, CallStep::SecondSent);
            (next, action, store)
        },
        (CallStep::Persisting, CallEvent::PersistFailed(error)) => (
            CallStep::Finished,
            CallActionView::Finish(Err(CallError::Persist(error))),
            store,
        ),
        (CallStep::DecodingSuccess, CallEvent::Decoded(value)) => (
            CallStep::Finished,
            CallActionView::Finish(Ok(ResponseTypes::Success(value))),
            store,
        ),
        (CallStep::DecodingError, CallEvent::DecodedError(error)) => (
            CallStep::Finished,
            CallActionView::Finish(Ok(ResponseTypes::Error(error))),
            store,
        ),
        (CallStep::DecodingSuccess, CallEvent::Undecodable { body, cause }) => (
            CallStep::Finished,
            CallActionView::Finish(Err(CallError::Decode { body, cause })),
            store,
        ),
        (CallStep::DecodingError, CallEvent::Undecodable { body, cause }) => (
            CallStep::Finished,
            CallActionView::Finish(Err(CallError::Decode { body, cause })),
            store,
        ),
        _ => (step, CallActionView::Ignore, store),
    }
}

/// Asks `reqwest::header::HeaderValue::from_str` whether a text can stand
/// as a header value. By its source the function accepts a text exactly
/// when each of its bytes is the tab or is at least 32 and not 127; the
/// bytes of a character beyond ASCII are all above 127, so this is the same
/// as every character being a [`header_char`].
#[verifier::external_body]
fn header_accepts(value: &str) -> (accepted: bool)
    ensures
        accepted == header_text(value@),
{
    reqwest::header::HeaderValue::from_str(value).is_ok()
}

fn prepare(cache: &Cache, call: &Call) -> (request: Option<Request>)
    ensures
        match request {
            Some(built) => prepared(cache@, *call) == Some(built@),
            None => prepared(cache@, *call).is_none(),
        },
{
    let secrets = cache.get_secrets();
    let authorization = join("Bearer ", secrets.access_token.as_str());
    if header_accepts(authorization.as_str()) {
        let base = cache.get_api_base_url();
        let url = join(base.as_str(), call.route.as_str());
        Some(
            Request {
                method: call.method,
                url,
                content_type_json: call.method != Method::Get,
                authorization,
                with_body: call.with_body,
            },
        )
    } else {
        None
    }
}

fn send<R>(cache: &Cache, call: &Call, sent: CallStep) -> (next: (CallStep, CallAction<R>))
    ensures
        (next.0, next.1@) == send_or_fail::<R>(cache@, *call, sent),
{
    match prepare(cache, call) {
        Some(request) => (sent, CallAction::Send(request)),
        None => (CallStep::Finished, CallAction::Finish(Err(CallError::InvalidHeader))),
    }
}

fn start_renewal<R>(cache: &Cache) -> (action: CallAction<R>)
    ensures
        action@ == CallActionView::<R>::Refresh(renewal(cache@)),
{
    let secrets = cache.get_secrets();
    let base = cache.get_api_base_url();
    let request = secrets.refresh_request(base.as_str());
    CallAction::Refresh {
        url: request.url,
        access_token: request.access_token,
        refresh_token: request.refresh_token,
    }
}

fn on_reply<R>(cache: &Cache, call: &Call, step: CallStep, status: u16, body: String) -> (next: (
    CallStep,
    CallAction<R>,
))
    requires
        step is FirstSent || step is SecondSent,
    ensures
        (next.0, next.1@, cache@) == call_step::<R>(
            *call,
            step,
            CallEvent::Replied { status, body },
            cache@,
        ),
{
    if is_success(status) {
        (CallStep::DecodingSuccess, CallAction::DecodeSuccess { body })
    } else if status == UNAUTHORIZED {
        match step {
            CallStep::FirstSent { generation } => {
                if generation != cache.generation() {
                    send(cache, call, CallStep::SecondSent)
                } else {
                    (CallStep::Refreshing(ExchangeStep::Sending), start_renewal(cache))
                }
            },
            _ => (CallStep::Finished, CallAction::Finish(Err(CallError::Unauthorized { body }))),
        }
    } else {
        (CallStep::DecodingError, CallAction::DecodeError { body })
    }
}

fn on_exchange<R>(cache: &mut Cache, exchange: ExchangeStep, happened: ExchangeEvent) -> (next: (
    CallStep,
    CallAction<R>,
))
    ensures
        ({
            let decided = exchange_step(ExchangeKind::Refresh, exchange, happened, false);
            &&& (next.0, next.1@) == after_exchange::<R>(decided)
            &&& final(cache)@ == store_after(old(cache)@, decided.1)
        }),
{
    let (following, told) = cache.refresh_secrets(exchange, happened);
    match told {
        StoreAction::RetryAfter { seconds } => (
            CallStep::Refreshing(following),
            CallAction::RetryRefreshAfter { seconds },
        ),
        StoreAction::Decode { body } => (
            CallStep::Refreshing(following),
            CallAction::DecodeSecrets { body },
        ),
        StoreAction::Persist => (CallStep::Persisting, CallAction::Persist),
        StoreAction::Keep => (CallStep::Refreshing(following), CallAction::Ignore),
        StoreAction::Fail(error) => (
            CallStep::Finished,
            CallAction::Finish(Err(CallError::Credential(error))),
        ),
        StoreAction::Ignore => (CallStep::Refreshing(following), CallAction::Ignore),
    }
}

/// One step of a backend call against the store.
///
/// The first attempt carries the store's current token. A successful reply
/// is decoded and returned; a failure other than a refused token is decoded
/// as the backend's error and returned as it is, without another attempt.
/// When the token is refused, the pair is renewed once, unless another call
/// has renewed it since the request was sent, and the same request is sent
/// once more under the new token; what comes of the second attempt is
/// final. The store changes only when a renewed pair is installed.
pub fn make_request<R>(cache: &mut Cache, call: &Call, step: CallStep, event: CallEvent<R>) -> (next: (
    CallStep,
    CallAction<R>,
))
    ensures
        (next.0, next.1@, final(cache)@) == call_step(*call, step, event, old(cache)@),
{
    match step {
        CallStep::Ready => match event {
            CallEvent::Start => send(
                cache,
                call,
                CallStep::FirstSent { generation: cache.generation() },
            ),
            _ => (step, CallAction::Ignore),
        },
        CallStep::FirstSent { generation } => match event {
            CallEvent::Replied { status, body } => on_reply(cache, call, step, status, body),
            CallEvent::TransportFailed(cause) => (
                CallStep::Finished,
                CallAction::Finish(Err(CallError::Transport(cause))),
            ),
            _ => (step, CallAction::Ignore),
        },
        CallStep::SecondSent => match event {
            CallEvent::Replied { status, body } => on_reply(cache, call, step, status, body),
            CallEvent::TransportFailed(cause) => (
                CallStep::Finished,
                CallAction::Finish(Err(CallError::Transport(cause))),
            ),
            _ => (step, CallAction::Ignore),
        },
        CallStep::Refreshing(exchange) => match event {
            CallEvent::Exchange(happened) => on_exchange(cache, exchange, happened),
            _ => (step, CallAction::Ignore),
        },
        CallStep::Persisting => match event {
            CallEvent::Persisted => send(cache, call, CallStep::SecondSent),
            CallEvent::PersistFailed(error) => (
                CallStep::Finished,
                CallAction::Finish(Err(CallError::Persist(error))),
            ),
            _ => (step, CallAction::Ignore),
        },
        CallStep::DecodingSuccess => match event {
            CallEvent::Decoded(value) => (
                CallStep::Finished,
                CallAction::Finish(Ok(ResponseTypes::Success(value))),
            ),
            CallEvent::Undecodable { body, cause } => (
                CallStep::Finished,
                CallAction::Finish(Err(CallError::Decode { body, cause })),
            ),
            _ => (step, CallAction::Ignore),
        },
        CallStep::DecodingError => match event {
            CallEvent::DecodedError(error) => (
                CallStep::Finished,
                CallAction::Finish(Ok(ResponseTypes::Error(error))),
            ),
            CallEvent::Undecodable { body, cause } => (
                CallStep::Finished,
                CallAction::Finish(Err(CallError::Decode { body, cause })),
            ),
            _ => (step, CallAction::Ignore),
        },
        CallStep::Finished => (step, CallAction::Ignore),
    }
}

/// The steps, stores and actions of a whole call: the client's rule
/// applied to a row of events, each step and store handed on to the next.
pub open spec fn run<R>(call: Call, step: CallStep, store: CacheView, events: Seq<CallEvent<R>>) -> (
    CallStep,
    CacheView,
    Seq<CallActionView<R>>,
)
    decreases events.len(),
{
    if events.len() == 0 {
        (step, store, Seq::empty())
    } else {
        let first = call_step(call, step, events[0], store);
        let rest = run(call, first.0, first.2, events.drop_first());
        (rest.0, rest.1, seq![first.1] + rest.2)
    }
}

/// How many renewals a row of actions starts.
pub open spec fn renewals<R>(actions: Seq<CallActionView<R>>) -> nat
    decreases actions.len(),
{
    if actions.len() == 0 {
        0
    } else {
        (if actions[0] is Refresh {
            1nat
        } else {
            0nat
        }) + renewals(actions.drop_first())
    }
}

/// How many times a row of actions sends the caller's request.
pub open spec fn attempts<R>(actions: Seq<CallActionView<R>>) -> nat
    decreases actions.len(),
{
    if actions.len() == 0 {
        0
    } else {
        (if actions[0] is Send {
            1nat
        } else {
            0nat
        }) + attempts(actions.drop_first())
    }
}

/// The attempts that a call may still make from a step.
pub open spec fn attempts_left(step: CallStep) -> nat {
    match step {
        CallStep::Ready => 2,
        CallStep::FirstSent { .. } => 1,
        CallStep::Refreshing(_) => 1,
        CallStep::Persisting => 1,
        _ => 0,
    }
}

/// The renewals that a call may still start from a step.
pub open spec fn renewals_left(step: CallStep) -> nat {
    match step {
        CallStep::Ready => 1,
        CallStep::FirstSent { .. } => 1,
        _ => 0,
    }
}

proof fn lemma_counts_of_cons<R>(first: CallActionView<R>, rest: Seq<CallActionView<R>>)
    ensures
        renewals(seq![first] + rest) == (if first is Refresh {
            1nat
        } else {
            0nat
        }) + renewals(rest),
        attempts(seq![first] + rest) == (if first is Send {
            1nat
        } else {
            0nat
        }) + attempts(rest),
{
    let all = seq![first] + rest;
    assert(all.drop_first() =~= rest);
    assert(all[0] == first);
}

/// Running a row of events that continues in another row is running the
/// first and then the second from where the first ended.
pub proof fn lemma_run_continues<R>(
    call: Call,
    step: CallStep,
    store: CacheView,
    head: Seq<CallEvent<R>>,
    tail: Seq<CallEvent<R>>,
)
    ensures
        ({
            let whole = run(call, step, store, head + tail);
            let first = run(call, step, store, head);
            let second = run(call, first.0, first.1, tail);
            &&& whole.0 == second.0
            &&& whole.1 == second.1
            &&& whole.2 == first.2 + second.2
        }),
    decreases head.len(),
{
    if head.len() == 0 {
        assert(head + tail =~= tail);
        let second = run(call, step, store, tail);
        assert(Seq::<CallActionView<R>>::empty() + second.2 =~= second.2);
    } else {
        let whole_events = head + tail;
        assert(whole_events[0] == head[0]);
        assert(whole_events.drop_first() =~= head.drop_first() + tail);
        let one = call_step(call, step, head[0], store);
        lemma_run_continues(call, one.0, one.2, head.drop_first(), tail);
        let first_rest = run(call, one.0, one.2, head.drop_first());
        let second = run(call, first_rest.0, first_rest.1, tail);
        assert(seq![one.1] + (first_rest.2 + second.2) =~= (seq![one.1] + first_rest.2)
            + second.2);
    }
}

/// From any step and under any events, a call starts no more renewals and
/// makes no more attempts than the step leaves it.
pub proof fn lemma_bounded_from<R>(
    call: Call,
    step: CallStep,
    store: CacheView,
    events: Seq<CallEvent<R>>,
)
    ensures
        renewals(run(call, step, store, events).2) <= renewals_left(step),
        attempts(run(call, step, store, events).2) <= attempts_left(step),
    decreases events.len(),
{
    if events.len() > 0 {
        let first = call_step(call, step, events[0], store);
        let rest = run(call, first.0, first.2, events.drop_first());
        lemma_bounded_from(call, first.0, first.2, events.drop_first());
        lemma_counts_of_cons(first.1, rest.2);
    }
}

/// Whatever the backend and the driver do, one call sends its request at
/// most twice and renews the token at most once.
pub proof fn lemma_single_retry<R>(call: Call, store: CacheView, events: Seq<CallEvent<R>>)
    ensures
        renewals(run(call, CallStep::Ready, store, events).2) <= 1,
        attempts(run(call, CallStep::Ready, store, events).2) <= 2,
{
    lemma_bounded_from(call, CallStep::Ready, store, events);
}

proof fn lemma_run_single<R>(call: Call, step: CallStep, store: CacheView, event: CallEvent<R>)
    ensures
        ({
            let one = call_step(call, step, event, store);
            run(call, step, store, seq![event]) == (one.0, one.2, seq![one.1])
        }),
{
    let events = seq![event];
    let one = call_step(call, step, events[0], store);
    assert(events.drop_first() =~= Seq::<CallEvent<R>>::empty());
    assert(run(call, one.0, one.2, events.drop_first()).2 =~= Seq::<CallActionView<R>>::empty());
    assert(seq![one.1] + Seq::<CallActionView<R>>::empty() =~= seq![one.1]);
}

proof fn lemma_run_cons<R>(
    call: Call,
    step: CallStep,
    store: CacheView,
    event: CallEvent<R>,
    rest: Seq<CallEvent<R>>,
)
    ensures
        ({
            let one = call_step(call, step, event, store);
            let after = run(call, one.0, one.2, rest);
            run(call, step, store, seq![event] + rest) == (after.0, after.1, seq![one.1] + after.2)
        }),
{
    lemma_run_single(call, step, store, event);
    lemma_run_continues(call, step, store, seq![event], rest);
}

proof fn lemma_counts_of_concat<R>(head: Seq<CallActionView<R>>, tail: Seq<CallActionView<R>>)
    ensures
        renewals(head + tail) == renewals(head) + renewals(tail),
        attempts(head + tail) == attempts(head) + attempts(tail),
    decreases head.len(),
{
    if head.len() == 0 {
        assert(head + tail =~= tail);
    } else {
        let whole = head + tail;
        assert(whole[0] == head[0]);
        assert(whole.drop_first() =~= head.drop_first() + tail);
        lemma_counts_of_concat(head.drop_first(), tail);
    }
}

/// The events of a renewal as the client sees them.
pub open spec fn as_call_events<R>(events: Seq<ExchangeEvent>) -> Seq<CallEvent<R>> {
    events.map_values(|event: ExchangeEvent| CallEvent::<R>::Exchange(event))
}

proof fn lemma_setbacks_keep_renewing<R>(call: Call, store: CacheView, setbacks: Seq<ExchangeEvent>)
    requires
        forall|i: int| 0 <= i < setbacks.len() ==> is_setback(#[trigger] setbacks[i]),
    ensures
        ({
            let end = run(
                call,
                CallStep::Refreshing(ExchangeStep::Sending),
                store,
                as_call_events::<R>(setbacks),
            );
            &&& end.0 == CallStep::Refreshing(ExchangeStep::Sending)
            &&& end.1 == store
            &&& renewals(end.2) == 0
            &&& attempts(end.2) == 0
        }),
    decreases setbacks.len(),
{
    let events = as_call_events::<R>(setbacks);
    if setbacks.len() > 0 {
        let step = CallStep::Refreshing(ExchangeStep::Sending);
        assert(events[0] == CallEvent::<R>::Exchange(setbacks[0]));
        assert(is_setback(setbacks[0]));
        let one = call_step(call, step, events[0], store);
        assert(one.0 == step);
        assert(one.2 == store);
        assert(events.drop_first() =~= as_call_events::<R>(setbacks.drop_first()));
        assert forall|i: int| 0 <= i < setbacks.drop_first().len() implies is_setback(
            #[trigger] setbacks.drop_first()[i],
        ) by {
            assert(setbacks.drop_first()[i] == setbacks[i + 1]);
        }
        lemma_setbacks_keep_renewing::<R>(call, store, setbacks.drop_first());
        let rest = run(call, one.0, one.2, events.drop_first());
        lemma_counts_of_cons(one.1, rest.2);
    }
}

/// A call whose first attempt is refused and whose second attempt succeeds
/// returns the decoded value, having renewed the token exactly once and
/// sent the request exactly twice, however many setbacks the renewal met
/// on its way. The store afterwards holds the renewed pair.
pub proof fn lemma_refused_then_accepted<R>(
    call: Call,
    store: CacheView,
    refusal: String,
    setbacks: Seq<ExchangeEvent>,
    renewal_status: u16,
    renewal_body: String,
    renewed: Secrets,
    status: u16,
    body: String,
    value: R,
)
    requires
        store.generation <= u64::MAX,
        header_text(bearer(store.secrets.access_token)),
        header_text(bearer(renewed@.access_token)),
        forall|i: int| 0 <= i < setbacks.len() ==> is_setback(#[trigger] setbacks[i]),
        status_is_success(renewal_status),
        status_is_success(status),
    ensures
        ({
            let events = seq![
                CallEvent::<R>::Start,
                CallEvent::<R>::Replied { status: UNAUTHORIZED, body: refusal },
            ] + as_call_events::<R>(setbacks) + seq![
                CallEvent::<R>::Exchange(
                    ExchangeEvent::Replied { status: renewal_status, body: renewal_body },
                ),
                CallEvent::<R>::Exchange(ExchangeEvent::Decoded(renewed)),
                CallEvent::<R>::Persisted,
                CallEvent::<R>::Replied { status, body },
                CallEvent::<R>::Decoded(value),
            ];
            let end = run(call, CallStep::Ready, store, events);
            &&& end.0 == CallStep::Finished
            &&& end.1 == store.installed(renewed@)
            &&& end.2.len() > 0
            &&& end.2.last() == CallActionView::<R>::Finish(Ok(ResponseTypes::Success(value)))
            &&& renewals(end.2) == 1
            &&& attempts(end.2) == 2
        }),
{
    let e1 = CallEvent::<R>::Start;
    let e2 = CallEvent::<R>::Replied { status: UNAUTHORIZED, body: refusal };
    let middle = as_call_events::<R>(setbacks);
    let e3 = CallEvent::<R>::Exchange(
        ExchangeEvent::Replied { status: renewal_status, body: renewal_body },
    );
    let e4 = CallEvent::<R>::Exchange(ExchangeEvent::Decoded(renewed));
    let e5 = CallEvent::<R>::Persisted;
    let e6 = CallEvent::<R>::Replied { status, body };
    let e7 = CallEvent::<R>::Decoded(value);
    let events = seq![e1, e2] + middle + seq![e3, e4, e5, e6, e7];
    let t6 = seq![e7];
    let t5 = seq![e6] + t6;
    let t4 = seq![e5] + t5;
    let t3 = seq![e4] + t4;
    let t2 = seq![e3] + t3;
    let t1 = middle + t2;
    let t0 = seq![e2] + t1;
    assert(events =~= seq![e1] + t0);

    let renewed_store = store.installed(renewed@);
    let s1 = CallStep::FirstSent { generation: store.generation as u64 };
    let s2 = CallStep::Refreshing(ExchangeStep::Sending);
    let s3 = CallStep::Refreshing(ExchangeStep::Decoding);

    let o1 = call_step(call, CallStep::Ready, e1, store);
    let o2 = call_step(call, s1, e2, store);
    let o3 = call_step(call, s2, e3, store);
    let o4 = call_step(call, s3, e4, store);
    let o5 = call_step(call, CallStep::Persisting, e5, renewed_store);
    let o6 = call_step(call, CallStep::SecondSent, e6, renewed_store);
    let o7 = call_step(call, CallStep::DecodingSuccess, e7, renewed_store);
    assert(o1.0 == s1 && o1.1 is Send && o1.2 == store);
    assert(o2.0 == s2 && o2.1 is Refresh && o2.2 == store);
    assert(o3.0 == s3 && o3.1 is DecodeSecrets && o3.2 == store);
    assert(o4.0 == CallStep::Persisting && o4.1 is Persist && o4.2 == renewed_store);
    assert(renewed_store.secrets == renewed@);
    assert(o5.0 == CallStep::SecondSent && o5.1 is Send && o5.2 == renewed_store);
    assert(o6.0 == CallStep::DecodingSuccess && o6.1 is DecodeSuccess && o6.2 == renewed_store);
    assert(o7.0 == CallStep::Finished && o7.2 == renewed_store);

    lemma_run_single(call, CallStep::DecodingSuccess, renewed_store, e7);
    let r6 = run(call, CallStep::DecodingSuccess, renewed_store, t6);
    lemma_run_cons(call, CallStep::SecondSent, renewed_store, e6, t6);
    let r5 = run(call, CallStep::SecondSent, renewed_store, t5);
    lemma_run_cons(call, CallStep::Persisting, renewed_store, e5, t5);
    let r4 = run(call, CallStep::Persisting, renewed_store, t4);
    lemma_run_cons(call, s3, store, e4, t4);
    let r3 = run(call, s3, store, t3);
    lemma_run_cons(call, s2, store, e3, t3);
    let r2 = run(call, s2, store, t2);
    lemma_setbacks_keep_renewing::<R>(call, store, setbacks);
    lemma_run_continues(call, s2, store, middle, t2);
    let rm = run(call, s2, store, middle);
    let r1 = run(call, s2, store, t1);
    lemma_run_cons(call, s1, store, e2, t1);
    let r0 = run(call, s1, store, t0);
    lemma_run_cons(call, CallStep::Ready, store, e1, t0);
    let end = run(call, CallStep::Ready, store, events);

    lemma_counts_of_cons(o7.1, Seq::<CallActionView<R>>::empty());
    assert(seq![o7.1] + Seq::<CallActionView<R>>::empty() =~= seq![o7.1]);
    lemma_counts_of_cons(o6.1, r6.2);
    lemma_counts_of_cons(o5.1, r5.2);
    lemma_counts_of_cons(o4.1, r4.2);
    lemma_counts_of_cons(o3.1, r3.2);
    lemma_counts_of_concat(rm.2, r2.2);
    lemma_counts_of_cons(o2.1, r1.2);
    lemma_counts_of_cons(o1.1, r0.2);

    assert(r6.2.last() == o7.1);
    assert(r5.2.last() == o7.1);
    assert(r4.2.last() == o7.1);
    assert(r3.2.last() == o7.1);
    assert(r2.2.last() == o7.1);
    assert(r1.2.last() == o7.1);
    assert(r0.2.last() == o7.1);
    assert(end.2.last() == o7.1);
}

/// When a token is refused, the call renews it exactly when the store is
/// still at the generation that the request was sent under. Where another
/// call has renewed the store meanwhile, the call starts no renewal.
pub proof fn lemma_renewal_only_when_current<R>(
    call: Call,
    sent: u64,
    store: CacheView,
    body: String,
)
    ensures
        (call_step::<R>(
            call,
            CallStep::FirstSent { generation: sent },
            CallEvent::Replied { status: UNAUTHORIZED, body },
            store,
        ).1 is Refresh) == !stale(sent as nat, store.generation),
{
}

/// A renewal that yields a pair moves the store on to the next
/// generation, so that every request sent under the old pair is stale from
/// then on; a renewal that fails leaves the store, and its generation, as
/// they were.
pub proof fn lemma_renewal_moves_the_generation<R>(
    call: Call,
    store: CacheView,
    exchange: ExchangeStep,
    happened: ExchangeEvent,
)
    ensures
        ({
            let next = call_step::<R>(
                call,
                CallStep::Refreshing(exchange),
                CallEvent::Exchange(happened),
                store,
            );
            &&& next.1 is Persist ==> next.2.generation == CacheView::next_generation(
                store.generation,
            )
            &&& !(next.1 is Persist) ==> next.2 == store
        }),
{
}

/// The renewals started on behalf of generation `of` when refused calls
/// are handled one after another under the store's lock: `sent[i]` is the
/// generation that the i-th call was sent under, `current` the store's
/// generation when the first is handled, and each renewal that is started
/// installs a pair before the next call is handled.
pub open spec fn renewals_in_turn(of: nat, current: nat, sent: Seq<nat>) -> nat
    decreases sent.len(),
{
    if sent.len() == 0 {
        0
    } else if stale(sent[0], current) {
        renewals_in_turn(of, current, sent.drop_first())
    } else {
        (if sent[0] == of {
            1nat
        } else {
            0nat
        }) + renewals_in_turn(of, CacheView::next_generation(current), sent.drop_first())
    }
}

proof fn lemma_no_renewal_for_the_past(of: nat, current: nat, sent: Seq<nat>)
    requires
        of < current,
        current + sent.len() <= u64::MAX,
    ensures
        renewals_in_turn(of, current, sent) == 0,
    decreases sent.len(),
{
    if sent.len() > 0 {
        if stale(sent[0], current) {
            lemma_no_renewal_for_the_past(of, current, sent.drop_first());
        } else {
            lemma_no_renewal_for_the_past(
                of,
                CacheView::next_generation(current),
                sent.drop_first(),
            );
        }
    }
}

/// However many calls are refused at once, at most one renewal is started
/// for each credential generation: the first waiter renews, the others
/// find the store renewed and send again under the new token. This holds
/// as long as the generation counter does not wrap, and of renewals that
/// install a pair.
pub proof fn lemma_no_retry_storm(of: nat, current: nat, sent: Seq<nat>)
    requires
        current + sent.len() <= u64::MAX,
    ensures
        renewals_in_turn(of, current, sent) <= 1,
    decreases sent.len(),
{
    if sent.len() > 0 {
        if stale(sent[0], current) {
            lemma_no_retry_storm(of, current, sent.drop_first());
        } else if sent[0] == of {
            lemma_no_renewal_for_the_past(
                of,
                CacheView::next_generation(current),
                sent.drop_first(),
            );
        } else {
            lemma_no_retry_storm(of, CacheView::next_generation(current), sent.drop_first());
        }
    }
}

} // verus!
