//! The token broker: the exchanges with the backend's authentication
//! endpoint that mint a token pair from the bot's identity secret or renew
//! the pair in hand.
//!
//! The broker never touches the network. It is a state machine: a driver
//! sends the request, reports what came of it as an [`ExchangeEvent`], and
//! carries out the [`ExchangeAction`] that the broker answers with.

use crate::cache::{Cache, CacheView};
use crate::credential::Secrets;
use crate::text::join;
use vstd::prelude::*;

verus! {

/// The status with which the backend says that it is not ready yet.
pub const NOT_READY: u16 = 418;

/// The status with which the backend refuses a token.
pub const UNAUTHORIZED: u16 = 401;

/// The pause between two attempts of an exchange, in seconds.
pub const RETRY_DELAY_SECS: u64 = 1;

/// The time allowed for one minting request, in seconds.
pub const MINT_TIMEOUT_SECS: u64 = 60;

/// A status in the success class.
pub open spec fn status_is_success(status: u16) -> bool {
    200 <= status < 300
}

/// A status that a later attempt may not meet again: the backend is not
/// ready, or failed on its side.
pub open spec fn status_is_transient(status: u16) -> bool {
    status == NOT_READY || 500 <= status < 600
}

/// Whether a status is in the success class.
pub fn is_success(status: u16) -> (success: bool)
    ensures
        success == status_is_success(status),
{
    200 <= status && status < 300
}

/// Whether a status calls for another attempt.
pub fn is_transient(status: u16) -> (transient: bool)
    ensures
        transient == status_is_transient(status),
{
    status == NOT_READY || (500 <= status && status < 600)
}

/// The two exchanges.
#[derive(Debug, Clone, Copy, PartialEq, Eq, Structural)]
pub enum ExchangeKind {
    /// A new pair from the bot's identity secret.
    Mint,
    /// A new pair from the pair in hand.
    Refresh,
}

/// Where an exchange stands.
#[derive(Debug, Clone, Copy, PartialEq, Eq, Structural)]
pub enum ExchangeStep {
    /// A request is on its way, or about to be sent again.
    Sending,
    /// A reply with a success status is being decoded.
    Decoding,
    /// The exchange has ended, in a pair or in an error.
    Finished,
}

/// What the driver reports to the broker.
#[derive(Debug, PartialEq, Eq)]
pub enum ExchangeEvent {
    /// The request did not reach the backend or no reply came back.
    Unreachable(String),
    /// A reply came and its body could not be read.
    BodyUnreadable(String),
    /// A reply came, with this status and body.
    Replied { status: u16, body: String },
    /// The body held this token pair.
    Decoded(Secrets),
    /// The body did not hold a token pair; the cause is given.
    Malformed(String),
}

/// Why an exchange ended without a pair.
#[derive(Debug, PartialEq, Eq)]
pub enum BrokerError {
    /// The backend answered with a definitive refusal.
    Rejected { kind: ExchangeKind, status: u16, body: String },
    /// The backend answered with success and the body held no token pair.
    Malformed { cause: String },
    /// The reply's body could not be read.
    Unreadable { cause: String },
}

/// What the driver is to do next.
#[derive(Debug, PartialEq, Eq)]
pub enum ExchangeAction {
    /// Wait this long, then send the same request again.
    RetryAfter { seconds: u64 },
    /// Decode this body as a token pair and report `Decoded` or `Malformed`.
    Decode { body: String },
    /// The exchange yielded this pair: install and persist it.
    Install { secrets: Secrets },
    /// The backend cannot be reached and the persisted pair can still be
    /// renewed: go on with the persisted pair.
    Fallback,
    /// The exchange failed for good.
    Fail(BrokerError),
    /// The event does not belong to this step; nothing is to be done.
    Ignore,
}

/// What the driver is to do next, once the store has seen the broker's answer.
#[derive(Debug, PartialEq, Eq)]
pub enum StoreAction {
    /// Wait this long, then send the same request again.
    RetryAfter { seconds: u64 },
    /// Decode this body as a token pair and report `Decoded` or `Malformed`.
    Decode { body: String },
    /// The store holds a new pair: write the store to disk now.
    Persist,
    /// The store keeps the pair it holds; nothing is to be written.
    Keep,
    /// The exchange failed for good; the store is as it was.
    Fail(BrokerError),
    /// The event does not belong to this step; nothing is to be done.
    Ignore,
}

impl BrokerError {
    /// The report of the failure.
    pub open spec fn text(self) -> Seq<char> {
        match self {
            BrokerError::Rejected { kind: ExchangeKind::Mint, status, body } =>
                "Could not get secrets: "@ + body@,
            BrokerError::Rejected { kind: ExchangeKind::Refresh, status, body } =>
                "Failed to refresh secrets: "@ + body@,
            BrokerError::Malformed { cause } => "Could not deserialize secrets: "@ + cause@,
            BrokerError::Unreadable { cause } => cause@,
        }
    }

    /// The report of the failure as text.
    pub fn message(&self) -> (text: String)
        ensures
            text@ == self.text(),
    {
        match self {
            BrokerError::Rejected { kind: ExchangeKind::Mint, status, body } => join(
                "Could not get secrets: ",
                body.as_str(),
            ),
            BrokerError::Rejected { kind: ExchangeKind::Refresh, status, body } => join(
                "Failed to refresh secrets: ",
                body.as_str(),
            ),
            BrokerError::Malformed { cause } => join(
                "Could not deserialize secrets: ",
                cause.as_str(),
            ),
            BrokerError::Unreadable { cause } => cause.clone(),
        }
    }
}

/// What a failed attempt leads to. Minting has nothing to give up to, so it
/// goes on without bound, unless the persisted pair can still be renewed,
/// which is then used. A renewal is tried again.
pub open spec fn after_transient(kind: ExchangeKind, fallback_usable: bool) -> (
    ExchangeStep,
    ExchangeAction,
) {
    if kind == ExchangeKind::Mint && fallback_usable {
        (ExchangeStep::Finished, ExchangeAction::Fallback)
    } else {
        (ExchangeStep::Sending, ExchangeAction::RetryAfter { seconds: RETRY_DELAY_SECS })
    }
}

/// The broker's rule: the step that follows and the action to take, for
/// each step and event. `fallback_usable` says whether the persisted pair
/// could still be renewed at the time of the event.
pub open spec fn exchange_step(
    kind: ExchangeKind,
    step: ExchangeStep,
    event: ExchangeEvent,
    fallback_usable: bool,
) -> (ExchangeStep, ExchangeAction) {
    match (step, event) {
        (ExchangeStep::Sending, ExchangeEvent::Unreachable(_)) => after_transient(
            kind,
            fallback_usable,
        ),
        (ExchangeStep::Sending, ExchangeEvent::BodyUnreadable(cause)) => (
            ExchangeStep::Finished,
            ExchangeAction::Fail(BrokerError::Unreadable { cause }),
        ),
        (ExchangeStep::Sending, ExchangeEvent::Replied { status, body }) => {
            if status_is_success(status) {
                (ExchangeStep::Decoding, ExchangeAction::Decode { body })
            } else if status_is_transient(status) {
                after_transient(kind, fallback_usable)
            } else {
                (
                    ExchangeStep::Finished,
                    ExchangeAction::Fail(BrokerError::Rejected { kind, status, body }),
                )
            }
        },
        (ExchangeStep::Decoding, ExchangeEvent::Decoded(secrets)) => (
            ExchangeStep::Finished,
            ExchangeAction::Install { secrets },
        ),
        (ExchangeStep::Decoding, ExchangeEvent::Malformed(cause)) => (
            ExchangeStep::Finished,
            ExchangeAction::Fail(BrokerError::Malformed { cause }),
        ),
        _ => (step, ExchangeAction::Ignore),
    }
}

/// What the store does with the broker's answer: a new pair is installed,
/// everything else leaves the store as it was.
pub open spec fn store_after(before: CacheView, action: ExchangeAction) -> CacheView {
    match action {
        ExchangeAction::Install { secrets } => before.installed(secrets@),
        _ => before,
    }
}

/// What the driver is told once the store has seen the broker's answer.
pub open spec fn store_action(action: ExchangeAction) -> StoreAction {
    match action {
        ExchangeAction::RetryAfter { seconds } => StoreAction::RetryAfter { seconds },
        ExchangeAction::Decode { body } => StoreAction::Decode { body },
        ExchangeAction::Install { secrets } => StoreAction::Persist,
        ExchangeAction::Fallback => StoreAction::Keep,
        ExchangeAction::Fail(error) => StoreAction::Fail(error),
        ExchangeAction::Ignore => StoreAction::Ignore,
    }
}

/// The request that mints a pair.
#[derive(Debug, PartialEq, Eq)]
pub struct MintRequest {
    /// Where to post it.
    pub url: String,
    /// The identity secret that the body carries.
    pub bot_token: String,
    /// The time allowed for the request, in seconds.
    pub timeout_secs: u64,
}

/// The request that renews a pair.
#[derive(Debug, PartialEq, Eq)]
pub struct RefreshRequest {
    /// Where to post it.
    pub url: String,
    /// The access token that the body carries.
    pub access_token: String,
    /// The refresh token that the body carries.
    pub refresh_token: String,
}

/// One step of an exchange of either kind. `fallback_usable` says whether
/// the persisted pair may stand in where the backend cannot be reached.
pub fn decide(kind: ExchangeKind, step: ExchangeStep, event: ExchangeEvent, fallback_usable: bool) -> (next:
    (ExchangeStep, ExchangeAction))
    ensures
        next == exchange_step(kind, step, event, fallback_usable),
{
    match step {
        ExchangeStep::Sending => match event {
            ExchangeEvent::Unreachable(_) => retry_or_fall_back(kind, fallback_usable),
            ExchangeEvent::BodyUnreadable(cause) => (
                ExchangeStep::Finished,
                ExchangeAction::Fail(BrokerError::Unreadable { cause }),
            ),
            ExchangeEvent::Replied { status, body } => {
                if is_success(status) {
                    (ExchangeStep::Decoding, ExchangeAction::Decode { body })
                } else if is_transient(status) {
                    retry_or_fall_back(kind, fallback_usable)
                } else {
                    (
                        ExchangeStep::Finished,
                        ExchangeAction::Fail(BrokerError::Rejected { kind, status, body }),
                    )
                }
            },
            _ => (step, ExchangeAction::Ignore),
        },
        ExchangeStep::Decoding => match event {
            ExchangeEvent::Decoded(secrets) => (
                ExchangeStep::Finished,
                ExchangeAction::Install { secrets },
            ),
            ExchangeEvent::Malformed(cause) => (
                ExchangeStep::Finished,
                ExchangeAction::Fail(BrokerError::Malformed { cause }),
            ),
            _ => (step, ExchangeAction::Ignore),
        },
        ExchangeStep::Finished => (step, ExchangeAction::Ignore),
    }
}

fn retry_or_fall_back(kind: ExchangeKind, fallback_usable: bool) -> (next: (
    ExchangeStep,
    ExchangeAction,
))
    ensures
        next == after_transient(kind, fallback_usable),
{
    match kind {
        ExchangeKind::Mint => if fallback_usable {
            (ExchangeStep::Finished, ExchangeAction::Fallback)
        } else {
            (ExchangeStep::Sending, ExchangeAction::RetryAfter { seconds: RETRY_DELAY_SECS })
        },
        ExchangeKind::Refresh => (
            ExchangeStep::Sending,
            ExchangeAction::RetryAfter { seconds: RETRY_DELAY_SECS },
        ),
    }
}

impl Secrets {
    /// The request that mints a pair from the bot's identity secret.
    pub fn mint_request(api_base_url: &str, bot_token: String) -> (request: MintRequest)
        ensures
            request.url@ == api_base_url@ + "/bot/setup"@,
            request.bot_token == bot_token,
            request.timeout_secs == MINT_TIMEOUT_SECS,
    {
        MintRequest {
            url: join(api_base_url, "/bot/setup"),
            bot_token,
            timeout_secs: MINT_TIMEOUT_SECS,
        }
    }

    /// The request that renews this pair.
    pub fn refresh_request(&self, api_base_url: &str) -> (request: RefreshRequest)
        ensures
            request.url@ == api_base_url@ + "/bot/refresh"@,
            request.access_token@ == self@.access_token,
            request.refresh_token@ == self@.refresh_token,
    {
        RefreshRequest {
            url: join(api_base_url, "/bot/refresh"),
            access_token: self.access_token.clone(),
            refresh_token: self.refresh_token.clone(),
        }
    }

    /// One step of minting. `self` is the last persisted pair and `now` the
    /// current Unix time: while the backend cannot be reached, a persisted
    /// pair is fallen back to only if its refresh lifetime has not run out.
    pub fn get_secrets(&self, step: ExchangeStep, event: ExchangeEvent, now: i64) -> (next: (
        ExchangeStep,
        ExchangeAction,
    ))
        ensures
            next == exchange_step(
                ExchangeKind::Mint,
                step,
                event,
                self@.refresh_usable(now as int),
            ),
            next.1 == ExchangeAction::Fallback ==> self@.refresh_usable(now as int),
    {
        decide(ExchangeKind::Mint, step, event, self.refresh_usable(now))
    }

    /// One step of renewing this pair. A definitive refusal ends the
    /// exchange; the caller is expected to mint.
    pub fn refresh_secrets(&self, step: ExchangeStep, event: ExchangeEvent) -> (next: (
        ExchangeStep,
        ExchangeAction,
    ))
        ensures
            next == exchange_step(ExchangeKind::Refresh, step, event, false),
            next.1 != ExchangeAction::Fallback,
    {
        decide(ExchangeKind::Refresh, step, event, false)
    }
}

impl Cache {
    fn settle(&mut self, action: ExchangeAction) -> (told: StoreAction)
        ensures
            final(self)@ == store_after(old(self)@, action),
            told == store_action(action),
    {
        match action {
            ExchangeAction::RetryAfter { seconds } => StoreAction::RetryAfter { seconds },
            ExchangeAction::Decode { body } => StoreAction::Decode { body },
            ExchangeAction::Install { secrets } => {
                self.set_secrets(secrets);
                StoreAction::Persist
            },
            ExchangeAction::Fallback => StoreAction::Keep,
            ExchangeAction::Fail(error) => StoreAction::Fail(error),
            ExchangeAction::Ignore => StoreAction::Ignore,
        }
    }

    /// One step of minting against this store, which holds the last
    /// persisted pair. A minted pair is installed, and the driver is told to
    /// persist the store; any other outcome leaves the store as it was.
    pub fn fetch_secrets(&mut self, step: ExchangeStep, event: ExchangeEvent, now: i64) -> (next: (
        ExchangeStep,
        StoreAction,
    ))
        ensures
            ({
                let decided = exchange_step(
                    ExchangeKind::Mint,
                    step,
                    event,
                    old(self)@.secrets.refresh_usable(now as int),
                );
                &&& next.0 == decided.0
                &&& next.1 == store_action(decided.1)
                &&& final(self)@ == store_after(old(self)@, decided.1)
            }),
    {
        let usable = self.get_secrets().refresh_usable(now);
        let (following, action) = decide(ExchangeKind::Mint, step, event, usable);
        let told = self.settle(action);
        (following, told)
    }

    /// One step of renewing the pair in this store. A renewed pair is
    /// installed, and the driver is told to persist the store; a refusal
    /// leaves the store as it was.
    pub fn refresh_secrets(&mut self, step: ExchangeStep, event: ExchangeEvent) -> (next: (
        ExchangeStep,
        StoreAction,
    ))
        ensures
            ({
                let decided = exchange_step(ExchangeKind::Refresh, step, event, false);
                &&& next.0 == decided.0
                &&& next.1 == store_action(decided.1)
                &&& final(self)@ == store_after(old(self)@, decided.1)
            }),
    {
        let (following, action) = decide(ExchangeKind::Refresh, step, event, false);
        let told = self.settle(action);
        (following, told)
    }
}

/// A setback of an exchange: the backend could not be reached, or
/// answered that it is not ready or failed on its side.
pub open spec fn is_setback(event: ExchangeEvent) -> bool {
    match event {
        ExchangeEvent::Unreachable(_) => true,
        ExchangeEvent::Replied { status, body } => !status_is_success(status)
            && status_is_transient(status),
        _ => false,
    }
}

/// Where an exchange stands after a row of events, and what it asked for
/// last.
pub open spec fn exchange_run(
    kind: ExchangeKind,
    step: ExchangeStep,
    events: Seq<ExchangeEvent>,
    fallback_usable: bool,
) -> (ExchangeStep, ExchangeAction)
    decreases events.len(),
{
    if events.len() == 0 {
        (step, ExchangeAction::Ignore)
    } else {
        let first = exchange_step(kind, step, events[0], fallback_usable);
        if events.len() == 1 {
            first
        } else {
            exchange_run(kind, first.0, events.drop_first(), fallback_usable)
        }
    }
}

/// With no pair to fall back to, an exchange outlasts any number of
/// setbacks: after them it is still sending, and the pair of the first
/// attempt that succeeds is the pair that is installed.
pub proof fn lemma_exchange_outlasts_setbacks(
    kind: ExchangeKind,
    setbacks: Seq<ExchangeEvent>,
    status: u16,
    body: String,
    secrets: Secrets,
)
    requires
        forall|i: int| 0 <= i < setbacks.len() ==> is_setback(#[trigger] setbacks[i]),
        status_is_success(status),
    ensures
        exchange_run(
            kind,
            ExchangeStep::Sending,
            setbacks + seq![
                ExchangeEvent::Replied { status, body },
                ExchangeEvent::Decoded(secrets),
            ],
            false,
        ) == (ExchangeStep::Finished, ExchangeAction::Install { secrets }),
    decreases setbacks.len(),
{
    let tail = seq![ExchangeEvent::Replied { status, body }, ExchangeEvent::Decoded(secrets)];
    let events = setbacks + tail;
    if setbacks.len() == 0 {
        assert(events =~= tail);
        assert(tail.drop_first() =~= seq![ExchangeEvent::Decoded(secrets)]);
        assert(tail.drop_first().len() == 1);
        assert(tail.drop_first()[0] == ExchangeEvent::Decoded(secrets));
        assert(exchange_run(kind, ExchangeStep::Decoding, tail.drop_first(), false) == (
            ExchangeStep::Finished,
            ExchangeAction::Install { secrets },
        ));
    } else {
        assert(events[0] == setbacks[0]);
        assert(is_setback(setbacks[0]));
        assert(events.drop_first() =~= setbacks.drop_first() + tail);
        assert forall|i: int| 0 <= i < setbacks.drop_first().len() implies is_setback(
            #[trigger] setbacks.drop_first()[i],
        ) by {
            assert(setbacks.drop_first()[i] == setbacks[i + 1]);
        }
        lemma_exchange_outlasts_setbacks(kind, setbacks.drop_first(), status, body, secrets);
    }
}

} // verus!
