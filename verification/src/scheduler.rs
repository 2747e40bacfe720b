//! The life of the credential outside of requests: what is done with the
//! persisted pair when the process starts, and the renewal that then runs
//! at a fixed interval for as long as the process lives.
//!
//! One state machine covers both. A driver performs the actions and reports
//! the events; the machine decides. Once startup has ended the machine only
//! ever waits and renews: no failure of a renewal ends it.

use crate::broker::{
    decide, exchange_step, store_after, BrokerError, ExchangeAction, ExchangeEvent, ExchangeKind,
    ExchangeStep, MINT_TIMEOUT_SECS,
};
use crate::cache::{Cache, CacheError, CacheView};
use crate::client::{renewal, RenewalView};
use crate::text::join;
use vstd::prelude::*;

verus! {

/// The interval between two scheduled renewals, in seconds, where none is
/// configured: thirty minutes.
pub const REFRESH_INTERVAL_SECS: u64 = 1800;

/// Whether the process is still starting or already serving.
#[derive(Debug, Clone, Copy, PartialEq, Eq, Structural)]
pub enum Phase {
    Startup,
    Running,
}

/// Where the credential's life stands.
#[derive(Debug, Clone, Copy, PartialEq, Eq, Structural)]
pub enum Lifecycle {
    /// The persisted store was loaded and nothing was decided yet.
    Starting,
    /// A pair is being minted.
    Minting { phase: Phase, exchange: ExchangeStep },
    /// A minted pair is being written to disk.
    SavingMinted { phase: Phase },
    /// The pair is being renewed. `minted` says that the pair was minted in
    /// this round, so that its refusal is not answered by minting again.
    Renewing { phase: Phase, exchange: ExchangeStep, minted: bool },
    /// The store is being written to disk at the end of a round.
    Saving { phase: Phase },
    /// The scheduler waits for its next tick.
    Waiting,
    /// Startup failed; the process cannot serve.
    Halted,
}

/// What the driver reports.
#[derive(Debug, PartialEq, Eq)]
pub enum LifecycleEvent {
    /// The store was loaded; startup is to begin.
    Begin,
    /// The scheduler's wait is over.
    Tick,
    /// The exchange in progress moved on.
    Exchange(ExchangeEvent),
    /// The store was written to disk.
    Saved,
    /// The store could not be written to disk.
    SaveFailed(CacheError),
}

/// What went wrong in a round.
#[derive(Debug, PartialEq, Eq)]
pub enum LifecycleFailure {
    /// No pair could be minted.
    Mint(BrokerError),
    /// The pair could not be renewed.
    Renewal(BrokerError),
    /// The store could not be written to disk.
    Persist(CacheError),
}

impl LifecycleFailure {
    /// The report of the failure.
    pub open spec fn text(self) -> Seq<char> {
        match self {
            LifecycleFailure::Mint(error) => "Failed to get secrets overall: "@ + error.text(),
            LifecycleFailure::Renewal(error) => "Failed to refresh secrets: "@ + error.text(),
            LifecycleFailure::Persist(error) => error.text(),
        }
    }

    /// The report of the failure as text.
    pub fn message(&self) -> (text: String)
        ensures
            text@ == self.text(),
    {
        match self {
            LifecycleFailure::Mint(error) => {
                let cause = error.message();
                join("Failed to get secrets overall: ", cause.as_str())
            },
            LifecycleFailure::Renewal(error) => {
                let cause = error.message();
                join("Failed to refresh secrets: ", cause.as_str())
            },
            LifecycleFailure::Persist(error) => error.message(),
        }
    }
}

/// What the driver is to do next.
#[derive(Debug, PartialEq, Eq)]
pub enum LifecycleAction {
    /// Mint a pair: post the identity secret to this address, allowing this
    /// many seconds, and report what comes of it as `Exchange` events.
    Mint { url: String, timeout_secs: u64 },
    /// Renew the pair: post it to this address and report what comes of it
    /// as `Exchange` events.
    Renew { url: String, access_token: String, refresh_token: String },
    /// Wait this long, then send the request of the exchange again.
    RetryAfter { seconds: u64 },
    /// Decode this body as a token pair and report it as an `Exchange` event.
    Decode { body: String },
    /// Write the store to disk and report `Saved` or `SaveFailed`.
    Save,
    /// The renewal failed and startup goes on without it: log the failure,
    /// then write the store to disk and report `Saved` or `SaveFailed`.
    SaveDespite(BrokerError),
    /// Log the failure, if there is one, wait this long, then report `Tick`.
    Sleep { seconds: u64, failure: Option<LifecycleFailure> },
    /// Startup has failed: report the failure and do not serve.
    Abort(LifecycleFailure),
    /// The event does not belong to this step; nothing is to be done.
    Ignore,
}

/// The minting request as mathematical values.
pub struct MintView {
    pub url: Seq<char>,
    pub timeout_secs: u64,
}

/// What a [`LifecycleAction`] holds, with the texts that the machine built
/// as sequences of characters.
pub enum LifecycleActionView {
    Mint(MintView),
    Renew(RenewalView),
    RetryAfter { seconds: u64 },
    Decode { body: String },
    Save,
    SaveDespite(BrokerError),
    Sleep { seconds: u64, failure: Option<LifecycleFailure> },
    Abort(LifecycleFailure),
    Ignore,
}

impl View for LifecycleAction {
    type V = LifecycleActionView;

    open spec fn view(&self) -> LifecycleActionView {
        match *self {
            LifecycleAction::Mint { url, timeout_secs } => LifecycleActionView::Mint(
                MintView { url: url@, timeout_secs },
            ),
            LifecycleAction::Renew { url, access_token, refresh_token } =>
                LifecycleActionView::Renew(
                RenewalView {
                    url: url@,
                    access_token: access_token@,
                    refresh_token: refresh_token@,
                },
            ),
            LifecycleAction::RetryAfter { seconds } => LifecycleActionView::RetryAfter { seconds },
            LifecycleAction::Decode { body } => LifecycleActionView::Decode { body },
            LifecycleAction::Save => LifecycleActionView::Save,
            LifecycleAction::SaveDespite(error) => LifecycleActionView::SaveDespite(error),
            LifecycleAction::Sleep { seconds, failure } => LifecycleActionView::Sleep {
                seconds,
                failure,
            },
            LifecycleAction::Abort(failure) => LifecycleActionView::Abort(failure),
            LifecycleAction::Ignore => LifecycleActionView::Ignore,
        }
    }
}

/// The minting request against the store's backend address.
pub open spec fn minting(store: CacheView) -> MintView {
    MintView { url: store.urls.api_base_url + "/bot/setup"@, timeout_secs: MINT_TIMEOUT_SECS }
}

/// How a round ends in failure: at startup the process halts, afterwards
/// the scheduler logs the failure and waits for its next tick.
pub open spec fn round_fails(phase: Phase, interval: u64, failure: LifecycleFailure) -> (
    Lifecycle,
    LifecycleActionView,
) {
    match phase {
        Phase::Startup => (Lifecycle::Halted, LifecycleActionView::Abort(failure)),
        Phase::Running => (
            Lifecycle::Waiting,
            LifecycleActionView::Sleep { seconds: interval, failure: Some(failure) },
        ),
    }
}

/// What is done with the pair in the store when nothing is in progress: a
/// pair whose refresh lifetime has run out, or was never set, is minted
/// anew and never renewed; one whose access lifetime alone has run out is
/// renewed; one that is good is kept.
pub open spec fn begin(store: CacheView, now: int) -> (Lifecycle, LifecycleActionView) {
    if !store.secrets.refresh_usable(now) {
        (
            Lifecycle::Minting { phase: Phase::Startup, exchange: ExchangeStep::Sending },
            LifecycleActionView::Mint(minting(store)),
        )
    } else if !store.secrets.access_usable(now) {
        (
            Lifecycle::Renewing {
                phase: Phase::Startup,
                exchange: ExchangeStep::Sending,
                minted: false,
            },
            LifecycleActionView::Renew(renewal(store)),
        )
    } else {
        (Lifecycle::Saving { phase: Phase::Startup }, LifecycleActionView::Save)
    }
}

/// What follows the broker's answer while minting. The machine mints only
/// when the persisted pair cannot be used, so it never falls back to it.
pub open spec fn while_minting(phase: Phase, interval: u64, decided: (ExchangeStep, ExchangeAction)) -> (
    Lifecycle,
    LifecycleActionView,
) {
    match decided.1 {
        ExchangeAction::RetryAfter { seconds } => (
            Lifecycle::Minting { phase, exchange: decided.0 },
            LifecycleActionView::RetryAfter { seconds },
        ),
        ExchangeAction::Decode { body } => (
            Lifecycle::Minting { phase, exchange: decided.0 },
            LifecycleActionView::Decode { body },
        ),
        ExchangeAction::Install { secrets } => (
            Lifecycle::SavingMinted { phase },
            LifecycleActionView::Save,
        ),
        ExchangeAction::Fail(error) => round_fails(phase, interval, LifecycleFailure::Mint(error)),
        _ => (Lifecycle::Minting { phase, exchange: decided.0 }, LifecycleActionView::Ignore),
    }
}

/// What follows the broker's answer while renewing. A refusal of a pair
/// that was not minted in this round is answered by minting; any other
/// failure is logged, and the round ends without a new pair.
pub open spec fn while_renewing(
    store: CacheView,
    phase: Phase,
    minted: bool,
    interval: u64,
    decided: (ExchangeStep, ExchangeAction),
) -> (Lifecycle, LifecycleActionView) {
    match decided.1 {
        ExchangeAction::RetryAfter { seconds } => (
            Lifecycle::Renewing { phase, exchange: decided.0, minted },
            LifecycleActionView::RetryAfter { seconds },
        ),
        ExchangeAction::Decode { body } => (
            Lifecycle::Renewing { phase, exchange: decided.0, minted },
            LifecycleActionView::Decode { body },
        ),
        ExchangeAction::Install { secrets } => (
            Lifecycle::Saving { phase },
            LifecycleActionView::Save,
        ),
        ExchangeAction::Fail(error) => {
            if error is Rejected && !minted {
                (
                    Lifecycle::Minting { phase, exchange: ExchangeStep::Sending },
                    LifecycleActionView::Mint(minting(store)),
                )
            } else {
                match phase {
                    Phase::Startup => (
                        Lifecycle::Saving { phase },
                        LifecycleActionView::SaveDespite(error),
                    ),
                    Phase::Running => (
                        Lifecycle::Waiting,
                        LifecycleActionView::Sleep {
                            seconds: interval,
                            failure: Some(LifecycleFailure::Renewal(error)),
                        },
                    ),
                }
            }
        },
        _ => (
            Lifecycle::Renewing { phase, exchange: decided.0, minted },
            LifecycleActionView::Ignore,
        ),
    }
}

/// The machine's rule: the step that follows, the action to take and the
/// store afterwards. `interval` is the scheduler's interval in seconds and
/// `now` the Unix time of the event.
pub open spec fn lifecycle_step(
    interval: u64,
    step: Lifecycle,
    event: LifecycleEvent,
    store: CacheView,
    now: int,
) -> (Lifecycle, LifecycleActionView, CacheView) {
    match (step, event) {
        (Lifecycle::Starting, LifecycleEvent::Begin) => {
            let (next, action) = begin(store, now);
            (next, action, store)
        },
        (Lifecycle::Minting { phase, exchange }, LifecycleEvent::Exchange(happened)) => {
            let decided = exchange_step(ExchangeKind::Mint, exchange, happened, false);
            let (next, action) = while_minting(phase, interval, decided);
            (next, action, store_after(store, decided.1))
        },
        (Lifecycle::SavingMinted { phase }, LifecycleEvent::Saved) => {
            if phase == Phase::Startup && !store.secrets.access_usable(now) {
                (
                    Lifecycle::Renewing { phase, exchange: ExchangeStep::Sending, minted: true },
                    LifecycleActionView::Renew(renewal(store)),
                    store,
                )
            } else {
                (
                    Lifecycle::Waiting,
                    LifecycleActionView::Sleep { seconds: interval, failure: None },
                    store,
                )
            }
        },
        (Lifecycle::SavingMinted { phase }, LifecycleEvent::SaveFailed(error)) => {
            let (next, action) = round_fails(phase, interval, LifecycleFailure::Persist(error));
            (next, action, store)
        },
        (Lifecycle::Renewing { phase, exchange, minted }, LifecycleEvent::Exchange(happened)) => {
            let decided = exchange_step(ExchangeKind::Refresh, exchange, happened, false);
            let (next, action) = while_renewing(store, phase, minted, interval, decided);
            (next, action, store_after(store, decided.1))
        },
        (Lifecycle::Saving { phase }, LifecycleEvent::Saved) => (
            Lifecycle::Waiting,
            LifecycleActionView::Sleep { seconds: interval, failure: None },
            store,
        ),
        (Lifecycle::Saving { phase }, LifecycleEvent::SaveFailed(error)) => {
            let (next, action) = round_fails(phase, interval, LifecycleFailure::Persist(error));
            (next, action, store)
        },
        (Lifecycle::Waiting, LifecycleEvent::Tick) => (
            Lifecycle::Renewing {
                phase: Phase::Running,
                exchange: ExchangeStep::Sending,
                minted: false,
            },
            LifecycleActionView::Renew(renewal(store)),
            store,
        ),
        _ => (step, LifecycleActionView::Ignore, store),
    }
}

/// The scheduler: the interval at which the pair is renewed.
#[derive(Debug, Clone, Copy, PartialEq, Eq, Structural)]
pub struct Scheduler {
    pub interval_secs: u64,
}

fn mint_action(cache: &Cache) -> (action: LifecycleAction)
    ensures
        action@ == LifecycleActionView::Mint(minting(cache@)),
{
    let base = cache.get_api_base_url();
    LifecycleAction::Mint { url: join(base.as_str(), "/bot/setup"), timeout_secs: MINT_TIMEOUT_SECS }
}

fn renew_action(cache: &Cache) -> (action: LifecycleAction)
    ensures
        action@ == LifecycleActionView::Renew(renewal(cache@)),
{
    let secrets = cache.get_secrets();
    let base = cache.get_api_base_url();
    let request = secrets.refresh_request(base.as_str());
    LifecycleAction::Renew {
        url: request.url,
        access_token: request.access_token,
        refresh_token: request.refresh_token,
    }
}

fn fail_round(phase: Phase, interval: u64, failure: LifecycleFailure) -> (next: (
    Lifecycle,
    LifecycleAction,
))
    ensures
        (next.0, next.1@) == round_fails(phase, interval, failure),
{
    match phase {
        Phase::Startup => (Lifecycle::Halted, LifecycleAction::Abort(failure)),
        Phase::Running => (
            Lifecycle::Waiting,
            LifecycleAction::Sleep { seconds: interval, failure: Some(failure) },
        ),
    }
}

impl Scheduler {
    /// The scheduler with the interval of thirty minutes.
    pub fn new() -> (scheduler: Scheduler)
        ensures
            scheduler.interval_secs == REFRESH_INTERVAL_SECS,
    {
        Scheduler { interval_secs: REFRESH_INTERVAL_SECS }
    }

    /// The scheduler with a configured interval.
    pub fn every(interval_secs: u64) -> (scheduler: Scheduler)
        ensures
            scheduler.interval_secs == interval_secs,
    {
        Scheduler { interval_secs }
    }

    fn on_begin(&self, cache: &Cache, now: i64) -> (next: (Lifecycle, LifecycleAction))
        ensures
            (next.0, next.1@) == begin(cache@, now as int),
    {
        let secrets = cache.get_secrets();
        if !secrets.refresh_usable(now) {
            (
                Lifecycle::Minting { phase: Phase::Startup, exchange: ExchangeStep::Sending },
                mint_action(cache),
            )
        } else if !secrets.access_usable(now) {
            (
                Lifecycle::Renewing {
                    phase: Phase::Startup,
                    exchange: ExchangeStep::Sending,
                    minted: false,
                },
                renew_action(cache),
            )
        } else {
            (Lifecycle::Saving { phase: Phase::Startup }, LifecycleAction::Save)
        }
    }

    fn on_minting(
        &self,
        cache: &mut Cache,
        phase: Phase,
        exchange: ExchangeStep,
        happened: ExchangeEvent,
    ) -> (next: (Lifecycle, LifecycleAction))
        ensures
            ({
                let decided = exchange_step(ExchangeKind::Mint, exchange, happened, false);
                &&& (next.0, next.1@) == while_minting(phase, self.interval_secs, decided)
                &&& final(cache)@ == store_after(old(cache)@, decided.1)
            }),
    {
        let (following, action) = decide(ExchangeKind::Mint, exchange, happened, false);
        match action {
            ExchangeAction::RetryAfter { seconds } => (
                Lifecycle::Minting { phase, exchange: following },
                LifecycleAction::RetryAfter { seconds },
            ),
            ExchangeAction::Decode { body } => (
                Lifecycle::Minting { phase, exchange: following },
                LifecycleAction::Decode { body },
            ),
            ExchangeAction::Install { secrets } => {
                cache.set_secrets(secrets);
                (Lifecycle::SavingMinted { phase }, LifecycleAction::Save)
            },
            ExchangeAction::Fail(error) => fail_round(
                phase,
                self.interval_secs,
                LifecycleFailure::Mint(error),
            ),
            _ => (Lifecycle::Minting { phase, exchange: following }, LifecycleAction::Ignore),
        }
    }

    fn on_renewing(
        &self,
        cache: &mut Cache,
        phase: Phase,
        exchange: ExchangeStep,
        minted: bool,
        happened: ExchangeEvent,
    ) -> (next: (Lifecycle, LifecycleAction))
        ensures
            ({
                let decided = exchange_step(ExchangeKind::Refresh, exchange, happened, false);
                &&& (next.0, next.1@) == while_renewing(
                    old(cache)@,
                    phase,
                    minted,
                    self.interval_secs,
                    decided,
                )
                &&& final(cache)@ == store_after(old(cache)@, decided.1)
            }),
    {
        let (following, action) = decide(ExchangeKind::Refresh, exchange, happened, false);
        match action {
            ExchangeAction::RetryAfter { seconds } => (
                Lifecycle::Renewing { phase, exchange: following, minted },
                LifecycleAction::RetryAfter { seconds },
            ),
            ExchangeAction::Decode { body } => (
                Lifecycle::Renewing { phase, exchange: following, minted },
                LifecycleAction::Decode { body },
            ),
            ExchangeAction::Install { secrets } => {
                cache.set_secrets(secrets);
                (Lifecycle::Saving { phase }, LifecycleAction::Save)
            },
            ExchangeAction::Fail(error) => {
                let refused = match &error {
                    BrokerError::Rejected { .. } => true,
                    _ => false,
                };
                if refused && !minted {
                    (
                        Lifecycle::Minting { phase, exchange: ExchangeStep::Sending },
                        mint_action(cache),
                    )
                } else {
                    match phase {
                        Phase::Startup => (
                            Lifecycle::Saving { phase },
                            LifecycleAction::SaveDespite(error),
                        ),
                        Phase::Running => (
                            Lifecycle::Waiting,
                            LifecycleAction::Sleep {
                                seconds: self.interval_secs,
                                failure: Some(LifecycleFailure::Renewal(error)),
                            },
                        ),
                    }
                }
            },
            _ => (
                Lifecycle::Renewing { phase, exchange: following, minted },
                LifecycleAction::Ignore,
            ),
        }
    }

    /// One step in the life of the credential in `cache`. `now` is the Unix
    /// time at which the event is handled.
    pub fn step(&self, cache: &mut Cache, step: Lifecycle, event: LifecycleEvent, now: i64) -> (next:
        (Lifecycle, LifecycleAction))
        ensures
            (next.0, next.1@, final(cache)@) == lifecycle_step(
                self.interval_secs,
                step,
                event,
                old(cache)@,
                now as int,
            ),
    {
        match step {
            Lifecycle::Starting => match event {
                LifecycleEvent::Begin => self.on_begin(cache, now),
                _ => (step, LifecycleAction::Ignore),
            },
            Lifecycle::Minting { phase, exchange } => match event {
                LifecycleEvent::Exchange(happened) => self.on_minting(
                    cache,
                    phase,
                    exchange,
                    happened,
                ),
                _ => (step, LifecycleAction::Ignore),
            },
            Lifecycle::SavingMinted { phase } => match event {
                LifecycleEvent::Saved => {
                    let stale_access = !cache.get_secrets().access_usable(now);
                    if phase == Phase::Startup && stale_access {
                        (
                            Lifecycle::Renewing {
                                phase,
                                exchange: ExchangeStep::Sending,
                                minted: true,
                            },
                            renew_action(cache),
                        )
                    } else {
                        (
                            Lifecycle::Waiting,
                            LifecycleAction::Sleep { seconds: self.interval_secs, failure: None },
                        )
                    }
                },
                LifecycleEvent::SaveFailed(error) => fail_round(
                    phase,
                    self.interval_secs,
                    LifecycleFailure::Persist(error),
                ),
                _ => (step, LifecycleAction::Ignore),
            },
            Lifecycle::Renewing { phase, exchange, minted } => match event {
                LifecycleEvent::Exchange(happened) => self.on_renewing(
                    cache,
                    phase,
                    exchange,
                    minted,
                    happened,
                ),
                _ => (step, LifecycleAction::Ignore),
            },
            Lifecycle::Saving { phase } => match event {
                LifecycleEvent::Saved => (
                    Lifecycle::Waiting,
                    LifecycleAction::Sleep { seconds: self.interval_secs, failure: None },
                ),
                LifecycleEvent::SaveFailed(error) => fail_round(
                    phase,
                    self.interval_secs,
                    LifecycleFailure::Persist(error),
                ),
                _ => (step, LifecycleAction::Ignore),
            },
            Lifecycle::Waiting => match event {
                LifecycleEvent::Tick => (
                    Lifecycle::Renewing {
                        phase: Phase::Running,
                        exchange: ExchangeStep::Sending,
                        minted: false,
                    },
                    renew_action(cache),
                ),
                _ => (step, LifecycleAction::Ignore),
            },
            Lifecycle::Halted => (step, LifecycleAction::Ignore),
        }
    }
}

impl Lifecycle {
    /// The steps of a process that has finished starting.
    pub open spec fn serving(self) -> bool {
        match self {
            Lifecycle::Waiting => true,
            Lifecycle::Minting { phase, .. } => phase == Phase::Running,
            Lifecycle::SavingMinted { phase } => phase == Phase::Running,
            Lifecycle::Renewing { phase, .. } => phase == Phase::Running,
            Lifecycle::Saving { phase } => phase == Phase::Running,
            _ => false,
        }
    }
}

/// A persisted pair whose refresh lifetime has run out, or was never set,
/// is not renewed and not used: startup mints a new pair. And however the
/// minting goes, the broker never hands the stale pair back in its place.
pub proof fn lemma_expired_pair_is_minted(
    interval: u64,
    store: CacheView,
    now: int,
    step: ExchangeStep,
    event: ExchangeEvent,
)
    requires
        !store.secrets.refresh_usable(now),
    ensures
        lifecycle_step(interval, Lifecycle::Starting, LifecycleEvent::Begin, store, now).1
            == LifecycleActionView::Mint(minting(store)),
        lifecycle_step(interval, Lifecycle::Starting, LifecycleEvent::Begin, store, now).2
            == store,
        !(exchange_step(ExchangeKind::Mint, step, event, store.secrets.refresh_usable(now)).1
            is Fallback),
{
}

/// No event ends the scheduler. Once the process serves, every step leads
/// to a step in which it still serves, whatever fails on the way; and
/// whenever the scheduler goes to sleep, it sleeps for its interval.
pub proof fn lemma_scheduler_survives(
    interval: u64,
    step: Lifecycle,
    event: LifecycleEvent,
    store: CacheView,
    now: int,
)
    requires
        step.serving(),
    ensures
        lifecycle_step(interval, step, event, store, now).0.serving(),
        !(lifecycle_step(interval, step, event, store, now).1 is Abort),
        lifecycle_step(interval, step, event, store, now).1 matches LifecycleActionView::Sleep {
            seconds,
            ..
        } ==> seconds == interval,
{
}

/// Startup hands over to the scheduler by going to sleep for one interval:
/// the first scheduled renewal comes an interval after startup, not at once.
pub proof fn lemma_first_renewal_waits(
    interval: u64,
    step: Lifecycle,
    event: LifecycleEvent,
    store: CacheView,
    now: int,
)
    requires
        !step.serving(),
        lifecycle_step(interval, step, event, store, now).0 == Lifecycle::Waiting,
    ensures
        lifecycle_step(interval, step, event, store, now).1 == (LifecycleActionView::Sleep {
            seconds: interval,
            failure: None,
        }),
{
}

/// The actions of a whole life: the rule applied to a row of events, each
/// with the time at which it is handled, the step and the store handed on
/// from one to the next.
pub open spec fn lifecycle_run(
    interval: u64,
    step: Lifecycle,
    store: CacheView,
    events: Seq<(LifecycleEvent, int)>,
) -> Seq<LifecycleActionView>
    decreases events.len(),
{
    if events.len() == 0 {
        Seq::empty()
    } else {
        let first = lifecycle_step(interval, step, events[0].0, store, events[0].1);
        seq![first.1] + lifecycle_run(interval, first.0, first.2, events.drop_first())
    }
}

/// How many renewals a row of actions asks for before it first asks for
/// the store to be written.
pub open spec fn renewals_before_saving(actions: Seq<LifecycleActionView>) -> nat
    decreases actions.len(),
{
    if actions.len() == 0 {
        0
    } else if actions[0] is Save || actions[0] is SaveDespite {
        0
    } else {
        (if actions[0] is Renew {
            1nat
        } else {
            0nat
        }) + renewals_before_saving(actions.drop_first())
    }
}

proof fn lemma_minting_never_renews(
    interval: u64,
    step: Lifecycle,
    store: CacheView,
    events: Seq<(LifecycleEvent, int)>,
)
    requires
        step is Halted || (step matches Lifecycle::Minting { phase, .. } && phase
            == Phase::Startup),
    ensures
        renewals_before_saving(lifecycle_run(interval, step, store, events)) == 0,
    decreases events.len(),
{
    if events.len() > 0 {
        let first = lifecycle_step(interval, step, events[0].0, store, events[0].1);
        let rest = lifecycle_run(interval, first.0, first.2, events.drop_first());
        let all = seq![first.1] + rest;
        assert(all[0] == first.1);
        assert(all.drop_first() =~= rest);
        if !(first.1 is Save) {
            lemma_minting_never_renews(interval, first.0, first.2, events.drop_first());
        }
    }
}

/// A pair whose refresh lifetime has run out is never sent to be renewed.
/// Whatever happens after startup has begun with such a pair, no renewal
/// is asked for until a minted pair has been installed and is written to
/// disk.
pub proof fn lemma_stale_pair_is_never_renewed(
    interval: u64,
    store: CacheView,
    now: int,
    events: Seq<(LifecycleEvent, int)>,
)
    requires
        !store.secrets.refresh_usable(now),
    ensures
        renewals_before_saving(
            lifecycle_run(
                interval,
                Lifecycle::Starting,
                store,
                seq![(LifecycleEvent::Begin, now)] + events,
            ),
        ) == 0,
{
    let all_events = seq![(LifecycleEvent::Begin, now)] + events;
    assert(all_events[0] == (LifecycleEvent::Begin, now));
    assert(all_events.drop_first() =~= events);
    let first = lifecycle_step(interval, Lifecycle::Starting, LifecycleEvent::Begin, store, now);
    let rest = lifecycle_run(interval, first.0, first.2, events);
    let all = seq![first.1] + rest;
    assert(all[0] == first.1);
    assert(all.drop_first() =~= rest);
    lemma_minting_never_renews(interval, first.0, first.2, events);
}

} // verus!
