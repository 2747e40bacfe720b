use collar::broker::{BrokerError, ExchangeEvent, ExchangeKind, ExchangeStep};
use collar::cache::{Cache, CacheError, Urls};
use collar::credential::Secrets;
use collar::scheduler::{
    Lifecycle, LifecycleAction, LifecycleEvent, LifecycleFailure, Phase, Scheduler,
    REFRESH_INTERVAL_SECS,
};

fn pair(access: &str, refresh: &str, access_until: i64, refresh_until: i64) -> Secrets {
    Secrets {
        access_token: access.to_string(),
        refresh_token: refresh.to_string(),
        access_token_expires_at: access_until,
        refresh_token_expires_at: refresh_until,
    }
}

fn store(secrets: Secrets) -> Cache {
    let mut cache = Cache::new();
    cache.set_urls(Urls {
        api_base_url: "https://api.example".to_string(),
        web_base_url: "https://example".to_string(),
    });
    cache.set_secrets(secrets);
    cache
}

fn mint() -> LifecycleAction {
    LifecycleAction::Mint { url: "https://api.example/bot/setup".to_string(), timeout_secs: 60 }
}

fn renew(access: &str, refresh: &str) -> LifecycleAction {
    LifecycleAction::Renew {
        url: "https://api.example/bot/refresh".to_string(),
        access_token: access.to_string(),
        refresh_token: refresh.to_string(),
    }
}

fn exchange(status: u16, body: &str) -> LifecycleEvent {
    LifecycleEvent::Exchange(ExchangeEvent::Replied { status, body: body.to_string() })
}

#[test]
fn the_interval_is_thirty_minutes_unless_configured() {
    assert_eq!(REFRESH_INTERVAL_SECS, 30 * 60);
    assert_eq!(Scheduler::new().interval_secs, 1800);
    assert_eq!(Scheduler::every(5).interval_secs, 5);
}

#[test]
fn startup_mints_when_nothing_was_ever_fetched() {
    let mut cache = store(Secrets::empty());
    let (step, action) =
        Scheduler::new().step(&mut cache, Lifecycle::Starting, LifecycleEvent::Begin, 1_000);
    assert_eq!(
        step,
        Lifecycle::Minting { phase: Phase::Startup, exchange: ExchangeStep::Sending }
    );
    assert_eq!(action, mint());
}

#[test]
fn startup_mints_when_the_refresh_lifetime_is_in_the_past() {
    for now in [500, 501, 10_000] {
        let mut cache = store(pair("a", "r", 100, 500));
        let (step, action) =
            Scheduler::new().step(&mut cache, Lifecycle::Starting, LifecycleEvent::Begin, now);
        assert_eq!(
            step,
            Lifecycle::Minting { phase: Phase::Startup, exchange: ExchangeStep::Sending }
        );
        assert_eq!(action, mint());
        assert_eq!(cache.get_secrets(), pair("a", "r", 100, 500));
    }
}

#[test]
fn startup_renews_when_only_the_access_lifetime_has_run_out() {
    let mut cache = store(pair("a", "r", 100, 5_000));
    let (step, action) =
        Scheduler::new().step(&mut cache, Lifecycle::Starting, LifecycleEvent::Begin, 1_000);
    assert_eq!(
        step,
        Lifecycle::Renewing { phase: Phase::Startup, exchange: ExchangeStep::Sending, minted: false }
    );
    assert_eq!(action, renew("a", "r"));
}

#[test]
fn startup_keeps_a_good_pair() {
    let mut cache = store(pair("a", "r", 2_000, 5_000));
    let (step, action) =
        Scheduler::new().step(&mut cache, Lifecycle::Starting, LifecycleEvent::Begin, 1_000);
    assert_eq!(step, Lifecycle::Saving { phase: Phase::Startup });
    assert_eq!(action, LifecycleAction::Save);
    let (step, action) = Scheduler::new().step(&mut cache, step, LifecycleEvent::Saved, 1_000);
    assert_eq!(step, Lifecycle::Waiting);
    assert_eq!(action, LifecycleAction::Sleep { seconds: 1800, failure: None });
}

#[test]
fn startup_mint_retries_and_then_installs() {
    let scheduler = Scheduler::every(60);
    let mut cache = store(Secrets::empty());
    let minted = pair("new-a", "new-r", 2_000, 9_000);
    let (step, _) = scheduler.step(&mut cache, Lifecycle::Starting, LifecycleEvent::Begin, 1_000);
    let (step, action) = scheduler.step(
        &mut cache,
        step,
        LifecycleEvent::Exchange(ExchangeEvent::Unreachable("down".to_string())),
        1_000,
    );
    assert_eq!(action, LifecycleAction::RetryAfter { seconds: 1 });
    let (step, action) = scheduler.step(&mut cache, step, exchange(418, ""), 1_001);
    assert_eq!(action, LifecycleAction::RetryAfter { seconds: 1 });
    let (step, action) = scheduler.step(&mut cache, step, exchange(200, "body"), 1_002);
    assert_eq!(action, LifecycleAction::Decode { body: "body".to_string() });
    let (step, action) = scheduler.step(
        &mut cache,
        step,
        LifecycleEvent::Exchange(ExchangeEvent::Decoded(minted.clone())),
        1_002,
    );
    assert_eq!(step, Lifecycle::SavingMinted { phase: Phase::Startup });
    assert_eq!(action, LifecycleAction::Save);
    assert_eq!(cache.get_secrets(), minted);
    let (step, action) = scheduler.step(&mut cache, step, LifecycleEvent::Saved, 1_003);
    assert_eq!(step, Lifecycle::Waiting);
    assert_eq!(action, LifecycleAction::Sleep { seconds: 60, failure: None });
}

#[test]
fn a_minted_pair_with_a_spent_access_token_is_renewed_once() {
    let scheduler = Scheduler::new();
    let mut cache = store(pair("minted-a", "minted-r", 900, 9_000));
    let (step, action) = scheduler.step(
        &mut cache,
        Lifecycle::SavingMinted { phase: Phase::Startup },
        LifecycleEvent::Saved,
        1_000,
    );
    assert_eq!(
        step,
        Lifecycle::Renewing { phase: Phase::Startup, exchange: ExchangeStep::Sending, minted: true }
    );
    assert_eq!(action, renew("minted-a", "minted-r"));
    let (step, action) = scheduler.step(&mut cache, step, exchange(401, "no"), 1_000);
    assert_eq!(step, Lifecycle::Saving { phase: Phase::Startup });
    assert_eq!(
        action,
        LifecycleAction::SaveDespite(BrokerError::Rejected {
            kind: ExchangeKind::Refresh,
            status: 401,
            body: "no".to_string()
        })
    );
}

#[test]
fn startup_halts_when_minting_is_refused() {
    let scheduler = Scheduler::new();
    let mut cache = store(Secrets::empty());
    let (step, _) = scheduler.step(&mut cache, Lifecycle::Starting, LifecycleEvent::Begin, 1_000);
    let (step, action) = scheduler.step(&mut cache, step, exchange(403, "who are you"), 1_000);
    assert_eq!(step, Lifecycle::Halted);
    assert_eq!(
        action,
        LifecycleAction::Abort(LifecycleFailure::Mint(BrokerError::Rejected {
            kind: ExchangeKind::Mint,
            status: 403,
            body: "who are you".to_string()
        }))
    );
    let (step, action) = scheduler.step(&mut cache, step, LifecycleEvent::Tick, 2_000);
    assert_eq!(step, Lifecycle::Halted);
    assert_eq!(action, LifecycleAction::Ignore);
}

#[test]
fn startup_halts_when_the_store_cannot_be_written() {
    let scheduler = Scheduler::new();
    let mut cache = store(pair("a", "r", 2_000, 5_000));
    let (step, action) = scheduler.step(
        &mut cache,
        Lifecycle::Saving { phase: Phase::Startup },
        LifecycleEvent::SaveFailed(CacheError::Write("full".to_string())),
        1_000,
    );
    assert_eq!(step, Lifecycle::Halted);
    assert_eq!(
        action,
        LifecycleAction::Abort(LifecycleFailure::Persist(CacheError::Write("full".to_string())))
    );
}

#[test]
fn startup_renewal_refused_falls_back_to_minting() {
    let scheduler = Scheduler::new();
    let mut cache = store(pair("a", "r", 100, 5_000));
    let (step, _) = scheduler.step(&mut cache, Lifecycle::Starting, LifecycleEvent::Begin, 1_000);
    let (step, action) = scheduler.step(&mut cache, step, exchange(400, "revoked"), 1_000);
    assert_eq!(
        step,
        Lifecycle::Minting { phase: Phase::Startup, exchange: ExchangeStep::Sending }
    );
    assert_eq!(action, mint());
    assert_eq!(cache.get_secrets(), pair("a", "r", 100, 5_000));
}

#[test]
fn startup_goes_on_when_a_renewal_yields_no_pair() {
    let scheduler = Scheduler::new();
    let mut cache = store(pair("a", "r", 100, 5_000));
    let (step, action) = scheduler.step(
        &mut cache,
        Lifecycle::Renewing {
            phase: Phase::Startup,
            exchange: ExchangeStep::Decoding,
            minted: false,
        },
        LifecycleEvent::Exchange(ExchangeEvent::Malformed("eof".to_string())),
        1_000,
    );
    assert_eq!(step, Lifecycle::Saving { phase: Phase::Startup });
    assert_eq!(
        action,
        LifecycleAction::SaveDespite(BrokerError::Malformed { cause: "eof".to_string() })
    );
}

#[test]
fn tick_renews_the_current_pair() {
    let scheduler = Scheduler::new();
    let mut cache = store(pair("a", "r", 2_000, 5_000));
    let (step, action) = scheduler.step(&mut cache, Lifecycle::Waiting, LifecycleEvent::Tick, 1_000);
    assert_eq!(
        step,
        Lifecycle::Renewing { phase: Phase::Running, exchange: ExchangeStep::Sending, minted: false }
    );
    assert_eq!(action, renew("a", "r"));
    let renewed = pair("a2", "r2", 4_000, 8_000);
    let (step, _) = scheduler.step(&mut cache, step, exchange(200, "b"), 1_000);
    let (step, action) = scheduler.step(
        &mut cache,
        step,
        LifecycleEvent::Exchange(ExchangeEvent::Decoded(renewed.clone())),
        1_000,
    );
    assert_eq!(step, Lifecycle::Saving { phase: Phase::Running });
    assert_eq!(action, LifecycleAction::Save);
    assert_eq!(cache.get_secrets(), renewed);
    let (step, action) = scheduler.step(&mut cache, step, LifecycleEvent::Saved, 1_000);
    assert_eq!(step, Lifecycle::Waiting);
    assert_eq!(action, LifecycleAction::Sleep { seconds: 1800, failure: None });
}

#[test]
fn the_scheduler_survives_a_failed_tick() {
    let scheduler = Scheduler::every(90);
    let mut cache = store(pair("a", "r", 2_000, 5_000));
    let (step, _) = scheduler.step(&mut cache, Lifecycle::Waiting, LifecycleEvent::Tick, 1_000);
    let (step, action) = scheduler.step(
        &mut cache,
        step,
        LifecycleEvent::Exchange(ExchangeEvent::BodyUnreadable("reset".to_string())),
        1_000,
    );
    assert_eq!(step, Lifecycle::Waiting);
    assert_eq!(
        action,
        LifecycleAction::Sleep {
            seconds: 90,
            failure: Some(LifecycleFailure::Renewal(BrokerError::Unreadable {
                cause: "reset".to_string()
            }))
        }
    );
    let (step, action) = scheduler.step(&mut cache, step, LifecycleEvent::Tick, 2_000);
    assert!(matches!(step, Lifecycle::Renewing { phase: Phase::Running, .. }));
    assert_eq!(action, renew("a", "r"));
}

#[test]
fn a_refused_renewal_on_a_tick_mints_and_a_refused_mint_is_slept_on() {
    let scheduler = Scheduler::new();
    let mut cache = store(pair("a", "r", 2_000, 5_000));
    let (step, _) = scheduler.step(&mut cache, Lifecycle::Waiting, LifecycleEvent::Tick, 1_000);
    let (step, action) = scheduler.step(&mut cache, step, exchange(401, "revoked"), 1_000);
    assert_eq!(
        step,
        Lifecycle::Minting { phase: Phase::Running, exchange: ExchangeStep::Sending }
    );
    assert_eq!(action, mint());
    let (step, action) = scheduler.step(&mut cache, step, exchange(403, "no"), 1_000);
    assert_eq!(step, Lifecycle::Waiting);
    assert_eq!(
        action,
        LifecycleAction::Sleep {
            seconds: 1800,
            failure: Some(LifecycleFailure::Mint(BrokerError::Rejected {
                kind: ExchangeKind::Mint,
                status: 403,
                body: "no".to_string()
            }))
        }
    );
    assert_eq!(cache.get_secrets(), pair("a", "r", 2_000, 5_000));
}

#[test]
fn a_failed_write_on_a_tick_is_slept_on() {
    let scheduler = Scheduler::new();
    let mut cache = store(pair("a", "r", 2_000, 5_000));
    let (step, action) = scheduler.step(
        &mut cache,
        Lifecycle::Saving { phase: Phase::Running },
        LifecycleEvent::SaveFailed(CacheError::Create("ro".to_string())),
        1_000,
    );
    assert_eq!(step, Lifecycle::Waiting);
    assert_eq!(
        action,
        LifecycleAction::Sleep {
            seconds: 1800,
            failure: Some(LifecycleFailure::Persist(CacheError::Create("ro".to_string())))
        }
    );
}

#[test]
fn lifecycle_events_out_of_turn_are_ignored() {
    let scheduler = Scheduler::new();
    let mut cache = store(pair("a", "r", 2_000, 5_000));
    let before = cache.clone();
    let (step, action) = scheduler.step(&mut cache, Lifecycle::Starting, LifecycleEvent::Tick, 1);
    assert_eq!(step, Lifecycle::Starting);
    assert_eq!(action, LifecycleAction::Ignore);
    let (step, action) = scheduler.step(&mut cache, Lifecycle::Waiting, LifecycleEvent::Begin, 1);
    assert_eq!(step, Lifecycle::Waiting);
    assert_eq!(action, LifecycleAction::Ignore);
    let (step, action) = scheduler.step(&mut cache, Lifecycle::Waiting, LifecycleEvent::Saved, 1);
    assert_eq!(step, Lifecycle::Waiting);
    assert_eq!(action, LifecycleAction::Ignore);
    assert_eq!(cache, before);
}

#[test]
fn lifecycle_failure_messages() {
    assert_eq!(
        LifecycleFailure::Mint(BrokerError::Rejected {
            kind: ExchangeKind::Mint,
            status: 403,
            body: "no".to_string()
        })
        .message(),
        "Failed to get secrets overall: Could not get secrets: no"
    );
    assert_eq!(
        LifecycleFailure::Renewal(BrokerError::Unreadable { cause: "reset".to_string() }).message(),
        "Failed to refresh secrets: reset"
    );
    assert_eq!(
        LifecycleFailure::Persist(CacheError::Open("denied".to_string())).message(),
        "There was an error opening the cache file: denied"
    );
}

#[test]
fn a_stale_pair_is_minted_anew_and_never_sent_for_renewal() {
    let scheduler = Scheduler::new();
    let mut cache = store(pair("stale-a", "stale-r", 100, 500));
    let events = vec![
        LifecycleEvent::Begin,
        LifecycleEvent::Tick,
        LifecycleEvent::Exchange(ExchangeEvent::Unreachable("down".to_string())),
        LifecycleEvent::Saved,
        exchange(502, ""),
        exchange(200, "body"),
        LifecycleEvent::Tick,
        LifecycleEvent::Exchange(ExchangeEvent::Decoded(pair("new-a", "new-r", 9_000, 9_999))),
    ];
    let mut step = Lifecycle::Starting;
    let mut actions = Vec::new();
    for event in events {
        let (next, action) = scheduler.step(&mut cache, step, event, 1_000);
        step = next;
        actions.push(action);
    }
    assert!(actions.iter().all(|action| !matches!(action, LifecycleAction::Renew { .. })));
    assert_eq!(actions[0], mint());
    assert_eq!(actions.last(), Some(&LifecycleAction::Save));
    assert_eq!(cache.get_secrets(), pair("new-a", "new-r", 9_000, 9_999));
}
