use collar::credential::Secrets;

fn pair(access: &str, refresh: &str, access_until: i64, refresh_until: i64) -> Secrets {
    Secrets {
        access_token: access.to_string(),
        refresh_token: refresh.to_string(),
        access_token_expires_at: access_until,
        refresh_token_expires_at: refresh_until,
    }
}

#[test]
fn empty_pair_has_no_tokens_and_zero_lifetimes() {
    let secrets = Secrets::empty();
    assert_eq!(secrets.access_token, "");
    assert_eq!(secrets.refresh_token, "");
    assert_eq!(secrets.access_token_expires_at, 0);
    assert_eq!(secrets.refresh_token_expires_at, 0);
}

#[test]
fn lifetimes_are_both_zero_or_both_positive() {
    assert!(Secrets::empty().is_well_formed());
    assert!(pair("a", "r", 10, 20).is_well_formed());
    assert!(!pair("a", "r", 0, 20).is_well_formed());
    assert!(!pair("a", "r", 10, 0).is_well_formed());
    assert!(!pair("a", "r", -1, 20).is_well_formed());
}

#[test]
fn refresh_token_is_unusable_when_never_set() {
    assert!(!Secrets::empty().refresh_usable(-5));
    assert!(!Secrets::empty().refresh_usable(0));
}

#[test]
fn refresh_token_is_unusable_at_and_after_its_expiry() {
    let secrets = pair("a", "r", 100, 200);
    assert!(secrets.refresh_usable(199));
    assert!(!secrets.refresh_usable(200));
    assert!(!secrets.refresh_usable(201));
}

#[test]
fn access_token_is_unusable_at_and_after_its_expiry() {
    let secrets = pair("a", "r", 100, 200);
    assert!(secrets.access_usable(99));
    assert!(!secrets.access_usable(100));
    assert!(!secrets.access_usable(150));
    assert!(!Secrets::empty().access_usable(0));
}

#[test]
fn clone_keeps_all_four_fields() {
    let secrets = pair("acc", "ref", 11, 22);
    let copy = secrets.clone();
    assert_eq!(copy, secrets);
    assert!(copy.same_as(&secrets));
}

#[test]
fn same_as_tells_each_field_apart() {
    let secrets = pair("acc", "ref", 11, 22);
    assert!(!secrets.same_as(&pair("acc2", "ref", 11, 22)));
    assert!(!secrets.same_as(&pair("acc", "ref2", 11, 22)));
    assert!(!secrets.same_as(&pair("acc", "ref", 12, 22)));
    assert!(!secrets.same_as(&pair("acc", "ref", 11, 23)));
}
