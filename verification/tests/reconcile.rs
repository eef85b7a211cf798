use discord_oauth_template::error::{storage_error, Error};
use discord_oauth_template::models::EntitlementUpsertParams;
use discord_oauth_template::reconcile::{
    absorb_entitlement, derive_subscription, plan_upsert, plan_upserts, DerivedSubscription,
    DiscordEntitlementResponse, ReconcileAction, ReconcilePhase, Reconciliation,
};
use discord_oauth_template::{
    EntitlementStorage, MemoryStorage, SubscriptionSource, SubscriptionTier, Timestamp, UserStorage,
};
use discord_oauth_template::models::UserUpsertParams;

const DAY: i64 = 86_400;
const NOW: Timestamp = Timestamp { secs: 1_700_000_000, nanos: 0 };

fn at(secs: i64) -> Timestamp {
    Timestamp { secs, nanos: 0 }
}

fn reported(id: &str, sku: &str, ends_at: Option<Timestamp>) -> DiscordEntitlementResponse {
    DiscordEntitlementResponse {
        id: id.to_string(),
        sku_id: sku.to_string(),
        user_id: Some("42".to_string()),
        entitlement_type: 8,
        deleted: false,
        starts_at: None,
        ends_at,
        consumed: false,
    }
}

fn stored(id: i64, sku: i64, ends_at: Option<Timestamp>) -> EntitlementUpsertParams {
    EntitlementUpsertParams {
        entitlement_id: id,
        user_id: 42,
        sku_id: sku,
        entitlement_type: 8,
        is_test: false,
        consumed: false,
        starts_at: None,
        ends_at,
    }
}

fn new_user(storage: &mut MemoryStorage, user_id: i64) {
    let params = UserUpsertParams {
        user_id,
        username: "user",
        global_name: None,
        avatar_url: None,
        refresh_token: None,
        token_expires_at: None,
    };
    storage.upsert_user(params, "unused").unwrap();
}

/// Runs a pass against the storage; `fail` tells which entitlement ids cannot be stored.
fn run_pass(
    storage: &mut MemoryStorage,
    premium_sku_id: Option<i64>,
    entitlements: &Vec<DiscordEntitlementResponse>,
    fail: &[i64],
) -> (Result<SubscriptionTier, Error>, Vec<String>) {
    let mut log = Vec::new();
    let (mut pass, mut action) = Reconciliation::begin(42, premium_sku_id, entitlements, NOW);
    loop {
        let outcome = match action {
            ReconcileAction::UpsertEntitlement(params) => {
                log.push(format!("upsert {}", params.entitlement_id));
                if fail.contains(&params.entitlement_id) {
                    Err(Error::Storage(storage_error("down")))
                } else {
                    storage.upsert_entitlement(params)
                }
            }
            ReconcileAction::UpdateSubscription { user_id, tier, source, expires_at } => {
                log.push(format!("subscription {:?} {:?} {:?}", tier, source, expires_at));
                storage.update_subscription(user_id, tier, source, expires_at)
            }
            ReconcileAction::Finish(result) => return (result, log),
        };
        let next = pass.step(outcome);
        pass = next.0;
        action = next.1;
    }
}

#[test]
fn test_reconciliation_promotes_to_the_premium_sku() {
    let mut storage = MemoryStorage::new();
    new_user(&mut storage, 42);
    let entitlements = vec![
        reported("1", "777", Some(at(NOW.secs + 30 * DAY))),
        reported("2", "999", Some(at(NOW.secs - DAY))),
    ];
    let (result, log) = run_pass(&mut storage, Some(777), &entitlements, &[]);
    assert_eq!(result.unwrap(), SubscriptionTier::Premium);
    assert_eq!(log.len(), 3);
    assert_eq!(log[0], "upsert 1");
    assert_eq!(log[1], "upsert 2");
    let user = storage.find_user(42).unwrap();
    assert_eq!(user.subscription_tier, SubscriptionTier::Premium);
    assert_eq!(user.subscription_source, Some(SubscriptionSource::Discord));
    assert_eq!(user.subscription_expires_at, Some(at(NOW.secs + 30 * DAY)));
    assert_eq!(storage.entitlement_count(), 2);
}

#[test]
fn test_reconciliation_never_demotes() {
    let mut storage = MemoryStorage::new();
    new_user(&mut storage, 42);
    let (result, _) = run_pass(&mut storage, Some(777), &vec![reported("1", "777", None)], &[]);
    assert_eq!(result.unwrap(), SubscriptionTier::Premium);
    let user = storage.find_user(42).unwrap();
    assert_eq!(user.subscription_tier, SubscriptionTier::Premium);
    assert_eq!(user.subscription_expires_at, None);

    let (result, log) = run_pass(&mut storage, Some(777), &vec![], &[]);
    assert_eq!(result.unwrap(), SubscriptionTier::Free);
    assert!(log.is_empty());
    let user = storage.find_user(42).unwrap();
    assert_eq!(user.subscription_tier, SubscriptionTier::Premium);
    assert_eq!(user.subscription_source, Some(SubscriptionSource::Discord));
    assert_eq!(user.subscription_expires_at, None);

    let expired = vec![reported("1", "777", Some(at(NOW.secs - 1)))];
    let (result, log) = run_pass(&mut storage, Some(777), &expired, &[]);
    assert_eq!(result.unwrap(), SubscriptionTier::Free);
    assert_eq!(log, vec!["upsert 1".to_string()]);
    assert_eq!(storage.find_user(42).unwrap().subscription_tier, SubscriptionTier::Premium);
}

#[test]
fn test_unparsable_entitlement_is_skipped() {
    let mut storage = MemoryStorage::new();
    new_user(&mut storage, 42);
    let entitlements = vec![
        reported("not-a-number", "777", None),
        reported("2", "sku", None),
        reported("", "777", None),
        reported("4", "777", Some(at(NOW.secs + DAY))),
        reported("5", "123", None),
    ];
    let (result, log) = run_pass(&mut storage, Some(777), &entitlements, &[]);
    assert_eq!(result.unwrap(), SubscriptionTier::Premium);
    assert_eq!(log[0], "upsert 4");
    assert_eq!(log[1], "upsert 5");
    assert_eq!(storage.entitlement_count(), 2);
    assert_eq!(
        storage.find_user(42).unwrap().subscription_expires_at,
        Some(at(NOW.secs + DAY))
    );
}

#[test]
fn test_deleted_entitlement_is_neither_stored_nor_counted() {
    let mut storage = MemoryStorage::new();
    new_user(&mut storage, 42);
    let mut deleted = reported("1", "777", None);
    deleted.deleted = true;
    let (result, log) = run_pass(&mut storage, Some(777), &vec![deleted], &[]);
    assert_eq!(result.unwrap(), SubscriptionTier::Free);
    assert!(log.is_empty());
    assert_eq!(storage.entitlement_count(), 0);
    assert_eq!(storage.find_user(42).unwrap().subscription_tier, SubscriptionTier::Free);
}

#[test]
fn test_entitlement_that_cannot_be_stored_does_not_count() {
    let mut storage = MemoryStorage::new();
    new_user(&mut storage, 42);
    let entitlements = vec![
        reported("1", "777", None),
        reported("2", "777", Some(at(NOW.secs + DAY))),
        reported("3", "1", None),
    ];
    let (result, log) = run_pass(&mut storage, Some(777), &entitlements, &[1]);
    assert_eq!(result.unwrap(), SubscriptionTier::Premium);
    assert_eq!(log.len(), 4);
    assert_eq!(storage.entitlement_count(), 2);
    assert_eq!(
        storage.find_user(42).unwrap().subscription_expires_at,
        Some(at(NOW.secs + DAY))
    );

    let mut storage = MemoryStorage::new();
    new_user(&mut storage, 42);
    let (result, log) = run_pass(&mut storage, Some(777), &entitlements, &[1, 2]);
    assert_eq!(result.unwrap(), SubscriptionTier::Free);
    assert_eq!(log.len(), 3);
    assert_eq!(storage.find_user(42).unwrap().subscription_tier, SubscriptionTier::Free);
}

#[test]
fn test_without_premium_sku_the_pass_does_nothing() {
    let mut storage = MemoryStorage::new();
    new_user(&mut storage, 42);
    let (result, log) = run_pass(&mut storage, None, &vec![reported("1", "777", None)], &[]);
    assert_eq!(result.unwrap(), SubscriptionTier::Free);
    assert!(log.is_empty());
    assert_eq!(storage.entitlement_count(), 0);
}

#[test]
fn test_failed_subscription_update_ends_the_pass_with_its_error() {
    let (pass, action) =
        Reconciliation::begin(42, Some(777), &vec![reported("1", "777", None)], NOW);
    assert!(matches!(action, ReconcileAction::UpsertEntitlement(_)));
    assert_eq!(pass.phase, ReconcilePhase::Storing);
    let (pass, action) = pass.step(Ok(()));
    match action {
        ReconcileAction::UpdateSubscription { user_id, tier, source, expires_at } => {
            assert_eq!(user_id, 42);
            assert_eq!(tier, SubscriptionTier::Premium);
            assert_eq!(source, SubscriptionSource::Discord);
            assert_eq!(expires_at, None);
        }
        other => panic!("{:?}", other),
    }
    assert_eq!(pass.phase, ReconcilePhase::Promoting);
    let (pass, action) = pass.step(Err(Error::Storage(storage_error("down"))));
    assert!(matches!(action, ReconcileAction::Finish(Err(Error::Storage(_)))));
    assert_eq!(pass.phase, ReconcilePhase::Finished);
    let (_, action) = pass.step(Ok(()));
    assert!(matches!(action, ReconcileAction::Finish(Ok(SubscriptionTier::Premium))));
}

#[test]
fn test_plan_keeps_order_and_fields() {
    let mut second = reported("-20", "+30", Some(at(9)));
    second.consumed = true;
    second.starts_at = Some(at(3));
    second.entitlement_type = 5;
    let plan = plan_upserts(7, &vec![reported("10", "777", None), second]);
    assert_eq!(plan.len(), 2);
    assert_eq!(
        plan[0],
        EntitlementUpsertParams {
            entitlement_id: 10,
            user_id: 7,
            sku_id: 777,
            entitlement_type: 8,
            is_test: false,
            consumed: false,
            starts_at: None,
            ends_at: None,
        }
    );
    assert_eq!(
        plan[1],
        EntitlementUpsertParams {
            entitlement_id: -20,
            user_id: 7,
            sku_id: 30,
            entitlement_type: 5,
            is_test: false,
            consumed: true,
            starts_at: Some(at(3)),
            ends_at: Some(at(9)),
        }
    );
    assert_eq!(plan_upsert(7, &reported("9223372036854775808", "1", None)), None);
    assert_eq!(plan_upsert(7, &reported("1", "1.5", None)), None);
}

#[test]
fn test_derived_end_is_the_latest_and_no_end_wins() {
    let free = DerivedSubscription { tier: SubscriptionTier::Free, expires_at: None };
    let until = |secs: i64| DerivedSubscription {
        tier: SubscriptionTier::Premium,
        expires_at: Some(at(secs)),
    };
    let forever = DerivedSubscription { tier: SubscriptionTier::Premium, expires_at: None };
    let soon = NOW.secs + 10;
    let late = NOW.secs + 20;
    let derive = |list: Vec<EntitlementUpsertParams>| derive_subscription(&list, Some(777), NOW);

    assert_eq!(derive(vec![]), free);
    assert_eq!(derive(vec![stored(1, 777, Some(at(soon)))]), until(soon));
    assert_eq!(
        derive(vec![stored(1, 777, Some(at(soon))), stored(2, 777, Some(at(late)))]),
        until(late)
    );
    assert_eq!(
        derive(vec![stored(1, 777, Some(at(late))), stored(2, 777, Some(at(soon)))]),
        until(late)
    );
    assert_eq!(derive(vec![stored(1, 777, None), stored(2, 777, Some(at(late)))]), forever);
    assert_eq!(derive(vec![stored(1, 777, Some(at(late))), stored(2, 777, None)]), forever);
    assert_eq!(
        derive(vec![
            stored(1, 777, Some(at(soon))),
            stored(2, 777, None),
            stored(3, 777, Some(at(late)))
        ]),
        forever
    );
    assert_eq!(derive(vec![stored(1, 778, None)]), free);
    assert_eq!(derive(vec![stored(1, 777, Some(NOW))]), free);
    assert_eq!(derive(vec![stored(1, 777, Some(at(NOW.secs - 1)))]), free);
    assert_eq!(
        derive(vec![stored(1, 777, Some(Timestamp { secs: NOW.secs, nanos: 1 }))]),
        DerivedSubscription {
            tier: SubscriptionTier::Premium,
            expires_at: Some(Timestamp { secs: NOW.secs, nanos: 1 })
        }
    );
    assert_eq!(derive_subscription(&vec![stored(1, 777, None)], None, NOW), free);
    assert_eq!(absorb_entitlement(until(soon), &stored(1, 777, Some(at(late))), Some(777), NOW), until(late));
    assert_eq!(absorb_entitlement(until(late), &stored(1, 1, None), Some(777), NOW), until(late));
}
