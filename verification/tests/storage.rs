use chrono::{DateTime, Duration, Utc};
use discord_oauth_template::models::{EntitlementUpsertParams, UserUpsertParams};
use discord_oauth_template::storage::{merge_entitlement, merge_user};
use discord_oauth_template::{
    EntitlementStorage, MemoryStorage, SubscriptionSource, SubscriptionTier, Timestamp, UserStorage,
};

fn ts(t: DateTime<Utc>) -> Timestamp {
    Timestamp { secs: t.timestamp(), nanos: t.timestamp_subsec_nanos() }
}

fn at(secs: i64) -> Timestamp {
    Timestamp { secs, nanos: 0 }
}

fn entitlement(id: i64) -> EntitlementUpsertParams {
    EntitlementUpsertParams {
        entitlement_id: id,
        user_id: 123,
        sku_id: 456,
        entitlement_type: 8,
        is_test: false,
        consumed: false,
        starts_at: None,
        ends_at: None,
    }
}

#[test]
fn test_memory_storage_user_lifecycle() {
    let mut storage = MemoryStorage::new();
    let key = "unused";

    // Initially no user
    assert!(storage.get_user(123, key).unwrap().is_none());

    // Create user
    storage
        .upsert_user(
            UserUpsertParams {
                user_id: 123,
                username: "testuser",
                global_name: Some("Test User"),
                avatar_url: None,
                refresh_token: Some("token123"),
                token_expires_at: Some(ts(Utc::now() + Duration::hours(1))),
            },
            key,
        )
        .unwrap();

    // User exists
    let user = storage.get_user(123, key).unwrap().unwrap();
    assert_eq!(user.username, "testuser");
    assert_eq!(user.refresh_token, Some("token123".to_string()));

    // Update user
    storage
        .upsert_user(
            UserUpsertParams {
                user_id: 123,
                username: "newname",
                global_name: None,
                avatar_url: None,
                refresh_token: None,
                token_expires_at: None,
            },
            key,
        )
        .unwrap();

    let user = storage.get_user(123, key).unwrap().unwrap();
    assert_eq!(user.username, "newname");
    // Token preserved when not provided
    assert_eq!(user.refresh_token, Some("token123".to_string()));

    // Clear tokens
    storage.clear_user_tokens(123).unwrap();
    let user = storage.get_user(123, key).unwrap().unwrap();
    assert!(user.refresh_token.is_none());
}

#[test]
fn test_memory_storage_subscription() {
    let mut storage = MemoryStorage::new();
    let key = "unused";

    storage
        .upsert_user(
            UserUpsertParams {
                user_id: 456,
                username: "subuser",
                global_name: None,
                avatar_url: None,
                refresh_token: None,
                token_expires_at: None,
            },
            key,
        )
        .unwrap();

    // Initially free
    let user = storage.get_user(456, key).unwrap().unwrap();
    assert_eq!(user.subscription_tier, SubscriptionTier::Free);

    // Upgrade
    storage
        .update_subscription(
            456,
            SubscriptionTier::Premium,
            SubscriptionSource::Discord,
            Some(ts(Utc::now() + Duration::days(30))),
        )
        .unwrap();

    let user = storage.get_user(456, key).unwrap().unwrap();
    assert_eq!(user.subscription_tier, SubscriptionTier::Premium);
    assert!(user.is_premium());
}

#[test]
fn test_memory_storage_entitlements() {
    let mut storage = MemoryStorage::new();

    assert_eq!(storage.entitlement_count(), 0);

    storage
        .upsert_entitlement(EntitlementUpsertParams {
            entitlement_id: 1,
            user_id: 123,
            sku_id: 456,
            entitlement_type: 8,
            is_test: false,
            consumed: false,
            starts_at: None,
            ends_at: None,
        })
        .unwrap();

    assert_eq!(storage.entitlement_count(), 1);
}

#[test]
fn test_memory_storage_clear() {
    let mut storage = MemoryStorage::new();
    let key = "unused";

    storage
        .upsert_user(
            UserUpsertParams {
                user_id: 1,
                username: "user1",
                global_name: None,
                avatar_url: None,
                refresh_token: None,
                token_expires_at: None,
            },
            key,
        )
        .unwrap();

    assert_eq!(storage.user_count(), 1);

    storage.clear();

    assert_eq!(storage.user_count(), 0);
}

fn params<'a>(
    username: &'a str,
    refresh_token: Option<&'a str>,
    token_expires_at: Option<Timestamp>,
) -> UserUpsertParams<'a> {
    UserUpsertParams {
        user_id: 9,
        username,
        global_name: Some("Global"),
        avatar_url: Some("https://example.com/a.png"),
        refresh_token,
        token_expires_at,
    }
}

#[test]
fn test_new_user_starts_on_the_free_tier() {
    let mut storage = MemoryStorage::new();
    storage.upsert_user_at(&params("nine", Some("t1"), Some(at(500))), at(100));
    let user = storage.find_user(9).unwrap();
    assert_eq!(user.user_id, 9);
    assert_eq!(user.username, "nine");
    assert_eq!(user.global_name, Some("Global".to_string()));
    assert_eq!(user.avatar_url, Some("https://example.com/a.png".to_string()));
    assert_eq!(user.refresh_token, Some("t1".to_string()));
    assert_eq!(user.token_expires_at, Some(at(500)));
    assert_eq!(user.subscription_tier, SubscriptionTier::Free);
    assert_eq!(user.subscription_source, None);
    assert_eq!(user.subscription_expires_at, None);
    assert_eq!(user.created_at, at(100));
    assert_eq!(user.updated_at, at(100));
    assert_eq!(storage.user_count(), 1);
    assert!(storage.find_user(10).is_none());
}

#[test]
fn test_upsert_without_tokens_keeps_the_stored_ones() {
    let mut storage = MemoryStorage::new();
    storage.upsert_user_at(&params("nine", Some("t1"), Some(at(500))), at(100));
    storage.update_subscription_at(
        9,
        SubscriptionTier::Premium,
        SubscriptionSource::Manual,
        Some(at(900)),
        at(150),
    );
    let mut absent = params("renamed", None, None);
    absent.global_name = None;
    absent.avatar_url = None;
    storage.upsert_user_at(&absent, at(200));
    let user = storage.find_user(9).unwrap();
    assert_eq!(user.username, "renamed");
    assert_eq!(user.global_name, Some("Global".to_string()));
    assert_eq!(user.avatar_url, Some("https://example.com/a.png".to_string()));
    assert_eq!(user.refresh_token, Some("t1".to_string()));
    assert_eq!(user.token_expires_at, Some(at(500)));
    assert_eq!(user.subscription_tier, SubscriptionTier::Premium);
    assert_eq!(user.subscription_source, Some(SubscriptionSource::Manual));
    assert_eq!(user.subscription_expires_at, Some(at(900)));
    assert_eq!(user.created_at, at(100));
    assert_eq!(user.updated_at, at(200));
    assert_eq!(storage.user_count(), 1);
}

#[test]
fn test_upsert_never_clears_name_and_avatar() {
    let mut storage = MemoryStorage::new();
    let key = "unused";
    storage
        .upsert_user(
            UserUpsertParams {
                user_id: 123,
                username: "testuser",
                global_name: Some("Test User"),
                avatar_url: Some("https://example.com/a.png"),
                refresh_token: None,
                token_expires_at: None,
            },
            key,
        )
        .unwrap();
    storage
        .upsert_user(
            UserUpsertParams {
                user_id: 123,
                username: "newname",
                global_name: None,
                avatar_url: None,
                refresh_token: None,
                token_expires_at: None,
            },
            key,
        )
        .unwrap();
    let user = storage.get_user(123, key).unwrap().unwrap();
    assert_eq!(user.username, "newname");
    assert_eq!(user.global_name, Some("Test User".to_string()));
    assert_eq!(user.avatar_url, Some("https://example.com/a.png".to_string()));

    storage
        .upsert_user(
            UserUpsertParams {
                user_id: 123,
                username: "newname",
                global_name: Some("Other Name"),
                avatar_url: None,
                refresh_token: None,
                token_expires_at: None,
            },
            key,
        )
        .unwrap();
    let user = storage.get_user(123, key).unwrap().unwrap();
    assert_eq!(user.global_name, Some("Other Name".to_string()));
    assert_eq!(user.avatar_url, Some("https://example.com/a.png".to_string()));

    storage
        .upsert_user(
            UserUpsertParams {
                user_id: 123,
                username: "newname",
                global_name: None,
                avatar_url: Some("https://example.com/b.png"),
                refresh_token: None,
                token_expires_at: None,
            },
            key,
        )
        .unwrap();
    let user = storage.get_user(123, key).unwrap().unwrap();
    assert_eq!(user.global_name, Some("Other Name".to_string()));
    assert_eq!(user.avatar_url, Some("https://example.com/b.png".to_string()));
}

#[test]
fn test_upsert_with_tokens_overwrites_both() {
    let mut storage = MemoryStorage::new();
    storage.upsert_user_at(&params("nine", Some("t1"), Some(at(500))), at(100));
    storage.upsert_user_at(&params("nine", Some("t2"), Some(at(700))), at(200));
    let user = storage.find_user(9).unwrap();
    assert_eq!(user.refresh_token, Some("t2".to_string()));
    assert_eq!(user.token_expires_at, Some(at(700)));

    storage.upsert_user_at(&params("nine", Some("t3"), None), at(300));
    let user = storage.find_user(9).unwrap();
    assert_eq!(user.refresh_token, Some("t3".to_string()));
    assert_eq!(user.token_expires_at, Some(at(700)));

    storage.upsert_user_at(&params("nine", None, Some(at(800))), at(400));
    let user = storage.find_user(9).unwrap();
    assert_eq!(user.refresh_token, Some("t3".to_string()));
    assert_eq!(user.token_expires_at, Some(at(800)));
}

#[test]
fn test_merge_user_is_the_upsert() {
    let created = merge_user(None, &params("nine", Some("t1"), Some(at(500))), at(100));
    assert_eq!(created.subscription_tier, SubscriptionTier::Free);
    assert_eq!(created.created_at, at(100));
    let mut renamed = params("ten", None, None);
    renamed.global_name = None;
    renamed.avatar_url = None;
    let merged = merge_user(Some(&created), &renamed, at(200));
    assert_eq!(merged.username, "ten");
    assert_eq!(merged.global_name, Some("Global".to_string()));
    assert_eq!(merged.avatar_url, Some("https://example.com/a.png".to_string()));
    assert_eq!(merged.refresh_token, Some("t1".to_string()));
    assert_eq!(merged.token_expires_at, Some(at(500)));
    assert_eq!(merged.created_at, at(100));
    assert_eq!(merged.updated_at, at(200));
}

#[test]
fn test_token_update_touches_only_an_existing_user() {
    let mut storage = MemoryStorage::new();
    storage.update_refresh_token_at(9, "t9", at(500), at(100));
    assert_eq!(storage.user_count(), 0);
    storage.update_refresh_token(9, "t9", at(500), "unused").unwrap();
    assert_eq!(storage.user_count(), 0);

    storage.upsert_user_at(&params("nine", None, None), at(100));
    storage.update_refresh_token_at(9, "t9", at(500), at(200));
    let user = storage.find_user(9).unwrap();
    assert_eq!(user.refresh_token, Some("t9".to_string()));
    assert_eq!(user.token_expires_at, Some(at(500)));
    assert_eq!(user.updated_at, at(200));
    assert_eq!(user.username, "nine");
}

#[test]
fn test_clearing_tokens_is_idempotent() {
    let mut storage = MemoryStorage::new();
    storage.clear_user_tokens_at(9, at(100));
    assert_eq!(storage.user_count(), 0);
    storage.upsert_user_at(&params("nine", Some("t1"), Some(at(500))), at(100));
    storage.clear_user_tokens_at(9, at(200));
    let once = storage.find_user(9).unwrap();
    assert_eq!(once.refresh_token, None);
    assert_eq!(once.token_expires_at, None);
    storage.clear_user_tokens_at(9, at(200));
    let twice = storage.find_user(9).unwrap();
    assert_eq!(twice.refresh_token, None);
    assert_eq!(twice.token_expires_at, None);
    assert_eq!(twice.updated_at, once.updated_at);
    assert_eq!(twice.username, "nine");
}

#[test]
fn test_subscription_changes_as_one() {
    let mut storage = MemoryStorage::new();
    storage.update_subscription_at(
        9,
        SubscriptionTier::Premium,
        SubscriptionSource::Discord,
        None,
        at(100),
    );
    assert_eq!(storage.user_count(), 0);
    storage.upsert_user_at(&params("nine", Some("t1"), Some(at(500))), at(100));
    storage.update_subscription_at(
        9,
        SubscriptionTier::Premium,
        SubscriptionSource::Discord,
        Some(at(900)),
        at(200),
    );
    storage.update_subscription_at(
        9,
        SubscriptionTier::Free,
        SubscriptionSource::External,
        None,
        at(300),
    );
    let user = storage.find_user(9).unwrap();
    assert_eq!(user.subscription_tier, SubscriptionTier::Free);
    assert_eq!(user.subscription_source, Some(SubscriptionSource::External));
    assert_eq!(user.subscription_expires_at, None);
    assert_eq!(user.refresh_token, Some("t1".to_string()));
    assert_eq!(user.updated_at, at(300));
}

#[test]
fn test_stored_entitlement_only_refreshes_consumed_and_end() {
    let first = entitlement(1);
    assert_eq!(merge_entitlement(None, first), first);
    let mut again = entitlement(1);
    again.user_id = 999;
    again.sku_id = 888;
    again.entitlement_type = 2;
    again.is_test = true;
    again.consumed = true;
    again.starts_at = Some(at(5));
    again.ends_at = Some(at(50));
    let merged = merge_entitlement(Some(&first), again);
    let mut expected = first;
    expected.consumed = true;
    expected.ends_at = Some(at(50));
    assert_eq!(merged, expected);

    let mut storage = MemoryStorage::new();
    storage.upsert_entitlement(first).unwrap();
    storage.upsert_entitlement(again).unwrap();
    storage.upsert_entitlement(entitlement(2)).unwrap();
    assert_eq!(storage.entitlement_count(), 2);
    storage.clear();
    assert_eq!(storage.entitlement_count(), 0);
}
