use discord_oauth_template::auth::{validate_token_at, AuthenticatedUser};
use discord_oauth_template::config::{Config, DiscordConfig, SecurityConfig, ServerConfig};
use discord_oauth_template::error::{storage_error, Error};
use discord_oauth_template::models::UserUpsertParams;
use discord_oauth_template::provider::{
    DiscordTokenResponse, DiscordUser, HttpRequest, ProviderCall, ProviderReply,
};
use discord_oauth_template::reconcile::DiscordEntitlementResponse;
use discord_oauth_template::routes::auth::{
    perform, status_of, Action, CodeExchangeRequest, Event, FlowState, Reply,
};
use discord_oauth_template::routes::{
    exchange_code, get_current_user, logout, refresh_token, revoke_token,
};
use discord_oauth_template::{
    MemoryStorage, SubscriptionSource, SubscriptionTier, Timestamp, UserStorage,
};

const NOW: Timestamp = Timestamp { secs: 1_700_000_000, nanos: 0 };
const DAY: i64 = 86_400;

fn config(premium_sku_id: Option<i64>) -> Config {
    Config {
        discord: DiscordConfig {
            client_id: "client-1".to_string(),
            client_secret: "secret-1".to_string(),
            redirect_uri: "https://example.com/cb".to_string(),
            bot_token: "bot-1".to_string(),
            premium_sku_id,
        },
        security: SecurityConfig {
            jwt_secret: "jwt-secret".to_string(),
            encryption_key: "unused".to_string(),
        },
        server: ServerConfig::default(),
    }
}

fn tokens() -> DiscordTokenResponse {
    DiscordTokenResponse {
        access_token: "access-1".to_string(),
        token_type: "Bearer".to_string(),
        expires_in: 604_800,
        refresh_token: "refresh-1".to_string(),
        scope: "identify".to_string(),
    }
}

fn discord_user(id: &str) -> DiscordUser {
    DiscordUser {
        id: id.to_string(),
        username: "alice".to_string(),
        avatar: Some("a_hash".to_string()),
        global_name: Some("Alice".to_string()),
        discriminator: Some("0".to_string()),
    }
}

fn entitlement(id: &str, sku: &str, ends_at: Option<Timestamp>) -> DiscordEntitlementResponse {
    DiscordEntitlementResponse {
        id: id.to_string(),
        sku_id: sku.to_string(),
        user_id: None,
        entitlement_type: 8,
        deleted: false,
        starts_at: None,
        ends_at,
        consumed: false,
    }
}

fn alice() -> AuthenticatedUser {
    AuthenticatedUser { user_id: 42, username: "alice".to_string() }
}

fn store_alice(storage: &mut MemoryStorage, refresh_token: Option<&str>) {
    let params = UserUpsertParams {
        user_id: 42,
        username: "alice",
        global_name: Some("Alice"),
        avatar_url: Some("https://example.com/a.png"),
        refresh_token,
        token_expires_at: None,
    };
    storage.upsert_user(params, "unused").unwrap();
}

/// What Discord answers to each call in a run.
struct Discord {
    token: fn() -> ProviderReply<DiscordTokenResponse>,
    user: fn() -> ProviderReply<DiscordUser>,
    entitlements: fn() -> ProviderReply<Vec<DiscordEntitlementResponse>>,
    revoke: fn() -> ProviderReply<()>,
    calls: Vec<ProviderCall>,
}

impl Discord {
    fn working() -> Discord {
        Discord {
            token: || ProviderReply::Success(tokens()),
            user: || ProviderReply::Success(discord_user("42")),
            entitlements: || {
                ProviderReply::Success(vec![
                    entitlement("1", "777", Some(Timestamp { secs: NOW.secs + 30 * DAY, nanos: 0 })),
                    entitlement("2", "999", Some(Timestamp { secs: NOW.secs - DAY, nanos: 0 })),
                ])
            },
            revoke: || ProviderReply::Success(()),
            calls: Vec::new(),
        }
    }

    fn answer(&mut self, request: &HttpRequest) -> Event {
        self.calls.push(request.call);
        match request.call {
            ProviderCall::ExchangeCode | ProviderCall::RefreshToken => Event::Token((self.token)()),
            ProviderCall::FetchUserInfo => Event::UserInfo((self.user)()),
            ProviderCall::FetchEntitlements => Event::Entitlements((self.entitlements)()),
            ProviderCall::RevokeToken => Event::Revoked((self.revoke)()),
        }
    }
}

/// Performs what a flow asks for, until it responds.
fn run(
    step: &dyn Fn(FlowState, Event) -> (FlowState, Action),
    first: Event,
    storage: &mut MemoryStorage,
    discord: &mut Discord,
) -> Result<Reply, Error> {
    let mut state = FlowState::Start;
    let mut event = first;
    loop {
        let (next, action) = step(state, event);
        state = next;
        event = match action {
            Action::Call(request) => discord.answer(&request),
            Action::Respond(response) => {
                assert!(matches!(state, FlowState::Done));
                return response;
            }
            operation => perform(storage, &operation, "unused").expect("an operation"),
        };
    }
}

fn run_exchange(
    config: &Config,
    storage: &mut MemoryStorage,
    discord: &mut Discord,
) -> Result<Reply, Error> {
    let first = Event::ExchangeRequested(CodeExchangeRequest { code: "code-1".to_string() });
    run(&|s, e| exchange_code(config, s, e, NOW), first, storage, discord)
}

fn session_of(reply: Result<Reply, Error>) -> (String, Option<String>) {
    match reply {
        Ok(Reply::Token(t)) => (t.access_token, t.discord_access_token),
        other => panic!("{:?}", other),
    }
}

#[test]
fn test_exchange_signs_in_and_promotes() {
    let config = config(Some(777));
    let mut storage = MemoryStorage::new();
    let mut discord = Discord::working();
    let response = run_exchange(&config, &mut storage, &mut discord);
    assert_eq!(status_of(&response), 200);
    let (session, discord_token) = session_of(response);
    assert_eq!(discord_token, Some("access-1".to_string()));
    let user = validate_token_at(&session, "jwt-secret", NOW).unwrap();
    assert_eq!((user.user_id, user.username.as_str()), (42, "alice"));
    assert_eq!(
        discord.calls,
        vec![
            ProviderCall::ExchangeCode,
            ProviderCall::FetchUserInfo,
            ProviderCall::FetchEntitlements
        ]
    );

    let stored = storage.find_user(42).unwrap();
    assert_eq!(stored.username, "alice");
    assert_eq!(stored.global_name, Some("Alice".to_string()));
    assert_eq!(
        stored.avatar_url,
        Some("https://cdn.discordapp.com/avatars/42/a_hash.gif?size=1024".to_string())
    );
    assert_eq!(stored.refresh_token, Some("refresh-1".to_string()));
    assert_eq!(stored.token_expires_at, Some(Timestamp { secs: NOW.secs + 604_800, nanos: 0 }));
    assert_eq!(stored.subscription_tier, SubscriptionTier::Premium);
    assert_eq!(stored.subscription_source, Some(SubscriptionSource::Discord));
    assert_eq!(
        stored.subscription_expires_at,
        Some(Timestamp { secs: NOW.secs + 30 * DAY, nanos: 0 })
    );
    assert_eq!(storage.entitlement_count(), 2);
}

#[test]
fn test_exchange_without_premium_sku_lists_no_entitlements() {
    let config = config(None);
    let mut storage = MemoryStorage::new();
    let mut discord = Discord::working();
    let (session, _) = session_of(run_exchange(&config, &mut storage, &mut discord));
    assert!(validate_token_at(&session, "jwt-secret", NOW).is_ok());
    assert_eq!(discord.calls, vec![ProviderCall::ExchangeCode, ProviderCall::FetchUserInfo]);
    assert_eq!(storage.entitlement_count(), 0);
    assert_eq!(storage.find_user(42).unwrap().subscription_tier, SubscriptionTier::Free);
}

#[test]
fn test_exchange_goes_on_when_entitlements_cannot_be_listed() {
    let config = config(Some(777));
    for failure in [
        (|| ProviderReply::Rejected { status: 500 }) as fn() -> ProviderReply<_>,
        || ProviderReply::Unreachable("timeout".to_string()),
        || ProviderReply::Malformed("no json".to_string()),
    ] {
        let mut storage = MemoryStorage::new();
        let mut discord = Discord::working();
        discord.entitlements = failure;
        let (session, _) = session_of(run_exchange(&config, &mut storage, &mut discord));
        assert!(validate_token_at(&session, "jwt-secret", NOW).is_ok());
        assert_eq!(storage.find_user(42).unwrap().subscription_tier, SubscriptionTier::Free);
    }
}

#[test]
fn test_exchange_keeps_premium_when_nothing_grants_it() {
    let config = config(Some(777));
    let mut storage = MemoryStorage::new();
    let mut discord = Discord::working();
    run_exchange(&config, &mut storage, &mut discord).unwrap();
    discord.entitlements = || ProviderReply::Success(vec![]);
    run_exchange(&config, &mut storage, &mut discord).unwrap();
    let stored = storage.find_user(42).unwrap();
    assert_eq!(stored.subscription_tier, SubscriptionTier::Premium);
    assert_eq!(
        stored.subscription_expires_at,
        Some(Timestamp { secs: NOW.secs + 30 * DAY, nanos: 0 })
    );
}

#[test]
fn test_exchange_fails_with_discord() {
    let config = config(Some(777));
    let mut storage = MemoryStorage::new();
    let mut discord = Discord::working();
    discord.token = || ProviderReply::Rejected { status: 400 };
    let response = run_exchange(&config, &mut storage, &mut discord);
    assert_eq!(status_of(&response), 502);
    match response {
        Err(Error::DiscordApi(message)) => {
            assert_eq!(message, "Discord token exchange failed with status 400")
        }
        other => panic!("{:?}", other),
    }
    assert_eq!(discord.calls, vec![ProviderCall::ExchangeCode]);
    assert_eq!(storage.user_count(), 0);

    let mut discord = Discord::working();
    discord.user = || ProviderReply::Rejected { status: 401 };
    match run_exchange(&config, &mut storage, &mut discord) {
        Err(Error::DiscordApi(message)) => {
            assert_eq!(message, "Failed to fetch Discord user info with status 401")
        }
        other => panic!("{:?}", other),
    }
    assert_eq!(storage.user_count(), 0);
}

#[test]
fn test_exchange_rejects_malformed_answers() {
    let config = config(Some(777));
    let mut storage = MemoryStorage::new();
    let mut discord = Discord::working();
    discord.user = || ProviderReply::Success(discord_user("forty-two"));
    match run_exchange(&config, &mut storage, &mut discord) {
        Err(Error::DiscordApi(message)) => assert_eq!(message, "invalid user id"),
        other => panic!("{:?}", other),
    }
    let mut discord = Discord::working();
    discord.token = || {
        let mut t = tokens();
        t.expires_in = i64::MAX;
        ProviderReply::Success(t)
    };
    match run_exchange(&config, &mut storage, &mut discord) {
        Err(Error::DiscordApi(message)) => assert_eq!(message, "invalid token lifetime"),
        other => panic!("{:?}", other),
    }
    assert_eq!(storage.user_count(), 0);
}

#[test]
fn test_exchange_stops_when_the_user_cannot_be_stored() {
    let config = config(Some(777));
    let first = Event::ExchangeRequested(CodeExchangeRequest { code: "code-1".to_string() });
    let (state, action) = exchange_code(&config, FlowState::Start, first, NOW);
    assert!(matches!(action, Action::Call(_)));
    let (state, _) = exchange_code(&config, state, Event::Token(ProviderReply::Success(tokens())), NOW);
    let (state, action) = exchange_code(
        &config,
        state,
        Event::UserInfo(ProviderReply::Success(discord_user("42"))),
        NOW,
    );
    assert!(matches!(action, Action::UpsertUser(_)));
    let (state, action) =
        exchange_code(&config, state, Event::Stored(Err(Error::Storage(storage_error("down")))), NOW);
    assert!(matches!(state, FlowState::Done));
    match action {
        Action::Respond(response) => {
            assert_eq!(status_of(&response), 500);
            assert!(matches!(response, Err(Error::Storage(_))));
        }
        other => panic!("{:?}", other),
    }
}

#[test]
fn test_events_out_of_turn_end_a_flow() {
    let config = config(Some(777));
    let (state, action) = exchange_code(&config, FlowState::Start, Event::Stored(Ok(())), NOW);
    assert!(matches!(state, FlowState::Done));
    match action {
        Action::Respond(Err(Error::InvalidRequest(message))) => {
            assert_eq!(message, "unexpected event")
        }
        other => panic!("{:?}", other),
    }
    let (_, action) = refresh_token(&config, FlowState::Done, Event::Requested(alice()), NOW);
    assert!(matches!(action, Action::Respond(Err(Error::InvalidRequest(_)))));
    let (_, action) = revoke_token(&config, FlowState::Clearing, Event::Requested(alice()));
    assert!(matches!(action, Action::Respond(Err(Error::InvalidRequest(_)))));
    let (_, action) = logout(FlowState::AwaitingToken, Event::Stored(Ok(())));
    assert!(matches!(action, Action::Respond(Err(Error::InvalidRequest(_)))));
    let (_, action) = get_current_user(FlowState::Start, Event::Stored(Ok(())), NOW);
    match action {
        Action::Respond(response) => assert_eq!(status_of(&response), 400),
        other => panic!("{:?}", other),
    }
}

#[test]
fn test_refresh_stores_the_new_token() {
    let config = config(Some(777));
    let mut storage = MemoryStorage::new();
    store_alice(&mut storage, Some("refresh-0"));
    let mut discord = Discord::working();
    let response = run(
        &|s, e| refresh_token(&config, s, e, NOW),
        Event::Requested(alice()),
        &mut storage,
        &mut discord,
    );
    let (session, discord_token) = session_of(response);
    assert_eq!(discord_token, Some("access-1".to_string()));
    assert_eq!(validate_token_at(&session, "jwt-secret", NOW).unwrap().user_id, 42);
    assert_eq!(discord.calls, vec![ProviderCall::RefreshToken]);
    let stored = storage.find_user(42).unwrap();
    assert_eq!(stored.refresh_token, Some("refresh-1".to_string()));
    assert_eq!(stored.token_expires_at, Some(Timestamp { secs: NOW.secs + 604_800, nanos: 0 }));
}

#[test]
fn test_refresh_sends_the_stored_token() {
    let config = config(None);
    let stored = {
        let mut storage = MemoryStorage::new();
        store_alice(&mut storage, Some("refresh-0"));
        storage.find_user(42)
    };
    let (state, _) = refresh_token(&config, FlowState::Start, Event::Requested(alice()), NOW);
    let (_, action) = refresh_token(&config, state, Event::Loaded(Ok(stored)), NOW);
    match action {
        Action::Call(request) => {
            assert_eq!(request.call, ProviderCall::RefreshToken);
            assert_eq!(request.form[1], ("refresh_token".to_string(), "refresh-0".to_string()));
        }
        other => panic!("{:?}", other),
    }
}

#[test]
fn test_refresh_needs_a_user_with_a_token() {
    let config = config(Some(777));
    let mut storage = MemoryStorage::new();
    let mut discord = Discord::working();
    let refresh = |storage: &mut MemoryStorage, discord: &mut Discord| {
        run(&|s, e| refresh_token(&config, s, e, NOW), Event::Requested(alice()), storage, discord)
    };
    let response = refresh(&mut storage, &mut discord);
    assert_eq!(status_of(&response), 404);
    assert!(matches!(response, Err(Error::UserNotFound(42))));

    store_alice(&mut storage, None);
    let response = refresh(&mut storage, &mut discord);
    assert_eq!(status_of(&response), 401);
    match response {
        Err(Error::AuthFailed(message)) => assert_eq!(message, "no refresh token stored"),
        other => panic!("{:?}", other),
    }
    assert!(discord.calls.is_empty());
}

#[test]
fn test_refresh_rejected_by_discord_is_an_authentication_failure() {
    let config = config(Some(777));
    let mut storage = MemoryStorage::new();
    store_alice(&mut storage, Some("refresh-0"));
    let mut discord = Discord::working();
    discord.token = || ProviderReply::Rejected { status: 400 };
    let response = run(
        &|s, e| refresh_token(&config, s, e, NOW),
        Event::Requested(alice()),
        &mut storage,
        &mut discord,
    );
    assert_eq!(status_of(&response), 401);
    match response {
        Err(Error::AuthFailed(message)) => {
            assert_eq!(message, "Discord token refresh failed with status 400")
        }
        other => panic!("{:?}", other),
    }
    assert_eq!(storage.find_user(42).unwrap().refresh_token, Some("refresh-0".to_string()));

    discord.token = || ProviderReply::Unreachable("timeout".to_string());
    let response = run(
        &|s, e| refresh_token(&config, s, e, NOW),
        Event::Requested(alice()),
        &mut storage,
        &mut discord,
    );
    assert_eq!(status_of(&response), 502);
}

#[test]
fn test_revoke_succeeds_even_when_discord_fails() {
    let config = config(Some(777));
    for reply in [
        (|| ProviderReply::Success(())) as fn() -> ProviderReply<()>,
        || ProviderReply::Rejected { status: 500 },
        || ProviderReply::Unreachable("timeout".to_string()),
        || ProviderReply::Malformed("no json".to_string()),
    ] {
        let mut storage = MemoryStorage::new();
        store_alice(&mut storage, Some("refresh-0"));
        let mut discord = Discord::working();
        discord.revoke = reply;
        let response = run(
            &|s, e| revoke_token(&config, s, e),
            Event::Requested(alice()),
            &mut storage,
            &mut discord,
        );
        assert_eq!(status_of(&response), 204);
        assert!(matches!(response, Ok(Reply::NoContent)));
        assert_eq!(discord.calls, vec![ProviderCall::RevokeToken]);
        let stored = storage.find_user(42).unwrap();
        assert_eq!(stored.refresh_token, None);
        assert_eq!(stored.token_expires_at, None);
    }
}

#[test]
fn test_revoke_without_a_token_only_clears() {
    let config = config(Some(777));
    let mut storage = MemoryStorage::new();
    let mut discord = Discord::working();
    let response = run(
        &|s, e| revoke_token(&config, s, e),
        Event::Requested(alice()),
        &mut storage,
        &mut discord,
    );
    assert!(matches!(response, Ok(Reply::NoContent)));
    store_alice(&mut storage, None);
    let response = run(
        &|s, e| revoke_token(&config, s, e),
        Event::Requested(alice()),
        &mut storage,
        &mut discord,
    );
    assert!(matches!(response, Ok(Reply::NoContent)));
    assert!(discord.calls.is_empty());
}

#[test]
fn test_revoke_fails_only_with_the_storage() {
    let config = config(Some(777));
    let (state, _) = revoke_token(&config, FlowState::Start, Event::Requested(alice()));
    let (state, action) =
        revoke_token(&config, state, Event::Loaded(Err(Error::Storage(storage_error("down")))));
    assert!(matches!(state, FlowState::Done));
    assert!(matches!(action, Action::Respond(Err(Error::Storage(_)))));

    let (state, action) = revoke_token(
        &config,
        FlowState::Revoking { user_id: 42 },
        Event::Revoked(ProviderReply::Rejected { status: 503 }),
    );
    assert!(matches!(action, Action::ClearUserTokens { user_id: 42 }));
    let (_, action) =
        revoke_token(&config, state, Event::Stored(Err(Error::Storage(storage_error("down")))));
    match action {
        Action::Respond(response) => assert_eq!(status_of(&response), 500),
        other => panic!("{:?}", other),
    }
}

#[test]
fn test_logout_clears_tokens_without_discord() {
    let mut storage = MemoryStorage::new();
    store_alice(&mut storage, Some("refresh-0"));
    let mut discord = Discord::working();
    let response =
        run(&|s, e| logout(s, e), Event::Requested(alice()), &mut storage, &mut discord);
    assert_eq!(status_of(&response), 204);
    assert!(discord.calls.is_empty());
    assert_eq!(storage.find_user(42).unwrap().refresh_token, None);
    let response =
        run(&|s, e| logout(s, e), Event::Requested(alice()), &mut storage, &mut discord);
    assert_eq!(status_of(&response), 204);
}

#[test]
fn test_current_user_shows_no_token() {
    let mut storage = MemoryStorage::new();
    let mut discord = Discord::working();
    let me = |storage: &mut MemoryStorage, discord: &mut Discord, now: Timestamp| {
        run(&|s, e| get_current_user(s, e, now), Event::Requested(alice()), storage, discord)
    };
    let response = me(&mut storage, &mut discord, NOW);
    assert_eq!(status_of(&response), 404);
    assert!(matches!(response, Err(Error::UserNotFound(42))));

    store_alice(&mut storage, Some("refresh-0"));
    let end = Timestamp { secs: NOW.secs + DAY, nanos: 0 };
    storage
        .update_subscription(42, SubscriptionTier::Premium, SubscriptionSource::Manual, Some(end))
        .unwrap();
    let response = me(&mut storage, &mut discord, NOW);
    assert_eq!(status_of(&response), 200);
    match response {
        Ok(Reply::User(user)) => {
            assert_eq!(user.user_id, 42);
            assert_eq!(user.username, "alice");
            assert_eq!(user.global_name, Some("Alice".to_string()));
            assert_eq!(user.avatar_url, Some("https://example.com/a.png".to_string()));
            assert_eq!(user.subscription_tier, SubscriptionTier::Premium);
            assert!(user.is_premium);
            assert!(!format!("{:?}", user).contains("refresh-0"));
        }
        other => panic!("{:?}", other),
    }
    match me(&mut storage, &mut discord, end) {
        Ok(Reply::User(user)) => {
            assert_eq!(user.subscription_tier, SubscriptionTier::Premium);
            assert!(!user.is_premium);
        }
        other => panic!("{:?}", other),
    }
    assert!(discord.calls.is_empty());
}

#[test]
fn test_perform_leaves_calls_and_responses_alone() {
    let mut storage = MemoryStorage::new();
    let request = discord_oauth_template::provider::get_discord_user_info("access-1");
    assert!(perform(&mut storage, &Action::Call(request), "unused").is_none());
    assert!(perform(&mut storage, &Action::Respond(Ok(Reply::NoContent)), "unused").is_none());
    assert_eq!(storage.user_count(), 0);
    let loaded = perform(&mut storage, &Action::GetUser { user_id: 42 }, "unused");
    assert!(matches!(loaded, Some(Event::Loaded(Ok(None)))));
    store_alice(&mut storage, Some("refresh-0"));
    let cleared = perform(&mut storage, &Action::ClearUserTokens { user_id: 42 }, "unused");
    assert!(matches!(cleared, Some(Event::Stored(Ok(())))));
    assert_eq!(storage.find_user(42).unwrap().refresh_token, None);
}

#[test]
fn test_user_ids_beyond_i64_wrap_around() {
    let config = config(None);
    let mut storage = MemoryStorage::new();
    let mut discord = Discord::working();
    discord.user = || ProviderReply::Success(discord_user("18446744073709551615"));
    let (session, _) = session_of(run_exchange(&config, &mut storage, &mut discord));
    assert_eq!(validate_token_at(&session, "jwt-secret", NOW).unwrap().user_id, -1);
    assert!(storage.find_user(-1).is_some());
    discord.user = || ProviderReply::Success(discord_user("9223372036854775808"));
    run_exchange(&config, &mut storage, &mut discord).unwrap();
    assert!(storage.find_user(i64::MIN).is_some());
    discord.user = || ProviderReply::Success(discord_user("18446744073709551616"));
    assert!(matches!(
        run_exchange(&config, &mut storage, &mut discord),
        Err(Error::DiscordApi(_))
    ));
    discord.user = || ProviderReply::Success(discord_user("-1"));
    assert!(matches!(
        run_exchange(&config, &mut storage, &mut discord),
        Err(Error::DiscordApi(_))
    ));
}

#[test]
fn test_token_that_cannot_be_issued_is_an_internal_error() {
    let config = config(None);
    let late = Timestamp { secs: i64::MAX - 10, nanos: 0 };
    let (state, action) = exchange_code(
        &config,
        FlowState::AwaitingUpsert {
            user_id: 42,
            username: "alice".to_string(),
            access_token: "access-1".to_string(),
        },
        Event::Stored(Ok(())),
        late,
    );
    assert!(matches!(state, FlowState::Done));
    match action {
        Action::Respond(response) => {
            assert_eq!(status_of(&response), 500);
            match response {
                Err(Error::Internal(reason)) => {
                    assert_eq!(reason, "JWT error: expiry out of range")
                }
                other => panic!("{:?}", other),
            }
        }
        other => panic!("{:?}", other),
    }
    let (_, action) = refresh_token(
        &config,
        FlowState::StoringToken { user: alice(), access_token: "access-1".to_string() },
        Event::Stored(Ok(())),
        late,
    );
    match action {
        Action::Respond(response) => {
            assert_eq!(status_of(&response), 500);
            assert!(matches!(response, Err(Error::Internal(_))));
        }
        other => panic!("{:?}", other),
    }
}

#[test]
fn test_sign_in_keeps_a_display_name_that_discord_no_longer_reports() {
    let config = config(None);
    let mut storage = MemoryStorage::new();
    let mut discord = Discord::working();
    run_exchange(&config, &mut storage, &mut discord).unwrap();
    assert_eq!(storage.find_user(42).unwrap().global_name, Some("Alice".to_string()));
    discord.user = || {
        let mut user = discord_user("42");
        user.username = "alice2".to_string();
        user.global_name = None;
        ProviderReply::Success(user)
    };
    run_exchange(&config, &mut storage, &mut discord).unwrap();
    let stored = storage.find_user(42).unwrap();
    assert_eq!(stored.username, "alice2");
    assert_eq!(stored.global_name, Some("Alice".to_string()));
}
