//! The authentication flows: code exchange, token refresh, revocation,
//! logout and "who am I".
//!
//! A flow does no I/O. It is a state; each step takes what happened last
//! and hands out what to do next: a call to Discord, an operation of the
//! storage, or the response that ends the flow.

use vstd::prelude::*;

use crate::auth::{
    generate_token_at, generated, validated, AuthenticatedUser, AuthenticatedUserView,
};
use crate::config::Config;
use crate::error::{Error, ErrorView};
use crate::models::subscription::{SubscriptionSource, SubscriptionTier};
use crate::models::user::{
    clone_opt_string, opt_text, EntitlementUpsertParams, User, UserUpsertParams, UserUpsertView,
};
use crate::provider::{
    avatar_url, build_avatar_url, entitlements_of, entitlements_request, exchange_code_request,
    exchange_code_with_discord, fetch_user_entitlements, get_discord_user_info,
    refresh_discord_token, refresh_token_request, reply_body, reply_entitlements, reply_failure,
    revoke_discord_token, revoke_token_request, user_info_request, DiscordTokenResponse,
    DiscordUser, HttpRequest, HttpRequestView, ProviderReply,
};
use crate::reconcile::{
    begin_spec, outcome_view, step_spec, DiscordEntitlementResponse, ReconcileAction,
    ReconcileActionView, Reconciliation, ReconciliationView,
};
use crate::text::{parse_u64, u64_of};
use crate::storage::{
    entitlements_after_upsert, lookup, opt_user_view, users_after_subscription_update,
    users_after_token_clear, users_after_token_update, users_after_upsert, Storage,
};
use crate::time::Timestamp;

verus! {

/// The body of a request to exchange an authorization code.
#[derive(Debug)]
pub struct CodeExchangeRequest {
    /// The authorization code; it can be used once.
    pub code: String,
}

/// The body of the response to an exchange or a refresh.
#[derive(Debug)]
pub struct TokenResponse {
    /// The session token.
    pub access_token: String,
    /// Discord's access token, for the Discord SDK on the client.
    pub discord_access_token: Option<String>,
}

/// What a `TokenResponse` holds, as plain values.
pub ghost struct TokenResponseView {
    pub access_token: Seq<char>,
    pub discord_access_token: Option<Seq<char>>,
}

impl View for TokenResponse {
    type V = TokenResponseView;

    open spec fn view(&self) -> TokenResponseView {
        TokenResponseView {
            access_token: self.access_token@,
            discord_access_token: opt_text(self.discord_access_token),
        }
    }
}

/// The body of the response to "who am I". It never holds a refresh token.
#[derive(Debug)]
pub struct UserResponse {
    pub user_id: i64,
    pub username: String,
    pub global_name: Option<String>,
    pub avatar_url: Option<String>,
    pub subscription_tier: SubscriptionTier,
    pub is_premium: bool,
}

/// What a `UserResponse` holds, as plain values.
pub ghost struct UserResponseView {
    pub user_id: i64,
    pub username: Seq<char>,
    pub global_name: Option<Seq<char>>,
    pub avatar_url: Option<Seq<char>>,
    pub subscription_tier: SubscriptionTier,
    pub is_premium: bool,
}

impl View for UserResponse {
    type V = UserResponseView;

    open spec fn view(&self) -> UserResponseView {
        UserResponseView {
            user_id: self.user_id,
            username: self.username@,
            global_name: opt_text(self.global_name),
            avatar_url: opt_text(self.avatar_url),
            subscription_tier: self.subscription_tier,
            is_premium: self.is_premium,
        }
    }
}

/// What a flow answers where it succeeds.
#[derive(Debug)]
pub enum Reply {
    /// A session token.
    Token(TokenResponse),
    /// Nothing.
    NoContent,
    /// The user.
    User(UserResponse),
}

/// What a `Reply` holds, as plain values.
pub ghost enum ReplyView {
    Token(TokenResponseView),
    NoContent,
    User(UserResponseView),
}

impl View for Reply {
    type V = ReplyView;

    open spec fn view(&self) -> ReplyView {
        match self {
            Reply::Token(t) => ReplyView::Token(t@),
            Reply::NoContent => ReplyView::NoContent,
            Reply::User(u) => ReplyView::User(u@),
        }
    }
}

/// The parameters of an upsert of a user, owning their strings.
#[derive(Debug)]
pub struct UserUpsert {
    pub user_id: i64,
    pub username: String,
    pub global_name: Option<String>,
    pub avatar_url: Option<String>,
    pub refresh_token: Option<String>,
    pub token_expires_at: Option<Timestamp>,
}

impl View for UserUpsert {
    type V = UserUpsertView;

    open spec fn view(&self) -> UserUpsertView {
        UserUpsertView {
            user_id: self.user_id,
            username: self.username@,
            global_name: opt_text(self.global_name),
            avatar_url: opt_text(self.avatar_url),
            refresh_token: opt_text(self.refresh_token),
            token_expires_at: self.token_expires_at,
        }
    }
}

fn borrow_opt(s: &Option<String>) -> (r: Option<&str>)
    ensures
        crate::models::user::opt_str_text(r) == opt_text(*s),
{
    match s {
        Some(t) => Some(t.as_str()),
        None => None,
    }
}

impl UserUpsert {
    /// The parameters in the form that the storage takes.
    pub fn as_params(&self) -> (params: UserUpsertParams<'_>)
        ensures
            params@ == self@,
    {
        UserUpsertParams {
            user_id: self.user_id,
            username: self.username.as_str(),
            global_name: borrow_opt(&self.global_name),
            avatar_url: borrow_opt(&self.avatar_url),
            refresh_token: borrow_opt(&self.refresh_token),
            token_expires_at: self.token_expires_at,
        }
    }
}

/// What a flow asks its caller to do.
#[derive(Debug)]
pub enum Action {
    /// Send the request to Discord and report the reply.
    Call(HttpRequest),
    /// Load the user from the storage and report what was found.
    GetUser { user_id: i64 },
    /// Upsert the user and report how it went.
    UpsertUser(UserUpsert),
    /// Replace the user's refresh token and report how it went.
    UpdateRefreshToken { user_id: i64, refresh_token: String, token_expires_at: Timestamp },
    /// Clear the user's tokens and report how it went.
    ClearUserTokens { user_id: i64 },
    /// Upsert the entitlement and report how it went.
    UpsertEntitlement(EntitlementUpsertParams),
    /// Set the user's subscription and report how it went.
    UpdateSubscription {
        user_id: i64,
        tier: SubscriptionTier,
        source: SubscriptionSource,
        expires_at: Option<Timestamp>,
    },
    /// Answer the caller; the flow is over.
    Respond(Result<Reply, Error>),
}

/// What an `Action` holds, as plain values.
pub ghost enum ActionView {
    Call(HttpRequestView),
    GetUser { user_id: i64 },
    UpsertUser(UserUpsertView),
    UpdateRefreshToken { user_id: i64, refresh_token: Seq<char>, token_expires_at: Timestamp },
    ClearUserTokens { user_id: i64 },
    UpsertEntitlement(EntitlementUpsertParams),
    UpdateSubscription {
        user_id: i64,
        tier: SubscriptionTier,
        source: SubscriptionSource,
        expires_at: Option<Timestamp>,
    },
    Respond(Result<ReplyView, ErrorView>),
}

impl View for Action {
    type V = ActionView;

    open spec fn view(&self) -> ActionView {
        match self {
            Action::Call(request) => ActionView::Call(request@),
            Action::GetUser { user_id } => ActionView::GetUser { user_id: *user_id },
            Action::UpsertUser(params) => ActionView::UpsertUser(params@),
            Action::UpdateRefreshToken { user_id, refresh_token, token_expires_at } =>
                ActionView::UpdateRefreshToken {
                    user_id: *user_id,
                    refresh_token: refresh_token@,
                    token_expires_at: *token_expires_at,
                },
            Action::ClearUserTokens { user_id } => ActionView::ClearUserTokens { user_id: *user_id },
            Action::UpsertEntitlement(params) => ActionView::UpsertEntitlement(*params),
            Action::UpdateSubscription { user_id, tier, source, expires_at } =>
                ActionView::UpdateSubscription {
                    user_id: *user_id,
                    tier: *tier,
                    source: *source,
                    expires_at: *expires_at,
                },
            Action::Respond(Ok(reply)) => ActionView::Respond(Ok(reply@)),
            Action::Respond(Err(e)) => ActionView::Respond(Err(e@)),
        }
    }
}

/// What happened last, as a flow is told.
#[derive(Debug)]
pub enum Event {
    /// A caller asks for an authorization code to be exchanged.
    ExchangeRequested(CodeExchangeRequest),
    /// A caller who presented a valid session token asks for the flow.
    Requested(AuthenticatedUser),
    /// Discord's token endpoint replied.
    Token(ProviderReply<DiscordTokenResponse>),
    /// Discord's user-info endpoint replied.
    UserInfo(ProviderReply<DiscordUser>),
    /// Discord's entitlements endpoint replied.
    Entitlements(ProviderReply<Vec<DiscordEntitlementResponse>>),
    /// Discord's revoke endpoint replied.
    Revoked(ProviderReply<()>),
    /// The storage looked for the user.
    Loaded(Result<Option<User>, Error>),
    /// The storage performed the operation that was asked for.
    Stored(Result<(), Error>),
}

/// Where a flow stands.
#[derive(Debug)]
pub enum FlowState {
    /// Nothing has happened yet.
    Start,
    /// The authorization code is with Discord.
    AwaitingToken,
    /// The user behind the new tokens is being fetched.
    AwaitingUser { access_token: String, refresh_token: String, expires_in: i64 },
    /// The user is being upserted.
    AwaitingUpsert { user_id: i64, username: String, access_token: String },
    /// The user's entitlements are being listed.
    AwaitingEntitlements { user_id: i64, username: String, access_token: String },
    /// A reconciliation pass is under way.
    Reconciling { pass: Reconciliation, username: String, access_token: String },
    /// The user is being loaded.
    Loading { user: AuthenticatedUser },
    /// The refresh token is with Discord.
    Refreshing { user: AuthenticatedUser },
    /// The new refresh token is being stored.
    StoringToken { user: AuthenticatedUser, access_token: String },
    /// The refresh token is being revoked at Discord.
    Revoking { user_id: i64 },
    /// The user's tokens are being cleared.
    Clearing,
    /// The flow is over.
    Done,
}

/// What a `FlowState` holds, as plain values.
pub ghost enum FlowStateView {
    Start,
    AwaitingToken,
    AwaitingUser { access_token: Seq<char>, refresh_token: Seq<char>, expires_in: i64 },
    AwaitingUpsert { user_id: i64, username: Seq<char>, access_token: Seq<char> },
    AwaitingEntitlements { user_id: i64, username: Seq<char>, access_token: Seq<char> },
    Reconciling { pass: ReconciliationView, username: Seq<char>, access_token: Seq<char> },
    Loading { user: AuthenticatedUserView },
    Refreshing { user: AuthenticatedUserView },
    StoringToken { user: AuthenticatedUserView, access_token: Seq<char> },
    Revoking { user_id: i64 },
    Clearing,
    Done,
}

impl View for FlowState {
    type V = FlowStateView;

    open spec fn view(&self) -> FlowStateView {
        match self {
            FlowState::Start => FlowStateView::Start,
            FlowState::AwaitingToken => FlowStateView::AwaitingToken,
            FlowState::AwaitingUser { access_token, refresh_token, expires_in } =>
                FlowStateView::AwaitingUser {
                    access_token: access_token@,
                    refresh_token: refresh_token@,
                    expires_in: *expires_in,
                },
            FlowState::AwaitingUpsert { user_id, username, access_token } =>
                FlowStateView::AwaitingUpsert {
                    user_id: *user_id,
                    username: username@,
                    access_token: access_token@,
                },
            FlowState::AwaitingEntitlements { user_id, username, access_token } =>
                FlowStateView::AwaitingEntitlements {
                    user_id: *user_id,
                    username: username@,
                    access_token: access_token@,
                },
            FlowState::Reconciling { pass, username, access_token } => FlowStateView::Reconciling {
                pass: pass@,
                username: username@,
                access_token: access_token@,
            },
            FlowState::Loading { user } => FlowStateView::Loading { user: user@ },
            FlowState::Refreshing { user } => FlowStateView::Refreshing { user: user@ },
            FlowState::StoringToken { user, access_token } => FlowStateView::StoringToken {
                user: user@,
                access_token: access_token@,
            },
            FlowState::Revoking { user_id } => FlowStateView::Revoking { user_id: *user_id },
            FlowState::Clearing => FlowStateView::Clearing,
            FlowState::Done => FlowStateView::Done,
        }
    }
}

/// The end of a flow with an error.
pub open spec fn failed(e: ErrorView) -> (FlowStateView, ActionView) {
    (FlowStateView::Done, ActionView::Respond(Err(e)))
}

/// The end of a flow on an event that the state does not expect.
pub open spec fn unexpected() -> (FlowStateView, ActionView) {
    failed(ErrorView::InvalidRequest("unexpected event"@))
}

/// The end of an exchange or a refresh: a session token is issued for the
/// user and handed out together with Discord's access token. Where the
/// token cannot be issued the service has failed, not the caller: the flow
/// ends with an internal error that carries the text of the failure.
pub open spec fn issued(
    user_id: i64,
    username: Seq<char>,
    access_token: Seq<char>,
    secret: Seq<char>,
    now: Timestamp,
) -> (FlowStateView, ActionView) {
    (
        FlowStateView::Done,
        ActionView::Respond(
            match generated(user_id, username, secret, now) {
                Ok(token) => Ok(
                    ReplyView::Token(
                        TokenResponseView {
                            access_token: token,
                            discord_access_token: Some(access_token),
                        },
                    ),
                ),
                Err(e) => Err(ErrorView::Internal(e.text())),
            },
        ),
    )
}

/// The user for whom a flow issues the session token, once it is known.
pub open spec fn flow_user(state: FlowStateView) -> Option<AuthenticatedUserView> {
    match state {
        FlowStateView::AwaitingUpsert { user_id, username, .. } => Some(
            AuthenticatedUserView { user_id, username },
        ),
        FlowStateView::AwaitingEntitlements { user_id, username, .. } => Some(
            AuthenticatedUserView { user_id, username },
        ),
        FlowStateView::Reconciling { pass, username, .. } => Some(
            AuthenticatedUserView { user_id: pass.user_id, username },
        ),
        FlowStateView::StoringToken { user, .. } => Some(user),
        _ => None,
    }
}

/// Where the action hands out a session token, the token names `user`
/// under `secret` at `now`.
pub open spec fn names(
    action: Action,
    user: AuthenticatedUserView,
    secret: Seq<char>,
    now: Timestamp,
) -> bool {
    action matches Action::Respond(Ok(Reply::Token(t))) ==> validated(t.access_token@, secret, now)
        == Ok::<AuthenticatedUserView, ErrorView>(user)
}

fn fail(e: Error) -> (r: (FlowState, Action))
    ensures
        (r.0@, r.1@) == failed(e@),
{
    (FlowState::Done, Action::Respond(Err(e)))
}

fn reject_event() -> (r: (FlowState, Action))
    ensures
        (r.0@, r.1@) == unexpected(),
{
    fail(Error::InvalidRequest(String::from_str("unexpected event")))
}

fn issue(user_id: i64, username: &str, access_token: String, secret: &str, now: Timestamp) -> (r: (
    FlowState,
    Action,
))
    ensures
        (r.0@, r.1@) == issued(user_id, username@, access_token@, secret@, now),
        names(r.1, AuthenticatedUserView { user_id, username: username@ }, secret@, now),
{
    match generate_token_at(user_id, username, secret, now) {
        Ok(token) => (
            FlowState::Done,
            Action::Respond(
                Ok(
                    Reply::Token(
                        TokenResponse {
                            access_token: token,
                            discord_access_token: Some(access_token),
                        },
                    ),
                ),
            ),
        ),
        Err(e) => fail(Error::Internal(e.to_string())),
    }
}

/// The parameters with which a user who just signed in is upserted: names
/// and avatar from Discord, the new refresh token and its expiry.
pub open spec fn sign_in_upsert(
    user: DiscordUser,
    user_id: i64,
    refresh_token: Seq<char>,
    token_expires_at: Timestamp,
) -> UserUpsertView {
    UserUpsertView {
        user_id,
        username: user.username@,
        global_name: opt_text(user.global_name),
        avatar_url: Some(avatar_url(user@)),
        refresh_token: Some(refresh_token),
        token_expires_at: Some(token_expires_at),
    }
}

/// What an exchange does with what a reconciliation pass hands out: the
/// operations on the storage are passed on, and the end of the pass, with
/// whatever result, is the moment to issue the session token.
pub open spec fn reconciling(
    pass: ReconciliationView,
    action: ReconcileActionView,
    username: Seq<char>,
    access_token: Seq<char>,
    secret: Seq<char>,
    now: Timestamp,
) -> (FlowStateView, ActionView) {
    match action {
        ReconcileActionView::UpsertEntitlement(params) => (
            FlowStateView::Reconciling { pass, username, access_token },
            ActionView::UpsertEntitlement(params),
        ),
        ReconcileActionView::UpdateSubscription { user_id, tier, source, expires_at } => (
            FlowStateView::Reconciling { pass, username, access_token },
            ActionView::UpdateSubscription { user_id, tier, source, expires_at },
        ),
        ReconcileActionView::Finish(_) => issued(pass.user_id, username, access_token, secret, now),
    }
}

/// One step of the exchange of an authorization code. The code goes to
/// Discord; the user behind the new tokens is fetched and upserted with the
/// refresh token; where a premium SKU is configured the user's
/// entitlements are listed and reconciled; then the session token is
/// issued. A failure of Discord or of the upsert ends the flow with its
/// error; a failure while reconciling does not.
pub open spec fn exchange_spec(config: Config, state: FlowState, event: Event, now: Timestamp) -> (
    FlowStateView,
    ActionView,
) {
    match (state, event) {
        (FlowState::Start, Event::ExchangeRequested(request)) => (
            FlowStateView::AwaitingToken,
            ActionView::Call(
                exchange_code_request(
                    config.discord.client_id@,
                    config.discord.client_secret@,
                    config.discord.redirect_uri@,
                    request.code@,
                ),
            ),
        ),
        (FlowState::AwaitingToken, Event::Token(reply)) => match reply {
            ProviderReply::Success(token) => (
                FlowStateView::AwaitingUser {
                    access_token: token.access_token@,
                    refresh_token: token.refresh_token@,
                    expires_in: token.expires_in,
                },
                ActionView::Call(user_info_request(token.access_token@)),
            ),
            _ => failed(
                reply_failure(reply, "Discord token exchange failed with status "@, false)->0,
            ),
        },
        (
            FlowState::AwaitingUser { access_token, refresh_token, expires_in },
            Event::UserInfo(reply),
        ) => match reply {
            ProviderReply::Success(user) => match u64_of(user.id@) {
                None => failed(ErrorView::DiscordApi("invalid user id"@)),
                Some(id) => match now.shifted(expires_in as int) {
                    None => failed(ErrorView::DiscordApi("invalid token lifetime"@)),
                    Some(expiry) => (
                        FlowStateView::AwaitingUpsert {
                            user_id: id as i64,
                            username: user.username@,
                            access_token: access_token@,
                        },
                        ActionView::UpsertUser(
                            sign_in_upsert(user, id as i64, refresh_token@, expiry),
                        ),
                    ),
                },
            },
            _ => failed(
                reply_failure(reply, "Failed to fetch Discord user info with status "@, false)->0,
            ),
        },
        (FlowState::AwaitingUpsert { user_id, username, access_token }, Event::Stored(outcome)) =>
            match outcome {
                Err(e) => failed(e@),
                Ok(()) => if config.discord.premium_sku_id is Some {
                    (
                        FlowStateView::AwaitingEntitlements {
                            user_id,
                            username: username@,
                            access_token: access_token@,
                        },
                        ActionView::Call(
                            entitlements_request(
                                config.discord.client_id@,
                                config.discord.bot_token@,
                                user_id,
                            ),
                        ),
                    )
                } else {
                    issued(user_id, username@, access_token@, config.security.jwt_secret@, now)
                },
            },
        (
            FlowState::AwaitingEntitlements { user_id, username, access_token },
            Event::Entitlements(reply),
        ) => {
            let start = begin_spec(
                user_id,
                config.discord.premium_sku_id,
                reply_entitlements(reply),
                now,
            );
            reconciling(
                start.0,
                start.1,
                username@,
                access_token@,
                config.security.jwt_secret@,
                now,
            )
        },
        (FlowState::Reconciling { pass, username, access_token }, Event::Stored(outcome)) => {
            let next = step_spec(pass@, outcome_view(outcome));
            reconciling(next.0, next.1, username@, access_token@, config.security.jwt_secret@, now)
        },
        _ => unexpected(),
    }
}

fn reconcile_on(
    pass: Reconciliation,
    action: ReconcileAction,
    username: String,
    access_token: String,
    secret: &str,
    now: Timestamp,
) -> (r: (FlowState, Action))
    ensures
        (r.0@, r.1@) == reconciling(pass@, action@, username@, access_token@, secret@, now),
        names(
            r.1,
            AuthenticatedUserView { user_id: pass.user_id, username: username@ },
            secret@,
            now,
        ),
{
    match action {
        ReconcileAction::UpsertEntitlement(params) => (
            FlowState::Reconciling { pass, username, access_token },
            Action::UpsertEntitlement(params),
        ),
        ReconcileAction::UpdateSubscription { user_id, tier, source, expires_at } => (
            FlowState::Reconciling { pass, username, access_token },
            Action::UpdateSubscription { user_id, tier, source, expires_at },
        ),
        ReconcileAction::Finish(_) => issue(
            pass.user_id,
            username.as_str(),
            access_token,
            secret,
            now,
        ),
    }
}

/// One step of the exchange of an authorization code for a session. The
/// session token that ends the exchange names the user whom Discord named.
pub fn exchange_code(config: &Config, state: FlowState, event: Event, now: Timestamp) -> (r: (
    FlowState,
    Action,
))
    ensures
        (r.0@, r.1@) == exchange_spec(*config, state, event, now),
        r.1 matches Action::Respond(Ok(_)) ==> flow_user(state@) matches Some(user) && names(
            r.1,
            user,
            config.security.jwt_secret@,
            now,
        ),
{
    match (state, event) {
        (FlowState::Start, Event::ExchangeRequested(request)) => (
            FlowState::AwaitingToken,
            Action::Call(exchange_code_with_discord(&config.discord, request.code.as_str())),
        ),
        (FlowState::AwaitingToken, Event::Token(reply)) => {
            match reply_body(reply, "Discord token exchange failed with status ", false) {
                Ok(token) => {
                    let request = get_discord_user_info(token.access_token.as_str());
                    (
                        FlowState::AwaitingUser {
                            access_token: token.access_token,
                            refresh_token: token.refresh_token,
                            expires_in: token.expires_in,
                        },
                        Action::Call(request),
                    )
                },
                Err(e) => fail(e),
            }
        },
        (
            FlowState::AwaitingUser { access_token, refresh_token, expires_in },
            Event::UserInfo(reply),
        ) => {
            let user = match reply_body(
                reply,
                "Failed to fetch Discord user info with status ",
                false,
            ) {
                Ok(user) => user,
                Err(e) => {
                    return fail(e);
                },
            };
            let id = match parse_u64(user.id.as_str()) {
                Some(id) => id,
                None => {
                    return fail(Error::DiscordApi(String::from_str("invalid user id")));
                },
            };
            let user_id = #[verifier::truncate] (id as i64);
            let expiry = match now.plus_seconds(expires_in) {
                Some(expiry) => expiry,
                None => {
                    return fail(Error::DiscordApi(String::from_str("invalid token lifetime")));
                },
            };
            let avatar = build_avatar_url(&user);
            let params = UserUpsert {
                user_id,
                username: user.username.clone(),
                global_name: clone_opt_string(&user.global_name),
                avatar_url: Some(avatar),
                refresh_token: Some(refresh_token),
                token_expires_at: Some(expiry),
            };
            (
                FlowState::AwaitingUpsert { user_id, username: user.username, access_token },
                Action::UpsertUser(params),
            )
        },
        (FlowState::AwaitingUpsert { user_id, username, access_token }, Event::Stored(outcome)) => {
            match outcome {
                Err(e) => fail(e),
                Ok(()) => {
                    if config.discord.premium_sku_id.is_some() {
                        let request = fetch_user_entitlements(&config.discord, user_id);
                        (
                            FlowState::AwaitingEntitlements { user_id, username, access_token },
                            Action::Call(request),
                        )
                    } else {
                        issue(
                            user_id,
                            username.as_str(),
                            access_token,
                            config.security.jwt_secret.as_str(),
                            now,
                        )
                    }
                },
            }
        },
        (
            FlowState::AwaitingEntitlements { user_id, username, access_token },
            Event::Entitlements(reply),
        ) => {
            let entitlements = entitlements_of(reply);
            let (pass, action) = Reconciliation::begin(
                user_id,
                config.discord.premium_sku_id,
                &entitlements,
                now,
            );
            reconcile_on(
                pass,
                action,
                username,
                access_token,
                config.security.jwt_secret.as_str(),
                now,
            )
        },
        (FlowState::Reconciling { pass, username, access_token }, Event::Stored(outcome)) => {
            let (pass, action) = pass.step(outcome);
            reconcile_on(
                pass,
                action,
                username,
                access_token,
                config.security.jwt_secret.as_str(),
                now,
            )
        },
        _ => reject_event(),
    }
}

/// One step of a token refresh. The stored refresh token goes to Discord;
/// the new one is stored with its expiry; then a new session token is
/// issued. Without a user or without a stored refresh token there is
/// nothing to refresh, and a rejection by Discord is an authentication
/// failure: the caller has to sign in again.
pub open spec fn refresh_spec(config: Config, state: FlowState, event: Event, now: Timestamp) -> (
    FlowStateView,
    ActionView,
) {
    match (state, event) {
        (FlowState::Start, Event::Requested(user)) => (
            FlowStateView::Loading { user: user@ },
            ActionView::GetUser { user_id: user.user_id },
        ),
        (FlowState::Loading { user }, Event::Loaded(found)) => match found {
            Err(e) => failed(e@),
            Ok(None) => failed(ErrorView::UserNotFound(user.user_id)),
            Ok(Some(stored)) => match stored.refresh_token {
                None => failed(ErrorView::AuthFailed("no refresh token stored"@)),
                Some(refresh_token) => (
                    FlowStateView::Refreshing { user: user@ },
                    ActionView::Call(
                        refresh_token_request(
                            config.discord.client_id@,
                            config.discord.client_secret@,
                            refresh_token@,
                        ),
                    ),
                ),
            },
        },
        (FlowState::Refreshing { user }, Event::Token(reply)) => match reply {
            ProviderReply::Success(token) => match now.shifted(token.expires_in as int) {
                None => failed(ErrorView::DiscordApi("invalid token lifetime"@)),
                Some(expiry) => (
                    FlowStateView::StoringToken { user: user@, access_token: token.access_token@ },
                    ActionView::UpdateRefreshToken {
                        user_id: user.user_id,
                        refresh_token: token.refresh_token@,
                        token_expires_at: expiry,
                    },
                ),
            },
            _ => failed(
                reply_failure(reply, "Discord token refresh failed with status "@, true)->0,
            ),
        },
        (FlowState::StoringToken { user, access_token }, Event::Stored(outcome)) => match outcome {
            Err(e) => failed(e@),
            Ok(()) => issued(
                user.user_id,
                user.username@,
                access_token@,
                config.security.jwt_secret@,
                now,
            ),
        },
        _ => unexpected(),
    }
}

/// One step of a token refresh. The session token that ends the refresh
/// names the caller.
pub fn refresh_token(config: &Config, state: FlowState, event: Event, now: Timestamp) -> (r: (
    FlowState,
    Action,
))
    ensures
        (r.0@, r.1@) == refresh_spec(*config, state, event, now),
        r.1 matches Action::Respond(Ok(_)) ==> flow_user(state@) matches Some(user) && names(
            r.1,
            user,
            config.security.jwt_secret@,
            now,
        ),
{
    match (state, event) {
        (FlowState::Start, Event::Requested(user)) => {
            let user_id = user.user_id;
            (FlowState::Loading { user }, Action::GetUser { user_id })
        },
        (FlowState::Loading { user }, Event::Loaded(found)) => {
            let stored = match found {
                Err(e) => {
                    return fail(e);
                },
                Ok(None) => {
                    return fail(Error::UserNotFound(user.user_id));
                },
                Ok(Some(stored)) => stored,
            };
            match stored.refresh_token {
                None => fail(Error::AuthFailed(String::from_str("no refresh token stored"))),
                Some(refresh_token) => {
                    let request = refresh_discord_token(&config.discord, refresh_token.as_str());
                    (FlowState::Refreshing { user }, Action::Call(request))
                },
            }
        },
        (FlowState::Refreshing { user }, Event::Token(reply)) => {
            let token = match reply_body(reply, "Discord token refresh failed with status ", true) {
                Ok(token) => token,
                Err(e) => {
                    return fail(e);
                },
            };
            match now.plus_seconds(token.expires_in) {
                None => fail(Error::DiscordApi(String::from_str("invalid token lifetime"))),
                Some(expiry) => {
                    let user_id = user.user_id;
                    (
                        FlowState::StoringToken { user, access_token: token.access_token },
                        Action::UpdateRefreshToken {
                            user_id,
                            refresh_token: token.refresh_token,
                            token_expires_at: expiry,
                        },
                    )
                },
            }
        },
        (FlowState::StoringToken { user, access_token }, Event::Stored(outcome)) => match outcome {
            Err(e) => fail(e),
            Ok(()) => issue(
                user.user_id,
                user.username.as_str(),
                access_token,
                config.security.jwt_secret.as_str(),
                now,
            ),
        },
        _ => reject_event(),
    }
}

/// The end of a revocation or a logout, on how the clearing of the tokens
/// went.
pub open spec fn cleared(outcome: Result<(), Error>) -> (FlowStateView, ActionView) {
    match outcome {
        Err(e) => failed(e@),
        Ok(()) => (FlowStateView::Done, ActionView::Respond(Ok(ReplyView::NoContent))),
    }
}

/// One step of a revocation. A stored refresh token is revoked at
/// Discord; whatever Discord replies, and also where there was nothing to
/// revoke, the user's tokens are then cleared.
pub open spec fn revoke_spec(config: Config, state: FlowState, event: Event) -> (
    FlowStateView,
    ActionView,
) {
    match (state, event) {
        (FlowState::Start, Event::Requested(user)) => (
            FlowStateView::Loading { user: user@ },
            ActionView::GetUser { user_id: user.user_id },
        ),
        (FlowState::Loading { user }, Event::Loaded(found)) => match found {
            Err(e) => failed(e@),
            Ok(Some(User { refresh_token: Some(token), .. })) => (
                FlowStateView::Revoking { user_id: user.user_id },
                ActionView::Call(
                    revoke_token_request(
                        config.discord.client_id@,
                        config.discord.client_secret@,
                        token@,
                    ),
                ),
            ),
            Ok(_) => (
                FlowStateView::Clearing,
                ActionView::ClearUserTokens { user_id: user.user_id },
            ),
        },
        (FlowState::Revoking { user_id }, Event::Revoked(_)) => (
            FlowStateView::Clearing,
            ActionView::ClearUserTokens { user_id },
        ),
        (FlowState::Clearing, Event::Stored(outcome)) => cleared(outcome),
        _ => unexpected(),
    }
}

fn clear_done(outcome: Result<(), Error>) -> (r: (FlowState, Action))
    ensures
        (r.0@, r.1@) == cleared(outcome),
{
    match outcome {
        Err(e) => fail(e),
        Ok(()) => (FlowState::Done, Action::Respond(Ok(Reply::NoContent))),
    }
}

/// One step of a revocation.
pub fn revoke_token(config: &Config, state: FlowState, event: Event) -> (r: (FlowState, Action))
    ensures
        (r.0@, r.1@) == revoke_spec(*config, state, event),
{
    match (state, event) {
        (FlowState::Start, Event::Requested(user)) => {
            let user_id = user.user_id;
            (FlowState::Loading { user }, Action::GetUser { user_id })
        },
        (FlowState::Loading { user }, Event::Loaded(found)) => {
            let user_id = user.user_id;
            let stored = match found {
                Err(e) => {
                    return fail(e);
                },
                Ok(stored) => stored,
            };
            let token = match stored {
                Some(u) => u.refresh_token,
                None => None,
            };
            match token {
                Some(token) => {
                    let request = revoke_discord_token(&config.discord, token.as_str());
                    (FlowState::Revoking { user_id }, Action::Call(request))
                },
                None => (FlowState::Clearing, Action::ClearUserTokens { user_id }),
            }
        },
        (FlowState::Revoking { user_id }, Event::Revoked(_)) => (
            FlowState::Clearing,
            Action::ClearUserTokens { user_id },
        ),
        (FlowState::Clearing, Event::Stored(outcome)) => clear_done(outcome),
        _ => reject_event(),
    }
}

/// One step of a logout: the user's tokens are cleared, and Discord is not
/// told.
pub open spec fn logout_spec(state: FlowState, event: Event) -> (FlowStateView, ActionView) {
    match (state, event) {
        (FlowState::Start, Event::Requested(user)) => (
            FlowStateView::Clearing,
            ActionView::ClearUserTokens { user_id: user.user_id },
        ),
        (FlowState::Clearing, Event::Stored(outcome)) => cleared(outcome),
        _ => unexpected(),
    }
}

/// One step of a logout.
pub fn logout(state: FlowState, event: Event) -> (r: (FlowState, Action))
    ensures
        (r.0@, r.1@) == logout_spec(state, event),
{
    match (state, event) {
        (FlowState::Start, Event::Requested(user)) => (
            FlowState::Clearing,
            Action::ClearUserTokens { user_id: user.user_id },
        ),
        (FlowState::Clearing, Event::Stored(outcome)) => clear_done(outcome),
        _ => reject_event(),
    }
}

/// What "who am I" answers for a stored user at `now`: id, names, avatar
/// and tier, and whether the user has premium access at that instant. The
/// refresh token is no part of it.
pub open spec fn profile(user: User, now: Timestamp) -> UserResponseView {
    UserResponseView {
        user_id: user.user_id,
        username: user.username@,
        global_name: opt_text(user.global_name),
        avatar_url: opt_text(user.avatar_url),
        subscription_tier: user.subscription_tier,
        is_premium: user@.premium_at(now),
    }
}

/// One step of "who am I".
pub open spec fn current_user_spec(state: FlowState, event: Event, now: Timestamp) -> (
    FlowStateView,
    ActionView,
) {
    match (state, event) {
        (FlowState::Start, Event::Requested(user)) => (
            FlowStateView::Loading { user: user@ },
            ActionView::GetUser { user_id: user.user_id },
        ),
        (FlowState::Loading { user }, Event::Loaded(found)) => match found {
            Err(e) => failed(e@),
            Ok(None) => failed(ErrorView::UserNotFound(user.user_id)),
            Ok(Some(stored)) => (
                FlowStateView::Done,
                ActionView::Respond(Ok(ReplyView::User(profile(stored, now)))),
            ),
        },
        _ => unexpected(),
    }
}

/// One step of "who am I".
pub fn get_current_user(state: FlowState, event: Event, now: Timestamp) -> (r: (FlowState, Action))
    ensures
        (r.0@, r.1@) == current_user_spec(state, event, now),
{
    match (state, event) {
        (FlowState::Start, Event::Requested(user)) => {
            let user_id = user.user_id;
            (FlowState::Loading { user }, Action::GetUser { user_id })
        },
        (FlowState::Loading { user }, Event::Loaded(found)) => match found {
            Err(e) => fail(e),
            Ok(None) => fail(Error::UserNotFound(user.user_id)),
            Ok(Some(stored)) => {
                let is_premium = stored.is_premium_at(now);
                (
                    FlowState::Done,
                    Action::Respond(
                        Ok(
                            Reply::User(
                                UserResponse {
                                    user_id: stored.user_id,
                                    username: stored.username,
                                    global_name: stored.global_name,
                                    avatar_url: stored.avatar_url,
                                    subscription_tier: stored.subscription_tier,
                                    is_premium,
                                },
                            ),
                        ),
                    ),
                )
            },
        },
        _ => reject_event(),
    }
}

/// What it means for a storage to have performed `action` and reported
/// `event`: the operations on the storage are the ones of its contract, a
/// failed one changes nothing, and a call to Discord or a response is no
/// business of the storage.
pub open spec fn performed<S: Storage>(before: S, after: S, action: Action, event: Option<Event>) -> bool {
    match action {
        Action::GetUser { user_id } => {
            &&& after.users() == before.users()
            &&& event matches Some(Event::Loaded(found))
            &&& found matches Ok(user) ==> opt_user_view(user) == lookup(before.users(), user_id)
        },
        Action::UpsertUser(params) => {
            &&& event matches Some(Event::Stored(outcome))
            &&& outcome is Err ==> after.users() == before.users()
            &&& outcome is Ok ==> exists|now: Timestamp|
                after.users() == #[trigger] users_after_upsert(before.users(), params@, now)
        },
        Action::UpdateRefreshToken { user_id, refresh_token, token_expires_at } => {
            &&& event matches Some(Event::Stored(outcome))
            &&& outcome is Err ==> after.users() == before.users()
            &&& outcome is Ok ==> exists|now: Timestamp|
                after.users() == #[trigger] users_after_token_update(
                    before.users(),
                    user_id,
                    refresh_token@,
                    token_expires_at,
                    now,
                )
        },
        Action::ClearUserTokens { user_id } => {
            &&& event matches Some(Event::Stored(outcome))
            &&& outcome is Err ==> after.users() == before.users()
            &&& outcome is Ok ==> exists|now: Timestamp|
                after.users() == #[trigger] users_after_token_clear(before.users(), user_id, now)
        },
        Action::UpsertEntitlement(params) => {
            &&& event matches Some(Event::Stored(outcome))
            &&& outcome is Err ==> after.entitlements() == before.entitlements()
            &&& outcome is Ok ==> after.entitlements() == entitlements_after_upsert(
                before.entitlements(),
                params,
            )
        },
        Action::UpdateSubscription { user_id, tier, source, expires_at } => {
            &&& event matches Some(Event::Stored(outcome))
            &&& outcome is Err ==> after.users() == before.users()
            &&& outcome is Ok ==> exists|now: Timestamp|
                after.users() == #[trigger] users_after_subscription_update(
                    before.users(),
                    user_id,
                    tier,
                    source,
                    expires_at,
                    now,
                )
        },
        Action::Call(_) => event is None && after == before,
        Action::Respond(_) => event is None && after == before,
    }
}

/// Performs on `storage` what a flow asks of the storage, and gives back
/// the event to report to the flow. For a call to Discord and for a
/// response there is nothing to perform and no event.
pub fn perform<S: Storage>(storage: &mut S, action: &Action, encryption_key: &str) -> (event: Option<
    Event,
>)
    ensures
        performed(*old(storage), *final(storage), *action, event),
{
    match action {
        Action::GetUser { user_id } => Some(
            Event::Loaded(storage.get_user(*user_id, encryption_key)),
        ),
        Action::UpsertUser(params) => Some(
            Event::Stored(storage.upsert_user(params.as_params(), encryption_key)),
        ),
        Action::UpdateRefreshToken { user_id, refresh_token, token_expires_at } => Some(
            Event::Stored(
                storage.update_refresh_token(
                    *user_id,
                    refresh_token.as_str(),
                    *token_expires_at,
                    encryption_key,
                ),
            ),
        ),
        Action::ClearUserTokens { user_id } => Some(
            Event::Stored(storage.clear_user_tokens(*user_id)),
        ),
        Action::UpsertEntitlement(params) => Some(
            Event::Stored(storage.upsert_entitlement(*params)),
        ),
        Action::UpdateSubscription { user_id, tier, source, expires_at } => Some(
            Event::Stored(storage.update_subscription(*user_id, *tier, *source, *expires_at)),
        ),
        Action::Call(_) => None,
        Action::Respond(_) => None,
    }
}

/// The HTTP status of the response that ends a flow: 200 with a body, 204
/// without one, and the status of the error.
pub open spec fn response_status(response: Result<ReplyView, ErrorView>) -> u16 {
    match response {
        Ok(ReplyView::NoContent) => 204,
        Ok(_) => 200,
        Err(e) => e.status_code(),
    }
}

/// The HTTP status of the response that ends a flow.
pub fn status_of(response: &Result<Reply, Error>) -> (status: u16)
    ensures
        status == response_status(
            match response {
                Ok(reply) => Ok(reply@),
                Err(e) => Err(e@),
            },
        ),
{
    match response {
        Ok(Reply::NoContent) => 204,
        Ok(_) => 200,
        Err(e) => e.status_code(),
    }
}

/// A revocation succeeds whatever Discord replies. Step by step: the
/// user is loaded; a stored refresh token goes to Discord, and without one
/// the tokens are cleared at once; any reply of Discord leads to the
/// clearing of the tokens; and where that goes well the caller is answered
/// with success. Only the storage can make a revocation fail.
pub proof fn lemma_revoke_succeeds_whatever_discord_replies(
    config: Config,
    user: AuthenticatedUser,
    found: Option<User>,
    reply: ProviderReply<()>,
)
    ensures
        revoke_spec(config, FlowState::Start, Event::Requested(user)) == (
            FlowStateView::Loading { user: user@ },
            ActionView::GetUser { user_id: user.user_id },
        ),
        ({
            let loaded = revoke_spec(config, FlowState::Loading { user }, Event::Loaded(Ok(found)));
            ||| loaded.0 == (FlowStateView::Revoking { user_id: user.user_id }) && loaded.1 is Call
            ||| loaded == (
                FlowStateView::Clearing,
                ActionView::ClearUserTokens { user_id: user.user_id },
            )
        }),
        revoke_spec(
            config,
            FlowState::Revoking { user_id: user.user_id },
            Event::Revoked(reply),
        ) == (FlowStateView::Clearing, ActionView::ClearUserTokens { user_id: user.user_id }),
        revoke_spec(config, FlowState::Clearing, Event::Stored(Ok(()))) == (
            FlowStateView::Done,
            ActionView::Respond(Ok(ReplyView::NoContent)),
        ),
        response_status(Ok(ReplyView::NoContent)) == 204,
{
}

/// A failure while reconciling never fails the exchange: whatever the
/// storage reports to a pass, the exchange goes on with the next operation
/// of the pass or ends as it would have ended without any entitlement, by
/// issuing the session token.
pub proof fn lemma_reconciliation_never_fails_the_exchange(
    config: Config,
    pass: Reconciliation,
    username: String,
    access_token: String,
    outcome: Result<(), Error>,
    now: Timestamp,
)
    ensures
        ({
            let next = exchange_spec(
                config,
                FlowState::Reconciling { pass, username, access_token },
                Event::Stored(outcome),
                now,
            );
            ||| next.1 is UpsertEntitlement && next.0 is Reconciling
            ||| next.1 is UpdateSubscription && next.0 is Reconciling
            ||| next == issued(
                pass.user_id,
                username@,
                access_token@,
                config.security.jwt_secret@,
                now,
            )
        }),
{
}

} // verus!
