//! The Discord side of OAuth2, without the network: what Discord sends,
//! the requests that are sent to it, and what its replies amount to.

use vstd::prelude::*;

use crate::config::DiscordConfig;
use crate::error::{Error, ErrorView};
use crate::models::user::opt_text;
use crate::reconcile::{entitlement_views, DiscordEntitlementResponse, DiscordEntitlementView};
use crate::text::{
    decimal_digits, decimal_text, has_prefix, i64_to_string, parse_u32, starts_with, u32_of,
    u64_to_string,
};

verus! {

/// The number of default avatars that Discord has.
pub const DEFAULT_AVATAR_COUNT: u32 = 5;

/// A user as Discord's user-info endpoint reports them.
#[derive(Debug, Clone)]
pub struct DiscordUser {
    /// User id, a decimal numeral.
    pub id: String,
    /// Username.
    pub username: String,
    /// Hash of the avatar.
    pub avatar: Option<String>,
    /// Display name.
    pub global_name: Option<String>,
    /// Legacy discriminator, a decimal numeral.
    pub discriminator: Option<String>,
}

/// What a `DiscordUser` holds, as plain values.
pub ghost struct DiscordUserView {
    pub id: Seq<char>,
    pub username: Seq<char>,
    pub avatar: Option<Seq<char>>,
    pub global_name: Option<Seq<char>>,
    pub discriminator: Option<Seq<char>>,
}

impl View for DiscordUser {
    type V = DiscordUserView;

    open spec fn view(&self) -> DiscordUserView {
        DiscordUserView {
            id: self.id@,
            username: self.username@,
            avatar: opt_text(self.avatar),
            global_name: opt_text(self.global_name),
            discriminator: opt_text(self.discriminator),
        }
    }
}

/// What Discord's token endpoint answers.
#[derive(Debug, Clone)]
pub struct DiscordTokenResponse {
    /// Access token.
    pub access_token: String,
    /// Type of the token.
    pub token_type: String,
    /// Seconds until the access token expires.
    pub expires_in: i64,
    /// Refresh token.
    pub refresh_token: String,
    /// Scopes that were granted.
    pub scope: String,
}

/// What a `DiscordTokenResponse` holds, as plain values.
pub ghost struct DiscordTokenView {
    pub access_token: Seq<char>,
    pub token_type: Seq<char>,
    pub expires_in: i64,
    pub refresh_token: Seq<char>,
    pub scope: Seq<char>,
}

impl View for DiscordTokenResponse {
    type V = DiscordTokenView;

    open spec fn view(&self) -> DiscordTokenView {
        DiscordTokenView {
            access_token: self.access_token@,
            token_type: self.token_type@,
            expires_in: self.expires_in,
            refresh_token: self.refresh_token@,
            scope: self.scope@,
        }
    }
}

/// The index of the default avatar for a legacy discriminator: the
/// discriminator modulo the number of default avatars, and 0 where there is
/// no discriminator or it is no decimal `u32`.
pub open spec fn default_avatar_index(discriminator: Option<Seq<char>>) -> nat {
    match discriminator {
        Some(d) => match u32_of(d) {
            Some(n) => (n % DEFAULT_AVATAR_COUNT) as nat,
            None => 0,
        },
        None => 0,
    }
}

/// The extension of an avatar: animated where the hash starts with `a_`.
pub open spec fn avatar_extension(hash: Seq<char>) -> Seq<char> {
    if has_prefix(hash, "a_"@) {
        "gif"@
    } else {
        "png"@
    }
}

/// The URL of a user's avatar on Discord's CDN, or of their default avatar
/// where they have none.
pub open spec fn avatar_url(user: DiscordUserView) -> Seq<char> {
    match user.avatar {
        Some(hash) => "https://cdn.discordapp.com/avatars/"@ + user.id + "/"@ + hash + "."@
            + avatar_extension(hash) + "?size=1024"@,
        None => "https://cdn.discordapp.com/embed/avatars/"@ + decimal_digits(
            default_avatar_index(user.discriminator),
        ) + ".png"@,
    }
}

/// Builds the URL of a user's avatar.
pub fn build_avatar_url(user: &DiscordUser) -> (url: String)
    ensures
        url@ == avatar_url(user@),
{
    match &user.avatar {
        Some(hash) => {
            let ext = if starts_with(hash.as_str(), "a_") {
                "gif"
            } else {
                "png"
            };
            let mut url = String::from_str("https://cdn.discordapp.com/avatars/");
            url.append(user.id.as_str());
            url.append("/");
            url.append(hash.as_str());
            url.append(".");
            url.append(ext);
            url.append("?size=1024");
            url
        },
        None => {
            let index: u32 = match &user.discriminator {
                Some(d) => match parse_u32(d.as_str()) {
                    Some(n) => n % DEFAULT_AVATAR_COUNT,
                    None => 0,
                },
                None => 0,
            };
            let digits = u64_to_string(index as u64);
            let mut url = String::from_str("https://cdn.discordapp.com/embed/avatars/");
            url.append(digits.as_str());
            url.append(".png");
            url
        },
    }
}

/// The calls that are made to Discord.
#[derive(Debug, Clone, Copy, PartialEq, Eq, Structural)]
pub enum ProviderCall {
    /// An authorization code is exchanged for tokens.
    ExchangeCode,
    /// The user behind an access token is fetched.
    FetchUserInfo,
    /// A refresh token is exchanged for new tokens.
    RefreshToken,
    /// A token is revoked.
    RevokeToken,
    /// The entitlements of a user are listed.
    FetchEntitlements,
}

/// The verb of a request.
#[derive(Debug, Clone, Copy, PartialEq, Eq, Structural)]
pub enum HttpMethod {
    Get,
    Post,
}

/// A request to Discord, ready to be sent.
#[derive(Debug, Clone)]
pub struct HttpRequest {
    /// The call that the request makes.
    pub call: ProviderCall,
    /// The verb.
    pub method: HttpMethod,
    /// The URL.
    pub url: String,
    /// Headers, as names and values.
    pub headers: Vec<(String, String)>,
    /// Username and password of HTTP basic authentication.
    pub basic_auth: Option<(String, String)>,
    /// Fields of the URL-encoded form in the body.
    pub form: Vec<(String, String)>,
}

/// Pairs of strings, as plain values.
pub open spec fn pairs_view(pairs: Seq<(String, String)>) -> Seq<(Seq<char>, Seq<char>)> {
    pairs.map_values(|p: (String, String)| (p.0@, p.1@))
}

/// What an `HttpRequest` holds, as plain values.
pub ghost struct HttpRequestView {
    pub call: ProviderCall,
    pub method: HttpMethod,
    pub url: Seq<char>,
    pub headers: Seq<(Seq<char>, Seq<char>)>,
    pub basic_auth: Option<(Seq<char>, Seq<char>)>,
    pub form: Seq<(Seq<char>, Seq<char>)>,
}

impl View for HttpRequest {
    type V = HttpRequestView;

    open spec fn view(&self) -> HttpRequestView {
        HttpRequestView {
            call: self.call,
            method: self.method,
            url: self.url@,
            headers: pairs_view(self.headers@),
            basic_auth: match self.basic_auth {
                Some(p) => Some((p.0@, p.1@)),
                None => None,
            },
            form: pairs_view(self.form@),
        }
    }
}

/// The request that exchanges an authorization code for tokens.
pub open spec fn exchange_code_request(
    client_id: Seq<char>,
    client_secret: Seq<char>,
    redirect_uri: Seq<char>,
    code: Seq<char>,
) -> HttpRequestView {
    HttpRequestView {
        call: ProviderCall::ExchangeCode,
        method: HttpMethod::Post,
        url: "https://discord.com/api/v10/oauth2/token"@,
        headers: seq![("Content-Type"@, "application/x-www-form-urlencoded"@)],
        basic_auth: Some((client_id, client_secret)),
        form: seq![
            ("grant_type"@, "authorization_code"@),
            ("code"@, code),
            ("redirect_uri"@, redirect_uri),
        ],
    }
}

/// The request that fetches the user behind an access token.
pub open spec fn user_info_request(access_token: Seq<char>) -> HttpRequestView {
    HttpRequestView {
        call: ProviderCall::FetchUserInfo,
        method: HttpMethod::Get,
        url: "https://discord.com/api/v10/users/@me"@,
        headers: seq![("Authorization"@, "Bearer "@ + access_token)],
        basic_auth: None,
        form: Seq::empty(),
    }
}

/// The request that exchanges a refresh token for new tokens.
pub open spec fn refresh_token_request(
    client_id: Seq<char>,
    client_secret: Seq<char>,
    refresh_token: Seq<char>,
) -> HttpRequestView {
    HttpRequestView {
        call: ProviderCall::RefreshToken,
        method: HttpMethod::Post,
        url: "https://discord.com/api/v10/oauth2/token"@,
        headers: seq![("Content-Type"@, "application/x-www-form-urlencoded"@)],
        basic_auth: Some((client_id, client_secret)),
        form: seq![("grant_type"@, "refresh_token"@), ("refresh_token"@, refresh_token)],
    }
}

/// The request that revokes a token.
pub open spec fn revoke_token_request(
    client_id: Seq<char>,
    client_secret: Seq<char>,
    token: Seq<char>,
) -> HttpRequestView {
    HttpRequestView {
        call: ProviderCall::RevokeToken,
        method: HttpMethod::Post,
        url: "https://discord.com/api/v10/oauth2/token/revoke"@,
        headers: seq![("Content-Type"@, "application/x-www-form-urlencoded"@)],
        basic_auth: Some((client_id, client_secret)),
        form: seq![("token"@, token)],
    }
}

/// The request that lists the entitlements of a user. It carries the bot
/// token, not a token of the user.
pub open spec fn entitlements_request(client_id: Seq<char>, bot_token: Seq<char>, user_id: i64) -> HttpRequestView {
    HttpRequestView {
        call: ProviderCall::FetchEntitlements,
        method: HttpMethod::Get,
        url: "https://discord.com/api/v10/applications/"@ + client_id + "/entitlements?user_id="@
            + decimal_text(user_id as int) + "&exclude_ended=false"@,
        headers: seq![("Authorization"@, "Bot "@ + bot_token)],
        basic_auth: None,
        form: Seq::empty(),
    }
}

fn pair(name: &str, value: &str) -> (p: (String, String))
    ensures
        p.0@ == name@,
        p.1@ == value@,
{
    (String::from_str(name), String::from_str(value))
}

fn joined(prefix: &str, rest: &str) -> (s: String)
    ensures
        s@ == prefix@ + rest@,
{
    let mut s = String::from_str(prefix);
    s.append(rest);
    s
}

fn form_request(
    call: ProviderCall,
    url: &str,
    discord: &DiscordConfig,
    form: Vec<(String, String)>,
) -> (request: HttpRequest)
    ensures
        request@ == (HttpRequestView {
            call,
            method: HttpMethod::Post,
            url: url@,
            headers: seq![("Content-Type"@, "application/x-www-form-urlencoded"@)],
            basic_auth: Some((discord.client_id@, discord.client_secret@)),
            form: pairs_view(form@),
        }),
{
    let mut headers: Vec<(String, String)> = Vec::new();
    headers.push(pair("Content-Type", "application/x-www-form-urlencoded"));
    assert(pairs_view(headers@) =~= seq![
        ("Content-Type"@, "application/x-www-form-urlencoded"@),
    ]);
    HttpRequest {
        call,
        method: HttpMethod::Post,
        url: String::from_str(url),
        headers,
        basic_auth: Some((discord.client_id.clone(), discord.client_secret.clone())),
        form,
    }
}

fn authorized_get(call: ProviderCall, url: String, scheme: &str, credential: &str) -> (request:
    HttpRequest)
    ensures
        request@ == (HttpRequestView {
            call,
            method: HttpMethod::Get,
            url: url@,
            headers: seq![("Authorization"@, scheme@ + credential@)],
            basic_auth: None,
            form: Seq::empty(),
        }),
{
    let mut headers: Vec<(String, String)> = Vec::new();
    headers.push((String::from_str("Authorization"), joined(scheme, credential)));
    assert(pairs_view(headers@) =~= seq![("Authorization"@, scheme@ + credential@)]);
    let form: Vec<(String, String)> = Vec::new();
    assert(pairs_view(form@) =~= Seq::<(Seq<char>, Seq<char>)>::empty());
    HttpRequest { call, method: HttpMethod::Get, url, headers, basic_auth: None, form }
}

/// Builds the request that exchanges an authorization code for tokens.
pub fn exchange_code_with_discord(discord: &DiscordConfig, code: &str) -> (request: HttpRequest)
    ensures
        request@ == exchange_code_request(
            discord.client_id@,
            discord.client_secret@,
            discord.redirect_uri@,
            code@,
        ),
{
    let mut form: Vec<(String, String)> = Vec::new();
    form.push(pair("grant_type", "authorization_code"));
    form.push(pair("code", code));
    form.push(pair("redirect_uri", discord.redirect_uri.as_str()));
    assert(pairs_view(form@) =~= seq![
        ("grant_type"@, "authorization_code"@),
        ("code"@, code@),
        ("redirect_uri"@, discord.redirect_uri@),
    ]);
    form_request(
        ProviderCall::ExchangeCode,
        "https://discord.com/api/v10/oauth2/token",
        discord,
        form,
    )
}

/// Builds the request that fetches the user behind an access token.
pub fn get_discord_user_info(access_token: &str) -> (request: HttpRequest)
    ensures
        request@ == user_info_request(access_token@),
{
    authorized_get(
        ProviderCall::FetchUserInfo,
        String::from_str("https://discord.com/api/v10/users/@me"),
        "Bearer ",
        access_token,
    )
}

/// Builds the request that exchanges a refresh token for new tokens.
pub fn refresh_discord_token(discord: &DiscordConfig, refresh_token: &str) -> (request: HttpRequest)
    ensures
        request@ == refresh_token_request(
            discord.client_id@,
            discord.client_secret@,
            refresh_token@,
        ),
{
    let mut form: Vec<(String, String)> = Vec::new();
    form.push(pair("grant_type", "refresh_token"));
    form.push(pair("refresh_token", refresh_token));
    assert(pairs_view(form@) =~= seq![
        ("grant_type"@, "refresh_token"@),
        ("refresh_token"@, refresh_token@),
    ]);
    form_request(
        ProviderCall::RefreshToken,
        "https://discord.com/api/v10/oauth2/token",
        discord,
        form,
    )
}

/// Builds the request that revokes a token.
pub fn revoke_discord_token(discord: &DiscordConfig, token: &str) -> (request: HttpRequest)
    ensures
        request@ == revoke_token_request(discord.client_id@, discord.client_secret@, token@),
{
    let mut form: Vec<(String, String)> = Vec::new();
    form.push(pair("token", token));
    assert(pairs_view(form@) =~= seq![("token"@, token@)]);
    form_request(
        ProviderCall::RevokeToken,
        "https://discord.com/api/v10/oauth2/token/revoke",
        discord,
        form,
    )
}

/// Builds the request that lists the entitlements of a user.
pub fn fetch_user_entitlements(discord: &DiscordConfig, user_id: i64) -> (request: HttpRequest)
    ensures
        request@ == entitlements_request(discord.client_id@, discord.bot_token@, user_id),
{
    let id = i64_to_string(user_id);
    let mut url = String::from_str("https://discord.com/api/v10/applications/");
    url.append(discord.client_id.as_str());
    url.append("/entitlements?user_id=");
    url.append(id.as_str());
    url.append("&exclude_ended=false");
    authorized_get(ProviderCall::FetchEntitlements, url, "Bot ", discord.bot_token.as_str())
}

/// How a call to Discord went.
#[derive(Debug)]
pub enum ProviderReply<T> {
    /// No answer came; the text says why.
    Unreachable(String),
    /// Discord answered with a status other than success.
    Rejected { status: u16 },
    /// Discord answered with success, but the body could not be read; the
    /// text says why.
    Malformed(String),
    /// Discord answered with success and this body.
    Success(T),
}

/// A status of success: 200 to 299.
pub open spec fn is_success(status: u16) -> bool {
    200 <= status <= 299
}

/// Sorts an answer by its status and by whether its body could be read.
pub fn classify_reply<T>(status: u16, body: Result<T, String>) -> (reply: ProviderReply<T>)
    ensures
        reply == (if !is_success(status) {
            ProviderReply::Rejected { status }
        } else {
            match body {
                Ok(value) => ProviderReply::Success(value),
                Err(reason) => ProviderReply::Malformed(reason),
            }
        }),
{
    if status < 200 || status > 299 {
        ProviderReply::Rejected { status }
    } else {
        match body {
            Ok(value) => ProviderReply::Success(value),
            Err(reason) => ProviderReply::Malformed(reason),
        }
    }
}

/// The error that a reply without a body amounts to. A rejection is an
/// error of the Discord API, or an authentication failure where the call
/// presented a credential of the user; no answer and an unreadable body
/// are errors of the Discord API.
pub open spec fn reply_failure<T>(
    reply: ProviderReply<T>,
    rejection: Seq<char>,
    rejection_is_auth_failure: bool,
) -> Option<ErrorView> {
    match reply {
        ProviderReply::Success(_) => None,
        ProviderReply::Rejected { status } => Some(
            if rejection_is_auth_failure {
                ErrorView::AuthFailed(rejection + decimal_digits(status as nat))
            } else {
                ErrorView::DiscordApi(rejection + decimal_digits(status as nat))
            },
        ),
        ProviderReply::Unreachable(reason) => Some(ErrorView::DiscordApi(reason@)),
        ProviderReply::Malformed(reason) => Some(ErrorView::DiscordApi(reason@)),
    }
}

/// Parts a reply into its body and the error it amounts to.
pub fn reply_body<T>(reply: ProviderReply<T>, rejection: &str, rejection_is_auth_failure: bool) -> (r:
    Result<T, Error>)
    ensures
        match r {
            Ok(body) => reply == ProviderReply::Success(body),
            Err(e) => reply_failure(reply, rejection@, rejection_is_auth_failure) == Some(e@),
        },
{
    match reply {
        ProviderReply::Success(body) => Ok(body),
        ProviderReply::Rejected { status } => {
            let number = u64_to_string(status as u64);
            let message = joined(rejection, number.as_str());
            if rejection_is_auth_failure {
                Err(Error::AuthFailed(message))
            } else {
                Err(Error::DiscordApi(message))
            }
        },
        ProviderReply::Unreachable(reason) => Err(Error::DiscordApi(reason)),
        ProviderReply::Malformed(reason) => Err(Error::DiscordApi(reason)),
    }
}

/// The entitlements that a reply amounts to: those in its body, and none
/// where the call failed in any way.
pub open spec fn reply_entitlements(reply: ProviderReply<Vec<DiscordEntitlementResponse>>) -> Seq<
    DiscordEntitlementView,
> {
    match reply {
        ProviderReply::Success(list) => entitlement_views(list@),
        _ => Seq::empty(),
    }
}

/// The entitlements of a reply; a failed call counts as an empty list.
pub fn entitlements_of(reply: ProviderReply<Vec<DiscordEntitlementResponse>>) -> (list: Vec<
    DiscordEntitlementResponse,
>)
    ensures
        entitlement_views(list@) == reply_entitlements(reply),
{
    match reply {
        ProviderReply::Success(list) => list,
        _ => {
            let list: Vec<DiscordEntitlementResponse> = Vec::new();
            assert(entitlement_views(list@) =~= Seq::<DiscordEntitlementView>::empty());
            list
        },
    }
}

} // verus!
