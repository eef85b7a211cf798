//! Session tokens: signed, time-bounded bearer tokens that carry a user's
//! id and username. Validation needs the secret and the clock, nothing else.

use jsonwebtoken::errors::Error as JwtError;
use jsonwebtoken::{Algorithm, DecodingKey, EncodingKey, Header, Validation};
use vstd::prelude::*;
use vstd::string::*;

use crate::error::{text_result, Error, ErrorView};
use crate::models::user::opt_str_text;
use crate::text::{
    decimal_text, has_prefix, i64_of, i64_to_string, lemma_i64_text_round_trip, parse_i64,
    starts_with,
};
use crate::time::{clock_now, Timestamp};

verus! {

/// The error of `jsonwebtoken`.
#[verifier::external_type_specification]
#[verifier::external_body]
pub struct ExJwtError(JwtError);

/// How long a session token is valid, in seconds.
pub const TOKEN_VALIDITY_SECONDS: i64 = 86_400;

/// The claims of a session token.
#[derive(Debug, Clone)]
pub struct Claims {
    /// The user's id, as a decimal numeral.
    pub sub: String,
    /// The user's username.
    pub username: String,
    /// When the token was issued, in seconds since the epoch.
    pub iat: i64,
    /// When the token expires, in seconds since the epoch.
    pub exp: i64,
}

/// What `Claims` hold, as plain values.
pub ghost struct ClaimsView {
    pub sub: Seq<char>,
    pub username: Seq<char>,
    pub iat: i64,
    pub exp: i64,
}

impl View for Claims {
    type V = ClaimsView;

    open spec fn view(&self) -> ClaimsView {
        ClaimsView { sub: self.sub@, username: self.username@, iat: self.iat, exp: self.exp }
    }
}

/// The user whom a valid session token names.
#[derive(Debug, Clone)]
pub struct AuthenticatedUser {
    /// The user's id.
    pub user_id: i64,
    /// The user's username.
    pub username: String,
}

/// What an `AuthenticatedUser` holds, as plain values.
pub ghost struct AuthenticatedUserView {
    pub user_id: i64,
    pub username: Seq<char>,
}

impl View for AuthenticatedUser {
    type V = AuthenticatedUserView;

    open spec fn view(&self) -> AuthenticatedUserView {
        AuthenticatedUserView { user_id: self.user_id, username: self.username@ }
    }
}

/// The HS256 token that carries `claims`, signed with `secret`.
pub uninterp spec fn signed_token(claims: ClaimsView, secret: Seq<char>) -> Option<Seq<char>>;

/// The claims of `token`, where it is a well-formed HS256 token whose
/// signature is right under `secret` and that carries the four claims.
pub uninterp spec fn token_claims(token: Seq<char>, secret: Seq<char>) -> Option<ClaimsView>;

/// `jsonwebtoken::encode` with the default header (HS256), the four claims
/// `sub`, `username`, `iat`, `exp` as a JSON object, and the secret as the
/// key. The contract names the token and claims that `jsonwebtoken::decode`
/// under the same secret, as `verify_token` calls it, gives the claims back.
#[verifier::external_body]
fn sign_claims(claims: &Claims, secret: &str) -> (r: Result<String, JwtError>)
    ensures
        match r {
            Ok(t) => signed_token(claims@, secret@) == Some(t@) && token_claims(t@, secret@)
                == Some(claims@),
            Err(_) => signed_token(claims@, secret@) is None,
        },
{
    let mut map = serde_json::Map::new();
    map.insert("sub".to_owned(), claims.sub.clone().into());
    map.insert("username".to_owned(), claims.username.clone().into());
    map.insert("iat".to_owned(), claims.iat.into());
    map.insert("exp".to_owned(), claims.exp.into());
    jsonwebtoken::encode(&Header::default(), &map, &EncodingKey::from_secret(secret.as_bytes()))
}

/// `jsonwebtoken::decode` for HS256 with the secret as the key; `None`
/// stands for its error and for a token without the four claims. The
/// checks of the expiry, of the audience and of required claims are
/// switched off, so that the call never reads the clock. The contract names
/// the claims.
#[verifier::external_body]
fn verify_token(token: &str, secret: &str) -> (claims: Option<Claims>)
    ensures
        match claims {
            Some(c) => token_claims(token@, secret@) == Some(c@),
            None => token_claims(token@, secret@) is None,
        },
{
    let mut rules = Validation::new(Algorithm::HS256);
    rules.validate_exp = false;
    rules.validate_aud = false;
    rules.required_spec_claims.clear();
    let key = DecodingKey::from_secret(secret.as_bytes());
    let c = jsonwebtoken::decode::<serde_json::Value>(token, &key, &rules).ok()?.claims;
    Some(
        Claims {
            sub: c.get("sub")?.as_str()?.to_owned(),
            username: c.get("username")?.as_str()?.to_owned(),
            iat: c.get("iat")?.as_i64()?,
            exp: c.get("exp")?.as_i64()?,
        },
    )
}

/// The claims of a token issued at `now` for the given user, where the
/// expiry still fits.
pub open spec fn claims_for(user_id: i64, username: Seq<char>, now: Timestamp) -> Option<
    ClaimsView,
> {
    if now.secs + TOKEN_VALIDITY_SECONDS <= i64::MAX {
        Some(
            ClaimsView {
                sub: decimal_text(user_id as int),
                username,
                iat: now.secs,
                exp: (now.secs + TOKEN_VALIDITY_SECONDS) as i64,
            },
        )
    } else {
        None
    }
}

/// The expiry of `claims` lies before `now`.
pub open spec fn expired(claims: ClaimsView, now: Timestamp) -> bool {
    now.after(Timestamp { secs: claims.exp, nanos: 0 })
}

/// Whom the claims of a token authenticate at `now`: nobody where there
/// are no claims, where the token has expired, or where its subject is no
/// user id.
pub open spec fn authenticated(claims: Option<ClaimsView>, now: Timestamp) -> Result<
    AuthenticatedUserView,
    ErrorView,
> {
    match claims {
        None => Err(ErrorView::AuthFailed("invalid token"@)),
        Some(c) => if expired(c, now) {
            Err(ErrorView::AuthFailed("token expired"@))
        } else {
            match i64_of(c.sub) {
                Some(user_id) => Ok(AuthenticatedUserView { user_id, username: c.username }),
                None => Err(ErrorView::AuthFailed("invalid token"@)),
            }
        },
    }
}

/// Whom `token` authenticates under `secret` at `now`.
pub open spec fn validated(token: Seq<char>, secret: Seq<char>, now: Timestamp) -> Result<
    AuthenticatedUserView,
    ErrorView,
> {
    authenticated(token_claims(token, secret), now)
}

/// The outcome of a validation, as plain values.
pub open spec fn user_result(r: Result<AuthenticatedUser, Error>) -> Result<
    AuthenticatedUserView,
    ErrorView,
> {
    match r {
        Ok(u) => Ok(u@),
        Err(e) => Err(e@),
    }
}

/// The claims, as plain values.
pub open spec fn claims_view(claims: Option<Claims>) -> Option<ClaimsView> {
    match claims {
        Some(c) => Some(c@),
        None => None,
    }
}

/// What issuing a token at `now` gives: the signed token with the claims
/// for the user, and an error where the expiry does not fit or the token
/// cannot be signed.
pub open spec fn generated(user_id: i64, username: Seq<char>, secret: Seq<char>, now: Timestamp) -> Result<
    Seq<char>,
    ErrorView,
> {
    match claims_for(user_id, username, now) {
        None => Err(ErrorView::Jwt("expiry out of range"@)),
        Some(c) => match signed_token(c, secret) {
            Some(t) => Ok(t),
            None => Err(ErrorView::Jwt("token could not be signed"@)),
        },
    }
}

fn auth_failed(reason: &str) -> (e: Error)
    ensures
        e@ == ErrorView::AuthFailed(reason@),
{
    Error::AuthFailed(String::from_str(reason))
}

/// The session token in the value of an `Authorization` header: what
/// follows `Bearer `. Without a header, or with one of another form, there
/// is none.
pub open spec fn bearer(header: Option<Seq<char>>) -> Result<Seq<char>, ErrorView> {
    match header {
        None => Err(ErrorView::AuthFailed("missing authorization header"@)),
        Some(value) => if has_prefix(value, "Bearer "@) {
            Ok(value.subrange(7, value.len() as int))
        } else {
            Err(ErrorView::AuthFailed("invalid authorization header"@))
        },
    }
}

/// Takes the session token out of the value of an `Authorization` header.
pub fn bearer_token<'a>(header: Option<&'a str>) -> (r: Result<&'a str, Error>)
    ensures
        match r {
            Ok(token) => bearer(opt_str_text(header)) == Ok::<
                Seq<char>,
                ErrorView,
            >(token@),
            Err(e) => bearer(opt_str_text(header)) == Err::<
                Seq<char>,
                ErrorView,
            >(e@),
        },
{
    let value = match header {
        Some(value) => value,
        None => {
            return Err(auth_failed("missing authorization header"));
        },
    };
    proof {
        reveal_strlit("Bearer ");
    }
    if starts_with(value, "Bearer ") {
        Ok(value.substring_char(7, value.unicode_len()))
    } else {
        Err(auth_failed("invalid authorization header"))
    }
}

/// Decides whom the claims read from a token authenticate at `now`.
pub fn authenticate(claims: Option<Claims>, now: Timestamp) -> (r: Result<AuthenticatedUser, Error>)
    ensures
        user_result(r) == authenticated(claims_view(claims), now),
{
    let c = match claims {
        Some(c) => c,
        None => {
            return Err(auth_failed("invalid token"));
        },
    };
    let expiry = Timestamp { secs: c.exp, nanos: 0 };
    if now.is_after(&expiry) {
        return Err(auth_failed("token expired"));
    }
    match parse_i64(c.sub.as_str()) {
        Some(user_id) => Ok(AuthenticatedUser { user_id, username: c.username }),
        None => Err(auth_failed("invalid token")),
    }
}

/// Validates `token` under `secret` at `now`: the signature has to be
/// right, the structure well-formed and the expiry not in the past.
pub fn validate_token_at(token: &str, secret: &str, now: Timestamp) -> (r: Result<
    AuthenticatedUser,
    Error,
>)
    ensures
        user_result(r) == validated(token@, secret@, now),
{
    authenticate(verify_token(token, secret), now)
}

/// Whom a request with this `Authorization` header comes from at `now`.
pub open spec fn request_user(header: Option<Seq<char>>, secret: Seq<char>, now: Timestamp) -> Result<
    AuthenticatedUserView,
    ErrorView,
> {
    match bearer(header) {
        Ok(token) => validated(token, secret, now),
        Err(e) => Err(e),
    }
}

/// Authenticates a request by its `Authorization` header at `now`.
pub fn authenticate_request_at(header: Option<&str>, secret: &str, now: Timestamp) -> (r: Result<
    AuthenticatedUser,
    Error,
>)
    ensures
        user_result(r) == request_user(opt_str_text(header), secret@, now),
{
    match bearer_token(header) {
        Ok(token) => validate_token_at(token, secret, now),
        Err(e) => Err(e),
    }
}

/// Authenticates a request by its `Authorization` header at the instant
/// the clock shows during the call.
pub fn authenticate_request(header: Option<&str>, secret: &str) -> (r: Result<
    AuthenticatedUser,
    Error,
>)
    ensures
        exists|now: Timestamp|
            user_result(r) == #[trigger] request_user(
                opt_str_text(header),
                secret@,
                now,
            ),
{
    let now = clock_now();
    authenticate_request_at(header, secret, now)
}

/// Validates `token` under `secret` at the instant the clock shows during
/// the call.
pub fn validate_token(token: &str, secret: &str) -> (r: Result<AuthenticatedUser, Error>)
    ensures
        exists|now: Timestamp| user_result(r) == #[trigger] validated(token@, secret@, now),
{
    let now = clock_now();
    validate_token_at(token, secret, now)
}

/// Issues a session token at `now`. It is valid for
/// `TOKEN_VALIDITY_SECONDS`: under the same secret it names the same user
/// at every instant up to its expiry, and nobody after it.
pub fn generate_token_at(user_id: i64, username: &str, secret: &str, now: Timestamp) -> (r: Result<
    String,
    Error,
>)
    ensures
        text_result(r) == generated(user_id, username@, secret@, now),
        r matches Ok(t) ==> forall|at: Timestamp|
            #![trigger validated(t@, secret@, at)]
            validated(t@, secret@, at) == if at.after(
                Timestamp { secs: (now.secs + TOKEN_VALIDITY_SECONDS) as i64, nanos: 0 },
            ) {
                Err::<AuthenticatedUserView, ErrorView>(ErrorView::AuthFailed("token expired"@))
            } else {
                Ok(AuthenticatedUserView { user_id, username: username@ })
            },
{
    let exp = match now.secs.checked_add(TOKEN_VALIDITY_SECONDS) {
        Some(exp) => exp,
        None => {
            return Err(Error::Jwt(String::from_str("expiry out of range")));
        },
    };
    let claims = Claims {
        sub: i64_to_string(user_id),
        username: username.to_owned(),
        iat: now.secs,
        exp,
    };
    proof {
        lemma_i64_text_round_trip(user_id);
    }
    match sign_claims(&claims, secret) {
        Ok(t) => Ok(t),
        Err(_) => Err(Error::Jwt(String::from_str("token could not be signed"))),
    }
}

/// Issues a session token at the instant the clock shows during the call.
pub fn generate_token(user_id: i64, username: &str, secret: &str) -> (r: Result<String, Error>)
    ensures
        exists|now: Timestamp|
            text_result(r) == #[trigger] generated(user_id, username@, secret@, now),
{
    let now = clock_now();
    generate_token_at(user_id, username, secret, now)
}

/// Validation fails closed. A token that is not a well-formed token whose
/// signature is right under the secret authenticates nobody, at no instant;
/// nor does a request without such a token in its header.
pub proof fn lemma_no_claims_no_user(
    header: Option<Seq<char>>,
    token: Seq<char>,
    secret: Seq<char>,
    now: Timestamp,
)
    ensures
        token_claims(token, secret) is None ==> validated(token, secret, now) == Err::<
            AuthenticatedUserView,
            ErrorView,
        >(ErrorView::AuthFailed("invalid token"@)),
        bearer(header) is Err ==> request_user(header, secret, now) is Err,
        bearer(header) matches Ok(t) && token_claims(t, secret) is None ==> request_user(
            header,
            secret,
            now,
        ) == Err::<AuthenticatedUserView, ErrorView>(ErrorView::AuthFailed("invalid token"@)),
        request_user(header, secret, now) matches Err(e) ==> e is AuthFailed && e.status_code()
            == 401,
{
}

} // verus!
