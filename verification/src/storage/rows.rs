//! What a relational backend computes around its queries: the user that a
//! row stands for, and the encrypted form in which a refresh token is
//! written. The queries themselves are the backend's.

use vstd::prelude::*;

use crate::encryption::{decrypt, decrypted, encrypt, encrypted, NONCE_LEN};
use crate::error::{text_result, Error, ErrorView, StorageError, StorageErrorView};
use crate::models::subscription::{SubscriptionSource, SubscriptionTier};
use crate::models::user::{opt_str_text, opt_text, User, UserView};
use crate::time::Timestamp;

verus! {

/// A row of the table of users. Its refresh token is encrypted.
#[derive(Debug)]
pub struct UserRow {
    pub user_id: i64,
    pub username: String,
    pub global_name: Option<String>,
    pub avatar_url: Option<String>,
    pub refresh_token: Option<String>,
    pub token_expires_at: Option<Timestamp>,
    pub subscription_tier: SubscriptionTier,
    pub subscription_source: Option<SubscriptionSource>,
    pub subscription_expires_at: Option<Timestamp>,
    pub created_at: Timestamp,
    pub updated_at: Timestamp,
}

/// The reason inside an encryption error; for any other error, its text.
pub open spec fn failure_reason(e: ErrorView) -> Seq<char> {
    match e {
        ErrorView::Encryption(reason) => reason,
        _ => e.text(),
    }
}

/// The storage error for a refresh token that does not decrypt.
pub open spec fn decrypt_failure(e: ErrorView) -> ErrorView {
    ErrorView::Storage(
        StorageErrorView::Other("failed to decrypt refresh token: "@ + failure_reason(e)),
    )
}

/// The storage error for a refresh token that could not be encrypted.
pub open spec fn encrypt_failure(e: ErrorView) -> ErrorView {
    ErrorView::Storage(
        StorageErrorView::Other("failed to encrypt refresh token: "@ + failure_reason(e)),
    )
}

/// The user that `row` stands for under `key`: the row with its refresh
/// token decrypted, and an error where the token does not decrypt.
pub open spec fn row_user(row: UserRow, key: Seq<char>) -> Result<UserView, ErrorView> {
    let clear = match row.refresh_token {
        Some(stored) => match decrypted(stored@, key) {
            Ok(token) => Ok(Some(token)),
            Err(e) => Err(decrypt_failure(e)),
        },
        None => Ok(None),
    };
    match clear {
        Ok(refresh_token) => Ok(
            UserView {
                user_id: row.user_id,
                username: row.username@,
                global_name: opt_text(row.global_name),
                avatar_url: opt_text(row.avatar_url),
                refresh_token,
                token_expires_at: row.token_expires_at,
                subscription_tier: row.subscription_tier,
                subscription_source: row.subscription_source,
                subscription_expires_at: row.subscription_expires_at,
                created_at: row.created_at,
                updated_at: row.updated_at,
            },
        ),
        Err(e) => Err(e),
    }
}

/// The encrypted form in which `token` is written under `key`, sealed with
/// `nonce`.
pub open spec fn stored_token(token: Seq<char>, key: Seq<char>, nonce: Seq<u8>) -> Result<
    Seq<char>,
    ErrorView,
> {
    match encrypted(token, key, nonce) {
        Ok(sealed) => Ok(sealed),
        Err(e) => Err(encrypt_failure(e)),
    }
}

fn reason_of(e: Error) -> (reason: String)
    ensures
        reason@ == failure_reason(e@),
{
    match e {
        Error::Encryption(reason) => reason,
        other => other.to_string(),
    }
}

fn storage_failure(prefix: &str, e: Error) -> (failure: Error)
    ensures
        failure@ == ErrorView::Storage(StorageErrorView::Other(prefix@ + failure_reason(e@))),
{
    let reason = reason_of(e);
    let mut message = String::from_str(prefix);
    message.append(reason.as_str());
    Error::Storage(StorageError::Other(message))
}

/// Turns a row into the user it stands for, decrypting its refresh token.
pub fn user_from_row(row: UserRow, encryption_key: &str) -> (r: Result<User, Error>)
    ensures
        match r {
            Ok(u) => row_user(row, encryption_key@) == Ok::<UserView, ErrorView>(u@),
            Err(e) => row_user(row, encryption_key@) == Err::<UserView, ErrorView>(e@),
        },
{
    let refresh_token = match &row.refresh_token {
        Some(stored) => match decrypt(stored.as_str(), encryption_key) {
            Ok(token) => Some(token),
            Err(e) => {
                return Err(storage_failure("failed to decrypt refresh token: ", e));
            },
        },
        None => None,
    };
    Ok(
        User {
            user_id: row.user_id,
            username: row.username,
            global_name: row.global_name,
            avatar_url: row.avatar_url,
            refresh_token,
            token_expires_at: row.token_expires_at,
            subscription_tier: row.subscription_tier,
            subscription_source: row.subscription_source,
            subscription_expires_at: row.subscription_expires_at,
            created_at: row.created_at,
            updated_at: row.updated_at,
        },
    )
}

/// Encrypts a refresh token for writing. What is written decrypts under
/// the same key to the token, and is never the token itself.
pub fn encrypt_refresh_token(refresh_token: &str, encryption_key: &str) -> (r: Result<String, Error>)
    ensures
        exists|nonce: Seq<u8>|
            nonce.len() == NONCE_LEN && text_result(r) == #[trigger] stored_token(
                refresh_token@,
                encryption_key@,
                nonce,
            ),
        r matches Ok(sealed) ==> decrypted(sealed@, encryption_key@) == Ok::<Seq<char>, ErrorView>(
            refresh_token@,
        ),
        r matches Ok(sealed) ==> sealed@ != refresh_token@,
{
    let sealed = encrypt(refresh_token, encryption_key);
    let ghost nonce = choose|nonce: Seq<u8>|
        nonce.len() == NONCE_LEN && text_result(sealed) == #[trigger] encrypted(
            refresh_token@,
            encryption_key@,
            nonce,
        );
    let r = match sealed {
        Ok(sealed) => Ok(sealed),
        Err(e) => Err(storage_failure("failed to encrypt refresh token: ", e)),
    };
    assert(text_result(r) == stored_token(refresh_token@, encryption_key@, nonce));
    r
}

/// The encrypted form in which the refresh token of an upsert is written,
/// where it holds one.
pub open spec fn stored_optional_token(token: Option<Seq<char>>, key: Seq<char>, nonce: Seq<u8>) -> Result<
    Option<Seq<char>>,
    ErrorView,
> {
    match token {
        Some(t) => match stored_token(t, key, nonce) {
            Ok(sealed) => Ok(Some(sealed)),
            Err(e) => Err(e),
        },
        None => Ok(None),
    }
}

/// An optional text or an error, as plain values.
pub open spec fn opt_text_result(r: Result<Option<String>, Error>) -> Result<
    Option<Seq<char>>,
    ErrorView,
> {
    match r {
        Ok(s) => Ok(opt_text(s)),
        Err(e) => Err(e@),
    }
}

/// Encrypts the refresh token of an upsert, where it holds one. What is
/// written decrypts under the same key to the token, and is never the
/// token itself.
pub fn encrypt_optional_token(refresh_token: Option<&str>, encryption_key: &str) -> (r: Result<
    Option<String>,
    Error,
>)
    ensures
        exists|nonce: Seq<u8>|
            nonce.len() == NONCE_LEN && opt_text_result(r) == #[trigger] stored_optional_token(
                opt_str_text(refresh_token),
                encryption_key@,
                nonce,
            ),
        r matches Ok(Some(sealed)) ==> refresh_token is Some && decrypted(sealed@, encryption_key@)
            == Ok::<Seq<char>, ErrorView>(refresh_token->0@) && sealed@ != refresh_token->0@,
{
    match refresh_token {
        Some(token) => {
            let sealed = encrypt_refresh_token(token, encryption_key);
            let ghost nonce = choose|nonce: Seq<u8>|
                nonce.len() == NONCE_LEN && text_result(sealed) == #[trigger] stored_token(
                    token@,
                    encryption_key@,
                    nonce,
                );
            let r = match sealed {
                Ok(sealed) => Ok(Some(sealed)),
                Err(e) => Err(e),
            };
            assert(opt_text_result(r) == stored_optional_token(
                opt_str_text(refresh_token),
                encryption_key@,
                nonce,
            ));
            r
        },
        None => {
            let r = Ok(None);
            assert(opt_text_result(r) == stored_optional_token(
                opt_str_text(refresh_token),
                encryption_key@,
                Seq::new(NONCE_LEN as nat, |i: int| 0u8),
            ));
            r
        },
    }
}

/// A row fails closed. Where its stored refresh token does not decrypt
/// under the key, the row is a storage error and no user; where it is a
/// user, the refresh token of the user is what the stored one decrypts to,
/// never the stored one taken for a token.
pub proof fn lemma_row_fails_closed(row: UserRow, key: Seq<char>)
    requires
        row.refresh_token is Some,
    ensures
        decrypted(row.refresh_token->0@, key) is Err ==> row_user(row, key) == Err::<
            UserView,
            ErrorView,
        >(decrypt_failure(decrypted(row.refresh_token->0@, key)->Err_0)),
        row_user(row, key) matches Ok(user) ==> decrypted(row.refresh_token->0@, key) == Ok::<
            Seq<char>,
            ErrorView,
        >(user.refresh_token->0) && user.refresh_token is Some,
{
}

} // verus!
