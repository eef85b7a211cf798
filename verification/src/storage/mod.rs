//! The storage contract: what each operation on users and entitlements
//! does to what is stored, whatever stores it.

use vstd::prelude::*;

use crate::error::Error;
use crate::models::subscription::{SubscriptionSource, SubscriptionTier};
use crate::models::user::{
    clone_opt_string, opt_str_text, opt_text, own_opt_str, EntitlementUpsertParams, User,
    UserUpsertParams, UserUpsertView, UserView,
};
use crate::time::Timestamp;

pub mod memory;
pub mod rows;

pub use memory::MemoryStorage;

verus! {

/// What is stored under `key`, if anything.
pub open spec fn lookup<V>(m: Map<i64, V>, key: i64) -> Option<V> {
    if m.contains_key(key) {
        Some(m[key])
    } else {
        None
    }
}

/// What an optional user holds, as plain values.
pub open spec fn opt_user_view(u: Option<User>) -> Option<UserView> {
    match u {
        Some(u) => Some(u@),
        None => None,
    }
}

/// What an optional borrowed user holds, as plain values.
pub open spec fn opt_user_ref_view(u: Option<&User>) -> Option<UserView> {
    match u {
        Some(u) => Some(u@),
        None => None,
    }
}

/// What an upsert leaves of an optional field: the value of the
/// parameters where they hold one, else what was stored.
pub open spec fn present_or<T>(given: Option<T>, stored: Option<T>) -> Option<T> {
    if given is Some {
        given
    } else {
        stored
    }
}

/// The record that an upsert leaves. A new user starts on the free tier.
/// For an existing user the username is overwritten; the display name, the
/// avatar, the refresh token and its expiry are overwritten where the
/// parameters hold one and kept where they hold none, so that an upsert
/// never clears a field; the subscription and the date of creation are
/// kept.
pub open spec fn merged_user(existing: Option<UserView>, params: UserUpsertView, now: Timestamp) -> UserView {
    match existing {
        Some(u) => UserView {
            username: params.username,
            global_name: present_or(params.global_name, u.global_name),
            avatar_url: present_or(params.avatar_url, u.avatar_url),
            refresh_token: present_or(params.refresh_token, u.refresh_token),
            token_expires_at: present_or(params.token_expires_at, u.token_expires_at),
            updated_at: now,
            ..u
        },
        None => UserView {
            user_id: params.user_id,
            username: params.username,
            global_name: params.global_name,
            avatar_url: params.avatar_url,
            refresh_token: params.refresh_token,
            token_expires_at: params.token_expires_at,
            subscription_tier: SubscriptionTier::Free,
            subscription_source: None,
            subscription_expires_at: None,
            created_at: now,
            updated_at: now,
        },
    }
}

/// The record that an upsert of an entitlement leaves: for an entitlement
/// already stored only the consumed flag and the end change.
pub open spec fn merged_entitlement(
    existing: Option<EntitlementUpsertParams>,
    params: EntitlementUpsertParams,
) -> EntitlementUpsertParams {
    match existing {
        Some(e) => EntitlementUpsertParams { consumed: params.consumed, ends_at: params.ends_at, ..e },
        None => params,
    }
}

/// The users after an upsert at `now`.
pub open spec fn users_after_upsert(
    users: Map<i64, UserView>,
    params: UserUpsertView,
    now: Timestamp,
) -> Map<i64, UserView> {
    users.insert(params.user_id, merged_user(lookup(users, params.user_id), params, now))
}

/// The users after the refresh token of `user_id` was replaced at `now`:
/// nothing changes where there is no such user.
pub open spec fn users_after_token_update(
    users: Map<i64, UserView>,
    user_id: i64,
    refresh_token: Seq<char>,
    token_expires_at: Timestamp,
    now: Timestamp,
) -> Map<i64, UserView> {
    if users.contains_key(user_id) {
        users.insert(
            user_id,
            UserView {
                refresh_token: Some(refresh_token),
                token_expires_at: Some(token_expires_at),
                updated_at: now,
                ..users[user_id]
            },
        )
    } else {
        users
    }
}

/// The users after the tokens of `user_id` were cleared at `now`.
pub open spec fn users_after_token_clear(users: Map<i64, UserView>, user_id: i64, now: Timestamp) -> Map<
    i64,
    UserView,
> {
    if users.contains_key(user_id) {
        users.insert(
            user_id,
            UserView {
                refresh_token: None,
                token_expires_at: None,
                updated_at: now,
                ..users[user_id]
            },
        )
    } else {
        users
    }
}

/// The users after the subscription of `user_id` was set at `now`: tier,
/// source and end change together.
pub open spec fn users_after_subscription_update(
    users: Map<i64, UserView>,
    user_id: i64,
    tier: SubscriptionTier,
    source: SubscriptionSource,
    expires_at: Option<Timestamp>,
    now: Timestamp,
) -> Map<i64, UserView> {
    if users.contains_key(user_id) {
        users.insert(
            user_id,
            UserView {
                subscription_tier: tier,
                subscription_source: Some(source),
                subscription_expires_at: expires_at,
                updated_at: now,
                ..users[user_id]
            },
        )
    } else {
        users
    }
}

/// The entitlements after an upsert.
pub open spec fn entitlements_after_upsert(
    entitlements: Map<i64, EntitlementUpsertParams>,
    params: EntitlementUpsertParams,
) -> Map<i64, EntitlementUpsertParams> {
    entitlements.insert(
        params.entitlement_id,
        merged_entitlement(lookup(entitlements, params.entitlement_id), params),
    )
}

fn given_or_stored(given: Option<&str>, stored: &Option<String>) -> (r: Option<String>)
    ensures
        opt_text(r) == present_or(opt_str_text(given), opt_text(*stored)),
{
    if given.is_some() {
        own_opt_str(given)
    } else {
        clone_opt_string(stored)
    }
}

/// Merges the parameters of an upsert into the record that is stored, if
/// one is.
pub fn merge_user(existing: Option<&User>, params: &UserUpsertParams<'_>, now: Timestamp) -> (u: User)
    ensures
        u@ == merged_user(opt_user_ref_view(existing), params@, now),
{
    match existing {
        Some(old) => User {
            user_id: old.user_id,
            username: params.username.to_owned(),
            global_name: given_or_stored(params.global_name, &old.global_name),
            avatar_url: given_or_stored(params.avatar_url, &old.avatar_url),
            refresh_token: given_or_stored(params.refresh_token, &old.refresh_token),
            token_expires_at: if params.token_expires_at.is_some() {
                params.token_expires_at
            } else {
                old.token_expires_at
            },
            subscription_tier: old.subscription_tier,
            subscription_source: old.subscription_source,
            subscription_expires_at: old.subscription_expires_at,
            created_at: old.created_at,
            updated_at: now,
        },
        None => User {
            user_id: params.user_id,
            username: params.username.to_owned(),
            global_name: own_opt_str(params.global_name),
            avatar_url: own_opt_str(params.avatar_url),
            refresh_token: own_opt_str(params.refresh_token),
            token_expires_at: params.token_expires_at,
            subscription_tier: SubscriptionTier::Free,
            subscription_source: None,
            subscription_expires_at: None,
            created_at: now,
            updated_at: now,
        },
    }
}

/// Merges the parameters of an upsert into the entitlement that is stored,
/// if one is.
pub fn merge_entitlement(
    existing: Option<&EntitlementUpsertParams>,
    params: EntitlementUpsertParams,
) -> (e: EntitlementUpsertParams)
    ensures
        e == merged_entitlement(
            match existing {
                Some(e) => Some(*e),
                None => None,
            },
            params,
        ),
{
    match existing {
        Some(old) => EntitlementUpsertParams {
            entitlement_id: old.entitlement_id,
            user_id: old.user_id,
            sku_id: old.sku_id,
            entitlement_type: old.entitlement_type,
            is_test: old.is_test,
            consumed: params.consumed,
            starts_at: old.starts_at,
            ends_at: params.ends_at,
        },
        None => params,
    }
}

/// An upsert never clears a field of a stored user. The display name, the
/// avatar, the refresh token and its expiry each stay as they were stored
/// where the parameters hold none, and take the value of the parameters
/// where they hold one; the username is always overwritten; the
/// subscription and the date of creation stay.
pub proof fn lemma_upsert_keeps_absent_fields(
    users: Map<i64, UserView>,
    params: UserUpsertView,
    now: Timestamp,
)
    requires
        users.contains_key(params.user_id),
    ensures
        ({
            let before = users[params.user_id];
            let after = users_after_upsert(users, params, now)[params.user_id];
            &&& after.username == params.username
            &&& params.global_name is None ==> after.global_name == before.global_name
            &&& params.global_name is Some ==> after.global_name == params.global_name
            &&& params.avatar_url is None ==> after.avatar_url == before.avatar_url
            &&& params.avatar_url is Some ==> after.avatar_url == params.avatar_url
            &&& params.refresh_token is None ==> after.refresh_token == before.refresh_token
            &&& params.refresh_token is Some ==> after.refresh_token == params.refresh_token
            &&& params.token_expires_at is None ==> after.token_expires_at
                == before.token_expires_at
            &&& params.token_expires_at is Some ==> after.token_expires_at
                == params.token_expires_at
            &&& after.user_id == before.user_id
            &&& after.subscription_tier == before.subscription_tier
            &&& after.subscription_source == before.subscription_source
            &&& after.subscription_expires_at == before.subscription_expires_at
            &&& after.created_at == before.created_at
            &&& after.updated_at == now
        }),
{
}

/// Clearing the tokens twice is clearing them once, but for the instant of
/// the last change.
pub proof fn lemma_token_clear_is_idempotent(
    users: Map<i64, UserView>,
    user_id: i64,
    first: Timestamp,
    second: Timestamp,
)
    ensures
        users_after_token_clear(users_after_token_clear(users, user_id, first), user_id, second)
            == users_after_token_clear(users, user_id, second),
{
    assert(users_after_token_clear(users_after_token_clear(users, user_id, first), user_id, second)
        =~= users_after_token_clear(users, user_id, second));
}

/// Operations on users. Each one is atomic: it either takes effect as a
/// whole or fails and changes nothing.
pub trait UserStorage {
    /// The users that are stored, by id, with their refresh tokens in the
    /// clear.
    spec fn users(&self) -> Map<i64, UserView>;

    /// The user with this id, refresh token decrypted; `None` where there
    /// is none.
    fn get_user(&self, user_id: i64, encryption_key: &str) -> (r: Result<Option<User>, Error>)
        ensures
            r matches Ok(found) ==> opt_user_view(found) == lookup(self.users(), user_id),
    ;

    /// Creates the user or merges the parameters into the stored record.
    fn upsert_user(&mut self, params: UserUpsertParams<'_>, encryption_key: &str) -> (r: Result<
        (),
        Error,
    >)
        ensures
            r is Ok ==> exists|now: Timestamp|
                final(self).users() == #[trigger] users_after_upsert(
                    old(self).users(),
                    params@,
                    now,
                ),
            r is Err ==> final(self).users() == old(self).users(),
    ;

    /// Replaces the refresh token and its expiry of an existing user.
    fn update_refresh_token(
        &mut self,
        user_id: i64,
        refresh_token: &str,
        token_expires_at: Timestamp,
        encryption_key: &str,
    ) -> (r: Result<(), Error>)
        ensures
            r is Ok ==> exists|now: Timestamp|
                final(self).users() == #[trigger] users_after_token_update(
                    old(self).users(),
                    user_id,
                    refresh_token@,
                    token_expires_at,
                    now,
                ),
            r is Err ==> final(self).users() == old(self).users(),
    ;

    /// Clears the refresh token and its expiry.
    fn clear_user_tokens(&mut self, user_id: i64) -> (r: Result<(), Error>)
        ensures
            r is Ok ==> exists|now: Timestamp|
                final(self).users() == #[trigger] users_after_token_clear(
                    old(self).users(),
                    user_id,
                    now,
                ),
            r is Err ==> final(self).users() == old(self).users(),
    ;

    /// Sets tier, source and end of the subscription, all three at once.
    fn update_subscription(
        &mut self,
        user_id: i64,
        tier: SubscriptionTier,
        source: SubscriptionSource,
        expires_at: Option<Timestamp>,
    ) -> (r: Result<(), Error>)
        ensures
            r is Ok ==> exists|now: Timestamp|
                final(self).users() == #[trigger] users_after_subscription_update(
                    old(self).users(),
                    user_id,
                    tier,
                    source,
                    expires_at,
                    now,
                ),
            r is Err ==> final(self).users() == old(self).users(),
    ;
}

/// Operations on entitlements.
pub trait EntitlementStorage {
    /// The entitlements that are stored, by id.
    spec fn entitlements(&self) -> Map<i64, EntitlementUpsertParams>;

    /// Creates the entitlement or refreshes the stored one.
    fn upsert_entitlement(&mut self, params: EntitlementUpsertParams) -> (r: Result<(), Error>)
        ensures
            r is Ok ==> final(self).entitlements() == entitlements_after_upsert(
                old(self).entitlements(),
                params,
            ),
            r is Err ==> final(self).entitlements() == old(self).entitlements(),
    ;
}

/// Both kinds of operations together.
pub trait Storage: UserStorage + EntitlementStorage {

}

impl<T: UserStorage + EntitlementStorage> Storage for T {

}

} // verus!
