//! Storage in the memory of the process, for tests and development. It
//! keeps refresh tokens in the clear and never fails.

use std::collections::HashMap;
use vstd::prelude::*;

use crate::error::Error;
use crate::models::subscription::{SubscriptionSource, SubscriptionTier};
use crate::models::user::{EntitlementUpsertParams, User, UserUpsertParams, UserView};
use crate::storage::{
    entitlements_after_upsert, lookup, merge_entitlement, merge_user, opt_user_view,
    users_after_subscription_update, users_after_token_clear, users_after_token_update,
    users_after_upsert, EntitlementStorage, UserStorage,
};
use crate::time::{clock_now, Timestamp};

verus! {

broadcast use vstd::std_specs::hash::group_hash_axioms;

/// Users and entitlements, each in a map by id.
#[derive(Debug)]
pub struct MemoryStorage {
    users: HashMap<i64, User>,
    entitlements: HashMap<i64, EntitlementUpsertParams>,
}

impl MemoryStorage {
    /// The users that are stored, as plain values.
    pub closed spec fn user_views(&self) -> Map<i64, UserView> {
        Map::new(|id: i64| self.users@.contains_key(id), |id: i64| self.users@[id]@)
    }

    /// The entitlements that are stored.
    pub closed spec fn entitlement_map(&self) -> Map<i64, EntitlementUpsertParams> {
        self.entitlements@
    }

    /// An empty storage.
    pub fn new() -> (storage: Self)
        ensures
            storage.user_views() == Map::<i64, UserView>::empty(),
            storage.entitlement_map() == Map::<i64, EntitlementUpsertParams>::empty(),
    {
        let storage = MemoryStorage { users: HashMap::new(), entitlements: HashMap::new() };
        assert(storage.user_views() =~= Map::<i64, UserView>::empty());
        storage
    }

    /// Drops everything that is stored.
    pub fn clear(&mut self)
        ensures
            final(self).user_views() == Map::<i64, UserView>::empty(),
            final(self).entitlement_map() == Map::<i64, EntitlementUpsertParams>::empty(),
    {
        self.users.clear();
        self.entitlements.clear();
        assert(self.user_views() =~= Map::<i64, UserView>::empty());
    }

    /// The number of users that are stored.
    pub fn user_count(&self) -> (count: usize)
        ensures
            count == self.user_views().dom().len(),
    {
        assert(self.user_views().dom() =~= self.users@.dom());
        self.users.len()
    }

    /// The number of entitlements that are stored.
    pub fn entitlement_count(&self) -> (count: usize)
        ensures
            count == self.entitlement_map().dom().len(),
    {
        self.entitlements.len()
    }

    /// A copy of the user with this id, if there is one.
    pub fn find_user(&self, user_id: i64) -> (found: Option<User>)
        ensures
            opt_user_view(found) == lookup(self.user_views(), user_id),
    {
        match self.users.get(&user_id) {
            Some(u) => Some(u.duplicate()),
            None => None,
        }
    }

    /// Creates the user or merges the parameters into the stored record,
    /// with `now` as the instant of the change.
    pub fn upsert_user_at(&mut self, params: &UserUpsertParams<'_>, now: Timestamp)
        ensures
            final(self).user_views() == users_after_upsert(old(self).user_views(), params@, now),
            final(self).entitlement_map() == old(self).entitlement_map(),
    {
        let merged = merge_user(self.users.get(&params.user_id), params, now);
        self.users.insert(params.user_id, merged);
        assert(self.user_views() =~= users_after_upsert(old(self).user_views(), params@, now));
    }

    /// Replaces the refresh token and its expiry of an existing user, with
    /// `now` as the instant of the change.
    pub fn update_refresh_token_at(
        &mut self,
        user_id: i64,
        refresh_token: &str,
        token_expires_at: Timestamp,
        now: Timestamp,
    )
        ensures
            final(self).user_views() == users_after_token_update(
                old(self).user_views(),
                user_id,
                refresh_token@,
                token_expires_at,
                now,
            ),
            final(self).entitlement_map() == old(self).entitlement_map(),
    {
        let changed = match self.users.get(&user_id) {
            Some(u) => {
                let mut copy = u.duplicate();
                copy.refresh_token = Some(refresh_token.to_owned());
                copy.token_expires_at = Some(token_expires_at);
                copy.updated_at = now;
                Some(copy)
            },
            None => None,
        };
        match changed {
            Some(u) => {
                self.users.insert(user_id, u);
            },
            None => {},
        }
        assert(self.user_views() =~= users_after_token_update(
            old(self).user_views(),
            user_id,
            refresh_token@,
            token_expires_at,
            now,
        ));
    }

    /// Clears the refresh token and its expiry, with `now` as the instant
    /// of the change.
    pub fn clear_user_tokens_at(&mut self, user_id: i64, now: Timestamp)
        ensures
            final(self).user_views() == users_after_token_clear(
                old(self).user_views(),
                user_id,
                now,
            ),
            final(self).entitlement_map() == old(self).entitlement_map(),
    {
        let changed = match self.users.get(&user_id) {
            Some(u) => {
                let mut copy = u.duplicate();
                copy.refresh_token = None;
                copy.token_expires_at = None;
                copy.updated_at = now;
                Some(copy)
            },
            None => None,
        };
        match changed {
            Some(u) => {
                self.users.insert(user_id, u);
            },
            None => {},
        }
        assert(self.user_views() =~= users_after_token_clear(old(self).user_views(), user_id, now));
    }

    /// Sets the subscription of an existing user, with `now` as the instant
    /// of the change.
    pub fn update_subscription_at(
        &mut self,
        user_id: i64,
        tier: SubscriptionTier,
        source: SubscriptionSource,
        expires_at: Option<Timestamp>,
        now: Timestamp,
    )
        ensures
            final(self).user_views() == users_after_subscription_update(
                old(self).user_views(),
                user_id,
                tier,
                source,
                expires_at,
                now,
            ),
            final(self).entitlement_map() == old(self).entitlement_map(),
    {
        let changed = match self.users.get(&user_id) {
            Some(u) => {
                let mut copy = u.duplicate();
                copy.subscription_tier = tier;
                copy.subscription_source = Some(source);
                copy.subscription_expires_at = expires_at;
                copy.updated_at = now;
                Some(copy)
            },
            None => None,
        };
        match changed {
            Some(u) => {
                self.users.insert(user_id, u);
            },
            None => {},
        }
        assert(self.user_views() =~= users_after_subscription_update(
            old(self).user_views(),
            user_id,
            tier,
            source,
            expires_at,
            now,
        ));
    }
}

impl UserStorage for MemoryStorage {
    open spec fn users(&self) -> Map<i64, UserView> {
        self.user_views()
    }

    fn get_user(&self, user_id: i64, encryption_key: &str) -> (r: Result<Option<User>, Error>)
        ensures
            r is Ok,
    {
        Ok(self.find_user(user_id))
    }

    fn upsert_user(&mut self, params: UserUpsertParams<'_>, encryption_key: &str) -> (r: Result<
        (),
        Error,
    >)
        ensures
            r is Ok,
            final(self).entitlement_map() == old(self).entitlement_map(),
    {
        let now = clock_now();
        self.upsert_user_at(&params, now);
        assert(self.users() == users_after_upsert(old(self).users(), params@, now));
        Ok(())
    }

    fn update_refresh_token(
        &mut self,
        user_id: i64,
        refresh_token: &str,
        token_expires_at: Timestamp,
        encryption_key: &str,
    ) -> (r: Result<(), Error>)
        ensures
            r is Ok,
            final(self).entitlement_map() == old(self).entitlement_map(),
    {
        let now = clock_now();
        self.update_refresh_token_at(user_id, refresh_token, token_expires_at, now);
        assert(self.users() == users_after_token_update(
            old(self).users(),
            user_id,
            refresh_token@,
            token_expires_at,
            now,
        ));
        Ok(())
    }

    fn clear_user_tokens(&mut self, user_id: i64) -> (r: Result<(), Error>)
        ensures
            r is Ok,
            final(self).entitlement_map() == old(self).entitlement_map(),
    {
        let now = clock_now();
        self.clear_user_tokens_at(user_id, now);
        assert(self.users() == users_after_token_clear(old(self).users(), user_id, now));
        Ok(())
    }

    fn update_subscription(
        &mut self,
        user_id: i64,
        tier: SubscriptionTier,
        source: SubscriptionSource,
        expires_at: Option<Timestamp>,
    ) -> (r: Result<(), Error>)
        ensures
            r is Ok,
            final(self).entitlement_map() == old(self).entitlement_map(),
    {
        let now = clock_now();
        self.update_subscription_at(user_id, tier, source, expires_at, now);
        assert(self.users() == users_after_subscription_update(
            old(self).users(),
            user_id,
            tier,
            source,
            expires_at,
            now,
        ));
        Ok(())
    }
}

impl EntitlementStorage for MemoryStorage {
    open spec fn entitlements(&self) -> Map<i64, EntitlementUpsertParams> {
        self.entitlement_map()
    }

    fn upsert_entitlement(&mut self, params: EntitlementUpsertParams) -> (r: Result<(), Error>)
        ensures
            r is Ok,
            final(self).user_views() == old(self).user_views(),
    {
        let merged = merge_entitlement(self.entitlements.get(&params.entitlement_id), params);
        self.entitlements.insert(params.entitlement_id, merged);
        assert(self.entitlement_map() =~= entitlements_after_upsert(
            old(self).entitlement_map(),
            params,
        ));
        Ok(())
    }
}

} // verus!
