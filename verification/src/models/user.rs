//! The user record and the parameters of the storage operations.

use vstd::prelude::*;

use crate::models::subscription::{SubscriptionSource, SubscriptionTier};
use crate::time::{clock_now, Timestamp};

verus! {

/// The characters of an optional string.
pub open spec fn opt_text(s: Option<String>) -> Option<Seq<char>> {
    match s {
        Some(t) => Some(t@),
        None => None,
    }
}

/// The characters of an optional string slice.
pub open spec fn opt_str_text(s: Option<&str>) -> Option<Seq<char>> {
    match s {
        Some(t) => Some(t@),
        None => None,
    }
}

/// Copies an optional string.
pub fn clone_opt_string(s: &Option<String>) -> (r: Option<String>)
    ensures
        opt_text(r) == opt_text(*s),
{
    match s {
        Some(t) => Some(t.clone()),
        None => None,
    }
}

/// Owns an optional string slice.
pub fn own_opt_str(s: Option<&str>) -> (r: Option<String>)
    ensures
        opt_text(r) == opt_str_text(s),
{
    match s {
        Some(t) => Some(t.to_owned()),
        None => None,
    }
}

/// A user who signed in through Discord.
#[derive(Debug, Clone)]
pub struct User {
    /// Discord user id.
    pub user_id: i64,
    /// Discord username.
    pub username: String,
    /// Discord display name.
    pub global_name: Option<String>,
    /// URL of the user's avatar.
    pub avatar_url: Option<String>,
    /// Discord refresh token, in the clear.
    pub refresh_token: Option<String>,
    /// When the Discord token expires.
    pub token_expires_at: Option<Timestamp>,
    /// Subscription tier.
    pub subscription_tier: SubscriptionTier,
    /// Where the subscription came from.
    pub subscription_source: Option<SubscriptionSource>,
    /// When the subscription ends; `None` means it never does.
    pub subscription_expires_at: Option<Timestamp>,
    /// When the record was created.
    pub created_at: Timestamp,
    /// When the record was last changed.
    pub updated_at: Timestamp,
}

/// What a `User` holds, as plain values.
pub ghost struct UserView {
    pub user_id: i64,
    pub username: Seq<char>,
    pub global_name: Option<Seq<char>>,
    pub avatar_url: Option<Seq<char>>,
    pub refresh_token: Option<Seq<char>>,
    pub token_expires_at: Option<Timestamp>,
    pub subscription_tier: SubscriptionTier,
    pub subscription_source: Option<SubscriptionSource>,
    pub subscription_expires_at: Option<Timestamp>,
    pub created_at: Timestamp,
    pub updated_at: Timestamp,
}

impl View for User {
    type V = UserView;

    open spec fn view(&self) -> UserView {
        UserView {
            user_id: self.user_id,
            username: self.username@,
            global_name: opt_text(self.global_name),
            avatar_url: opt_text(self.avatar_url),
            refresh_token: opt_text(self.refresh_token),
            token_expires_at: self.token_expires_at,
            subscription_tier: self.subscription_tier,
            subscription_source: self.subscription_source,
            subscription_expires_at: self.subscription_expires_at,
            created_at: self.created_at,
            updated_at: self.updated_at,
        }
    }
}

impl UserView {
    /// Premium access at the instant `now`: the tier is premium and the
    /// subscription has no end or ends strictly after `now`.
    pub open spec fn premium_at(self, now: Timestamp) -> bool {
        self.subscription_tier == SubscriptionTier::Premium && match self.subscription_expires_at {
            Some(end) => end.after(now),
            None => true,
        }
    }

    /// The name to show: the display name where there is one.
    pub open spec fn display_name(self) -> Seq<char> {
        match self.global_name {
            Some(name) => name,
            None => self.username,
        }
    }
}

impl User {
    /// Tells whether the user has premium access at `now`.
    pub fn is_premium_at(&self, now: Timestamp) -> (premium: bool)
        ensures
            premium == self@.premium_at(now),
    {
        if !self.subscription_tier.is_premium() {
            return false;
        }
        match self.subscription_expires_at {
            Some(end) => end.is_after(&now),
            None => true,
        }
    }

    /// Tells whether the user has premium access at the instant the clock
    /// shows during the call.
    pub fn is_premium(&self) -> (premium: bool)
        ensures
            exists|now: Timestamp| premium == self@.premium_at(now),
    {
        let now = clock_now();
        self.is_premium_at(now)
    }

    /// The name to show for the user: the display name, else the username.
    pub fn display_name(&self) -> (name: &str)
        ensures
            name@ == self@.display_name(),
    {
        match &self.global_name {
            Some(name) => name.as_str(),
            None => self.username.as_str(),
        }
    }

    /// A copy of the record.
    pub fn duplicate(&self) -> (copy: User)
        ensures
            copy@ == self@,
    {
        User {
            user_id: self.user_id,
            username: self.username.clone(),
            global_name: clone_opt_string(&self.global_name),
            avatar_url: clone_opt_string(&self.avatar_url),
            refresh_token: clone_opt_string(&self.refresh_token),
            token_expires_at: self.token_expires_at,
            subscription_tier: self.subscription_tier,
            subscription_source: self.subscription_source,
            subscription_expires_at: self.subscription_expires_at,
            created_at: self.created_at,
            updated_at: self.updated_at,
        }
    }
}

/// Premium access is derived, never stored: a premium tier without end is
/// active; one whose end lies after `now` is active; one whose end does
/// not lie after `now` is not; and the free tier is never active, whatever
/// its end.
pub proof fn lemma_premium_activity(user: UserView, now: Timestamp)
    ensures
        user.subscription_tier == SubscriptionTier::Premium ==> (user.premium_at(now) <==> (
            user.subscription_expires_at is None || user.subscription_expires_at->0.after(now))),
        user.subscription_tier == SubscriptionTier::Free ==> !user.premium_at(now),
{
}

/// Parameters for creating or updating a user.
#[derive(Debug, Clone)]
pub struct UserUpsertParams<'a> {
    pub user_id: i64,
    pub username: &'a str,
    pub global_name: Option<&'a str>,
    pub avatar_url: Option<&'a str>,
    pub refresh_token: Option<&'a str>,
    pub token_expires_at: Option<Timestamp>,
}

/// What `UserUpsertParams` hold, as plain values.
pub ghost struct UserUpsertView {
    pub user_id: i64,
    pub username: Seq<char>,
    pub global_name: Option<Seq<char>>,
    pub avatar_url: Option<Seq<char>>,
    pub refresh_token: Option<Seq<char>>,
    pub token_expires_at: Option<Timestamp>,
}

impl<'a> View for UserUpsertParams<'a> {
    type V = UserUpsertView;

    open spec fn view(&self) -> UserUpsertView {
        UserUpsertView {
            user_id: self.user_id,
            username: self.username@,
            global_name: opt_str_text(self.global_name),
            avatar_url: opt_str_text(self.avatar_url),
            refresh_token: opt_str_text(self.refresh_token),
            token_expires_at: self.token_expires_at,
        }
    }
}

/// Parameters for creating or updating an entitlement.
#[derive(Debug, Clone, Copy, PartialEq, Eq, Structural)]
pub struct EntitlementUpsertParams {
    pub entitlement_id: i64,
    pub user_id: i64,
    pub sku_id: i64,
    pub entitlement_type: i32,
    pub is_test: bool,
    pub consumed: bool,
    pub starts_at: Option<Timestamp>,
    pub ends_at: Option<Timestamp>,
}

} // verus!
