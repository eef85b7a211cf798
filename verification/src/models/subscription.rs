//! Subscription tier and source, with their stored text form.

use vstd::prelude::*;

use crate::text::str_eq;

verus! {

/// Subscription tier of a user.
#[derive(Debug, Clone, Copy, PartialEq, Eq, Structural)]
pub enum SubscriptionTier {
    /// Free tier; what a new user gets.
    Free,
    /// Premium tier.
    Premium,
}

impl Default for SubscriptionTier {
    fn default() -> (tier: Self)
        ensures
            tier == SubscriptionTier::Free,
    {
        SubscriptionTier::Free
    }
}

/// Where a subscription came from.
#[derive(Debug, Clone, Copy, PartialEq, Eq, Structural)]
pub enum SubscriptionSource {
    /// Granted through Discord's monetization (an entitlement).
    Discord,
    /// Granted by hand.
    Manual,
    /// Granted by another payment provider.
    External,
}

impl SubscriptionTier {
    /// True exactly for the premium tier.
    #[must_use]
    pub fn is_premium(&self) -> (premium: bool)
        ensures
            premium == (*self == SubscriptionTier::Premium),
    {
        matches!(self, SubscriptionTier::Premium)
    }

    /// The stored name of the tier.
    pub open spec fn name(self) -> Seq<char> {
        match self {
            SubscriptionTier::Free => "free"@,
            SubscriptionTier::Premium => "premium"@,
        }
    }

    /// The tier that a stored name stands for; an unknown name stands for
    /// the free tier.
    pub open spec fn named(name: Seq<char>) -> SubscriptionTier {
        if name == "premium"@ {
            SubscriptionTier::Premium
        } else {
            SubscriptionTier::Free
        }
    }

    /// The name under which the tier is stored.
    pub fn as_str(&self) -> (name: &'static str)
        ensures
            name@ == self.name(),
    {
        match self {
            SubscriptionTier::Free => "free",
            SubscriptionTier::Premium => "premium",
        }
    }

    /// Reads a stored name.
    pub fn decode(name: &str) -> (tier: Self)
        ensures
            tier == SubscriptionTier::named(name@),
    {
        if str_eq(name, "premium") {
            SubscriptionTier::Premium
        } else {
            SubscriptionTier::Free
        }
    }
}

impl SubscriptionSource {
    /// The stored name of the source.
    pub open spec fn name(self) -> Seq<char> {
        match self {
            SubscriptionSource::Discord => "discord"@,
            SubscriptionSource::Manual => "manual"@,
            SubscriptionSource::External => "external"@,
        }
    }

    /// The source that a stored name stands for; an unknown name stands for
    /// Discord.
    pub open spec fn named(name: Seq<char>) -> SubscriptionSource {
        if name == "manual"@ {
            SubscriptionSource::Manual
        } else if name == "external"@ {
            SubscriptionSource::External
        } else {
            SubscriptionSource::Discord
        }
    }

    /// The name under which the source is stored.
    pub fn as_str(&self) -> (name: &'static str)
        ensures
            name@ == self.name(),
    {
        match self {
            SubscriptionSource::Discord => "discord",
            SubscriptionSource::Manual => "manual",
            SubscriptionSource::External => "external",
        }
    }

    /// Reads a stored name.
    pub fn decode(name: &str) -> (source: Self)
        ensures
            source == SubscriptionSource::named(name@),
    {
        if str_eq(name, "manual") {
            SubscriptionSource::Manual
        } else if str_eq(name, "external") {
            SubscriptionSource::External
        } else {
            SubscriptionSource::Discord
        }
    }
}

/// A stored name reads back as the tier it was written for.
pub proof fn lemma_tier_name_round_trip(tier: SubscriptionTier)
    ensures
        SubscriptionTier::named(tier.name()) == tier,
{
    reveal_strlit("free");
    reveal_strlit("premium");
    assert("free"@.len() == 4 && "premium"@.len() == 7);
}

/// A stored name reads back as the source it was written for.
pub proof fn lemma_source_name_round_trip(source: SubscriptionSource)
    ensures
        SubscriptionSource::named(source.name()) == source,
{
    reveal_strlit("discord");
    reveal_strlit("manual");
    reveal_strlit("external");
    assert("discord"@.len() == 7 && "manual"@.len() == 6 && "external"@.len() == 8);
}

} // verus!
