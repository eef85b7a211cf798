//! The entitlement reconciliation engine: which of Discord's entitlements
//! are stored, which subscription they amount to, and the pass that stores
//! them one by one and then promotes the user.
//!
//! The engine does no I/O. A pass is a state; the caller performs the action
//! that the engine hands out and reports how it went.

use vstd::prelude::*;

use crate::error::{Error, ErrorView};
use crate::models::subscription::{SubscriptionSource, SubscriptionTier};
use crate::models::user::{clone_opt_string, opt_text, EntitlementUpsertParams};
use crate::text::{i64_of, parse_i64};
use crate::time::{later_end, Timestamp};

verus! {

/// One entitlement as Discord reports it.
#[derive(Debug, Clone)]
pub struct DiscordEntitlementResponse {
    /// Entitlement id, a decimal numeral.
    pub id: String,
    /// SKU id, a decimal numeral.
    pub sku_id: String,
    /// Id of the user who holds the entitlement.
    pub user_id: Option<String>,
    /// Type code of the entitlement.
    pub entitlement_type: i32,
    /// Discord has deleted the entitlement.
    pub deleted: bool,
    /// Start of the period of validity.
    pub starts_at: Option<Timestamp>,
    /// End of the period of validity; `None` means it never ends.
    pub ends_at: Option<Timestamp>,
    /// The entitlement has been consumed.
    pub consumed: bool,
}

/// What a `DiscordEntitlementResponse` holds, as plain values.
pub ghost struct DiscordEntitlementView {
    pub id: Seq<char>,
    pub sku_id: Seq<char>,
    pub user_id: Option<Seq<char>>,
    pub entitlement_type: i32,
    pub deleted: bool,
    pub starts_at: Option<Timestamp>,
    pub ends_at: Option<Timestamp>,
    pub consumed: bool,
}

impl View for DiscordEntitlementResponse {
    type V = DiscordEntitlementView;

    open spec fn view(&self) -> DiscordEntitlementView {
        DiscordEntitlementView {
            id: self.id@,
            sku_id: self.sku_id@,
            user_id: opt_text(self.user_id),
            entitlement_type: self.entitlement_type,
            deleted: self.deleted,
            starts_at: self.starts_at,
            ends_at: self.ends_at,
            consumed: self.consumed,
        }
    }
}

impl DiscordEntitlementResponse {
    /// A copy of the entitlement.
    pub fn duplicate(&self) -> (copy: DiscordEntitlementResponse)
        ensures
            copy@ == self@,
    {
        DiscordEntitlementResponse {
            id: self.id.clone(),
            sku_id: self.sku_id.clone(),
            user_id: clone_opt_string(&self.user_id),
            entitlement_type: self.entitlement_type,
            deleted: self.deleted,
            starts_at: self.starts_at,
            ends_at: self.ends_at,
            consumed: self.consumed,
        }
    }
}

/// The views of a list of reported entitlements.
pub open spec fn entitlement_views(es: Seq<DiscordEntitlementResponse>) -> Seq<
    DiscordEntitlementView,
> {
    es.map_values(|e: DiscordEntitlementResponse| e@)
}

/// What is stored for a reported entitlement of `user_id`: nothing where
/// Discord has deleted it or one of its two ids is no decimal `i64`.
pub open spec fn planned_upsert(user_id: i64, e: DiscordEntitlementView) -> Option<
    EntitlementUpsertParams,
> {
    if e.deleted {
        None
    } else {
        match (i64_of(e.id), i64_of(e.sku_id)) {
            (Some(entitlement_id), Some(sku_id)) => Some(
                EntitlementUpsertParams {
                    entitlement_id,
                    user_id,
                    sku_id,
                    entitlement_type: e.entitlement_type,
                    is_test: false,
                    consumed: e.consumed,
                    starts_at: e.starts_at,
                    ends_at: e.ends_at,
                },
            ),
            _ => None,
        }
    }
}

/// What is stored for a list of reported entitlements, in the order of the
/// list; the skipped ones leave no gap.
pub open spec fn planned_upserts(user_id: i64, es: Seq<DiscordEntitlementView>) -> Seq<
    EntitlementUpsertParams,
>
    decreases es.len(),
{
    if es.len() == 0 {
        Seq::empty()
    } else {
        let before = planned_upserts(user_id, es.drop_last());
        match planned_upsert(user_id, es.last()) {
            Some(p) => before.push(p),
            None => before,
        }
    }
}

/// Decides what is stored for one reported entitlement.
pub fn plan_upsert(user_id: i64, e: &DiscordEntitlementResponse) -> (r: Option<
    EntitlementUpsertParams,
>)
    ensures
        r == planned_upsert(user_id, e@),
{
    if e.deleted {
        return None;
    }
    let entitlement_id = match parse_i64(e.id.as_str()) {
        Some(id) => id,
        None => {
            return None;
        },
    };
    let sku_id = match parse_i64(e.sku_id.as_str()) {
        Some(id) => id,
        None => {
            return None;
        },
    };
    Some(
        EntitlementUpsertParams {
            entitlement_id,
            user_id,
            sku_id,
            entitlement_type: e.entitlement_type,
            is_test: false,
            consumed: e.consumed,
            starts_at: e.starts_at,
            ends_at: e.ends_at,
        },
    )
}

/// Decides what is stored for a list of reported entitlements.
pub fn plan_upserts(user_id: i64, entitlements: &Vec<DiscordEntitlementResponse>) -> (plan: Vec<
    EntitlementUpsertParams,
>)
    ensures
        plan@ == planned_upserts(user_id, entitlement_views(entitlements@)),
{
    let ghost views = entitlement_views(entitlements@);
    let mut plan: Vec<EntitlementUpsertParams> = Vec::new();
    let mut i: usize = 0;
    assert(views.take(0) =~= Seq::<DiscordEntitlementView>::empty());
    while i < entitlements.len()
        invariant
            i <= entitlements.len(),
            views == entitlement_views(entitlements@),
            plan@ == planned_upserts(user_id, views.take(i as int)),
        decreases entitlements.len() - i,
    {
        proof {
            assert(views.take(i + 1).drop_last() =~= views.take(i as int));
            assert(views.take(i + 1).last() == entitlements@[i as int]@);
        }
        match plan_upsert(user_id, &entitlements[i]) {
            Some(p) => {
                plan.push(p);
            },
            None => {},
        }
        i += 1;
    }
    assert(views.take(i as int) =~= views);
    plan
}

/// The subscription that a pass derives: a tier and the end of it.
#[derive(Debug, Clone, Copy, PartialEq, Eq, Structural)]
pub struct DerivedSubscription {
    /// The derived tier.
    pub tier: SubscriptionTier,
    /// When the subscription ends; `None` means it never does.
    pub expires_at: Option<Timestamp>,
}

/// The stored entitlement `e` grants premium at `now`: its SKU is the
/// configured premium SKU, and it has no end or ends strictly after `now`.
pub open spec fn grants_premium(
    e: EntitlementUpsertParams,
    premium_sku_id: Option<i64>,
    now: Timestamp,
) -> bool {
    premium_sku_id == Some(e.sku_id) && match e.ends_at {
        Some(end) => end.after(now),
        None => true,
    }
}

/// What a pass starts from: the free tier.
pub open spec fn nothing_derived() -> DerivedSubscription {
    DerivedSubscription { tier: SubscriptionTier::Free, expires_at: None }
}

/// The derived subscription after one more stored entitlement. A grant
/// makes the tier premium; the end moves to the later one, and a grant
/// without end makes the subscription endless for the rest of the pass.
pub open spec fn absorb(
    d: DerivedSubscription,
    e: EntitlementUpsertParams,
    premium_sku_id: Option<i64>,
    now: Timestamp,
) -> DerivedSubscription {
    if grants_premium(e, premium_sku_id, now) {
        DerivedSubscription {
            tier: SubscriptionTier::Premium,
            expires_at: if d.tier == SubscriptionTier::Premium {
                later_end(d.expires_at, e.ends_at)
            } else {
                e.ends_at
            },
        }
    } else {
        d
    }
}

/// The subscription derived from the stored entitlements `stored`.
pub open spec fn derive(
    stored: Seq<EntitlementUpsertParams>,
    premium_sku_id: Option<i64>,
    now: Timestamp,
) -> DerivedSubscription
    decreases stored.len(),
{
    if stored.len() == 0 {
        nothing_derived()
    } else {
        absorb(derive(stored.drop_last(), premium_sku_id, now), stored.last(), premium_sku_id, now)
    }
}

/// Takes one more stored entitlement into account.
pub fn absorb_entitlement(
    d: DerivedSubscription,
    e: &EntitlementUpsertParams,
    premium_sku_id: Option<i64>,
    now: Timestamp,
) -> (r: DerivedSubscription)
    ensures
        r == absorb(d, *e, premium_sku_id, now),
{
    let sku_matches = match premium_sku_id {
        Some(sku) => sku == e.sku_id,
        None => false,
    };
    if !sku_matches {
        return d;
    }
    let active = match e.ends_at {
        Some(end) => end.is_after(&now),
        None => true,
    };
    if !active {
        return d;
    }
    let expires_at = if d.tier.is_premium() {
        match (d.expires_at, e.ends_at) {
            (Some(current), Some(end)) => if end.is_after(&current) {
                Some(end)
            } else {
                Some(current)
            },
            _ => None,
        }
    } else {
        e.ends_at
    };
    DerivedSubscription { tier: SubscriptionTier::Premium, expires_at }
}

/// Derives the subscription from the entitlements that were stored.
pub fn derive_subscription(
    stored: &Vec<EntitlementUpsertParams>,
    premium_sku_id: Option<i64>,
    now: Timestamp,
) -> (d: DerivedSubscription)
    ensures
        d == derive(stored@, premium_sku_id, now),
{
    let mut d = DerivedSubscription { tier: SubscriptionTier::Free, expires_at: None };
    let mut i: usize = 0;
    assert(stored@.take(0) =~= Seq::<EntitlementUpsertParams>::empty());
    while i < stored.len()
        invariant
            i <= stored.len(),
            d == derive(stored@.take(i as int), premium_sku_id, now),
        decreases stored.len() - i,
    {
        proof {
            assert(stored@.take(i + 1).drop_last() =~= stored@.take(i as int));
        }
        d = absorb_entitlement(d, &stored[i], premium_sku_id, now);
        i += 1;
    }
    assert(stored@.take(i as int) =~= stored@);
    d
}

/// Where a pass stands.
#[derive(Debug, Clone, Copy, PartialEq, Eq, Structural)]
pub enum ReconcilePhase {
    /// Entitlements are being stored, one after the other.
    Storing,
    /// The update of the user's subscription is under way.
    Promoting,
    /// The pass is over.
    Finished,
}

/// One reconciliation pass for one user.
#[derive(Debug)]
pub struct Reconciliation {
    /// The user whose entitlements are reconciled.
    pub user_id: i64,
    /// The SKU that grants premium.
    pub premium_sku_id: Option<i64>,
    /// The instant against which ends are judged.
    pub now: Timestamp,
    /// What the pass stores, in order.
    pub plan: Vec<EntitlementUpsertParams>,
    /// How many entries of the plan have been dealt with.
    pub next: usize,
    /// What the entitlements stored so far amount to.
    pub derived: DerivedSubscription,
    /// Where the pass stands.
    pub phase: ReconcilePhase,
}

/// What a `Reconciliation` holds, as plain values.
pub ghost struct ReconciliationView {
    pub user_id: i64,
    pub premium_sku_id: Option<i64>,
    pub now: Timestamp,
    pub plan: Seq<EntitlementUpsertParams>,
    pub next: nat,
    pub derived: DerivedSubscription,
    pub phase: ReconcilePhase,
}

impl View for Reconciliation {
    type V = ReconciliationView;

    open spec fn view(&self) -> ReconciliationView {
        ReconciliationView {
            user_id: self.user_id,
            premium_sku_id: self.premium_sku_id,
            now: self.now,
            plan: self.plan@,
            next: self.next as nat,
            derived: self.derived,
            phase: self.phase,
        }
    }
}

/// What the caller of a pass has to do next.
#[derive(Debug)]
pub enum ReconcileAction {
    /// Store this entitlement and report how it went.
    UpsertEntitlement(EntitlementUpsertParams),
    /// Set the user's subscription and report how it went.
    UpdateSubscription {
        user_id: i64,
        tier: SubscriptionTier,
        source: SubscriptionSource,
        expires_at: Option<Timestamp>,
    },
    /// Nothing: the pass is over, with the derived tier or with the error
    /// that kept the subscription from being set.
    Finish(Result<SubscriptionTier, Error>),
}

/// What a `ReconcileAction` holds, as plain values.
pub ghost enum ReconcileActionView {
    UpsertEntitlement(EntitlementUpsertParams),
    UpdateSubscription {
        user_id: i64,
        tier: SubscriptionTier,
        source: SubscriptionSource,
        expires_at: Option<Timestamp>,
    },
    Finish(Result<SubscriptionTier, ErrorView>),
}

impl View for ReconcileAction {
    type V = ReconcileActionView;

    open spec fn view(&self) -> ReconcileActionView {
        match self {
            ReconcileAction::UpsertEntitlement(p) => ReconcileActionView::UpsertEntitlement(*p),
            ReconcileAction::UpdateSubscription { user_id, tier, source, expires_at } =>
                ReconcileActionView::UpdateSubscription {
                    user_id: *user_id,
                    tier: *tier,
                    source: *source,
                    expires_at: *expires_at,
                },
            ReconcileAction::Finish(Ok(tier)) => ReconcileActionView::Finish(Ok(*tier)),
            ReconcileAction::Finish(Err(e)) => ReconcileActionView::Finish(Err(e@)),
        }
    }
}

/// How an operation of the storage went, as plain values.
pub open spec fn outcome_view(outcome: Result<(), Error>) -> Result<(), ErrorView> {
    match outcome {
        Ok(()) => Ok(()),
        Err(e) => Err(e@),
    }
}

/// The end of the storing: a premium tier is written to the user's record,
/// with Discord as its source; a free tier is not written at all, so a pass
/// never demotes a user.
pub open spec fn conclude(s: ReconciliationView) -> (ReconciliationView, ReconcileActionView) {
    if s.derived.tier == SubscriptionTier::Premium {
        (
            ReconciliationView { phase: ReconcilePhase::Promoting, ..s },
            ReconcileActionView::UpdateSubscription {
                user_id: s.user_id,
                tier: SubscriptionTier::Premium,
                source: SubscriptionSource::Discord,
                expires_at: s.derived.expires_at,
            },
        )
    } else {
        (
            ReconciliationView { phase: ReconcilePhase::Finished, ..s },
            ReconcileActionView::Finish(Ok(SubscriptionTier::Free)),
        )
    }
}

/// The next entry of the plan is stored; after the last one the pass
/// concludes.
pub open spec fn proceed(s: ReconciliationView) -> (ReconciliationView, ReconcileActionView) {
    if s.next < s.plan.len() {
        (s, ReconcileActionView::UpsertEntitlement(s.plan[s.next as int]))
    } else {
        conclude(s)
    }
}

/// What a pass stores: the plan for the reported entitlements, and
/// nothing where no premium SKU is configured.
pub open spec fn pass_plan(
    user_id: i64,
    premium_sku_id: Option<i64>,
    entitlements: Seq<DiscordEntitlementView>,
) -> Seq<EntitlementUpsertParams> {
    if premium_sku_id is Some {
        planned_upserts(user_id, entitlements)
    } else {
        Seq::empty()
    }
}

/// The start of a pass. Without a premium SKU the pass does nothing.
pub open spec fn begin_spec(
    user_id: i64,
    premium_sku_id: Option<i64>,
    entitlements: Seq<DiscordEntitlementView>,
    now: Timestamp,
) -> (ReconciliationView, ReconcileActionView) {
    proceed(
        ReconciliationView {
            user_id,
            premium_sku_id,
            now,
            plan: pass_plan(user_id, premium_sku_id, entitlements),
            next: 0,
            derived: nothing_derived(),
            phase: ReconcilePhase::Storing,
        },
    )
}

/// One step of a pass, on the outcome of the action handed out last. An
/// entitlement counts only where it was stored; a failure to store it is
/// passed over. A failure to set the subscription ends the pass with it.
pub open spec fn step_spec(s: ReconciliationView, outcome: Result<(), ErrorView>) -> (
    ReconciliationView,
    ReconcileActionView,
) {
    match s.phase {
        ReconcilePhase::Storing => if s.next < s.plan.len() {
            proceed(
                ReconciliationView {
                    next: s.next + 1,
                    derived: if outcome is Ok {
                        absorb(s.derived, s.plan[s.next as int], s.premium_sku_id, s.now)
                    } else {
                        s.derived
                    },
                    ..s
                },
            )
        } else {
            conclude(s)
        },
        ReconcilePhase::Promoting => (
            ReconciliationView { phase: ReconcilePhase::Finished, ..s },
            ReconcileActionView::Finish(
                match outcome {
                    Ok(()) => Ok(s.derived.tier),
                    Err(e) => Err(e),
                },
            ),
        ),
        ReconcilePhase::Finished => (s, ReconcileActionView::Finish(Ok(s.derived.tier))),
    }
}

impl Reconciliation {
    fn conclude(self) -> (r: (Reconciliation, ReconcileAction))
        ensures
            (r.0@, r.1@) == conclude(self@),
    {
        if self.derived.tier.is_premium() {
            let action = ReconcileAction::UpdateSubscription {
                user_id: self.user_id,
                tier: SubscriptionTier::Premium,
                source: SubscriptionSource::Discord,
                expires_at: self.derived.expires_at,
            };
            (Reconciliation { phase: ReconcilePhase::Promoting, ..self }, action)
        } else {
            (
                Reconciliation { phase: ReconcilePhase::Finished, ..self },
                ReconcileAction::Finish(Ok(SubscriptionTier::Free)),
            )
        }
    }

    fn proceed(self) -> (r: (Reconciliation, ReconcileAction))
        ensures
            (r.0@, r.1@) == proceed(self@),
    {
        if self.next < self.plan.len() {
            let action = ReconcileAction::UpsertEntitlement(self.plan[self.next]);
            (self, action)
        } else {
            self.conclude()
        }
    }

    /// Starts a pass for `user_id` over the entitlements that Discord
    /// reported, judged at `now`, and hands out its first action.
    pub fn begin(
        user_id: i64,
        premium_sku_id: Option<i64>,
        entitlements: &Vec<DiscordEntitlementResponse>,
        now: Timestamp,
    ) -> (r: (Reconciliation, ReconcileAction))
        ensures
            (r.0@, r.1@) == begin_spec(
                user_id,
                premium_sku_id,
                entitlement_views(entitlements@),
                now,
            ),
    {
        let plan = if premium_sku_id.is_some() {
            plan_upserts(user_id, entitlements)
        } else {
            Vec::new()
        };
        let pass = Reconciliation {
            user_id,
            premium_sku_id,
            now,
            plan,
            next: 0,
            derived: DerivedSubscription { tier: SubscriptionTier::Free, expires_at: None },
            phase: ReconcilePhase::Storing,
        };
        pass.proceed()
    }

    /// Takes the outcome of the action handed out last and hands out the
    /// next one.
    pub fn step(self, outcome: Result<(), Error>) -> (r: (Reconciliation, ReconcileAction))
        ensures
            (r.0@, r.1@) == step_spec(self@, outcome_view(outcome)),
    {
        match self.phase {
            ReconcilePhase::Storing => {
                if self.next < self.plan.len() {
                    let derived = if outcome.is_ok() {
                        absorb_entitlement(
                            self.derived,
                            &self.plan[self.next],
                            self.premium_sku_id,
                            self.now,
                        )
                    } else {
                        self.derived
                    };
                    let pass = Reconciliation { next: self.next + 1, derived, ..self };
                    pass.proceed()
                } else {
                    self.conclude()
                }
            },
            ReconcilePhase::Promoting => {
                let tier = self.derived.tier;
                let result = match outcome {
                    Ok(()) => Ok(tier),
                    Err(e) => Err(e),
                };
                (
                    Reconciliation { phase: ReconcilePhase::Finished, ..self },
                    ReconcileAction::Finish(result),
                )
            },
            ReconcilePhase::Finished => {
                let tier = self.derived.tier;
                (self, ReconcileAction::Finish(Ok(tier)))
            },
        }
    }
}

/// The entries of `plan` that were stored, given how the storing of its
/// first `outcomes.len()` entries went.
pub open spec fn stored_of(
    plan: Seq<EntitlementUpsertParams>,
    outcomes: Seq<Result<(), ErrorView>>,
) -> Seq<EntitlementUpsertParams>
    decreases outcomes.len(),
{
    if outcomes.len() == 0 || outcomes.len() > plan.len() {
        Seq::empty()
    } else {
        let before = stored_of(plan, outcomes.drop_last());
        if outcomes.last() is Ok {
            before.push(plan[outcomes.len() - 1])
        } else {
            before
        }
    }
}

/// Where a pass stands, and what it hands out, after the given outcomes
/// have been reported to it in turn.
pub open spec fn after_outcomes(
    start: (ReconciliationView, ReconcileActionView),
    outcomes: Seq<Result<(), ErrorView>>,
) -> (ReconciliationView, ReconcileActionView)
    decreases outcomes.len(),
{
    if outcomes.len() == 0 {
        start
    } else {
        step_spec(after_outcomes(start, outcomes.drop_last()).0, outcomes.last())
    }
}

proof fn lemma_pass_prefix(
    user_id: i64,
    premium_sku_id: Option<i64>,
    entitlements: Seq<DiscordEntitlementView>,
    now: Timestamp,
    outcomes: Seq<Result<(), ErrorView>>,
    k: int,
)
    requires
        0 <= k <= outcomes.len(),
        outcomes.len() == pass_plan(user_id, premium_sku_id, entitlements).len(),
    ensures
        after_outcomes(begin_spec(user_id, premium_sku_id, entitlements, now), outcomes.take(k))
            == proceed(
            ReconciliationView {
                user_id,
                premium_sku_id,
                now,
                plan: pass_plan(user_id, premium_sku_id, entitlements),
                next: k as nat,
                derived: derive(
                    stored_of(pass_plan(user_id, premium_sku_id, entitlements), outcomes.take(k)),
                    premium_sku_id,
                    now,
                ),
                phase: ReconcilePhase::Storing,
            },
        ),
    decreases k,
{
    let plan = pass_plan(user_id, premium_sku_id, entitlements);
    if k == 0 {
        assert(outcomes.take(0) =~= Seq::<Result<(), ErrorView>>::empty());
    } else {
        lemma_pass_prefix(user_id, premium_sku_id, entitlements, now, outcomes, k - 1);
        assert(outcomes.take(k).drop_last() =~= outcomes.take(k - 1));
        assert(outcomes.take(k).last() == outcomes[k - 1]);
        let before = stored_of(plan, outcomes.take(k - 1));
        if outcomes[k - 1] is Ok {
            assert(before.push(plan[k - 1]).drop_last() =~= before);
        }
    }
}

/// A whole pass: once the outcome of every planned storing has been
/// reported, the pass holds the subscription derived from the entitlements
/// that were stored, and hands out the update of the user's subscription
/// where that tier is premium, and the end of the pass where it is free.
pub proof fn lemma_pass_derives_from_stored(
    user_id: i64,
    premium_sku_id: Option<i64>,
    entitlements: Seq<DiscordEntitlementView>,
    now: Timestamp,
    outcomes: Seq<Result<(), ErrorView>>,
)
    requires
        outcomes.len() == pass_plan(user_id, premium_sku_id, entitlements).len(),
    ensures
        ({
            let d = derive(
                stored_of(pass_plan(user_id, premium_sku_id, entitlements), outcomes),
                premium_sku_id,
                now,
            );
            let end = after_outcomes(
                begin_spec(user_id, premium_sku_id, entitlements, now),
                outcomes,
            );
            &&& end.0.derived == d
            &&& end.1 == if d.tier == SubscriptionTier::Premium {
                ReconcileActionView::UpdateSubscription {
                    user_id,
                    tier: SubscriptionTier::Premium,
                    source: SubscriptionSource::Discord,
                    expires_at: d.expires_at,
                }
            } else {
                ReconcileActionView::Finish(Ok(SubscriptionTier::Free))
            }
        }),
{
    lemma_pass_prefix(
        user_id,
        premium_sku_id,
        entitlements,
        now,
        outcomes,
        outcomes.len() as int,
    );
    assert(outcomes.take(outcomes.len() as int) =~= outcomes);
}

/// A pass in which no stored entitlement grants premium never asks for the
/// user's subscription to be written, at no point: a user who was promoted
/// before stays promoted, also where Discord reports nothing at all.
pub proof fn lemma_pass_without_grant_writes_no_subscription(
    user_id: i64,
    premium_sku_id: Option<i64>,
    entitlements: Seq<DiscordEntitlementView>,
    now: Timestamp,
    outcomes: Seq<Result<(), ErrorView>>,
    k: int,
)
    requires
        0 <= k <= outcomes.len(),
        outcomes.len() == pass_plan(user_id, premium_sku_id, entitlements).len(),
        forall|i: int|
            0 <= i < stored_of(pass_plan(user_id, premium_sku_id, entitlements), outcomes).len()
                ==> !#[trigger] grants_premium(
                stored_of(pass_plan(user_id, premium_sku_id, entitlements), outcomes)[i],
                premium_sku_id,
                now,
            ),
    ensures
        !(after_outcomes(
            begin_spec(user_id, premium_sku_id, entitlements, now),
            outcomes.take(k),
        ).1 is UpdateSubscription),
{
    lemma_pass_prefix(user_id, premium_sku_id, entitlements, now, outcomes, k);
    if k == outcomes.len() {
        assert(outcomes.take(k) =~= outcomes);
        lemma_derive_is_latest_grant(
            stored_of(pass_plan(user_id, premium_sku_id, entitlements), outcomes),
            premium_sku_id,
            now,
        );
    }
}

/// A pass never demotes a user: whatever the state and whatever is
/// reported to it, the only subscription it ever asks to be written is a
/// premium one with Discord as its source, and it asks for none while the
/// derived tier is free.
pub proof fn lemma_pass_never_demotes(s: ReconciliationView, outcome: Result<(), ErrorView>)
    ensures
        step_spec(s, outcome).1 is UpdateSubscription ==> {
            &&& step_spec(s, outcome).0.derived.tier == SubscriptionTier::Premium
            &&& step_spec(s, outcome).1->tier == SubscriptionTier::Premium
            &&& step_spec(s, outcome).1->source == SubscriptionSource::Discord
            &&& step_spec(s, outcome).1->expires_at == step_spec(s, outcome).0.derived.expires_at
        },
{
}

/// Planning a list is planning its parts: what is stored for `a` followed
/// by `b` is what is stored for `a`, followed by what is stored for `b`.
pub proof fn lemma_planned_upserts_concat(
    user_id: i64,
    a: Seq<DiscordEntitlementView>,
    b: Seq<DiscordEntitlementView>,
)
    ensures
        planned_upserts(user_id, a + b) == planned_upserts(user_id, a) + planned_upserts(
            user_id,
            b,
        ),
    decreases b.len(),
{
    if b.len() == 0 {
        assert(a + b =~= a);
        assert(planned_upserts(user_id, a) + planned_upserts(user_id, b) =~= planned_upserts(
            user_id,
            a,
        ));
    } else {
        assert((a + b).drop_last() =~= a + b.drop_last());
        lemma_planned_upserts_concat(user_id, a, b.drop_last());
        let before = planned_upserts(user_id, b.drop_last());
        match planned_upsert(user_id, b.last()) {
            Some(p) => {
                assert((planned_upserts(user_id, a) + before).push(p) =~= planned_upserts(
                    user_id,
                    a,
                ) + before.push(p));
            },
            None => {},
        }
    }
}

/// An entitlement that is skipped, because Discord deleted it or because one
/// of its ids is no decimal `i64`, changes nothing for the others: the
/// entitlements before it and after it are stored as if it were not there.
pub proof fn lemma_skipped_entitlement_leaves_others(
    user_id: i64,
    before: Seq<DiscordEntitlementView>,
    skipped: DiscordEntitlementView,
    after: Seq<DiscordEntitlementView>,
)
    requires
        planned_upsert(user_id, skipped) is None,
    ensures
        planned_upserts(user_id, before.push(skipped) + after) == planned_upserts(
            user_id,
            before + after,
        ),
        planned_upserts(user_id, before.push(skipped) + after) == planned_upserts(user_id, before)
            + planned_upserts(user_id, after),
{
    lemma_planned_upserts_concat(user_id, before.push(skipped), after);
    lemma_planned_upserts_concat(user_id, before, after);
    assert(before.push(skipped).drop_last() =~= before);
}

/// The derived subscription, said without reference to the order of the
/// stored entitlements. The tier is premium exactly when some stored
/// entitlement grants premium. The subscription is endless exactly when the
/// tier is free or some grant has no end; otherwise it ends with the grant
/// that ends last.
pub proof fn lemma_derive_is_latest_grant(
    stored: Seq<EntitlementUpsertParams>,
    premium_sku_id: Option<i64>,
    now: Timestamp,
)
    ensures
        derive(stored, premium_sku_id, now).tier == SubscriptionTier::Premium <==> exists|i: int|
            0 <= i < stored.len() && #[trigger] grants_premium(stored[i], premium_sku_id, now),
        derive(stored, premium_sku_id, now).tier == SubscriptionTier::Free ==> derive(
            stored,
            premium_sku_id,
            now,
        ).expires_at is None,
        derive(stored, premium_sku_id, now).tier == SubscriptionTier::Premium ==> match derive(
            stored,
            premium_sku_id,
            now,
        ).expires_at {
            None => exists|i: int|
                0 <= i < stored.len() && #[trigger] grants_premium(stored[i], premium_sku_id, now)
                    && stored[i].ends_at is None,
            Some(end) => {
                &&& exists|i: int|
                    0 <= i < stored.len() && #[trigger] grants_premium(
                        stored[i],
                        premium_sku_id,
                        now,
                    ) && stored[i].ends_at == Some(end)
                &&& forall|i: int|
                    0 <= i < stored.len() && #[trigger] grants_premium(
                        stored[i],
                        premium_sku_id,
                        now,
                    ) ==> stored[i].ends_at is Some && !stored[i].ends_at->0.after(end)
            },
        },
    decreases stored.len(),
{
    if stored.len() > 0 {
        let front = stored.drop_last();
        lemma_derive_is_latest_grant(front, premium_sku_id, now);
        assert(forall|i: int| 0 <= i < front.len() ==> front[i] == stored[i]);
        let before = derive(front, premium_sku_id, now);
        if grants_premium(stored.last(), premium_sku_id, now) {
            assert(grants_premium(stored[stored.len() - 1], premium_sku_id, now));
        }
        if before.tier == SubscriptionTier::Premium {
            let granting = choose|i: int|
                0 <= i < front.len() && #[trigger] grants_premium(front[i], premium_sku_id, now)
                    && front[i].ends_at == before.expires_at;
            assert(grants_premium(stored[granting], premium_sku_id, now));
        }
    }
}

} // verus!
