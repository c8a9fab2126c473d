//! The insurance policy and claims engine.
//!
//! A single `InsuranceContract` value owns the whole contract state: the
//! administrative configuration, the policy table (one record per owner),
//! the claim table, the per-principal fraud metrics, the premium pool and
//! the lifetime counters. Every operation takes the current ledger time as
//! a parameter and either commits in full or returns an error having changed
//! nothing — the all-or-nothing transaction semantics of the host platform.
//!
//! Asset movements (premium collection, refunds, payouts, pool funding) go
//! through a [`crate::ledger::TokenLedger`] passed to each operation that
//! moves value.

use vstd::prelude::*;

use crate::ledger::{transferred, TokenLedger};
use crate::premium::{premium_fits, premium_of};

verus! {

broadcast use vstd::std_specs::hash::group_hash_axioms;

/// What a policy insures.
#[derive(Clone, Copy, Debug, PartialEq, Eq, Structural)]
pub enum CoverageType {
    NFT,
    Token,
    Combined,
}

/// Lifecycle state of a policy. `Expired` is detected lazily by readers;
/// `Cancelled` is terminal.
#[derive(Clone, Copy, Debug, PartialEq, Eq, Structural)]
pub enum PolicyStatus {
    Active,
    Expired,
    Cancelled,
}

/// Lifecycle state of a claim. `Rejected` and `Paid` are terminal.
#[derive(Clone, Copy, Debug, PartialEq, Eq, Structural)]
pub enum ClaimStatus {
    Submitted,
    UnderReview,
    Approved,
    Rejected,
    Paid,
}

/// The kind of asset a claim is about.
#[derive(Clone, Copy, Debug, PartialEq, Eq, Structural)]
pub enum AssetType {
    NFT,
    Token,
}

/// Why an operation was refused. Every error aborts its call in full.
#[derive(Clone, Copy, Debug, PartialEq, Eq, Structural)]
pub enum InsuranceError {
    /// `initialize` was called a second time.
    AlreadyInitialized,
    /// The contract has not been initialized yet.
    NotInitialized,
    /// The caller is not the stored admin principal.
    Unauthorized,
    /// The contract is paused.
    ContractPaused,
    /// Coverage amount not in `(0, max_coverage_amount]`.
    InvalidCoverageAmount,
    /// Coverage period not in `[min_coverage_period, max_coverage_period]`.
    InvalidCoveragePeriod,
    /// The owner already holds a policy with status `Active`.
    ActivePolicyExists,
    /// No policy record exists for the principal.
    PolicyNotFound,
    /// The policy's status is not `Active`.
    PolicyNotActive,
    /// Only `Active` or `Expired` policies can be renewed.
    PolicyNotRenewable,
    /// Renewal would stretch the total span beyond `max_coverage_period`.
    PeriodExceedsMaximum,
    /// The current time is outside the policy's coverage window.
    OutsideCoveragePeriod,
    /// The claimed asset type is not covered by the policy.
    CoverageTypeMismatch,
    /// Claim amount not in `(0, coverage_amount]`.
    InvalidClaimAmount,
    /// The claimant is flagged for suspicious activity.
    UserFlagged,
    /// The claim cooldown since the previous claim has not elapsed.
    ClaimCooldownActive,
    /// Too many claims inside the trailing fraud-lookback window.
    TooManyRecentClaims,
    /// No claim record exists under the given id.
    ClaimNotFound,
    /// Only `Submitted` or `UnderReview` claims can be reviewed.
    ClaimNotReviewable,
    /// Approved payout not in `(0, claim_amount]`.
    InvalidPayoutAmount,
    /// Only `Approved` claims can be paid out.
    ClaimNotApproved,
    /// The premium pool cannot fund the debit.
    InsufficientPool,
    /// A pool credit or withdrawal amount was not positive.
    InvalidAmount,
    /// The asset transfer could not be performed.
    PaymentFailed,
    /// An intermediate value left the representable range.
    ArithmeticOverflow,
}

/// The administrative configuration, created once at initialization.
#[derive(Clone, Copy, Debug, PartialEq, Eq, Structural)]
pub struct InsuranceConfig {
    pub admin: u64,
    pub payment_token: u64,
    /// Base premium rate in basis points (100 = 1%).
    pub base_premium_rate: u32,
    /// Rate multiplier for NFT coverage, as a percentage (150 = 1.5x).
    pub nft_multiplier: u32,
    /// Rate multiplier for token coverage, as a percentage.
    pub token_multiplier: u32,
    /// Rate multiplier for combined coverage, as a percentage.
    pub combined_multiplier: u32,
    /// Minimum coverage period in seconds.
    pub min_coverage_period: u64,
    /// Maximum coverage period in seconds.
    pub max_coverage_period: u64,
    /// Maximum coverage amount in minor units.
    pub max_coverage_amount: i128,
    /// Time allotted to the admin for reviewing claims, in seconds.
    pub claim_review_period: u64,
    /// Fraud detection: maximum claims per trailing lookback window.
    pub max_claims_per_period: u32,
    /// Fraud detection: minimum seconds between claims.
    pub claim_cooldown: u64,
    pub paused: bool,
}

/// One insurance policy; at most one record per owner at any time.
#[derive(Clone, Copy, Debug, PartialEq, Eq, Structural)]
pub struct InsurancePolicy {
    pub owner: u64,
    pub coverage_type: CoverageType,
    pub coverage_amount: i128,
    /// Cumulative premium across the purchase and all renewals.
    pub premium_paid: i128,
    pub start_time: u64,
    pub end_time: u64,
    pub status: PolicyStatus,
    /// The insured NFT contract or token identifier.
    pub asset_address: u64,
}

/// One claim, keyed by a monotonically increasing id starting at 1.
#[derive(Debug)]
pub struct Claim {
    pub claim_id: u64,
    pub policy_owner: u64,
    pub asset_type: AssetType,
    pub asset_address: u64,
    pub claim_amount: i128,
    pub description: String,
    pub submission_time: u64,
    pub status: ClaimStatus,
    pub review_notes: String,
    pub payout_amount: i128,
    /// Zero until the claim is paid.
    pub payout_time: u64,
}

impl Clone for Claim {
    fn clone(&self) -> (r: Self)
        ensures
            r == *self,
    {
        Claim {
            claim_id: self.claim_id,
            policy_owner: self.policy_owner,
            asset_type: self.asset_type,
            asset_address: self.asset_address,
            claim_amount: self.claim_amount,
            description: self.description.clone(),
            submission_time: self.submission_time,
            status: self.status,
            review_notes: self.review_notes.clone(),
            payout_amount: self.payout_amount,
            payout_time: self.payout_time,
        }
    }
}

/// Per-principal abuse metrics, created lazily on first claim or admin flag.
#[derive(Debug)]
pub struct FraudMetrics {
    /// Lifetime claim count.
    pub total_claims: u32,
    /// Claim ids whose submission fell inside the trailing lookback window.
    pub recent_claims: Vec<u64>,
    pub last_claim_time: u64,
    pub flagged: bool,
    pub flag_reason: String,
}

impl Clone for FraudMetrics {
    fn clone(&self) -> (r: Self)
        ensures
            r.total_claims == self.total_claims,
            r.recent_claims@ == self.recent_claims@,
            r.last_claim_time == self.last_claim_time,
            r.flagged == self.flagged,
            r.flag_reason@ == self.flag_reason@,
    {
        FraudMetrics {
            total_claims: self.total_claims,
            recent_claims: copy_ids(&self.recent_claims),
            last_claim_time: self.last_claim_time,
            flagged: self.flagged,
            flag_reason: self.flag_reason.clone(),
        }
    }
}

fn copy_ids(ids: &Vec<u64>) -> (r: Vec<u64>)
    ensures
        r@ == ids@,
{
    let mut out: Vec<u64> = Vec::new();
    let mut i: usize = 0;
    while i < ids.len()
        invariant
            i <= ids.len(),
            out@ == ids@.take(i as int),
        decreases ids.len() - i,
    {
        out.push(ids[i]);
        proof {
            assert(out@ =~= ids@.take(i + 1 as int));
        }
        i = i + 1;
    }
    proof {
        assert(ids@.take(ids@.len() as int) =~= ids@);
    }
    out
}

/// A mathematical snapshot of the full contract state; the view of
/// [`InsuranceContract`]. Contracts and laws are stated over this type.
#[verifier::ext_equal]
pub struct InsuranceState {
    /// The principal under which the contract itself holds custody funds.
    pub account: u64,
    pub config: Option<InsuranceConfig>,
    /// Policy records, keyed by owner.
    pub policies: Map<u64, InsurancePolicy>,
    /// Every principal that ever purchased, in first-purchase order.
    pub policy_list: Seq<u64>,
    /// Claim records, keyed by claim id.
    pub claims: Map<u64, Claim>,
    /// The last claim id handed out; ids start at 1.
    pub claim_counter: u64,
    /// Claim ids per claimant, in submission order.
    pub user_claims: Map<u64, Seq<u64>>,
    /// Fraud metrics per principal.
    pub fraud: Map<u64, FraudMetrics>,
    /// The premium pool balance; never negative.
    pub pool: i128,
    pub total_policies: u64,
    pub total_claims: u64,
}

impl InsuranceState {
    pub open spec fn initialized(self) -> bool {
        self.config is Some
    }

    /// The stored configuration; meaningful only when initialized.
    pub open spec fn cfg(self) -> InsuranceConfig {
        self.config->Some_0
    }

    pub open spec fn has_policy(self, owner: u64) -> bool {
        self.policies.contains_key(owner)
    }

    pub open spec fn policy_of(self, owner: u64) -> InsurancePolicy {
        self.policies[owner]
    }

    pub open spec fn has_claim(self, id: u64) -> bool {
        self.claims.contains_key(id)
    }

    pub open spec fn claim_of(self, id: u64) -> Claim {
        self.claims[id]
    }

    /// The claim ids a principal has submitted, oldest first.
    pub open spec fn claims_of(self, user: u64) -> Seq<u64> {
        if self.user_claims.contains_key(user) {
            self.user_claims[user]
        } else {
            Seq::empty()
        }
    }

    pub open spec fn has_metrics(self, user: u64) -> bool {
        self.fraud.contains_key(user)
    }

    /// Whether a principal is flagged; unflagged when no metrics exist.
    pub open spec fn flagged_of(self, user: u64) -> bool {
        self.fraud.contains_key(user) && self.fraud[user].flagged
    }

    /// A principal's most recent claim time; zero when no metrics exist.
    pub open spec fn last_claim_of(self, user: u64) -> u64 {
        if self.fraud.contains_key(user) {
            self.fraud[user].last_claim_time
        } else {
            0
        }
    }

    /// A principal's rolling-window claim ids; empty when no metrics exist.
    pub open spec fn window_of(self, user: u64) -> Seq<u64> {
        if self.fraud.contains_key(user) {
            self.fraud[user].recent_claims@
        } else {
            Seq::empty()
        }
    }

    /// A principal's lifetime claim count; zero when no metrics exist.
    pub open spec fn lifetime_claims_of(self, user: u64) -> u32 {
        if self.fraud.contains_key(user) {
            self.fraud[user].total_claims
        } else {
            0
        }
    }

    /// Whether a policy is in force at `now`: it exists, its status is
    /// `Active`, and `now` lies inside its coverage window.
    pub open spec fn policy_active(self, user: u64, now: u64) -> bool {
        &&& self.policies.contains_key(user)
        &&& self.policies[user].status is Active
        &&& self.policies[user].start_time <= now <= self.policies[user].end_time
    }

    /// The state invariant: the pool is never negative, claim ids are
    /// dense below the counter and consistent with their keys, approved
    /// and paid claims carry a payout bounded by their claim amount, and
    /// every policy record is well formed under its owner's key.
    pub open spec fn wf(self) -> bool {
        &&& 0 <= self.pool
        &&& self.total_claims == self.claim_counter
        &&& (self.config is None ==> {
            &&& (forall|o: u64| !self.policies.contains_key(o))
            &&& (forall|id: u64| !self.claims.contains_key(id))
            &&& self.claim_counter == 0
            &&& self.pool == 0
            &&& self.total_policies == 0
        })
        &&& (forall|id: u64| #[trigger] self.claims.contains_key(id) ==> {
            &&& 1 <= id <= self.claim_counter
            &&& self.claims[id].claim_id == id
            &&& 0 < self.claims[id].claim_amount
            &&& ((self.claims[id].status is Approved || self.claims[id].status is Paid) ==> 0
                < self.claims[id].payout_amount <= self.claims[id].claim_amount)
        })
        &&& (forall|o: u64| #[trigger] self.policies.contains_key(o) ==> {
            &&& self.policies[o].owner == o
            &&& 0 < self.policies[o].coverage_amount
            &&& 0 <= self.policies[o].premium_paid
            &&& self.policies[o].start_time <= self.policies[o].end_time
        })
    }
}

/// The configuration seeded by `initialize`: the platform's fixed default
/// multipliers, limits and fraud parameters around the given base rate.
pub open spec fn default_config(admin: u64, payment_token: u64, base_premium_rate: u32) -> InsuranceConfig {
    InsuranceConfig {
        admin,
        payment_token,
        base_premium_rate,
        nft_multiplier: 150,
        token_multiplier: 100,
        combined_multiplier: 180,
        min_coverage_period: (7 * 86_400) as u64,
        max_coverage_period: (365 * 86_400) as u64,
        max_coverage_amount: 1_000_000_000_000,
        claim_review_period: (7 * 86_400) as u64,
        max_claims_per_period: 3,
        claim_cooldown: (7 * 86_400) as u64,
        paused: false,
    }
}

/// Why a purchase would be refused, in the order the checks run; `None`
/// when it succeeds.
pub open spec fn purchase_err(
    pre: InsuranceState,
    ledger: TokenLedger,
    owner: u64,
    coverage_type: CoverageType,
    coverage_amount: i128,
    coverage_period: u64,
    now: u64,
) -> Option<InsuranceError> {
    if pre.config is None {
        Some(InsuranceError::NotInitialized)
    } else if pre.cfg().paused {
        Some(InsuranceError::ContractPaused)
    } else if coverage_amount <= 0 || coverage_amount > pre.cfg().max_coverage_amount {
        Some(InsuranceError::InvalidCoverageAmount)
    } else if coverage_period < pre.cfg().min_coverage_period || coverage_period
        > pre.cfg().max_coverage_period {
        Some(InsuranceError::InvalidCoveragePeriod)
    } else if pre.has_policy(owner) && pre.policy_of(owner).status is Active {
        Some(InsuranceError::ActivePolicyExists)
    } else if !premium_fits(pre.cfg(), coverage_type, coverage_amount, coverage_period) {
        Some(InsuranceError::ArithmeticOverflow)
    } else if now + coverage_period > u64::MAX {
        Some(InsuranceError::ArithmeticOverflow)
    } else if pre.pool + premium_of(pre.cfg(), coverage_type, coverage_amount, coverage_period)
        > i128::MAX {
        Some(InsuranceError::ArithmeticOverflow)
    } else if pre.total_policies == u64::MAX {
        Some(InsuranceError::ArithmeticOverflow)
    } else if !ledger.can_transfer(
        owner,
        pre.account,
        premium_of(pre.cfg(), coverage_type, coverage_amount, coverage_period) as i128,
    ) {
        Some(InsuranceError::PaymentFailed)
    } else {
        None
    }
}

/// The policy record a successful purchase creates.
pub open spec fn purchased_policy(
    cfg: InsuranceConfig,
    owner: u64,
    coverage_type: CoverageType,
    coverage_amount: i128,
    coverage_period: u64,
    asset_address: u64,
    now: u64,
) -> InsurancePolicy {
    InsurancePolicy {
        owner,
        coverage_type,
        coverage_amount,
        premium_paid: premium_of(cfg, coverage_type, coverage_amount, coverage_period) as i128,
        start_time: now,
        end_time: (now + coverage_period) as u64,
        status: PolicyStatus::Active,
        asset_address,
    }
}

/// The end time a renewal at `now` by `additional_period` aims for: the
/// current end when coverage still runs, else `now`, plus the extension.
pub open spec fn renewed_end(policy: InsurancePolicy, now: u64, additional_period: u64) -> int {
    if policy.end_time > now {
        policy.end_time + additional_period
    } else {
        now + additional_period
    }
}

/// Why a renewal would be refused, in the order the checks run.
pub open spec fn renew_err(
    pre: InsuranceState,
    ledger: TokenLedger,
    owner: u64,
    additional_period: u64,
    now: u64,
) -> Option<InsuranceError> {
    if pre.config is None {
        Some(InsuranceError::NotInitialized)
    } else if pre.cfg().paused {
        Some(InsuranceError::ContractPaused)
    } else if !pre.has_policy(owner) {
        Some(InsuranceError::PolicyNotFound)
    } else if !(pre.policy_of(owner).status is Active || pre.policy_of(owner).status is Expired) {
        Some(InsuranceError::PolicyNotRenewable)
    } else if renewed_end(pre.policy_of(owner), now, additional_period) > u64::MAX {
        Some(InsuranceError::ArithmeticOverflow)
    } else if renewed_end(pre.policy_of(owner), now, additional_period) - pre.policy_of(
        owner,
    ).start_time > pre.cfg().max_coverage_period {
        Some(InsuranceError::PeriodExceedsMaximum)
    } else if !premium_fits(
        pre.cfg(),
        pre.policy_of(owner).coverage_type,
        pre.policy_of(owner).coverage_amount,
        additional_period,
    ) {
        Some(InsuranceError::ArithmeticOverflow)
    } else if pre.policy_of(owner).premium_paid + renewal_premium(pre, owner, additional_period)
        > i128::MAX {
        Some(InsuranceError::ArithmeticOverflow)
    } else if pre.pool + renewal_premium(pre, owner, additional_period) > i128::MAX {
        Some(InsuranceError::ArithmeticOverflow)
    } else if !ledger.can_transfer(
        owner,
        pre.account,
        renewal_premium(pre, owner, additional_period) as i128,
    ) {
        Some(InsuranceError::PaymentFailed)
    } else {
        None
    }
}

/// The additional premium a renewal collects: priced for exactly the
/// extension period, at the policy's coverage type and amount.
pub open spec fn renewal_premium(pre: InsuranceState, owner: u64, additional_period: u64) -> int {
    premium_of(
        pre.cfg(),
        pre.policy_of(owner).coverage_type,
        pre.policy_of(owner).coverage_amount,
        additional_period,
    )
}

/// The seconds of coverage left at `now`; zero once the policy has ended.
pub open spec fn remaining_period(policy: InsurancePolicy, now: u64) -> int {
    if policy.end_time > now {
        policy.end_time - now
    } else {
        0
    }
}

/// The prorated refund a cancellation at `now` pays out: the cumulative
/// premium scaled by the unused share of the coverage window.
pub open spec fn refund_of(policy: InsurancePolicy, now: u64) -> int {
    if remaining_period(policy, now) > 0 {
        policy.premium_paid * remaining_period(policy, now) / (policy.end_time
            - policy.start_time)
    } else {
        0
    }
}

/// Why a cancellation would be refused, in the order the checks run.
pub open spec fn cancel_err(
    pre: InsuranceState,
    ledger: TokenLedger,
    owner: u64,
    now: u64,
) -> Option<InsuranceError> {
    if !pre.has_policy(owner) {
        Some(InsuranceError::PolicyNotFound)
    } else if !(pre.policy_of(owner).status is Active) {
        Some(InsuranceError::PolicyNotActive)
    } else if pre.policy_of(owner).premium_paid * remaining_period(pre.policy_of(owner), now)
        > i128::MAX {
        Some(InsuranceError::ArithmeticOverflow)
    } else if refund_of(pre.policy_of(owner), now) > pre.pool {
        Some(InsuranceError::InsufficientPool)
    } else if refund_of(pre.policy_of(owner), now) > 0 && !ledger.can_transfer(
        pre.account,
        owner,
        refund_of(pre.policy_of(owner), now) as i128,
    ) {
        Some(InsuranceError::PaymentFailed)
    } else {
        None
    }
}

/// The trailing fraud-lookback window, in seconds of ledger time.
pub const FRAUD_LOOKBACK_PERIOD: u64 = 30 * 86_400;

/// The start of the fraud-lookback window at `now`.
pub open spec fn lookback_start(now: u64) -> u64 {
    if now > FRAUD_LOOKBACK_PERIOD {
        (now - FRAUD_LOOKBACK_PERIOD) as u64
    } else {
        0
    }
}

/// Whether a listed claim id counts toward the rolling window: a claim
/// under that id exists and was submitted at or after the cutoff.
pub open spec fn claim_in_window(claims: Map<u64, Claim>, id: u64, cutoff: u64) -> bool {
    claims.contains_key(id) && claims[id].submission_time >= cutoff
}

/// How many of the listed claim ids count toward the rolling window.
pub open spec fn window_count(claims: Map<u64, Claim>, ids: Seq<u64>, cutoff: u64) -> int
    decreases ids.len(),
{
    if ids.len() == 0 {
        0
    } else {
        window_count(claims, ids.drop_last(), cutoff) + if claim_in_window(
            claims,
            ids.last(),
            cutoff,
        ) {
            1int
        } else {
            0int
        }
    }
}

/// The listed claim ids that still count toward the rolling window, in
/// their original order.
pub open spec fn kept_window(claims: Map<u64, Claim>, ids: Seq<u64>, cutoff: u64) -> Seq<u64>
    decreases ids.len(),
{
    if ids.len() == 0 {
        Seq::empty()
    } else {
        let rest = kept_window(claims, ids.drop_last(), cutoff);
        if claim_in_window(claims, ids.last(), cutoff) {
            rest.push(ids.last())
        } else {
            rest
        }
    }
}

/// Why the fraud gate would refuse a claim from `user` at `now`: a manual
/// flag, an unexpired cooldown, or a full rolling window, in that order.
pub open spec fn fraud_check_err(pre: InsuranceState, user: u64, now: u64) -> Option<
    InsuranceError,
> {
    if pre.flagged_of(user) {
        Some(InsuranceError::UserFlagged)
    } else if pre.last_claim_of(user) > 0 && now - pre.last_claim_of(user) < pre.cfg().claim_cooldown {
        Some(InsuranceError::ClaimCooldownActive)
    } else if window_count(pre.claims, pre.window_of(user), lookback_start(now))
        >= pre.cfg().max_claims_per_period {
        Some(InsuranceError::TooManyRecentClaims)
    } else {
        None
    }
}

/// Whether a policy's coverage type refuses a claimed asset type:
/// token-only coverage refuses NFT claims and vice versa; combined
/// coverage accepts either.
pub open spec fn coverage_mismatch(coverage: CoverageType, asset: AssetType) -> bool {
    ||| (coverage is NFT && asset is Token)
    ||| (coverage is Token && asset is NFT)
}

/// Why a claim submission would be refused, in the order the checks run.
pub open spec fn submit_err(
    pre: InsuranceState,
    claimant: u64,
    asset_type: AssetType,
    claim_amount: i128,
    now: u64,
) -> Option<InsuranceError> {
    if pre.config is None {
        Some(InsuranceError::NotInitialized)
    } else if pre.cfg().paused {
        Some(InsuranceError::ContractPaused)
    } else if !pre.has_policy(claimant) {
        Some(InsuranceError::PolicyNotFound)
    } else if !(pre.policy_of(claimant).status is Active) {
        Some(InsuranceError::PolicyNotActive)
    } else if now < pre.policy_of(claimant).start_time || now > pre.policy_of(claimant).end_time {
        Some(InsuranceError::OutsideCoveragePeriod)
    } else if coverage_mismatch(pre.policy_of(claimant).coverage_type, asset_type) {
        Some(InsuranceError::CoverageTypeMismatch)
    } else if claim_amount <= 0 || claim_amount > pre.policy_of(claimant).coverage_amount {
        Some(InsuranceError::InvalidClaimAmount)
    } else if fraud_check_err(pre, claimant, now) is Some {
        fraud_check_err(pre, claimant, now)
    } else if pre.claim_counter == u64::MAX {
        Some(InsuranceError::ArithmeticOverflow)
    } else if pre.lifetime_claims_of(claimant) == u32::MAX {
        Some(InsuranceError::ArithmeticOverflow)
    } else {
        None
    }
}

/// Why a review would be refused, in the order the checks run.
pub open spec fn review_err(
    pre: InsuranceState,
    admin: u64,
    claim_id: u64,
    approved: bool,
    payout_amount: i128,
) -> Option<InsuranceError> {
    if pre.config is None {
        Some(InsuranceError::NotInitialized)
    } else if admin != pre.cfg().admin {
        Some(InsuranceError::Unauthorized)
    } else if !pre.has_claim(claim_id) {
        Some(InsuranceError::ClaimNotFound)
    } else if !(pre.claim_of(claim_id).status is Submitted || pre.claim_of(claim_id).status
        is UnderReview) {
        Some(InsuranceError::ClaimNotReviewable)
    } else if approved && (payout_amount <= 0 || payout_amount > pre.claim_of(
        claim_id,
    ).claim_amount) {
        Some(InsuranceError::InvalidPayoutAmount)
    } else {
        None
    }
}

/// Why a payout would be refused, in the order the checks run.
pub open spec fn payout_err(
    pre: InsuranceState,
    ledger: TokenLedger,
    admin: u64,
    claim_id: u64,
) -> Option<InsuranceError> {
    if pre.config is None {
        Some(InsuranceError::NotInitialized)
    } else if admin != pre.cfg().admin {
        Some(InsuranceError::Unauthorized)
    } else if !pre.has_claim(claim_id) {
        Some(InsuranceError::ClaimNotFound)
    } else if !(pre.claim_of(claim_id).status is Approved) {
        Some(InsuranceError::ClaimNotApproved)
    } else if pre.pool < pre.claim_of(claim_id).payout_amount {
        Some(InsuranceError::InsufficientPool)
    } else if !ledger.can_transfer(
        pre.account,
        pre.claim_of(claim_id).policy_owner,
        pre.claim_of(claim_id).payout_amount,
    ) {
        Some(InsuranceError::PaymentFailed)
    } else {
        None
    }
}

/// Why an admin-gated call would be refused before its own checks.
pub open spec fn admin_err(pre: InsuranceState, admin: u64) -> Option<InsuranceError> {
    if pre.config is None {
        Some(InsuranceError::NotInitialized)
    } else if admin != pre.cfg().admin {
        Some(InsuranceError::Unauthorized)
    } else {
        None
    }
}

fn vec_contains(ids: &Vec<u64>, x: u64) -> (r: bool)
    ensures
        r == ids@.contains(x),
{
    let mut i: usize = 0;
    while i < ids.len()
        invariant
            i <= ids.len(),
            forall|j: int| 0 <= j < i ==> ids@[j] != x,
        decreases ids.len() - i,
    {
        if ids[i] == x {
            proof {
                assert(ids@[i as int] == x);
            }
            return true;
        }
        i = i + 1;
    }
    false
}

/// The insurance contract: configuration, policy and claim tables, fraud
/// metrics, the premium pool and the lifetime counters, all owned by one
/// value. Its view is an [`InsuranceState`].
pub struct InsuranceContract {
    account: u64,
    config: Option<InsuranceConfig>,
    policies: vstd::hash_map::HashMapWithView<u64, InsurancePolicy>,
    policy_list: Vec<u64>,
    claims: vstd::hash_map::HashMapWithView<u64, Claim>,
    claim_counter: u64,
    user_claims: vstd::hash_map::HashMapWithView<u64, Vec<u64>>,
    fraud: vstd::hash_map::HashMapWithView<u64, FraudMetrics>,
    premium_pool: i128,
    total_policies: u64,
    total_claims: u64,
}

impl View for InsuranceContract {
    type V = InsuranceState;

    closed spec fn view(&self) -> InsuranceState {
        InsuranceState {
            account: self.account,
            config: self.config,
            policies: self.policies@,
            policy_list: self.policy_list@,
            claims: self.claims@,
            claim_counter: self.claim_counter,
            user_claims: Map::new(
                |k: u64| self.user_claims@.contains_key(k),
                |k: u64| self.user_claims@[k]@,
            ),
            fraud: self.fraud@,
            pool: self.premium_pool,
            total_policies: self.total_policies,
            total_claims: self.total_claims,
        }
    }
}

impl InsuranceContract {
    /// A freshly deployed, uninitialized contract instance holding custody
    /// under the principal `account`.
    pub fn new(account: u64) -> (r: Self)
        ensures
            r@.wf(),
            r@.account == account,
            !r@.initialized(),
            r@.pool == 0,
            r@.claim_counter == 0,
            r@.total_policies == 0,
            r@.total_claims == 0,
            r@.policy_list.len() == 0,
            forall|o: u64| !r@.policies.contains_key(o),
            forall|id: u64| !r@.claims.contains_key(id),
            forall|u: u64| !r@.fraud.contains_key(u),
            forall|u: u64| !r@.user_claims.contains_key(u),
    {
        InsuranceContract {
            account,
            config: None,
            policies: vstd::hash_map::HashMapWithView::new(),
            policy_list: Vec::new(),
            claims: vstd::hash_map::HashMapWithView::new(),
            claim_counter: 0,
            user_claims: vstd::hash_map::HashMapWithView::new(),
            fraud: vstd::hash_map::HashMapWithView::new(),
            premium_pool: 0,
            total_policies: 0,
            total_claims: 0,
        }
    }

    /// Seeds the configuration with the platform defaults around the given
    /// base rate and zeroes the pool and every counter. May run once;
    /// a second call fails with `AlreadyInitialized`.
    pub fn initialize(
        &mut self,
        admin: u64,
        payment_token: u64,
        base_premium_rate: u32,
    ) -> (r: Result<(), InsuranceError>)
        requires
            old(self)@.wf(),
        ensures
            final(self)@.wf(),
            match r {
                Ok(()) => !old(self)@.initialized() && final(self)@ == (InsuranceState {
                    config: Some(default_config(admin, payment_token, base_premium_rate)),
                    pool: 0,
                    claim_counter: 0,
                    total_policies: 0,
                    total_claims: 0,
                    ..old(self)@
                }),
                Err(e) => {
                    &&& e == InsuranceError::AlreadyInitialized
                    &&& old(self)@.initialized()
                    &&& final(self)@ == old(self)@
                },
            },
    {
        if self.config.is_some() {
            return Err(InsuranceError::AlreadyInitialized);
        }
        self.config = Some(
            InsuranceConfig {
                admin,
                payment_token,
                base_premium_rate,
                nft_multiplier: 150,
                token_multiplier: 100,
                combined_multiplier: 180,
                min_coverage_period: 7 * 86_400,
                max_coverage_period: 365 * 86_400,
                max_coverage_amount: 1_000_000_000_000,
                claim_review_period: 7 * 86_400,
                max_claims_per_period: 3,
                claim_cooldown: 7 * 86_400,
                paused: false,
            },
        );
        self.premium_pool = 0;
        self.claim_counter = 0;
        self.total_policies = 0;
        self.total_claims = 0;
        Ok(())
    }

    fn add_to_policy_list(&mut self, owner: u64)
        ensures
            final(self)@ == (InsuranceState {
                policy_list: if old(self)@.policy_list.contains(owner) {
                    old(self)@.policy_list
                } else {
                    old(self)@.policy_list.push(owner)
                },
                ..old(self)@
            }),
    {
        let ghost pre = self@;
        if !vec_contains(&self.policy_list, owner) {
            self.policy_list.push(owner);
            proof {
                assert(self@ =~= (InsuranceState { policy_list: pre.policy_list.push(owner), ..pre }));
            }
        } else {
            proof {
                assert(self@ =~= pre);
            }
        }
    }

    /// Purchases a policy for `owner`: validates the coverage against the
    /// configured limits, refuses a second active policy, collects the
    /// premium from the owner into the contract's custody, creates the
    /// `Active` policy record and credits the premium pool.
    pub fn purchase_policy(
        &mut self,
        ledger: &mut TokenLedger,
        owner: u64,
        coverage_type: CoverageType,
        coverage_amount: i128,
        coverage_period: u64,
        asset_address: u64,
        now: u64,
    ) -> (r: Result<(), InsuranceError>)
        requires
            old(self)@.wf(),
        ensures
            final(self)@.wf(),
            match r {
                Ok(()) => {
                    let premium = premium_of(
                        old(self)@.cfg(),
                        coverage_type,
                        coverage_amount,
                        coverage_period,
                    );
                    &&& purchase_err(
                        old(self)@,
                        *old(ledger),
                        owner,
                        coverage_type,
                        coverage_amount,
                        coverage_period,
                        now,
                    ) is None
                    &&& final(self)@ == (InsuranceState {
                        policies: old(self)@.policies.insert(
                            owner,
                            purchased_policy(
                                old(self)@.cfg(),
                                owner,
                                coverage_type,
                                coverage_amount,
                                coverage_period,
                                asset_address,
                                now,
                            ),
                        ),
                        policy_list: if old(self)@.policy_list.contains(owner) {
                            old(self)@.policy_list
                        } else {
                            old(self)@.policy_list.push(owner)
                        },
                        pool: (old(self)@.pool + premium) as i128,
                        total_policies: (old(self)@.total_policies + 1) as u64,
                        ..old(self)@
                    })
                    &&& transferred(
                        *old(ledger),
                        *final(ledger),
                        owner,
                        old(self)@.account,
                        premium as i128,
                    )
                },
                Err(e) => {
                    &&& Some(e) == purchase_err(
                        old(self)@,
                        *old(ledger),
                        owner,
                        coverage_type,
                        coverage_amount,
                        coverage_period,
                        now,
                    )
                    &&& final(self)@ == old(self)@
                    &&& *final(ledger) == *old(ledger)
                },
            },
    {
        let ghost pre = self@;
        let cfg = match self.config {
            Some(c) => c,
            None => {
                return Err(InsuranceError::NotInitialized);
            },
        };
        if cfg.paused {
            return Err(InsuranceError::ContractPaused);
        }
        if coverage_amount <= 0 || coverage_amount > cfg.max_coverage_amount {
            return Err(InsuranceError::InvalidCoverageAmount);
        }
        if coverage_period < cfg.min_coverage_period || coverage_period > cfg.max_coverage_period {
            return Err(InsuranceError::InvalidCoveragePeriod);
        }
        match self.policies.get(&owner) {
            Some(p) => {
                if p.status == PolicyStatus::Active {
                    return Err(InsuranceError::ActivePolicyExists);
                }
            },
            None => {},
        }
        let premium = match crate::premium::compute_premium(
            &cfg,
            coverage_type,
            coverage_amount,
            coverage_period,
        ) {
            Ok(p) => p,
            Err(e) => {
                return Err(e);
            },
        };
        let end_time = match now.checked_add(coverage_period) {
            Some(t) => t,
            None => {
                return Err(InsuranceError::ArithmeticOverflow);
            },
        };
        let new_pool = match self.premium_pool.checked_add(premium) {
            Some(v) => v,
            None => {
                return Err(InsuranceError::ArithmeticOverflow);
            },
        };
        let new_total = match self.total_policies.checked_add(1) {
            Some(v) => v,
            None => {
                return Err(InsuranceError::ArithmeticOverflow);
            },
        };
        if !ledger.transfer(owner, self.account, premium) {
            return Err(InsuranceError::PaymentFailed);
        }
        let policy = InsurancePolicy {
            owner,
            coverage_type,
            coverage_amount,
            premium_paid: premium,
            start_time: now,
            end_time,
            status: PolicyStatus::Active,
            asset_address,
        };
        self.policies.insert(owner, policy);
        self.add_to_policy_list(owner);
        self.premium_pool = new_pool;
        self.total_policies = new_total;
        Ok(())
    }

    /// Renews a policy: extends the end time by `additional_period` past
    /// the later of the current end and `now`, collects the premium for
    /// exactly the extension, sets the status back to `Active` and credits
    /// the pool. The total span from the original start may not exceed the
    /// configured maximum.
    pub fn renew_policy(
        &mut self,
        ledger: &mut TokenLedger,
        owner: u64,
        additional_period: u64,
        now: u64,
    ) -> (r: Result<(), InsuranceError>)
        requires
            old(self)@.wf(),
        ensures
            final(self)@.wf(),
            match r {
                Ok(()) => {
                    let premium = renewal_premium(old(self)@, owner, additional_period);
                    let policy = old(self)@.policy_of(owner);
                    &&& renew_err(old(self)@, *old(ledger), owner, additional_period, now) is None
                    &&& final(self)@ == (InsuranceState {
                        policies: old(self)@.policies.insert(
                            owner,
                            InsurancePolicy {
                                end_time: renewed_end(policy, now, additional_period) as u64,
                                premium_paid: (policy.premium_paid + premium) as i128,
                                status: PolicyStatus::Active,
                                ..policy
                            },
                        ),
                        pool: (old(self)@.pool + premium) as i128,
                        ..old(self)@
                    })
                    &&& transferred(
                        *old(ledger),
                        *final(ledger),
                        owner,
                        old(self)@.account,
                        premium as i128,
                    )
                },
                Err(e) => {
                    &&& Some(e) == renew_err(old(self)@, *old(ledger), owner, additional_period, now)
                    &&& final(self)@ == old(self)@
                    &&& *final(ledger) == *old(ledger)
                },
            },
    {
        let cfg = match self.config {
            Some(c) => c,
            None => {
                return Err(InsuranceError::NotInitialized);
            },
        };
        if cfg.paused {
            return Err(InsuranceError::ContractPaused);
        }
        let policy = match self.policies.get(&owner) {
            Some(p) => *p,
            None => {
                return Err(InsuranceError::PolicyNotFound);
            },
        };
        if !(policy.status == PolicyStatus::Active || policy.status == PolicyStatus::Expired) {
            return Err(InsuranceError::PolicyNotRenewable);
        }
        let base_end = if policy.end_time > now {
            policy.end_time
        } else {
            now
        };
        let new_end = match base_end.checked_add(additional_period) {
            Some(t) => t,
            None => {
                return Err(InsuranceError::ArithmeticOverflow);
            },
        };
        if new_end - policy.start_time > cfg.max_coverage_period {
            return Err(InsuranceError::PeriodExceedsMaximum);
        }
        let premium = match crate::premium::compute_premium(
            &cfg,
            policy.coverage_type,
            policy.coverage_amount,
            additional_period,
        ) {
            Ok(p) => p,
            Err(e) => {
                return Err(e);
            },
        };
        let new_paid = match policy.premium_paid.checked_add(premium) {
            Some(v) => v,
            None => {
                return Err(InsuranceError::ArithmeticOverflow);
            },
        };
        let new_pool = match self.premium_pool.checked_add(premium) {
            Some(v) => v,
            None => {
                return Err(InsuranceError::ArithmeticOverflow);
            },
        };
        if !ledger.transfer(owner, self.account, premium) {
            return Err(InsuranceError::PaymentFailed);
        }
        let updated = InsurancePolicy {
            end_time: new_end,
            premium_paid: new_paid,
            status: PolicyStatus::Active,
            ..policy
        };
        self.policies.insert(owner, updated);
        self.premium_pool = new_pool;
        Ok(())
    }

    /// Cancels an active policy: the status becomes `Cancelled` (terminal)
    /// and the owner is refunded the share of the cumulative premium that
    /// the unused coverage time represents, debited from the pool. The
    /// refund never exceeds the pool; a cancellation the pool cannot fund
    /// fails in full.
    pub fn cancel_policy(&mut self, ledger: &mut TokenLedger, owner: u64, now: u64) -> (r: Result<
        (),
        InsuranceError,
    >)
        requires
            old(self)@.wf(),
            old(self)@.has_policy(owner) ==> now >= old(self)@.policy_of(owner).start_time,
        ensures
            final(self)@.wf(),
            match r {
                Ok(()) => {
                    let refund = refund_of(old(self)@.policy_of(owner), now);
                    &&& cancel_err(old(self)@, *old(ledger), owner, now) is None
                    &&& final(self)@ == (InsuranceState {
                        policies: old(self)@.policies.insert(
                            owner,
                            InsurancePolicy {
                                status: PolicyStatus::Cancelled,
                                ..old(self)@.policy_of(owner)
                            },
                        ),
                        pool: (old(self)@.pool - refund) as i128,
                        ..old(self)@
                    })
                    &&& (refund > 0 ==> transferred(
                        *old(ledger),
                        *final(ledger),
                        old(self)@.account,
                        owner,
                        refund as i128,
                    ))
                    &&& (refund == 0 ==> *final(ledger) == *old(ledger))
                },
                Err(e) => {
                    &&& Some(e) == cancel_err(old(self)@, *old(ledger), owner, now)
                    &&& final(self)@ == old(self)@
                    &&& *final(ledger) == *old(ledger)
                },
            },
    {
        let policy = match self.policies.get(&owner) {
            Some(p) => *p,
            None => {
                return Err(InsuranceError::PolicyNotFound);
            },
        };
        if policy.status != PolicyStatus::Active {
            return Err(InsuranceError::PolicyNotActive);
        }
        let remaining: u64 = if policy.end_time > now {
            policy.end_time - now
        } else {
            0
        };
        let refund: i128 = if remaining > 0 {
            let total_period = policy.end_time - policy.start_time;
            match policy.premium_paid.checked_mul(remaining as i128) {
                Some(m) => m / (total_period as i128),
                None => {
                    return Err(InsuranceError::ArithmeticOverflow);
                },
            }
        } else {
            0
        };
        if refund > self.premium_pool {
            return Err(InsuranceError::InsufficientPool);
        }
        if refund > 0 {
            if !ledger.transfer(self.account, owner, refund) {
                return Err(InsuranceError::PaymentFailed);
            }
        }
        let updated = InsurancePolicy { status: PolicyStatus::Cancelled, ..policy };
        self.policies.insert(owner, updated);
        self.premium_pool = self.premium_pool - refund;
        Ok(())
    }

    /// Submits a claim against the claimant's active policy: the policy
    /// must be in force at `now`, cover the claimed asset type and bound
    /// the claim amount; the fraud gate must pass. On success the claim is
    /// created under the next id with status `Submitted`, appended to the
    /// claimant's history, and the fraud metrics are updated — the rolling
    /// window is rebuilt against the lookback cutoff and the new id
    /// appended. Returns the new claim id.
    pub fn submit_claim(
        &mut self,
        claimant: u64,
        asset_type: AssetType,
        asset_address: u64,
        claim_amount: i128,
        description: String,
        now: u64,
    ) -> (r: Result<u64, InsuranceError>)
        requires
            old(self)@.wf(),
            now >= old(self)@.last_claim_of(claimant),
        ensures
            final(self)@.wf(),
            match r {
                Ok(id) => {
                    let c = final(self)@.claims[id];
                    let m = final(self)@.fraud[claimant];
                    &&& submit_err(old(self)@, claimant, asset_type, claim_amount, now) is None
                    &&& id == old(self)@.claim_counter + 1
                    &&& final(self)@ == (InsuranceState {
                        claims: old(self)@.claims.insert(id, c),
                        user_claims: old(self)@.user_claims.insert(
                            claimant,
                            old(self)@.claims_of(claimant).push(id),
                        ),
                        fraud: old(self)@.fraud.insert(claimant, m),
                        claim_counter: id,
                        total_claims: id,
                        ..old(self)@
                    })
                    &&& c.claim_id == id
                    &&& c.policy_owner == claimant
                    &&& c.asset_type == asset_type
                    &&& c.asset_address == asset_address
                    &&& c.claim_amount == claim_amount
                    &&& c.description@ == description@
                    &&& c.submission_time == now
                    &&& c.status is Submitted
                    &&& c.review_notes@ == Seq::<char>::empty()
                    &&& c.payout_amount == 0
                    &&& c.payout_time == 0
                    &&& m.total_claims == old(self)@.lifetime_claims_of(claimant) + 1
                    &&& m.last_claim_time == now
                    &&& m.recent_claims@ == kept_window(
                        old(self)@.claims,
                        old(self)@.window_of(claimant),
                        lookback_start(now),
                    ).push(id)
                    &&& m.flagged == false
                    &&& m.flag_reason@ == (if old(self)@.has_metrics(claimant) {
                        old(self)@.fraud[claimant].flag_reason@
                    } else {
                        Seq::<char>::empty()
                    })
                },
                Err(e) => {
                    &&& Some(e) == submit_err(old(self)@, claimant, asset_type, claim_amount, now)
                    &&& final(self)@ == old(self)@
                },
            },
    {
        let ghost pre = self@;
        let cfg = match self.config {
            Some(c) => c,
            None => {
                return Err(InsuranceError::NotInitialized);
            },
        };
        if cfg.paused {
            return Err(InsuranceError::ContractPaused);
        }
        let policy = match self.policies.get(&claimant) {
            Some(p) => *p,
            None => {
                return Err(InsuranceError::PolicyNotFound);
            },
        };
        if policy.status != PolicyStatus::Active {
            return Err(InsuranceError::PolicyNotActive);
        }
        if now < policy.start_time || now > policy.end_time {
            return Err(InsuranceError::OutsideCoveragePeriod);
        }
        match (policy.coverage_type, asset_type) {
            (CoverageType::NFT, AssetType::Token) => {
                return Err(InsuranceError::CoverageTypeMismatch);
            },
            (CoverageType::Token, AssetType::NFT) => {
                return Err(InsuranceError::CoverageTypeMismatch);
            },
            _ => {},
        }
        if claim_amount <= 0 || claim_amount > policy.coverage_amount {
            return Err(InsuranceError::InvalidClaimAmount);
        }
        let metrics = match self.fraud.get(&claimant) {
            Some(m) => m.clone(),
            None => FraudMetrics {
                total_claims: 0,
                recent_claims: Vec::new(),
                last_claim_time: 0,
                flagged: false,
                flag_reason: String::new(),
            },
        };
        if metrics.flagged {
            return Err(InsuranceError::UserFlagged);
        }
        if metrics.last_claim_time > 0 {
            if now - metrics.last_claim_time < cfg.claim_cooldown {
                return Err(InsuranceError::ClaimCooldownActive);
            }
        }
        let cutoff: u64 = if now > FRAUD_LOOKBACK_PERIOD {
            now - FRAUD_LOOKBACK_PERIOD
        } else {
            0
        };
        let mut count: u64 = 0;
        let mut i: usize = 0;
        while i < metrics.recent_claims.len()
            invariant
                i <= metrics.recent_claims.len(),
                count <= i,
                count == window_count(self@.claims, metrics.recent_claims@.take(i as int), cutoff),
            decreases metrics.recent_claims.len() - i,
        {
            let id = metrics.recent_claims[i];
            match self.claims.get(&id) {
                Some(c) => {
                    if c.submission_time >= cutoff {
                        count = count + 1;
                    }
                },
                None => {},
            }
            proof {
                assert(metrics.recent_claims@.take(i as int + 1).drop_last()
                    =~= metrics.recent_claims@.take(i as int));
            }
            i = i + 1;
        }
        proof {
            assert(metrics.recent_claims@.take(metrics.recent_claims@.len() as int)
                =~= metrics.recent_claims@);
        }
        if count >= cfg.max_claims_per_period as u64 {
            return Err(InsuranceError::TooManyRecentClaims);
        }
        let new_id = match self.claim_counter.checked_add(1) {
            Some(v) => v,
            None => {
                return Err(InsuranceError::ArithmeticOverflow);
            },
        };
        let new_lifetime = match metrics.total_claims.checked_add(1) {
            Some(v) => v,
            None => {
                return Err(InsuranceError::ArithmeticOverflow);
            },
        };
        let mut new_recent: Vec<u64> = Vec::new();
        let mut j: usize = 0;
        while j < metrics.recent_claims.len()
            invariant
                j <= metrics.recent_claims.len(),
                new_recent@ == kept_window(
                    self@.claims,
                    metrics.recent_claims@.take(j as int),
                    cutoff,
                ),
            decreases metrics.recent_claims.len() - j,
        {
            let id = metrics.recent_claims[j];
            match self.claims.get(&id) {
                Some(c) => {
                    if c.submission_time >= cutoff {
                        new_recent.push(id);
                    }
                },
                None => {},
            }
            proof {
                assert(metrics.recent_claims@.take(j as int + 1).drop_last()
                    =~= metrics.recent_claims@.take(j as int));
            }
            j = j + 1;
        }
        proof {
            assert(metrics.recent_claims@.take(metrics.recent_claims@.len() as int)
                =~= metrics.recent_claims@);
        }
        new_recent.push(new_id);
        let claim = Claim {
            claim_id: new_id,
            policy_owner: claimant,
            asset_type,
            asset_address,
            claim_amount,
            description,
            submission_time: now,
            status: ClaimStatus::Submitted,
            review_notes: String::new(),
            payout_amount: 0,
            payout_time: 0,
        };
        self.claims.insert(new_id, claim);
        let mut history = match self.user_claims.get(&claimant) {
            Some(ids) => copy_ids(ids),
            None => Vec::new(),
        };
        history.push(new_id);
        self.user_claims.insert(claimant, history);
        let new_metrics = FraudMetrics {
            total_claims: new_lifetime,
            recent_claims: new_recent,
            last_claim_time: now,
            flagged: false,
            flag_reason: metrics.flag_reason,
        };
        self.fraud.insert(claimant, new_metrics);
        self.claim_counter = new_id;
        self.total_claims = new_id;
        proof {
            assert(self@ =~= (InsuranceState {
                claims: pre.claims.insert(new_id, self@.claims[new_id]),
                user_claims: pre.user_claims.insert(claimant, pre.claims_of(claimant).push(new_id)),
                fraud: pre.fraud.insert(claimant, self@.fraud[claimant]),
                claim_counter: new_id,
                total_claims: new_id,
                ..pre
            }));
        }
        Ok(new_id)
    }

    /// Reviews a claim (admin only): an approval stores the payout amount,
    /// which must be positive and within the claim amount, and sets the
    /// status to `Approved`; a denial sets `Rejected` and zeroes the
    /// payout. The review notes are stored either way. Only `Submitted`
    /// and `UnderReview` claims can be reviewed.
    pub fn review_claim(
        &mut self,
        admin: u64,
        claim_id: u64,
        approved: bool,
        review_notes: String,
        payout_amount: i128,
    ) -> (r: Result<(), InsuranceError>)
        requires
            old(self)@.wf(),
        ensures
            final(self)@.wf(),
            match r {
                Ok(()) => {
                    let c0 = old(self)@.claim_of(claim_id);
                    let c = final(self)@.claims[claim_id];
                    &&& review_err(old(self)@, admin, claim_id, approved, payout_amount) is None
                    &&& final(self)@ == (InsuranceState {
                        claims: old(self)@.claims.insert(claim_id, c),
                        ..old(self)@
                    })
                    &&& c.status == (if approved {
                        ClaimStatus::Approved
                    } else {
                        ClaimStatus::Rejected
                    })
                    &&& c.payout_amount == (if approved {
                        payout_amount
                    } else {
                        0
                    })
                    &&& c.review_notes@ == review_notes@
                    &&& c.claim_id == c0.claim_id
                    &&& c.policy_owner == c0.policy_owner
                    &&& c.asset_type == c0.asset_type
                    &&& c.asset_address == c0.asset_address
                    &&& c.claim_amount == c0.claim_amount
                    &&& c.description@ == c0.description@
                    &&& c.submission_time == c0.submission_time
                    &&& c.payout_time == c0.payout_time
                },
                Err(e) => {
                    &&& Some(e) == review_err(old(self)@, admin, claim_id, approved, payout_amount)
                    &&& final(self)@ == old(self)@
                },
            },
    {
        let ghost pre = self@;
        let cfg = match self.config {
            Some(c) => c,
            None => {
                return Err(InsuranceError::NotInitialized);
            },
        };
        if admin != cfg.admin {
            return Err(InsuranceError::Unauthorized);
        }
        let claim = match self.claims.get(&claim_id) {
            Some(c) => c.clone(),
            None => {
                return Err(InsuranceError::ClaimNotFound);
            },
        };
        if !(claim.status == ClaimStatus::Submitted || claim.status == ClaimStatus::UnderReview) {
            return Err(InsuranceError::ClaimNotReviewable);
        }
        if approved {
            if payout_amount <= 0 || payout_amount > claim.claim_amount {
                return Err(InsuranceError::InvalidPayoutAmount);
            }
        }
        let updated = Claim {
            status: if approved {
                ClaimStatus::Approved
            } else {
                ClaimStatus::Rejected
            },
            payout_amount: if approved {
                payout_amount
            } else {
                0
            },
            review_notes,
            ..claim
        };
        self.claims.insert(claim_id, updated);
        Ok(())
    }

    /// Pays out an approved claim (admin only): the pool must cover the
    /// stored payout amount; the payout is transferred to the claimant,
    /// the pool debited, and the claim becomes `Paid` with `now` recorded
    /// as its payout time.
    pub fn process_payout(
        &mut self,
        ledger: &mut TokenLedger,
        admin: u64,
        claim_id: u64,
        now: u64,
    ) -> (r: Result<(), InsuranceError>)
        requires
            old(self)@.wf(),
        ensures
            final(self)@.wf(),
            match r {
                Ok(()) => {
                    let c0 = old(self)@.claim_of(claim_id);
                    let c = final(self)@.claims[claim_id];
                    &&& payout_err(old(self)@, *old(ledger), admin, claim_id) is None
                    &&& final(self)@ == (InsuranceState {
                        claims: old(self)@.claims.insert(claim_id, c),
                        pool: (old(self)@.pool - c0.payout_amount) as i128,
                        ..old(self)@
                    })
                    &&& c.status is Paid
                    &&& c.payout_time == now
                    &&& c.payout_amount == c0.payout_amount
                    &&& c.claim_id == c0.claim_id
                    &&& c.policy_owner == c0.policy_owner
                    &&& c.asset_type == c0.asset_type
                    &&& c.asset_address == c0.asset_address
                    &&& c.claim_amount == c0.claim_amount
                    &&& c.description@ == c0.description@
                    &&& c.submission_time == c0.submission_time
                    &&& c.review_notes@ == c0.review_notes@
                    &&& transferred(
                        *old(ledger),
                        *final(ledger),
                        old(self)@.account,
                        c0.policy_owner,
                        c0.payout_amount,
                    )
                },
                Err(e) => {
                    &&& Some(e) == payout_err(old(self)@, *old(ledger), admin, claim_id)
                    &&& final(self)@ == old(self)@
                    &&& *final(ledger) == *old(ledger)
                },
            },
    {
        let cfg = match self.config {
            Some(c) => c,
            None => {
                return Err(InsuranceError::NotInitialized);
            },
        };
        if admin != cfg.admin {
            return Err(InsuranceError::Unauthorized);
        }
        let claim = match self.claims.get(&claim_id) {
            Some(c) => c.clone(),
            None => {
                return Err(InsuranceError::ClaimNotFound);
            },
        };
        if claim.status != ClaimStatus::Approved {
            return Err(InsuranceError::ClaimNotApproved);
        }
        if self.premium_pool < claim.payout_amount {
            return Err(InsuranceError::InsufficientPool);
        }
        if !ledger.transfer(self.account, claim.policy_owner, claim.payout_amount) {
            return Err(InsuranceError::PaymentFailed);
        }
        let payout = claim.payout_amount;
        let updated = Claim { status: ClaimStatus::Paid, payout_time: now, ..claim };
        self.claims.insert(claim_id, updated);
        self.premium_pool = self.premium_pool - payout;
        Ok(())
    }

    /// Funds the premium pool from the admin's own balance (admin only).
    pub fn add_to_pool(&mut self, ledger: &mut TokenLedger, admin: u64, amount: i128) -> (r: Result<
        (),
        InsuranceError,
    >)
        requires
            old(self)@.wf(),
        ensures
            final(self)@.wf(),
            match r {
                Ok(()) => {
                    &&& admin_err(old(self)@, admin) is None
                    &&& amount > 0
                    &&& old(self)@.pool + amount <= i128::MAX
                    &&& old(ledger).can_transfer(admin, old(self)@.account, amount)
                    &&& final(self)@ == (InsuranceState {
                        pool: (old(self)@.pool + amount) as i128,
                        ..old(self)@
                    })
                    &&& transferred(*old(ledger), *final(ledger), admin, old(self)@.account, amount)
                },
                Err(e) => {
                    &&& final(self)@ == old(self)@
                    &&& *final(ledger) == *old(ledger)
                    &&& Some(e) == (if admin_err(old(self)@, admin) is Some {
                        admin_err(old(self)@, admin)
                    } else if amount <= 0 {
                        Some(InsuranceError::InvalidAmount)
                    } else if old(self)@.pool + amount > i128::MAX {
                        Some(InsuranceError::ArithmeticOverflow)
                    } else if !old(ledger).can_transfer(admin, old(self)@.account, amount) {
                        Some(InsuranceError::PaymentFailed)
                    } else {
                        None
                    })
                },
            },
    {
        let cfg = match self.config {
            Some(c) => c,
            None => {
                return Err(InsuranceError::NotInitialized);
            },
        };
        if admin != cfg.admin {
            return Err(InsuranceError::Unauthorized);
        }
        if amount <= 0 {
            return Err(InsuranceError::InvalidAmount);
        }
        let new_pool = match self.premium_pool.checked_add(amount) {
            Some(v) => v,
            None => {
                return Err(InsuranceError::ArithmeticOverflow);
            },
        };
        if !ledger.transfer(admin, self.account, amount) {
            return Err(InsuranceError::PaymentFailed);
        }
        self.premium_pool = new_pool;
        Ok(())
    }

    /// Withdraws from the premium pool to the admin (admin only); the pool
    /// must cover the amount.
    pub fn withdraw_from_pool(
        &mut self,
        ledger: &mut TokenLedger,
        admin: u64,
        amount: i128,
    ) -> (r: Result<(), InsuranceError>)
        requires
            old(self)@.wf(),
        ensures
            final(self)@.wf(),
            match r {
                Ok(()) => {
                    &&& admin_err(old(self)@, admin) is None
                    &&& amount > 0
                    &&& old(self)@.pool >= amount
                    &&& old(ledger).can_transfer(old(self)@.account, admin, amount)
                    &&& final(self)@ == (InsuranceState {
                        pool: (old(self)@.pool - amount) as i128,
                        ..old(self)@
                    })
                    &&& transferred(*old(ledger), *final(ledger), old(self)@.account, admin, amount)
                },
                Err(e) => {
                    &&& final(self)@ == old(self)@
                    &&& *final(ledger) == *old(ledger)
                    &&& Some(e) == (if admin_err(old(self)@, admin) is Some {
                        admin_err(old(self)@, admin)
                    } else if amount <= 0 {
                        Some(InsuranceError::InvalidAmount)
                    } else if old(self)@.pool < amount {
                        Some(InsuranceError::InsufficientPool)
                    } else if !old(ledger).can_transfer(old(self)@.account, admin, amount) {
                        Some(InsuranceError::PaymentFailed)
                    } else {
                        None
                    })
                },
            },
    {
        let cfg = match self.config {
            Some(c) => c,
            None => {
                return Err(InsuranceError::NotInitialized);
            },
        };
        if admin != cfg.admin {
            return Err(InsuranceError::Unauthorized);
        }
        if amount <= 0 {
            return Err(InsuranceError::InvalidAmount);
        }
        if self.premium_pool < amount {
            return Err(InsuranceError::InsufficientPool);
        }
        if !ledger.transfer(self.account, admin, amount) {
            return Err(InsuranceError::PaymentFailed);
        }
        self.premium_pool = self.premium_pool - amount;
        Ok(())
    }

    /// Drains the entire premium pool to the admin (admin only) and
    /// returns the amount drained; with an empty pool nothing moves.
    pub fn emergency_withdraw(&mut self, ledger: &mut TokenLedger, admin: u64) -> (r: Result<
        i128,
        InsuranceError,
    >)
        requires
            old(self)@.wf(),
        ensures
            final(self)@.wf(),
            match r {
                Ok(drained) => {
                    &&& admin_err(old(self)@, admin) is None
                    &&& drained == old(self)@.pool
                    &&& final(self)@ == (InsuranceState { pool: 0, ..old(self)@ })
                    &&& (drained > 0 ==> transferred(
                        *old(ledger),
                        *final(ledger),
                        old(self)@.account,
                        admin,
                        drained,
                    ))
                    &&& (drained == 0 ==> *final(ledger) == *old(ledger))
                },
                Err(e) => {
                    &&& final(self)@ == old(self)@
                    &&& *final(ledger) == *old(ledger)
                    &&& Some(e) == (if admin_err(old(self)@, admin) is Some {
                        admin_err(old(self)@, admin)
                    } else if old(self)@.pool > 0 && !old(ledger).can_transfer(
                        old(self)@.account,
                        admin,
                        old(self)@.pool,
                    ) {
                        Some(InsuranceError::PaymentFailed)
                    } else {
                        None
                    })
                },
            },
    {
        let cfg = match self.config {
            Some(c) => c,
            None => {
                return Err(InsuranceError::NotInitialized);
            },
        };
        if admin != cfg.admin {
            return Err(InsuranceError::Unauthorized);
        }
        let pool = self.premium_pool;
        if pool > 0 {
            if !ledger.transfer(self.account, admin, pool) {
                return Err(InsuranceError::PaymentFailed);
            }
            self.premium_pool = 0;
        }
        Ok(pool)
    }

    /// Flags a principal for suspicious activity (admin only); a flagged
    /// principal cannot submit claims until unflagged. Claim counts and
    /// times are not disturbed.
    pub fn flag_user(&mut self, admin: u64, user: u64, reason: String) -> (r: Result<
        (),
        InsuranceError,
    >)
        requires
            old(self)@.wf(),
        ensures
            final(self)@.wf(),
            match r {
                Ok(()) => {
                    let m = final(self)@.fraud[user];
                    &&& admin_err(old(self)@, admin) is None
                    &&& final(self)@ == (InsuranceState {
                        fraud: old(self)@.fraud.insert(user, m),
                        ..old(self)@
                    })
                    &&& m.flagged == true
                    &&& m.flag_reason@ == reason@
                    &&& m.total_claims == old(self)@.lifetime_claims_of(user)
                    &&& m.recent_claims@ == old(self)@.window_of(user)
                    &&& m.last_claim_time == old(self)@.last_claim_of(user)
                },
                Err(e) => {
                    &&& Some(e) == admin_err(old(self)@, admin)
                    &&& final(self)@ == old(self)@
                },
            },
    {
        let ghost pre = self@;
        let cfg = match self.config {
            Some(c) => c,
            None => {
                return Err(InsuranceError::NotInitialized);
            },
        };
        if admin != cfg.admin {
            return Err(InsuranceError::Unauthorized);
        }
        let metrics = match self.fraud.get(&user) {
            Some(m) => m.clone(),
            None => FraudMetrics {
                total_claims: 0,
                recent_claims: Vec::new(),
                last_claim_time: 0,
                flagged: false,
                flag_reason: String::new(),
            },
        };
        let updated = FraudMetrics { flagged: true, flag_reason: reason, ..metrics };
        self.fraud.insert(user, updated);
        proof {
            assert(self@ =~= (InsuranceState { fraud: pre.fraud.insert(user, self@.fraud[user]), ..pre }));
        }
        Ok(())
    }

    /// Clears a principal's flag (admin only); without metrics for the
    /// principal nothing changes. Claim counts and times are not disturbed.
    pub fn unflag_user(&mut self, admin: u64, user: u64) -> (r: Result<(), InsuranceError>)
        requires
            old(self)@.wf(),
        ensures
            final(self)@.wf(),
            match r {
                Ok(()) => {
                    &&& admin_err(old(self)@, admin) is None
                    &&& (old(self)@.has_metrics(user) ==> {
                        let m = final(self)@.fraud[user];
                        &&& final(self)@ == (InsuranceState {
                            fraud: old(self)@.fraud.insert(user, m),
                            ..old(self)@
                        })
                        &&& m.flagged == false
                        &&& m.flag_reason@ == Seq::<char>::empty()
                        &&& m.total_claims == old(self)@.lifetime_claims_of(user)
                        &&& m.recent_claims@ == old(self)@.window_of(user)
                        &&& m.last_claim_time == old(self)@.last_claim_of(user)
                    })
                    &&& (!old(self)@.has_metrics(user) ==> final(self)@ == old(self)@)
                },
                Err(e) => {
                    &&& Some(e) == admin_err(old(self)@, admin)
                    &&& final(self)@ == old(self)@
                },
            },
    {
        let ghost pre = self@;
        let cfg = match self.config {
            Some(c) => c,
            None => {
                return Err(InsuranceError::NotInitialized);
            },
        };
        if admin != cfg.admin {
            return Err(InsuranceError::Unauthorized);
        }
        let metrics = match self.fraud.get(&user) {
            Some(m) => m.clone(),
            None => {
                return Ok(());
            },
        };
        let updated = FraudMetrics { flagged: false, flag_reason: String::new(), ..metrics };
        self.fraud.insert(user, updated);
        proof {
            assert(self@ =~= (InsuranceState { fraud: pre.fraud.insert(user, self@.fraud[user]), ..pre }));
        }
        Ok(())
    }

    /// Replaces the premium rate table (admin only).
    pub fn update_premium_rates(
        &mut self,
        admin: u64,
        base_rate: u32,
        nft_mult: u32,
        token_mult: u32,
        combined_mult: u32,
    ) -> (r: Result<(), InsuranceError>)
        requires
            old(self)@.wf(),
        ensures
            final(self)@.wf(),
            match r {
                Ok(()) => {
                    &&& admin_err(old(self)@, admin) is None
                    &&& final(self)@ == (InsuranceState {
                        config: Some(
                            InsuranceConfig {
                                base_premium_rate: base_rate,
                                nft_multiplier: nft_mult,
                                token_multiplier: token_mult,
                                combined_multiplier: combined_mult,
                                ..old(self)@.cfg()
                            },
                        ),
                        ..old(self)@
                    })
                },
                Err(e) => {
                    &&& Some(e) == admin_err(old(self)@, admin)
                    &&& final(self)@ == old(self)@
                },
            },
    {
        let cfg = match self.config {
            Some(c) => c,
            None => {
                return Err(InsuranceError::NotInitialized);
            },
        };
        if admin != cfg.admin {
            return Err(InsuranceError::Unauthorized);
        }
        self.config = Some(
            InsuranceConfig {
                base_premium_rate: base_rate,
                nft_multiplier: nft_mult,
                token_multiplier: token_mult,
                combined_multiplier: combined_mult,
                ..cfg
            },
        );
        Ok(())
    }

    /// Replaces the coverage limits (admin only).
    pub fn update_coverage_limits(
        &mut self,
        admin: u64,
        min_period: u64,
        max_period: u64,
        max_amount: i128,
    ) -> (r: Result<(), InsuranceError>)
        requires
            old(self)@.wf(),
        ensures
            final(self)@.wf(),
            match r {
                Ok(()) => {
                    &&& admin_err(old(self)@, admin) is None
                    &&& final(self)@ == (InsuranceState {
                        config: Some(
                            InsuranceConfig {
                                min_coverage_period: min_period,
                                max_coverage_period: max_period,
                                max_coverage_amount: max_amount,
                                ..old(self)@.cfg()
                            },
                        ),
                        ..old(self)@
                    })
                },
                Err(e) => {
                    &&& Some(e) == admin_err(old(self)@, admin)
                    &&& final(self)@ == old(self)@
                },
            },
    {
        let cfg = match self.config {
            Some(c) => c,
            None => {
                return Err(InsuranceError::NotInitialized);
            },
        };
        if admin != cfg.admin {
            return Err(InsuranceError::Unauthorized);
        }
        self.config = Some(
            InsuranceConfig {
                min_coverage_period: min_period,
                max_coverage_period: max_period,
                max_coverage_amount: max_amount,
                ..cfg
            },
        );
        Ok(())
    }

    /// Replaces the fraud-detection parameters (admin only).
    pub fn update_fraud_params(&mut self, admin: u64, max_claims: u32, cooldown: u64) -> (r: Result<
        (),
        InsuranceError,
    >)
        requires
            old(self)@.wf(),
        ensures
            final(self)@.wf(),
            match r {
                Ok(()) => {
                    &&& admin_err(old(self)@, admin) is None
                    &&& final(self)@ == (InsuranceState {
                        config: Some(
                            InsuranceConfig {
                                max_claims_per_period: max_claims,
                                claim_cooldown: cooldown,
                                ..old(self)@.cfg()
                            },
                        ),
                        ..old(self)@
                    })
                },
                Err(e) => {
                    &&& Some(e) == admin_err(old(self)@, admin)
                    &&& final(self)@ == old(self)@
                },
            },
    {
        let cfg = match self.config {
            Some(c) => c,
            None => {
                return Err(InsuranceError::NotInitialized);
            },
        };
        if admin != cfg.admin {
            return Err(InsuranceError::Unauthorized);
        }
        self.config = Some(
            InsuranceConfig { max_claims_per_period: max_claims, claim_cooldown: cooldown, ..cfg },
        );
        Ok(())
    }

    /// Pauses or unpauses the contract (admin only). While paused,
    /// purchases, renewals and claim submissions are refused; reviews and
    /// payouts stay available so in-flight obligations can be honored.
    pub fn set_paused(&mut self, admin: u64, paused: bool) -> (r: Result<(), InsuranceError>)
        requires
            old(self)@.wf(),
        ensures
            final(self)@.wf(),
            match r {
                Ok(()) => {
                    &&& admin_err(old(self)@, admin) is None
                    &&& final(self)@ == (InsuranceState {
                        config: Some(InsuranceConfig { paused, ..old(self)@.cfg() }),
                        ..old(self)@
                    })
                },
                Err(e) => {
                    &&& Some(e) == admin_err(old(self)@, admin)
                    &&& final(self)@ == old(self)@
                },
            },
    {
        let cfg = match self.config {
            Some(c) => c,
            None => {
                return Err(InsuranceError::NotInitialized);
            },
        };
        if admin != cfg.admin {
            return Err(InsuranceError::Unauthorized);
        }
        self.config = Some(InsuranceConfig { paused, ..cfg });
        Ok(())
    }

    /// The stored configuration.
    pub fn get_config(&self) -> (r: Result<InsuranceConfig, InsuranceError>)
        ensures
            match r {
                Ok(c) => self@.config == Some(c),
                Err(e) => !self@.initialized() && e == InsuranceError::NotInitialized,
            },
    {
        match self.config {
            Some(c) => Ok(c),
            None => Err(InsuranceError::NotInitialized),
        }
    }

    /// The premium pool balance.
    pub fn get_premium_pool(&self) -> (r: i128)
        ensures
            r == self@.pool,
    {
        self.premium_pool
    }

    /// How many policies were ever purchased.
    pub fn get_total_policies(&self) -> (r: u64)
        ensures
            r == self@.total_policies,
    {
        self.total_policies
    }

    /// How many claims were ever submitted.
    pub fn get_total_claims(&self) -> (r: u64)
        ensures
            r == self@.total_claims,
    {
        self.total_claims
    }

    /// The policy record of a principal, if one exists.
    pub fn get_policy(&self, user: u64) -> (r: Option<InsurancePolicy>)
        ensures
            match r {
                Some(p) => self@.has_policy(user) && p == self@.policy_of(user),
                None => !self@.has_policy(user),
            },
    {
        match self.policies.get(&user) {
            Some(p) => Some(*p),
            None => None,
        }
    }

    /// The claim record under a claim id, if one exists.
    pub fn get_claim(&self, claim_id: u64) -> (r: Option<Claim>)
        ensures
            match r {
                Some(c) => self@.has_claim(claim_id) && c == self@.claim_of(claim_id),
                None => !self@.has_claim(claim_id),
            },
    {
        match self.claims.get(&claim_id) {
            Some(c) => Some(c.clone()),
            None => None,
        }
    }

    /// A principal's claim ids in submission order; empty without history.
    pub fn get_user_claims(&self, user: u64) -> (r: Vec<u64>)
        ensures
            r@ == self@.claims_of(user),
    {
        match self.user_claims.get(&user) {
            Some(ids) => copy_ids(ids),
            None => Vec::new(),
        }
    }

    /// Every principal that ever purchased a policy, in first-purchase order.
    pub fn get_all_policies(&self) -> (r: Vec<u64>)
        ensures
            r@ == self@.policy_list,
    {
        copy_ids(&self.policy_list)
    }

    /// The fraud metrics of a principal. A principal with no recorded
    /// history gets a zeroed record — no claims, an empty window, not
    /// flagged — rather than an error.
    pub fn get_fraud_metrics(&self, user: u64) -> (r: FraudMetrics)
        ensures
            r.total_claims == self@.lifetime_claims_of(user),
            r.recent_claims@ == self@.window_of(user),
            r.last_claim_time == self@.last_claim_of(user),
            r.flagged == self@.flagged_of(user),
            r.flag_reason@ == (if self@.has_metrics(user) {
                self@.fraud[user].flag_reason@
            } else {
                Seq::<char>::empty()
            }),
    {
        match self.fraud.get(&user) {
            Some(m) => m.clone(),
            None => FraudMetrics {
                total_claims: 0,
                recent_claims: Vec::new(),
                last_claim_time: 0,
                flagged: false,
                flag_reason: String::new(),
            },
        }
    }

    /// Whether a principal's coverage is in force at `now`.
    pub fn is_policy_active(&self, user: u64, now: u64) -> (r: bool)
        ensures
            r == self@.policy_active(user, now),
    {
        match self.policies.get(&user) {
            Some(p) => {
                p.status == PolicyStatus::Active && p.start_time <= now && now <= p.end_time
            },
            None => false,
        }
    }

    /// The premium for the given coverage under the stored configuration.
    pub fn calculate_premium(
        &self,
        coverage_type: CoverageType,
        coverage_amount: i128,
        coverage_period: u64,
    ) -> (r: Result<i128, InsuranceError>)
        ensures
            match r {
                Ok(p) => {
                    &&& self@.initialized()
                    &&& premium_fits(self@.cfg(), coverage_type, coverage_amount, coverage_period)
                    &&& p == premium_of(self@.cfg(), coverage_type, coverage_amount, coverage_period)
                },
                Err(e) => {
                    ||| (!self@.initialized() && e == InsuranceError::NotInitialized)
                    ||| {
                        &&& self@.initialized()
                        &&& !premium_fits(
                            self@.cfg(),
                            coverage_type,
                            coverage_amount,
                            coverage_period,
                        )
                        &&& e == InsuranceError::ArithmeticOverflow
                    }
                },
            },
    {
        let cfg = match self.config {
            Some(c) => c,
            None => {
                return Err(InsuranceError::NotInitialized);
            },
        };
        crate::premium::compute_premium(&cfg, coverage_type, coverage_amount, coverage_period)
    }
}

/// The premium pool is never negative in any well-formed state — and every
/// operation of the contract both requires and re-establishes
/// well-formedness, so the pool stays non-negative across any sequence of
/// committed calls.
pub proof fn lemma_pool_nonnegative(s: InsuranceState)
    requires
        s.wf(),
    ensures
        s.pool >= 0,
{
}

/// Purchasing while the same owner already holds an `Active` policy always
/// fails, whatever coverage type, amount or period is requested.
pub proof fn lemma_purchase_rejected_while_active(
    s: InsuranceState,
    ledger: TokenLedger,
    owner: u64,
    coverage_type: CoverageType,
    coverage_amount: i128,
    coverage_period: u64,
    now: u64,
)
    requires
        s.has_policy(owner),
        s.policy_of(owner).status is Active,
    ensures
        purchase_err(s, ledger, owner, coverage_type, coverage_amount, coverage_period, now)
            is Some,
{
}

/// Cancelling at the exact midpoint of an even coverage window refunds
/// exactly half of the cumulative premium, by integer division.
pub proof fn lemma_midpoint_refund(policy: InsurancePolicy, now: u64)
    requires
        policy.premium_paid >= 0,
        policy.start_time < policy.end_time,
        (policy.end_time - policy.start_time) % 2 == 0,
        now == policy.start_time + (policy.end_time - policy.start_time) / 2,
    ensures
        refund_of(policy, now) == policy.premium_paid / 2,
{
    let span = policy.end_time - policy.start_time;
    let half = span / 2;
    vstd::arithmetic::div_mod::lemma_fundamental_div_mod(span as int, 2);
    assert(span == 2 * half);
    assert(remaining_period(policy, now) == half);
    vstd::arithmetic::div_mod::lemma_div_multiples_vanish(
        policy.premium_paid as int,
        half as int,
    );
    vstd::arithmetic::div_mod::lemma_div_denominator(
        policy.premium_paid * half,
        half as int,
        2,
    );
    vstd::arithmetic::mul::lemma_mul_is_commutative(half as int, 2);
    vstd::arithmetic::mul::lemma_mul_nonnegative(policy.premium_paid as int, half as int);
    assert(policy.premium_paid * half / (half * 2) == policy.premium_paid / 2);
}

/// In any well-formed state, an approved or paid claim's payout is
/// positive and never exceeds its claim amount.
pub proof fn lemma_payout_bounded(s: InsuranceState, id: u64)
    requires
        s.wf(),
        s.has_claim(id),
        s.claim_of(id).status is Approved || s.claim_of(id).status is Paid,
    ensures
        0 < s.claim_of(id).payout_amount <= s.claim_of(id).claim_amount,
{
}

/// A submission that passes every check claims a positive amount within
/// the policy's coverage amount.
pub proof fn lemma_submitted_claim_bounded(
    s: InsuranceState,
    claimant: u64,
    asset_type: AssetType,
    claim_amount: i128,
    now: u64,
)
    requires
        submit_err(s, claimant, asset_type, claim_amount, now) is None,
    ensures
        0 < claim_amount <= s.policy_of(claimant).coverage_amount,
{
}

/// A claim arriving less than `claim_cooldown` after the claimant's
/// previous claim is always refused.
pub proof fn lemma_cooldown_rejects(
    s: InsuranceState,
    claimant: u64,
    asset_type: AssetType,
    claim_amount: i128,
    now: u64,
)
    requires
        s.last_claim_of(claimant) > 0,
        now >= s.last_claim_of(claimant),
        s.initialized(),
        now - s.last_claim_of(claimant) < s.cfg().claim_cooldown,
    ensures
        submit_err(s, claimant, asset_type, claim_amount, now) is Some,
{
}

/// The other half of the cooldown gate: a principal with no prior claim
/// history who submitted a first claim at `now1` — moving the state from
/// `s1` to `s2` as `submit_claim` describes — has a second claim accepted
/// once the cooldown has elapsed, provided the policy still covers it and
/// the claim itself is valid; and the id it receives, `s2.claim_counter + 1`,
/// is strictly greater than the first claim's id.
pub proof fn lemma_second_claim_after_cooldown_accepted(
    s1: InsuranceState,
    s2: InsuranceState,
    claimant: u64,
    asset_type: AssetType,
    claim_amount: i128,
    now1: u64,
    now2: u64,
    id1: u64,
)
    requires
        // How submit_claim left the state after the first claim:
        submit_err(s1, claimant, asset_type, claim_amount, now1) is None,
        id1 == s1.claim_counter + 1,
        s2 == (InsuranceState {
            claims: s1.claims.insert(id1, s2.claims[id1]),
            user_claims: s1.user_claims.insert(claimant, s1.claims_of(claimant).push(id1)),
            fraud: s1.fraud.insert(claimant, s2.fraud[claimant]),
            claim_counter: id1,
            total_claims: id1,
            ..s1
        }),
        s2.fraud[claimant].flagged == false,
        s2.fraud[claimant].last_claim_time == now1,
        s2.fraud[claimant].recent_claims@ == kept_window(
            s1.claims,
            s1.window_of(claimant),
            lookback_start(now1),
        ).push(id1),
        // The first claim was the principal's first ever:
        s1.window_of(claimant).len() == 0,
        // The second claim waits out the cooldown and is itself valid:
        now2 >= now1 + s2.cfg().claim_cooldown,
        s2.policy_of(claimant).status is Active,
        s2.policy_of(claimant).start_time <= now2 <= s2.policy_of(claimant).end_time,
        !coverage_mismatch(s2.policy_of(claimant).coverage_type, asset_type),
        0 < claim_amount <= s2.policy_of(claimant).coverage_amount,
        s2.cfg().max_claims_per_period >= 2,
        s2.claim_counter < u64::MAX,
        s2.fraud[claimant].total_claims < u32::MAX,
    ensures
        submit_err(s2, claimant, asset_type, claim_amount, now2) is None,
        s2.claim_counter + 1 > id1,
{
    assert(s2.config == s1.config);
    assert(!s2.cfg().paused);
    assert(s2.has_policy(claimant));
    assert(!s2.flagged_of(claimant));
    assert(s2.last_claim_of(claimant) == now1);
    let window = s2.window_of(claimant);
    assert(window == Seq::<u64>::empty().push(id1));
    assert(window.len() == 1);
    let cutoff = lookback_start(now2);
    assert(window.drop_last() =~= Seq::<u64>::empty());
    assert(window.last() == id1);
    assert(window_count(s2.claims, Seq::<u64>::empty(), cutoff) == 0);
    assert(window_count(s2.claims, window, cutoff) == window_count(
        s2.claims,
        window.drop_last(),
        cutoff,
    ) + if claim_in_window(s2.claims, window.last(), cutoff) {
        1int
    } else {
        0int
    });
    assert(window_count(s2.claims, window, cutoff) <= 1);
    assert(fraud_check_err(s2, claimant, now2) is None);
}

/// Rejecting a claim is not idempotent: a claim that is already
/// `Rejected` cannot be reviewed again, with any verdict.
pub proof fn lemma_rejected_claim_not_reviewable(
    s: InsuranceState,
    admin: u64,
    claim_id: u64,
    approved: bool,
    payout_amount: i128,
)
    requires
        s.has_claim(claim_id),
        s.claim_of(claim_id).status is Rejected,
    ensures
        review_err(s, admin, claim_id, approved, payout_amount) is Some,
{
}

/// Cancelling is not idempotent either: a policy that is already
/// `Cancelled` cannot be cancelled again.
pub proof fn lemma_cancelled_policy_not_cancellable(
    s: InsuranceState,
    ledger: TokenLedger,
    owner: u64,
    now: u64,
)
    requires
        s.has_policy(owner),
        s.policy_of(owner).status is Cancelled,
    ensures
        cancel_err(s, ledger, owner, now) is Some,
{
}

} // verus!
