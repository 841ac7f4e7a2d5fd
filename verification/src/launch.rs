//! A single launch: its configuration, ledgers, lifecycle state and the
//! operations that advance it.

use vstd::prelude::*;

verus! {

use crate::errors::ContractError;
use crate::ledger::{Ledger, Whitelist, lemma_lookup_le_total};
use crate::types::{ActorId, Amount, BlockNumber, Id, VestingConfig};
use crate::vesting::{calculate_vested_tokens, vested_amount, lemma_vested_bounds};
use vstd::math::min;

/// Lifecycle state of a launch.
///
/// `Pending` moves to `Active` when the creator starts the launch; `finalize`
/// takes an `Active` launch through the transient `Ended`, `Succeeded` or
/// `Failed` states into `DistributionPending` or `RefundAvailable` within one
/// call; cancellation leads to `RefundAvailable` when anything was raised and
/// straight to the terminal `Finalized` otherwise, which is also where a
/// launch lands once every refund was claimed.
#[derive(Clone, Copy, Debug, PartialEq, Eq, Structural)]
pub enum LaunchStatus {
    /// Being set up, not yet accepting contributions.
    Pending,
    /// Accepting contributions.
    Active,
    /// Sale over, outcome being determined (transient).
    Ended,
    /// Minimum raise met (transient).
    Succeeded,
    /// Successful launch awaiting token distribution.
    DistributionPending,
    /// Minimum raise missed (transient).
    Failed,
    /// Cancelled by the creator or the platform owner.
    Cancelled,
    /// Contributions may be reclaimed.
    RefundAvailable,
    /// All operations complete; nothing more can happen.
    Finalized,
}

/// Parameters of a new launch.
pub struct CreateLaunchInput {
    pub title: String,
    pub description: String,
    pub token_address: ActorId,
    pub total_tokens: Amount,
    pub price_per_token: Amount,
    pub min_raise: Amount,
    pub max_raise: Amount,
    pub max_per_wallet: Amount,
    pub start_time: BlockNumber,
    pub end_time: BlockNumber,
    pub whitelist_enabled: bool,
    pub vesting_config: Option<VestingConfig>,
}

impl Clone for CreateLaunchInput {
    fn clone(&self) -> (r: Self)
        ensures
            r == *self,
    {
        CreateLaunchInput {
            title: self.title.clone(),
            description: self.description.clone(),
            token_address: self.token_address,
            total_tokens: self.total_tokens,
            price_per_token: self.price_per_token,
            min_raise: self.min_raise,
            max_raise: self.max_raise,
            max_per_wallet: self.max_per_wallet,
            start_time: self.start_time,
            end_time: self.end_time,
            whitelist_enabled: self.whitelist_enabled,
            vesting_config: self.vesting_config,
        }
    }
}

/// What a contribution settled to: the tokens bought, the currency kept, the
/// currency to send back, and whether the sale is now fully subscribed.  The
/// caller owes the contributor a transfer of `refund`.
#[derive(Clone, Copy, Debug, PartialEq, Eq, Structural)]
pub struct ContributionReceipt {
    /// Tokens credited to the contributor.
    pub tokens: Amount,
    /// Currency kept by the launch, always `tokens * price_per_token`.
    pub accepted: Amount,
    /// Currency to return to the contributor, `value - accepted`.
    pub refund: Amount,
    /// Whether this contribution exhausted the sale.
    pub now_fully_subscribed: bool,
}

/// One launch: configuration, running totals, per-party ledgers and
/// lifecycle state.
pub struct Launch {
    pub id: Id,
    pub creator: ActorId,
    pub title: String,
    pub description: String,
    /// Address of the token contract whose supply is being sold.
    pub token_address: ActorId,
    /// Total tokens offered for sale.
    pub total_tokens: Amount,
    /// Tokens still for sale.
    pub tokens_remaining: Amount,
    /// Price of one token in native currency.
    pub price_per_token: Amount,
    /// Minimum total raise required (soft cap).
    pub min_raise: Amount,
    /// Maximum total raise (hard cap).
    pub max_raise: Amount,
    /// Currency raised so far.
    pub total_raised: Amount,
    /// Maximum contribution per wallet.
    pub max_per_wallet: Amount,
    /// First block of the contribution window.
    pub start_time: BlockNumber,
    /// Last block of the contribution window.
    pub end_time: BlockNumber,
    /// Identities admitted when the whitelist is enabled.
    pub whitelist: Whitelist,
    pub whitelist_enabled: bool,
    /// Currency paid in, per party; entries leave on refund.
    pub contributions: Ledger,
    /// Tokens bought, per party.
    pub tokens_purchased: Ledger,
    /// Tokens already released, per party.
    pub claimed: Ledger,
    /// Optional vesting schedule gating claims.
    pub vesting_config: Option<VestingConfig>,
    pub status: LaunchStatus,
    /// Block at which the launch was created.
    pub created_at: BlockNumber,
    /// Whether the creator marked the token deposit done.
    pub tokens_deposited: bool,
    /// One-shot latch: the creator has withdrawn the raise.
    pub funds_withdrawn: bool,
    /// One-shot latch: every refund has been claimed.
    pub refunds_processed: bool,
    /// Parties that ever contributed, in first-contribution order.
    pub contributors: Vec<ActorId>,
}

/// Two launches that hold the same data, compared through the views of their
/// strings and tables (a rebuilt copy is the same launch).
pub open spec fn same_launch(a: Launch, b: Launch) -> bool {
    &&& a.id == b.id
    &&& a.creator == b.creator
    &&& a.title@ == b.title@
    &&& a.description@ == b.description@
    &&& a.token_address == b.token_address
    &&& a.total_tokens == b.total_tokens
    &&& a.tokens_remaining == b.tokens_remaining
    &&& a.price_per_token == b.price_per_token
    &&& a.min_raise == b.min_raise
    &&& a.max_raise == b.max_raise
    &&& a.total_raised == b.total_raised
    &&& a.max_per_wallet == b.max_per_wallet
    &&& a.start_time == b.start_time
    &&& a.end_time == b.end_time
    &&& a.whitelist.members@ == b.whitelist.members@
    &&& a.whitelist_enabled == b.whitelist_enabled
    &&& a.contributions.entries@ == b.contributions.entries@
    &&& a.tokens_purchased.entries@ == b.tokens_purchased.entries@
    &&& a.claimed.entries@ == b.claimed.entries@
    &&& a.vesting_config == b.vesting_config
    &&& a.status == b.status
    &&& a.created_at == b.created_at
    &&& a.tokens_deposited == b.tokens_deposited
    &&& a.funds_withdrawn == b.funds_withdrawn
    &&& a.refunds_processed == b.refunds_processed
    &&& a.contributors@ == b.contributors@
}

/// The whitelist of `l1` is that of `l0` extended by exactly `addrs`.
pub open spec fn whitelist_extended(l0: Launch, l1: Launch, addrs: Seq<ActorId>) -> bool {
    forall|x: ActorId|
        l1.whitelist.spec_contains(x) == (l0.whitelist.spec_contains(x) || addrs.contains(x))
}

/// How a successful contribution of `value` by `a` takes launch `l0` to
/// launch `l1` with receipt `rc`: the amounts follow the quote computed from
/// `l0` (never beyond the per-wallet allocation, the remaining raise cap or
/// the remaining supply), both ledgers and both running totals move by
/// exactly those amounts, `a` is enrolled as a contributor, and everything
/// else stays as it was.
pub open spec fn contribution_applied(
    l0: Launch,
    l1: Launch,
    a: ActorId,
    value: Amount,
    rc: ContributionReceipt,
) -> bool {
    &&& rc.tokens == l0.spec_quoted_tokens(a, value)
    &&& rc.accepted == l0.spec_accepted_amount(a, value)
    &&& rc.refund == value - rc.accepted
    &&& rc.accepted <= value
    &&& rc.accepted <= l0.spec_wallet_remaining(a)
    &&& rc.accepted <= l0.spec_raise_remaining()
    &&& rc.tokens <= l0.tokens_remaining
    &&& rc.tokens > 0
    &&& rc.accepted > 0
    &&& l1 == (Launch {
        contributions: l1.contributions,
        tokens_purchased: l1.tokens_purchased,
        total_raised: l1.total_raised,
        tokens_remaining: l1.tokens_remaining,
        contributors: l1.contributors,
        ..l0
    })
    &&& l1.total_raised == l0.total_raised + rc.accepted
    &&& l1.tokens_remaining == l0.tokens_remaining - rc.tokens
    &&& l1.contributions.spec_amount(a) == l0.contributions.spec_amount(a) + rc.accepted
    &&& (forall|x: ActorId|
        x != a ==> l1.contributions.spec_amount(x) == l0.contributions.spec_amount(x))
    &&& (forall|x: ActorId|
        l1.contributions.spec_has(x) == (l0.contributions.spec_has(x) || x == a))
    &&& l1.tokens_purchased.spec_amount(a) == l0.tokens_purchased.spec_amount(a) + rc.tokens
    &&& (forall|x: ActorId|
        x != a ==> l1.tokens_purchased.spec_amount(x) == l0.tokens_purchased.spec_amount(x))
    &&& (forall|x: ActorId|
        l1.tokens_purchased.spec_has(x) == (l0.tokens_purchased.spec_has(x) || x == a))
    &&& (forall|x: ActorId| l1.contributors@.contains(x) == (l0.contributors@.contains(x) || x == a))
    &&& rc.now_fully_subscribed == l1.spec_fully_subscribed()
}

/// Scans the contributor roll for an identity.
fn contributors_contain(v: &Vec<ActorId>, a: ActorId) -> (r: bool)
    ensures
        r == v@.contains(a),
{
    let mut i: usize = 0;
    while i < v.len()
        invariant
            i <= v@.len(),
            forall|j: int| 0 <= j < i ==> v@[j] != a,
        decreases v@.len() - i,
    {
        if v[i] == a {
            proof {
                assert(v@[i as int] == a);
            }
            return true;
        }
        i += 1;
    }
    false
}

impl Launch {
    /// States in which contribution entries may already have been paid back,
    /// so the sum of the contribution ledger may fall short of the recorded
    /// raise.
    pub open spec fn refunds_open(&self) -> bool {
        ||| self.status is Failed
        ||| self.status is Cancelled
        ||| self.status is RefundAvailable
        ||| self.status is Finalized
    }

    /// The launch invariant: positive configuration, caps respected, and the
    /// running totals in exact agreement with the ledgers.
    pub open spec fn wf(&self) -> bool {
        &&& self.total_tokens > 0
        &&& self.price_per_token > 0
        &&& self.max_per_wallet > 0
        &&& self.min_raise <= self.max_raise
        &&& self.max_raise <= self.total_tokens * self.price_per_token
        &&& self.start_time < self.end_time
        &&& self.contributions.wf()
        &&& self.tokens_purchased.wf()
        &&& self.claimed.wf()
        &&& self.whitelist.wf()
        &&& self.contributions.all_positive()
        &&& self.tokens_purchased.all_positive()
        &&& (forall|a: ActorId| self.contributions.spec_amount(a) <= self.max_per_wallet)
        &&& self.total_raised <= self.max_raise
        &&& self.tokens_remaining <= self.total_tokens
        &&& self.tokens_purchased.total() + self.tokens_remaining == self.total_tokens
        &&& (if self.refunds_open() {
            self.contributions.total() <= self.total_raised
        } else {
            self.contributions.total() == self.total_raised
        })
        &&& (forall|a: ActorId| self.claimed.spec_amount(a) <= self.tokens_purchased.spec_amount(a))
        &&& self.contributors@.no_duplicates()
        &&& (forall|a: ActorId| self.contributors@.contains(a) == self.tokens_purchased.spec_has(a))
    }

    /// Whether `now` lies in the contribution window.
    pub open spec fn spec_in_window(&self, now: BlockNumber) -> bool {
        self.start_time <= now <= self.end_time
    }

    /// Whether `a` may contribute: no whitelist, or a member of it.
    pub open spec fn spec_can_participate(&self, a: ActorId) -> bool {
        !self.whitelist_enabled || self.whitelist.spec_contains(a)
    }

    /// Whether the hard cap is reached: no token left, or the raise cap met.
    pub open spec fn spec_fully_subscribed(&self) -> bool {
        self.tokens_remaining == 0 || self.total_raised >= self.max_raise
    }

    /// Currency `a` may still pay in under the per-wallet cap.
    pub open spec fn spec_wallet_remaining(&self, a: ActorId) -> int {
        self.max_per_wallet - self.contributions.spec_amount(a)
    }

    /// Currency the launch may still take under the aggregate cap.
    pub open spec fn spec_raise_remaining(&self) -> int {
        self.max_raise - self.total_raised
    }

    /// The binding currency cap for a contribution by `a`.
    pub open spec fn spec_contribution_cap(&self, a: ActorId) -> int {
        min(self.spec_wallet_remaining(a), self.spec_raise_remaining())
    }

    /// Tokens a payment of `value` by `a` buys: the capped payment divided by
    /// the price, further capped by the remaining supply.
    pub open spec fn spec_quoted_tokens(&self, a: ActorId, value: Amount) -> int {
        min(
            min(value as int, self.spec_contribution_cap(a)) / (self.price_per_token as int),
            self.tokens_remaining as int,
        )
    }

    /// Currency actually kept for a payment of `value` by `a`: the exact cost
    /// of the quoted tokens.
    pub open spec fn spec_accepted_amount(&self, a: ActorId, value: Amount) -> int {
        self.spec_quoted_tokens(a, value) * self.price_per_token
    }

    /// When a contribution goes through: the launch is active, the block lies
    /// in the window, the contributor is admitted, the sale is not exhausted,
    /// some allocation remains, and the payment buys at least one token.
    pub open spec fn contribute_allowed(&self, a: ActorId, value: Amount, now: BlockNumber) -> bool {
        &&& self.status is Active
        &&& self.spec_in_window(now)
        &&& self.spec_can_participate(a)
        &&& !self.spec_fully_subscribed()
        &&& self.spec_contribution_cap(a) > 0
        &&& min(value as int, self.spec_contribution_cap(a)) / (self.price_per_token as int) > 0
    }

    /// Tokens purchasable for a given payment (zero when the price is zero).
    pub fn tokens_for_amount(&self, amount: Amount) -> (r: Amount)
        ensures
            r == if self.price_per_token == 0 {
                0int
            } else {
                amount as int / self.price_per_token as int
            },
    {
        if self.price_per_token == 0 {
            return 0;
        }
        amount / self.price_per_token
    }

    /// Cost of a given number of tokens, saturating at the largest amount.
    pub fn cost_for_tokens(&self, tokens: Amount) -> (r: Amount)
        ensures
            r == if tokens * self.price_per_token <= u128::MAX {
                tokens * self.price_per_token
            } else {
                u128::MAX as int
            },
    {
        match tokens.checked_mul(self.price_per_token) {
            Some(c) => c,
            None => u128::MAX,
        }
    }

    /// Whether the launch is within its active time window.
    pub fn is_in_time_window(&self, current_block: BlockNumber) -> (r: bool)
        ensures
            r == self.spec_in_window(current_block),
    {
        current_block >= self.start_time && current_block <= self.end_time
    }

    /// Whether an address is allowed to participate.
    pub fn can_participate(&self, address: &ActorId) -> (r: bool)
        ensures
            r == self.spec_can_participate(*address),
    {
        !self.whitelist_enabled || self.whitelist.contains(*address)
    }

    /// The remaining per-wallet allocation of an address, zero once its
    /// contributions reach the cap.
    pub fn remaining_allocation(&self, address: &ActorId) -> (r: Amount)
        ensures
            r == if self.contributions.spec_amount(*address) <= self.max_per_wallet {
                self.spec_wallet_remaining(*address)
            } else {
                0int
            },
    {
        let contributed = self.contributions.get(*address);
        self.max_per_wallet.saturating_sub(contributed)
    }

    /// Takes a payment and applies the three-way capped contribution: the
    /// payment is clipped to the per-wallet allocation and the remaining
    /// raise cap, converted to whole tokens at the launch price, clipped to
    /// the remaining supply, and the cost of exactly those tokens is kept.
    /// Anything beyond that cost is owed back to the contributor as
    /// `refund`; a rejection owes back the whole payment and changes
    /// nothing.
    pub fn process_contribution(
        &mut self,
        contributor: ActorId,
        value: Amount,
        current_block: BlockNumber,
    ) -> (r: Result<ContributionReceipt, ContractError>)
        requires
            old(self).wf(),
        ensures
            final(self).wf(),
            r is Err ==> *final(self) == *old(self),
            r is Ok <==> old(self).contribute_allowed(contributor, value, current_block),
            !(old(self).status is Active) ==> (r matches Err(e) && e is InvalidState),
            (old(self).status is Active && !old(self).spec_in_window(current_block)) ==> (
            r matches Err(e) && e is InvalidState),
            (old(self).status is Active && old(self).spec_in_window(current_block) && !old(
                self,
            ).spec_can_participate(contributor)) ==> (r matches Err(e) && e is InvalidState),
            (old(self).status is Active && old(self).spec_in_window(current_block) && old(
                self,
            ).spec_can_participate(contributor) && old(self).spec_fully_subscribed()) ==> (
            r matches Err(e) && e is InvalidState),
            (old(self).status is Active && old(self).spec_in_window(current_block) && old(
                self,
            ).spec_can_participate(contributor) && !old(self).spec_fully_subscribed() && old(
                self,
            ).spec_contribution_cap(contributor) == 0) ==> (r matches Err(e) && e is InvalidState),
            (old(self).status is Active && old(self).spec_in_window(current_block) && old(
                self,
            ).spec_can_participate(contributor) && !old(self).spec_fully_subscribed() && old(
                self,
            ).spec_contribution_cap(contributor) > 0 && min(
                value as int,
                old(self).spec_contribution_cap(contributor),
            ) / (old(self).price_per_token as int) == 0) ==> (r matches Err(e)
                && e is InvalidInput),
            r matches Ok(rc) ==> contribution_applied(
                *old(self),
                *final(self),
                contributor,
                value,
                rc,
            ),
    {
        if !matches!(self.status, LaunchStatus::Active) {
            return Err(ContractError::invalid_state("Launch is not active"));
        }
        if !self.is_in_time_window(current_block) {
            return Err(ContractError::invalid_state("Outside contribution window"));
        }
        if !self.can_participate(&contributor) {
            return Err(ContractError::invalid_state("Not whitelisted"));
        }
        if self.is_fully_subscribed() {
            return Err(ContractError::invalid_state("Sale is fully subscribed"));
        }
        let wallet_remaining = self.remaining_allocation(&contributor);
        let raise_remaining = self.max_raise - self.total_raised;
        let max_contribution = if wallet_remaining < raise_remaining {
            wallet_remaining
        } else {
            raise_remaining
        };
        if max_contribution == 0 {
            return Err(ContractError::invalid_state("No allocation remaining"));
        }
        let actual = if value < max_contribution {
            value
        } else {
            max_contribution
        };
        let tokens_quoted = self.tokens_for_amount(actual);
        if tokens_quoted == 0 {
            return Err(ContractError::invalid_input("Contribution too small for any tokens"));
        }
        let tokens = if tokens_quoted < self.tokens_remaining {
            tokens_quoted
        } else {
            self.tokens_remaining
        };
        proof {
            let p = self.price_per_token as int;
            let act = actual as int;
            vstd::arithmetic::div_mod::lemma_fundamental_div_mod(act, p);
            assert((act / p) * p <= act) by (nonlinear_arith)
                requires
                    act == p * (act / p) + act % p,
                    act % p >= 0,
            ;
            assert((tokens as int) * p <= (act / p) * p) by (nonlinear_arith)
                requires
                    tokens <= act / p,
                    p > 0,
            ;
            assert((tokens as int) * p >= 1) by (nonlinear_arith)
                requires
                    tokens >= 1,
                    p >= 1,
            ;
        }
        let cost = self.cost_for_tokens(tokens);
        let refund = value - cost;
        proof {
            lemma_lookup_le_total(self.tokens_purchased.entries@, contributor);
            lemma_lookup_le_total(self.contributions.entries@, contributor);
        }
        self.contributions.credit(contributor, cost);
        self.tokens_purchased.credit(contributor, tokens);
        self.total_raised = self.total_raised + cost;
        self.tokens_remaining = self.tokens_remaining - tokens;
        if !contributors_contain(&self.contributors, contributor) {
            self.contributors.push(contributor);
            proof {
                let s0 = old(self).contributors@;
                let s1 = self.contributors@;
                assert(s1[s1.len() - 1] == contributor);
                assert(s1.no_duplicates()) by {
                    assert forall|a: int, b: int|
                        0 <= a < s1.len() && 0 <= b < s1.len() && a != b implies s1[a]
                        != s1[b] by {
                        if a < s1.len() - 1 && b < s1.len() - 1 {
                            assert(s1[a] == s0[a] && s1[b] == s0[b]);
                        } else if a == s1.len() - 1 {
                            assert(s1[b] == s0[b]);
                            assert(!s0.contains(contributor));
                        } else {
                            assert(s1[a] == s0[a]);
                            assert(!s0.contains(contributor));
                        }
                    }
                }
                assert forall|x: ActorId| s1.contains(x) == (s0.contains(x) || x
                    == contributor) by {
                    if s1.contains(x) {
                        let j = choose|j: int| 0 <= j < s1.len() && s1[j] == x;
                        if j < s1.len() - 1 {
                            assert(s0[j] == x);
                        }
                    }
                    if s0.contains(x) {
                        let j = choose|j: int| 0 <= j < s0.len() && s0[j] == x;
                        assert(s1[j] == x);
                    }
                }
            }
        }
        let fully = self.is_fully_subscribed();
        proof {
            assert forall|x: ActorId| self.contributions.spec_amount(x)
                <= self.max_per_wallet by {
                if x != contributor {
                    assert(self.contributions.spec_amount(x) == old(
                        self,
                    ).contributions.spec_amount(x));
                }
            }
            assert forall|x: ActorId| self.claimed.spec_amount(x)
                <= self.tokens_purchased.spec_amount(x) by {
                if x != contributor {
                    assert(self.tokens_purchased.spec_amount(x) == old(
                        self,
                    ).tokens_purchased.spec_amount(x));
                }
            }
            assert forall|x: ActorId| self.contributors@.contains(x)
                == self.tokens_purchased.spec_has(x) by {}
        }
        Ok(
            ContributionReceipt {
                tokens,
                accepted: cost,
                refund,
                now_fully_subscribed: fully,
            },
        )
    }

    /// Opens the launch for contributions.  Only the creator may start it,
    /// and only while it is pending.
    pub fn start(&mut self, caller: ActorId) -> (r: Result<(), ContractError>)
        requires
            old(self).wf(),
        ensures
            final(self).wf(),
            r is Err ==> *final(self) == *old(self),
            r is Ok <==> (caller == old(self).creator && old(self).status is Pending),
            caller != old(self).creator ==> (r matches Err(e) && e == ContractError::Unauthorized),
            (caller == old(self).creator && !(old(self).status is Pending)) ==> (r matches Err(e)
                && e is InvalidState),
            r is Ok ==> *final(self) == (Launch { status: LaunchStatus::Active, ..*old(self) }),
    {
        if caller != self.creator {
            return Err(ContractError::Unauthorized);
        }
        if !matches!(self.status, LaunchStatus::Pending) {
            return Err(ContractError::invalid_state("Launch must be in Pending state"));
        }
        self.status = LaunchStatus::Active;
        Ok(())
    }

    /// Records that the creator has deposited the sale's tokens.  Only the
    /// creator may set the flag.
    pub fn mark_deposited(&mut self, caller: ActorId) -> (r: Result<(), ContractError>)
        requires
            old(self).wf(),
        ensures
            final(self).wf(),
            r is Err ==> *final(self) == *old(self),
            r is Ok <==> caller == old(self).creator,
            caller != old(self).creator ==> (r matches Err(e) && e == ContractError::Unauthorized),
            r is Ok ==> *final(self) == (Launch { tokens_deposited: true, ..*old(self) }),
    {
        if caller != self.creator {
            return Err(ContractError::Unauthorized);
        }
        self.tokens_deposited = true;
        Ok(())
    }

    /// Admits addresses to the whitelist (a set union, so admitting an
    /// address twice changes nothing).  Only the creator may do so, and only
    /// before the launch ends.
    pub fn whitelist_add(&mut self, caller: ActorId, addresses: &Vec<ActorId>) -> (r: Result<
        (),
        ContractError,
    >)
        requires
            old(self).wf(),
        ensures
            final(self).wf(),
            r is Err ==> *final(self) == *old(self),
            r is Ok <==> (caller == old(self).creator && (old(self).status is Pending || old(
                self,
            ).status is Active)),
            caller != old(self).creator ==> (r matches Err(e) && e == ContractError::Unauthorized),
            (caller == old(self).creator && !(old(self).status is Pending || old(
                self,
            ).status is Active)) ==> (r matches Err(e) && e is InvalidState),
            r is Ok ==> *final(self) == (Launch { whitelist: final(self).whitelist, ..*old(self) }),
            r is Ok ==> whitelist_extended(*old(self), *final(self), addresses@),
    {
        if caller != self.creator {
            return Err(ContractError::Unauthorized);
        }
        if !matches!(self.status, LaunchStatus::Pending | LaunchStatus::Active) {
            return Err(ContractError::invalid_state("Cannot modify whitelist after launch ends"));
        }
        let mut i: usize = 0;
        while i < addresses.len()
            invariant
                old(self).wf(),
                i <= addresses@.len(),
                self.whitelist.wf(),
                *self == (Launch { whitelist: self.whitelist, ..*old(self) }),
                forall|x: ActorId|
                    self.whitelist.spec_contains(x) == (old(self).whitelist.spec_contains(x) || (
                    exists|j: int| 0 <= j < i && addresses@[j] == x)),
            decreases addresses@.len() - i,
        {
            let a = addresses[i];
            self.whitelist.insert(a);
            proof {
                assert forall|x: ActorId|
                    self.whitelist.spec_contains(x) == (old(self).whitelist.spec_contains(x) || (
                    exists|j: int| 0 <= j < i + 1 && addresses@[j] == x)) by {
                    if self.whitelist.spec_contains(x) && !old(self).whitelist.spec_contains(x) {
                        if x == a {
                            assert(addresses@[i as int] == x);
                        }
                    }
                }
            }
            i += 1;
        }
        proof {
            assert forall|x: ActorId|
                self.whitelist.spec_contains(x) == (old(self).whitelist.spec_contains(x)
                    || addresses@.contains(x)) by {
                if addresses@.contains(x) {
                    let j = choose|j: int| 0 <= j < addresses@.len() && addresses@[j] == x;
                    assert(0 <= j < addresses@.len() && addresses@[j] == x);
                }
            }
        }
        Ok(())
    }

    /// Resolves an active launch once its window has passed or the sale is
    /// exhausted: it succeeds (distribution pending) exactly when the
    /// minimum raise was met, and otherwise opens refunds.
    pub fn finalize_outcome(&mut self, current_block: BlockNumber) -> (r: Result<
        (),
        ContractError,
    >)
        requires
            old(self).wf(),
        ensures
            final(self).wf(),
            r is Err ==> *final(self) == *old(self),
            r is Ok <==> (old(self).status is Active && (current_block > old(self).end_time || old(
                self,
            ).spec_fully_subscribed())),
            r is Err ==> (r matches Err(e) && e is InvalidState),
            r is Ok ==> *final(self) == (Launch {
                status: if old(self).total_raised >= old(self).min_raise {
                    LaunchStatus::DistributionPending
                } else {
                    LaunchStatus::RefundAvailable
                },
                ..*old(self)
            }),
    {
        if !matches!(self.status, LaunchStatus::Active) {
            return Err(ContractError::invalid_state("Launch must be Active to finalize"));
        }
        if current_block <= self.end_time && !self.is_fully_subscribed() {
            return Err(ContractError::invalid_state("Launch has not ended yet"));
        }
        self.status = LaunchStatus::Ended;
        if self.min_raise_met() {
            self.status = LaunchStatus::Succeeded;
            self.status = LaunchStatus::DistributionPending;
        } else {
            self.status = LaunchStatus::Failed;
            self.status = LaunchStatus::RefundAvailable;
        }
        Ok(())
    }

    /// When a cancellation is legal: the platform owner may cancel any
    /// not-yet-finalized launch, the creator only a pending one.
    pub open spec fn cancel_allowed(&self, caller: ActorId, platform_owner: ActorId) -> bool {
        ||| (caller == platform_owner && !(self.status is Finalized))
        ||| (caller == self.creator && self.status is Pending)
    }

    /// Cancels the launch: refunds open when anything was raised, otherwise
    /// the launch is finalized on the spot.
    pub fn cancel(&mut self, caller: ActorId, platform_owner: ActorId) -> (r: Result<
        (),
        ContractError,
    >)
        requires
            old(self).wf(),
        ensures
            final(self).wf(),
            r is Err ==> *final(self) == *old(self),
            r is Ok <==> old(self).cancel_allowed(caller, platform_owner),
            (caller != old(self).creator && caller != platform_owner) ==> (r matches Err(e)
                && e == ContractError::Unauthorized),
            ((caller == old(self).creator || caller == platform_owner) && !old(
                self,
            ).cancel_allowed(caller, platform_owner)) ==> (r matches Err(e) && e is InvalidState),
            r is Ok ==> *final(self) == (Launch {
                status: if old(self).total_raised > 0 {
                    LaunchStatus::RefundAvailable
                } else {
                    LaunchStatus::Finalized
                },
                ..*old(self)
            }),
    {
        let is_creator = caller == self.creator;
        let is_owner = caller == platform_owner;
        if !is_creator && !is_owner {
            return Err(ContractError::Unauthorized);
        }
        if is_owner {
            if matches!(self.status, LaunchStatus::Finalized) {
                return Err(ContractError::invalid_state("Launch already finalized"));
            }
        } else {
            if !matches!(self.status, LaunchStatus::Pending) {
                return Err(ContractError::invalid_state("Creator can only cancel pending launches"));
            }
        }
        self.status = LaunchStatus::Cancelled;
        if self.total_raised > 0 {
            self.status = LaunchStatus::RefundAvailable;
        } else {
            self.status = LaunchStatus::Finalized;
        }
        Ok(())
    }

    /// States in which purchased tokens may be claimed.
    pub open spec fn claim_window_open(&self) -> bool {
        ||| self.status is DistributionPending
        ||| self.status is Succeeded
    }

    /// Tokens `a` may release at `now`: the vested share of the purchase
    /// (the whole purchase without a schedule) minus what was already
    /// claimed, floored at zero.
    pub open spec fn spec_claimable(&self, a: ActorId, now: BlockNumber) -> int {
        let purchased = self.tokens_purchased.spec_amount(a);
        let already = self.claimed.spec_amount(a);
        let vested = match self.vesting_config {
            Some(v) => vested_amount(purchased, v, now),
            None => purchased as int,
        };
        if vested >= already {
            vested - already
        } else {
            0
        }
    }

    /// Releases the caller's claimable tokens, recording them in the claimed
    /// ledger.  Legal only while distribution is open, for a party that
    /// bought tokens of which some are vested and unclaimed.
    pub fn claim(&mut self, caller: ActorId, current_block: BlockNumber) -> (r: Result<
        Amount,
        ContractError,
    >)
        requires
            old(self).wf(),
        ensures
            final(self).wf(),
            r is Err ==> *final(self) == *old(self),
            r is Err ==> (r matches Err(e) && e is InvalidState),
            r is Ok <==> (old(self).claim_window_open() && old(self).tokens_purchased.spec_amount(
                caller,
            ) > 0 && old(self).spec_claimable(caller, current_block) > 0),
            r matches Ok(v) ==> v == old(self).spec_claimable(caller, current_block),
            r is Ok ==> *final(self) == (Launch { claimed: final(self).claimed, ..*old(self) }),
            r matches Ok(v) ==> final(self).claimed.spec_amount(caller) == old(
                self,
            ).claimed.spec_amount(caller) + v,
            r is Ok ==> (forall|x: ActorId|
                x != caller ==> final(self).claimed.spec_amount(x) == old(self).claimed.spec_amount(
                    x,
                )),
    {
        if !matches!(self.status, LaunchStatus::DistributionPending | LaunchStatus::Succeeded) {
            return Err(ContractError::invalid_state("Tokens not available for claim"));
        }
        let total_purchased = self.tokens_purchased.get(caller);
        if total_purchased == 0 {
            return Err(ContractError::invalid_state("No tokens purchased"));
        }
        let already_claimed = self.claimed.get(caller);
        let claimable = match &self.vesting_config {
            Some(vesting) => {
                let vested = calculate_vested_tokens(total_purchased, vesting, current_block);
                proof {
                    lemma_vested_bounds(total_purchased, *vesting, current_block);
                }
                if vested >= already_claimed {
                    vested - already_claimed
                } else {
                    0
                }
            },
            None => total_purchased.saturating_sub(already_claimed),
        };
        if claimable == 0 {
            return Err(ContractError::invalid_state("Nothing to claim yet"));
        }
        self.claimed.credit(caller, claimable);
        proof {
            assert forall|x: ActorId| self.claimed.spec_amount(x)
                <= self.tokens_purchased.spec_amount(x) by {
                if x != caller {
                    assert(self.claimed.spec_amount(x) == old(self).claimed.spec_amount(x));
                }
            }
        }
        Ok(claimable)
    }

    /// States in which contributions may be reclaimed.
    pub open spec fn refunds_claimable(&self) -> bool {
        ||| self.status is RefundAvailable
        ||| self.status is Failed
        ||| self.status is Cancelled
    }

    /// Pays the caller's whole contribution back and removes its ledger
    /// entry, so a second refund for the same party fails.  Once the last
    /// entry leaves, the launch is finalized.  The caller of the operation
    /// owes the contributor a transfer of the returned amount.
    pub fn refund(&mut self, caller: ActorId) -> (r: Result<Amount, ContractError>)
        requires
            old(self).wf(),
        ensures
            final(self).wf(),
            r is Err ==> *final(self) == *old(self),
            r is Err ==> (r matches Err(e) && e is InvalidState),
            r is Ok <==> (old(self).refunds_claimable() && old(self).contributions.spec_has(
                caller,
            )),
            r matches Ok(v) ==> v == old(self).contributions.spec_amount(caller) && v > 0,
            r is Ok ==> !final(self).contributions.spec_has(caller),
            r is Ok ==> (forall|x: ActorId|
                x != caller ==> final(self).contributions.spec_amount(x) == old(
                    self,
                ).contributions.spec_amount(x)),
            r matches Ok(v) ==> final(self).contributions.total() == old(
                self,
            ).contributions.total() - v,
            r is Ok ==> *final(self) == (Launch {
                contributions: final(self).contributions,
                status: final(self).status,
                refunds_processed: final(self).refunds_processed,
                ..*old(self)
            }),
            (r is Ok && final(self).contributions.spec_len() == 0) ==> (final(self).status is Finalized
                && final(self).refunds_processed),
            (r is Ok && final(self).contributions.spec_len() > 0) ==> (final(self).status == old(self).status
                && final(self).refunds_processed == old(self).refunds_processed),
    {
        if !matches!(
            self.status,
            LaunchStatus::RefundAvailable | LaunchStatus::Failed | LaunchStatus::Cancelled
        ) {
            return Err(ContractError::invalid_state("Refunds not available"));
        }
        proof {
            if old(self).contributions.spec_has(caller) {
                crate::ledger::lemma_lookup_positive(self.contributions.entries@, caller);
            }
        }
        match self.contributions.remove(caller) {
            None => Err(ContractError::invalid_state("No contribution to refund")),
            Some(contribution) => {
                if contribution == 0 {
                    // unreachable: the invariant keeps every entry positive
                    return Err(ContractError::ZeroAmount);
                }
                if self.contributions.is_empty() {
                    self.refunds_processed = true;
                    self.status = LaunchStatus::Finalized;
                }
                proof {
                    crate::ledger::lemma_total_nonneg(self.contributions.entries@);
                }
                Ok(contribution)
            },
        }
    }

    /// Whether the minimum raise was met.
    pub fn min_raise_met(&self) -> (r: bool)
        ensures
            r == (self.total_raised >= self.min_raise),
    {
        self.total_raised >= self.min_raise
    }

    /// Whether the hard cap is reached.
    pub fn is_fully_subscribed(&self) -> (r: bool)
        ensures
            r == self.spec_fully_subscribed(),
    {
        self.tokens_remaining == 0 || self.total_raised >= self.max_raise
    }
}

/// Conservation: in a well-formed launch the remaining supply and the sold
/// tokens always add up to the whole supply, and — as long as no refund has
/// opened — the recorded raise equals the sum of the contribution ledger.
/// Once refunds open, entries leave the ledger while the recorded raise
/// stays, so the sum can only fall below it.
pub proof fn lemma_conservation(l: Launch)
    requires
        l.wf(),
    ensures
        l.tokens_purchased.total() + l.tokens_remaining == l.total_tokens,
        !l.refunds_open() ==> l.contributions.total() == l.total_raised,
        l.contributions.total() <= l.total_raised,
{
}

/// Idempotent whitelist: admitting the same addresses a second time changes
/// neither the membership nor the size of the whitelist.
pub proof fn lemma_whitelist_add_idempotent(l0: Launch, l1: Launch, l2: Launch, addrs: Seq<ActorId>)
    requires
        l1.whitelist.wf(),
        l2.whitelist.wf(),
        whitelist_extended(l0, l1, addrs),
        whitelist_extended(l1, l2, addrs),
    ensures
        forall|x: ActorId|
            #[trigger] l2.whitelist.spec_contains(x) == l1.whitelist.spec_contains(x),
        l2.whitelist.members@.len() == l1.whitelist.members@.len(),
{
    assert forall|x: ActorId|
        #[trigger] l2.whitelist.spec_contains(x) == l1.whitelist.spec_contains(x) by {
        if addrs.contains(x) {
            assert(l1.whitelist.spec_contains(x));
        }
    }
    assert(l1.whitelist.spec_set() =~= l2.whitelist.spec_set()) by {
        assert forall|x: ActorId|
            l1.whitelist.spec_set().contains(x) == l2.whitelist.spec_set().contains(x) by {
            assert(l2.whitelist.spec_contains(x) == l1.whitelist.spec_contains(x));
        }
    }
    l1.whitelist.members@.unique_seq_to_set();
    l2.whitelist.members@.unique_seq_to_set();
}

impl Clone for Launch {
    /// Copies the whole launch; the copy holds the same data as the
    /// original.
    fn clone(&self) -> (r: Self)
        ensures
            same_launch(r, *self),
    {
        let mut contributors: Vec<ActorId> = Vec::new();
        let mut i: usize = 0;
        while i < self.contributors.len()
            invariant
                i <= self.contributors@.len(),
                contributors@ == self.contributors@.subrange(0, i as int),
            decreases self.contributors@.len() - i,
        {
            contributors.push(self.contributors[i]);
            i += 1;
        }
        proof {
            assert(contributors@ =~= self.contributors@);
        }
        Launch {
            id: self.id,
            creator: self.creator,
            title: self.title.clone(),
            description: self.description.clone(),
            token_address: self.token_address,
            total_tokens: self.total_tokens,
            tokens_remaining: self.tokens_remaining,
            price_per_token: self.price_per_token,
            min_raise: self.min_raise,
            max_raise: self.max_raise,
            total_raised: self.total_raised,
            max_per_wallet: self.max_per_wallet,
            start_time: self.start_time,
            end_time: self.end_time,
            whitelist: self.whitelist.clone(),
            whitelist_enabled: self.whitelist_enabled,
            contributions: self.contributions.clone(),
            tokens_purchased: self.tokens_purchased.clone(),
            claimed: self.claimed.clone(),
            vesting_config: self.vesting_config,
            status: self.status,
            created_at: self.created_at,
            tokens_deposited: self.tokens_deposited,
            funds_withdrawn: self.funds_withdrawn,
            refunds_processed: self.refunds_processed,
            contributors,
        }
    }
}

} // verus!
