//! The launchpad storage: the keyed collection of launches, the monotonic id
//! counter, and the platform-level configuration and fee ledger.
//!
//! Every external operation enters here: it locates the launch, checks the
//! platform-level guards, and delegates the per-launch work.  Ids are dense
//! (the launch with id `i` sits at position `i`), never reused, and a launch
//! is never physically deleted.

use vstd::prelude::*;

verus! {

use crate::errors::ContractError;
use crate::launch::{
    contribution_applied, whitelist_extended, ContributionReceipt, CreateLaunchInput, Launch,
    LaunchStatus,
};
use crate::ledger::Ledger;
use crate::ledger::Whitelist;
use crate::types::{ActorId, Amount, BasisPoints, BlockNumber, Id};
use vstd::math::min;

/// Coherent launch parameters: a nonempty title, positive supply, price and
/// wallet cap, a future start before the end, a minimum raise no higher than
/// the maximum, and a maximum raise the token supply can cover.
pub open spec fn input_valid(input: CreateLaunchInput, now: BlockNumber) -> bool {
    &&& input.title@.len() > 0
    &&& input.total_tokens > 0
    &&& input.price_per_token > 0
    &&& input.start_time < input.end_time
    &&& input.start_time > now
    &&& input.min_raise <= input.max_raise
    &&& input.max_per_wallet > 0
    &&& input.max_raise <= input.total_tokens * input.price_per_token
}

/// How a freshly created launch reflects its parameters: configuration taken
/// over as given, full supply remaining, empty ledgers, an empty whitelist
/// and contributor roll, pending status and no latch tripped.
pub open spec fn launch_from_input(
    l: Launch,
    input: CreateLaunchInput,
    creator: ActorId,
    id: Id,
    now: BlockNumber,
) -> bool {
    &&& l.id == id
    &&& l.creator == creator
    &&& l.title == input.title
    &&& l.description == input.description
    &&& l.token_address == input.token_address
    &&& l.total_tokens == input.total_tokens
    &&& l.tokens_remaining == input.total_tokens
    &&& l.price_per_token == input.price_per_token
    &&& l.min_raise == input.min_raise
    &&& l.max_raise == input.max_raise
    &&& l.total_raised == 0
    &&& l.max_per_wallet == input.max_per_wallet
    &&& l.start_time == input.start_time
    &&& l.end_time == input.end_time
    &&& l.whitelist.members@.len() == 0
    &&& l.whitelist_enabled == input.whitelist_enabled
    &&& l.contributions.spec_len() == 0
    &&& l.contributions.total() == 0
    &&& l.tokens_purchased.spec_len() == 0
    &&& l.claimed.spec_len() == 0
    &&& l.vesting_config == input.vesting_config
    &&& l.status is Pending
    &&& l.created_at == now
    &&& !l.tokens_deposited
    &&& !l.funds_withdrawn
    &&& !l.refunds_processed
    &&& l.contributors@.len() == 0
}

/// The platform's cut of a raise, in currency: `total * bp / 10_000`,
/// rounded down.
pub open spec fn spec_fee(total: Amount, bp: BasisPoints) -> int {
    total * bp / 10_000
}

/// The launches a creator owns.
pub open spec fn by_creator(creator: ActorId) -> spec_fn(Launch) -> bool {
    |l: Launch| l.creator == creator
}

/// The launches accepting contributions.
pub open spec fn is_active() -> spec_fn(Launch) -> bool {
    |l: Launch| l.status is Active
}

/// Platform-wide state: all launches, the id counter, the owner, the fee
/// rate and the platform fee ledger.
pub struct LaunchpadStorage {
    /// All launches ever created; the launch with id `i` sits at index `i`.
    pub launches: Vec<Launch>,
    /// The id the next launch will get; equals the number of launches.
    pub next_launch_id: Id,
    /// The platform owner.
    pub owner: ActorId,
    /// Platform fee in basis points (100 is 1%), at most 10_000.
    pub fee_basis_points: BasisPoints,
    /// Fees ever accrued from withdrawals.
    pub accumulated_fees: Amount,
    /// Fees already paid out to the owner, never above the accrued total.
    pub fees_withdrawn: Amount,
    /// While set, no launch can be created and no contribution taken.
    pub paused: bool,
}

impl LaunchpadStorage {
    /// The storage invariant: dense ids, every launch well formed, the fee
    /// ledger consistent and the fee rate within range.
    pub open spec fn wf(&self) -> bool {
        &&& self.next_launch_id == self.launches@.len()
        &&& (forall|i: int|
            0 <= i < self.launches@.len() ==> (#[trigger] self.launches@[i]).wf())
        &&& (forall|i: int|
            0 <= i < self.launches@.len() ==> (#[trigger] self.launches@[i]).id == i)
        &&& self.fees_withdrawn <= self.accumulated_fees
        &&& self.fee_basis_points <= 10_000
    }

    /// Whether a launch with this id exists.
    pub open spec fn spec_has_launch(&self, id: Id) -> bool {
        (id as int) < self.launches@.len()
    }

    /// The launch with this id.
    pub open spec fn spec_launch(&self, id: Id) -> Launch {
        self.launches@[id as int]
    }

    /// The platform-level fields of `a` and `b` agree.
    pub open spec fn platform_same(a: Self, b: Self) -> bool {
        &&& a.next_launch_id == b.next_launch_id
        &&& a.owner == b.owner
        &&& a.fee_basis_points == b.fee_basis_points
        &&& a.accumulated_fees == b.accumulated_fees
        &&& a.fees_withdrawn == b.fees_withdrawn
        &&& a.paused == b.paused
    }

    /// Nothing observable changed between `a` and `b`: the platform fields
    /// agree and the launch table holds the same launches.
    pub open spec fn unchanged(a: Self, b: Self) -> bool {
        &&& Self::platform_same(a, b)
        &&& a.launches@ == b.launches@
    }

    /// Every launch other than `id` agrees between `a` and `b`.
    pub open spec fn launches_same_except(a: Self, b: Self, id: Id) -> bool {
        &&& a.launches@.len() == b.launches@.len()
        &&& (forall|j: int|
            0 <= j < a.launches@.len() && j != id as int ==> a.launches@[j] == #[trigger] b.launches@[j])
    }

    /// A fresh platform with no launches and no fees accrued.
    pub fn new(owner: ActorId, fee_basis_points: BasisPoints) -> (r: Self)
        requires
            fee_basis_points <= 10_000,
        ensures
            r.wf(),
            r.owner == owner,
            r.fee_basis_points == fee_basis_points,
            r.launches@.len() == 0,
            r.next_launch_id == 0,
            r.accumulated_fees == 0,
            r.fees_withdrawn == 0,
            !r.paused,
    {
        LaunchpadStorage {
            launches: Vec::new(),
            next_launch_id: 0,
            owner,
            fee_basis_points,
            accumulated_fees: 0,
            fees_withdrawn: 0,
            paused: false,
        }
    }

    /// Stops launch creation and contributions.  Only the owner may pause.
    pub fn pause(&mut self, caller: ActorId) -> (r: Result<(), ContractError>)
        requires
            old(self).wf(),
        ensures
            final(self).wf(),
            r is Err ==> *final(self) == *old(self),
            r is Ok <==> caller == old(self).owner,
            caller != old(self).owner ==> (r matches Err(e) && e == ContractError::Unauthorized),
            r is Ok ==> *final(self) == (LaunchpadStorage { paused: true, ..*old(self) }),
    {
        if caller != self.owner {
            return Err(ContractError::Unauthorized);
        }
        self.paused = true;
        Ok(())
    }

    /// Lifts a pause.  Only the owner may resume.
    pub fn resume(&mut self, caller: ActorId) -> (r: Result<(), ContractError>)
        requires
            old(self).wf(),
        ensures
            final(self).wf(),
            r is Err ==> *final(self) == *old(self),
            r is Ok <==> caller == old(self).owner,
            caller != old(self).owner ==> (r matches Err(e) && e == ContractError::Unauthorized),
            r is Ok ==> *final(self) == (LaunchpadStorage { paused: false, ..*old(self) }),
    {
        if caller != self.owner {
            return Err(ContractError::Unauthorized);
        }
        self.paused = false;
        Ok(())
    }

    /// Opens a pending launch for contributions (creator only).
    pub fn start_launch(&mut self, caller: ActorId, launch_id: Id) -> (r: Result<
        (),
        ContractError,
    >)
        requires
            old(self).wf(),
        ensures
            final(self).wf(),
            r is Err ==> Self::unchanged(*old(self), *final(self)),
            !old(self).spec_has_launch(launch_id) ==> (r matches Err(e) && e
                == ContractError::NotFound),
            (old(self).spec_has_launch(launch_id) && caller != old(self).spec_launch(
                launch_id,
            ).creator) ==> (r matches Err(e) && e == ContractError::Unauthorized),
            (old(self).spec_has_launch(launch_id) && caller == old(self).spec_launch(
                launch_id,
            ).creator && !(old(self).spec_launch(launch_id).status is Pending)) ==> (r matches Err(
                e,
            ) && e is InvalidState),
            r is Ok <==> (old(self).spec_has_launch(launch_id) && caller == old(self).spec_launch(
                launch_id,
            ).creator && old(self).spec_launch(launch_id).status is Pending),
            r is Ok ==> final(self).spec_launch(launch_id) == (Launch {
                status: LaunchStatus::Active,
                ..old(self).spec_launch(launch_id)
            }),
            Self::platform_same(*old(self), *final(self)),
            Self::launches_same_except(*old(self), *final(self), launch_id),
    {
        if launch_id >= self.launches.len() as u64 {
            return Err(ContractError::NotFound);
        }
        let idx = launch_id as usize;
        let l = &mut self.launches[idx];
        let r = l.start(caller);
        proof {
            assert forall|i: int| 0 <= i < self.launches@.len() implies (
            #[trigger] self.launches@[i]).wf() && self.launches@[i].id == i by {
                if i != idx as int {
                    assert(self.launches@[i] == old(self).launches@[i]);
                }
            }
            if r is Err {
                assert(self.launches@ =~= old(self).launches@);
            }
        }
        r
    }

    /// Records the creator's token deposit on a launch (creator only).
    pub fn mark_tokens_deposited(&mut self, caller: ActorId, launch_id: Id) -> (r: Result<
        (),
        ContractError,
    >)
        requires
            old(self).wf(),
        ensures
            final(self).wf(),
            r is Err ==> Self::unchanged(*old(self), *final(self)),
            !old(self).spec_has_launch(launch_id) ==> (r matches Err(e) && e
                == ContractError::NotFound),
            (old(self).spec_has_launch(launch_id) && caller != old(self).spec_launch(
                launch_id,
            ).creator) ==> (r matches Err(e) && e == ContractError::Unauthorized),
            r is Ok <==> (old(self).spec_has_launch(launch_id) && caller == old(self).spec_launch(
                launch_id,
            ).creator),
            r is Ok ==> final(self).spec_launch(launch_id) == (Launch {
                tokens_deposited: true,
                ..old(self).spec_launch(launch_id)
            }),
            Self::platform_same(*old(self), *final(self)),
            Self::launches_same_except(*old(self), *final(self), launch_id),
    {
        if launch_id >= self.launches.len() as u64 {
            return Err(ContractError::NotFound);
        }
        let idx = launch_id as usize;
        let l = &mut self.launches[idx];
        let r = l.mark_deposited(caller);
        proof {
            assert forall|i: int| 0 <= i < self.launches@.len() implies (
            #[trigger] self.launches@[i]).wf() && self.launches@[i].id == i by {
                if i != idx as int {
                    assert(self.launches@[i] == old(self).launches@[i]);
                }
            }
            if r is Err {
                assert(self.launches@ =~= old(self).launches@);
            }
        }
        r
    }
    /// Creates a new launch, handing back its id.  The parameters must be
    /// coherent: a nonempty title, positive supply, price and wallet cap, a
    /// future start before the end, a minimum raise no higher than the
    /// maximum, and a maximum raise the token supply can cover.
    pub fn create_launch(
        &mut self,
        caller: ActorId,
        current_block: BlockNumber,
        input: CreateLaunchInput,
    ) -> (r: Result<Id, ContractError>)
        requires
            old(self).wf(),
        ensures
            final(self).wf(),
            r is Err ==> Self::unchanged(*old(self), *final(self)),
            old(self).paused ==> (r matches Err(e) && e is InvalidState),
            (!old(self).paused && !input_valid(input, current_block)) ==> (r matches Err(e)
                && e is InvalidInput),
            (!old(self).paused && input_valid(input, current_block) && old(self).next_launch_id
                == u64::MAX) ==> (r matches Err(e) && e == ContractError::Overflow),
            r is Ok <==> (!old(self).paused && input_valid(input, current_block) && old(
                self,
            ).next_launch_id < u64::MAX),
            r matches Ok(id) ==> id == old(self).next_launch_id && final(self).next_launch_id
                == old(self).next_launch_id + 1 && final(self).launches@.len() == old(
                self,
            ).launches@.len() + 1 && final(self).spec_has_launch(id) && launch_from_input(
                final(self).spec_launch(id),
                input,
                caller,
                id,
                current_block,
            ),
            final(self).owner == old(self).owner,
            final(self).fee_basis_points == old(self).fee_basis_points,
            final(self).accumulated_fees == old(self).accumulated_fees,
            final(self).fees_withdrawn == old(self).fees_withdrawn,
            final(self).paused == old(self).paused,
            forall|j: int|
                0 <= j < old(self).launches@.len() ==> final(self).launches@[j] == #[trigger] old(
                    self,
                ).launches@[j],
    {
        if self.paused {
            return Err(ContractError::invalid_state("Contract is paused"));
        }
        if input.title.as_str().is_empty() {
            return Err(ContractError::invalid_input("Title cannot be empty"));
        }
        if input.total_tokens == 0 {
            return Err(ContractError::invalid_input("Total tokens must be > 0"));
        }
        if input.price_per_token == 0 {
            return Err(ContractError::invalid_input("Price per token must be > 0"));
        }
        if input.start_time >= input.end_time {
            return Err(ContractError::invalid_input("Start time must be before end time"));
        }
        if input.start_time <= current_block {
            return Err(ContractError::invalid_input("Start time must be in the future"));
        }
        if input.min_raise > input.max_raise {
            return Err(ContractError::invalid_input("Min raise must be <= max raise"));
        }
        if input.max_per_wallet == 0 {
            return Err(ContractError::invalid_input("Max per wallet must be > 0"));
        }
        match input.total_tokens.checked_mul(input.price_per_token) {
            Some(max_possible_raise) => {
                if input.max_raise > max_possible_raise {
                    return Err(ContractError::invalid_input("Max raise exceeds token value"));
                }
            },
            None => {
                // the supply's total value exceeds any representable raise
            },
        }
        let launch_id = self.next_launch_id;
        let next = match self.next_launch_id.checked_add(1) {
            None => {
                return Err(ContractError::Overflow);
            },
            Some(n) => n,
        };
        let launch = Launch {
            id: launch_id,
            creator: caller,
            title: input.title,
            description: input.description,
            token_address: input.token_address,
            total_tokens: input.total_tokens,
            tokens_remaining: input.total_tokens,
            price_per_token: input.price_per_token,
            min_raise: input.min_raise,
            max_raise: input.max_raise,
            total_raised: 0,
            max_per_wallet: input.max_per_wallet,
            start_time: input.start_time,
            end_time: input.end_time,
            whitelist: Whitelist::new(),
            whitelist_enabled: input.whitelist_enabled,
            contributions: Ledger::new(),
            tokens_purchased: Ledger::new(),
            claimed: Ledger::new(),
            vesting_config: input.vesting_config,
            status: LaunchStatus::Pending,
            created_at: current_block,
            tokens_deposited: false,
            funds_withdrawn: false,
            refunds_processed: false,
            contributors: Vec::new(),
        };
        self.next_launch_id = next;
        self.launches.push(launch);
        proof {
            assert forall|i: int| 0 <= i < self.launches@.len() implies (
            #[trigger] self.launches@[i]).wf() && self.launches@[i].id == i by {
                if i < self.launches@.len() - 1 {
                    assert(self.launches@[i] == old(self).launches@[i]);
                }
            }
        }
        Ok(launch_id)
    }

    /// The platform's cut of a raise: `total * fee_basis_points / 10_000`,
    /// rounded down; never more than the raise itself.
    pub fn compute_fee(total: Amount, fee_basis_points: BasisPoints) -> (r: Amount)
        requires
            fee_basis_points <= 10_000,
        ensures
            r == spec_fee(total, fee_basis_points),
            r <= total,
    {
        let bp = fee_basis_points as u128;
        let q = total / 10_000;
        let rem = total % 10_000;
        proof {
            let t = total as int;
            let b = bp as int;
            vstd::arithmetic::div_mod::lemma_fundamental_div_mod(t, 10_000);
            assert((q as int) * b <= (q as int) * 10_000) by (nonlinear_arith)
                requires
                    q >= 0,
                    b <= 10_000,
            ;
            assert((q as int) * 10_000 <= t) by (nonlinear_arith)
                requires
                    t == 10_000 * (q as int) + (rem as int),
                    rem >= 0,
            ;
            vstd::arithmetic::div_mod::lemma_hoist_over_denominator(
                (rem as int) * b,
                (q as int) * b,
                10_000nat,
            );
            assert((rem as int) * b <= u128::MAX) by (nonlinear_arith)
                requires
                    0 <= rem < 10_000,
                    0 <= b <= 10_000,
            ;
            assert((rem as int) * b + (q as int) * b * 10_000 == t * b) by (nonlinear_arith)
                requires
                    t == 10_000 * (q as int) + (rem as int),
            ;
            assert(t * b <= t * 10_000) by (nonlinear_arith)
                requires
                    t >= 0,
                    b <= 10_000,
            ;
            vstd::arithmetic::div_mod::lemma_div_is_ordered(t * b, t * 10_000, 10_000);
            vstd::arithmetic::div_mod::lemma_div_multiples_vanish(t, 10_000);
            assert(10_000 * t == t * 10_000) by (nonlinear_arith);
            assert(t * b / 10_000 <= t);
            assert((rem as int) * b / 10_000 + (q as int) * b == t * b / 10_000);
        }
        q * bp + (rem * bp) / 10_000
    }

    /// Pays the raise of a successful launch out to its creator, minus the
    /// platform fee, exactly once: the latch is set and the fee accrued
    /// before the caller performs the transfer of the returned amount.
    pub fn withdraw_funds(&mut self, caller: ActorId, launch_id: Id) -> (r: Result<
        Amount,
        ContractError,
    >)
        requires
            old(self).wf(),
        ensures
            final(self).wf(),
            r is Err ==> Self::unchanged(*old(self), *final(self)),
            !old(self).spec_has_launch(launch_id) ==> (r matches Err(e) && e
                == ContractError::NotFound),
            (old(self).spec_has_launch(launch_id) && caller != old(self).spec_launch(
                launch_id,
            ).creator) ==> (r matches Err(e) && e == ContractError::Unauthorized),
            (old(self).spec_has_launch(launch_id) && caller == old(self).spec_launch(
                launch_id,
            ).creator && !old(self).spec_launch(launch_id).claim_window_open()) ==> (r matches Err(
                e,
            ) && e is InvalidState),
            (old(self).spec_has_launch(launch_id) && caller == old(self).spec_launch(
                launch_id,
            ).creator && old(self).spec_launch(launch_id).claim_window_open() && old(
                self,
            ).spec_launch(launch_id).funds_withdrawn) ==> (r matches Err(e) && e
                == ContractError::AlreadyProcessed),
            (old(self).spec_has_launch(launch_id) && caller == old(self).spec_launch(
                launch_id,
            ).creator && old(self).spec_launch(launch_id).claim_window_open() && !old(
                self,
            ).spec_launch(launch_id).funds_withdrawn && old(self).accumulated_fees + spec_fee(
                old(self).spec_launch(launch_id).total_raised,
                old(self).fee_basis_points,
            ) > u128::MAX) ==> (r matches Err(e) && e == ContractError::Overflow),
            r is Ok <==> (old(self).spec_has_launch(launch_id) && caller == old(self).spec_launch(
                launch_id,
            ).creator && old(self).spec_launch(launch_id).claim_window_open() && !old(
                self,
            ).spec_launch(launch_id).funds_withdrawn && old(self).accumulated_fees + spec_fee(
                old(self).spec_launch(launch_id).total_raised,
                old(self).fee_basis_points,
            ) <= u128::MAX),
            r matches Ok(v) ==> v == old(self).spec_launch(launch_id).total_raised - spec_fee(
                old(self).spec_launch(launch_id).total_raised,
                old(self).fee_basis_points,
            ),
            r is Ok ==> final(self).spec_launch(launch_id) == (Launch {
                funds_withdrawn: true,
                ..old(self).spec_launch(launch_id)
            }),
            r is Ok ==> final(self).accumulated_fees == old(self).accumulated_fees + spec_fee(
                old(self).spec_launch(launch_id).total_raised,
                old(self).fee_basis_points,
            ),
            final(self).next_launch_id == old(self).next_launch_id,
            final(self).owner == old(self).owner,
            final(self).fee_basis_points == old(self).fee_basis_points,
            final(self).fees_withdrawn == old(self).fees_withdrawn,
            final(self).paused == old(self).paused,
            Self::launches_same_except(*old(self), *final(self), launch_id),
    {
        if launch_id >= self.launches.len() as u64 {
            return Err(ContractError::NotFound);
        }
        let idx = launch_id as usize;
        if caller != self.launches[idx].creator {
            return Err(ContractError::Unauthorized);
        }
        if !matches!(
            self.launches[idx].status,
            LaunchStatus::DistributionPending | LaunchStatus::Succeeded
        ) {
            return Err(ContractError::invalid_state("Launch not successful"));
        }
        if self.launches[idx].funds_withdrawn {
            return Err(ContractError::AlreadyProcessed);
        }
        let total = self.launches[idx].total_raised;
        let fee = Self::compute_fee(total, self.fee_basis_points);
        let amount_to_creator = total - fee;
        match self.accumulated_fees.checked_add(fee) {
            None => Err(ContractError::Overflow),
            Some(new_fees) => {
                let l = &mut self.launches[idx];
                l.funds_withdrawn = true;
                self.accumulated_fees = new_fees;
                proof {
                    assert forall|i: int| 0 <= i < self.launches@.len() implies (
                    #[trigger] self.launches@[i]).wf() && self.launches@[i].id == i by {
                        if i != idx as int {
                            assert(self.launches@[i] == old(self).launches@[i]);
                        } else {
                            assert(self.launches@[i] == (Launch {
                                funds_withdrawn: true,
                                ..old(self).launches@[i]
                            }));
                        }
                    }
                }
                Ok(amount_to_creator)
            },
        }
    }

    /// Pays every accrued and not yet withdrawn fee out to the platform
    /// owner, exactly once: the ledger moves before the caller performs the
    /// transfer of the returned amount.
    pub fn withdraw_fees(&mut self, caller: ActorId) -> (r: Result<Amount, ContractError>)
        requires
            old(self).wf(),
        ensures
            final(self).wf(),
            r is Err ==> *final(self) == *old(self),
            caller != old(self).owner ==> (r matches Err(e) && e == ContractError::Unauthorized),
            (caller == old(self).owner && old(self).accumulated_fees == old(self).fees_withdrawn)
                ==> (r matches Err(e) && e == ContractError::ZeroAmount),
            r is Ok <==> (caller == old(self).owner && old(self).accumulated_fees > old(
                self,
            ).fees_withdrawn),
            r matches Ok(v) ==> v == old(self).accumulated_fees - old(self).fees_withdrawn,
            r is Ok ==> *final(self) == (LaunchpadStorage {
                fees_withdrawn: old(self).accumulated_fees,
                ..*old(self)
            }),
    {
        if caller != self.owner {
            return Err(ContractError::Unauthorized);
        }
        let available = self.accumulated_fees - self.fees_withdrawn;
        if available == 0 {
            return Err(ContractError::ZeroAmount);
        }
        self.fees_withdrawn = self.fees_withdrawn + available;
        Ok(available)
    }

    /// Admits addresses to a launch's whitelist (creator only, before the
    /// launch ends).
    pub fn add_to_whitelist(&mut self, caller: ActorId, launch_id: Id, addresses: Vec<ActorId>) -> (r:
        Result<(), ContractError>)
        requires
            old(self).wf(),
        ensures
            final(self).wf(),
            r is Err ==> Self::unchanged(*old(self), *final(self)),
            !old(self).spec_has_launch(launch_id) ==> (r matches Err(e) && e
                == ContractError::NotFound),
            (old(self).spec_has_launch(launch_id) && caller != old(self).spec_launch(
                launch_id,
            ).creator) ==> (r matches Err(e) && e == ContractError::Unauthorized),
            (old(self).spec_has_launch(launch_id) && caller == old(self).spec_launch(
                launch_id,
            ).creator && !(old(self).spec_launch(launch_id).status is Pending || old(
                self,
            ).spec_launch(launch_id).status is Active)) ==> (r matches Err(e)
                && e is InvalidState),
            r is Ok <==> (old(self).spec_has_launch(launch_id) && caller == old(self).spec_launch(
                launch_id,
            ).creator && (old(self).spec_launch(launch_id).status is Pending || old(
                self,
            ).spec_launch(launch_id).status is Active)),
            r is Ok ==> final(self).spec_launch(launch_id) == (Launch {
                whitelist: final(self).spec_launch(launch_id).whitelist,
                ..old(self).spec_launch(launch_id)
            }),
            r is Ok ==> whitelist_extended(
                old(self).spec_launch(launch_id),
                final(self).spec_launch(launch_id),
                addresses@,
            ),
            Self::platform_same(*old(self), *final(self)),
            Self::launches_same_except(*old(self), *final(self), launch_id),
    {
        if launch_id >= self.launches.len() as u64 {
            return Err(ContractError::NotFound);
        }
        let idx = launch_id as usize;
        let l = &mut self.launches[idx];
        let r = l.whitelist_add(caller, &addresses);
        proof {
            assert forall|i: int| 0 <= i < self.launches@.len() implies (
            #[trigger] self.launches@[i]).wf() && self.launches@[i].id == i by {
                if i != idx as int {
                    assert(self.launches@[i] == old(self).launches@[i]);
                }
            }
            if r is Err {
                assert(self.launches@ =~= old(self).launches@);
            }
        }
        r
    }

    /// Takes an attached payment as a contribution to a launch.  The receipt
    /// says what was kept and what must be returned to the contributor; a
    /// rejection means the whole payment must be returned.
    pub fn contribute(
        &mut self,
        caller: ActorId,
        value: Amount,
        current_block: BlockNumber,
        launch_id: Id,
    ) -> (r: Result<ContributionReceipt, ContractError>)
        requires
            old(self).wf(),
        ensures
            final(self).wf(),
            r is Err ==> Self::unchanged(*old(self), *final(self)),
            old(self).paused ==> (r matches Err(e) && e is InvalidState),
            (!old(self).paused && !old(self).spec_has_launch(launch_id)) ==> (r matches Err(e) && e
                == ContractError::NotFound),
            r is Ok <==> (!old(self).paused && old(self).spec_has_launch(launch_id) && old(
                self,
            ).spec_launch(launch_id).contribute_allowed(caller, value, current_block)),
            (!old(self).paused && old(self).spec_has_launch(launch_id) && !(old(self).spec_launch(
                launch_id,
            ).status is Active)) ==> (r matches Err(e) && e is InvalidState),
            (!old(self).paused && old(self).spec_has_launch(launch_id) && old(self).spec_launch(
                launch_id,
            ).status is Active && !old(self).spec_launch(launch_id).spec_in_window(current_block))
                ==> (r matches Err(e) && e is InvalidState),
            (!old(self).paused && old(self).spec_has_launch(launch_id) && old(self).spec_launch(
                launch_id,
            ).status is Active && old(self).spec_launch(launch_id).spec_in_window(current_block)
                && !old(self).spec_launch(launch_id).spec_can_participate(caller)) ==> (
            r matches Err(e) && e is InvalidState),
            (!old(self).paused && old(self).spec_has_launch(launch_id) && old(self).spec_launch(
                launch_id,
            ).status is Active && old(self).spec_launch(launch_id).spec_in_window(current_block)
                && old(self).spec_launch(launch_id).spec_can_participate(caller) && old(
                self,
            ).spec_launch(launch_id).spec_fully_subscribed()) ==> (r matches Err(e)
                && e is InvalidState),
            (!old(self).paused && old(self).spec_has_launch(launch_id) && old(self).spec_launch(
                launch_id,
            ).status is Active && old(self).spec_launch(launch_id).spec_in_window(current_block)
                && old(self).spec_launch(launch_id).spec_can_participate(caller) && !old(
                self,
            ).spec_launch(launch_id).spec_fully_subscribed() && old(self).spec_launch(
                launch_id,
            ).spec_contribution_cap(caller) == 0) ==> (r matches Err(e) && e is InvalidState),
            (!old(self).paused && old(self).spec_has_launch(launch_id) && old(self).spec_launch(
                launch_id,
            ).status is Active && old(self).spec_launch(launch_id).spec_in_window(current_block)
                && old(self).spec_launch(launch_id).spec_can_participate(caller) && !old(
                self,
            ).spec_launch(launch_id).spec_fully_subscribed() && old(self).spec_launch(
                launch_id,
            ).spec_contribution_cap(caller) > 0 && min(
                value as int,
                old(self).spec_launch(launch_id).spec_contribution_cap(caller),
            ) / (old(self).spec_launch(launch_id).price_per_token as int) == 0) ==> (r matches Err(
                e,
            ) && e is InvalidInput),
            r matches Ok(rc) ==> contribution_applied(
                old(self).spec_launch(launch_id),
                final(self).spec_launch(launch_id),
                caller,
                value,
                rc,
            ),
            Self::platform_same(*old(self), *final(self)),
            Self::launches_same_except(*old(self), *final(self), launch_id),
    {
        if self.paused {
            return Err(ContractError::invalid_state("Contract is paused"));
        }
        if launch_id >= self.launches.len() as u64 {
            return Err(ContractError::NotFound);
        }
        let idx = launch_id as usize;
        let l = &mut self.launches[idx];
        let r = l.process_contribution(caller, value, current_block);
        proof {
            assert forall|i: int| 0 <= i < self.launches@.len() implies (
            #[trigger] self.launches@[i]).wf() && self.launches@[i].id == i by {
                if i != idx as int {
                    assert(self.launches@[i] == old(self).launches@[i]);
                }
            }
            if r is Err {
                assert(self.launches@ =~= old(self).launches@);
            }
        }
        r
    }

    /// Resolves an active launch once its window has passed or the sale is
    /// exhausted.  Anyone may call it.
    pub fn finalize(&mut self, current_block: BlockNumber, launch_id: Id) -> (r: Result<
        (),
        ContractError,
    >)
        requires
            old(self).wf(),
        ensures
            final(self).wf(),
            r is Err ==> Self::unchanged(*old(self), *final(self)),
            !old(self).spec_has_launch(launch_id) ==> (r matches Err(e) && e
                == ContractError::NotFound),
            (old(self).spec_has_launch(launch_id) && r is Err) ==> (r matches Err(e)
                && e is InvalidState),
            r is Ok <==> (old(self).spec_has_launch(launch_id) && old(self).spec_launch(
                launch_id,
            ).status is Active && (current_block > old(self).spec_launch(launch_id).end_time || old(
                self,
            ).spec_launch(launch_id).spec_fully_subscribed())),
            r is Ok ==> final(self).spec_launch(launch_id) == (Launch {
                status: if old(self).spec_launch(launch_id).total_raised >= old(self).spec_launch(
                    launch_id,
                ).min_raise {
                    LaunchStatus::DistributionPending
                } else {
                    LaunchStatus::RefundAvailable
                },
                ..old(self).spec_launch(launch_id)
            }),
            Self::platform_same(*old(self), *final(self)),
            Self::launches_same_except(*old(self), *final(self), launch_id),
    {
        if launch_id >= self.launches.len() as u64 {
            return Err(ContractError::NotFound);
        }
        let idx = launch_id as usize;
        let l = &mut self.launches[idx];
        let r = l.finalize_outcome(current_block);
        proof {
            assert forall|i: int| 0 <= i < self.launches@.len() implies (
            #[trigger] self.launches@[i]).wf() && self.launches@[i].id == i by {
                if i != idx as int {
                    assert(self.launches@[i] == old(self).launches@[i]);
                }
            }
            if r is Err {
                assert(self.launches@ =~= old(self).launches@);
            }
        }
        r
    }

    /// Cancels a launch: the creator may cancel a pending one, the owner any
    /// launch not yet finalized.
    pub fn cancel_launch(&mut self, caller: ActorId, launch_id: Id) -> (r: Result<
        (),
        ContractError,
    >)
        requires
            old(self).wf(),
        ensures
            final(self).wf(),
            r is Err ==> Self::unchanged(*old(self), *final(self)),
            !old(self).spec_has_launch(launch_id) ==> (r matches Err(e) && e
                == ContractError::NotFound),
            (old(self).spec_has_launch(launch_id) && caller != old(self).spec_launch(
                launch_id,
            ).creator && caller != old(self).owner) ==> (r matches Err(e) && e
                == ContractError::Unauthorized),
            (old(self).spec_has_launch(launch_id) && (caller == old(self).spec_launch(
                launch_id,
            ).creator || caller == old(self).owner) && !old(self).spec_launch(
                launch_id,
            ).cancel_allowed(caller, old(self).owner)) ==> (r matches Err(e)
                && e is InvalidState),
            r is Ok <==> (old(self).spec_has_launch(launch_id) && old(self).spec_launch(
                launch_id,
            ).cancel_allowed(caller, old(self).owner)),
            r is Ok ==> final(self).spec_launch(launch_id) == (Launch {
                status: if old(self).spec_launch(launch_id).total_raised > 0 {
                    LaunchStatus::RefundAvailable
                } else {
                    LaunchStatus::Finalized
                },
                ..old(self).spec_launch(launch_id)
            }),
            Self::platform_same(*old(self), *final(self)),
            Self::launches_same_except(*old(self), *final(self), launch_id),
    {
        if launch_id >= self.launches.len() as u64 {
            return Err(ContractError::NotFound);
        }
        let idx = launch_id as usize;
        let platform_owner = self.owner;
        let l = &mut self.launches[idx];
        let r = l.cancel(caller, platform_owner);
        proof {
            assert forall|i: int| 0 <= i < self.launches@.len() implies (
            #[trigger] self.launches@[i]).wf() && self.launches@[i].id == i by {
                if i != idx as int {
                    assert(self.launches@[i] == old(self).launches@[i]);
                }
            }
            if r is Err {
                assert(self.launches@ =~= old(self).launches@);
            }
        }
        r
    }

    /// Releases the caller's claimable tokens from a successful launch.
    pub fn claim_tokens(&mut self, caller: ActorId, current_block: BlockNumber, launch_id: Id) -> (r:
        Result<Amount, ContractError>)
        requires
            old(self).wf(),
        ensures
            final(self).wf(),
            r is Err ==> Self::unchanged(*old(self), *final(self)),
            !old(self).spec_has_launch(launch_id) ==> (r matches Err(e) && e
                == ContractError::NotFound),
            (old(self).spec_has_launch(launch_id) && r is Err) ==> (r matches Err(e)
                && e is InvalidState),
            r is Ok <==> (old(self).spec_has_launch(launch_id) && old(self).spec_launch(
                launch_id,
            ).claim_window_open() && old(self).spec_launch(launch_id).tokens_purchased.spec_amount(
                caller,
            ) > 0 && old(self).spec_launch(launch_id).spec_claimable(caller, current_block) > 0),
            r matches Ok(v) ==> v == old(self).spec_launch(launch_id).spec_claimable(
                caller,
                current_block,
            ),
            r is Ok ==> final(self).spec_launch(launch_id) == (Launch {
                claimed: final(self).spec_launch(launch_id).claimed,
                ..old(self).spec_launch(launch_id)
            }),
            r matches Ok(v) ==> final(self).spec_launch(launch_id).claimed.spec_amount(caller)
                == old(self).spec_launch(launch_id).claimed.spec_amount(caller) + v,
            r is Ok ==> (forall|x: ActorId|
                x != caller ==> final(self).spec_launch(launch_id).claimed.spec_amount(x) == old(
                    self,
                ).spec_launch(launch_id).claimed.spec_amount(x)),
            Self::platform_same(*old(self), *final(self)),
            Self::launches_same_except(*old(self), *final(self), launch_id),
    {
        if launch_id >= self.launches.len() as u64 {
            return Err(ContractError::NotFound);
        }
        let idx = launch_id as usize;
        let l = &mut self.launches[idx];
        let r = l.claim(caller, current_block);
        proof {
            assert forall|i: int| 0 <= i < self.launches@.len() implies (
            #[trigger] self.launches@[i]).wf() && self.launches@[i].id == i by {
                if i != idx as int {
                    assert(self.launches@[i] == old(self).launches@[i]);
                }
            }
            if r is Err {
                assert(self.launches@ =~= old(self).launches@);
            }
        }
        r
    }

    /// Pays back the caller's contribution to a failed or cancelled launch
    /// and removes its entry.  The caller of the operation owes the
    /// contributor a transfer of the returned amount.
    pub fn claim_refund(&mut self, caller: ActorId, launch_id: Id) -> (r: Result<
        Amount,
        ContractError,
    >)
        requires
            old(self).wf(),
        ensures
            final(self).wf(),
            r is Err ==> Self::unchanged(*old(self), *final(self)),
            !old(self).spec_has_launch(launch_id) ==> (r matches Err(e) && e
                == ContractError::NotFound),
            (old(self).spec_has_launch(launch_id) && r is Err) ==> (r matches Err(e)
                && e is InvalidState),
            r is Ok <==> (old(self).spec_has_launch(launch_id) && old(self).spec_launch(
                launch_id,
            ).refunds_claimable() && old(self).spec_launch(launch_id).contributions.spec_has(
                caller,
            )),
            r matches Ok(v) ==> v == old(self).spec_launch(launch_id).contributions.spec_amount(
                caller,
            ) && v > 0,
            r is Ok ==> !final(self).spec_launch(launch_id).contributions.spec_has(caller),
            r is Ok ==> (forall|x: ActorId|
                x != caller ==> final(self).spec_launch(launch_id).contributions.spec_amount(x)
                    == old(self).spec_launch(launch_id).contributions.spec_amount(x)),
            r is Ok ==> final(self).spec_launch(launch_id) == (Launch {
                contributions: final(self).spec_launch(launch_id).contributions,
                status: final(self).spec_launch(launch_id).status,
                refunds_processed: final(self).spec_launch(launch_id).refunds_processed,
                ..old(self).spec_launch(launch_id)
            }),
            (r is Ok && final(self).spec_launch(launch_id).contributions.spec_len() == 0) ==> (
            final(self).spec_launch(launch_id).status is Finalized && final(self).spec_launch(
                launch_id,
            ).refunds_processed),
            (r is Ok && final(self).spec_launch(launch_id).contributions.spec_len() > 0) ==> (
            final(self).spec_launch(launch_id).status == old(self).spec_launch(launch_id).status
                && final(self).spec_launch(launch_id).refunds_processed == old(self).spec_launch(
                launch_id,
            ).refunds_processed),
            Self::platform_same(*old(self), *final(self)),
            Self::launches_same_except(*old(self), *final(self), launch_id),
    {
        if launch_id >= self.launches.len() as u64 {
            return Err(ContractError::NotFound);
        }
        let idx = launch_id as usize;
        let l = &mut self.launches[idx];
        let r = l.refund(caller);
        proof {
            assert forall|i: int| 0 <= i < self.launches@.len() implies (
            #[trigger] self.launches@[i]).wf() && self.launches@[i].id == i by {
                if i != idx as int {
                    assert(self.launches@[i] == old(self).launches@[i]);
                }
            }
            if r is Err {
                assert(self.launches@ =~= old(self).launches@);
            }
        }
        r
    }
    /// Exactly-once settlement: once the withdrawal latch of a launch is
    /// set — as it is after every successful `withdraw_funds` — the success
    /// condition of `withdraw_funds` can never hold again for that launch,
    /// whoever calls and whatever the fee ledger holds.
    pub proof fn lemma_withdraw_funds_once(s: LaunchpadStorage, caller: ActorId, launch_id: Id)
        requires
            s.spec_has_launch(launch_id),
            s.spec_launch(launch_id).funds_withdrawn,
        ensures
            !(s.spec_has_launch(launch_id) && caller == s.spec_launch(launch_id).creator
                && s.spec_launch(launch_id).claim_window_open() && !s.spec_launch(
                launch_id,
            ).funds_withdrawn && s.accumulated_fees + spec_fee(
                s.spec_launch(launch_id).total_raised,
                s.fee_basis_points,
            ) <= u128::MAX),
    {
    }

    /// Exactly-once refunds: a successful `claim_refund` removes the
    /// caller's entry, and without an entry the success condition of
    /// `claim_refund` can never hold again for that party.
    pub proof fn lemma_claim_refund_once(s: LaunchpadStorage, caller: ActorId, launch_id: Id)
        requires
            s.spec_has_launch(launch_id),
            !s.spec_launch(launch_id).contributions.spec_has(caller),
        ensures
            !(s.spec_has_launch(launch_id) && s.spec_launch(launch_id).refunds_claimable()
                && s.spec_launch(launch_id).contributions.spec_has(caller)),
    {
    }

    /// Looks a launch up by id.
    pub fn get_launch(&self, launch_id: Id) -> (r: Option<&Launch>)
        ensures
            match r {
                Some(l) => self.spec_has_launch(launch_id) && *l == self.spec_launch(launch_id),
                None => !self.spec_has_launch(launch_id),
            },
    {
        if launch_id >= self.launches.len() as u64 {
            return None;
        }
        Some(&self.launches[launch_id as usize])
    }

    /// All launches by a creator, in id order.
    pub fn get_creator_launches(&self, creator: ActorId) -> (r: Vec<Launch>)
        ensures
            ({
                let f = self.launches@.filter(by_creator(creator));
                r@.len() == f.len() && (forall|j: int|
                    0 <= j < f.len() ==> crate::launch::same_launch(#[trigger] r@[j], f[j]))
            }),
    {
        let ghost pred = by_creator(creator);
        let mut out: Vec<Launch> = Vec::new();
        let mut i: usize = 0;
        proof {
            reveal(Seq::filter);
            assert(self.launches@.subrange(0, 0) =~= Seq::<Launch>::empty());
            assert(self.launches@.subrange(0, 0).filter(pred).len() == 0);
        }
        while i < self.launches.len()
            invariant
                i <= self.launches@.len(),
                ({
                    let f = self.launches@.subrange(0, i as int).filter(by_creator(creator));
                    out@.len() == f.len() && (forall|j: int|
                        0 <= j < f.len() ==> crate::launch::same_launch(#[trigger] out@[j], f[j]))
                }),
            decreases self.launches@.len() - i,
        {
            let matches_creator = self.launches[i].creator == creator;
            if matches_creator {
                out.push(self.launches[i].clone());
            }
            proof {
                reveal(Seq::filter);
                let sub_i = self.launches@.subrange(0, i as int);
                let sub_i1 = self.launches@.subrange(0, i as int + 1);
                let elem = self.launches@[i as int];
                assert(sub_i1.drop_last() =~= sub_i);
                assert(sub_i1.last() == elem);
                assert(sub_i1.filter(by_creator(creator)) == if by_creator(creator)(elem) {
                    sub_i.filter(by_creator(creator)).push(elem)
                } else {
                    sub_i.filter(by_creator(creator))
                });
            }
            i += 1;
        }
        proof {
            assert(self.launches@.subrange(0, self.launches@.len() as int) =~= self.launches@);
        }
        out
    }

    /// All launches currently accepting contributions, in id order.
    pub fn get_active_launches(&self) -> (r: Vec<Launch>)
        ensures
            ({
                let f = self.launches@.filter(is_active());
                r@.len() == f.len() && (forall|j: int|
                    0 <= j < f.len() ==> crate::launch::same_launch(#[trigger] r@[j], f[j]))
            }),
    {
        let ghost pred = is_active();
        let mut out: Vec<Launch> = Vec::new();
        let mut i: usize = 0;
        proof {
            reveal(Seq::filter);
            assert(self.launches@.subrange(0, 0) =~= Seq::<Launch>::empty());
            assert(self.launches@.subrange(0, 0).filter(pred).len() == 0);
        }
        while i < self.launches.len()
            invariant
                i <= self.launches@.len(),
                ({
                    let f = self.launches@.subrange(0, i as int).filter(is_active());
                    out@.len() == f.len() && (forall|j: int|
                        0 <= j < f.len() ==> crate::launch::same_launch(#[trigger] out@[j], f[j]))
                }),
            decreases self.launches@.len() - i,
        {
            let active_now = matches!(self.launches[i].status, LaunchStatus::Active);
            if active_now {
                out.push(self.launches[i].clone());
            }
            proof {
                reveal(Seq::filter);
                let sub_i = self.launches@.subrange(0, i as int);
                let sub_i1 = self.launches@.subrange(0, i as int + 1);
                let elem = self.launches@[i as int];
                assert(sub_i1.drop_last() =~= sub_i);
                assert(sub_i1.last() == elem);
                assert(sub_i1.filter(is_active()) == if is_active()(elem) {
                    sub_i.filter(is_active()).push(elem)
                } else {
                    sub_i.filter(is_active())
                });
            }
            i += 1;
        }
        proof {
            assert(self.launches@.subrange(0, self.launches@.len() as int) =~= self.launches@);
        }
        out
    }

    /// A party's cumulative contribution to a launch, zero when the launch
    /// or the entry is unknown.
    pub fn get_contribution(&self, launch_id: Id, user: ActorId) -> (r: Amount)
        ensures
            r == if self.spec_has_launch(launch_id) {
                self.spec_launch(launch_id).contributions.spec_amount(user)
            } else {
                0u128
            },
    {
        if launch_id >= self.launches.len() as u64 {
            return 0;
        }
        self.launches[launch_id as usize].contributions.get(user)
    }

    /// A party's cumulative token purchase in a launch.
    pub fn get_tokens_purchased(&self, launch_id: Id, user: ActorId) -> (r: Amount)
        ensures
            r == if self.spec_has_launch(launch_id) {
                self.spec_launch(launch_id).tokens_purchased.spec_amount(user)
            } else {
                0u128
            },
    {
        if launch_id >= self.launches.len() as u64 {
            return 0;
        }
        self.launches[launch_id as usize].tokens_purchased.get(user)
    }

    /// A party's cumulative claimed tokens in a launch.
    pub fn get_claimed(&self, launch_id: Id, user: ActorId) -> (r: Amount)
        ensures
            r == if self.spec_has_launch(launch_id) {
                self.spec_launch(launch_id).claimed.spec_amount(user)
            } else {
                0u128
            },
    {
        if launch_id >= self.launches.len() as u64 {
            return 0;
        }
        self.launches[launch_id as usize].claimed.get(user)
    }

    /// Whether an address may contribute to a launch (false for an unknown
    /// launch).
    pub fn is_whitelisted(&self, launch_id: Id, address: ActorId) -> (r: bool)
        ensures
            r == (self.spec_has_launch(launch_id) && self.spec_launch(
                launch_id,
            ).spec_can_participate(address)),
    {
        if launch_id >= self.launches.len() as u64 {
            return false;
        }
        self.launches[launch_id as usize].can_participate(&address)
    }

    /// The number of launches ever created.
    pub fn get_launch_count(&self) -> (r: u64)
        ensures
            r == self.next_launch_id,
    {
        self.next_launch_id
    }

    /// Fees ever accrued by the platform.
    pub fn get_accumulated_fees(&self) -> (r: Amount)
        ensures
            r == self.accumulated_fees,
    {
        self.accumulated_fees
    }

    /// Fees accrued and not yet withdrawn.
    pub fn get_available_fees(&self) -> (r: Amount)
        requires
            self.wf(),
        ensures
            r == self.accumulated_fees - self.fees_withdrawn,
    {
        self.accumulated_fees - self.fees_withdrawn
    }

    /// The platform owner.
    pub fn get_owner(&self) -> (r: ActorId)
        ensures
            r == self.owner,
    {
        self.owner
    }

    /// Whether the platform is paused.
    pub fn is_paused(&self) -> (r: bool)
        ensures
            r == self.paused,
    {
        self.paused
    }

    /// Tokens a party could claim from a launch right now, zero for an
    /// unknown launch or a party that bought nothing.
    pub fn get_claimable_tokens(&self, launch_id: Id, user: ActorId, current_block: BlockNumber) -> (r:
        Amount)
        requires
            self.wf(),
        ensures
            r == if self.spec_has_launch(launch_id) && self.spec_launch(
                launch_id,
            ).tokens_purchased.spec_amount(user) > 0 {
                self.spec_launch(launch_id).spec_claimable(user, current_block)
            } else {
                0int
            },
    {
        if launch_id >= self.launches.len() as u64 {
            return 0;
        }
        let launch = &self.launches[launch_id as usize];
        let total_purchased = launch.tokens_purchased.get(user);
        if total_purchased == 0 {
            return 0;
        }
        let already_claimed = launch.claimed.get(user);
        match &launch.vesting_config {
            Some(vesting) => {
                let vested = crate::vesting::calculate_vested_tokens(
                    total_purchased,
                    vesting,
                    current_block,
                );
                proof {
                    crate::vesting::lemma_vested_bounds(total_purchased, *vesting, current_block);
                }
                if vested >= already_claimed {
                    vested - already_claimed
                } else {
                    0
                }
            },
            None => total_purchased.saturating_sub(already_claimed),
        }
    }

    /// The contributor roll of a launch, in first-contribution order; empty
    /// for an unknown launch.
    pub fn get_contributors(&self, launch_id: Id) -> (r: Vec<ActorId>)
        ensures
            r@ == if self.spec_has_launch(launch_id) {
                self.spec_launch(launch_id).contributors@
            } else {
                Seq::<ActorId>::empty()
            },
    {
        let mut out: Vec<ActorId> = Vec::new();
        if launch_id >= self.launches.len() as u64 {
            proof {
                assert(out@ =~= Seq::<ActorId>::empty());
            }
            return out;
        }
        let launch = &self.launches[launch_id as usize];
        let mut i: usize = 0;
        while i < launch.contributors.len()
            invariant
                i <= launch.contributors@.len(),
                out@ == launch.contributors@.subrange(0, i as int),
            decreases launch.contributors@.len() - i,
        {
            out.push(launch.contributors[i]);
            i += 1;
        }
        proof {
            assert(out@ =~= launch.contributors@);
        }
        out
    }
}

} // verus!
