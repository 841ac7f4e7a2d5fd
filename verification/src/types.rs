//! Plain value types the launchpad accounts in.

use vstd::prelude::*;

verus! {

/// Unique identifier of a launch, assigned monotonically from zero.
pub type Id = u64;

/// Amount of currency or tokens.
pub type Amount = u128;

/// Block height, the launchpad's notion of time.
pub type BlockNumber = u32;

/// Basis points: 1/100th of a percent, so 10_000 is 100%.
pub type BasisPoints = u16;

/// An authenticated party.  The host resolves real account addresses; the
/// library only compares identities and keys its ledgers by them, so a plain
/// integer carries everything it reads.
pub type ActorId = u64;

/// Maximum fee rate: 100% in basis points.
pub const MAX_BASIS_POINTS: u16 = 10_000;

/// A vesting schedule: nothing is claimable before the cliff ends, everything
/// is claimable once the vesting duration has elapsed, and entitlement grows
/// linearly in between.
#[derive(Clone, Copy, Debug, PartialEq, Eq, Structural)]
pub struct VestingConfig {
    /// Block at which vesting starts.
    pub start_block: BlockNumber,
    /// Length of the cliff in blocks, counted from `start_block`.
    pub cliff_duration: BlockNumber,
    /// Total vesting length in blocks, counted from `start_block` and
    /// including the cliff.
    pub vesting_duration: BlockNumber,
}

/// Block at which the cliff ends, saturating at the largest block number.
pub open spec fn spec_cliff_end(v: VestingConfig) -> u32 {
    if v.start_block + v.cliff_duration <= u32::MAX {
        (v.start_block + v.cliff_duration) as u32
    } else {
        u32::MAX
    }
}

/// Block at which vesting ends, saturating at the largest block number.
pub open spec fn spec_vesting_end(v: VestingConfig) -> u32 {
    if v.start_block + v.vesting_duration <= u32::MAX {
        (v.start_block + v.vesting_duration) as u32
    } else {
        u32::MAX
    }
}

impl VestingConfig {
    pub fn new(start_block: BlockNumber, cliff_duration: BlockNumber, vesting_duration: BlockNumber) -> (r: Self)
        ensures
            r == (VestingConfig { start_block, cliff_duration, vesting_duration }),
    {
        VestingConfig { start_block, cliff_duration, vesting_duration }
    }

    /// Returns the block when the cliff ends.
    pub fn cliff_end(&self) -> (r: BlockNumber)
        ensures
            r == spec_cliff_end(*self),
    {
        self.start_block.saturating_add(self.cliff_duration)
    }

    /// Returns the block when vesting ends.
    pub fn vesting_end(&self) -> (r: BlockNumber)
        ensures
            r == spec_vesting_end(*self),
    {
        self.start_block.saturating_add(self.vesting_duration)
    }
}

} // verus!
