//! A token-launchpad accounting library.
//!
//! A launchpad runs fundraising "launches": a creator offers a fixed token
//! supply at a fixed price, contributors pay native currency under per-wallet
//! and aggregate caps, and the launch resolves to funded, failed or cancelled,
//! after which tokens are claimed (possibly under a vesting schedule) or
//! contributions are refunded.  The library holds the full lifecycle state
//! machine and the funds/allocation accounting; callers supply the
//! authenticated caller identity, the attached payment and the current block
//! height, and perform the outbound currency transfers that the operations
//! report back as plain amounts.

pub mod errors;
pub mod types;
pub mod vesting;
pub mod ledger;
pub mod launch;
pub mod registry;

pub use errors::{ContractError, ContractResult};
pub use types::{ActorId, Amount, BasisPoints, BlockNumber, Id, VestingConfig};
pub use vesting::calculate_vested_tokens;
pub use ledger::{Ledger, Whitelist};
pub use launch::{ContributionReceipt, CreateLaunchInput, Launch, LaunchStatus};
pub use registry::LaunchpadStorage;
