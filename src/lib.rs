//! A crowdfunding ledger: creators open campaigns with a goal and a deadline,
//! supporters contribute, and at resolution either the creator withdraws the
//! funds (goal met) or contributors reclaim theirs (goal missed).
//!
//! The host that runs the ledger supplies the calling account, the current
//! block height and the value attached to a call, and performs the transfers
//! and event emissions that the operations hand back.
pub mod events;
pub mod funding;
pub mod laws;
pub mod ledger;
pub mod registry;
pub mod types;

pub use events::{CampaignCreated, ContributionMade, FundsWithdrawn, GoalReached, RefundIssued};
pub use funding::{settle_transfer, CrowdFunding, FundingState};
pub use ledger::{Contribution, ContributionLedger};
pub use registry::CampaignRegistry;
pub use types::{same_account, AccountId, Balance, Campaign, Error};
