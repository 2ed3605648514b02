use vstd::prelude::*;

use crate::types::{AccountId, Balance};

verus! {

/// Announces a new campaign.
#[derive(Clone, Debug, PartialEq, Eq)]
pub struct CampaignCreated {
    pub campaign_id: u32,
    pub creator: AccountId,
    pub title: String,
    pub goal: Balance,
    pub deadline: u32,
}

/// Announces an accepted contribution.
#[derive(Clone, Copy, Debug, PartialEq, Eq)]
pub struct ContributionMade {
    pub campaign_id: u32,
    pub contributor: AccountId,
    pub amount: Balance,
    pub total_raised: Balance,
}

/// Announces a withdrawal; it is also the transfer that the host is to make.
#[derive(Clone, Copy, Debug, PartialEq, Eq)]
pub struct FundsWithdrawn {
    pub campaign_id: u32,
    pub creator: AccountId,
    pub amount: Balance,
}

/// Announces a refund; it is also the transfer that the host is to make.
#[derive(Clone, Copy, Debug, PartialEq, Eq)]
pub struct RefundIssued {
    pub campaign_id: u32,
    pub contributor: AccountId,
    pub amount: Balance,
}

/// Announces that a campaign's raised total has reached its goal.
#[derive(Clone, Copy, Debug, PartialEq, Eq)]
pub struct GoalReached {
    pub campaign_id: u32,
    pub total_raised: Balance,
    pub goal: Balance,
}

} // verus!
