use vstd::prelude::*;

verus! {

/// An amount of the native currency.
pub type Balance = u128;

/// The identity of an account on the host chain.
#[derive(Clone, Copy, Debug, PartialEq, Eq, Hash)]
pub struct AccountId {
    pub bytes: [u8; 32],
}

impl AccountId {
    pub fn new(bytes: [u8; 32]) -> (r: AccountId)
        ensures
            r.bytes == bytes,
    {
        AccountId { bytes }
    }
}

/// Compares two accounts byte by byte.
pub fn same_account(a: &AccountId, b: &AccountId) -> (r: bool)
    ensures
        r == (*a == *b),
{
    let mut i: usize = 0;
    while i < 32
        invariant
            0 <= i <= 32,
            forall|k: int| 0 <= k < i ==> a.bytes@[k] == b.bytes@[k],
        decreases 32 - i,
    {
        if a.bytes[i] != b.bytes[i] {
            return false;
        }
        i = i + 1;
    }
    assert(a.bytes =~= b.bytes);
    true
}

/// The ways in which an operation of the ledger can be refused.
#[derive(Clone, Copy, Debug, PartialEq, Eq, Structural)]
pub enum Error {
    /// No campaign has this id.
    CampaignNotFound,
    /// The campaign's deadline has passed.
    CampaignEnded,
    /// The campaign was deactivated or its funds were withdrawn.
    CampaignInactive,
    /// The campaign has not raised its goal.
    GoalNotReached,
    /// Only the campaign's creator may do this.
    OnlyCreator,
    /// The deadline would not lie after the current block.
    InvalidDeadline,
    /// A contribution must carry a non-zero value.
    ZeroContribution,
    /// Refunds are open only after the deadline of a campaign that missed its goal.
    RefundNotAvailable,
    /// The campaign's funds were already withdrawn.
    AlreadyWithdrawn,
    /// The caller has nothing to reclaim.
    NoContribution,
    /// The host could not carry out the transfer.
    TransferFailed,
    /// Part of the error set; no operation of the ledger returns it.
    GoalAlreadyReached,
}

/// A funding campaign.
#[derive(Clone, Debug, PartialEq, Eq)]
pub struct Campaign {
    pub creator: AccountId,
    pub title: String,
    pub description: String,
    pub goal: Balance,
    /// The first block at which contributions are no longer taken.
    pub deadline: u32,
    pub raised: Balance,
    pub active: bool,
    pub withdrawn: bool,
}

} // verus!
