//! Properties of the ledger as a whole, stated over the transitions that the
//! operations of `CrowdFunding` are proved to perform.
use vstd::prelude::*;

use crate::funding::FundingState;
use crate::ledger::{
    credited, lemma_amount_within_total, lemma_credit, lemma_sum_over_accounts, Contribution,
};
use crate::types::{AccountId, Balance, Campaign, Error};

verus! {

/// A campaign asked to run for zero blocks is always refused with
/// `InvalidDeadline`, whatever the current block.
pub proof fn lemma_zero_duration_refused(s: FundingState, block: u32)
    ensures
        s.create_error(block, 0) == Some(Error::InvalidDeadline),
{
}

/// A contribution of zero is refused with `ZeroContribution` whatever the
/// campaign's state; a non-zero one to an unknown campaign with
/// `CampaignNotFound`; a non-zero one to an active campaign at or after its
/// deadline with `CampaignEnded`.
pub proof fn lemma_contribution_refusals(s: FundingState, id: u32, value: Balance, block: u32)
    ensures
        value == 0 ==> s.contribute_error(id, value, block) == Some(Error::ZeroContribution),
        value != 0 && !s.has(id) ==> s.contribute_error(id, value, block) == Some(Error::CampaignNotFound),
        value != 0 && s.has(id) && s.campaigns[id as int].active
            && block >= s.campaigns[id as int].deadline
            ==> s.contribute_error(id, value, block) == Some(Error::CampaignEnded),
{
}

/// A new campaign starts with its contributions adding up to what it raised:
/// nothing.
pub proof fn lemma_new_campaign_balanced(s: FundingState, c: Campaign)
    requires
        s.wf(),
        c.raised == 0,
    ensures
        s.created(c).balanced(s.count() as u32),
{
    let roster = s.created(c).rosters[s.count() as int];
    assert(roster =~= Seq::<Contribution>::empty());
    lemma_sum_over_accounts(roster);
}

/// A successful contribution keeps, for every campaign, the sum of the
/// contributions recorded for it equal to what it raised: so the equality holds
/// after any sequence of contributions, until a refund clears a record.
pub proof fn lemma_contribution_keeps_balance(
    s: FundingState,
    id: u32,
    who: AccountId,
    value: Balance,
    block: u32,
    other: u32,
)
    requires
        s.wf(),
        s.contribute_error(id, value, block) is None,
        s.campaigns[id as int].raised + value <= Balance::MAX,
        s.has(other),
        s.balanced(other),
    ensures
        s.contributed(id, who, value).balanced(other),
{
    if other == id {
        let k = id as int;
        lemma_amount_within_total(s.rosters[k], who);
        lemma_credit(s.rosters[k], who, value as nat);
        lemma_sum_over_accounts(s.rosters[k]);
        lemma_sum_over_accounts(credited(s.rosters[k], who, value as nat));
    } else {
        assert(s.contributed(id, who, value).rosters[other as int] == s.rosters[other as int]);
    }
}

/// Once campaign `id` has paid out, a second withdrawal is refused: with
/// `AlreadyWithdrawn` for its creator, and with some error for anyone else.
pub proof fn lemma_withdraw_once(s: FundingState, id: u32, caller: AccountId, other: AccountId)
    requires
        s.withdraw_error(id, caller) is None,
    ensures
        s.withdrawn(id).withdraw_error(id, caller) == Some(Error::AlreadyWithdrawn),
        s.withdrawn(id).withdraw_error(id, other) is Some,
{
}

/// No other operation clears the withdrawn mark, so a paid-out campaign can
/// never pay out again.
pub proof fn lemma_withdrawn_mark_stays(
    s: FundingState,
    id: u32,
    target: u32,
    who: AccountId,
    value: Balance,
)
    requires
        s.has(id),
        s.has(target),
        s.campaigns[id as int].withdrawn,
    ensures
        s.contributed(target, who, value).campaigns[id as int].withdrawn,
        s.refunded(target, who).campaigns[id as int].withdrawn,
        s.deactivated(target).campaigns[id as int].withdrawn,
        s.withdrawn(target).campaigns[id as int].withdrawn,
{
}

/// A campaign that has raised at least its goal never grants a refund, before
/// or after its deadline.
pub proof fn lemma_no_refund_once_goal_met(s: FundingState, id: u32, caller: AccountId, block: u32)
    requires
        s.has(id),
        s.campaigns[id as int].raised >= s.campaigns[id as int].goal,
    ensures
        s.refund_error(id, caller, block) == Some(Error::RefundNotAvailable),
{
}

} // verus!
