use vstd::prelude::*;

use crate::events::{
    CampaignCreated, ContributionMade, FundsWithdrawn, GoalReached, RefundIssued,
};
use crate::ledger::{
    accounts, amount_of, cleared, credited, distinct, lemma_amount_within_total, lemma_clear,
    lemma_credit, is_distinct, sum_amounts, total, total_within, Contribution, ContributionLedger,
};
use crate::registry::{paid_out, raised_by, stopped, CampaignRegistry};
use crate::types::{same_account, AccountId, Balance, Campaign, Error};

verus! {

/// The whole ledger as mathematical values: the campaigns by id, and for each
/// the contributions in order of first contribution.
pub struct FundingState {
    pub campaigns: Seq<Campaign>,
    pub rosters: Seq<Seq<Contribution>>,
}

impl FundingState {
    pub open spec fn count(self) -> nat {
        self.campaigns.len()
    }

    /// Whether `id` names a campaign.
    pub open spec fn has(self, id: u32) -> bool {
        id < self.count()
    }

    /// The invariant that every operation keeps.
    pub open spec fn wf(self) -> bool {
        &&& self.rosters.len() == self.campaigns.len()
        &&& self.campaigns.len() <= u32::MAX
        &&& forall|k: int| 0 <= k < self.rosters.len() ==> distinct(#[trigger] self.rosters[k])
        &&& forall|k: int|
            0 <= k < self.campaigns.len() ==> total(#[trigger] self.rosters[k])
                <= self.campaigns[k].raised
        &&& forall|k: int|
            0 <= k < self.campaigns.len() && (#[trigger] self.campaigns[k]).withdrawn
                ==> !self.campaigns[k].active
    }

    /// What `who` has put into campaign `id`; zero for an unknown id.
    pub open spec fn contribution_of(self, id: u32, who: AccountId) -> nat {
        if self.has(id) { amount_of(self.rosters[id as int], who) } else { 0 }
    }

    /// Whether the contributions of campaign `id`'s contributors add up to
    /// what it raised.
    pub open spec fn balanced(self, id: u32) -> bool {
        let roster = self.rosters[id as int];
        sum_amounts(roster, accounts(roster)) == self.campaigns[id as int].raised
    }

    pub open spec fn create_error(self, block: u32, duration_blocks: u32) -> Option<Error> {
        if duration_blocks == 0 || block + duration_blocks > u32::MAX {
            Some(Error::InvalidDeadline)
        } else {
            None
        }
    }

    /// The state with one more campaign, whose roster is empty.
    pub open spec fn created(self, c: Campaign) -> FundingState {
        FundingState {
            campaigns: self.campaigns.push(c),
            rosters: self.rosters.push(Seq::<Contribution>::empty()),
        }
    }

    pub open spec fn contribute_error(self, id: u32, value: Balance, block: u32) -> Option<Error> {
        if value == 0 {
            Some(Error::ZeroContribution)
        } else if !self.has(id) {
            Some(Error::CampaignNotFound)
        } else if !self.campaigns[id as int].active {
            Some(Error::CampaignInactive)
        } else if block >= self.campaigns[id as int].deadline {
            Some(Error::CampaignEnded)
        } else {
            None
        }
    }

    /// The state after `who` contributed `value` to campaign `id`.
    pub open spec fn contributed(self, id: u32, who: AccountId, value: Balance) -> FundingState {
        FundingState {
            campaigns: self.campaigns.update(
                id as int,
                raised_by(self.campaigns[id as int], value as nat),
            ),
            rosters: self.rosters.update(
                id as int,
                credited(self.rosters[id as int], who, value as nat),
            ),
        }
    }

    pub open spec fn withdraw_error(self, id: u32, caller: AccountId) -> Option<Error> {
        if !self.has(id) {
            Some(Error::CampaignNotFound)
        } else if self.campaigns[id as int].creator != caller {
            Some(Error::OnlyCreator)
        } else if self.campaigns[id as int].withdrawn {
            Some(Error::AlreadyWithdrawn)
        } else if self.campaigns[id as int].raised < self.campaigns[id as int].goal {
            Some(Error::GoalNotReached)
        } else {
            None
        }
    }

    /// The state after campaign `id` paid its funds out.
    pub open spec fn withdrawn(self, id: u32) -> FundingState {
        FundingState {
            campaigns: self.campaigns.update(id as int, paid_out(self.campaigns[id as int])),
            rosters: self.rosters,
        }
    }

    pub open spec fn refund_error(self, id: u32, caller: AccountId, block: u32) -> Option<Error> {
        if !self.has(id) {
            Some(Error::CampaignNotFound)
        } else if block < self.campaigns[id as int].deadline {
            Some(Error::RefundNotAvailable)
        } else if self.campaigns[id as int].raised >= self.campaigns[id as int].goal {
            Some(Error::RefundNotAvailable)
        } else if amount_of(self.rosters[id as int], caller) == 0 {
            Some(Error::NoContribution)
        } else {
            None
        }
    }

    /// The state after `who` took back its contribution to campaign `id`.
    pub open spec fn refunded(self, id: u32, who: AccountId) -> FundingState {
        FundingState {
            campaigns: self.campaigns,
            rosters: self.rosters.update(id as int, cleared(self.rosters[id as int], who)),
        }
    }

    pub open spec fn deactivate_error(self, id: u32, caller: AccountId) -> Option<Error> {
        if !self.has(id) {
            Some(Error::CampaignNotFound)
        } else if self.campaigns[id as int].creator != caller {
            Some(Error::OnlyCreator)
        } else {
            None
        }
    }

    /// The state after campaign `id` was stopped by its creator.
    pub open spec fn deactivated(self, id: u32) -> FundingState {
        FundingState {
            campaigns: self.campaigns.update(id as int, stopped(self.campaigns[id as int])),
            rosters: self.rosters,
        }
    }

    pub open spec fn goal_reached(self, id: u32) -> bool {
        self.has(id) && self.campaigns[id as int].raised >= self.campaigns[id as int].goal
    }

    pub open spec fn ended(self, id: u32, block: u32) -> bool {
        !self.has(id) || block >= self.campaigns[id as int].deadline
    }
}

/// Turns the host's answer to a transfer into the outcome of the operation
/// that asked for it: the announcement when the transfer went through,
/// `TransferFailed` when it did not.
pub fn settle_transfer<T>(announcement: T, transferred: bool) -> (r: Result<T, Error>)
    ensures
        transferred ==> r == Ok::<T, Error>(announcement),
        !transferred ==> r == Err::<T, Error>(Error::TransferFailed),
{
    if transferred {
        Ok(announcement)
    } else {
        Err(Error::TransferFailed)
    }
}

/// The crowdfunding ledger: the campaign registry and the contribution ledger.
///
/// Each operation takes from the host what it knows of the call (the calling
/// account, the current block, the attached value) and returns the event to
/// publish; for a withdrawal or a refund that event is also the transfer the
/// host is to make, after which `settle_transfer` gives the call's outcome.
pub struct CrowdFunding {
    registry: CampaignRegistry,
    ledger: ContributionLedger,
}

impl View for CrowdFunding {
    type V = FundingState;

    closed spec fn view(&self) -> FundingState {
        FundingState { campaigns: self.registry@, rosters: self.ledger@ }
    }
}

impl CrowdFunding {
    pub closed spec fn wf(&self) -> bool {
        &&& self.registry.wf()
        &&& self.ledger.wf()
        &&& self@.wf()
    }

    pub fn new() -> (r: CrowdFunding)
        ensures
            r.wf(),
            r@.campaigns == Seq::<Campaign>::empty(),
            r@.rosters == Seq::<Seq<Contribution>>::empty(),
    {
        let r = CrowdFunding { registry: CampaignRegistry::new(), ledger: ContributionLedger::new() };
        assert(r@.rosters.len() == 0);
        r
    }

    /// Restores a ledger from stored campaigns (by id) and rosters (by
    /// campaign id). Returns `None` unless together they meet the invariant
    /// that the operations keep.
    pub fn from_parts(campaigns: Vec<Campaign>, rosters: Vec<Vec<Contribution>>) -> (r: Option<CrowdFunding>)
        ensures
            match r {
                Some(f) => {
                    &&& f.wf()
                    &&& f@.campaigns == campaigns@
                    &&& f@.rosters == rosters@.map_values(|v: Vec<Contribution>| v@)
                },
                None => !(FundingState {
                    campaigns: campaigns@,
                    rosters: rosters@.map_values(|v: Vec<Contribution>| v@),
                }).wf(),
            },
    {
        let ghost state = FundingState {
            campaigns: campaigns@,
            rosters: rosters@.map_values(|v: Vec<Contribution>| v@),
        };
        if rosters.len() != campaigns.len() || campaigns.len() > u32::MAX as usize {
            return None;
        }
        let n = campaigns.len();
        let mut k: usize = 0;
        while k < n
            invariant
                n == campaigns@.len(),
                n == rosters@.len(),
                n <= u32::MAX,
                0 <= k <= n,
                state == (FundingState {
                    campaigns: campaigns@,
                    rosters: rosters@.map_values(|v: Vec<Contribution>| v@),
                }),
                forall|j: int| 0 <= j < k ==> distinct(#[trigger] state.rosters[j]),
                forall|j: int| 0 <= j < k ==> total(#[trigger] state.rosters[j]) <= state.campaigns[j].raised,
                forall|j: int|
                    0 <= j < k && (#[trigger] state.campaigns[j]).withdrawn ==> !state.campaigns[j].active,
            decreases n - k,
        {
            let c = &campaigns[k];
            let roster = &rosters[k];
            assert(state.rosters[k as int] == roster@);
            if !is_distinct(roster) || !total_within(roster, c.raised) || (c.withdrawn && c.active) {
                return None;
            }
            k = k + 1;
        }
        assert forall|j: int| 0 <= j < rosters@.len() implies distinct(#[trigger] rosters@[j]@) by {
            assert(state.rosters[j] == rosters@[j]@);
        }
        let f = CrowdFunding {
            registry: CampaignRegistry::from_campaigns(campaigns),
            ledger: ContributionLedger::from_rosters(rosters),
        };
        assert(f@ == state);
        Some(f)
    }

    /// The stored form of the ledger: the campaigns by id and the rosters by
    /// campaign id, from which `from_parts` restores it.
    pub fn into_parts(self) -> (r: (Vec<Campaign>, Vec<Vec<Contribution>>))
        requires
            self.wf(),
        ensures
            r.0@ == self@.campaigns,
            r.1@.map_values(|v: Vec<Contribution>| v@) == self@.rosters,
    {
        (self.registry.into_campaigns(), self.ledger.into_rosters())
    }

    /// The ledger's state meets the invariant that the laws take as given.
    pub proof fn lemma_state_wf(&self)
        requires
            self.wf(),
        ensures
            self@.wf(),
    {
    }

    pub fn get_campaign_count(&self) -> (r: u32)
        requires
            self.wf(),
        ensures
            r as nat == self@.count(),
    {
        self.registry.count()
    }

    /// `caller` attaches `value` to campaign `campaign_id` at block `block`.
    ///
    /// On success returns the contribution event and, when the campaign's
    /// raised total now meets its goal, the goal event as well (it comes with
    /// every contribution from then on, not only the one that crossed the goal).
    pub fn contribute(&mut self, caller: AccountId, block: u32, value: Balance, campaign_id: u32)
        -> (r: Result<(ContributionMade, Option<GoalReached>), Error>)
        requires
            old(self).wf(),
            old(self)@.contribute_error(campaign_id, value, block) is None
                ==> old(self)@.campaigns[campaign_id as int].raised + value <= Balance::MAX,
        ensures
            final(self).wf(),
            match r {
                Ok((made, reached)) => {
                    let c = final(self)@.campaigns[campaign_id as int];
                    &&& old(self)@.contribute_error(campaign_id, value, block) is None
                    &&& final(self)@ == old(self)@.contributed(campaign_id, caller, value)
                    &&& made == (ContributionMade {
                        campaign_id,
                        contributor: caller,
                        amount: value,
                        total_raised: c.raised,
                    })
                    &&& reached == (if c.raised >= c.goal {
                        Some(GoalReached { campaign_id, total_raised: c.raised, goal: c.goal })
                    } else {
                        None
                    })
                },
                Err(e) => {
                    &&& old(self)@.contribute_error(campaign_id, value, block) == Some(e)
                    &&& final(self)@ == old(self)@
                },
            },
    {
        if value == 0 {
            return Err(Error::ZeroContribution);
        }
        let (active, deadline, raised, goal) = match self.registry.get(campaign_id) {
            Some(c) => (c.active, c.deadline, c.raised, c.goal),
            None => {
                return Err(Error::CampaignNotFound);
            },
        };
        if !active {
            return Err(Error::CampaignInactive);
        }
        if block >= deadline {
            return Err(Error::CampaignEnded);
        }
        let ghost before = self@;
        proof {
            lemma_amount_within_total(before.rosters[campaign_id as int], caller);
        }
        self.ledger.add_contribution(campaign_id, &caller, value);
        self.registry.add_raised(campaign_id, value);
        proof {
            let k = campaign_id as int;
            lemma_credit(before.rosters[k], caller, value as nat);
            assert(self@ =~= before.contributed(campaign_id, caller, value));
            assert forall|j: int| 0 <= j < self@.campaigns.len() implies total(#[trigger] self@.rosters[j])
                <= self@.campaigns[j].raised by {
                if j != k {
                    assert(self@.rosters[j] == before.rosters[j]);
                }
            }
            assert forall|j: int| 0 <= j < self@.rosters.len() implies distinct(#[trigger] self@.rosters[j]) by {
                if j != k {
                    assert(self@.rosters[j] == before.rosters[j]);
                }
            }
        }
        let raised = raised + value;
        let made = ContributionMade { campaign_id, contributor: caller, amount: value, total_raised: raised };
        if raised >= goal {
            Ok((made, Some(GoalReached { campaign_id, total_raised: raised, goal })))
        } else {
            Ok((made, None))
        }
    }

    /// `caller` opens a campaign at block `block` that takes contributions for
    /// `duration_blocks` blocks. The new campaign's id is the number of
    /// campaigns before the call.
    pub fn create_campaign(
        &mut self,
        caller: AccountId,
        block: u32,
        title: String,
        description: String,
        goal: Balance,
        duration_blocks: u32,
    ) -> (r: Result<CampaignCreated, Error>)
        requires
            old(self).wf(),
            old(self)@.create_error(block, duration_blocks) is None ==> old(self)@.count() < u32::MAX,
        ensures
            final(self).wf(),
            match r {
                Ok(event) => {
                    let deadline = (block + duration_blocks) as u32;
                    &&& old(self)@.create_error(block, duration_blocks) is None
                    &&& event.campaign_id as nat == old(self)@.count()
                    &&& final(self)@.count() == old(self)@.count() + 1
                    &&& final(self)@ == old(self)@.created(
                        Campaign {
                            creator: caller,
                            title,
                            description,
                            goal,
                            deadline,
                            raised: 0,
                            active: true,
                            withdrawn: false,
                        },
                    )
                    &&& event == (CampaignCreated {
                        campaign_id: event.campaign_id,
                        creator: caller,
                        title,
                        goal,
                        deadline,
                    })
                },
                Err(e) => {
                    &&& old(self)@.create_error(block, duration_blocks) == Some(e)
                    &&& final(self)@ == old(self)@
                },
            },
    {
        let deadline = match block.checked_add(duration_blocks) {
            Some(d) => d,
            None => {
                return Err(Error::InvalidDeadline);
            },
        };
        if deadline <= block {
            return Err(Error::InvalidDeadline);
        }
        let ghost before = self@;
        let event_title = title.clone();
        let campaign = Campaign {
            creator: caller,
            title,
            description,
            goal,
            deadline,
            raised: 0,
            active: true,
            withdrawn: false,
        };
        let campaign_id = self.registry.register(campaign);
        self.ledger.open_roster();
        proof {
            assert(self@ =~= before.created(campaign));
            let k = campaign_id as int;
            assert(self@.rosters[k] =~= Seq::<Contribution>::empty());
            assert(total(self@.rosters[k]) == 0);
            assert forall|j: int| 0 <= j < self@.campaigns.len() implies total(#[trigger] self@.rosters[j])
                <= self@.campaigns[j].raised by {
                if j != k {
                    assert(self@.rosters[j] == before.rosters[j]);
                }
            }
        }
        Ok(CampaignCreated { campaign_id, creator: caller, title: event_title, goal, deadline })
    }

    /// The creator of campaign `campaign_id` takes out what it raised.
    ///
    /// On success the campaign is marked withdrawn and inactive, and the
    /// returned event names the transfer of the whole raised amount to the
    /// creator. The mark stands before the transfer is made: a host that
    /// reverts a call's changes when it fails (as contract hosts do) undoes it
    /// when the transfer does not go through.
    pub fn withdraw_funds(&mut self, caller: AccountId, campaign_id: u32) -> (r: Result<FundsWithdrawn, Error>)
        requires
            old(self).wf(),
        ensures
            final(self).wf(),
            match r {
                Ok(event) => {
                    &&& old(self)@.withdraw_error(campaign_id, caller) is None
                    &&& final(self)@ == old(self)@.withdrawn(campaign_id)
                    &&& event == (FundsWithdrawn {
                        campaign_id,
                        creator: caller,
                        amount: old(self)@.campaigns[campaign_id as int].raised,
                    })
                },
                Err(e) => {
                    &&& old(self)@.withdraw_error(campaign_id, caller) == Some(e)
                    &&& final(self)@ == old(self)@
                },
            },
    {
        let (creator, withdrawn, raised, goal) = match self.registry.get(campaign_id) {
            Some(c) => (c.creator, c.withdrawn, c.raised, c.goal),
            None => {
                return Err(Error::CampaignNotFound);
            },
        };
        if !same_account(&creator, &caller) {
            return Err(Error::OnlyCreator);
        }
        if withdrawn {
            return Err(Error::AlreadyWithdrawn);
        }
        if raised < goal {
            return Err(Error::GoalNotReached);
        }
        let ghost before = self@;
        self.registry.pay_out(campaign_id);
        proof {
            assert(self@ =~= before.withdrawn(campaign_id));
            assert forall|j: int| 0 <= j < self@.campaigns.len() implies total(#[trigger] self@.rosters[j])
                <= self@.campaigns[j].raised by {
                assert(self@.campaigns[j].raised == before.campaigns[j].raised);
            }
        }
        Ok(FundsWithdrawn { campaign_id, creator, amount: raised })
    }

    /// `caller` takes back what it put into campaign `campaign_id`, which ended
    /// at or before block `block` without reaching its goal.
    ///
    /// On success the caller's contribution is set to zero and the returned
    /// event names the transfer of the former amount to the caller.
    pub fn request_refund(&mut self, caller: AccountId, block: u32, campaign_id: u32)
        -> (r: Result<RefundIssued, Error>)
        requires
            old(self).wf(),
        ensures
            final(self).wf(),
            match r {
                Ok(event) => {
                    &&& old(self)@.refund_error(campaign_id, caller, block) is None
                    &&& final(self)@ == old(self)@.refunded(campaign_id, caller)
                    &&& event == (RefundIssued {
                        campaign_id,
                        contributor: caller,
                        amount: old(self)@.contribution_of(campaign_id, caller) as Balance,
                    })
                },
                Err(e) => {
                    &&& old(self)@.refund_error(campaign_id, caller, block) == Some(e)
                    &&& final(self)@ == old(self)@
                },
            },
    {
        let (deadline, raised, goal) = match self.registry.get(campaign_id) {
            Some(c) => (c.deadline, c.raised, c.goal),
            None => {
                return Err(Error::CampaignNotFound);
            },
        };
        if block < deadline {
            return Err(Error::RefundNotAvailable);
        }
        if raised >= goal {
            return Err(Error::RefundNotAvailable);
        }
        let contribution = self.ledger.contribution(campaign_id, &caller);
        if contribution == 0 {
            return Err(Error::NoContribution);
        }
        let ghost before = self@;
        let amount = self.ledger.clear_contribution(campaign_id, &caller);
        proof {
            let k = campaign_id as int;
            lemma_clear(before.rosters[k], caller);
            assert(self@ =~= before.refunded(campaign_id, caller));
            assert forall|j: int| 0 <= j < self@.campaigns.len() implies total(#[trigger] self@.rosters[j])
                <= self@.campaigns[j].raised by {
                if j != k {
                    assert(self@.rosters[j] == before.rosters[j]);
                }
            }
            assert forall|j: int| 0 <= j < self@.rosters.len() implies distinct(#[trigger] self@.rosters[j]) by {
                if j != k {
                    assert(self@.rosters[j] == before.rosters[j]);
                }
            }
        }
        Ok(RefundIssued { campaign_id, contributor: caller, amount })
    }

    /// The creator of campaign `campaign_id` stops it from taking contributions.
    pub fn deactivate_campaign(&mut self, caller: AccountId, campaign_id: u32) -> (r: Result<(), Error>)
        requires
            old(self).wf(),
        ensures
            final(self).wf(),
            match r {
                Ok(()) => {
                    &&& old(self)@.deactivate_error(campaign_id, caller) is None
                    &&& final(self)@ == old(self)@.deactivated(campaign_id)
                },
                Err(e) => {
                    &&& old(self)@.deactivate_error(campaign_id, caller) == Some(e)
                    &&& final(self)@ == old(self)@
                },
            },
    {
        let creator = match self.registry.get(campaign_id) {
            Some(c) => c.creator,
            None => {
                return Err(Error::CampaignNotFound);
            },
        };
        if !same_account(&creator, &caller) {
            return Err(Error::OnlyCreator);
        }
        let ghost before = self@;
        self.registry.stop(campaign_id);
        proof {
            assert(self@ =~= before.deactivated(campaign_id));
            assert forall|j: int| 0 <= j < self@.campaigns.len() implies total(#[trigger] self@.rosters[j])
                <= self@.campaigns[j].raised by {
                assert(self@.campaigns[j].raised == before.campaigns[j].raised);
            }
        }
        Ok(())
    }

    /// A copy of campaign `campaign_id`, if there is one.
    pub fn get_campaign(&self, campaign_id: u32) -> (r: Option<Campaign>)
        requires
            self.wf(),
        ensures
            r == (if self@.has(campaign_id) {
                Some(self@.campaigns[campaign_id as int])
            } else {
                None
            }),
    {
        match self.registry.get(campaign_id) {
            Some(c) => Some(
                Campaign {
                    creator: c.creator,
                    title: c.title.clone(),
                    description: c.description.clone(),
                    goal: c.goal,
                    deadline: c.deadline,
                    raised: c.raised,
                    active: c.active,
                    withdrawn: c.withdrawn,
                },
            ),
            None => None,
        }
    }

    /// What `contributor` has put into campaign `campaign_id` and not taken
    /// back; zero when it has nothing there or the campaign is unknown.
    pub fn get_contribution(&self, campaign_id: u32, contributor: AccountId) -> (r: Balance)
        requires
            self.wf(),
        ensures
            r as nat == self@.contribution_of(campaign_id, contributor),
    {
        self.ledger.contribution(campaign_id, &contributor)
    }

    /// The accounts that have contributed to campaign `campaign_id`, each once,
    /// in order of first contribution; empty for an unknown campaign.
    pub fn get_contributors(&self, campaign_id: u32) -> (r: Vec<AccountId>)
        requires
            self.wf(),
        ensures
            r@ == (if self@.has(campaign_id) {
                accounts(self@.rosters[campaign_id as int])
            } else {
                Seq::<AccountId>::empty()
            }),
    {
        self.ledger.roster(campaign_id)
    }

    /// Whether campaign `campaign_id` exists and has raised at least its goal.
    pub fn is_goal_reached(&self, campaign_id: u32) -> (r: bool)
        requires
            self.wf(),
        ensures
            r == self@.goal_reached(campaign_id),
    {
        match self.registry.get(campaign_id) {
            Some(c) => c.raised >= c.goal,
            None => false,
        }
    }

    /// Whether campaign `campaign_id` has reached its deadline at block
    /// `block`; an unknown campaign counts as ended.
    pub fn has_campaign_ended(&self, block: u32, campaign_id: u32) -> (r: bool)
        requires
            self.wf(),
        ensures
            r == self@.ended(campaign_id, block),
    {
        match self.registry.get(campaign_id) {
            Some(c) => block >= c.deadline,
            None => true,
        }
    }
}

} // verus!
