use vstd::prelude::*;

use crate::types::{Balance, Campaign};

verus! {

/// The campaign after `value` more has been raised.
pub open spec fn raised_by(c: Campaign, value: nat) -> Campaign {
    Campaign { raised: (c.raised + value) as Balance, ..c }
}

/// The campaign after it stopped taking contributions.
pub open spec fn stopped(c: Campaign) -> Campaign {
    Campaign { active: false, ..c }
}

/// The campaign after its funds were paid out to the creator.
pub open spec fn paid_out(c: Campaign) -> Campaign {
    Campaign { active: false, withdrawn: true, ..c }
}

/// The campaigns, each at the index equal to its id, and the counter that
/// hands out the next id.
pub struct CampaignRegistry {
    campaign_counter: u32,
    campaigns: Vec<Campaign>,
}

impl View for CampaignRegistry {
    type V = Seq<Campaign>;

    closed spec fn view(&self) -> Seq<Campaign> {
        self.campaigns@
    }
}

impl CampaignRegistry {
    /// The counter equals the number of campaigns: ids are handed out in
    /// sequence from zero and never reused.
    pub closed spec fn wf(&self) -> bool {
        self.campaign_counter as nat == self.campaigns@.len()
    }

    pub fn new() -> (r: CampaignRegistry)
        ensures
            r.wf(),
            r@ == Seq::<Campaign>::empty(),
    {
        CampaignRegistry { campaign_counter: 0, campaigns: Vec::new() }
    }

    /// A registry holding the given campaigns, each under its index as id.
    pub fn from_campaigns(campaigns: Vec<Campaign>) -> (r: CampaignRegistry)
        requires
            campaigns@.len() <= u32::MAX,
        ensures
            r.wf(),
            r@ == campaigns@,
    {
        CampaignRegistry { campaign_counter: campaigns.len() as u32, campaigns }
    }

    /// The campaigns, by id.
    pub fn into_campaigns(self) -> (r: Vec<Campaign>)
        ensures
            r@ == self@,
    {
        self.campaigns
    }

    /// The number of campaigns, which is also the next id.
    pub fn count(&self) -> (r: u32)
        requires
            self.wf(),
        ensures
            r as nat == self@.len(),
    {
        self.campaign_counter
    }

    /// The campaign with this id, if there is one.
    pub fn get(&self, id: u32) -> (r: Option<&Campaign>)
        ensures
            match r {
                Some(c) => id < self@.len() && *c == self@[id as int],
                None => id >= self@.len(),
            },
    {
        if (id as usize) < self.campaigns.len() {
            Some(&self.campaigns[id as usize])
        } else {
            None
        }
    }

    /// Stores a new campaign under the next id, which it returns.
    pub fn register(&mut self, campaign: Campaign) -> (r: u32)
        requires
            old(self).wf(),
            old(self)@.len() < u32::MAX,
        ensures
            final(self).wf(),
            r as nat == old(self)@.len(),
            final(self)@ == old(self)@.push(campaign),
    {
        let id = self.campaign_counter;
        self.campaign_counter = id + 1;
        self.campaigns.push(campaign);
        id
    }

    /// Adds `value` to what campaign `id` has raised.
    pub fn add_raised(&mut self, id: u32, value: Balance)
        requires
            old(self).wf(),
            id < old(self)@.len(),
            old(self)@[id as int].raised + value <= Balance::MAX,
        ensures
            final(self).wf(),
            final(self)@ == old(self)@.update(id as int, raised_by(old(self)@[id as int], value as nat)),
    {
        let k = id as usize;
        let raised = self.campaigns[k].raised + value;
        self.campaigns[k].raised = raised;
        assert(self@ =~= old(self)@.update(id as int, raised_by(old(self)@[id as int], value as nat)));
    }

    /// Marks campaign `id` as no longer taking contributions.
    pub fn stop(&mut self, id: u32)
        requires
            old(self).wf(),
            id < old(self)@.len(),
        ensures
            final(self).wf(),
            final(self)@ == old(self)@.update(id as int, stopped(old(self)@[id as int])),
    {
        self.campaigns[id as usize].active = false;
        assert(self@ =~= old(self)@.update(id as int, stopped(old(self)@[id as int])));
    }

    /// Marks campaign `id` as paid out, which also stops it.
    pub fn pay_out(&mut self, id: u32)
        requires
            old(self).wf(),
            id < old(self)@.len(),
        ensures
            final(self).wf(),
            final(self)@ == old(self)@.update(id as int, paid_out(old(self)@[id as int])),
    {
        let k = id as usize;
        self.campaigns[k].withdrawn = true;
        self.campaigns[k].active = false;
        assert(self@ =~= old(self)@.update(id as int, paid_out(old(self)@[id as int])));
    }
}

} // verus!
