use vstd::prelude::*;

use crate::types::{AccountId, Balance, same_account};

verus! {

/// What one account has put into one campaign.
#[derive(Clone, Copy, Debug, PartialEq, Eq)]
pub struct Contribution {
    pub account: AccountId,
    pub amount: Balance,
}

/// Whether `who` has an entry in the roster.
pub open spec fn listed(roster: Seq<Contribution>, who: AccountId) -> bool {
    exists|i: int| 0 <= i < roster.len() && roster[i].account == who
}

/// The position of `who` in a roster that lists it.
pub open spec fn slot(roster: Seq<Contribution>, who: AccountId) -> int {
    choose|i: int| 0 <= i < roster.len() && roster[i].account == who
}

/// No account appears twice.
pub open spec fn distinct(roster: Seq<Contribution>) -> bool {
    forall|i: int, j: int|
        0 <= i < roster.len() && 0 <= j < roster.len() && roster[i].account == roster[j].account
            ==> i == j
}

/// The amount recorded for `who`, zero when it has no entry.
pub open spec fn amount_of(roster: Seq<Contribution>, who: AccountId) -> nat {
    if listed(roster, who) {
        roster[slot(roster, who)].amount as nat
    } else {
        0
    }
}

/// The sum of all recorded amounts.
pub open spec fn total(roster: Seq<Contribution>) -> nat
    decreases roster.len(),
{
    if roster.len() == 0 {
        0
    } else {
        (total(roster.drop_last()) + roster.last().amount) as nat
    }
}

/// The accounts of a roster, in the order in which they first contributed.
pub open spec fn accounts(roster: Seq<Contribution>) -> Seq<AccountId> {
    roster.map_values(|c: Contribution| c.account)
}

/// The sum of the amounts recorded for each of `whos`.
pub open spec fn sum_amounts(roster: Seq<Contribution>, whos: Seq<AccountId>) -> nat
    decreases whos.len(),
{
    if whos.len() == 0 {
        0
    } else {
        sum_amounts(roster, whos.drop_last()) + amount_of(roster, whos.last())
    }
}

/// In a roster without repeats, summing the amount of each of the first `n`
/// listed accounts gives the total of the first `n` entries.
proof fn lemma_sum_over_prefix(roster: Seq<Contribution>, n: int)
    requires
        distinct(roster),
        0 <= n <= roster.len(),
    ensures
        sum_amounts(roster, accounts(roster).take(n)) == total(roster.take(n)),
    decreases n,
{
    if n > 0 {
        lemma_sum_over_prefix(roster, n - 1);
        assert(accounts(roster).take(n).drop_last() =~= accounts(roster).take(n - 1));
        assert(roster.take(n).drop_last() =~= roster.take(n - 1));
        let who = roster[n - 1].account;
        assert(listed(roster, who));
        assert(slot(roster, who) == n - 1);
    }
}

/// In a roster without repeats, summing the amount of each listed account
/// gives the total of the entries.
pub proof fn lemma_sum_over_accounts(roster: Seq<Contribution>)
    requires
        distinct(roster),
    ensures
        sum_amounts(roster, accounts(roster)) == total(roster),
{
    lemma_sum_over_prefix(roster, roster.len() as int);
    assert(accounts(roster).take(roster.len() as int) =~= accounts(roster));
    assert(roster.take(roster.len() as int) =~= roster);
}

/// The roster after `who` has added `value`: its entry grows, or a new entry
/// is appended on its first contribution.
pub open spec fn credited(roster: Seq<Contribution>, who: AccountId, value: nat) -> Seq<Contribution> {
    if listed(roster, who) {
        let i = slot(roster, who);
        roster.update(i, Contribution { account: who, amount: (roster[i].amount + value) as Balance })
    } else {
        roster.push(Contribution { account: who, amount: value as Balance })
    }
}

/// The roster after the entry of `who` has been set to zero.
pub open spec fn cleared(roster: Seq<Contribution>, who: AccountId) -> Seq<Contribution> {
    if listed(roster, who) {
        roster.update(slot(roster, who), Contribution { account: who, amount: 0 })
    } else {
        roster
    }
}

/// Replacing one entry changes the total by the difference of the amounts.
pub proof fn lemma_total_update(roster: Seq<Contribution>, i: int, c: Contribution)
    requires
        0 <= i < roster.len(),
    ensures
        total(roster.update(i, c)) == total(roster) - roster[i].amount + c.amount,
    decreases roster.len(),
{
    let u = roster.update(i, c);
    if i == roster.len() - 1 {
        assert(u.drop_last() =~= roster.drop_last());
    } else {
        assert(u.drop_last() =~= roster.drop_last().update(i, c));
        lemma_total_update(roster.drop_last(), i, c);
    }
}

/// No single entry exceeds the total.
pub proof fn lemma_entry_within_total(roster: Seq<Contribution>, i: int)
    requires
        0 <= i < roster.len(),
    ensures
        roster[i].amount <= total(roster),
{
    lemma_total_update(roster, i, Contribution { account: roster[i].account, amount: 0 });
}

/// The amount recorded for an account is part of the total.
pub proof fn lemma_amount_within_total(roster: Seq<Contribution>, who: AccountId)
    ensures
        amount_of(roster, who) <= total(roster),
{
    if listed(roster, who) {
        lemma_entry_within_total(roster, slot(roster, who));
    }
}

/// Crediting an account raises the total by exactly the credited value, and
/// keeps the roster free of repeats.
pub proof fn lemma_credit(roster: Seq<Contribution>, who: AccountId, value: nat)
    requires
        distinct(roster),
        amount_of(roster, who) + value <= Balance::MAX,
    ensures
        total(credited(roster, who, value)) == total(roster) + value,
        distinct(credited(roster, who, value)),
        amount_of(credited(roster, who, value), who) == amount_of(roster, who) + value,
{
    let r2 = credited(roster, who, value);
    if listed(roster, who) {
        let i = slot(roster, who);
        lemma_entry_within_total(roster, i);
        lemma_total_update(roster, i, Contribution { account: who, amount: (roster[i].amount + value) as Balance });
        assert(r2[i].account == who);
        assert(listed(r2, who));
        assert(slot(r2, who) == i);
    } else {
        assert(r2.drop_last() =~= roster);
        let last = r2.len() - 1;
        assert(r2[last].account == who);
        assert(listed(r2, who));
        assert(slot(r2, who) == last);
    }
}

/// Clearing an account's entry lowers the total by what it held.
pub proof fn lemma_clear(roster: Seq<Contribution>, who: AccountId)
    requires
        distinct(roster),
    ensures
        total(cleared(roster, who)) == total(roster) - amount_of(roster, who),
        distinct(cleared(roster, who)),
        amount_of(cleared(roster, who), who) == 0,
{
    if listed(roster, who) {
        let i = slot(roster, who);
        lemma_entry_within_total(roster, i);
        lemma_total_update(roster, i, Contribution { account: who, amount: 0 });
        let r2 = cleared(roster, who);
        assert(r2[i].account == who);
        assert(listed(r2, who));
        assert(slot(r2, who) == i);
    }
}

/// Finds the entry of `who`.
fn position(roster: &Vec<Contribution>, who: &AccountId) -> (r: Option<usize>)
    ensures
        match r {
            Some(i) => i < roster@.len() && roster@[i as int].account == *who,
            None => !listed(roster@, *who),
        },
{
    let mut i: usize = 0;
    while i < roster.len()
        invariant
            0 <= i <= roster@.len(),
            forall|k: int| 0 <= k < i ==> roster@[k].account != *who,
        decreases roster@.len() - i,
    {
        if same_account(&roster[i].account, who) {
            return Some(i);
        }
        i = i + 1;
    }
    None
}

/// Whether no account appears twice in the roster.
pub fn is_distinct(roster: &Vec<Contribution>) -> (r: bool)
    ensures
        r == distinct(roster@),
{
    let n = roster.len();
    let mut i: usize = 0;
    while i < n
        invariant
            n == roster@.len(),
            0 <= i <= n,
            forall|a: int, b: int|
                0 <= a < i && 0 <= b < n && a != b ==> roster@[a].account != roster@[b].account,
        decreases n - i,
    {
        let mut j: usize = 0;
        while j < n
            invariant
                n == roster@.len(),
                0 <= i < n,
                0 <= j <= n,
                forall|a: int, b: int|
                    0 <= a < i && 0 <= b < n && a != b ==> roster@[a].account != roster@[b].account,
                forall|b: int| 0 <= b < j && b != i ==> roster@[i as int].account != roster@[b].account,
            decreases n - j,
        {
            if j != i && same_account(&roster[i].account, &roster[j].account) {
                return false;
            }
            j = j + 1;
        }
        i = i + 1;
    }
    true
}

/// Whether the amounts of the roster add up to at most `bound`.
pub fn total_within(roster: &Vec<Contribution>, bound: Balance) -> (r: bool)
    ensures
        r == (total(roster@) <= bound),
{
    let mut sum: Balance = 0;
    let mut i: usize = 0;
    while i < roster.len()
        invariant
            0 <= i <= roster@.len(),
            sum == total(roster@.take(i as int)),
            sum <= bound,
        decreases roster@.len() - i,
    {
        assert(roster@.take(i + 1).drop_last() =~= roster@.take(i as int));
        let amount = roster[i].amount;
        if amount > bound - sum {
            proof {
                lemma_prefix_total_within(roster@, i + 1);
            }
            return false;
        }
        sum = sum + amount;
        i = i + 1;
    }
    assert(roster@.take(i as int) =~= roster@);
    true
}

/// A prefix of a roster adds up to no more than the whole.
pub proof fn lemma_prefix_total_within(roster: Seq<Contribution>, n: int)
    requires
        0 <= n <= roster.len(),
    ensures
        total(roster.take(n)) <= total(roster),
    decreases roster.len() - n,
{
    if n < roster.len() {
        lemma_prefix_total_within(roster, n + 1);
        assert(roster.take(n + 1).drop_last() =~= roster.take(n));
    } else {
        assert(roster.take(n) =~= roster);
    }
}

/// Per campaign, the amounts that each account has contributed, kept in the
/// order of first contribution.
pub struct ContributionLedger {
    rosters: Vec<Vec<Contribution>>,
}

impl View for ContributionLedger {
    type V = Seq<Seq<Contribution>>;

    closed spec fn view(&self) -> Seq<Seq<Contribution>> {
        self.rosters@.map_values(|r: Vec<Contribution>| r@)
    }
}

impl ContributionLedger {
    /// Every roster lists each account at most once.
    pub open spec fn wf(&self) -> bool {
        forall|k: int| 0 <= k < self@.len() ==> distinct(#[trigger] self@[k])
    }

    pub fn new() -> (r: ContributionLedger)
        ensures
            r@ == Seq::<Seq<Contribution>>::empty(),
            r.wf(),
    {
        let r = ContributionLedger { rosters: Vec::new() };
        assert(r@ =~= Seq::<Seq<Contribution>>::empty());
        r
    }

    /// A ledger holding the given rosters, each of which lists every account
    /// at most once.
    pub fn from_rosters(rosters: Vec<Vec<Contribution>>) -> (r: ContributionLedger)
        requires
            forall|k: int| 0 <= k < rosters@.len() ==> distinct(#[trigger] rosters@[k]@),
        ensures
            r.wf(),
            r@ == rosters@.map_values(|v: Vec<Contribution>| v@),
    {
        ContributionLedger { rosters }
    }

    /// The rosters, by campaign id.
    pub fn into_rosters(self) -> (r: Vec<Vec<Contribution>>)
        ensures
            r@.map_values(|v: Vec<Contribution>| v@) == self@,
    {
        self.rosters
    }

    /// Starts an empty roster for the next campaign.
    pub fn open_roster(&mut self)
        requires
            old(self).wf(),
        ensures
            final(self).wf(),
            final(self)@ == old(self)@.push(Seq::<Contribution>::empty()),
    {
        self.rosters.push(Vec::new());
        assert(self@ =~= old(self)@.push(Seq::<Contribution>::empty()));
    }

    /// The amount `who` has contributed to campaign `id`; zero if none.
    pub fn contribution(&self, id: u32, who: &AccountId) -> (r: Balance)
        requires
            self.wf(),
        ensures
            r == (if id < self@.len() { amount_of(self@[id as int], *who) } else { 0 }),
    {
        if (id as usize) < self.rosters.len() {
            let roster = &self.rosters[id as usize];
            match position(roster, who) {
                Some(i) => {
                    proof {
                        assert(self@[id as int] == roster@);
                        assert(distinct(roster@));
                        assert(listed(roster@, *who));
                    }
                    roster[i].amount
                },
                None => 0,
            }
        } else {
            0
        }
    }

    /// Adds `value` to what `who` has put into campaign `id`, appending `who`
    /// to the roster on its first contribution.
    pub fn add_contribution(&mut self, id: u32, who: &AccountId, value: Balance)
        requires
            old(self).wf(),
            id < old(self)@.len(),
            amount_of(old(self)@[id as int], *who) + value <= Balance::MAX,
        ensures
            final(self).wf(),
            final(self)@ == old(self)@.update(id as int, credited(old(self)@[id as int], *who, value as nat)),
    {
        let k = id as usize;
        assert(self.rosters@[k as int]@ == self@[id as int]);
        assert(distinct(self@[id as int]));
        match position(&self.rosters[k], who) {
            Some(i) => {
                let amount = self.rosters[k][i].amount + value;
                self.rosters[k][i].amount = amount;
            },
            None => {
                self.rosters[k].push(Contribution { account: *who, amount: value });
            },
        }
        proof {
            let credit = credited(old(self)@[id as int], *who, value as nat);
            assert(self@[id as int] =~= credit);
            assert(self@ =~= old(self)@.update(id as int, credit));
            assert forall|j: int| 0 <= j < self@.len() implies distinct(#[trigger] self@[j]) by {
                if j == id as int {
                    lemma_credit(old(self)@[id as int], *who, value as nat);
                }
            }
        }
    }

    /// Sets what `who` has put into campaign `id` to zero and returns what it was.
    pub fn clear_contribution(&mut self, id: u32, who: &AccountId) -> (r: Balance)
        requires
            old(self).wf(),
            id < old(self)@.len(),
        ensures
            final(self).wf(),
            r == amount_of(old(self)@[id as int], *who),
            final(self)@ == old(self)@.update(id as int, cleared(old(self)@[id as int], *who)),
    {
        let k = id as usize;
        assert(self.rosters@[k as int]@ == self@[id as int]);
        assert(distinct(self@[id as int]));
        let r = match position(&self.rosters[k], who) {
            Some(i) => {
                let amount = self.rosters[k][i].amount;
                self.rosters[k][i].amount = 0;
                amount
            },
            None => 0,
        };
        proof {
            let c = cleared(old(self)@[id as int], *who);
            assert(self@[id as int] =~= c);
            assert(self@ =~= old(self)@.update(id as int, c));
            assert forall|j: int| 0 <= j < self@.len() implies distinct(#[trigger] self@[j]) by {
                if j == id as int {
                    lemma_clear(old(self)@[id as int], *who);
                }
            }
        }
        r
    }

    /// The accounts that have contributed to campaign `id`, in order of first
    /// contribution; empty for an unknown id.
    pub fn roster(&self, id: u32) -> (r: Vec<AccountId>)
        ensures
            r@ == (if id < self@.len() { accounts(self@[id as int]) } else { Seq::<AccountId>::empty() }),
    {
        let mut out: Vec<AccountId> = Vec::new();
        if (id as usize) < self.rosters.len() {
            let roster = &self.rosters[id as usize];
            assert(roster@ == self@[id as int]);
            let mut i: usize = 0;
            while i < roster.len()
                invariant
                    0 <= i <= roster@.len(),
                    out@ =~= accounts(roster@).take(i as int),
                decreases roster@.len() - i,
            {
                out.push(roster[i].account);
                i = i + 1;
            }
            assert(accounts(roster@).take(i as int) =~= accounts(roster@));
        }
        out
    }
}

} // verus!
