use crowd_funds::{AccountId, Campaign, Contribution, CrowdFunding, Error};

fn account(n: u8) -> AccountId {
    AccountId::new([n; 32])
}

fn campaign(raised: u128, active: bool, withdrawn: bool) -> Campaign {
    Campaign {
        creator: account(1),
        title: String::from("t"),
        description: String::from("d"),
        goal: 100,
        deadline: 10,
        raised,
        active,
        withdrawn,
    }
}

fn entry(n: u8, amount: u128) -> Contribution {
    Contribution { account: account(n), amount }
}

#[test]
fn stored_ledger_round_trips() {
    let mut f = CrowdFunding::new();
    let id = f.create_campaign(account(1), 0, String::from("a"), String::from("b"), 50, 10).unwrap().campaign_id;
    f.contribute(account(2), 1, 20, id).unwrap();
    f.contribute(account(3), 2, 5, id).unwrap();
    let (campaigns, rosters) = f.into_parts();
    assert_eq!(campaigns.len(), 1);
    assert_eq!(rosters, vec![vec![entry(2, 20), entry(3, 5)]]);
    let mut g = CrowdFunding::from_parts(campaigns, rosters).unwrap();
    assert_eq!(g.get_campaign_count(), 1);
    assert_eq!(g.get_contribution(id, account(3)), 5);
    assert_eq!(g.get_campaign(id).unwrap().raised, 25);
    assert_eq!(g.contribute(account(2), 3, 0, id), Err(Error::ZeroContribution));
}

#[test]
fn consistent_parts_are_accepted() {
    let f = CrowdFunding::from_parts(
        vec![campaign(30, true, false), campaign(0, false, true)],
        vec![vec![entry(2, 10), entry(3, 15)], vec![]],
    )
    .unwrap();
    assert_eq!(f.get_campaign_count(), 2);
    assert_eq!(f.get_contributors(0), vec![account(2), account(3)]);
}

#[test]
fn inconsistent_parts_are_refused() {
    // a roster per campaign
    assert!(CrowdFunding::from_parts(vec![campaign(0, true, false)], vec![]).is_none());
    // an account listed twice
    assert!(CrowdFunding::from_parts(vec![campaign(30, true, false)], vec![vec![entry(2, 10), entry(2, 10)]]).is_none());
    // contributions beyond what was raised
    assert!(CrowdFunding::from_parts(vec![campaign(24, true, false)], vec![vec![entry(2, 10), entry(3, 15)]]).is_none());
    // contributions whose sum does not fit the amount type
    assert!(CrowdFunding::from_parts(
        vec![campaign(u128::MAX, true, false)],
        vec![vec![entry(2, u128::MAX), entry(3, 1)]],
    )
    .is_none());
    // withdrawn yet still active
    assert!(CrowdFunding::from_parts(vec![campaign(0, true, true)], vec![vec![]]).is_none());
}
