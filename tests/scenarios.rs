use crowd_funds::{settle_transfer, AccountId, CrowdFunding, Error};

fn account(n: u8) -> AccountId {
    AccountId::new([n; 32])
}

fn open(f: &mut CrowdFunding, creator: AccountId, block: u32, goal: u128, duration: u32) -> u32 {
    f.create_campaign(creator, block, String::from("Roof"), String::from("New roof for the hall"), goal, duration)
        .unwrap()
        .campaign_id
}

#[test]
fn goal_met_then_creator_withdraws() {
    let (creator, a, b) = (account(1), account(2), account(3));
    let mut f = CrowdFunding::new();
    let created = f
        .create_campaign(creator, 0, String::from("Roof"), String::from("d"), 1000, 10)
        .unwrap();
    let id = created.campaign_id;
    assert_eq!(created.deadline, 10);
    assert_eq!(created.goal, 1000);
    assert_eq!(created.title, "Roof");
    assert_eq!(created.creator, creator);

    let (made, reached) = f.contribute(a, 1, 400, id).unwrap();
    assert_eq!(made.total_raised, 400);
    assert_eq!(made.amount, 400);
    assert_eq!(made.contributor, a);
    assert!(reached.is_none());
    assert_eq!(f.get_campaign(id).unwrap().raised, 400);
    assert!(!f.is_goal_reached(id));

    let (made, reached) = f.contribute(b, 2, 700, id).unwrap();
    assert_eq!(made.total_raised, 1100);
    let reached = reached.unwrap();
    assert_eq!(reached.total_raised, 1100);
    assert_eq!(reached.goal, 1000);
    assert_eq!(reached.campaign_id, id);
    assert!(f.is_goal_reached(id));

    let payout = f.withdraw_funds(creator, id).unwrap();
    assert_eq!(payout.amount, 1100);
    assert_eq!(payout.creator, creator);
    assert_eq!(settle_transfer(payout, true), Ok(payout));
    assert!(f.has_campaign_ended(10, id));
    let c = f.get_campaign(id).unwrap();
    assert!(c.withdrawn);
    assert!(!c.active);
}

#[test]
fn goal_missed_then_contributor_is_refunded() {
    let (creator, a) = (account(1), account(2));
    let mut f = CrowdFunding::new();
    let id = open(&mut f, creator, 0, 1000, 5);
    f.contribute(a, 1, 200, id).unwrap();
    let refund = f.request_refund(a, 6, id).unwrap();
    assert_eq!(refund.amount, 200);
    assert_eq!(refund.contributor, a);
    assert_eq!(refund.campaign_id, id);
    assert_eq!(settle_transfer(refund, true), Ok(refund));
    assert_eq!(f.get_contribution(id, a), 0);
    assert_eq!(f.request_refund(a, 6, id), Err(Error::NoContribution));
}

#[test]
fn only_creator_may_withdraw_or_deactivate() {
    let (creator, other) = (account(1), account(2));
    let mut f = CrowdFunding::new();
    let id = open(&mut f, creator, 0, 0, 5);
    assert_eq!(f.withdraw_funds(other, id), Err(Error::OnlyCreator));
    assert_eq!(f.deactivate_campaign(other, id), Err(Error::OnlyCreator));
    assert!(f.get_campaign(id).unwrap().active);
}

#[test]
fn ids_follow_the_campaign_count() {
    let mut f = CrowdFunding::new();
    for expected in 0..3u32 {
        assert_eq!(f.get_campaign_count(), expected);
        let id = open(&mut f, account(1), 7, 10, 3);
        assert_eq!(id, expected);
        assert_eq!(f.get_campaign_count(), expected + 1);
    }
}

#[test]
fn zero_duration_is_refused() {
    let mut f = CrowdFunding::new();
    for block in [0u32, 1, 500, u32::MAX] {
        let r = f.create_campaign(account(1), block, String::new(), String::new(), 10, 0);
        assert_eq!(r, Err(Error::InvalidDeadline));
    }
    assert_eq!(f.get_campaign_count(), 0);
}

#[test]
fn deadline_past_the_last_block_is_refused() {
    let mut f = CrowdFunding::new();
    let r = f.create_campaign(account(1), 10, String::new(), String::new(), 10, u32::MAX - 9);
    assert_eq!(r, Err(Error::InvalidDeadline));
    let r = f.create_campaign(account(1), 10, String::new(), String::new(), 10, u32::MAX - 10);
    assert_eq!(r.unwrap().deadline, u32::MAX);
}

#[test]
fn contributions_add_up_to_raised() {
    let mut f = CrowdFunding::new();
    let id = open(&mut f, account(9), 0, 10_000, 100);
    let gifts = [(1u8, 5u128), (2, 17), (1, 3), (3, 40), (2, 1)];
    for (i, (who, amount)) in gifts.iter().enumerate() {
        f.contribute(account(*who), i as u32, *amount, id).unwrap();
    }
    let sum: u128 = f.get_contributors(id).iter().map(|a| f.get_contribution(id, *a)).sum();
    assert_eq!(sum, 66);
    assert_eq!(f.get_campaign(id).unwrap().raised, 66);
    assert_eq!(f.get_contribution(id, account(1)), 8);
    assert_eq!(f.get_contribution(id, account(2)), 18);
}

#[test]
fn roster_keeps_first_contribution_order_once_each() {
    let mut f = CrowdFunding::new();
    let id = open(&mut f, account(9), 0, 100, 100);
    for who in [3u8, 1, 3, 2, 1] {
        f.contribute(account(who), 1, 1, id).unwrap();
    }
    assert_eq!(f.get_contributors(id), vec![account(3), account(1), account(2)]);
    assert!(f.get_contributors(42).is_empty());
}

#[test]
fn contribution_refusals() {
    let mut f = CrowdFunding::new();
    let id = open(&mut f, account(1), 0, 100, 5);
    assert_eq!(f.contribute(account(2), 1, 0, id), Err(Error::ZeroContribution));
    assert_eq!(f.contribute(account(2), 1, 0, 99), Err(Error::ZeroContribution));
    assert_eq!(f.contribute(account(2), 1, 10, 99), Err(Error::CampaignNotFound));
    assert_eq!(f.contribute(account(2), 5, 10, id), Err(Error::CampaignEnded));
    assert_eq!(f.contribute(account(2), 6, 10, id), Err(Error::CampaignEnded));
    assert_eq!(f.get_campaign(id).unwrap().raised, 0);
    f.deactivate_campaign(account(1), id).unwrap();
    assert_eq!(f.contribute(account(2), 1, 10, id), Err(Error::CampaignInactive));
    assert_eq!(f.contribute(account(2), 1, 0, id), Err(Error::ZeroContribution));
}

#[test]
fn second_withdrawal_is_refused() {
    let mut f = CrowdFunding::new();
    let id = open(&mut f, account(1), 0, 50, 5);
    f.contribute(account(2), 1, 50, id).unwrap();
    assert_eq!(f.withdraw_funds(account(1), id).unwrap().amount, 50);
    assert_eq!(f.withdraw_funds(account(1), id), Err(Error::AlreadyWithdrawn));
    assert_eq!(f.withdraw_funds(account(1), id), Err(Error::AlreadyWithdrawn));
}

#[test]
fn withdrawal_needs_the_goal() {
    let mut f = CrowdFunding::new();
    let id = open(&mut f, account(1), 0, 50, 5);
    f.contribute(account(2), 1, 49, id).unwrap();
    assert_eq!(f.withdraw_funds(account(1), id), Err(Error::GoalNotReached));
    assert_eq!(f.withdraw_funds(account(1), 7), Err(Error::CampaignNotFound));
    assert!(!f.get_campaign(id).unwrap().withdrawn);
}

#[test]
fn no_refund_once_goal_met() {
    let mut f = CrowdFunding::new();
    let id = open(&mut f, account(1), 0, 100, 5);
    f.contribute(account(2), 1, 100, id).unwrap();
    for block in [1u32, 5, 6, 1000] {
        assert_eq!(f.request_refund(account(2), block, id), Err(Error::RefundNotAvailable));
    }
    assert_eq!(f.get_contribution(id, account(2)), 100);
}

#[test]
fn refund_refusals() {
    let mut f = CrowdFunding::new();
    let id = open(&mut f, account(1), 0, 100, 5);
    f.contribute(account(2), 1, 10, id).unwrap();
    assert_eq!(f.request_refund(account(2), 4, id), Err(Error::RefundNotAvailable));
    assert_eq!(f.request_refund(account(3), 5, id), Err(Error::NoContribution));
    assert_eq!(f.request_refund(account(2), 5, 8), Err(Error::CampaignNotFound));
    assert_eq!(f.request_refund(account(2), 5, id).unwrap().amount, 10);
    assert_eq!(f.get_contributors(id), vec![account(2)]);
    assert_eq!(f.get_campaign(id).unwrap().raised, 10);
}

#[test]
fn goal_event_comes_with_every_later_contribution() {
    let mut f = CrowdFunding::new();
    let id = open(&mut f, account(1), 0, 10, 5);
    assert!(f.contribute(account(2), 1, 10, id).unwrap().1.is_some());
    let (_, again) = f.contribute(account(3), 2, 1, id).unwrap();
    assert_eq!(again.unwrap().total_raised, 11);
}

#[test]
fn zero_goal_campaign() {
    let mut f = CrowdFunding::new();
    let id = open(&mut f, account(1), 3, 0, 2);
    assert!(f.is_goal_reached(id));
    assert_eq!(f.withdraw_funds(account(1), id).unwrap().amount, 0);
}

#[test]
fn deactivation_keeps_the_rest() {
    let mut f = CrowdFunding::new();
    let id = open(&mut f, account(1), 0, 100, 5);
    f.contribute(account(2), 1, 30, id).unwrap();
    assert_eq!(f.deactivate_campaign(account(1), id), Ok(()));
    let c = f.get_campaign(id).unwrap();
    assert!(!c.active);
    assert!(!c.withdrawn);
    assert_eq!(c.raised, 30);
    assert_eq!(f.get_contribution(id, account(2)), 30);
    assert_eq!(f.deactivate_campaign(account(1), 5), Err(Error::CampaignNotFound));
}

#[test]
fn queries_on_unknown_campaign() {
    let f = CrowdFunding::new();
    assert!(f.get_campaign(0).is_none());
    assert_eq!(f.get_contribution(0, account(1)), 0);
    assert!(!f.is_goal_reached(0));
    assert!(f.has_campaign_ended(0, 0));
    assert_eq!(f.get_campaign_count(), 0);
}

#[test]
fn campaign_record_holds_what_was_given() {
    let mut f = CrowdFunding::new();
    let id = open(&mut f, account(4), 20, 500, 30);
    let c = f.get_campaign(id).unwrap();
    assert_eq!(c.creator, account(4));
    assert_eq!(c.title, "Roof");
    assert_eq!(c.description, "New roof for the hall");
    assert_eq!(c.goal, 500);
    assert_eq!(c.deadline, 50);
    assert_eq!(c.raised, 0);
    assert!(c.active);
    assert!(!f.has_campaign_ended(49, id));
    assert!(f.has_campaign_ended(50, id));
}

#[test]
fn failed_transfer_is_reported() {
    let mut f = CrowdFunding::new();
    let id = open(&mut f, account(1), 0, 5, 5);
    f.contribute(account(2), 1, 5, id).unwrap();
    let payout = f.withdraw_funds(account(1), id).unwrap();
    assert_eq!(settle_transfer(payout, false), Err(Error::TransferFailed));
}

#[test]
fn accounts_compare_by_bytes() {
    let mut bytes = [7u8; 32];
    assert!(crowd_funds::same_account(&AccountId::new(bytes), &AccountId::new(bytes)));
    bytes[31] = 8;
    assert!(!crowd_funds::same_account(&AccountId::new([7u8; 32]), &AccountId::new(bytes)));
}
