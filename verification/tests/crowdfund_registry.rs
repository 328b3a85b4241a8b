use boundless::core_escrow::CoreEscrow;
use boundless::crowdfund_registry::{
    CampaignStatus, CrowdfundMilestoneStatus, CrowdfundRegistry, DisputeResolution, Error,
};
use boundless::env::Env;
use boundless::governance_voting::GovernanceVoting;
use boundless::reputation_registry::ReputationRegistry;
use boundless::types::Address;

const ESCROW: u64 = 1;
const REP: u64 = 2;
const GOV: u64 = 3;
const CF: u64 = 4;
const ADMIN: u64 = 5;
const TREASURY: u64 = 6;
const TOKEN: u64 = 7;
const OWNER: u64 = 20;
const DONOR1: u64 = 21;
const DONOR2: u64 = 22;

fn a(id: u64) -> Address {
    Address::new(id)
}

/// The balance of `who` in `token`: what was minted to it plus what the
/// recorded transfers moved in, less what they moved out.
fn balance(env: &Env, minted: &[(u64, i128)], who: u64) -> i128 {
    let mut b: i128 = minted.iter().filter(|(x, _)| *x == who).map(|(_, v)| *v).sum();
    for t in env.transfers.iter() {
        if t.asset.id == TOKEN {
            if t.to.id == who {
                b += t.amount;
            }
            if t.from.id == who {
                b -= t.amount;
            }
        }
    }
    b
}

const MINTED: [(u64, i128); 3] = [(ADMIN, 100_000), (DONOR1, 10_000), (DONOR2, 10_000)];

struct T {
    env: Env,
    escrow: CoreEscrow,
    rep: ReputationRegistry,
    gov: GovernanceVoting,
    cf: CrowdfundRegistry,
}

fn setup() -> T {
    let mut env = Env::new(1_000);
    let mut escrow = CoreEscrow::new(a(ESCROW));
    escrow.init(a(ADMIN), a(TREASURY)).unwrap();
    let mut rep = ReputationRegistry::new(a(REP));
    rep.init(a(ADMIN)).unwrap();
    let mut gov = GovernanceVoting::new(a(GOV));
    gov.init(a(ADMIN)).unwrap();
    let mut cf = CrowdfundRegistry::new(a(CF));
    cf.init(a(ADMIN), a(ESCROW), a(REP), a(GOV)).unwrap();
    escrow.authorize_module(a(CF)).unwrap();
    rep.add_authorized_module(&mut env, a(CF)).unwrap();
    gov.add_authorized_module(a(CF)).unwrap();
    T { env, escrow, rep, gov, cf }
}

/// Two equal-weight milestones (50% / 50%).
fn make_milestones() -> Vec<(String, u32)> {
    vec![(String::from("first half"), 5000u32), (String::from("second half"), 5000u32)]
}

fn create(t: &mut T, owner: u64, goal: i128, deadline: u64, submit: bool) -> u64 {
    t.cf
        .create_campaign(
            &mut t.env,
            &mut t.escrow,
            a(owner),
            String::from("QmCampaign"),
            goal,
            a(TOKEN),
            deadline,
            make_milestones(),
            100,
            submit,
        )
        .unwrap()
}

/// Advance a campaign from Submitted through a vote to Campaigning.
fn advance_to_campaigning(t: &mut T, cid: u64) {
    t.cf.approve_campaign(&mut t.env, &mut t.gov, cid, 1000, 1).unwrap();
    t.cf.vote_campaign(&mut t.env, &mut t.gov, a(90), cid, 0).unwrap();
    t.cf.check_vote_threshold(&mut t.env, &t.gov, cid).unwrap();
}

#[test]
fn test_create_campaign() {
    let mut t = setup();
    let deadline = t.env.timestamp + 86400;
    let cid = create(&mut t, ADMIN, 10000, deadline, true);
    assert_eq!(cid, 1);
    let campaign = t.cf.get_campaign(1).unwrap();
    assert_eq!(campaign.status, CampaignStatus::Submitted);
    assert_eq!(campaign.funding_goal, 10000);
    assert_eq!(campaign.milestone_count, 2);
}

#[test]
fn test_governance_flow() {
    let mut t = setup();
    let deadline = t.env.timestamp + 86400;
    let cid = create(&mut t, ADMIN, 10000, deadline, true);
    assert_eq!(t.cf.get_campaign(cid).unwrap().status, CampaignStatus::Submitted);
    let session_id = t.cf.approve_campaign(&mut t.env, &mut t.gov, cid, 1000, 1).unwrap();
    assert_eq!(t.cf.get_campaign(cid).unwrap().status, CampaignStatus::Submitted);
    assert_eq!(t.cf.get_vote_session(cid).unwrap(), session_id);
    t.cf.vote_campaign(&mut t.env, &mut t.gov, a(90), cid, 0).unwrap();
    t.cf.check_vote_threshold(&mut t.env, &t.gov, cid).unwrap();
    assert_eq!(t.cf.get_campaign(cid).unwrap().status, CampaignStatus::Campaigning);
}

#[test]
fn test_create_campaign_starts_submitted() {
    let mut t = setup();
    let deadline = t.env.timestamp + 86400;
    let cid = create(&mut t, ADMIN, 10000, deadline, true);
    assert_eq!(t.cf.get_campaign(cid).unwrap().status, CampaignStatus::Submitted);
}

#[test]
fn test_update_campaign() {
    let mut t = setup();
    let deadline = t.env.timestamp + 86400;
    // Only a draft can be edited.
    let cid = create(&mut t, ADMIN, 10000, deadline, false);
    let new_goal = 20000i128;
    let new_ms = vec![(String::from("a"), 5000u32), (String::from("b"), 5000u32)];
    let new_deadline = t.env.timestamp + 90000;
    t.cf
        .update_campaign(&mut t.env, cid, String::from("QmNew"), new_goal, a(TOKEN), new_deadline, new_ms, 200)
        .unwrap();
    let campaign = t.cf.get_campaign(cid).unwrap();
    assert_eq!(campaign.funding_goal, new_goal);
    assert_eq!(campaign.milestone_count, 2);
    assert_eq!(campaign.min_pledge, 200);
}

#[test]
fn test_full_lifecycle() {
    let mut t = setup();
    let deadline = t.env.timestamp + 86400;
    let cid = create(&mut t, OWNER, 1000, deadline, true);
    advance_to_campaigning(&mut t, cid);

    t.cf.pledge(&mut t.env, &mut t.escrow, a(DONOR1), cid, 600).unwrap();
    assert_eq!(t.cf.get_campaign(cid).unwrap().status, CampaignStatus::Campaigning);
    t.cf.pledge(&mut t.env, &mut t.escrow, a(DONOR2), cid, 500).unwrap();
    assert_eq!(t.cf.get_campaign(cid).unwrap().status, CampaignStatus::Funded);

    t.cf.submit_milestone(&mut t.env, cid, 0).unwrap();
    assert_eq!(t.cf.get_campaign(cid).unwrap().status, CampaignStatus::Executing);
    t.cf.approve_milestone(&mut t.env, &mut t.escrow, &mut t.rep, cid, 0).unwrap();
    assert!(balance(&t.env, &MINTED, OWNER) > 0);

    t.cf.submit_milestone(&mut t.env, cid, 1).unwrap();
    t.cf.approve_milestone(&mut t.env, &mut t.escrow, &mut t.rep, cid, 1).unwrap();
    assert_eq!(t.cf.get_campaign(cid).unwrap().status, CampaignStatus::Completed);
}

#[test]
fn test_failed_campaign_refund() {
    let mut t = setup();
    let deadline = t.env.timestamp + 1000;
    let cid = create(&mut t, OWNER, 5000, deadline, true);
    advance_to_campaigning(&mut t, cid);
    t.cf.pledge(&mut t.env, &mut t.escrow, a(DONOR1), cid, 500).unwrap();
    let balance_after_pledge = balance(&t.env, &MINTED, DONOR1);

    t.env.timestamp = deadline + 1;
    t.cf.check_deadline(&mut t.env, cid).unwrap();
    assert_eq!(t.cf.get_campaign(cid).unwrap().status, CampaignStatus::Failed);

    t.cf.process_refund_batch(&mut t.env, &mut t.escrow, cid).unwrap();
    assert_eq!(balance(&t.env, &MINTED, DONOR1), balance_after_pledge + 500);
}

#[test]
fn test_cancel_campaign() {
    let mut t = setup();
    let deadline = t.env.timestamp + 86400;
    let cid = create(&mut t, OWNER, 10000, deadline, true);
    advance_to_campaigning(&mut t, cid);
    t.cf.pledge(&mut t.env, &mut t.escrow, a(DONOR1), cid, 200).unwrap();

    t.cf.cancel_campaign(&mut t.env, cid).unwrap();
    assert_eq!(t.cf.get_campaign(cid).unwrap().status, CampaignStatus::Cancelled);

    let balance_before = balance(&t.env, &MINTED, DONOR1);
    t.cf.process_refund_batch(&mut t.env, &mut t.escrow, cid).unwrap();
    assert_eq!(balance(&t.env, &MINTED, DONOR1), balance_before + 200);
}

#[test]
fn test_reject_milestone() {
    let mut t = setup();
    let deadline = t.env.timestamp + 86400;
    let cid = create(&mut t, OWNER, 1000, deadline, true);
    advance_to_campaigning(&mut t, cid);
    t.cf.pledge(&mut t.env, &mut t.escrow, a(DONOR1), cid, 1100).unwrap();

    t.cf.submit_milestone(&mut t.env, cid, 0).unwrap();
    t.cf.reject_milestone(cid, 0).unwrap();
    assert_eq!(t.cf.get_milestone(cid, 0).unwrap().status, CrowdfundMilestoneStatus::Rejected);

    t.cf.submit_milestone(&mut t.env, cid, 0).unwrap();
    assert_eq!(t.cf.get_milestone(cid, 0).unwrap().status, CrowdfundMilestoneStatus::Submitted);
}

#[test]
fn test_invalid_milestones_rejected() {
    let mut t = setup();
    let bad_ms = vec![(String::from("a"), 3000u32), (String::from("b"), 3000u32)];
    let deadline = t.env.timestamp + 86400;
    let result = t.cf.create_campaign(
        &mut t.env, &mut t.escrow, a(ADMIN), String::from("Qm"), 1000, a(TOKEN), deadline, bad_ms, 100, true,
    );
    assert!(result.is_err());
}

#[test]
fn test_resolve_dispute_approve_creator() {
    let mut t = setup();
    let deadline = t.env.timestamp + 86400;
    let cid = create(&mut t, OWNER, 1000, deadline, true);
    advance_to_campaigning(&mut t, cid);
    t.cf.pledge(&mut t.env, &mut t.escrow, a(DONOR1), cid, 1100).unwrap();
    assert_eq!(t.cf.get_campaign(cid).unwrap().status, CampaignStatus::Funded);

    t.cf.submit_milestone(&mut t.env, cid, 0).unwrap();
    assert_eq!(t.cf.get_dispute_status(cid, 0).unwrap(), CrowdfundMilestoneStatus::Submitted);
    t.cf.dispute_milestone(&mut t.env, a(DONOR1), cid, 0).unwrap();
    assert_eq!(t.cf.get_dispute_status(cid, 0).unwrap(), CrowdfundMilestoneStatus::Disputed);

    let balance_before = balance(&t.env, &MINTED, OWNER);
    t.cf
        .resolve_dispute(&mut t.env, &mut t.escrow, &mut t.rep, cid, 0, DisputeResolution::ApproveCreator)
        .unwrap();
    assert_eq!(t.cf.get_milestone(cid, 0).unwrap().status, CrowdfundMilestoneStatus::Released);
    assert!(balance(&t.env, &MINTED, OWNER) > balance_before);
    assert_eq!(t.cf.get_campaign(cid).unwrap().status, CampaignStatus::Executing);

    t.cf.submit_milestone(&mut t.env, cid, 1).unwrap();
    t.cf.approve_milestone(&mut t.env, &mut t.escrow, &mut t.rep, cid, 1).unwrap();
    assert_eq!(t.cf.get_campaign(cid).unwrap().status, CampaignStatus::Completed);
}

#[test]
fn test_resolve_dispute_approve_backer() {
    let mut t = setup();
    let deadline = t.env.timestamp + 86400;
    let cid = create(&mut t, OWNER, 1000, deadline, true);
    advance_to_campaigning(&mut t, cid);
    t.cf.pledge(&mut t.env, &mut t.escrow, a(DONOR1), cid, 1100).unwrap();
    t.cf.submit_milestone(&mut t.env, cid, 0).unwrap();
    t.cf.dispute_milestone(&mut t.env, a(DONOR1), cid, 0).unwrap();

    t.cf
        .resolve_dispute(&mut t.env, &mut t.escrow, &mut t.rep, cid, 0, DisputeResolution::ApproveBacker)
        .unwrap();
    assert_eq!(t.cf.get_milestone(cid, 0).unwrap().status, CrowdfundMilestoneStatus::Rejected);
    assert_eq!(t.cf.get_campaign(cid).unwrap().status, CampaignStatus::Cancelled);

    let balance_before_refund = balance(&t.env, &MINTED, DONOR1);
    t.cf.process_refund_batch(&mut t.env, &mut t.escrow, cid).unwrap();
    assert!(balance(&t.env, &MINTED, DONOR1) > balance_before_refund);
}

#[test]
fn test_resolve_dispute_not_disputed_fails() {
    let mut t = setup();
    let deadline = t.env.timestamp + 86400;
    let cid = create(&mut t, OWNER, 1000, deadline, true);
    advance_to_campaigning(&mut t, cid);
    t.cf.pledge(&mut t.env, &mut t.escrow, a(DONOR1), cid, 1100).unwrap();
    t.cf.submit_milestone(&mut t.env, cid, 0).unwrap();
    let result =
        t.cf.resolve_dispute(&mut t.env, &mut t.escrow, &mut t.rep, cid, 0, DisputeResolution::ApproveCreator);
    assert!(result.is_err());
}

#[test]
fn test_reject_campaign() {
    let mut t = setup();
    let deadline = t.env.timestamp + 86400;
    let cid = create(&mut t, ADMIN, 10000, deadline, true);
    t.cf.reject_campaign(&mut t.env, cid, String::from("incomplete")).unwrap();
    assert_eq!(t.cf.get_campaign(cid).unwrap().status, CampaignStatus::Cancelled);
}

#[test]
fn test_vote_threshold_not_met_while_active() {
    let mut t = setup();
    let deadline = t.env.timestamp + 86400;
    let cid = create(&mut t, ADMIN, 10000, deadline, true);
    t.cf.approve_campaign(&mut t.env, &mut t.gov, cid, 1000, 5).unwrap();
    let result = t.cf.check_vote_threshold(&mut t.env, &t.gov, cid);
    assert!(result.is_err());
    assert_eq!(t.cf.get_campaign(cid).unwrap().status, CampaignStatus::Submitted);
}

// ---- own tests ----

#[test]
fn test_vote_reject_cancels_campaign() {
    let mut t = setup();
    let deadline = t.env.timestamp + 86400;
    let cid = create(&mut t, ADMIN, 10000, deadline, true);
    t.cf.approve_campaign(&mut t.env, &mut t.gov, cid, 1000, 1).unwrap();
    t.cf.vote_campaign(&mut t.env, &mut t.gov, a(90), cid, 1).unwrap();
    t.cf.check_vote_threshold(&mut t.env, &t.gov, cid).unwrap();
    let c = t.cf.get_campaign(cid).unwrap();
    assert_eq!(c.status, CampaignStatus::Cancelled);
    assert!(c.vote_session_id.is_none());
}

#[test]
fn test_vote_expired_without_quorum_cancels_campaign() {
    let mut t = setup();
    let deadline = t.env.timestamp + 86400;
    let cid = create(&mut t, ADMIN, 10000, deadline, true);
    t.cf.approve_campaign(&mut t.env, &mut t.gov, cid, 1000, 5).unwrap();
    t.cf.vote_campaign(&mut t.env, &mut t.gov, a(90), cid, 0).unwrap();
    t.env.timestamp += 1001;
    t.cf.check_vote_threshold(&mut t.env, &t.gov, cid).unwrap();
    let c = t.cf.get_campaign(cid).unwrap();
    assert_eq!(c.status, CampaignStatus::Cancelled);
    assert!(c.vote_session_id.is_none());
}

#[test]
fn crowdfund_pledge_errors() {
    let mut t = setup();
    let deadline = t.env.timestamp + 86400;
    let cid = create(&mut t, OWNER, 1000, deadline, true);
    assert_eq!(
        t.cf.pledge(&mut t.env, &mut t.escrow, a(DONOR1), cid, 500),
        Err(Error::NotCampaigning)
    );
    advance_to_campaigning(&mut t, cid);
    assert_eq!(
        t.cf.pledge(&mut t.env, &mut t.escrow, a(DONOR1), cid, 50),
        Err(Error::BelowMinPledge)
    );
    assert_eq!(
        t.cf.pledge(&mut t.env, &mut t.escrow, a(DONOR1), 42, 500),
        Err(Error::CampaignNotFound)
    );
    t.cf.pledge(&mut t.env, &mut t.escrow, a(DONOR1), cid, 300).unwrap();
    t.cf.pledge(&mut t.env, &mut t.escrow, a(DONOR1), cid, 200).unwrap();
    assert_eq!(t.cf.get_pledge(cid, a(DONOR1)), 500);
    assert_eq!(t.cf.get_pledge(cid, a(DONOR2)), 0);
    assert_eq!(t.cf.get_campaign(cid).unwrap().current_funding, 500);
}

#[test]
fn crowdfund_milestone_payouts_sum_to_funding() {
    let mut t = setup();
    let deadline = t.env.timestamp + 86400;
    let cid = create(&mut t, OWNER, 1000, deadline, true);
    advance_to_campaigning(&mut t, cid);
    t.cf.pledge(&mut t.env, &mut t.escrow, a(DONOR1), cid, 1100).unwrap();
    for i in 0..2u32 {
        t.cf.submit_milestone(&mut t.env, cid, i).unwrap();
        t.cf.approve_milestone(&mut t.env, &mut t.escrow, &mut t.rep, cid, i).unwrap();
    }
    // 50% each of the 1100 raised.
    assert_eq!(balance(&t.env, &MINTED, OWNER), 1100);
}

#[test]
fn crowdfund_refund_batch_done_after_last_batch() {
    let mut t = setup();
    let deadline = t.env.timestamp + 1000;
    let cid = create(&mut t, OWNER, 5000, deadline, true);
    advance_to_campaigning(&mut t, cid);
    t.cf.pledge(&mut t.env, &mut t.escrow, a(DONOR1), cid, 500).unwrap();
    t.env.timestamp = deadline + 1;
    t.cf.check_deadline(&mut t.env, cid).unwrap();
    t.cf.process_refund_batch(&mut t.env, &mut t.escrow, cid).unwrap();
    assert_eq!(t.cf.process_refund_batch(&mut t.env, &mut t.escrow, cid), Err(Error::RefundBatchDone));
}
