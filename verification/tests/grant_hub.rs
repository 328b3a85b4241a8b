use boundless::core_escrow::CoreEscrow;
use boundless::env::Env;
use boundless::governance_voting::GovernanceVoting;
use boundless::grant_hub::{Error, GrantHub, GrantStatus, GrantType, MilestoneStatus};
use boundless::reputation_registry::ReputationRegistry;
use boundless::types::Address;

const ESCROW: u64 = 1;
const REP: u64 = 2;
const GOV: u64 = 3;
const HUB: u64 = 4;
const ADMIN: u64 = 5;
const TREASURY: u64 = 6;
const TOKEN: u64 = 7;

fn a(id: u64) -> Address {
    Address::new(id)
}

/// The balance of `who`: what was minted to it plus what the recorded
/// transfers moved in, less what they moved out.
fn balance(env: &Env, who: u64) -> i128 {
    let minted: [(u64, i128); 1] = [(ADMIN, 1_010_000)];
    let mut b: i128 = minted.iter().filter(|(x, _)| *x == who).map(|(_, v)| *v).sum();
    for t in env.transfers.iter() {
        if t.asset.id == TOKEN {
            if t.to.id == who {
                b += t.amount;
            }
            if t.from.id == who {
                b -= t.amount;
            }
        }
    }
    b
}

struct T {
    env: Env,
    escrow: CoreEscrow,
    rep: ReputationRegistry,
    gov: GovernanceVoting,
    hub: GrantHub,
}

fn setup() -> T {
    let mut env = Env::new(1_000);
    let mut escrow = CoreEscrow::new(a(ESCROW));
    escrow.init(a(ADMIN), a(TREASURY)).unwrap();
    let mut rep = ReputationRegistry::new(a(REP));
    rep.init(a(ADMIN)).unwrap();
    let mut gov = GovernanceVoting::new(a(GOV));
    gov.init(a(ADMIN)).unwrap();
    let mut hub = GrantHub::new(a(HUB));
    hub.init(a(ADMIN), a(ESCROW), a(REP), a(GOV)).unwrap();
    escrow.authorize_module(a(HUB)).unwrap();
    rep.add_authorized_module(&mut env, a(HUB)).unwrap();
    gov.add_authorized_module(a(HUB)).unwrap();
    T { env, escrow, rep, gov, hub }
}

#[test]
fn test_milestone_grant_lifecycle() {
    let mut t = setup();
    let recipient = a(100);
    let milestone_descs =
        vec![(String::from("Phase 1 delivery"), 6000u32), (String::from("Phase 2 delivery"), 4000u32)];
    let grant_id = t
        .hub
        .create_milestone_grant(&mut t.env, &mut t.escrow, a(ADMIN), recipient, 10_000, a(TOKEN), milestone_descs)
        .unwrap();
    assert_eq!(grant_id, 1);
    assert_eq!(balance(&t.env, ESCROW), 10_000);

    let grant = t.hub.get_grant(grant_id).unwrap();
    assert_eq!(grant.status, GrantStatus::Active);
    assert_eq!(grant.grant_type, GrantType::Milestone);
    assert_eq!(grant.milestone_count, 2);

    let m0 = t.hub.get_milestone(grant_id, 0).unwrap();
    assert_eq!(m0.pct, 6000);
    assert_eq!(m0.status, MilestoneStatus::Pending);
    let m1 = t.hub.get_milestone(grant_id, 1).unwrap();
    assert_eq!(m1.pct, 4000);
    assert_eq!(m1.status, MilestoneStatus::Pending);

    t.hub.submit_grant_milestone(&mut t.env, recipient, grant_id, 0).unwrap();
    assert_eq!(t.hub.get_milestone(grant_id, 0).unwrap().status, MilestoneStatus::Submitted);

    t.hub.approve_grant_milestone(&mut t.env, &mut t.escrow, &mut t.rep, grant_id, 0).unwrap();
    assert_eq!(balance(&t.env, 100), 6000);
    assert_eq!(t.hub.get_grant(grant_id).unwrap().status, GrantStatus::Executing);

    t.hub.submit_grant_milestone(&mut t.env, recipient, grant_id, 1).unwrap();
    t.hub.approve_grant_milestone(&mut t.env, &mut t.escrow, &mut t.rep, grant_id, 1).unwrap();
    assert_eq!(balance(&t.env, 100), 10_000);
    assert_eq!(t.hub.get_grant(grant_id).unwrap().status, GrantStatus::Completed);
}

#[test]
fn test_retrospective_grant() {
    let mut t = setup();
    let (applicant1, applicant2) = (a(100), a(101));
    let options = vec![String::from("Applicant 1"), String::from("Applicant 2")];
    let grant_id = t
        .hub
        .create_retrospective_grant(&mut t.env, &mut t.escrow, &mut t.gov, a(ADMIN), 10_000, a(TOKEN), options, 604_800)
        .unwrap();
    assert_eq!(grant_id, 1);
    assert_eq!(balance(&t.env, ESCROW), 10_000);
    let grant = t.hub.get_grant(grant_id).unwrap();
    assert_eq!(grant.status, GrantStatus::Active);
    assert_eq!(grant.grant_type, GrantType::Retrospective);

    let session_id = t.hub.get_retro_session(grant_id).unwrap();
    t.gov.cast_vote(&mut t.env, a(90), session_id, 0).unwrap();
    t.env.timestamp += 700_000;

    let recipients = vec![applicant1, applicant2];
    t.hub
        .finalize_retrospective(&mut t.env, &mut t.escrow, &mut t.rep, &t.gov, grant_id, recipients)
        .unwrap();
    assert_eq!(t.hub.get_grant(grant_id).unwrap().status, GrantStatus::Completed);
    assert_eq!(balance(&t.env, 100), 10_000);
    assert_eq!(balance(&t.env, 101), 0);
}

#[test]
fn test_qf_round() {
    let mut t = setup();
    let project_names = vec![String::from("Project Alpha"), String::from("Project Beta")];
    let grant_id = t
        .hub
        .create_qf_round(&mut t.env, &mut t.escrow, &mut t.gov, a(ADMIN), 10_000, a(TOKEN), project_names, 2_592_000)
        .unwrap();
    assert_eq!(grant_id, 1);
    assert_eq!(balance(&t.env, ESCROW), 10_000);
    let grant = t.hub.get_grant(grant_id).unwrap();
    assert_eq!(grant.status, GrantStatus::Active);
    assert_eq!(grant.grant_type, GrantType::QF);
    let qf_data = t.hub.get_qf_round(grant_id).unwrap();
    assert_eq!(qf_data.project_count, 2);
    assert_eq!(qf_data.matching_pool, 10_000);

    t.hub.donate_to_project(&mut t.env, &mut t.gov, grant_id, 100, 0).unwrap();
    t.hub.donate_to_project(&mut t.env, &mut t.gov, grant_id, 400, 1).unwrap();
    t.env.timestamp += 3_000_000;

    let (p1, p2) = (a(100), a(101));
    t.hub
        .finalize_qf_round(&mut t.env, &mut t.escrow, &mut t.rep, &t.gov, grant_id, vec![p1, p2])
        .unwrap();
    assert_eq!(t.hub.get_grant(grant_id).unwrap().status, GrantStatus::Completed);
    let p1_balance = balance(&t.env, 100);
    let p2_balance = balance(&t.env, 101);
    assert!(p1_balance > 0);
    assert!(p2_balance > 0);
    assert_eq!(p1_balance + p2_balance, 10_000);
}

// ---- own tests ----

#[test]
fn grant_qf_shares_follow_square_of_root_sums() {
    let mut t = setup();
    let names = vec![String::from("A"), String::from("B")];
    let gid = t
        .hub
        .create_qf_round(&mut t.env, &mut t.escrow, &mut t.gov, a(ADMIN), 10_000, a(TOKEN), names, 100)
        .unwrap();
    // sqrt(100e6) = 10000 and sqrt(400e6) = 20000: weights 1e8 and 4e8, so 2000 and 8000.
    t.hub.donate_to_project(&mut t.env, &mut t.gov, gid, 100, 0).unwrap();
    t.hub.donate_to_project(&mut t.env, &mut t.gov, gid, 400, 1).unwrap();
    t.env.timestamp += 101;
    t.hub
        .finalize_qf_round(&mut t.env, &mut t.escrow, &mut t.rep, &t.gov, gid, vec![a(100), a(101)])
        .unwrap();
    assert_eq!(balance(&t.env, 100), 2000);
    assert_eq!(balance(&t.env, 101), 8000);
}

#[test]
fn grant_milestone_percents_must_sum_to_whole() {
    let mut t = setup();
    let bad = vec![(String::from("a"), 6000u32), (String::from("b"), 3000u32)];
    assert_eq!(
        t.hub.create_milestone_grant(&mut t.env, &mut t.escrow, a(ADMIN), a(100), 10_000, a(TOKEN), bad),
        Err(Error::InvalidMilestonePercents)
    );
    let ms = vec![(String::from("a"), 10000u32)];
    assert_eq!(
        t.hub.create_milestone_grant(&mut t.env, &mut t.escrow, a(ADMIN), a(100), 0, a(TOKEN), ms),
        Err(Error::InvalidAmount)
    );
    assert!(t.env.transfers.is_empty());
}

#[test]
fn grant_only_submitted_milestone_is_approved() {
    let mut t = setup();
    let ms = vec![(String::from("a"), 10000u32)];
    let gid = t
        .hub
        .create_milestone_grant(&mut t.env, &mut t.escrow, a(ADMIN), a(100), 5_000, a(TOKEN), ms)
        .unwrap();
    assert_eq!(
        t.hub.approve_grant_milestone(&mut t.env, &mut t.escrow, &mut t.rep, gid, 0),
        Err(Error::MilestoneNotSubmitted)
    );
    assert_eq!(t.hub.get_milestone(gid, 3).map(|m| m.pct), Err(Error::MilestoneNotFound));
}

#[test]
fn grant_finalize_checks_grant_type() {
    let mut t = setup();
    let ms = vec![(String::from("a"), 10000u32)];
    let gid = t
        .hub
        .create_milestone_grant(&mut t.env, &mut t.escrow, a(ADMIN), a(100), 1_000, a(TOKEN), ms)
        .unwrap();
    assert_eq!(
        t.hub.finalize_retrospective(&mut t.env, &mut t.escrow, &mut t.rep, &t.gov, gid, vec![a(100)]),
        Err(Error::NotRetrospectiveGrant)
    );
    assert_eq!(
        t.hub.finalize_qf_round(&mut t.env, &mut t.escrow, &mut t.rep, &t.gov, gid, vec![a(100)]),
        Err(Error::NotQFGrant)
    );
    assert_eq!(
        t.hub.finalize_qf_round(&mut t.env, &mut t.escrow, &mut t.rep, &t.gov, 42, vec![a(100)]),
        Err(Error::GrantNotFound)
    );
}

#[test]
fn grant_cancel_refunds_creator() {
    let mut t = setup();
    let ms = vec![(String::from("a"), 10000u32)];
    let gid = t
        .hub
        .create_milestone_grant(&mut t.env, &mut t.escrow, a(ADMIN), a(100), 5_000, a(TOKEN), ms)
        .unwrap();
    let before = balance(&t.env, ADMIN);
    t.hub.cancel_grant(&mut t.env, &mut t.escrow, a(ADMIN), gid).unwrap();
    assert_eq!(t.hub.get_grant(gid).unwrap().status, GrantStatus::Cancelled);
    assert_eq!(balance(&t.env, ADMIN), before + 5_000);
}
