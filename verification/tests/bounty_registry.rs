use boundless::bounty_registry::{ApplicationStatus, BountyRegistry, BountyStatus, BountyType, Error};
use boundless::core_escrow::CoreEscrow;
use boundless::env::Env;
use boundless::reputation_registry::ReputationRegistry;
use boundless::types::{ActivityCategory, Address};

const ESCROW: u64 = 1;
const REP: u64 = 2;
const BOUNTY: u64 = 3;
const ADMIN: u64 = 4;
const TREASURY: u64 = 5;
const TOKEN: u64 = 6;

fn a(id: u64) -> Address {
    Address::new(id)
}

/// The balance of `who` in `token`: what was minted to it plus what the
/// recorded transfers moved in, less what they moved out.
fn balance(env: &Env, minted: &[(u64, i128)], token: u64, who: u64) -> i128 {
    let mut b: i128 = minted.iter().filter(|(x, _)| *x == who).map(|(_, v)| *v).sum();
    for t in env.transfers.iter() {
        if t.asset.id == token {
            if t.to.id == who {
                b += t.amount;
            }
            if t.from.id == who {
                b -= t.amount;
            }
        }
    }
    b
}

const MINTED: [(u64, i128); 1] = [(ADMIN, 100_000)];

struct T {
    env: Env,
    escrow: CoreEscrow,
    rep: ReputationRegistry,
    bounty: BountyRegistry,
}

fn setup() -> T {
    let mut env = Env::new(1_000);
    let mut escrow = CoreEscrow::new(a(ESCROW));
    escrow.init(a(ADMIN), a(TREASURY)).unwrap();
    let mut rep = ReputationRegistry::new(a(REP));
    rep.init(a(ADMIN)).unwrap();
    let mut bounty = BountyRegistry::new(a(BOUNTY));
    bounty.init(a(ADMIN), a(ESCROW), a(REP)).unwrap();
    escrow.authorize_module(a(BOUNTY)).unwrap();
    rep.add_authorized_module(&mut env, a(BOUNTY)).unwrap();
    T { env, escrow, rep, bounty }
}

fn create(t: &mut T, bounty_type: BountyType, amount: i128, category: ActivityCategory) -> u64 {
    let deadline = t.env.timestamp + 86400;
    t.bounty
        .create_bounty(
            &mut t.env,
            &mut t.escrow,
            a(ADMIN),
            String::from("task"),
            String::from("Qm"),
            bounty_type,
            amount,
            a(TOKEN),
            category,
            deadline,
        )
        .unwrap()
}

#[test]
fn test_create_bounty() {
    let mut t = setup();
    let deadline = t.env.timestamp + 86400;
    let bounty_id = t
        .bounty
        .create_bounty(
            &mut t.env,
            &mut t.escrow,
            a(ADMIN),
            String::from("Fix login bug"),
            String::from("QmABC123"),
            BountyType::Application,
            1000,
            a(TOKEN),
            ActivityCategory::Development,
            deadline,
        )
        .unwrap();
    assert_eq!(bounty_id, 1);
    let bounty = t.bounty.get_bounty(1).unwrap();
    assert_eq!(bounty.status, BountyStatus::Open);
    assert_eq!(bounty.amount, 1000);
    assert_eq!(bounty.bounty_type, BountyType::Application);
}

#[test]
fn test_fcfs_flow() {
    let mut t = setup();
    let contributor = a(100);
    t.rep.init_profile(&t.env, contributor).unwrap();
    let bounty_id = create(&mut t, BountyType::FCFS, 500, ActivityCategory::Development);

    t.bounty.claim_bounty(&mut t.env, &mut t.escrow, &mut t.rep, contributor, bounty_id).unwrap();
    let bounty = t.bounty.get_bounty(bounty_id).unwrap();
    assert_eq!(bounty.status, BountyStatus::InProgress);
    assert_eq!(bounty.assignee, Some(contributor));
    assert_eq!(t.rep.get_credits(contributor).unwrap(), 2);

    t.bounty.approve_fcfs(&mut t.env, &mut t.escrow, &mut t.rep, a(ADMIN), bounty_id, 50).unwrap();
    let bounty = t.bounty.get_bounty(bounty_id).unwrap();
    assert_eq!(bounty.status, BountyStatus::Completed);
    assert_eq!(balance(&t.env, &MINTED, TOKEN, 100), 500);
    let profile = t.rep.get_profile(contributor).unwrap();
    assert_eq!(profile.overall_score, 50);
    assert_eq!(profile.bounties_completed, 1);
}

#[test]
fn test_application_flow() {
    let mut t = setup();
    let (applicant1, applicant2) = (a(100), a(101));
    t.rep.init_profile(&t.env, applicant1).unwrap();
    t.rep.init_profile(&t.env, applicant2).unwrap();
    let bounty_id = create(&mut t, BountyType::Application, 2000, ActivityCategory::Design);

    t.bounty.apply(&mut t.env, &mut t.rep, applicant1, bounty_id, String::from("My proposal A")).unwrap();
    t.bounty.apply(&mut t.env, &mut t.rep, applicant2, bounty_id, String::from("My proposal B")).unwrap();
    assert_eq!(t.rep.get_credits(applicant1).unwrap(), 2);
    assert_eq!(t.rep.get_credits(applicant2).unwrap(), 2);

    t.bounty.select_applicant(&mut t.env, &mut t.escrow, &mut t.rep, a(ADMIN), bounty_id, applicant1).unwrap();
    assert_eq!(t.rep.get_credits(applicant2).unwrap(), 3);
    let bounty = t.bounty.get_bounty(bounty_id).unwrap();
    assert_eq!(bounty.status, BountyStatus::InProgress);
    assert_eq!(bounty.assignee, Some(applicant1));

    t.bounty.submit_work(&mut t.env, applicant1, bounty_id, String::from("QmWork")).unwrap();
    assert_eq!(t.bounty.get_bounty(bounty_id).unwrap().status, BountyStatus::InReview);

    t.bounty.approve_submission(&mut t.env, &mut t.escrow, &mut t.rep, a(ADMIN), bounty_id, 100).unwrap();
    assert_eq!(t.bounty.get_bounty(bounty_id).unwrap().status, BountyStatus::Completed);
    assert_eq!(balance(&t.env, &MINTED, TOKEN, 100), 2000);
}

#[test]
fn test_contest_flow() {
    let mut t = setup();
    let (sub1, sub2) = (a(100), a(101));
    let bounty_id = create(&mut t, BountyType::Contest, 3000, ActivityCategory::Design);
    let pool = t.bounty.get_bounty(bounty_id).unwrap().escrow_pool_id;
    assert!(t.escrow.is_locked(pool).unwrap());

    t.rep.init_profile(&t.env, sub1).unwrap();
    t.rep.init_profile(&t.env, sub2).unwrap();
    t.bounty.submit_work(&mut t.env, sub1, bounty_id, String::from("QmWork1")).unwrap();
    t.bounty.submit_work(&mut t.env, sub2, bounty_id, String::from("QmWork2")).unwrap();

    t.bounty
        .approve_contest_winner(&mut t.env, &mut t.escrow, &mut t.rep, a(ADMIN), bounty_id, sub1, 2000, 80)
        .unwrap();
    t.bounty
        .approve_contest_winner(&mut t.env, &mut t.escrow, &mut t.rep, a(ADMIN), bounty_id, sub2, 1000, 40)
        .unwrap();
    assert_eq!(balance(&t.env, &MINTED, TOKEN, 100), 2000);
    assert_eq!(balance(&t.env, &MINTED, TOKEN, 101), 1000);

    t.bounty.finalize_contest(&mut t.env, &mut t.escrow, a(ADMIN), bounty_id).unwrap();
    let bounty = t.bounty.get_bounty(bounty_id).unwrap();
    assert_eq!(bounty.status, BountyStatus::Completed);
    assert_eq!(bounty.winner_count, 2);
}

#[test]
fn test_split_flow() {
    let mut t = setup();
    let (dev1, dev2) = (a(100), a(101));
    t.rep.init_profile(&t.env, dev1).unwrap();
    t.rep.init_profile(&t.env, dev2).unwrap();
    let bounty_id = create(&mut t, BountyType::Split, 4000, ActivityCategory::Development);

    let slots = vec![(dev1, 2500i128), (dev2, 1500i128)];
    t.bounty.define_splits(&mut t.escrow, a(ADMIN), bounty_id, slots).unwrap();

    t.bounty.approve_split(&mut t.env, &mut t.escrow, &mut t.rep, a(ADMIN), bounty_id, 0, 60).unwrap();
    assert_eq!(balance(&t.env, &MINTED, TOKEN, 100), 2500);
    t.bounty.approve_split(&mut t.env, &mut t.escrow, &mut t.rep, a(ADMIN), bounty_id, 1, 40).unwrap();
    assert_eq!(balance(&t.env, &MINTED, TOKEN, 101), 1500);

    assert_eq!(t.rep.get_profile(dev1).unwrap().bounties_completed, 1);
    assert_eq!(t.rep.get_profile(dev2).unwrap().bounties_completed, 1);
}

#[test]
fn test_cancel_bounty_restores_credits() {
    let mut t = setup();
    let applicant = a(100);
    t.rep.init_profile(&t.env, applicant).unwrap();
    let bounty_id = create(&mut t, BountyType::Application, 1000, ActivityCategory::Community);

    t.bounty.apply(&mut t.env, &mut t.rep, applicant, bounty_id, String::from("My proposal")).unwrap();
    assert_eq!(t.rep.get_credits(applicant).unwrap(), 2);

    t.bounty.cancel_bounty(&mut t.env, &mut t.escrow, &mut t.rep, a(ADMIN), bounty_id).unwrap();
    assert_eq!(t.rep.get_credits(applicant).unwrap(), 3);
    assert_eq!(t.bounty.get_bounty(bounty_id).unwrap().status, BountyStatus::Cancelled);
    assert_eq!(balance(&t.env, &MINTED, TOKEN, ADMIN), 100_000);
}

#[test]
fn test_reject_application_restores_credit() {
    let mut t = setup();
    let applicant = a(100);
    t.rep.init_profile(&t.env, applicant).unwrap();
    let bounty_id = create(&mut t, BountyType::Application, 500, ActivityCategory::Marketing);

    t.bounty.apply(&mut t.env, &mut t.rep, applicant, bounty_id, String::from("proposal")).unwrap();
    assert_eq!(t.rep.get_credits(applicant).unwrap(), 2);

    t.bounty.reject_application(&mut t.env, &mut t.rep, a(ADMIN), bounty_id, applicant).unwrap();
    assert_eq!(t.rep.get_credits(applicant).unwrap(), 3);
    assert_eq!(t.bounty.get_application(bounty_id, applicant).unwrap().status, ApplicationStatus::Rejected);
}

// ---- edge cases and error variants ----

#[test]
fn bounty_create_rejects_non_positive_amount_and_past_deadline() {
    let mut t = setup();
    let now = t.env.timestamp;
    let r = t.bounty.create_bounty(
        &mut t.env, &mut t.escrow, a(ADMIN), String::from("x"), String::from("y"),
        BountyType::FCFS, 0, a(TOKEN), ActivityCategory::Design, now + 10,
    );
    assert_eq!(r, Err(Error::AmountNotPositive));
    let r = t.bounty.create_bounty(
        &mut t.env, &mut t.escrow, a(ADMIN), String::from("x"), String::from("y"),
        BountyType::FCFS, 10, a(TOKEN), ActivityCategory::Design, now,
    );
    assert_eq!(r, Err(Error::DeadlinePassed));
    assert_eq!(t.bounty.get_bounty_count(), 0);
    assert!(t.env.transfers.is_empty());
}

#[test]
fn bounty_init_twice_fails() {
    let mut t = setup();
    assert_eq!(t.bounty.init(a(ADMIN), a(ESCROW), a(REP)), Err(Error::AlreadyInitialized));
}

#[test]
fn bounty_claim_requires_fcfs_and_open() {
    let mut t = setup();
    let c = a(100);
    t.rep.init_profile(&t.env, c).unwrap();
    let app_id = create(&mut t, BountyType::Application, 500, ActivityCategory::Design);
    assert_eq!(
        t.bounty.claim_bounty(&mut t.env, &mut t.escrow, &mut t.rep, c, app_id),
        Err(Error::InvalidSubType)
    );
    let id = create(&mut t, BountyType::FCFS, 500, ActivityCategory::Design);
    t.bounty.claim_bounty(&mut t.env, &mut t.escrow, &mut t.rep, c, id).unwrap();
    assert_eq!(
        t.bounty.claim_bounty(&mut t.env, &mut t.escrow, &mut t.rep, a(101), id),
        Err(Error::BountyNotOpen)
    );
    assert_eq!(
        t.bounty.claim_bounty(&mut t.env, &mut t.escrow, &mut t.rep, c, 99),
        Err(Error::BountyNotFound)
    );
}

#[test]
fn bounty_apply_twice_rejected_and_state_kept() {
    let mut t = setup();
    let c = a(100);
    t.rep.init_profile(&t.env, c).unwrap();
    let id = create(&mut t, BountyType::Application, 500, ActivityCategory::Design);
    t.bounty.apply(&mut t.env, &mut t.rep, c, id, String::from("p")).unwrap();
    let events_before = t.env.events.len();
    assert_eq!(t.bounty.apply(&mut t.env, &mut t.rep, c, id, String::from("p")), Err(Error::AlreadyApplied));
    assert_eq!(t.env.events.len(), events_before);
    assert_eq!(t.rep.get_credits(c).unwrap(), 2);
}

#[test]
fn bounty_split_shares_may_not_exceed_amount() {
    let mut t = setup();
    let id = create(&mut t, BountyType::Split, 4000, ActivityCategory::Development);
    let slots = vec![(a(100), 2500i128), (a(101), 2000i128)];
    assert_eq!(t.bounty.define_splits(&mut t.escrow, a(ADMIN), id, slots), Err(Error::InvalidSplitShares));
    let id2 = create(&mut t, BountyType::FCFS, 4000, ActivityCategory::Development);
    let slots = vec![(a(100), 1000i128)];
    assert_eq!(t.bounty.define_splits(&mut t.escrow, a(ADMIN), id2, slots), Err(Error::NotSplitType));
}

#[test]
fn bounty_only_creator_may_cancel() {
    let mut t = setup();
    let id = create(&mut t, BountyType::FCFS, 500, ActivityCategory::Design);
    assert_eq!(
        t.bounty.cancel_bounty(&mut t.env, &mut t.escrow, &mut t.rep, a(999), id),
        Err(Error::NotCreator)
    );
    assert_eq!(t.bounty.get_bounty(id).unwrap().status, BountyStatus::Open);
}

#[test]
fn bounty_pool_ids_differ_between_bounties() {
    let mut t = setup();
    let id1 = create(&mut t, BountyType::FCFS, 500, ActivityCategory::Design);
    let id2 = create(&mut t, BountyType::FCFS, 500, ActivityCategory::Design);
    let p1 = t.bounty.get_bounty(id1).unwrap().escrow_pool_id;
    let p2 = t.bounty.get_bounty(id2).unwrap().escrow_pool_id;
    assert_ne!(p1, p2);
    assert_ne!(p1.bytes, [0u8; 32]);
}

#[test]
fn bounty_upgrade_needs_init() {
    let b = BountyRegistry::new(a(BOUNTY));
    let h = boundless::types::BytesN32 { bytes: [7u8; 32] };
    assert_eq!(b.upgrade(h), Err(Error::NotInitialized));
}
