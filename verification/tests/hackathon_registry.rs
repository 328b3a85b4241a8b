use boundless::core_escrow::CoreEscrow;
use boundless::env::Env;
use boundless::hackathon_registry::{Error, HackathonRegistry, HackathonStatus};
use boundless::reputation_registry::ReputationRegistry;
use boundless::types::Address;

const ESCROW: u64 = 1;
const REP: u64 = 2;
const HACK: u64 = 3;
const ADMIN: u64 = 4;
const TREASURY: u64 = 5;
const TOKEN: u64 = 6;

fn a(id: u64) -> Address {
    Address::new(id)
}

/// The balance of `who`: what was minted to it plus what the recorded
/// transfers moved in, less what they moved out.
fn balance(env: &Env, who: u64) -> i128 {
    let mut b: i128 = if who == ADMIN { 1_000_000 } else { 0 };
    for t in env.transfers.iter() {
        if t.asset.id == TOKEN {
            if t.to.id == who {
                b += t.amount;
            }
            if t.from.id == who {
                b -= t.amount;
            }
        }
    }
    b
}

struct T {
    env: Env,
    escrow: CoreEscrow,
    rep: ReputationRegistry,
    hack: HackathonRegistry,
}

fn setup() -> T {
    let mut env = Env::new(0);
    let mut escrow = CoreEscrow::new(a(ESCROW));
    escrow.init(a(ADMIN), a(TREASURY)).unwrap();
    let mut rep = ReputationRegistry::new(a(REP));
    rep.init(a(ADMIN)).unwrap();
    let mut hack = HackathonRegistry::new(a(HACK));
    hack.init(a(ADMIN), a(ESCROW), a(REP)).unwrap();
    escrow.authorize_module(a(HACK)).unwrap();
    rep.add_authorized_module(&mut env, a(HACK)).unwrap();
    T { env, escrow, rep, hack }
}

fn create(t: &mut T, tiers: Vec<u32>, max: u32) -> u64 {
    t.hack
        .create_hackathon(
            &mut t.env,
            &mut t.escrow,
            a(ADMIN),
            String::from("Stellar Hackathon"),
            String::from("QmHackMeta"),
            10_000,
            a(TOKEN),
            1000,
            2000,
            3000,
            max,
            tiers,
        )
        .unwrap()
}

#[test]
fn test_create_hackathon() {
    let mut t = setup();
    let hid = create(&mut t, vec![6000, 4000], 100);
    assert_eq!(hid, 1);
    let hackathon = t.hack.get_hackathon(hid).unwrap();
    assert_eq!(hackathon.id, 1);
    assert_eq!(hackathon.creator, a(ADMIN));
    assert_eq!(hackathon.prize_pool, 10_000);
    assert_eq!(hackathon.status, HackathonStatus::Registration);
    assert_eq!(hackathon.max_participants, 100);
    assert_eq!(hackathon.judge_count, 0);
    assert_eq!(hackathon.submission_count, 0);
}

#[test]
fn test_cancel_hackathon() {
    let mut t = setup();
    let creator_balance_before = balance(&t.env, ADMIN);
    let hid = create(&mut t, vec![6000, 4000], 50);
    assert_eq!(creator_balance_before - balance(&t.env, ADMIN), 10_000);
    t.hack.cancel_hackathon(&mut t.env, &mut t.escrow, hid).unwrap();
    assert_eq!(balance(&t.env, ADMIN), creator_balance_before);
    assert_eq!(t.hack.get_hackathon(hid).unwrap().status, HackathonStatus::Cancelled);
}

// ---- own tests ----

#[test]
fn mod_test_full_lifecycle() {
    let mut t = setup();
    let hid = create(&mut t, vec![6000, 4000], 100);
    assert_eq!(hid, 1);
    let (judge1, judge2) = (a(50), a(51));
    t.hack.add_judge(hid, judge1).unwrap();
    t.hack.add_judge(hid, judge2).unwrap();
    assert_eq!(t.hack.get_hackathon(hid).unwrap().judge_count, 2);

    let (lead1, lead2) = (a(100), a(101));
    t.rep.init_profile(&t.env, lead1).unwrap();
    t.rep.init_profile(&t.env, lead2).unwrap();
    t.env.timestamp = 500;
    t.hack.register_team(&mut t.env, hid, lead1).unwrap();
    t.hack.register_team(&mut t.env, hid, lead2).unwrap();
    assert_eq!(t.hack.get_hackathon(hid).unwrap().submission_count, 2);

    t.env.timestamp = 1500;
    t.hack.submit_project(&mut t.env, hid, lead1, String::from("ipfs://project-a")).unwrap();
    t.hack.submit_project(&mut t.env, hid, lead2, String::from("ipfs://project-b")).unwrap();

    t.env.timestamp = 2500;
    t.hack.open_judging(&t.env, hid).unwrap();
    t.hack.score_submission(&mut t.env, hid, judge1, lead1, 90).unwrap();
    t.hack.score_submission(&mut t.env, hid, judge2, lead1, 80).unwrap();
    t.hack.score_submission(&mut t.env, hid, judge1, lead2, 70).unwrap();
    t.hack.score_submission(&mut t.env, hid, judge2, lead2, 60).unwrap();
    let sub1 = t.hack.get_submission(hid, lead1).unwrap();
    assert_eq!(sub1.total_score, 170);
    assert_eq!(sub1.score_count, 2);
    let sub2 = t.hack.get_submission(hid, lead2).unwrap();
    assert_eq!(sub2.total_score, 130);
    assert_eq!(sub2.score_count, 2);

    t.env.timestamp = 3500;
    let lead1_balance_before = balance(&t.env, 100);
    let lead2_balance_before = balance(&t.env, 101);
    t.hack.finalize_hackathon(&mut t.env, &mut t.rep, hid).unwrap();
    assert_eq!(t.hack.get_hackathon(hid).unwrap().status, HackathonStatus::Completed);
    assert_eq!(balance(&t.env, 100), lead1_balance_before);
    assert_eq!(balance(&t.env, 101), lead2_balance_before);

    let w1 = t.hack.get_winner_by_address(hid, lead1).unwrap();
    assert_eq!(w1.rank, 0);
    assert_eq!(w1.amount, 6000);
    assert!(!w1.claimed);
    let w2 = t.hack.get_winner_by_address(hid, lead2).unwrap();
    assert_eq!(w2.rank, 1);
    assert_eq!(w2.amount, 4000);
    assert!(!w2.claimed);
    assert_eq!(t.hack.get_winner_count(hid), 2);

    let claimed1 = t.hack.claim_prize(&mut t.env, &mut t.escrow, hid, lead1).unwrap();
    let claimed2 = t.hack.claim_prize(&mut t.env, &mut t.escrow, hid, lead2).unwrap();
    assert_eq!(claimed1, 6000);
    assert_eq!(claimed2, 4000);
    assert_eq!(balance(&t.env, 100) - lead1_balance_before, 6000);
    assert_eq!(balance(&t.env, 101) - lead2_balance_before, 4000);

    let result = t.hack.claim_prize(&mut t.env, &mut t.escrow, hid, lead1);
    assert!(result.is_err(), "second claim should fail with AlreadyClaimed");

    let profile1 = t.rep.get_profile(lead1).unwrap();
    assert!(profile1.hackathons_entered >= 1);
    assert!(profile1.hackathons_won >= 1);
    assert!(profile1.overall_score >= 100);
    let profile2 = t.rep.get_profile(lead2).unwrap();
    assert!(profile2.hackathons_entered >= 1);
    assert_eq!(profile2.hackathons_won, 0);
}

#[test]
fn test_reclaim_unclaimed_prizes() {
    let mut t = setup();
    let hid = t
        .hack
        .create_hackathon(
            &mut t.env, &mut t.escrow, a(ADMIN), String::from("Reclaim Test"), String::from("QmReclaim"), 10_000,
            a(TOKEN), 1000, 2000, 3000, 50, vec![10000],
        )
        .unwrap();
    let judge = a(50);
    t.hack.add_judge(hid, judge).unwrap();
    let lead1 = a(100);
    t.rep.init_profile(&t.env, lead1).unwrap();
    t.env.timestamp = 500;
    t.hack.register_team(&mut t.env, hid, lead1).unwrap();
    t.env.timestamp = 1500;
    t.hack.submit_project(&mut t.env, hid, lead1, String::from("ipfs://r")).unwrap();
    t.env.timestamp = 2500;
    t.hack.open_judging(&t.env, hid).unwrap();
    t.hack.score_submission(&mut t.env, hid, judge, lead1, 95).unwrap();

    t.env.timestamp = 3500;
    let creator_balance_before = balance(&t.env, ADMIN);
    let lead1_balance_before = balance(&t.env, 100);
    t.hack.finalize_hackathon(&mut t.env, &mut t.rep, hid).unwrap();
    let winner = t.hack.get_winner_by_address(hid, lead1).unwrap();
    assert_eq!(winner.amount, 10_000);
    assert!(!winner.claimed);

    let early = t.hack.reclaim_unclaimed_prizes(&mut t.env, &mut t.escrow, hid);
    assert!(early.is_err(), "reclaim before claim_deadline should be rejected");
    assert_eq!(balance(&t.env, 100), lead1_balance_before);

    t.env.timestamp = winner.claim_deadline + 1;
    let reclaimed = t.hack.reclaim_unclaimed_prizes(&mut t.env, &mut t.escrow, hid).unwrap();
    assert_eq!(reclaimed, 10_000);
    assert_eq!(balance(&t.env, ADMIN) - creator_balance_before, 10_000);
    assert_eq!(balance(&t.env, 100), lead1_balance_before);

    let post = t.hack.claim_prize(&mut t.env, &mut t.escrow, hid, lead1);
    assert!(post.is_err(), "claim after reclaim should fail");
}

#[test]
fn test_create_and_fund_hackathon_alias() {
    let mut t = setup();
    let creator_balance_before = balance(&t.env, ADMIN);
    let hid = t
        .hack
        .create_and_fund_hackathon(
            &mut t.env, &mut t.escrow, a(ADMIN), String::from("Aliased"), String::from("QmAlias"), 7_500, a(TOKEN),
            1000, 2000, 3000, 10, vec![10000],
        )
        .unwrap();
    assert_eq!(hid, 1);
    assert_eq!(t.hack.get_hackathon(hid).unwrap().prize_pool, 7_500);
    assert_eq!(creator_balance_before - balance(&t.env, ADMIN), 7_500);
}

#[test]
fn test_set_claim_window_bounds() {
    let mut t = setup();
    t.hack.set_claim_window(30 * 86_400).unwrap();
    assert_eq!(t.hack.get_claim_window(), 30 * 86_400);
    let too_short = t.hack.set_claim_window(3600);
    assert!(too_short.is_err());
    let too_long = t.hack.set_claim_window(400 * 86_400);
    assert!(too_long.is_err());
}

#[test]
fn test_disqualify_submission() {
    let mut t = setup();
    let hid = t
        .hack
        .create_hackathon(
            &mut t.env, &mut t.escrow, a(ADMIN), String::from("DQ Test"), String::from("QmDQ"), 10_000, a(TOKEN),
            1000, 2000, 3000, 50, vec![10000],
        )
        .unwrap();
    let judge = a(50);
    t.hack.add_judge(hid, judge).unwrap();
    let (lead1, lead2) = (a(100), a(101));
    t.rep.init_profile(&t.env, lead1).unwrap();
    t.rep.init_profile(&t.env, lead2).unwrap();
    t.env.timestamp = 500;
    t.hack.register_team(&mut t.env, hid, lead1).unwrap();
    t.hack.register_team(&mut t.env, hid, lead2).unwrap();
    t.env.timestamp = 1500;
    t.hack.submit_project(&mut t.env, hid, lead1, String::from("ipfs://dq-a")).unwrap();
    t.hack.submit_project(&mut t.env, hid, lead2, String::from("ipfs://dq-b")).unwrap();
    t.env.timestamp = 2500;
    t.hack.open_judging(&t.env, hid).unwrap();
    t.hack.score_submission(&mut t.env, hid, judge, lead1, 95).unwrap();
    t.hack.score_submission(&mut t.env, hid, judge, lead2, 80).unwrap();
    t.hack.disqualify_submission(hid, lead1).unwrap();
    assert!(t.hack.get_submission(hid, lead1).unwrap().disqualified);

    t.env.timestamp = 3500;
    let lead2_balance_before = balance(&t.env, 101);
    t.hack.finalize_hackathon(&mut t.env, &mut t.rep, hid).unwrap();
    assert_eq!(balance(&t.env, 101), lead2_balance_before);
    let winner = t.hack.get_winner_by_address(hid, lead2).unwrap();
    assert_eq!(winner.rank, 0);
    assert_eq!(winner.amount, 10_000);
    let dq_lookup = t.hack.get_winner_by_address(hid, lead1);
    assert!(dq_lookup.is_err());
    let claimed = t.hack.claim_prize(&mut t.env, &mut t.escrow, hid, lead2).unwrap();
    assert_eq!(claimed, 10_000);
    assert_eq!(balance(&t.env, 101) - lead2_balance_before, 10_000);
    assert_eq!(balance(&t.env, 100), 0);
}

// ---- own tests ----

#[test]
fn hackathon_finalize_and_claim_errors() {
    let mut t = setup();
    let hid = create(&mut t, vec![10000], 10);
    let judge = a(50);
    t.hack.add_judge(hid, judge).unwrap();
    t.env.timestamp = 500;
    t.hack.register_team(&mut t.env, hid, a(100)).unwrap();
    t.env.timestamp = 1500;
    t.hack.submit_project(&mut t.env, hid, a(100), String::from("ipfs://p")).unwrap();
    assert_eq!(t.hack.open_judging(&t.env, hid), Err(Error::JudgingNotActive));
    assert_eq!(t.hack.finalize_hackathon(&mut t.env, &mut t.rep, hid), Err(Error::JudgingNotOver));
    assert_eq!(t.hack.claim_prize(&mut t.env, &mut t.escrow, hid, a(100)), Err(Error::InvalidStatus));
    t.env.timestamp = 3001;
    t.hack.finalize_hackathon(&mut t.env, &mut t.rep, hid).unwrap();
    assert_eq!(t.hack.finalize_hackathon(&mut t.env, &mut t.rep, hid), Err(Error::InvalidStatus));
    assert_eq!(t.hack.claim_prize(&mut t.env, &mut t.escrow, hid, a(101)), Err(Error::NotAWinner));
    let w = t.hack.get_winner(hid, 0).unwrap();
    assert_eq!(w.claim_deadline, 3001 + 7_776_000);
    t.env.timestamp = w.claim_deadline + 1;
    assert_eq!(t.hack.claim_prize(&mut t.env, &mut t.escrow, hid, a(100)), Err(Error::ClaimWindowClosed));
    assert_eq!(t.hack.reclaim_unclaimed_prizes(&mut t.env, &mut t.escrow, hid), Ok(10_000));
    assert_eq!(t.hack.reclaim_unclaimed_prizes(&mut t.env, &mut t.escrow, hid), Ok(0));
    assert_eq!(t.hack.claim_prize(&mut t.env, &mut t.escrow, hid, a(100)), Err(Error::AlreadyClaimed));
}

#[test]
fn hackathon_prize_tiers_must_sum_to_whole() {
    let mut t = setup();
    let r = t.hack.create_hackathon(
        &mut t.env, &mut t.escrow, a(ADMIN), String::from("x"), String::from("y"), 10_000, a(TOKEN),
        1000, 2000, 3000, 10, vec![6000, 3000],
    );
    assert_eq!(r, Err(Error::InvalidPrizeTiers));
    let r = t.hack.create_hackathon(
        &mut t.env, &mut t.escrow, a(ADMIN), String::from("x"), String::from("y"), 10_000, a(TOKEN),
        2000, 1000, 3000, 10, vec![10000],
    );
    assert_eq!(r, Err(Error::InvalidDeadlines));
    assert!(t.env.transfers.is_empty());
}

#[test]
fn hackathon_registration_rules() {
    let mut t = setup();
    let hid = create(&mut t, vec![10000], 1);
    t.env.timestamp = 500;
    t.hack.register_team(&mut t.env, hid, a(100)).unwrap();
    assert_eq!(t.hack.register_team(&mut t.env, hid, a(100)), Err(Error::AlreadyRegistered));
    assert_eq!(t.hack.register_team(&mut t.env, hid, a(101)), Err(Error::MaxParticipantsReached));
    t.env.timestamp = 1001;
    assert_eq!(t.hack.register_team(&mut t.env, hid, a(102)), Err(Error::RegistrationClosed));
}

#[test]
fn hackathon_scoring_rules() {
    let mut t = setup();
    let hid = create(&mut t, vec![10000], 10);
    let judge = a(50);
    t.hack.add_judge(hid, judge).unwrap();
    assert_eq!(t.hack.add_judge(hid, judge), Err(Error::AlreadyJudge));
    t.env.timestamp = 500;
    t.hack.register_team(&mut t.env, hid, a(100)).unwrap();
    t.env.timestamp = 1500;
    t.hack.submit_project(&mut t.env, hid, a(100), String::from("ipfs://p")).unwrap();
    assert_eq!(
        t.hack.score_submission(&mut t.env, hid, judge, a(100), 50),
        Err(Error::JudgingNotActive)
    );
    t.env.timestamp = 2500;
    assert_eq!(t.hack.score_submission(&mut t.env, hid, a(51), a(100), 50), Err(Error::NotAJudge));
    assert_eq!(t.hack.score_submission(&mut t.env, hid, judge, a(100), 101), Err(Error::InvalidScore));
    t.hack.score_submission(&mut t.env, hid, judge, a(100), 50).unwrap();
    assert_eq!(t.hack.score_submission(&mut t.env, hid, judge, a(100), 60), Err(Error::AlreadyScored));
    t.hack.remove_judge(hid, judge).unwrap();
    assert_eq!(t.hack.remove_judge(hid, judge), Err(Error::JudgeNotFound));
}

#[test]
fn hackathon_equal_averages_keep_registration_order() {
    let mut t = setup();
    let hid = create(&mut t, vec![5000, 3000, 2000], 10);
    let judge = a(50);
    t.hack.add_judge(hid, judge).unwrap();
    t.env.timestamp = 500;
    for lead in [100u64, 101, 102] {
        t.hack.register_team(&mut t.env, hid, a(lead)).unwrap();
    }
    t.env.timestamp = 1500;
    for lead in [100u64, 101, 102] {
        t.hack.submit_project(&mut t.env, hid, a(lead), String::from("ipfs://p")).unwrap();
    }
    t.env.timestamp = 2500;
    t.hack.score_submission(&mut t.env, hid, judge, a(100), 70).unwrap();
    t.hack.score_submission(&mut t.env, hid, judge, a(101), 90).unwrap();
    t.hack.score_submission(&mut t.env, hid, judge, a(102), 70).unwrap();
    t.env.timestamp = 3500;
    t.hack.finalize_hackathon(&mut t.env, &mut t.rep, hid).unwrap();
    assert_eq!(t.hack.get_winner(hid, 0).unwrap().winner, a(101));
    assert_eq!(t.hack.get_winner(hid, 1).unwrap().winner, a(100));
    assert_eq!(t.hack.get_winner(hid, 2).unwrap().winner, a(102));
    assert_eq!(t.hack.get_winner(hid, 1).unwrap().amount, 3000);
}
