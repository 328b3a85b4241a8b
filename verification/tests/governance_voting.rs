use boundless::env::Env;
use boundless::governance_voting::{Error, GovernanceVoting, VoteContext, VoteStatus};
use boundless::types::Address;

fn a(id: u64) -> Address {
    Address::new(id)
}

const GOV: u64 = 1;
const ADMIN: u64 = 2;
const MODULE: u64 = 3;

fn setup_env() -> (Env, GovernanceVoting) {
    let env = Env::new(1_000);
    let mut gov = GovernanceVoting::new(a(GOV));
    gov.init(a(ADMIN)).unwrap();
    gov.add_authorized_module(a(MODULE)).unwrap();
    (env, gov)
}

fn opts(labels: &[&str]) -> Vec<String> {
    labels.iter().map(|s| String::from(*s)).collect()
}

#[test]
fn test_voting_flow() {
    let (mut env, mut gov) = setup_env();
    let start = env.timestamp;
    let end = start + 1000;
    let options = opts(&["Yes", "No"]);
    let sid = gov
        .create_session(&mut env, a(MODULE), VoteContext::CampaignValidation, 99, &options, start, end, Some(2), None, false)
        .unwrap();
    gov.cast_vote(&mut env, a(10), sid, 0).unwrap();
    let session = gov.get_session(sid).unwrap();
    assert_eq!(session.total_votes, 1);
    let opt = gov.get_option(sid, 0).unwrap();
    assert_eq!(opt.votes, 1);
    assert!(!session.threshold_reached);
    gov.cast_vote(&mut env, a(11), sid, 0).unwrap();
    assert!(gov.get_session(sid).unwrap().threshold_reached);
}

#[test]
fn test_conclude_session() {
    let (mut env, mut gov) = setup_env();
    let start = env.timestamp;
    let end = start + 1000;
    let options = opts(&["Yes"]);
    let sid = gov
        .create_session(&mut env, a(MODULE), VoteContext::CampaignValidation, 50, &options, start, end, None, None, false)
        .unwrap();
    assert!(gov.conclude_session(&mut env, sid).is_err());
    env.timestamp = end + 1;
    gov.conclude_session(&mut env, sid).unwrap();
    assert_eq!(gov.get_session(sid).unwrap().status, VoteStatus::Concluded);
}

#[test]
fn test_double_vote_rejected() {
    let (mut env, mut gov) = setup_env();
    let start = env.timestamp;
    let end = start + 1000;
    let options = opts(&["Yes", "No"]);
    let sid = gov
        .create_session(&mut env, a(MODULE), VoteContext::CampaignValidation, 77, &options, start, end, None, None, false)
        .unwrap();
    gov.cast_vote(&mut env, a(10), sid, 0).unwrap();
    assert!(gov.cast_vote(&mut env, a(10), sid, 1).is_err());
}

#[test]
fn test_qf_logic() {
    let (mut env, mut gov) = setup_env();
    let start = env.timestamp;
    let end = start + 1000;
    let options = opts(&["P0", "P1", "P2"]);
    let sid = gov
        .create_session(&mut env, a(MODULE), VoteContext::QFRound, 123, &options, start, end, None, None, false)
        .unwrap();
    gov.record_qf_donation(&mut env, sid, a(MODULE), 100, 1).unwrap();
    gov.record_qf_donation(&mut env, sid, a(MODULE), 100, 1).unwrap();
    gov.record_qf_donation(&mut env, sid, a(MODULE), 400, 2).unwrap();
    env.timestamp = end + 1;
    let distribution = gov.compute_qf_distribution(&env, sid, 1000).unwrap();
    let mut p1_share = 0i128;
    let mut p2_share = 0i128;
    for (pid, share) in distribution.iter() {
        if *pid == 1 {
            p1_share = *share;
        }
        if *pid == 2 {
            p2_share = *share;
        }
    }
    assert_eq!(p1_share, 500);
    assert_eq!(p2_share, 500);
}

#[test]
fn test_cancel_session() {
    let (mut env, mut gov) = setup_env();
    let start = env.timestamp;
    let end = start + 1000;
    let options = opts(&["A"]);
    let sid = gov
        .create_session(&mut env, a(MODULE), VoteContext::RetrospectiveGrant, 42, &options, start, end, None, None, false)
        .unwrap();
    gov.cancel_session(sid).unwrap();
    assert_eq!(gov.get_session(sid).unwrap().status, VoteStatus::Cancelled);
}

// ---- own tests ----

#[test]
fn governance_errors() {
    let (mut env, mut gov) = setup_env();
    let start = env.timestamp;
    let options = opts(&["Yes", "No"]);
    assert_eq!(
        gov.create_session(&mut env, a(99), VoteContext::CampaignValidation, 1, &options, start, start + 10, None, None, false),
        Err(Error::ModuleNotAuthorized)
    );
    assert_eq!(
        gov.create_session(&mut env, a(MODULE), VoteContext::CampaignValidation, 1, &options, start + 10, start + 10, None, None, false),
        Err(Error::InvalidTimeRange)
    );
    let sid = gov
        .create_session(&mut env, a(MODULE), VoteContext::CampaignValidation, 1, &options, start + 5, start + 10, None, None, false)
        .unwrap();
    assert_eq!(gov.cast_vote(&mut env, a(10), sid, 0), Err(Error::VotingNotStarted));
    env.timestamp = start + 6;
    assert_eq!(gov.cast_vote(&mut env, a(10), sid, 5), Err(Error::InvalidOption));
    gov.cast_vote(&mut env, a(10), sid, 1).unwrap();
    assert_eq!(gov.cast_vote(&mut env, a(10), sid, 0), Err(Error::AlreadyVoted));
    assert!(gov.has_voted(sid, a(10)));
    assert!(!gov.has_voted(sid, a(11)));
    assert_eq!(gov.init(a(ADMIN)), Err(Error::AlreadyInitialized));
}

#[test]
fn governance_session_ids_differ() {
    let (mut env, mut gov) = setup_env();
    let start = env.timestamp;
    let options = opts(&["Yes"]);
    let s1 = gov
        .create_session(&mut env, a(MODULE), VoteContext::CampaignValidation, 1, &options, start, start + 10, None, None, false)
        .unwrap();
    let s2 = gov
        .create_session(&mut env, a(MODULE), VoteContext::CampaignValidation, 2, &options, start, start + 10, None, None, false)
        .unwrap();
    assert_ne!(s1, s2);
}

#[test]
fn governance_qf_single_project_gets_whole_pool() {
    let (mut env, mut gov) = setup_env();
    let start = env.timestamp;
    let options = opts(&["P0", "P1"]);
    let sid = gov
        .create_session(&mut env, a(MODULE), VoteContext::QFRound, 9, &options, start, start + 10, None, None, false)
        .unwrap();
    gov.record_qf_donation(&mut env, sid, a(MODULE), 900, 0).unwrap();
    env.timestamp = start + 11;
    let d = gov.compute_qf_distribution(&env, sid, 777).unwrap();
    let total: i128 = d.iter().map(|(_, s)| *s).sum();
    assert!(total <= 777);
    let p0: i128 = d.iter().filter(|(p, _)| *p == 0).map(|(_, s)| *s).sum();
    assert_eq!(p0, 777);
}
