use boundless::env::Env;
use boundless::reputation_registry::{ReputationError, ReputationRegistry};
use boundless::types::{ActivityCategory, Address};

fn a(id: u64) -> Address {
    Address::new(id)
}

const REP: u64 = 1;
const ADMIN: u64 = 2;
const MODULE: u64 = 3;

fn setup_env() -> (Env, ReputationRegistry) {
    let mut env = Env::new(1_000);
    let mut rep = ReputationRegistry::new(a(REP));
    rep.init(a(ADMIN)).unwrap();
    rep.add_authorized_module(&mut env, a(MODULE)).unwrap();
    (env, rep)
}

#[test]
fn test_init_and_profile() {
    let (env, mut rep) = setup_env();
    let user = a(10);
    rep.init_profile(&env, user).unwrap();
    let profile = rep.get_profile(user).unwrap();
    assert_eq!(profile.overall_score, 0);
    assert_eq!(profile.level, 0);
    assert_eq!(profile.bounties_completed, 0);
}

#[test]
fn test_record_completion_and_leveling() {
    let (mut env, mut rep) = setup_env();
    let user = a(10);
    rep.init_profile(&env, user).unwrap();
    rep.record_completion(&mut env, a(MODULE), user, ActivityCategory::Development, 100).unwrap();
    let profile = rep.get_profile(user).unwrap();
    assert_eq!(profile.overall_score, 100);
    assert_eq!(profile.level, 3);
    assert_eq!(profile.bounties_completed, 1);
}

#[test]
fn test_record_penalty() {
    let (mut env, mut rep) = setup_env();
    let user = a(10);
    rep.init_profile(&env, user).unwrap();
    rep.record_completion(&mut env, a(MODULE), user, ActivityCategory::Security, 50).unwrap();
    assert_eq!(rep.get_profile(user).unwrap().overall_score, 50);
    rep.record_penalty(&mut env, user, 20).unwrap();
    assert_eq!(rep.get_profile(user).unwrap().overall_score, 30);
    rep.record_penalty(&mut env, user, 100).unwrap();
    assert_eq!(rep.get_profile(user).unwrap().overall_score, 0);
}

#[test]
fn test_hackathon_result() {
    let (mut env, mut rep) = setup_env();
    let user = a(10);
    rep.init_profile(&env, user).unwrap();
    rep.record_hackathon_result(&mut env, a(MODULE), user, 30, true).unwrap();
    let profile = rep.get_profile(user).unwrap();
    assert_eq!(profile.hackathons_entered, 1);
    assert_eq!(profile.hackathons_won, 1);
    assert_eq!(profile.overall_score, 30);
}

#[test]
fn test_spark_credits_lifecycle() {
    let (mut env, mut rep) = setup_env();
    let user = a(10);
    rep.init_profile(&env, user).unwrap();
    assert_eq!(rep.get_credits(user).unwrap(), 3);
    assert!(rep.can_apply(user));

    assert!(rep.spend_credit(&mut env, a(MODULE), user).unwrap());
    assert_eq!(rep.get_credits(user).unwrap(), 2);
    rep.spend_credit(&mut env, a(MODULE), user).unwrap();
    rep.spend_credit(&mut env, a(MODULE), user).unwrap();
    assert_eq!(rep.get_credits(user).unwrap(), 0);
    assert!(!rep.can_apply(user));

    assert!(!rep.spend_credit(&mut env, a(MODULE), user).unwrap());

    rep.restore_credit(a(MODULE), user).unwrap();
    assert_eq!(rep.get_credits(user).unwrap(), 1);
    rep.award_credits(&mut env, a(MODULE), user, 3).unwrap();
    assert_eq!(rep.get_credits(user).unwrap(), 4);
}

#[test]
fn test_credits_recharge() {
    let (mut env, mut rep) = setup_env();
    let user = a(10);
    rep.init_profile(&env, user).unwrap();
    rep.spend_credit(&mut env, a(MODULE), user).unwrap();
    rep.spend_credit(&mut env, a(MODULE), user).unwrap();
    rep.spend_credit(&mut env, a(MODULE), user).unwrap();
    assert_eq!(rep.get_credits(user).unwrap(), 0);

    assert!(rep.try_recharge(&mut env, user).is_err());

    env.timestamp += 1_209_601;
    rep.try_recharge(&mut env, user).unwrap();
    assert_eq!(rep.get_credits(user).unwrap(), 3);
}

#[test]
fn test_credits_capped_at_max() {
    let (mut env, mut rep) = setup_env();
    let user = a(10);
    rep.init_profile(&env, user).unwrap();
    rep.award_credits(&mut env, a(MODULE), user, 100).unwrap();
    assert_eq!(rep.get_credits(user).unwrap(), 10);
}

#[test]
fn test_unauthorized_module_rejected() {
    let (mut env, mut rep) = setup_env();
    let user = a(10);
    rep.init_profile(&env, user).unwrap();
    let result = rep.record_completion(&mut env, a(99), user, ActivityCategory::Development, 10);
    assert!(result.is_err());
}

// ---- own tests ----

#[test]
fn reputation_level_formula() {
    // level = floor(sqrt(score / 10))
    assert_eq!(ReputationRegistry::compute_level(0), 0);
    assert_eq!(ReputationRegistry::compute_level(9), 0);
    assert_eq!(ReputationRegistry::compute_level(10), 1);
    assert_eq!(ReputationRegistry::compute_level(39), 1);
    assert_eq!(ReputationRegistry::compute_level(40), 2);
    assert_eq!(ReputationRegistry::compute_level(100), 3);
    assert_eq!(ReputationRegistry::compute_level(1000), 10);
    assert_eq!(ReputationRegistry::compute_level(u32::MAX), 20724);
}

#[test]
fn reputation_level_never_decreases_with_score() {
    let mut prev = 0;
    for s in (0u32..5000).step_by(7) {
        let l = ReputationRegistry::compute_level(s);
        assert!(l >= prev);
        prev = l;
    }
}

#[test]
fn reputation_errors() {
    let (mut env, mut rep) = setup_env();
    assert_eq!(rep.init(a(ADMIN)), Err(ReputationError::AlreadyInitialized));
    assert_eq!(rep.get_profile(a(77)).map(|p| p.level), Err(ReputationError::ProfileNotFound));
    let user = a(10);
    rep.init_profile(&env, user).unwrap();
    assert_eq!(
        rep.spend_credit(&mut env, a(99), user),
        Err(ReputationError::ModuleNotAuthorized)
    );
    assert_eq!(rep.try_recharge(&mut env, user), Err(ReputationError::RechargeNotReady));
    let fresh = ReputationRegistry::new(a(REP));
    assert_eq!(fresh.upgrade(boundless::types::BytesN32 { bytes: [1u8; 32] }), Err(ReputationError::NotInitialized));
}

#[test]
fn reputation_category_score_and_meets_requirements() {
    let (mut env, mut rep) = setup_env();
    let user = a(10);
    rep.init_profile(&env, user).unwrap();
    rep.record_completion(&mut env, a(MODULE), user, ActivityCategory::Design, 40).unwrap();
    let p = rep.get_profile(user).unwrap();
    assert_eq!(p.category_scores.design, 40);
    assert_eq!(p.category_scores.development, 0);
    assert_eq!(rep.get_level(user).unwrap(), 2);
    assert_eq!(rep.meets_requirements(user, 2), Ok(true));
    assert_eq!(rep.meets_requirements(user, 3), Ok(false));
}

#[test]
fn reputation_restore_undoes_spend() {
    let (mut env, mut rep) = setup_env();
    let user = a(10);
    rep.init_profile(&env, user).unwrap();
    let before = rep.get_credits(user).unwrap();
    rep.spend_credit(&mut env, a(MODULE), user).unwrap();
    rep.restore_credit(a(MODULE), user).unwrap();
    assert_eq!(rep.get_credits(user).unwrap(), before);
}
