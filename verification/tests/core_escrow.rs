use boundless::core_escrow::{CoreEscrow, EscrowError};
use boundless::env::Env;
use boundless::types::{Address, ModuleType, SubType};

const ESCROW: u64 = 1;
const ADMIN: u64 = 2;
const TREASURY: u64 = 3;
const TOKEN: u64 = 4;

/// The balance of `who` in `token`: what was minted to it plus what the
/// transfers recorded in `env` moved in, less what they moved out.
fn balance(env: &Env, minted: &[(u64, i128)], token: u64, who: u64) -> i128 {
    let mut b: i128 = minted.iter().filter(|(a, _)| *a == who).map(|(_, x)| *x).sum();
    for t in env.transfers.iter() {
        if t.asset.id == token {
            if t.to.id == who {
                b += t.amount;
            }
            if t.from.id == who {
                b -= t.amount;
            }
        }
    }
    b
}

fn a(id: u64) -> Address {
    Address::new(id)
}

fn setup() -> (Env, CoreEscrow) {
    let env = Env::new(1_000);
    let mut escrow = CoreEscrow::new(a(ESCROW));
    escrow.init(a(ADMIN), a(TREASURY)).unwrap();
    (env, escrow)
}

#[test]
fn test_init_and_queries() {
    let (_env, escrow) = setup();
    assert_eq!(escrow.get_admin().unwrap(), a(ADMIN));
    assert_eq!(escrow.get_treasury().unwrap(), a(TREASURY));
    assert_eq!(escrow.get_insurance_balance(), 0);
}

#[test]
fn test_create_pool_and_lock() {
    let (mut env, mut escrow) = setup();
    let owner = 10;
    let deadline = env.timestamp + 86400;
    let pool_id = escrow.create_pool(&mut env, a(owner), ModuleType::Bounty, 1, 10_000, a(TOKEN), deadline, a(11)).unwrap();
    let pool = escrow.get_pool(pool_id).unwrap();
    assert_eq!(pool.total_deposited, 10_000);
    assert!(!pool.locked);
    assert_eq!(pool.owner, a(owner));
    escrow.lock_pool(&mut env, pool_id).unwrap();
    assert!(escrow.get_pool(pool_id).unwrap().locked);
}

#[test]
fn test_define_and_release_slots() {
    let (mut env, mut escrow) = setup();
    let minted = [(10u64, 100_000i128)];
    let deadline = env.timestamp + 86400;
    let pool_id = escrow.create_pool(&mut env, a(10), ModuleType::Bounty, 2, 10_000, a(TOKEN), deadline, a(11)).unwrap();
    let slots = vec![(a(20), 6_000i128), (a(21), 4_000i128)];
    escrow.define_release_slots(pool_id, &slots).unwrap();
    escrow.release_slot(&mut env, pool_id, 0).unwrap();
    assert!(escrow.get_slot(pool_id, 0).unwrap().released);
    assert_eq!(balance(&env, &minted, TOKEN, 20), 6_000);
    escrow.release_slot(&mut env, pool_id, 1).unwrap();
    assert_eq!(balance(&env, &minted, TOKEN, 21), 4_000);
    assert_eq!(escrow.get_pool(pool_id).unwrap().total_released, 10_000);
}

#[test]
fn test_release_partial() {
    let (mut env, mut escrow) = setup();
    let minted = [(10u64, 100_000i128)];
    let deadline = env.timestamp + 86400;
    let pool_id = escrow.create_pool(&mut env, a(10), ModuleType::Grant, 3, 50_000, a(TOKEN), deadline, a(11)).unwrap();
    escrow.release_partial(&mut env, pool_id, a(20), 20_000).unwrap();
    assert_eq!(balance(&env, &minted, TOKEN, 20), 20_000);
    assert_eq!(escrow.get_pool(pool_id).unwrap().total_released, 20_000);
    assert_eq!(escrow.get_unreleased(pool_id).unwrap(), 30_000);
}

#[test]
fn test_refund_all() {
    let (mut env, mut escrow) = setup();
    let minted = [(10u64, 100_000i128)];
    let deadline = env.timestamp + 86400;
    let pool_id = escrow.create_pool(&mut env, a(10), ModuleType::Bounty, 4, 10_000, a(TOKEN), deadline, a(11)).unwrap();
    let before = balance(&env, &minted, TOKEN, 10);
    escrow.refund_all(&mut env, pool_id).unwrap();
    let after = balance(&env, &minted, TOKEN, 10);
    assert_eq!(after - before, 10_000);
    assert_eq!(escrow.get_pool(pool_id).unwrap().total_refunded, 10_000);
}

#[test]
fn test_refund_backers() {
    let (mut env, mut escrow) = setup();
    let minted = [(10u64, 100_000i128)];
    let deadline = env.timestamp + 86400;
    let pool_id = escrow.create_pool(&mut env, a(10), ModuleType::Crowdfund, 5, 10_000, a(TOKEN), deadline, a(11)).unwrap();
    let backers = vec![(a(30), 6_000i128), (a(31), 4_000i128)];
    escrow.refund_backers(&mut env, pool_id, &backers).unwrap();
    assert_eq!(balance(&env, &minted, TOKEN, 30), 6_000);
    assert_eq!(balance(&env, &minted, TOKEN, 31), 4_000);
}

#[test]
fn test_route_deposit_with_fees() {
    let (mut env, mut escrow) = setup();
    let minted = [(10u64, 100_000i128)];
    let deadline = env.timestamp + 86400;
    let pool_id = escrow.create_pool(&mut env, a(10), ModuleType::Bounty, 10, 0, a(TOKEN), deadline, a(11)).unwrap();
    let net = escrow.route_deposit(&mut env, a(10), pool_id, 10_000, a(TOKEN), SubType::BountyFCFS).unwrap();
    // 5% fee = 500: the treasury gets 90% of it, 450; the insurance fund 10%, 50.
    assert_eq!(net, 9_500);
    assert_eq!(balance(&env, &minted, TOKEN, TREASURY), 450);
    assert_eq!(escrow.get_insurance_balance(), 50);
    assert_eq!(escrow.get_pool(pool_id).unwrap().total_deposited, 9_500);
    let record = escrow.get_fee_record(pool_id).unwrap();
    assert_eq!(record.gross_amount, 10_000);
    assert_eq!(record.fee_amount, 500);
    assert_eq!(record.treasury_cut, 450);
    assert_eq!(record.insurance_cut, 50);
    assert_eq!(record.net_to_escrow, 9_500);
}

#[test]
fn test_route_pledge_fee_on_top() {
    let (mut env, mut escrow) = setup();
    let minted = [(40u64, 100_000i128), (10u64, 100_000i128)];
    let deadline = env.timestamp + 86400;
    let pool_id = escrow.create_pool(&mut env, a(10), ModuleType::Crowdfund, 20, 0, a(TOKEN), deadline, a(11)).unwrap();
    let pledged = escrow.route_pledge(&mut env, a(40), pool_id, 1_000, a(TOKEN)).unwrap();
    assert_eq!(pledged, 1_000);
    assert_eq!(escrow.get_pool(pool_id).unwrap().total_deposited, 1_000);
    // The fee, 5% of 1000 = 50, splits into 45 for the treasury and 5 for insurance.
    assert_eq!(balance(&env, &minted, TOKEN, TREASURY), 45);
    assert_eq!(escrow.get_insurance_balance(), 5);
    // The backer paid 1,000 + 50.
    assert_eq!(balance(&env, &minted, TOKEN, 40), 100_000 - 1_050);
}

#[test]
fn test_calculate_fee_preview() {
    let (_env, escrow) = setup();
    assert_eq!(escrow.calculate_fee(10_000, SubType::BountyFCFS).unwrap(), (500, 9_500));
    assert_eq!(escrow.calculate_fee(50_000, SubType::GrantMilestone).unwrap(), (1_500, 48_500));
    assert_eq!(escrow.calculate_fee(20_000, SubType::HackathonMain).unwrap(), (800, 19_200));
    assert_eq!(escrow.calculate_pledge_cost(1_000).unwrap(), 1_050);
}

#[test]
fn test_set_fee_rate() {
    let (mut env, mut escrow) = setup();
    escrow.set_fee_rate(&mut env, SubType::BountyFCFS, 300).unwrap();
    assert_eq!(escrow.get_fee_rate(SubType::BountyFCFS).unwrap(), 300);
    assert_eq!(escrow.get_fee_rate(SubType::GrantMilestone).unwrap(), 300);
    assert_eq!(escrow.get_fee_rate(SubType::HackathonMain).unwrap(), 400);
}

#[test]
fn test_pause_resume_routing() {
    let (mut env, mut escrow) = setup();
    let deadline = env.timestamp + 86400;
    let pool_id = escrow.create_pool(&mut env, a(10), ModuleType::Bounty, 30, 0, a(TOKEN), deadline, a(11)).unwrap();
    escrow.pause_routing().unwrap();
    let result = escrow.route_deposit(&mut env, a(10), pool_id, 10_000, a(TOKEN), SubType::BountyFCFS);
    assert!(result.is_err());
    escrow.resume_routing().unwrap();
    let net = escrow.route_deposit(&mut env, a(10), pool_id, 10_000, a(TOKEN), SubType::BountyFCFS).unwrap();
    assert_eq!(net, 9_500);
}

#[test]
fn test_insurance_claim() {
    let (mut env, mut escrow) = setup();
    let minted = [(10u64, 100_000i128)];
    let deadline = env.timestamp + 86400;
    let pool_id = escrow.create_pool(&mut env, a(10), ModuleType::Bounty, 40, 0, a(TOKEN), deadline, a(11)).unwrap();
    escrow.route_deposit(&mut env, a(10), pool_id, 10_000, a(TOKEN), SubType::BountyFCFS).unwrap();
    assert_eq!(escrow.get_insurance_balance(), 50);
    escrow.claim_insurance(&mut env, a(50), 30, a(TOKEN)).unwrap();
    assert_eq!(escrow.get_insurance_balance(), 20);
    assert_eq!(balance(&env, &minted, TOKEN, 50), 30);
}

// ── Further cases ───────────────────────────────────────────────────────────

#[test]
fn release_partial_beyond_pool_is_refused_and_changes_nothing() {
    let (mut env, mut escrow) = setup();
    let pool_id = escrow.create_pool(&mut env, a(10), ModuleType::Grant, 3, 1_000, a(TOKEN), 5_000, a(11)).unwrap();
    let transfers = env.transfers.len();
    assert_eq!(escrow.release_partial(&mut env, pool_id, a(20), 1_001), Err(EscrowError::InsufficientFunds));
    assert_eq!(env.transfers.len(), transfers);
    assert_eq!(escrow.get_unreleased(pool_id).unwrap(), 1_000);
}

#[test]
fn slot_released_twice_is_refused() {
    let (mut env, mut escrow) = setup();
    let pool_id = escrow.create_pool(&mut env, a(10), ModuleType::Bounty, 2, 100, a(TOKEN), 5_000, a(11)).unwrap();
    escrow.define_release_slots(pool_id, &vec![(a(20), 100i128)]).unwrap();
    escrow.release_slot(&mut env, pool_id, 0).unwrap();
    assert_eq!(escrow.release_slot(&mut env, pool_id, 0), Err(EscrowError::SlotAlreadyReleased));
}

#[test]
fn slots_beyond_deposit_are_refused() {
    let (mut env, mut escrow) = setup();
    let pool_id = escrow.create_pool(&mut env, a(10), ModuleType::Bounty, 2, 100, a(TOKEN), 5_000, a(11)).unwrap();
    let slots = vec![(a(20), 60i128), (a(21), 41i128)];
    assert_eq!(escrow.define_release_slots(pool_id, &slots), Err(EscrowError::SlotsExceedDeposit));
}

#[test]
fn second_pool_for_same_entity_is_refused() {
    let (mut env, mut escrow) = setup();
    escrow.create_pool(&mut env, a(10), ModuleType::Bounty, 7, 0, a(TOKEN), 5_000, a(11)).unwrap();
    let again = escrow.create_pool(&mut env, a(10), ModuleType::Bounty, 7, 0, a(TOKEN), 5_000, a(11));
    assert_eq!(again, Err(EscrowError::PoolAlreadyExists));
    assert!(escrow.create_pool(&mut env, a(10), ModuleType::Grant, 7, 0, a(TOKEN), 5_000, a(11)).is_ok());
}

#[test]
fn pool_ids_differ_between_modules() {
    let (mut env, mut escrow) = setup();
    let p1 = escrow.create_pool(&mut env, a(10), ModuleType::Bounty, 1, 0, a(TOKEN), 5_000, a(11)).unwrap();
    let p2 = escrow.create_pool(&mut env, a(10), ModuleType::Crowdfund, 1, 0, a(TOKEN), 5_000, a(11)).unwrap();
    assert_ne!(p1, p2);
    assert_eq!(boundless::hash::compute_pool_id(ModuleType::Bounty, 1), p1);
}

#[test]
fn init_twice_is_refused() {
    let (_env, mut escrow) = setup();
    assert_eq!(escrow.init(a(ADMIN), a(TREASURY)), Err(EscrowError::AlreadyInitialized));
}
