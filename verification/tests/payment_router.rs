use boundless::core_escrow::CoreEscrow;
use boundless::env::Env;
use boundless::payment_router::{Error, PaymentRouter};
use boundless::types::{Address, ModuleType};

const ESCROW: u64 = 1;
const ROUTER: u64 = 2;
const ESCROW_ADMIN: u64 = 3;
const ADMIN: u64 = 4;
const TREASURY: u64 = 5;
const TOKEN: u64 = 6;
const PAYER: u64 = 7;

fn a(id: u64) -> Address {
    Address::new(id)
}

/// The balance of `who`: what was minted to it plus what the recorded
/// transfers moved in, less what they moved out.
fn balance(env: &Env, who: u64) -> i128 {
    let mut b: i128 = if who == PAYER { 10_000 } else { 0 };
    for t in env.transfers.iter() {
        if t.asset.id == TOKEN {
            if t.to.id == who {
                b += t.amount;
            }
            if t.from.id == who {
                b -= t.amount;
            }
        }
    }
    b
}

#[test]
fn test_initialize_and_route_deposit() {
    let mut env = Env::new(1_000);
    let mut escrow = CoreEscrow::new(a(ESCROW));
    escrow.init(a(ESCROW_ADMIN), a(ESCROW_ADMIN)).unwrap();
    let mut router = PaymentRouter::new(a(ROUTER));
    router.init_payment_router(a(ADMIN), a(TREASURY), a(ESCROW)).unwrap();

    // Hackathon fee 4%: fee 40, insurance 5% of it = 2, treasury 38.
    let net_amount = router
        .route_deposit(&mut env, &mut escrow, a(PAYER), 1000, a(TOKEN), ModuleType::Hackathon)
        .unwrap();
    assert_eq!(net_amount, 960);
    assert_eq!(balance(&env, TREASURY), 38);
    assert_eq!(balance(&env, ESCROW), 2);
    assert_eq!(balance(&env, PAYER), 9960);

    router.set_fee_rate(&mut env, ModuleType::Crowdfund, 1000).unwrap();
    let net_amount2 = router
        .route_deposit(&mut env, &mut escrow, a(PAYER), 1000, a(TOKEN), ModuleType::Crowdfund)
        .unwrap();
    assert_eq!(net_amount2, 900);
    assert_eq!(balance(&env, TREASURY), 38 + 95);
    assert_eq!(balance(&env, ESCROW), 2 + 5);
    assert_eq!(balance(&env, PAYER), 9960 - 100);
}

// ---- own tests ----

#[test]
fn router_rate_limit_and_init_errors() {
    let mut env = Env::new(1_000);
    let mut router = PaymentRouter::new(a(ROUTER));
    assert_eq!(router.set_fee_rate(&mut env, ModuleType::Bounty, 100), Err(Error::NotInitialized));
    router.init_payment_router(a(ADMIN), a(TREASURY), a(ESCROW)).unwrap();
    assert_eq!(router.init_payment_router(a(ADMIN), a(TREASURY), a(ESCROW)), Err(Error::AlreadyInitialized));
    assert_eq!(router.set_fee_rate(&mut env, ModuleType::Bounty, 10_001), Err(Error::RateExceedsLimit));
    router.set_fee_rate(&mut env, ModuleType::Bounty, 10_000).unwrap();
}

#[test]
fn router_fee_never_exceeds_deposit() {
    let mut env = Env::new(1_000);
    let mut escrow = CoreEscrow::new(a(ESCROW));
    escrow.init(a(ESCROW_ADMIN), a(ESCROW_ADMIN)).unwrap();
    let mut router = PaymentRouter::new(a(ROUTER));
    router.init_payment_router(a(ADMIN), a(TREASURY), a(ESCROW)).unwrap();
    router.set_fee_rate(&mut env, ModuleType::Grant, 10_000).unwrap();
    let net = router
        .route_deposit(&mut env, &mut escrow, a(PAYER), 777, a(TOKEN), ModuleType::Grant)
        .unwrap();
    assert_eq!(net, 0);
    // fee 777: insurance floor(777 * 500 / 10000) = 38, treasury 739
    assert_eq!(balance(&env, ESCROW), 38);
    assert_eq!(balance(&env, TREASURY), 739);
}

#[test]
fn router_zero_fee_moves_nothing() {
    let mut env = Env::new(1_000);
    let mut escrow = CoreEscrow::new(a(ESCROW));
    escrow.init(a(ESCROW_ADMIN), a(ESCROW_ADMIN)).unwrap();
    let mut router = PaymentRouter::new(a(ROUTER));
    router.init_payment_router(a(ADMIN), a(TREASURY), a(ESCROW)).unwrap();
    router.set_fee_rate(&mut env, ModuleType::Bounty, 0).unwrap();
    let net = router
        .route_deposit(&mut env, &mut escrow, a(PAYER), 500, a(TOKEN), ModuleType::Bounty)
        .unwrap();
    assert_eq!(net, 500);
    assert_eq!(balance(&env, PAYER), 10_000);
}
