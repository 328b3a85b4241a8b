use boundless::env::Env;
use boundless::project_registry::{Error, ProjectRegistry};
use boundless::types::Address;

const REG: u64 = 1;
const ADMIN: u64 = 2;
const MODULE: u64 = 3;
const TOKEN: u64 = 4;

fn a(id: u64) -> Address {
    Address::new(id)
}

fn setup() -> (Env, ProjectRegistry) {
    let env = Env::new(1_000);
    let mut reg = ProjectRegistry::new(a(REG));
    reg.init(a(ADMIN)).unwrap();
    (env, reg)
}

#[test]
fn test_register_and_query() {
    let (mut env, mut reg) = setup();
    let owner = a(10);
    let pid = reg.register_project(&mut env, owner, String::from("ipfs://metadata")).unwrap();
    assert_eq!(pid, 1);
    let project = reg.get_project(pid).unwrap();
    assert_eq!(project.id, 1);
    assert_eq!(project.owner, owner);
    assert_eq!(project.verification_level, 0);
    assert_eq!(project.deposit_held, 0);
    assert_eq!(project.active_bounty_budget, 0);
    assert_eq!(project.bounties_posted, 0);
    assert_eq!(project.total_paid_out, 0);
    assert_eq!(project.dispute_count, 0);
    assert_eq!(project.missed_milestones, 0);
    assert_eq!(project.warning_level, 0);
    assert!(!project.suspended);
    let pid2 = reg.register_project(&mut env, a(11), String::from("ipfs://meta2")).unwrap();
    assert_eq!(pid2, 2);
}

#[test]
fn test_verification_upgrade() {
    let (mut env, mut reg) = setup();
    let pid = reg.register_project(&mut env, a(10), String::from("ipfs://meta")).unwrap();
    assert_eq!(reg.get_project(pid).unwrap().verification_level, 0);
    reg.upgrade_verification(&mut env, pid, 1).unwrap();
    assert_eq!(reg.get_project(pid).unwrap().verification_level, 1);
    reg.upgrade_verification(&mut env, pid, 2).unwrap();
    assert_eq!(reg.get_project(pid).unwrap().verification_level, 2);
}

#[test]
fn test_validate_budget() {
    let (mut env, mut reg) = setup();
    let pid = reg.register_project(&mut env, a(10), String::from("ipfs://meta")).unwrap();
    assert!(reg.validate_budget(pid, 2000).unwrap());
    assert!(!reg.validate_budget(pid, 2001).unwrap());
    reg.upgrade_verification(&mut env, pid, 1).unwrap();
    assert!(reg.validate_budget(pid, 10000).unwrap());
    assert!(!reg.validate_budget(pid, 10001).unwrap());
    reg.upgrade_verification(&mut env, pid, 2).unwrap();
    assert!(reg.validate_budget(pid, 999_999).unwrap());
}

#[test]
fn test_warning_escalation() {
    let (mut env, mut reg) = setup();
    let pid = reg.register_project(&mut env, a(10), String::from("ipfs://meta")).unwrap();
    reg.add_authorized_module(a(MODULE)).unwrap();
    reg.record_dispute(&mut env, a(MODULE), pid).unwrap();
    assert_eq!(reg.get_project(pid).unwrap().dispute_count, 1);
    assert_eq!(reg.get_project(pid).unwrap().warning_level, 0);
    reg.record_dispute(&mut env, a(MODULE), pid).unwrap();
    assert_eq!(reg.get_project(pid).unwrap().dispute_count, 2);
    assert_eq!(reg.get_project(pid).unwrap().warning_level, 0);
    reg.record_dispute(&mut env, a(MODULE), pid).unwrap();
    assert_eq!(reg.get_project(pid).unwrap().dispute_count, 3);
    assert_eq!(reg.get_project(pid).unwrap().warning_level, 1);
}

#[test]
fn test_suspend_project() {
    let (mut env, mut reg) = setup();
    let pid = reg.register_project(&mut env, a(10), String::from("ipfs://meta")).unwrap();
    assert!(!reg.is_suspended(pid).unwrap());
    reg.suspend_project(&mut env, pid).unwrap();
    assert!(reg.is_suspended(pid).unwrap());
    assert!(reg.get_project(pid).unwrap().suspended);
    reg.unsuspend_project(pid).unwrap();
    assert!(!reg.is_suspended(pid).unwrap());
}

// ---- own tests ----

#[test]
fn project_deposit_rates_by_level() {
    let (_env, reg) = setup();
    assert_eq!(reg.get_deposit_rate(0), boundless::project_registry::deposit_rate_bps(0));
    assert!(reg.get_deposit_rate(0) >= reg.get_deposit_rate(1));
    assert!(reg.get_deposit_rate(1) >= reg.get_deposit_rate(2));
}

#[test]
fn project_deposit_lock_release_forfeit() {
    let (mut env, mut reg) = setup();
    let pid = reg.register_project(&mut env, a(10), String::from("ipfs://meta")).unwrap();
    reg.add_authorized_module(a(MODULE)).unwrap();
    assert_eq!(reg.lock_deposit(&mut env, pid, 0, a(TOKEN)), Err(Error::InvalidAmount));
    reg.lock_deposit(&mut env, pid, 500, a(TOKEN)).unwrap();
    assert_eq!(reg.get_project(pid).unwrap().deposit_held, 500);
    assert_eq!(
        reg.release_deposit(&mut env, a(99), pid, 100, a(TOKEN)),
        Err(Error::ModuleNotAuthorized)
    );
    assert_eq!(
        reg.release_deposit(&mut env, a(MODULE), pid, 600, a(TOKEN)),
        Err(Error::NoDepositHeld)
    );
    reg.release_deposit(&mut env, a(MODULE), pid, 200, a(TOKEN)).unwrap();
    assert_eq!(reg.get_project(pid).unwrap().deposit_held, 300);
    reg.forfeit_deposit(&mut env, pid, 300, a(TOKEN), a(77)).unwrap();
    assert_eq!(reg.get_project(pid).unwrap().deposit_held, 0);
    let to_owner: i128 = env.transfers.iter().filter(|t| t.to.id == 10).map(|t| t.amount).sum();
    let to_treasury: i128 = env.transfers.iter().filter(|t| t.to.id == 77).map(|t| t.amount).sum();
    assert_eq!(to_owner, 200);
    assert_eq!(to_treasury, 300);
}

#[test]
fn project_errors() {
    let (mut env, mut reg) = setup();
    assert_eq!(reg.init(a(ADMIN)), Err(Error::AlreadyInitialized));
    assert_eq!(reg.get_project(5).map(|p| p.id), Err(Error::ProjectNotFound));
    assert_eq!(reg.record_dispute(&mut env, a(MODULE), 5), Err(Error::ModuleNotAuthorized));
    let fresh = ProjectRegistry::new(a(REG));
    assert_eq!(fresh.upgrade(boundless::types::BytesN32 { bytes: [0u8; 32] }), Err(Error::NotInitialized));
}

#[test]
fn project_strikes_cap_warning_and_suspend() {
    let (mut env, mut reg) = setup();
    let pid = reg.register_project(&mut env, a(10), String::from("ipfs://meta")).unwrap();
    reg.add_authorized_module(a(MODULE)).unwrap();
    for _ in 0..9 {
        reg.record_dispute(&mut env, a(MODULE), pid).unwrap();
    }
    let p = reg.get_project(pid).unwrap();
    assert_eq!(p.warning_level, 3);
    assert!(p.suspended);
    for _ in 0..6 {
        reg.record_missed_milestone(&mut env, a(MODULE), pid).unwrap();
    }
    assert_eq!(reg.get_project(pid).unwrap().warning_level, 3);
}
