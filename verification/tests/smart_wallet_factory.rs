use boundless::smart_wallet::PublicKey65;
use boundless::smart_wallet_factory::{owner_salt, Error, SmartWalletFactory};
use boundless::types::{Address, BytesN32};

fn setup_env() -> SmartWalletFactory {
    let mut f = SmartWalletFactory::new();
    f.init(Address::new(1), BytesN32 { bytes: [0xAB; 32] }).unwrap();
    f
}

fn pk() -> PublicKey65 {
    let mut pk_bytes = [0u8; 65];
    pk_bytes[0] = 0x04;
    PublicKey65 { bytes: pk_bytes }
}

#[test]
fn test_factory_init() {
    let f = setup_env();
    assert_eq!(f.get_wallet_count(), 0);
    assert_eq!(f.get_wasm_hash().unwrap(), BytesN32 { bytes: [0xAB; 32] });
}

#[test]
fn mod_test_already_initialized() {
    let mut f = setup_env();
    assert!(f.init(Address::new(2), BytesN32 { bytes: [0u8; 32] }).is_err());
}

#[test]
fn test_upgrade_template() {
    let mut f = setup_env();
    let new_hash = BytesN32 { bytes: [1u8; 32] };
    f.upgrade_template(new_hash).unwrap();
    assert_eq!(f.get_wasm_hash().unwrap(), new_hash);
}

#[test]
fn test_get_wallet_nonexistent() {
    let f = setup_env();
    assert!(f.get_wallet(0).is_err());
}

#[test]
fn test_get_wallet_by_owner_nonexistent() {
    let f = setup_env();
    assert!(f.get_wallet_by_owner(pk()).is_err());
}

// ---- own tests ----

#[test]
fn factory_salt_is_sha256_of_key() {
    let expected: [u8; 32] = [
        89, 239, 26, 90, 0, 243, 91, 26, 114, 45, 165, 108, 167, 11, 82, 167, 33, 243, 57, 152, 99, 77, 79, 164,
        37, 147, 1, 241, 112, 247, 182, 189,
    ];
    assert_eq!(owner_salt(&pk()).bytes, expected);
}

#[test]
fn factory_deploy_then_record_then_refuse_second_deploy() {
    let mut f = setup_env();
    let d = f.deploy_wallet(pk()).unwrap();
    assert_eq!(d.salt, owner_salt(&pk()));
    assert_eq!(d.wasm_hash, BytesN32 { bytes: [0xAB; 32] });
    let idx = f.record_wallet(d.salt, Address::new(500));
    assert_eq!(idx, 0);
    assert_eq!(f.get_wallet_count(), 1);
    assert_eq!(f.get_wallet(0).unwrap(), Address::new(500));
    assert_eq!(f.get_wallet_by_owner(pk()).unwrap(), Address::new(500));
    assert_eq!(f.deploy_wallet(pk()), Err(Error::DeployFailed));
}

#[test]
fn factory_requires_init() {
    let mut f = SmartWalletFactory::new();
    assert_eq!(f.deploy_wallet(pk()), Err(Error::NotInitialized));
    assert_eq!(f.upgrade_template(BytesN32 { bytes: [1u8; 32] }), Err(Error::NotInitialized));
    assert_eq!(f.get_wasm_hash(), Err(Error::NotInitialized));
}
