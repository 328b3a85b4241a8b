use boundless::smart_wallet::{auth_outcome, same_signer, Error, PublicKey65, Signature64, SignatureCheck, SignerKind, SmartWallet};
use boundless::types::{Address, BytesN32};

fn owner_pk() -> PublicKey65 {
    let mut pk_bytes = [0u8; 65];
    pk_bytes[0] = 0x04;
    PublicKey65 { bytes: pk_bytes }
}

#[test]
fn test_init_and_query() {
    let mut w = SmartWallet::new();
    let mut pk_bytes = [0u8; 65];
    pk_bytes[0] = 0x04;
    pk_bytes[1] = 1;
    pk_bytes[33] = 2;
    let pk = PublicKey65 { bytes: pk_bytes };
    w.init(pk).unwrap();
    assert_eq!(w.get_owner_pk().unwrap(), pk);
    assert_eq!(w.get_signer_count(), 0);
}

#[test]
fn test_add_and_remove_signers() {
    let mut w = SmartWallet::new();
    w.init(owner_pk()).unwrap();
    w.add_signer(SignerKind::Address(Address::new(9))).unwrap();
    assert_eq!(w.get_signer_count(), 1);
    let mut pk2 = [0u8; 65];
    pk2[0] = 0x04;
    pk2[1] = 42;
    w.add_signer(SignerKind::Secp256r1(PublicKey65 { bytes: pk2 })).unwrap();
    assert_eq!(w.get_signer_count(), 2);
    w.remove_signer(0).unwrap();
    assert_eq!(w.get_signer_count(), 1);
    match w.get_signer(0).unwrap() {
        SignerKind::Secp256r1(_) => {}
        _ => panic!("Expected Secp256r1 signer"),
    }
}

#[test]
fn test_duplicate_signer_rejected() {
    let mut w = SmartWallet::new();
    w.init(owner_pk()).unwrap();
    w.add_signer(SignerKind::Address(Address::new(9))).unwrap();
    assert!(w.add_signer(SignerKind::Address(Address::new(9))).is_err());
}

#[test]
fn test_already_initialized() {
    let mut w = SmartWallet::new();
    w.init(owner_pk()).unwrap();
    assert!(w.init(owner_pk()).is_err());
}

#[test]
fn test_ed25519_signer() {
    let mut w = SmartWallet::new();
    w.init(owner_pk()).unwrap();
    let ed = BytesN32 { bytes: [1u8; 32] };
    w.add_signer(SignerKind::Ed25519(ed)).unwrap();
    assert_eq!(w.get_signer_count(), 1);
    assert_eq!(w.get_signer(0).unwrap(), SignerKind::Ed25519(ed));
}

// ---- own tests ----

#[test]
fn wallet_signer_limit_and_errors() {
    let mut w = SmartWallet::new();
    assert_eq!(w.get_owner_pk(), Err(Error::NotInitialized));
    w.init(owner_pk()).unwrap();
    for i in 0..10u64 {
        w.add_signer(SignerKind::Address(Address::new(i))).unwrap();
    }
    assert_eq!(w.add_signer(SignerKind::Address(Address::new(100))), Err(Error::TooManySigners));
    assert_eq!(w.remove_signer(10), Err(Error::SignerNotFound));
    assert_eq!(w.get_signer(10), Err(Error::SignerNotFound));
}

#[test]
fn wallet_remove_moves_last_into_gap() {
    let mut w = SmartWallet::new();
    w.init(owner_pk()).unwrap();
    for i in 0..3u64 {
        w.add_signer(SignerKind::Address(Address::new(i))).unwrap();
    }
    w.remove_signer(0).unwrap();
    assert_eq!(w.get_signer(0).unwrap(), SignerKind::Address(Address::new(2)));
    assert_eq!(w.get_signer(1).unwrap(), SignerKind::Address(Address::new(1)));
    assert_eq!(w.get_signer_count(), 2);
}

#[test]
fn wallet_check_auth_lists_owner_then_signers() {
    let mut w = SmartWallet::new();
    let sig = Signature64 { bytes: [3u8; 64] };
    assert_eq!(w.check_auth(&vec![sig]), Err(Error::NotInitialized));
    w.init(owner_pk()).unwrap();
    assert_eq!(w.check_auth(&vec![]), Err(Error::NoValidSignature));
    let other = Signature64 { bytes: [4u8; 64] };
    assert_eq!(
        w.check_auth(&vec![sig, other]).unwrap(),
        vec![
            SignatureCheck::Secp256r1 { public_key: owner_pk(), signature: sig },
            SignatureCheck::Secp256r1 { public_key: owner_pk(), signature: other },
        ]
    );
    let mut pk2 = [0u8; 65];
    pk2[0] = 0x04;
    pk2[1] = 7;
    let p2 = PublicKey65 { bytes: pk2 };
    let ed = BytesN32 { bytes: [9u8; 32] };
    w.add_signer(SignerKind::Secp256r1(p2)).unwrap();
    w.add_signer(SignerKind::Address(Address::new(5))).unwrap();
    w.add_signer(SignerKind::Ed25519(ed)).unwrap();
    assert_eq!(
        w.check_auth(&vec![sig, other]).unwrap(),
        vec![
            SignatureCheck::Secp256r1 { public_key: owner_pk(), signature: sig },
            SignatureCheck::Secp256r1 { public_key: owner_pk(), signature: other },
            SignatureCheck::Secp256r1 { public_key: p2, signature: sig },
            SignatureCheck::Ed25519 { public_key: ed, signature: sig },
            SignatureCheck::Secp256r1 { public_key: p2, signature: other },
            SignatureCheck::Ed25519 { public_key: ed, signature: other },
        ]
    );
}

#[test]
fn wallet_auth_outcome_needs_one_held_check() {
    assert_eq!(auth_outcome(&vec![]), Err(Error::NoValidSignature));
    assert_eq!(auth_outcome(&vec![false, false]), Err(Error::NoValidSignature));
    assert_eq!(auth_outcome(&vec![false, true]), Ok(()));
}

#[test]
fn wallet_same_signer() {
    let x = SignerKind::Ed25519(BytesN32 { bytes: [1u8; 32] });
    let y = SignerKind::Ed25519(BytesN32 { bytes: [2u8; 32] });
    assert!(same_signer(&x, &x));
    assert!(!same_signer(&x, &y));
    assert!(!same_signer(&x, &SignerKind::Address(Address::new(1))));
}

#[test]
fn wallet_remove_undoes_add() {
    let mut w = SmartWallet::new();
    w.init(owner_pk()).unwrap();
    w.add_signer(SignerKind::Address(Address::new(1))).unwrap();
    w.add_signer(SignerKind::Address(Address::new(2))).unwrap();
    w.add_signer(SignerKind::Address(Address::new(3))).unwrap();
    w.remove_signer(2).unwrap();
    assert_eq!(w.get_signer_count(), 2);
    assert_eq!(w.get_signer(0).unwrap(), SignerKind::Address(Address::new(1)));
    assert_eq!(w.get_signer(1).unwrap(), SignerKind::Address(Address::new(2)));
    assert_eq!(w.get_signer(2), Err(Error::SignerNotFound));
}
