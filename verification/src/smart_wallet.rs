//! A passkey smart wallet: an owner key plus up to `MAX_SIGNERS` further signers.
use vstd::prelude::*;
use crate::table::Table;
use crate::types::{Address, BytesN32};

verus! {

broadcast use vstd::array::group_array_axioms;

/// Maximum number of additional signers (beyond the owner).
pub const MAX_SIGNERS: u32 = 10;

#[derive(Clone, Copy, PartialEq, Eq, Structural, Debug)]
pub enum Error {
    AlreadyInitialized,
    NotInitialized,
    NotOwner,
    InvalidSignature,
    SignerNotFound,
    SignerAlreadyExists,
    TooManySigners,
    NoValidSignature,
    InvalidPublicKey,
}

/// An uncompressed secp256r1 public key.
#[derive(Clone, Copy, PartialEq, Eq, Debug)]
pub struct PublicKey65 {
    pub bytes: [u8; 65],
}

/// A 64-byte signature.
#[derive(Clone, Copy, PartialEq, Eq, Debug)]
pub struct Signature64 {
    pub bytes: [u8; 64],
}

/// A further signer of the wallet.
#[derive(Clone, Copy, PartialEq, Eq, Debug)]
pub enum SignerKind {
    /// A native ledger address, whose authorization the ledger checks itself.
    Address(Address),
    /// A secp256r1 public key (a passkey).
    Secp256r1(PublicKey65),
    /// An ed25519 public key.
    Ed25519(BytesN32),
}

/// A signature check that the wallet asks the ledger to make: that
/// `signature` by `public_key` signs the payload.
#[derive(Clone, Copy, PartialEq, Eq, Debug)]
pub enum SignatureCheck {
    Secp256r1 { public_key: PublicKey65, signature: Signature64 },
    Ed25519 { public_key: BytesN32, signature: Signature64 },
}

/// The checks of `signatures` against the owner's key, in order.
pub open spec fn owner_checks(owner: PublicKey65, sigs: Seq<Signature64>) -> Seq<SignatureCheck>
    decreases sigs.len(),
{
    if sigs.len() == 0 {
        Seq::empty()
    } else {
        owner_checks(owner, sigs.drop_last()).push(
            SignatureCheck::Secp256r1 { public_key: owner, signature: sigs.last() },
        )
    }
}

/// The check of signature `sig` against a further signer: none for a native
/// address, whose authorization the ledger checks itself.
pub open spec fn signer_check(signer: SignerKind, sig: Signature64) -> Seq<SignatureCheck> {
    match signer {
        SignerKind::Secp256r1(pk) => seq![SignatureCheck::Secp256r1 { public_key: pk, signature: sig }],
        SignerKind::Ed25519(pk) => seq![SignatureCheck::Ed25519 { public_key: pk, signature: sig }],
        SignerKind::Address(_) => Seq::empty(),
    }
}

/// The checks of signature `sig` against the stored further signers at positions `0..k`, in order.
pub open spec fn checks_for(signers: Map<u32, SignerKind>, k: nat, sig: Signature64) -> Seq<SignatureCheck>
    decreases k,
{
    if k == 0 {
        Seq::empty()
    } else {
        checks_for(signers, (k - 1) as nat, sig) + if signers.contains_key((k - 1) as u32) {
            signer_check(signers[(k - 1) as u32], sig)
        } else {
            Seq::empty()
        }
    }
}

/// The checks of each of `sigs`, in order, against the stored further signers at positions `0..k`.
pub open spec fn signer_checks(signers: Map<u32, SignerKind>, k: nat, sigs: Seq<Signature64>) -> Seq<SignatureCheck>
    decreases sigs.len(),
{
    if sigs.len() == 0 {
        Seq::empty()
    } else {
        signer_checks(signers, k, sigs.drop_last()) + checks_for(signers, k, sigs.last())
    }
}

/// Whether two byte arrays hold the same bytes.
fn same_bytes<const N: usize>(a: &[u8; N], b: &[u8; N]) -> (r: bool)
    ensures
        r == (*a == *b),
{
    let mut i: usize = 0;
    while i < N
        invariant
            i <= N,
            forall|j: int| 0 <= j < i ==> a@[j] == b@[j],
        decreases N - i,
    {
        if a[i] != b[i] {
            return false;
        }
        i = i + 1;
    }
    assert(*a =~= *b);
    true
}

/// Whether two signers are the same.
pub fn same_signer(a: &SignerKind, b: &SignerKind) -> (r: bool)
    ensures
        r == (*a == *b),
{
    match (a, b) {
        (SignerKind::Address(x), SignerKind::Address(y)) => x.id == y.id,
        (SignerKind::Secp256r1(x), SignerKind::Secp256r1(y)) => same_bytes(&x.bytes, &y.bytes),
        (SignerKind::Ed25519(x), SignerKind::Ed25519(y)) => same_bytes(&x.bytes, &y.bytes),
        _ => false,
    }
}

/// The wallet's storage.
pub struct SmartWallet {
    pub initialized: bool,
    pub owner_key: Option<PublicKey65>,
    pub signer_count: Option<u32>,
    pub signers: Table<u32, SignerKind>,
}

/// The mathematical content of the wallet's storage.
pub ghost struct WalletState {
    pub initialized: bool,
    pub owner_key: Option<PublicKey65>,
    pub signer_count: Option<u32>,
    pub signers: Map<u32, SignerKind>,
}

impl View for SmartWallet {
    type V = WalletState;

    open spec fn view(&self) -> WalletState {
        WalletState {
            initialized: self.initialized,
            owner_key: self.owner_key,
            signer_count: self.signer_count,
            signers: self.signers@,
        }
    }
}

impl WalletState {
    /// The number of further signers.
    pub open spec fn count(self) -> u32 {
        match self.signer_count {
            Some(c) => c,
            None => 0,
        }
    }

    /// Whether the further signers at positions `0..count` are all stored.
    pub open spec fn signers_stored(self) -> bool {
        forall|i: int| 0 <= i < self.count() ==> #[trigger] self.signers.contains_key(i as u32)
    }

    /// Whether `signer` is one of the further signers.
    pub open spec fn has_signer(self, signer: SignerKind) -> bool {
        exists|i: int| 0 <= i < self.count() && #[trigger] self.signers[i as u32] == signer
    }
}

impl SmartWallet {
    /// A wallet with empty storage.
    pub fn new() -> (w: SmartWallet)
        ensures
            w@ == (WalletState { initialized: false, owner_key: None, signer_count: None, signers: Map::empty() }),
    {
        SmartWallet { initialized: false, owner_key: None, signer_count: None, signers: Table::new() }
    }

    /// Sets the owner's passkey.
    pub fn init(&mut self, owner_pk: PublicKey65) -> (r: Result<(), Error>)
        ensures
            old(self)@.initialized ==> r == Err::<(), _>(Error::AlreadyInitialized) && final(self)@ == old(self)@,
            !old(self)@.initialized ==> r is Ok && final(self)@ == (WalletState {
                initialized: true,
                owner_key: Some(owner_pk),
                signer_count: Some(0),
                ..old(self)@
            }),
    {
        if self.initialized {
            return Err(Error::AlreadyInitialized);
        }
        self.owner_key = Some(owner_pk);
        self.signer_count = Some(0);
        self.initialized = true;
        Ok(())
    }

    /// Adds a further signer, unless there are `MAX_SIGNERS` already or it is one of them.
    pub fn add_signer(&mut self, signer: SignerKind) -> (r: Result<(), Error>)
        requires
            old(self)@.signers_stored(),
        ensures
            r == if old(self)@.count() >= MAX_SIGNERS {
                Err(Error::TooManySigners)
            } else if old(self)@.has_signer(signer) {
                Err(Error::SignerAlreadyExists)
            } else {
                Ok(())
            },
            r is Err ==> final(self)@ == old(self)@,
            r is Ok ==> final(self)@ == (WalletState {
                signer_count: Some((old(self)@.count() + 1) as u32),
                signers: old(self)@.signers.insert(old(self)@.count(), signer),
                ..old(self)@
            }),
    {
        let count = match self.signer_count {
            Some(c) => c,
            None => 0,
        };
        if count >= MAX_SIGNERS {
            return Err(Error::TooManySigners);
        }
        let mut i: u32 = 0;
        while i < count
            invariant
                i <= count,
                count == self@.count(),
                count < MAX_SIGNERS,
                self@ == old(self)@,
                self@.signers_stored(),
                forall|j: int| 0 <= j < i ==> #[trigger] self@.signers[j as u32] != signer,
            decreases count - i,
        {
            let existing = match self.signers.get(&i) {
                Some(s) => *s,
                None => {
                    assert(self@.signers.contains_key((i as int) as u32));
                    return Err(Error::SignerNotFound);
                },
            };
            if same_signer(&existing, &signer) {
                assert(self@.has_signer(signer)) by {
                    let k = i as int;
                    assert(0 <= k < self@.count() && self@.signers[k as u32] == signer);
                }
                return Err(Error::SignerAlreadyExists);
            }
            i = i + 1;
        }
        self.signers.insert(count, signer);
        self.signer_count = Some(count + 1);
        Ok(())
    }

    /// Removes the further signer at `index`; the last one takes its place.
    pub fn remove_signer(&mut self, index: u32) -> (r: Result<(), Error>)
        requires
            old(self)@.signers_stored(),
        ensures
            ({
                let n = old(self)@.count();
                let last = (n - 1) as u32;
                &&& r == if index >= n {
                    Err::<(), Error>(Error::SignerNotFound)
                } else {
                    Ok(())
                }
                &&& r is Err ==> final(self)@ == old(self)@
                &&& r is Ok ==> final(self)@ == (WalletState {
                    signer_count: Some(last),
                    signers: if index < last {
                        old(self)@.signers.insert(index, old(self)@.signers[last]).remove(last)
                    } else {
                        old(self)@.signers.remove(last)
                    },
                    ..old(self)@
                })
            }),
    {
        let count = match self.signer_count {
            Some(c) => c,
            None => 0,
        };
        if index >= count {
            return Err(Error::SignerNotFound);
        }
        let last = count - 1;
        if index < last {
            let moved = match self.signers.get(&last) {
                Some(s) => *s,
                None => {
                    assert(self@.signers.contains_key((last as int) as u32));
                    return Err(Error::SignerNotFound);
                },
            };
            self.signers.insert(index, moved);
        }
        self.signers.remove(&last);
        self.signer_count = Some(last);
        Ok(())
    }

    pub fn get_owner_pk(&self) -> (r: Result<PublicKey65, Error>)
        ensures
            r == match self@.owner_key {
                Some(k) => Ok(k),
                None => Err(Error::NotInitialized),
            },
    {
        match self.owner_key {
            Some(k) => Ok(k),
            None => Err(Error::NotInitialized),
        }
    }

    pub fn get_signer_count(&self) -> (c: u32)
        ensures
            c == self@.count(),
    {
        match self.signer_count {
            Some(c) => c,
            None => 0,
        }
    }

    pub fn get_signer(&self, index: u32) -> (r: Result<SignerKind, Error>)
        ensures
            r == if self@.signers.contains_key(index) {
                Ok(self@.signers[index])
            } else {
                Err(Error::SignerNotFound)
            },
    {
        match self.signers.get(&index) {
            Some(s) => Ok(*s),
            None => Err(Error::SignerNotFound),
        }
    }

    /// Upgrades need the wallet's own authorization, which the ledger checks; nothing else is required.
    pub fn upgrade(&self, new_wasm_hash: BytesN32) -> (r: Result<(), Error>)
        ensures
            r is Ok,
    {
        Ok(())
    }

    /// Decides an authorization request carrying `signatures`: there must be
    /// one, and the wallet must have an owner. The request is then authorized
    /// when at least one of the returned checks holds: each signature against
    /// the owner's key, then each signature against every further secp256r1
    /// or ed25519 signer.
    pub fn check_auth(&self, signatures: &Vec<Signature64>) -> (r: Result<Vec<SignatureCheck>, Error>)
        ensures
            signatures@.len() == 0 ==> r == Err::<Vec<SignatureCheck>, _>(Error::NoValidSignature),
            signatures@.len() > 0 && self@.owner_key is None ==> r == Err::<Vec<SignatureCheck>, _>(
                Error::NotInitialized,
            ),
            signatures@.len() > 0 && self@.owner_key is Some ==> r is Ok,
            r matches Ok(v) ==> v@ == owner_checks(self@.owner_key->0, signatures@) + signer_checks(
                self@.signers,
                self@.count() as nat,
                signatures@,
            ),
    {
        let n = signatures.len();
        if n == 0 {
            return Err(Error::NoValidSignature);
        }
        let owner = match self.owner_key {
            Some(k) => k,
            None => return Err(Error::NotInitialized),
        };
        let mut checks: Vec<SignatureCheck> = Vec::new();
        let mut i: usize = 0;
        while i < n
            invariant
                n == signatures@.len(),
                i <= n,
                checks@ == owner_checks(owner, signatures@.take(i as int)),
            decreases n - i,
        {
            proof {
                assert(signatures@.take(i + 1).drop_last() =~= signatures@.take(i as int));
            }
            checks.push(SignatureCheck::Secp256r1 { public_key: owner, signature: signatures[i] });
            i = i + 1;
        }
        assert(signatures@.take(n as int) =~= signatures@);
        let ghost base = checks@;
        let count = match self.signer_count {
            Some(c) => c,
            None => 0,
        };
        let mut j: usize = 0;
        while j < n
            invariant
                n == signatures@.len(),
                j <= n,
                count == self@.count(),
                checks@ == base + signer_checks(self@.signers, count as nat, signatures@.take(j as int)),
            decreases n - j,
        {
            let sig = signatures[j];
            let ghost before = checks@;
            let mut k: u32 = 0;
            while k < count
                invariant
                    k <= count,
                    count == self@.count(),
                    checks@ == before + checks_for(self@.signers, k as nat, sig),
                decreases count - k,
            {
                let ghost mid = checks@;
                match self.signers.get(&k) {
                    Some(SignerKind::Secp256r1(pk)) => {
                        checks.push(SignatureCheck::Secp256r1 { public_key: *pk, signature: sig });
                    },
                    Some(SignerKind::Ed25519(pk)) => {
                        checks.push(SignatureCheck::Ed25519 { public_key: *pk, signature: sig });
                    },
                    _ => {},
                }
                proof {
                    assert(checks@ =~= before + checks_for(self@.signers, (k + 1) as nat, sig));
                }
                k = k + 1;
            }
            proof {
                let t = signatures@.take(j + 1);
                assert(t.drop_last() =~= signatures@.take(j as int));
                assert(t.last() == sig);
                assert(checks@ =~= base + signer_checks(self@.signers, count as nat, t));
            }
            j = j + 1;
        }
        assert(signatures@.take(n as int) =~= signatures@);
        Ok(checks)
    }
}

/// Settles an authorization request from the outcomes of its checks, in the
/// order `check_auth` gave them: it stands when at least one check held.
pub fn auth_outcome(held: &Vec<bool>) -> (r: Result<(), Error>)
    ensures
        r == if exists|i: int| 0 <= i < held@.len() && held@[i] {
            Ok::<(), Error>(())
        } else {
            Err(Error::NoValidSignature)
        },
{
    let mut i: usize = 0;
    while i < held.len()
        invariant
            i <= held@.len(),
            forall|j: int| 0 <= j < i ==> !held@[j],
        decreases held@.len() - i,
    {
        if held[i] {
            return Ok(());
        }
        i = i + 1;
    }
    Err(Error::NoValidSignature)
}

} // verus!
