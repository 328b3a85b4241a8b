//! The factory that deploys one smart wallet per owner key.
use vstd::prelude::*;
use crate::hash::{hash_bytes, sha256_digest};
use crate::smart_wallet::PublicKey65;
use crate::table::Table;
use crate::types::{Address, BytesN32};

verus! {

broadcast use vstd::array::group_array_axioms;

#[derive(Clone, Copy, PartialEq, Eq, Structural, Debug)]
pub enum Error {
    AlreadyInitialized,
    NotInitialized,
    NotAdmin,
    DeployFailed,
}

/// What the ledger is asked to deploy for a new wallet: the wallet template,
/// at the address that `salt` and the factory determine.
#[derive(Clone, Copy, PartialEq, Eq, Debug)]
pub struct WalletDeployment {
    pub salt: BytesN32,
    pub wasm_hash: BytesN32,
}

/// The factory's storage.
pub struct SmartWalletFactory {
    pub initialized: bool,
    pub admin: Option<Address>,
    pub wasm_hash: Option<BytesN32>,
    pub wallet_count: Option<u32>,
    /// The deployed wallets, in order.
    pub wallets: Table<u32, Address>,
    /// The wallet of each owner, keyed by the hash of the owner's key.
    pub owner_wallets: Table<BytesN32, Address>,
}

/// The mathematical content of the factory's storage.
pub ghost struct FactoryState {
    pub initialized: bool,
    pub admin: Option<Address>,
    pub wasm_hash: Option<BytesN32>,
    pub wallet_count: Option<u32>,
    pub wallets: Map<u32, Address>,
    pub owner_wallets: Map<BytesN32, Address>,
}

impl View for SmartWalletFactory {
    type V = FactoryState;

    open spec fn view(&self) -> FactoryState {
        FactoryState {
            initialized: self.initialized,
            admin: self.admin,
            wasm_hash: self.wasm_hash,
            wallet_count: self.wallet_count,
            wallets: self.wallets@,
            owner_wallets: self.owner_wallets@,
        }
    }
}

impl FactoryState {
    /// The number of wallets deployed.
    pub open spec fn count(self) -> u32 {
        match self.wallet_count {
            Some(c) => c,
            None => 0,
        }
    }

    /// Whether a wallet is recorded for the owner key whose hash is `salt`.
    pub open spec fn has_owner(self, salt: Seq<u8>) -> bool {
        exists|k: BytesN32| #[trigger] self.owner_wallets.contains_key(k) && k.bytes@ == salt
    }
}

/// The salt of the wallet of `owner_pk`: the SHA-256 hash of the key.
pub fn owner_salt(owner_pk: &PublicKey65) -> (r: BytesN32)
    ensures
        r.bytes@ == sha256_digest(owner_pk.bytes@),
{
    let mut data: Vec<u8> = Vec::new();
    let mut i: usize = 0;
    while i < 65
        invariant
            i <= 65,
            data@ == owner_pk.bytes@.take(i as int),
        decreases 65 - i,
    {
        data.push(owner_pk.bytes[i]);
        proof {
            assert(owner_pk.bytes@.take(i + 1) =~= owner_pk.bytes@.take(i as int).push(owner_pk.bytes@[i as int]));
        }
        i = i + 1;
    }
    assert(owner_pk.bytes@.take(65) =~= owner_pk.bytes@);
    hash_bytes(&data)
}

impl SmartWalletFactory {
    /// A factory with empty storage.
    pub fn new() -> (f: SmartWalletFactory)
        ensures
            f@ == (FactoryState {
                initialized: false,
                admin: None,
                wasm_hash: None,
                wallet_count: None,
                wallets: Map::empty(),
                owner_wallets: Map::empty(),
            }),
    {
        SmartWalletFactory {
            initialized: false,
            admin: None,
            wasm_hash: None,
            wallet_count: None,
            wallets: Table::new(),
            owner_wallets: Table::new(),
        }
    }

    /// Sets up the factory with its admin and the wallet template.
    pub fn init(&mut self, admin: Address, wallet_wasm_hash: BytesN32) -> (r: Result<(), Error>)
        ensures
            old(self)@.initialized ==> r == Err::<(), _>(Error::AlreadyInitialized) && final(self)@ == old(self)@,
            !old(self)@.initialized ==> r is Ok && final(self)@ == (FactoryState {
                initialized: true,
                admin: Some(admin),
                wasm_hash: Some(wallet_wasm_hash),
                wallet_count: Some(0),
                ..old(self)@
            }),
    {
        if self.initialized {
            return Err(Error::AlreadyInitialized);
        }
        self.admin = Some(admin);
        self.wasm_hash = Some(wallet_wasm_hash);
        self.wallet_count = Some(0);
        self.initialized = true;
        Ok(())
    }

    /// Decides the deployment of a wallet for `owner_pk`: one per owner key,
    /// at the address that the hash of the key determines.
    pub fn deploy_wallet(&self, owner_pk: PublicKey65) -> (r: Result<WalletDeployment, Error>)
        ensures
            !self@.initialized ==> r == Err::<WalletDeployment, _>(Error::NotInitialized),
            self@.initialized && self@.has_owner(sha256_digest(owner_pk.bytes@)) ==> r == Err::<
                WalletDeployment,
                _,
            >(Error::DeployFailed),
            self@.initialized && !self@.has_owner(sha256_digest(owner_pk.bytes@)) && self@.wasm_hash is None ==> r
                == Err::<WalletDeployment, _>(Error::NotInitialized),
            self@.initialized && !self@.has_owner(sha256_digest(owner_pk.bytes@)) && self@.wasm_hash is Some ==> r
                is Ok,
            r matches Ok(d) ==> d.salt.bytes@ == sha256_digest(owner_pk.bytes@) && d.wasm_hash
                == self@.wasm_hash->0,
    {
        if !self.initialized {
            return Err(Error::NotInitialized);
        }
        let salt = owner_salt(&owner_pk);
        proof {
            if self@.has_owner(sha256_digest(owner_pk.bytes@)) {
                let k = choose|k: BytesN32| #[trigger] self@.owner_wallets.contains_key(k) && k.bytes@ == sha256_digest(
                    owner_pk.bytes@,
                );
                assert(k.bytes =~= salt.bytes);
                assert(k == salt);
            }
            if self@.owner_wallets.contains_key(salt) {
                assert(self@.has_owner(sha256_digest(owner_pk.bytes@)));
            }
        }
        if self.owner_wallets.contains_key(&salt) {
            return Err(Error::DeployFailed);
        }
        let wasm_hash = match self.wasm_hash {
            Some(h) => h,
            None => return Err(Error::NotInitialized),
        };
        Ok(WalletDeployment { salt, wasm_hash })
    }

    /// Records the wallet deployed for the owner key whose hash is `salt`.
    pub fn record_wallet(&mut self, salt: BytesN32, wallet: Address) -> (c: u32)
        requires
            old(self)@.count() < u32::MAX,
        ensures
            c == old(self)@.count(),
            final(self)@ == (FactoryState {
                wallet_count: Some((c + 1) as u32),
                wallets: old(self)@.wallets.insert(c, wallet),
                owner_wallets: old(self)@.owner_wallets.insert(salt, wallet),
                ..old(self)@
            }),
    {
        let count = match self.wallet_count {
            Some(c) => c,
            None => 0,
        };
        self.wallets.insert(count, wallet);
        self.wallet_count = Some(count + 1);
        self.owner_wallets.insert(salt, wallet);
        count
    }

    /// The admin replaces the wallet template.
    pub fn upgrade_template(&mut self, new_wasm_hash: BytesN32) -> (r: Result<(), Error>)
        ensures
            old(self)@.admin is None ==> r == Err::<(), _>(Error::NotInitialized) && final(self)@ == old(self)@,
            old(self)@.admin is Some ==> r is Ok && final(self)@ == (FactoryState {
                wasm_hash: Some(new_wasm_hash),
                ..old(self)@
            }),
    {
        if self.admin.is_none() {
            return Err(Error::NotInitialized);
        }
        self.wasm_hash = Some(new_wasm_hash);
        Ok(())
    }

    /// Checks that an upgrade may proceed: the factory must have an admin.
    pub fn upgrade(&self, new_wasm_hash: BytesN32) -> (r: Result<(), Error>)
        ensures
            r == if self@.admin is Some {
                Ok::<(), Error>(())
            } else {
                Err(Error::NotInitialized)
            },
    {
        if self.admin.is_none() {
            return Err(Error::NotInitialized);
        }
        Ok(())
    }

    pub fn get_wallet_count(&self) -> (c: u32)
        ensures
            c == self@.count(),
    {
        match self.wallet_count {
            Some(c) => c,
            None => 0,
        }
    }

    pub fn get_wallet(&self, index: u32) -> (r: Result<Address, Error>)
        ensures
            r == if self@.wallets.contains_key(index) {
                Ok(self@.wallets[index])
            } else {
                Err(Error::NotInitialized)
            },
    {
        match self.wallets.get(&index) {
            Some(a) => Ok(*a),
            None => Err(Error::NotInitialized),
        }
    }

    /// The wallet deployed for `owner_pk`.
    pub fn get_wallet_by_owner(&self, owner_pk: PublicKey65) -> (r: Result<Address, Error>)
        ensures
            r is Ok <==> self@.has_owner(sha256_digest(owner_pk.bytes@)),
            r matches Ok(a) ==> exists|k: BytesN32|
                #[trigger] self@.owner_wallets.contains_key(k) && k.bytes@ == sha256_digest(owner_pk.bytes@)
                    && self@.owner_wallets[k] == a,
    {
        let salt = owner_salt(&owner_pk);
        proof {
            if self@.has_owner(sha256_digest(owner_pk.bytes@)) {
                let k = choose|k: BytesN32| #[trigger] self@.owner_wallets.contains_key(k) && k.bytes@ == sha256_digest(
                    owner_pk.bytes@,
                );
                assert(k.bytes =~= salt.bytes);
                assert(k == salt);
            }
            if self@.owner_wallets.contains_key(salt) {
                assert(self@.has_owner(sha256_digest(owner_pk.bytes@)));
            }
        }
        match self.owner_wallets.get(&salt) {
            Some(a) => Ok(*a),
            None => Err(Error::NotInitialized),
        }
    }

    pub fn get_wasm_hash(&self) -> (r: Result<BytesN32, Error>)
        ensures
            r == match self@.wasm_hash {
                Some(h) => Ok(h),
                None => Err(Error::NotInitialized),
            },
    {
        match self.wasm_hash {
            Some(h) => Ok(h),
            None => Err(Error::NotInitialized),
        }
    }
}

} // verus!
