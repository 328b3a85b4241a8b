//! Derived identifiers: SHA-256 digests of short byte strings.
use vstd::prelude::*;
use crate::types::{BytesN32, ModuleType};

verus! {

/// The SHA-256 digest of `data`.
pub uninterp spec fn sha256_digest(data: Seq<u8>) -> Seq<u8>;

/// The longest input hashed here. The test ledger that runs the hash meters
/// its work, and a longer input could exhaust that budget.
pub const MAX_HASH_INPUT: usize = 65536;

/// Hashes `data` with the ledger's SHA-256 host function (soroban_sdk's
/// `Crypto::sha256`). Trusted: the result is the digest named `sha256_digest`
/// of the bytes handed in. Inputs longer than `MAX_HASH_INPUT` are not
/// admitted: the call runs within the default resource budget of a test
/// ledger and would trap once that budget is spent.
#[verifier::external_body]
fn sha256(data: &Vec<u8>) -> (r: BytesN32)
    requires
        data@.len() <= MAX_HASH_INPUT,
    ensures
        r.bytes@ == sha256_digest(data@),
{
    let env = soroban_sdk::Env::new_with_config(
        soroban_sdk::testutils::EnvTestConfig { capture_snapshot_at_drop: false },
    );
    let bytes = soroban_sdk::Bytes::from_slice(&env, data.as_slice());
    BytesN32 { bytes: env.crypto().sha256(&bytes).to_array() }
}

/// The big-endian bytes of `x`.
pub open spec fn be_bytes_u64(x: u64) -> Seq<u8> {
    seq![
        (x >> 56u64) as u8,
        (x >> 48u64) as u8,
        (x >> 40u64) as u8,
        (x >> 32u64) as u8,
        (x >> 24u64) as u8,
        (x >> 16u64) as u8,
        (x >> 8u64) as u8,
        x as u8,
    ]
}

/// `tag` followed by the big-endian bytes of `id`.
pub open spec fn tagged_id(tag: u8, id: u64) -> Seq<u8> {
    seq![tag] + be_bytes_u64(id)
}

/// The one-byte tag of a module in pool ids.
pub open spec fn module_tag(module: ModuleType) -> u8 {
    match module {
        ModuleType::Bounty => 1,
        ModuleType::Crowdfund => 2,
        ModuleType::Grant => 3,
        ModuleType::Hackathon => 4,
    }
}

/// The escrow pool id of entity `module_id` of `module`.
pub open spec fn pool_id_spec(module: ModuleType, module_id: u64) -> Seq<u8> {
    sha256_digest(tagged_id(module_tag(module), module_id))
}

/// Hashes `tag` followed by the big-endian bytes of `id`.
pub fn hash_tagged_id(tag: u8, id: u64) -> (r: BytesN32)
    ensures
        r.bytes@ == sha256_digest(tagged_id(tag, id)),
{
    let mut data: Vec<u8> = Vec::new();
    data.push(tag);
    data.push((id >> 56u64) as u8);
    data.push((id >> 48u64) as u8);
    data.push((id >> 40u64) as u8);
    data.push((id >> 32u64) as u8);
    data.push((id >> 24u64) as u8);
    data.push((id >> 16u64) as u8);
    data.push((id >> 8u64) as u8);
    data.push(id as u8);
    assert(data@ =~= tagged_id(tag, id));
    sha256(&data)
}

/// The escrow pool id of entity `module_id` of `module`.
pub fn compute_pool_id(module: ModuleType, module_id: u64) -> (r: BytesN32)
    ensures
        r.bytes@ == pool_id_spec(module, module_id),
{
    let tag: u8 = match module {
        ModuleType::Bounty => 1,
        ModuleType::Crowdfund => 2,
        ModuleType::Grant => 3,
        ModuleType::Hackathon => 4,
    };
    hash_tagged_id(tag, module_id)
}

/// Hashes a byte string.
pub fn hash_bytes(data: &Vec<u8>) -> (r: BytesN32)
    requires
        data@.len() <= MAX_HASH_INPUT,
    ensures
        r.bytes@ == sha256_digest(data@),
{
    sha256(data)
}

} // verus!
