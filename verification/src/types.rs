//! Identifiers and classification enums shared by every contract.
use vstd::prelude::*;

verus! {

/// An account or contract on the ledger, identified by a number.
#[derive(Clone, Copy, PartialEq, Eq, Structural, Debug, Hash)]
pub struct Address {
    pub id: u64,
}

impl Address {
    pub fn new(id: u64) -> (a: Address)
        ensures
            a.id == id,
    {
        Address { id }
    }
}

/// A 32-byte identifier, such as an escrow pool id or a voting session id.
#[derive(Clone, Copy, PartialEq, Eq, Debug)]
pub struct BytesN32 {
    pub bytes: [u8; 32],
}

/// The work module that owns an escrow pool.
#[derive(Clone, Copy, PartialEq, Eq, Structural, Debug)]
pub enum ModuleType {
    Bounty,
    Crowdfund,
    Grant,
    Hackathon,
}

/// The kind of payment that flows into an escrow pool; decides the fee rate.
#[derive(Clone, Copy, PartialEq, Eq, Structural, Debug)]
pub enum SubType {
    BountyFCFS,
    BountyApplication,
    BountyContest,
    BountySplit,
    CrowdfundPledge,
    GrantMilestone,
    GrantRetrospective,
    GrantQFMatchingPool,
    HackathonMain,
    HackathonTrack,
}

/// The field of work that a completed task earns reputation in.
#[derive(Clone, Copy, PartialEq, Eq, Structural, Debug)]
pub enum ActivityCategory {
    Development,
    Design,
    Marketing,
    Security,
    Community,
}

} // verus!
