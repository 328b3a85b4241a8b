//! The Boundless platform: escrow, reputation, governance and the work
//! registries (bounties, crowdfunding, grants, hackathons), modelled as
//! verified state machines over plain values.
pub mod types;
pub mod math;
pub mod table;
pub mod hash;
pub mod env;
pub mod events;
pub mod core_escrow;
pub mod reputation_registry;
pub mod governance_voting;
pub mod bounty_registry;
pub mod crowdfund_registry;
pub mod grant_hub;
pub mod hackathon_registry;
pub mod project_registry;
pub mod payment_router;
pub mod smart_wallet;
pub mod smart_wallet_factory;
pub mod laws;
