//! Every event that the contracts publish.
use vstd::prelude::*;
use crate::{
    bounty_registry as bounty, core_escrow as escrow, crowdfund_registry as crowdfund,
    governance_voting as governance, grant_hub as grant, hackathon_registry as hackathon,
    payment_router as router, project_registry as project, reputation_registry as reputation,
};

verus! {

/// An event published by one of the contracts.
#[derive(Clone, PartialEq, Eq, Debug)]
pub enum Event {
    // Escrow
    PoolCreated(escrow::PoolCreated),
    PoolLocked(escrow::PoolLocked),
    SlotReleased(escrow::SlotReleased),
    Refunded(escrow::Refunded),
    InsuranceContributed(escrow::InsuranceContributed),
    InsuranceClaimed(escrow::InsuranceClaimed),
    FeeCharged(escrow::FeeCharged),
    FeeRateUpdated(escrow::FeeRateUpdated),
    // Reputation
    ScoreUpdated(reputation::ScoreUpdated),
    ModuleAuthorized(reputation::ModuleAuthorized),
    CreditsSpent(reputation::CreditsSpent),
    CreditsAwarded(reputation::CreditsAwarded),
    CreditsRecharged(reputation::CreditsRecharged),
    // Governance
    SessionCreated(governance::SessionCreated),
    VoteCast(governance::VoteCast),
    SessionConcluded(governance::SessionConcluded),
    QFDonationRecorded(governance::QFDonationRecorded),
    // Bounties
    BountyCreated(bounty::BountyCreated),
    BountyApplied(bounty::BountyApplied),
    BountyAssigned(bounty::BountyAssigned),
    BountyClaimed(bounty::BountyClaimed),
    WorkSubmitted(bounty::WorkSubmitted),
    SubmissionApproved(bounty::SubmissionApproved),
    SplitApproved(bounty::SplitApproved),
    BountyCancelled(bounty::BountyCancelled),
    ApplicationRejected(bounty::ApplicationRejected),
    // Crowdfunding
    CampaignCreated(crowdfund::CampaignCreated),
    PledgeRecorded(crowdfund::PledgeRecorded),
    CampaignFunded(crowdfund::CampaignFunded),
    CampaignMilestoneSubmitted(crowdfund::MilestoneSubmitted),
    CampaignMilestoneApproved(crowdfund::MilestoneApproved),
    CampaignFailed(crowdfund::CampaignFailed),
    CampaignCancelled(crowdfund::CampaignCancelled),
    RefundBatchProcessed(crowdfund::RefundBatchProcessed),
    MilestoneDisputed(crowdfund::MilestoneDisputed),
    CampaignTerminated(crowdfund::CampaignTerminated),
    MilestoneOverdue(crowdfund::MilestoneOverdue),
    CampaignSubmittedForReview(crowdfund::CampaignSubmittedForReview),
    CampaignApproved(crowdfund::CampaignApproved),
    CampaignRejected(crowdfund::CampaignRejected),
    CampaignUpdated(crowdfund::CampaignUpdated),
    CampaignValidated(crowdfund::CampaignValidated),
    MilestoneRevisionRequested(crowdfund::MilestoneRevisionRequested),
    CampaignVoteRejected(crowdfund::CampaignVoteRejected),
    DisputeResolved(crowdfund::DisputeResolved),
    // Grants
    GrantCreated(grant::GrantCreated),
    GrantMilestoneSubmitted(grant::MilestoneSubmitted),
    GrantMilestoneApproved(grant::MilestoneApproved),
    GrantCompleted(grant::GrantCompleted),
    QFDonationMade(grant::QFDonationMade),
    // Hackathons
    HackathonCreated(hackathon::HackathonCreated),
    TeamRegistered(hackathon::TeamRegistered),
    ProjectSubmitted(hackathon::ProjectSubmitted),
    ScoreRecorded(hackathon::ScoreRecorded),
    PrizesDistributed(hackathon::PrizesDistributed),
    HackathonCancelled(hackathon::HackathonCancelled),
    HackathonFinalized(hackathon::HackathonFinalized),
    PrizeClaimed(hackathon::PrizeClaimed),
    UnclaimedPrizesReclaimed(hackathon::UnclaimedPrizesReclaimed),
    // Projects
    ProjectRegistered(project::ProjectRegistered),
    DepositLocked(project::DepositLocked),
    DepositReleased(project::DepositReleased),
    DepositForfeited(project::DepositForfeited),
    VerificationUpgraded(project::VerificationUpgraded),
    WarningIssued(project::WarningIssued),
    ProjectSuspended(project::ProjectSuspended),
    // Payment router
    FeeRateSet(router::FeeRateSet),
    DepositRouted(router::DepositRouted),
}

} // verus!
