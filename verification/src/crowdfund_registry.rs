//! Crowdfunding campaigns: review and community validation, pledges into
//! escrow, milestone payouts, disputes and batched refunds.
use vstd::prelude::*;
use crate::core_escrow::{
    amounts_total, positive_entries, refund_events, refund_transfers, running_sums_fit, CoreEscrow, EscrowError,
    EscrowPool, EscrowState, PoolLocked,
};
use crate::env::{Env, EnvState};
use crate::events::Event;
use crate::governance_voting::{self, GovernanceState, GovernanceVoting, VoteCast, VoteContext};
use crate::hash::pool_id_spec;
use crate::math::{calculate_fee_bps, fee_bps_spec, fits_i128};
use crate::reputation_registry::{
    campaign_fits, campaign_recorded, profile_rewritten, ContributorProfile, ReputationError, ReputationRegistry,
    ReputationState,
};
use crate::table::{Snapshot, Table};
use crate::types::{Address, BytesN32, ModuleType};
use vstd::string::StringExecFns;

verus! {

/// Backers are refunded in batches of this many.
pub const BACKER_BATCH_SIZE: u32 = 50;

/// Seconds after the deadline after which a pending milestone counts as overdue: 30 days.
pub const MILESTONE_OVERDUE_AFTER: u64 = 2_592_000;

#[derive(Clone, Copy, PartialEq, Eq, Structural, Debug)]
pub enum Error {
    AlreadyInitialized,
    NotInitialized,
    NotAuthorized,
    CampaignNotFound,
    DeadlinePassed,
    NotCampaigning,
    BelowMinPledge,
    InvalidState,
    MilestoneNotPending,
    MilestoneNotFound,
    MilestoneNotSubmitted,
    CampaignAlreadyFunded,
    CampaignActive,
    NoPledgeFound,
    AlreadyRefunded,
    NotOwner,
    InvalidMilestones,
    RefundBatchDone,
    DeadlineNotPassed,
    AmountNotPositive,
    Overflow,
    NotDraft,
    NotSubmitted,
    NoVoteSession,
    VoteThresholdNotMet,
    NotBacker,
    MilestoneNotDisputed,
    MilestoneNotOverdue,
    /// A call into the escrow contract failed.
    Escrow(EscrowError),
    /// A call into the reputation registry failed.
    Reputation(ReputationError),
    /// A call into the governance contract failed.
    Governance(governance_voting::Error),
}

#[derive(Clone, Copy, PartialEq, Eq, Structural, Debug)]
pub enum CampaignStatus {
    Draft,
    Submitted,
    Validated,
    Campaigning,
    Funded,
    Executing,
    Completed,
    Failed,
    Cancelled,
}

#[derive(Clone, Copy, PartialEq, Eq, Structural, Debug)]
pub enum CrowdfundMilestoneStatus {
    Pending,
    Submitted,
    Approved,
    Released,
    Rejected,
    Disputed,
}

#[derive(Clone, Copy, PartialEq, Eq, Structural, Debug)]
pub enum DisputeResolution {
    ApproveCreator,
    ApproveBacker,
}

/// Why a community vote rejected a campaign.
#[derive(Clone, Copy, PartialEq, Eq, Structural, Debug)]
pub enum VoteRejectionReason {
    /// The "Reject" option received more votes than "Approve".
    RejectMajority,
    /// Voting ended before the approval threshold was reached.
    ExpiredWithoutApproval,
}

#[derive(Clone, PartialEq, Eq, Debug)]
pub struct Milestone {
    pub id: u32,
    pub description: String,
    /// Share of the raised funds, in basis points.
    pub pct: u32,
    pub status: CrowdfundMilestoneStatus,
}

#[derive(Clone, PartialEq, Eq, Debug)]
pub struct Campaign {
    pub id: u64,
    pub owner: Address,
    pub metadata_cid: String,
    pub status: CampaignStatus,
    pub funding_goal: i128,
    pub current_funding: i128,
    pub asset: Address,
    pub pool_id: BytesN32,
    pub deadline: u64,
    pub milestone_count: u32,
    pub min_pledge: i128,
    pub backer_count: u32,
    pub refund_progress: u32,
    pub vote_session_id: Option<BytesN32>,
}

// ── Events ─────────────────────────────────────────────────────────────────

#[derive(Clone, Copy, PartialEq, Eq, Structural, Debug)]
pub struct CampaignCreated {
    pub id: u64,
    pub owner: Address,
    pub funding_goal: i128,
}

#[derive(Clone, Copy, PartialEq, Eq, Structural, Debug)]
pub struct PledgeRecorded {
    pub campaign_id: u64,
    pub donor: Address,
    pub amount: i128,
}

#[derive(Clone, Copy, PartialEq, Eq, Structural, Debug)]
pub struct CampaignFunded {
    pub id: u64,
}

#[derive(Clone, Copy, PartialEq, Eq, Structural, Debug)]
pub struct MilestoneSubmitted {
    pub campaign_id: u64,
    pub milestone_id: u32,
}

#[derive(Clone, Copy, PartialEq, Eq, Structural, Debug)]
pub struct MilestoneApproved {
    pub campaign_id: u64,
    pub milestone_id: u32,
}

#[derive(Clone, Copy, PartialEq, Eq, Structural, Debug)]
pub struct MilestoneRejected {
    pub campaign_id: u64,
    pub milestone_id: u32,
}

#[derive(Clone, Copy, PartialEq, Eq, Structural, Debug)]
pub struct CampaignFailed {
    pub id: u64,
}

#[derive(Clone, Copy, PartialEq, Eq, Structural, Debug)]
pub struct CampaignCancelled {
    pub id: u64,
}

#[derive(Clone, Copy, PartialEq, Eq, Structural, Debug)]
pub struct CampaignCancelledByOwner {
    pub id: u64,
}

#[derive(Clone, Copy, PartialEq, Eq, Structural, Debug)]
pub struct RefundBatchProcessed {
    pub campaign_id: u64,
    pub batch_index: u32,
    pub count: u32,
}

#[derive(Clone, Copy, PartialEq, Eq, Structural, Debug)]
pub struct MilestoneDisputed {
    pub campaign_id: u64,
    pub milestone_id: u32,
    pub disputer: Address,
}

#[derive(Clone, Copy, PartialEq, Eq, Structural, Debug)]
pub struct CampaignTerminated {
    pub id: u64,
}

#[derive(Clone, Copy, PartialEq, Eq, Structural, Debug)]
pub struct MilestoneOverdue {
    pub campaign_id: u64,
    pub milestone_id: u32,
}

#[derive(Clone, Copy, PartialEq, Eq, Structural, Debug)]
pub struct MilestoneEscalated {
    pub campaign_id: u64,
    pub milestone_id: u32,
}

#[derive(Clone, Copy, PartialEq, Eq, Structural, Debug)]
pub struct CampaignSubmittedForReview {
    pub id: u64,
}

#[derive(Clone, Copy, PartialEq, Eq, Debug)]
pub struct CampaignApproved {
    pub id: u64,
    pub vote_session_id: BytesN32,
}

#[derive(Clone, PartialEq, Eq, Debug)]
pub struct CampaignRejected {
    pub id: u64,
    pub reason: String,
}

#[derive(Clone, Copy, PartialEq, Eq, Structural, Debug)]
pub struct CampaignUpdated {
    pub id: u64,
    pub funding_goal: i128,
}

#[derive(Clone, Copy, PartialEq, Eq, Structural, Debug)]
pub struct CampaignValidated {
    pub id: u64,
}

#[derive(Clone, Copy, PartialEq, Eq, Structural, Debug)]
pub struct MilestoneRevisionRequested {
    pub campaign_id: u64,
    pub milestone_id: u32,
}

#[derive(Clone, Copy, PartialEq, Eq, Structural, Debug)]
pub struct CampaignVoteRejected {
    pub id: u64,
    pub reason: VoteRejectionReason,
}

#[derive(Clone, Copy, PartialEq, Eq, Structural, Debug)]
pub struct DisputeResolved {
    pub campaign_id: u64,
    pub milestone_id: u32,
    pub resolution: DisputeResolution,
}


impl Snapshot for Milestone {
    fn snapshot(&self) -> (r: Self) {
        Milestone { id: self.id, description: self.description.clone(), pct: self.pct, status: self.status }
    }
}

impl Snapshot for Campaign {
    fn snapshot(&self) -> (r: Self) {
        Campaign {
            id: self.id,
            owner: self.owner,
            metadata_cid: self.metadata_cid.clone(),
            status: self.status,
            funding_goal: self.funding_goal,
            current_funding: self.current_funding,
            asset: self.asset,
            pool_id: self.pool_id,
            deadline: self.deadline,
            milestone_count: self.milestone_count,
            min_pledge: self.min_pledge,
            backer_count: self.backer_count,
            refund_progress: self.refund_progress,
            vote_session_id: self.vote_session_id,
        }
    }
}

/// The crowdfunding registry's storage.
pub struct CrowdfundRegistry {
    /// This contract's own address.
    pub address: Address,
    pub admin: Option<Address>,
    pub core_escrow: Option<Address>,
    pub reputation_registry: Option<Address>,
    pub governance_voting: Option<Address>,
    pub campaign_count: Option<u64>,
    pub campaigns: Table<u64, Campaign>,
    pub milestones: Table<(u64, u32), Milestone>,
    pub pledges: Table<(u64, Address), i128>,
    /// Per campaign and position: the backers in the order of their first
    /// pledge. Position `i` belongs to refund batch `i / BACKER_BATCH_SIZE`.
    pub backers: Table<(u64, u32), Address>,
}

/// The mathematical content of the registry's storage.
pub ghost struct CrowdfundState {
    pub address: Address,
    pub admin: Option<Address>,
    pub core_escrow: Option<Address>,
    pub reputation_registry: Option<Address>,
    pub governance_voting: Option<Address>,
    pub campaign_count: Option<u64>,
    pub campaigns: Map<u64, Campaign>,
    pub milestones: Map<(u64, u32), Milestone>,
    pub pledges: Map<(u64, Address), i128>,
    pub backers: Map<(u64, u32), Address>,
}

impl View for CrowdfundRegistry {
    type V = CrowdfundState;

    open spec fn view(&self) -> CrowdfundState {
        CrowdfundState {
            address: self.address,
            admin: self.admin,
            core_escrow: self.core_escrow,
            reputation_registry: self.reputation_registry,
            governance_voting: self.governance_voting,
            campaign_count: self.campaign_count,
            campaigns: self.campaigns@,
            milestones: self.milestones@,
            pledges: self.pledges@,
            backers: self.backers@,
        }
    }
}

/// The sum of the shares of `s`.
pub open spec fn pct_total(s: Seq<(String, u32)>) -> int
    decreases s.len(),
{
    if s.len() == 0 {
        0
    } else {
        pct_total(s.drop_last()) + s.last().1
    }
}

/// Whether a campaign may have the milestones `s`: two to ten of them, whose
/// shares add up to 10000 basis points.
pub open spec fn milestones_valid(s: Seq<(String, u32)>) -> bool {
    2 <= s.len() <= 10 && pct_total(s) == 10000
}

/// The milestone table after the milestones described by `s` were written for campaign `id`.
pub open spec fn milestones_written(
    m: Map<(u64, u32), Milestone>,
    id: u64,
    s: Seq<(String, u32)>,
) -> Map<(u64, u32), Milestone>
    decreases s.len(),
{
    if s.len() == 0 {
        m
    } else {
        let k = s.len() - 1;
        milestones_written(m, id, s.drop_last()).insert(
            (id, k as u32),
            Milestone { id: k as u32, description: s[k].0, pct: s[k].1, status: CrowdfundMilestoneStatus::Pending },
        )
    }
}

/// Whether `l` are the options of a validation vote: "Approve", then "Reject".
pub open spec fn validation_labels(l: Seq<String>) -> bool {
    l.len() == 2 && l[0]@ == "Approve"@ && l[1]@ == "Reject"@
}

pub proof fn lemma_pct_total_prefix(s: Seq<(String, u32)>, k: int)
    requires
        0 <= k <= s.len(),
    ensures
        pct_total(s.take(k)) <= pct_total(s),
        k < s.len() ==> pct_total(s.take(k + 1)) == pct_total(s.take(k)) + s[k].1,
    decreases s.len(),
{
    if k < s.len() {
        assert(s.take(k + 1).drop_last() =~= s.take(k));
        lemma_pct_total_prefix(s.drop_last(), k);
        assert(s.drop_last().take(k) =~= s.take(k));
    } else {
        assert(s.take(k) =~= s);
    }
}

impl CrowdfundState {
    /// The number of campaigns created so far.
    pub open spec fn count(self) -> u64 {
        match self.campaign_count {
            Some(c) => c,
            None => 0,
        }
    }

    /// Whether the addresses of the three contracts this registry calls are recorded.
    pub open spec fn configured(self) -> bool {
        self.core_escrow is Some && self.reputation_registry is Some && self.governance_voting is Some
    }

    /// Whether the contracts handed in are the ones this registry was set up with.
    pub open spec fn wired(self, escrow: EscrowState, rep: ReputationState, gov: GovernanceState) -> bool {
        &&& (self.core_escrow matches Some(a) ==> escrow.address == a)
        &&& (self.reputation_registry matches Some(a) ==> rep.address == a)
        &&& (self.governance_voting matches Some(a) ==> gov.address == a)
    }

    /// The net amount `backer` has pledged to campaign `id`; zero where none.
    pub open spec fn pledge_of(self, id: u64, backer: Address) -> i128 {
        if self.pledges.contains_key((id, backer)) {
            self.pledges[(id, backer)]
        } else {
            0
        }
    }

    /// The storage with campaign `id` replaced by `c`.
    pub open spec fn with_campaign(self, id: u64, c: Campaign) -> CrowdfundState {
        CrowdfundState { campaigns: self.campaigns.insert(id, c), ..self }
    }

    /// The storage with the status of campaign `id` set to `status`.
    pub open spec fn with_status(self, id: u64, status: CampaignStatus) -> CrowdfundState {
        self.with_campaign(id, Campaign { status, ..self.campaigns[id] })
    }

    /// The storage with milestone `idx` of campaign `id` set to `status`.
    pub open spec fn with_milestone_status(self, id: u64, idx: u32, status: CrowdfundMilestoneStatus) -> CrowdfundState {
        CrowdfundState {
            milestones: self.milestones.insert((id, idx), Milestone { status, ..self.milestones[(id, idx)] }),
            ..self
        }
    }

    /// The checks shared by the edits of a draft: the new goal, deadline and milestones.
    pub open spec fn draft_check(self, goal: i128, deadline: u64, s: Seq<(String, u32)>, now: u64) -> Result<(), Error> {
        if goal <= 0 {
            Err(Error::AmountNotPositive)
        } else if deadline <= now {
            Err(Error::DeadlinePassed)
        } else if !milestones_valid(s) {
            Err(Error::InvalidMilestones)
        } else {
            Ok(())
        }
    }

    /// The checks of `approve_campaign` before the voting session is opened.
    pub open spec fn approve_check(self, id: u64) -> Result<(), Error> {
        if self.admin is None {
            Err(Error::NotInitialized)
        } else if !self.campaigns.contains_key(id) {
            Err(Error::CampaignNotFound)
        } else if self.campaigns[id].status != CampaignStatus::Submitted {
            Err(Error::NotSubmitted)
        } else {
            Ok(())
        }
    }

    /// How the validation vote of campaign `id` has ended at time `now`:
    /// `None` where the campaign is validated, else why it was rejected.
    pub open spec fn vote_outcome(self, gov: GovernanceState, id: u64, now: u64) -> Result<Option<VoteRejectionReason>, Error> {
        let c = self.campaigns[id];
        let sid = c.vote_session_id->0;
        if !self.campaigns.contains_key(id) {
            Err(Error::CampaignNotFound)
        } else if c.status != CampaignStatus::Submitted {
            Err(Error::NotSubmitted)
        } else if c.vote_session_id is None {
            Err(Error::NoVoteSession)
        } else if !gov.sessions.contains_key(sid) {
            Err(Error::Governance(governance_voting::Error::SessionNotFound))
        } else if gov.sessions[sid].threshold_reached {
            if !gov.options.contains_key((sid, 0)) || !gov.options.contains_key((sid, 1)) {
                Err(Error::Governance(governance_voting::Error::InvalidOption))
            } else if gov.options[(sid, 0)].votes > gov.options[(sid, 1)].votes {
                Ok(None)
            } else if gov.options[(sid, 1)].votes > gov.options[(sid, 0)].votes {
                Ok(Some(VoteRejectionReason::RejectMajority))
            } else {
                Err(Error::VoteThresholdNotMet)
            }
        } else if now <= gov.sessions[sid].end_at {
            Err(Error::VoteThresholdNotMet)
        } else {
            Ok(Some(VoteRejectionReason::ExpiredWithoutApproval))
        }
    }
}

impl CrowdfundRegistry {
    /// A crowdfunding registry at `address` with empty storage.
    pub fn new(address: Address) -> (c: CrowdfundRegistry)
        ensures
            c@ == (CrowdfundState {
                address,
                admin: None,
                core_escrow: None,
                reputation_registry: None,
                governance_voting: None,
                campaign_count: None,
                campaigns: Map::empty(),
                milestones: Map::empty(),
                pledges: Map::empty(),
                backers: Map::empty(),
            }),
    {
        CrowdfundRegistry {
            address,
            admin: None,
            core_escrow: None,
            reputation_registry: None,
            governance_voting: None,
            campaign_count: None,
            campaigns: Table::new(),
            milestones: Table::new(),
            pledges: Table::new(),
            backers: Table::new(),
        }
    }

    pub fn init(
        &mut self,
        admin: Address,
        core_escrow: Address,
        reputation_registry: Address,
        governance_voting: Address,
    ) -> (r: Result<(), Error>)
        ensures
            old(self)@.admin is Some ==> r == Err::<(), _>(Error::AlreadyInitialized) && final(self)@ == old(self)@,
            old(self)@.admin is None ==> r is Ok && final(self)@ == (CrowdfundState {
                admin: Some(admin),
                core_escrow: Some(core_escrow),
                reputation_registry: Some(reputation_registry),
                governance_voting: Some(governance_voting),
                campaign_count: Some(0),
                ..old(self)@
            }),
    {
        if self.admin.is_some() {
            return Err(Error::AlreadyInitialized);
        }
        self.admin = Some(admin);
        self.core_escrow = Some(core_escrow);
        self.reputation_registry = Some(reputation_registry);
        self.governance_voting = Some(governance_voting);
        self.campaign_count = Some(0);
        Ok(())
    }

    pub fn get_campaign(&self, campaign_id: u64) -> (r: Result<Campaign, Error>)
        ensures
            r == if self@.campaigns.contains_key(campaign_id) {
                Ok(self@.campaigns[campaign_id])
            } else {
                Err(Error::CampaignNotFound)
            },
    {
        match self.campaigns.get(&campaign_id) {
            Some(c) => Ok(c.snapshot()),
            None => Err(Error::CampaignNotFound),
        }
    }

    pub fn get_milestone(&self, campaign_id: u64, milestone_index: u32) -> (r: Result<Milestone, Error>)
        ensures
            r == if self@.milestones.contains_key((campaign_id, milestone_index)) {
                Ok(self@.milestones[(campaign_id, milestone_index)])
            } else {
                Err(Error::MilestoneNotFound)
            },
    {
        match self.milestones.get(&(campaign_id, milestone_index)) {
            Some(m) => Ok(m.snapshot()),
            None => Err(Error::MilestoneNotFound),
        }
    }

    pub fn get_dispute_status(&self, campaign_id: u64, milestone_index: u32) -> (r: Result<CrowdfundMilestoneStatus, Error>)
        ensures
            r == if self@.milestones.contains_key((campaign_id, milestone_index)) {
                Ok(self@.milestones[(campaign_id, milestone_index)].status)
            } else {
                Err(Error::MilestoneNotFound)
            },
    {
        match self.milestones.get(&(campaign_id, milestone_index)) {
            Some(m) => Ok(m.status),
            None => Err(Error::MilestoneNotFound),
        }
    }

    pub fn get_pledge(&self, campaign_id: u64, backer: Address) -> (a: i128)
        ensures
            a == self@.pledge_of(campaign_id, backer),
    {
        match self.pledges.get(&(campaign_id, backer)) {
            Some(a) => *a,
            None => 0,
        }
    }

    pub fn get_campaign_count(&self) -> (c: u64)
        ensures
            c == self@.count(),
    {
        match self.campaign_count {
            Some(c) => c,
            None => 0,
        }
    }

    pub fn get_vote_session(&self, campaign_id: u64) -> (r: Result<BytesN32, Error>)
        ensures
            r == if !self@.campaigns.contains_key(campaign_id) {
                Err(Error::CampaignNotFound)
            } else {
                match self@.campaigns[campaign_id].vote_session_id {
                    Some(s) => Ok(s),
                    None => Err(Error::NoVoteSession),
                }
            },
    {
        match self.campaigns.get(&campaign_id) {
            Some(c) => match c.vote_session_id {
                Some(s) => Ok(s),
                None => Err(Error::NoVoteSession),
            },
            None => Err(Error::CampaignNotFound),
        }
    }

    /// Checks that an upgrade may proceed: the contract must be initialised.
    pub fn upgrade(&self, new_wasm_hash: BytesN32) -> (r: Result<(), Error>)
        ensures
            r == if self@.admin is Some {
                Ok::<(), Error>(())
            } else {
                Err(Error::NotInitialized)
            },
    {
        if self.admin.is_none() {
            return Err(Error::NotInitialized);
        }
        Ok(())
    }

    /// Whether a campaign may have the milestones `descs`.
    fn validate_milestones(descs: &Vec<(String, u32)>) -> (r: Result<(), Error>)
        requires
            2 <= descs@.len() <= 10 ==> pct_total(descs@) <= u32::MAX,
        ensures
            r == if milestones_valid(descs@) {
                Ok::<(), Error>(())
            } else {
                Err(Error::InvalidMilestones)
            },
    {
        let n = descs.len();
        if n < 2 || n > 10 {
            return Err(Error::InvalidMilestones);
        }
        let mut sum: u32 = 0;
        let mut i: usize = 0;
        while i < n
            invariant
                n == descs@.len(),
                2 <= n <= 10,
                i <= n,
                pct_total(descs@) <= u32::MAX,
                sum == pct_total(descs@.take(i as int)),
            decreases n - i,
        {
            proof {
                lemma_pct_total_prefix(descs@, i as int);
                lemma_pct_total_prefix(descs@, i + 1);
            }
            sum = sum + descs[i].1;
            i = i + 1;
        }
        assert(descs@.take(n as int) =~= descs@);
        if sum != 10000 {
            return Err(Error::InvalidMilestones);
        }
        Ok(())
    }

    /// Writes the milestones described by `descs` for campaign `id`, all pending.
    fn write_milestones(&mut self, id: u64, descs: &Vec<(String, u32)>)
        requires
            descs@.len() <= 10,
        ensures
            final(self)@ == (CrowdfundState {
                milestones: milestones_written(old(self)@.milestones, id, descs@),
                ..old(self)@
            }),
    {
        let n = descs.len();
        let mut i: usize = 0;
        while i < n
            invariant
                n == descs@.len(),
                n <= 10,
                i <= n,
                self@ == (CrowdfundState {
                    milestones: milestones_written(old(self)@.milestones, id, descs@.take(i as int)),
                    ..old(self)@
                }),
            decreases n - i,
        {
            let m = Milestone {
                id: i as u32,
                description: descs[i].0.clone(),
                pct: descs[i].1,
                status: CrowdfundMilestoneStatus::Pending,
            };
            proof {
                assert(descs@.take(i + 1).drop_last() =~= descs@.take(i as int));
            }
            self.milestones.insert((id, i as u32), m);
            i = i + 1;
        }
        assert(descs@.take(n as int) =~= descs@);
    }

    /// Creates a campaign in draft (or, with `submit`, submitted for review),
    /// with an empty escrow pool that the pledges will fill.
    pub fn create_campaign(
        &mut self,
        env: &mut Env,
        escrow: &mut CoreEscrow,
        owner: Address,
        metadata_cid: String,
        funding_goal: i128,
        asset: Address,
        deadline: u64,
        milestone_descs: Vec<(String, u32)>,
        min_pledge: i128,
        submit: bool,
    ) -> (r: Result<u64, Error>)
        requires
            old(self)@.count() < u64::MAX,
            2 <= milestone_descs@.len() <= 10 ==> pct_total(milestone_descs@) <= u32::MAX,
            old(self)@.core_escrow matches Some(a) ==> old(escrow)@.address == a,
            old(self)@.draft_check(funding_goal, deadline, milestone_descs@, old(env)@.timestamp) is Ok
                ==> old(self)@.core_escrow is Some,
        ensures
            ({
                let id = (old(self)@.count() + 1) as u64;
                let check = old(self)@.draft_check(funding_goal, deadline, milestone_descs@, old(env)@.timestamp);
                &&& check is Err ==> r == Err::<u64, _>(check->Err_0)
                &&& check is Ok && old(escrow)@.has_pool_for(ModuleType::Crowdfund, id) ==> r == Err::<u64, _>(
                    Error::Escrow(EscrowError::PoolAlreadyExists),
                )
                &&& check is Ok && !old(escrow)@.has_pool_for(ModuleType::Crowdfund, id) ==> r == Ok::<u64, Error>(id)
                &&& r is Err ==> final(self)@ == old(self)@ && final(escrow)@ == old(escrow)@ && final(env)@ == old(env)@
                &&& r is Ok ==> {
                    let pid = final(self)@.campaigns[id].pool_id;
                    let env1 = old(escrow)@.create_pool_env(old(env)@, pid, owner, ModuleType::Crowdfund, 0, asset).emit(
                        Event::CampaignCreated(CampaignCreated { id, owner, funding_goal }),
                    );
                    &&& pid.bytes@ == pool_id_spec(ModuleType::Crowdfund, id)
                    &&& final(self)@ == (CrowdfundState {
                        campaign_count: Some(id),
                        campaigns: old(self)@.campaigns.insert(
                            id,
                            Campaign {
                                id,
                                owner,
                                metadata_cid,
                                status: if submit {
                                    CampaignStatus::Submitted
                                } else {
                                    CampaignStatus::Draft
                                },
                                funding_goal,
                                current_funding: 0,
                                asset,
                                pool_id: pid,
                                deadline,
                                milestone_count: milestone_descs@.len() as u32,
                                min_pledge,
                                backer_count: 0,
                                refund_progress: 0,
                                vote_session_id: None,
                            },
                        ),
                        milestones: milestones_written(old(self)@.milestones, id, milestone_descs@),
                        ..old(self)@
                    })
                    &&& final(escrow)@ == old(escrow)@.pool_created(
                        pid, owner, ModuleType::Crowdfund, 0, asset, deadline, old(self)@.address,
                        old(env)@.timestamp,
                    )
                    &&& final(env)@ == if submit {
                        env1.emit(Event::CampaignSubmittedForReview(CampaignSubmittedForReview { id }))
                    } else {
                        env1
                    }
                }
            }),
    {
        if funding_goal <= 0 {
            return Err(Error::AmountNotPositive);
        }
        if deadline <= env.timestamp {
            return Err(Error::DeadlinePassed);
        }
        Self::validate_milestones(&milestone_descs)?;
        let count = match self.campaign_count {
            Some(c) => c,
            None => 0,
        } + 1;
        let pool_id = match escrow.create_pool(
            env,
            owner,
            ModuleType::Crowdfund,
            count,
            0,
            asset,
            deadline,
            self.address,
        ) {
            Ok(p) => p,
            Err(e) => return Err(Error::Escrow(e)),
        };
        self.campaign_count = Some(count);
        self.write_milestones(count, &milestone_descs);
        let campaign = Campaign {
            id: count,
            owner,
            metadata_cid,
            status: if submit {
                CampaignStatus::Submitted
            } else {
                CampaignStatus::Draft
            },
            funding_goal,
            current_funding: 0,
            asset,
            pool_id,
            deadline,
            milestone_count: milestone_descs.len() as u32,
            min_pledge,
            backer_count: 0,
            refund_progress: 0,
            vote_session_id: None,
        };
        self.campaigns.insert(count, campaign);
        env.emit(Event::CampaignCreated(CampaignCreated { id: count, owner, funding_goal }));
        if submit {
            env.emit(Event::CampaignSubmittedForReview(CampaignSubmittedForReview { id: count }));
        }
        Ok(count)
    }

    /// The owner rewrites a draft campaign. Milestones are written anew at
    /// positions `0..`; any stored beyond the new count stay as they were.
    pub fn update_campaign(
        &mut self,
        env: &mut Env,
        campaign_id: u64,
        metadata_cid: String,
        funding_goal: i128,
        asset: Address,
        deadline: u64,
        milestone_descs: Vec<(String, u32)>,
        min_pledge: i128,
    ) -> (r: Result<(), Error>)
        requires
            2 <= milestone_descs@.len() <= 10 ==> pct_total(milestone_descs@) <= u32::MAX,
        ensures
            ({
                let c = old(self)@.campaigns[campaign_id];
                &&& r == if !old(self)@.campaigns.contains_key(campaign_id) {
                    Err(Error::CampaignNotFound)
                } else if c.status != CampaignStatus::Draft {
                    Err(Error::NotDraft)
                } else {
                    old(self)@.draft_check(funding_goal, deadline, milestone_descs@, old(env)@.timestamp)
                }
                &&& r is Err ==> final(self)@ == old(self)@ && final(env)@ == old(env)@
                &&& r is Ok ==> final(self)@ == (CrowdfundState {
                    campaigns: old(self)@.campaigns.insert(
                        campaign_id,
                        Campaign {
                            metadata_cid,
                            funding_goal,
                            asset,
                            deadline,
                            milestone_count: milestone_descs@.len() as u32,
                            min_pledge,
                            ..c
                        },
                    ),
                    milestones: milestones_written(old(self)@.milestones, campaign_id, milestone_descs@),
                    ..old(self)@
                }) && final(env)@ == old(env)@.emit(
                    Event::CampaignUpdated(CampaignUpdated { id: campaign_id, funding_goal }),
                )
            }),
    {
        let mut campaign = match self.campaigns.get(&campaign_id) {
            Some(c) => c.snapshot(),
            None => return Err(Error::CampaignNotFound),
        };
        if campaign.status != CampaignStatus::Draft {
            return Err(Error::NotDraft);
        }
        if funding_goal <= 0 {
            return Err(Error::AmountNotPositive);
        }
        if deadline <= env.timestamp {
            return Err(Error::DeadlinePassed);
        }
        Self::validate_milestones(&milestone_descs)?;
        self.write_milestones(campaign_id, &milestone_descs);
        campaign.metadata_cid = metadata_cid;
        campaign.funding_goal = funding_goal;
        campaign.asset = asset;
        campaign.deadline = deadline;
        campaign.milestone_count = milestone_descs.len() as u32;
        campaign.min_pledge = min_pledge;
        self.campaigns.insert(campaign_id, campaign);
        env.emit(Event::CampaignUpdated(CampaignUpdated { id: campaign_id, funding_goal }));
        Ok(())
    }

    /// The owner submits a draft for review.
    pub fn submit_for_review(&mut self, env: &mut Env, campaign_id: u64) -> (r: Result<(), Error>)
        ensures
            r == if !old(self)@.campaigns.contains_key(campaign_id) {
                Err(Error::CampaignNotFound)
            } else if old(self)@.campaigns[campaign_id].status != CampaignStatus::Draft {
                Err(Error::NotDraft)
            } else {
                Ok(())
            },
            r is Err ==> final(self)@ == old(self)@ && final(env)@ == old(env)@,
            r is Ok ==> final(self)@ == old(self)@.with_status(campaign_id, CampaignStatus::Submitted)
                && final(env)@ == old(env)@.emit(
                Event::CampaignSubmittedForReview(CampaignSubmittedForReview { id: campaign_id }),
            ),
    {
        let mut campaign = match self.campaigns.get(&campaign_id) {
            Some(c) => c.snapshot(),
            None => return Err(Error::CampaignNotFound),
        };
        if campaign.status != CampaignStatus::Draft {
            return Err(Error::NotDraft);
        }
        campaign.status = CampaignStatus::Submitted;
        self.campaigns.insert(campaign_id, campaign);
        env.emit(Event::CampaignSubmittedForReview(CampaignSubmittedForReview { id: campaign_id }));
        Ok(())
    }

    /// The admin sends a submitted campaign to a community vote with the
    /// options "Approve" and "Reject", open from now for `voting_duration`.
    pub fn approve_campaign(
        &mut self,
        env: &mut Env,
        gov: &mut GovernanceVoting,
        campaign_id: u64,
        voting_duration: u64,
        vote_threshold: u32,
    ) -> (r: Result<BytesN32, Error>)
        requires
            old(self)@.governance_voting matches Some(a) ==> old(gov)@.address == a,
            old(self)@.approve_check(campaign_id) is Ok ==> old(self)@.governance_voting is Some,
            old(env)@.timestamp + voting_duration <= u64::MAX,
        ensures
            ({
                let check = old(self)@.approve_check(campaign_id);
                let now = old(env)@.timestamp;
                &&& check is Err ==> r == Err::<BytesN32, _>(check->Err_0)
                &&& check is Ok && !old(gov)@.module_authorized(old(self)@.address) ==> r == Err::<BytesN32, _>(
                    Error::Governance(governance_voting::Error::ModuleNotAuthorized),
                )
                &&& check is Ok && old(gov)@.module_authorized(old(self)@.address) && voting_duration == 0 ==> r
                    == Err::<BytesN32, _>(Error::Governance(governance_voting::Error::InvalidTimeRange))
                &&& check is Ok && old(gov)@.module_authorized(old(self)@.address) && voting_duration > 0 ==> r is Ok
                &&& r is Err ==> final(self)@ == old(self)@ && final(gov)@ == old(gov)@ && final(env)@ == old(env)@
                &&& r matches Ok(sid) ==> {
                    &&& sid.bytes@ == governance_voting::session_id_spec(VoteContext::CampaignValidation, campaign_id)
                    &&& final(self)@ == old(self)@.with_campaign(
                        campaign_id,
                        Campaign { vote_session_id: Some(sid), ..old(self)@.campaigns[campaign_id] },
                    )
                    &&& exists|labels: Seq<String>|
                        validation_labels(labels) && #[trigger] final(gov)@ == old(gov)@.session_opened(
                            sid, labels, VoteContext::CampaignValidation, campaign_id, now, now,
                            (now + voting_duration) as u64, Some(vote_threshold), None, false,
                        )
                    &&& final(env)@ == old(env)@.emit(
                        Event::SessionCreated(
                            governance_voting::SessionCreated {
                                session_id: sid,
                                context: VoteContext::CampaignValidation,
                                module_id: campaign_id,
                            },
                        ),
                    ).emit(Event::CampaignApproved(CampaignApproved { id: campaign_id, vote_session_id: sid }))
                }
            }),
    {
        if self.admin.is_none() {
            return Err(Error::NotInitialized);
        }
        let mut campaign = match self.campaigns.get(&campaign_id) {
            Some(c) => c.snapshot(),
            None => return Err(Error::CampaignNotFound),
        };
        if campaign.status != CampaignStatus::Submitted {
            return Err(Error::NotSubmitted);
        }
        let mut options: Vec<String> = Vec::new();
        options.push(String::from_str("Approve"));
        options.push(String::from_str("Reject"));
        let now = env.timestamp;
        let session_id = match gov.create_session(
            env,
            self.address,
            VoteContext::CampaignValidation,
            campaign_id,
            &options,
            now,
            now + voting_duration,
            Some(vote_threshold),
            None,
            false,
        ) {
            Ok(s) => s,
            Err(e) => return Err(Error::Governance(e)),
        };
        assert(validation_labels(options@));
        campaign.vote_session_id = Some(session_id);
        self.campaigns.insert(campaign_id, campaign);
        env.emit(Event::CampaignApproved(CampaignApproved { id: campaign_id, vote_session_id: session_id }));
        Ok(session_id)
    }

    /// The admin rejects a submitted campaign: it is cancelled.
    pub fn reject_campaign(&mut self, env: &mut Env, campaign_id: u64, reason: String) -> (r: Result<(), Error>)
        ensures
            r == old(self)@.approve_check(campaign_id),
            r is Err ==> final(self)@ == old(self)@ && final(env)@ == old(env)@,
            r is Ok ==> final(self)@ == old(self)@.with_campaign(
                campaign_id,
                Campaign {
                    status: CampaignStatus::Cancelled,
                    vote_session_id: None,
                    ..old(self)@.campaigns[campaign_id]
                },
            ) && final(env)@ == old(env)@.emit(Event::CampaignRejected(CampaignRejected { id: campaign_id, reason })),
    {
        if self.admin.is_none() {
            return Err(Error::NotInitialized);
        }
        let mut campaign = match self.campaigns.get(&campaign_id) {
            Some(c) => c.snapshot(),
            None => return Err(Error::CampaignNotFound),
        };
        if campaign.status != CampaignStatus::Submitted {
            return Err(Error::NotSubmitted);
        }
        campaign.status = CampaignStatus::Cancelled;
        campaign.vote_session_id = None;
        self.campaigns.insert(campaign_id, campaign);
        env.emit(Event::CampaignRejected(CampaignRejected { id: campaign_id, reason }));
        Ok(())
    }

    /// Casts `voter`'s vote in the validation vote of a campaign.
    pub fn vote_campaign(
        &self,
        env: &mut Env,
        gov: &mut GovernanceVoting,
        voter: Address,
        campaign_id: u64,
        option_id: u32,
    ) -> (r: Result<(), Error>)
        requires
            self@.governance_voting matches Some(a) ==> old(gov)@.address == a,
            self@.campaigns.contains_key(campaign_id) ==> self@.governance_voting is Some,
        ensures
            ({
                let sid = self@.campaigns[campaign_id].vote_session_id->0;
                let now = old(env)@.timestamp;
                &&& r == if !self@.campaigns.contains_key(campaign_id) {
                    Err(Error::CampaignNotFound)
                } else if self@.campaigns[campaign_id].vote_session_id is None {
                    Err(Error::NoVoteSession)
                } else {
                    match old(gov)@.cast_vote_result(now, voter, sid, option_id) {
                        Err(e) => Err(Error::Governance(e)),
                        Ok(_) => Ok(()),
                    }
                }
                &&& r is Err ==> final(gov)@ == old(gov)@ && final(env)@ == old(env)@
                &&& r is Ok ==> final(gov)@ == old(gov)@.voted(now, voter, sid, option_id) && final(env)@ == old(
                    env,
                )@.emit(Event::VoteCast(VoteCast { session_id: sid, voter, option_id }))
            }),
    {
        let session_id = match self.campaigns.get(&campaign_id) {
            Some(c) => match c.vote_session_id {
                Some(s) => s,
                None => return Err(Error::NoVoteSession),
            },
            None => return Err(Error::CampaignNotFound),
        };
        match gov.cast_vote(env, voter, session_id, option_id) {
            Ok(()) => Ok(()),
            Err(e) => Err(Error::Governance(e)),
        }
    }

    /// Settles the validation vote of a submitted campaign: it starts
    /// campaigning when "Approve" leads once the threshold is reached, and is
    /// cancelled when "Reject" leads or the vote ended without reaching it.
    pub fn check_vote_threshold(&mut self, env: &mut Env, gov: &GovernanceVoting, campaign_id: u64) -> (r: Result<(), Error>)
        requires
            old(self)@.governance_voting matches Some(a) ==> gov@.address == a,
            old(self)@.campaigns.contains_key(campaign_id) ==> old(self)@.governance_voting is Some,
        ensures
            ({
                let outcome = old(self)@.vote_outcome(gov@, campaign_id, old(env)@.timestamp);
                let c = old(self)@.campaigns[campaign_id];
                &&& outcome is Err ==> r == Err::<(), _>(outcome->Err_0)
                &&& outcome is Ok ==> r is Ok
                &&& r is Err ==> final(self)@ == old(self)@ && final(env)@ == old(env)@
                &&& outcome == Ok::<Option<VoteRejectionReason>, Error>(None) ==> final(self)@ == old(self)@.with_status(
                    campaign_id,
                    CampaignStatus::Campaigning,
                ) && final(env)@ == old(env)@.emit(Event::CampaignValidated(CampaignValidated { id: campaign_id }))
                &&& outcome matches Ok(Some(reason)) ==> final(self)@ == old(self)@.with_campaign(
                    campaign_id,
                    Campaign { status: CampaignStatus::Cancelled, vote_session_id: None, ..c },
                ) && final(env)@ == old(env)@.emit(
                    Event::CampaignVoteRejected(CampaignVoteRejected { id: campaign_id, reason }),
                )
            }),
    {
        let mut campaign = match self.campaigns.get(&campaign_id) {
            Some(c) => c.snapshot(),
            None => return Err(Error::CampaignNotFound),
        };
        if campaign.status != CampaignStatus::Submitted {
            return Err(Error::NotSubmitted);
        }
        let session_id = match campaign.vote_session_id {
            Some(s) => s,
            None => return Err(Error::NoVoteSession),
        };
        let reached = match gov.threshold_reached(session_id) {
            Ok(b) => b,
            Err(e) => return Err(Error::Governance(e)),
        };
        let reason = if reached {
            let approve = match gov.get_option(session_id, 0) {
                Ok(o) => o,
                Err(e) => return Err(Error::Governance(e)),
            };
            let reject = match gov.get_option(session_id, 1) {
                Ok(o) => o,
                Err(e) => return Err(Error::Governance(e)),
            };
            if approve.votes > reject.votes {
                None
            } else if reject.votes > approve.votes {
                Some(VoteRejectionReason::RejectMajority)
            } else {
                return Err(Error::VoteThresholdNotMet);
            }
        } else {
            let session = match gov.get_session(session_id) {
                Ok(s) => s,
                Err(e) => return Err(Error::Governance(e)),
            };
            if env.timestamp <= session.end_at {
                return Err(Error::VoteThresholdNotMet);
            }
            Some(VoteRejectionReason::ExpiredWithoutApproval)
        };
        match reason {
            None => {
                campaign.status = CampaignStatus::Campaigning;
                self.campaigns.insert(campaign_id, campaign);
                env.emit(Event::CampaignValidated(CampaignValidated { id: campaign_id }));
            },
            Some(why) => {
                campaign.status = CampaignStatus::Cancelled;
                campaign.vote_session_id = None;
                self.campaigns.insert(campaign_id, campaign);
                env.emit(Event::CampaignVoteRejected(CampaignVoteRejected { id: campaign_id, reason: why }));
            },
        }
        Ok(())
    }
}


/// The release slots of a funded campaign: one per milestone `0..n`, for the
/// owner, of that milestone's share of `funding`.
pub open spec fn milestone_slots(
    ms: Map<(u64, u32), Milestone>,
    id: u64,
    owner: Address,
    funding: i128,
    n: nat,
) -> Seq<(Address, i128)>
    decreases n,
{
    if n == 0 {
        Seq::empty()
    } else {
        let pct = ms[(id, (n - 1) as u32)].pct;
        milestone_slots(ms, id, owner, funding, (n - 1) as nat).push(
            (owner, (fee_bps_spec(funding as int, pct as int)->0) as i128),
        )
    }
}

/// Whether every milestone share of `funding` among milestones `0..n` stays within `i128`.
pub open spec fn slot_amounts_fit(ms: Map<(u64, u32), Milestone>, id: u64, funding: i128, n: nat) -> bool {
    forall|i: int| 0 <= i < n ==> #[trigger] fee_bps_spec(funding as int, ms[(id, i as u32)].pct as int) is Some
}

/// Whether milestones `0..n` of campaign `id` are stored.
pub open spec fn milestones_stored(ms: Map<(u64, u32), Milestone>, id: u64, n: nat) -> bool {
    forall|i: int| 0 <= i < n ==> #[trigger] ms.contains_key((id, i as u32))
}

/// What locking a campaign's pool and dividing `funding` over its milestones returns.
pub open spec fn fund_result(
    escrow: EscrowState,
    ms: Map<(u64, u32), Milestone>,
    id: u64,
    pid: BytesN32,
    owner: Address,
    funding: i128,
    n: nat,
) -> Result<(), Error> {
    match escrow.lock_pool_result(pid) {
        Err(e) => Err(Error::Escrow(e)),
        Ok(_) => if !slot_amounts_fit(ms, id, funding, n) {
            Err(Error::Overflow)
        } else {
            match escrow.pool_locked(pid).define_slots_result(pid, milestone_slots(ms, id, owner, funding, n)) {
                Err(e) => Err(Error::Escrow(e)),
                Ok(_) => Ok(()),
            }
        },
    }
}

impl CrowdfundState {
    /// What `pledge` returns.
    pub open spec fn pledge_result(self, escrow: EscrowState, id: u64, backer: Address, amount: i128, now: u64) -> Result<(), Error> {
        let c = self.campaigns[id];
        if !self.campaigns.contains_key(id) {
            Err(Error::CampaignNotFound)
        } else if now > c.deadline {
            Err(Error::DeadlinePassed)
        } else if c.status != CampaignStatus::Campaigning {
            Err(Error::NotCampaigning)
        } else if amount < c.min_pledge {
            Err(Error::BelowMinPledge)
        } else if escrow.route_pledge_result(c.pool_id, amount) is Err {
            Err(Error::Escrow(escrow.route_pledge_result(c.pool_id, amount)->Err_0))
        } else if !fits_i128(c.current_funding + amount) || !fits_i128(self.pledge_of(id, backer) + amount) {
            Err(Error::Overflow)
        } else if c.current_funding + amount >= c.funding_goal {
            fund_result(
                escrow.pledged(c.pool_id, amount),
                self.milestones,
                id,
                c.pool_id,
                c.owner,
                (c.current_funding + amount) as i128,
                c.milestone_count as nat,
            )
        } else {
            Ok(())
        }
    }
}

impl CrowdfundRegistry {
    /// Locks pool `pid` and gives it one release slot per milestone `0..n` of
    /// campaign `id`, for `owner`; changes nothing on failure.
    #[verifier::loop_isolation(false)]
    fn fund_pool(
        &self,
        env: &mut Env,
        escrow: &mut CoreEscrow,
        id: u64,
        pid: BytesN32,
        owner: Address,
        funding: i128,
        n: u32,
    ) -> (r: Result<(), Error>)
        requires
            milestones_stored(self@.milestones, id, n as nat),
        ensures
            r == fund_result(old(escrow)@, self@.milestones, id, pid, owner, funding, n as nat),
            r is Err ==> final(escrow)@ == old(escrow)@ && final(env)@ == old(env)@,
            r is Ok ==> final(escrow)@ == old(escrow)@.pool_locked(pid).slots_defined(
                pid,
                milestone_slots(self@.milestones, id, owner, funding, n as nat),
            ) && final(env)@ == old(env)@.emit(Event::PoolLocked(PoolLocked { pool_id: pid })),
    {
        let saved = escrow.snapshot();
        let m = env.mark();
        match escrow.lock_pool(env, pid) {
            Ok(()) => {},
            Err(e) => return Err(Error::Escrow(e)),
        }
        let mut slots: Vec<(Address, i128)> = Vec::new();
        let mut i: u32 = 0;
        while i < n
            invariant
                i <= n,
                slots@ == milestone_slots(self@.milestones, id, owner, funding, i as nat),
                slot_amounts_fit(self@.milestones, id, funding, i as nat),
                slots@.len() == i,
                saved@ == old(escrow)@,
                escrow@ == old(escrow)@.pool_locked(pid),
                env@ == old(env)@.emit(Event::PoolLocked(PoolLocked { pool_id: pid })),
                m.0 == old(env)@.transfers.len(),
                m.1 == old(env)@.events.len(),
            decreases n - i,
        {
            let pct = match self.milestones.get(&(id, i)) {
                Some(ms) => ms.pct,
                None => {
                    assert(self@.milestones.contains_key((id, (i as int) as u32)));
                    return Err(Error::MilestoneNotFound);
                },
            };
            match calculate_fee_bps(funding, pct) {
                Some(a) => {
                    slots.push((owner, a));
                },
                None => {
                    *escrow = saved;
                    env.rollback(m);
                    assert(env@.transfers =~= old(env)@.transfers);
                    assert(env@.events =~= old(env)@.events);
                    assert(fee_bps_spec(funding as int, self@.milestones[(id, (i as int) as u32)].pct as int) is None);
                    return Err(Error::Overflow);
                },
            }
            i = i + 1;
        }
        match escrow.define_release_slots(pid, &slots) {
            Ok(()) => Ok(()),
            Err(e) => {
                *escrow = saved;
                env.rollback(m);
                assert(env@.transfers =~= old(env)@.transfers);
                assert(env@.events =~= old(env)@.events);
                Err(Error::Escrow(e))
            },
        }
    }

    /// A backer pledges `amount` to a campaigning campaign; the fee is charged
    /// on top. The first pledge of a backer enters the refund list. Once the
    /// goal is reached the pool is locked and divided over the milestones.
    pub fn pledge(&mut self, env: &mut Env, escrow: &mut CoreEscrow, backer: Address, campaign_id: u64, amount: i128) -> (r: Result<(), Error>)
        requires
            old(self)@.core_escrow matches Some(a) ==> old(escrow)@.address == a,
            old(self)@.campaigns.contains_key(campaign_id) ==> old(self)@.core_escrow is Some
                && old(self)@.campaigns[campaign_id].backer_count < u32::MAX && milestones_stored(
                old(self)@.milestones,
                campaign_id,
                old(self)@.campaigns[campaign_id].milestone_count as nat,
            ),
        ensures
            ({
                let c = old(self)@.campaigns[campaign_id];
                let f = (c.current_funding + amount) as i128;
                let funded = c.current_funding + amount >= c.funding_goal;
                let fresh = old(self)@.pledge_of(campaign_id, backer) == 0;
                let e1 = old(escrow)@.pledged(c.pool_id, amount);
                let slots = milestone_slots(old(self)@.milestones, campaign_id, c.owner, f, c.milestone_count as nat);
                let v1 = old(escrow)@.pledge_env(old(env)@, backer, c.pool_id, amount, c.asset);
                &&& r == old(self)@.pledge_result(old(escrow)@, campaign_id, backer, amount, old(env)@.timestamp)
                &&& r is Err ==> final(self)@ == old(self)@ && final(escrow)@ == old(escrow)@ && final(env)@ == old(env)@
                &&& r is Ok ==> final(self)@ == (CrowdfundState {
                    campaigns: old(self)@.campaigns.insert(
                        campaign_id,
                        Campaign {
                            current_funding: f,
                            backer_count: if fresh {
                                (c.backer_count + 1) as u32
                            } else {
                                c.backer_count
                            },
                            status: if funded {
                                CampaignStatus::Funded
                            } else {
                                c.status
                            },
                            ..c
                        },
                    ),
                    pledges: old(self)@.pledges.insert(
                        (campaign_id, backer),
                        (old(self)@.pledge_of(campaign_id, backer) + amount) as i128,
                    ),
                    backers: if fresh {
                        old(self)@.backers.insert((campaign_id, c.backer_count), backer)
                    } else {
                        old(self)@.backers
                    },
                    ..old(self)@
                })
                &&& r is Ok ==> final(escrow)@ == if funded {
                    e1.pool_locked(c.pool_id).slots_defined(c.pool_id, slots)
                } else {
                    e1
                }
                &&& r is Ok ==> final(env)@ == if funded {
                    v1.emit(Event::PoolLocked(PoolLocked { pool_id: c.pool_id })).emit(
                        Event::CampaignFunded(CampaignFunded { id: campaign_id }),
                    )
                } else {
                    v1
                }.emit(Event::PledgeRecorded(PledgeRecorded { campaign_id, donor: backer, amount }))
            }),
    {
        let mut c = match self.campaigns.get(&campaign_id) {
            Some(c) => c.snapshot(),
            None => return Err(Error::CampaignNotFound),
        };
        if env.timestamp > c.deadline {
            return Err(Error::DeadlinePassed);
        }
        if c.status != CampaignStatus::Campaigning {
            return Err(Error::NotCampaigning);
        }
        if amount < c.min_pledge {
            return Err(Error::BelowMinPledge);
        }
        let saved = escrow.snapshot();
        let m = env.mark();
        let net = match escrow.route_pledge(env, backer, c.pool_id, amount, c.asset) {
            Ok(n) => n,
            Err(e) => return Err(Error::Escrow(e)),
        };
        let existing = match self.pledges.get(&(campaign_id, backer)) {
            Some(a) => *a,
            None => 0,
        };
        let checked = match c.current_funding.checked_add(net) {
            Some(f) => match existing.checked_add(net) {
                Some(p) => Some((f, p)),
                None => None,
            },
            None => None,
        };
        let (f, new_pledge) = match checked {
            Some(x) => x,
            None => {
                *escrow = saved;
                env.rollback(m);
                assert(env@.transfers =~= old(env)@.transfers);
                assert(env@.events =~= old(env)@.events);
                return Err(Error::Overflow);
            },
        };
        if f >= c.funding_goal {
            match self.fund_pool(env, escrow, campaign_id, c.pool_id, c.owner, f, c.milestone_count) {
                Ok(()) => {},
                Err(e) => {
                    *escrow = saved;
                    env.rollback(m);
                    assert(env@.transfers =~= old(env)@.transfers);
                    assert(env@.events =~= old(env)@.events);
                    return Err(e);
                },
            }
            c.status = CampaignStatus::Funded;
            env.emit(Event::CampaignFunded(CampaignFunded { id: campaign_id }));
        }
        self.pledges.insert((campaign_id, backer), new_pledge);
        if existing == 0 {
            self.backers.insert((campaign_id, c.backer_count), backer);
            c.backer_count = c.backer_count + 1;
        }
        c.current_funding = f;
        self.campaigns.insert(campaign_id, c);
        env.emit(Event::PledgeRecorded(PledgeRecorded { campaign_id, donor: backer, amount: net }));
        Ok(())
    }
}


/// Whether milestones `0..n` of campaign `id` are all released.
pub open spec fn all_released(ms: Map<(u64, u32), Milestone>, id: u64, n: nat) -> bool {
    forall|i: int| 0 <= i < n ==> #[trigger] ms[(id, i as u32)].status == CrowdfundMilestoneStatus::Released
}

/// Scans the refund list positions `start..start + k` of campaign `id`: each
/// listed backer with a positive pledge is refunded it and their pledge set to
/// zero. The pledges after the scan, and the refunds in order.
pub open spec fn refund_scan(
    pledges: Map<(u64, Address), i128>,
    backers: Map<(u64, u32), Address>,
    id: u64,
    start: int,
    k: nat,
) -> (Map<(u64, Address), i128>, Seq<(Address, i128)>)
    decreases k,
{
    if k == 0 {
        (pledges, Seq::empty())
    } else {
        let prev = refund_scan(pledges, backers, id, start, (k - 1) as nat);
        let pos = (start + k - 1) as u32;
        if backers.contains_key((id, pos)) {
            let b = backers[(id, pos)];
            let a = if prev.0.contains_key((id, b)) {
                prev.0[(id, b)]
            } else {
                0
            };
            if a > 0 {
                (prev.0.insert((id, b), 0), prev.1.push((b, a)))
            } else {
                prev
            }
        } else {
            prev
        }
    }
}

/// The number of refund batches of a campaign with `backer_count` backers.
pub open spec fn batch_total(backer_count: u32) -> int {
    (backer_count + BACKER_BATCH_SIZE - 1) / (BACKER_BATCH_SIZE as int)
}

/// The number of list positions in refund batch `b` of a campaign with `backer_count` backers.
pub open spec fn batch_len(backer_count: u32, b: u32) -> nat {
    let start = b * BACKER_BATCH_SIZE;
    if backer_count - start < BACKER_BATCH_SIZE {
        (backer_count - start) as nat
    } else {
        BACKER_BATCH_SIZE as nat
    }
}

impl CrowdfundState {
    /// The milestones with milestone `idx` of campaign `id` released.
    pub open spec fn released_ms(self, id: u64, idx: u32) -> Map<(u64, u32), Milestone> {
        self.with_milestone_status(id, idx, CrowdfundMilestoneStatus::Released).milestones
    }

    /// Whether releasing milestone `idx` completes campaign `id`.
    pub open spec fn completes(self, id: u64, idx: u32) -> bool {
        all_released(self.released_ms(id, idx), id, self.campaigns[id].milestone_count as nat)
    }

    /// What releasing milestone `idx` of campaign `id` returns.
    pub open spec fn release_result(self, escrow: EscrowState, rep: ReputationState, id: u64, idx: u32) -> Result<(), Error> {
        match escrow.release_slot_result(self.campaigns[id].pool_id, idx) {
            Err(e) => Err(Error::Escrow(e)),
            Ok(_) => if self.completes(id, idx) && !rep.authorized(self.address) {
                Err(Error::Reputation(ReputationError::ModuleNotAuthorized))
            } else {
                Ok(())
            },
        }
    }

    /// The storage after milestone `idx` of campaign `id` was released; the
    /// campaign completes with its last milestone.
    pub open spec fn milestone_released(self, id: u64, idx: u32) -> CrowdfundState {
        let s1 = self.with_milestone_status(id, idx, CrowdfundMilestoneStatus::Released);
        if self.completes(id, idx) {
            s1.with_status(id, CampaignStatus::Completed)
        } else {
            s1
        }
    }

    /// The checks of an admin's decision on milestone `idx`, which must be in `status`.
    pub open spec fn review_check(self, id: u64, idx: u32, status: CrowdfundMilestoneStatus, wrong: Error) -> Result<(), Error> {
        if self.admin is None {
            Err(Error::NotInitialized)
        } else if !self.campaigns.contains_key(id) {
            Err(Error::CampaignNotFound)
        } else if !self.milestones.contains_key((id, idx)) {
            Err(Error::MilestoneNotFound)
        } else if self.milestones[(id, idx)].status != status {
            Err(wrong)
        } else {
            Ok(())
        }
    }

    /// The storage after campaign `id` was cancelled and its refunds reset.
    pub open spec fn cancelled(self, id: u64) -> CrowdfundState {
        self.with_campaign(id, Campaign { status: CampaignStatus::Cancelled, refund_progress: 0, ..self.campaigns[id] })
    }

    /// The refunds of the next batch of campaign `id`, with the pledges after them.
    pub open spec fn next_batch(self, id: u64) -> (Map<(u64, Address), i128>, Seq<(Address, i128)>) {
        let c = self.campaigns[id];
        refund_scan(
            self.pledges,
            self.backers,
            id,
            c.refund_progress * BACKER_BATCH_SIZE,
            batch_len(c.backer_count, c.refund_progress),
        )
    }

    /// What `process_refund_batch` returns.
    pub open spec fn refund_batch_result(self, escrow: EscrowState, id: u64) -> Result<(), Error> {
        let c = self.campaigns[id];
        let list = self.next_batch(id).1;
        if !self.campaigns.contains_key(id) {
            Err(Error::CampaignNotFound)
        } else if c.status != CampaignStatus::Failed && c.status != CampaignStatus::Cancelled {
            Err(Error::InvalidState)
        } else if c.refund_progress >= batch_total(c.backer_count) {
            Err(Error::RefundBatchDone)
        } else if list.len() > 0 && !escrow.pools.contains_key(c.pool_id) {
            Err(Error::Escrow(EscrowError::PoolNotFound))
        } else if list.len() > 0 && !running_sums_fit(
            escrow.pools[c.pool_id].total_refunded as int,
            positive_entries(list),
        ) {
            Err(Error::Escrow(EscrowError::Overflow))
        } else {
            Ok(())
        }
    }
}

/// The escrow storage after the backers of `list` were refunded from pool `pid`.
pub open spec fn backers_refunded(escrow: EscrowState, pid: BytesN32, list: Seq<(Address, i128)>) -> EscrowState {
    let p = escrow.pools[pid];
    EscrowState {
        pools: escrow.pools.insert(
            pid,
            EscrowPool { total_refunded: (p.total_refunded + amounts_total(positive_entries(list))) as i128, ..p },
        ),
        ..escrow
    }
}

/// The context after the backers of `list` were refunded from pool `pid`.
pub open spec fn backers_refund_env(escrow: EscrowState, e: EnvState, pid: BytesN32, list: Seq<(Address, i128)>) -> EnvState {
    EnvState {
        transfers: e.transfers + refund_transfers(escrow.pools[pid].asset, escrow.address, list),
        events: e.events + refund_events(pid, list),
        ..e
    }
}

impl CrowdfundRegistry {
    /// Releases milestone `idx` of campaign `id` from escrow; with the last
    /// milestone the campaign completes and its owner is credited with a
    /// backed campaign. Changes nothing on failure.
    #[verifier::loop_isolation(false)]
    fn release_milestone(
        &mut self,
        env: &mut Env,
        escrow: &mut CoreEscrow,
        rep: &mut ReputationRegistry,
        id: u64,
        idx: u32,
    ) -> (r: Result<(), Error>)
        requires
            old(self)@.campaigns.contains_key(id),
            old(self)@.milestones.contains_key((id, idx)),
            milestones_stored(old(self)@.milestones, id, old(self)@.campaigns[id].milestone_count as nat),
            old(rep)@.stored_profile_satisfies(
                old(self)@.campaigns[id].owner,
                |p: ContributorProfile| campaign_fits(p),
            ),
        ensures
            r == old(self)@.release_result(old(escrow)@, old(rep)@, id, idx),
            r is Err ==> final(self)@ == old(self)@ && final(escrow)@ == old(escrow)@ && final(rep)@ == old(rep)@
                && final(env)@ == old(env)@,
            r is Ok ==> {
                let c = old(self)@.campaigns[id];
                &&& final(self)@ == old(self)@.milestone_released(id, idx)
                &&& final(escrow)@ == old(escrow)@.slot_released(c.pool_id, idx, old(env)@.timestamp)
                &&& final(env)@ == old(escrow)@.release_slot_env(old(env)@, c.pool_id, idx)
                &&& old(self)@.completes(id, idx) ==> profile_rewritten(
                    old(rep)@,
                    final(rep)@,
                    c.owner,
                    old(env)@.timestamp,
                    |p: ContributorProfile| campaign_recorded(p),
                )
                &&& !old(self)@.completes(id, idx) ==> final(rep)@ == old(rep)@
            },
    {
        let mut c = match self.campaigns.get(&id) {
            Some(c) => c.snapshot(),
            None => return Err(Error::CampaignNotFound),
        };
        let mut ms = match self.milestones.get(&(id, idx)) {
            Some(m) => m.snapshot(),
            None => return Err(Error::MilestoneNotFound),
        };
        let saved = escrow.snapshot();
        let m = env.mark();
        match escrow.release_slot(env, c.pool_id, idx) {
            Ok(()) => {},
            Err(e) => return Err(Error::Escrow(e)),
        }
        let ghost after = old(self)@.released_ms(id, idx);
        let mut all_done = true;
        let mut i: u32 = 0;
        while i < c.milestone_count
            invariant
                i <= c.milestone_count,
                all_done == all_released(after, id, i as nat),
            decreases c.milestone_count - i,
        {
            let st = if i == idx {
                CrowdfundMilestoneStatus::Released
            } else {
                match self.milestones.get(&(id, i)) {
                    Some(x) => x.status,
                    None => {
                        assert(self@.milestones.contains_key((id, (i as int) as u32)));
                        return Err(Error::MilestoneNotFound);
                    },
                }
            };
            proof {
                assert(after[(id, (i as int) as u32)].status == st);
            }
            all_done = all_done && st == CrowdfundMilestoneStatus::Released;
            i = i + 1;
        }
        if all_done {
            match rep.record_campaign_backed(env, self.address, c.owner) {
                Ok(()) => {},
                Err(e) => {
                    *escrow = saved;
                    env.rollback(m);
                    assert(env@.transfers =~= old(env)@.transfers);
                    assert(env@.events =~= old(env)@.events);
                    return Err(Error::Reputation(e));
                },
            }
            c.status = CampaignStatus::Completed;
        }
        ms.status = CrowdfundMilestoneStatus::Released;
        self.milestones.insert((id, idx), ms);
        if all_done {
            self.campaigns.insert(id, c);
        }
        Ok(())
    }

    /// The owner of a funded campaign submits a pending (or rejected) milestone.
    pub fn submit_milestone(&mut self, env: &mut Env, campaign_id: u64, milestone_index: u32) -> (r: Result<(), Error>)
        ensures
            ({
                let c = old(self)@.campaigns[campaign_id];
                let k = (campaign_id, milestone_index);
                &&& r == if !old(self)@.campaigns.contains_key(campaign_id) {
                    Err(Error::CampaignNotFound)
                } else if c.status != CampaignStatus::Funded && c.status != CampaignStatus::Executing {
                    Err(Error::InvalidState)
                } else if !old(self)@.milestones.contains_key(k) {
                    Err(Error::MilestoneNotFound)
                } else if old(self)@.milestones[k].status != CrowdfundMilestoneStatus::Pending
                    && old(self)@.milestones[k].status != CrowdfundMilestoneStatus::Rejected {
                    Err(Error::MilestoneNotPending)
                } else {
                    Ok(())
                }
                &&& r is Err ==> final(self)@ == old(self)@ && final(env)@ == old(env)@
                &&& r is Ok ==> final(self)@ == old(self)@.with_milestone_status(
                    campaign_id,
                    milestone_index,
                    CrowdfundMilestoneStatus::Submitted,
                ).with_status(campaign_id, CampaignStatus::Executing) && final(env)@ == old(env)@.emit(
                    Event::CampaignMilestoneSubmitted(MilestoneSubmitted { campaign_id, milestone_id: milestone_index }),
                )
            }),
    {
        let mut c = match self.campaigns.get(&campaign_id) {
            Some(c) => c.snapshot(),
            None => return Err(Error::CampaignNotFound),
        };
        if c.status != CampaignStatus::Funded && c.status != CampaignStatus::Executing {
            return Err(Error::InvalidState);
        }
        let mut ms = match self.milestones.get(&(campaign_id, milestone_index)) {
            Some(m) => m.snapshot(),
            None => return Err(Error::MilestoneNotFound),
        };
        if ms.status != CrowdfundMilestoneStatus::Pending && ms.status != CrowdfundMilestoneStatus::Rejected {
            return Err(Error::MilestoneNotPending);
        }
        ms.status = CrowdfundMilestoneStatus::Submitted;
        self.milestones.insert((campaign_id, milestone_index), ms);
        c.status = CampaignStatus::Executing;
        self.campaigns.insert(campaign_id, c);
        env.emit(Event::CampaignMilestoneSubmitted(MilestoneSubmitted { campaign_id, milestone_id: milestone_index }));
        Ok(())
    }

    /// The admin approves a submitted milestone: its slot is paid to the owner.
    pub fn approve_milestone(
        &mut self,
        env: &mut Env,
        escrow: &mut CoreEscrow,
        rep: &mut ReputationRegistry,
        campaign_id: u64,
        milestone_index: u32,
    ) -> (r: Result<(), Error>)
        requires
            old(self)@.core_escrow matches Some(a) ==> old(escrow)@.address == a,
            old(self)@.reputation_registry matches Some(a) ==> old(rep)@.address == a,
            old(self)@.campaigns.contains_key(campaign_id) ==> old(self)@.configured() && milestones_stored(
                old(self)@.milestones,
                campaign_id,
                old(self)@.campaigns[campaign_id].milestone_count as nat,
            ) && old(rep)@.stored_profile_satisfies(
                old(self)@.campaigns[campaign_id].owner,
                |p: ContributorProfile| campaign_fits(p),
            ),
        ensures
            ({
                let c = old(self)@.campaigns[campaign_id];
                let check = old(self)@.review_check(
                    campaign_id,
                    milestone_index,
                    CrowdfundMilestoneStatus::Submitted,
                    Error::MilestoneNotSubmitted,
                );
                &&& check is Err ==> r == check
                &&& check is Ok ==> r == old(self)@.release_result(old(escrow)@, old(rep)@, campaign_id, milestone_index)
                &&& r is Err ==> final(self)@ == old(self)@ && final(escrow)@ == old(escrow)@ && final(rep)@ == old(rep)@
                    && final(env)@ == old(env)@
                &&& r is Ok ==> final(self)@ == old(self)@.milestone_released(campaign_id, milestone_index)
                    && final(escrow)@ == old(escrow)@.slot_released(c.pool_id, milestone_index, old(env)@.timestamp)
                    && final(env)@ == old(escrow)@.release_slot_env(old(env)@, c.pool_id, milestone_index).emit(
                    Event::CampaignMilestoneApproved(MilestoneApproved { campaign_id, milestone_id: milestone_index }),
                ) && (old(self)@.completes(campaign_id, milestone_index) ==> profile_rewritten(
                    old(rep)@,
                    final(rep)@,
                    c.owner,
                    old(env)@.timestamp,
                    |p: ContributorProfile| campaign_recorded(p),
                )) && (!old(self)@.completes(campaign_id, milestone_index) ==> final(rep)@ == old(rep)@)
            }),
    {
        if self.admin.is_none() {
            return Err(Error::NotInitialized);
        }
        if !self.campaigns.contains_key(&campaign_id) {
            return Err(Error::CampaignNotFound);
        }
        let status = match self.milestones.get(&(campaign_id, milestone_index)) {
            Some(m) => m.status,
            None => return Err(Error::MilestoneNotFound),
        };
        if status != CrowdfundMilestoneStatus::Submitted {
            return Err(Error::MilestoneNotSubmitted);
        }
        self.release_milestone(env, escrow, rep, campaign_id, milestone_index)?;
        env.emit(Event::CampaignMilestoneApproved(MilestoneApproved { campaign_id, milestone_id: milestone_index }));
        Ok(())
    }
}


impl CrowdfundRegistry {
    /// The admin rejects a submitted milestone; the owner may submit it again.
    pub fn reject_milestone(&mut self, campaign_id: u64, milestone_index: u32) -> (r: Result<(), Error>)
        ensures
            ({
                let k = (campaign_id, milestone_index);
                &&& r == if old(self)@.admin is None {
                    Err(Error::NotInitialized)
                } else if !old(self)@.milestones.contains_key(k) {
                    Err(Error::MilestoneNotFound)
                } else if old(self)@.milestones[k].status != CrowdfundMilestoneStatus::Submitted {
                    Err(Error::MilestoneNotSubmitted)
                } else {
                    Ok(())
                }
                &&& r is Err ==> final(self)@ == old(self)@
                &&& r is Ok ==> final(self)@ == old(self)@.with_milestone_status(
                    campaign_id,
                    milestone_index,
                    CrowdfundMilestoneStatus::Rejected,
                )
            }),
    {
        if self.admin.is_none() {
            return Err(Error::NotInitialized);
        }
        let mut ms = match self.milestones.get(&(campaign_id, milestone_index)) {
            Some(m) => m.snapshot(),
            None => return Err(Error::MilestoneNotFound),
        };
        if ms.status != CrowdfundMilestoneStatus::Submitted {
            return Err(Error::MilestoneNotSubmitted);
        }
        ms.status = CrowdfundMilestoneStatus::Rejected;
        self.milestones.insert((campaign_id, milestone_index), ms);
        Ok(())
    }

    /// The admin sends a submitted or disputed milestone back to pending.
    pub fn request_milestone_revision(&mut self, env: &mut Env, campaign_id: u64, milestone_index: u32) -> (r: Result<(), Error>)
        ensures
            ({
                let k = (campaign_id, milestone_index);
                &&& r == if old(self)@.admin is None {
                    Err(Error::NotInitialized)
                } else if !old(self)@.milestones.contains_key(k) {
                    Err(Error::MilestoneNotFound)
                } else if old(self)@.milestones[k].status != CrowdfundMilestoneStatus::Submitted
                    && old(self)@.milestones[k].status != CrowdfundMilestoneStatus::Disputed {
                    Err(Error::MilestoneNotSubmitted)
                } else {
                    Ok(())
                }
                &&& r is Err ==> final(self)@ == old(self)@ && final(env)@ == old(env)@
                &&& r is Ok ==> final(self)@ == old(self)@.with_milestone_status(
                    campaign_id,
                    milestone_index,
                    CrowdfundMilestoneStatus::Pending,
                ) && final(env)@ == old(env)@.emit(
                    Event::MilestoneRevisionRequested(
                        MilestoneRevisionRequested { campaign_id, milestone_id: milestone_index },
                    ),
                )
            }),
    {
        if self.admin.is_none() {
            return Err(Error::NotInitialized);
        }
        let mut ms = match self.milestones.get(&(campaign_id, milestone_index)) {
            Some(m) => m.snapshot(),
            None => return Err(Error::MilestoneNotFound),
        };
        if ms.status != CrowdfundMilestoneStatus::Submitted && ms.status != CrowdfundMilestoneStatus::Disputed {
            return Err(Error::MilestoneNotSubmitted);
        }
        ms.status = CrowdfundMilestoneStatus::Pending;
        self.milestones.insert((campaign_id, milestone_index), ms);
        env.emit(
            Event::MilestoneRevisionRequested(MilestoneRevisionRequested { campaign_id, milestone_id: milestone_index }),
        );
        Ok(())
    }

    /// A campaign still campaigning after its deadline fails; refunds start over.
    pub fn check_deadline(&mut self, env: &mut Env, campaign_id: u64) -> (r: Result<(), Error>)
        ensures
            ({
                let c = old(self)@.campaigns[campaign_id];
                &&& r == if !old(self)@.campaigns.contains_key(campaign_id) {
                    Err(Error::CampaignNotFound)
                } else if old(env)@.timestamp <= c.deadline {
                    Err(Error::DeadlineNotPassed)
                } else if c.status != CampaignStatus::Campaigning {
                    Err(Error::InvalidState)
                } else {
                    Ok(())
                }
                &&& r is Err ==> final(self)@ == old(self)@ && final(env)@ == old(env)@
                &&& r is Ok ==> final(self)@ == old(self)@.with_campaign(
                    campaign_id,
                    Campaign { status: CampaignStatus::Failed, refund_progress: 0, ..c },
                ) && final(env)@ == old(env)@.emit(Event::CampaignFailed(CampaignFailed { id: campaign_id }))
            }),
    {
        let mut c = match self.campaigns.get(&campaign_id) {
            Some(c) => c.snapshot(),
            None => return Err(Error::CampaignNotFound),
        };
        if env.timestamp <= c.deadline {
            return Err(Error::DeadlineNotPassed);
        }
        if c.status != CampaignStatus::Campaigning {
            return Err(Error::InvalidState);
        }
        c.status = CampaignStatus::Failed;
        c.refund_progress = 0;
        self.campaigns.insert(campaign_id, c);
        env.emit(Event::CampaignFailed(CampaignFailed { id: campaign_id }));
        Ok(())
    }

    /// Refunds the next batch of up to `BACKER_BATCH_SIZE` backers of a failed
    /// or cancelled campaign: each listed backer with a positive pledge gets it
    /// back from escrow, and their pledge is set to zero.
    #[verifier::loop_isolation(false)]
    pub fn process_refund_batch(&mut self, env: &mut Env, escrow: &mut CoreEscrow, campaign_id: u64) -> (r: Result<(), Error>)
        requires
            old(self)@.core_escrow matches Some(a) ==> old(escrow)@.address == a,
            old(self)@.campaigns.contains_key(campaign_id) ==> old(self)@.core_escrow is Some,
        ensures
            ({
                let c = old(self)@.campaigns[campaign_id];
                let batch = old(self)@.next_batch(campaign_id);
                let list = batch.1;
                &&& r == old(self)@.refund_batch_result(old(escrow)@, campaign_id)
                &&& r is Err ==> final(self)@ == old(self)@ && final(escrow)@ == old(escrow)@ && final(env)@ == old(env)@
                &&& r is Ok ==> final(self)@ == (CrowdfundState {
                    campaigns: old(self)@.campaigns.insert(
                        campaign_id,
                        Campaign { refund_progress: (c.refund_progress + 1) as u32, ..c },
                    ),
                    pledges: batch.0,
                    ..old(self)@
                })
                &&& r is Ok ==> final(escrow)@ == if list.len() > 0 {
                    backers_refunded(old(escrow)@, c.pool_id, list)
                } else {
                    old(escrow)@
                }
                &&& r is Ok ==> final(env)@ == if list.len() > 0 {
                    backers_refund_env(old(escrow)@, old(env)@, c.pool_id, list)
                } else {
                    old(env)@
                }.emit(
                    Event::RefundBatchProcessed(
                        RefundBatchProcessed { campaign_id, batch_index: c.refund_progress, count: list.len() as u32 },
                    ),
                )
            }),
    {
        let mut c = match self.campaigns.get(&campaign_id) {
            Some(c) => c.snapshot(),
            None => return Err(Error::CampaignNotFound),
        };
        if c.status != CampaignStatus::Failed && c.status != CampaignStatus::Cancelled {
            return Err(Error::InvalidState);
        }
        let b = c.refund_progress;
        let total: u64 = (c.backer_count as u64 + 49) / 50;
        if b as u64 >= total {
            return Err(Error::RefundBatchDone);
        }
        let start: u32 = b * BACKER_BATCH_SIZE;
        let len: u32 = if c.backer_count - start < BACKER_BATCH_SIZE {
            c.backer_count - start
        } else {
            BACKER_BATCH_SIZE
        };
        let saved_pledges = self.pledges.snapshot();
        let mut list: Vec<(Address, i128)> = Vec::new();
        let mut k: u32 = 0;
        while k < len
            invariant
                k <= len,
                len <= BACKER_BATCH_SIZE,
                start + len <= c.backer_count,
                list@.len() <= k,
                self@ == (CrowdfundState { pledges: refund_scan(old(self)@.pledges, old(self)@.backers, campaign_id, start as int, k as nat).0, ..old(self)@ }),
                list@ == refund_scan(old(self)@.pledges, old(self)@.backers, campaign_id, start as int, k as nat).1,
            decreases len - k,
        {
            let pos = start + k;
            match self.backers.get(&(campaign_id, pos)) {
                Some(backer) => {
                    let backer = *backer;
                    let a = match self.pledges.get(&(campaign_id, backer)) {
                        Some(v) => *v,
                        None => 0,
                    };
                    if a > 0 {
                        list.push((backer, a));
                        self.pledges.insert((campaign_id, backer), 0);
                    }
                },
                None => {},
            }
            k = k + 1;
        }
        if list.len() > 0 {
            match escrow.refund_backers(env, c.pool_id, &list) {
                Ok(()) => {},
                Err(e) => {
                    self.pledges = saved_pledges;
                    return Err(Error::Escrow(e));
                },
            }
        }
        let count = list.len() as u32;
        c.refund_progress = b + 1;
        self.campaigns.insert(campaign_id, c);
        env.emit(Event::RefundBatchProcessed(RefundBatchProcessed { campaign_id, batch_index: b, count }));
        Ok(())
    }

    /// The admin cancels a campaign that has not completed; refunds start over.
    pub fn cancel_campaign(&mut self, env: &mut Env, campaign_id: u64) -> (r: Result<(), Error>)
        ensures
            r == if old(self)@.admin is None {
                Err(Error::NotInitialized)
            } else if !old(self)@.campaigns.contains_key(campaign_id) {
                Err(Error::CampaignNotFound)
            } else if old(self)@.campaigns[campaign_id].status == CampaignStatus::Completed {
                Err(Error::InvalidState)
            } else {
                Ok(())
            },
            r is Err ==> final(self)@ == old(self)@ && final(env)@ == old(env)@,
            r is Ok ==> final(self)@ == old(self)@.cancelled(campaign_id) && final(env)@ == old(env)@.emit(
                Event::CampaignCancelled(CampaignCancelled { id: campaign_id }),
            ),
    {
        if self.admin.is_none() {
            return Err(Error::NotInitialized);
        }
        let mut c = match self.campaigns.get(&campaign_id) {
            Some(c) => c.snapshot(),
            None => return Err(Error::CampaignNotFound),
        };
        if c.status == CampaignStatus::Completed {
            return Err(Error::InvalidState);
        }
        c.status = CampaignStatus::Cancelled;
        c.refund_progress = 0;
        self.campaigns.insert(campaign_id, c);
        env.emit(Event::CampaignCancelled(CampaignCancelled { id: campaign_id }));
        Ok(())
    }

    /// A backer disputes a submitted milestone.
    pub fn dispute_milestone(&mut self, env: &mut Env, disputer: Address, campaign_id: u64, milestone_index: u32) -> (r: Result<(), Error>)
        ensures
            ({
                let k = (campaign_id, milestone_index);
                &&& r == if old(self)@.pledge_of(campaign_id, disputer) <= 0 {
                    Err(Error::NotBacker)
                } else if !old(self)@.milestones.contains_key(k) {
                    Err(Error::MilestoneNotFound)
                } else if old(self)@.milestones[k].status != CrowdfundMilestoneStatus::Submitted {
                    Err(Error::MilestoneNotSubmitted)
                } else {
                    Ok(())
                }
                &&& r is Err ==> final(self)@ == old(self)@ && final(env)@ == old(env)@
                &&& r is Ok ==> final(self)@ == old(self)@.with_milestone_status(
                    campaign_id,
                    milestone_index,
                    CrowdfundMilestoneStatus::Disputed,
                ) && final(env)@ == old(env)@.emit(
                    Event::MilestoneDisputed(MilestoneDisputed { campaign_id, milestone_id: milestone_index, disputer }),
                )
            }),
    {
        let pledged = match self.pledges.get(&(campaign_id, disputer)) {
            Some(a) => *a,
            None => 0,
        };
        if pledged <= 0 {
            return Err(Error::NotBacker);
        }
        let mut ms = match self.milestones.get(&(campaign_id, milestone_index)) {
            Some(m) => m.snapshot(),
            None => return Err(Error::MilestoneNotFound),
        };
        if ms.status != CrowdfundMilestoneStatus::Submitted {
            return Err(Error::MilestoneNotSubmitted);
        }
        ms.status = CrowdfundMilestoneStatus::Disputed;
        self.milestones.insert((campaign_id, milestone_index), ms);
        env.emit(Event::MilestoneDisputed(MilestoneDisputed { campaign_id, milestone_id: milestone_index, disputer }));
        Ok(())
    }

    /// The admin settles a disputed milestone: for the creator it is released
    /// as an approval would; for the backers it is rejected and the campaign
    /// cancelled, so that refunds can start.
    pub fn resolve_dispute(
        &mut self,
        env: &mut Env,
        escrow: &mut CoreEscrow,
        rep: &mut ReputationRegistry,
        campaign_id: u64,
        milestone_index: u32,
        resolution: DisputeResolution,
    ) -> (r: Result<(), Error>)
        requires
            old(self)@.core_escrow matches Some(a) ==> old(escrow)@.address == a,
            old(self)@.reputation_registry matches Some(a) ==> old(rep)@.address == a,
            old(self)@.campaigns.contains_key(campaign_id) ==> old(self)@.configured() && milestones_stored(
                old(self)@.milestones,
                campaign_id,
                old(self)@.campaigns[campaign_id].milestone_count as nat,
            ) && old(rep)@.stored_profile_satisfies(
                old(self)@.campaigns[campaign_id].owner,
                |p: ContributorProfile| campaign_fits(p),
            ),
        ensures
            ({
                let c = old(self)@.campaigns[campaign_id];
                let check = old(self)@.review_check(
                    campaign_id,
                    milestone_index,
                    CrowdfundMilestoneStatus::Disputed,
                    Error::MilestoneNotDisputed,
                );
                let resolved = Event::DisputeResolved(
                    DisputeResolved { campaign_id, milestone_id: milestone_index, resolution },
                );
                &&& check is Err ==> r == check
                &&& check is Ok && resolution == DisputeResolution::ApproveCreator ==> r == old(self)@.release_result(
                    old(escrow)@,
                    old(rep)@,
                    campaign_id,
                    milestone_index,
                )
                &&& check is Ok && resolution == DisputeResolution::ApproveBacker ==> r is Ok
                &&& r is Err ==> final(self)@ == old(self)@ && final(escrow)@ == old(escrow)@ && final(rep)@ == old(rep)@
                    && final(env)@ == old(env)@
                &&& r is Ok && resolution == DisputeResolution::ApproveCreator ==> final(self)@ == old(
                    self,
                )@.milestone_released(campaign_id, milestone_index) && final(escrow)@ == old(escrow)@.slot_released(
                    c.pool_id,
                    milestone_index,
                    old(env)@.timestamp,
                ) && final(env)@ == old(escrow)@.release_slot_env(old(env)@, c.pool_id, milestone_index).emit(resolved)
                    && (old(self)@.completes(campaign_id, milestone_index) ==> profile_rewritten(
                    old(rep)@,
                    final(rep)@,
                    c.owner,
                    old(env)@.timestamp,
                    |p: ContributorProfile| campaign_recorded(p),
                )) && (!old(self)@.completes(campaign_id, milestone_index) ==> final(rep)@ == old(rep)@)
                &&& r is Ok && resolution == DisputeResolution::ApproveBacker ==> final(self)@ == old(
                    self,
                )@.with_milestone_status(campaign_id, milestone_index, CrowdfundMilestoneStatus::Rejected).cancelled(
                    campaign_id,
                ) && final(escrow)@ == old(escrow)@ && final(rep)@ == old(rep)@ && final(env)@ == old(env)@.emit(
                    resolved,
                )
            }),
    {
        if self.admin.is_none() {
            return Err(Error::NotInitialized);
        }
        let mut c = match self.campaigns.get(&campaign_id) {
            Some(c) => c.snapshot(),
            None => return Err(Error::CampaignNotFound),
        };
        let mut ms = match self.milestones.get(&(campaign_id, milestone_index)) {
            Some(m) => m.snapshot(),
            None => return Err(Error::MilestoneNotFound),
        };
        if ms.status != CrowdfundMilestoneStatus::Disputed {
            return Err(Error::MilestoneNotDisputed);
        }
        match resolution {
            DisputeResolution::ApproveCreator => {
                self.release_milestone(env, escrow, rep, campaign_id, milestone_index)?;
            },
            DisputeResolution::ApproveBacker => {
                ms.status = CrowdfundMilestoneStatus::Rejected;
                self.milestones.insert((campaign_id, milestone_index), ms);
                c.status = CampaignStatus::Cancelled;
                c.refund_progress = 0;
                self.campaigns.insert(campaign_id, c);
            },
        }
        env.emit(Event::DisputeResolved(DisputeResolved { campaign_id, milestone_id: milestone_index, resolution }));
        Ok(())
    }

    /// The admin terminates a campaign that is still live; refunds start over.
    pub fn terminate_campaign(&mut self, env: &mut Env, campaign_id: u64) -> (r: Result<(), Error>)
        ensures
            ({
                let st = old(self)@.campaigns[campaign_id].status;
                &&& r == if old(self)@.admin is None {
                    Err(Error::NotInitialized)
                } else if !old(self)@.campaigns.contains_key(campaign_id) {
                    Err(Error::CampaignNotFound)
                } else if st == CampaignStatus::Completed || st == CampaignStatus::Cancelled || st
                    == CampaignStatus::Failed {
                    Err(Error::InvalidState)
                } else {
                    Ok(())
                }
                &&& r is Err ==> final(self)@ == old(self)@ && final(env)@ == old(env)@
                &&& r is Ok ==> final(self)@ == old(self)@.cancelled(campaign_id) && final(env)@ == old(env)@.emit(
                    Event::CampaignTerminated(CampaignTerminated { id: campaign_id }),
                )
            }),
    {
        if self.admin.is_none() {
            return Err(Error::NotInitialized);
        }
        let mut c = match self.campaigns.get(&campaign_id) {
            Some(c) => c.snapshot(),
            None => return Err(Error::CampaignNotFound),
        };
        if c.status == CampaignStatus::Completed || c.status == CampaignStatus::Cancelled || c.status
            == CampaignStatus::Failed {
            return Err(Error::InvalidState);
        }
        c.status = CampaignStatus::Cancelled;
        c.refund_progress = 0;
        self.campaigns.insert(campaign_id, c);
        env.emit(Event::CampaignTerminated(CampaignTerminated { id: campaign_id }));
        Ok(())
    }

    /// Anyone may flag a pending milestone of a funded campaign that is still
    /// pending `MILESTONE_OVERDUE_AFTER` seconds after the deadline.
    pub fn flag_overdue_milestone(&self, env: &mut Env, campaign_id: u64, milestone_index: u32) -> (r: Result<(), Error>)
        requires
            self@.campaigns.contains_key(campaign_id) ==> self@.campaigns[campaign_id].deadline + MILESTONE_OVERDUE_AFTER
                <= u64::MAX,
        ensures
            ({
                let c = self@.campaigns[campaign_id];
                let k = (campaign_id, milestone_index);
                &&& r == if !self@.campaigns.contains_key(campaign_id) {
                    Err(Error::CampaignNotFound)
                } else if c.status != CampaignStatus::Funded && c.status != CampaignStatus::Executing {
                    Err(Error::InvalidState)
                } else if !self@.milestones.contains_key(k) {
                    Err(Error::MilestoneNotFound)
                } else if self@.milestones[k].status != CrowdfundMilestoneStatus::Pending {
                    Err(Error::MilestoneNotPending)
                } else if old(env)@.timestamp <= c.deadline + MILESTONE_OVERDUE_AFTER {
                    Err(Error::MilestoneNotOverdue)
                } else {
                    Ok(())
                }
                &&& r is Err ==> final(env)@ == old(env)@
                &&& r is Ok ==> final(env)@ == old(env)@.emit(
                    Event::MilestoneOverdue(MilestoneOverdue { campaign_id, milestone_id: milestone_index }),
                )
            }),
    {
        let c = match self.campaigns.get(&campaign_id) {
            Some(c) => c.snapshot(),
            None => return Err(Error::CampaignNotFound),
        };
        if c.status != CampaignStatus::Funded && c.status != CampaignStatus::Executing {
            return Err(Error::InvalidState);
        }
        let status = match self.milestones.get(&(campaign_id, milestone_index)) {
            Some(m) => m.status,
            None => return Err(Error::MilestoneNotFound),
        };
        if status != CrowdfundMilestoneStatus::Pending {
            return Err(Error::MilestoneNotPending);
        }
        if env.timestamp <= c.deadline + MILESTONE_OVERDUE_AFTER {
            return Err(Error::MilestoneNotOverdue);
        }
        env.emit(Event::MilestoneOverdue(MilestoneOverdue { campaign_id, milestone_id: milestone_index }));
        Ok(())
    }
}

} // verus!
