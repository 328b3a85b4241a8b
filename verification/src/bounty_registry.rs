//! Bounties: first-come-first-served, application, contest and split bounties,
//! each funded through an escrow pool.
use vstd::prelude::*;
use crate::core_escrow::{amounts_total, lemma_amounts_total_push, running_sums_fit, CoreEscrow, EscrowError, EscrowState, PoolLocked};
use crate::env::{Env, EnvState};
use crate::events::Event;
use crate::reputation_registry::{
    capped, completed, completion_fits, award_fits, profile_rewritten, ContributorProfile, CreditsAwarded,
    CreditsSpent, ReputationError, ReputationRegistry, ReputationState,
};
use crate::table::{Snapshot, Table};
use crate::hash::pool_id_spec;
use crate::math::fits_i128;
use crate::types::{ActivityCategory, Address, BytesN32, ModuleType};

verus! {

/// Seconds after the deadline after which an FCFS bounty pays out by itself: 7 days.
pub const AUTO_RELEASE_DELAY: u64 = 604_800;

#[derive(Clone, Copy, PartialEq, Eq, Structural, Debug)]
pub enum Error {
    AlreadyInitialized,
    NotInitialized,
    NotAuthorized,
    BountyNotFound,
    BountyNotOpen,
    DeadlinePassed,
    AlreadyApplied,
    ApplicationNotFound,
    ApplicationNotPending,
    InvalidRating,
    NoEscrowPool,
    AmountNotPositive,
    NotCreator,
    NotAssignee,
    NotInProgress,
    NotReviewable,
    InvalidSubType,
    AlreadyClaimed,
    InsufficientCredits,
    BountyNotCompleted,
    InvalidSplitShares,
    NotContestType,
    NotSplitType,
    SlotNotFound,
    CannotCancel,
    NotFCFSType,
    AutoReleaseNotReady,
    /// A call into the escrow contract failed.
    Escrow(EscrowError),
    /// A call into the reputation registry failed.
    Reputation(ReputationError),
}

#[derive(Clone, Copy, PartialEq, Eq, Structural, Debug)]
pub enum BountyType {
    FCFS,
    Application,
    Contest,
    Split,
}

#[derive(Clone, Copy, PartialEq, Eq, Structural, Debug)]
pub enum BountyStatus {
    Open,
    InProgress,
    InReview,
    Completed,
    Cancelled,
}

#[derive(Clone, PartialEq, Eq, Debug)]
pub struct Bounty {
    pub id: u64,
    pub creator: Address,
    pub title: String,
    pub metadata_cid: String,
    pub bounty_type: BountyType,
    pub status: BountyStatus,
    pub amount: i128,
    pub asset: Address,
    pub category: ActivityCategory,
    pub created_at: u64,
    pub deadline: u64,
    pub assignee: Option<Address>,
    pub escrow_pool_id: BytesN32,
    pub winner_count: u32,
}

#[derive(Clone, Copy, PartialEq, Eq, Structural, Debug)]
pub enum ApplicationStatus {
    Pending,
    Accepted,
    Rejected,
}

#[derive(Clone, PartialEq, Eq, Debug)]
pub struct Application {
    pub bounty_id: u64,
    pub applicant: Address,
    pub proposal: String,
    pub submitted_at: u64,
    pub status: ApplicationStatus,
}

// ── Events ─────────────────────────────────────────────────────────────────

#[derive(Clone, Copy, PartialEq, Eq, Structural, Debug)]
pub struct BountyCreated {
    pub bounty_id: u64,
    pub creator: Address,
}

#[derive(Clone, Copy, PartialEq, Eq, Structural, Debug)]
pub struct BountyApplied {
    pub bounty_id: u64,
    pub applicant: Address,
}

#[derive(Clone, Copy, PartialEq, Eq, Structural, Debug)]
pub struct BountyAssigned {
    pub bounty_id: u64,
    pub assignee: Address,
}

#[derive(Clone, Copy, PartialEq, Eq, Structural, Debug)]
pub struct BountyClaimed {
    pub bounty_id: u64,
    pub claimer: Address,
}

#[derive(Clone, Copy, PartialEq, Eq, Structural, Debug)]
pub struct WorkSubmitted {
    pub bounty_id: u64,
    pub contributor: Address,
}

#[derive(Clone, Copy, PartialEq, Eq, Structural, Debug)]
pub struct SubmissionApproved {
    pub bounty_id: u64,
    pub winner: Address,
}

#[derive(Clone, Copy, PartialEq, Eq, Structural, Debug)]
pub struct SplitApproved {
    pub bounty_id: u64,
    pub slot_index: u32,
}

#[derive(Clone, Copy, PartialEq, Eq, Structural, Debug)]
pub struct BountyCancelled {
    pub bounty_id: u64,
}

#[derive(Clone, Copy, PartialEq, Eq, Structural, Debug)]
pub struct ApplicationRejected {
    pub bounty_id: u64,
    pub applicant: Address,
}


impl Snapshot for Bounty {
    fn snapshot(&self) -> (r: Self) {
        Bounty {
            id: self.id,
            creator: self.creator,
            title: self.title.clone(),
            metadata_cid: self.metadata_cid.clone(),
            bounty_type: self.bounty_type,
            status: self.status,
            amount: self.amount,
            asset: self.asset,
            category: self.category,
            created_at: self.created_at,
            deadline: self.deadline,
            assignee: self.assignee,
            escrow_pool_id: self.escrow_pool_id,
            winner_count: self.winner_count,
        }
    }
}

impl Snapshot for Application {
    fn snapshot(&self) -> (r: Self) {
        Application {
            bounty_id: self.bounty_id,
            applicant: self.applicant,
            proposal: self.proposal.clone(),
            submitted_at: self.submitted_at,
            status: self.status,
        }
    }
}

/// The bounty registry's storage.
pub struct BountyRegistry {
    /// This contract's own address.
    pub address: Address,
    pub admin: Option<Address>,
    pub core_escrow: Option<Address>,
    pub reputation_registry: Option<Address>,
    pub bounty_count: Option<u64>,
    pub bounties: Table<u64, Bounty>,
    pub applications: Table<(u64, Address), Application>,
    /// Per bounty: how many applicants were recorded by `apply`.
    pub applicant_counts: Table<u64, u32>,
    /// Per bounty and position: the applicants in the order they applied.
    pub applicants: Table<(u64, u32), Address>,
    /// Per split bounty and slot: the recipient that `define_splits` recorded.
    pub split_recipients: Table<(u64, u32), Address>,
}

/// The mathematical content of the registry's storage.
pub ghost struct BountyState {
    pub address: Address,
    pub admin: Option<Address>,
    pub core_escrow: Option<Address>,
    pub reputation_registry: Option<Address>,
    pub bounty_count: Option<u64>,
    pub bounties: Map<u64, Bounty>,
    pub applications: Map<(u64, Address), Application>,
    pub applicant_counts: Map<u64, u32>,
    pub applicants: Map<(u64, u32), Address>,
    pub split_recipients: Map<(u64, u32), Address>,
}

impl View for BountyRegistry {
    type V = BountyState;

    open spec fn view(&self) -> BountyState {
        BountyState {
            address: self.address,
            admin: self.admin,
            core_escrow: self.core_escrow,
            reputation_registry: self.reputation_registry,
            bounty_count: self.bounty_count,
            bounties: self.bounties@,
            applications: self.applications@,
            applicant_counts: self.applicant_counts@,
            applicants: self.applicants@,
            split_recipients: self.split_recipients@,
        }
    }
}

impl BountyState {
    /// Whether the escrow and reputation contracts handed in are the ones this registry was set up with.
    pub open spec fn wired(self, escrow: EscrowState, rep: ReputationState) -> bool {
        &&& (self.core_escrow matches Some(a) ==> escrow.address == a)
        &&& (self.reputation_registry matches Some(a) ==> rep.address == a)
    }

    /// The number of bounties created so far.
    pub open spec fn count(self) -> u64 {
        match self.bounty_count {
            Some(c) => c,
            None => 0,
        }
    }

    /// The bounty with id `id` with its status, assignee and winner count replaced.
    pub open spec fn with_progress(self, id: u64, status: BountyStatus, assignee: Option<Address>, winners: u32) -> BountyState {
        BountyState {
            bounties: self.bounties.insert(
                id,
                Bounty { status, assignee, winner_count: winners, ..self.bounties[id] },
            ),
            ..self
        }
    }
}

/// The reputation storage after a winner was credited for a bounty: a
/// completion worth `points` in `category`, then one credit awarded.
pub open spec fn winner_credited(
    before: ReputationState,
    after: ReputationState,
    winner: Address,
    category: ActivityCategory,
    points: u32,
    now: u64,
) -> bool {
    exists|mid: ReputationState|
        #[trigger] completion_recorded(before, mid, winner, category, points, now)
            && after == mid.credits_awarded(winner, 1)
}

/// `after` is `before` with a completion worth `points` in `category` recorded for `c`.
pub open spec fn completion_recorded(
    before: ReputationState,
    after: ReputationState,
    c: Address,
    category: ActivityCategory,
    points: u32,
    now: u64,
) -> bool {
    profile_rewritten(before, after, c, now, |p: ContributorProfile| completed(p, category, points))
}

/// Whether crediting `winner` for a bounty stays within range.
pub open spec fn winner_fits(rep: ReputationState, winner: Address, category: ActivityCategory, points: u32) -> bool {
    &&& rep.stored_profile_satisfies(winner, |p: ContributorProfile| completion_fits(p, category, points))
    &&& rep.credits.contains_key(winner) ==> award_fits(rep.credits[winner], 1)
}

/// What crediting `winner` returns.
pub open spec fn winner_credit_result(rep: ReputationState, module: Address, winner: Address) -> Result<(), Error> {
    if !rep.authorized(module) {
        Err(Error::Reputation(ReputationError::ModuleNotAuthorized))
    } else if !rep.credits.contains_key(winner) {
        Err(Error::Reputation(ReputationError::ProfileNotFound))
    } else {
        Ok(())
    }
}

impl BountyRegistry {
    /// A bounty registry at `address` with empty storage.
    pub fn new(address: Address) -> (c: BountyRegistry)
        ensures
            c@ == (BountyState {
                address,
                admin: None,
                core_escrow: None,
                reputation_registry: None,
                bounty_count: None,
                bounties: Map::empty(),
                applications: Map::empty(),
                applicant_counts: Map::empty(),
                applicants: Map::empty(),
                split_recipients: Map::empty(),
            }),
    {
        BountyRegistry {
            address,
            admin: None,
            core_escrow: None,
            reputation_registry: None,
            bounty_count: None,
            bounties: Table::new(),
            applications: Table::new(),
            applicant_counts: Table::new(),
            applicants: Table::new(),
            split_recipients: Table::new(),
        }
    }

    pub fn init(&mut self, admin: Address, core_escrow: Address, reputation_registry: Address) -> (r: Result<(), Error>)
        ensures
            old(self)@.admin is Some ==> r == Err::<(), _>(Error::AlreadyInitialized) && final(self)@ == old(self)@,
            old(self)@.admin is None ==> r is Ok && final(self)@ == (BountyState {
                admin: Some(admin),
                core_escrow: Some(core_escrow),
                reputation_registry: Some(reputation_registry),
                bounty_count: Some(0),
                ..old(self)@
            }),
    {
        if self.admin.is_some() {
            return Err(Error::AlreadyInitialized);
        }
        self.admin = Some(admin);
        self.core_escrow = Some(core_escrow);
        self.reputation_registry = Some(reputation_registry);
        self.bounty_count = Some(0);
        Ok(())
    }

    pub fn get_bounty(&self, bounty_id: u64) -> (r: Result<Bounty, Error>)
        ensures
            r == if self@.bounties.contains_key(bounty_id) {
                Ok(self@.bounties[bounty_id])
            } else {
                Err(Error::BountyNotFound)
            },
    {
        match self.bounties.get(&bounty_id) {
            Some(b) => Ok(b.snapshot()),
            None => Err(Error::BountyNotFound),
        }
    }

    pub fn get_application(&self, bounty_id: u64, applicant: Address) -> (r: Result<Application, Error>)
        ensures
            r == if self@.applications.contains_key((bounty_id, applicant)) {
                Ok(self@.applications[(bounty_id, applicant)])
            } else {
                Err(Error::ApplicationNotFound)
            },
    {
        match self.applications.get(&(bounty_id, applicant)) {
            Some(a) => Ok(a.snapshot()),
            None => Err(Error::ApplicationNotFound),
        }
    }

    pub fn get_bounty_count(&self) -> (c: u64)
        ensures
            c == self@.count(),
    {
        match self.bounty_count {
            Some(c) => c,
            None => 0,
        }
    }

    /// Checks that an upgrade may proceed: the contract must be initialised.
    pub fn upgrade(&self, new_wasm_hash: BytesN32) -> (r: Result<(), Error>)
        ensures
            r == if self@.admin is Some {
                Ok::<(), Error>(())
            } else {
                Err(Error::NotInitialized)
            },
    {
        if self.admin.is_none() {
            return Err(Error::NotInitialized);
        }
        Ok(())
    }

    /// Creates a bounty of `amount` and opens its escrow pool, funded by the
    /// creator. Contest and split bounties lock their pool at once.
    pub fn create_bounty(
        &mut self,
        env: &mut Env,
        escrow: &mut CoreEscrow,
        creator: Address,
        title: String,
        metadata_cid: String,
        bounty_type: BountyType,
        amount: i128,
        asset: Address,
        category: ActivityCategory,
        deadline: u64,
    ) -> (r: Result<u64, Error>)
        requires
            old(self)@.count() < u64::MAX,
            old(self)@.core_escrow matches Some(a) ==> old(escrow)@.address == a,
        ensures
            amount <= 0 ==> r == Err::<u64, _>(Error::AmountNotPositive),
            amount > 0 && deadline <= old(env)@.timestamp ==> r == Err::<u64, _>(Error::DeadlinePassed),
            amount > 0 && deadline > old(env)@.timestamp && old(self)@.core_escrow is None ==> r == Err::<
                u64,
                _,
            >(Error::NotInitialized),
            amount > 0 && deadline > old(env)@.timestamp && old(self)@.core_escrow is Some
                && old(escrow)@.has_pool_for(ModuleType::Bounty, (old(self)@.count() + 1) as u64) ==> r
                == Err::<u64, _>(Error::Escrow(EscrowError::PoolAlreadyExists)),
            amount > 0 && deadline > old(env)@.timestamp && old(self)@.core_escrow is Some
                && !old(escrow)@.has_pool_for(ModuleType::Bounty, (old(self)@.count() + 1) as u64) ==> r
                == Ok::<u64, Error>((old(self)@.count() + 1) as u64),
            r is Err ==> final(self)@ == old(self)@ && final(escrow)@ == old(escrow)@ && final(env)@ == old(env)@,
            r matches Ok(id) ==> {
                let pid = final(self)@.bounties[id].escrow_pool_id;
                let locks = bounty_type == BountyType::Contest || bounty_type == BountyType::Split;
                let created = old(escrow)@.pool_created(
                    pid, creator, ModuleType::Bounty, amount, asset, deadline, old(self)@.address,
                    old(env)@.timestamp,
                );
                let env1 = old(escrow)@.create_pool_env(old(env)@, pid, creator, ModuleType::Bounty, amount, asset);
                &&& pid.bytes@ == pool_id_spec(ModuleType::Bounty, id)
                &&& final(self)@ == (BountyState {
                    bounty_count: Some(id),
                    bounties: old(self)@.bounties.insert(
                        id,
                        Bounty {
                            id,
                            creator,
                            title,
                            metadata_cid,
                            bounty_type,
                            status: BountyStatus::Open,
                            amount,
                            asset,
                            category,
                            created_at: old(env)@.timestamp,
                            deadline,
                            assignee: None,
                            escrow_pool_id: pid,
                            winner_count: 0,
                        },
                    ),
                    ..old(self)@
                })
                &&& final(escrow)@ == if locks { created.pool_locked(pid) } else { created }
                &&& final(env)@ == if locks {
                    env1.emit(Event::PoolLocked(crate::core_escrow::PoolLocked { pool_id: pid }))
                } else {
                    env1
                }.emit(Event::BountyCreated(BountyCreated { bounty_id: id, creator }))
            },
    {
        if amount <= 0 {
            return Err(Error::AmountNotPositive);
        }
        if deadline <= env.timestamp {
            return Err(Error::DeadlinePassed);
        }
        let count = match self.bounty_count {
            Some(c) => c,
            None => 0,
        } + 1;
        if self.core_escrow.is_none() {
            return Err(Error::NotInitialized);
        }
        let pool_id = match escrow.create_pool(
            env,
            creator,
            ModuleType::Bounty,
            count,
            amount,
            asset,
            deadline,
            self.address,
        ) {
            Ok(p) => p,
            Err(e) => return Err(Error::Escrow(e)),
        };
        if bounty_type == BountyType::Contest || bounty_type == BountyType::Split {
            let locked = escrow.lock_pool(env, pool_id);
            assert(locked is Ok);
        }
        let bounty = Bounty {
            id: count,
            creator,
            title,
            metadata_cid,
            bounty_type,
            status: BountyStatus::Open,
            amount,
            asset,
            category,
            created_at: env.timestamp,
            deadline,
            assignee: None,
            escrow_pool_id: pool_id,
            winner_count: 0,
        };
        self.bounty_count = Some(count);
        self.bounties.insert(count, bounty);
        env.emit(Event::BountyCreated(BountyCreated { bounty_id: count, creator }));
        Ok(count)
    }
}

/// The events of crediting a winner: the new score, then the awarded credit.
pub open spec fn winner_credit_env(e: EnvState, before: ReputationState, after: ReputationState, winner: Address) -> EnvState {
    let c = before.credits[winner];
    e.emit(
        Event::ScoreUpdated(
            crate::reputation_registry::ScoreUpdated {
                contributor: winner,
                overall_score: after.profiles[winner].overall_score,
                level: after.profiles[winner].level,
            },
        ),
    ).emit(
        Event::CreditsAwarded(
            CreditsAwarded { user: winner, amount: (capped(c, 1) - c.credits) as u32, remaining: capped(c, 1) as u32 },
        ),
    )
}

impl BountyState {
    /// What paying release slot `idx` of pool `pid` and crediting `winner` returns.
    pub open spec fn slot_payout_result(self, escrow: EscrowState, rep: ReputationState, pid: BytesN32, idx: u32, winner: Address) -> Result<(), Error> {
        if self.core_escrow is None {
            Err(Error::NotInitialized)
        } else if escrow.release_slot_result(pid, idx) is Err {
            Err(Error::Escrow(escrow.release_slot_result(pid, idx)->Err_0))
        } else if self.reputation_registry is None {
            Err(Error::NotInitialized)
        } else {
            winner_credit_result(rep, self.address, winner)
        }
    }

    /// What paying `amount` from pool `pid` and crediting `winner` returns.
    pub open spec fn partial_payout_result(self, escrow: EscrowState, rep: ReputationState, pid: BytesN32, amount: i128, winner: Address) -> Result<(), Error> {
        if self.core_escrow is None {
            Err(Error::NotInitialized)
        } else if escrow.release_partial_result(pid, amount) is Err {
            Err(Error::Escrow(escrow.release_partial_result(pid, amount)->Err_0))
        } else if self.reputation_registry is None {
            Err(Error::NotInitialized)
        } else {
            winner_credit_result(rep, self.address, winner)
        }
    }
}

impl BountyRegistry {
    /// Records a completion for `winner` and awards one credit; changes nothing on failure.
    fn credit_winner(
        &self,
        env: &mut Env,
        rep: &mut ReputationRegistry,
        winner: Address,
        category: ActivityCategory,
        points: u32,
    ) -> (r: Result<(), Error>)
        requires
            winner_fits(old(rep)@, winner, category, points),
        ensures
            r == winner_credit_result(old(rep)@, self@.address, winner),
            r is Err ==> final(rep)@ == old(rep)@ && final(env)@ == old(env)@,
            r is Ok ==> winner_credited(old(rep)@, final(rep)@, winner, category, points, old(env)@.timestamp)
                && final(env)@ == winner_credit_env(old(env)@, old(rep)@, final(rep)@, winner),
    {
        let saved = rep.snapshot();
        let m = env.mark();
        match rep.record_completion(env, self.address, winner, category, points) {
            Ok(()) => {},
            Err(e) => return Err(Error::Reputation(e)),
        }
        let ghost mid = rep@;
        assert(completion_recorded(old(rep)@, mid, winner, category, points, old(env)@.timestamp));
        match rep.award_credits(env, self.address, winner, 1) {
            Ok(()) => {},
            Err(e) => {
                *rep = saved;
                env.rollback(m);
                assert(env@.transfers =~= old(env)@.transfers);
                assert(env@.events =~= old(env)@.events);
                return Err(Error::Reputation(e));
            },
        }
        Ok(())
    }

    /// Pays release slot `idx` of pool `pid` and credits `winner`; changes nothing on failure.
    fn slot_payout(
        &self,
        env: &mut Env,
        escrow: &mut CoreEscrow,
        rep: &mut ReputationRegistry,
        pid: BytesN32,
        idx: u32,
        winner: Address,
        category: ActivityCategory,
        points: u32,
    ) -> (r: Result<(), Error>)
        requires
            self@.wired(old(escrow)@, old(rep)@),
            winner_fits(old(rep)@, winner, category, points),
        ensures
            r == self@.slot_payout_result(old(escrow)@, old(rep)@, pid, idx, winner),
            r is Err ==> final(escrow)@ == old(escrow)@ && final(rep)@ == old(rep)@ && final(env)@ == old(env)@,
            r is Ok ==> final(escrow)@ == old(escrow)@.slot_released(pid, idx, old(env)@.timestamp)
                && winner_credited(old(rep)@, final(rep)@, winner, category, points, old(env)@.timestamp)
                && final(env)@ == winner_credit_env(
                    old(escrow)@.release_slot_env(old(env)@, pid, idx),
                    old(rep)@,
                    final(rep)@,
                    winner,
                ),
    {
        if self.core_escrow.is_none() {
            return Err(Error::NotInitialized);
        }
        let saved = escrow.snapshot();
        let m = env.mark();
        match escrow.release_slot(env, pid, idx) {
            Ok(()) => {},
            Err(e) => return Err(Error::Escrow(e)),
        }
        let failed = if self.reputation_registry.is_none() {
            Some(Error::NotInitialized)
        } else {
            match self.credit_winner(env, rep, winner, category, points) {
                Ok(()) => None,
                Err(e) => Some(e),
            }
        };
        match failed {
            Some(e) => {
                *escrow = saved;
                env.rollback(m);
                assert(env@.transfers =~= old(env)@.transfers);
                assert(env@.events =~= old(env)@.events);
                Err(e)
            },
            None => Ok(()),
        }
    }

    /// Pays `amount` from pool `pid` to `winner` and credits them; changes nothing on failure.
    fn partial_payout(
        &self,
        env: &mut Env,
        escrow: &mut CoreEscrow,
        rep: &mut ReputationRegistry,
        pid: BytesN32,
        amount: i128,
        winner: Address,
        category: ActivityCategory,
        points: u32,
    ) -> (r: Result<(), Error>)
        requires
            self@.wired(old(escrow)@, old(rep)@),
            winner_fits(old(rep)@, winner, category, points),
        ensures
            r == self@.partial_payout_result(old(escrow)@, old(rep)@, pid, amount, winner),
            r is Err ==> final(escrow)@ == old(escrow)@ && final(rep)@ == old(rep)@ && final(env)@ == old(env)@,
            r is Ok ==> final(escrow)@ == old(escrow)@.released_partially(pid, amount)
                && winner_credited(old(rep)@, final(rep)@, winner, category, points, old(env)@.timestamp)
                && final(env)@ == winner_credit_env(
                    old(escrow)@.release_partial_env(old(env)@, pid, winner, amount),
                    old(rep)@,
                    final(rep)@,
                    winner,
                ),
    {
        if self.core_escrow.is_none() {
            return Err(Error::NotInitialized);
        }
        let saved = escrow.snapshot();
        let m = env.mark();
        match escrow.release_partial(env, pid, winner, amount) {
            Ok(()) => {},
            Err(e) => return Err(Error::Escrow(e)),
        }
        let failed = if self.reputation_registry.is_none() {
            Some(Error::NotInitialized)
        } else {
            match self.credit_winner(env, rep, winner, category, points) {
                Ok(()) => None,
                Err(e) => Some(e),
            }
        };
        match failed {
            Some(e) => {
                *escrow = saved;
                env.rollback(m);
                assert(env@.transfers =~= old(env)@.transfers);
                assert(env@.events =~= old(env)@.events);
                Err(e)
            },
            None => Ok(()),
        }
    }
}

/// The first error among `first`, else `then`.
pub open spec fn or_then(first: Result<(), Error>, then: Result<(), Error>) -> Result<(), Error> {
    match first {
        Err(e) => Err(e),
        Ok(_) => then,
    }
}

impl BountyState {
    /// The assignee of a bounty, where it has one.
    pub open spec fn assignee_of(self, id: u64) -> Option<Address> {
        if self.bounties.contains_key(id) {
            self.bounties[id].assignee
        } else {
            None
        }
    }

    /// The checks of the creator's approval of a single-winner bounty of type `t`,
    /// which must be in status `status`, else `wrong_status`.
    pub open spec fn single_approval_check(self, creator: Address, id: u64, t: BountyType, status: BountyStatus, wrong_status: Error) -> Result<(), Error> {
        if !self.bounties.contains_key(id) {
            Err(Error::BountyNotFound)
        } else if self.bounties[id].creator != creator {
            Err(Error::NotCreator)
        } else if self.bounties[id].bounty_type != t {
            Err(Error::InvalidSubType)
        } else if self.bounties[id].status != status {
            Err(wrong_status)
        } else if self.bounties[id].assignee is None {
            Err(Error::NotAssignee)
        } else {
            Ok(())
        }
    }

    /// The checks of `auto_release_check`.
    pub open spec fn auto_release_check_result(self, id: u64, now: u64) -> Result<(), Error> {
        if !self.bounties.contains_key(id) {
            Err(Error::BountyNotFound)
        } else if self.bounties[id].bounty_type != BountyType::FCFS {
            Err(Error::NotFCFSType)
        } else if self.bounties[id].status != BountyStatus::InProgress {
            Err(Error::NotInProgress)
        } else if now <= self.bounties[id].deadline + AUTO_RELEASE_DELAY {
            Err(Error::AutoReleaseNotReady)
        } else if self.bounties[id].assignee is None {
            Err(Error::NotAssignee)
        } else {
            Ok(())
        }
    }
}

impl BountyRegistry {
    /// Pays the assignee of a single-winner bounty from slot 0, credits them and
    /// marks the bounty completed.
    fn complete_single(
        &mut self,
        env: &mut Env,
        escrow: &mut CoreEscrow,
        rep: &mut ReputationRegistry,
        bounty_id: u64,
        points: u32,
    ) -> (r: Result<(), Error>)
        requires
            old(self)@.bounties.contains_key(bounty_id),
            old(self)@.bounties[bounty_id].assignee is Some,
            old(self)@.wired(old(escrow)@, old(rep)@),
            winner_fits(
                old(rep)@,
                old(self)@.bounties[bounty_id].assignee->0,
                old(self)@.bounties[bounty_id].category,
                points,
            ),
        ensures
            ({
                let b = old(self)@.bounties[bounty_id];
                &&& r == old(self)@.slot_payout_result(old(escrow)@, old(rep)@, b.escrow_pool_id, 0, b.assignee->0)
                &&& r is Err ==> final(self)@ == old(self)@ && final(escrow)@ == old(escrow)@ && final(rep)@ == old(rep)@
                    && final(env)@ == old(env)@
                &&& r is Ok ==> final(self)@ == old(self)@.with_progress(bounty_id, BountyStatus::Completed, b.assignee, 1)
                    && final(escrow)@ == old(escrow)@.slot_released(b.escrow_pool_id, 0, old(env)@.timestamp)
                    && winner_credited(old(rep)@, final(rep)@, b.assignee->0, b.category, points, old(env)@.timestamp)
                    && final(env)@ == winner_credit_env(
                        old(escrow)@.release_slot_env(old(env)@, b.escrow_pool_id, 0),
                        old(rep)@,
                        final(rep)@,
                        b.assignee->0,
                    )
            }),
    {
        let mut bounty = match self.bounties.get(&bounty_id) {
            Some(b) => b.snapshot(),
            None => return Err(Error::BountyNotFound),
        };
        let winner = match bounty.assignee {
            Some(w) => w,
            None => return Err(Error::NotAssignee),
        };
        self.slot_payout(env, escrow, rep, bounty.escrow_pool_id, 0, winner, bounty.category, points)?;
        bounty.status = BountyStatus::Completed;
        bounty.winner_count = 1;
        self.bounties.insert(bounty_id, bounty);
        Ok(())
    }

    /// The creator approves the claimed work of an FCFS bounty: the claimer is
    /// paid and credited with `points`.
    pub fn approve_fcfs(
        &mut self,
        env: &mut Env,
        escrow: &mut CoreEscrow,
        rep: &mut ReputationRegistry,
        creator: Address,
        bounty_id: u64,
        points: u32,
    ) -> (r: Result<(), Error>)
        requires
            old(self)@.wired(old(escrow)@, old(rep)@),
            old(self)@.assignee_of(bounty_id) matches Some(w) ==> winner_fits(
                old(rep)@,
                w,
                old(self)@.bounties[bounty_id].category,
                points,
            ),
        ensures
            ({
                let b = old(self)@.bounties[bounty_id];
                let check = old(self)@.single_approval_check(
                    creator, bounty_id, BountyType::FCFS, BountyStatus::InProgress, Error::NotInProgress,
                );
                &&& r == or_then(
                    check,
                    old(self)@.slot_payout_result(old(escrow)@, old(rep)@, b.escrow_pool_id, 0, b.assignee->0),
                )
                &&& r is Err ==> final(self)@ == old(self)@ && final(escrow)@ == old(escrow)@ && final(rep)@ == old(rep)@
                    && final(env)@ == old(env)@
                &&& r is Ok ==> final(self)@ == old(self)@.with_progress(bounty_id, BountyStatus::Completed, b.assignee, 1)
                    && final(escrow)@ == old(escrow)@.slot_released(b.escrow_pool_id, 0, old(env)@.timestamp)
                    && winner_credited(old(rep)@, final(rep)@, b.assignee->0, b.category, points, old(env)@.timestamp)
                    && final(env)@ == winner_credit_env(
                        old(escrow)@.release_slot_env(old(env)@, b.escrow_pool_id, 0),
                        old(rep)@,
                        final(rep)@,
                        b.assignee->0,
                    ).emit(Event::SubmissionApproved(SubmissionApproved { bounty_id, winner: b.assignee->0 }))
            }),
    {
        let bounty = match self.bounties.get(&bounty_id) {
            Some(b) => b.snapshot(),
            None => return Err(Error::BountyNotFound),
        };
        if bounty.creator.id != creator.id {
            return Err(Error::NotCreator);
        }
        if bounty.bounty_type != BountyType::FCFS {
            return Err(Error::InvalidSubType);
        }
        if bounty.status != BountyStatus::InProgress {
            return Err(Error::NotInProgress);
        }
        let winner = match bounty.assignee {
            Some(w) => w,
            None => return Err(Error::NotAssignee),
        };
        self.complete_single(env, escrow, rep, bounty_id, points)?;
        env.emit(Event::SubmissionApproved(SubmissionApproved { bounty_id, winner }));
        Ok(())
    }

    /// The creator approves the submitted work of an application bounty: the
    /// selected applicant is paid and credited with `points`.
    pub fn approve_submission(
        &mut self,
        env: &mut Env,
        escrow: &mut CoreEscrow,
        rep: &mut ReputationRegistry,
        creator: Address,
        bounty_id: u64,
        points: u32,
    ) -> (r: Result<(), Error>)
        requires
            old(self)@.wired(old(escrow)@, old(rep)@),
            old(self)@.assignee_of(bounty_id) matches Some(w) ==> winner_fits(
                old(rep)@,
                w,
                old(self)@.bounties[bounty_id].category,
                points,
            ),
        ensures
            ({
                let b = old(self)@.bounties[bounty_id];
                let check = old(self)@.single_approval_check(
                    creator, bounty_id, BountyType::Application, BountyStatus::InReview, Error::NotReviewable,
                );
                &&& r == or_then(
                    check,
                    old(self)@.slot_payout_result(old(escrow)@, old(rep)@, b.escrow_pool_id, 0, b.assignee->0),
                )
                &&& r is Err ==> final(self)@ == old(self)@ && final(escrow)@ == old(escrow)@ && final(rep)@ == old(rep)@
                    && final(env)@ == old(env)@
                &&& r is Ok ==> final(self)@ == old(self)@.with_progress(bounty_id, BountyStatus::Completed, b.assignee, 1)
                    && final(escrow)@ == old(escrow)@.slot_released(b.escrow_pool_id, 0, old(env)@.timestamp)
                    && winner_credited(old(rep)@, final(rep)@, b.assignee->0, b.category, points, old(env)@.timestamp)
                    && final(env)@ == winner_credit_env(
                        old(escrow)@.release_slot_env(old(env)@, b.escrow_pool_id, 0),
                        old(rep)@,
                        final(rep)@,
                        b.assignee->0,
                    ).emit(Event::SubmissionApproved(SubmissionApproved { bounty_id, winner: b.assignee->0 }))
            }),
    {
        let bounty = match self.bounties.get(&bounty_id) {
            Some(b) => b.snapshot(),
            None => return Err(Error::BountyNotFound),
        };
        if bounty.creator.id != creator.id {
            return Err(Error::NotCreator);
        }
        if bounty.bounty_type != BountyType::Application {
            return Err(Error::InvalidSubType);
        }
        if bounty.status != BountyStatus::InReview {
            return Err(Error::NotReviewable);
        }
        let winner = match bounty.assignee {
            Some(w) => w,
            None => return Err(Error::NotAssignee),
        };
        self.complete_single(env, escrow, rep, bounty_id, points)?;
        env.emit(Event::SubmissionApproved(SubmissionApproved { bounty_id, winner }));
        Ok(())
    }

    /// Anyone may pay out an FCFS bounty whose creator has not approved it within
    /// `AUTO_RELEASE_DELAY` after the deadline: the claimer is paid and credited
    /// with 50 points.
    pub fn auto_release_check(
        &mut self,
        env: &mut Env,
        escrow: &mut CoreEscrow,
        rep: &mut ReputationRegistry,
        bounty_id: u64,
    ) -> (r: Result<(), Error>)
        requires
            old(self)@.wired(old(escrow)@, old(rep)@),
            old(self)@.bounties.contains_key(bounty_id) ==> old(self)@.bounties[bounty_id].deadline
                + AUTO_RELEASE_DELAY <= u64::MAX,
            old(self)@.assignee_of(bounty_id) matches Some(w) ==> winner_fits(
                old(rep)@,
                w,
                old(self)@.bounties[bounty_id].category,
                50,
            ),
        ensures
            ({
                let b = old(self)@.bounties[bounty_id];
                &&& r == or_then(
                    old(self)@.auto_release_check_result(bounty_id, old(env)@.timestamp),
                    old(self)@.slot_payout_result(old(escrow)@, old(rep)@, b.escrow_pool_id, 0, b.assignee->0),
                )
                &&& r is Err ==> final(self)@ == old(self)@ && final(escrow)@ == old(escrow)@ && final(rep)@ == old(rep)@
                    && final(env)@ == old(env)@
                &&& r is Ok ==> final(self)@ == old(self)@.with_progress(bounty_id, BountyStatus::Completed, b.assignee, 1)
                    && final(escrow)@ == old(escrow)@.slot_released(b.escrow_pool_id, 0, old(env)@.timestamp)
                    && winner_credited(old(rep)@, final(rep)@, b.assignee->0, b.category, 50, old(env)@.timestamp)
                    && final(env)@ == winner_credit_env(
                        old(escrow)@.release_slot_env(old(env)@, b.escrow_pool_id, 0),
                        old(rep)@,
                        final(rep)@,
                        b.assignee->0,
                    )
            }),
    {
        let bounty = match self.bounties.get(&bounty_id) {
            Some(b) => b.snapshot(),
            None => return Err(Error::BountyNotFound),
        };
        if bounty.bounty_type != BountyType::FCFS {
            return Err(Error::NotFCFSType);
        }
        if bounty.status != BountyStatus::InProgress {
            return Err(Error::NotInProgress);
        }
        if env.timestamp <= bounty.deadline + AUTO_RELEASE_DELAY {
            return Err(Error::AutoReleaseNotReady);
        }
        if bounty.assignee.is_none() {
            return Err(Error::NotAssignee);
        }
        self.complete_single(env, escrow, rep, bounty_id, 50)
    }
}


/// The number of applicants recorded for bounty `bid`.
pub open spec fn applicant_count(s: BountyState, bid: u64) -> u32 {
    if s.applicant_counts.contains_key(bid) {
        s.applicant_counts[bid]
    } else {
        0
    }
}

/// The applicants recorded for bounty `bid` at positions `0..n`, in order,
/// leaving out `except`.
pub open spec fn listed(applicants: Map<(u64, u32), Address>, bid: u64, n: nat, except: Option<Address>) -> Seq<Address>
    decreases n,
{
    if n == 0 {
        Seq::empty()
    } else {
        let prev = listed(applicants, bid, (n - 1) as nat, except);
        let k = (bid, (n - 1) as u32);
        if applicants.contains_key(k) && except != Some(applicants[k]) {
            prev.push(applicants[k])
        } else {
            prev
        }
    }
}

/// The reputation storage after one credit was restored to each of `users`, in order.
pub open spec fn restored_all(rep: ReputationState, users: Seq<Address>) -> ReputationState
    decreases users.len(),
{
    if users.len() == 0 {
        rep
    } else {
        restored_all(rep, users.drop_last()).credit_restored(users.last())
    }
}

/// What restoring one credit to each of `users` returns.
pub open spec fn restore_all_result(rep: ReputationState, module: Address, users: Seq<Address>) -> Result<(), Error> {
    if users.len() > 0 && !rep.authorized(module) {
        Err(Error::Reputation(ReputationError::ModuleNotAuthorized))
    } else if exists|i: int| 0 <= i < users.len() && !rep.credits.contains_key(#[trigger] users[i]) {
        Err(Error::Reputation(ReputationError::ProfileNotFound))
    } else {
        Ok(())
    }
}

/// Whether restoring one credit to each of `users` stays within range.
pub open spec fn restore_fits(rep: ReputationState, users: Seq<Address>) -> bool {
    forall|i: int|
        0 <= i < users.len() && rep.credits.contains_key(#[trigger] users[i]) ==> rep.credits[users[i]].total_earned
            + users.len() < u32::MAX
}

/// The applications of bounty `bid` by each of `users` that exist, marked rejected.
pub open spec fn rejected_all(
    apps: Map<(u64, Address), Application>,
    bid: u64,
    users: Seq<Address>,
) -> Map<(u64, Address), Application>
    decreases users.len(),
{
    if users.len() == 0 {
        apps
    } else {
        let prev = rejected_all(apps, bid, users.drop_last());
        let k = (bid, users.last());
        if prev.contains_key(k) {
            prev.insert(k, Application { status: ApplicationStatus::Rejected, ..prev[k] })
        } else {
            prev
        }
    }
}

/// The split recipients of bounty `bid` after recording the recipient of each slot of `s`.
pub open spec fn recipients_written(
    m: Map<(u64, u32), Address>,
    bid: u64,
    s: Seq<(Address, i128)>,
) -> Map<(u64, u32), Address>
    decreases s.len(),
{
    if s.len() == 0 {
        m
    } else {
        recipients_written(m, bid, s.drop_last()).insert((bid, (s.len() - 1) as u32), s.last().0)
    }
}

/// What locking pool `pid` and giving it one release slot of `amount` for `recipient` returns.
pub open spec fn assign_result(escrow: EscrowState, pid: BytesN32, recipient: Address, amount: i128) -> Result<(), Error> {
    match escrow.lock_pool_result(pid) {
        Err(e) => Err(Error::Escrow(e)),
        Ok(_) => match escrow.pool_locked(pid).define_slots_result(pid, seq![(recipient, amount)]) {
            Err(e) => Err(Error::Escrow(e)),
            Ok(_) => Ok(()),
        },
    }
}

/// The escrow storage after pool `pid` was locked and given one release slot.
pub open spec fn assigned(escrow: EscrowState, pid: BytesN32, recipient: Address, amount: i128) -> EscrowState {
    escrow.pool_locked(pid).slots_defined(pid, seq![(recipient, amount)])
}

proof fn lemma_restored_all(rep: ReputationState, users: Seq<Address>)
    requires
        forall|j: int| 0 <= j < users.len() ==> rep.credits.contains_key(#[trigger] users[j]),
    ensures
        restored_all(rep, users).credits.dom() =~= rep.credits.dom(),
        restored_all(rep, users).authorized_modules == rep.authorized_modules,
        forall|u: Address|
            rep.credits.contains_key(u) ==> #[trigger] restored_all(rep, users).credits[u].total_earned
                <= rep.credits[u].total_earned + users.len(),
    decreases users.len(),
{
    if users.len() > 0 {
        lemma_restored_all(rep, users.drop_last());
    }
}

impl BountyState {
    /// The recorded applicants of bounty `id` other than `except`.
    pub open spec fn others(self, id: u64, except: Option<Address>) -> Seq<Address> {
        listed(self.applicants, id, applicant_count(self, id) as nat, except)
    }

    /// The checks on an open bounty of type `t` that a contributor takes up at time `now`.
    pub open spec fn open_check(self, id: u64, t: BountyType, now: u64) -> Result<(), Error> {
        if !self.bounties.contains_key(id) {
            Err(Error::BountyNotFound)
        } else if self.bounties[id].bounty_type != t {
            Err(Error::InvalidSubType)
        } else if self.bounties[id].status != BountyStatus::Open {
            Err(Error::BountyNotOpen)
        } else if now > self.bounties[id].deadline {
            Err(Error::DeadlinePassed)
        } else {
            Ok(())
        }
    }

    /// What spending one credit of `user` returns, as this registry reports it.
    pub open spec fn spend_result(self, rep: ReputationState, user: Address) -> Result<(), Error> {
        if self.reputation_registry is None {
            Err(Error::NotInitialized)
        } else {
            match rep.spend_credit_result(self.address, user) {
                Err(e) => Err(Error::Reputation(e)),
                Ok(had) => if had {
                    Ok(())
                } else {
                    Err(Error::InsufficientCredits)
                },
            }
        }
    }

    /// What `claim_bounty` returns.
    pub open spec fn claim_result(self, escrow: EscrowState, rep: ReputationState, id: u64, c: Address, now: u64) -> Result<(), Error> {
        let b = self.bounties[id];
        or_then(
            self.open_check(id, BountyType::FCFS, now),
            or_then(
                self.spend_result(rep, c),
                if self.core_escrow is None {
                    Err(Error::NotInitialized)
                } else {
                    assign_result(escrow, b.escrow_pool_id, c, b.amount)
                },
            ),
        )
    }

    /// What `apply` returns.
    pub open spec fn apply_result(self, rep: ReputationState, id: u64, c: Address, now: u64) -> Result<(), Error> {
        or_then(
            self.open_check(id, BountyType::Application, now),
            if self.applications.contains_key((id, c)) {
                Err(Error::AlreadyApplied)
            } else {
                self.spend_result(rep, c)
            },
        )
    }

    /// The checks of `select_applicant`.
    pub open spec fn select_check(self, creator: Address, id: u64, applicant: Address) -> Result<(), Error> {
        if !self.bounties.contains_key(id) {
            Err(Error::BountyNotFound)
        } else if self.bounties[id].creator != creator {
            Err(Error::NotCreator)
        } else if self.bounties[id].bounty_type != BountyType::Application {
            Err(Error::InvalidSubType)
        } else if self.bounties[id].status != BountyStatus::Open {
            Err(Error::BountyNotOpen)
        } else if !self.applications.contains_key((id, applicant)) {
            Err(Error::ApplicationNotFound)
        } else if self.applications[(id, applicant)].status != ApplicationStatus::Pending {
            Err(Error::ApplicationNotPending)
        } else {
            Ok(())
        }
    }

    /// What the calls of `select_applicant` into the other contracts return.
    pub open spec fn select_calls_result(self, escrow: EscrowState, rep: ReputationState, id: u64, applicant: Address) -> Result<(), Error> {
        let b = self.bounties[id];
        if self.core_escrow is None {
            Err(Error::NotInitialized)
        } else if assign_result(escrow, b.escrow_pool_id, applicant, b.amount) is Err {
            assign_result(escrow, b.escrow_pool_id, applicant, b.amount)
        } else if self.reputation_registry is None {
            Err(Error::NotInitialized)
        } else {
            restore_all_result(rep, self.address, self.others(id, Some(applicant)))
        }
    }

    /// What `submit_work` returns.
    pub open spec fn submit_result(self, c: Address, id: u64, now: u64) -> Result<(), Error> {
        if !self.bounties.contains_key(id) {
            Err(Error::BountyNotFound)
        } else if now > self.bounties[id].deadline {
            Err(Error::DeadlinePassed)
        } else if self.bounties[id].bounty_type == BountyType::Application {
            if self.bounties[id].assignee != Some(c) {
                Err(Error::NotAssignee)
            } else if self.bounties[id].status != BountyStatus::InProgress {
                Err(Error::NotInProgress)
            } else {
                Ok(())
            }
        } else if self.bounties[id].bounty_type == BountyType::Contest {
            if self.bounties[id].status != BountyStatus::Open {
                Err(Error::BountyNotOpen)
            } else if self.applications.contains_key((id, c)) {
                Err(Error::AlreadyApplied)
            } else {
                Ok(())
            }
        } else {
            Err(Error::InvalidSubType)
        }
    }

    /// The checks that the caller created bounty `id`, of type `t`, else `wrong_type`.
    pub open spec fn creator_check(self, creator: Address, id: u64, t: BountyType, wrong_type: Error) -> Result<(), Error> {
        if !self.bounties.contains_key(id) {
            Err(Error::BountyNotFound)
        } else if self.bounties[id].creator != creator {
            Err(Error::NotCreator)
        } else if self.bounties[id].bounty_type != t {
            Err(wrong_type)
        } else {
            Ok(())
        }
    }

    /// The checks of `approve_contest_winner`.
    pub open spec fn contest_check(self, creator: Address, id: u64, winner: Address) -> Result<(), Error> {
        or_then(
            self.creator_check(creator, id, BountyType::Contest, Error::NotContestType),
            if self.bounties[id].status != BountyStatus::Open && self.bounties[id].status != BountyStatus::InProgress {
                Err(Error::BountyNotOpen)
            } else if !self.applications.contains_key((id, winner)) {
                Err(Error::ApplicationNotFound)
            } else {
                Ok(())
            },
        )
    }

    /// What `finalize_contest` returns.
    pub open spec fn finalize_result(self, escrow: EscrowState, creator: Address, id: u64) -> Result<(), Error> {
        or_then(
            self.creator_check(creator, id, BountyType::Contest, Error::NotContestType),
            if self.core_escrow is None {
                Err(Error::NotInitialized)
            } else {
                match escrow.refund_all_result(self.bounties[id].escrow_pool_id) {
                    Err(e) => Err(Error::Escrow(e)),
                    Ok(_) => Ok(()),
                }
            },
        )
    }

    /// What `define_splits` returns.
    pub open spec fn splits_result(self, escrow: EscrowState, creator: Address, id: u64, s: Seq<(Address, i128)>) -> Result<(), Error> {
        or_then(
            self.creator_check(creator, id, BountyType::Split, Error::NotSplitType),
            if self.bounties[id].status != BountyStatus::Open {
                Err(Error::BountyNotOpen)
            } else if amounts_total(s) > self.bounties[id].amount {
                Err(Error::InvalidSplitShares)
            } else if self.core_escrow is None {
                Err(Error::NotInitialized)
            } else {
                match escrow.define_slots_result(self.bounties[id].escrow_pool_id, s) {
                    Err(e) => Err(Error::Escrow(e)),
                    Ok(_) => Ok(()),
                }
            },
        )
    }

    /// The checks of `approve_split`.
    pub open spec fn split_check(self, creator: Address, id: u64, slot_index: u32) -> Result<(), Error> {
        or_then(
            self.creator_check(creator, id, BountyType::Split, Error::NotSplitType),
            if !self.split_recipients.contains_key((id, slot_index)) {
                Err(Error::ApplicationNotFound)
            } else {
                Ok(())
            },
        )
    }

    /// What `cancel_bounty` returns.
    pub open spec fn cancel_result(self, escrow: EscrowState, rep: ReputationState, creator: Address, id: u64) -> Result<(), Error> {
        if !self.bounties.contains_key(id) {
            Err(Error::BountyNotFound)
        } else if self.bounties[id].creator != creator {
            Err(Error::NotCreator)
        } else if self.bounties[id].status != BountyStatus::Open {
            Err(Error::CannotCancel)
        } else if self.reputation_registry is None {
            Err(Error::NotInitialized)
        } else if restore_all_result(rep, self.address, self.others(id, None)) is Err {
            restore_all_result(rep, self.address, self.others(id, None))
        } else if self.core_escrow is None {
            Err(Error::NotInitialized)
        } else {
            match escrow.refund_all_result(self.bounties[id].escrow_pool_id) {
                Err(e) => Err(Error::Escrow(e)),
                Ok(_) => Ok(()),
            }
        }
    }

    /// What `reject_application` returns.
    pub open spec fn reject_result(self, rep: ReputationState, creator: Address, id: u64, applicant: Address) -> Result<(), Error> {
        if !self.bounties.contains_key(id) {
            Err(Error::BountyNotFound)
        } else if self.bounties[id].creator != creator {
            Err(Error::NotCreator)
        } else if !self.applications.contains_key((id, applicant)) {
            Err(Error::ApplicationNotFound)
        } else if self.applications[(id, applicant)].status != ApplicationStatus::Pending {
            Err(Error::ApplicationNotPending)
        } else if self.reputation_registry is None {
            Err(Error::NotInitialized)
        } else {
            match rep.credit_call_result(self.address, applicant) {
                Err(e) => Err(Error::Reputation(e)),
                Ok(_) => Ok(()),
            }
        }
    }

    /// What `update_bounty` returns.
    pub open spec fn update_result(self, creator: Address, id: u64, deadline: Option<u64>, now: u64) -> Result<(), Error> {
        if !self.bounties.contains_key(id) {
            Err(Error::BountyNotFound)
        } else if self.bounties[id].creator != creator {
            Err(Error::NotCreator)
        } else if self.bounties[id].status != BountyStatus::Open {
            Err(Error::BountyNotOpen)
        } else if deadline matches Some(d) && d <= now {
            Err(Error::DeadlinePassed)
        } else {
            Ok(())
        }
    }
}


impl BountyRegistry {
    /// Restores one credit to each of `users`, in order; changes nothing on failure.
    fn restore_all(&self, rep: &mut ReputationRegistry, users: &Vec<Address>) -> (r: Result<(), Error>)
        requires
            restore_fits(old(rep)@, users@),
        ensures
            r == restore_all_result(old(rep)@, self@.address, users@),
            r is Err ==> final(rep)@ == old(rep)@,
            r is Ok ==> final(rep)@ == restored_all(old(rep)@, users@),
    {
        let saved = rep.snapshot();
        let n = users.len();
        let mut i: usize = 0;
        while i < n
            invariant
                n == users@.len(),
                i <= n,
                saved@ == old(rep)@,
                rep@ == restored_all(old(rep)@, users@.take(i as int)),
                forall|j: int| 0 <= j < i ==> old(rep)@.credits.contains_key(#[trigger] users@[j]),
                i > 0 ==> old(rep)@.authorized(self@.address),
                restore_fits(old(rep)@, users@),
            decreases n - i,
        {
            let u = users[i];
            proof {
                lemma_restored_all(old(rep)@, users@.take(i as int));
                assert(users@.take(i as int).len() == i);
                if old(rep)@.credits.contains_key(u) {
                    assert(old(rep)@.credits.contains_key(users@[i as int]));
                }
            }
            match rep.restore_credit(self.address, u) {
                Ok(()) => {},
                Err(e) => {
                    *rep = saved;
                    proof {
                        if old(rep)@.authorized(self@.address) {
                            assert(!old(rep)@.credits.contains_key(users@[i as int]));
                        }
                    }
                    return Err(Error::Reputation(e));
                },
            }
            proof {
                assert(users@.take(i + 1).drop_last() =~= users@.take(i as int));
            }
            i = i + 1;
        }
        proof {
            assert(users@.take(n as int) =~= users@);
        }
        Ok(())
    }

    /// The recorded applicants of bounty `bid` other than `except`, in order.
    fn listed_applicants(&self, bid: u64, except: Option<Address>) -> (v: Vec<Address>)
        ensures
            v@ == self@.others(bid, except),
    {
        let n = match self.applicant_counts.get(&bid) {
            Some(c) => *c,
            None => 0,
        };
        let mut v: Vec<Address> = Vec::new();
        let mut i: u32 = 0;
        while i < n
            invariant
                i <= n,
                n == applicant_count(self@, bid),
                v@ == listed(self@.applicants, bid, i as nat, except),
            decreases n - i,
        {
            match self.applicants.get(&(bid, i)) {
                Some(a) => {
                    let a = *a;
                    let keep = match except {
                        Some(x) => x.id != a.id,
                        None => true,
                    };
                    if keep {
                        v.push(a);
                    }
                },
                None => {},
            }
            i = i + 1;
        }
        v
    }

    /// Locks pool `pid` and gives it one release slot of `amount` for `recipient`;
    /// changes nothing on failure.
    fn assign_pool(&self, env: &mut Env, escrow: &mut CoreEscrow, pid: BytesN32, recipient: Address, amount: i128) -> (r: Result<(), Error>)
        ensures
            r == assign_result(old(escrow)@, pid, recipient, amount),
            r is Err ==> final(escrow)@ == old(escrow)@ && final(env)@ == old(env)@,
            r is Ok ==> final(escrow)@ == assigned(old(escrow)@, pid, recipient, amount) && final(env)@ == old(env)@.emit(
                Event::PoolLocked(PoolLocked { pool_id: pid }),
            ),
    {
        let saved = escrow.snapshot();
        let m = env.mark();
        match escrow.lock_pool(env, pid) {
            Ok(()) => {},
            Err(e) => return Err(Error::Escrow(e)),
        }
        let mut slots: Vec<(Address, i128)> = Vec::new();
        slots.push((recipient, amount));
        assert(slots@ =~= seq![(recipient, amount)]);
        match escrow.define_release_slots(pid, &slots) {
            Ok(()) => Ok(()),
            Err(e) => {
                *escrow = saved;
                env.rollback(m);
                assert(env@.transfers =~= old(env)@.transfers);
                assert(env@.events =~= old(env)@.events);
                Err(Error::Escrow(e))
            },
        }
    }

    /// Takes one credit of `user`, who must have one; changes nothing on failure.
    fn spend(&self, env: &mut Env, rep: &mut ReputationRegistry, user: Address) -> (r: Result<(), Error>)
        requires
            old(rep)@.credits.contains_key(user) ==> old(rep)@.credits[user].total_spent < u32::MAX,
        ensures
            r == self@.spend_result(old(rep)@, user),
            r is Err ==> final(rep)@ == old(rep)@ && final(env)@ == old(env)@,
            r is Ok ==> final(rep)@ == old(rep)@.credit_spent(user) && final(env)@ == old(env)@.emit(
                Event::CreditsSpent(CreditsSpent { user, remaining: (old(rep)@.credits[user].credits - 1) as u32 }),
            ),
    {
        if self.reputation_registry.is_none() {
            return Err(Error::NotInitialized);
        }
        match rep.spend_credit(env, self.address, user) {
            Ok(had) => if had {
                Ok(())
            } else {
                Err(Error::InsufficientCredits)
            },
            Err(e) => Err(Error::Reputation(e)),
        }
    }

    /// A contributor claims an open FCFS bounty for one credit; its pool is
    /// locked with a single release slot for the claimer.
    pub fn claim_bounty(
        &mut self,
        env: &mut Env,
        escrow: &mut CoreEscrow,
        rep: &mut ReputationRegistry,
        contributor: Address,
        bounty_id: u64,
    ) -> (r: Result<(), Error>)
        requires
            old(self)@.wired(old(escrow)@, old(rep)@),
            old(rep)@.credits.contains_key(contributor) ==> old(rep)@.credits[contributor].total_spent < u32::MAX,
        ensures
            ({
                let b = old(self)@.bounties[bounty_id];
                &&& r == old(self)@.claim_result(old(escrow)@, old(rep)@, bounty_id, contributor, old(env)@.timestamp)
                &&& r is Err ==> final(self)@ == old(self)@ && final(escrow)@ == old(escrow)@ && final(rep)@ == old(rep)@
                    && final(env)@ == old(env)@
                &&& r is Ok ==> final(self)@ == old(self)@.with_progress(
                    bounty_id,
                    BountyStatus::InProgress,
                    Some(contributor),
                    b.winner_count,
                ) && final(escrow)@ == assigned(old(escrow)@, b.escrow_pool_id, contributor, b.amount)
                    && final(rep)@ == old(rep)@.credit_spent(contributor) && final(env)@ == old(env)@.emit(
                    Event::CreditsSpent(
                        CreditsSpent { user: contributor, remaining: (old(rep)@.credits[contributor].credits - 1) as u32 },
                    ),
                ).emit(Event::PoolLocked(PoolLocked { pool_id: b.escrow_pool_id })).emit(
                    Event::BountyClaimed(BountyClaimed { bounty_id, claimer: contributor }),
                )
            }),
    {
        let mut bounty = match self.bounties.get(&bounty_id) {
            Some(b) => b.snapshot(),
            None => return Err(Error::BountyNotFound),
        };
        if bounty.bounty_type != BountyType::FCFS {
            return Err(Error::InvalidSubType);
        }
        if bounty.status != BountyStatus::Open {
            return Err(Error::BountyNotOpen);
        }
        if env.timestamp > bounty.deadline {
            return Err(Error::DeadlinePassed);
        }
        let saved_rep = rep.snapshot();
        let m = env.mark();
        self.spend(env, rep, contributor)?;
        let assigned = if self.core_escrow.is_none() {
            Err(Error::NotInitialized)
        } else {
            self.assign_pool(env, escrow, bounty.escrow_pool_id, contributor, bounty.amount)
        };
        match assigned {
            Ok(()) => {},
            Err(e) => {
                *rep = saved_rep;
                env.rollback(m);
                assert(env@.transfers =~= old(env)@.transfers);
                assert(env@.events =~= old(env)@.events);
                return Err(e);
            },
        }
        bounty.assignee = Some(contributor);
        bounty.status = BountyStatus::InProgress;
        self.bounties.insert(bounty_id, bounty);
        env.emit(Event::BountyClaimed(BountyClaimed { bounty_id, claimer: contributor }));
        Ok(())
    }

    /// A contributor applies to an open application bounty for one credit.
    pub fn apply(
        &mut self,
        env: &mut Env,
        rep: &mut ReputationRegistry,
        applicant: Address,
        bounty_id: u64,
        proposal: String,
    ) -> (r: Result<(), Error>)
        requires
            applicant_count(old(self)@, bounty_id) < u32::MAX,
            old(self)@.reputation_registry matches Some(a) ==> old(rep)@.address == a,
            old(rep)@.credits.contains_key(applicant) ==> old(rep)@.credits[applicant].total_spent < u32::MAX,
        ensures
            r == old(self)@.apply_result(old(rep)@, bounty_id, applicant, old(env)@.timestamp),
            r is Err ==> final(self)@ == old(self)@ && final(rep)@ == old(rep)@ && final(env)@ == old(env)@,
            r is Ok ==> {
                let n = applicant_count(old(self)@, bounty_id);
                &&& final(self)@ == (BountyState {
                    applications: old(self)@.applications.insert(
                        (bounty_id, applicant),
                        Application {
                            bounty_id,
                            applicant,
                            proposal,
                            submitted_at: old(env)@.timestamp,
                            status: ApplicationStatus::Pending,
                        },
                    ),
                    applicant_counts: old(self)@.applicant_counts.insert(bounty_id, (n + 1) as u32),
                    applicants: old(self)@.applicants.insert((bounty_id, n), applicant),
                    ..old(self)@
                })
                &&& final(rep)@ == old(rep)@.credit_spent(applicant)
                &&& final(env)@ == old(env)@.emit(
                    Event::CreditsSpent(
                        CreditsSpent { user: applicant, remaining: (old(rep)@.credits[applicant].credits - 1) as u32 },
                    ),
                ).emit(Event::BountyApplied(BountyApplied { bounty_id, applicant }))
            },
    {
        let bounty = match self.bounties.get(&bounty_id) {
            Some(b) => b.snapshot(),
            None => return Err(Error::BountyNotFound),
        };
        if bounty.bounty_type != BountyType::Application {
            return Err(Error::InvalidSubType);
        }
        if bounty.status != BountyStatus::Open {
            return Err(Error::BountyNotOpen);
        }
        if env.timestamp > bounty.deadline {
            return Err(Error::DeadlinePassed);
        }
        if self.applications.contains_key(&(bounty_id, applicant)) {
            return Err(Error::AlreadyApplied);
        }
        self.spend(env, rep, applicant)?;
        let app = Application {
            bounty_id,
            applicant,
            proposal,
            submitted_at: env.timestamp,
            status: ApplicationStatus::Pending,
        };
        self.applications.insert((bounty_id, applicant), app);
        let n = match self.applicant_counts.get(&bounty_id) {
            Some(c) => *c,
            None => 0,
        };
        self.applicants.insert((bounty_id, n), applicant);
        self.applicant_counts.insert(bounty_id, n + 1);
        env.emit(Event::BountyApplied(BountyApplied { bounty_id, applicant }));
        Ok(())
    }
}


impl BountyRegistry {
    /// The creator picks one pending applicant of an open application bounty:
    /// the pool is locked with a single slot for them, every other recorded
    /// applicant gets their credit back and has their application rejected.
    #[verifier::loop_isolation(false)]
    pub fn select_applicant(
        &mut self,
        env: &mut Env,
        escrow: &mut CoreEscrow,
        rep: &mut ReputationRegistry,
        creator: Address,
        bounty_id: u64,
        applicant: Address,
    ) -> (r: Result<(), Error>)
        requires
            old(self)@.wired(old(escrow)@, old(rep)@),
            restore_fits(old(rep)@, old(self)@.others(bounty_id, Some(applicant))),
        ensures
            ({
                let b = old(self)@.bounties[bounty_id];
                let others = old(self)@.others(bounty_id, Some(applicant));
                let k = (bounty_id, applicant);
                &&& r == or_then(
                    old(self)@.select_check(creator, bounty_id, applicant),
                    old(self)@.select_calls_result(old(escrow)@, old(rep)@, bounty_id, applicant),
                )
                &&& r is Err ==> final(self)@ == old(self)@ && final(escrow)@ == old(escrow)@ && final(rep)@ == old(rep)@
                    && final(env)@ == old(env)@
                &&& r is Ok ==> final(self)@ == (BountyState {
                    applications: rejected_all(
                        old(self)@.applications.insert(
                            k,
                            Application { status: ApplicationStatus::Accepted, ..old(self)@.applications[k] },
                        ),
                        bounty_id,
                        others,
                    ),
                    ..old(self)@.with_progress(bounty_id, BountyStatus::InProgress, Some(applicant), b.winner_count)
                }) && final(escrow)@ == assigned(old(escrow)@, b.escrow_pool_id, applicant, b.amount)
                    && final(rep)@ == restored_all(old(rep)@, others) && final(env)@ == old(env)@.emit(
                    Event::PoolLocked(PoolLocked { pool_id: b.escrow_pool_id }),
                ).emit(Event::BountyAssigned(BountyAssigned { bounty_id, assignee: applicant }))
            }),
    {
        let mut bounty = match self.bounties.get(&bounty_id) {
            Some(b) => b.snapshot(),
            None => return Err(Error::BountyNotFound),
        };
        if bounty.creator.id != creator.id {
            return Err(Error::NotCreator);
        }
        if bounty.bounty_type != BountyType::Application {
            return Err(Error::InvalidSubType);
        }
        if bounty.status != BountyStatus::Open {
            return Err(Error::BountyNotOpen);
        }
        let mut app = match self.applications.get(&(bounty_id, applicant)) {
            Some(a) => a.snapshot(),
            None => return Err(Error::ApplicationNotFound),
        };
        if app.status != ApplicationStatus::Pending {
            return Err(Error::ApplicationNotPending);
        }
        if self.core_escrow.is_none() {
            return Err(Error::NotInitialized);
        }
        let saved_escrow = escrow.snapshot();
        let m = env.mark();
        self.assign_pool(env, escrow, bounty.escrow_pool_id, applicant, bounty.amount)?;
        let others = self.listed_applicants(bounty_id, Some(applicant));
        let restored = if self.reputation_registry.is_none() {
            Err(Error::NotInitialized)
        } else {
            self.restore_all(rep, &others)
        };
        match restored {
            Ok(()) => {},
            Err(e) => {
                *escrow = saved_escrow;
                env.rollback(m);
                assert(env@.transfers =~= old(env)@.transfers);
                assert(env@.events =~= old(env)@.events);
                return Err(e);
            },
        }
        app.status = ApplicationStatus::Accepted;
        self.applications.insert((bounty_id, applicant), app);
        let ghost s1 = self@;
        let n = others.len();
        let mut i: usize = 0;
        while i < n
            invariant
                n == others@.len(),
                i <= n,
                self@ == (BountyState {
                    applications: rejected_all(s1.applications, bounty_id, others@.take(i as int)),
                    ..s1
                }),
            decreases n - i,
        {
            let a = others[i];
            match self.applications.get(&(bounty_id, a)) {
                Some(o) => {
                    let mut o2 = o.snapshot();
                    o2.status = ApplicationStatus::Rejected;
                    self.applications.insert((bounty_id, a), o2);
                },
                None => {},
            }
            proof {
                assert(others@.take(i + 1).drop_last() =~= others@.take(i as int));
            }
            i = i + 1;
        }
        assert(others@.take(n as int) =~= others@);
        bounty.assignee = Some(applicant);
        bounty.status = BountyStatus::InProgress;
        self.bounties.insert(bounty_id, bounty);
        env.emit(Event::BountyAssigned(BountyAssigned { bounty_id, assignee: applicant }));
        Ok(())
    }

    /// A contributor hands in work: the assignee of an application bounty puts
    /// it in review; anyone enters an open contest once, with `work_cid` as entry.
    pub fn submit_work(&mut self, env: &mut Env, contributor: Address, bounty_id: u64, work_cid: String) -> (r: Result<(), Error>)
        ensures
            r == old(self)@.submit_result(contributor, bounty_id, old(env)@.timestamp),
            r is Err ==> final(self)@ == old(self)@ && final(env)@ == old(env)@,
            r is Ok ==> {
                let b = old(self)@.bounties[bounty_id];
                &&& b.bounty_type == BountyType::Application ==> final(self)@ == old(self)@.with_progress(
                    bounty_id,
                    BountyStatus::InReview,
                    b.assignee,
                    b.winner_count,
                )
                &&& b.bounty_type == BountyType::Contest ==> final(self)@ == (BountyState {
                    applications: old(self)@.applications.insert(
                        (bounty_id, contributor),
                        Application {
                            bounty_id,
                            applicant: contributor,
                            proposal: work_cid,
                            submitted_at: old(env)@.timestamp,
                            status: ApplicationStatus::Pending,
                        },
                    ),
                    ..old(self)@
                })
                &&& final(env)@ == old(env)@.emit(Event::WorkSubmitted(WorkSubmitted { bounty_id, contributor }))
            },
    {
        let mut bounty = match self.bounties.get(&bounty_id) {
            Some(b) => b.snapshot(),
            None => return Err(Error::BountyNotFound),
        };
        if env.timestamp > bounty.deadline {
            return Err(Error::DeadlinePassed);
        }
        match bounty.bounty_type {
            BountyType::Application => {
                let is_assignee = match bounty.assignee {
                    Some(a) => a.id == contributor.id,
                    None => false,
                };
                if !is_assignee {
                    return Err(Error::NotAssignee);
                }
                if bounty.status != BountyStatus::InProgress {
                    return Err(Error::NotInProgress);
                }
                bounty.status = BountyStatus::InReview;
                self.bounties.insert(bounty_id, bounty);
            },
            BountyType::Contest => {
                if bounty.status != BountyStatus::Open {
                    return Err(Error::BountyNotOpen);
                }
                if self.applications.contains_key(&(bounty_id, contributor)) {
                    return Err(Error::AlreadyApplied);
                }
                let app = Application {
                    bounty_id,
                    applicant: contributor,
                    proposal: work_cid,
                    submitted_at: env.timestamp,
                    status: ApplicationStatus::Pending,
                };
                self.applications.insert((bounty_id, contributor), app);
                assert(self@.bounties =~= old(self)@.bounties);
            },
            _ => {
                return Err(Error::InvalidSubType);
            },
        }
        env.emit(Event::WorkSubmitted(WorkSubmitted { bounty_id, contributor }));
        Ok(())
    }

    /// The creator of a contest pays `payout_amount` to one entrant and credits
    /// them with `points`; the contest stays open for more winners.
    pub fn approve_contest_winner(
        &mut self,
        env: &mut Env,
        escrow: &mut CoreEscrow,
        rep: &mut ReputationRegistry,
        creator: Address,
        bounty_id: u64,
        winner: Address,
        payout_amount: i128,
        points: u32,
    ) -> (r: Result<(), Error>)
        requires
            old(self)@.wired(old(escrow)@, old(rep)@),
            old(self)@.bounties.contains_key(bounty_id) ==> old(self)@.bounties[bounty_id].winner_count < u32::MAX
                && winner_fits(old(rep)@, winner, old(self)@.bounties[bounty_id].category, points),
        ensures
            ({
                let b = old(self)@.bounties[bounty_id];
                &&& r == or_then(
                    old(self)@.contest_check(creator, bounty_id, winner),
                    old(self)@.partial_payout_result(old(escrow)@, old(rep)@, b.escrow_pool_id, payout_amount, winner),
                )
                &&& r is Err ==> final(self)@ == old(self)@ && final(escrow)@ == old(escrow)@ && final(rep)@ == old(rep)@
                    && final(env)@ == old(env)@
                &&& r is Ok ==> final(self)@ == old(self)@.with_progress(
                    bounty_id,
                    BountyStatus::InProgress,
                    b.assignee,
                    (b.winner_count + 1) as u32,
                ) && final(escrow)@ == old(escrow)@.released_partially(b.escrow_pool_id, payout_amount)
                    && winner_credited(old(rep)@, final(rep)@, winner, b.category, points, old(env)@.timestamp)
                    && final(env)@ == winner_credit_env(
                    old(escrow)@.release_partial_env(old(env)@, b.escrow_pool_id, winner, payout_amount),
                    old(rep)@,
                    final(rep)@,
                    winner,
                ).emit(Event::SubmissionApproved(SubmissionApproved { bounty_id, winner }))
            }),
    {
        let mut bounty = match self.bounties.get(&bounty_id) {
            Some(b) => b.snapshot(),
            None => return Err(Error::BountyNotFound),
        };
        if bounty.creator.id != creator.id {
            return Err(Error::NotCreator);
        }
        if bounty.bounty_type != BountyType::Contest {
            return Err(Error::NotContestType);
        }
        if bounty.status != BountyStatus::Open && bounty.status != BountyStatus::InProgress {
            return Err(Error::BountyNotOpen);
        }
        if !self.applications.contains_key(&(bounty_id, winner)) {
            return Err(Error::ApplicationNotFound);
        }
        self.partial_payout(env, escrow, rep, bounty.escrow_pool_id, payout_amount, winner, bounty.category, points)?;
        bounty.winner_count = bounty.winner_count + 1;
        bounty.status = BountyStatus::InProgress;
        self.bounties.insert(bounty_id, bounty);
        env.emit(Event::SubmissionApproved(SubmissionApproved { bounty_id, winner }));
        Ok(())
    }

    /// The creator closes a contest: what is left in the pool goes back to them.
    pub fn finalize_contest(&mut self, env: &mut Env, escrow: &mut CoreEscrow, creator: Address, bounty_id: u64) -> (r: Result<(), Error>)
        requires
            old(self)@.core_escrow matches Some(a) ==> old(escrow)@.address == a,
        ensures
            ({
                let b = old(self)@.bounties[bounty_id];
                &&& r == old(self)@.finalize_result(old(escrow)@, creator, bounty_id)
                &&& r is Err ==> final(self)@ == old(self)@ && final(escrow)@ == old(escrow)@ && final(env)@ == old(env)@
                &&& r is Ok ==> final(self)@ == old(self)@.with_progress(
                    bounty_id,
                    BountyStatus::Completed,
                    b.assignee,
                    b.winner_count,
                ) && final(escrow)@ == old(escrow)@.refunded_all(b.escrow_pool_id) && final(env)@
                    == old(escrow)@.refund_all_env(old(env)@, b.escrow_pool_id)
            }),
    {
        let mut bounty = match self.bounties.get(&bounty_id) {
            Some(b) => b.snapshot(),
            None => return Err(Error::BountyNotFound),
        };
        if bounty.creator.id != creator.id {
            return Err(Error::NotCreator);
        }
        if bounty.bounty_type != BountyType::Contest {
            return Err(Error::NotContestType);
        }
        if self.core_escrow.is_none() {
            return Err(Error::NotInitialized);
        }
        match escrow.refund_remaining(env, bounty.escrow_pool_id) {
            Ok(()) => {},
            Err(e) => return Err(Error::Escrow(e)),
        }
        bounty.status = BountyStatus::Completed;
        self.bounties.insert(bounty_id, bounty);
        Ok(())
    }
}


impl BountyRegistry {
    /// The creator of an open split bounty divides it into release slots, one
    /// per entry of `slots`; together they may not exceed the bounty.
    pub fn define_splits(
        &mut self,
        escrow: &mut CoreEscrow,
        creator: Address,
        bounty_id: u64,
        slots: Vec<(Address, i128)>,
    ) -> (r: Result<(), Error>)
        requires
            old(self)@.core_escrow matches Some(a) ==> old(escrow)@.address == a,
            slots@.len() <= u32::MAX,
            running_sums_fit(0, slots@),
        ensures
            r == old(self)@.splits_result(old(escrow)@, creator, bounty_id, slots@),
            r is Err ==> final(self)@ == old(self)@ && final(escrow)@ == old(escrow)@,
            r is Ok ==> final(self)@ == (BountyState {
                split_recipients: recipients_written(old(self)@.split_recipients, bounty_id, slots@),
                ..old(self)@
            }) && final(escrow)@ == old(escrow)@.slots_defined(old(self)@.bounties[bounty_id].escrow_pool_id, slots@),
    {
        let bounty = match self.bounties.get(&bounty_id) {
            Some(b) => b.snapshot(),
            None => return Err(Error::BountyNotFound),
        };
        if bounty.creator.id != creator.id {
            return Err(Error::NotCreator);
        }
        if bounty.bounty_type != BountyType::Split {
            return Err(Error::NotSplitType);
        }
        if bounty.status != BountyStatus::Open {
            return Err(Error::BountyNotOpen);
        }
        let n = slots.len();
        let mut total: i128 = 0;
        let mut i: usize = 0;
        while i < n
            invariant
                n == slots@.len(),
                i <= n,
                total == amounts_total(slots@.take(i as int)),
                running_sums_fit(0, slots@),
            decreases n - i,
        {
            proof {
                assert(slots@.take(i + 1) =~= slots@.take(i as int).push(slots@[i as int]));
                lemma_amounts_total_push(slots@.take(i as int), slots@[i as int]);
                assert(fits_i128(0 + amounts_total(slots@.take(i + 1))));
            }
            total = total + slots[i].1;
            i = i + 1;
        }
        assert(slots@.take(n as int) =~= slots@);
        if total > bounty.amount {
            return Err(Error::InvalidSplitShares);
        }
        if self.core_escrow.is_none() {
            return Err(Error::NotInitialized);
        }
        match escrow.define_release_slots(bounty.escrow_pool_id, &slots) {
            Ok(()) => {},
            Err(e) => return Err(Error::Escrow(e)),
        }
        let mut j: usize = 0;
        while j < n
            invariant
                n == slots@.len(),
                n <= u32::MAX,
                j <= n,
                self@ == (BountyState {
                    split_recipients: recipients_written(old(self)@.split_recipients, bounty_id, slots@.take(j as int)),
                    ..old(self)@
                }),
            decreases n - j,
        {
            proof {
                assert(slots@.take(j + 1).drop_last() =~= slots@.take(j as int));
            }
            self.split_recipients.insert((bounty_id, j as u32), slots[j].0);
            j = j + 1;
        }
        assert(slots@.take(n as int) =~= slots@);
        Ok(())
    }

    /// The creator of a split bounty pays out one slot to the recipient that
    /// `define_splits` recorded for it, and credits them with `points`.
    pub fn approve_split(
        &mut self,
        env: &mut Env,
        escrow: &mut CoreEscrow,
        rep: &mut ReputationRegistry,
        creator: Address,
        bounty_id: u64,
        slot_index: u32,
        points: u32,
    ) -> (r: Result<(), Error>)
        requires
            old(self)@.wired(old(escrow)@, old(rep)@),
            old(self)@.bounties.contains_key(bounty_id) ==> old(self)@.bounties[bounty_id].winner_count < u32::MAX,
            old(self)@.bounties.contains_key(bounty_id) && old(self)@.split_recipients.contains_key(
                (bounty_id, slot_index),
            ) ==> winner_fits(
                old(rep)@,
                old(self)@.split_recipients[(bounty_id, slot_index)],
                old(self)@.bounties[bounty_id].category,
                points,
            ),
        ensures
            ({
                let b = old(self)@.bounties[bounty_id];
                let w = old(self)@.split_recipients[(bounty_id, slot_index)];
                &&& r == or_then(
                    old(self)@.split_check(creator, bounty_id, slot_index),
                    old(self)@.slot_payout_result(old(escrow)@, old(rep)@, b.escrow_pool_id, slot_index, w),
                )
                &&& r is Err ==> final(self)@ == old(self)@ && final(escrow)@ == old(escrow)@ && final(rep)@ == old(rep)@
                    && final(env)@ == old(env)@
                &&& r is Ok ==> final(self)@ == old(self)@.with_progress(
                    bounty_id,
                    BountyStatus::InProgress,
                    b.assignee,
                    (b.winner_count + 1) as u32,
                ) && final(escrow)@ == old(escrow)@.slot_released(b.escrow_pool_id, slot_index, old(env)@.timestamp)
                    && winner_credited(old(rep)@, final(rep)@, w, b.category, points, old(env)@.timestamp)
                    && final(env)@ == winner_credit_env(
                    old(escrow)@.release_slot_env(old(env)@, b.escrow_pool_id, slot_index),
                    old(rep)@,
                    final(rep)@,
                    w,
                ).emit(Event::SplitApproved(SplitApproved { bounty_id, slot_index }))
            }),
    {
        let mut bounty = match self.bounties.get(&bounty_id) {
            Some(b) => b.snapshot(),
            None => return Err(Error::BountyNotFound),
        };
        if bounty.creator.id != creator.id {
            return Err(Error::NotCreator);
        }
        if bounty.bounty_type != BountyType::Split {
            return Err(Error::NotSplitType);
        }
        let recipient = match self.split_recipients.get(&(bounty_id, slot_index)) {
            Some(a) => *a,
            None => return Err(Error::ApplicationNotFound),
        };
        self.slot_payout(env, escrow, rep, bounty.escrow_pool_id, slot_index, recipient, bounty.category, points)?;
        bounty.winner_count = bounty.winner_count + 1;
        bounty.status = BountyStatus::InProgress;
        self.bounties.insert(bounty_id, bounty);
        env.emit(Event::SplitApproved(SplitApproved { bounty_id, slot_index }));
        Ok(())
    }

    /// The creator cancels an open bounty: every recorded applicant gets their
    /// credit back and the pool is refunded to the creator.
    pub fn cancel_bounty(
        &mut self,
        env: &mut Env,
        escrow: &mut CoreEscrow,
        rep: &mut ReputationRegistry,
        creator: Address,
        bounty_id: u64,
    ) -> (r: Result<(), Error>)
        requires
            old(self)@.wired(old(escrow)@, old(rep)@),
            restore_fits(old(rep)@, old(self)@.others(bounty_id, None)),
        ensures
            ({
                let b = old(self)@.bounties[bounty_id];
                &&& r == old(self)@.cancel_result(old(escrow)@, old(rep)@, creator, bounty_id)
                &&& r is Err ==> final(self)@ == old(self)@ && final(escrow)@ == old(escrow)@ && final(rep)@ == old(rep)@
                    && final(env)@ == old(env)@
                &&& r is Ok ==> final(self)@ == old(self)@.with_progress(
                    bounty_id,
                    BountyStatus::Cancelled,
                    b.assignee,
                    b.winner_count,
                ) && final(rep)@ == restored_all(old(rep)@, old(self)@.others(bounty_id, None))
                    && final(escrow)@ == old(escrow)@.refunded_all(b.escrow_pool_id) && final(env)@ == old(
                    escrow,
                )@.refund_all_env(old(env)@, b.escrow_pool_id).emit(Event::BountyCancelled(BountyCancelled { bounty_id }))
            }),
    {
        let mut bounty = match self.bounties.get(&bounty_id) {
            Some(b) => b.snapshot(),
            None => return Err(Error::BountyNotFound),
        };
        if bounty.creator.id != creator.id {
            return Err(Error::NotCreator);
        }
        if bounty.status != BountyStatus::Open {
            return Err(Error::CannotCancel);
        }
        if self.reputation_registry.is_none() {
            return Err(Error::NotInitialized);
        }
        let everyone = self.listed_applicants(bounty_id, None);
        let saved_rep = rep.snapshot();
        self.restore_all(rep, &everyone)?;
        let refunded = if self.core_escrow.is_none() {
            Err(Error::NotInitialized)
        } else {
            match escrow.refund_all(env, bounty.escrow_pool_id) {
                Ok(()) => Ok(()),
                Err(e) => Err(Error::Escrow(e)),
            }
        };
        match refunded {
            Ok(()) => {},
            Err(e) => {
                *rep = saved_rep;
                return Err(e);
            },
        }
        bounty.status = BountyStatus::Cancelled;
        self.bounties.insert(bounty_id, bounty);
        env.emit(Event::BountyCancelled(BountyCancelled { bounty_id }));
        Ok(())
    }

    /// The creator rejects a pending application; the applicant gets their credit back.
    pub fn reject_application(
        &mut self,
        env: &mut Env,
        rep: &mut ReputationRegistry,
        creator: Address,
        bounty_id: u64,
        applicant: Address,
    ) -> (r: Result<(), Error>)
        requires
            old(self)@.reputation_registry matches Some(a) ==> old(rep)@.address == a,
            old(rep)@.credits.contains_key(applicant) ==> old(rep)@.credits[applicant].total_earned < u32::MAX,
        ensures
            r == old(self)@.reject_result(old(rep)@, creator, bounty_id, applicant),
            r is Err ==> final(self)@ == old(self)@ && final(rep)@ == old(rep)@ && final(env)@ == old(env)@,
            r is Ok ==> {
                let k = (bounty_id, applicant);
                &&& final(self)@ == (BountyState {
                    applications: old(self)@.applications.insert(
                        k,
                        Application { status: ApplicationStatus::Rejected, ..old(self)@.applications[k] },
                    ),
                    ..old(self)@
                })
                &&& final(rep)@ == old(rep)@.credit_restored(applicant)
                &&& final(env)@ == old(env)@.emit(Event::ApplicationRejected(ApplicationRejected { bounty_id, applicant }))
            },
    {
        let bounty = match self.bounties.get(&bounty_id) {
            Some(b) => b.snapshot(),
            None => return Err(Error::BountyNotFound),
        };
        if bounty.creator.id != creator.id {
            return Err(Error::NotCreator);
        }
        let mut app = match self.applications.get(&(bounty_id, applicant)) {
            Some(a) => a.snapshot(),
            None => return Err(Error::ApplicationNotFound),
        };
        if app.status != ApplicationStatus::Pending {
            return Err(Error::ApplicationNotPending);
        }
        if self.reputation_registry.is_none() {
            return Err(Error::NotInitialized);
        }
        match rep.restore_credit(self.address, applicant) {
            Ok(()) => {},
            Err(e) => return Err(Error::Reputation(e)),
        }
        app.status = ApplicationStatus::Rejected;
        self.applications.insert((bounty_id, applicant), app);
        env.emit(Event::ApplicationRejected(ApplicationRejected { bounty_id, applicant }));
        Ok(())
    }

    /// The creator edits an open bounty; a new deadline must lie in the future.
    pub fn update_bounty(
        &mut self,
        env: &Env,
        creator: Address,
        bounty_id: u64,
        title: Option<String>,
        metadata_cid: Option<String>,
        deadline: Option<u64>,
    ) -> (r: Result<(), Error>)
        ensures
            r == old(self)@.update_result(creator, bounty_id, deadline, env@.timestamp),
            r is Err ==> final(self)@ == old(self)@,
            r is Ok ==> {
                let b = old(self)@.bounties[bounty_id];
                final(self)@ == (BountyState {
                    bounties: old(self)@.bounties.insert(
                        bounty_id,
                        Bounty {
                            title: match title {
                                Some(t) => t,
                                None => b.title,
                            },
                            metadata_cid: match metadata_cid {
                                Some(m) => m,
                                None => b.metadata_cid,
                            },
                            deadline: match deadline {
                                Some(d) => d,
                                None => b.deadline,
                            },
                            ..b
                        },
                    ),
                    ..old(self)@
                })
            },
    {
        let mut bounty = match self.bounties.get(&bounty_id) {
            Some(b) => b.snapshot(),
            None => return Err(Error::BountyNotFound),
        };
        if bounty.creator.id != creator.id {
            return Err(Error::NotCreator);
        }
        if bounty.status != BountyStatus::Open {
            return Err(Error::BountyNotOpen);
        }
        match deadline {
            Some(d) => {
                if d <= env.timestamp {
                    return Err(Error::DeadlinePassed);
                }
                bounty.deadline = d;
            },
            None => {},
        }
        match title {
            Some(t) => {
                bounty.title = t;
            },
            None => {},
        }
        match metadata_cid {
            Some(m) => {
                bounty.metadata_cid = m;
            },
            None => {},
        }
        self.bounties.insert(bounty_id, bounty);
        Ok(())
    }
}

} // verus!
