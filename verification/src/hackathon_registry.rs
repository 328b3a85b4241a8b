//! Hackathons: registration, submission and judging, then prizes recorded at
//! finalization that winners claim from an escrow pool before a deadline, and
//! that the creator may sweep back once the deadline has passed.
use vstd::prelude::*;
use crate::core_escrow::{CoreEscrow, EscrowError, EscrowState, PoolLocked};
use crate::env::{Env, EnvState};
use crate::events::Event;
use crate::hash::pool_id_spec;
use crate::math::{calculate_fee_bps, fee_bps_spec, fits_i128};
use crate::reputation_registry::{
    hackathon_fits, hackathon_recorded, profile_rewritten, ContributorProfile, ReputationError, ReputationRegistry,
    ReputationState, ScoreUpdated,
};
use crate::table::{Snapshot, Table};
use crate::types::{Address, BytesN32, ModuleType};
use vstd::string::StringExecFns;

verus! {

#[derive(Clone, Copy, PartialEq, Eq, Structural, Debug)]
pub enum Error {
    AlreadyInitialized,
    NotInitialized,
    HackathonNotFound,
    InvalidPrizeTiers,
    InvalidDeadlines,
    RegistrationClosed,
    MaxParticipantsReached,
    AlreadyRegistered,
    NotRegistered,
    SubmissionClosed,
    AlreadySubmitted,
    SubmissionNotFound,
    JudgingNotActive,
    NotAJudge,
    AlreadyScored,
    InvalidScore,
    JudgingNotOver,
    NoSubmissions,
    NotCreator,
    NotAdmin,
    InvalidStatus,
    AlreadyJudge,
    JudgeNotFound,
    AlreadyDisqualified,
    HackathonNotCancellable,
    TrackNotFound,
    InvalidTrackStatus,
    /// The address holds no prize of the hackathon.
    NotAWinner,
    /// The prize was already claimed or swept back.
    AlreadyClaimed,
    /// The claim deadline of the prize has passed.
    ClaimWindowClosed,
    /// A prize is still within its claim window.
    ClaimWindowOpen,
    /// A claim window outside one day to one year.
    InvalidClaimWindow,
    /// The unclaimed prizes do not add up within `i128`.
    Overflow,
    /// A call into the escrow contract failed.
    Escrow(EscrowError),
    /// A call into the reputation registry failed.
    Reputation(ReputationError),
}

#[derive(Clone, Copy, PartialEq, Eq, Structural, Debug)]
pub enum HackathonStatus {
    Registration,
    Submission,
    Judging,
    Completed,
    Cancelled,
}

#[derive(Clone, PartialEq, Eq, Debug)]
pub struct Hackathon {
    pub id: u64,
    pub creator: Address,
    pub title: String,
    pub metadata_cid: String,
    pub status: HackathonStatus,
    pub prize_pool: i128,
    pub asset: Address,
    pub pool_id: BytesN32,
    pub registration_deadline: u64,
    pub submission_deadline: u64,
    pub judging_deadline: u64,
    pub judge_count: u32,
    pub submission_count: u32,
    pub max_participants: u32,
}

#[derive(Clone, PartialEq, Eq, Debug)]
pub struct Submission {
    pub team_lead: Address,
    pub metadata_cid: String,
    pub submitted_at: u64,
    pub total_score: u32,
    pub score_count: u32,
    pub disqualified: bool,
}

/// A prize recorded when a hackathon is finalized, which its winner pulls
/// with `claim_prize` until `claim_deadline`; after that the creator may sweep
/// it back with `reclaim_unclaimed_prizes`.
#[derive(Clone, Copy, PartialEq, Eq, Structural, Debug)]
pub struct WinnerRecord {
    pub hackathon_id: u64,
    pub rank: u32,
    pub winner: Address,
    pub amount: i128,
    pub claimed: bool,
    pub claimed_at: Option<u64>,
    pub claim_deadline: u64,
}

// ── Events ─────────────────────────────────────────────────────────────────

#[derive(Clone, Copy, PartialEq, Eq, Structural, Debug)]
pub struct HackathonCreated {
    pub id: u64,
    pub creator: Address,
}

#[derive(Clone, Copy, PartialEq, Eq, Structural, Debug)]
pub struct TeamRegistered {
    pub hackathon_id: u64,
    pub team_lead: Address,
}

#[derive(Clone, Copy, PartialEq, Eq, Structural, Debug)]
pub struct ProjectSubmitted {
    pub hackathon_id: u64,
    pub team_lead: Address,
}

#[derive(Clone, Copy, PartialEq, Eq, Structural, Debug)]
pub struct ScoreRecorded {
    pub hackathon_id: u64,
    pub judge: Address,
    pub team_lead: Address,
    pub score: u32,
}

#[derive(Clone, Copy, PartialEq, Eq, Structural, Debug)]
pub struct PrizesDistributed {
    pub hackathon_id: u64,
}

#[derive(Clone, Copy, PartialEq, Eq, Structural, Debug)]
pub struct HackathonCancelled {
    pub hackathon_id: u64,
}

/// Published by `finalize_hackathon`: the winner records are written and no funds move.
#[derive(Clone, Copy, PartialEq, Eq, Structural, Debug)]
pub struct HackathonFinalized {
    pub hackathon_id: u64,
    pub winner_count: u32,
}

/// Published by `claim_prize` when a winner pulls a prize.
#[derive(Clone, Copy, PartialEq, Eq, Structural, Debug)]
pub struct PrizeClaimed {
    pub hackathon_id: u64,
    pub winner: Address,
    pub rank: u32,
    pub amount: i128,
}

/// Published by `reclaim_unclaimed_prizes` when the creator sweeps back the
/// prizes left unclaimed past their deadline.
#[derive(Clone, Copy, PartialEq, Eq, Structural, Debug)]
pub struct UnclaimedPrizesReclaimed {
    pub hackathon_id: u64,
    pub total_amount: i128,
}

/// How long winners have to claim a prize unless the admin sets otherwise: 90 days.
pub const DEFAULT_CLAIM_WINDOW: u64 = 7_776_000;

/// The shortest claim window the admin may set: one day.
pub const MIN_CLAIM_WINDOW: u64 = 86_400;

/// The longest claim window the admin may set: 365 days.
pub const MAX_CLAIM_WINDOW: u64 = 31_536_000;


impl Snapshot for Hackathon {
    fn snapshot(&self) -> (r: Self) {
        Hackathon {
            id: self.id,
            creator: self.creator,
            title: self.title.clone(),
            metadata_cid: self.metadata_cid.clone(),
            status: self.status,
            prize_pool: self.prize_pool,
            asset: self.asset,
            pool_id: self.pool_id,
            registration_deadline: self.registration_deadline,
            submission_deadline: self.submission_deadline,
            judging_deadline: self.judging_deadline,
            judge_count: self.judge_count,
            submission_count: self.submission_count,
            max_participants: self.max_participants,
        }
    }
}

impl Snapshot for WinnerRecord {
    fn snapshot(&self) -> (r: Self) {
        *self
    }
}

impl Snapshot for Submission {
    fn snapshot(&self) -> (r: Self) {
        Submission {
            team_lead: self.team_lead,
            metadata_cid: self.metadata_cid.clone(),
            submitted_at: self.submitted_at,
            total_score: self.total_score,
            score_count: self.score_count,
            disqualified: self.disqualified,
        }
    }
}

/// The hackathon registry's storage.
pub struct HackathonRegistry {
    /// This contract's own address.
    pub address: Address,
    pub admin: Option<Address>,
    pub core_escrow: Option<Address>,
    pub reputation_registry: Option<Address>,
    pub hackathon_count: Option<u64>,
    pub hackathons: Table<u64, Hackathon>,
    pub judges: Table<(u64, Address), bool>,
    /// Per hackathon and position: its judges.
    pub judge_index: Table<(u64, u32), Address>,
    pub submissions: Table<(u64, Address), Submission>,
    /// Per hackathon and position: the registered team leads, in order.
    pub submission_index: Table<(u64, u32), Address>,
    /// Per hackathon, team lead and judge: the score given.
    pub judge_scores: Table<(u64, Address, Address), u32>,
    /// Per hackathon and rank: the share of the prize pool, in basis points.
    pub prize_tiers: Table<(u64, u32), u32>,
    /// Per hackathon and rank: the prize recorded at finalization.
    pub winners: Table<(u64, u32), WinnerRecord>,
    /// Per hackathon and winner: the rank of the winner's prize.
    pub winner_ranks: Table<(u64, Address), u32>,
    /// Per hackathon: the number of prizes recorded at finalization.
    pub winner_counts: Table<u64, u32>,
    /// How long winners have to claim, in seconds; the default where unset.
    pub claim_window: Option<u64>,
}

/// The mathematical content of the registry's storage.
pub ghost struct HackathonState {
    pub address: Address,
    pub admin: Option<Address>,
    pub core_escrow: Option<Address>,
    pub reputation_registry: Option<Address>,
    pub hackathon_count: Option<u64>,
    pub hackathons: Map<u64, Hackathon>,
    pub judges: Map<(u64, Address), bool>,
    pub judge_index: Map<(u64, u32), Address>,
    pub submissions: Map<(u64, Address), Submission>,
    pub submission_index: Map<(u64, u32), Address>,
    pub judge_scores: Map<(u64, Address, Address), u32>,
    pub prize_tiers: Map<(u64, u32), u32>,
    pub winners: Map<(u64, u32), WinnerRecord>,
    pub winner_ranks: Map<(u64, Address), u32>,
    pub winner_counts: Map<u64, u32>,
    pub claim_window: Option<u64>,
}

impl View for HackathonRegistry {
    type V = HackathonState;

    open spec fn view(&self) -> HackathonState {
        HackathonState {
            address: self.address,
            admin: self.admin,
            core_escrow: self.core_escrow,
            reputation_registry: self.reputation_registry,
            hackathon_count: self.hackathon_count,
            hackathons: self.hackathons@,
            judges: self.judges@,
            judge_index: self.judge_index@,
            submissions: self.submissions@,
            submission_index: self.submission_index@,
            judge_scores: self.judge_scores@,
            prize_tiers: self.prize_tiers@,
            winners: self.winners@,
            winner_ranks: self.winner_ranks@,
            winner_counts: self.winner_counts@,
            claim_window: self.claim_window,
        }
    }
}

/// The sum of the basis points of `s`.
pub open spec fn bps_total(s: Seq<u32>) -> int
    decreases s.len(),
{
    if s.len() == 0 {
        0
    } else {
        bps_total(s.drop_last()) + s.last()
    }
}

/// The prize tiers after the tiers `s` were written for hackathon `id`.
pub open spec fn tiers_written(m: Map<(u64, u32), u32>, id: u64, s: Seq<u32>) -> Map<(u64, u32), u32>
    decreases s.len(),
{
    if s.len() == 0 {
        m
    } else {
        tiers_written(m, id, s.drop_last()).insert((id, (s.len() - 1) as u32), s.last())
    }
}

proof fn lemma_bps_prefix(s: Seq<u32>, k: int)
    requires
        0 <= k <= s.len(),
    ensures
        0 <= bps_total(s.take(k)) <= bps_total(s),
        k < s.len() ==> bps_total(s.take(k + 1)) == bps_total(s.take(k)) + s[k],
    decreases s.len(),
{
    if k < s.len() {
        assert(s.take(k + 1).drop_last() =~= s.take(k));
        lemma_bps_prefix(s.drop_last(), k);
        assert(s.drop_last().take(k) =~= s.take(k));
        assert(s.drop_last().take(s.len() - 1) =~= s.drop_last());
        lemma_bps_prefix(s.drop_last(), s.len() - 1);
    } else {
        assert(s.take(k) =~= s);
        if s.len() > 0 {
            lemma_bps_prefix(s.drop_last(), s.len() - 1);
            assert(s.drop_last().take(s.len() - 1) =~= s.drop_last());
        }
    }
}

/// The position of the first entry of `ids` at or after `j` equal to `x`; `n` where none is.
pub open spec fn find_from(m: Map<(u64, u32), Address>, id: u64, x: Address, j: int, n: int) -> int
    decreases n - j,
{
    if j >= n {
        n
    } else if m[(id, j as u32)] == x {
        j
    } else {
        find_from(m, id, x, j + 1, n)
    }
}

impl HackathonState {
    /// The number of hackathons created so far.
    pub open spec fn count(self) -> u64 {
        match self.hackathon_count {
            Some(c) => c,
            None => 0,
        }
    }

    /// The storage with hackathon `id` replaced by `h`.
    pub open spec fn with_hackathon(self, id: u64, h: Hackathon) -> HackathonState {
        HackathonState { hackathons: self.hackathons.insert(id, h), ..self }
    }

    /// Whether positions `0..n` of the judge index of hackathon `id` are stored.
    pub open spec fn judges_indexed(self, id: u64, n: u32) -> bool {
        forall|i: int| 0 <= i < n ==> #[trigger] self.judge_index.contains_key((id, i as u32))
    }

    /// The judge index after `judge` was taken out of the first `n` positions of
    /// hackathon `id`: the last position fills the gap.
    pub open spec fn judge_unindexed(self, id: u64, judge: Address, n: u32) -> Map<(u64, u32), Address> {
        let last = (n - 1) as u32;
        let i = find_from(self.judge_index, id, judge, 0, n as int);
        if i >= n {
            self.judge_index
        } else if i != last {
            self.judge_index.insert((id, i as u32), self.judge_index[(id, last)]).remove((id, last))
        } else {
            self.judge_index.remove((id, last))
        }
    }

    /// What `create_hackathon` returns.
    pub open spec fn create_result(
        self,
        escrow: EscrowState,
        prize_pool: i128,
        registration_deadline: u64,
        submission_deadline: u64,
        judging_deadline: u64,
        tiers: Seq<u32>,
    ) -> Result<u64, Error> {
        let id = (self.count() + 1) as u64;
        if registration_deadline >= submission_deadline || submission_deadline >= judging_deadline {
            Err(Error::InvalidDeadlines)
        } else if bps_total(tiers) != 10000 {
            Err(Error::InvalidPrizeTiers)
        } else if self.core_escrow is None {
            Err(Error::NotInitialized)
        } else if prize_pool < 0 {
            Err(Error::Escrow(EscrowError::InvalidAmount))
        } else if escrow.has_pool_for(ModuleType::Hackathon, id) {
            Err(Error::Escrow(EscrowError::PoolAlreadyExists))
        } else {
            Ok(id)
        }
    }
}

impl HackathonRegistry {
    /// A hackathon registry at `address` with empty storage.
    pub fn new(address: Address) -> (c: HackathonRegistry)
        ensures
            c@ == (HackathonState {
                address,
                admin: None,
                core_escrow: None,
                reputation_registry: None,
                hackathon_count: None,
                hackathons: Map::empty(),
                judges: Map::empty(),
                judge_index: Map::empty(),
                submissions: Map::empty(),
                submission_index: Map::empty(),
                judge_scores: Map::empty(),
                prize_tiers: Map::empty(),
                winners: Map::empty(),
                winner_ranks: Map::empty(),
                winner_counts: Map::empty(),
                claim_window: None,
            }),
    {
        HackathonRegistry {
            address,
            admin: None,
            core_escrow: None,
            reputation_registry: None,
            hackathon_count: None,
            hackathons: Table::new(),
            judges: Table::new(),
            judge_index: Table::new(),
            submissions: Table::new(),
            submission_index: Table::new(),
            judge_scores: Table::new(),
            prize_tiers: Table::new(),
            winners: Table::new(),
            winner_ranks: Table::new(),
            winner_counts: Table::new(),
            claim_window: None,
        }
    }

    pub fn init(&mut self, admin: Address, core_escrow: Address, reputation_registry: Address) -> (r: Result<(), Error>)
        ensures
            old(self)@.admin is Some ==> r == Err::<(), _>(Error::AlreadyInitialized) && final(self)@ == old(self)@,
            old(self)@.admin is None ==> r is Ok && final(self)@ == (HackathonState {
                admin: Some(admin),
                core_escrow: Some(core_escrow),
                reputation_registry: Some(reputation_registry),
                hackathon_count: Some(0),
                ..old(self)@
            }),
    {
        if self.admin.is_some() {
            return Err(Error::AlreadyInitialized);
        }
        self.admin = Some(admin);
        self.core_escrow = Some(core_escrow);
        self.reputation_registry = Some(reputation_registry);
        self.hackathon_count = Some(0);
        Ok(())
    }

    pub fn get_hackathon(&self, id: u64) -> (r: Result<Hackathon, Error>)
        ensures
            r == if self@.hackathons.contains_key(id) {
                Ok(self@.hackathons[id])
            } else {
                Err(Error::HackathonNotFound)
            },
    {
        match self.hackathons.get(&id) {
            Some(h) => Ok(h.snapshot()),
            None => Err(Error::HackathonNotFound),
        }
    }

    pub fn get_submission(&self, hackathon_id: u64, team_lead: Address) -> (r: Result<Submission, Error>)
        ensures
            r == if self@.submissions.contains_key((hackathon_id, team_lead)) {
                Ok(self@.submissions[(hackathon_id, team_lead)])
            } else {
                Err(Error::SubmissionNotFound)
            },
    {
        match self.submissions.get(&(hackathon_id, team_lead)) {
            Some(x) => Ok(x.snapshot()),
            None => Err(Error::SubmissionNotFound),
        }
    }

    /// Checks that an upgrade may proceed: the contract must be initialised.
    pub fn upgrade(&self, new_wasm_hash: BytesN32) -> (r: Result<(), Error>)
        ensures
            r == if self@.admin is Some {
                Ok::<(), Error>(())
            } else {
                Err(Error::NotInitialized)
            },
    {
        if self.admin.is_none() {
            return Err(Error::NotInitialized);
        }
        Ok(())
    }

    /// Creates a hackathon whose prize pool the creator funds into a locked
    /// escrow pool; `prize_tiers` give the shares of the ranks, in basis points.
    pub fn create_hackathon(
        &mut self,
        env: &mut Env,
        escrow: &mut CoreEscrow,
        creator: Address,
        title: String,
        metadata_cid: String,
        prize_pool: i128,
        asset: Address,
        registration_deadline: u64,
        submission_deadline: u64,
        judging_deadline: u64,
        max_participants: u32,
        prize_tiers: Vec<u32>,
    ) -> (r: Result<u64, Error>)
        requires
            old(self)@.count() < u64::MAX,
            bps_total(prize_tiers@) <= u32::MAX,
            prize_tiers@.len() <= u32::MAX,
            old(self)@.core_escrow matches Some(a) ==> old(escrow)@.address == a,
        ensures
            r == old(self)@.create_result(
                old(escrow)@,
                prize_pool,
                registration_deadline,
                submission_deadline,
                judging_deadline,
                prize_tiers@,
            ),
            r is Err ==> final(self)@ == old(self)@ && final(escrow)@ == old(escrow)@ && final(env)@ == old(env)@,
            r matches Ok(id) ==> {
                let pid = final(self)@.hackathons[id].pool_id;
                &&& pid.bytes@ == pool_id_spec(ModuleType::Hackathon, id)
                &&& final(self)@ == (HackathonState {
                    hackathon_count: Some(id),
                    hackathons: old(self)@.hackathons.insert(
                        id,
                        Hackathon {
                            id,
                            creator,
                            title,
                            metadata_cid,
                            status: HackathonStatus::Registration,
                            prize_pool,
                            asset,
                            pool_id: pid,
                            registration_deadline,
                            submission_deadline,
                            judging_deadline,
                            judge_count: 0,
                            submission_count: 0,
                            max_participants,
                        },
                    ),
                    prize_tiers: tiers_written(old(self)@.prize_tiers, id, prize_tiers@),
                    ..old(self)@
                })
                &&& final(escrow)@ == old(escrow)@.pool_created(
                    pid, creator, ModuleType::Hackathon, prize_pool, asset, judging_deadline, old(self)@.address,
                    old(env)@.timestamp,
                ).pool_locked(pid)
                &&& final(env)@ == old(escrow)@.create_pool_env(
                    old(env)@, pid, creator, ModuleType::Hackathon, prize_pool, asset,
                ).emit(Event::PoolLocked(PoolLocked { pool_id: pid })).emit(
                    Event::HackathonCreated(HackathonCreated { id, creator }),
                )
            },
    {
        if registration_deadline >= submission_deadline || submission_deadline >= judging_deadline {
            return Err(Error::InvalidDeadlines);
        }
        let n = prize_tiers.len();
        let mut total: u32 = 0;
        let mut i: usize = 0;
        while i < n
            invariant
                n == prize_tiers@.len(),
                i <= n,
                bps_total(prize_tiers@) <= u32::MAX,
                total == bps_total(prize_tiers@.take(i as int)),
            decreases n - i,
        {
            proof {
                lemma_bps_prefix(prize_tiers@, i as int);
                lemma_bps_prefix(prize_tiers@, i + 1);
            }
            total = total + prize_tiers[i];
            i = i + 1;
        }
        assert(prize_tiers@.take(n as int) =~= prize_tiers@);
        if total != 10000 {
            return Err(Error::InvalidPrizeTiers);
        }
        let id = match self.hackathon_count {
            Some(c) => c,
            None => 0,
        } + 1;
        if self.core_escrow.is_none() {
            return Err(Error::NotInitialized);
        }
        let pool_id = match escrow.create_pool(
            env,
            creator,
            ModuleType::Hackathon,
            id,
            prize_pool,
            asset,
            judging_deadline,
            self.address,
        ) {
            Ok(p) => p,
            Err(e) => return Err(Error::Escrow(e)),
        };
        let locked = escrow.lock_pool(env, pool_id);
        assert(locked is Ok);
        let ghost s0 = self@;
        let mut k: usize = 0;
        while k < n
            invariant
                n == prize_tiers@.len(),
                n <= u32::MAX,
                k <= n,
                self@ == (HackathonState {
                    prize_tiers: tiers_written(s0.prize_tiers, id, prize_tiers@.take(k as int)),
                    ..s0
                }),
            decreases n - k,
        {
            proof {
                assert(prize_tiers@.take(k + 1).drop_last() =~= prize_tiers@.take(k as int));
            }
            self.prize_tiers.insert((id, k as u32), prize_tiers[k]);
            k = k + 1;
        }
        assert(prize_tiers@.take(n as int) =~= prize_tiers@);
        let h = Hackathon {
            id,
            creator,
            title,
            metadata_cid,
            status: HackathonStatus::Registration,
            prize_pool,
            asset,
            pool_id,
            registration_deadline,
            submission_deadline,
            judging_deadline,
            judge_count: 0,
            submission_count: 0,
            max_participants,
        };
        self.hackathon_count = Some(id);
        self.hackathons.insert(id, h);
        env.emit(Event::HackathonCreated(HackathonCreated { id, creator }));
        Ok(id)
    }

    /// The creator adds a judge.
    pub fn add_judge(&mut self, hackathon_id: u64, judge: Address) -> (r: Result<(), Error>)
        requires
            old(self)@.hackathons.contains_key(hackathon_id) ==> old(self)@.hackathons[hackathon_id].judge_count
                < u32::MAX,
        ensures
            ({
                let h = old(self)@.hackathons[hackathon_id];
                &&& r == if !old(self)@.hackathons.contains_key(hackathon_id) {
                    Err(Error::HackathonNotFound)
                } else if old(self)@.judges.contains_key((hackathon_id, judge)) {
                    Err(Error::AlreadyJudge)
                } else {
                    Ok(())
                }
                &&& r is Err ==> final(self)@ == old(self)@
                &&& r is Ok ==> final(self)@ == (HackathonState {
                    judges: old(self)@.judges.insert((hackathon_id, judge), true),
                    judge_index: old(self)@.judge_index.insert((hackathon_id, h.judge_count), judge),
                    ..old(self)@.with_hackathon(hackathon_id, Hackathon { judge_count: (h.judge_count + 1) as u32, ..h })
                })
            }),
    {
        let mut h = match self.hackathons.get(&hackathon_id) {
            Some(h) => h.snapshot(),
            None => return Err(Error::HackathonNotFound),
        };
        if self.judges.contains_key(&(hackathon_id, judge)) {
            return Err(Error::AlreadyJudge);
        }
        self.judges.insert((hackathon_id, judge), true);
        self.judge_index.insert((hackathon_id, h.judge_count), judge);
        h.judge_count = h.judge_count + 1;
        self.hackathons.insert(hackathon_id, h);
        Ok(())
    }

    /// The creator removes a judge; the last judge in the index takes its place.
    pub fn remove_judge(&mut self, hackathon_id: u64, judge: Address) -> (r: Result<(), Error>)
        requires
            old(self)@.hackathons.contains_key(hackathon_id) && old(self)@.judges.contains_key((hackathon_id, judge))
                ==> old(self)@.hackathons[hackathon_id].judge_count > 0 && old(self)@.judges_indexed(
                hackathon_id,
                old(self)@.hackathons[hackathon_id].judge_count,
            ),
        ensures
            ({
                let h = old(self)@.hackathons[hackathon_id];
                &&& r == if !old(self)@.hackathons.contains_key(hackathon_id) {
                    Err(Error::HackathonNotFound)
                } else if !old(self)@.judges.contains_key((hackathon_id, judge)) {
                    Err(Error::JudgeNotFound)
                } else {
                    Ok(())
                }
                &&& r is Err ==> final(self)@ == old(self)@
                &&& r is Ok ==> final(self)@ == (HackathonState {
                    judges: old(self)@.judges.remove((hackathon_id, judge)),
                    judge_index: old(self)@.judge_unindexed(hackathon_id, judge, h.judge_count),
                    ..old(self)@.with_hackathon(hackathon_id, Hackathon { judge_count: (h.judge_count - 1) as u32, ..h })
                })
            }),
    {
        let mut h = match self.hackathons.get(&hackathon_id) {
            Some(h) => h.snapshot(),
            None => return Err(Error::HackathonNotFound),
        };
        if !self.judges.contains_key(&(hackathon_id, judge)) {
            return Err(Error::JudgeNotFound);
        }
        let n = h.judge_count;
        let last = n - 1;
        let mut found = n;
        let mut i: u32 = 0;
        while i < n
            invariant
                i <= n,
                n == h.judge_count,
                n > 0,
                self@ == old(self)@,
                old(self)@.judges_indexed(hackathon_id, n),
                found == n ==> find_from(self@.judge_index, hackathon_id, judge, 0, n as int) == find_from(
                    self@.judge_index,
                    hackathon_id,
                    judge,
                    i as int,
                    n as int,
                ),
                found < n ==> found == find_from(self@.judge_index, hackathon_id, judge, 0, n as int),
                found == n || found < i,
            decreases n - i,
        {
            if found == n {
                let indexed = match self.judge_index.get(&(hackathon_id, i)) {
                    Some(a) => *a,
                    None => {
                        assert(self@.judge_index.contains_key((hackathon_id, (i as int) as u32)));
                        return Err(Error::JudgeNotFound);
                    },
                };
                if indexed.id == judge.id {
                    found = i;
                }
            }
            i = i + 1;
        }
        if found < n {
            if found != last {
                let moved = match self.judge_index.get(&(hackathon_id, last)) {
                    Some(a) => *a,
                    None => {
                        assert(self@.judge_index.contains_key((hackathon_id, (last as int) as u32)));
                        return Err(Error::JudgeNotFound);
                    },
                };
                self.judge_index.insert((hackathon_id, found), moved);
            }
            self.judge_index.remove(&(hackathon_id, last));
        }
        self.judges.remove(&(hackathon_id, judge));
        h.judge_count = n - 1;
        self.hackathons.insert(hackathon_id, h);
        Ok(())
    }

    /// A team lead registers for a hackathon that is still open for registration.
    pub fn register_team(&mut self, env: &mut Env, hackathon_id: u64, team_lead: Address) -> (r: Result<(), Error>)
        requires
            old(self)@.hackathons.contains_key(hackathon_id) ==> old(self)@.hackathons[hackathon_id].submission_count
                < u32::MAX,
        ensures
            ({
                let h = old(self)@.hackathons[hackathon_id];
                let k = (hackathon_id, team_lead);
                &&& r == if !old(self)@.hackathons.contains_key(hackathon_id) {
                    Err(Error::HackathonNotFound)
                } else if old(env)@.timestamp > h.registration_deadline {
                    Err(Error::RegistrationClosed)
                } else if old(self)@.submissions.contains_key(k) {
                    Err(Error::AlreadyRegistered)
                } else if h.submission_count >= h.max_participants {
                    Err(Error::MaxParticipantsReached)
                } else {
                    Ok(())
                }
                &&& r is Err ==> final(self)@ == old(self)@ && final(env)@ == old(env)@
                &&& r is Ok ==> {
                    let sub = final(self)@.submissions[k];
                    &&& sub.metadata_cid@ == Seq::<char>::empty()
                    &&& final(self)@ == (HackathonState {
                        submissions: old(self)@.submissions.insert(
                            k,
                            Submission {
                                team_lead,
                                metadata_cid: sub.metadata_cid,
                                submitted_at: 0,
                                total_score: 0,
                                score_count: 0,
                                disqualified: false,
                            },
                        ),
                        submission_index: old(self)@.submission_index.insert((hackathon_id, h.submission_count), team_lead),
                        ..old(self)@.with_hackathon(
                            hackathon_id,
                            Hackathon { submission_count: (h.submission_count + 1) as u32, ..h },
                        )
                    })
                    &&& final(env)@ == old(env)@.emit(Event::TeamRegistered(TeamRegistered { hackathon_id, team_lead }))
                }
            }),
    {
        let mut h = match self.hackathons.get(&hackathon_id) {
            Some(h) => h.snapshot(),
            None => return Err(Error::HackathonNotFound),
        };
        if env.timestamp > h.registration_deadline {
            return Err(Error::RegistrationClosed);
        }
        if self.submissions.contains_key(&(hackathon_id, team_lead)) {
            return Err(Error::AlreadyRegistered);
        }
        if h.submission_count >= h.max_participants {
            return Err(Error::MaxParticipantsReached);
        }
        let cid = String::from_str("");
        proof {
            reveal_strlit("");
        }
        let sub = Submission {
            team_lead,
            metadata_cid: cid,
            submitted_at: 0,
            total_score: 0,
            score_count: 0,
            disqualified: false,
        };
        self.submissions.insert((hackathon_id, team_lead), sub);
        self.submission_index.insert((hackathon_id, h.submission_count), team_lead);
        h.submission_count = h.submission_count + 1;
        self.hackathons.insert(hackathon_id, h);
        env.emit(Event::TeamRegistered(TeamRegistered { hackathon_id, team_lead }));
        Ok(())
    }

    /// A registered team hands in its project before the submission deadline.
    pub fn submit_project(&mut self, env: &mut Env, hackathon_id: u64, team_lead: Address, metadata_cid: String) -> (r: Result<(), Error>)
        ensures
            ({
                let h = old(self)@.hackathons[hackathon_id];
                let k = (hackathon_id, team_lead);
                &&& r == if !old(self)@.hackathons.contains_key(hackathon_id) {
                    Err(Error::HackathonNotFound)
                } else if old(env)@.timestamp > h.submission_deadline {
                    Err(Error::SubmissionClosed)
                } else if !old(self)@.submissions.contains_key(k) {
                    Err(Error::NotRegistered)
                } else if old(self)@.submissions[k].submitted_at > 0 {
                    Err(Error::AlreadySubmitted)
                } else {
                    Ok(())
                }
                &&& r is Err ==> final(self)@ == old(self)@ && final(env)@ == old(env)@
                &&& r is Ok ==> final(self)@ == (HackathonState {
                    submissions: old(self)@.submissions.insert(
                        k,
                        Submission { metadata_cid, submitted_at: old(env)@.timestamp, ..old(self)@.submissions[k] },
                    ),
                    ..old(self)@
                }) && final(env)@ == old(env)@.emit(Event::ProjectSubmitted(ProjectSubmitted { hackathon_id, team_lead }))
            }),
    {
        let h = match self.hackathons.get(&hackathon_id) {
            Some(h) => h.snapshot(),
            None => return Err(Error::HackathonNotFound),
        };
        if env.timestamp > h.submission_deadline {
            return Err(Error::SubmissionClosed);
        }
        let mut sub = match self.submissions.get(&(hackathon_id, team_lead)) {
            Some(x) => x.snapshot(),
            None => return Err(Error::NotRegistered),
        };
        if sub.submitted_at > 0 {
            return Err(Error::AlreadySubmitted);
        }
        sub.metadata_cid = metadata_cid;
        sub.submitted_at = env.timestamp;
        self.submissions.insert((hackathon_id, team_lead), sub);
        env.emit(Event::ProjectSubmitted(ProjectSubmitted { hackathon_id, team_lead }));
        Ok(())
    }

    /// A judge scores a submission, once, between the submission and judging deadlines.
    pub fn score_submission(
        &mut self,
        env: &mut Env,
        hackathon_id: u64,
        judge: Address,
        team_lead: Address,
        score: u32,
    ) -> (r: Result<(), Error>)
        requires
            old(self)@.submissions.contains_key((hackathon_id, team_lead)) ==> old(self)@.submissions[(
                hackathon_id,
                team_lead,
            )].total_score + 100 <= u32::MAX && old(self)@.submissions[(hackathon_id, team_lead)].score_count
                < u32::MAX,
        ensures
            ({
                let h = old(self)@.hackathons[hackathon_id];
                let k = (hackathon_id, team_lead);
                let now = old(env)@.timestamp;
                let sub = old(self)@.submissions[k];
                &&& r == if !old(self)@.hackathons.contains_key(hackathon_id) {
                    Err(Error::HackathonNotFound)
                } else if now <= h.submission_deadline || now > h.judging_deadline {
                    Err(Error::JudgingNotActive)
                } else if score > 100 {
                    Err(Error::InvalidScore)
                } else if !old(self)@.judges.contains_key((hackathon_id, judge)) {
                    Err(Error::NotAJudge)
                } else if !old(self)@.submissions.contains_key(k) {
                    Err(Error::SubmissionNotFound)
                } else if old(self)@.judge_scores.contains_key((hackathon_id, team_lead, judge)) {
                    Err(Error::AlreadyScored)
                } else {
                    Ok(())
                }
                &&& r is Err ==> final(self)@ == old(self)@ && final(env)@ == old(env)@
                &&& r is Ok ==> final(self)@ == (HackathonState {
                    judge_scores: old(self)@.judge_scores.insert((hackathon_id, team_lead, judge), score),
                    submissions: old(self)@.submissions.insert(
                        k,
                        Submission {
                            total_score: (sub.total_score + score) as u32,
                            score_count: (sub.score_count + 1) as u32,
                            ..sub
                        },
                    ),
                    ..old(self)@
                }) && final(env)@ == old(env)@.emit(
                    Event::ScoreRecorded(ScoreRecorded { hackathon_id, judge, team_lead, score }),
                )
            }),
    {
        let h = match self.hackathons.get(&hackathon_id) {
            Some(h) => h.snapshot(),
            None => return Err(Error::HackathonNotFound),
        };
        if env.timestamp <= h.submission_deadline {
            return Err(Error::JudgingNotActive);
        }
        if env.timestamp > h.judging_deadline {
            return Err(Error::JudgingNotActive);
        }
        if score > 100 {
            return Err(Error::InvalidScore);
        }
        if !self.judges.contains_key(&(hackathon_id, judge)) {
            return Err(Error::NotAJudge);
        }
        let mut sub = match self.submissions.get(&(hackathon_id, team_lead)) {
            Some(x) => x.snapshot(),
            None => return Err(Error::SubmissionNotFound),
        };
        if self.judge_scores.contains_key(&(hackathon_id, team_lead, judge)) {
            return Err(Error::AlreadyScored);
        }
        self.judge_scores.insert((hackathon_id, team_lead, judge), score);
        sub.total_score = sub.total_score + score;
        sub.score_count = sub.score_count + 1;
        self.submissions.insert((hackathon_id, team_lead), sub);
        env.emit(Event::ScoreRecorded(ScoreRecorded { hackathon_id, judge, team_lead, score }));
        Ok(())
    }

    /// The admin disqualifies a submission.
    pub fn disqualify_submission(&mut self, hackathon_id: u64, team_lead: Address) -> (r: Result<(), Error>)
        ensures
            ({
                let k = (hackathon_id, team_lead);
                &&& r == if old(self)@.admin is None {
                    Err(Error::NotInitialized)
                } else if !old(self)@.submissions.contains_key(k) {
                    Err(Error::SubmissionNotFound)
                } else if old(self)@.submissions[k].disqualified {
                    Err(Error::AlreadyDisqualified)
                } else {
                    Ok(())
                }
                &&& r is Err ==> final(self)@ == old(self)@
                &&& r is Ok ==> final(self)@ == (HackathonState {
                    submissions: old(self)@.submissions.insert(
                        k,
                        Submission { disqualified: true, ..old(self)@.submissions[k] },
                    ),
                    ..old(self)@
                })
            }),
    {
        if self.admin.is_none() {
            return Err(Error::NotInitialized);
        }
        let mut sub = match self.submissions.get(&(hackathon_id, team_lead)) {
            Some(x) => x.snapshot(),
            None => return Err(Error::SubmissionNotFound),
        };
        if sub.disqualified {
            return Err(Error::AlreadyDisqualified);
        }
        sub.disqualified = true;
        self.submissions.insert((hackathon_id, team_lead), sub);
        Ok(())
    }

    /// The admin cancels a hackathon that has not ended; the prize pool goes back to the creator.
    pub fn cancel_hackathon(&mut self, env: &mut Env, escrow: &mut CoreEscrow, hackathon_id: u64) -> (r: Result<(), Error>)
        requires
            old(self)@.core_escrow matches Some(a) ==> old(escrow)@.address == a,
        ensures
            ({
                let h = old(self)@.hackathons[hackathon_id];
                &&& r == if old(self)@.admin is None {
                    Err(Error::NotInitialized)
                } else if !old(self)@.hackathons.contains_key(hackathon_id) {
                    Err(Error::HackathonNotFound)
                } else if h.status == HackathonStatus::Completed || h.status == HackathonStatus::Cancelled {
                    Err(Error::HackathonNotCancellable)
                } else if old(self)@.core_escrow is None {
                    Err(Error::NotInitialized)
                } else {
                    match old(escrow)@.refund_all_result(h.pool_id) {
                        Err(e) => Err(Error::Escrow(e)),
                        Ok(_) => Ok(()),
                    }
                }
                &&& r is Err ==> final(self)@ == old(self)@ && final(escrow)@ == old(escrow)@ && final(env)@ == old(env)@
                &&& r is Ok ==> final(self)@ == old(self)@.with_hackathon(
                    hackathon_id,
                    Hackathon { status: HackathonStatus::Cancelled, ..h },
                ) && final(escrow)@ == old(escrow)@.refunded_all(h.pool_id) && final(env)@ == old(
                    escrow,
                )@.refund_all_env(old(env)@, h.pool_id).emit(Event::HackathonCancelled(HackathonCancelled { hackathon_id }))
            }),
    {
        if self.admin.is_none() {
            return Err(Error::NotInitialized);
        }
        let mut h = match self.hackathons.get(&hackathon_id) {
            Some(h) => h.snapshot(),
            None => return Err(Error::HackathonNotFound),
        };
        if h.status == HackathonStatus::Completed || h.status == HackathonStatus::Cancelled {
            return Err(Error::HackathonNotCancellable);
        }
        if self.core_escrow.is_none() {
            return Err(Error::NotInitialized);
        }
        match escrow.refund_all(env, h.pool_id) {
            Ok(()) => {},
            Err(e) => return Err(Error::Escrow(e)),
        }
        h.status = HackathonStatus::Cancelled;
        self.hackathons.insert(hackathon_id, h);
        env.emit(Event::HackathonCancelled(HackathonCancelled { hackathon_id }));
        Ok(())
    }
}


// ── Ranking and prizes ──────────────────────────────────────────────────────

/// The average score of a submission, rounded down; zero before any score.
pub open spec fn average(sub: Submission) -> u32 {
    if sub.score_count > 0 {
        (sub.total_score / sub.score_count) as u32
    } else {
        0
    }
}

/// Where a score `v` enters a ranking: before the first entry, at or after `j`, that it beats.
pub open spec fn insert_pos(list: Seq<(Address, u32)>, v: u32, j: int) -> int
    decreases list.len() - j,
{
    if j >= list.len() {
        list.len() as int
    } else if v > list[j].1 {
        j
    } else {
        insert_pos(list, v, j + 1)
    }
}

/// `list` with `e` entered by score: after every entry it does not beat.
pub open spec fn ranked_insert(list: Seq<(Address, u32)>, e: (Address, u32)) -> Seq<(Address, u32)> {
    list.insert(insert_pos(list, e.1, 0), e)
}

/// The number of consecutive prize tiers of hackathon `id` from rank `t` on.
pub open spec fn count_tiers(m: Map<(u64, u32), u32>, id: u64, t: nat) -> nat
    decreases u32::MAX - t,
{
    if t >= u32::MAX || !m.contains_key((id, t as u32)) {
        t
    } else {
        count_tiers(m, id, t + 1)
    }
}

/// The points a rank earns: 100 for the winner, 50 for the second, 25 after.
pub open spec fn points_for(rank: int) -> u32 {
    if rank == 0 {
        100
    } else if rank == 1 {
        50
    } else {
        25
    }
}

/// A prize: the team lead, the amount, the points and whether it is the win.
pub type Prize = (Address, i128, u32, bool);

/// `after` is `mid` with the hackathon result of prize `e` recorded.
pub open spec fn prize_step(mid: ReputationState, after: ReputationState, e: Prize, now: u64) -> bool {
    profile_rewritten(mid, after, e.0, now, |p: ContributorProfile| hackathon_recorded(p, e.2, e.3))
}

/// `states` are the reputation storages before and after recording each prize of `prizes`.
pub open spec fn prize_chain(states: Seq<ReputationState>, prizes: Seq<Prize>, now: u64) -> bool {
    &&& states.len() == prizes.len() + 1
    &&& forall|i: int| 0 <= i < prizes.len() ==> #[trigger] prize_step(states[i], states[i + 1], prizes[i], now)
}

/// The context after the results of `prizes` were recorded, with `states` the
/// reputation storages along the way: one score update per prize.
pub open spec fn results_env(e: EnvState, prizes: Seq<Prize>, states: Seq<ReputationState>) -> EnvState
    decreases prizes.len(),
{
    if prizes.len() == 0 {
        e
    } else {
        let k = prizes.len() - 1;
        let x = prizes.last();
        let p = states[k + 1].profiles[x.0];
        results_env(e, prizes.drop_last(), states).emit(
            Event::ScoreUpdated(ScoreUpdated { contributor: x.0, overall_score: p.overall_score, level: p.level }),
        )
    }
}

/// The reputation storage and context after the result of each prize of `prizes` was recorded, in order.
pub open spec fn results_recorded(
    prizes: Seq<Prize>,
    rep: ReputationState,
    rep_after: ReputationState,
    e: EnvState,
    e_after: EnvState,
) -> bool {
    exists|states: Seq<ReputationState>|
        #[trigger] prize_chain(states, prizes, e.timestamp) && states[0] == rep && states.last() == rep_after
            && e_after == results_env(e, prizes, states)
}

/// What recording the results of `prizes` returns: it fails only where the
/// registry `module` may not record results.
pub open spec fn results_result(rep: ReputationState, module: Address, prizes: Seq<Prize>) -> Result<(), Error> {
    if prizes.len() > 0 && !rep.authorized(module) {
        Err(Error::Reputation(ReputationError::ModuleNotAuthorized))
    } else {
        Ok(())
    }
}

/// Whether profile `p` can record `n` more hackathon results.
pub open spec fn result_room(p: ContributorProfile, n: int) -> bool {
    &&& p.overall_score + 100 * n <= u32::MAX
    &&& p.hackathons_entered + n <= u32::MAX
    &&& p.hackathons_won + n <= u32::MAX
}

/// Whether the stored profile of `a`, if any, can record `n` more hackathon results.
pub open spec fn result_room_at(rep: ReputationState, a: Address, n: int) -> bool {
    rep.profiles.contains_key(a) ==> result_room(rep.profiles[a], n)
}

/// Whether recording every prize of `prizes` stays within range: the profile
/// of each winner has room for as many results as there are prizes.
pub open spec fn prizes_fit(rep: ReputationState, prizes: Seq<Prize>) -> bool {
    &&& 100 * prizes.len() <= u32::MAX
    &&& forall|i: int| 0 <= i < prizes.len() ==> #[trigger] prizes[i].2 <= 100
    &&& forall|i: int| 0 <= i < prizes.len() ==> #[trigger] result_room_at(rep, prizes[i].0, prizes.len() as int)
}

/// The claim deadline of prizes recorded at `now` with a claim window of
/// `window` seconds; the latest time where that sum overflows.
pub open spec fn claim_deadline_at(now: u64, window: u64) -> u64 {
    if now + window <= u64::MAX {
        (now + window) as u64
    } else {
        u64::MAX
    }
}

/// The winner record of prize `x` at `rank` of hackathon `id`.
pub open spec fn winner_record(id: u64, rank: int, x: Prize, deadline: u64) -> WinnerRecord {
    WinnerRecord {
        hackathon_id: id,
        rank: rank as u32,
        winner: x.0,
        amount: x.1,
        claimed: false,
        claimed_at: None,
        claim_deadline: deadline,
    }
}

/// The winner records after those of `prizes`, by rank, were written for hackathon `id`.
pub open spec fn winners_written(
    m: Map<(u64, u32), WinnerRecord>,
    id: u64,
    prizes: Seq<Prize>,
    deadline: u64,
) -> Map<(u64, u32), WinnerRecord>
    decreases prizes.len(),
{
    if prizes.len() == 0 {
        m
    } else {
        winners_written(m, id, prizes.drop_last(), deadline).insert(
            (id, (prizes.len() - 1) as u32),
            winner_record(id, prizes.len() - 1, prizes.last(), deadline),
        )
    }
}

/// The ranks of the winners after those of `prizes` were written for hackathon `id`.
pub open spec fn ranks_written(m: Map<(u64, Address), u32>, id: u64, prizes: Seq<Prize>) -> Map<(u64, Address), u32>
    decreases prizes.len(),
{
    if prizes.len() == 0 {
        m
    } else {
        ranks_written(m, id, prizes.drop_last()).insert((id, prizes.last().0), (prizes.len() - 1) as u32)
    }
}

/// Whether the prize of rank `r` of hackathon `id` is recorded and neither claimed nor swept back.
pub open spec fn pending(w: Map<(u64, u32), WinnerRecord>, id: u64, r: int) -> bool {
    w.contains_key((id, r as u32)) && !w[(id, r as u32)].claimed
}

/// The total of the pending prizes among ranks `0..k` of hackathon `id`.
pub open spec fn unclaimed_total(w: Map<(u64, u32), WinnerRecord>, id: u64, k: nat) -> int
    decreases k,
{
    if k == 0 {
        0
    } else {
        unclaimed_total(w, id, (k - 1) as nat) + if pending(w, id, k - 1) {
            w[(id, (k - 1) as u32)].amount as int
        } else {
            0
        }
    }
}

/// Whether every running total of the pending prizes among ranks `0..k` stays within `i128`.
pub open spec fn unclaimed_fit(w: Map<(u64, u32), WinnerRecord>, id: u64, k: nat) -> bool
    decreases k,
{
    k == 0 || (unclaimed_fit(w, id, (k - 1) as nat) && fits_i128(unclaimed_total(w, id, k)))
}

/// Whether a pending prize among ranks `0..k` can still be claimed at `now`.
pub open spec fn claim_open(w: Map<(u64, u32), WinnerRecord>, id: u64, k: int, now: u64) -> bool {
    exists|r: int| 0 <= r < k && #[trigger] pending(w, id, r) && now <= w[(id, r as u32)].claim_deadline
}

/// The winner records after every pending prize among ranks `0..k` was swept back.
pub open spec fn swept(w: Map<(u64, u32), WinnerRecord>, id: u64, k: nat) -> Map<(u64, u32), WinnerRecord>
    decreases k,
{
    if k == 0 {
        w
    } else {
        let m = swept(w, id, (k - 1) as nat);
        if pending(w, id, k - 1) {
            m.insert((id, (k - 1) as u32), WinnerRecord { claimed: true, ..w[(id, (k - 1) as u32)] })
        } else {
            m
        }
    }
}

proof fn lemma_count_tiers(m: Map<(u64, u32), u32>, id: u64, t: nat, j: nat)
    requires
        t <= j < count_tiers(m, id, t),
    ensures
        m.contains_key((id, j as u32)),
    decreases u32::MAX - t,
{
    if t < j {
        lemma_count_tiers(m, id, t + 1, j);
    }
}

proof fn lemma_results_env_states(e: EnvState, prizes: Seq<Prize>, s1: Seq<ReputationState>, s2: Seq<ReputationState>)
    requires
        s1.len() >= prizes.len() + 1,
        s2.len() >= prizes.len() + 1,
        forall|i: int| 0 <= i <= prizes.len() ==> #[trigger] s1[i] == s2[i],
    ensures
        results_env(e, prizes, s1) == results_env(e, prizes, s2),
    decreases prizes.len(),
{
    if prizes.len() > 0 {
        lemma_results_env_states(e, prizes.drop_last(), s1, s2);
        assert(s1[prizes.len() as int] == s2[prizes.len() as int]);
    }
}

proof fn lemma_results_none(rep: ReputationState, e: EnvState)
    ensures
        results_recorded(Seq::empty(), rep, rep, e, e),
{
    assert(prize_chain(seq![rep], Seq::empty(), e.timestamp));
}

proof fn lemma_result_step(
    before: ReputationState,
    mid: ReputationState,
    after: ReputationState,
    prizes: Seq<Prize>,
    e: EnvState,
    e_mid: EnvState,
    e_after: EnvState,
)
    requires
        prizes.len() > 0,
        results_recorded(prizes.drop_last(), before, mid, e, e_mid),
        prize_step(mid, after, prizes.last(), e.timestamp),
        e_after == e_mid.emit(
            Event::ScoreUpdated(
                ScoreUpdated {
                    contributor: prizes.last().0,
                    overall_score: after.profiles[prizes.last().0].overall_score,
                    level: after.profiles[prizes.last().0].level,
                },
            ),
        ),
    ensures
        results_recorded(prizes, before, after, e, e_after),
{
    let states = choose|states: Seq<ReputationState>|
        #[trigger] prize_chain(states, prizes.drop_last(), e.timestamp) && states[0] == before && states.last() == mid
            && e_mid == results_env(e, prizes.drop_last(), states);
    let next = states.push(after);
    assert forall|i: int| 0 <= i < prizes.len() implies #[trigger] prize_step(next[i], next[i + 1], prizes[i], e.timestamp) by {
        if i < prizes.len() - 1 {
            assert(prize_step(states[i], states[i + 1], prizes.drop_last()[i], e.timestamp));
        }
    }
    assert(prize_chain(next, prizes, e.timestamp));
    assert(results_env(e, prizes.drop_last(), next) == results_env(e, prizes.drop_last(), states)) by {
        lemma_results_env_states(e, prizes.drop_last(), states, next);
    }
}

proof fn lemma_room_after_result(mid: ReputationState, after: ReputationState, e: Prize, now: u64, a: Address, n: int)
    requires
        prize_step(mid, after, e, now),
        n >= 1,
        100 * n <= u32::MAX,
        e.2 <= 100,
        result_room_at(mid, a, n),
        result_room_at(mid, e.0, n),
    ensures
        result_room_at(after, a, n - 1),
{
    if a == e.0 {
        let cid = after.profiles[e.0].metadata_cid;
        let base = mid.base_profile(e.0, now, cid);
        assert(after.profiles[e.0] == hackathon_recorded(base, e.2, e.3));
    } else {
        assert(after.profiles[a] == mid.profiles[a]);
    }
}

proof fn lemma_unclaimed_fit_prefix(w: Map<(u64, u32), WinnerRecord>, id: u64, k: nat, m: nat)
    requires
        k <= m,
        unclaimed_fit(w, id, m),
    ensures
        unclaimed_fit(w, id, k),
    decreases m - k,
{
    if k < m {
        lemma_unclaimed_fit_prefix(w, id, k, (m - 1) as nat);
    }
}

proof fn lemma_swept_frame(w: Map<(u64, u32), WinnerRecord>, id: u64, k: nat, j: int)
    requires
        k <= j <= u32::MAX,
    ensures
        swept(w, id, k).contains_key((id, j as u32)) == w.contains_key((id, j as u32)),
        w.contains_key((id, j as u32)) ==> swept(w, id, k)[(id, j as u32)] == w[(id, j as u32)],
    decreases k,
{
    if k > 0 {
        lemma_swept_frame(w, id, (k - 1) as nat, j);
        assert((k - 1) as u32 != j as u32);
    }
}

impl HackathonState {
    /// The ranking of the first `n` registered teams of hackathon `id` that
    /// submitted and were not disqualified, best average first; among equal
    /// averages the earlier registration comes first.
    pub open spec fn ranking(self, id: u64, n: nat) -> Seq<(Address, u32)>
        decreases n,
    {
        if n == 0 {
            Seq::empty()
        } else {
            let prev = self.ranking(id, (n - 1) as nat);
            let lead = self.submission_index[(id, (n - 1) as u32)];
            let sub = self.submissions[(id, lead)];
            if sub.disqualified || sub.submitted_at == 0 {
                prev
            } else {
                ranked_insert(prev, (lead, average(sub)))
            }
        }
    }

    /// Whether the first `n` registrations of hackathon `id` are stored with their submissions.
    pub open spec fn entries_stored(self, id: u64, n: u32) -> bool {
        forall|i: int|
            0 <= i < n ==> #[trigger] self.submission_index.contains_key((id, i as u32)) && self.submissions.contains_key(
                (id, self.submission_index[(id, i as u32)]),
            )
    }

    /// The number of prize tiers of hackathon `id`.
    pub open spec fn tier_count(self, id: u64) -> nat {
        count_tiers(self.prize_tiers, id, 0)
    }

    /// The prizes of hackathon `id`, by rank: as many as there are ranked teams and tiers.
    pub open spec fn prizes(self, id: u64) -> Seq<Prize> {
        let h = self.hackathons[id];
        let ranked = self.ranking(id, h.submission_count as nat);
        let n = if ranked.len() < self.tier_count(id) {
            ranked.len()
        } else {
            self.tier_count(id)
        };
        Seq::new(
            n,
            |r: int|
                (
                    ranked[r].0,
                    (fee_bps_spec(h.prize_pool as int, self.prize_tiers[(id, r as u32)] as int)->0) as i128,
                    points_for(r),
                    r == 0,
                ),
        )
    }

    /// Whether every prize amount of hackathon `id` stays within `i128`.
    pub open spec fn prize_amounts_fit(self, id: u64) -> bool {
        forall|r: int|
            0 <= r < self.tier_count(id) ==> #[trigger] fee_bps_spec(
                self.hackathons[id].prize_pool as int,
                self.prize_tiers[(id, r as u32)] as int,
            ) is Some
    }

    /// The checks of `finalize_hackathon` before any prize is paid.
    pub open spec fn finalize_check(self, id: u64, now: u64) -> Result<(), Error> {
        let h = self.hackathons[id];
        if !self.hackathons.contains_key(id) {
            Err(Error::HackathonNotFound)
        } else if now <= h.judging_deadline {
            Err(Error::JudgingNotOver)
        } else if h.status == HackathonStatus::Completed || h.status == HackathonStatus::Cancelled {
            Err(Error::InvalidStatus)
        } else if self.core_escrow is None || self.reputation_registry is None {
            Err(Error::NotInitialized)
        } else if h.submission_count == 0 {
            Err(Error::NoSubmissions)
        } else {
            Ok(())
        }
    }
}

impl HackathonState {
    /// How long winners have to claim a prize, in seconds.
    pub open spec fn window(self) -> u64 {
        match self.claim_window {
            Some(w) => w,
            None => DEFAULT_CLAIM_WINDOW,
        }
    }

    /// The number of prizes recorded for hackathon `id`; zero before finalization.
    pub open spec fn winner_count(self, id: u64) -> u32 {
        if self.winner_counts.contains_key(id) {
            self.winner_counts[id]
        } else {
            0
        }
    }

    /// The storage after hackathon `id` was finalized at `now` with `prizes`:
    /// it is completed and a winner record is written for each prize, by rank.
    pub open spec fn finalized(self, id: u64, prizes: Seq<Prize>, now: u64) -> HackathonState {
        let h = self.hackathons[id];
        HackathonState {
            hackathons: self.hackathons.insert(id, Hackathon { status: HackathonStatus::Completed, ..h }),
            winners: winners_written(self.winners, id, prizes, claim_deadline_at(now, self.window())),
            winner_ranks: ranks_written(self.winner_ranks, id, prizes),
            winner_counts: self.winner_counts.insert(id, prizes.len() as u32),
            ..self
        }
    }

    /// The checks of `claim_prize`: the rank of `winner`'s prize in hackathon
    /// `id` where it may be claimed at `now`.
    pub open spec fn claim_check(self, id: u64, winner: Address, now: u64) -> Result<u32, Error> {
        let rank = self.winner_ranks[(id, winner)];
        let w = self.winners[(id, rank)];
        if !self.hackathons.contains_key(id) {
            Err(Error::HackathonNotFound)
        } else if self.hackathons[id].status != HackathonStatus::Completed {
            Err(Error::InvalidStatus)
        } else if !self.winner_ranks.contains_key((id, winner)) || !self.winners.contains_key((id, rank)) {
            Err(Error::NotAWinner)
        } else if w.claimed {
            Err(Error::AlreadyClaimed)
        } else if now > w.claim_deadline {
            Err(Error::ClaimWindowClosed)
        } else if self.core_escrow is None {
            Err(Error::NotInitialized)
        } else {
            Ok(rank)
        }
    }

    /// The checks of `reclaim_unclaimed_prizes`: the total of the pending
    /// prizes of hackathon `id` where every one of them is past its deadline at `now`.
    pub open spec fn reclaim_check(self, id: u64, now: u64) -> Result<i128, Error> {
        let n = self.winner_count(id) as nat;
        if !self.hackathons.contains_key(id) {
            Err(Error::HackathonNotFound)
        } else if self.hackathons[id].status != HackathonStatus::Completed {
            Err(Error::InvalidStatus)
        } else if self.core_escrow is None {
            Err(Error::NotInitialized)
        } else if claim_open(self.winners, id, n as int, now) {
            Err(Error::ClaimWindowOpen)
        } else if !unclaimed_fit(self.winners, id, n) {
            Err(Error::Overflow)
        } else {
            Ok(unclaimed_total(self.winners, id, n) as i128)
        }
    }
}

/// What paying `amount` out of pool `pid` gives: an escrow failure, or `ok`;
/// nothing is paid where the amount is zero.
pub open spec fn paid_or(escrow: EscrowState, pid: BytesN32, amount: i128, ok: i128) -> Result<i128, Error> {
    if amount > 0 && escrow.release_partial_result(pid, amount) is Err {
        Err(Error::Escrow(escrow.release_partial_result(pid, amount)->Err_0))
    } else {
        Ok(ok)
    }
}

/// The escrow storage after `amount` was paid out of pool `pid`, where positive.
pub open spec fn paid_escrow(escrow: EscrowState, pid: BytesN32, amount: i128) -> EscrowState {
    if amount > 0 {
        escrow.released_partially(pid, amount)
    } else {
        escrow
    }
}

/// The context after `amount` was paid out of pool `pid` to `to`, where positive.
pub open spec fn paid_env(escrow: EscrowState, e: EnvState, pid: BytesN32, to: Address, amount: i128) -> EnvState {
    if amount > 0 {
        escrow.release_partial_env(e, pid, to, amount)
    } else {
        e
    }
}

impl HackathonRegistry {
    /// Records each prize of `prizes` as a hackathon result of its team lead, in order.
    #[verifier::loop_isolation(false)]
    fn record_results(&self, env: &mut Env, rep: &mut ReputationRegistry, prizes: &Vec<Prize>) -> (r: Result<(), Error>)
        requires
            prizes_fit(old(rep)@, prizes@),
        ensures
            r == results_result(old(rep)@, self@.address, prizes@),
            r is Err ==> final(rep)@ == old(rep)@ && final(env)@ == old(env)@,
            r is Ok ==> results_recorded(prizes@, old(rep)@, final(rep)@, old(env)@, final(env)@),
            final(env)@.timestamp == old(env)@.timestamp,
            final(rep)@.address == old(rep)@.address,
    {
        let n = prizes.len();
        if n > 0 && !rep.is_authorized(self.address) {
            return Err(Error::Reputation(ReputationError::ModuleNotAuthorized));
        }
        proof {
            lemma_results_none(old(rep)@, old(env)@);
            assert(prizes@.take(0) =~= Seq::<Prize>::empty());
        }
        let mut i: usize = 0;
        while i < n
            invariant
                n == prizes@.len(),
                i <= n,
                n > 0 ==> old(rep)@.authorized(self@.address),
                prizes_fit(old(rep)@, prizes@),
                env@.timestamp == old(env)@.timestamp,
                results_recorded(prizes@.take(i as int), old(rep)@, rep@, old(env)@, env@),
                rep@.authorized_modules == old(rep)@.authorized_modules,
                rep@.address == old(rep)@.address,
                forall|j: int| i <= j < n ==> #[trigger] result_room_at(rep@, prizes@[j].0, n - i),
            decreases n - i,
        {
            let x = prizes[i];
            let ghost s1 = prizes@.take(i + 1);
            let ghost mid = rep@;
            let ghost e_mid = env@;
            proof {
                assert(s1.drop_last() =~= prizes@.take(i as int));
                assert(s1.last() == x);
                assert(prizes@[i as int].2 <= 100);
                assert(result_room_at(rep@, prizes@[i as int].0, n - i));
            }
            let res = rep.record_hackathon_result(env, self.address, x.0, x.2, x.3);
            assert(res is Ok);
            proof {
                assert(prize_step(mid, rep@, s1.last(), old(env)@.timestamp));
                lemma_result_step(old(rep)@, mid, rep@, s1, old(env)@, e_mid, env@);
                assert forall|j: int| i + 1 <= j < n implies #[trigger] result_room_at(rep@, prizes@[j].0, n - (i + 1)) by {
                    assert(result_room_at(mid, prizes@[j].0, n - i));
                    lemma_room_after_result(mid, rep@, x, old(env)@.timestamp, prizes@[j].0, n - i);
                }
            }
            i = i + 1;
        }
        proof {
            assert(prizes@.take(n as int) =~= prizes@);
        }
        Ok(())
    }
}

impl HackathonRegistry {
    /// After judging, the creator closes a hackathon. The teams that submitted
    /// and were not disqualified are ranked by average score, and each rank
    /// with a prize tier gets a winner record for its share of the pool, which
    /// the winner claims later; no funds move here. Each winner is credited
    /// with a hackathon result: 100 points and a win for the first, 50 points
    /// for the second, 25 after.
    #[verifier::loop_isolation(false)]
    pub fn finalize_hackathon(&mut self, env: &mut Env, rep: &mut ReputationRegistry, hackathon_id: u64) -> (r: Result<(), Error>)
        requires
            old(self)@.reputation_registry matches Some(a) ==> old(rep)@.address == a,
            old(self)@.finalize_check(hackathon_id, old(env)@.timestamp) is Ok ==> old(self)@.entries_stored(
                hackathon_id,
                old(self)@.hackathons[hackathon_id].submission_count,
            ) && !old(self)@.prize_tiers.contains_key((hackathon_id, 0xFFFF_FFFFu32))
                && old(self)@.prize_amounts_fit(hackathon_id) && prizes_fit(old(rep)@, old(self)@.prizes(hackathon_id)),
        ensures
            ({
                let check = old(self)@.finalize_check(hackathon_id, old(env)@.timestamp);
                let prizes = old(self)@.prizes(hackathon_id);
                &&& check is Err ==> r == check
                &&& check is Ok ==> r == results_result(old(rep)@, old(self)@.address, prizes)
                &&& final(rep)@.address == old(rep)@.address
                &&& final(env)@.timestamp == old(env)@.timestamp
                &&& r is Err ==> final(self)@ == old(self)@ && final(rep)@ == old(rep)@ && final(env)@ == old(env)@
                &&& r is Ok ==> final(self)@ == old(self)@.finalized(hackathon_id, prizes, old(env)@.timestamp)
                    && exists|e_mid: EnvState|
                    #[trigger] results_recorded(prizes, old(rep)@, final(rep)@, old(env)@, e_mid) && final(env)@
                        == e_mid.emit(
                        Event::HackathonFinalized(
                            HackathonFinalized { hackathon_id, winner_count: prizes.len() as u32 },
                        ),
                    )
            }),
    {
        let mut h = match self.hackathons.get(&hackathon_id) {
            Some(h) => h.snapshot(),
            None => return Err(Error::HackathonNotFound),
        };
        if env.timestamp <= h.judging_deadline {
            return Err(Error::JudgingNotOver);
        }
        if h.status == HackathonStatus::Completed || h.status == HackathonStatus::Cancelled {
            return Err(Error::InvalidStatus);
        }
        if self.core_escrow.is_none() || self.reputation_registry.is_none() {
            return Err(Error::NotInitialized);
        }
        let n = h.submission_count;
        if n == 0 {
            return Err(Error::NoSubmissions);
        }
        // Rank the teams that submitted, best average first.
        let mut ranked: Vec<(Address, u32)> = Vec::new();
        let mut i: u32 = 0;
        while i < n
            invariant
                i <= n,
                ranked@ == self@.ranking(hackathon_id, i as nat),
                ranked@.len() <= i,
            decreases n - i,
        {
            let lead = match self.submission_index.get(&(hackathon_id, i)) {
                Some(a) => *a,
                None => {
                    assert(self@.submission_index.contains_key((hackathon_id, (i as int) as u32)));
                    return Err(Error::SubmissionNotFound);
                },
            };
            let (out, total, count) = match self.submissions.get(&(hackathon_id, lead)) {
                Some(x) => (x.disqualified || x.submitted_at == 0, x.total_score, x.score_count),
                None => {
                    assert(self@.submission_index.contains_key((hackathon_id, (i as int) as u32)));
                    return Err(Error::SubmissionNotFound);
                },
            };
            if !out {
                let avg: u32 = if count > 0 {
                    total / count
                } else {
                    0
                };
                let len = ranked.len();
                let mut pos = len;
                let mut j: usize = 0;
                while j < len && pos == len
                    invariant
                        len == ranked@.len(),
                        j <= len,
                        pos <= len,
                        pos == len ==> insert_pos(ranked@, avg, 0) == insert_pos(ranked@, avg, j as int),
                        pos < len ==> pos == insert_pos(ranked@, avg, 0),
                    decreases len - j,
                {
                    if avg > ranked[j].1 {
                        pos = j;
                    }
                    j = j + 1;
                }
                ranked.insert(pos, (lead, avg));
            }
            i = i + 1;
        }
        // Count the prize tiers.
        let mut t: u32 = 0;
        while t < 0xFFFF_FFFFu32 && self.prize_tiers.contains_key(&(hackathon_id, t))
            invariant
                count_tiers(self@.prize_tiers, hackathon_id, 0) == count_tiers(self@.prize_tiers, hackathon_id, t as nat),
            decreases 0xFFFF_FFFFu32 - t,
        {
            t = t + 1;
        }
        let count: usize = if ranked.len() < t as usize {
            ranked.len()
        } else {
            t as usize
        };
        let ghost spec_prizes = self@.prizes(hackathon_id);
        let mut prizes: Vec<Prize> = Vec::new();
        let mut k: usize = 0;
        while k < count
            invariant
                k <= count,
                count == spec_prizes.len(),
                prizes@.len() == k,
                forall|x: int| 0 <= x < k ==> #[trigger] prizes@[x] == spec_prizes[x],
            decreases count - k,
        {
            proof {
                lemma_count_tiers(self@.prize_tiers, hackathon_id, 0, k as nat);
            }
            let pct = match self.prize_tiers.get(&(hackathon_id, k as u32)) {
                Some(p) => *p,
                None => return Err(Error::InvalidStatus),
            };
            let amount = match calculate_fee_bps(h.prize_pool, pct) {
                Some(a) => a,
                None => {
                    assert(fee_bps_spec(h.prize_pool as int, self@.prize_tiers[(hackathon_id, (k as int) as u32)] as int) is Some);
                    return Err(Error::InvalidStatus);
                },
            };
            let points: u32 = if k == 0 {
                100
            } else if k == 1 {
                50
            } else {
                25
            };
            prizes.push((ranked[k].0, amount, points, k == 0));
            k = k + 1;
        }
        assert(prizes@ =~= spec_prizes);
        self.record_results(env, rep, &prizes)?;
        let ghost e_mid = env@;
        // Write the winner records.
        let window = match self.claim_window {
            Some(w) => w,
            None => DEFAULT_CLAIM_WINDOW,
        };
        let deadline = if env.timestamp <= u64::MAX - window {
            env.timestamp + window
        } else {
            u64::MAX
        };
        assert(deadline == claim_deadline_at(old(env)@.timestamp, old(self)@.window()));
        let ghost s0 = self@;
        let mut k: usize = 0;
        while k < count
            invariant
                k <= count,
                count == prizes@.len(),
                count <= u32::MAX,
                self@ == (HackathonState {
                    winners: winners_written(s0.winners, hackathon_id, prizes@.take(k as int), deadline),
                    winner_ranks: ranks_written(s0.winner_ranks, hackathon_id, prizes@.take(k as int)),
                    ..s0
                }),
            decreases count - k,
        {
            proof {
                assert(prizes@.take(k + 1).drop_last() =~= prizes@.take(k as int));
                assert(prizes@.take(k + 1).last() == prizes@[k as int]);
            }
            let x = prizes[k];
            self.winners.insert(
                (hackathon_id, k as u32),
                WinnerRecord {
                    hackathon_id,
                    rank: k as u32,
                    winner: x.0,
                    amount: x.1,
                    claimed: false,
                    claimed_at: None,
                    claim_deadline: deadline,
                },
            );
            self.winner_ranks.insert((hackathon_id, x.0), k as u32);
            k = k + 1;
        }
        assert(prizes@.take(count as int) =~= prizes@);
        self.winner_counts.insert(hackathon_id, count as u32);
        h.status = HackathonStatus::Completed;
        self.hackathons.insert(hackathon_id, h);
        env.emit(Event::HackathonFinalized(HackathonFinalized { hackathon_id, winner_count: count as u32 }));
        Ok(())
    }

    /// A winner pulls the prize recorded for them at finalization, before its
    /// claim deadline; the amount is paid out of the hackathon's escrow pool
    /// (where positive) and returned.
    pub fn claim_prize(&mut self, env: &mut Env, escrow: &mut CoreEscrow, hackathon_id: u64, winner: Address) -> (r: Result<i128, Error>)
        requires
            old(self)@.core_escrow matches Some(a) ==> old(escrow)@.address == a,
        ensures
            ({
                let now = old(env)@.timestamp;
                let c = old(self)@.claim_check(hackathon_id, winner, now);
                let rank = c->Ok_0;
                let w = old(self)@.winners[(hackathon_id, rank)];
                let pid = old(self)@.hackathons[hackathon_id].pool_id;
                &&& c is Err ==> r == Err::<i128, Error>(c->Err_0)
                &&& c is Ok ==> r == paid_or(old(escrow)@, pid, w.amount, w.amount)
                &&& r is Err ==> final(self)@ == old(self)@ && final(escrow)@ == old(escrow)@ && final(env)@ == old(env)@
                &&& r is Ok ==> final(self)@ == (HackathonState {
                    winners: old(self)@.winners.insert(
                        (hackathon_id, rank),
                        WinnerRecord { claimed: true, claimed_at: Some(now), ..w },
                    ),
                    ..old(self)@
                }) && final(escrow)@ == paid_escrow(old(escrow)@, pid, w.amount) && final(env)@ == paid_env(
                    old(escrow)@,
                    old(env)@,
                    pid,
                    winner,
                    w.amount,
                ).emit(Event::PrizeClaimed(PrizeClaimed { hackathon_id, winner, rank, amount: w.amount }))
            }),
    {
        let h = match self.hackathons.get(&hackathon_id) {
            Some(h) => h.snapshot(),
            None => return Err(Error::HackathonNotFound),
        };
        if h.status != HackathonStatus::Completed {
            return Err(Error::InvalidStatus);
        }
        let rank = match self.winner_ranks.get(&(hackathon_id, winner)) {
            Some(k) => *k,
            None => return Err(Error::NotAWinner),
        };
        let w = match self.winners.get(&(hackathon_id, rank)) {
            Some(w) => *w,
            None => return Err(Error::NotAWinner),
        };
        if w.claimed {
            return Err(Error::AlreadyClaimed);
        }
        let now = env.timestamp;
        if now > w.claim_deadline {
            return Err(Error::ClaimWindowClosed);
        }
        if self.core_escrow.is_none() {
            return Err(Error::NotInitialized);
        }
        if w.amount > 0 {
            match escrow.release_partial(env, h.pool_id, winner, w.amount) {
                Ok(()) => {},
                Err(e) => return Err(Error::Escrow(e)),
            }
        }
        self.winners.insert(
            (hackathon_id, rank),
            WinnerRecord { claimed: true, claimed_at: Some(now), ..w },
        );
        env.emit(Event::PrizeClaimed(PrizeClaimed { hackathon_id, winner, rank, amount: w.amount }));
        Ok(w.amount)
    }

    /// Once no recorded prize of a completed hackathon can still be claimed,
    /// the creator sweeps the unclaimed ones back out of the escrow pool; they
    /// are marked claimed, and their total is returned.
    #[verifier::loop_isolation(false)]
    pub fn reclaim_unclaimed_prizes(&mut self, env: &mut Env, escrow: &mut CoreEscrow, hackathon_id: u64) -> (r: Result<i128, Error>)
        requires
            old(self)@.core_escrow matches Some(a) ==> old(escrow)@.address == a,
        ensures
            ({
                let c = old(self)@.reclaim_check(hackathon_id, old(env)@.timestamp);
                let total = c->Ok_0;
                let h = old(self)@.hackathons[hackathon_id];
                let n = old(self)@.winner_count(hackathon_id) as nat;
                &&& c is Err ==> r == Err::<i128, Error>(c->Err_0)
                &&& c is Ok ==> r == paid_or(old(escrow)@, h.pool_id, total, total)
                &&& r is Err ==> final(self)@ == old(self)@ && final(escrow)@ == old(escrow)@ && final(env)@ == old(env)@
                &&& r is Ok ==> final(self)@ == (HackathonState {
                    winners: swept(old(self)@.winners, hackathon_id, n),
                    ..old(self)@
                }) && final(escrow)@ == paid_escrow(old(escrow)@, h.pool_id, total) && final(env)@ == paid_env(
                    old(escrow)@,
                    old(env)@,
                    h.pool_id,
                    h.creator,
                    total,
                ).emit(
                    Event::UnclaimedPrizesReclaimed(UnclaimedPrizesReclaimed { hackathon_id, total_amount: total }),
                )
            }),
    {
        let h = match self.hackathons.get(&hackathon_id) {
            Some(h) => h.snapshot(),
            None => return Err(Error::HackathonNotFound),
        };
        if h.status != HackathonStatus::Completed {
            return Err(Error::InvalidStatus);
        }
        if self.core_escrow.is_none() {
            return Err(Error::NotInitialized);
        }
        let n: u32 = match self.winner_counts.get(&hackathon_id) {
            Some(c) => *c,
            None => 0,
        };
        let now = env.timestamp;
        // No pending prize may still be claimable.
        let mut i: u32 = 0;
        while i < n
            invariant
                i <= n,
                !claim_open(self@.winners, hackathon_id, i as int, now),
            decreases n - i,
        {
            match self.winners.get(&(hackathon_id, i)) {
                Some(w) => {
                    if !w.claimed && now <= w.claim_deadline {
                        assert(pending(self@.winners, hackathon_id, i as int));
                        assert(claim_open(self@.winners, hackathon_id, n as int, now));
                        return Err(Error::ClaimWindowOpen);
                    }
                },
                None => {},
            }
            proof {
                assert forall|r: int| 0 <= r < i + 1 && #[trigger] pending(self@.winners, hackathon_id, r) implies now
                    > self@.winners[(hackathon_id, r as u32)].claim_deadline by {
                    if r < i {
                        assert(!(0 <= r < i && pending(self@.winners, hackathon_id, r) && now
                            <= self@.winners[(hackathon_id, r as u32)].claim_deadline));
                    }
                }
            }
            i = i + 1;
        }
        // Add up the pending prizes.
        let mut total: i128 = 0;
        let mut j: u32 = 0;
        while j < n
            invariant
                j <= n,
                !claim_open(self@.winners, hackathon_id, n as int, now),
                total == unclaimed_total(self@.winners, hackathon_id, j as nat),
                unclaimed_fit(self@.winners, hackathon_id, j as nat),
            decreases n - j,
        {
            match self.winners.get(&(hackathon_id, j)) {
                Some(w) => {
                    if !w.claimed {
                        total = match total.checked_add(w.amount) {
                            Some(v) => v,
                            None => {
                                proof {
                                    assert(pending(self@.winners, hackathon_id, j as int));
                                    assert(unclaimed_total(self@.winners, hackathon_id, (j + 1) as nat) == total + w.amount);
                                    assert(!unclaimed_fit(self@.winners, hackathon_id, (j + 1) as nat));
                                    if unclaimed_fit(self@.winners, hackathon_id, n as nat) {
                                        lemma_unclaimed_fit_prefix(self@.winners, hackathon_id, (j + 1) as nat, n as nat);
                                    }
                                }
                                return Err(Error::Overflow);
                            },
                        };
                    }
                },
                None => {},
            }
            j = j + 1;
        }
        if total > 0 {
            match escrow.release_partial(env, h.pool_id, h.creator, total) {
                Ok(()) => {},
                Err(e) => return Err(Error::Escrow(e)),
            }
        }
        // Mark the swept prizes.
        let ghost w0 = self@.winners;
        let ghost s0 = self@;
        let mut k: u32 = 0;
        while k < n
            invariant
                k <= n,
                self@ == (HackathonState { winners: swept(w0, hackathon_id, k as nat), ..s0 }),
            decreases n - k,
        {
            proof {
                lemma_swept_frame(w0, hackathon_id, k as nat, k as int);
            }
            let cur = match self.winners.get(&(hackathon_id, k)) {
                Some(w) => Some(*w),
                None => None,
            };
            match cur {
                Some(w) => {
                    if !w.claimed {
                        self.winners.insert((hackathon_id, k), WinnerRecord { claimed: true, ..w });
                    }
                },
                None => {},
            }
            k = k + 1;
        }
        env.emit(Event::UnclaimedPrizesReclaimed(UnclaimedPrizesReclaimed { hackathon_id, total_amount: total }));
        Ok(total)
    }
}

impl HackathonRegistry {
    /// Another name for `create_hackathon`: the creator's funds move into the
    /// locked escrow pool as the hackathon is created.
    pub fn create_and_fund_hackathon(
        &mut self,
        env: &mut Env,
        escrow: &mut CoreEscrow,
        creator: Address,
        title: String,
        metadata_cid: String,
        prize_pool: i128,
        asset: Address,
        registration_deadline: u64,
        submission_deadline: u64,
        judging_deadline: u64,
        max_participants: u32,
        prize_tiers: Vec<u32>,
    ) -> (r: Result<u64, Error>)
        requires
            old(self)@.count() < u64::MAX,
            bps_total(prize_tiers@) <= u32::MAX,
            prize_tiers@.len() <= u32::MAX,
            old(self)@.core_escrow matches Some(a) ==> old(escrow)@.address == a,
        ensures
            r == old(self)@.create_result(
                old(escrow)@,
                prize_pool,
                registration_deadline,
                submission_deadline,
                judging_deadline,
                prize_tiers@,
            ),
            r is Err ==> final(self)@ == old(self)@ && final(escrow)@ == old(escrow)@ && final(env)@ == old(env)@,
            r matches Ok(id) ==> {
                let pid = final(self)@.hackathons[id].pool_id;
                &&& pid.bytes@ == pool_id_spec(ModuleType::Hackathon, id)
                &&& final(self)@ == (HackathonState {
                    hackathon_count: Some(id),
                    hackathons: old(self)@.hackathons.insert(
                        id,
                        Hackathon {
                            id,
                            creator,
                            title,
                            metadata_cid,
                            status: HackathonStatus::Registration,
                            prize_pool,
                            asset,
                            pool_id: pid,
                            registration_deadline,
                            submission_deadline,
                            judging_deadline,
                            judge_count: 0,
                            submission_count: 0,
                            max_participants,
                        },
                    ),
                    prize_tiers: tiers_written(old(self)@.prize_tiers, id, prize_tiers@),
                    ..old(self)@
                })
                &&& final(escrow)@ == old(escrow)@.pool_created(
                    pid, creator, ModuleType::Hackathon, prize_pool, asset, judging_deadline, old(self)@.address,
                    old(env)@.timestamp,
                ).pool_locked(pid)
                &&& final(env)@ == old(escrow)@.create_pool_env(
                    old(env)@, pid, creator, ModuleType::Hackathon, prize_pool, asset,
                ).emit(Event::PoolLocked(PoolLocked { pool_id: pid })).emit(
                    Event::HackathonCreated(HackathonCreated { id, creator }),
                )
            },
    {
        self.create_hackathon(
            env,
            escrow,
            creator,
            title,
            metadata_cid,
            prize_pool,
            asset,
            registration_deadline,
            submission_deadline,
            judging_deadline,
            max_participants,
            prize_tiers,
        )
    }
}

impl HackathonRegistry {
    /// Opens judging once the submission deadline has passed.
    pub fn open_judging(&mut self, env: &Env, hackathon_id: u64) -> (r: Result<(), Error>)
        ensures
            ({
                let h = old(self)@.hackathons[hackathon_id];
                &&& r == if !old(self)@.hackathons.contains_key(hackathon_id) {
                    Err(Error::HackathonNotFound)
                } else if h.status == HackathonStatus::Judging || h.status == HackathonStatus::Completed || h.status
                    == HackathonStatus::Cancelled {
                    Err(Error::InvalidStatus)
                } else if env@.timestamp <= h.submission_deadline {
                    Err(Error::JudgingNotActive)
                } else {
                    Ok(())
                }
                &&& r is Err ==> final(self)@ == old(self)@
                &&& r is Ok ==> final(self)@ == old(self)@.with_hackathon(
                    hackathon_id,
                    Hackathon { status: HackathonStatus::Judging, ..h },
                )
            }),
    {
        let mut h = match self.hackathons.get(&hackathon_id) {
            Some(h) => h.snapshot(),
            None => return Err(Error::HackathonNotFound),
        };
        if h.status == HackathonStatus::Judging || h.status == HackathonStatus::Completed || h.status
            == HackathonStatus::Cancelled {
            return Err(Error::InvalidStatus);
        }
        if env.timestamp <= h.submission_deadline {
            return Err(Error::JudgingNotActive);
        }
        h.status = HackathonStatus::Judging;
        self.hackathons.insert(hackathon_id, h);
        Ok(())
    }

    /// The admin sets how long winners have to claim a prize: one day to one year.
    pub fn set_claim_window(&mut self, window: u64) -> (r: Result<(), Error>)
        ensures
            r == if old(self)@.admin is None {
                Err(Error::NotInitialized)
            } else if window < MIN_CLAIM_WINDOW || window > MAX_CLAIM_WINDOW {
                Err(Error::InvalidClaimWindow)
            } else {
                Ok::<(), Error>(())
            },
            r is Err ==> final(self)@ == old(self)@,
            r is Ok ==> final(self)@ == (HackathonState { claim_window: Some(window), ..old(self)@ }),
    {
        if self.admin.is_none() {
            return Err(Error::NotInitialized);
        }
        if window < MIN_CLAIM_WINDOW || window > MAX_CLAIM_WINDOW {
            return Err(Error::InvalidClaimWindow);
        }
        self.claim_window = Some(window);
        Ok(())
    }

    /// How long winners have to claim a prize, in seconds.
    pub fn get_claim_window(&self) -> (w: u64)
        ensures
            w == self@.window(),
    {
        match self.claim_window {
            Some(w) => w,
            None => DEFAULT_CLAIM_WINDOW,
        }
    }

    /// The prize recorded at `rank` of a hackathon.
    pub fn get_winner(&self, hackathon_id: u64, rank: u32) -> (r: Result<WinnerRecord, Error>)
        ensures
            r == if self@.winners.contains_key((hackathon_id, rank)) {
                Ok(self@.winners[(hackathon_id, rank)])
            } else {
                Err(Error::NotAWinner)
            },
    {
        match self.winners.get(&(hackathon_id, rank)) {
            Some(w) => Ok(*w),
            None => Err(Error::NotAWinner),
        }
    }

    /// The prize recorded for `winner` in a hackathon.
    pub fn get_winner_by_address(&self, hackathon_id: u64, winner: Address) -> (r: Result<WinnerRecord, Error>)
        ensures
            ({
                let rank = self@.winner_ranks[(hackathon_id, winner)];
                r == if self@.winner_ranks.contains_key((hackathon_id, winner)) && self@.winners.contains_key(
                    (hackathon_id, rank),
                ) {
                    Ok(self@.winners[(hackathon_id, rank)])
                } else {
                    Err(Error::NotAWinner)
                }
            }),
    {
        let rank = match self.winner_ranks.get(&(hackathon_id, winner)) {
            Some(k) => *k,
            None => return Err(Error::NotAWinner),
        };
        self.get_winner(hackathon_id, rank)
    }

    /// The number of prizes recorded for a hackathon; zero before finalization.
    pub fn get_winner_count(&self, hackathon_id: u64) -> (c: u32)
        ensures
            c == self@.winner_count(hackathon_id),
    {
        match self.winner_counts.get(&hackathon_id) {
            Some(c) => *c,
            None => 0,
        }
    }
}

} // verus!
