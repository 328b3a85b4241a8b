//! Grants: milestone grants, retrospective grants decided by a weighted vote,
//! and quadratic-funding rounds.
use vstd::prelude::*;
use crate::core_escrow::{
    amounts_total, lemma_amounts_total_push, running_sums_fit, CoreEscrow, EscrowError, EscrowState, PoolLocked,
};
use crate::crowdfund_registry::{lemma_pct_total_prefix, pct_total};
use crate::env::{Env, EnvState};
use crate::events::Event;
use crate::governance_voting::{self, GovernanceState, GovernanceVoting, QFDonationRecorded, SessionCreated, VoteContext, VoteOption};
use crate::hash::pool_id_spec;
use crate::math::{calculate_fee_bps, fee_bps_spec, fits_i128, isqrt, trunc_div};
use crate::reputation_registry::{
    grant_fits, grant_recorded, profile_rewritten, ContributorProfile, ReputationError, ReputationRegistry,
    ReputationState,
};
use crate::table::{Snapshot, Table};
use crate::types::{Address, BytesN32, ModuleType};
use vstd::string::StringExecFns;

verus! {

/// How long a grant's escrow pool lives: 365 days.
pub const GRANT_POOL_LIFETIME: u64 = 31_536_000;

#[derive(Clone, Copy, PartialEq, Eq, Structural, Debug)]
pub enum Error {
    AlreadyInitialized,
    NotInitialized,
    GrantNotFound,
    NotMilestoneGrant,
    NotRetrospectiveGrant,
    NotQFGrant,
    NotRecipient,
    MilestoneNotFound,
    InvalidMilestoneStatus,
    MilestoneNotSubmitted,
    InvalidAmount,
    InvalidMilestonePercents,
    GrantNotActive,
    VotingNotEnded,
    NoVoteSession,
    InvalidProjectIndex,
    CannotCancel,
    NotCreator,
    Overflow,
    /// A call into the escrow contract failed.
    Escrow(EscrowError),
    /// A call into the reputation registry failed.
    Reputation(ReputationError),
    /// A call into the governance contract failed.
    Governance(governance_voting::Error),
}

#[derive(Clone, Copy, PartialEq, Eq, Structural, Debug)]
pub enum GrantType {
    Milestone,
    Retrospective,
    QF,
}

#[derive(Clone, Copy, PartialEq, Eq, Structural, Debug)]
pub enum GrantStatus {
    Pending,
    Active,
    Executing,
    Completed,
    Cancelled,
}

#[derive(Clone, Copy, PartialEq, Eq, Structural, Debug)]
pub enum MilestoneStatus {
    Pending,
    Submitted,
    Approved,
    Released,
    Rejected,
}

#[derive(Clone, PartialEq, Eq, Debug)]
pub struct Grant {
    pub id: u64,
    pub creator: Address,
    pub grant_type: GrantType,
    pub status: GrantStatus,
    pub amount: i128,
    pub asset: Address,
    pub pool_id: BytesN32,
    pub milestone_count: u32,
    pub metadata_cid: String,
    pub created_at: u64,
}

#[derive(Clone, PartialEq, Eq, Debug)]
pub struct GrantMilestone {
    pub id: u32,
    pub description: String,
    /// Share of the grant, in basis points.
    pub pct: u32,
    pub status: MilestoneStatus,
}

#[derive(Clone, Copy, PartialEq, Eq, Debug)]
pub struct QFRoundData {
    pub session_id: BytesN32,
    pub matching_pool: i128,
    pub project_count: u32,
}

// ── Events ─────────────────────────────────────────────────────────────────

#[derive(Clone, Copy, PartialEq, Eq, Structural, Debug)]
pub struct GrantCreated {
    pub id: u64,
    pub grant_type: GrantType,
    pub creator: Address,
    pub amount: i128,
}

#[derive(Clone, Copy, PartialEq, Eq, Structural, Debug)]
pub struct MilestoneSubmitted {
    pub grant_id: u64,
    pub milestone_index: u32,
}

#[derive(Clone, Copy, PartialEq, Eq, Structural, Debug)]
pub struct MilestoneApproved {
    pub grant_id: u64,
    pub milestone_index: u32,
}

#[derive(Clone, Copy, PartialEq, Eq, Structural, Debug)]
pub struct GrantCompleted {
    pub grant_id: u64,
}

#[derive(Clone, Copy, PartialEq, Eq, Structural, Debug)]
pub struct QFDonationMade {
    pub grant_id: u64,
    pub project_index: u32,
    pub amount: i128,
}


impl Snapshot for Grant {
    fn snapshot(&self) -> (r: Self) {
        Grant {
            id: self.id,
            creator: self.creator,
            grant_type: self.grant_type,
            status: self.status,
            amount: self.amount,
            asset: self.asset,
            pool_id: self.pool_id,
            milestone_count: self.milestone_count,
            metadata_cid: self.metadata_cid.clone(),
            created_at: self.created_at,
        }
    }
}

impl Snapshot for GrantMilestone {
    fn snapshot(&self) -> (r: Self) {
        GrantMilestone { id: self.id, description: self.description.clone(), pct: self.pct, status: self.status }
    }
}

/// The grant hub's storage.
pub struct GrantHub {
    /// This contract's own address.
    pub address: Address,
    pub admin: Option<Address>,
    pub core_escrow: Option<Address>,
    pub reputation_registry: Option<Address>,
    pub governance_voting: Option<Address>,
    pub grant_count: Option<u64>,
    pub grants: Table<u64, Grant>,
    pub milestones: Table<(u64, u32), GrantMilestone>,
    /// The recipient of each milestone grant.
    pub recipients: Table<u64, Address>,
    /// The voting session of each retrospective grant.
    pub retro_sessions: Table<u64, BytesN32>,
    pub qf_rounds: Table<u64, QFRoundData>,
}

/// The mathematical content of the grant hub's storage.
pub ghost struct GrantState {
    pub address: Address,
    pub admin: Option<Address>,
    pub core_escrow: Option<Address>,
    pub reputation_registry: Option<Address>,
    pub governance_voting: Option<Address>,
    pub grant_count: Option<u64>,
    pub grants: Map<u64, Grant>,
    pub milestones: Map<(u64, u32), GrantMilestone>,
    pub recipients: Map<u64, Address>,
    pub retro_sessions: Map<u64, BytesN32>,
    pub qf_rounds: Map<u64, QFRoundData>,
}

impl View for GrantHub {
    type V = GrantState;

    open spec fn view(&self) -> GrantState {
        GrantState {
            address: self.address,
            admin: self.admin,
            core_escrow: self.core_escrow,
            reputation_registry: self.reputation_registry,
            governance_voting: self.governance_voting,
            grant_count: self.grant_count,
            grants: self.grants@,
            milestones: self.milestones@,
            recipients: self.recipients@,
            retro_sessions: self.retro_sessions@,
            qf_rounds: self.qf_rounds@,
        }
    }
}

// ── Paying several recipients from one pool ────────────────────────────────

/// The escrow storage after each entry of `list` was paid from pool `pid`, in order.
pub open spec fn partials_released(escrow: EscrowState, pid: BytesN32, list: Seq<(Address, i128)>) -> EscrowState
    decreases list.len(),
{
    if list.len() == 0 {
        escrow
    } else {
        partials_released(escrow, pid, list.drop_last()).released_partially(pid, list.last().1)
    }
}

/// The context after each entry of `list` was paid from pool `pid`, in order.
pub open spec fn partials_env(escrow: EscrowState, e: EnvState, pid: BytesN32, list: Seq<(Address, i128)>) -> EnvState
    decreases list.len(),
{
    if list.len() == 0 {
        e
    } else {
        let prefix = list.drop_last();
        partials_released(escrow, pid, prefix).release_partial_env(
            partials_env(escrow, e, pid, prefix),
            pid,
            list.last().0,
            list.last().1,
        )
    }
}

/// What paying each entry of `list` from pool `pid` and recording it as a
/// grant received returns: the first failure, in order.
pub open spec fn payouts_result(
    escrow: EscrowState,
    rep: ReputationState,
    module: Address,
    pid: BytesN32,
    list: Seq<(Address, i128)>,
) -> Result<(), Error>
    decreases list.len(),
{
    if list.len() == 0 {
        Ok(())
    } else {
        let prefix = list.drop_last();
        let before = partials_released(escrow, pid, prefix);
        match payouts_result(escrow, rep, module, pid, prefix) {
            Err(e) => Err(e),
            Ok(_) => if before.release_partial_result(pid, list.last().1) is Err {
                Err(Error::Escrow(before.release_partial_result(pid, list.last().1)->Err_0))
            } else if !rep.authorized(module) {
                Err(Error::Reputation(ReputationError::ModuleNotAuthorized))
            } else {
                Ok(())
            },
        }
    }
}

/// `states` are the reputation storages before and after recording each entry
/// of `list` as a grant received, in order.
pub open spec fn grant_chain(states: Seq<ReputationState>, list: Seq<(Address, i128)>, now: u64) -> bool {
    &&& states.len() == list.len() + 1
    &&& forall|i: int| 0 <= i < list.len() ==> #[trigger] grant_step(states[i], states[i + 1], list[i], now)
}

/// `after` is `before` with a grant received recorded for each entry of `list`, in order.
pub open spec fn grants_recorded(before: ReputationState, after: ReputationState, list: Seq<(Address, i128)>, now: u64) -> bool {
    exists|states: Seq<ReputationState>|
        #[trigger] grant_chain(states, list, now) && states[0] == before && states.last() == after
}

/// `after` is `mid` with the grant `e` recorded for its recipient.
pub open spec fn grant_step(mid: ReputationState, after: ReputationState, e: (Address, i128), now: u64) -> bool {
    profile_rewritten(mid, after, e.0, now, |p: ContributorProfile| grant_recorded(p, e.1))
}

/// Whether profile `p` can record `n` more grants worth `t` in total.
pub open spec fn payout_room(p: ContributorProfile, n: int, t: int) -> bool {
    &&& p.overall_score + 20 * n <= u32::MAX
    &&& p.grants_received + n <= u32::MAX
    &&& p.total_earned + t <= i128::MAX
}

/// Whether the stored profile of `a`, if any, can record `n` more grants worth `t`.
pub open spec fn room_at(rep: ReputationState, a: Address, n: int, t: int) -> bool {
    rep.profiles.contains_key(a) ==> payout_room(rep.profiles[a], n, t)
}

/// Whether every entry of `list` is positive and recording them all as grants stays within range.
pub open spec fn payouts_fit(rep: ReputationState, list: Seq<(Address, i128)>) -> bool {
    &&& forall|i: int| 0 <= i < list.len() ==> #[trigger] list[i].1 > 0
    &&& 20 * list.len() <= u32::MAX
    &&& amounts_total(list) <= i128::MAX
    &&& forall|a: Address| #[trigger] room_at(rep, a, list.len() as int, amounts_total(list))
}

proof fn lemma_prefix_total(s: Seq<(Address, i128)>, k: int)
    requires
        0 <= k <= s.len(),
        forall|i: int| 0 <= i < s.len() ==> #[trigger] s[i].1 > 0,
    ensures
        0 <= amounts_total(s.take(k)) <= amounts_total(s),
    decreases s.len(),
{
    if k < s.len() {
        lemma_prefix_total(s.drop_last(), k);
        assert(s.drop_last().take(k) =~= s.take(k));
        assert(s.drop_last().take(s.len() - 1) =~= s.drop_last());
    } else {
        assert(s.take(k) =~= s);
        if s.len() > 0 {
            lemma_prefix_total(s.drop_last(), s.len() - 1);
            assert(s.drop_last().take(s.len() - 1) =~= s.drop_last());
        }
    }
}

proof fn lemma_grants_step(
    before: ReputationState,
    mid: ReputationState,
    after: ReputationState,
    list: Seq<(Address, i128)>,
    now: u64,
)
    requires
        list.len() > 0,
        grants_recorded(before, mid, list.drop_last(), now),
        grant_step(mid, after, list.last(), now),
    ensures
        grants_recorded(before, after, list, now),
{
    let states = choose|states: Seq<ReputationState>|
        #[trigger] grant_chain(states, list.drop_last(), now) && states[0] == before && states.last() == mid;
    let next = states.push(after);
    assert forall|i: int| 0 <= i < list.len() implies #[trigger] grant_step(next[i], next[i + 1], list[i], now) by {
        if i < list.len() - 1 {
            assert(grant_step(states[i], states[i + 1], list.drop_last()[i], now));
        }
    }
    assert(grant_chain(next, list, now));
}

proof fn lemma_grants_none(rep: ReputationState, now: u64)
    ensures
        grants_recorded(rep, rep, Seq::empty(), now),
{
    assert(grant_chain(seq![rep], Seq::empty(), now));
}

proof fn lemma_payouts_err_extends(
    escrow: EscrowState,
    rep: ReputationState,
    module: Address,
    pid: BytesN32,
    list: Seq<(Address, i128)>,
    k: int,
)
    requires
        0 <= k <= list.len(),
        payouts_result(escrow, rep, module, pid, list.take(k)) is Err,
    ensures
        payouts_result(escrow, rep, module, pid, list) == payouts_result(escrow, rep, module, pid, list.take(k)),
    decreases list.len() - k,
{
    if k == list.len() {
        assert(list.take(k) =~= list);
    } else {
        assert(list.take(k + 1).drop_last() =~= list.take(k));
        lemma_payouts_err_extends(escrow, rep, module, pid, list, k + 1);
    }
}

proof fn lemma_room_after_grant(mid: ReputationState, after: ReputationState, r: Address, now: u64, x: i128, n: int, t: int)
    requires
        profile_rewritten(mid, after, r, now, |p: ContributorProfile| grant_recorded(p, x)),
        n >= 1,
        0 < x <= t,
        20 * n <= u32::MAX,
        t <= i128::MAX,
        forall|a: Address| #[trigger] room_at(mid, a, n, t),
    ensures
        forall|a: Address| #[trigger] room_at(after, a, n - 1, t - x),
{
    assert forall|a: Address| #[trigger] room_at(after, a, n - 1, t - x) by {
        assert(room_at(mid, a, n, t));
        if a == r {
            let cid = after.profiles[r].metadata_cid;
            let base = mid.base_profile(r, now, cid);
            assert(after.profiles[r] == grant_recorded(base, x));
        } else {
            assert(after.profiles[a] == mid.profiles[a]);
        }
    }
}

impl GrantHub {
    /// Pays each entry of `list` from pool `pid` and records it as a grant
    /// received by its recipient, in order; changes nothing on failure.
    #[verifier::loop_isolation(false)]
    fn pay_grants(
        &self,
        env: &mut Env,
        escrow: &mut CoreEscrow,
        rep: &mut ReputationRegistry,
        pid: BytesN32,
        list: &Vec<(Address, i128)>,
    ) -> (r: Result<(), Error>)
        requires
            payouts_fit(old(rep)@, list@),
        ensures
            r == payouts_result(old(escrow)@, old(rep)@, self@.address, pid, list@),
            r is Err ==> final(escrow)@ == old(escrow)@ && final(rep)@ == old(rep)@ && final(env)@ == old(env)@,
            r is Ok ==> final(escrow)@ == partials_released(old(escrow)@, pid, list@) && grants_recorded(
                old(rep)@,
                final(rep)@,
                list@,
                old(env)@.timestamp,
            ) && final(env)@ == partials_env(old(escrow)@, old(env)@, pid, list@),
            r is Ok ==> final(env)@.timestamp == old(env)@.timestamp && old(env)@.transfers.len()
                <= final(env)@.transfers.len() && old(env)@.events.len() <= final(env)@.events.len()
                && final(env)@.transfers.take(old(env)@.transfers.len() as int) == old(env)@.transfers
                && final(env)@.events.take(old(env)@.events.len() as int) == old(env)@.events,
    {
        let saved_escrow = escrow.snapshot();
        let saved_rep = rep.snapshot();
        let m = env.mark();
        let n = list.len();
        let ghost t = amounts_total(list@);
        proof {
            lemma_prefix_total(list@, 0);
            assert(list@.take(0) =~= Seq::<(Address, i128)>::empty());
            lemma_grants_none(old(rep)@, old(env)@.timestamp);
        }
        let mut i: usize = 0;
        while i < n
            invariant
                n == list@.len(),
                i <= n,
                saved_escrow@ == old(escrow)@,
                saved_rep@ == old(rep)@,
                m.0 == old(env)@.transfers.len(),
                m.1 == old(env)@.events.len(),
                env@.timestamp == old(env)@.timestamp,
                old(env)@.transfers.len() <= env@.transfers.len(),
                old(env)@.events.len() <= env@.events.len(),
                env@.transfers.take(m.0 as int) == old(env)@.transfers,
                env@.events.take(m.1 as int) == old(env)@.events,
                payouts_result(old(escrow)@, old(rep)@, self@.address, pid, list@.take(i as int)) == Ok::<(), Error>(()),
                escrow@ == partials_released(old(escrow)@, pid, list@.take(i as int)),
                grants_recorded(old(rep)@, rep@, list@.take(i as int), old(env)@.timestamp),
                env@ == partials_env(old(escrow)@, old(env)@, pid, list@.take(i as int)),
                rep@.authorized_modules == old(rep)@.authorized_modules,
                0 <= amounts_total(list@.take(i as int)) <= t,
                forall|a: Address| #[trigger] room_at(rep@, a, n - i, t - amounts_total(list@.take(i as int))),
            decreases n - i,
        {
            let to = list[i].0;
            let amount = list[i].1;
            let ghost pre = list@.take(i as int);
            proof {
                assert(list@.take(i + 1).drop_last() =~= pre);
                assert(list@.take(i + 1) =~= pre.push(list@[i as int]));
                lemma_amounts_total_push(pre, list@[i as int]);
                lemma_prefix_total(list@, i + 1);
                assert(list@[i as int].1 > 0);
                assert(room_at(rep@, to, n - i, t - amounts_total(pre)));
            }
            match escrow.release_partial(env, pid, to, amount) {
                Ok(()) => {},
                Err(e) => {
                    *escrow = saved_escrow;
                    *rep = saved_rep;
                    env.rollback(m);
                    assert(env@.transfers =~= old(env)@.transfers);
                    assert(env@.events =~= old(env)@.events);
                    proof {
                        let s1 = list@.take(i + 1);
                        assert(s1.drop_last() =~= pre);
                        assert(s1.last() == (to, amount));
                        assert(payouts_result(old(escrow)@, old(rep)@, self@.address, pid, s1) == Err::<(), Error>(Error::Escrow(e)));
                        lemma_payouts_err_extends(old(escrow)@, old(rep)@, self@.address, pid, list@, i + 1);
                    }
                    return Err(Error::Escrow(e));
                },
            }
            let ghost mid = rep@;
            match rep.record_grant_received(env, self.address, to, amount) {
                Ok(()) => {},
                Err(e) => {
                    *escrow = saved_escrow;
                    *rep = saved_rep;
                    env.rollback(m);
                    assert(env@.transfers =~= old(env)@.transfers);
                    assert(env@.events =~= old(env)@.events);
                    proof {
                        let s1 = list@.take(i + 1);
                        assert(s1.drop_last() =~= pre);
                        assert(s1.last() == (to, amount));
                        assert(payouts_result(old(escrow)@, old(rep)@, self@.address, pid, s1) == Err::<(), Error>(Error::Reputation(e)));
                        lemma_payouts_err_extends(old(escrow)@, old(rep)@, self@.address, pid, list@, i + 1);
                    }
                    return Err(Error::Reputation(e));
                },
            }
            proof {
                lemma_room_after_grant(mid, rep@, to, old(env)@.timestamp, amount, n - i, t - amounts_total(pre));
                let s1 = list@.take(i + 1);
                assert(s1.drop_last() =~= pre);
                assert(s1.last() == (to, amount));
                assert(grants_recorded(old(rep)@, mid, s1.drop_last(), old(env)@.timestamp));
                assert(grant_step(mid, rep@, s1.last(), old(env)@.timestamp));
                lemma_grants_step(old(rep)@, mid, rep@, s1, old(env)@.timestamp);
                assert forall|a: Address| #[trigger] room_at(rep@, a, n - (i + 1), t - amounts_total(s1)) by {
                    assert(room_at(rep@, a, (n - i) - 1, (t - amounts_total(pre)) - amount));
                }
                assert(payouts_result(old(escrow)@, old(rep)@, self@.address, pid, s1) == Ok::<(), Error>(()));
            }
            i = i + 1;
        }
        proof {
            assert(list@.take(n as int) =~= list@);
        }
        Ok(())
    }
}


// ── Grant bookkeeping ───────────────────────────────────────────────────────

/// The release slots of a milestone grant: one per milestone, for the
/// recipient, of the milestone's share of `amount`.
pub open spec fn grant_slots(descs: Seq<(String, u32)>, recipient: Address, amount: i128) -> Seq<(Address, i128)>
    decreases descs.len(),
{
    if descs.len() == 0 {
        Seq::empty()
    } else {
        grant_slots(descs.drop_last(), recipient, amount).push(
            (recipient, (fee_bps_spec(amount as int, descs.last().1 as int)->0) as i128),
        )
    }
}

/// Whether every milestone share of `amount` stays within `i128`.
pub open spec fn grant_slots_fit(descs: Seq<(String, u32)>, amount: i128) -> bool {
    forall|i: int| 0 <= i < descs.len() ==> #[trigger] fee_bps_spec(amount as int, descs[i].1 as int) is Some
}

/// The milestone table after the milestones described by `s` were written for grant `id`.
pub open spec fn grant_milestones_written(
    m: Map<(u64, u32), GrantMilestone>,
    id: u64,
    s: Seq<(String, u32)>,
) -> Map<(u64, u32), GrantMilestone>
    decreases s.len(),
{
    if s.len() == 0 {
        m
    } else {
        let k = s.len() - 1;
        grant_milestones_written(m, id, s.drop_last()).insert(
            (id, k as u32),
            GrantMilestone { id: k as u32, description: s[k].0, pct: s[k].1, status: MilestoneStatus::Pending },
        )
    }
}

/// Scans milestones `0..n` of grant `id`, skipping `idx`: `false` at the first
/// one not yet released, an error where one is missing before that.
pub open spec fn released_scan(ms: Map<(u64, u32), GrantMilestone>, id: u64, idx: u32, n: nat) -> Result<bool, Error>
    decreases n,
{
    if n == 0 {
        Ok(true)
    } else {
        let i = (n - 1) as u32;
        match released_scan(ms, id, idx, (n - 1) as nat) {
            Err(e) => Err(e),
            Ok(done) => if !done {
                Ok(false)
            } else if i == idx {
                Ok(true)
            } else if !ms.contains_key((id, i)) {
                Err(Error::MilestoneNotFound)
            } else {
                Ok(ms[(id, i)].status == MilestoneStatus::Released)
            },
        }
    }
}

/// The sum of the weighted votes of `opts`.
pub open spec fn votes_total(opts: Seq<VoteOption>) -> int
    decreases opts.len(),
{
    if opts.len() == 0 {
        0
    } else {
        votes_total(opts.drop_last()) + opts.last().weighted_votes
    }
}

/// The options of session `sid`, in order.
pub open spec fn session_options(gov: GovernanceState, sid: BytesN32) -> Seq<VoteOption> {
    Seq::new(gov.option_count(sid) as nat, |i: int| gov.options[(sid, i as u32)])
}

/// The payouts of a retrospective grant of `amount` for options `0..k`: each
/// option with votes and a recipient gets `amount` times its share of the
/// `total` votes. The flag tells whether a product left `i128`, which ends the scan.
pub open spec fn retro_shares(opts: Seq<VoteOption>, recipients: Seq<Address>, amount: i128, total: int, k: nat) -> (
    Seq<(Address, i128)>,
    bool,
)
    decreases k,
{
    if k == 0 {
        (Seq::empty(), false)
    } else {
        let prev = retro_shares(opts, recipients, amount, total, (k - 1) as nat);
        let i = k - 1;
        let w = opts[i].weighted_votes;
        if prev.1 {
            prev
        } else if w > 0 && i < recipients.len() {
            if !fits_i128(amount * w) {
                (prev.0, true)
            } else if trunc_div(amount * w, total) > 0 {
                (prev.0.push((recipients[i], trunc_div(amount * w, total) as i128)), false)
            } else {
                prev
            }
        } else {
            prev
        }
    }
}

/// The payouts of a quadratic-funding round for distribution entries `0..k`:
/// each positive amount goes to the address of its project. The flag tells
/// whether a project had no address, which ends the scan.
pub open spec fn qf_payouts(dist: Seq<(u32, i128)>, addrs: Seq<Address>, k: nat) -> (Seq<(Address, i128)>, bool)
    decreases k,
{
    if k == 0 {
        (Seq::empty(), false)
    } else {
        let prev = qf_payouts(dist, addrs, (k - 1) as nat);
        let e = dist[k - 1];
        if prev.1 {
            prev
        } else if e.1 > 0 {
            if e.0 < addrs.len() {
                (prev.0.push((addrs[e.0 as int], e.1)), false)
            } else {
                (prev.0, true)
            }
        } else {
            prev
        }
    }
}

/// The distribution of `matching_pool` over the options of session `sid`.
pub open spec fn qf_distribution(gov: GovernanceState, sid: BytesN32, matching_pool: i128) -> Seq<(u32, i128)> {
    Seq::new(
        gov.option_count(sid) as nat,
        |i: int| (i as u32, gov.qf_share(sid, i, matching_pool) as i128),
    )
}

/// Why the distribution of `matching_pool` over session `sid` cannot be computed at `now`, if it cannot.
pub open spec fn qf_distribution_error(gov: GovernanceState, sid: BytesN32, matching_pool: i128, now: u64) -> Option<governance_voting::Error> {
    if !gov.sessions.contains_key(sid) {
        Some(governance_voting::Error::SessionNotFound)
    } else if now <= gov.sessions[sid].end_at {
        Some(governance_voting::Error::SessionNotEnded)
    } else if !gov.qf_fit(sid, matching_pool) {
        Some(governance_voting::Error::Overflow)
    } else {
        None
    }
}

impl GrantState {
    /// The number of grants created so far.
    pub open spec fn count(self) -> u64 {
        match self.grant_count {
            Some(c) => c,
            None => 0,
        }
    }

    /// The storage with the status of grant `id` set to `status`.
    pub open spec fn with_status(self, id: u64, status: GrantStatus) -> GrantState {
        GrantState { grants: self.grants.insert(id, Grant { status, ..self.grants[id] }), ..self }
    }

    /// The storage with a new grant `g` recorded as the latest one.
    pub open spec fn with_new_grant(self, g: Grant) -> GrantState {
        GrantState { grant_count: Some(g.id), grants: self.grants.insert(g.id, g), ..self }
    }

    /// What `create_milestone_grant` returns.
    pub open spec fn milestone_grant_result(
        self,
        escrow: EscrowState,
        recipient: Address,
        amount: i128,
        descs: Seq<(String, u32)>,
    ) -> Result<u64, Error> {
        let id = (self.count() + 1) as u64;
        let slots = grant_slots(descs, recipient, amount);
        if amount <= 0 {
            Err(Error::InvalidAmount)
        } else if pct_total(descs) != 10000 {
            Err(Error::InvalidMilestonePercents)
        } else if escrow.has_pool_for(ModuleType::Grant, id) {
            Err(Error::Escrow(EscrowError::PoolAlreadyExists))
        } else if !grant_slots_fit(descs, amount) {
            Err(Error::Overflow)
        } else if !running_sums_fit(0, slots) {
            Err(Error::Escrow(EscrowError::Overflow))
        } else if amounts_total(slots) > amount {
            Err(Error::Escrow(EscrowError::SlotsExceedDeposit))
        } else {
            Ok(id)
        }
    }

    /// The checks of `approve_grant_milestone` before the release.
    pub open spec fn approve_check(self, id: u64, idx: u32) -> Result<(), Error> {
        if self.admin is None {
            Err(Error::NotInitialized)
        } else if !self.grants.contains_key(id) {
            Err(Error::GrantNotFound)
        } else if !self.milestones.contains_key((id, idx)) {
            Err(Error::MilestoneNotFound)
        } else if self.milestones[(id, idx)].status != MilestoneStatus::Submitted {
            Err(Error::MilestoneNotSubmitted)
        } else {
            Ok(())
        }
    }

    /// What the release of milestone `idx` of grant `id` returns.
    pub open spec fn release_result(self, escrow: EscrowState, rep: ReputationState, id: u64, idx: u32) -> Result<(), Error> {
        let g = self.grants[id];
        let scan = released_scan(self.milestones, id, idx, g.milestone_count as nat);
        if escrow.release_slot_result(g.pool_id, idx) is Err {
            Err(Error::Escrow(escrow.release_slot_result(g.pool_id, idx)->Err_0))
        } else if scan is Err {
            Err(scan->Err_0)
        } else if scan == Ok::<bool, Error>(true) && !self.recipients.contains_key(id) {
            Err(Error::GrantNotFound)
        } else if scan == Ok::<bool, Error>(true) && !rep.authorized(self.address) {
            Err(Error::Reputation(ReputationError::ModuleNotAuthorized))
        } else {
            Ok(())
        }
    }

    /// The checks that grant `id` is an active grant of type `t`.
    pub open spec fn active_check(self, id: u64, t: GrantType, wrong_type: Error) -> Result<(), Error> {
        if self.admin is None {
            Err(Error::NotInitialized)
        } else if !self.grants.contains_key(id) {
            Err(Error::GrantNotFound)
        } else if self.grants[id].grant_type != t {
            Err(wrong_type)
        } else if self.grants[id].status != GrantStatus::Active {
            Err(Error::GrantNotActive)
        } else {
            Ok(())
        }
    }

    /// The payouts of retrospective grant `id` to `recipients` by the votes in `gov`.
    pub open spec fn retro_payouts(self, gov: GovernanceState, id: u64, recipients: Seq<Address>) -> (Seq<(Address, i128)>, bool) {
        let opts = session_options(gov, self.retro_sessions[id]);
        let total = votes_total(opts);
        if total > 0 {
            retro_shares(opts, recipients, self.grants[id].amount, total, opts.len())
        } else {
            (Seq::empty(), false)
        }
    }

    /// What `finalize_retrospective` returns.
    pub open spec fn retro_result(
        self,
        escrow: EscrowState,
        rep: ReputationState,
        gov: GovernanceState,
        id: u64,
        recipients: Seq<Address>,
    ) -> Result<(), Error> {
        let sid = self.retro_sessions[id];
        let payouts = self.retro_payouts(gov, id, recipients);
        if self.active_check(id, GrantType::Retrospective, Error::NotRetrospectiveGrant) is Err {
            self.active_check(id, GrantType::Retrospective, Error::NotRetrospectiveGrant)
        } else if !self.retro_sessions.contains_key(id) {
            Err(Error::NoVoteSession)
        } else if !gov.sessions.contains_key(sid) {
            Err(Error::Governance(governance_voting::Error::SessionNotFound))
        } else if !gov.all_options_stored(sid) {
            Err(Error::Governance(governance_voting::Error::InvalidOption))
        } else if payouts_result(escrow, rep, self.address, self.grants[id].pool_id, payouts.0) is Err {
            payouts_result(escrow, rep, self.address, self.grants[id].pool_id, payouts.0)
        } else if payouts.1 {
            Err(Error::Overflow)
        } else {
            Ok(())
        }
    }

    /// The payouts of quadratic-funding round `id` to `addrs`.
    pub open spec fn qf_round_payouts(self, gov: GovernanceState, id: u64, addrs: Seq<Address>) -> (Seq<(Address, i128)>, bool) {
        let q = self.qf_rounds[id];
        let dist = qf_distribution(gov, q.session_id, q.matching_pool);
        qf_payouts(dist, addrs, dist.len())
    }

    /// What `finalize_qf_round` returns.
    pub open spec fn qf_result(
        self,
        escrow: EscrowState,
        rep: ReputationState,
        gov: GovernanceState,
        id: u64,
        addrs: Seq<Address>,
        now: u64,
    ) -> Result<(), Error> {
        let q = self.qf_rounds[id];
        let payouts = self.qf_round_payouts(gov, id, addrs);
        let dist_err = qf_distribution_error(gov, q.session_id, q.matching_pool, now);
        if self.active_check(id, GrantType::QF, Error::NotQFGrant) is Err {
            self.active_check(id, GrantType::QF, Error::NotQFGrant)
        } else if !self.qf_rounds.contains_key(id) {
            Err(Error::GrantNotFound)
        } else if dist_err is Some {
            Err(Error::Governance(dist_err->0))
        } else if payouts_result(escrow, rep, self.address, self.grants[id].pool_id, payouts.0) is Err {
            payouts_result(escrow, rep, self.address, self.grants[id].pool_id, payouts.0)
        } else if payouts.1 {
            Err(Error::InvalidProjectIndex)
        } else {
            Ok(())
        }
    }
}

/// A grant as created: active, with an empty metadata reference.
pub open spec fn fresh_grant(
    id: u64,
    creator: Address,
    grant_type: GrantType,
    amount: i128,
    asset: Address,
    pool_id: BytesN32,
    milestone_count: u32,
    metadata_cid: String,
    created_at: u64,
) -> Grant {
    Grant {
        id,
        creator,
        grant_type,
        status: GrantStatus::Active,
        amount,
        asset,
        pool_id,
        milestone_count,
        metadata_cid,
        created_at,
    }
}


proof fn lemma_scan_extends(ms: Map<(u64, u32), GrantMilestone>, id: u64, idx: u32, k: nat, n: nat)
    requires
        k <= n,
        released_scan(ms, id, idx, k) != Ok::<bool, Error>(true),
    ensures
        released_scan(ms, id, idx, n) == released_scan(ms, id, idx, k),
    decreases n,
{
    if n > k {
        lemma_scan_extends(ms, id, idx, k, (n - 1) as nat);
    }
}

impl GrantHub {
    /// A grant hub at `address` with empty storage.
    pub fn new(address: Address) -> (c: GrantHub)
        ensures
            c@ == (GrantState {
                address,
                admin: None,
                core_escrow: None,
                reputation_registry: None,
                governance_voting: None,
                grant_count: None,
                grants: Map::empty(),
                milestones: Map::empty(),
                recipients: Map::empty(),
                retro_sessions: Map::empty(),
                qf_rounds: Map::empty(),
            }),
    {
        GrantHub {
            address,
            admin: None,
            core_escrow: None,
            reputation_registry: None,
            governance_voting: None,
            grant_count: None,
            grants: Table::new(),
            milestones: Table::new(),
            recipients: Table::new(),
            retro_sessions: Table::new(),
            qf_rounds: Table::new(),
        }
    }

    pub fn init(
        &mut self,
        admin: Address,
        core_escrow: Address,
        reputation_registry: Address,
        governance_voting: Address,
    ) -> (r: Result<(), Error>)
        ensures
            old(self)@.admin is Some ==> r == Err::<(), _>(Error::AlreadyInitialized) && final(self)@ == old(self)@,
            old(self)@.admin is None ==> r is Ok && final(self)@ == (GrantState {
                admin: Some(admin),
                core_escrow: Some(core_escrow),
                reputation_registry: Some(reputation_registry),
                governance_voting: Some(governance_voting),
                grant_count: Some(0),
                ..old(self)@
            }),
    {
        if self.admin.is_some() {
            return Err(Error::AlreadyInitialized);
        }
        self.admin = Some(admin);
        self.core_escrow = Some(core_escrow);
        self.reputation_registry = Some(reputation_registry);
        self.governance_voting = Some(governance_voting);
        self.grant_count = Some(0);
        Ok(())
    }

    pub fn get_grant(&self, grant_id: u64) -> (r: Result<Grant, Error>)
        ensures
            r == if self@.grants.contains_key(grant_id) {
                Ok(self@.grants[grant_id])
            } else {
                Err(Error::GrantNotFound)
            },
    {
        match self.grants.get(&grant_id) {
            Some(g) => Ok(g.snapshot()),
            None => Err(Error::GrantNotFound),
        }
    }

    pub fn get_milestone(&self, grant_id: u64, milestone_index: u32) -> (r: Result<GrantMilestone, Error>)
        ensures
            r == if self@.milestones.contains_key((grant_id, milestone_index)) {
                Ok(self@.milestones[(grant_id, milestone_index)])
            } else {
                Err(Error::MilestoneNotFound)
            },
    {
        match self.milestones.get(&(grant_id, milestone_index)) {
            Some(m) => Ok(m.snapshot()),
            None => Err(Error::MilestoneNotFound),
        }
    }

    pub fn get_qf_round(&self, grant_id: u64) -> (r: Result<QFRoundData, Error>)
        ensures
            r == if self@.qf_rounds.contains_key(grant_id) {
                Ok(self@.qf_rounds[grant_id])
            } else {
                Err(Error::GrantNotFound)
            },
    {
        match self.qf_rounds.get(&grant_id) {
            Some(q) => Ok(*q),
            None => Err(Error::GrantNotFound),
        }
    }

    pub fn get_retro_session(&self, grant_id: u64) -> (r: Result<BytesN32, Error>)
        ensures
            r == if self@.retro_sessions.contains_key(grant_id) {
                Ok(self@.retro_sessions[grant_id])
            } else {
                Err(Error::NoVoteSession)
            },
    {
        match self.retro_sessions.get(&grant_id) {
            Some(s) => Ok(*s),
            None => Err(Error::NoVoteSession),
        }
    }

    /// Checks that an upgrade may proceed: the contract must be initialised.
    pub fn upgrade(&self, new_wasm_hash: BytesN32) -> (r: Result<(), Error>)
        ensures
            r == if self@.admin is Some {
                Ok::<(), Error>(())
            } else {
                Err(Error::NotInitialized)
            },
    {
        if self.admin.is_none() {
            return Err(Error::NotInitialized);
        }
        Ok(())
    }

    /// Creates a milestone grant: the creator funds a pool of `amount`, divided
    /// into one locked release slot per milestone for `recipient`.
    #[verifier::loop_isolation(false)]
    pub fn create_milestone_grant(
        &mut self,
        env: &mut Env,
        escrow: &mut CoreEscrow,
        creator: Address,
        recipient: Address,
        amount: i128,
        asset: Address,
        milestone_descs: Vec<(String, u32)>,
    ) -> (r: Result<u64, Error>)
        requires
            old(self)@.count() < u64::MAX,
            pct_total(milestone_descs@) <= u32::MAX,
            milestone_descs@.len() <= u32::MAX,
            old(env)@.timestamp + GRANT_POOL_LIFETIME <= u64::MAX,
            old(self)@.core_escrow matches Some(a) ==> old(escrow)@.address == a,
            amount > 0 && pct_total(milestone_descs@) == 10000 ==> old(self)@.core_escrow is Some,
        ensures
            r == old(self)@.milestone_grant_result(old(escrow)@, recipient, amount, milestone_descs@),
            r is Err ==> final(self)@ == old(self)@ && final(escrow)@ == old(escrow)@ && final(env)@ == old(env)@,
            r matches Ok(id) ==> {
                let now = old(env)@.timestamp;
                let g = final(self)@.grants[id];
                let pid = g.pool_id;
                &&& pid.bytes@ == pool_id_spec(ModuleType::Grant, id)
                &&& g.metadata_cid@ == Seq::<char>::empty()
                &&& final(self)@ == (GrantState {
                    milestones: grant_milestones_written(old(self)@.milestones, id, milestone_descs@),
                    recipients: old(self)@.recipients.insert(id, recipient),
                    ..old(self)@.with_new_grant(
                        fresh_grant(
                            id,
                            creator,
                            GrantType::Milestone,
                            amount,
                            asset,
                            pid,
                            milestone_descs@.len() as u32,
                            g.metadata_cid,
                            now,
                        ),
                    )
                })
                &&& final(escrow)@ == old(escrow)@.pool_created(
                    pid, creator, ModuleType::Grant, amount, asset, (now + GRANT_POOL_LIFETIME) as u64,
                    old(self)@.address, now,
                ).slots_defined(pid, grant_slots(milestone_descs@, recipient, amount)).pool_locked(pid)
                &&& final(env)@ == old(escrow)@.create_pool_env(
                    old(env)@, pid, creator, ModuleType::Grant, amount, asset,
                ).emit(Event::PoolLocked(PoolLocked { pool_id: pid })).emit(
                    Event::GrantCreated(GrantCreated { id, grant_type: GrantType::Milestone, creator, amount }),
                )
            },
    {
        if amount <= 0 {
            return Err(Error::InvalidAmount);
        }
        let n = milestone_descs.len();
        let mut total_pct: u32 = 0;
        let mut i: usize = 0;
        while i < n
            invariant
                n == milestone_descs@.len(),
                i <= n,
                total_pct == pct_total(milestone_descs@.take(i as int)),
            decreases n - i,
        {
            proof {
                lemma_pct_total_prefix(milestone_descs@, i as int);
                lemma_pct_total_prefix(milestone_descs@, i + 1);
            }
            total_pct = total_pct + milestone_descs[i].1;
            i = i + 1;
        }
        assert(milestone_descs@.take(n as int) =~= milestone_descs@);
        if total_pct != 10000 {
            return Err(Error::InvalidMilestonePercents);
        }
        let id = match self.grant_count {
            Some(c) => c,
            None => 0,
        } + 1;
        let now = env.timestamp;
        let saved = escrow.snapshot();
        let m = env.mark();
        let pool_id = match escrow.create_pool(
            env,
            creator,
            ModuleType::Grant,
            id,
            amount,
            asset,
            now + GRANT_POOL_LIFETIME,
            self.address,
        ) {
            Ok(p) => p,
            Err(e) => return Err(Error::Escrow(e)),
        };
        let ghost e1 = escrow@;
        let ghost v1 = env@;
        let mut slots: Vec<(Address, i128)> = Vec::new();
        let mut j: usize = 0;
        while j < n
            invariant
                n == milestone_descs@.len(),
                j <= n,
                slots@ == grant_slots(milestone_descs@.take(j as int), recipient, amount),
                slots@.len() == j,
                forall|k: int| 0 <= k < j ==> #[trigger] fee_bps_spec(amount as int, milestone_descs@[k].1 as int) is Some,
                escrow@ == e1,
                env@ == v1,
            decreases n - j,
        {
            proof {
                assert(milestone_descs@.take(j + 1).drop_last() =~= milestone_descs@.take(j as int));
            }
            match calculate_fee_bps(amount, milestone_descs[j].1) {
                Some(a) => slots.push((recipient, a)),
                None => {
                    *escrow = saved;
                    env.rollback(m);
                    assert(env@.transfers =~= old(env)@.transfers);
                    assert(env@.events =~= old(env)@.events);
                    return Err(Error::Overflow);
                },
            }
            j = j + 1;
        }
        assert(milestone_descs@.take(n as int) =~= milestone_descs@);
        match escrow.define_release_slots(pool_id, &slots) {
            Ok(()) => {},
            Err(e) => {
                *escrow = saved;
                env.rollback(m);
                assert(env@.transfers =~= old(env)@.transfers);
                assert(env@.events =~= old(env)@.events);
                return Err(Error::Escrow(e));
            },
        }
        let locked = escrow.lock_pool(env, pool_id);
        assert(locked is Ok);
        let ghost s0 = self@;
        let mut k: usize = 0;
        while k < n
            invariant
                n == milestone_descs@.len(),
                n <= u32::MAX,
                k <= n,
                self@ == (GrantState {
                    milestones: grant_milestones_written(s0.milestones, id, milestone_descs@.take(k as int)),
                    ..s0
                }),
            decreases n - k,
        {
            let ms = GrantMilestone {
                id: k as u32,
                description: milestone_descs[k].0.clone(),
                pct: milestone_descs[k].1,
                status: MilestoneStatus::Pending,
            };
            proof {
                assert(milestone_descs@.take(k + 1).drop_last() =~= milestone_descs@.take(k as int));
            }
            self.milestones.insert((id, k as u32), ms);
            k = k + 1;
        }
        assert(milestone_descs@.take(n as int) =~= milestone_descs@);
        self.recipients.insert(id, recipient);
        let cid = String::from_str("");
        proof {
            reveal_strlit("");
        }
        let grant = Grant {
            id,
            creator,
            grant_type: GrantType::Milestone,
            status: GrantStatus::Active,
            amount,
            asset,
            pool_id,
            milestone_count: n as u32,
            metadata_cid: cid,
            created_at: now,
        };
        self.grant_count = Some(id);
        self.grants.insert(id, grant);
        env.emit(Event::GrantCreated(GrantCreated { id, grant_type: GrantType::Milestone, creator, amount }));
        Ok(id)
    }

    /// The recipient submits a pending (or rejected) milestone of a milestone grant.
    pub fn submit_grant_milestone(&mut self, env: &mut Env, recipient: Address, grant_id: u64, milestone_index: u32) -> (r: Result<(), Error>)
        ensures
            ({
                let k = (grant_id, milestone_index);
                let st = old(self)@.milestones[k].status;
                &&& r == if !old(self)@.grants.contains_key(grant_id) {
                    Err(Error::GrantNotFound)
                } else if old(self)@.grants[grant_id].grant_type != GrantType::Milestone {
                    Err(Error::NotMilestoneGrant)
                } else if !old(self)@.milestones.contains_key(k) {
                    Err(Error::MilestoneNotFound)
                } else if st != MilestoneStatus::Pending && st != MilestoneStatus::Rejected {
                    Err(Error::InvalidMilestoneStatus)
                } else {
                    Ok(())
                }
                &&& r is Err ==> final(self)@ == old(self)@ && final(env)@ == old(env)@
                &&& r is Ok ==> final(self)@ == (GrantState {
                    milestones: old(self)@.milestones.insert(
                        k,
                        GrantMilestone { status: MilestoneStatus::Submitted, ..old(self)@.milestones[k] },
                    ),
                    ..old(self)@
                }) && final(env)@ == old(env)@.emit(
                    Event::GrantMilestoneSubmitted(MilestoneSubmitted { grant_id, milestone_index }),
                )
            }),
    {
        let grant_type = match self.grants.get(&grant_id) {
            Some(g) => g.grant_type,
            None => return Err(Error::GrantNotFound),
        };
        if grant_type != GrantType::Milestone {
            return Err(Error::NotMilestoneGrant);
        }
        let mut ms = match self.milestones.get(&(grant_id, milestone_index)) {
            Some(m) => m.snapshot(),
            None => return Err(Error::MilestoneNotFound),
        };
        if ms.status != MilestoneStatus::Pending && ms.status != MilestoneStatus::Rejected {
            return Err(Error::InvalidMilestoneStatus);
        }
        ms.status = MilestoneStatus::Submitted;
        self.milestones.insert((grant_id, milestone_index), ms);
        env.emit(Event::GrantMilestoneSubmitted(MilestoneSubmitted { grant_id, milestone_index }));
        Ok(())
    }

    /// The admin approves a submitted milestone: its slot is paid to the
    /// recipient. With the last milestone the grant completes and the
    /// recipient is credited with the grant; before that it is executing.
    #[verifier::loop_isolation(false)]
    pub fn approve_grant_milestone(
        &mut self,
        env: &mut Env,
        escrow: &mut CoreEscrow,
        rep: &mut ReputationRegistry,
        grant_id: u64,
        milestone_index: u32,
    ) -> (r: Result<(), Error>)
        requires
            old(self)@.core_escrow matches Some(a) ==> old(escrow)@.address == a,
            old(self)@.reputation_registry matches Some(a) ==> old(rep)@.address == a,
            old(self)@.grants.contains_key(grant_id) ==> old(self)@.core_escrow is Some
                && old(self)@.reputation_registry is Some,
            old(self)@.grants.contains_key(grant_id) && old(self)@.recipients.contains_key(grant_id) ==> old(
                rep,
            )@.stored_profile_satisfies(
                old(self)@.recipients[grant_id],
                |p: ContributorProfile| grant_fits(p, old(self)@.grants[grant_id].amount),
            ),
        ensures
            ({
                let g = old(self)@.grants[grant_id];
                let k = (grant_id, milestone_index);
                let check = old(self)@.approve_check(grant_id, milestone_index);
                let done = released_scan(old(self)@.milestones, grant_id, milestone_index, g.milestone_count as nat)
                    == Ok::<bool, Error>(true);
                let s1 = GrantState {
                    milestones: old(self)@.milestones.insert(
                        k,
                        GrantMilestone { status: MilestoneStatus::Released, ..old(self)@.milestones[k] },
                    ),
                    ..old(self)@
                };
                let e1 = old(escrow)@.release_slot_env(old(env)@, g.pool_id, milestone_index).emit(
                    Event::GrantMilestoneApproved(MilestoneApproved { grant_id, milestone_index }),
                );
                &&& check is Err ==> r == check
                &&& check is Ok ==> r == old(self)@.release_result(old(escrow)@, old(rep)@, grant_id, milestone_index)
                &&& r is Err ==> final(self)@ == old(self)@ && final(escrow)@ == old(escrow)@ && final(rep)@ == old(rep)@
                    && final(env)@ == old(env)@
                &&& r is Ok ==> final(self)@ == if done {
                    s1.with_status(grant_id, GrantStatus::Completed)
                } else if g.status == GrantStatus::Active {
                    s1.with_status(grant_id, GrantStatus::Executing)
                } else {
                    s1
                }
                &&& r is Ok ==> final(escrow)@ == old(escrow)@.slot_released(g.pool_id, milestone_index, old(env)@.timestamp)
                &&& r is Ok && done ==> profile_rewritten(
                    old(rep)@,
                    final(rep)@,
                    old(self)@.recipients[grant_id],
                    old(env)@.timestamp,
                    |p: ContributorProfile| grant_recorded(p, g.amount),
                )
                &&& r is Ok && !done ==> final(rep)@ == old(rep)@
                &&& r is Ok ==> final(env)@ == if done {
                    e1.emit(Event::GrantCompleted(GrantCompleted { grant_id }))
                } else {
                    e1
                }
            }),
    {
        if self.admin.is_none() {
            return Err(Error::NotInitialized);
        }
        let mut g = match self.grants.get(&grant_id) {
            Some(g) => g.snapshot(),
            None => return Err(Error::GrantNotFound),
        };
        let mut ms = match self.milestones.get(&(grant_id, milestone_index)) {
            Some(m) => m.snapshot(),
            None => return Err(Error::MilestoneNotFound),
        };
        if ms.status != MilestoneStatus::Submitted {
            return Err(Error::MilestoneNotSubmitted);
        }
        let saved = escrow.snapshot();
        let m = env.mark();
        match escrow.release_slot(env, g.pool_id, milestone_index) {
            Ok(()) => {},
            Err(e) => return Err(Error::Escrow(e)),
        }
        let ghost e2 = escrow@;
        let ghost v2 = env@;
        let n = g.milestone_count;
        let mut done = true;
        let mut i: u32 = 0;
        while i < n
            invariant
                i <= n,
                released_scan(self@.milestones, grant_id, milestone_index, i as nat) == Ok::<bool, Error>(done),
                escrow@ == e2,
                env@ == v2,
            decreases n - i,
        {
            if done && i != milestone_index {
                match self.milestones.get(&(grant_id, i)) {
                    Some(x) => {
                        if x.status != MilestoneStatus::Released {
                            done = false;
                        }
                    },
                    None => {
                        *escrow = saved;
                        env.rollback(m);
                        assert(env@.transfers =~= old(env)@.transfers);
                        assert(env@.events =~= old(env)@.events);
                        proof {
                            lemma_scan_extends(self@.milestones, grant_id, milestone_index, (i + 1) as nat, n as nat);
                        }
                        return Err(Error::MilestoneNotFound);
                    },
                }
            }
            i = i + 1;
        }
        if done {
            let recipient = match self.recipients.get(&grant_id) {
                Some(a) => *a,
                None => {
                    *escrow = saved;
                    env.rollback(m);
                    assert(env@.transfers =~= old(env)@.transfers);
                    assert(env@.events =~= old(env)@.events);
                    return Err(Error::GrantNotFound);
                },
            };
            match rep.record_grant_received(env, self.address, recipient, g.amount) {
                Ok(()) => {},
                Err(e) => {
                    *escrow = saved;
                    env.rollback(m);
                    assert(env@.transfers =~= old(env)@.transfers);
                    assert(env@.events =~= old(env)@.events);
                    return Err(Error::Reputation(e));
                },
            }
        } else {
            proof {
                lemma_scan_extends(old(self)@.milestones, grant_id, milestone_index, n as nat, n as nat);
            }
        }
        ms.status = MilestoneStatus::Released;
        self.milestones.insert((grant_id, milestone_index), ms);
        if done {
            g.status = GrantStatus::Completed;
            self.grants.insert(grant_id, g);
        } else if g.status == GrantStatus::Active {
            g.status = GrantStatus::Executing;
            self.grants.insert(grant_id, g);
        }
        env.emit(Event::GrantMilestoneApproved(MilestoneApproved { grant_id, milestone_index }));
        if done {
            env.emit(Event::GrantCompleted(GrantCompleted { grant_id }));
        }
        Ok(())
    }

    /// The creator cancels a pending or active grant; its pool is refunded to them.
    pub fn cancel_grant(&mut self, env: &mut Env, escrow: &mut CoreEscrow, creator: Address, grant_id: u64) -> (r: Result<(), Error>)
        requires
            old(self)@.core_escrow matches Some(a) ==> old(escrow)@.address == a,
            old(self)@.grants.contains_key(grant_id) ==> old(self)@.core_escrow is Some,
        ensures
            ({
                let g = old(self)@.grants[grant_id];
                &&& r == if !old(self)@.grants.contains_key(grant_id) {
                    Err(Error::GrantNotFound)
                } else if g.creator != creator {
                    Err(Error::NotCreator)
                } else if g.status != GrantStatus::Pending && g.status != GrantStatus::Active {
                    Err(Error::CannotCancel)
                } else {
                    match old(escrow)@.refund_all_result(g.pool_id) {
                        Err(e) => Err(Error::Escrow(e)),
                        Ok(_) => Ok(()),
                    }
                }
                &&& r is Err ==> final(self)@ == old(self)@ && final(escrow)@ == old(escrow)@ && final(env)@ == old(env)@
                &&& r is Ok ==> final(self)@ == old(self)@.with_status(grant_id, GrantStatus::Cancelled)
                    && final(escrow)@ == old(escrow)@.refunded_all(g.pool_id) && final(env)@ == old(
                    escrow,
                )@.refund_all_env(old(env)@, g.pool_id)
            }),
    {
        let mut g = match self.grants.get(&grant_id) {
            Some(g) => g.snapshot(),
            None => return Err(Error::GrantNotFound),
        };
        if g.creator.id != creator.id {
            return Err(Error::NotCreator);
        }
        if g.status != GrantStatus::Pending && g.status != GrantStatus::Active {
            return Err(Error::CannotCancel);
        }
        match escrow.refund_all(env, g.pool_id) {
            Ok(()) => {},
            Err(e) => return Err(Error::Escrow(e)),
        }
        g.status = GrantStatus::Cancelled;
        self.grants.insert(grant_id, g);
        Ok(())
    }
}


proof fn lemma_votes_prefix(s: Seq<VoteOption>, k: int)
    requires
        0 <= k <= s.len(),
    ensures
        0 <= votes_total(s.take(k)) <= votes_total(s),
        k < s.len() ==> votes_total(s.take(k + 1)) == votes_total(s.take(k)) + s[k].weighted_votes,
    decreases s.len(),
{
    if k < s.len() {
        assert(s.take(k + 1).drop_last() =~= s.take(k));
        lemma_votes_prefix(s.drop_last(), k);
        assert(s.drop_last().take(k) =~= s.take(k));
        assert(s.drop_last().take(s.len() - 1) =~= s.drop_last());
        lemma_votes_prefix(s.drop_last(), s.len() - 1);
    } else {
        assert(s.take(k) =~= s);
        if s.len() > 0 {
            lemma_votes_prefix(s.drop_last(), s.len() - 1);
            assert(s.drop_last().take(s.len() - 1) =~= s.drop_last());
        }
    }
}

impl GrantState {
    /// What opening a funded, locked voting round of `amount` for `duration` returns.
    pub open spec fn round_result(self, escrow: EscrowState, gov: GovernanceState, amount: i128, duration: u64) -> Result<u64, Error> {
        let id = (self.count() + 1) as u64;
        if amount <= 0 {
            Err(Error::InvalidAmount)
        } else if escrow.has_pool_for(ModuleType::Grant, id) {
            Err(Error::Escrow(EscrowError::PoolAlreadyExists))
        } else if !gov.module_authorized(self.address) {
            Err(Error::Governance(governance_voting::Error::ModuleNotAuthorized))
        } else if duration == 0 {
            Err(Error::Governance(governance_voting::Error::InvalidTimeRange))
        } else {
            Ok(id)
        }
    }
}

impl GrantHub {
    /// Opens grant `id`'s pool of `amount`, locks it, and opens its voting
    /// session with the options `labels`; changes nothing on failure.
    fn open_round(
        &self,
        env: &mut Env,
        escrow: &mut CoreEscrow,
        gov: &mut GovernanceVoting,
        id: u64,
        creator: Address,
        amount: i128,
        asset: Address,
        context: VoteContext,
        labels: &Vec<String>,
        duration: u64,
        weighted: bool,
    ) -> (r: Result<(BytesN32, BytesN32), Error>)
        requires
            amount > 0,
            id == self@.count() + 1,
            labels@.len() <= u32::MAX,
            old(env)@.timestamp + GRANT_POOL_LIFETIME <= u64::MAX,
            old(env)@.timestamp + duration <= u64::MAX,
        ensures
            r is Err ==> r == Err::<(BytesN32, BytesN32), Error>(
                self@.round_result(old(escrow)@, old(gov)@, amount, duration)->Err_0,
            ),
            r is Ok <==> self@.round_result(old(escrow)@, old(gov)@, amount, duration) is Ok,
            r is Err ==> final(escrow)@ == old(escrow)@ && final(gov)@ == old(gov)@ && final(env)@ == old(env)@,
            r matches Ok((pid, sid)) ==> {
                let now = old(env)@.timestamp;
                &&& pid.bytes@ == pool_id_spec(ModuleType::Grant, id)
                &&& sid.bytes@ == governance_voting::session_id_spec(context, id)
                &&& final(escrow)@ == old(escrow)@.pool_created(
                    pid, creator, ModuleType::Grant, amount, asset, (now + GRANT_POOL_LIFETIME) as u64,
                    self@.address, now,
                ).pool_locked(pid)
                &&& final(gov)@ == old(gov)@.session_opened(
                    sid, labels@, context, id, now, now, (now + duration) as u64, None, None, weighted,
                )
                &&& final(env)@ == old(escrow)@.create_pool_env(
                    old(env)@, pid, creator, ModuleType::Grant, amount, asset,
                ).emit(Event::PoolLocked(PoolLocked { pool_id: pid })).emit(
                    Event::SessionCreated(SessionCreated { session_id: sid, context, module_id: id }),
                )
            },
    {
        let now = env.timestamp;
        let saved = escrow.snapshot();
        let m = env.mark();
        let pool_id = match escrow.create_pool(
            env,
            creator,
            ModuleType::Grant,
            id,
            amount,
            asset,
            now + GRANT_POOL_LIFETIME,
            self.address,
        ) {
            Ok(p) => p,
            Err(e) => return Err(Error::Escrow(e)),
        };
        let locked = escrow.lock_pool(env, pool_id);
        assert(locked is Ok);
        match gov.create_session(env, self.address, context, id, labels, now, now + duration, None, None, weighted) {
            Ok(sid) => Ok((pool_id, sid)),
            Err(e) => {
                *escrow = saved;
                env.rollback(m);
                assert(env@.transfers =~= old(env)@.transfers);
                assert(env@.events =~= old(env)@.events);
                Err(Error::Governance(e))
            },
        }
    }

    /// Creates a retrospective grant: the creator funds a locked pool of
    /// `amount`, and a vote weighted by reputation over `options` decides later
    /// how it is shared.
    pub fn create_retrospective_grant(
        &mut self,
        env: &mut Env,
        escrow: &mut CoreEscrow,
        gov: &mut GovernanceVoting,
        creator: Address,
        amount: i128,
        asset: Address,
        options: Vec<String>,
        voting_duration: u64,
    ) -> (r: Result<u64, Error>)
        requires
            old(self)@.count() < u64::MAX,
            options@.len() <= u32::MAX,
            old(env)@.timestamp + GRANT_POOL_LIFETIME <= u64::MAX,
            old(env)@.timestamp + voting_duration <= u64::MAX,
            old(self)@.core_escrow matches Some(a) ==> old(escrow)@.address == a,
            old(self)@.governance_voting matches Some(a) ==> old(gov)@.address == a,
            amount > 0 ==> old(self)@.core_escrow is Some && old(self)@.governance_voting is Some,
        ensures
            r == old(self)@.round_result(old(escrow)@, old(gov)@, amount, voting_duration),
            r is Err ==> final(self)@ == old(self)@ && final(escrow)@ == old(escrow)@ && final(gov)@ == old(gov)@
                && final(env)@ == old(env)@,
            r matches Ok(id) ==> {
                let now = old(env)@.timestamp;
                let g = final(self)@.grants[id];
                let pid = g.pool_id;
                let sid = final(self)@.retro_sessions[id];
                &&& pid.bytes@ == pool_id_spec(ModuleType::Grant, id)
                &&& sid.bytes@ == governance_voting::session_id_spec(VoteContext::RetrospectiveGrant, id)
                &&& g.metadata_cid@ == Seq::<char>::empty()
                &&& final(self)@ == (GrantState {
                    retro_sessions: old(self)@.retro_sessions.insert(id, sid),
                    ..old(self)@.with_new_grant(
                        fresh_grant(id, creator, GrantType::Retrospective, amount, asset, pid, 0, g.metadata_cid, now),
                    )
                })
                &&& final(escrow)@ == old(escrow)@.pool_created(
                    pid, creator, ModuleType::Grant, amount, asset, (now + GRANT_POOL_LIFETIME) as u64,
                    old(self)@.address, now,
                ).pool_locked(pid)
                &&& final(gov)@ == old(gov)@.session_opened(
                    sid, options@, VoteContext::RetrospectiveGrant, id, now, now, (now + voting_duration) as u64,
                    None, None, true,
                )
                &&& final(env)@ == old(escrow)@.create_pool_env(
                    old(env)@, pid, creator, ModuleType::Grant, amount, asset,
                ).emit(Event::PoolLocked(PoolLocked { pool_id: pid })).emit(
                    Event::SessionCreated(
                        SessionCreated { session_id: sid, context: VoteContext::RetrospectiveGrant, module_id: id },
                    ),
                ).emit(Event::GrantCreated(GrantCreated { id, grant_type: GrantType::Retrospective, creator, amount }))
            },
    {
        if amount <= 0 {
            return Err(Error::InvalidAmount);
        }
        let id = match self.grant_count {
            Some(c) => c,
            None => 0,
        } + 1;
        let now = env.timestamp;
        let (pool_id, session_id) = self.open_round(
            env,
            escrow,
            gov,
            id,
            creator,
            amount,
            asset,
            VoteContext::RetrospectiveGrant,
            &options,
            voting_duration,
            true,
        )?;
        self.retro_sessions.insert(id, session_id);
        let cid = String::from_str("");
        proof {
            reveal_strlit("");
        }
        let grant = Grant {
            id,
            creator,
            grant_type: GrantType::Retrospective,
            status: GrantStatus::Active,
            amount,
            asset,
            pool_id,
            milestone_count: 0,
            metadata_cid: cid,
            created_at: now,
        };
        self.grant_count = Some(id);
        self.grants.insert(id, grant);
        env.emit(Event::GrantCreated(GrantCreated { id, grant_type: GrantType::Retrospective, creator, amount }));
        Ok(id)
    }

    /// Creates a quadratic-funding round: the creator funds a locked matching
    /// pool, and donations to the projects `project_names` are recorded in a
    /// voting session.
    pub fn create_qf_round(
        &mut self,
        env: &mut Env,
        escrow: &mut CoreEscrow,
        gov: &mut GovernanceVoting,
        creator: Address,
        matching_pool: i128,
        asset: Address,
        project_names: Vec<String>,
        duration: u64,
    ) -> (r: Result<u64, Error>)
        requires
            old(self)@.count() < u64::MAX,
            project_names@.len() <= u32::MAX,
            old(env)@.timestamp + GRANT_POOL_LIFETIME <= u64::MAX,
            old(env)@.timestamp + duration <= u64::MAX,
            old(self)@.core_escrow matches Some(a) ==> old(escrow)@.address == a,
            old(self)@.governance_voting matches Some(a) ==> old(gov)@.address == a,
            matching_pool > 0 ==> old(self)@.core_escrow is Some && old(self)@.governance_voting is Some,
        ensures
            r == old(self)@.round_result(old(escrow)@, old(gov)@, matching_pool, duration),
            r is Err ==> final(self)@ == old(self)@ && final(escrow)@ == old(escrow)@ && final(gov)@ == old(gov)@
                && final(env)@ == old(env)@,
            r matches Ok(id) ==> {
                let now = old(env)@.timestamp;
                let g = final(self)@.grants[id];
                let pid = g.pool_id;
                let sid = final(self)@.qf_rounds[id].session_id;
                &&& pid.bytes@ == pool_id_spec(ModuleType::Grant, id)
                &&& sid.bytes@ == governance_voting::session_id_spec(VoteContext::QFRound, id)
                &&& g.metadata_cid@ == Seq::<char>::empty()
                &&& final(self)@ == (GrantState {
                    qf_rounds: old(self)@.qf_rounds.insert(
                        id,
                        QFRoundData { session_id: sid, matching_pool, project_count: project_names@.len() as u32 },
                    ),
                    ..old(self)@.with_new_grant(
                        fresh_grant(id, creator, GrantType::QF, matching_pool, asset, pid, 0, g.metadata_cid, now),
                    )
                })
                &&& final(escrow)@ == old(escrow)@.pool_created(
                    pid, creator, ModuleType::Grant, matching_pool, asset, (now + GRANT_POOL_LIFETIME) as u64,
                    old(self)@.address, now,
                ).pool_locked(pid)
                &&& final(gov)@ == old(gov)@.session_opened(
                    sid, project_names@, VoteContext::QFRound, id, now, now, (now + duration) as u64, None, None,
                    false,
                )
                &&& final(env)@ == old(escrow)@.create_pool_env(
                    old(env)@, pid, creator, ModuleType::Grant, matching_pool, asset,
                ).emit(Event::PoolLocked(PoolLocked { pool_id: pid })).emit(
                    Event::SessionCreated(
                        SessionCreated { session_id: sid, context: VoteContext::QFRound, module_id: id },
                    ),
                ).emit(
                    Event::GrantCreated(GrantCreated { id, grant_type: GrantType::QF, creator, amount: matching_pool }),
                )
            },
    {
        if matching_pool <= 0 {
            return Err(Error::InvalidAmount);
        }
        let id = match self.grant_count {
            Some(c) => c,
            None => 0,
        } + 1;
        let now = env.timestamp;
        let (pool_id, session_id) = self.open_round(
            env,
            escrow,
            gov,
            id,
            creator,
            matching_pool,
            asset,
            VoteContext::QFRound,
            &project_names,
            duration,
            false,
        )?;
        self.qf_rounds.insert(
            id,
            QFRoundData { session_id, matching_pool, project_count: project_names.len() as u32 },
        );
        let cid = String::from_str("");
        proof {
            reveal_strlit("");
        }
        let grant = Grant {
            id,
            creator,
            grant_type: GrantType::QF,
            status: GrantStatus::Active,
            amount: matching_pool,
            asset,
            pool_id,
            milestone_count: 0,
            metadata_cid: cid,
            created_at: now,
        };
        self.grant_count = Some(id);
        self.grants.insert(id, grant);
        env.emit(Event::GrantCreated(GrantCreated { id, grant_type: GrantType::QF, creator, amount: matching_pool }));
        Ok(id)
    }

    /// Records a donation of `amount` to project `project_index` of a
    /// quadratic-funding round.
    pub fn donate_to_project(
        &self,
        env: &mut Env,
        gov: &mut GovernanceVoting,
        grant_id: u64,
        amount: i128,
        project_index: u32,
    ) -> (r: Result<(), Error>)
        requires
            self@.governance_voting matches Some(a) ==> old(gov)@.address == a,
            self@.grants.contains_key(grant_id) ==> self@.governance_voting is Some,
        ensures
            ({
                let q = self@.qf_rounds[grant_id];
                let sid = q.session_id;
                &&& r == if !self@.grants.contains_key(grant_id) {
                    Err(Error::GrantNotFound)
                } else if self@.grants[grant_id].grant_type != GrantType::QF {
                    Err(Error::NotQFGrant)
                } else if !self@.qf_rounds.contains_key(grant_id) {
                    Err(Error::GrantNotFound)
                } else if project_index >= q.project_count {
                    Err(Error::InvalidProjectIndex)
                } else {
                    match old(gov)@.qf_donation_result(sid, self@.address, amount, project_index) {
                        Err(e) => Err(Error::Governance(e)),
                        Ok(_) => Ok(()),
                    }
                }
                &&& r is Err ==> final(gov)@ == old(gov)@ && final(env)@ == old(env)@
                &&& r is Ok ==> final(gov)@ == (GovernanceState {
                    option_sum_sqrt: old(gov)@.option_sum_sqrt.insert(
                        (sid, project_index),
                        (old(gov)@.sum_sqrt(sid, project_index) + isqrt(amount * 1_000_000)) as i128,
                    ),
                    ..old(gov)@
                }) && final(env)@ == old(env)@.emit(
                    Event::QFDonationRecorded(
                        QFDonationRecorded { session_id: sid, donor: self@.address, option_id: project_index, amount },
                    ),
                ).emit(Event::QFDonationMade(QFDonationMade { grant_id, project_index, amount }))
            }),
    {
        let grant_type = match self.grants.get(&grant_id) {
            Some(g) => g.grant_type,
            None => return Err(Error::GrantNotFound),
        };
        if grant_type != GrantType::QF {
            return Err(Error::NotQFGrant);
        }
        let q = match self.qf_rounds.get(&grant_id) {
            Some(q) => *q,
            None => return Err(Error::GrantNotFound),
        };
        if project_index >= q.project_count {
            return Err(Error::InvalidProjectIndex);
        }
        match gov.record_qf_donation(env, q.session_id, self.address, amount, project_index) {
            Ok(()) => {},
            Err(e) => return Err(Error::Governance(e)),
        }
        env.emit(Event::QFDonationMade(QFDonationMade { grant_id, project_index, amount }));
        Ok(())
    }
}


/// The effect of paying out `list` and completing grant `id`.
pub open spec fn paid_and_completed(
    before: GrantState,
    after: GrantState,
    escrow: EscrowState,
    escrow_after: EscrowState,
    rep: ReputationState,
    rep_after: ReputationState,
    e: EnvState,
    e_after: EnvState,
    id: u64,
    list: Seq<(Address, i128)>,
) -> bool {
    let pid = before.grants[id].pool_id;
    &&& after == before.with_status(id, GrantStatus::Completed)
    &&& escrow_after == partials_released(escrow, pid, list)
    &&& grants_recorded(rep, rep_after, list, e.timestamp)
    &&& e_after == partials_env(escrow, e, pid, list).emit(Event::GrantCompleted(GrantCompleted { grant_id: id }))
}

impl GrantHub {
    /// Pays `list` and completes grant `id`, unless `failed` names an error
    /// that comes after the payouts; changes nothing on failure.
    fn pay_and_complete(
        &mut self,
        env: &mut Env,
        escrow: &mut CoreEscrow,
        rep: &mut ReputationRegistry,
        id: u64,
        list: &Vec<(Address, i128)>,
        failed: Option<Error>,
    ) -> (r: Result<(), Error>)
        requires
            old(self)@.grants.contains_key(id),
            payouts_fit(old(rep)@, list@),
        ensures
            ({
                let pr = payouts_result(old(escrow)@, old(rep)@, old(self)@.address, old(self)@.grants[id].pool_id, list@);
                &&& pr is Err ==> r == pr
                &&& pr is Ok && failed is Some ==> r == Err::<(), Error>(failed->0)
                &&& pr is Ok && failed is None ==> r is Ok
                &&& r is Err ==> final(self)@ == old(self)@ && final(escrow)@ == old(escrow)@ && final(rep)@ == old(rep)@
                    && final(env)@ == old(env)@
                &&& r is Ok ==> paid_and_completed(
                    old(self)@,
                    final(self)@,
                    old(escrow)@,
                    final(escrow)@,
                    old(rep)@,
                    final(rep)@,
                    old(env)@,
                    final(env)@,
                    id,
                    list@,
                )
            }),
    {
        let mut g = match self.grants.get(&id) {
            Some(g) => g.snapshot(),
            None => return Err(Error::GrantNotFound),
        };
        let saved_escrow = escrow.snapshot();
        let saved_rep = rep.snapshot();
        let m = env.mark();
        self.pay_grants(env, escrow, rep, g.pool_id, list)?;
        match failed {
            Some(e) => {
                *escrow = saved_escrow;
                *rep = saved_rep;
                env.rollback(m);
                assert(env@.transfers =~= old(env)@.transfers);
                assert(env@.events =~= old(env)@.events);
                Err(e)
            },
            None => {
                g.status = GrantStatus::Completed;
                self.grants.insert(id, g);
                env.emit(Event::GrantCompleted(GrantCompleted { grant_id: id }));
                Ok(())
            },
        }
    }

    /// The admin closes a retrospective grant after its vote: each option with
    /// votes pays `recipients` at its position the grant's amount times its
    /// share of all votes, and records it as a grant received.
    #[verifier::loop_isolation(false)]
    pub fn finalize_retrospective(
        &mut self,
        env: &mut Env,
        escrow: &mut CoreEscrow,
        rep: &mut ReputationRegistry,
        gov: &GovernanceVoting,
        grant_id: u64,
        recipients: Vec<Address>,
    ) -> (r: Result<(), Error>)
        requires
            old(self)@.core_escrow matches Some(a) ==> old(escrow)@.address == a,
            old(self)@.reputation_registry matches Some(a) ==> old(rep)@.address == a,
            old(self)@.governance_voting matches Some(a) ==> gov@.address == a,
            old(self)@.grants.contains_key(grant_id) ==> old(self)@.core_escrow is Some
                && old(self)@.reputation_registry is Some && old(self)@.governance_voting is Some,
            old(self)@.retro_sessions.contains_key(grant_id) && gov@.all_options_stored(
                old(self)@.retro_sessions[grant_id],
            ) ==> votes_total(session_options(gov@, old(self)@.retro_sessions[grant_id])) <= u64::MAX
                && payouts_fit(old(rep)@, old(self)@.retro_payouts(gov@, grant_id, recipients@).0),
        ensures
            r == old(self)@.retro_result(old(escrow)@, old(rep)@, gov@, grant_id, recipients@),
            r is Err ==> final(self)@ == old(self)@ && final(escrow)@ == old(escrow)@ && final(rep)@ == old(rep)@
                && final(env)@ == old(env)@,
            r is Ok ==> paid_and_completed(
                old(self)@,
                final(self)@,
                old(escrow)@,
                final(escrow)@,
                old(rep)@,
                final(rep)@,
                old(env)@,
                final(env)@,
                grant_id,
                old(self)@.retro_payouts(gov@, grant_id, recipients@).0,
            ),
    {
        if self.admin.is_none() {
            return Err(Error::NotInitialized);
        }
        let g = match self.grants.get(&grant_id) {
            Some(g) => g.snapshot(),
            None => return Err(Error::GrantNotFound),
        };
        if g.grant_type != GrantType::Retrospective {
            return Err(Error::NotRetrospectiveGrant);
        }
        if g.status != GrantStatus::Active {
            return Err(Error::GrantNotActive);
        }
        let session_id = match self.retro_sessions.get(&grant_id) {
            Some(s) => *s,
            None => return Err(Error::NoVoteSession),
        };
        let results = match gov.get_result(session_id) {
            Ok(v) => v,
            Err(e) => return Err(Error::Governance(e)),
        };
        let ghost opts = session_options(gov@, session_id);
        assert(results@ =~= opts);
        let n = results.len();
        let mut total: u64 = 0;
        let mut i: usize = 0;
        while i < n
            invariant
                n == results@.len(),
                i <= n,
                total == votes_total(results@.take(i as int)),
            decreases n - i,
        {
            proof {
                lemma_votes_prefix(results@, i as int);
                lemma_votes_prefix(results@, i + 1);
            }
            total = total + results[i].weighted_votes;
            i = i + 1;
        }
        assert(results@.take(n as int) =~= results@);
        let mut list: Vec<(Address, i128)> = Vec::new();
        let mut overflow = false;
        assert(list@ =~= Seq::<(Address, i128)>::empty());
        if total > 0 {
            let mut k: usize = 0;
            while k < n
                invariant
                    n == results@.len(),
                    k <= n,
                    total > 0,
                    (list@, overflow) == retro_shares(results@, recipients@, g.amount, total as int, k as nat),
                decreases n - k,
            {
                if !overflow {
                    let w = results[k].weighted_votes;
                    if w > 0 && k < recipients.len() {
                        match g.amount.checked_mul(w as i128) {
                            None => {
                                overflow = true;
                            },
                            Some(p) => {
                                if p > 0 {
                                    let share = p / (total as i128);
                                    if share > 0 {
                                        list.push((recipients[k], share));
                                    }
                                } else {
                                    assert(trunc_div(p as int, total as int) <= 0) by (nonlinear_arith)
                                        requires
                                            p <= 0,
                                            total > 0,
                                    ;
                                }
                            },
                        }
                    }
                }
                k = k + 1;
            }
        }
        let failed = if overflow {
            Some(Error::Overflow)
        } else {
            None
        };
        let ghost spec_r = old(self)@.retro_result(old(escrow)@, old(rep)@, gov@, grant_id, recipients@);
        match self.pay_and_complete(env, escrow, rep, grant_id, &list, failed) {
            Ok(()) => {
                assert(spec_r is Ok);
                Ok(())
            },
            Err(e) => {
                assert(spec_r == Err::<(), Error>(e));
                Err(e)
            },
        }
    }

    /// The admin closes a quadratic-funding round after its session ended: the
    /// matching pool is shared by the quadratic-funding weights of the
    /// projects, paid to their addresses and recorded as grants received.
    #[verifier::loop_isolation(false)]
    pub fn finalize_qf_round(
        &mut self,
        env: &mut Env,
        escrow: &mut CoreEscrow,
        rep: &mut ReputationRegistry,
        gov: &GovernanceVoting,
        grant_id: u64,
        project_addresses: Vec<Address>,
    ) -> (r: Result<(), Error>)
        requires
            old(self)@.core_escrow matches Some(a) ==> old(escrow)@.address == a,
            old(self)@.reputation_registry matches Some(a) ==> old(rep)@.address == a,
            old(self)@.governance_voting matches Some(a) ==> gov@.address == a,
            old(self)@.grants.contains_key(grant_id) ==> old(self)@.core_escrow is Some
                && old(self)@.reputation_registry is Some && old(self)@.governance_voting is Some,
            old(self)@.qf_rounds.contains_key(grant_id) ==> payouts_fit(
                old(rep)@,
                old(self)@.qf_round_payouts(gov@, grant_id, project_addresses@).0,
            ),
        ensures
            r == old(self)@.qf_result(old(escrow)@, old(rep)@, gov@, grant_id, project_addresses@, old(env)@.timestamp),
            r is Err ==> final(self)@ == old(self)@ && final(escrow)@ == old(escrow)@ && final(rep)@ == old(rep)@
                && final(env)@ == old(env)@,
            r is Ok ==> paid_and_completed(
                old(self)@,
                final(self)@,
                old(escrow)@,
                final(escrow)@,
                old(rep)@,
                final(rep)@,
                old(env)@,
                final(env)@,
                grant_id,
                old(self)@.qf_round_payouts(gov@, grant_id, project_addresses@).0,
            ),
    {
        if self.admin.is_none() {
            return Err(Error::NotInitialized);
        }
        let g = match self.grants.get(&grant_id) {
            Some(g) => g.snapshot(),
            None => return Err(Error::GrantNotFound),
        };
        if g.grant_type != GrantType::QF {
            return Err(Error::NotQFGrant);
        }
        if g.status != GrantStatus::Active {
            return Err(Error::GrantNotActive);
        }
        let q = match self.qf_rounds.get(&grant_id) {
            Some(q) => *q,
            None => return Err(Error::GrantNotFound),
        };
        let dist = match gov.compute_qf_distribution(env, q.session_id, q.matching_pool) {
            Ok(v) => v,
            Err(e) => return Err(Error::Governance(e)),
        };
        assert(dist@ =~= qf_distribution(gov@, q.session_id, q.matching_pool));
        let n = dist.len();
        let mut list: Vec<(Address, i128)> = Vec::new();
        let mut invalid = false;
        let mut k: usize = 0;
        while k < n
            invariant
                n == dist@.len(),
                k <= n,
                (list@, invalid) == qf_payouts(dist@, project_addresses@, k as nat),
            decreases n - k,
        {
            if !invalid {
                let (index, amount) = dist[k];
                if amount > 0 {
                    if (index as usize) < project_addresses.len() {
                        list.push((project_addresses[index as usize], amount));
                    } else {
                        invalid = true;
                    }
                }
            }
            k = k + 1;
        }
        let failed = if invalid {
            Some(Error::InvalidProjectIndex)
        } else {
            None
        };
        let ghost spec_r = old(self)@.qf_result(
            old(escrow)@,
            old(rep)@,
            gov@,
            grant_id,
            project_addresses@,
            old(env)@.timestamp,
        );
        match self.pay_and_complete(env, escrow, rep, grant_id, &list, failed) {
            Ok(()) => {
                assert(spec_r is Ok);
                Ok(())
            },
            Err(e) => {
                assert(spec_r == Err::<(), Error>(e));
                Err(e)
            },
        }
    }
}

} // verus!
