//! Properties of the platform that span several operations.
use vstd::prelude::*;
use crate::core_escrow::{unreleased, EscrowError, EscrowState, FeeConfig};
use crate::crowdfund_registry::{milestone_slots, slot_amounts_fit, Milestone};
use crate::core_escrow::amounts_total;
use crate::governance_voting::{self, GovernanceState};
use crate::hackathon_registry::{average, insert_pos, ranked_insert, HackathonState, Prize};
use crate::math::{fee_bps_spec, fits_i128, is_isqrt, lemma_isqrt_unique, lemma_square_mono, trunc_div};
use crate::payment_router::insurance_portion;
use crate::project_registry::{deposit_rate_spec, struck, Project};
use crate::grant_hub::retro_shares;
use crate::governance_voting::VoteOption;
use crate::reputation_registry::{grant_fits, grant_recorded, level_of, profile_rewritten, ContributorProfile, ReputationState};
use crate::smart_wallet::{SignerKind, WalletState};
use crate::types::{Address, BytesN32, SubType};

verus! {

// ── Fees ────────────────────────────────────────────────────────────────────

/// A fee of at most 100% taken from a non-negative amount is neither negative
/// nor more than the amount.
pub proof fn law_fee_within_amount(amount: int, bps: int)
    requires
        0 <= amount,
        0 <= bps <= 10_000,
    ensures
        fee_bps_spec(amount, bps) matches Some(fee) ==> 0 <= fee <= amount,
{
    assert(0 <= amount * bps <= amount * 10_000) by (nonlinear_arith)
        requires
            0 <= amount,
            0 <= bps <= 10_000,
    ;
}

/// The payment router's split of a non-negative fee pays out exactly the fee:
/// the insurance portion lies between zero and the fee, and the treasury
/// portion is the rest.
pub proof fn law_router_split_within_fee(fee: int)
    requires
        0 <= fee,
    ensures
        0 <= insurance_portion(fee) <= fee,
        insurance_portion(fee) + (fee - insurance_portion(fee)) == fee,
{
    assert(0 <= fee * 500 <= fee * 10_000) by (nonlinear_arith)
        requires
            0 <= fee,
    ;
}

// ── Escrow accounting ───────────────────────────────────────────────────────

/// A partial release never takes a pool below zero: it lowers what is left in
/// the pool by exactly the amount released.
pub proof fn law_partial_release_within_pool(e: EscrowState, pid: BytesN32, amount: i128)
    requires
        e.release_partial_result(pid, amount) is Ok,
    ensures
        unreleased(e.released_partially(pid, amount).pools[pid]) == unreleased(e.pools[pid]) - amount,
        0 <= unreleased(e.released_partially(pid, amount).pools[pid]),
{
}

/// After a refund of everything left, nothing is left in the pool.
pub proof fn law_refund_all_empties_pool(e: EscrowState, pid: BytesN32)
    requires
        e.refund_all_result(pid) is Ok,
        0 <= unreleased(e.pools[pid]),
    ensures
        unreleased(e.refunded_all(pid).pools[pid]) == 0,
{
}

/// A release slot pays once: once released, releasing it again fails.
pub proof fn law_slot_pays_once(e: EscrowState, pid: BytesN32, idx: u32, now: u64)
    requires
        e.release_slot_result(pid, idx) is Ok,
    ensures
        e.slot_released(pid, idx, now).release_slot_result(pid, idx) == Err::<(), EscrowError>(
            EscrowError::SlotAlreadyReleased,
        ),
{
    let after = e.slot_released(pid, idx, now);
    assert(after.pools.contains_key(pid));
    assert(after.slots.contains_key((pid, idx)));
    assert(after.slots[(pid, idx)].released);
}

// ── Reputation ──────────────────────────────────────────────────────────────

proof fn lemma_isqrt_witness(n: int) -> (r: int)
    requires
        0 <= n,
    ensures
        is_isqrt(r, n),
    decreases n,
{
    if n == 0 {
        0
    } else {
        let r = lemma_isqrt_witness(n - 1);
        let sq = (r + 1) * (r + 1);
        assert((r + 2) * (r + 2) == sq + 2 * r + 3) by (nonlinear_arith)
            requires
                sq == (r + 1) * (r + 1),
        ;
        if sq <= n {
            assert(is_isqrt(r + 1, n));
            r + 1
        } else {
            assert(is_isqrt(r, n));
            r
        }
    }
}

proof fn lemma_level_is_isqrt(score: u32)
    ensures
        is_isqrt(level_of(score) as int, (score / 10) as int),
{
    let n = (score / 10) as int;
    let r = lemma_isqrt_witness(n);
    assert(r < 0x1_0000) by {
        if r >= 0x1_0000 {
            lemma_square_mono(0x1_0000, r);
        }
    }
    assert(is_isqrt((r as u32) as int, n));
}

/// A higher score never means a lower level.
pub proof fn law_level_monotone(s1: u32, s2: u32)
    requires
        s1 <= s2,
    ensures
        level_of(s1) <= level_of(s2),
{
    lemma_level_is_isqrt(s1);
    lemma_level_is_isqrt(s2);
    let r1 = level_of(s1) as int;
    let r2 = level_of(s2) as int;
    if r1 > r2 {
        lemma_square_mono(r2 + 1, r1);
    }
}

/// Restoring a credit undoes spending it: a contributor who spends a credit
/// and gets it back holds as many credits as before.
pub proof fn law_restore_undoes_spend(rep: ReputationState, user: Address)
    requires
        rep.credits.contains_key(user),
        0 < rep.credits[user].credits <= rep.credits[user].max_credits,
    ensures
        rep.credit_spent(user).credit_restored(user).credits[user].credits == rep.credits[user].credits,
{
}

// ── Governance ──────────────────────────────────────────────────────────────

/// Each voter votes once per session: after a vote, a second vote by the same
/// voter in the same session is refused.
pub proof fn law_vote_once(g: GovernanceState, now: u64, voter: Address, sid: BytesN32, first: u32, second: u32)
    requires
        g.cast_vote_result(now, voter, sid, first) is Ok,
    ensures
        g.voted(now, voter, sid, first).cast_vote_result(now, voter, sid, second) == Err::<(), governance_voting::Error>(
            governance_voting::Error::AlreadyVoted,
        ),
{
}

/// The total of the quadratic-funding shares of options `0..k`.
pub open spec fn qf_shares_total(g: GovernanceState, sid: BytesN32, k: int, pool: i128) -> int
    decreases k,
{
    if k <= 0 {
        0
    } else {
        qf_shares_total(g, sid, k - 1, pool) + g.qf_share(sid, k - 1, pool)
    }
}

proof fn lemma_qf_shares_bound(g: GovernanceState, sid: BytesN32, k: int, pool: i128)
    requires
        0 <= k <= g.option_count(sid),
        0 <= pool,
        g.qf_total(sid, g.option_count(sid) as int) > 0,
    ensures
        qf_shares_total(g, sid, k, pool) * g.qf_total(sid, g.option_count(sid) as int) <= pool * g.qf_total(sid, k),
        0 <= qf_shares_total(g, sid, k, pool),
    decreases k,
{
    let t = g.qf_total(sid, g.option_count(sid) as int);
    if k > 0 {
        lemma_qf_shares_bound(g, sid, k - 1, pool);
        let sq = g.qf_square(sid, k - 1);
        let v = g.sum_sqrt(sid, (k - 1) as u32) as int;
        assert(sq == v * v);
        assert(sq >= 0) by (nonlinear_arith)
            requires
                sq == v * v,
        ;
        let share = g.qf_share(sid, k - 1, pool);
        assert(sq * pool >= 0) by (nonlinear_arith)
            requires
                sq >= 0,
                pool >= 0,
        ;
        assert(share == (sq * pool) / t);
        assert(0 <= share && share * t <= sq * pool) by (nonlinear_arith)
            requires
                share == (sq * pool) / t,
                sq * pool >= 0,
                t > 0,
        ;
        let prev = qf_shares_total(g, sid, k - 1, pool);
        assert((prev + share) * t == prev * t + share * t) by (nonlinear_arith);
        assert(pool * g.qf_total(sid, k) == pool * g.qf_total(sid, k - 1) + pool * sq) by (nonlinear_arith)
            requires
                g.qf_total(sid, k) == g.qf_total(sid, k - 1) + sq,
        ;
        assert(sq * pool == pool * sq) by (nonlinear_arith);
    }
}

/// Quadratic funding never hands out more than the matching pool: the shares
/// of all options together stay within it.
pub proof fn law_qf_shares_within_pool(g: GovernanceState, sid: BytesN32, pool: i128)
    requires
        0 <= pool,
    ensures
        0 <= qf_shares_total(g, sid, g.option_count(sid) as int, pool) <= pool,
{
    let n = g.option_count(sid) as int;
    let t = g.qf_total(sid, n);
    crate::governance_voting::lemma_qf_total_nonneg(g, sid, n);
    if t > 0 {
        lemma_qf_shares_bound(g, sid, n, pool);
        let s = qf_shares_total(g, sid, n, pool);
        assert(s <= pool) by (nonlinear_arith)
            requires
                s * t <= pool * t,
                t > 0,
        ;
    } else {
        lemma_zero_shares(g, sid, n, pool);
    }
}

proof fn lemma_zero_shares(g: GovernanceState, sid: BytesN32, k: int, pool: i128)
    requires
        g.qf_total(sid, g.option_count(sid) as int) == 0,
    ensures
        qf_shares_total(g, sid, k, pool) == 0,
    decreases k,
{
    if k > 0 {
        lemma_zero_shares(g, sid, k - 1, pool);
    }
}

// ── Crowdfunding ────────────────────────────────────────────────────────────

/// The sum of the shares of milestones `0..n` of campaign `id`, in basis points.
pub open spec fn milestone_pct_total(ms: Map<(u64, u32), Milestone>, id: u64, n: nat) -> int
    decreases n,
{
    if n == 0 {
        0
    } else {
        milestone_pct_total(ms, id, (n - 1) as nat) + ms[(id, (n - 1) as u32)].pct
    }
}

proof fn lemma_slots_bound(ms: Map<(u64, u32), Milestone>, id: u64, owner: Address, funding: i128, n: nat)
    requires
        0 <= funding,
        slot_amounts_fit(ms, id, funding, n),
    ensures
        amounts_total(milestone_slots(ms, id, owner, funding, n)) * 10_000 <= funding * milestone_pct_total(ms, id, n),
        0 <= amounts_total(milestone_slots(ms, id, owner, funding, n)),
    decreases n,
{
    if n > 0 {
        let k = (n - 1) as nat;
        lemma_slots_bound(ms, id, owner, funding, k);
        let prev = milestone_slots(ms, id, owner, funding, k);
        let p = ms[(id, k as u32)].pct as int;
        assert(fee_bps_spec(funding as int, p) is Some) by {
            assert(fee_bps_spec(funding as int, ms[(id, (k as int) as u32)].pct as int) is Some);
        }
        let x = funding * p;
        assert(x >= 0) by (nonlinear_arith)
            requires
                funding >= 0,
                p >= 0,
                x == funding * p,
        ;
        let amt = x / 10_000;
        assert(0 <= amt && amt * 10_000 <= x) by (nonlinear_arith)
            requires
                amt == x / 10_000,
                x >= 0,
        ;
        let s = milestone_slots(ms, id, owner, funding, n);
        assert(s.drop_last() == prev);
        assert(s.last().1 == amt);
        assert(funding * milestone_pct_total(ms, id, n) == funding * milestone_pct_total(ms, id, k) + x) by (nonlinear_arith)
            requires
                milestone_pct_total(ms, id, n) == milestone_pct_total(ms, id, k) + p,
                x == funding * p,
        ;
    }
}

/// A funded campaign's release slots never add up to more than what was
/// raised, as long as its milestone shares add up to at most 100%.
pub proof fn law_milestone_slots_within_funding(ms: Map<(u64, u32), Milestone>, id: u64, owner: Address, funding: i128, n: nat)
    requires
        0 <= funding,
        slot_amounts_fit(ms, id, funding, n),
        milestone_pct_total(ms, id, n) <= 10_000,
    ensures
        amounts_total(milestone_slots(ms, id, owner, funding, n)) <= funding,
{
    lemma_slots_bound(ms, id, owner, funding, n);
    let t = amounts_total(milestone_slots(ms, id, owner, funding, n));
    let p = milestone_pct_total(ms, id, n);
    assert(t <= funding) by (nonlinear_arith)
        requires
            t * 10_000 <= funding * p,
            p <= 10_000,
            0 <= funding,
    ;
}

// ── Hackathons ──────────────────────────────────────────────────────────────

/// The sum of the prize shares of ranks `0..k` of hackathon `id`, in basis points.
pub open spec fn tier_bps_total(tiers: Map<(u64, u32), u32>, id: u64, k: nat) -> int
    decreases k,
{
    if k == 0 {
        0
    } else {
        tier_bps_total(tiers, id, (k - 1) as nat) + tiers[(id, (k - 1) as u32)]
    }
}

/// The total of the amounts of the first `k` prizes of `prizes`.
pub open spec fn prize_total(prizes: Seq<Prize>, k: nat) -> int
    decreases k,
{
    if k == 0 {
        0
    } else {
        prize_total(prizes, (k - 1) as nat) + prizes[k - 1].1
    }
}

proof fn lemma_tier_total_mono(tiers: Map<(u64, u32), u32>, id: u64, k: nat, m: nat)
    requires
        k <= m,
    ensures
        tier_bps_total(tiers, id, k) <= tier_bps_total(tiers, id, m),
    decreases m - k,
{
    if k < m {
        lemma_tier_total_mono(tiers, id, k, (m - 1) as nat);
    }
}

proof fn lemma_prize_bound(s: HackathonState, id: u64, k: nat)
    requires
        k <= s.prizes(id).len(),
        0 <= s.hackathons[id].prize_pool,
        s.prize_amounts_fit(id),
    ensures
        prize_total(s.prizes(id), k) * 10_000 <= s.hackathons[id].prize_pool * tier_bps_total(s.prize_tiers, id, k),
        0 <= prize_total(s.prizes(id), k),
    decreases k,
{
    if k > 0 {
        let j = (k - 1) as nat;
        lemma_prize_bound(s, id, j);
        let pool = s.hackathons[id].prize_pool as int;
        let p = s.prize_tiers[(id, j as u32)] as int;
        assert(j < s.tier_count(id));
        assert(fee_bps_spec(pool, p) is Some) by {
            assert(fee_bps_spec(pool, s.prize_tiers[(id, (j as int) as u32)] as int) is Some);
        }
        let x = pool * p;
        assert(x >= 0) by (nonlinear_arith)
            requires
                pool >= 0,
                p >= 0,
                x == pool * p,
        ;
        let amt = x / 10_000;
        assert(0 <= amt && amt * 10_000 <= x) by (nonlinear_arith)
            requires
                amt == x / 10_000,
                x >= 0,
        ;
        assert(s.prizes(id)[j as int].1 == amt);
        assert(pool * tier_bps_total(s.prize_tiers, id, k) == pool * tier_bps_total(s.prize_tiers, id, j) + x)
            by (nonlinear_arith)
            requires
                tier_bps_total(s.prize_tiers, id, k) == tier_bps_total(s.prize_tiers, id, j) + p,
                x == pool * p,
        ;
    }
}

/// The prizes that finalizing a hackathon records never add up to more than
/// its prize pool, as long as its prize tiers add up to at most 100%.
pub proof fn law_prizes_within_pool(s: HackathonState, id: u64)
    requires
        s.hackathons.contains_key(id),
        0 <= s.hackathons[id].prize_pool,
        s.prize_amounts_fit(id),
        tier_bps_total(s.prize_tiers, id, s.tier_count(id)) <= 10_000,
    ensures
        prize_total(s.prizes(id), s.prizes(id).len()) <= s.hackathons[id].prize_pool,
{
    let n = s.prizes(id).len();
    lemma_prize_bound(s, id, n);
    lemma_tier_total_mono(s.prize_tiers, id, n, s.tier_count(id));
    let t = prize_total(s.prizes(id), n);
    let pool = s.hackathons[id].prize_pool as int;
    let q = tier_bps_total(s.prize_tiers, id, n);
    assert(t <= pool) by (nonlinear_arith)
        requires
            t * 10_000 <= pool * q,
            q <= 10_000,
            0 <= pool,
    ;
}

/// Whether a ranking is ordered best first.
pub open spec fn ranked_best_first(list: Seq<(Address, u32)>) -> bool {
    forall|i: int, j: int| 0 <= i < j < list.len() ==> #[trigger] list[i].1 >= #[trigger] list[j].1
}

proof fn lemma_insert_pos(list: Seq<(Address, u32)>, v: u32, j: int)
    requires
        0 <= j <= list.len(),
    ensures
        j <= insert_pos(list, v, j) <= list.len(),
        forall|k: int| j <= k < insert_pos(list, v, j) ==> list[k].1 >= v,
        insert_pos(list, v, j) < list.len() ==> v > list[insert_pos(list, v, j)].1,
    decreases list.len() - j,
{
    if j < list.len() && !(v > list[j].1) {
        lemma_insert_pos(list, v, j + 1);
    }
}

/// Entering a score keeps a ranking ordered best first.
pub proof fn law_ranked_insert_keeps_order(list: Seq<(Address, u32)>, e: (Address, u32))
    requires
        ranked_best_first(list),
    ensures
        ranked_best_first(ranked_insert(list, e)),
{
    lemma_insert_pos(list, e.1, 0);
    let p = insert_pos(list, e.1, 0);
    let r = ranked_insert(list, e);
    assert forall|i: int, j: int| 0 <= i < j < r.len() implies #[trigger] r[i].1 >= #[trigger] r[j].1 by {
        if j < p {
            assert(r[i] == list[i] && r[j] == list[j]);
        } else if j == p {
            assert(r[i] == list[i]);
        } else if i < p {
            assert(r[i] == list[i] && r[j] == list[j - 1]);
            if j - 1 >= p {
                assert(list[p].1 >= list[j - 1].1);
            }
        } else if i == p {
            assert(r[j] == list[j - 1]);
            assert(list[p].1 >= list[j - 1].1);
        } else {
            assert(r[i] == list[i - 1] && r[j] == list[j - 1]);
        }
    }
}

/// The ranking of a hackathon is ordered best first.
pub proof fn law_ranking_best_first(s: HackathonState, id: u64, n: nat)
    ensures
        ranked_best_first(s.ranking(id, n)),
    decreases n,
{
    if n > 0 {
        law_ranking_best_first(s, id, (n - 1) as nat);
        let lead = s.submission_index[(id, (n - 1) as u32)];
        let sub = s.submissions[(id, lead)];
        if !(sub.disqualified || sub.submitted_at == 0) {
            law_ranked_insert_keeps_order(s.ranking(id, (n - 1) as nat), (lead, crate::hackathon_registry::average(sub)));
        }
    }
}

/// The teams among the first `n` registrations of hackathon `id` that
/// submitted and were not disqualified, in registration order, each with its
/// average score.
pub open spec fn eligible(s: HackathonState, id: u64, n: nat) -> Seq<(Address, u32)>
    decreases n,
{
    if n == 0 {
        Seq::empty()
    } else {
        let prev = eligible(s, id, (n - 1) as nat);
        let lead = s.submission_index[(id, (n - 1) as u32)];
        let sub = s.submissions[(id, lead)];
        if sub.disqualified || sub.submitted_at == 0 {
            prev
        } else {
            prev.push((lead, average(sub)))
        }
    }
}

/// The entries of `list` with score `v`, in their order in `list`.
pub open spec fn with_score(list: Seq<(Address, u32)>, v: u32) -> Seq<(Address, u32)>
    decreases list.len(),
{
    if list.len() == 0 {
        Seq::empty()
    } else {
        let prev = with_score(list.drop_last(), v);
        if list.last().1 == v {
            prev.push(list.last())
        } else {
            prev
        }
    }
}

proof fn lemma_with_score_append(a: Seq<(Address, u32)>, b: Seq<(Address, u32)>, v: u32)
    ensures
        with_score(a + b, v) == with_score(a, v) + with_score(b, v),
    decreases b.len(),
{
    if b.len() == 0 {
        assert(a + b =~= a);
        assert(with_score(a, v) + with_score(b, v) =~= with_score(a, v));
    } else {
        lemma_with_score_append(a, b.drop_last(), v);
        assert((a + b).drop_last() =~= a + b.drop_last());
        assert((a + b).last() == b.last());
        if b.last().1 == v {
            assert(with_score(a, v) + with_score(b.drop_last(), v).push(b.last()) =~= (with_score(a, v)
                + with_score(b.drop_last(), v)).push(b.last()));
        }
    }
}

proof fn lemma_with_score_none(b: Seq<(Address, u32)>, v: u32)
    requires
        forall|k: int| 0 <= k < b.len() ==> #[trigger] b[k].1 != v,
    ensures
        with_score(b, v) == Seq::<(Address, u32)>::empty(),
    decreases b.len(),
{
    if b.len() > 0 {
        assert(b.last().1 != v) by {
            assert(b[b.len() - 1].1 != v);
        }
        lemma_with_score_none(b.drop_last(), v);
    }
}

/// Entering `e` into a ranking ordered best first adds `e` after every entry
/// of its score, and leaves the entries of every other score as they were.
proof fn lemma_ranked_insert_with_score(list: Seq<(Address, u32)>, e: (Address, u32), v: u32)
    requires
        ranked_best_first(list),
    ensures
        with_score(ranked_insert(list, e), v) == with_score(list.push(e), v),
{
    lemma_insert_pos(list, e.1, 0);
    let p = insert_pos(list, e.1, 0);
    let a = list.take(p);
    let b = list.skip(p);
    assert(ranked_insert(list, e) =~= a + (seq![e] + b));
    assert(list =~= a + b);
    assert(list.push(e) =~= (a + b) + seq![e]);
    lemma_with_score_append(a, seq![e] + b, v);
    lemma_with_score_append(seq![e], b, v);
    lemma_with_score_append(a, b, v);
    lemma_with_score_append(a + b, seq![e], v);
    assert(seq![e].drop_last() =~= Seq::<(Address, u32)>::empty());
    assert(with_score(Seq::<(Address, u32)>::empty(), v) =~= Seq::<(Address, u32)>::empty());
    if e.1 == v {
        assert(with_score(seq![e], v) =~= seq![e]);
        assert forall|k: int| 0 <= k < b.len() implies #[trigger] b[k].1 != v by {
            assert(b[k] == list[p + k]);
            assert(list[p].1 >= list[p + k].1);
        }
        lemma_with_score_none(b, v);
        assert(with_score(ranked_insert(list, e), v) =~= with_score(a, v) + seq![e]);
        assert(with_score(list.push(e), v) =~= with_score(a, v) + seq![e]);
    } else {
        assert(with_score(seq![e], v) =~= Seq::<(Address, u32)>::empty());
        assert(with_score(ranked_insert(list, e), v) =~= with_score(a, v) + with_score(b, v));
        assert(with_score(list.push(e), v) =~= with_score(a, v) + with_score(b, v));
    }
}

/// The ranking of a hackathon is a stable sort of its eligible teams by
/// average score, best first: it holds every eligible team once, ordered best
/// first, and teams with equal averages keep their registration order.
pub proof fn law_ranking_stable_sort(s: HackathonState, id: u64, n: nat)
    ensures
        ranked_best_first(s.ranking(id, n)),
        s.ranking(id, n).len() == eligible(s, id, n).len(),
        forall|v: u32| #[trigger] with_score(s.ranking(id, n), v) == with_score(eligible(s, id, n), v),
    decreases n,
{
    law_ranking_best_first(s, id, n);
    if n > 0 {
        let k = (n - 1) as nat;
        law_ranking_stable_sort(s, id, k);
        let lead = s.submission_index[(id, k as u32)];
        let sub = s.submissions[(id, lead)];
        if sub.disqualified || sub.submitted_at == 0 {
            assert(s.ranking(id, n) == s.ranking(id, k));
            assert(eligible(s, id, n) == eligible(s, id, k));
        } else {
            let e = (lead, average(sub));
            let prev = s.ranking(id, k);
            lemma_insert_pos(prev, e.1, 0);
            assert(s.ranking(id, n) == ranked_insert(prev, e));
            assert(eligible(s, id, n) == eligible(s, id, k).push(e));
            let ek = eligible(s, id, k);
            assert forall|v: u32| #[trigger] with_score(s.ranking(id, n), v) == with_score(eligible(s, id, n), v) by {
                lemma_ranked_insert_with_score(prev, e, v);
                assert(prev.push(e).drop_last() =~= prev);
                assert(ek.push(e).drop_last() =~= ek);
                assert(with_score(prev, v) == with_score(ek, v));
                assert(with_score(prev.push(e), v) == if e.1 == v {
                    with_score(prev, v).push(e)
                } else {
                    with_score(prev, v)
                });
                assert(with_score(ek.push(e), v) == if e.1 == v {
                    with_score(ek, v).push(e)
                } else {
                    with_score(ek, v)
                });
            }
        }
    }
}

/// The winners recorded when a hackathon is finalized are the first entries
/// of its ranking, as many as there are ranked teams and prize tiers, and
/// rank `r` gets its tier's share of the pool.
pub proof fn law_winners_top_of_ranking(s: HackathonState, id: u64)
    ensures
        ({
            let ranked = s.ranking(id, s.hackathons[id].submission_count as nat);
            let prizes = s.prizes(id);
            &&& prizes.len() == if ranked.len() < s.tier_count(id) {
                ranked.len()
            } else {
                s.tier_count(id)
            }
            &&& forall|r: int|
                0 <= r < prizes.len() ==> #[trigger] prizes[r].0 == ranked[r].0 && prizes[r].1 == (fee_bps_spec(
                    s.hackathons[id].prize_pool as int,
                    s.prize_tiers[(id, r as u32)] as int,
                )->0) as i128
        }),
{
}

// ── Projects ────────────────────────────────────────────────────────────────

/// Strikes never raise the warning level beyond 3, and the strike that
/// reaches the third warning suspends the project.
pub proof fn law_strikes_capped(p: Project, strikes: u32)
    requires
        p.warning_level <= 3,
    ensures
        struck(p, strikes).warning_level <= 3,
        struck(p, strikes).warning_level >= p.warning_level,
        p.warning_level < 3 && struck(p, strikes).warning_level == 3 ==> struck(p, strikes).suspended,
{
}

// ── Smart wallets ───────────────────────────────────────────────────────────

/// Removing the signer just added restores the signers as they were.
pub proof fn law_remove_undoes_add(w: WalletState, signer: SignerKind)
    requires
        w.count() < u32::MAX,
        !w.signers.contains_key(w.count()),
    ensures
        ({
            let n = w.count();
            let added = WalletState {
                signer_count: Some((n + 1) as u32),
                signers: w.signers.insert(n, signer),
                ..w
            };
            let last = (added.count() - 1) as u32;
            &&& last == n
            &&& added.signers.remove(last) == w.signers
            &&& WalletState { signer_count: Some(last), signers: added.signers.remove(last), ..added }.count() == w.count()
        }),
{
    let n = w.count();
    assert(w.signers.insert(n, signer).remove(n) =~= w.signers);
}

// ── Rates and scores by what they are for ───────────────────────────────────

/// Each kind of payment is charged the fee rate of the module it belongs to:
/// the bounty rate for every bounty kind, the crowdfund rate for pledges, the
/// grant rate for every grant kind and the hackathon rate for every hackathon kind.
pub proof fn law_fee_rate_of_module(c: FeeConfig)
    ensures
        c.fee_bps(SubType::BountyFCFS) == c.bounty_fee_bps,
        c.fee_bps(SubType::BountyApplication) == c.bounty_fee_bps,
        c.fee_bps(SubType::BountyContest) == c.bounty_fee_bps,
        c.fee_bps(SubType::BountySplit) == c.bounty_fee_bps,
        c.fee_bps(SubType::CrowdfundPledge) == c.crowdfund_fee_bps,
        c.fee_bps(SubType::GrantMilestone) == c.grant_fee_bps,
        c.fee_bps(SubType::GrantRetrospective) == c.grant_fee_bps,
        c.fee_bps(SubType::GrantQFMatchingPool) == c.grant_fee_bps,
        c.fee_bps(SubType::HackathonMain) == c.hackathon_fee_bps,
        c.fee_bps(SubType::HackathonTrack) == c.hackathon_fee_bps,
{
}

/// A project's deposit rate is 10% before verification, 5% at level one, and
/// nothing from level two on.
pub proof fn law_deposit_rate_by_level(level: u32)
    ensures
        level == 0 ==> deposit_rate_spec(level) == 1000,
        level == 1 ==> deposit_rate_spec(level) == 500,
        level >= 2 ==> deposit_rate_spec(level) == 0,
{
}

/// Recording a grant for a contributor adds the grant's amount to what the
/// contributor has earned, counts one more grant and adds 20 points; a
/// contributor without a profile starts from an empty one.
pub proof fn law_grant_received_adds_amount(
    rep: ReputationState,
    after: ReputationState,
    c: Address,
    now: u64,
    amount: i128,
)
    requires
        rep.stored_profile_satisfies(c, |p: ContributorProfile| grant_fits(p, amount)),
        profile_rewritten(rep, after, c, now, |p: ContributorProfile| grant_recorded(p, amount)),
    ensures
        after.profiles.contains_key(c),
        rep.profiles.contains_key(c) ==> after.profiles[c].total_earned == rep.profiles[c].total_earned + amount
            && after.profiles[c].grants_received == rep.profiles[c].grants_received + 1
            && after.profiles[c].overall_score == rep.profiles[c].overall_score + 20,
        !rep.profiles.contains_key(c) ==> after.profiles[c].total_earned == amount
            && after.profiles[c].grants_received == 1 && after.profiles[c].overall_score == 20,
{
    let cid = after.profiles[c].metadata_cid;
    let base = rep.base_profile(c, now, cid);
    assert(after.profiles[c] == grant_recorded(base, amount));
    if rep.profiles.contains_key(c) {
        assert(grant_fits(rep.profiles[c], amount));
    }
}

/// Whether `e` is the entry of a team among the first `n` registrations of
/// hackathon `id` that submitted and was not disqualified, scored with its
/// average judge score: the total of its scores divided by their number,
/// rounded down, and zero before any score.
pub open spec fn entry_by_average(s: HackathonState, id: u64, n: nat, e: (Address, u32)) -> bool {
    exists|j: int|
        0 <= j < n && #[trigger] s.submission_index[(id, j as u32)] == e.0 && {
            let sub = s.submissions[(id, e.0)];
            &&& !sub.disqualified
            &&& sub.submitted_at != 0
            &&& e.1 == if sub.score_count > 0 {
                (sub.total_score / sub.score_count) as u32
            } else {
                0
            }
        }
}

/// Hackathon teams are ranked by their average judge score: every entry of
/// the ranking is an eligible team with its average as its key, and the
/// ranking is ordered best first by that key.
pub proof fn law_ranking_by_average(s: HackathonState, id: u64, n: nat)
    ensures
        ranked_best_first(s.ranking(id, n)),
        forall|i: int| 0 <= i < s.ranking(id, n).len() ==> #[trigger] entry_by_average(s, id, n, s.ranking(id, n)[i]),
    decreases n,
{
    law_ranking_best_first(s, id, n);
    if n > 0 {
        let k = (n - 1) as nat;
        law_ranking_by_average(s, id, k);
        let prev = s.ranking(id, k);
        assert forall|i: int| 0 <= i < prev.len() implies #[trigger] entry_by_average(s, id, n, prev[i]) by {
            assert(entry_by_average(s, id, k, prev[i]));
            let j = choose|j: int|
                0 <= j < k && #[trigger] s.submission_index[(id, j as u32)] == prev[i].0 && {
                    let sub = s.submissions[(id, prev[i].0)];
                    &&& !sub.disqualified
                    &&& sub.submitted_at != 0
                    &&& prev[i].1 == if sub.score_count > 0 {
                        (sub.total_score / sub.score_count) as u32
                    } else {
                        0
                    }
                };
            assert(s.submission_index[(id, j as u32)] == prev[i].0);
        }
        let lead = s.submission_index[(id, k as u32)];
        let sub = s.submissions[(id, lead)];
        if sub.disqualified || sub.submitted_at == 0 {
            assert(s.ranking(id, n) == prev);
        } else {
            let e = (lead, average(sub));
            assert(s.submission_index[(id, (k as int) as u32)] == e.0);
            assert(entry_by_average(s, id, n, e));
            lemma_insert_pos(prev, e.1, 0);
            let p = insert_pos(prev, e.1, 0);
            let r = s.ranking(id, n);
            assert(r == ranked_insert(prev, e));
            assert forall|i: int| 0 <= i < r.len() implies #[trigger] entry_by_average(s, id, n, r[i]) by {
                if i < p {
                    assert(r[i] == prev[i]);
                } else if i == p {
                    assert(r[i] == e);
                } else {
                    assert(r[i] == prev[i - 1]);
                }
            }
        }
    }
}

/// A retrospective grant pays every option that has votes and a recipient its
/// share of the amount, `amount * votes / total` rounded down, where that share
/// is positive; and it pays nothing else. This holds when no product overflowed.
pub proof fn law_retro_pays_every_share(
    opts: Seq<VoteOption>,
    recipients: Seq<Address>,
    amount: i128,
    total: int,
    k: nat,
)
    requires
        k <= opts.len(),
        total > 0,
        !retro_shares(opts, recipients, amount, total, k).1,
    ensures
        forall|i: int|
            0 <= i < k && opts[i].weighted_votes > 0 && i < recipients.len() && trunc_div(
                amount * opts[i].weighted_votes,
                total,
            ) > 0 ==> retro_shares(opts, recipients, amount, total, k).0.contains(
                (recipients[i], trunc_div(amount * opts[i].weighted_votes, total) as i128),
            ),
        forall|x: int|
            0 <= x < retro_shares(opts, recipients, amount, total, k).0.len() ==> exists|i: int|
                0 <= i < k && opts[i].weighted_votes > 0 && i < recipients.len() && #[trigger] retro_shares(
                    opts,
                    recipients,
                    amount,
                    total,
                    k,
                ).0[x] == (recipients[i], trunc_div(amount * opts[i].weighted_votes, total) as i128),
    decreases k,
{
    if k > 0 {
        let j = (k - 1) as nat;
        let prev = retro_shares(opts, recipients, amount, total, j);
        let cur = retro_shares(opts, recipients, amount, total, k);
        assert(!prev.1);
        law_retro_pays_every_share(opts, recipients, amount, total, j);
        let w = opts[j as int].weighted_votes;
        let is_paid = w > 0 && (j as int) < recipients.len() && trunc_div(amount * w, total) > 0;
        if is_paid {
            assert(cur.0 == prev.0.push((recipients[j as int], trunc_div(amount * w, total) as i128)));
        } else {
            assert(cur.0 == prev.0);
        }
        assert forall|i: int|
            0 <= i < k && opts[i].weighted_votes > 0 && i < recipients.len() && trunc_div(
                amount * opts[i].weighted_votes,
                total,
            ) > 0 implies cur.0.contains((recipients[i], trunc_div(amount * opts[i].weighted_votes, total) as i128)) by {
            let target = (recipients[i], trunc_div(amount * opts[i].weighted_votes, total) as i128);
            if i < j {
                assert(prev.0.contains(target));
                let y = choose|y: int| 0 <= y < prev.0.len() && prev.0[y] == target;
                assert(cur.0[y] == target);
            } else {
                assert(cur.0[prev.0.len() as int] == target);
            }
        }
        assert forall|x: int| 0 <= x < cur.0.len() implies exists|i: int|
            0 <= i < k && opts[i].weighted_votes > 0 && i < recipients.len() && #[trigger] cur.0[x] == (
                recipients[i],
                trunc_div(amount * opts[i].weighted_votes, total) as i128,
            ) by {
            if x < prev.0.len() {
                assert(cur.0[x] == prev.0[x]);
                assert(exists|i: int|
                    0 <= i < j && opts[i].weighted_votes > 0 && i < recipients.len() && #[trigger] prev.0[x] == (
                        recipients[i],
                        trunc_div(amount * opts[i].weighted_votes, total) as i128,
                    ));
            } else {
                assert(cur.0[x] == (recipients[j as int], trunc_div(amount * w, total) as i128));
            }
        }
    }
}

} // verus!
