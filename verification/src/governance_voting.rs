//! Voting sessions: plain votes with an optional threshold, and quadratic
//! funding rounds.
use vstd::prelude::*;
use crate::env::Env;
use crate::events::Event;
use crate::table::{Snapshot, Table};
use crate::hash::{hash_tagged_id, sha256_digest, tagged_id};
use crate::math::{fits_i128, int_sqrt_i128, is_isqrt, isqrt, trunc_div};
use crate::types::{Address, BytesN32};

verus! {

#[derive(Clone, Copy, PartialEq, Eq, Structural, Debug)]
pub enum Error {
    AlreadyInitialized,
    NotInitialized,
    NotAuthorized,
    ModuleNotAuthorized,
    SessionNotFound,
    SessionNotActive,
    AlreadyVoted,
    InvalidOption,
    SessionNotEnded,
    VotingNotStarted,
    InvalidTimeRange,
    Overflow,
}

/// What a session decides.
#[derive(Clone, Copy, PartialEq, Eq, Structural, Debug)]
pub enum VoteContext {
    CampaignValidation,
    RetrospectiveGrant,
    QFRound,
    HackathonJudging,
}

#[derive(Clone, Copy, PartialEq, Eq, Structural, Debug)]
pub enum VoteStatus {
    Pending,
    Active,
    Concluded,
    Cancelled,
}

#[derive(Clone, PartialEq, Eq, Debug)]
pub struct VoteOption {
    pub id: u32,
    pub label: String,
    pub votes: u32,
    pub weighted_votes: u64,
}

#[derive(Clone, Copy, PartialEq, Eq, Debug)]
pub struct VotingSession {
    pub session_id: BytesN32,
    pub context: VoteContext,
    pub module_id: u64,
    pub created_at: u64,
    pub start_at: u64,
    pub end_at: u64,
    pub status: VoteStatus,
    pub threshold: Option<u32>,
    pub threshold_reached: bool,
    pub total_votes: u32,
    pub quorum: Option<u32>,
    pub weight_by_reputation: bool,
}

#[derive(Clone, Copy, PartialEq, Eq, Structural, Debug)]
pub struct VoteRecord {
    pub voter: Address,
    pub option_id: u32,
    pub weight: u32,
    pub voted_at: u64,
}

// ── Events ─────────────────────────────────────────────────────────────────

#[derive(Clone, Copy, PartialEq, Eq, Debug)]
pub struct SessionCreated {
    pub session_id: BytesN32,
    pub context: VoteContext,
    pub module_id: u64,
}

#[derive(Clone, Copy, PartialEq, Eq, Debug)]
pub struct VoteCast {
    pub session_id: BytesN32,
    pub voter: Address,
    pub option_id: u32,
}

#[derive(Clone, Copy, PartialEq, Eq, Debug)]
pub struct SessionConcluded {
    pub session_id: BytesN32,
}

#[derive(Clone, Copy, PartialEq, Eq, Debug)]
pub struct QFDonationRecorded {
    pub session_id: BytesN32,
    pub donor: Address,
    pub option_id: u32,
    pub amount: i128,
}


impl Snapshot for VoteOption {
    fn snapshot(&self) -> (r: Self) {
        VoteOption { id: self.id, label: self.label.clone(), votes: self.votes, weighted_votes: self.weighted_votes }
    }
}

impl Snapshot for VotingSession {
    fn snapshot(&self) -> (r: Self) {
        *self
    }
}

impl Snapshot for VoteRecord {
    fn snapshot(&self) -> (r: Self) {
        *self
    }
}

/// The one-byte tag of a context in session ids.
pub open spec fn context_tag(context: VoteContext) -> u8 {
    match context {
        VoteContext::CampaignValidation => 0,
        VoteContext::RetrospectiveGrant => 1,
        VoteContext::QFRound => 2,
        VoteContext::HackathonJudging => 3,
    }
}

/// The session id of entity `module_id` voted on in `context`.
pub open spec fn session_id_spec(context: VoteContext, module_id: u64) -> Seq<u8> {
    sha256_digest(tagged_id(context_tag(context), module_id))
}

/// The options table after the options labelled `labels` were written for `sid`.
pub open spec fn options_written(
    opts: Map<(BytesN32, u32), VoteOption>,
    sid: BytesN32,
    labels: Seq<String>,
) -> Map<(BytesN32, u32), VoteOption>
    decreases labels.len(),
{
    if labels.len() == 0 {
        opts
    } else {
        let k = labels.len() - 1;
        options_written(opts, sid, labels.drop_last()).insert(
            (sid, k as u32),
            VoteOption { id: k as u32, label: labels[k], votes: 0, weighted_votes: 0 },
        )
    }
}

/// The governance contract's storage.
pub struct GovernanceVoting {
    /// This contract's own address.
    pub address: Address,
    pub admin: Option<Address>,
    pub authorized_modules: Table<Address, bool>,
    pub sessions: Table<BytesN32, VotingSession>,
    pub options: Table<(BytesN32, u32), VoteOption>,
    pub vote_records: Table<(BytesN32, Address), VoteRecord>,
    pub option_counts: Table<BytesN32, u32>,
    /// Per option of a quadratic-funding session: the sum of the square roots
    /// of the donations, scaled by 10^6 before the root is taken.
    pub option_sum_sqrt: Table<(BytesN32, u32), i128>,
}

/// The mathematical content of the governance contract's storage.
pub ghost struct GovernanceState {
    pub address: Address,
    pub admin: Option<Address>,
    pub authorized_modules: Map<Address, bool>,
    pub sessions: Map<BytesN32, VotingSession>,
    pub options: Map<(BytesN32, u32), VoteOption>,
    pub vote_records: Map<(BytesN32, Address), VoteRecord>,
    pub option_counts: Map<BytesN32, u32>,
    pub option_sum_sqrt: Map<(BytesN32, u32), i128>,
}

impl View for GovernanceVoting {
    type V = GovernanceState;

    open spec fn view(&self) -> GovernanceState {
        GovernanceState {
            address: self.address,
            admin: self.admin,
            authorized_modules: self.authorized_modules@,
            sessions: self.sessions@,
            options: self.options@,
            vote_records: self.vote_records@,
            option_counts: self.option_counts@,
            option_sum_sqrt: self.option_sum_sqrt@,
        }
    }
}

impl GovernanceState {
    /// Whether `module` may open sessions and record donations: the admin always may.
    pub open spec fn module_authorized(self, module: Address) -> bool {
        self.admin == Some(module) || (self.authorized_modules.contains_key(module)
            && self.authorized_modules[module])
    }

    /// The number of options of session `sid`; zero where none were recorded.
    pub open spec fn option_count(self, sid: BytesN32) -> u32 {
        if self.option_counts.contains_key(sid) {
            self.option_counts[sid]
        } else {
            0
        }
    }

    /// The running sum of square roots of option `i` of session `sid`.
    pub open spec fn sum_sqrt(self, sid: BytesN32, i: u32) -> i128 {
        if self.option_sum_sqrt.contains_key((sid, i)) {
            self.option_sum_sqrt[(sid, i)]
        } else {
            0
        }
    }

    /// The quadratic-funding weight of option `i`: the square of its sum of roots.
    pub open spec fn qf_square(self, sid: BytesN32, i: int) -> int {
        self.sum_sqrt(sid, i as u32) * self.sum_sqrt(sid, i as u32)
    }

    /// The sum of the weights of options `0..k`.
    pub open spec fn qf_total(self, sid: BytesN32, k: int) -> int
        decreases k,
    {
        if k <= 0 {
            0
        } else {
            self.qf_total(sid, k - 1) + self.qf_square(sid, k - 1)
        }
    }

    /// Whether every weight and every running total of weights fits in `i128`.
    pub open spec fn qf_weights_fit(self, sid: BytesN32) -> bool {
        forall|i: int| 0 <= i < self.option_count(sid) ==> fits_i128(#[trigger] self.qf_square(sid, i))
            && fits_i128(self.qf_total(sid, i + 1))
    }

    /// Whether each weight times the matching pool fits in `i128`.
    pub open spec fn qf_products_fit(self, sid: BytesN32, matching_pool: i128) -> bool {
        forall|i: int| 0 <= i < self.option_count(sid) ==> fits_i128(#[trigger] self.qf_square(sid, i) * matching_pool)
    }

    /// Whether the distribution of a matching pool over session `sid` stays within `i128`.
    pub open spec fn qf_fit(self, sid: BytesN32, matching_pool: i128) -> bool {
        self.qf_weights_fit(sid) && (self.qf_total(sid, self.option_count(sid) as int) != 0
            ==> self.qf_products_fit(sid, matching_pool))
    }

    /// Whether every option of session `sid` is stored.
    pub open spec fn all_options_stored(self, sid: BytesN32) -> bool {
        forall|i: int| 0 <= i < self.option_count(sid) ==> #[trigger] self.options.contains_key((sid, i as u32))
    }

    /// The share of the matching pool that option `i` receives.
    pub open spec fn qf_share(self, sid: BytesN32, i: int, matching_pool: i128) -> int {
        let total = self.qf_total(sid, self.option_count(sid) as int);
        if total == 0 {
            0
        } else {
            trunc_div(self.qf_square(sid, i) * matching_pool, total)
        }
    }
}

impl GovernanceVoting {
    /// A governance contract at `address` with empty storage.
    pub fn new(address: Address) -> (c: GovernanceVoting)
        ensures
            c@ == (GovernanceState {
                address,
                admin: None,
                authorized_modules: Map::empty(),
                sessions: Map::empty(),
                options: Map::empty(),
                vote_records: Map::empty(),
                option_counts: Map::empty(),
                option_sum_sqrt: Map::empty(),
            }),
    {
        GovernanceVoting {
            address,
            admin: None,
            authorized_modules: Table::new(),
            sessions: Table::new(),
            options: Table::new(),
            vote_records: Table::new(),
            option_counts: Table::new(),
            option_sum_sqrt: Table::new(),
        }
    }

    /// An identical copy of the storage, to roll back to.
    pub fn snapshot(&self) -> (c: GovernanceVoting)
        ensures
            c@ == self@,
    {
        GovernanceVoting {
            address: self.address,
            admin: self.admin,
            authorized_modules: self.authorized_modules.snapshot(),
            sessions: self.sessions.snapshot(),
            options: self.options.snapshot(),
            vote_records: self.vote_records.snapshot(),
            option_counts: self.option_counts.snapshot(),
            option_sum_sqrt: self.option_sum_sqrt.snapshot(),
        }
    }

    pub fn init(&mut self, admin: Address) -> (r: Result<(), Error>)
        ensures
            old(self)@.admin is Some ==> r == Err::<(), _>(Error::AlreadyInitialized)
                && final(self)@ == old(self)@,
            old(self)@.admin is None ==> r is Ok && final(self)@ == (GovernanceState {
                admin: Some(admin),
                ..old(self)@
            }),
    {
        if self.admin.is_some() {
            return Err(Error::AlreadyInitialized);
        }
        self.admin = Some(admin);
        Ok(())
    }

    pub fn add_authorized_module(&mut self, module: Address) -> (r: Result<(), Error>)
        ensures
            old(self)@.admin is None ==> r == Err::<(), _>(Error::NotInitialized) && final(self)@ == old(self)@,
            old(self)@.admin is Some ==> r is Ok && final(self)@ == (GovernanceState {
                authorized_modules: old(self)@.authorized_modules.insert(module, true),
                ..old(self)@
            }),
    {
        if self.admin.is_none() {
            return Err(Error::NotInitialized);
        }
        self.authorized_modules.insert(module, true);
        Ok(())
    }

    pub fn remove_authorized_module(&mut self, module: Address) -> (r: Result<(), Error>)
        ensures
            old(self)@.admin is None ==> r == Err::<(), _>(Error::NotInitialized) && final(self)@ == old(self)@,
            old(self)@.admin is Some ==> r is Ok && final(self)@ == (GovernanceState {
                authorized_modules: old(self)@.authorized_modules.remove(module),
                ..old(self)@
            }),
    {
        if self.admin.is_none() {
            return Err(Error::NotInitialized);
        }
        self.authorized_modules.remove(&module);
        Ok(())
    }

    fn is_module_authorized_internal(&self, module: Address) -> (b: bool)
        ensures
            b == self@.module_authorized(module),
    {
        match self.admin {
            Some(a) => {
                if a.id == module.id {
                    return true;
                }
            },
            None => {},
        }
        match self.authorized_modules.get(&module) {
            Some(v) => *v,
            None => false,
        }
    }

    /// Opens a session on entity `module_id` in `context` with one option per
    /// label. The session id is derived from the context and the entity id.
    pub fn create_session(
        &mut self,
        env: &mut Env,
        module: Address,
        context: VoteContext,
        module_id: u64,
        options: &Vec<String>,
        start_at: u64,
        end_at: u64,
        threshold: Option<u32>,
        quorum: Option<u32>,
        weight_by_reputation: bool,
    ) -> (r: Result<BytesN32, Error>)
        requires
            options@.len() <= u32::MAX,
        ensures
            !old(self)@.module_authorized(module) ==> r == Err::<BytesN32, _>(Error::ModuleNotAuthorized),
            old(self)@.module_authorized(module) && start_at >= end_at ==> r == Err::<BytesN32, _>(
                Error::InvalidTimeRange,
            ),
            old(self)@.module_authorized(module) && start_at < end_at ==> r is Ok,
            r is Err ==> final(self)@ == old(self)@ && final(env)@ == old(env)@,
            r matches Ok(sid) ==> final(self)@ == old(self)@.session_opened(
                sid, options@, context, module_id, old(env)@.timestamp, start_at, end_at, threshold, quorum,
                weight_by_reputation,
            ),
            r matches Ok(sid) ==> {
                &&& sid.bytes@ == session_id_spec(context, module_id)
                &&& final(self)@ == (GovernanceState {
                    options: options_written(old(self)@.options, sid, options@),
                    option_counts: old(self)@.option_counts.insert(sid, options@.len() as u32),
                    sessions: old(self)@.sessions.insert(
                        sid,
                        VotingSession {
                            session_id: sid,
                            context,
                            module_id,
                            created_at: old(env)@.timestamp,
                            start_at,
                            end_at,
                            status: VoteStatus::Active,
                            threshold,
                            threshold_reached: false,
                            total_votes: 0,
                            quorum,
                            weight_by_reputation,
                        },
                    ),
                    ..old(self)@
                })
                &&& final(env)@ == old(env)@.emit(
                    Event::SessionCreated(SessionCreated { session_id: sid, context, module_id }),
                )
            },
    {
        if !self.is_module_authorized_internal(module) {
            return Err(Error::ModuleNotAuthorized);
        }
        if start_at >= end_at {
            return Err(Error::InvalidTimeRange);
        }
        let tag: u8 = match context {
            VoteContext::CampaignValidation => 0,
            VoteContext::RetrospectiveGrant => 1,
            VoteContext::QFRound => 2,
            VoteContext::HackathonJudging => 3,
        };
        let session_id = hash_tagged_id(tag, module_id);
        let n = options.len();
        let mut i: usize = 0;
        while i < n
            invariant
                n == options@.len(),
                n <= u32::MAX,
                i <= n,
                self@ == (GovernanceState {
                    options: options_written(old(self)@.options, session_id, options@.take(i as int)),
                    ..old(self)@
                }),
            decreases n - i,
        {
            let opt = VoteOption { id: i as u32, label: options[i].clone(), votes: 0, weighted_votes: 0 };
            proof {
                assert(options@.take(i + 1).drop_last() =~= options@.take(i as int));
            }
            self.options.insert((session_id, i as u32), opt);
            i = i + 1;
        }
        assert(options@.take(n as int) =~= options@);
        self.option_counts.insert(session_id, n as u32);
        let session = VotingSession {
            session_id,
            context,
            module_id,
            created_at: env.timestamp,
            start_at,
            end_at,
            status: VoteStatus::Active,
            threshold,
            threshold_reached: false,
            total_votes: 0,
            quorum,
            weight_by_reputation,
        };
        self.sessions.insert(session_id, session);
        env.emit(Event::SessionCreated(SessionCreated { session_id, context, module_id }));
        Ok(session_id)
    }
}

impl GovernanceState {
    /// The storage after `create_session` opened session `sid` with the options `labels`.
    pub open spec fn session_opened(
        self,
        sid: BytesN32,
        labels: Seq<String>,
        context: VoteContext,
        module_id: u64,
        now: u64,
        start_at: u64,
        end_at: u64,
        threshold: Option<u32>,
        quorum: Option<u32>,
        weight_by_reputation: bool,
    ) -> GovernanceState {
        GovernanceState {
            options: options_written(self.options, sid, labels),
            option_counts: self.option_counts.insert(sid, labels.len() as u32),
            sessions: self.sessions.insert(
                sid,
                VotingSession {
                    session_id: sid,
                    context,
                    module_id,
                    created_at: now,
                    start_at,
                    end_at,
                    status: VoteStatus::Active,
                    threshold,
                    threshold_reached: false,
                    total_votes: 0,
                    quorum,
                    weight_by_reputation,
                },
            ),
            ..self
        }
    }

    /// What `cast_vote` returns.
    pub open spec fn cast_vote_result(self, now: u64, voter: Address, sid: BytesN32, option_id: u32) -> Result<(), Error> {
        if !self.sessions.contains_key(sid) {
            Err(Error::SessionNotFound)
        } else if self.sessions[sid].status != VoteStatus::Active {
            Err(Error::SessionNotActive)
        } else if now < self.sessions[sid].start_at {
            Err(Error::VotingNotStarted)
        } else if now > self.sessions[sid].end_at {
            Err(Error::SessionNotActive)
        } else if self.vote_records.contains_key((sid, voter)) {
            Err(Error::AlreadyVoted)
        } else if !self.options.contains_key((sid, option_id)) {
            Err(Error::InvalidOption)
        } else {
            Ok(())
        }
    }

    /// The storage after a successful `cast_vote`.
    pub open spec fn voted(self, now: u64, voter: Address, sid: BytesN32, option_id: u32) -> GovernanceState {
        let o = self.options[(sid, option_id)];
        let sess = self.sessions[sid];
        let total = sat_add_u32(sess.total_votes, 1);
        GovernanceState {
            options: self.options.insert(
                (sid, option_id),
                VoteOption {
                    votes: sat_add_u32(o.votes, 1),
                    weighted_votes: sat_add_u64(o.weighted_votes, 1),
                    ..o
                },
            ),
            sessions: self.sessions.insert(
                sid,
                VotingSession {
                    total_votes: total,
                    threshold_reached: match sess.threshold {
                        Some(t) => if total >= t { true } else { sess.threshold_reached },
                        None => sess.threshold_reached,
                    },
                    ..sess
                },
            ),
            vote_records: self.vote_records.insert(
                (sid, voter),
                VoteRecord { voter, option_id, weight: 1, voted_at: now },
            ),
            ..self
        }
    }
}

/// `a + b`, saturating at `u32::MAX`.
pub open spec fn sat_add_u32(a: u32, b: u32) -> u32 {
    if a + b > u32::MAX {
        u32::MAX
    } else {
        (a + b) as u32
    }
}

/// `a + b`, saturating at `u64::MAX`.
pub open spec fn sat_add_u64(a: u64, b: u64) -> u64 {
    if a + b > u64::MAX {
        u64::MAX
    } else {
        (a + b) as u64
    }
}

impl GovernanceVoting {
    /// Casts the single vote of `voter` for option `option_id`, while the
    /// session is active and open. Every vote weighs one.
    pub fn cast_vote(&mut self, env: &mut Env, voter: Address, session_id: BytesN32, option_id: u32) -> (r: Result<(), Error>)
        ensures
            r == old(self)@.cast_vote_result(old(env)@.timestamp, voter, session_id, option_id),
            r is Err ==> final(self)@ == old(self)@ && final(env)@ == old(env)@,
            r is Ok ==> final(self)@ == old(self)@.voted(old(env)@.timestamp, voter, session_id, option_id)
                && final(env)@ == old(env)@.emit(Event::VoteCast(VoteCast { session_id, voter, option_id })),
    {
        let mut session = match self.sessions.get(&session_id) {
            Some(s) => *s,
            None => return Err(Error::SessionNotFound),
        };
        if session.status != VoteStatus::Active {
            return Err(Error::SessionNotActive);
        }
        let now = env.timestamp;
        if now < session.start_at {
            return Err(Error::VotingNotStarted);
        }
        if now > session.end_at {
            return Err(Error::SessionNotActive);
        }
        if self.vote_records.contains_key(&(session_id, voter)) {
            return Err(Error::AlreadyVoted);
        }
        let mut option = match self.options.get(&(session_id, option_id)) {
            Some(o) => o.snapshot(),
            None => return Err(Error::InvalidOption),
        };
        let weight: u32 = 1;
        option.votes = option.votes.saturating_add(1);
        option.weighted_votes = option.weighted_votes.saturating_add(weight as u64);
        self.options.insert((session_id, option_id), option);
        session.total_votes = session.total_votes.saturating_add(1);
        match session.threshold {
            Some(t) => {
                if session.total_votes >= t {
                    session.threshold_reached = true;
                }
            },
            None => {},
        }
        self.sessions.insert(session_id, session);
        self.vote_records.insert((session_id, voter), VoteRecord { voter, option_id, weight, voted_at: now });
        env.emit(Event::VoteCast(VoteCast { session_id, voter, option_id }));
        Ok(())
    }

    /// Marks a session concluded once its end has passed.
    pub fn conclude_session(&mut self, env: &mut Env, session_id: BytesN32) -> (r: Result<(), Error>)
        ensures
            !old(self)@.sessions.contains_key(session_id) ==> r == Err::<(), _>(Error::SessionNotFound),
            old(self)@.sessions.contains_key(session_id) && old(env)@.timestamp
                <= old(self)@.sessions[session_id].end_at ==> r == Err::<(), _>(Error::SessionNotEnded),
            r is Err ==> final(self)@ == old(self)@ && final(env)@ == old(env)@,
            old(self)@.sessions.contains_key(session_id) && old(env)@.timestamp
                > old(self)@.sessions[session_id].end_at ==> r is Ok && final(self)@ == (GovernanceState {
                sessions: old(self)@.sessions.insert(
                    session_id,
                    VotingSession { status: VoteStatus::Concluded, ..old(self)@.sessions[session_id] },
                ),
                ..old(self)@
            }) && final(env)@ == old(env)@.emit(Event::SessionConcluded(SessionConcluded { session_id })),
    {
        let mut session = match self.sessions.get(&session_id) {
            Some(s) => *s,
            None => return Err(Error::SessionNotFound),
        };
        if env.timestamp <= session.end_at {
            return Err(Error::SessionNotEnded);
        }
        session.status = VoteStatus::Concluded;
        self.sessions.insert(session_id, session);
        env.emit(Event::SessionConcluded(SessionConcluded { session_id }));
        Ok(())
    }

    pub fn cancel_session(&mut self, session_id: BytesN32) -> (r: Result<(), Error>)
        ensures
            old(self)@.admin is None ==> r == Err::<(), _>(Error::NotInitialized),
            old(self)@.admin is Some && !old(self)@.sessions.contains_key(session_id) ==> r == Err::<(), _>(
                Error::SessionNotFound,
            ),
            r is Err ==> final(self)@ == old(self)@,
            old(self)@.admin is Some && old(self)@.sessions.contains_key(session_id) ==> r is Ok
                && final(self)@ == (GovernanceState {
                sessions: old(self)@.sessions.insert(
                    session_id,
                    VotingSession { status: VoteStatus::Cancelled, ..old(self)@.sessions[session_id] },
                ),
                ..old(self)@
            }),
    {
        if self.admin.is_none() {
            return Err(Error::NotInitialized);
        }
        let mut session = match self.sessions.get(&session_id) {
            Some(s) => *s,
            None => return Err(Error::SessionNotFound),
        };
        session.status = VoteStatus::Cancelled;
        self.sessions.insert(session_id, session);
        Ok(())
    }

    /// Adds the square root of `amount * 10^6` to the running sum of option
    /// `option_id`; each call counts as one donation.
    pub fn record_qf_donation(
        &mut self,
        env: &mut Env,
        session_id: BytesN32,
        module: Address,
        amount: i128,
        option_id: u32,
    ) -> (r: Result<(), Error>)
        ensures
            r == old(self)@.qf_donation_result(session_id, module, amount, option_id),
            r is Err ==> final(self)@ == old(self)@ && final(env)@ == old(env)@,
            r is Ok ==> final(self)@ == (GovernanceState {
                option_sum_sqrt: old(self)@.option_sum_sqrt.insert(
                    (session_id, option_id),
                    (old(self)@.sum_sqrt(session_id, option_id) + isqrt(amount * 1_000_000)) as i128,
                ),
                ..old(self)@
            }) && final(env)@ == old(env)@.emit(
                Event::QFDonationRecorded(
                    QFDonationRecorded { session_id, donor: module, option_id, amount },
                ),
            ),
    {
        if !self.is_module_authorized_internal(module) {
            return Err(Error::ModuleNotAuthorized);
        }
        let session = match self.sessions.get(&session_id) {
            Some(s) => *s,
            None => return Err(Error::SessionNotFound),
        };
        if session.status != VoteStatus::Active {
            return Err(Error::SessionNotActive);
        }
        let option_count: u32 = match self.option_counts.get(&session_id) {
            Some(c) => *c,
            None => 0,
        };
        if option_id >= option_count {
            return Err(Error::InvalidOption);
        }
        let old_sum: i128 = match self.option_sum_sqrt.get(&(session_id, option_id)) {
            Some(v) => *v,
            None => 0,
        };
        let scaled = match amount.checked_mul(1_000_000) {
            Some(v) => v,
            None => return Err(Error::Overflow),
        };
        let root = match int_sqrt_i128(scaled) {
            Some(v) => v,
            None => return Err(Error::InvalidOption),
        };
        let new_sum = match old_sum.checked_add(root) {
            Some(v) => v,
            None => return Err(Error::Overflow),
        };
        self.option_sum_sqrt.insert((session_id, option_id), new_sum);
        env.emit(
            Event::QFDonationRecorded(QFDonationRecorded { session_id, donor: module, option_id, amount }),
        );
        Ok(())
    }
}

impl GovernanceState {
    /// What `record_qf_donation` returns.
    pub open spec fn qf_donation_result(self, sid: BytesN32, module: Address, amount: i128, option_id: u32) -> Result<(), Error> {
        if !self.module_authorized(module) {
            Err(Error::ModuleNotAuthorized)
        } else if !self.sessions.contains_key(sid) {
            Err(Error::SessionNotFound)
        } else if self.sessions[sid].status != VoteStatus::Active {
            Err(Error::SessionNotActive)
        } else if option_id >= self.option_count(sid) {
            Err(Error::InvalidOption)
        } else if !fits_i128(amount * 1_000_000) {
            Err(Error::Overflow)
        } else if amount < 0 {
            Err(Error::InvalidOption)
        } else if !fits_i128(self.sum_sqrt(sid, option_id) + isqrt(amount * 1_000_000)) {
            Err(Error::Overflow)
        } else {
            Ok(())
        }
    }
}

impl GovernanceVoting {
    fn sum_sqrt_of(&self, session_id: BytesN32, i: u32) -> (v: i128)
        ensures
            v == self@.sum_sqrt(session_id, i),
    {
        match self.option_sum_sqrt.get(&(session_id, i)) {
            Some(v) => *v,
            None => 0,
        }
    }

    /// Splits `matching_pool` over the options of an ended quadratic-funding
    /// session in proportion to the squares of their sums of roots; each share
    /// is rounded toward zero. Returns `(option, share)` for every option.
    #[verifier::loop_isolation(false)]
    pub fn compute_qf_distribution(&self, env: &Env, session_id: BytesN32, matching_pool: i128) -> (r: Result<Vec<(u32, i128)>, Error>)
        ensures
            !self@.sessions.contains_key(session_id) ==> r matches Err(Error::SessionNotFound),
            self@.sessions.contains_key(session_id) && env@.timestamp <= self@.sessions[session_id].end_at
                ==> r matches Err(Error::SessionNotEnded),
            self@.sessions.contains_key(session_id) && env@.timestamp > self@.sessions[session_id].end_at
                && !self@.qf_fit(session_id, matching_pool) ==> r matches Err(Error::Overflow),
            self@.sessions.contains_key(session_id) && env@.timestamp > self@.sessions[session_id].end_at
                && self@.qf_fit(session_id, matching_pool) ==> r is Ok,
            r matches Ok(v) ==> v@.len() == self@.option_count(session_id) && forall|i: int|
                0 <= i < v@.len() ==> #[trigger] v@[i] == (
                    i as u32,
                    self@.qf_share(session_id, i, matching_pool) as i128,
                ),
    {
        let session = match self.sessions.get(&session_id) {
            Some(s) => *s,
            None => return Err(Error::SessionNotFound),
        };
        if env.timestamp <= session.end_at {
            return Err(Error::SessionNotEnded);
        }
        let option_count: u32 = match self.option_counts.get(&session_id) {
            Some(c) => *c,
            None => 0,
        };
        let ghost st = self@;
        let mut squares: Vec<i128> = Vec::new();
        let mut total: i128 = 0;
        let mut i: u32 = 0;
        while i < option_count
            invariant
                st == self@,
                option_count == st.option_count(session_id),
                i <= option_count,
                squares@.len() == i,
                forall|j: int| 0 <= j < i ==> squares@[j] == st.qf_square(session_id, j),
                total == st.qf_total(session_id, i as int),
                forall|j: int| 0 <= j < i ==> fits_i128(#[trigger] st.qf_square(session_id, j))
                    && fits_i128(st.qf_total(session_id, j + 1)),
            decreases option_count - i,
        {
            let v = self.sum_sqrt_of(session_id, i);
            let sq = match v.checked_mul(v) {
                Some(x) => x,
                None => {
                    assert(!fits_i128(st.qf_square(session_id, i as int)));
                    return Err(Error::Overflow);
                },
            };
            total = match total.checked_add(sq) {
                Some(x) => x,
                None => {
                    assert(!fits_i128(st.qf_total(session_id, i + 1)));
                    return Err(Error::Overflow);
                },
            };
            squares.push(sq);
            i = i + 1;
        }
        let mut results: Vec<(u32, i128)> = Vec::new();
        if total == 0 {
            let mut k: u32 = 0;
            while k < option_count
                invariant
                    k <= option_count,
                    option_count == st.option_count(session_id),
                    total == 0,
                    total == st.qf_total(session_id, option_count as int),
                    results@.len() == k,
                    forall|j: int| 0 <= j < k ==> #[trigger] results@[j] == (
                        j as u32,
                        st.qf_share(session_id, j, matching_pool) as i128,
                    ),
                decreases option_count - k,
            {
                results.push((k, 0));
                k = k + 1;
            }
            return Ok(results);
        }
        proof {
            lemma_qf_total_nonneg(st, session_id, option_count as int);
        }
        let mut k: u32 = 0;
        while k < option_count
            invariant
                k <= option_count,
                option_count == st.option_count(session_id),
                total > 0,
                total == st.qf_total(session_id, option_count as int),
                squares@.len() == option_count,
                forall|j: int| 0 <= j < option_count ==> squares@[j] == st.qf_square(session_id, j),
                results@.len() == k,
                forall|j: int| 0 <= j < k ==> #[trigger] results@[j] == (
                    j as u32,
                    st.qf_share(session_id, j, matching_pool) as i128,
                ),
                forall|j: int| 0 <= j < k ==> fits_i128(#[trigger] st.qf_square(session_id, j) * matching_pool),
            decreases option_count - k,
        {
            let sq = squares[k as usize];
            let product = match sq.checked_mul(matching_pool) {
                Some(x) => x,
                None => {
                    assert(!fits_i128(st.qf_square(session_id, k as int) * matching_pool));
                    return Err(Error::Overflow);
                },
            };
            let share = match product.checked_div(total) {
                Some(x) => x,
                None => {
                    assert(false);
                    return Err(Error::Overflow);
                },
            };
            results.push((k, share));
            k = k + 1;
        }
        Ok(results)
    }

    pub fn get_session(&self, session_id: BytesN32) -> (r: Result<VotingSession, Error>)
        ensures
            r == if self@.sessions.contains_key(session_id) {
                Ok(self@.sessions[session_id])
            } else {
                Err(Error::SessionNotFound)
            },
    {
        match self.sessions.get(&session_id) {
            Some(s) => Ok(*s),
            None => Err(Error::SessionNotFound),
        }
    }

    /// Every option of a session with its counts, in order.
    #[verifier::loop_isolation(false)]
    pub fn get_result(&self, session_id: BytesN32) -> (r: Result<Vec<VoteOption>, Error>)
        ensures
            !self@.sessions.contains_key(session_id) ==> r matches Err(Error::SessionNotFound),
            self@.sessions.contains_key(session_id) && !self@.all_options_stored(session_id) ==> r matches Err(
                Error::InvalidOption,
            ),
            self@.sessions.contains_key(session_id) && self@.all_options_stored(session_id) ==> r is Ok,
            r matches Ok(v) ==> v@.len() == self@.option_count(session_id) && forall|i: int|
                0 <= i < v@.len() ==> #[trigger] v@[i] == self@.options[(session_id, i as u32)],
    {
        if !self.sessions.contains_key(&session_id) {
            return Err(Error::SessionNotFound);
        }
        let option_count: u32 = match self.option_counts.get(&session_id) {
            Some(c) => *c,
            None => 0,
        };
        let mut results: Vec<VoteOption> = Vec::new();
        let mut i: u32 = 0;
        while i < option_count
            invariant
                option_count == self@.option_count(session_id),
                i <= option_count,
                results@.len() == i,
                forall|j: int| 0 <= j < i ==> #[trigger] self@.options.contains_key((session_id, j as u32)),
                forall|j: int| 0 <= j < i ==> #[trigger] results@[j] == self@.options[(session_id, j as u32)],
            decreases option_count - i,
        {
            match self.options.get(&(session_id, i)) {
                Some(o) => results.push(o.snapshot()),
                None => {
                    assert(!self@.options.contains_key((session_id, (i as int) as u32)));
                    return Err(Error::InvalidOption);
                },
            }
            i = i + 1;
        }
        Ok(results)
    }

    pub fn get_option(&self, session_id: BytesN32, option_id: u32) -> (r: Result<VoteOption, Error>)
        ensures
            r == if self@.options.contains_key((session_id, option_id)) {
                Ok(self@.options[(session_id, option_id)])
            } else {
                Err(Error::InvalidOption)
            },
    {
        match self.options.get(&(session_id, option_id)) {
            Some(o) => Ok(o.snapshot()),
            None => Err(Error::InvalidOption),
        }
    }

    pub fn has_voted(&self, session_id: BytesN32, voter: Address) -> (b: bool)
        ensures
            b == self@.vote_records.contains_key((session_id, voter)),
    {
        self.vote_records.contains_key(&(session_id, voter))
    }

    pub fn threshold_reached(&self, session_id: BytesN32) -> (r: Result<bool, Error>)
        ensures
            r == if self@.sessions.contains_key(session_id) {
                Ok(self@.sessions[session_id].threshold_reached)
            } else {
                Err(Error::SessionNotFound)
            },
    {
        match self.sessions.get(&session_id) {
            Some(s) => Ok(s.threshold_reached),
            None => Err(Error::SessionNotFound),
        }
    }
}

/// Weights are squares, so their totals are never negative.
pub proof fn lemma_qf_total_nonneg(st: GovernanceState, sid: BytesN32, k: int)
    ensures
        st.qf_total(sid, k) >= 0,
    decreases k,
{
    if k > 0 {
        lemma_qf_total_nonneg(st, sid, k - 1);
        let v = st.sum_sqrt(sid, (k - 1) as u32) as int;
        assert(v * v >= 0) by (nonlinear_arith);
    }
}

} // verus!
