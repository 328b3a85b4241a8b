//! Contributor reputation (scores, levels) and SparkCredits, the credits
//! that applying to work costs.
use vstd::prelude::*;
use crate::env::Env;
use crate::events::Event;
use crate::table::{Snapshot, Table};
use crate::math::{fits_i128, is_isqrt, lemma_isqrt_unique};
use crate::types::{ActivityCategory, Address, BytesN32};

verus! {

/// Credits granted by a fortnightly recharge.
pub const RECHARGE_AMOUNT: u32 = 3;

/// Seconds between recharges: 14 days.
pub const RECHARGE_INTERVAL: u64 = 1_209_600;

/// The credit cap of contributors below level 3.
pub const DEFAULT_MAX_CREDITS: u32 = 10;

/// The credit cap of contributors at level 3 or above.
pub const L3_MAX_CREDITS: u32 = 11;

#[derive(Clone, Copy, PartialEq, Eq, Structural, Debug)]
pub enum ReputationError {
    AlreadyInitialized,
    NotInitialized,
    ProfileNotFound,
    ModuleNotAuthorized,
    InsufficientCredits,
    RechargeNotReady,
}

/// Scores per activity category.
#[derive(Clone, Copy, PartialEq, Eq, Structural, Debug)]
pub struct CategoryScores {
    pub development: u32,
    pub design: u32,
    pub marketing: u32,
    pub security: u32,
    pub community: u32,
}

#[derive(Clone, PartialEq, Eq, Debug)]
pub struct ContributorProfile {
    pub address: Address,
    pub overall_score: u32,
    pub level: u32,
    pub category_scores: CategoryScores,
    pub bounties_completed: u32,
    pub hackathons_entered: u32,
    pub hackathons_won: u32,
    pub campaigns_backed: u32,
    pub grants_received: u32,
    pub total_earned: i128,
    pub metadata_cid: String,
    pub joined_at: u64,
}

/// A contributor's SparkCredits.
#[derive(Clone, Copy, PartialEq, Eq, Structural, Debug)]
pub struct CreditData {
    pub credits: u32,
    pub max_credits: u32,
    pub last_recharge: u64,
    pub total_earned: u32,
    pub total_spent: u32,
}

impl CreditData {
    /// The credits a new contributor starts with at time `timestamp`.
    pub fn new(timestamp: u64) -> (c: CreditData)
        ensures
            c == (CreditData {
                credits: 3,
                max_credits: 10,
                last_recharge: timestamp,
                total_earned: 3,
                total_spent: 0,
            }),
    {
        CreditData { credits: 3, max_credits: 10, last_recharge: timestamp, total_earned: 3, total_spent: 0 }
    }
}

impl CategoryScores {
    /// All categories at zero.
    pub open spec fn zero() -> CategoryScores {
        CategoryScores { development: 0, design: 0, marketing: 0, security: 0, community: 0 }
    }

    /// The score of `category`.
    pub open spec fn score(self, category: ActivityCategory) -> u32 {
        match category {
            ActivityCategory::Development => self.development,
            ActivityCategory::Design => self.design,
            ActivityCategory::Marketing => self.marketing,
            ActivityCategory::Security => self.security,
            ActivityCategory::Community => self.community,
        }
    }

    /// These scores with `category` set to `v`.
    pub open spec fn with_score(self, category: ActivityCategory, v: u32) -> CategoryScores {
        match category {
            ActivityCategory::Development => CategoryScores { development: v, ..self },
            ActivityCategory::Design => CategoryScores { design: v, ..self },
            ActivityCategory::Marketing => CategoryScores { marketing: v, ..self },
            ActivityCategory::Security => CategoryScores { security: v, ..self },
            ActivityCategory::Community => CategoryScores { community: v, ..self },
        }
    }

    /// The score of `category`.
    pub fn get(&self, category: ActivityCategory) -> (r: u32)
        ensures
            r == self.score(category),
    {
        match category {
            ActivityCategory::Development => self.development,
            ActivityCategory::Design => self.design,
            ActivityCategory::Marketing => self.marketing,
            ActivityCategory::Security => self.security,
            ActivityCategory::Community => self.community,
        }
    }

    fn set(&mut self, category: ActivityCategory, v: u32)
        ensures
            *final(self) == old(self).with_score(category, v),
    {
        match category {
            ActivityCategory::Development => self.development = v,
            ActivityCategory::Design => self.design = v,
            ActivityCategory::Marketing => self.marketing = v,
            ActivityCategory::Security => self.security = v,
            ActivityCategory::Community => self.community = v,
        }
    }
}

impl Snapshot for ContributorProfile {
    fn snapshot(&self) -> (r: Self) {
        ContributorProfile {
            address: self.address,
            overall_score: self.overall_score,
            level: self.level,
            category_scores: self.category_scores,
            bounties_completed: self.bounties_completed,
            hackathons_entered: self.hackathons_entered,
            hackathons_won: self.hackathons_won,
            campaigns_backed: self.campaigns_backed,
            grants_received: self.grants_received,
            total_earned: self.total_earned,
            metadata_cid: self.metadata_cid.clone(),
            joined_at: self.joined_at,
        }
    }
}

impl Snapshot for CreditData {
    fn snapshot(&self) -> (r: Self) {
        *self
    }
}

/// A new profile of `contributor` that joined at `joined_at`, with metadata `cid`.
pub open spec fn fresh_profile(contributor: Address, joined_at: u64, cid: String) -> ContributorProfile {
    ContributorProfile {
        address: contributor,
        overall_score: 0,
        level: 0,
        category_scores: CategoryScores::zero(),
        bounties_completed: 0,
        hackathons_entered: 0,
        hackathons_won: 0,
        campaigns_backed: 0,
        grants_received: 0,
        total_earned: 0,
        metadata_cid: cid,
        joined_at,
    }
}

/// The level of an overall score: the integer square root of a tenth of it.
pub open spec fn level_of(score: u32) -> u32 {
    choose|l: u32| #[trigger] is_isqrt(l as int, (score / 10) as int)
}

/// The reputation registry's storage.
pub struct ReputationRegistry {
    /// This contract's own address.
    pub address: Address,
    pub admin: Option<Address>,
    pub version: Option<u32>,
    pub profiles: Table<Address, ContributorProfile>,
    pub credits: Table<Address, CreditData>,
    pub authorized_modules: Table<Address, bool>,
}

/// The mathematical content of the registry's storage.
pub ghost struct ReputationState {
    pub address: Address,
    pub admin: Option<Address>,
    pub version: Option<u32>,
    pub profiles: Map<Address, ContributorProfile>,
    pub credits: Map<Address, CreditData>,
    pub authorized_modules: Map<Address, bool>,
}

impl View for ReputationRegistry {
    type V = ReputationState;

    open spec fn view(&self) -> ReputationState {
        ReputationState {
            address: self.address,
            admin: self.admin,
            version: self.version,
            profiles: self.profiles@,
            credits: self.credits@,
            authorized_modules: self.authorized_modules@,
        }
    }
}

impl ReputationState {
    /// Whether `module` may record reputation and move credits.
    pub open spec fn authorized(self, module: Address) -> bool {
        self.authorized_modules.contains_key(module) && self.authorized_modules[module]
    }
}

/// One Newton step for the square root of `n` never undershoots it.
proof fn lemma_newton_step(x: int, n: int)
    requires
        1 <= x,
        0 <= n,
    ensures
        n < ((x + n / x) / 2 + 1) * ((x + n / x) / 2 + 1),
{
    let q = n / x;
    let t = (x + q) / 2 + 1;
    assert(x * q <= n < x * (q + 1)) by (nonlinear_arith)
        requires
            1 <= x,
            0 <= n,
            q == n / x,
    ;
    if t * t <= n {
        assert(x + q <= 2 * t - 1);
        assert(x * (q + 1) <= x * (2 * t - x)) by (nonlinear_arith)
            requires
                1 <= x,
                q + 1 <= 2 * t - x,
        ;
        assert(x * (2 * t - x) <= t * t) by (nonlinear_arith);
    }
}

/// The level of a positive score once Newton's method for the square root has settled.
proof fn lemma_newton_done(x: int, n: int)
    requires
        1 <= x,
        0 <= n,
        (x + n / x) / 2 >= x,
    ensures
        x * x <= n,
{
    let q = n / x;
    assert(x * q <= n) by (nonlinear_arith)
        requires
            1 <= x,
            0 <= n,
            q == n / x,
    ;
    if x * x > n {
        assert(q < x) by (nonlinear_arith)
            requires
                1 <= x,
                x * q <= n,
                n < x * x,
        ;
    }
}

// ── Events ─────────────────────────────────────────────────────────────────

#[derive(Clone, Copy, PartialEq, Eq, Structural, Debug)]
pub struct ScoreUpdated {
    pub contributor: Address,
    pub overall_score: u32,
    pub level: u32,
}

#[derive(Clone, Copy, PartialEq, Eq, Structural, Debug)]
pub struct ModuleAuthorized {
    pub module: Address,
    pub authorized: bool,
}

#[derive(Clone, Copy, PartialEq, Eq, Structural, Debug)]
pub struct CreditsSpent {
    pub user: Address,
    pub remaining: u32,
}

#[derive(Clone, Copy, PartialEq, Eq, Structural, Debug)]
pub struct CreditsAwarded {
    pub user: Address,
    pub amount: u32,
    pub remaining: u32,
}

#[derive(Clone, Copy, PartialEq, Eq, Structural, Debug)]
pub struct CreditsRecharged {
    pub user: Address,
    pub remaining: u32,
}

impl ReputationState {
    /// The profile that a recording for `c` starts from: the stored one, or a
    /// fresh one that joins at `now` with metadata `cid`.
    pub open spec fn base_profile(self, c: Address, now: u64, cid: String) -> ContributorProfile {
        if self.profiles.contains_key(c) {
            self.profiles[c]
        } else {
            fresh_profile(c, now, cid)
        }
    }

    /// Whether the stored profile of `c`, if any, satisfies `ok`.
    pub open spec fn stored_profile_satisfies(self, c: Address, ok: spec_fn(ContributorProfile) -> bool) -> bool {
        self.profiles.contains_key(c) ==> ok(self.profiles[c])
    }
}

/// `new` differs from `old` only in the profile of `c`, which is `f` applied to
/// the profile that the recording starts from.
pub open spec fn profile_rewritten(
    old: ReputationState,
    new: ReputationState,
    c: Address,
    now: u64,
    f: spec_fn(ContributorProfile) -> ContributorProfile,
) -> bool {
    let cid = new.profiles[c].metadata_cid;
    &&& new == ReputationState { profiles: old.profiles.insert(c, f(old.base_profile(c, now, cid))), ..old }
    &&& !old.profiles.contains_key(c) ==> cid@ == Seq::<char>::empty()
}

/// `p` with its overall score set to `score` and its level recomputed.
pub open spec fn rescored(p: ContributorProfile, score: u32) -> ContributorProfile {
    ContributorProfile { overall_score: score, level: level_of(score), ..p }
}

/// `p` after a completed task worth `points` in `category`.
pub open spec fn completed(p: ContributorProfile, category: ActivityCategory, points: u32) -> ContributorProfile {
    rescored(
        ContributorProfile {
            category_scores: p.category_scores.with_score(
                category,
                (p.category_scores.score(category) + points) as u32,
            ),
            bounties_completed: (p.bounties_completed + 1) as u32,
            ..p
        },
        (p.overall_score + points) as u32,
    )
}

/// `p` after a hackathon worth `points`, won or not.
pub open spec fn hackathon_recorded(p: ContributorProfile, points: u32, is_win: bool) -> ContributorProfile {
    rescored(
        ContributorProfile {
            hackathons_entered: (p.hackathons_entered + 1) as u32,
            hackathons_won: if is_win { (p.hackathons_won + 1) as u32 } else { p.hackathons_won },
            ..p
        },
        (p.overall_score + points) as u32,
    )
}

/// `p` after backing a campaign: five points.
pub open spec fn campaign_recorded(p: ContributorProfile) -> ContributorProfile {
    rescored(
        ContributorProfile { campaigns_backed: (p.campaigns_backed + 1) as u32, ..p },
        (p.overall_score + 5) as u32,
    )
}

/// `p` after receiving a grant of `amount`: twenty points.
pub open spec fn grant_recorded(p: ContributorProfile, amount: i128) -> ContributorProfile {
    rescored(
        ContributorProfile {
            grants_received: (p.grants_received + 1) as u32,
            total_earned: (p.total_earned + amount) as i128,
            ..p
        },
        (p.overall_score + 20) as u32,
    )
}

/// Whether recording a completion worth `points` in `category` stays within `u32`.
pub open spec fn completion_fits(p: ContributorProfile, category: ActivityCategory, points: u32) -> bool {
    &&& p.overall_score + points <= u32::MAX
    &&& p.category_scores.score(category) + points <= u32::MAX
    &&& p.bounties_completed + 1 <= u32::MAX
}

/// Whether recording a hackathon result worth `points` stays within `u32`.
pub open spec fn hackathon_fits(p: ContributorProfile, points: u32, is_win: bool) -> bool {
    &&& p.overall_score + points <= u32::MAX
    &&& p.hackathons_entered + 1 <= u32::MAX
    &&& is_win ==> p.hackathons_won + 1 <= u32::MAX
}

/// Whether recording a backed campaign stays within `u32`.
pub open spec fn campaign_fits(p: ContributorProfile) -> bool {
    &&& p.overall_score + 5 <= u32::MAX
    &&& p.campaigns_backed + 1 <= u32::MAX
}

/// Whether recording a grant of `amount` stays within range.
pub open spec fn grant_fits(p: ContributorProfile, amount: i128) -> bool {
    &&& p.overall_score + 20 <= u32::MAX
    &&& p.grants_received + 1 <= u32::MAX
    &&& fits_i128(p.total_earned + amount)
}

impl ReputationRegistry {
    /// The level of an overall score: `sqrt(score / 10)`, rounded down,
    /// computed with Newton's method.
    pub fn compute_level(score: u32) -> (l: u32)
        ensures
            is_isqrt(l as int, (score / 10) as int),
            l == level_of(score),
    {
        let n = score / 10;
        if score == 0 || n == 0 {
            proof {
                assert(is_isqrt(0, (score / 10) as int));
                lemma_isqrt_unique(0, level_of(score) as int, (score / 10) as int);
            }
            return 0;
        }
        let mut x = n;
        let mut y = (x + 1) / 2;
        proof {
            assert(n / n == 1) by (nonlinear_arith)
                requires
                    n >= 1,
            ;
            assert(n < (n + 1) * (n + 1)) by (nonlinear_arith)
                requires
                    n >= 1,
            ;
        }
        while y < x
            invariant
                1 <= x <= n,
                n == score / 10,
                n >= 1,
                y == (x + n / x) / 2,
                n < (x + 1) * (x + 1),
            decreases x,
        {
            proof {
                lemma_newton_step(x as int, n as int);
                assert(y >= 1) by (nonlinear_arith)
                    requires
                        x >= 1,
                        n >= 1,
                        y == (x + n / x) / 2,
                ;
            }
            x = y;
            proof {
                assert(n / x <= n) by (nonlinear_arith)
                    requires
                        x >= 1,
                        n >= 0,
                ;
            }
            y = (x + n / x) / 2;
        }
        proof {
            lemma_newton_done(x as int, n as int);
            assert(is_isqrt(x as int, n as int));
            lemma_isqrt_unique(x as int, level_of(score) as int, n as int);
        }
        x
    }
}

impl ReputationRegistry {
    /// A registry at `address` with empty storage.
    pub fn new(address: Address) -> (c: ReputationRegistry)
        ensures
            c@ == (ReputationState {
                address,
                admin: None,
                version: None,
                profiles: Map::empty(),
                credits: Map::empty(),
                authorized_modules: Map::empty(),
            }),
    {
        ReputationRegistry {
            address,
            admin: None,
            version: None,
            profiles: Table::new(),
            credits: Table::new(),
            authorized_modules: Table::new(),
        }
    }

    /// An identical copy of the storage, to roll back to.
    pub fn snapshot(&self) -> (c: ReputationRegistry)
        ensures
            c@ == self@,
    {
        ReputationRegistry {
            address: self.address,
            admin: self.admin,
            version: self.version,
            profiles: self.profiles.snapshot(),
            credits: self.credits.snapshot(),
            authorized_modules: self.authorized_modules.snapshot(),
        }
    }

    pub fn init(&mut self, admin: Address) -> (r: Result<(), ReputationError>)
        ensures
            old(self)@.admin is Some ==> r == Err::<(), _>(ReputationError::AlreadyInitialized)
                && final(self)@ == old(self)@,
            old(self)@.admin is None ==> r is Ok && final(self)@ == (ReputationState {
                admin: Some(admin),
                version: Some(1),
                ..old(self)@
            }),
    {
        if self.admin.is_some() {
            return Err(ReputationError::AlreadyInitialized);
        }
        self.admin = Some(admin);
        self.version = Some(1);
        Ok(())
    }

    /// Creates the profile and credits of `contributor`; does nothing when the profile exists.
    pub fn init_profile(&mut self, env: &Env, contributor: Address) -> (r: Result<(), ReputationError>)
        ensures
            r is Ok,
            old(self)@.profiles.contains_key(contributor) ==> final(self)@ == old(self)@,
            !old(self)@.profiles.contains_key(contributor) ==> {
                let p = final(self)@.profiles[contributor];
                &&& p == fresh_profile(contributor, env@.timestamp, p.metadata_cid)
                &&& p.metadata_cid@ == Seq::<char>::empty()
                &&& final(self)@ == (ReputationState {
                    profiles: old(self)@.profiles.insert(contributor, p),
                    credits: old(self)@.credits.insert(contributor, CreditData {
                        credits: 3,
                        max_credits: 10,
                        last_recharge: env@.timestamp,
                        total_earned: 3,
                        total_spent: 0,
                    }),
                    ..old(self)@
                })
            },
    {
        if self.profiles.contains_key(&contributor) {
            return Ok(());
        }
        let now = env.timestamp;
        let profile = ContributorProfile {
            address: contributor,
            overall_score: 0,
            level: 0,
            category_scores: CategoryScores {
                development: 0,
                design: 0,
                marketing: 0,
                security: 0,
                community: 0,
            },
            bounties_completed: 0,
            hackathons_entered: 0,
            hackathons_won: 0,
            campaigns_backed: 0,
            grants_received: 0,
            total_earned: 0,
            metadata_cid: String::new(),
            joined_at: now,
        };
        self.profiles.insert(contributor, profile);
        self.credits.insert(contributor, CreditData::new(now));
        Ok(())
    }

    pub fn set_profile_metadata(&mut self, contributor: Address, cid: String) -> (r: Result<(), ReputationError>)
        ensures
            !old(self)@.profiles.contains_key(contributor) ==> r == Err::<(), _>(
                ReputationError::ProfileNotFound,
            ) && final(self)@ == old(self)@,
            old(self)@.profiles.contains_key(contributor) ==> r is Ok && final(self)@ == (
            ReputationState {
                profiles: old(self)@.profiles.insert(
                    contributor,
                    ContributorProfile { metadata_cid: cid, ..old(self)@.profiles[contributor] },
                ),
                ..old(self)@
            }),
    {
        let mut profile = match self.profiles.get(&contributor) {
            Some(p) => p.snapshot(),
            None => return Err(ReputationError::ProfileNotFound),
        };
        profile.metadata_cid = cid;
        self.profiles.insert(contributor, profile);
        Ok(())
    }

    pub fn get_profile(&self, contributor: Address) -> (r: Result<ContributorProfile, ReputationError>)
        ensures
            r == if self@.profiles.contains_key(contributor) {
                Ok(self@.profiles[contributor])
            } else {
                Err(ReputationError::ProfileNotFound)
            },
    {
        match self.profiles.get(&contributor) {
            Some(p) => Ok(p.snapshot()),
            None => Err(ReputationError::ProfileNotFound),
        }
    }

    pub fn get_level(&self, contributor: Address) -> (r: Result<u32, ReputationError>)
        ensures
            r == if self@.profiles.contains_key(contributor) {
                Ok(self@.profiles[contributor].level)
            } else {
                Err(ReputationError::ProfileNotFound)
            },
    {
        match self.profiles.get(&contributor) {
            Some(p) => Ok(p.level),
            None => Err(ReputationError::ProfileNotFound),
        }
    }

    pub fn meets_requirements(&self, contributor: Address, min_level: u32) -> (r: Result<bool, ReputationError>)
        ensures
            r == if self@.profiles.contains_key(contributor) {
                Ok(self@.profiles[contributor].level >= min_level)
            } else {
                Err(ReputationError::ProfileNotFound)
            },
    {
        match self.profiles.get(&contributor) {
            Some(p) => Ok(p.level >= min_level),
            None => Err(ReputationError::ProfileNotFound),
        }
    }

    pub fn add_authorized_module(&mut self, env: &mut Env, module: Address) -> (r: Result<(), ReputationError>)
        ensures
            old(self)@.admin is None ==> r == Err::<(), _>(ReputationError::NotInitialized)
                && final(self)@ == old(self)@ && final(env)@ == old(env)@,
            old(self)@.admin is Some ==> r is Ok && final(self)@ == (ReputationState {
                authorized_modules: old(self)@.authorized_modules.insert(module, true),
                ..old(self)@
            }) && final(env)@ == old(env)@.emit(
                Event::ModuleAuthorized(ModuleAuthorized { module, authorized: true }),
            ),
    {
        if self.admin.is_none() {
            return Err(ReputationError::NotInitialized);
        }
        self.authorized_modules.insert(module, true);
        env.emit(Event::ModuleAuthorized(ModuleAuthorized { module, authorized: true }));
        Ok(())
    }

    pub fn remove_authorized_module(&mut self, env: &mut Env, module: Address) -> (r: Result<(), ReputationError>)
        ensures
            old(self)@.admin is None ==> r == Err::<(), _>(ReputationError::NotInitialized)
                && final(self)@ == old(self)@ && final(env)@ == old(env)@,
            old(self)@.admin is Some ==> r is Ok && final(self)@ == (ReputationState {
                authorized_modules: old(self)@.authorized_modules.remove(module),
                ..old(self)@
            }) && final(env)@ == old(env)@.emit(
                Event::ModuleAuthorized(ModuleAuthorized { module, authorized: false }),
            ),
    {
        if self.admin.is_none() {
            return Err(ReputationError::NotInitialized);
        }
        self.authorized_modules.remove(&module);
        env.emit(Event::ModuleAuthorized(ModuleAuthorized { module, authorized: false }));
        Ok(())
    }

    pub(crate) fn is_authorized(&self, module: Address) -> (b: bool)
        ensures
            b == self@.authorized(module),
    {
        match self.authorized_modules.get(&module) {
            Some(v) => *v,
            None => false,
        }
    }

    fn get_or_create_profile(&self, contributor: Address, now: u64) -> (p: ContributorProfile)
        ensures
            p == self@.base_profile(contributor, now, p.metadata_cid),
            !self@.profiles.contains_key(contributor) ==> p.metadata_cid@ == Seq::<char>::empty(),
    {
        match self.profiles.get(&contributor) {
            Some(p) => p.snapshot(),
            None => ContributorProfile {
                address: contributor,
                overall_score: 0,
                level: 0,
                category_scores: CategoryScores {
                    development: 0,
                    design: 0,
                    marketing: 0,
                    security: 0,
                    community: 0,
                },
                bounties_completed: 0,
                hackathons_entered: 0,
                hackathons_won: 0,
                campaigns_backed: 0,
                grants_received: 0,
                total_earned: 0,
                metadata_cid: String::new(),
                joined_at: now,
            },
        }
    }

    /// Records a completed task worth `points` in `category` for `contributor`.
    pub fn record_completion(
        &mut self,
        env: &mut Env,
        module: Address,
        contributor: Address,
        category: ActivityCategory,
        points: u32,
    ) -> (r: Result<(), ReputationError>)
        requires
            old(self)@.stored_profile_satisfies(
                contributor,
                |p: ContributorProfile| completion_fits(p, category, points),
            ),
        ensures
            !old(self)@.authorized(module) ==> r == Err::<(), _>(ReputationError::ModuleNotAuthorized)
                && final(self)@ == old(self)@ && final(env)@ == old(env)@,
            old(self)@.authorized(module) ==> r is Ok && profile_rewritten(
                old(self)@,
                final(self)@,
                contributor,
                old(env)@.timestamp,
                |p: ContributorProfile| completed(p, category, points),
            ) && final(env)@ == old(env)@.emit(
                Event::ScoreUpdated(
                    ScoreUpdated {
                        contributor,
                        overall_score: final(self)@.profiles[contributor].overall_score,
                        level: final(self)@.profiles[contributor].level,
                    },
                ),
            ),
    {
        if !self.is_authorized(module) {
            return Err(ReputationError::ModuleNotAuthorized);
        }
        let mut profile = self.get_or_create_profile(contributor, env.timestamp);
        let ghost base = profile;
        profile.overall_score = profile.overall_score + points;
        let current = profile.category_scores.get(category);
        profile.category_scores.set(category, current + points);
        profile.bounties_completed = profile.bounties_completed + 1;
        profile.level = Self::compute_level(profile.overall_score);
        assert(profile == completed(base, category, points));
        let event = ScoreUpdated { contributor, overall_score: profile.overall_score, level: profile.level };
        self.profiles.insert(contributor, profile);
        env.emit(Event::ScoreUpdated(event));
        Ok(())
    }

    /// Records a hackathon entry worth `points`, won or not, for `contributor`.
    pub fn record_hackathon_result(
        &mut self,
        env: &mut Env,
        module: Address,
        contributor: Address,
        points: u32,
        is_win: bool,
    ) -> (r: Result<(), ReputationError>)
        requires
            old(self)@.stored_profile_satisfies(
                contributor,
                |p: ContributorProfile| hackathon_fits(p, points, is_win),
            ),
        ensures
            !old(self)@.authorized(module) ==> r == Err::<(), _>(ReputationError::ModuleNotAuthorized)
                && final(self)@ == old(self)@ && final(env)@ == old(env)@,
            old(self)@.authorized(module) ==> r is Ok && profile_rewritten(
                old(self)@,
                final(self)@,
                contributor,
                old(env)@.timestamp,
                |p: ContributorProfile| hackathon_recorded(p, points, is_win),
            ) && final(env)@ == old(env)@.emit(
                Event::ScoreUpdated(
                    ScoreUpdated {
                        contributor,
                        overall_score: final(self)@.profiles[contributor].overall_score,
                        level: final(self)@.profiles[contributor].level,
                    },
                ),
            ),
    {
        if !self.is_authorized(module) {
            return Err(ReputationError::ModuleNotAuthorized);
        }
        let mut profile = self.get_or_create_profile(contributor, env.timestamp);
        let ghost base = profile;
        profile.overall_score = profile.overall_score + points;
        profile.hackathons_entered = profile.hackathons_entered + 1;
        if is_win {
            profile.hackathons_won = profile.hackathons_won + 1;
        }
        profile.level = Self::compute_level(profile.overall_score);
        assert(profile == hackathon_recorded(base, points, is_win));
        let event = ScoreUpdated { contributor, overall_score: profile.overall_score, level: profile.level };
        self.profiles.insert(contributor, profile);
        env.emit(Event::ScoreUpdated(event));
        Ok(())
    }

    /// Records that `backer` backed a campaign.
    pub fn record_campaign_backed(&mut self, env: &Env, module: Address, backer: Address) -> (r: Result<(), ReputationError>)
        requires
            old(self)@.stored_profile_satisfies(backer, |p: ContributorProfile| campaign_fits(p)),
        ensures
            !old(self)@.authorized(module) ==> r == Err::<(), _>(ReputationError::ModuleNotAuthorized)
                && final(self)@ == old(self)@,
            old(self)@.authorized(module) ==> r is Ok && profile_rewritten(
                old(self)@,
                final(self)@,
                backer,
                env@.timestamp,
                |p: ContributorProfile| campaign_recorded(p),
            ),
    {
        if !self.is_authorized(module) {
            return Err(ReputationError::ModuleNotAuthorized);
        }
        let mut profile = self.get_or_create_profile(backer, env.timestamp);
        let ghost base = profile;
        profile.campaigns_backed = profile.campaigns_backed + 1;
        profile.overall_score = profile.overall_score + 5;
        profile.level = Self::compute_level(profile.overall_score);
        assert(profile == campaign_recorded(base));
        self.profiles.insert(backer, profile);
        Ok(())
    }

    /// Records that `recipient` received a grant of `amount`.
    pub fn record_grant_received(&mut self, env: &Env, module: Address, recipient: Address, amount: i128) -> (r: Result<(), ReputationError>)
        requires
            old(self)@.stored_profile_satisfies(recipient, |p: ContributorProfile| grant_fits(p, amount)),
        ensures
            !old(self)@.authorized(module) ==> r == Err::<(), _>(ReputationError::ModuleNotAuthorized)
                && final(self)@ == old(self)@,
            old(self)@.authorized(module) ==> r is Ok && profile_rewritten(
                old(self)@,
                final(self)@,
                recipient,
                env@.timestamp,
                |p: ContributorProfile| grant_recorded(p, amount),
            ),
    {
        if !self.is_authorized(module) {
            return Err(ReputationError::ModuleNotAuthorized);
        }
        let mut profile = self.get_or_create_profile(recipient, env.timestamp);
        let ghost base = profile;
        profile.grants_received = profile.grants_received + 1;
        profile.total_earned = profile.total_earned + amount;
        profile.overall_score = profile.overall_score + 20;
        profile.level = Self::compute_level(profile.overall_score);
        assert(profile == grant_recorded(base, amount));
        self.profiles.insert(recipient, profile);
        Ok(())
    }

    /// Takes up to `points` off the overall score of `contributor`, not below zero.
    pub fn record_penalty(&mut self, env: &mut Env, contributor: Address, points: u32) -> (r: Result<(), ReputationError>)
        ensures
            old(self)@.admin is None ==> r == Err::<(), _>(ReputationError::NotInitialized),
            old(self)@.admin is Some && !old(self)@.profiles.contains_key(contributor) ==> r == Err::<
                (),
                _,
            >(ReputationError::ProfileNotFound),
            r is Err ==> final(self)@ == old(self)@ && final(env)@ == old(env)@,
            old(self)@.admin is Some && old(self)@.profiles.contains_key(contributor) ==> {
                let p = old(self)@.profiles[contributor];
                let score = if p.overall_score >= points { (p.overall_score - points) as u32 } else { 0u32 };
                &&& r is Ok
                &&& final(self)@ == (ReputationState {
                    profiles: old(self)@.profiles.insert(contributor, rescored(p, score)),
                    ..old(self)@
                })
                &&& final(env)@ == old(env)@.emit(
                    Event::ScoreUpdated(ScoreUpdated { contributor, overall_score: score, level: level_of(score) }),
                )
            },
    {
        if self.admin.is_none() {
            return Err(ReputationError::NotInitialized);
        }
        let mut profile = match self.profiles.get(&contributor) {
            Some(p) => p.snapshot(),
            None => return Err(ReputationError::ProfileNotFound),
        };
        profile.overall_score = profile.overall_score.saturating_sub(points);
        profile.level = Self::compute_level(profile.overall_score);
        let event = ScoreUpdated { contributor, overall_score: profile.overall_score, level: profile.level };
        self.profiles.insert(contributor, profile);
        env.emit(Event::ScoreUpdated(event));
        Ok(())
    }
}

impl ReputationRegistry {
    // ── SparkCredits ─────────────────────────────────────────────────────

    /// Spends one credit of `user`. Returns `false`, changing nothing, when
    /// the user has no credit left.
    pub fn spend_credit(&mut self, env: &mut Env, module: Address, user: Address) -> (r: Result<bool, ReputationError>)
        requires
            old(self)@.credits.contains_key(user) ==> old(self)@.credits[user].total_spent < u32::MAX,
        ensures
            r == old(self)@.spend_credit_result(module, user),
            r != Ok::<bool, ReputationError>(true) ==> final(self)@ == old(self)@ && final(env)@ == old(env)@,
            r == Ok::<bool, ReputationError>(true) ==> {
                let c = old(self)@.credits[user];
                &&& final(self)@ == (ReputationState {
                    credits: old(self)@.credits.insert(
                        user,
                        CreditData { credits: (c.credits - 1) as u32, total_spent: (c.total_spent + 1) as u32, ..c },
                    ),
                    ..old(self)@
                })
                &&& final(env)@ == old(env)@.emit(
                    Event::CreditsSpent(CreditsSpent { user, remaining: (c.credits - 1) as u32 }),
                )
            },
    {
        if !self.is_authorized(module) {
            return Err(ReputationError::ModuleNotAuthorized);
        }
        let mut credits = match self.credits.get(&user) {
            Some(c) => *c,
            None => return Err(ReputationError::ProfileNotFound),
        };
        if credits.credits == 0 {
            return Ok(false);
        }
        credits.credits = credits.credits - 1;
        credits.total_spent = credits.total_spent + 1;
        self.credits.insert(user, credits);
        env.emit(Event::CreditsSpent(CreditsSpent { user, remaining: credits.credits }));
        Ok(true)
    }

    /// Gives back one credit of `user`, up to the user's cap.
    pub fn restore_credit(&mut self, module: Address, user: Address) -> (r: Result<(), ReputationError>)
        requires
            old(self)@.credits.contains_key(user) ==> old(self)@.credits[user].total_earned < u32::MAX,
        ensures
            r == old(self)@.credit_call_result(module, user),
            r is Err ==> final(self)@ == old(self)@,
            r is Ok ==> final(self)@ == old(self)@.credit_restored(user),
    {
        if !self.is_authorized(module) {
            return Err(ReputationError::ModuleNotAuthorized);
        }
        let mut credits = match self.credits.get(&user) {
            Some(c) => *c,
            None => return Err(ReputationError::ProfileNotFound),
        };
        if credits.credits < credits.max_credits {
            credits.credits = credits.credits + 1;
            credits.total_earned = credits.total_earned + 1;
        }
        self.credits.insert(user, credits);
        Ok(())
    }

    /// Gives `user` up to `amount` credits, up to the user's cap.
    pub fn award_credits(&mut self, env: &mut Env, module: Address, user: Address, amount: u32) -> (r: Result<(), ReputationError>)
        requires
            old(self)@.credits.contains_key(user) ==> award_fits(old(self)@.credits[user], amount),
        ensures
            r == old(self)@.credit_call_result(module, user),
            r is Err ==> final(self)@ == old(self)@ && final(env)@ == old(env)@,
            r is Ok ==> final(self)@ == old(self)@.credits_awarded(user, amount)
                && final(env)@ == old(env)@.emit(Event::CreditsAwarded(CreditsAwarded {
                    user,
                    amount: (capped(old(self)@.credits[user], amount) - old(self)@.credits[user].credits) as u32,
                    remaining: capped(old(self)@.credits[user], amount) as u32,
                })),
    {
        if !self.is_authorized(module) {
            return Err(ReputationError::ModuleNotAuthorized);
        }
        let mut credits = match self.credits.get(&user) {
            Some(c) => *c,
            None => return Err(ReputationError::ProfileNotFound),
        };
        let sum = credits.credits + amount;
        let new_credits = if sum < credits.max_credits { sum } else { credits.max_credits };
        let added = new_credits - credits.credits;
        credits.credits = new_credits;
        credits.total_earned = credits.total_earned + added;
        self.credits.insert(user, credits);
        env.emit(Event::CreditsAwarded(CreditsAwarded { user, amount: added, remaining: new_credits }));
        Ok(())
    }

    /// Adds `RECHARGE_AMOUNT` credits to `user`, up to the cap, once every
    /// `RECHARGE_INTERVAL` seconds. Anyone may call it. The cap is 11 for
    /// contributors at level 3 or above and 10 for the others.
    pub fn try_recharge(&mut self, env: &mut Env, user: Address) -> (r: Result<(), ReputationError>)
        requires
            old(self)@.credits.contains_key(user) ==> recharge_fits(
                old(self)@.credits[user],
                old(self)@.recharge_cap(user),
            ),
        ensures
            !old(self)@.credits.contains_key(user) ==> r == Err::<(), _>(ReputationError::ProfileNotFound),
            old(self)@.credits.contains_key(user) && old(env)@.timestamp
                < old(self)@.credits[user].last_recharge + RECHARGE_INTERVAL ==> r == Err::<(), _>(
                ReputationError::RechargeNotReady,
            ),
            r is Err ==> final(self)@ == old(self)@ && final(env)@ == old(env)@,
            old(self)@.credits.contains_key(user) && old(env)@.timestamp
                >= old(self)@.credits[user].last_recharge + RECHARGE_INTERVAL ==> {
                let c = CreditData { max_credits: old(self)@.recharge_cap(user), ..old(self)@.credits[user] };
                let n = capped(c, RECHARGE_AMOUNT);
                &&& r is Ok
                &&& final(self)@ == (ReputationState {
                    credits: old(self)@.credits.insert(
                        user,
                        CreditData {
                            credits: n as u32,
                            total_earned: (c.total_earned + n - c.credits) as u32,
                            last_recharge: old(env)@.timestamp,
                            ..c
                        },
                    ),
                    ..old(self)@
                })
                &&& final(env)@ == old(env)@.emit(
                    Event::CreditsRecharged(CreditsRecharged { user, remaining: n as u32 }),
                )
            },
    {
        let mut credits = match self.credits.get(&user) {
            Some(c) => *c,
            None => return Err(ReputationError::ProfileNotFound),
        };
        let now = env.timestamp;
        if now < credits.last_recharge + RECHARGE_INTERVAL {
            return Err(ReputationError::RechargeNotReady);
        }
        match self.profiles.get(&user) {
            Some(profile) => {
                credits.max_credits = if profile.level >= 3 { L3_MAX_CREDITS } else { DEFAULT_MAX_CREDITS };
            },
            None => {},
        }
        let sum = credits.credits + RECHARGE_AMOUNT;
        let new_credits = if sum < credits.max_credits { sum } else { credits.max_credits };
        let added = new_credits - credits.credits;
        credits.credits = new_credits;
        credits.total_earned = credits.total_earned + added;
        credits.last_recharge = now;
        self.credits.insert(user, credits);
        env.emit(Event::CreditsRecharged(CreditsRecharged { user, remaining: new_credits }));
        Ok(())
    }

    pub fn get_credits(&self, user: Address) -> (r: Result<u32, ReputationError>)
        ensures
            r == if self@.credits.contains_key(user) {
                Ok(self@.credits[user].credits)
            } else {
                Err(ReputationError::ProfileNotFound)
            },
    {
        match self.credits.get(&user) {
            Some(c) => Ok(c.credits),
            None => Err(ReputationError::ProfileNotFound),
        }
    }

    /// Whether `user` has a credit to spend.
    pub fn can_apply(&self, user: Address) -> (b: bool)
        ensures
            b == (self@.credits.contains_key(user) && self@.credits[user].credits > 0),
    {
        match self.credits.get(&user) {
            Some(c) => c.credits > 0,
            None => false,
        }
    }

    /// Checks that an upgrade may proceed: the contract must be initialised.
    pub fn upgrade(&self, new_wasm_hash: BytesN32) -> (r: Result<(), ReputationError>)
        ensures
            r == if self@.admin is Some {
                Ok::<(), ReputationError>(())
            } else {
                Err(ReputationError::NotInitialized)
            },
    {
        if self.admin.is_none() {
            return Err(ReputationError::NotInitialized);
        }
        Ok(())
    }
}

/// The credit count after adding `amount`, capped at the maximum.
pub open spec fn capped(c: CreditData, amount: u32) -> int {
    if c.credits + amount < c.max_credits {
        c.credits + amount
    } else {
        c.max_credits as int
    }
}

/// Whether awarding `amount` credits stays within `u32` and does not lower the count.
pub open spec fn award_fits(c: CreditData, amount: u32) -> bool {
    &&& c.credits + amount <= u32::MAX
    &&& c.credits <= capped(c, amount)
    &&& c.total_earned + capped(c, amount) - c.credits <= u32::MAX
}

/// Whether a recharge under cap `cap` stays within range.
pub open spec fn recharge_fits(c: CreditData, cap: u32) -> bool {
    let cc = CreditData { max_credits: cap, ..c };
    &&& c.last_recharge + RECHARGE_INTERVAL <= u64::MAX
    &&& award_fits(cc, RECHARGE_AMOUNT)
}

impl ReputationState {
    /// What the credit operations of a module return.
    pub open spec fn credit_call_result(self, module: Address, user: Address) -> Result<(), ReputationError> {
        if !self.authorized(module) {
            Err(ReputationError::ModuleNotAuthorized)
        } else if !self.credits.contains_key(user) {
            Err(ReputationError::ProfileNotFound)
        } else {
            Ok(())
        }
    }

    /// What `spend_credit` returns.
    pub open spec fn spend_credit_result(self, module: Address, user: Address) -> Result<bool, ReputationError> {
        match self.credit_call_result(module, user) {
            Err(e) => Err(e),
            Ok(_) => Ok(self.credits[user].credits > 0),
        }
    }

    /// The storage after `spend_credit` took a credit.
    pub open spec fn credit_spent(self, user: Address) -> ReputationState {
        let c = self.credits[user];
        ReputationState {
            credits: self.credits.insert(
                user,
                CreditData { credits: (c.credits - 1) as u32, total_spent: (c.total_spent + 1) as u32, ..c },
            ),
            ..self
        }
    }

    /// The storage after `restore_credit`.
    pub open spec fn credit_restored(self, user: Address) -> ReputationState {
        let c = self.credits[user];
        ReputationState {
            credits: self.credits.insert(
                user,
                if c.credits < c.max_credits {
                    CreditData { credits: (c.credits + 1) as u32, total_earned: (c.total_earned + 1) as u32, ..c }
                } else {
                    c
                },
            ),
            ..self
        }
    }

    /// The storage after `award_credits`.
    pub open spec fn credits_awarded(self, user: Address, amount: u32) -> ReputationState {
        let c = self.credits[user];
        let n = capped(c, amount);
        ReputationState {
            credits: self.credits.insert(
                user,
                CreditData { credits: n as u32, total_earned: (c.total_earned + n - c.credits) as u32, ..c },
            ),
            ..self
        }
    }

    /// The credit cap that a recharge applies.
    pub open spec fn recharge_cap(self, user: Address) -> u32 {
        if self.profiles.contains_key(user) {
            if self.profiles[user].level >= 3 {
                L3_MAX_CREDITS
            } else {
                DEFAULT_MAX_CREDITS
            }
        } else {
            self.credits[user].max_credits
        }
    }
}

} // verus!
