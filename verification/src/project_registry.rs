//! Projects: verification levels, budget limits, deposits, warnings and
//! suspension.
use vstd::prelude::*;
use crate::env::{Env, Transfer};
use crate::events::Event;
use crate::math::{calculate_fee_bps, fee_bps_spec, fits_i128};
use crate::table::{Snapshot, Table};
use crate::types::{Address, BytesN32};

verus! {

#[derive(Clone, Copy, PartialEq, Eq, Structural, Debug)]
pub enum Error {
    AlreadyInitialized,
    NotInitialized,
    NotAuthorized,
    ProjectNotFound,
    ProjectSuspended,
    BudgetExceedsLimit,
    ModuleNotAuthorized,
    InsufficientDeposit,
    NoDepositHeld,
    InvalidAmount,
    Overflow,
}

#[derive(Clone, PartialEq, Eq, Debug)]
pub struct Project {
    pub id: u64,
    pub owner: Address,
    pub metadata_cid: String,
    pub verification_level: u32,
    pub deposit_held: i128,
    pub active_bounty_budget: i128,
    pub bounties_posted: u32,
    pub total_paid_out: i128,
    pub avg_rating: u32,
    pub dispute_count: u32,
    pub missed_milestones: u32,
    pub warning_level: u32,
    pub suspended: bool,
    pub hackathons_hosted: u32,
    pub grants_distributed: i128,
    pub campaigns_launched: u32,
    pub total_platform_spend: i128,
}

// ── Events ─────────────────────────────────────────────────────────────────

#[derive(Clone, Copy, PartialEq, Eq, Structural, Debug)]
pub struct ProjectRegistered {
    pub project_id: u64,
    pub owner: Address,
}

#[derive(Clone, Copy, PartialEq, Eq, Structural, Debug)]
pub struct DepositLocked {
    pub project_id: u64,
    pub amount: i128,
}

#[derive(Clone, Copy, PartialEq, Eq, Structural, Debug)]
pub struct DepositReleased {
    pub project_id: u64,
    pub amount: i128,
}

#[derive(Clone, Copy, PartialEq, Eq, Structural, Debug)]
pub struct DepositForfeited {
    pub project_id: u64,
    pub amount: i128,
}

#[derive(Clone, Copy, PartialEq, Eq, Structural, Debug)]
pub struct VerificationUpgraded {
    pub project_id: u64,
    pub new_level: u32,
}

#[derive(Clone, Copy, PartialEq, Eq, Structural, Debug)]
pub struct WarningIssued {
    pub project_id: u64,
    pub warning_level: u32,
}

#[derive(Clone, Copy, PartialEq, Eq, Structural, Debug)]
pub struct ProjectSuspended {
    pub project_id: u64,
}


impl Snapshot for Project {
    fn snapshot(&self) -> (r: Self) {
        Project {
            id: self.id,
            owner: self.owner,
            metadata_cid: self.metadata_cid.clone(),
            verification_level: self.verification_level,
            deposit_held: self.deposit_held,
            active_bounty_budget: self.active_bounty_budget,
            bounties_posted: self.bounties_posted,
            total_paid_out: self.total_paid_out,
            avg_rating: self.avg_rating,
            dispute_count: self.dispute_count,
            missed_milestones: self.missed_milestones,
            warning_level: self.warning_level,
            suspended: self.suspended,
            hackathons_hosted: self.hackathons_hosted,
            grants_distributed: self.grants_distributed,
            campaigns_launched: self.campaigns_launched,
            total_platform_spend: self.total_platform_spend,
        }
    }
}

/// The share of a budget held as deposit at a verification level, in basis
/// points: 10% at level 0, 5% at level 1, none from level 2 on.
pub open spec fn deposit_rate_spec(verification_level: u32) -> u32 {
    if verification_level == 0 {
        1000
    } else if verification_level == 1 {
        500
    } else {
        0
    }
}

/// The largest budget a project at a verification level may post; `None` where unlimited.
pub open spec fn budget_limit(verification_level: u32) -> Option<i128> {
    if verification_level == 0 {
        Some(2000)
    } else if verification_level == 1 {
        Some(10000)
    } else {
        None
    }
}

pub fn deposit_rate_bps(verification_level: u32) -> (r: u32)
    ensures
        r == deposit_rate_spec(verification_level),
{
    if verification_level == 0 {
        1000
    } else if verification_level == 1 {
        500
    } else {
        0
    }
}

/// The project registry's storage.
pub struct ProjectRegistry {
    /// This contract's own address.
    pub address: Address,
    pub admin: Option<Address>,
    pub project_count: Option<u64>,
    pub projects: Table<u64, Project>,
    pub authorized_modules: Table<Address, bool>,
}

/// The mathematical content of the registry's storage.
pub ghost struct ProjectState {
    pub address: Address,
    pub admin: Option<Address>,
    pub project_count: Option<u64>,
    pub projects: Map<u64, Project>,
    pub authorized_modules: Map<Address, bool>,
}

impl View for ProjectRegistry {
    type V = ProjectState;

    open spec fn view(&self) -> ProjectState {
        ProjectState {
            address: self.address,
            admin: self.admin,
            project_count: self.project_count,
            projects: self.projects@,
            authorized_modules: self.authorized_modules@,
        }
    }
}

/// A project after one more strike (a dispute or a missed milestone) brought
/// its count of that strike to `strikes`: from the third strike on, each one
/// raises the warning level, up to 3, and the third warning suspends it.
pub open spec fn struck(p: Project, strikes: u32) -> Project {
    if strikes >= 3 && p.warning_level < 3 {
        let w = (p.warning_level + 1) as u32;
        Project { warning_level: w, suspended: if w >= 3 { true } else { p.suspended }, ..p }
    } else {
        p
    }
}

impl ProjectState {
    /// The number of projects registered so far.
    pub open spec fn count(self) -> u64 {
        match self.project_count {
            Some(c) => c,
            None => 0,
        }
    }

    /// The storage with project `id` replaced by `p`.
    pub open spec fn with_project(self, id: u64, p: Project) -> ProjectState {
        ProjectState { projects: self.projects.insert(id, p), ..self }
    }

    /// What an authorized module's call on project `id` returns before its own checks.
    pub open spec fn module_check(self, module: Address, id: u64) -> Result<(), Error> {
        if !self.authorized_modules.contains_key(module) {
            Err(Error::ModuleNotAuthorized)
        } else if !self.projects.contains_key(id) {
            Err(Error::ProjectNotFound)
        } else {
            Ok(())
        }
    }

    /// What an admin's call on project `id` returns before its own checks.
    pub open spec fn admin_check(self, id: u64) -> Result<(), Error> {
        if self.admin is None {
            Err(Error::NotInitialized)
        } else if !self.projects.contains_key(id) {
            Err(Error::ProjectNotFound)
        } else {
            Ok(())
        }
    }
}

/// The events of a strike that raised the warning level of project `id` from `before` to `after`.
pub open spec fn strike_events(e: crate::env::EnvState, id: u64, before: Project, after: Project) -> crate::env::EnvState {
    if after.warning_level != before.warning_level {
        let e1 = e.emit(Event::WarningIssued(WarningIssued { project_id: id, warning_level: after.warning_level }));
        if after.warning_level >= 3 {
            e1.emit(Event::ProjectSuspended(ProjectSuspended { project_id: id }))
        } else {
            e1
        }
    } else {
        e
    }
}

impl ProjectRegistry {
    /// A project registry at `address` with empty storage.
    pub fn new(address: Address) -> (c: ProjectRegistry)
        ensures
            c@ == (ProjectState {
                address,
                admin: None,
                project_count: None,
                projects: Map::empty(),
                authorized_modules: Map::empty(),
            }),
    {
        ProjectRegistry {
            address,
            admin: None,
            project_count: None,
            projects: Table::new(),
            authorized_modules: Table::new(),
        }
    }

    pub fn init(&mut self, admin: Address) -> (r: Result<(), Error>)
        ensures
            old(self)@.admin is Some ==> r == Err::<(), _>(Error::AlreadyInitialized) && final(self)@ == old(self)@,
            old(self)@.admin is None ==> r is Ok && final(self)@ == (ProjectState {
                admin: Some(admin),
                project_count: Some(0),
                ..old(self)@
            }),
    {
        if self.admin.is_some() {
            return Err(Error::AlreadyInitialized);
        }
        self.admin = Some(admin);
        self.project_count = Some(0);
        Ok(())
    }

    pub fn add_authorized_module(&mut self, module: Address) -> (r: Result<(), Error>)
        ensures
            old(self)@.admin is None ==> r == Err::<(), _>(Error::NotInitialized) && final(self)@ == old(self)@,
            old(self)@.admin is Some ==> r is Ok && final(self)@ == (ProjectState {
                authorized_modules: old(self)@.authorized_modules.insert(module, true),
                ..old(self)@
            }),
    {
        if self.admin.is_none() {
            return Err(Error::NotInitialized);
        }
        self.authorized_modules.insert(module, true);
        Ok(())
    }

    pub fn remove_authorized_module(&mut self, module: Address) -> (r: Result<(), Error>)
        ensures
            old(self)@.admin is None ==> r == Err::<(), _>(Error::NotInitialized) && final(self)@ == old(self)@,
            old(self)@.admin is Some ==> r is Ok && final(self)@ == (ProjectState {
                authorized_modules: old(self)@.authorized_modules.remove(module),
                ..old(self)@
            }),
    {
        if self.admin.is_none() {
            return Err(Error::NotInitialized);
        }
        self.authorized_modules.remove(&module);
        Ok(())
    }

    /// Registers a project for `owner`, at verification level 0 with all counters at zero.
    pub fn register_project(&mut self, env: &mut Env, owner: Address, metadata_cid: String) -> (r: Result<u64, Error>)
        requires
            old(self)@.count() < u64::MAX,
        ensures
            old(self)@.admin is None ==> r == Err::<u64, _>(Error::NotInitialized),
            old(self)@.admin is Some ==> r == Ok::<u64, Error>((old(self)@.count() + 1) as u64),
            r is Err ==> final(self)@ == old(self)@ && final(env)@ == old(env)@,
            r matches Ok(id) ==> final(self)@ == (ProjectState {
                project_count: Some(id),
                projects: old(self)@.projects.insert(
                    id,
                    Project {
                        id,
                        owner,
                        metadata_cid,
                        verification_level: 0,
                        deposit_held: 0,
                        active_bounty_budget: 0,
                        bounties_posted: 0,
                        total_paid_out: 0,
                        avg_rating: 0,
                        dispute_count: 0,
                        missed_milestones: 0,
                        warning_level: 0,
                        suspended: false,
                        hackathons_hosted: 0,
                        grants_distributed: 0,
                        campaigns_launched: 0,
                        total_platform_spend: 0,
                    },
                ),
                ..old(self)@
            }) && final(env)@ == old(env)@.emit(Event::ProjectRegistered(ProjectRegistered { project_id: id, owner })),
    {
        if self.admin.is_none() {
            return Err(Error::NotInitialized);
        }
        let id = match self.project_count {
            Some(c) => c,
            None => 0,
        } + 1;
        let project = Project {
            id,
            owner,
            metadata_cid,
            verification_level: 0,
            deposit_held: 0,
            active_bounty_budget: 0,
            bounties_posted: 0,
            total_paid_out: 0,
            avg_rating: 0,
            dispute_count: 0,
            missed_milestones: 0,
            warning_level: 0,
            suspended: false,
            hackathons_hosted: 0,
            grants_distributed: 0,
            campaigns_launched: 0,
            total_platform_spend: 0,
        };
        self.project_count = Some(id);
        self.projects.insert(id, project);
        env.emit(Event::ProjectRegistered(ProjectRegistered { project_id: id, owner }));
        Ok(id)
    }

    /// The admin sets the verification level of a project, up to 2.
    pub fn upgrade_verification(&mut self, env: &mut Env, project_id: u64, new_level: u32) -> (r: Result<(), Error>)
        ensures
            r == if old(self)@.admin is None {
                Err(Error::NotInitialized)
            } else if new_level > 2 {
                Err(Error::NotAuthorized)
            } else if !old(self)@.projects.contains_key(project_id) {
                Err(Error::ProjectNotFound)
            } else {
                Ok(())
            },
            r is Err ==> final(self)@ == old(self)@ && final(env)@ == old(env)@,
            r is Ok ==> final(self)@ == old(self)@.with_project(
                project_id,
                Project { verification_level: new_level, ..old(self)@.projects[project_id] },
            ) && final(env)@ == old(env)@.emit(
                Event::VerificationUpgraded(VerificationUpgraded { project_id, new_level }),
            ),
    {
        if self.admin.is_none() {
            return Err(Error::NotInitialized);
        }
        if new_level > 2 {
            return Err(Error::NotAuthorized);
        }
        let mut p = match self.projects.get(&project_id) {
            Some(p) => p.snapshot(),
            None => return Err(Error::ProjectNotFound),
        };
        p.verification_level = new_level;
        self.projects.insert(project_id, p);
        env.emit(Event::VerificationUpgraded(VerificationUpgraded { project_id, new_level }));
        Ok(())
    }

    /// Whether a project may post a budget: 2000 at level 0, 10000 at level 1, any from level 2 on.
    pub fn validate_budget(&self, project_id: u64, budget: i128) -> (r: Result<bool, Error>)
        ensures
            r == if !self@.projects.contains_key(project_id) {
                Err(Error::ProjectNotFound)
            } else {
                Ok(
                    match budget_limit(self@.projects[project_id].verification_level) {
                        Some(max) => budget <= max,
                        None => true,
                    },
                )
            },
    {
        let level = match self.projects.get(&project_id) {
            Some(p) => p.verification_level,
            None => return Err(Error::ProjectNotFound),
        };
        let max: i128 = if level == 0 {
            2000
        } else if level == 1 {
            10000
        } else {
            return Ok(true);
        };
        Ok(budget <= max)
    }

    /// An authorized module records a bounty of `budget` posted by a project
    /// that is not suspended.
    pub fn record_bounty_posted(&mut self, module: Address, project_id: u64, budget: i128) -> (r: Result<(), Error>)
        requires
            old(self)@.projects.contains_key(project_id) ==> ({
                let p = old(self)@.projects[project_id];
                p.bounties_posted < u32::MAX && fits_i128(p.active_bounty_budget + budget) && fits_i128(
                    p.total_platform_spend + budget,
                )
            }),
        ensures
            ({
                let p = old(self)@.projects[project_id];
                &&& r == if old(self)@.module_check(module, project_id) is Err {
                    old(self)@.module_check(module, project_id)
                } else if p.suspended {
                    Err(Error::ProjectSuspended)
                } else {
                    Ok(())
                }
                &&& r is Err ==> final(self)@ == old(self)@
                &&& r is Ok ==> final(self)@ == old(self)@.with_project(
                    project_id,
                    Project {
                        bounties_posted: (p.bounties_posted + 1) as u32,
                        active_bounty_budget: (p.active_bounty_budget + budget) as i128,
                        total_platform_spend: (p.total_platform_spend + budget) as i128,
                        ..p
                    },
                )
            }),
    {
        if !self.authorized_modules.contains_key(&module) {
            return Err(Error::ModuleNotAuthorized);
        }
        let mut p = match self.projects.get(&project_id) {
            Some(p) => p.snapshot(),
            None => return Err(Error::ProjectNotFound),
        };
        if p.suspended {
            return Err(Error::ProjectSuspended);
        }
        p.bounties_posted = p.bounties_posted + 1;
        p.active_bounty_budget = p.active_bounty_budget + budget;
        p.total_platform_spend = p.total_platform_spend + budget;
        self.projects.insert(project_id, p);
        Ok(())
    }

    /// An authorized module records a payout of `amount`: it counts as paid
    /// out and comes off the active budget, which does not go below zero.
    pub fn record_payout(&mut self, module: Address, project_id: u64, amount: i128) -> (r: Result<(), Error>)
        requires
            old(self)@.projects.contains_key(project_id) ==> fits_i128(
                old(self)@.projects[project_id].total_paid_out + amount,
            ) && fits_i128(old(self)@.projects[project_id].active_bounty_budget - amount),
        ensures
            ({
                let p = old(self)@.projects[project_id];
                &&& r == old(self)@.module_check(module, project_id)
                &&& r is Err ==> final(self)@ == old(self)@
                &&& r is Ok ==> final(self)@ == old(self)@.with_project(
                    project_id,
                    Project {
                        total_paid_out: (p.total_paid_out + amount) as i128,
                        active_bounty_budget: if p.active_bounty_budget >= amount {
                            (p.active_bounty_budget - amount) as i128
                        } else {
                            0
                        },
                        ..p
                    },
                )
            }),
    {
        if !self.authorized_modules.contains_key(&module) {
            return Err(Error::ModuleNotAuthorized);
        }
        let mut p = match self.projects.get(&project_id) {
            Some(p) => p.snapshot(),
            None => return Err(Error::ProjectNotFound),
        };
        p.total_paid_out = p.total_paid_out + amount;
        if p.active_bounty_budget >= amount {
            p.active_bounty_budget = p.active_bounty_budget - amount;
        } else {
            p.active_bounty_budget = 0;
        }
        self.projects.insert(project_id, p);
        Ok(())
    }

    /// Applies a strike whose count is now `strikes`, emitting the warning events.
    fn strike(p: &mut Project, env: &mut Env, project_id: u64, strikes: u32)
        ensures
            *final(p) == struck(*old(p), strikes),
            final(env)@ == strike_events(old(env)@, project_id, *old(p), *final(p)),
    {
        if strikes >= 3 && p.warning_level < 3 {
            p.warning_level = p.warning_level + 1;
            env.emit(Event::WarningIssued(WarningIssued { project_id, warning_level: p.warning_level }));
            if p.warning_level >= 3 {
                p.suspended = true;
                env.emit(Event::ProjectSuspended(ProjectSuspended { project_id }));
            }
        }
    }

    /// An authorized module records a dispute; from the third on, each one
    /// raises the warning level, and the third warning suspends the project.
    pub fn record_dispute(&mut self, env: &mut Env, module: Address, project_id: u64) -> (r: Result<(), Error>)
        requires
            old(self)@.projects.contains_key(project_id) ==> old(self)@.projects[project_id].dispute_count < u32::MAX,
        ensures
            ({
                let p = old(self)@.projects[project_id];
                let p1 = Project { dispute_count: (p.dispute_count + 1) as u32, ..p };
                let p2 = struck(p1, p1.dispute_count);
                &&& r == old(self)@.module_check(module, project_id)
                &&& r is Err ==> final(self)@ == old(self)@ && final(env)@ == old(env)@
                &&& r is Ok ==> final(self)@ == old(self)@.with_project(project_id, p2) && final(env)@ == strike_events(
                    old(env)@,
                    project_id,
                    p1,
                    p2,
                )
            }),
    {
        if !self.authorized_modules.contains_key(&module) {
            return Err(Error::ModuleNotAuthorized);
        }
        let mut p = match self.projects.get(&project_id) {
            Some(p) => p.snapshot(),
            None => return Err(Error::ProjectNotFound),
        };
        p.dispute_count = p.dispute_count + 1;
        let strikes = p.dispute_count;
        Self::strike(&mut p, env, project_id, strikes);
        self.projects.insert(project_id, p);
        Ok(())
    }

    /// An authorized module records a missed milestone; from the third on,
    /// each one raises the warning level, and the third warning suspends the project.
    pub fn record_missed_milestone(&mut self, env: &mut Env, module: Address, project_id: u64) -> (r: Result<(), Error>)
        requires
            old(self)@.projects.contains_key(project_id) ==> old(self)@.projects[project_id].missed_milestones
                < u32::MAX,
        ensures
            ({
                let p = old(self)@.projects[project_id];
                let p1 = Project { missed_milestones: (p.missed_milestones + 1) as u32, ..p };
                let p2 = struck(p1, p1.missed_milestones);
                &&& r == old(self)@.module_check(module, project_id)
                &&& r is Err ==> final(self)@ == old(self)@ && final(env)@ == old(env)@
                &&& r is Ok ==> final(self)@ == old(self)@.with_project(project_id, p2) && final(env)@ == strike_events(
                    old(env)@,
                    project_id,
                    p1,
                    p2,
                )
            }),
    {
        if !self.authorized_modules.contains_key(&module) {
            return Err(Error::ModuleNotAuthorized);
        }
        let mut p = match self.projects.get(&project_id) {
            Some(p) => p.snapshot(),
            None => return Err(Error::ProjectNotFound),
        };
        p.missed_milestones = p.missed_milestones + 1;
        let strikes = p.missed_milestones;
        Self::strike(&mut p, env, project_id, strikes);
        self.projects.insert(project_id, p);
        Ok(())
    }

    /// The admin suspends a project.
    pub fn suspend_project(&mut self, env: &mut Env, project_id: u64) -> (r: Result<(), Error>)
        ensures
            r == old(self)@.admin_check(project_id),
            r is Err ==> final(self)@ == old(self)@ && final(env)@ == old(env)@,
            r is Ok ==> final(self)@ == old(self)@.with_project(
                project_id,
                Project { suspended: true, ..old(self)@.projects[project_id] },
            ) && final(env)@ == old(env)@.emit(Event::ProjectSuspended(ProjectSuspended { project_id })),
    {
        if self.admin.is_none() {
            return Err(Error::NotInitialized);
        }
        let mut p = match self.projects.get(&project_id) {
            Some(p) => p.snapshot(),
            None => return Err(Error::ProjectNotFound),
        };
        p.suspended = true;
        self.projects.insert(project_id, p);
        env.emit(Event::ProjectSuspended(ProjectSuspended { project_id }));
        Ok(())
    }

    /// The admin lifts a suspension.
    pub fn unsuspend_project(&mut self, project_id: u64) -> (r: Result<(), Error>)
        ensures
            r == old(self)@.admin_check(project_id),
            r is Err ==> final(self)@ == old(self)@,
            r is Ok ==> final(self)@ == old(self)@.with_project(
                project_id,
                Project { suspended: false, ..old(self)@.projects[project_id] },
            ),
    {
        if self.admin.is_none() {
            return Err(Error::NotInitialized);
        }
        let mut p = match self.projects.get(&project_id) {
            Some(p) => p.snapshot(),
            None => return Err(Error::ProjectNotFound),
        };
        p.suspended = false;
        self.projects.insert(project_id, p);
        Ok(())
    }

    /// The deposit a project must hold for `budget`: its deposit rate of the budget.
    pub fn calculate_deposit(&self, project_id: u64, budget: i128) -> (r: Result<i128, Error>)
        ensures
            r == if !self@.projects.contains_key(project_id) {
                Err(Error::ProjectNotFound)
            } else {
                let rate = deposit_rate_spec(self@.projects[project_id].verification_level);
                if rate == 0 {
                    Ok(0)
                } else {
                    match fee_bps_spec(budget as int, rate as int) {
                        Some(d) => Ok(d as i128),
                        None => Err(Error::Overflow),
                    }
                }
            },
    {
        let level = match self.projects.get(&project_id) {
            Some(p) => p.verification_level,
            None => return Err(Error::ProjectNotFound),
        };
        let rate = deposit_rate_bps(level);
        if rate == 0 {
            return Ok(0);
        }
        match calculate_fee_bps(budget, rate) {
            Some(d) => Ok(d),
            None => Err(Error::Overflow),
        }
    }

    /// The owner locks a deposit of `amount` of `asset` with the registry.
    pub fn lock_deposit(&mut self, env: &mut Env, project_id: u64, amount: i128, asset: Address) -> (r: Result<(), Error>)
        requires
            old(self)@.projects.contains_key(project_id) ==> fits_i128(
                old(self)@.projects[project_id].deposit_held + amount,
            ),
        ensures
            ({
                let p = old(self)@.projects[project_id];
                &&& r == if amount <= 0 {
                    Err(Error::InvalidAmount)
                } else if !old(self)@.projects.contains_key(project_id) {
                    Err(Error::ProjectNotFound)
                } else {
                    Ok(())
                }
                &&& r is Err ==> final(self)@ == old(self)@ && final(env)@ == old(env)@
                &&& r is Ok ==> final(self)@ == old(self)@.with_project(
                    project_id,
                    Project { deposit_held: (p.deposit_held + amount) as i128, ..p },
                ) && final(env)@ == old(env)@.pay(
                    Transfer { asset, from: p.owner, to: old(self)@.address, amount },
                )
            }),
    {
        if amount <= 0 {
            return Err(Error::InvalidAmount);
        }
        let mut p = match self.projects.get(&project_id) {
            Some(p) => p.snapshot(),
            None => return Err(Error::ProjectNotFound),
        };
        env.pay(asset, p.owner, self.address, amount);
        p.deposit_held = p.deposit_held + amount;
        self.projects.insert(project_id, p);
        Ok(())
    }

    /// An authorized module returns `amount` of a project's deposit to its owner.
    pub fn release_deposit(&mut self, env: &mut Env, module: Address, project_id: u64, amount: i128, asset: Address) -> (r: Result<(), Error>)
        requires
            old(self)@.projects.contains_key(project_id) ==> fits_i128(
                old(self)@.projects[project_id].deposit_held - amount,
            ),
        ensures
            ({
                let p = old(self)@.projects[project_id];
                &&& r == if old(self)@.module_check(module, project_id) is Err {
                    old(self)@.module_check(module, project_id)
                } else if p.deposit_held < amount {
                    Err(Error::NoDepositHeld)
                } else {
                    Ok(())
                }
                &&& r is Err ==> final(self)@ == old(self)@ && final(env)@ == old(env)@
                &&& r is Ok ==> final(self)@ == old(self)@.with_project(
                    project_id,
                    Project { deposit_held: (p.deposit_held - amount) as i128, ..p },
                ) && final(env)@ == old(env)@.pay(
                    Transfer { asset, from: old(self)@.address, to: p.owner, amount },
                )
            }),
    {
        if !self.authorized_modules.contains_key(&module) {
            return Err(Error::ModuleNotAuthorized);
        }
        let mut p = match self.projects.get(&project_id) {
            Some(p) => p.snapshot(),
            None => return Err(Error::ProjectNotFound),
        };
        if p.deposit_held < amount {
            return Err(Error::NoDepositHeld);
        }
        p.deposit_held = p.deposit_held - amount;
        let owner = p.owner;
        self.projects.insert(project_id, p);
        env.pay(asset, self.address, owner, amount);
        Ok(())
    }

    /// The admin forfeits `amount` of a project's deposit to `treasury`.
    pub fn forfeit_deposit(
        &mut self,
        env: &mut Env,
        project_id: u64,
        amount: i128,
        asset: Address,
        treasury: Address,
    ) -> (r: Result<(), Error>)
        requires
            old(self)@.projects.contains_key(project_id) ==> fits_i128(
                old(self)@.projects[project_id].deposit_held - amount,
            ),
        ensures
            ({
                let p = old(self)@.projects[project_id];
                &&& r == if old(self)@.admin_check(project_id) is Err {
                    old(self)@.admin_check(project_id)
                } else if p.deposit_held < amount {
                    Err(Error::NoDepositHeld)
                } else {
                    Ok(())
                }
                &&& r is Err ==> final(self)@ == old(self)@ && final(env)@ == old(env)@
                &&& r is Ok ==> final(self)@ == old(self)@.with_project(
                    project_id,
                    Project { deposit_held: (p.deposit_held - amount) as i128, ..p },
                ) && final(env)@ == old(env)@.pay(
                    Transfer { asset, from: old(self)@.address, to: treasury, amount },
                )
            }),
    {
        if self.admin.is_none() {
            return Err(Error::NotInitialized);
        }
        let mut p = match self.projects.get(&project_id) {
            Some(p) => p.snapshot(),
            None => return Err(Error::ProjectNotFound),
        };
        if p.deposit_held < amount {
            return Err(Error::NoDepositHeld);
        }
        p.deposit_held = p.deposit_held - amount;
        self.projects.insert(project_id, p);
        env.pay(asset, self.address, treasury, amount);
        Ok(())
    }

    /// The deposit rate of a verification level, in basis points.
    pub fn get_deposit_rate(&self, verification_level: u32) -> (r: u32)
        ensures
            r == deposit_rate_spec(verification_level),
    {
        deposit_rate_bps(verification_level)
    }

    pub fn get_project(&self, project_id: u64) -> (r: Result<Project, Error>)
        ensures
            r == if self@.projects.contains_key(project_id) {
                Ok(self@.projects[project_id])
            } else {
                Err(Error::ProjectNotFound)
            },
    {
        match self.projects.get(&project_id) {
            Some(p) => Ok(p.snapshot()),
            None => Err(Error::ProjectNotFound),
        }
    }

    pub fn is_suspended(&self, project_id: u64) -> (r: Result<bool, Error>)
        ensures
            r == if self@.projects.contains_key(project_id) {
                Ok(self@.projects[project_id].suspended)
            } else {
                Err(Error::ProjectNotFound)
            },
    {
        match self.projects.get(&project_id) {
            Some(p) => Ok(p.suspended),
            None => Err(Error::ProjectNotFound),
        }
    }

    /// Checks that an upgrade may proceed: the contract must be initialised.
    pub fn upgrade(&self, new_wasm_hash: BytesN32) -> (r: Result<(), Error>)
        ensures
            r == if self@.admin is Some {
                Ok::<(), Error>(())
            } else {
                Err(Error::NotInitialized)
            },
    {
        if self.admin.is_none() {
            return Err(Error::NotInitialized);
        }
        Ok(())
    }
}

} // verus!
