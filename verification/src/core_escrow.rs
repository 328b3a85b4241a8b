//! The escrow contract that holds every module's funds, charges the platform
//! fee on deposits and keeps the insurance fund.
use vstd::prelude::*;
use crate::env::{Env, EnvState, Transfer};
use crate::events::Event;
use crate::hash::{compute_pool_id, pool_id_spec};
use crate::math::{calculate_fee_bps, fee_bps_spec, fits_i128, split_fee};
use crate::table::{Snapshot, Table};
use crate::types::{Address, BytesN32, ModuleType, SubType};

verus! {

/// The highest fee an admin may set, in basis points.
pub const MAX_FEE_BPS: u32 = 1000;

/// The lowest share of a fee that may go to insurance, in basis points.
pub const MIN_INSURANCE_CUT_BPS: u32 = 500;

/// The highest share of a fee that may go to insurance, in basis points.
pub const MAX_INSURANCE_CUT_BPS: u32 = 3000;

#[derive(Clone, Copy, PartialEq, Eq, Structural, Debug)]
pub enum EscrowError {
    AlreadyInitialized,
    NotInitialized,
    NotAuthorized,
    PoolNotFound,
    PoolAlreadyExists,
    PoolLocked,
    PoolNotLocked,
    InvalidAsset,
    InsufficientFunds,
    SlotNotFound,
    SlotAlreadyReleased,
    SlotsExceedDeposit,
    InvalidAmount,
    RateExceedsLimit,
    RoutingPaused,
    InsuranceCutOutOfRange,
    Overflow,
    ModuleNotAuthorized,
    PoolExpired,
    InsuranceInsufficient,
}

/// The funds that one module entity holds in escrow.
#[derive(Clone, Copy, PartialEq, Eq, Debug)]
pub struct EscrowPool {
    pub pool_id: BytesN32,
    pub module: ModuleType,
    pub authorized_caller: Address,
    pub owner: Address,
    pub total_deposited: i128,
    pub total_released: i128,
    pub total_refunded: i128,
    pub asset: Address,
    pub locked: bool,
    pub created_at: u64,
    pub expires_at: u64,
}

/// A planned payout from a pool.
#[derive(Clone, Copy, PartialEq, Eq, Debug)]
pub struct ReleaseSlot {
    pub pool_id: BytesN32,
    pub slot_index: u32,
    pub amount: i128,
    pub recipient: Address,
    pub released: bool,
    pub released_at: Option<u64>,
}

/// The insurance fund's accounts.
#[derive(Clone, Copy, PartialEq, Eq, Structural, Debug)]
pub struct InsuranceFund {
    pub balance: i128,
    pub total_contributions: i128,
    pub total_paid_out: i128,
}

/// Fee rates per module, and the share of each fee that goes to insurance.
#[derive(Clone, Copy, PartialEq, Eq, Structural, Debug)]
pub struct FeeConfig {
    pub bounty_fee_bps: u32,
    pub crowdfund_fee_bps: u32,
    pub grant_fee_bps: u32,
    pub hackathon_fee_bps: u32,
    pub insurance_cut_bps: u32,
}

/// The record of the last fee charged on a pool.
#[derive(Clone, Copy, PartialEq, Eq, Debug)]
pub struct FeeRecord {
    pub pool_id: BytesN32,
    pub sub_type: SubType,
    pub gross_amount: i128,
    pub fee_amount: i128,
    pub treasury_cut: i128,
    pub insurance_cut: i128,
    pub net_to_escrow: i128,
    pub timestamp: u64,
    pub payer: Address,
}

impl Snapshot for EscrowPool {
    fn snapshot(&self) -> (r: Self) {
        *self
    }
}

impl Snapshot for ReleaseSlot {
    fn snapshot(&self) -> (r: Self) {
        *self
    }
}

impl Snapshot for FeeRecord {
    fn snapshot(&self) -> (r: Self) {
        *self
    }
}

impl FeeConfig {
    /// The rates a freshly initialised escrow starts with.
    pub fn default_config() -> (c: FeeConfig)
        ensures
            c == (FeeConfig {
                bounty_fee_bps: 500,
                crowdfund_fee_bps: 500,
                grant_fee_bps: 300,
                hackathon_fee_bps: 400,
                insurance_cut_bps: 1000,
            }),
    {
        FeeConfig {
            bounty_fee_bps: 500,
            crowdfund_fee_bps: 500,
            grant_fee_bps: 300,
            hackathon_fee_bps: 400,
            insurance_cut_bps: 1000,
        }
    }

    /// The fee rate that applies to a payment of kind `sub_type`.
    pub open spec fn fee_bps(self, sub_type: SubType) -> u32 {
        match sub_type {
            SubType::BountyFCFS | SubType::BountyApplication | SubType::BountyContest
            | SubType::BountySplit => self.bounty_fee_bps,
            SubType::CrowdfundPledge => self.crowdfund_fee_bps,
            SubType::GrantMilestone | SubType::GrantRetrospective
            | SubType::GrantQFMatchingPool => self.grant_fee_bps,
            SubType::HackathonMain | SubType::HackathonTrack => self.hackathon_fee_bps,
        }
    }

    /// This configuration with the rate for `sub_type`'s module set to `bps`.
    pub open spec fn with_fee_bps(self, sub_type: SubType, bps: u32) -> FeeConfig {
        match sub_type {
            SubType::BountyFCFS | SubType::BountyApplication | SubType::BountyContest
            | SubType::BountySplit => FeeConfig { bounty_fee_bps: bps, ..self },
            SubType::CrowdfundPledge => FeeConfig { crowdfund_fee_bps: bps, ..self },
            SubType::GrantMilestone | SubType::GrantRetrospective
            | SubType::GrantQFMatchingPool => FeeConfig { grant_fee_bps: bps, ..self },
            SubType::HackathonMain | SubType::HackathonTrack => FeeConfig {
                hackathon_fee_bps: bps,
                ..self
            },
        }
    }

    pub fn get_fee_bps(&self, sub_type: &SubType) -> (r: u32)
        ensures
            r == self.fee_bps(*sub_type),
    {
        match sub_type {
            SubType::BountyFCFS | SubType::BountyApplication | SubType::BountyContest
            | SubType::BountySplit => self.bounty_fee_bps,
            SubType::CrowdfundPledge => self.crowdfund_fee_bps,
            SubType::GrantMilestone | SubType::GrantRetrospective
            | SubType::GrantQFMatchingPool => self.grant_fee_bps,
            SubType::HackathonMain | SubType::HackathonTrack => self.hackathon_fee_bps,
        }
    }
}

// ── Events ─────────────────────────────────────────────────────────────────

#[derive(Clone, Copy, PartialEq, Eq, Debug)]
pub struct PoolCreated {
    pub pool_id: BytesN32,
    pub owner: Address,
    pub module: ModuleType,
    pub total_amount: i128,
}

#[derive(Clone, Copy, PartialEq, Eq, Debug)]
pub struct PoolLocked {
    pub pool_id: BytesN32,
}

#[derive(Clone, Copy, PartialEq, Eq, Debug)]
pub struct SlotReleased {
    pub pool_id: BytesN32,
    pub slot_index: u32,
    pub recipient: Address,
    pub amount: i128,
}

#[derive(Clone, Copy, PartialEq, Eq, Debug)]
pub struct Refunded {
    pub pool_id: BytesN32,
    pub recipient: Address,
    pub amount: i128,
}

#[derive(Clone, Copy, PartialEq, Eq, Structural, Debug)]
pub struct InsuranceContributed {
    pub amount: i128,
}

#[derive(Clone, Copy, PartialEq, Eq, Structural, Debug)]
pub struct InsuranceClaimed {
    pub claimant: Address,
    pub amount: i128,
}

#[derive(Clone, Copy, PartialEq, Eq, Debug)]
pub struct FeeCharged {
    pub pool_id: BytesN32,
    pub sub_type: SubType,
    pub gross: i128,
    pub fee: i128,
    pub treasury_cut: i128,
    pub insurance_cut: i128,
    pub net: i128,
}

#[derive(Clone, Copy, PartialEq, Eq, Structural, Debug)]
pub struct FeeRateUpdated {
    pub old_bps: u32,
    pub new_bps: u32,
}

// ── State ──────────────────────────────────────────────────────────────────

/// The escrow contract's storage.
pub struct CoreEscrow {
    /// This contract's own address: the holder of the escrowed funds.
    pub address: Address,
    pub admin: Option<Address>,
    pub treasury: Option<Address>,
    pub fee_config: Option<FeeConfig>,
    pub insurance_fund: Option<InsuranceFund>,
    pub routing_paused: Option<bool>,
    pub version: Option<u32>,
    pub pools: Table<BytesN32, EscrowPool>,
    pub slots: Table<(BytesN32, u32), ReleaseSlot>,
    pub slot_counts: Table<BytesN32, u32>,
    pub fee_records: Table<BytesN32, FeeRecord>,
    pub authorized_modules: Table<Address, bool>,
}

/// The mathematical content of the escrow's storage.
pub ghost struct EscrowState {
    pub address: Address,
    pub admin: Option<Address>,
    pub treasury: Option<Address>,
    pub fee_config: Option<FeeConfig>,
    pub insurance_fund: Option<InsuranceFund>,
    pub routing_paused: Option<bool>,
    pub version: Option<u32>,
    pub pools: Map<BytesN32, EscrowPool>,
    pub slots: Map<(BytesN32, u32), ReleaseSlot>,
    pub slot_counts: Map<BytesN32, u32>,
    pub fee_records: Map<BytesN32, FeeRecord>,
    pub authorized_modules: Map<Address, bool>,
}

impl View for CoreEscrow {
    type V = EscrowState;

    open spec fn view(&self) -> EscrowState {
        EscrowState {
            address: self.address,
            admin: self.admin,
            treasury: self.treasury,
            fee_config: self.fee_config,
            insurance_fund: self.insurance_fund,
            routing_paused: self.routing_paused,
            version: self.version,
            pools: self.pools@,
            slots: self.slots@,
            slot_counts: self.slot_counts@,
            fee_records: self.fee_records@,
            authorized_modules: self.authorized_modules@,
        }
    }
}

/// What a pool still holds: deposits less releases and refunds.
pub open spec fn unreleased(p: EscrowPool) -> int {
    p.total_deposited - p.total_released - p.total_refunded
}

/// `unreleased`, computed step by step with checked arithmetic.
pub open spec fn checked_unreleased(p: EscrowPool) -> Option<int> {
    if fits_i128(p.total_deposited - p.total_released) && fits_i128(unreleased(p)) {
        Some(unreleased(p))
    } else {
        None
    }
}

/// The insurance fund, or an empty one where none was recorded yet.
pub open spec fn fund_or_empty(f: Option<InsuranceFund>) -> InsuranceFund {
    match f {
        Some(f) => f,
        None => InsuranceFund { balance: 0, total_contributions: 0, total_paid_out: 0 },
    }
}

/// Whether `amount` can be added to the fund without overflow.
pub open spec fn fund_can_add(f: Option<InsuranceFund>, amount: int) -> bool {
    fits_i128(fund_or_empty(f).balance + amount) && fits_i128(
        fund_or_empty(f).total_contributions + amount,
    )
}

/// The fund after `amount` was added to it.
pub open spec fn fund_added(f: Option<InsuranceFund>, amount: int) -> InsuranceFund {
    InsuranceFund {
        balance: (fund_or_empty(f).balance + amount) as i128,
        total_contributions: (fund_or_empty(f).total_contributions + amount) as i128,
        total_paid_out: fund_or_empty(f).total_paid_out,
    }
}

/// The sum of the amounts of `s`.
pub open spec fn amounts_total(s: Seq<(Address, i128)>) -> int
    decreases s.len(),
{
    if s.len() == 0 {
        0
    } else {
        amounts_total(s.drop_last()) + s.last().1
    }
}

/// Whether `start` plus every prefix sum of `s` stays within `i128`.
pub open spec fn running_sums_fit(start: int, s: Seq<(Address, i128)>) -> bool {
    forall|k: int| 0 <= k <= s.len() ==> #[trigger] fits_i128(start + amounts_total(s.take(k)))
}

/// The entries of `s` with a positive amount, in order.
pub open spec fn positive_entries(s: Seq<(Address, i128)>) -> Seq<(Address, i128)> {
    s.filter(|e: (Address, i128)| e.1 > 0)
}

/// The slot that `define_release_slots` writes at position `i`.
pub open spec fn slot_at(pool_id: BytesN32, s: Seq<(Address, i128)>, i: int) -> ReleaseSlot {
    ReleaseSlot {
        pool_id,
        slot_index: i as u32,
        amount: s[i].1,
        recipient: s[i].0,
        released: false,
        released_at: None,
    }
}

/// The slot table after the slots of `s` were written for `pool_id`.
pub open spec fn slots_written(
    slots: Map<(BytesN32, u32), ReleaseSlot>,
    pool_id: BytesN32,
    s: Seq<(Address, i128)>,
) -> Map<(BytesN32, u32), ReleaseSlot>
    decreases s.len(),
{
    if s.len() == 0 {
        slots
    } else {
        let k = s.len() - 1;
        slots_written(slots, pool_id, s.drop_last()).insert(
            (pool_id, k as u32),
            slot_at(pool_id, s, k),
        )
    }
}

/// The refund transfers that `refund_backers` makes, in order.
pub open spec fn refund_transfers(asset: Address, from: Address, s: Seq<(Address, i128)>) -> Seq<
    Transfer,
> {
    positive_entries(s).map_values(
        |e: (Address, i128)| Transfer { asset, from, to: e.0, amount: e.1 },
    )
}

/// The refund events that `refund_backers` emits, in order.
pub open spec fn refund_events(pool_id: BytesN32, s: Seq<(Address, i128)>) -> Seq<Event> {
    positive_entries(s).map_values(
        |e: (Address, i128)| Event::Refunded(Refunded { pool_id, recipient: e.0, amount: e.1 }),
    )
}

pub proof fn lemma_amounts_total_push(s: Seq<(Address, i128)>, e: (Address, i128))
    ensures
        amounts_total(s.push(e)) == amounts_total(s) + e.1,
{
    assert(s.push(e).drop_last() =~= s);
}

proof fn lemma_positive_push(s: Seq<(Address, i128)>, e: (Address, i128))
    ensures
        positive_entries(s.push(e)) == if e.1 > 0 {
            positive_entries(s).push(e)
        } else {
            positive_entries(s)
        },
{
    reveal(Seq::filter);
    assert(s.push(e).drop_last() =~= s);
}

impl CoreEscrow {
    /// An escrow contract at `address` with empty storage.
    pub fn new(address: Address) -> (c: CoreEscrow)
        ensures
            c@ == (EscrowState {
                address,
                admin: None,
                treasury: None,
                fee_config: None,
                insurance_fund: None,
                routing_paused: None,
                version: None,
                pools: Map::empty(),
                slots: Map::empty(),
                slot_counts: Map::empty(),
                fee_records: Map::empty(),
                authorized_modules: Map::empty(),
            }),
    {
        CoreEscrow {
            address,
            admin: None,
            treasury: None,
            fee_config: None,
            insurance_fund: None,
            routing_paused: None,
            version: None,
            pools: Table::new(),
            slots: Table::new(),
            slot_counts: Table::new(),
            fee_records: Table::new(),
            authorized_modules: Table::new(),
        }
    }

    /// An identical copy of the storage, to roll back to.
    pub fn snapshot(&self) -> (c: CoreEscrow)
        ensures
            c@ == self@,
    {
        CoreEscrow {
            address: self.address,
            admin: self.admin,
            treasury: self.treasury,
            fee_config: self.fee_config,
            insurance_fund: self.insurance_fund,
            routing_paused: self.routing_paused,
            version: self.version,
            pools: self.pools.snapshot(),
            slots: self.slots.snapshot(),
            slot_counts: self.slot_counts.snapshot(),
            fee_records: self.fee_records.snapshot(),
            authorized_modules: self.authorized_modules.snapshot(),
        }
    }

    // ── Initialization ───────────────────────────────────────────────────

    /// Sets the admin and treasury and installs the default fee configuration.
    pub fn init(&mut self, admin: Address, treasury: Address) -> (r: Result<(), EscrowError>)
        ensures
            old(self)@.admin is Some ==> r == Err::<(), _>(EscrowError::AlreadyInitialized)
                && final(self)@ == old(self)@,
            old(self)@.admin is None ==> r is Ok && final(self)@ == (EscrowState {
                admin: Some(admin),
                treasury: Some(treasury),
                fee_config: Some(FeeConfig {
                    bounty_fee_bps: 500,
                    crowdfund_fee_bps: 500,
                    grant_fee_bps: 300,
                    hackathon_fee_bps: 400,
                    insurance_cut_bps: 1000,
                }),
                routing_paused: Some(false),
                version: Some(1),
                ..old(self)@
            }),
    {
        if self.admin.is_some() {
            return Err(EscrowError::AlreadyInitialized);
        }
        self.admin = Some(admin);
        self.treasury = Some(treasury);
        self.fee_config = Some(FeeConfig::default_config());
        self.routing_paused = Some(false);
        self.version = Some(1);
        Ok(())
    }

    // ── Queries ──────────────────────────────────────────────────────────

    pub fn get_admin(&self) -> (r: Result<Address, EscrowError>)
        ensures
            r == match self@.admin {
                Some(a) => Ok(a),
                None => Err(EscrowError::NotInitialized),
            },
    {
        match self.admin {
            Some(a) => Ok(a),
            None => Err(EscrowError::NotInitialized),
        }
    }

    pub fn get_treasury(&self) -> (r: Result<Address, EscrowError>)
        ensures
            r == match self@.treasury {
                Some(a) => Ok(a),
                None => Err(EscrowError::NotInitialized),
            },
    {
        match self.treasury {
            Some(a) => Ok(a),
            None => Err(EscrowError::NotInitialized),
        }
    }

    pub fn get_pool(&self, pool_id: BytesN32) -> (r: Result<EscrowPool, EscrowError>)
        ensures
            r == if self@.pools.contains_key(pool_id) {
                Ok(self@.pools[pool_id])
            } else {
                Err(EscrowError::PoolNotFound)
            },
    {
        match self.pools.get(&pool_id) {
            Some(p) => Ok(*p),
            None => Err(EscrowError::PoolNotFound),
        }
    }

    pub fn get_slot(&self, pool_id: BytesN32, index: u32) -> (r: Result<ReleaseSlot, EscrowError>)
        ensures
            r == if self@.slots.contains_key((pool_id, index)) {
                Ok(self@.slots[(pool_id, index)])
            } else {
                Err(EscrowError::SlotNotFound)
            },
    {
        match self.slots.get(&(pool_id, index)) {
            Some(s) => Ok(*s),
            None => Err(EscrowError::SlotNotFound),
        }
    }

    /// What a pool still holds, computed with checked arithmetic.
    fn pool_unreleased(p: &EscrowPool) -> (r: Option<i128>)
        ensures
            match checked_unreleased(*p) {
                Some(v) => r == Some(v as i128),
                None => r is None,
            },
    {
        match p.total_deposited.checked_sub(p.total_released) {
            Some(a) => a.checked_sub(p.total_refunded),
            None => None,
        }
    }

    pub fn get_unreleased(&self, pool_id: BytesN32) -> (r: Result<i128, EscrowError>)
        ensures
            !self@.pools.contains_key(pool_id) ==> r == Err::<i128, _>(EscrowError::PoolNotFound),
            self@.pools.contains_key(pool_id) ==> r == match checked_unreleased(self@.pools[pool_id]) {
                Some(v) => Ok(v as i128),
                None => Err(EscrowError::Overflow),
            },
    {
        match self.pools.get(&pool_id) {
            Some(p) => match Self::pool_unreleased(p) {
                Some(v) => Ok(v),
                None => Err(EscrowError::Overflow),
            },
            None => Err(EscrowError::PoolNotFound),
        }
    }

    pub fn is_locked(&self, pool_id: BytesN32) -> (r: Result<bool, EscrowError>)
        ensures
            r == if self@.pools.contains_key(pool_id) {
                Ok(self@.pools[pool_id].locked)
            } else {
                Err(EscrowError::PoolNotFound)
            },
    {
        match self.pools.get(&pool_id) {
            Some(p) => Ok(p.locked),
            None => Err(EscrowError::PoolNotFound),
        }
    }

    /// The insurance fund's balance; zero before anything was contributed.
    pub fn get_insurance_balance(&self) -> (r: i128)
        ensures
            r == fund_or_empty(self@.insurance_fund).balance,
    {
        match self.insurance_fund {
            Some(f) => f.balance,
            None => 0,
        }
    }

    pub fn get_fee_config(&self) -> (r: Result<FeeConfig, EscrowError>)
        ensures
            r == match self@.fee_config {
                Some(c) => Ok(c),
                None => Err(EscrowError::NotInitialized),
            },
    {
        match self.fee_config {
            Some(c) => Ok(c),
            None => Err(EscrowError::NotInitialized),
        }
    }

    pub fn get_fee_rate(&self, sub_type: SubType) -> (r: Result<u32, EscrowError>)
        ensures
            r == match self@.fee_config {
                Some(c) => Ok(c.fee_bps(sub_type)),
                None => Err(EscrowError::NotInitialized),
            },
    {
        match self.fee_config {
            Some(c) => Ok(c.get_fee_bps(&sub_type)),
            None => Err(EscrowError::NotInitialized),
        }
    }

    /// Previews `(fee, net)` for a deposit of `gross` of kind `sub_type`.
    pub fn calculate_fee(&self, gross: i128, sub_type: SubType) -> (r: Result<(i128, i128), EscrowError>)
        ensures
            self@.fee_config is None ==> r == Err::<(i128, i128), _>(EscrowError::NotInitialized),
            self@.fee_config is Some ==> r == match fee_bps_spec(
                gross as int,
                self@.fee_config->0.fee_bps(sub_type) as int,
            ) {
                Some(fee) => if fits_i128(gross - fee) {
                    Ok((fee as i128, (gross - fee) as i128))
                } else {
                    Err(EscrowError::Overflow)
                },
                None => Err(EscrowError::Overflow),
            },
    {
        let config = match self.fee_config {
            Some(c) => c,
            None => return Err(EscrowError::NotInitialized),
        };
        let fee_bps = config.get_fee_bps(&sub_type);
        let fee = match calculate_fee_bps(gross, fee_bps) {
            Some(f) => f,
            None => return Err(EscrowError::Overflow),
        };
        match gross.checked_sub(fee) {
            Some(net) => Ok((fee, net)),
            None => Err(EscrowError::Overflow),
        }
    }

    /// What a backer pays in total for a pledge of `pledge`: the pledge plus the crowdfund fee.
    pub fn calculate_pledge_cost(&self, pledge: i128) -> (r: Result<i128, EscrowError>)
        ensures
            self@.fee_config is None ==> r == Err::<i128, _>(EscrowError::NotInitialized),
            self@.fee_config is Some ==> r == match fee_bps_spec(
                pledge as int,
                self@.fee_config->0.crowdfund_fee_bps as int,
            ) {
                Some(fee) => if fits_i128(pledge + fee) {
                    Ok((pledge + fee) as i128)
                } else {
                    Err(EscrowError::Overflow)
                },
                None => Err(EscrowError::Overflow),
            },
    {
        let config = match self.fee_config {
            Some(c) => c,
            None => return Err(EscrowError::NotInitialized),
        };
        let fee = match calculate_fee_bps(pledge, config.crowdfund_fee_bps) {
            Some(f) => f,
            None => return Err(EscrowError::Overflow),
        };
        match pledge.checked_add(fee) {
            Some(c) => Ok(c),
            None => Err(EscrowError::Overflow),
        }
    }

    pub fn get_fee_record(&self, pool_id: BytesN32) -> (r: Result<FeeRecord, EscrowError>)
        ensures
            r == if self@.fee_records.contains_key(pool_id) {
                Ok(self@.fee_records[pool_id])
            } else {
                Err(EscrowError::PoolNotFound)
            },
    {
        match self.fee_records.get(&pool_id) {
            Some(f) => Ok(*f),
            None => Err(EscrowError::PoolNotFound),
        }
    }

    /// Whether `module` has been authorized by the admin.
    pub fn is_module_authorized(&self, module: Address) -> (b: bool)
        ensures
            b == self@.authorized_modules.contains_key(module),
    {
        self.authorized_modules.contains_key(&module)
    }

    // ── Admin functions ──────────────────────────────────────────────────

    pub fn update_admin(&mut self, new_admin: Address) -> (r: Result<(), EscrowError>)
        ensures
            old(self)@.admin is None ==> r == Err::<(), _>(EscrowError::NotInitialized)
                && final(self)@ == old(self)@,
            old(self)@.admin is Some ==> r is Ok && final(self)@ == (EscrowState {
                admin: Some(new_admin),
                ..old(self)@
            }),
    {
        if self.admin.is_none() {
            return Err(EscrowError::NotInitialized);
        }
        self.admin = Some(new_admin);
        Ok(())
    }

    pub fn update_treasury(&mut self, new_treasury: Address) -> (r: Result<(), EscrowError>)
        ensures
            old(self)@.admin is None ==> r == Err::<(), _>(EscrowError::NotInitialized)
                && final(self)@ == old(self)@,
            old(self)@.admin is Some ==> r is Ok && final(self)@ == (EscrowState {
                treasury: Some(new_treasury),
                ..old(self)@
            }),
    {
        if self.admin.is_none() {
            return Err(EscrowError::NotInitialized);
        }
        self.treasury = Some(new_treasury);
        Ok(())
    }

    /// Sets the fee rate of `sub_type`'s module; at most `MAX_FEE_BPS`.
    pub fn set_fee_rate(&mut self, env: &mut Env, sub_type: SubType, new_bps: u32) -> (r: Result<(), EscrowError>)
        ensures
            old(self)@.admin is None ==> r == Err::<(), _>(EscrowError::NotInitialized),
            old(self)@.admin is Some && new_bps > MAX_FEE_BPS ==> r == Err::<(), _>(
                EscrowError::RateExceedsLimit,
            ),
            old(self)@.admin is Some && new_bps <= MAX_FEE_BPS && old(self)@.fee_config is None
                ==> r == Err::<(), _>(EscrowError::NotInitialized),
            old(self)@.admin is Some && new_bps <= MAX_FEE_BPS && old(self)@.fee_config is Some ==> r is Ok,
            r is Err ==> final(self)@ == old(self)@ && final(env)@ == old(env)@,
            r is Ok ==> final(self)@ == (EscrowState {
                fee_config: Some(old(self)@.fee_config->0.with_fee_bps(sub_type, new_bps)),
                ..old(self)@
            }) && final(env)@ == old(env)@.emit(
                Event::FeeRateUpdated(
                    FeeRateUpdated { old_bps: old(self)@.fee_config->0.fee_bps(sub_type), new_bps },
                ),
            ),
    {
        if self.admin.is_none() {
            return Err(EscrowError::NotInitialized);
        }
        if new_bps > MAX_FEE_BPS {
            return Err(EscrowError::RateExceedsLimit);
        }
        let mut config = match self.fee_config {
            Some(c) => c,
            None => return Err(EscrowError::NotInitialized),
        };
        let old_bps = config.get_fee_bps(&sub_type);
        match sub_type {
            SubType::BountyFCFS | SubType::BountyApplication | SubType::BountyContest
            | SubType::BountySplit => config.bounty_fee_bps = new_bps,
            SubType::CrowdfundPledge => config.crowdfund_fee_bps = new_bps,
            SubType::GrantMilestone | SubType::GrantRetrospective
            | SubType::GrantQFMatchingPool => config.grant_fee_bps = new_bps,
            SubType::HackathonMain | SubType::HackathonTrack => config.hackathon_fee_bps = new_bps,
        }
        self.fee_config = Some(config);
        env.emit(Event::FeeRateUpdated(FeeRateUpdated { old_bps, new_bps }));
        Ok(())
    }

    /// Sets the insurance share of fees, which must lie in
    /// `MIN_INSURANCE_CUT_BPS..=MAX_INSURANCE_CUT_BPS`.
    pub fn set_insurance_cut(&mut self, new_bps: u32) -> (r: Result<(), EscrowError>)
        ensures
            old(self)@.admin is None ==> r == Err::<(), _>(EscrowError::NotInitialized),
            old(self)@.admin is Some && !(MIN_INSURANCE_CUT_BPS <= new_bps <= MAX_INSURANCE_CUT_BPS)
                ==> r == Err::<(), _>(EscrowError::InsuranceCutOutOfRange),
            old(self)@.admin is Some && MIN_INSURANCE_CUT_BPS <= new_bps <= MAX_INSURANCE_CUT_BPS
                && old(self)@.fee_config is None ==> r == Err::<(), _>(EscrowError::NotInitialized),
            old(self)@.admin is Some && MIN_INSURANCE_CUT_BPS <= new_bps <= MAX_INSURANCE_CUT_BPS
                && old(self)@.fee_config is Some ==> r is Ok,
            r is Err ==> final(self)@ == old(self)@,
            r is Ok ==> final(self)@ == (EscrowState {
                fee_config: Some(FeeConfig { insurance_cut_bps: new_bps, ..old(self)@.fee_config->0 }),
                ..old(self)@
            }),
    {
        if self.admin.is_none() {
            return Err(EscrowError::NotInitialized);
        }
        if !(MIN_INSURANCE_CUT_BPS <= new_bps && new_bps <= MAX_INSURANCE_CUT_BPS) {
            return Err(EscrowError::InsuranceCutOutOfRange);
        }
        let mut config = match self.fee_config {
            Some(c) => c,
            None => return Err(EscrowError::NotInitialized),
        };
        config.insurance_cut_bps = new_bps;
        self.fee_config = Some(config);
        Ok(())
    }

    /// Stops fee routing until `resume_routing`.
    pub fn pause_routing(&mut self) -> (r: Result<(), EscrowError>)
        ensures
            old(self)@.admin is None ==> r == Err::<(), _>(EscrowError::NotInitialized)
                && final(self)@ == old(self)@,
            old(self)@.admin is Some ==> r is Ok && final(self)@ == (EscrowState {
                routing_paused: Some(true),
                ..old(self)@
            }),
    {
        if self.admin.is_none() {
            return Err(EscrowError::NotInitialized);
        }
        self.routing_paused = Some(true);
        Ok(())
    }

    pub fn resume_routing(&mut self) -> (r: Result<(), EscrowError>)
        ensures
            old(self)@.admin is None ==> r == Err::<(), _>(EscrowError::NotInitialized)
                && final(self)@ == old(self)@,
            old(self)@.admin is Some ==> r is Ok && final(self)@ == (EscrowState {
                routing_paused: Some(false),
                ..old(self)@
            }),
    {
        if self.admin.is_none() {
            return Err(EscrowError::NotInitialized);
        }
        self.routing_paused = Some(false);
        Ok(())
    }

    pub fn authorize_module(&mut self, module_addr: Address) -> (r: Result<(), EscrowError>)
        ensures
            old(self)@.admin is None ==> r == Err::<(), _>(EscrowError::NotInitialized)
                && final(self)@ == old(self)@,
            old(self)@.admin is Some ==> r is Ok && final(self)@ == (EscrowState {
                authorized_modules: old(self)@.authorized_modules.insert(module_addr, true),
                ..old(self)@
            }),
    {
        if self.admin.is_none() {
            return Err(EscrowError::NotInitialized);
        }
        self.authorized_modules.insert(module_addr, true);
        Ok(())
    }

    pub fn deauthorize_module(&mut self, module_addr: Address) -> (r: Result<(), EscrowError>)
        ensures
            old(self)@.admin is None ==> r == Err::<(), _>(EscrowError::NotInitialized)
                && final(self)@ == old(self)@,
            old(self)@.admin is Some ==> r is Ok && final(self)@ == (EscrowState {
                authorized_modules: old(self)@.authorized_modules.remove(module_addr),
                ..old(self)@
            }),
    {
        if self.admin.is_none() {
            return Err(EscrowError::NotInitialized);
        }
        self.authorized_modules.remove(&module_addr);
        Ok(())
    }

    /// Checks that an upgrade may proceed: the contract must be initialised.
    /// Installing the new code is the ledger's work.
    pub fn upgrade(&self, new_wasm_hash: BytesN32) -> (r: Result<(), EscrowError>)
        ensures
            r == if self@.admin is Some {
                Ok::<(), EscrowError>(())
            } else {
                Err(EscrowError::NotInitialized)
            },
    {
        if self.admin.is_none() {
            return Err(EscrowError::NotInitialized);
        }
        Ok(())
    }
}


impl CoreEscrow {
    // ── Pool management ──────────────────────────────────────────────────

    /// Opens the pool of entity `module_id` of `module`, pulling `total_amount`
    /// from `owner` when it is positive. The pool id is derived from the module
    /// and the entity id, so each entity has at most one pool.
    pub fn create_pool(
        &mut self,
        env: &mut Env,
        owner: Address,
        module: ModuleType,
        module_id: u64,
        total_amount: i128,
        asset: Address,
        expires_at: u64,
        authorized_caller: Address,
    ) -> (r: Result<BytesN32, EscrowError>)
        ensures
            r is Err ==> r == old(self)@.create_pool_error(module, module_id, total_amount),
            r is Ok <==> old(self)@.create_pool_error(module, module_id, total_amount) == Err::<BytesN32, EscrowError>(EscrowError::Overflow),
            r matches Ok(pid) ==> final(self)@ == old(self)@.pool_created(
                pid, owner, module, total_amount, asset, expires_at, authorized_caller, old(env)@.timestamp,
            ) && final(env)@ == old(self)@.create_pool_env(old(env)@, pid, owner, module, total_amount, asset),
            total_amount < 0 ==> r == Err::<BytesN32, _>(EscrowError::InvalidAmount),
            total_amount >= 0 && (exists|p: BytesN32| #[trigger] old(self)@.pools.contains_key(p)
                && p.bytes@ == pool_id_spec(module, module_id)) ==> r == Err::<BytesN32, _>(
                EscrowError::PoolAlreadyExists,
            ),
            total_amount >= 0 && !(exists|p: BytesN32| #[trigger] old(self)@.pools.contains_key(p)
                && p.bytes@ == pool_id_spec(module, module_id)) ==> r is Ok,
            r is Err ==> final(self)@ == old(self)@ && final(env)@ == old(env)@,
            r matches Ok(pid) ==> {
                &&& pid.bytes@ == pool_id_spec(module, module_id)
                &&& final(self)@ == (EscrowState {
                    pools: old(self)@.pools.insert(
                        pid,
                        EscrowPool {
                            pool_id: pid,
                            module,
                            authorized_caller,
                            owner,
                            total_deposited: total_amount,
                            total_released: 0,
                            total_refunded: 0,
                            asset,
                            locked: false,
                            created_at: old(env)@.timestamp,
                            expires_at,
                        },
                    ),
                    ..old(self)@
                })
                &&& final(env)@ == if total_amount > 0 {
                    old(env)@.pay(
                        Transfer { asset, from: owner, to: old(self)@.address, amount: total_amount },
                    )
                } else {
                    old(env)@
                }.emit(
                    Event::PoolCreated(PoolCreated { pool_id: pid, owner, module, total_amount }),
                )
            },
    {
        if total_amount < 0 {
            return Err(EscrowError::InvalidAmount);
        }
        let pool_id = compute_pool_id(module, module_id);
        if self.pools.contains_key(&pool_id) {
            return Err(EscrowError::PoolAlreadyExists);
        }
        proof {
            assert forall|p: BytesN32| #[trigger] old(self)@.pools.contains_key(p) implies p.bytes@
                != pool_id_spec(module, module_id) by {
                if p.bytes@ == pool_id_spec(module, module_id) {
                    assert(p.bytes =~= pool_id.bytes);
                }
            }
        }
        if total_amount > 0 {
            env.pay(asset, owner, self.address, total_amount);
        }
        let pool = EscrowPool {
            pool_id,
            module,
            authorized_caller,
            owner,
            total_deposited: total_amount,
            total_released: 0,
            total_refunded: 0,
            asset,
            locked: false,
            created_at: env.timestamp,
            expires_at,
        };
        self.pools.insert(pool_id, pool);
        env.emit(Event::PoolCreated(PoolCreated { pool_id, owner, module, total_amount }));
        Ok(pool_id)
    }

    /// Adds `amount` from `payer` to an unlocked pool.
    pub fn deposit(&mut self, env: &mut Env, pool_id: BytesN32, amount: i128, payer: Address) -> (r: Result<(), EscrowError>)
        ensures
            amount <= 0 ==> r == Err::<(), _>(EscrowError::InvalidAmount),
            amount > 0 && !old(self)@.pools.contains_key(pool_id) ==> r == Err::<(), _>(
                EscrowError::PoolNotFound,
            ),
            amount > 0 && old(self)@.pools.contains_key(pool_id) && old(self)@.pools[pool_id].locked
                ==> r == Err::<(), _>(EscrowError::PoolLocked),
            amount > 0 && old(self)@.pools.contains_key(pool_id) && !old(self)@.pools[pool_id].locked
                && !fits_i128(old(self)@.pools[pool_id].total_deposited + amount) ==> r == Err::<
                (),
                _,
            >(EscrowError::Overflow),
            amount > 0 && old(self)@.pools.contains_key(pool_id) && !old(self)@.pools[pool_id].locked
                && fits_i128(old(self)@.pools[pool_id].total_deposited + amount) ==> r is Ok,
            r is Err ==> final(self)@ == old(self)@ && final(env)@ == old(env)@,
            r is Ok ==> {
                let p = old(self)@.pools[pool_id];
                &&& final(self)@ == (EscrowState {
                    pools: old(self)@.pools.insert(
                        pool_id,
                        EscrowPool { total_deposited: (p.total_deposited + amount) as i128, ..p },
                    ),
                    ..old(self)@
                })
                &&& final(env)@ == old(env)@.pay(
                    Transfer { asset: p.asset, from: payer, to: old(self)@.address, amount },
                )
            },
    {
        if amount <= 0 {
            return Err(EscrowError::InvalidAmount);
        }
        let mut pool = match self.pools.get(&pool_id) {
            Some(p) => *p,
            None => return Err(EscrowError::PoolNotFound),
        };
        if pool.locked {
            return Err(EscrowError::PoolLocked);
        }
        pool.total_deposited = match pool.total_deposited.checked_add(amount) {
            Some(v) => v,
            None => return Err(EscrowError::Overflow),
        };
        env.pay(pool.asset, payer, self.address, amount);
        self.pools.insert(pool_id, pool);
        Ok(())
    }

    /// Locks a pool against further plain deposits.
    pub fn lock_pool(&mut self, env: &mut Env, pool_id: BytesN32) -> (r: Result<(), EscrowError>)
        ensures
            r == old(self)@.lock_pool_result(pool_id),
            r is Ok ==> final(self)@ == old(self)@.pool_locked(pool_id),
            !old(self)@.pools.contains_key(pool_id) ==> r == Err::<(), _>(EscrowError::PoolNotFound),
            old(self)@.pools.contains_key(pool_id) && old(self)@.pools[pool_id].locked ==> r == Err::<
                (),
                _,
            >(EscrowError::PoolLocked),
            old(self)@.pools.contains_key(pool_id) && !old(self)@.pools[pool_id].locked ==> r is Ok,
            r is Err ==> final(self)@ == old(self)@ && final(env)@ == old(env)@,
            r is Ok ==> final(self)@ == (EscrowState {
                pools: old(self)@.pools.insert(
                    pool_id,
                    EscrowPool { locked: true, ..old(self)@.pools[pool_id] },
                ),
                ..old(self)@
            }) && final(env)@ == old(env)@.emit(Event::PoolLocked(PoolLocked { pool_id })),
    {
        let mut pool = match self.pools.get(&pool_id) {
            Some(p) => *p,
            None => return Err(EscrowError::PoolNotFound),
        };
        if pool.locked {
            return Err(EscrowError::PoolLocked);
        }
        pool.locked = true;
        self.pools.insert(pool_id, pool);
        env.emit(Event::PoolLocked(PoolLocked { pool_id }));
        Ok(())
    }

    /// Writes one release slot per entry of `slots`, at positions `0..slots.len()`.
    /// The slots together may not exceed what was deposited.
    pub fn define_release_slots(&mut self, pool_id: BytesN32, slots: &Vec<(Address, i128)>) -> (r: Result<(), EscrowError>)
        requires
            slots@.len() <= u32::MAX,
        ensures
            r == old(self)@.define_slots_result(pool_id, slots@),
            r is Ok ==> final(self)@ == old(self)@.slots_defined(pool_id, slots@),
            !old(self)@.pools.contains_key(pool_id) ==> r == Err::<(), _>(EscrowError::PoolNotFound),
            old(self)@.pools.contains_key(pool_id) && !running_sums_fit(0, slots@) ==> r == Err::<
                (),
                _,
            >(EscrowError::Overflow),
            old(self)@.pools.contains_key(pool_id) && running_sums_fit(0, slots@) && amounts_total(
                slots@,
            ) > old(self)@.pools[pool_id].total_deposited ==> r == Err::<(), _>(
                EscrowError::SlotsExceedDeposit,
            ),
            old(self)@.pools.contains_key(pool_id) && running_sums_fit(0, slots@) && amounts_total(
                slots@,
            ) <= old(self)@.pools[pool_id].total_deposited ==> r is Ok,
            r is Err ==> final(self)@ == old(self)@,
            r is Ok ==> final(self)@ == (EscrowState {
                slots: slots_written(old(self)@.slots, pool_id, slots@),
                slot_counts: old(self)@.slot_counts.insert(pool_id, slots@.len() as u32),
                ..old(self)@
            }),
    {
        let pool = match self.pools.get(&pool_id) {
            Some(p) => *p,
            None => return Err(EscrowError::PoolNotFound),
        };
        // Check the totals first, so that nothing is written on failure.
        let n = slots.len();
        let mut total: i128 = 0;
        let mut i: usize = 0;
        while i < n
            invariant
                n == slots@.len(),
                i <= n,
                old(self)@.pools.contains_key(pool_id),
                self@ == old(self)@,
                total == amounts_total(slots@.take(i as int)),
                forall|k: int| 0 <= k <= i ==> #[trigger] fits_i128(0 + amounts_total(slots@.take(k))),
            decreases n - i,
        {
            proof {
                assert(slots@.take(i + 1) =~= slots@.take(i as int).push(slots@[i as int]));
                lemma_amounts_total_push(slots@.take(i as int), slots@[i as int]);
            }
            total = match total.checked_add(slots[i].1) {
                Some(t) => t,
                None => {
                    assert(!fits_i128(0 + amounts_total(slots@.take(i + 1))));
                    return Err(EscrowError::Overflow);
                },
            };
            i = i + 1;
        }
        assert(slots@.take(n as int) =~= slots@);
        if total > pool.total_deposited {
            return Err(EscrowError::SlotsExceedDeposit);
        }
        let mut j: usize = 0;
        while j < n
            invariant
                n == slots@.len(),
                n <= u32::MAX,
                j <= n,
                self@ == (EscrowState {
                    slots: slots_written(old(self)@.slots, pool_id, slots@.take(j as int)),
                    ..old(self)@
                }),
            decreases n - j,
        {
            let slot = ReleaseSlot {
                pool_id,
                slot_index: j as u32,
                amount: slots[j].1,
                recipient: slots[j].0,
                released: false,
                released_at: None,
            };
            proof {
                let t = slots@.take(j + 1);
                assert(t.drop_last() =~= slots@.take(j as int));
                assert(slot == slot_at(pool_id, t, j as int));
            }
            self.slots.insert((pool_id, j as u32), slot);
            j = j + 1;
        }
        assert(slots@.take(n as int) =~= slots@);
        self.slot_counts.insert(pool_id, n as u32);
        Ok(())
    }
}


impl CoreEscrow {
    // ── Releases ─────────────────────────────────────────────────────────

    /// Pays out release slot `slot_index` of a pool to its recipient.
    pub fn release_slot(&mut self, env: &mut Env, pool_id: BytesN32, slot_index: u32) -> (r: Result<(), EscrowError>)
        ensures
            r == old(self)@.release_slot_result(pool_id, slot_index),
            r is Ok ==> final(self)@ == old(self)@.slot_released(pool_id, slot_index, old(env)@.timestamp)
                && final(env)@ == old(self)@.release_slot_env(old(env)@, pool_id, slot_index),
            !old(self)@.pools.contains_key(pool_id) ==> r == Err::<(), _>(EscrowError::PoolNotFound),
            old(self)@.pools.contains_key(pool_id) && !old(self)@.slots.contains_key((pool_id, slot_index))
                ==> r == Err::<(), _>(EscrowError::SlotNotFound),
            old(self)@.pools.contains_key(pool_id) && old(self)@.slots.contains_key((pool_id, slot_index))
                && old(self)@.slots[(pool_id, slot_index)].released ==> r == Err::<(), _>(
                EscrowError::SlotAlreadyReleased,
            ),
            old(self)@.pools.contains_key(pool_id) && old(self)@.slots.contains_key((pool_id, slot_index))
                && !old(self)@.slots[(pool_id, slot_index)].released && !fits_i128(
                old(self)@.pools[pool_id].total_released + old(self)@.slots[(pool_id, slot_index)].amount,
            ) ==> r == Err::<(), _>(EscrowError::Overflow),
            old(self)@.pools.contains_key(pool_id) && old(self)@.slots.contains_key((pool_id, slot_index))
                && !old(self)@.slots[(pool_id, slot_index)].released && fits_i128(
                old(self)@.pools[pool_id].total_released + old(self)@.slots[(pool_id, slot_index)].amount,
            ) ==> r is Ok,
            r is Err ==> final(self)@ == old(self)@ && final(env)@ == old(env)@,
            r is Ok ==> {
                let p = old(self)@.pools[pool_id];
                let sl = old(self)@.slots[(pool_id, slot_index)];
                &&& final(self)@ == (EscrowState {
                    pools: old(self)@.pools.insert(
                        pool_id,
                        EscrowPool { total_released: (p.total_released + sl.amount) as i128, ..p },
                    ),
                    slots: old(self)@.slots.insert(
                        (pool_id, slot_index),
                        ReleaseSlot { released: true, released_at: Some(old(env)@.timestamp), ..sl },
                    ),
                    ..old(self)@
                })
                &&& final(env)@ == old(env)@.pay(
                    Transfer { asset: p.asset, from: old(self)@.address, to: sl.recipient, amount: sl.amount },
                ).emit(
                    Event::SlotReleased(
                        SlotReleased { pool_id, slot_index, recipient: sl.recipient, amount: sl.amount },
                    ),
                )
            },
    {
        let mut pool = match self.pools.get(&pool_id) {
            Some(p) => *p,
            None => return Err(EscrowError::PoolNotFound),
        };
        let mut slot = match self.slots.get(&(pool_id, slot_index)) {
            Some(s) => *s,
            None => return Err(EscrowError::SlotNotFound),
        };
        if slot.released {
            return Err(EscrowError::SlotAlreadyReleased);
        }
        slot.released = true;
        slot.released_at = Some(env.timestamp);
        pool.total_released = match pool.total_released.checked_add(slot.amount) {
            Some(v) => v,
            None => return Err(EscrowError::Overflow),
        };
        self.pools.insert(pool_id, pool);
        self.slots.insert((pool_id, slot_index), slot);
        env.pay(pool.asset, self.address, slot.recipient, slot.amount);
        env.emit(
            Event::SlotReleased(
                SlotReleased { pool_id, slot_index, recipient: slot.recipient, amount: slot.amount },
            ),
        );
        Ok(())
    }

    /// Pays `amount` out of a pool to `recipient`, up to what the pool still holds.
    pub fn release_partial(&mut self, env: &mut Env, pool_id: BytesN32, recipient: Address, amount: i128) -> (r: Result<(), EscrowError>)
        ensures
            r == old(self)@.release_partial_result(pool_id, amount),
            r is Err ==> final(self)@ == old(self)@ && final(env)@ == old(env)@,
            r is Ok ==> final(self)@ == old(self)@.released_partially(pool_id, amount)
                && final(env)@ == old(self)@.release_partial_env(old(env)@, pool_id, recipient, amount),
    {
        if amount <= 0 {
            return Err(EscrowError::InvalidAmount);
        }
        let mut pool = match self.pools.get(&pool_id) {
            Some(p) => *p,
            None => return Err(EscrowError::PoolNotFound),
        };
        let remaining = match Self::pool_unreleased(&pool) {
            Some(v) => v,
            None => return Err(EscrowError::Overflow),
        };
        if amount > remaining {
            return Err(EscrowError::InsufficientFunds);
        }
        pool.total_released = match pool.total_released.checked_add(amount) {
            Some(v) => v,
            None => return Err(EscrowError::Overflow),
        };
        self.pools.insert(pool_id, pool);
        env.pay(pool.asset, self.address, recipient, amount);
        env.emit(Event::SlotReleased(SlotReleased { pool_id, slot_index: u32::MAX, recipient, amount }));
        Ok(())
    }

    /// A release without fee: the same as `release_partial`.
    pub fn route_payout(&mut self, env: &mut Env, pool_id: BytesN32, recipient: Address, amount: i128) -> (r: Result<(), EscrowError>)
        ensures
            r == old(self)@.release_partial_result(pool_id, amount),
            r is Err ==> final(self)@ == old(self)@ && final(env)@ == old(env)@,
            r is Ok ==> final(self)@ == old(self)@.released_partially(pool_id, amount)
                && final(env)@ == old(self)@.release_partial_env(old(env)@, pool_id, recipient, amount),
    {
        self.release_partial(env, pool_id, recipient, amount)
    }

    // ── Refunds ──────────────────────────────────────────────────────────

    /// Returns everything a pool still holds to its owner.
    pub fn refund_all(&mut self, env: &mut Env, pool_id: BytesN32) -> (r: Result<(), EscrowError>)
        ensures
            r == old(self)@.refund_all_result(pool_id),
            r is Err ==> final(self)@ == old(self)@ && final(env)@ == old(env)@,
            r is Ok ==> final(self)@ == old(self)@.refunded_all(pool_id)
                && final(env)@ == old(self)@.refund_all_env(old(env)@, pool_id),
    {
        let mut pool = match self.pools.get(&pool_id) {
            Some(p) => *p,
            None => return Err(EscrowError::PoolNotFound),
        };
        let remaining = match Self::pool_unreleased(&pool) {
            Some(v) => v,
            None => return Err(EscrowError::Overflow),
        };
        if remaining > 0 {
            pool.total_refunded = match pool.total_refunded.checked_add(remaining) {
                Some(v) => v,
                None => return Err(EscrowError::Overflow),
            };
            self.pools.insert(pool_id, pool);
            env.pay(pool.asset, self.address, pool.owner, remaining);
            env.emit(Event::Refunded(Refunded { pool_id, recipient: pool.owner, amount: remaining }));
        }
        Ok(())
    }

    /// The same as `refund_all`.
    pub fn refund_remaining(&mut self, env: &mut Env, pool_id: BytesN32) -> (r: Result<(), EscrowError>)
        ensures
            r == old(self)@.refund_all_result(pool_id),
            r is Err ==> final(self)@ == old(self)@ && final(env)@ == old(env)@,
            r is Ok ==> final(self)@ == old(self)@.refunded_all(pool_id)
                && final(env)@ == old(self)@.refund_all_env(old(env)@, pool_id),
    {
        self.refund_all(env, pool_id)
    }

    /// The same as `refund_all`.
    pub fn route_refund(&mut self, env: &mut Env, pool_id: BytesN32) -> (r: Result<(), EscrowError>)
        ensures
            r == old(self)@.refund_all_result(pool_id),
            r is Err ==> final(self)@ == old(self)@ && final(env)@ == old(env)@,
            r is Ok ==> final(self)@ == old(self)@.refunded_all(pool_id)
                && final(env)@ == old(self)@.refund_all_env(old(env)@, pool_id),
    {
        self.refund_all(env, pool_id)
    }

    /// Pays each backer with a positive amount back from the pool, in order.
    pub fn refund_backers(&mut self, env: &mut Env, pool_id: BytesN32, backers: &Vec<(Address, i128)>) -> (r: Result<(), EscrowError>)
        ensures
            !old(self)@.pools.contains_key(pool_id) ==> r == Err::<(), _>(EscrowError::PoolNotFound),
            old(self)@.pools.contains_key(pool_id) ==> (r is Ok <==> running_sums_fit(
                old(self)@.pools[pool_id].total_refunded as int,
                positive_entries(backers@),
            )),
            old(self)@.pools.contains_key(pool_id) && r is Err ==> r == Err::<(), _>(EscrowError::Overflow),
            r is Err ==> final(self)@ == old(self)@ && final(env)@ == old(env)@,
            r is Ok ==> {
                let p = old(self)@.pools[pool_id];
                &&& final(self)@ == (EscrowState {
                    pools: old(self)@.pools.insert(
                        pool_id,
                        EscrowPool {
                            total_refunded: (p.total_refunded + amounts_total(positive_entries(backers@))) as i128,
                            ..p
                        },
                    ),
                    ..old(self)@
                })
                &&& final(env)@ == (EnvState {
                    transfers: old(env)@.transfers + refund_transfers(p.asset, old(self)@.address, backers@),
                    events: old(env)@.events + refund_events(pool_id, backers@),
                    ..old(env)@
                })
            },
    {
        let mut pool = match self.pools.get(&pool_id) {
            Some(p) => *p,
            None => return Err(EscrowError::PoolNotFound),
        };
        let ghost p0 = pool;
        let m = env.mark();
        let n = backers.len();
        let mut i: usize = 0;
        while i < n
            invariant
                n == backers@.len(),
                i <= n,
                m.0 == old(env)@.transfers.len(),
                m.1 == old(env)@.events.len(),
                self@ == old(self)@,
                old(self)@.pools.contains_key(pool_id),
                p0 == old(self)@.pools[pool_id],
                pool == (EscrowPool {
                    total_refunded: (p0.total_refunded + amounts_total(positive_entries(backers@.take(i as int)))) as i128,
                    ..p0
                }),
                running_sums_fit(p0.total_refunded as int, positive_entries(backers@.take(i as int))),
                env@ == (EnvState {
                    transfers: old(env)@.transfers + refund_transfers(p0.asset, self@.address, backers@.take(i as int)),
                    events: old(env)@.events + refund_events(pool_id, backers@.take(i as int)),
                    ..old(env)@
                }),
            decreases n - i,
        {
            let (backer, amount) = backers[i];
            let ghost pre = backers@.take(i as int);
            proof {
                assert(backers@.take(i + 1) =~= pre.push(backers@[i as int]));
                lemma_positive_push(pre, backers@[i as int]);
            }
            if amount > 0 {
                proof {
                    lemma_amounts_total_push(positive_entries(pre), backers@[i as int]);
                    let pp = positive_entries(pre);
                    assert(pp.take(pp.len() as int) =~= pp);
                    assert(fits_i128(p0.total_refunded + amounts_total(pp.take(pp.len() as int))));
                    assert(pool.total_refunded == p0.total_refunded + amounts_total(pp));
                }
                pool.total_refunded = match pool.total_refunded.checked_add(amount) {
                    Some(v) => v,
                    None => {
                        proof {
                            let pe = positive_entries(backers@);
                            let k: int = positive_entries(pre).len() as int + 1;
                            assert(positive_entries(backers@.take(i + 1)).len() == k);
                            lemma_positive_prefix(backers@, i + 1);
                            assert(pe.take(k) == positive_entries(backers@.take(i + 1)));
                            assert(positive_entries(backers@.take(i + 1)) == positive_entries(pre).push(backers@[i as int]));
                            assert(!fits_i128(p0.total_refunded + amounts_total(pe.take(k))));
                        }
                        env.rollback(m);
                        assert(old(env)@.transfers.add(refund_transfers(p0.asset, self@.address, pre)).take(m.0 as int) =~= old(env)@.transfers);
                        assert(old(env)@.events.add(refund_events(pool_id, pre)).take(m.1 as int) =~= old(env)@.events);
                        return Err(EscrowError::Overflow);
                    },
                };
                env.pay(pool.asset, self.address, backer, amount);
                env.emit(Event::Refunded(Refunded { pool_id, recipient: backer, amount }));
                proof {
                    let pe = positive_entries(backers@.take(i + 1));
                    assert forall|k: int| 0 <= k <= pe.len() implies #[trigger] fits_i128(
                        p0.total_refunded + amounts_total(pe.take(k)),
                    ) by {
                        if k < pe.len() {
                            assert(pe.take(k) =~= positive_entries(pre).take(k));
                        } else {
                            assert(pe.take(k) =~= pe);
                        }
                    }
                    assert(refund_transfers(p0.asset, self@.address, backers@.take(i + 1)) =~= refund_transfers(p0.asset, self@.address, pre).push(Transfer { asset: p0.asset, from: self@.address, to: backer, amount }));
                    assert(refund_events(pool_id, backers@.take(i + 1)) =~= refund_events(pool_id, pre).push(Event::Refunded(Refunded { pool_id, recipient: backer, amount })));
                }
            } else {
                proof {
                    assert(refund_transfers(p0.asset, self@.address, backers@.take(i + 1)) =~= refund_transfers(p0.asset, self@.address, pre));
                    assert(refund_events(pool_id, backers@.take(i + 1)) =~= refund_events(pool_id, pre));
                }
            }
            i = i + 1;
        }
        assert(backers@.take(n as int) =~= backers@);
        self.pools.insert(pool_id, pool);
        Ok(())
    }
}

impl CoreEscrow {
    // ── Insurance fund ───────────────────────────────────────────────────

    /// Adds `amount` to the fund's balance and contributions, or `None` on overflow.
    fn fund_plus(f: Option<InsuranceFund>, amount: i128) -> (r: Option<InsuranceFund>)
        ensures
            fund_can_add(f, amount as int) ==> r == Some(fund_added(f, amount as int)),
            !fund_can_add(f, amount as int) ==> r is None,
    {
        let fund = match f {
            Some(f) => f,
            None => InsuranceFund { balance: 0, total_contributions: 0, total_paid_out: 0 },
        };
        let balance = match fund.balance.checked_add(amount) {
            Some(v) => v,
            None => return None,
        };
        let total_contributions = match fund.total_contributions.checked_add(amount) {
            Some(v) => v,
            None => return None,
        };
        Some(InsuranceFund { balance, total_contributions, total_paid_out: fund.total_paid_out })
    }

    /// Records a contribution of `amount` to the insurance fund.
    pub fn contribute_insurance(&mut self, env: &mut Env, amount: i128) -> (r: Result<(), EscrowError>)
        ensures
            amount <= 0 ==> r == Err::<(), _>(EscrowError::InvalidAmount),
            amount > 0 && !fund_can_add(old(self)@.insurance_fund, amount as int) ==> r == Err::<
                (),
                _,
            >(EscrowError::Overflow),
            amount > 0 && fund_can_add(old(self)@.insurance_fund, amount as int) ==> r is Ok,
            r is Err ==> final(self)@ == old(self)@ && final(env)@ == old(env)@,
            r is Ok ==> final(self)@ == (EscrowState {
                insurance_fund: Some(fund_added(old(self)@.insurance_fund, amount as int)),
                ..old(self)@
            }) && final(env)@ == old(env)@.emit(
                Event::InsuranceContributed(InsuranceContributed { amount }),
            ),
    {
        if amount <= 0 {
            return Err(EscrowError::InvalidAmount);
        }
        match Self::fund_plus(self.insurance_fund, amount) {
            Some(f) => {
                self.insurance_fund = Some(f);
                env.emit(Event::InsuranceContributed(InsuranceContributed { amount }));
                Ok(())
            },
            None => Err(EscrowError::Overflow),
        }
    }

    /// Pays `amount` of `asset` from the insurance fund to `claimant`.
    pub fn claim_insurance(&mut self, env: &mut Env, claimant: Address, amount: i128, asset: Address) -> (r: Result<(), EscrowError>)
        ensures
            old(self)@.admin is None ==> r == Err::<(), _>(EscrowError::NotInitialized),
            old(self)@.admin is Some && old(self)@.insurance_fund is None ==> r == Err::<(), _>(
                EscrowError::NotInitialized,
            ),
            old(self)@.admin is Some && old(self)@.insurance_fund is Some && amount
                > old(self)@.insurance_fund->0.balance ==> r == Err::<(), _>(
                EscrowError::InsuranceInsufficient,
            ),
            old(self)@.admin is Some && old(self)@.insurance_fund is Some && amount
                <= old(self)@.insurance_fund->0.balance && !(fits_i128(
                old(self)@.insurance_fund->0.balance - amount,
            ) && fits_i128(old(self)@.insurance_fund->0.total_paid_out + amount)) ==> r == Err::<
                (),
                _,
            >(EscrowError::Overflow),
            old(self)@.admin is Some && old(self)@.insurance_fund is Some && amount
                <= old(self)@.insurance_fund->0.balance && fits_i128(
                old(self)@.insurance_fund->0.balance - amount,
            ) && fits_i128(old(self)@.insurance_fund->0.total_paid_out + amount) ==> r is Ok,
            r is Err ==> final(self)@ == old(self)@ && final(env)@ == old(env)@,
            r is Ok ==> {
                let f = old(self)@.insurance_fund->0;
                &&& final(self)@ == (EscrowState {
                    insurance_fund: Some(
                        InsuranceFund {
                            balance: (f.balance - amount) as i128,
                            total_paid_out: (f.total_paid_out + amount) as i128,
                            ..f
                        },
                    ),
                    ..old(self)@
                })
                &&& final(env)@ == old(env)@.pay(
                    Transfer { asset, from: old(self)@.address, to: claimant, amount },
                ).emit(Event::InsuranceClaimed(InsuranceClaimed { claimant, amount }))
            },
    {
        if self.admin.is_none() {
            return Err(EscrowError::NotInitialized);
        }
        let mut fund = match self.insurance_fund {
            Some(f) => f,
            None => return Err(EscrowError::NotInitialized),
        };
        if amount > fund.balance {
            return Err(EscrowError::InsuranceInsufficient);
        }
        fund.balance = match fund.balance.checked_sub(amount) {
            Some(v) => v,
            None => return Err(EscrowError::Overflow),
        };
        fund.total_paid_out = match fund.total_paid_out.checked_add(amount) {
            Some(v) => v,
            None => return Err(EscrowError::Overflow),
        };
        self.insurance_fund = Some(fund);
        env.pay(asset, self.address, claimant, amount);
        env.emit(Event::InsuranceClaimed(InsuranceClaimed { claimant, amount }));
        Ok(())
    }

    // ── Fee routing ──────────────────────────────────────────────────────

    /// Takes a deposit of `gross_amount` into a pool: the module fee goes to
    /// the treasury and the insurance fund, the rest into the pool. Returns
    /// what reached the pool.
    pub fn route_deposit(
        &mut self,
        env: &mut Env,
        payer: Address,
        pool_id: BytesN32,
        gross_amount: i128,
        asset: Address,
        sub_type: SubType,
    ) -> (r: Result<i128, EscrowError>)
        ensures
            r == old(self)@.route_deposit_result(pool_id, gross_amount, sub_type),
            r is Err ==> final(self)@ == old(self)@ && final(env)@ == old(env)@,
            r matches Ok(net) ==> {
                let c = old(self)@.fee_config->0;
                let treasury = old(self)@.treasury->0;
                let fee = fee_bps_spec(gross_amount as int, c.fee_bps(sub_type) as int)->0;
                let ins = fee_bps_spec(fee, c.insurance_cut_bps as int)->0;
                let tcut = fee - ins;
                let p = old(self)@.pools[pool_id];
                let me = old(self)@.address;
                &&& net == gross_amount - fee
                &&& final(self)@ == (EscrowState {
                    insurance_fund: if ins > 0 {
                        Some(fund_added(old(self)@.insurance_fund, ins))
                    } else {
                        old(self)@.insurance_fund
                    },
                    pools: old(self)@.pools.insert(
                        pool_id,
                        EscrowPool { total_deposited: (p.total_deposited + net) as i128, ..p },
                    ),
                    fee_records: old(self)@.fee_records.insert(
                        pool_id,
                        FeeRecord {
                            pool_id,
                            sub_type,
                            gross_amount,
                            fee_amount: fee as i128,
                            treasury_cut: tcut as i128,
                            insurance_cut: ins as i128,
                            net_to_escrow: net,
                            timestamp: old(env)@.timestamp,
                            payer,
                        },
                    ),
                    ..old(self)@
                })
                &&& final(env)@ == pay_if_positive(
                    pay_if_positive(
                        pay_if_positive(old(env)@, asset, payer, me, net as int),
                        asset,
                        payer,
                        treasury,
                        tcut,
                    ),
                    asset,
                    payer,
                    me,
                    ins,
                ).emit(
                    Event::FeeCharged(
                        FeeCharged {
                            pool_id,
                            sub_type,
                            gross: gross_amount,
                            fee: fee as i128,
                            treasury_cut: tcut as i128,
                            insurance_cut: ins as i128,
                            net,
                        },
                    ),
                )
            },
    {
        if self.routing_paused == Some(true) {
            return Err(EscrowError::RoutingPaused);
        }
        if gross_amount <= 0 {
            return Err(EscrowError::InvalidAmount);
        }
        let config = match self.fee_config {
            Some(c) => c,
            None => return Err(EscrowError::NotInitialized),
        };
        let treasury = match self.treasury {
            Some(t) => t,
            None => return Err(EscrowError::NotInitialized),
        };
        let fee_bps = config.get_fee_bps(&sub_type);
        let fee = match calculate_fee_bps(gross_amount, fee_bps) {
            Some(f) => f,
            None => return Err(EscrowError::Overflow),
        };
        let (treasury_cut, insurance_cut) = match split_fee(fee, config.insurance_cut_bps) {
            Some(x) => x,
            None => return Err(EscrowError::Overflow),
        };
        let net = match gross_amount.checked_sub(fee) {
            Some(v) => v,
            None => return Err(EscrowError::Overflow),
        };
        let new_fund = if insurance_cut > 0 {
            match Self::fund_plus(self.insurance_fund, insurance_cut) {
                Some(f) => Some(f),
                None => return Err(EscrowError::Overflow),
            }
        } else {
            self.insurance_fund
        };
        let mut pool = match self.pools.get(&pool_id) {
            Some(p) => *p,
            None => return Err(EscrowError::PoolNotFound),
        };
        pool.total_deposited = match pool.total_deposited.checked_add(net) {
            Some(v) => v,
            None => return Err(EscrowError::Overflow),
        };
        if net > 0 {
            env.pay(asset, payer, self.address, net);
        }
        if treasury_cut > 0 {
            env.pay(asset, payer, treasury, treasury_cut);
        }
        if insurance_cut > 0 {
            env.pay(asset, payer, self.address, insurance_cut);
        }
        self.insurance_fund = new_fund;
        self.pools.insert(pool_id, pool);
        let record = FeeRecord {
            pool_id,
            sub_type,
            gross_amount,
            fee_amount: fee,
            treasury_cut,
            insurance_cut,
            net_to_escrow: net,
            timestamp: env.timestamp,
            payer,
        };
        self.fee_records.insert(pool_id, record);
        env.emit(
            Event::FeeCharged(
                FeeCharged {
                    pool_id,
                    sub_type,
                    gross: gross_amount,
                    fee,
                    treasury_cut,
                    insurance_cut,
                    net,
                },
            ),
        );
        Ok(net)
    }

    /// Takes a pledge of `pledge_amount` into a crowdfund pool with the fee
    /// charged on top: the backer pays the pledge plus the fee, the pool
    /// receives the whole pledge. Returns the pledge.
    pub fn route_pledge(
        &mut self,
        env: &mut Env,
        backer: Address,
        pool_id: BytesN32,
        pledge_amount: i128,
        asset: Address,
    ) -> (r: Result<i128, EscrowError>)
        ensures
            r == old(self)@.route_pledge_result(pool_id, pledge_amount),
            r is Err ==> final(self)@ == old(self)@ && final(env)@ == old(env)@,
            r is Ok ==> final(self)@ == old(self)@.pledged(pool_id, pledge_amount)
                && final(env)@ == old(self)@.pledge_env(old(env)@, backer, pool_id, pledge_amount, asset),
    {
        if self.routing_paused == Some(true) {
            return Err(EscrowError::RoutingPaused);
        }
        if pledge_amount <= 0 {
            return Err(EscrowError::InvalidAmount);
        }
        let config = match self.fee_config {
            Some(c) => c,
            None => return Err(EscrowError::NotInitialized),
        };
        let treasury = match self.treasury {
            Some(t) => t,
            None => return Err(EscrowError::NotInitialized),
        };
        let fee = match calculate_fee_bps(pledge_amount, config.crowdfund_fee_bps) {
            Some(f) => f,
            None => return Err(EscrowError::Overflow),
        };
        let (treasury_cut, insurance_cut) = match split_fee(fee, config.insurance_cut_bps) {
            Some(x) => x,
            None => return Err(EscrowError::Overflow),
        };
        let new_fund = if insurance_cut > 0 {
            match Self::fund_plus(self.insurance_fund, insurance_cut) {
                Some(f) => Some(f),
                None => return Err(EscrowError::Overflow),
            }
        } else {
            self.insurance_fund
        };
        let mut pool = match self.pools.get(&pool_id) {
            Some(p) => *p,
            None => return Err(EscrowError::PoolNotFound),
        };
        pool.total_deposited = match pool.total_deposited.checked_add(pledge_amount) {
            Some(v) => v,
            None => return Err(EscrowError::Overflow),
        };
        let gross = match pledge_amount.checked_add(fee) {
            Some(v) => v,
            None => return Err(EscrowError::Overflow),
        };
        env.pay(asset, backer, self.address, pledge_amount);
        if treasury_cut > 0 {
            env.pay(asset, backer, treasury, treasury_cut);
        }
        if insurance_cut > 0 {
            env.pay(asset, backer, self.address, insurance_cut);
        }
        self.insurance_fund = new_fund;
        self.pools.insert(pool_id, pool);
        env.emit(
            Event::FeeCharged(
                FeeCharged {
                    pool_id,
                    sub_type: SubType::CrowdfundPledge,
                    gross,
                    fee,
                    treasury_cut,
                    insurance_cut,
                    net: pledge_amount,
                },
            ),
        );
        Ok(pledge_amount)
    }

}

impl CoreEscrow {

}

impl EscrowState {
    /// The storage after `create_pool` opened pool `pid`.
    pub open spec fn pool_created(
        self,
        pid: BytesN32,
        owner: Address,
        module: ModuleType,
        total_amount: i128,
        asset: Address,
        expires_at: u64,
        authorized_caller: Address,
        now: u64,
    ) -> EscrowState {
        EscrowState {
            pools: self.pools.insert(
                pid,
                EscrowPool {
                    pool_id: pid,
                    module,
                    authorized_caller,
                    owner,
                    total_deposited: total_amount,
                    total_released: 0,
                    total_refunded: 0,
                    asset,
                    locked: false,
                    created_at: now,
                    expires_at,
                },
            ),
            ..self
        }
    }

    /// What `release_partial` returns on this state.
    pub open spec fn release_partial_result(self, pool_id: BytesN32, amount: i128) -> Result<(), EscrowError> {
        if amount <= 0 {
            Err(EscrowError::InvalidAmount)
        } else if !self.pools.contains_key(pool_id) {
            Err(EscrowError::PoolNotFound)
        } else if checked_unreleased(self.pools[pool_id]) is None {
            Err(EscrowError::Overflow)
        } else if amount > unreleased(self.pools[pool_id]) {
            Err(EscrowError::InsufficientFunds)
        } else if !fits_i128(self.pools[pool_id].total_released + amount) {
            Err(EscrowError::Overflow)
        } else {
            Ok(())
        }
    }

    /// The storage after a successful `release_partial`.
    pub open spec fn released_partially(self, pool_id: BytesN32, amount: i128) -> EscrowState {
        let p = self.pools[pool_id];
        EscrowState {
            pools: self.pools.insert(
                pool_id,
                EscrowPool { total_released: (p.total_released + amount) as i128, ..p },
            ),
            ..self
        }
    }

    /// The context after a successful `release_partial`.
    pub open spec fn release_partial_env(self, e: EnvState, pool_id: BytesN32, recipient: Address, amount: i128) -> EnvState {
        let p = self.pools[pool_id];
        e.pay(Transfer { asset: p.asset, from: self.address, to: recipient, amount }).emit(
            Event::SlotReleased(SlotReleased { pool_id, slot_index: u32::MAX, recipient, amount }),
        )
    }

    /// What `refund_all` returns on this state.
    pub open spec fn refund_all_result(self, pool_id: BytesN32) -> Result<(), EscrowError> {
        if !self.pools.contains_key(pool_id) {
            Err(EscrowError::PoolNotFound)
        } else if checked_unreleased(self.pools[pool_id]) is None {
            Err(EscrowError::Overflow)
        } else if unreleased(self.pools[pool_id]) > 0 && !fits_i128(
            self.pools[pool_id].total_refunded + unreleased(self.pools[pool_id]),
        ) {
            Err(EscrowError::Overflow)
        } else {
            Ok(())
        }
    }

    /// The storage after a successful `refund_all`.
    pub open spec fn refunded_all(self, pool_id: BytesN32) -> EscrowState {
        let p = self.pools[pool_id];
        if unreleased(p) > 0 {
            EscrowState {
                pools: self.pools.insert(
                    pool_id,
                    EscrowPool { total_refunded: (p.total_refunded + unreleased(p)) as i128, ..p },
                ),
                ..self
            }
        } else {
            self
        }
    }

    /// The context after a successful `refund_all`.
    pub open spec fn refund_all_env(self, e: EnvState, pool_id: BytesN32) -> EnvState {
        let p = self.pools[pool_id];
        if unreleased(p) > 0 {
            e.pay(
                Transfer { asset: p.asset, from: self.address, to: p.owner, amount: unreleased(p) as i128 },
            ).emit(
                Event::Refunded(Refunded { pool_id, recipient: p.owner, amount: unreleased(p) as i128 }),
            )
        } else {
            e
        }
    }

    /// What `route_deposit` returns on this state.
    pub open spec fn route_deposit_result(self, pool_id: BytesN32, gross_amount: i128, sub_type: SubType) -> Result<i128, EscrowError> {
        let c = self.fee_config->0;
        let fee = fee_bps_spec(gross_amount as int, c.fee_bps(sub_type) as int);
        let ins = fee_bps_spec(fee->0, c.insurance_cut_bps as int);
        if self.routing_paused == Some(true) {
            Err(EscrowError::RoutingPaused)
        } else if gross_amount <= 0 {
            Err(EscrowError::InvalidAmount)
        } else if self.fee_config is None || self.treasury is None {
            Err(EscrowError::NotInitialized)
        } else if fee is None || ins is None || !fits_i128(fee->0 - ins->0) || !fits_i128(
            gross_amount - fee->0,
        ) {
            Err(EscrowError::Overflow)
        } else if ins->0 > 0 && !fund_can_add(self.insurance_fund, ins->0) {
            Err(EscrowError::Overflow)
        } else if !self.pools.contains_key(pool_id) {
            Err(EscrowError::PoolNotFound)
        } else if !fits_i128(self.pools[pool_id].total_deposited + (gross_amount - fee->0)) {
            Err(EscrowError::Overflow)
        } else {
            Ok((gross_amount - fee->0) as i128)
        }
    }

    /// What `route_pledge` returns on this state.
    pub open spec fn route_pledge_result(self, pool_id: BytesN32, pledge_amount: i128) -> Result<i128, EscrowError> {
        let c = self.fee_config->0;
        let fee = fee_bps_spec(pledge_amount as int, c.crowdfund_fee_bps as int);
        let ins = fee_bps_spec(fee->0, c.insurance_cut_bps as int);
        if self.routing_paused == Some(true) {
            Err(EscrowError::RoutingPaused)
        } else if pledge_amount <= 0 {
            Err(EscrowError::InvalidAmount)
        } else if self.fee_config is None || self.treasury is None {
            Err(EscrowError::NotInitialized)
        } else if fee is None || ins is None || !fits_i128(fee->0 - ins->0) {
            Err(EscrowError::Overflow)
        } else if ins->0 > 0 && !fund_can_add(self.insurance_fund, ins->0) {
            Err(EscrowError::Overflow)
        } else if !self.pools.contains_key(pool_id) {
            Err(EscrowError::PoolNotFound)
        } else if !fits_i128(self.pools[pool_id].total_deposited + pledge_amount) || !fits_i128(
            pledge_amount + fee->0,
        ) {
            Err(EscrowError::Overflow)
        } else {
            Ok(pledge_amount)
        }
    }

    /// The fee charged on top of a pledge.
    pub open spec fn pledge_fee(self, pledge_amount: i128) -> int {
        fee_bps_spec(pledge_amount as int, self.fee_config->0.crowdfund_fee_bps as int)->0
    }

    /// The insurance share of the fee charged on top of a pledge.
    pub open spec fn pledge_insurance_cut(self, pledge_amount: i128) -> int {
        fee_bps_spec(self.pledge_fee(pledge_amount), self.fee_config->0.insurance_cut_bps as int)->0
    }

    /// The storage after a successful `route_pledge`.
    pub open spec fn pledged(self, pool_id: BytesN32, pledge_amount: i128) -> EscrowState {
        let ins = self.pledge_insurance_cut(pledge_amount);
        let p = self.pools[pool_id];
        EscrowState {
            insurance_fund: if ins > 0 {
                Some(fund_added(self.insurance_fund, ins))
            } else {
                self.insurance_fund
            },
            pools: self.pools.insert(
                pool_id,
                EscrowPool { total_deposited: (p.total_deposited + pledge_amount) as i128, ..p },
            ),
            ..self
        }
    }

    /// The context after a successful `route_pledge`.
    pub open spec fn pledge_env(self, e: EnvState, backer: Address, pool_id: BytesN32, pledge_amount: i128, asset: Address) -> EnvState {
        let fee = self.pledge_fee(pledge_amount);
        let ins = self.pledge_insurance_cut(pledge_amount);
        let me = self.address;
        pay_if_positive(
            pay_if_positive(
                e.pay(Transfer { asset, from: backer, to: me, amount: pledge_amount }),
                asset,
                backer,
                self.treasury->0,
                fee - ins,
            ),
            asset,
            backer,
            me,
            ins,
        ).emit(
            Event::FeeCharged(
                FeeCharged {
                    pool_id,
                    sub_type: SubType::CrowdfundPledge,
                    gross: (pledge_amount + fee) as i128,
                    fee: fee as i128,
                    treasury_cut: (fee - ins) as i128,
                    insurance_cut: ins as i128,
                    net: pledge_amount,
                },
            ),
        )
    }

    /// Whether some pool has the id derived from `module` and `module_id`.
    pub open spec fn has_pool_for(self, module: ModuleType, module_id: u64) -> bool {
        exists|p: BytesN32| #[trigger] self.pools.contains_key(p) && p.bytes@ == pool_id_spec(module, module_id)
    }

    /// The error `create_pool` fails with; `Overflow`, which it never returns, where it succeeds.
    pub open spec fn create_pool_error(self, module: ModuleType, module_id: u64, total_amount: i128) -> Result<BytesN32, EscrowError> {
        if total_amount < 0 {
            Err(EscrowError::InvalidAmount)
        } else if self.has_pool_for(module, module_id) {
            Err(EscrowError::PoolAlreadyExists)
        } else {
            Err(EscrowError::Overflow)
        }
    }

    /// The context after `create_pool` opened pool `pid`.
    pub open spec fn create_pool_env(self, e: EnvState, pid: BytesN32, owner: Address, module: ModuleType, total_amount: i128, asset: Address) -> EnvState {
        pay_if_positive(e, asset, owner, self.address, total_amount as int).emit(
            Event::PoolCreated(PoolCreated { pool_id: pid, owner, module, total_amount }),
        )
    }

    /// What `lock_pool` returns.
    pub open spec fn lock_pool_result(self, pool_id: BytesN32) -> Result<(), EscrowError> {
        if !self.pools.contains_key(pool_id) {
            Err(EscrowError::PoolNotFound)
        } else if self.pools[pool_id].locked {
            Err(EscrowError::PoolLocked)
        } else {
            Ok(())
        }
    }

    /// The storage after `lock_pool`.
    pub open spec fn pool_locked(self, pool_id: BytesN32) -> EscrowState {
        EscrowState {
            pools: self.pools.insert(pool_id, EscrowPool { locked: true, ..self.pools[pool_id] }),
            ..self
        }
    }

    /// What `define_release_slots` returns.
    pub open spec fn define_slots_result(self, pool_id: BytesN32, s: Seq<(Address, i128)>) -> Result<(), EscrowError> {
        if !self.pools.contains_key(pool_id) {
            Err(EscrowError::PoolNotFound)
        } else if !running_sums_fit(0, s) {
            Err(EscrowError::Overflow)
        } else if amounts_total(s) > self.pools[pool_id].total_deposited {
            Err(EscrowError::SlotsExceedDeposit)
        } else {
            Ok(())
        }
    }

    /// The storage after `define_release_slots`.
    pub open spec fn slots_defined(self, pool_id: BytesN32, s: Seq<(Address, i128)>) -> EscrowState {
        EscrowState {
            slots: slots_written(self.slots, pool_id, s),
            slot_counts: self.slot_counts.insert(pool_id, s.len() as u32),
            ..self
        }
    }

    /// What `release_slot` returns.
    pub open spec fn release_slot_result(self, pool_id: BytesN32, idx: u32) -> Result<(), EscrowError> {
        if !self.pools.contains_key(pool_id) {
            Err(EscrowError::PoolNotFound)
        } else if !self.slots.contains_key((pool_id, idx)) {
            Err(EscrowError::SlotNotFound)
        } else if self.slots[(pool_id, idx)].released {
            Err(EscrowError::SlotAlreadyReleased)
        } else if !fits_i128(self.pools[pool_id].total_released + self.slots[(pool_id, idx)].amount) {
            Err(EscrowError::Overflow)
        } else {
            Ok(())
        }
    }

    /// The storage after `release_slot`.
    pub open spec fn slot_released(self, pool_id: BytesN32, idx: u32, now: u64) -> EscrowState {
        let p = self.pools[pool_id];
        let sl = self.slots[(pool_id, idx)];
        EscrowState {
            pools: self.pools.insert(
                pool_id,
                EscrowPool { total_released: (p.total_released + sl.amount) as i128, ..p },
            ),
            slots: self.slots.insert(
                (pool_id, idx),
                ReleaseSlot { released: true, released_at: Some(now), ..sl },
            ),
            ..self
        }
    }

    /// The context after `release_slot`.
    pub open spec fn release_slot_env(self, e: EnvState, pool_id: BytesN32, idx: u32) -> EnvState {
        let p = self.pools[pool_id];
        let sl = self.slots[(pool_id, idx)];
        e.pay(Transfer { asset: p.asset, from: self.address, to: sl.recipient, amount: sl.amount }).emit(
            Event::SlotReleased(
                SlotReleased { pool_id, slot_index: idx, recipient: sl.recipient, amount: sl.amount },
            ),
        )
    }
}

/// `e` with a transfer of `amount` recorded when it is positive.
pub open spec fn pay_if_positive(e: EnvState, asset: Address, from: Address, to: Address, amount: int) -> EnvState {
    if amount > 0 {
        e.pay(Transfer { asset, from, to, amount: amount as i128 })
    } else {
        e
    }
}

/// The positive entries of a prefix are a prefix of the positive entries.
proof fn lemma_positive_prefix(s: Seq<(Address, i128)>, j: int)
    requires
        0 <= j <= s.len(),
    ensures
        positive_entries(s.take(j)).len() <= positive_entries(s).len(),
        positive_entries(s).take(positive_entries(s.take(j)).len() as int) == positive_entries(s.take(j)),
    decreases s.len() - j,
{
    if j < s.len() {
        lemma_positive_prefix(s, j + 1);
        assert(s.take(j + 1) =~= s.take(j).push(s[j]));
        lemma_positive_push(s.take(j), s[j]);
        let a = positive_entries(s.take(j));
        let b = positive_entries(s.take(j + 1));
        assert(positive_entries(s).take(a.len() as int) =~= b.take(a.len() as int));
        assert(b.take(a.len() as int) =~= a);
    } else {
        assert(s.take(j) =~= s);
        assert(positive_entries(s).take(positive_entries(s).len() as int) =~= positive_entries(s));
    }
}

} // verus!
