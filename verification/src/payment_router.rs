//! The standalone payment router: takes the module fee from a deposit and
//! splits it between the treasury and the insurance fund.
use vstd::prelude::*;
use crate::core_escrow::{fund_added, fund_can_add, CoreEscrow, EscrowError, EscrowState, InsuranceContributed};
use crate::env::{Env, EnvState, Transfer};
use crate::events::Event;
use crate::math::{calculate_fee, calculate_net_amount, calculate_portions, fits_i128, trunc_div};
use crate::types::{Address, ModuleType};

verus! {

#[derive(Clone, Copy, PartialEq, Eq, Structural, Debug)]
pub enum Error {
    AlreadyInitialized,
    NotInitialized,
    RateExceedsLimit,
    TreasuryNotSet,
    EscrowNotSet,
    /// The escrow contract refused the insurance contribution.
    Escrow(EscrowError),
}

// ── Events ─────────────────────────────────────────────────────────────────

#[derive(Clone, Copy, PartialEq, Eq, Structural, Debug)]
pub struct FeeRateSet {
    pub module: ModuleType,
    pub rate_bps: u32,
}

#[derive(Clone, Copy, PartialEq, Eq, Structural, Debug)]
pub struct DepositRouted {
    pub payer: Address,
    pub module: ModuleType,
    pub amount: i128,
    pub fee: i128,
}


/// The share of every fee that goes to the insurance fund, in basis points: 5%.
pub const INSURANCE_SHARE_BPS: u32 = 500;

/// The payment router's storage.
pub struct PaymentRouter {
    /// This contract's own address.
    pub address: Address,
    pub admin: Option<Address>,
    pub treasury: Option<Address>,
    pub core_escrow: Option<Address>,
    pub bounty_fee: Option<u32>,
    pub crowdfund_fee: Option<u32>,
    pub grant_fee: Option<u32>,
    pub hackathon_fee: Option<u32>,
}

/// The mathematical content of the router's storage.
pub ghost struct RouterState {
    pub address: Address,
    pub admin: Option<Address>,
    pub treasury: Option<Address>,
    pub core_escrow: Option<Address>,
    pub bounty_fee: Option<u32>,
    pub crowdfund_fee: Option<u32>,
    pub grant_fee: Option<u32>,
    pub hackathon_fee: Option<u32>,
}

impl View for PaymentRouter {
    type V = RouterState;

    open spec fn view(&self) -> RouterState {
        RouterState {
            address: self.address,
            admin: self.admin,
            treasury: self.treasury,
            core_escrow: self.core_escrow,
            bounty_fee: self.bounty_fee,
            crowdfund_fee: self.crowdfund_fee,
            grant_fee: self.grant_fee,
            hackathon_fee: self.hackathon_fee,
        }
    }
}

impl RouterState {
    /// The fee rate stored for `module`, if any.
    pub open spec fn stored_rate(self, module: ModuleType) -> Option<u32> {
        match module {
            ModuleType::Bounty => self.bounty_fee,
            ModuleType::Crowdfund => self.crowdfund_fee,
            ModuleType::Grant => self.grant_fee,
            ModuleType::Hackathon => self.hackathon_fee,
        }
    }

    /// The fee rate of `module`: zero where none is set.
    pub open spec fn rate(self, module: ModuleType) -> u32 {
        match self.stored_rate(module) {
            Some(r) => r,
            None => 0,
        }
    }

    /// The storage with the fee rate of `module` set to `rate`.
    pub open spec fn with_rate(self, module: ModuleType, rate: u32) -> RouterState {
        match module {
            ModuleType::Bounty => RouterState { bounty_fee: Some(rate), ..self },
            ModuleType::Crowdfund => RouterState { crowdfund_fee: Some(rate), ..self },
            ModuleType::Grant => RouterState { grant_fee: Some(rate), ..self },
            ModuleType::Hackathon => RouterState { hackathon_fee: Some(rate), ..self },
        }
    }

    /// The fee taken from a deposit of `gross` to `module`.
    pub open spec fn fee_on(self, gross: i128, module: ModuleType) -> int {
        trunc_div(gross * self.rate(module), 10_000)
    }

    /// Whether routing a deposit of `gross` to `module` stays within `i128`.
    pub open spec fn route_fits(self, gross: i128, module: ModuleType) -> bool {
        let fee = self.fee_on(gross, module);
        &&& fits_i128(gross * self.rate(module))
        &&& fits_i128(fee * INSURANCE_SHARE_BPS)
        &&& fits_i128(gross - fee)
    }

    /// What `route_deposit` returns.
    pub open spec fn route_result(self, escrow: EscrowState, gross: i128, module: ModuleType) -> Result<i128, Error> {
        let fee = self.fee_on(gross, module);
        let insurance = insurance_portion(fee);
        if fee <= 0 {
            Ok((gross - fee) as i128)
        } else if self.treasury is None {
            Err(Error::TreasuryNotSet)
        } else if self.core_escrow is None {
            Err(Error::EscrowNotSet)
        } else if insurance > 0 && !fund_can_add(escrow.insurance_fund, insurance) {
            Err(Error::Escrow(EscrowError::Overflow))
        } else {
            Ok((gross - fee) as i128)
        }
    }
}

/// The insurance share of a fee: 5% of it, rounded toward zero.
pub open spec fn insurance_portion(fee: int) -> int {
    trunc_div(fee * INSURANCE_SHARE_BPS, 10_000)
}

/// The context after a fee of `fee` was split: the treasury portion to the
/// treasury, the insurance portion to the escrow contract, each when positive.
pub open spec fn fee_split_env(e: EnvState, asset: Address, payer: Address, treasury: Address, escrow: Address, fee: int) -> EnvState {
    let ins = insurance_portion(fee);
    let tre = fee - ins;
    let e1 = if tre > 0 {
        e.pay(Transfer { asset, from: payer, to: treasury, amount: tre as i128 })
    } else {
        e
    };
    if ins > 0 {
        e1.pay(Transfer { asset, from: payer, to: escrow, amount: ins as i128 }).emit(
            Event::InsuranceContributed(InsuranceContributed { amount: ins as i128 }),
        )
    } else {
        e1
    }
}

impl PaymentRouter {
    /// A payment router at `address` with empty storage.
    pub fn new(address: Address) -> (c: PaymentRouter)
        ensures
            c@ == (RouterState {
                address,
                admin: None,
                treasury: None,
                core_escrow: None,
                bounty_fee: None,
                crowdfund_fee: None,
                grant_fee: None,
                hackathon_fee: None,
            }),
    {
        PaymentRouter {
            address,
            admin: None,
            treasury: None,
            core_escrow: None,
            bounty_fee: None,
            crowdfund_fee: None,
            grant_fee: None,
            hackathon_fee: None,
        }
    }

    /// Sets up the router with the default fees: 5% on bounties and
    /// crowdfunding, 3% on grants, 4% on hackathons.
    pub fn init_payment_router(&mut self, admin: Address, treasury: Address, core_escrow: Address) -> (r: Result<(), Error>)
        ensures
            old(self)@.admin is Some ==> r == Err::<(), _>(Error::AlreadyInitialized) && final(self)@ == old(self)@,
            old(self)@.admin is None ==> r is Ok && final(self)@ == (RouterState {
                admin: Some(admin),
                treasury: Some(treasury),
                core_escrow: Some(core_escrow),
                bounty_fee: Some(500),
                crowdfund_fee: Some(500),
                grant_fee: Some(300),
                hackathon_fee: Some(400),
                ..old(self)@
            }),
    {
        if self.admin.is_some() {
            return Err(Error::AlreadyInitialized);
        }
        self.admin = Some(admin);
        self.treasury = Some(treasury);
        self.core_escrow = Some(core_escrow);
        self.bounty_fee = Some(500);
        self.crowdfund_fee = Some(500);
        self.grant_fee = Some(300);
        self.hackathon_fee = Some(400);
        Ok(())
    }

    /// The admin sets the fee rate of a module, at most 100%.
    pub fn set_fee_rate(&mut self, env: &mut Env, module: ModuleType, rate_bps: u32) -> (r: Result<(), Error>)
        ensures
            r == if old(self)@.admin is None {
                Err(Error::NotInitialized)
            } else if rate_bps > 10000 {
                Err(Error::RateExceedsLimit)
            } else {
                Ok(())
            },
            r is Err ==> final(self)@ == old(self)@ && final(env)@ == old(env)@,
            r is Ok ==> final(self)@ == old(self)@.with_rate(module, rate_bps) && final(env)@ == old(env)@.emit(
                Event::FeeRateSet(FeeRateSet { module, rate_bps }),
            ),
    {
        if self.admin.is_none() {
            return Err(Error::NotInitialized);
        }
        if rate_bps > 10000 {
            return Err(Error::RateExceedsLimit);
        }
        match module {
            ModuleType::Bounty => self.bounty_fee = Some(rate_bps),
            ModuleType::Crowdfund => self.crowdfund_fee = Some(rate_bps),
            ModuleType::Grant => self.grant_fee = Some(rate_bps),
            ModuleType::Hackathon => self.hackathon_fee = Some(rate_bps),
        }
        env.emit(Event::FeeRateSet(FeeRateSet { module, rate_bps }));
        Ok(())
    }

    /// Takes the module's fee from a deposit of `gross_amount` paid by
    /// `payer`: 5% of the fee goes to the insurance fund in escrow, the rest to
    /// the treasury. Returns what remains of the deposit.
    pub fn route_deposit(
        &self,
        env: &mut Env,
        escrow: &mut CoreEscrow,
        payer: Address,
        gross_amount: i128,
        asset: Address,
        module: ModuleType,
    ) -> (r: Result<i128, Error>)
        requires
            self@.route_fits(gross_amount, module),
            self@.core_escrow matches Some(a) ==> old(escrow)@.address == a,
        ensures
            ({
                let fee = self@.fee_on(gross_amount, module);
                let ins = insurance_portion(fee);
                let routed = Event::DepositRouted(
                    DepositRouted { payer, module, amount: gross_amount, fee: fee as i128 },
                );
                &&& r == self@.route_result(old(escrow)@, gross_amount, module)
                &&& r is Err ==> final(escrow)@ == old(escrow)@ && final(env)@ == old(env)@
                &&& r is Ok && fee <= 0 ==> final(escrow)@ == old(escrow)@ && final(env)@ == old(env)@.emit(routed)
                &&& r is Ok && fee > 0 ==> final(escrow)@ == (if ins > 0 {
                    EscrowState {
                        insurance_fund: Some(fund_added(old(escrow)@.insurance_fund, ins)),
                        ..old(escrow)@
                    }
                } else {
                    old(escrow)@
                }) && final(env)@ == fee_split_env(
                    old(env)@,
                    asset,
                    payer,
                    self@.treasury->0,
                    self@.core_escrow->0,
                    fee,
                ).emit(routed)
            }),
    {
        let rate: u32 = match module {
            ModuleType::Bounty => self.bounty_fee,
            ModuleType::Crowdfund => self.crowdfund_fee,
            ModuleType::Grant => self.grant_fee,
            ModuleType::Hackathon => self.hackathon_fee,
        }.unwrap_or(0);
        let total_fee = calculate_fee(gross_amount, rate);
        if total_fee > 0 {
            let (insurance, treasury_portion) = calculate_portions(total_fee, INSURANCE_SHARE_BPS);
            let treasury = match self.treasury {
                Some(t) => t,
                None => return Err(Error::TreasuryNotSet),
            };
            let core_escrow = match self.core_escrow {
                Some(e) => e,
                None => return Err(Error::EscrowNotSet),
            };
            let m = env.mark();
            if treasury_portion > 0 {
                env.pay(asset, payer, treasury, treasury_portion);
            }
            if insurance > 0 {
                env.pay(asset, payer, core_escrow, insurance);
                match escrow.contribute_insurance(env, insurance) {
                    Ok(()) => {},
                    Err(e) => {
                        env.rollback(m);
                        assert(env@.transfers =~= old(env)@.transfers);
                        assert(env@.events =~= old(env)@.events);
                        return Err(Error::Escrow(e));
                    },
                }
            }
        }
        env.emit(Event::DepositRouted(DepositRouted { payer, module, amount: gross_amount, fee: total_fee }));
        Ok(calculate_net_amount(gross_amount, total_fee))
    }
}

} // verus!
