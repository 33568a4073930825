//! The contract's state, its administration and its read-only calls.

use vstd::prelude::*;

use crate::address::Address;
use crate::bps::{scaled_div, BPS_DENOM};
use crate::error::InsuranceError;
use crate::pricing::PremiumConfig;
use crate::state::ReserveState;
#[allow(unused_imports)]
use crate::state::{answer, coverage_ratio, state_after, top_up};
use crate::table::{Table, TableKey};
use crate::types::{
    ClaimHistoryItem, ClaimSlot, Config, CoverageRecord, Event, Funding, ReserveFund,
    ReserveHealth, Transfer,
};

verus! {

/// The stored state of the contract.
///
/// A call reads and writes only the entries of the token and the invoice that it names, so a
/// value that holds just those entries decides the call as the full state would. The addresses
/// that act in a call (`admin`, `payer`) are taken as authenticated by the chain.
#[derive(Debug)]
pub struct InsuranceReserve {
    pub config: Option<Config>,
    pub credit_score_contract: Option<Address>,
    pub premium_config: Option<PremiumConfig>,
    pub paused: bool,
    /// Up while a call is moving tokens.
    pub reentrancy_guard: bool,
    pub reserves: Table<Address, ReserveFund>,
    pub coverage: Table<u64, CoverageRecord>,
    /// Number of claim history entries of each invoice.
    pub claim_counts: Table<u64, u32>,
    pub claim_entries: Table<ClaimSlot, ClaimHistoryItem>,
    /// Minimum reserve of each token, below which a top-up is flagged.
    pub min_reserves: Table<Address, i128>,
}

impl View for InsuranceReserve {
    type V = ReserveState;

    open spec fn view(&self) -> ReserveState {
        ReserveState {
            config: self.config,
            credit_score_contract: self.credit_score_contract,
            premium_config: match self.premium_config {
                Some(config) => Some(config@),
                None => None,
            },
            paused: self.paused,
            reentrancy_guard: self.reentrancy_guard,
            reserves: self.reserves@,
            coverage: self.coverage@,
            claim_counts: self.claim_counts@,
            claim_entries: self.claim_entries@,
            min_reserves: self.min_reserves@,
        }
    }
}

impl Default for InsuranceReserve {
    /// A contract that has not been set up.
    fn default() -> (r: Self)
        ensures
            r@ == ReserveState::empty(),
    {
        InsuranceReserve {
            config: None,
            credit_score_contract: None,
            premium_config: None,
            paused: false,
            reentrancy_guard: false,
            reserves: Table::new(),
            coverage: Table::new(),
            claim_counts: Table::new(),
            claim_entries: Table::new(),
            min_reserves: Table::new(),
        }
    }
}

impl InsuranceReserve {
    /// Reserves as a fraction of exposure, in bps.
    pub fn ratio_bps(reserves: i128, exposure: i128) -> (r: u32)
        ensures
            r == coverage_ratio(reserves as int, exposure as int),
    {
        if exposure <= 0 {
            return BPS_DENOM;
        }
        let held: u128 = if reserves > 0 {
            reserves as u128
        } else {
            0
        };
        let backed: u128 = exposure as u128;
        let ghost scaled = held * BPS_DENOM;
        if held / backed > u32::MAX as u128 {
            proof {
                vstd::arithmetic::div_mod::lemma_div_is_ordered(
                    held as int,
                    scaled,
                    exposure as int,
                );
            }
            return u32::MAX;
        }
        let (ratio, rest): (u128, u128) = scaled_div(held, BPS_DENOM, backed);
        proof {
            vstd::arithmetic::div_mod::lemma_fundamental_div_mod_converse(
                scaled,
                exposure as int,
                ratio as int,
                rest as int,
            );
        }
        if ratio > u32::MAX as u128 {
            u32::MAX
        } else {
            ratio as u32
        }
    }

    /// Brings a fund's coverage ratio up to date.
    pub fn recompute_ratio(reserve: &mut ReserveFund)
        ensures
            *final(reserve) == old(reserve).with_ratio(),
    {
        reserve.coverage_ratio_bps =
        Self::ratio_bps(reserve.total_reserves, reserve.total_covered_exposure);
    }

    /// The fund of `token`.
    pub fn load_reserve(&self, token: Address) -> (r: ReserveFund)
        ensures
            r == self@.fund(token),
    {
        match self.reserves.get(token) {
            Some(fund) => fund,
            None => ReserveFund::default(),
        }
    }

    /// Refuses everyone but the administrator.
    pub fn require_admin(&self, admin: Address) -> (r: Result<(), InsuranceError>)
        ensures
            r == answer(self@.admin_refusal(admin), ()),
    {
        match &self.config {
            None => Err(InsuranceError::NotInitialized),
            Some(config) => if !admin.same(&config.admin) {
                Err(InsuranceError::Unauthorized)
            } else {
                Ok(())
            },
        }
    }

    /// Refuses a paused contract.
    pub fn require_not_paused(&self) -> (r: Result<(), InsuranceError>)
        ensures
            r == answer(
                if self@.paused {
                    Some(InsuranceError::ContractPaused)
                } else {
                    None
                },
                (),
            ),
    {
        if self.paused {
            Err(InsuranceError::ContractPaused)
        } else {
            Ok(())
        }
    }

    /// Refuses a call that comes in while another one is moving tokens.
    pub fn require_not_entered(&self) -> (r: Result<(), InsuranceError>)
        ensures
            r == answer(
                if self@.reentrancy_guard {
                    Some(InsuranceError::Unauthorized)
                } else {
                    None
                },
                (),
            ),
    {
        if self.reentrancy_guard {
            Err(InsuranceError::Unauthorized)
        } else {
            Ok(())
        }
    }

    /// Raises the guard against calls that come in while tokens move. A raised guard cannot be
    /// raised again: [`InsuranceReserve::require_not_entered`] refuses the call that would.
    pub fn non_reentrant_start(&mut self)
        requires
            !old(self)@.reentrancy_guard,
        ensures
            final(self)@ == old(self)@.entered(),
    {
        self.reentrancy_guard = true;
    }

    /// Lowers the guard.
    pub fn non_reentrant_end(&mut self)
        ensures
            final(self)@ == old(self)@.left(),
    {
        self.reentrancy_guard = false;
    }

    /// Sets the contract up, once.
    pub fn initialize(
        &mut self,
        admin: Address,
        pool_contract: Address,
        invoice_contract: Address,
    ) -> (r: Result<Event, InsuranceError>)
        ensures
            r == answer(
                old(self)@.initialize_refusal(),
                Event::Initialized { admin },
            ),
            final(self)@ == state_after(
                old(self)@.initialize_refusal(),
                old(self)@,
                old(self)@.initialized(Config { admin, pool_contract, invoice_contract }),
            ),
    {
        if self.config.is_some() {
            return Err(InsuranceError::AlreadyInitialized);
        }
        self.config = Some(Config { admin, pool_contract, invoice_contract });
        Ok(Event::Initialized { admin })
    }

    /// Adopts a pricing configuration.
    pub fn set_premium_config(&mut self, admin: Address, config: PremiumConfig) -> (r: Result<
        Event,
        InsuranceError,
    >)
        ensures
            r == answer(
                old(self)@.set_premium_config_refusal(admin, config@),
                Event::PremiumConfigSet { admin },
            ),
            final(self)@ == state_after(
                old(self)@.set_premium_config_refusal(admin, config@),
                old(self)@,
                old(self)@.with_premium_config(config@),
            ),
    {
        if let Err(e) = self.require_admin(admin) {
            return Err(e);
        }
        if config.max_premium_bps < config.min_premium_bps {
            return Err(InsuranceError::InvalidPremiumConfig);
        }
        if config.default_coverage_bps == 0 || config.default_coverage_bps > BPS_DENOM {
            return Err(InsuranceError::InvalidCoverageBps);
        }
        self.premium_config = Some(config);
        Ok(Event::PremiumConfigSet { admin })
    }

    /// The adopted pricing configuration.
    pub fn get_premium_config(&self) -> (r: Option<PremiumConfig>)
        ensures
            r is Some <==> self@.premium_config is Some,
            r matches Some(config) ==> self@.premium_config == Some(config@),
    {
        match &self.premium_config {
            Some(config) => Some(config.clone()),
            None => None,
        }
    }

    /// Sets the coverage ratio below which no new coverage in `token` is sold.
    pub fn set_min_coverage_ratio(
        &mut self,
        admin: Address,
        token: Address,
        min_ratio_bps: u32,
    ) -> (r: Result<Event, InsuranceError>)
        ensures
            r == answer(
                old(self)@.set_min_coverage_ratio_refusal(admin, min_ratio_bps),
                Event::MinCoverageRatioSet { admin, token, min_ratio_bps },
            ),
            final(self)@ == state_after(
                old(self)@.set_min_coverage_ratio_refusal(admin, min_ratio_bps),
                old(self)@,
                old(self)@.with_min_coverage_ratio(token, min_ratio_bps),
            ),
    {
        if let Err(e) = self.require_admin(admin) {
            return Err(e);
        }
        if min_ratio_bps > BPS_DENOM {
            return Err(InsuranceError::InvalidMinCoverageRatio);
        }
        let mut reserve = self.load_reserve(token);
        reserve.min_coverage_ratio_bps = min_ratio_bps;
        self.reserves.insert(token, reserve);
        Ok(Event::MinCoverageRatioSet { admin, token, min_ratio_bps })
    }

    /// Names the contract that is asked for credit scores.
    pub fn set_credit_score_contract(
        &mut self,
        admin: Address,
        credit_score_contract: Address,
    ) -> (r: Result<(), InsuranceError>)
        ensures
            r == answer(old(self)@.admin_refusal(admin), ()),
            final(self)@ == state_after(
                old(self)@.admin_refusal(admin),
                old(self)@,
                old(self)@.with_credit_score_contract(credit_score_contract),
            ),
    {
        if let Err(e) = self.require_admin(admin) {
            return Err(e);
        }
        self.credit_score_contract = Some(credit_score_contract);
        Ok(())
    }

    /// The contract that is asked for credit scores.
    pub fn get_credit_score_contract(&self) -> (r: Option<Address>)
        ensures
            r == self@.credit_score_contract,
    {
        self.credit_score_contract
    }

    /// Adds `amount` of the administrator's tokens to the reserve; `insurance` is the contract's
    /// own address.
    pub fn fund_reserve_from_treasury(
        &mut self,
        insurance: Address,
        admin: Address,
        token: Address,
        amount: i128,
    ) -> (r: Result<Funding, InsuranceError>)
        ensures
            r == answer(
                old(self)@.fund_refusal(admin, token, amount),
                top_up(insurance, admin, token, amount),
            ),
            final(self)@ == state_after(
                old(self)@.fund_refusal(admin, token, amount),
                old(self)@,
                old(self)@.funded(token, amount),
            ),
    {
        if let Err(e) = self.require_admin(admin) {
            return Err(e);
        }
        if amount <= 0 {
            return Err(InsuranceError::InvalidAmount);
        }
        if let Err(e) = self.require_not_entered() {
            return Err(e);
        }
        self.non_reentrant_start();
        let mut reserve = self.load_reserve(token);
        match reserve.total_reserves.checked_add(amount) {
            Some(total) => {
                reserve.total_reserves = total;
            },
            None => {
                self.non_reentrant_end();
                return Err(InsuranceError::AmountOverflow);
            },
        }
        Self::recompute_ratio(&mut reserve);
        self.reserves.insert(token, reserve);
        self.non_reentrant_end();
        Ok(
            Funding {
                transfer: Transfer { token, from: admin, to: insurance, amount },
                event: Event::ReserveFunded { admin, token, amount },
            },
        )
    }

    /// Stops the sale of coverage and the payment of claims.
    pub fn pause(&mut self, admin: Address) -> (r: Result<Event, InsuranceError>)
        ensures
            r == answer(old(self)@.admin_refusal(admin), Event::Paused { admin }),
            final(self)@ == state_after(
                old(self)@.admin_refusal(admin),
                old(self)@,
                old(self)@.with_paused(true),
            ),
    {
        if let Err(e) = self.require_admin(admin) {
            return Err(e);
        }
        self.paused = true;
        Ok(Event::Paused { admin })
    }

    /// Resumes the sale of coverage and the payment of claims.
    pub fn unpause(&mut self, admin: Address) -> (r: Result<Event, InsuranceError>)
        ensures
            r == answer(old(self)@.admin_refusal(admin), Event::Unpaused { admin }),
            final(self)@ == state_after(
                old(self)@.admin_refusal(admin),
                old(self)@,
                old(self)@.with_paused(false),
            ),
    {
        if let Err(e) = self.require_admin(admin) {
            return Err(e);
        }
        self.paused = false;
        Ok(Event::Unpaused { admin })
    }

    /// The state of `token`'s reserve.
    pub fn get_reserve_status(&self, token: Address) -> (r: ReserveFund)
        ensures
            r == self@.fund(token),
    {
        self.load_reserve(token)
    }

    /// The coverage bought for an invoice.
    pub fn get_coverage_record(&self, invoice_id: u64) -> (r: Option<CoverageRecord>)
        ensures
            r == self@.record(invoice_id),
    {
        self.coverage.get(invoice_id)
    }

    /// The full claim history of an invoice, oldest entry first.
    pub fn get_claim_history(&self, invoice_id: u64) -> (r: Vec<ClaimHistoryItem>)
        ensures
            r@ == self@.claim_history(invoice_id),
    {
        let count: u32 = self.get_claim_count(invoice_id);
        let mut items: Vec<ClaimHistoryItem> = Vec::new();
        let mut i: u32 = 0;
        while i < count
            invariant
                i <= count,
                items@ == self@.claims_up_to(invoice_id, i as nat),
            decreases count - i,
        {
            if let Some(item) = self.claim_entries.get(ClaimSlot { invoice_id, index: i }) {
                items.push(item);
            }
            i += 1;
        }
        items
    }

    /// How many claims have been paid on an invoice.
    pub fn get_claim_count(&self, invoice_id: u64) -> (r: u32)
        ensures
            r == self@.claim_count(invoice_id),
    {
        match self.claim_counts.get(invoice_id) {
            Some(count) => count,
            None => 0,
        }
    }

    /// Checks `token`'s reserve against its configured minimum, and whether it needs topping up.
    pub fn check_reserve_health(&self, token: Address) -> (r: ReserveHealth)
        ensures
            r == self@.health(token),
    {
        let reserve = self.load_reserve(token);
        let min_amount: i128 = self.get_min_reserve_amount(token);
        ReserveHealth {
            token,
            total_reserves: reserve.total_reserves,
            coverage_ratio_bps: reserve.coverage_ratio_bps,
            min_reserve_amount: min_amount,
            is_healthy: reserve.total_reserves >= min_amount,
            needs_top_up: min_amount > 0 && reserve.total_reserves < min_amount,
        }
    }

    /// Sets the reserve below which `token` is reported as in need of a top-up.
    pub fn set_min_reserve_amount(
        &mut self,
        admin: Address,
        token: Address,
        min_amount: i128,
    ) -> (r: Result<Event, InsuranceError>)
        ensures
            r == answer(
                old(self)@.set_min_reserve_refusal(admin, min_amount),
                Event::MinReserveAmountSet { admin, token, min_amount },
            ),
            final(self)@ == state_after(
                old(self)@.set_min_reserve_refusal(admin, min_amount),
                old(self)@,
                old(self)@.with_min_reserve(token, min_amount),
            ),
    {
        if let Err(e) = self.require_admin(admin) {
            return Err(e);
        }
        if min_amount < 0 {
            return Err(InsuranceError::InvalidAmount);
        }
        self.min_reserves.insert(token, min_amount);
        Ok(Event::MinReserveAmountSet { admin, token, min_amount })
    }

    /// The reserve below which `token` is reported as in need of a top-up.
    pub fn get_min_reserve_amount(&self, token: Address) -> (r: i128)
        ensures
            r == self@.min_reserve(token),
    {
        match self.min_reserves.get(token) {
            Some(min_amount) => min_amount,
            None => 0,
        }
    }
}

} // verus!
