//! Buying coverage.

use vstd::prelude::*;

use crate::address::Address;
use crate::bps::portion;
#[allow(unused_imports)]
use crate::bps::{bps_portion, fits_i128, max_of, min_of};
use crate::error::InsuranceError;
use crate::pricing::{calculate_premium, premium_at_multiplier};
use crate::reserve::InsuranceReserve;
use crate::state::ReserveState;
#[allow(unused_imports)]
use crate::state::{answer, coverage_ratio, state_after};
use crate::table::TableKey;
use crate::types::{
    Config, CoverageRecord, CreditScoreData, Event, ReserveFund, Sale, ScoreQuery, Transfer,
};

verus! {

pub const SECS_PER_DAY: u64 = 86_400;

/// The score of a borrower of whom no credit data is available. Scores run from 200 to 850, so
/// this one is near the bottom. Such a borrower is priced at the default multiplier, whatever tier
/// this score falls in.
pub const DEFAULT_SCORE_WHEN_UNAVAILABLE: u32 = 300;

/// The whole days from `now` until `due_date`, none where it has passed, and no more than the
/// largest `u32`.
pub open spec fn tenor_days(due_date: int, now: int) -> int {
    min_of(max_of(due_date - now, 0) / SECS_PER_DAY as int, u32::MAX as int)
}

/// A request for coverage, with what the chain says at the time.
pub struct Order {
    /// The address of the insurance contract itself.
    pub insurance: Address,
    pub payer: Address,
    pub invoice_id: u64,
    pub principal: i128,
    pub due_date: u64,
    pub token: Address,
    /// What the credit score contract answered, if it was asked and did answer.
    pub score_reply: Option<CreditScoreData>,
    /// The ledger's time.
    pub now: u64,
}

impl ReserveState {
    /// The borrower's score: the blended one where there is one, else the internal one, else the
    /// stand-in for missing data. Without a credit score contract no reply counts.
    pub open spec fn credit_score(self, reply: Option<CreditScoreData>) -> u32 {
        match (self.credit_score_contract, reply) {
            (Some(_), Some(data)) => if data.blended_score > 0 {
                data.blended_score
            } else {
                data.score
            },
            _ => DEFAULT_SCORE_WHEN_UNAVAILABLE,
        }
    }

    /// Whether there is credit data on the borrower: a credit score contract is named, and it
    /// has answered.
    pub open spec fn has_credit_data(self, reply: Option<CreditScoreData>) -> bool {
        self.credit_score_contract is Some && reply is Some
    }

    /// The risk multiplier to price with: that of the borrower's score, or the default one where
    /// there is no credit data.
    pub open spec fn risk_multiplier(self, reply: Option<CreditScoreData>) -> u32 {
        let terms = self.premium_config->0;
        if self.has_credit_data(reply) {
            terms.multiplier(self.credit_score(reply))
        } else {
            terms.default_risk_multiplier_bps
        }
    }

    /// The question to ask about a borrower's credit.
    pub open spec fn score_query(self, sme: Address) -> Option<ScoreQuery> {
        match self.credit_score_contract {
            Some(credit_score_contract) => Some(ScoreQuery { credit_score_contract, sme }),
            None => None,
        }
    }

    /// Why `payer` cannot buy coverage for an invoice of that principal.
    pub open spec fn purchase_gate(self, payer: Address, principal: i128) -> Option<
        InsuranceError,
    > {
        if self.paused {
            Some(InsuranceError::ContractPaused)
        } else if self.config is None {
            Some(InsuranceError::NotInitialized)
        } else if payer != self.config->0.pool_contract {
            Some(InsuranceError::Unauthorized)
        } else if principal <= 0 {
            Some(InsuranceError::InvalidAmount)
        } else {
            None
        }
    }

    /// Why no price can be given for covering the invoice.
    pub open spec fn pricing_gate(self, invoice_id: u64) -> Option<InsuranceError> {
        if self.coverage.contains_key(invoice_id) {
            Some(InsuranceError::AlreadyCovered)
        } else {
            self.terms_gate()
        }
    }

    /// Why nothing can be priced.
    pub open spec fn terms_gate(self) -> Option<InsuranceError> {
        if self.premium_config is None {
            Some(InsuranceError::InvalidPremiumConfig)
        } else {
            None
        }
    }

    /// The premium for insuring `principal`, at the adopted terms.
    pub open spec fn quote(
        self,
        principal: i128,
        reply: Option<CreditScoreData>,
        days: int,
    ) -> int {
        self.premium_config->0.premium_at(
            principal as int,
            self.risk_multiplier(reply) as int,
            days,
        )
    }

    /// Why no quote can be given.
    pub open spec fn quote_refusal(
        self,
        principal: i128,
        reply: Option<CreditScoreData>,
        days: int,
    ) -> Option<InsuranceError> {
        if self.premium_config is None {
            Some(InsuranceError::InvalidPremiumConfig)
        } else if self.quote(principal, reply, days) > i128::MAX {
            Some(InsuranceError::AmountOverflow)
        } else {
            None
        }
    }

    /// The premium that an order costs.
    pub open spec fn order_premium(self, order: Order) -> int {
        self.quote(
            order.principal,
            order.score_reply,
            tenor_days(order.due_date as int, order.now as int),
        )
    }

    /// The exposure that an order adds.
    pub open spec fn order_exposure(self, order: Order) -> int {
        bps_portion(order.principal as int, self.premium_config->0.default_coverage_bps as int)
    }

    /// Why the books cannot take the order: an amount that does not fit, no premium at all, or a
    /// coverage ratio that would fall below the token's floor.
    pub open spec fn booking_refusal(self, order: Order) -> Option<InsuranceError> {
        let fund = self.fund(order.token);
        let premium = self.order_premium(order);
        let new_exposure = fund.total_covered_exposure + self.order_exposure(order);
        let new_reserves = fund.total_reserves + premium;
        if premium > i128::MAX {
            Some(InsuranceError::AmountOverflow)
        } else if premium <= 0 {
            Some(InsuranceError::InvalidAmount)
        } else if !fits_i128(order.principal * self.premium_config->0.default_coverage_bps) {
            Some(InsuranceError::AmountOverflow)
        } else if !fits_i128(new_exposure) || !fits_i128(new_reserves) {
            Some(InsuranceError::AmountOverflow)
        } else if new_exposure > 0 && coverage_ratio(new_reserves, new_exposure)
            < fund.min_coverage_ratio_bps {
            Some(InsuranceError::CoverageRatioFloorBreached)
        } else if self.reentrancy_guard {
            Some(InsuranceError::Unauthorized)
        } else if !fits_i128(fund.total_premiums_collected + premium) {
            Some(InsuranceError::AmountOverflow)
        } else {
            None
        }
    }

    /// Why an order is refused.
    pub open spec fn purchase_refusal(self, order: Order) -> Option<InsuranceError> {
        if self.purchase_gate(order.payer, order.principal) is Some {
            self.purchase_gate(order.payer, order.principal)
        } else if self.pricing_gate(order.invoice_id) is Some {
            self.pricing_gate(order.invoice_id)
        } else {
            self.booking_refusal(order)
        }
    }

    /// The coverage that an order buys.
    pub open spec fn order_record(self, order: Order) -> CoverageRecord {
        CoverageRecord {
            invoice_id: order.invoice_id,
            token: order.token,
            principal: order.principal,
            premium_paid: self.order_premium(order) as i128,
            coverage_bps: self.premium_config->0.default_coverage_bps,
            purchased_at: order.now,
            claimed: false,
        }
    }

    /// The token's fund once an order is booked: the premium is in the reserve, the exposure has
    /// grown by what the order covers.
    pub open spec fn order_fund(self, order: Order) -> ReserveFund {
        let fund = self.fund(order.token);
        let premium = self.order_premium(order);
        (ReserveFund {
            total_reserves: (fund.total_reserves + premium) as i128,
            total_premiums_collected: (fund.total_premiums_collected + premium) as i128,
            total_covered_exposure: (fund.total_covered_exposure + self.order_exposure(
                order,
            )) as i128,
            ..fund
        }).with_ratio()
    }

    /// What a sale hands out: the record, the premium that moves from the payer to the contract,
    /// and the event.
    pub open spec fn order_sale(self, order: Order) -> Sale {
        let record = self.order_record(order);
        Sale {
            record,
            transfer: Transfer {
                token: order.token,
                from: order.payer,
                to: order.insurance,
                amount: record.premium_paid,
            },
            event: Event::Covered {
                invoice_id: order.invoice_id,
                payer: order.payer,
                premium: record.premium_paid,
                coverage_bps: record.coverage_bps,
            },
        }
    }

    /// The state once an order is booked.
    pub open spec fn sold(self, order: Order) -> ReserveState {
        ReserveState {
            reserves: self.reserves.insert(order.token, self.order_fund(order)),
            coverage: self.coverage.insert(order.invoice_id, self.order_record(order)),
            ..self
        }
    }
}

/// The whole days from `now` until `due_date`.
pub fn whole_days_until(due_date: u64, now: u64) -> (r: u32)
    ensures
        r == tenor_days(due_date as int, now as int),
{
    let days: u64 = due_date.saturating_sub(now) / SECS_PER_DAY;
    if days > u32::MAX as u64 {
        u32::MAX
    } else {
        days as u32
    }
}

impl InsuranceReserve {
    /// The borrower's score, from what the credit score contract answered.
    pub fn resolve_credit_score(&self, reply: Option<CreditScoreData>) -> (r: u32)
        ensures
            r == self@.credit_score(reply),
    {
        match self.credit_score_contract {
            Some(_) => match reply {
                Some(data) => if data.blended_score > 0 {
                    data.blended_score
                } else {
                    data.score
                },
                None => DEFAULT_SCORE_WHEN_UNAVAILABLE,
            },
            None => DEFAULT_SCORE_WHEN_UNAVAILABLE,
        }
    }

    /// The question to ask about a borrower's credit, if there is a contract to ask.
    pub fn score_query(&self, sme: Address) -> (r: Option<ScoreQuery>)
        ensures
            r == self@.score_query(sme),
    {
        match self.credit_score_contract {
            Some(credit_score_contract) => Some(ScoreQuery { credit_score_contract, sme }),
            None => None,
        }
    }

    /// First step of a purchase: checks payer and principal. Once it succeeds, the invoice
    /// contract of the returned configuration is asked for the invoice.
    pub fn admit_purchase(&self, payer: Address, principal: i128) -> (r: Result<
        Config,
        InsuranceError,
    >)
        ensures
            r == answer(self@.purchase_gate(payer, principal), self@.config->0),
    {
        if let Err(e) = self.require_not_paused() {
            return Err(e);
        }
        let config = match self.config {
            Some(config) => config,
            None => {
                return Err(InsuranceError::NotInitialized);
            },
        };
        if !payer.same(&config.pool_contract) {
            return Err(InsuranceError::Unauthorized);
        }
        if principal <= 0 {
            return Err(InsuranceError::InvalidAmount);
        }
        Ok(config)
    }

    /// Second step of a purchase: checks that the invoice can be priced, and says what is to be
    /// asked about the borrower.
    pub fn admit_pricing(&self, invoice_id: u64, sme: Address) -> (r: Result<
        Option<ScoreQuery>,
        InsuranceError,
    >)
        ensures
            r == answer(self@.pricing_gate(invoice_id), self@.score_query(sme)),
    {
        if self.coverage.get(invoice_id).is_some() {
            return Err(InsuranceError::AlreadyCovered);
        }
        self.admit_quote(sme)
    }

    /// First step of a quote: checks that there are terms to price by, and says what is to be
    /// asked about the borrower.
    pub fn admit_quote(&self, sme: Address) -> (r: Result<Option<ScoreQuery>, InsuranceError>)
        ensures
            r == answer(self@.terms_gate(), self@.score_query(sme)),
    {
        if self.premium_config.is_none() {
            return Err(InsuranceError::InvalidPremiumConfig);
        }
        Ok(self.score_query(sme))
    }

    /// A read-only quote. `score_reply` is the answer to the question that
    /// [`InsuranceReserve::admit_quote`] returned.
    pub fn estimate_premium(
        &self,
        principal: i128,
        score_reply: Option<CreditScoreData>,
        tenor_days: u32,
        _token: Address,
    ) -> (r: Result<i128, InsuranceError>)
        ensures
            r == answer(
                self@.quote_refusal(principal, score_reply, tenor_days as int),
                self@.quote(principal, score_reply, tenor_days as int) as i128,
            ),
            r matches Ok(premium) ==> premium == self@.quote(
                principal,
                score_reply,
                tenor_days as int,
            ),
    {
        let config = match &self.premium_config {
            Some(config) => config,
            None => {
                return Err(InsuranceError::InvalidPremiumConfig);
            },
        };
        let premium: u128 = if self.credit_score_contract.is_some() && score_reply.is_some() {
            let score: u32 = self.resolve_credit_score(score_reply);
            calculate_premium(principal, score, tenor_days, config)
        } else {
            premium_at_multiplier(
                principal,
                config.default_risk_multiplier_bps,
                tenor_days,
                config,
            )
        };
        if premium > i128::MAX as u128 {
            return Err(InsuranceError::AmountOverflow);
        }
        Ok(premium as i128)
    }

    /// Sells coverage for an invoice: `insurance` is the contract's own address, `score_reply`
    /// the answer to the question that [`InsuranceReserve::admit_pricing`] returned, and `now`
    /// the ledger's time. Only the pool may buy.
    ///
    /// A premium that rounds to nothing is refused: it would book real exposure for no money.
    pub fn purchase_coverage(
        &mut self,
        insurance: Address,
        payer: Address,
        invoice_id: u64,
        principal: i128,
        due_date: u64,
        token: Address,
        score_reply: Option<CreditScoreData>,
        now: u64,
    ) -> (r: Result<Sale, InsuranceError>)
        ensures
            ({
                let order = Order {
                    insurance,
                    payer,
                    invoice_id,
                    principal,
                    due_date,
                    token,
                    score_reply,
                    now,
                };
                let refusal = old(self)@.purchase_refusal(order);
                &&& r == answer(refusal, old(self)@.order_sale(order))
                &&& final(self)@ == state_after(refusal, old(self)@, old(self)@.sold(order))
            }),
    {
        let ghost order = Order {
            insurance,
            payer,
            invoice_id,
            principal,
            due_date,
            token,
            score_reply,
            now,
        };
        if let Err(e) = self.admit_purchase(payer, principal) {
            return Err(e);
        }
        if self.coverage.get(invoice_id).is_some() {
            return Err(InsuranceError::AlreadyCovered);
        }
        let coverage_bps: u32 = match &self.premium_config {
            Some(config) => config.default_coverage_bps,
            None => {
                return Err(InsuranceError::InvalidPremiumConfig);
            },
        };
        let days: u32 = whole_days_until(due_date, now);
        let premium: i128 = match self.estimate_premium(principal, score_reply, days, token) {
            Ok(premium) => premium,
            Err(e) => {
                return Err(e);
            },
        };
        if premium <= 0 {
            return Err(InsuranceError::InvalidAmount);
        }
        let covered_exposure: i128 = match portion(principal, coverage_bps) {
            Some(exposure) => exposure,
            None => {
                return Err(InsuranceError::AmountOverflow);
            },
        };
        let mut reserve = self.load_reserve(token);
        let new_exposure: i128 = match reserve.total_covered_exposure.checked_add(
            covered_exposure,
        ) {
            Some(exposure) => exposure,
            None => {
                return Err(InsuranceError::AmountOverflow);
            },
        };
        let prospective_reserves: i128 = match reserve.total_reserves.checked_add(premium) {
            Some(reserves) => reserves,
            None => {
                return Err(InsuranceError::AmountOverflow);
            },
        };
        if new_exposure > 0 && Self::ratio_bps(prospective_reserves, new_exposure)
            < reserve.min_coverage_ratio_bps {
            return Err(InsuranceError::CoverageRatioFloorBreached);
        }
        if let Err(e) = self.require_not_entered() {
            return Err(e);
        }
        self.non_reentrant_start();
        reserve.total_reserves = prospective_reserves;
        reserve.total_premiums_collected = match reserve.total_premiums_collected.checked_add(
            premium,
        ) {
            Some(total) => total,
            None => {
                self.non_reentrant_end();
                return Err(InsuranceError::AmountOverflow);
            },
        };
        reserve.total_covered_exposure = new_exposure;
        Self::recompute_ratio(&mut reserve);
        self.reserves.insert(token, reserve);
        let record = CoverageRecord {
            invoice_id,
            token,
            principal,
            premium_paid: premium,
            coverage_bps,
            purchased_at: now,
            claimed: false,
        };
        self.coverage.insert(invoice_id, record);
        self.non_reentrant_end();
        Ok(
            Sale {
                record,
                transfer: Transfer { token, from: payer, to: insurance, amount: premium },
                event: Event::Covered { invoice_id, payer, premium, coverage_bps },
            },
        )
    }
}

} // verus!
