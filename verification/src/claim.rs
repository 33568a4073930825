//! Paying claims on defaulted invoices.

use vstd::prelude::*;

use crate::address::Address;
use crate::bps::portion;
#[allow(unused_imports)]
use crate::bps::{bps_portion, fits_i128, max_of, min_of};
use crate::error::InsuranceError;
use crate::reserve::InsuranceReserve;
use crate::state::ReserveState;
#[allow(unused_imports)]
use crate::state::{answer, state_after};
use crate::types::{
    ClaimHistoryItem, ClaimSlot, CollateralDepositView, Config, CoverageRecord, Event,
    FundedInvoiceView, PayoutNotice, ReserveFund, Settlement, Transfer,
};

verus! {

/// What the other contracts say of an invoice on which a claim is filed.
#[derive(Clone, Copy, Debug, PartialEq, Eq)]
pub struct ClaimEvidence {
    /// Whether the invoice contract reports the invoice as defaulted.
    pub defaulted: bool,
    /// The invoice as the pool funded it.
    pub funded: Option<FundedInvoiceView>,
    /// The collateral that was posted for it.
    pub collateral: Option<CollateralDepositView>,
}

/// What has been found out so far about an invoice on which a claim is filed: each answer, once
/// it is there.
#[derive(Clone, Copy, Debug, PartialEq, Eq)]
pub struct ClaimInquiry {
    pub defaulted: Option<bool>,
    pub funded: Option<Option<FundedInvoiceView>>,
    pub collateral: Option<Option<CollateralDepositView>>,
}

/// What to do next about a claim.
#[derive(Clone, Copy, Debug, PartialEq, Eq)]
pub enum ClaimStep {
    /// Ask the invoice contract whether the invoice has defaulted.
    AskDefault { invoice_contract: Address },
    /// Ask the pool for the invoice as it funded it.
    AskFunding { pool_contract: Address },
    /// Ask the pool for the collateral.
    AskCollateral { pool_contract: Address },
    /// Nothing is left to ask: settle the claim on this evidence.
    Settle { evidence: ClaimEvidence },
}

/// A claim that is to be paid.
#[derive(Clone, Copy, Debug, PartialEq, Eq)]
pub struct Assessment {
    /// Who is paid.
    pub pool_contract: Address,
    pub record: CoverageRecord,
    /// The amount the coverage insures.
    pub covered: i128,
    /// What is owed beyond what the collateral brought in.
    pub shortfall: i128,
    pub payout: i128,
}

/// What is still owed on an invoice: its principal less what was repaid, and never less than
/// nothing.
pub open spec fn debt(funded: FundedInvoiceView) -> int {
    max_of(funded.principal - funded.repaid_amount, 0)
}

/// Why no debt can be determined.
pub open spec fn debt_refusal(funded: Option<FundedInvoiceView>) -> Option<InsuranceError> {
    match funded {
        None => Some(InsuranceError::FundedInvoiceNotFound),
        Some(invoice) => if !fits_i128(invoice.principal - invoice.repaid_amount) {
            Some(InsuranceError::AmountOverflow)
        } else {
            None
        },
    }
}

/// What collateral has brought in: its amount once settled, nothing before.
pub open spec fn recovery(collateral: Option<CollateralDepositView>) -> int {
    match collateral {
        Some(deposit) => if deposit.settled {
            deposit.amount as int
        } else {
            0
        },
        None => 0,
    }
}

impl CoverageRecord {
    /// The amount the coverage insures.
    pub open spec fn covered_amount(self) -> int {
        bps_portion(self.principal as int, self.coverage_bps as int)
    }
}

impl ClaimEvidence {
    /// What is owed beyond what the collateral brought in.
    pub open spec fn shortfall(self) -> int {
        max_of(debt(self.funded->0) - recovery(self.collateral), 0)
    }

    /// Why the evidence supports no claim: no default, no funded invoice, an amount that does not
    /// fit, or nothing left to recover.
    pub open spec fn refusal(self) -> Option<InsuranceError> {
        if !self.defaulted {
            Some(InsuranceError::InvoiceNotDefaulted)
        } else if debt_refusal(self.funded) is Some {
            debt_refusal(self.funded)
        } else if !fits_i128(debt(self.funded->0) - recovery(self.collateral)) {
            Some(InsuranceError::AmountOverflow)
        } else if self.shortfall() == 0 {
            Some(InsuranceError::NoShortfall)
        } else {
            None
        }
    }
}

impl ClaimInquiry {
    /// Why the answers so far support no claim: no default, or no debt that can be determined.
    pub open spec fn refusal(self) -> Option<InsuranceError> {
        match self.defaulted {
            None => None,
            Some(defaulted) => if !defaulted {
                Some(InsuranceError::InvoiceNotDefaulted)
            } else {
                match self.funded {
                    None => None,
                    Some(funded) => debt_refusal(funded),
                }
            },
        }
    }

    /// The evidence, once everything has been answered.
    pub open spec fn evidence(self) -> ClaimEvidence {
        ClaimEvidence {
            defaulted: self.defaulted->0,
            funded: self.funded->0,
            collateral: self.collateral->0,
        }
    }

    /// Whether every answer so far is the one in `evidence`.
    pub open spec fn is_part_of(self, evidence: ClaimEvidence) -> bool {
        &&& self.defaulted is Some ==> self.defaulted->0 == evidence.defaulted
        &&& self.funded is Some ==> self.funded->0 == evidence.funded
        &&& self.collateral is Some ==> self.collateral->0 == evidence.collateral
    }
}

impl ReserveState {
    /// Why no claim on the invoice is looked into.
    pub open spec fn claim_gate(self, invoice_id: u64) -> Option<InsuranceError> {
        if self.paused {
            Some(InsuranceError::ContractPaused)
        } else if !self.coverage.contains_key(invoice_id) {
            Some(InsuranceError::NoCoverageFound)
        } else if self.coverage[invoice_id].claimed {
            Some(InsuranceError::AlreadyClaimed)
        } else if self.config is None {
            Some(InsuranceError::NotInitialized)
        } else {
            None
        }
    }

    /// What a claim pays: the least of what is covered, what is short, and what the reserve holds.
    pub open spec fn claim_payout(self, invoice_id: u64, evidence: ClaimEvidence) -> int {
        let record = self.coverage[invoice_id];
        min_of(
            min_of(record.covered_amount(), evidence.shortfall()),
            self.fund(record.token).total_reserves as int,
        )
    }

    /// Why the reserve does not pay: an amount that does not fit, an empty reserve, or nothing
    /// covered.
    pub open spec fn payout_refusal(self, invoice_id: u64, evidence: ClaimEvidence) -> Option<
        InsuranceError,
    > {
        let record = self.coverage[invoice_id];
        let fund = self.fund(record.token);
        let payout = self.claim_payout(invoice_id, evidence);
        if !fits_i128(record.principal * record.coverage_bps) {
            Some(InsuranceError::AmountOverflow)
        } else if fund.total_reserves <= 0 {
            Some(InsuranceError::InsufficientReserves)
        } else if payout <= 0 {
            Some(InsuranceError::NoShortfall)
        } else if self.reentrancy_guard {
            Some(InsuranceError::Unauthorized)
        } else if !fits_i128(fund.total_claims_paid + payout) {
            Some(InsuranceError::AmountOverflow)
        } else {
            None
        }
    }

    /// Why a claim is refused.
    pub open spec fn claim_refusal(self, invoice_id: u64, evidence: ClaimEvidence) -> Option<
        InsuranceError,
    > {
        if self.claim_gate(invoice_id) is Some {
            self.claim_gate(invoice_id)
        } else if evidence.refusal() is Some {
            evidence.refusal()
        } else {
            self.payout_refusal(invoice_id, evidence)
        }
    }

    /// A claim that the reserve pays, as it is decided.
    pub open spec fn claim_assessment(
        self,
        invoice_id: u64,
        evidence: ClaimEvidence,
    ) -> Assessment {
        let record = self.coverage[invoice_id];
        Assessment {
            pool_contract: self.config->0.pool_contract,
            record,
            covered: record.covered_amount() as i128,
            shortfall: evidence.shortfall() as i128,
            payout: self.claim_payout(invoice_id, evidence) as i128,
        }
    }

    /// Why a claim is refused on what has been found out so far.
    pub open spec fn inquiry_refusal(self, invoice_id: u64, inquiry: ClaimInquiry) -> Option<
        InsuranceError,
    > {
        if self.claim_gate(invoice_id) is Some {
            self.claim_gate(invoice_id)
        } else {
            inquiry.refusal()
        }
    }

    /// What comes next where a claim is not refused: default, funding and collateral are asked
    /// for in this order, each once the one before is known.
    pub open spec fn claim_step(self, inquiry: ClaimInquiry) -> ClaimStep {
        let config = self.config->0;
        if inquiry.defaulted is None {
            ClaimStep::AskDefault { invoice_contract: config.invoice_contract }
        } else if inquiry.funded is None {
            ClaimStep::AskFunding { pool_contract: config.pool_contract }
        } else if inquiry.collateral is None {
            ClaimStep::AskCollateral { pool_contract: config.pool_contract }
        } else {
            ClaimStep::Settle { evidence: inquiry.evidence() }
        }
    }

    /// The token's fund once a claim is paid: the payout is gone, and with it the whole exposure
    /// of the coverage.
    pub open spec fn claim_fund(self, invoice_id: u64, evidence: ClaimEvidence) -> ReserveFund {
        let record = self.coverage[invoice_id];
        let fund = self.fund(record.token);
        let payout = self.claim_payout(invoice_id, evidence);
        (ReserveFund {
            total_reserves: (fund.total_reserves - payout) as i128,
            total_claims_paid: (fund.total_claims_paid + payout) as i128,
            total_covered_exposure: max_of(
                fund.total_covered_exposure - record.covered_amount(),
                0,
            ) as i128,
            ..fund
        }).with_ratio()
    }

    /// The history entry of a claim.
    pub open spec fn claim_item(
        self,
        invoice_id: u64,
        evidence: ClaimEvidence,
        now: u64,
    ) -> ClaimHistoryItem {
        ClaimHistoryItem {
            invoice_id,
            token: self.coverage[invoice_id].token,
            payout: self.claim_payout(invoice_id, evidence) as i128,
            shortfalls: evidence.shortfall() as i128,
            timestamp: now,
        }
    }

    /// The state once a claim is paid: the fund is debited, the coverage is spent, and the claim
    /// stands at the end of the invoice's history.
    pub open spec fn settled(
        self,
        invoice_id: u64,
        evidence: ClaimEvidence,
        now: u64,
    ) -> ReserveState {
        let record = self.coverage[invoice_id];
        let count = self.claim_count(invoice_id);
        ReserveState {
            reserves: self.reserves.insert(record.token, self.claim_fund(invoice_id, evidence)),
            coverage: self.coverage.insert(
                invoice_id,
                CoverageRecord { claimed: true, ..record },
            ),
            claim_counts: self.claim_counts.insert(invoice_id, (count + 1) as u32),
            claim_entries: self.claim_entries.insert(
                ClaimSlot { invoice_id, index: count },
                self.claim_item(invoice_id, evidence, now),
            ),
            ..self
        }
    }

    /// What a paid claim sets in motion: the payout goes to the pool, which is told of it.
    pub open spec fn claim_settlement(
        self,
        insurance: Address,
        invoice_id: u64,
        evidence: ClaimEvidence,
    ) -> Settlement {
        let token = self.coverage[invoice_id].token;
        let pool_contract = self.config->0.pool_contract;
        let payout = self.claim_payout(invoice_id, evidence) as i128;
        Settlement {
            payout,
            transfer: Transfer { token, from: insurance, to: pool_contract, amount: payout },
            notice: PayoutNotice { pool_contract, insurance, token, invoice_id, amount: payout },
            event: Event::Claimed { invoice_id, payout },
        }
    }
}

/// What is still owed on an invoice.
pub fn amount_owed(funded: Option<FundedInvoiceView>) -> (r: Result<i128, InsuranceError>)
    ensures
        r == answer(debt_refusal(funded), debt(funded->0) as i128),
        r matches Ok(owed) ==> owed == debt(funded->0),
{
    match funded {
        None => Err(InsuranceError::FundedInvoiceNotFound),
        Some(invoice) => match invoice.principal.checked_sub(invoice.repaid_amount) {
            None => Err(InsuranceError::AmountOverflow),
            Some(owed) => Ok(
                if owed > 0 {
                    owed
                } else {
                    0
                },
            ),
        },
    }
}

/// What is owed beyond what the collateral brought in.
pub fn claimable_shortfall(evidence: ClaimEvidence) -> (r: Result<i128, InsuranceError>)
    ensures
        r == answer(evidence.refusal(), evidence.shortfall() as i128),
        r matches Ok(shortfall) ==> shortfall == evidence.shortfall(),
{
    if !evidence.defaulted {
        return Err(InsuranceError::InvoiceNotDefaulted);
    }
    let owed: i128 = match amount_owed(evidence.funded) {
        Ok(owed) => owed,
        Err(e) => {
            return Err(e);
        },
    };
    let recovered: i128 = match evidence.collateral {
        Some(deposit) => if deposit.settled {
            deposit.amount
        } else {
            0
        },
        None => 0,
    };
    match owed.checked_sub(recovered) {
        None => Err(InsuranceError::AmountOverflow),
        Some(shortfall) => if shortfall <= 0 {
            Err(InsuranceError::NoShortfall)
        } else {
            Ok(shortfall)
        },
    }
}

impl InsuranceReserve {
    /// First step of a claim: checks that there is coverage left to claim on, and returns the
    /// configuration whose contracts are to be asked for the evidence.
    pub fn admit_claim(&self, invoice_id: u64) -> (r: Result<Config, InsuranceError>)
        ensures
            r == answer(self@.claim_gate(invoice_id), self@.config->0),
    {
        if let Err(e) = self.require_not_paused() {
            return Err(e);
        }
        match self.coverage.get(invoice_id) {
            None => {
                return Err(InsuranceError::NoCoverageFound);
            },
            Some(record) => if record.claimed {
                return Err(InsuranceError::AlreadyClaimed);
            },
        }
        match self.config {
            None => Err(InsuranceError::NotInitialized),
            Some(config) => Ok(config),
        }
    }

    /// The next thing to do about a claim, given what has been found out: the question to ask, or
    /// the evidence to settle on. A claim that the answers already rule out is refused at once.
    pub fn next_claim_step(&self, invoice_id: u64, inquiry: ClaimInquiry) -> (r: Result<
        ClaimStep,
        InsuranceError,
    >)
        ensures
            r == answer(
                self@.inquiry_refusal(invoice_id, inquiry),
                self@.claim_step(inquiry),
            ),
    {
        let config = match self.admit_claim(invoice_id) {
            Ok(config) => config,
            Err(e) => {
                return Err(e);
            },
        };
        let defaulted: bool = match inquiry.defaulted {
            Some(defaulted) => defaulted,
            None => {
                return Ok(ClaimStep::AskDefault { invoice_contract: config.invoice_contract });
            },
        };
        if !defaulted {
            return Err(InsuranceError::InvoiceNotDefaulted);
        }
        let funded = match inquiry.funded {
            Some(funded) => funded,
            None => {
                return Ok(ClaimStep::AskFunding { pool_contract: config.pool_contract });
            },
        };
        if let Err(e) = amount_owed(funded) {
            return Err(e);
        }
        match inquiry.collateral {
            Some(collateral) => Ok(
                ClaimStep::Settle { evidence: ClaimEvidence { defaulted, funded, collateral } },
            ),
            None => Ok(ClaimStep::AskCollateral { pool_contract: config.pool_contract }),
        }
    }

    /// Decides a claim without paying it.
    pub fn assess_claim(&self, invoice_id: u64, evidence: ClaimEvidence) -> (r: Result<
        Assessment,
        InsuranceError,
    >)
        ensures
            r == answer(
                self@.claim_refusal(invoice_id, evidence),
                self@.claim_assessment(invoice_id, evidence),
            ),
            r matches Ok(claim) ==> {
                &&& claim.covered == self@.coverage[invoice_id].covered_amount()
                &&& claim.shortfall == evidence.shortfall()
                &&& claim.payout == self@.claim_payout(invoice_id, evidence)
            },
    {
        let config = match self.admit_claim(invoice_id) {
            Ok(config) => config,
            Err(e) => {
                return Err(e);
            },
        };
        let record = match self.coverage.get(invoice_id) {
            Some(record) => record,
            None => {
                return Err(InsuranceError::NoCoverageFound);
            },
        };
        let shortfall: i128 = match claimable_shortfall(evidence) {
            Ok(shortfall) => shortfall,
            Err(e) => {
                return Err(e);
            },
        };
        let covered: i128 = match portion(record.principal, record.coverage_bps) {
            Some(covered) => covered,
            None => {
                return Err(InsuranceError::AmountOverflow);
            },
        };
        let reserve = self.load_reserve(record.token);
        if reserve.total_reserves <= 0 {
            return Err(InsuranceError::InsufficientReserves);
        }
        let capped: i128 = if covered < shortfall {
            covered
        } else {
            shortfall
        };
        let payout: i128 = if capped < reserve.total_reserves {
            capped
        } else {
            reserve.total_reserves
        };
        if payout <= 0 {
            return Err(InsuranceError::NoShortfall);
        }
        if let Err(e) = self.require_not_entered() {
            return Err(e);
        }
        if reserve.total_claims_paid.checked_add(payout).is_none() {
            return Err(InsuranceError::AmountOverflow);
        }
        Ok(Assessment { pool_contract: config.pool_contract, record, covered, shortfall, payout })
    }

    /// Pays a claim on a defaulted invoice to the pool; `insurance` is the contract's own address,
    /// `evidence` what the other contracts answered, and `now` the ledger's time.
    ///
    /// Anyone may file: who does has no bearing on the outcome. A coverage pays one claim, never
    /// more than it insures, than is short, or than the reserve holds; a reserve that holds too
    /// little pays what it has, and one that holds nothing refuses, so that the claim is not spent.
    pub fn file_claim(
        &mut self,
        insurance: Address,
        _caller: Address,
        invoice_id: u64,
        evidence: ClaimEvidence,
        now: u64,
    ) -> (r: Result<Settlement, InsuranceError>)
        requires
            old(self)@.claim_refusal(invoice_id, evidence) is None ==> old(self)@.claim_count(
                invoice_id,
            ) < u32::MAX,
        ensures
            r == answer(
                old(self)@.claim_refusal(invoice_id, evidence),
                old(self)@.claim_settlement(insurance, invoice_id, evidence),
            ),
            final(self)@ == state_after(
                old(self)@.claim_refusal(invoice_id, evidence),
                old(self)@,
                old(self)@.settled(invoice_id, evidence, now),
            ),
    {
        let claim = match self.assess_claim(invoice_id, evidence) {
            Ok(claim) => claim,
            Err(e) => {
                return Err(e);
            },
        };
        let mut record = claim.record;
        let payout: i128 = claim.payout;
        self.non_reentrant_start();
        let mut reserve = self.load_reserve(record.token);
        reserve.total_reserves = reserve.total_reserves - payout;
        reserve.total_claims_paid = reserve.total_claims_paid + payout;
        reserve.total_covered_exposure = match reserve.total_covered_exposure.checked_sub(
            claim.covered,
        ) {
            Some(exposure) => if exposure > 0 {
                exposure
            } else {
                0
            },
            None => 0,
        };
        Self::recompute_ratio(&mut reserve);
        self.reserves.insert(record.token, reserve);

        record.claimed = true;
        self.coverage.insert(invoice_id, record);

        let index: u32 = self.get_claim_count(invoice_id);
        let item = ClaimHistoryItem {
            invoice_id,
            token: record.token,
            payout,
            shortfalls: claim.shortfall,
            timestamp: now,
        };
        self.claim_entries.insert(ClaimSlot { invoice_id, index }, item);
        self.claim_counts.insert(invoice_id, index + 1);
        self.non_reentrant_end();
        Ok(
            Settlement {
                payout,
                transfer: Transfer {
                    token: record.token,
                    from: insurance,
                    to: claim.pool_contract,
                    amount: payout,
                },
                notice: PayoutNotice {
                    pool_contract: claim.pool_contract,
                    insurance,
                    token: record.token,
                    invoice_id,
                    amount: payout,
                },
                event: Event::Claimed { invoice_id, payout },
            },
        )
    }
}

} // verus!
