//! When a claim is paid, how much, and what that does.

use vstd::prelude::*;

use crate::account_laws::law_update_sets_the_ratio_alone;
#[allow(unused_imports)]
use crate::account_laws::is_ratio_of;
use crate::address::Address;
use crate::claim::{ClaimEvidence, ClaimInquiry, ClaimStep};
#[allow(unused_imports)]
use crate::claim::{debt, debt_refusal};
use crate::error::InsuranceError;
use crate::sale_laws::law_what_a_coverage_insures;
use crate::state::ReserveState;
use crate::types::{
    ClaimSlot, CollateralDepositView, CoverageRecord, Event, FundedInvoiceView, PayoutNotice,
    ReserveFund, Transfer,
};

verus! {

/// What is owed on an invoice is its principal less what was repaid, and nothing where more was
/// repaid; its other figures have no part in it.
pub proof fn law_what_is_owed(funded: FundedInvoiceView)
    ensures
        funded.principal >= funded.repaid_amount ==> debt(funded) == funded.principal
            - funded.repaid_amount,
        funded.principal <= funded.repaid_amount ==> debt(funded) == 0,
        debt_refusal(None) == Some(InsuranceError::FundedInvoiceNotFound),
        i128::MIN <= funded.principal - funded.repaid_amount <= i128::MAX ==> debt_refusal(
            Some(funded),
        ) is None,
        !(i128::MIN <= funded.principal - funded.repaid_amount <= i128::MAX) ==> debt_refusal(
            Some(funded),
        ) == Some(InsuranceError::AmountOverflow),
{
}

/// Settled collateral comes off what is owed, to the full amount of the deposit and whatever else
/// the deposit says.
pub proof fn law_settled_collateral_comes_off(
    evidence: ClaimEvidence,
    funded: FundedInvoiceView,
    deposit: CollateralDepositView,
)
    requires
        evidence.funded == Some(funded),
        evidence.collateral == Some(deposit),
        deposit.settled,
    ensures
        ({
            let owed = if funded.principal > funded.repaid_amount {
                funded.principal - funded.repaid_amount
            } else {
                0
            };
            &&& owed >= deposit.amount ==> evidence.shortfall() == owed - deposit.amount
            &&& owed <= deposit.amount ==> evidence.shortfall() == 0
        }),
{
}

/// Without settled collateral all that is owed is short.
pub proof fn law_unsettled_collateral_counts_for_nothing(
    evidence: ClaimEvidence,
    funded: FundedInvoiceView,
)
    requires
        evidence.funded == Some(funded),
        evidence.collateral is None || !evidence.collateral->0.settled,
    ensures
        funded.principal >= funded.repaid_amount ==> evidence.shortfall() == funded.principal
            - funded.repaid_amount,
        funded.principal <= funded.repaid_amount ==> evidence.shortfall() == 0,
{
}

/// What settled collateral has recovered is not paid again: deposit and payout together never come
/// to more than principal less repayments, whatever the deposit's timestamps, depositor or token.
pub proof fn law_collateral_is_not_paid_again(
    s: ReserveState,
    invoice_id: u64,
    evidence: ClaimEvidence,
    funded: FundedInvoiceView,
    deposit: CollateralDepositView,
)
    requires
        s.claim_refusal(invoice_id, evidence) is None,
        evidence.funded == Some(funded),
        evidence.collateral == Some(deposit),
        deposit.settled,
    ensures
        s.claim_payout(invoice_id, evidence) + deposit.amount <= (if funded.principal
            > funded.repaid_amount {
            funded.principal - funded.repaid_amount
        } else {
            0
        }),
{
}

/// Of the evidence nothing counts but the default, principal and repayments of the invoice, and
/// amount and settlement of the collateral: evidence that agrees on these is decided and paid
/// alike.
pub proof fn law_what_counts_as_evidence(
    s: ReserveState,
    invoice_id: u64,
    evidence: ClaimEvidence,
    other: ClaimEvidence,
)
    requires
        evidence.defaulted == other.defaulted,
        evidence.funded is Some <==> other.funded is Some,
        evidence.funded is Some ==> evidence.funded->0.principal == other.funded->0.principal
            && evidence.funded->0.repaid_amount == other.funded->0.repaid_amount,
        evidence.collateral is Some <==> other.collateral is Some,
        evidence.collateral is Some ==> evidence.collateral->0.settled
            == other.collateral->0.settled && evidence.collateral->0.amount
            == other.collateral->0.amount,
    ensures
        s.claim_refusal(invoice_id, evidence) == s.claim_refusal(invoice_id, other),
        s.claim_refusal(invoice_id, evidence) is None ==> s.claim_payout(invoice_id, evidence)
            == s.claim_payout(invoice_id, other),
{
}

/// What is owed on the evidence beyond what settled collateral has recovered; below zero where
/// more was recovered.
pub open spec fn gap(evidence: ClaimEvidence) -> int {
    let funded = evidence.funded->0;
    let owed = if funded.principal > funded.repaid_amount {
        funded.principal - funded.repaid_amount
    } else {
        0
    };
    if evidence.collateral is Some && evidence.collateral->0.settled {
        owed - evidence.collateral->0.amount
    } else {
        owed
    }
}

/// Whether both differences that the gap is made of are token amounts.
pub open spec fn gap_fits(evidence: ClaimEvidence) -> bool {
    let funded = evidence.funded->0;
    &&& i128::MIN <= funded.principal - funded.repaid_amount <= i128::MAX
    &&& i128::MIN <= gap(evidence) <= i128::MAX
}

/// Evidence supports a claim exactly if it shows a default, a funded invoice, amounts that fit and
/// something still to recover; each refusal names what is missing.
pub proof fn law_evidence_is_weighed(evidence: ClaimEvidence)
    ensures
        ({
            let refusal = evidence.refusal();
            let shown = evidence.defaulted && evidence.funded is Some;
            &&& !evidence.defaulted ==> refusal == Some(InsuranceError::InvoiceNotDefaulted)
            &&& evidence.defaulted && evidence.funded is None ==> refusal == Some(
                InsuranceError::FundedInvoiceNotFound,
            )
            &&& shown && !gap_fits(evidence) ==> refusal == Some(InsuranceError::AmountOverflow)
            &&& shown && gap_fits(evidence) && gap(evidence) <= 0 ==> refusal == Some(
                InsuranceError::NoShortfall,
            )
            &&& shown && gap_fits(evidence) && gap(evidence) > 0 ==> refusal is None
                && evidence.shortfall() == gap(evidence)
        }),
{
}

/// A claim is looked into exactly if the contract runs, the invoice is covered, its coverage has
/// not paid yet, and the contract is set up.
pub proof fn law_checks_before_a_claim(s: ReserveState, invoice_id: u64)
    ensures
        ({
            let gate = s.claim_gate(invoice_id);
            let covered = !s.paused && s.coverage.contains_key(invoice_id);
            let open = covered && !s.coverage[invoice_id].claimed;
            &&& s.paused ==> gate == Some(InsuranceError::ContractPaused)
            &&& !s.paused && !s.coverage.contains_key(invoice_id) ==> gate == Some(
                InsuranceError::NoCoverageFound,
            )
            &&& covered && s.coverage[invoice_id].claimed ==> gate == Some(
                InsuranceError::AlreadyClaimed,
            )
            &&& open && s.config is None ==> gate == Some(InsuranceError::NotInitialized)
            &&& open && s.config is Some ==> gate is None
        }),
{
}

/// Whether `covered` is what the coverage of the invoice insures: its rate of the insured
/// principal, rounded toward zero.
pub open spec fn is_insured(covered: int, record: CoverageRecord) -> bool {
    let product = record.principal * record.coverage_bps;
    &&& record.principal >= 0 ==> covered * 10_000 <= product < covered * 10_000 + 10_000
    &&& record.principal < 0 ==> covered * 10_000 - 10_000 < product <= covered * 10_000
}

/// Every claim is decided once it is looked into: it is paid exactly if the evidence supports it,
/// the coverage insures something, the reserve holds something, no other call moves tokens and the
/// amounts fit. It pays what is insured, what is short or what the reserve holds, whichever is
/// least. Each refusal comes exactly for the reason it names.
pub proof fn law_every_claim_is_decided(
    s: ReserveState,
    invoice_id: u64,
    evidence: ClaimEvidence,
    covered: int,
)
    requires
        s.coverage.contains_key(invoice_id) ==> is_insured(covered, s.coverage[invoice_id]),
    ensures
        ({
            let refusal = s.claim_refusal(invoice_id, evidence);
            let payout = s.claim_payout(invoice_id, evidence);
            let record = s.coverage[invoice_id];
            let fund = s.fund(record.token);
            let product = record.principal * record.coverage_bps;
            let held = fund.total_reserves;
            let open = !s.paused && s.coverage.contains_key(invoice_id) && !record.claimed
                && s.config is Some;
            let shown = open && evidence.defaulted && evidence.funded is Some;
            let supported = shown && gap_fits(evidence) && gap(evidence) > 0;
            let sized = supported && i128::MIN <= product <= i128::MAX;
            let payable = sized && held > 0 && covered > 0;
            let bookable = fund.total_claims_paid + payout <= i128::MAX;
            &&& payable ==> {
                &&& 0 < payout
                &&& payout <= covered
                &&& payout <= gap(evidence)
                &&& payout <= held
                &&& payout == covered || payout == gap(evidence) || payout == held
            }
            &&& refusal is None <==> payable && !s.reentrancy_guard && bookable
            &&& refusal == Some(InsuranceError::ContractPaused) <==> s.paused
            &&& refusal == Some(InsuranceError::NoCoverageFound) <==> !s.paused
                && !s.coverage.contains_key(invoice_id)
            &&& refusal == Some(InsuranceError::AlreadyClaimed) <==> !s.paused
                && s.coverage.contains_key(invoice_id) && record.claimed
            &&& refusal == Some(InsuranceError::NotInitialized) <==> !s.paused
                && s.coverage.contains_key(invoice_id) && !record.claimed && s.config is None
            &&& refusal == Some(InsuranceError::InvoiceNotDefaulted) <==> open
                && !evidence.defaulted
            &&& refusal == Some(InsuranceError::FundedInvoiceNotFound) <==> open
                && evidence.defaulted && evidence.funded is None
            &&& refusal == Some(InsuranceError::NoShortfall) <==> (shown && gap_fits(evidence)
                && gap(evidence) <= 0) || (sized && held > 0 && covered <= 0)
            &&& refusal == Some(InsuranceError::InsufficientReserves) <==> sized && held <= 0
            &&& refusal == Some(InsuranceError::Unauthorized) <==> payable && s.reentrancy_guard
            &&& refusal == Some(InsuranceError::AmountOverflow) <==> (shown && !gap_fits(evidence))
                || (supported && !sized) || (payable && !s.reentrancy_guard && !bookable)
        }),
{
    law_evidence_is_weighed(evidence);
    law_what_a_coverage_insures(s.coverage[invoice_id]);
}

/// A paid claim takes the payout from the token's reserve and the whole insured amount from its
/// exposure, marks the coverage as claimed, adds one entry to the invoice's history, and touches
/// nothing else.
pub proof fn law_what_a_claim_books(
    s: ReserveState,
    invoice_id: u64,
    evidence: ClaimEvidence,
    now: u64,
    covered: int,
)
    requires
        s.claim_refusal(invoice_id, evidence) is None,
        s.claim_count(invoice_id) < u32::MAX,
        is_insured(covered, s.coverage[invoice_id]),
    ensures
        ({
            let after = s.settled(invoice_id, evidence, now);
            let record = s.coverage[invoice_id];
            let before = s.fund(record.token);
            let fund = after.fund(record.token);
            let payout = s.claim_payout(invoice_id, evidence);
            let count = s.claim_count(invoice_id);
            let slot = ClaimSlot { invoice_id, index: count };
            let item = after.claim_entries[slot];
            &&& fund.total_reserves == before.total_reserves - payout
            &&& fund.total_claims_paid == before.total_claims_paid + payout
            &&& before.total_covered_exposure >= covered ==> fund.total_covered_exposure
                == before.total_covered_exposure - covered
            &&& before.total_covered_exposure <= covered ==> fund.total_covered_exposure == 0
            &&& fund.total_premiums_collected == before.total_premiums_collected
            &&& fund.min_coverage_ratio_bps == before.min_coverage_ratio_bps
            &&& is_ratio_of(
                fund.coverage_ratio_bps as int,
                fund.total_reserves as int,
                fund.total_covered_exposure as int,
            )
            &&& item.invoice_id == invoice_id
            &&& item.token == record.token
            &&& item.payout == payout
            &&& item.shortfalls == gap(evidence)
            &&& item.timestamp == now
            &&& after == (ReserveState {
                reserves: s.reserves.insert(record.token, fund),
                coverage: s.coverage.insert(
                    invoice_id,
                    CoverageRecord { claimed: true, ..record },
                ),
                claim_counts: s.claim_counts.insert(invoice_id, (count + 1) as u32),
                claim_entries: s.claim_entries.insert(slot, item),
                ..s
            })
        }),
{
    law_every_claim_is_decided(s, invoice_id, evidence, covered);
    law_evidence_is_weighed(evidence);
    law_what_a_coverage_insures(s.coverage[invoice_id]);
    let before = s.fund(s.coverage[invoice_id].token);
    let payout = s.claim_payout(invoice_id, evidence);
    let exposure = before.total_covered_exposure - covered;
    law_update_sets_the_ratio_alone(
        ReserveFund {
            total_reserves: (before.total_reserves - payout) as i128,
            total_claims_paid: (before.total_claims_paid + payout) as i128,
            total_covered_exposure: (if exposure >= 0 {
                exposure
            } else {
                0
            }) as i128,
            ..before
        },
    );
}

/// A paid claim moves the payout from the contract to the pool in the token of the coverage, tells
/// the pool of it and announces it; what is decided beforehand is what is then paid.
pub proof fn law_what_a_claim_sets_in_motion(
    s: ReserveState,
    insurance: Address,
    invoice_id: u64,
    evidence: ClaimEvidence,
    covered: int,
)
    requires
        s.claim_refusal(invoice_id, evidence) is None,
        is_insured(covered, s.coverage[invoice_id]),
    ensures
        ({
            let settlement = s.claim_settlement(insurance, invoice_id, evidence);
            let assessment = s.claim_assessment(invoice_id, evidence);
            let token = s.coverage[invoice_id].token;
            let pool_contract = s.config->0.pool_contract;
            let payout = settlement.payout;
            &&& payout == s.claim_payout(invoice_id, evidence)
            &&& settlement.transfer == (Transfer {
                token,
                from: insurance,
                to: pool_contract,
                amount: payout,
            })
            &&& settlement.notice == (PayoutNotice {
                pool_contract,
                insurance,
                token,
                invoice_id,
                amount: payout,
            })
            &&& settlement.event == (Event::Claimed { invoice_id, payout })
            &&& assessment.pool_contract == pool_contract
            &&& assessment.record == s.coverage[invoice_id]
            &&& assessment.covered == covered
            &&& assessment.shortfall == gap(evidence)
            &&& assessment.payout == payout
        }),
{
    law_every_claim_is_decided(s, invoice_id, evidence, covered);
    law_evidence_is_weighed(evidence);
    law_what_a_coverage_insures(s.coverage[invoice_id]);
}

/// The questions about a claim go, in this order, to the invoice contract about the default, to
/// the pool about the funding and to the pool about the collateral, each only once the answers
/// before it still support the claim; a claim they do not support is refused at once.
pub proof fn law_questions_about_a_claim(s: ReserveState, invoice_id: u64, inquiry: ClaimInquiry)
    ensures
        ({
            let refusal = s.inquiry_refusal(invoice_id, inquiry);
            let step = s.claim_step(inquiry);
            let gate = s.claim_gate(invoice_id);
            &&& gate is Some ==> refusal == gate
            &&& gate is None && inquiry.defaulted is None ==> refusal is None && step
                == (ClaimStep::AskDefault { invoice_contract: s.config->0.invoice_contract })
            &&& gate is None && inquiry.defaulted == Some(false) ==> refusal == Some(
                InsuranceError::InvoiceNotDefaulted,
            )
            &&& gate is None && inquiry.defaulted == Some(true) && inquiry.funded is None ==> refusal
                is None && step == (ClaimStep::AskFunding {
                pool_contract: s.config->0.pool_contract,
            })
            &&& gate is None && inquiry.defaulted == Some(true) && inquiry.funded is Some ==> {
                &&& inquiry.funded->0 is None ==> refusal == Some(
                    InsuranceError::FundedInvoiceNotFound,
                )
                &&& inquiry.funded->0 is Some ==> {
                    let funded = inquiry.funded->0->0;
                    let balance = funded.principal - funded.repaid_amount;
                    &&& !(i128::MIN <= balance <= i128::MAX) ==> refusal == Some(
                        InsuranceError::AmountOverflow,
                    )
                    &&& i128::MIN <= balance <= i128::MAX ==> refusal is None
                }
                &&& inquiry.collateral is None ==> step == (ClaimStep::AskCollateral {
                    pool_contract: s.config->0.pool_contract,
                })
                &&& inquiry.collateral is Some ==> step == (ClaimStep::Settle {
                    evidence: ClaimEvidence {
                        defaulted: true,
                        funded: inquiry.funded->0,
                        collateral: inquiry.collateral->0,
                    },
                })
            }
        }),
{
}

} // verus!
