use insurance::address::Address;
use insurance::claim::{
    amount_owed, claimable_shortfall, ClaimEvidence, ClaimInquiry, ClaimStep,
};
use insurance::error::InsuranceError;
use insurance::pricing::PremiumConfig;
use insurance::reserve::InsuranceReserve;
use insurance::types::{
    ClaimHistoryItem, CollateralDepositView, CoverageRecord, Event, FundedInvoiceView,
    PayoutNotice, ReserveFund, Settlement, Transfer,
};

fn addr(letter: u8) -> Address {
    Address { strkey: [letter; 56] }
}

fn admin() -> Address {
    addr(b'A')
}

fn pool() -> Address {
    addr(b'P')
}

fn token() -> Address {
    addr(b'T')
}

fn terms() -> PremiumConfig {
    PremiumConfig {
        base_rate_bps: 200,
        tenor_bps_per_day: 0,
        risk_tiers: Vec::new(),
        default_risk_multiplier_bps: 10_000,
        min_premium_bps: 50,
        max_premium_bps: 1_000,
        default_coverage_bps: 8_000,
    }
}

/// A reserve with `funded` from the treasury and coverage of 8_000 on invoice 1, for which a
/// premium of 200 was paid.
fn covered(funded: i128) -> InsuranceReserve {
    let mut r = InsuranceReserve::default();
    r.initialize(admin(), pool(), addr(b'I')).unwrap();
    r.set_premium_config(admin(), terms()).unwrap();
    if funded > 0 {
        r.fund_reserve_from_treasury(addr(b'S'), admin(), token(), funded).unwrap();
    }
    r.purchase_coverage(addr(b'S'), pool(), 1, 10_000, 0, token(), None, 5).unwrap();
    r
}

fn invoice(principal: i128, repaid_amount: i128) -> Option<FundedInvoiceView> {
    Some(FundedInvoiceView {
        invoice_id: 1,
        sme: addr(b'M'),
        token: token(),
        principal,
        funded_at: 0,
        factoring_fee: 0,
        due_date: 0,
        repaid_amount,
    })
}

fn collateral(amount: i128, settled: bool) -> Option<CollateralDepositView> {
    Some(CollateralDepositView {
        invoice_id: 1,
        depositor: addr(b'M'),
        token: token(),
        amount,
        settled,
        posted_at: 0,
        released_at: 0,
        seized_at: 0,
    })
}

fn evidence(
    funded: Option<FundedInvoiceView>,
    collateral: Option<CollateralDepositView>,
) -> ClaimEvidence {
    ClaimEvidence { defaulted: true, funded, collateral }
}

fn claim(r: &mut InsuranceReserve, e: ClaimEvidence) -> Result<Settlement, InsuranceError> {
    r.file_claim(addr(b'S'), addr(b'X'), 1, e, 99)
}

fn snapshot(r: &InsuranceReserve) -> String {
    format!("{:?}", r)
}

#[test]
fn claim_pays_the_pool() {
    let mut r = covered(50_000);
    let s = claim(&mut r, evidence(invoice(10_000, 1_000), collateral(4_000, true))).unwrap();
    assert_eq!(s.payout, 5_000);
    assert_eq!(
        s.transfer,
        Transfer { token: token(), from: addr(b'S'), to: pool(), amount: 5_000 }
    );
    assert_eq!(
        s.notice,
        PayoutNotice {
            pool_contract: pool(),
            insurance: addr(b'S'),
            token: token(),
            invoice_id: 1,
            amount: 5_000
        }
    );
    assert_eq!(s.event, Event::Claimed { invoice_id: 1, payout: 5_000 });
    assert_eq!(
        r.get_reserve_status(token()),
        ReserveFund {
            total_reserves: 45_200,
            total_premiums_collected: 200,
            total_claims_paid: 5_000,
            total_covered_exposure: 0,
            coverage_ratio_bps: 10_000,
            min_coverage_ratio_bps: 0,
        }
    );
    assert_eq!(
        r.get_claim_history(1),
        vec![ClaimHistoryItem {
            invoice_id: 1,
            token: token(),
            payout: 5_000,
            shortfalls: 5_000,
            timestamp: 99
        }]
    );
    assert!(r.get_coverage_record(1).unwrap().claimed);
    assert!(!r.reentrancy_guard);
}

#[test]
fn payout_is_capped_by_the_coverage() {
    let mut r = covered(50_000);
    let s = claim(&mut r, evidence(invoice(10_000, 0), None)).unwrap();
    assert_eq!(s.payout, 8_000);
    assert_eq!(r.get_claim_history(1)[0].shortfalls, 10_000);
}

#[test]
fn payout_is_capped_by_the_reserve() {
    let mut r = covered(300);
    let s = claim(&mut r, evidence(invoice(10_000, 0), None)).unwrap();
    assert_eq!(s.payout, 500);
    let fund = r.get_reserve_status(token());
    assert_eq!(fund.total_reserves, 0);
    assert_eq!(fund.total_covered_exposure, 0);
}

#[test]
fn unsettled_collateral_recovers_nothing() {
    let mut r = covered(50_000);
    let s = claim(&mut r, evidence(invoice(10_000, 9_000), collateral(4_000, false))).unwrap();
    assert_eq!(s.payout, 1_000);
}

#[test]
fn who_files_does_not_matter() {
    let e = evidence(invoice(10_000, 0), None);
    let mut a = covered(50_000);
    let mut b = covered(50_000);
    assert_eq!(
        a.file_claim(addr(b'S'), admin(), 1, e, 99),
        b.file_claim(addr(b'S'), addr(b'Z'), 1, e, 99)
    );
    assert_eq!(snapshot(&a), snapshot(&b));
}

#[test]
fn coverage_pays_once() {
    let mut r = covered(50_000);
    let e = evidence(invoice(10_000, 0), None);
    claim(&mut r, e).unwrap();
    let before = snapshot(&r);
    assert_eq!(claim(&mut r, e), Err(InsuranceError::AlreadyClaimed));
    assert_eq!(r.admit_claim(1), Err(InsuranceError::AlreadyClaimed));
    assert_eq!(snapshot(&r), before);
    assert_eq!(r.get_claim_history(1).len(), 1);
    assert_eq!(r.get_claim_count(1), 1);
}

#[test]
fn claim_takes_only_its_own_exposure() {
    let mut r = covered(50_000);
    r.purchase_coverage(addr(b'S'), pool(), 2, 1_000, 0, token(), None, 5).unwrap();
    assert_eq!(r.get_reserve_status(token()).total_covered_exposure, 8_800);
    claim(&mut r, evidence(invoice(10_000, 9_999), None)).unwrap();
    assert_eq!(r.get_reserve_status(token()).total_covered_exposure, 800);
    assert!(!r.get_coverage_record(2).unwrap().claimed);
    assert_eq!(r.get_claim_history(2), Vec::new());
}

#[test]
fn reserves_are_accounted_for() {
    let mut r = covered(50_000);
    r.purchase_coverage(addr(b'S'), pool(), 2, 1_000, 0, token(), None, 5).unwrap();
    claim(&mut r, evidence(invoice(10_000, 0), None)).unwrap();
    let fund = r.get_reserve_status(token());
    assert_eq!(
        fund.total_reserves,
        50_000 + fund.total_premiums_collected - fund.total_claims_paid
    );
    assert_eq!(fund.total_reserves, 42_220);
}

#[test]
fn claim_refusals_in_order() {
    let mut r = InsuranceReserve::default();
    let sound = evidence(invoice(10_000, 0), None);
    assert_eq!(claim(&mut r, sound), Err(InsuranceError::NoCoverageFound));
    let record = CoverageRecord {
        invoice_id: 1,
        token: token(),
        principal: 10_000,
        premium_paid: 200,
        coverage_bps: 8_000,
        purchased_at: 0,
        claimed: false,
    };
    r.coverage.insert(1, record);
    assert_eq!(claim(&mut r, sound), Err(InsuranceError::NotInitialized));

    let mut r = covered(50_000);
    assert_eq!(r.admit_claim(1).unwrap().pool_contract, pool());
    let before = snapshot(&r);
    assert_eq!(
        claim(&mut r, ClaimEvidence { defaulted: false, funded: None, collateral: None }),
        Err(InsuranceError::InvoiceNotDefaulted)
    );
    assert_eq!(
        claim(&mut r, evidence(None, None)),
        Err(InsuranceError::FundedInvoiceNotFound)
    );
    assert_eq!(
        claim(&mut r, evidence(invoice(10_000, 10_000), None)),
        Err(InsuranceError::NoShortfall)
    );
    assert_eq!(
        claim(&mut r, evidence(invoice(10_000, 6_000), collateral(4_000, true))),
        Err(InsuranceError::NoShortfall)
    );
    assert_eq!(
        claim(&mut r, evidence(invoice(i128::MAX, -1), None)),
        Err(InsuranceError::AmountOverflow)
    );
    assert_eq!(
        claim(&mut r, evidence(invoice(i128::MAX, 0), collateral(-1, true))),
        Err(InsuranceError::AmountOverflow)
    );
    assert_eq!(snapshot(&r), before);
    r.pause(admin()).unwrap();
    assert_eq!(claim(&mut r, sound), Err(InsuranceError::ContractPaused));
}

#[test]
fn empty_reserve_does_not_spend_the_claim() {
    let mut r = covered(0);
    r.purchase_coverage(addr(b'S'), pool(), 2, 10_000, 0, token(), None, 5).unwrap();
    let e = evidence(invoice(10_000, 0), None);
    // the first claim takes both premiums
    assert_eq!(r.file_claim(addr(b'S'), addr(b'X'), 2, e, 99).unwrap().payout, 400);
    let before = snapshot(&r);
    assert_eq!(claim(&mut r, e), Err(InsuranceError::InsufficientReserves));
    assert_eq!(snapshot(&r), before);
    r.fund_reserve_from_treasury(addr(b'S'), admin(), token(), 7).unwrap();
    assert_eq!(claim(&mut r, e).unwrap().payout, 7);
}

#[test]
fn claim_refuses_amounts_that_do_not_fit() {
    let mut r = covered(50_000);
    let mut record = r.get_coverage_record(1).unwrap();
    record.principal = i128::MAX;
    r.coverage.insert(1, record);
    let e = evidence(invoice(10_000, 0), None);
    assert_eq!(claim(&mut r, e), Err(InsuranceError::AmountOverflow));

    let mut r = covered(50_000);
    let mut fund = r.get_reserve_status(token());
    fund.total_claims_paid = i128::MAX;
    r.reserves.insert(token(), fund);
    let before = snapshot(&r);
    assert_eq!(claim(&mut r, e), Err(InsuranceError::AmountOverflow));
    assert_eq!(snapshot(&r), before);
}

#[test]
fn coverage_of_nothing_pays_nothing() {
    let mut r = covered(50_000);
    let mut record = r.get_coverage_record(1).unwrap();
    record.principal = -10_001;
    r.coverage.insert(1, record);
    let e = evidence(invoice(10_000, 0), None);
    assert_eq!(claim(&mut r, e), Err(InsuranceError::NoShortfall));
}

#[test]
fn claim_refuses_a_nested_call() {
    let mut r = covered(50_000);
    r.non_reentrant_start();
    let e = evidence(invoice(10_000, 0), None);
    assert_eq!(claim(&mut r, e), Err(InsuranceError::Unauthorized));
}

#[test]
fn debt_and_shortfall() {
    assert_eq!(amount_owed(None), Err(InsuranceError::FundedInvoiceNotFound));
    assert_eq!(amount_owed(invoice(10, 4)), Ok(6));
    assert_eq!(amount_owed(invoice(10, 40)), Ok(0));
    assert_eq!(amount_owed(invoice(i128::MIN, 1)), Err(InsuranceError::AmountOverflow));
    // collateral in the negative adds to the shortfall
    assert_eq!(claimable_shortfall(evidence(invoice(10, 4), collateral(-3, true))), Ok(9));
}

#[test]
fn inquiry_asks_in_order_and_stops_early() {
    let r = covered(50_000);
    let mut inquiry = ClaimInquiry { defaulted: None, funded: None, collateral: None };
    assert_eq!(
        r.next_claim_step(1, inquiry),
        Ok(ClaimStep::AskDefault { invoice_contract: addr(b'I') })
    );
    inquiry.defaulted = Some(false);
    assert_eq!(r.next_claim_step(1, inquiry), Err(InsuranceError::InvoiceNotDefaulted));
    inquiry.defaulted = Some(true);
    assert_eq!(
        r.next_claim_step(1, inquiry),
        Ok(ClaimStep::AskFunding { pool_contract: pool() })
    );
    inquiry.funded = Some(None);
    assert_eq!(r.next_claim_step(1, inquiry), Err(InsuranceError::FundedInvoiceNotFound));
    inquiry.funded = Some(invoice(i128::MAX, -1));
    assert_eq!(r.next_claim_step(1, inquiry), Err(InsuranceError::AmountOverflow));
    inquiry.funded = Some(invoice(10_000, 0));
    assert_eq!(
        r.next_claim_step(1, inquiry),
        Ok(ClaimStep::AskCollateral { pool_contract: pool() })
    );
    inquiry.collateral = Some(collateral(4_000, true));
    assert_eq!(
        r.next_claim_step(1, inquiry),
        Ok(ClaimStep::Settle {
            evidence: evidence(invoice(10_000, 0), collateral(4_000, true))
        })
    );
    assert_eq!(r.next_claim_step(2, inquiry), Err(InsuranceError::NoCoverageFound));
}

#[test]
fn assessment_decides_as_the_claim_does() {
    let mut r = covered(50_000);
    let e = evidence(invoice(10_000, 1_000), collateral(4_000, true));
    let claimed = r.assess_claim(1, e).unwrap();
    assert_eq!(claimed.pool_contract, pool());
    assert_eq!(claimed.record, r.get_coverage_record(1).unwrap());
    assert_eq!(claimed.covered, 8_000);
    assert_eq!(claimed.shortfall, 5_000);
    assert_eq!(claimed.payout, 5_000);
    assert_eq!(claim(&mut r, e).unwrap().payout, 5_000);
    assert_eq!(r.assess_claim(1, e), Err(InsuranceError::AlreadyClaimed));
    // a full history does not hide the reasons to refuse
    let mut r = covered(50_000);
    r.claim_counts.insert(1, u32::MAX);
    assert_eq!(claim(&mut r, evidence(None, None)), Err(InsuranceError::FundedInvoiceNotFound));
}

#[test]
fn history_keeps_its_order_and_skips_gaps() {
    let mut r = covered(50_000);
    let item = ClaimHistoryItem {
        invoice_id: 1,
        token: token(),
        payout: 1,
        shortfalls: 2,
        timestamp: 3,
    };
    r.claim_counts.insert(1, 2);
    r.claim_entries.insert(insurance::types::ClaimSlot { invoice_id: 1, index: 1 }, item);
    assert_eq!(r.get_claim_history(1), vec![item]);
    claim(&mut r, evidence(invoice(10_000, 0), None)).unwrap();
    let history = r.get_claim_history(1);
    assert_eq!(history.len(), 2);
    assert_eq!(history[0], item);
    assert_eq!(history[1].payout, 8_000);
    assert_eq!(r.get_claim_count(1), 3);
}
