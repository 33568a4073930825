use insurance::address::Address;
use insurance::error::InsuranceError;
use insurance::pricing::{PremiumConfig, RiskTier};
use insurance::purchase::whole_days_until;
use insurance::reserve::InsuranceReserve;
use insurance::types::{
    CoverageRecord, CreditScoreData, Event, ReserveFund, Sale, ScoreQuery, Transfer,
};

const DAY: u64 = 86_400;

fn addr(letter: u8) -> Address {
    Address { strkey: [letter; 56] }
}

fn admin() -> Address {
    addr(b'A')
}

fn pool() -> Address {
    addr(b'P')
}

fn token() -> Address {
    addr(b'T')
}

fn terms() -> PremiumConfig {
    PremiumConfig {
        base_rate_bps: 200,
        tenor_bps_per_day: 10,
        risk_tiers: vec![
            RiskTier { min_score: 200, max_score: 499, risk_multiplier_bps: 15_000 },
            RiskTier { min_score: 500, max_score: 850, risk_multiplier_bps: 10_000 },
        ],
        default_risk_multiplier_bps: 20_000,
        min_premium_bps: 50,
        max_premium_bps: 1_000,
        default_coverage_bps: 8_000,
    }
}

fn ready() -> InsuranceReserve {
    let mut r = InsuranceReserve::default();
    r.initialize(admin(), pool(), addr(b'I')).unwrap();
    r.set_premium_config(admin(), terms()).unwrap();
    r
}

fn score(score: u32, blended_score: u32) -> CreditScoreData {
    CreditScoreData {
        sme: addr(b'M'),
        score,
        total_invoices: 0,
        paid_on_time: 0,
        paid_late: 0,
        defaulted: 0,
        total_volume: 0,
        average_payment_days: 0,
        last_updated: 0,
        score_version: 0,
        config_version: 0,
        is_stale: false,
        blended_score,
    }
}

fn buy(
    r: &mut InsuranceReserve,
    invoice_id: u64,
    principal: i128,
) -> Result<Sale, InsuranceError> {
    r.purchase_coverage(
        addr(b'S'),
        pool(),
        invoice_id,
        principal,
        1_000 + 30 * DAY,
        token(),
        None,
        1_000,
    )
}

fn snapshot(r: &InsuranceReserve) -> String {
    format!("{:?}", r)
}

#[test]
fn sale_books_premium_and_exposure() {
    let mut r = ready();
    r.fund_reserve_from_treasury(addr(b'S'), admin(), token(), 1_000_000).unwrap();
    let sale = buy(&mut r, 7, 1_000_000).unwrap();
    let record = CoverageRecord {
        invoice_id: 7,
        token: token(),
        principal: 1_000_000,
        premium_paid: 41_200,
        coverage_bps: 8_000,
        purchased_at: 1_000,
        claimed: false,
    };
    assert_eq!(sale.record, record);
    assert_eq!(
        sale.transfer,
        Transfer { token: token(), from: pool(), to: addr(b'S'), amount: 41_200 }
    );
    assert_eq!(
        sale.event,
        Event::Covered { invoice_id: 7, payer: pool(), premium: 41_200, coverage_bps: 8_000 }
    );
    assert_eq!(r.get_coverage_record(7), Some(record));
    assert_eq!(r.get_coverage_record(8), None);
    assert_eq!(
        r.get_reserve_status(token()),
        ReserveFund {
            total_reserves: 1_041_200,
            total_premiums_collected: 41_200,
            total_claims_paid: 0,
            total_covered_exposure: 800_000,
            coverage_ratio_bps: 13_015,
            min_coverage_ratio_bps: 0,
        }
    );
    assert!(!r.reentrancy_guard);
}

#[test]
fn exposure_is_the_sum_over_outstanding_coverage() {
    let mut r = ready();
    for (id, principal) in [(1u64, 1_000i128), (2, 2_005), (3, 40_000)] {
        buy(&mut r, id, principal).unwrap();
    }
    let fund = r.get_reserve_status(token());
    assert_eq!(fund.total_covered_exposure, 800 + 1_604 + 32_000);
    assert_eq!(fund.total_premiums_collected, fund.total_reserves);
}

#[test]
fn sale_costs_the_quote() {
    let mut r = ready();
    let quote = r.estimate_premium(123_456, None, 30, token()).unwrap();
    assert_eq!(buy(&mut r, 1, 123_456).unwrap().record.premium_paid, quote);
}

#[test]
fn quote_without_terms_or_principal() {
    let r = InsuranceReserve::default();
    assert_eq!(
        r.estimate_premium(1, None, 1, token()),
        Err(InsuranceError::InvalidPremiumConfig)
    );
    assert_eq!(ready().estimate_premium(0, None, 1, token()), Ok(0));
    assert_eq!(ready().estimate_premium(-5, None, 1, token()), Ok(0));
}

#[test]
fn steepest_quote_still_fits() {
    let mut r = ready();
    let steep = PremiumConfig {
        base_rate_bps: u32::MAX,
        default_risk_multiplier_bps: u32::MAX,
        risk_tiers: Vec::new(),
        max_premium_bps: u32::MAX,
        ..terms()
    };
    r.set_premium_config(admin(), steep).unwrap();
    assert_eq!(
        r.estimate_premium(i128::MAX, None, u32::MAX, token()),
        Ok((u128::MAX / 10_000) as i128)
    );
}

#[test]
fn score_prefers_blended_then_internal_then_stand_in() {
    let mut r = ready();
    assert_eq!(r.resolve_credit_score(Some(score(700, 800))), 300);
    assert_eq!(r.score_query(addr(b'M')), None);
    r.set_credit_score_contract(admin(), addr(b'C')).unwrap();
    assert_eq!(r.resolve_credit_score(Some(score(700, 800))), 800);
    assert_eq!(r.resolve_credit_score(Some(score(700, 0))), 700);
    assert_eq!(r.resolve_credit_score(None), 300);
    assert_eq!(
        r.score_query(addr(b'M')),
        Some(ScoreQuery { credit_score_contract: addr(b'C'), sme: addr(b'M') })
    );
}

#[test]
fn score_sets_the_price() {
    let mut r = ready();
    r.set_credit_score_contract(admin(), addr(b'C')).unwrap();
    assert_eq!(r.estimate_premium(1_000_000, Some(score(100, 600)), 30, token()), Ok(20_600));
    assert_eq!(r.estimate_premium(1_000_000, Some(score(100, 0)), 30, token()), Ok(41_200));
    assert_eq!(r.estimate_premium(1_000_000, Some(score(300, 0)), 30, token()), Ok(30_900));
}

#[test]
fn missing_credit_data_is_priced_at_the_default_multiplier() {
    let mut r = ready();
    let banded = PremiumConfig {
        base_rate_bps: 200,
        tenor_bps_per_day: 0,
        risk_tiers: vec![RiskTier { min_score: 200, max_score: 400, risk_multiplier_bps: 15_000 }],
        default_risk_multiplier_bps: 30_000,
        min_premium_bps: 0,
        max_premium_bps: 10_000,
        default_coverage_bps: 10_000,
    };
    r.set_premium_config(admin(), banded).unwrap();
    // no contract to ask, so no reply counts
    assert_eq!(r.estimate_premium(1_000_000, None, 0, token()), Ok(60_000));
    assert_eq!(r.estimate_premium(1_000_000, Some(score(300, 0)), 0, token()), Ok(60_000));
    // a contract that does not answer
    r.set_credit_score_contract(admin(), addr(b'C')).unwrap();
    assert_eq!(r.estimate_premium(1_000_000, None, 0, token()), Ok(60_000));
    assert_eq!(buy(&mut r, 1, 1_000_000).unwrap().record.premium_paid, 60_000);
    // a reply with the stand-in's score is a score like any other
    assert_eq!(r.estimate_premium(1_000_000, Some(score(300, 0)), 0, token()), Ok(30_000));
}

#[test]
fn tenor_counts_whole_days() {
    assert_eq!(whole_days_until(0, 0), 0);
    assert_eq!(whole_days_until(DAY - 1, 0), 0);
    assert_eq!(whole_days_until(DAY, 0), 1);
    assert_eq!(whole_days_until(5, 500 * DAY), 0);
    assert_eq!(whole_days_until(10 * DAY + 7, 3 * DAY + 8), 6);
    // the count is held at its largest value
    assert_eq!(whole_days_until(((1u64 << 32) - 1) * DAY, 0), u32::MAX);
    assert_eq!(whole_days_until((1u64 << 32) * DAY + 2 * DAY, 0), u32::MAX);
    assert_eq!(whole_days_until(u64::MAX, 0), u32::MAX);
}

#[test]
fn steps_name_what_to_ask() {
    let mut r = ready();
    let config = r.admit_purchase(pool(), 1).unwrap();
    assert_eq!(config.invoice_contract, addr(b'I'));
    assert_eq!(r.admit_pricing(1, addr(b'M')), Ok(None));
    assert_eq!(r.admit_quote(addr(b'M')), Ok(None));
    assert_eq!(
        InsuranceReserve::default().admit_quote(addr(b'M')),
        Err(InsuranceError::InvalidPremiumConfig)
    );
    r.set_credit_score_contract(admin(), addr(b'C')).unwrap();
    assert_eq!(
        r.admit_pricing(1, addr(b'M')),
        Ok(Some(ScoreQuery { credit_score_contract: addr(b'C'), sme: addr(b'M') }))
    );
    buy(&mut r, 1, 1_000).unwrap();
    assert_eq!(r.admit_pricing(1, addr(b'M')), Err(InsuranceError::AlreadyCovered));
}

#[test]
fn sale_refusals_in_order() {
    let mut r = InsuranceReserve::default();
    assert_eq!(buy(&mut r, 1, 0), Err(InsuranceError::NotInitialized));
    r.initialize(admin(), pool(), addr(b'I')).unwrap();
    assert_eq!(
        r.purchase_coverage(addr(b'S'), admin(), 1, 0, 0, token(), None, 0),
        Err(InsuranceError::Unauthorized)
    );
    assert_eq!(buy(&mut r, 1, 0), Err(InsuranceError::InvalidAmount));
    assert_eq!(buy(&mut r, 1, -9), Err(InsuranceError::InvalidAmount));
    assert_eq!(buy(&mut r, 1, 1_000), Err(InsuranceError::InvalidPremiumConfig));
    r.set_premium_config(admin(), terms()).unwrap();
    assert!(buy(&mut r, 1, 1_000).is_ok());
    let before = snapshot(&r);
    assert_eq!(buy(&mut r, 1, 1_000), Err(InsuranceError::AlreadyCovered));
    assert_eq!(snapshot(&r), before);
    r.pause(admin()).unwrap();
    assert_eq!(buy(&mut r, 2, 1_000), Err(InsuranceError::ContractPaused));
}

#[test]
fn free_coverage_is_not_sold() {
    let mut r = ready();
    r.set_premium_config(admin(), PremiumConfig { min_premium_bps: 0, ..terms() }).unwrap();
    let before = snapshot(&r);
    assert_eq!(buy(&mut r, 1, 20), Err(InsuranceError::InvalidAmount));
    assert_eq!(snapshot(&r), before);
    assert!(buy(&mut r, 1, 1_000).is_ok());
}

#[test]
fn floor_stops_sales() {
    let mut r = ready();
    r.set_min_coverage_ratio(admin(), token(), 10_000).unwrap();
    let before = snapshot(&r);
    assert_eq!(buy(&mut r, 1, 1_000_000), Err(InsuranceError::CoverageRatioFloorBreached));
    assert_eq!(snapshot(&r), before);
    // 758_800 and the premium of 41_200 back the exposure of 800_000 exactly
    r.fund_reserve_from_treasury(addr(b'S'), admin(), token(), 758_799).unwrap();
    assert_eq!(buy(&mut r, 1, 1_000_000), Err(InsuranceError::CoverageRatioFloorBreached));
    r.fund_reserve_from_treasury(addr(b'S'), admin(), token(), 1).unwrap();
    buy(&mut r, 1, 1_000_000).unwrap();
    assert_eq!(r.get_reserve_status(token()).coverage_ratio_bps, 10_000);
}

#[test]
fn floor_lets_a_huge_fully_backed_fund_sell() {
    let mut r = ready();
    r.set_min_coverage_ratio(admin(), token(), 10_000).unwrap();
    let mut fund = r.get_reserve_status(token());
    fund.total_reserves = i128::MAX - 41_200;
    fund.total_covered_exposure = i128::MAX - 800_000;
    r.reserves.insert(token(), fund);
    buy(&mut r, 1, 1_000_000).unwrap();
    let fund = r.get_reserve_status(token());
    assert_eq!(fund.total_reserves, i128::MAX);
    assert_eq!(fund.total_covered_exposure, i128::MAX);
    assert_eq!(fund.coverage_ratio_bps, 10_000);
}

#[test]
fn later_due_date_is_never_cheaper() {
    let mut last: i128 = 0;
    for days in [0u64, 1, 30, 365, 1 << 31, 1 << 32, (1 << 32) + 5, 1 << 40] {
        let mut r = ready();
        let sale = r
            .purchase_coverage(addr(b'S'), pool(), 1, 1_000_000, days * DAY, token(), None, 0)
            .unwrap();
        assert!(sale.record.premium_paid >= last);
        last = sale.record.premium_paid;
    }
    assert_eq!(last, 100_000);
}

#[test]
fn sale_refuses_amounts_that_do_not_fit() {
    let mut r = ready();
    // the covered amount
    assert_eq!(buy(&mut r, 1, i128::MAX / 4_000), Err(InsuranceError::AmountOverflow));
    // the reserve
    r.fund_reserve_from_treasury(addr(b'S'), admin(), token(), i128::MAX).unwrap();
    assert_eq!(buy(&mut r, 1, 1_000), Err(InsuranceError::AmountOverflow));
    // the premiums
    let mut r = ready();
    r.reserves.insert(
        token(),
        ReserveFund { total_premiums_collected: i128::MAX, ..ReserveFund::default() },
    );
    let before = snapshot(&r);
    assert_eq!(buy(&mut r, 1, 1_000), Err(InsuranceError::AmountOverflow));
    assert_eq!(snapshot(&r), before);
    // the exposure
    r.reserves.insert(
        token(),
        ReserveFund { total_covered_exposure: i128::MAX, ..ReserveFund::default() },
    );
    assert_eq!(buy(&mut r, 1, 1_000), Err(InsuranceError::AmountOverflow));
}

#[test]
fn sale_refuses_a_nested_call() {
    let mut r = ready();
    r.non_reentrant_start();
    assert_eq!(buy(&mut r, 1, 1_000), Err(InsuranceError::Unauthorized));
}

#[test]
fn tokens_are_separate() {
    let mut r = ready();
    r.fund_reserve_from_treasury(addr(b'S'), admin(), addr(b'U'), 5).unwrap();
    let other = r.get_reserve_status(addr(b'U'));
    buy(&mut r, 1, 1_000_000).unwrap();
    assert_eq!(r.get_reserve_status(addr(b'U')), other);
}

#[test]
fn touched_entries_alone_decide_a_sale() {
    let mut full = ready();
    full.fund_reserve_from_treasury(addr(b'S'), admin(), token(), 999).unwrap();
    full.fund_reserve_from_treasury(addr(b'S'), admin(), addr(b'U'), 5).unwrap();
    buy(&mut full, 1, 2_000).unwrap();
    let mut part = ready();
    part.reserves.insert(token(), full.get_reserve_status(token()));
    assert_eq!(buy(&mut part, 2, 3_000), buy(&mut full, 2, 3_000));
    assert_eq!(part.get_reserve_status(token()), full.get_reserve_status(token()));
    assert_eq!(part.get_coverage_record(2), full.get_coverage_record(2));
}
