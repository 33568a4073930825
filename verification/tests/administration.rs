use insurance::address::Address;
use insurance::error::InsuranceError;
use insurance::pricing::{PremiumConfig, RiskTier};
use insurance::reserve::InsuranceReserve;
use insurance::types::{Event, ReserveFund, ReserveHealth, Transfer};

fn addr(letter: u8) -> Address {
    Address { strkey: [letter; 56] }
}

fn admin() -> Address {
    addr(b'A')
}

fn token() -> Address {
    addr(b'T')
}

fn config() -> PremiumConfig {
    PremiumConfig {
        base_rate_bps: 200,
        tenor_bps_per_day: 10,
        risk_tiers: vec![RiskTier { min_score: 0, max_score: 500, risk_multiplier_bps: 9_000 }],
        default_risk_multiplier_bps: 20_000,
        min_premium_bps: 50,
        max_premium_bps: 1_000,
        default_coverage_bps: 8_000,
    }
}

fn ready() -> InsuranceReserve {
    let mut r = InsuranceReserve::default();
    r.initialize(admin(), addr(b'P'), addr(b'I')).unwrap();
    r
}

fn snapshot(r: &InsuranceReserve) -> String {
    format!("{:?}", r)
}

#[test]
fn initialize_once() {
    let mut r = InsuranceReserve::default();
    assert_eq!(
        r.initialize(admin(), addr(b'P'), addr(b'I')),
        Ok(Event::Initialized { admin: admin() })
    );
    let before = snapshot(&r);
    assert_eq!(
        r.initialize(addr(b'X'), addr(b'Y'), addr(b'Z')),
        Err(InsuranceError::AlreadyInitialized)
    );
    assert_eq!(snapshot(&r), before);
    assert_eq!(r.config.unwrap().pool_contract, addr(b'P'));
    assert_eq!(r.config.unwrap().invoice_contract, addr(b'I'));
}

#[test]
fn administration_needs_a_configured_contract() {
    let mut r = InsuranceReserve::default();
    let e = InsuranceError::NotInitialized;
    assert_eq!(r.set_premium_config(admin(), config()), Err(e));
    assert_eq!(r.set_min_coverage_ratio(admin(), token(), 1), Err(e));
    assert_eq!(r.set_credit_score_contract(admin(), addr(b'C')), Err(e));
    assert_eq!(r.fund_reserve_from_treasury(addr(b'S'), admin(), token(), 1), Err(e));
    assert_eq!(r.pause(admin()), Err(e));
    assert_eq!(r.unpause(admin()), Err(e));
    assert_eq!(r.set_min_reserve_amount(admin(), token(), 1), Err(e));
}

#[test]
fn administration_is_for_the_admin() {
    let mut r = ready();
    let before = snapshot(&r);
    let other = addr(b'X');
    let e = InsuranceError::Unauthorized;
    assert_eq!(r.set_premium_config(other, config()), Err(e));
    assert_eq!(r.set_min_coverage_ratio(other, token(), 1), Err(e));
    assert_eq!(r.set_credit_score_contract(other, addr(b'C')), Err(e));
    assert_eq!(r.fund_reserve_from_treasury(addr(b'S'), other, token(), 1), Err(e));
    assert_eq!(r.pause(other), Err(e));
    assert_eq!(r.unpause(other), Err(e));
    assert_eq!(r.set_min_reserve_amount(other, token(), 1), Err(e));
    assert_eq!(snapshot(&r), before);
}

#[test]
fn addresses_differ_in_any_character() {
    let mut r = ready();
    let mut almost = admin();
    almost.strkey[55] = b'B';
    assert_eq!(r.pause(almost), Err(InsuranceError::Unauthorized));
    almost.strkey[55] = b'A';
    assert_eq!(r.pause(almost), Ok(Event::Paused { admin: admin() }));
}

#[test]
fn premium_config_is_checked_and_read_back() {
    let mut r = ready();
    assert_eq!(r.get_premium_config(), None);
    assert_eq!(
        r.set_premium_config(admin(), PremiumConfig { max_premium_bps: 49, ..config() }),
        Err(InsuranceError::InvalidPremiumConfig)
    );
    assert_eq!(
        r.set_premium_config(admin(), PremiumConfig { default_coverage_bps: 0, ..config() }),
        Err(InsuranceError::InvalidCoverageBps)
    );
    assert_eq!(
        r.set_premium_config(admin(), PremiumConfig { default_coverage_bps: 10_001, ..config() }),
        Err(InsuranceError::InvalidCoverageBps)
    );
    assert_eq!(r.get_premium_config(), None);
    let full = PremiumConfig { default_coverage_bps: 10_000, max_premium_bps: 50, ..config() };
    assert_eq!(
        r.set_premium_config(admin(), full.clone()),
        Ok(Event::PremiumConfigSet { admin: admin() })
    );
    assert_eq!(r.get_premium_config(), Some(full));
}

#[test]
fn coverage_floor_is_checked_and_stored() {
    let mut r = ready();
    assert_eq!(
        r.set_min_coverage_ratio(admin(), token(), 10_001),
        Err(InsuranceError::InvalidMinCoverageRatio)
    );
    assert_eq!(
        r.set_min_coverage_ratio(admin(), token(), 10_000),
        Ok(Event::MinCoverageRatioSet {
            admin: admin(),
            token: token(),
            min_ratio_bps: 10_000
        })
    );
    assert_eq!(r.get_reserve_status(token()).min_coverage_ratio_bps, 10_000);
    assert_eq!(r.get_reserve_status(addr(b'U')).min_coverage_ratio_bps, 0);
}

#[test]
fn credit_score_contract_is_read_back() {
    let mut r = ready();
    assert_eq!(r.get_credit_score_contract(), None);
    assert_eq!(r.set_credit_score_contract(admin(), addr(b'C')), Ok(()));
    assert_eq!(r.get_credit_score_contract(), Some(addr(b'C')));
}

#[test]
fn funding_adds_to_the_reserve() {
    let mut r = ready();
    let funding = r.fund_reserve_from_treasury(addr(b'S'), admin(), token(), 700).unwrap();
    assert_eq!(
        funding.transfer,
        Transfer { token: token(), from: admin(), to: addr(b'S'), amount: 700 }
    );
    assert_eq!(
        funding.event,
        Event::ReserveFunded { admin: admin(), token: token(), amount: 700 }
    );
    r.fund_reserve_from_treasury(addr(b'S'), admin(), token(), 50).unwrap();
    assert_eq!(
        r.get_reserve_status(token()),
        ReserveFund {
            total_reserves: 750,
            total_premiums_collected: 0,
            total_claims_paid: 0,
            total_covered_exposure: 0,
            coverage_ratio_bps: 10_000,
            min_coverage_ratio_bps: 0,
        }
    );
    assert_eq!(r.get_reserve_status(addr(b'U')), ReserveFund::default());
    assert!(!r.reentrancy_guard);
}

#[test]
fn funding_refuses_bad_amounts() {
    let mut r = ready();
    let s = addr(b'S');
    assert_eq!(
        r.fund_reserve_from_treasury(s, admin(), token(), 0),
        Err(InsuranceError::InvalidAmount)
    );
    assert_eq!(
        r.fund_reserve_from_treasury(s, admin(), token(), -1),
        Err(InsuranceError::InvalidAmount)
    );
    r.fund_reserve_from_treasury(s, admin(), token(), i128::MAX).unwrap();
    let before = snapshot(&r);
    assert_eq!(
        r.fund_reserve_from_treasury(s, admin(), token(), 1),
        Err(InsuranceError::AmountOverflow)
    );
    assert_eq!(snapshot(&r), before);
}

#[test]
fn funding_refuses_a_nested_call() {
    let mut r = ready();
    assert_eq!(r.require_not_entered(), Ok(()));
    r.non_reentrant_start();
    assert!(r.reentrancy_guard);
    assert_eq!(r.require_not_entered(), Err(InsuranceError::Unauthorized));
    assert_eq!(
        r.fund_reserve_from_treasury(addr(b'S'), admin(), token(), 1),
        Err(InsuranceError::Unauthorized)
    );
    r.non_reentrant_end();
    assert_eq!(r.require_not_entered(), Ok(()));
    assert!(r.fund_reserve_from_treasury(addr(b'S'), admin(), token(), 1).is_ok());
}

#[test]
fn guard_is_up_from_start_to_end() {
    let mut r = ready();
    let before = snapshot(&r);
    r.non_reentrant_end();
    assert!(!r.reentrancy_guard);
    r.non_reentrant_start();
    r.non_reentrant_end();
    r.non_reentrant_start();
    assert!(r.reentrancy_guard);
    r.non_reentrant_end();
    r.non_reentrant_end();
    assert_eq!(snapshot(&r), before);
}

#[test]
fn unpause_undoes_pause() {
    let mut r = ready();
    let before = snapshot(&r);
    assert_eq!(r.pause(admin()), Ok(Event::Paused { admin: admin() }));
    assert_eq!(r.require_not_paused(), Err(InsuranceError::ContractPaused));
    assert_eq!(r.unpause(admin()), Ok(Event::Unpaused { admin: admin() }));
    assert_eq!(r.require_not_paused(), Ok(()));
    assert_eq!(snapshot(&r), before);
}

#[test]
fn untouched_fund_has_no_exposure_and_a_whole_ratio() {
    let r = ready();
    let fund = r.get_reserve_status(token());
    assert_eq!(fund.total_reserves, 0);
    assert_eq!(fund.total_covered_exposure, 0);
    assert_eq!(fund.coverage_ratio_bps, 10_000);
}

#[test]
fn health_against_the_minimum() {
    let mut r = ready();
    let health = r.check_reserve_health(token());
    assert!(health.is_healthy && !health.needs_top_up);
    assert_eq!(
        r.set_min_reserve_amount(admin(), token(), -1),
        Err(InsuranceError::InvalidAmount)
    );
    assert_eq!(
        r.set_min_reserve_amount(admin(), token(), 100),
        Ok(Event::MinReserveAmountSet { admin: admin(), token: token(), min_amount: 100 })
    );
    assert_eq!(r.get_min_reserve_amount(token()), 100);
    assert_eq!(r.get_min_reserve_amount(addr(b'U')), 0);
    r.fund_reserve_from_treasury(addr(b'S'), admin(), token(), 99).unwrap();
    assert_eq!(
        r.check_reserve_health(token()),
        ReserveHealth {
            token: token(),
            total_reserves: 99,
            coverage_ratio_bps: 10_000,
            min_reserve_amount: 100,
            is_healthy: false,
            needs_top_up: true,
        }
    );
    r.fund_reserve_from_treasury(addr(b'S'), admin(), token(), 1).unwrap();
    let health = r.check_reserve_health(token());
    assert!(health.is_healthy && !health.needs_top_up);
}

#[test]
fn ratio_of_reserves_to_exposure() {
    assert_eq!(InsuranceReserve::ratio_bps(5, 0), 10_000);
    assert_eq!(InsuranceReserve::ratio_bps(5, -3), 10_000);
    assert_eq!(InsuranceReserve::ratio_bps(0, 5), 0);
    assert_eq!(InsuranceReserve::ratio_bps(-7, 5), 0);
    assert_eq!(InsuranceReserve::ratio_bps(5, 5), 10_000);
    assert_eq!(InsuranceReserve::ratio_bps(1, 3), 3_333);
    assert_eq!(InsuranceReserve::ratio_bps(i128::MAX, 1), u32::MAX);
    // amounts whose product with the scale fits no integer type
    assert_eq!(InsuranceReserve::ratio_bps(i128::MAX, i128::MAX), 10_000);
    assert_eq!(InsuranceReserve::ratio_bps(i128::MAX - 1, i128::MAX), 9_999);
    assert_eq!(InsuranceReserve::ratio_bps(i128::MAX, i128::MAX - 1), 10_000);
    assert_eq!(InsuranceReserve::ratio_bps(i128::MAX / 2, i128::MAX), 4_999);
    assert_eq!(InsuranceReserve::ratio_bps(i128::MAX, i128::MAX / 3), 30_000);
    assert_eq!(InsuranceReserve::ratio_bps(1 << 126, (1 << 126) / 7 * 3), 23_333);
    assert_eq!(InsuranceReserve::ratio_bps(429_496, 1), 4_294_960_000);
    assert_eq!(InsuranceReserve::ratio_bps(429_497, 1), u32::MAX);
    assert_eq!(InsuranceReserve::ratio_bps(1 << 100, 1 << 83), 1_310_720_000);
}

#[test]
fn recompute_touches_the_ratio_alone() {
    let mut fund = ReserveFund {
        total_reserves: 30,
        total_premiums_collected: 1,
        total_claims_paid: 2,
        total_covered_exposure: 40,
        coverage_ratio_bps: 0,
        min_coverage_ratio_bps: 3,
    };
    InsuranceReserve::recompute_ratio(&mut fund);
    assert_eq!(
        fund,
        ReserveFund {
            total_reserves: 30,
            total_premiums_collected: 1,
            total_claims_paid: 2,
            total_covered_exposure: 40,
            coverage_ratio_bps: 7_500,
            min_coverage_ratio_bps: 3,
        }
    );
}

#[test]
fn error_numbers() {
    let all = [
        InsuranceError::AlreadyInitialized,
        InsuranceError::NotInitialized,
        InsuranceError::Unauthorized,
        InsuranceError::ContractPaused,
        InsuranceError::InvalidAmount,
        InsuranceError::InvalidCoverageBps,
        InsuranceError::InvalidPremiumConfig,
        InsuranceError::InvalidMinCoverageRatio,
        InsuranceError::CoverageRatioFloorBreached,
        InsuranceError::AlreadyCovered,
        InsuranceError::NoCoverageFound,
        InsuranceError::InvoiceNotDefaulted,
        InsuranceError::NoShortfall,
        InsuranceError::AlreadyClaimed,
        InsuranceError::AmountOverflow,
        InsuranceError::FundedInvoiceNotFound,
        InsuranceError::PoolCallFailed,
        InsuranceError::InsufficientReserves,
    ];
    for (number, error) in all.iter().enumerate() {
        assert_eq!(error.code() as usize, number);
    }
}
