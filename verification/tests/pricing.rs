use insurance::pricing::{
    calculate_premium, premium_at_multiplier, resolve_risk_multiplier_bps, PremiumConfig, RiskTier,
};

fn tier(min_score: u32, max_score: u32, risk_multiplier_bps: u32) -> RiskTier {
    RiskTier { min_score, max_score, risk_multiplier_bps }
}

fn config() -> PremiumConfig {
    PremiumConfig {
        base_rate_bps: 200,
        tenor_bps_per_day: 10,
        risk_tiers: vec![tier(200, 499, 15_000), tier(500, 699, 10_000), tier(700, 850, 8_000)],
        default_risk_multiplier_bps: 20_000,
        min_premium_bps: 50,
        max_premium_bps: 1_000,
        default_coverage_bps: 8_000,
    }
}

#[test]
fn multiplier_of_the_band_that_holds_the_score() {
    let c = config();
    assert_eq!(resolve_risk_multiplier_bps(200, &c), 15_000);
    assert_eq!(resolve_risk_multiplier_bps(499, &c), 15_000);
    assert_eq!(resolve_risk_multiplier_bps(500, &c), 10_000);
    assert_eq!(resolve_risk_multiplier_bps(850, &c), 8_000);
}

#[test]
fn multiplier_outside_every_band_is_the_default() {
    let c = config();
    assert_eq!(resolve_risk_multiplier_bps(199, &c), 20_000);
    assert_eq!(resolve_risk_multiplier_bps(851, &c), 20_000);
    let bare = PremiumConfig { risk_tiers: Vec::new(), ..config() };
    assert_eq!(resolve_risk_multiplier_bps(600, &bare), 20_000);
}

#[test]
fn first_of_overlapping_bands_counts() {
    let c = PremiumConfig {
        risk_tiers: vec![tier(300, 600, 11_000), tier(200, 850, 9_000)],
        ..config()
    };
    assert_eq!(resolve_risk_multiplier_bps(300, &c), 11_000);
    assert_eq!(resolve_risk_multiplier_bps(601, &c), 9_000);
}

#[test]
fn order_of_disjoint_bands_does_not_matter() {
    let c = config();
    let mut reversed = config();
    reversed.risk_tiers.reverse();
    let mut rotated = config();
    rotated.risk_tiers.rotate_left(1);
    for score in [0u32, 199, 200, 499, 500, 600, 699, 700, 850, 851] {
        let m = resolve_risk_multiplier_bps(score, &c);
        assert_eq!(resolve_risk_multiplier_bps(score, &reversed), m);
        assert_eq!(resolve_risk_multiplier_bps(score, &rotated), m);
        assert_eq!(
            calculate_premium(1_000_000, score, 30, &reversed),
            calculate_premium(1_000_000, score, 30, &c)
        );
    }
}

#[test]
fn premium_of_an_ordinary_invoice() {
    let c = config();
    // 2% of the principal, times 1.5, plus 3% of that for thirty days
    assert_eq!(calculate_premium(1_000_000, 300, 30, &c), 30_900);
    assert_eq!(calculate_premium(1_000_000, 600, 30, &c), 20_600);
    assert_eq!(calculate_premium(1_000_000, 800, 30, &c), 16_480);
    assert_eq!(calculate_premium(1_000_000, 900, 30, &c), 41_200);
    assert_eq!(calculate_premium(1_000_000, 600, 0, &c), 20_000);
}

#[test]
fn premium_at_a_given_multiplier() {
    let c = config();
    assert_eq!(premium_at_multiplier(1_000_000, 15_000, 30, &c), 30_900);
    assert_eq!(premium_at_multiplier(1_000_000, 20_000, 30, &c), 41_200);
    assert_eq!(premium_at_multiplier(0, 20_000, 30, &c), 0);
    assert_eq!(premium_at_multiplier(-1, 20_000, 30, &c), 0);
}

#[test]
fn premium_without_principal_is_nothing() {
    let c = config();
    assert_eq!(calculate_premium(0, 600, 30, &c), 0);
    assert_eq!(calculate_premium(-1, 600, 30, &c), 0);
    assert_eq!(calculate_premium(i128::MIN, 600, 30, &c), 0);
}

#[test]
fn premium_is_raised_to_the_floor() {
    let c = PremiumConfig { min_premium_bps: 500, ..config() };
    assert_eq!(calculate_premium(1_000_000, 600, 30, &c), 50_000);
}

#[test]
fn premium_is_held_at_the_ceiling() {
    let c = PremiumConfig { max_premium_bps: 100, ..config() };
    assert_eq!(calculate_premium(1_000_000, 600, 30, &c), 10_000);
    // a ceiling below the floor wins
    let crossed = PremiumConfig { min_premium_bps: 500, max_premium_bps: 100, ..config() };
    assert_eq!(calculate_premium(1_000_000, 600, 30, &crossed), 10_000);
}

#[test]
fn premium_of_dust_rounds_to_nothing() {
    let c = PremiumConfig { min_premium_bps: 0, ..config() };
    assert_eq!(calculate_premium(49, 600, 0, &c), 0);
    assert_eq!(calculate_premium(50, 600, 0, &c), 1);
}

#[test]
fn premium_saturates_instead_of_overflowing() {
    let c = PremiumConfig {
        base_rate_bps: u32::MAX,
        tenor_bps_per_day: u32::MAX,
        default_risk_multiplier_bps: u32::MAX,
        risk_tiers: Vec::new(),
        min_premium_bps: 0,
        max_premium_bps: u32::MAX,
        default_coverage_bps: 1,
    };
    assert_eq!(calculate_premium(i128::MAX, 0, u32::MAX, &c), u128::MAX / 10_000);
}

#[test]
fn longer_tenor_is_never_cheaper() {
    let c = config();
    let mut last: u128 = 0;
    for days in [0u32, 1, 30, 90, 365, 3_650, u32::MAX] {
        let premium = calculate_premium(1_000_000, 600, days, &c);
        assert!(premium >= last);
        last = premium;
    }
    assert_eq!(last, 100_000);
}

#[test]
fn worse_score_is_never_cheaper() {
    let c = config();
    let mut last: u128 = 0;
    for score in [850u32, 700, 699, 500, 499, 200, 100] {
        let premium = calculate_premium(1_000_000, score, 30, &c);
        assert!(premium >= last);
        last = premium;
    }
}

#[test]
fn configuration_clones_whole() {
    let c = config();
    assert_eq!(c.clone(), c);
}
