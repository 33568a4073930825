//! Premium pricing.

use vstd::prelude::*;

use crate::bps::share;
#[allow(unused_imports)]
use crate::bps::{bps_share, max_of, min_of};

verus! {

/// A single credit-score band and its risk multiplier.
///
/// A worse (lower) band is meant to carry a higher multiplier.
#[derive(Clone, Copy, Debug, PartialEq, Eq)]
pub struct RiskTier {
    /// Inclusive lower bound of the credit-score band this tier covers.
    pub min_score: u32,
    /// Inclusive upper bound of the credit-score band this tier covers.
    pub max_score: u32,
    /// Risk multiplier applied to the base premium, in bps (10_000 = 1.0x).
    pub risk_multiplier_bps: u32,
}

/// Pricing configuration.
#[derive(Debug, PartialEq, Eq)]
pub struct PremiumConfig {
    /// Base annualized premium rate, in bps of principal (200 = 2%/year).
    pub base_rate_bps: u32,
    /// Extra premium per day of invoice tenor, in bps of the risk-adjusted base.
    pub tenor_bps_per_day: u32,
    /// Credit-score risk tiers, in any order; the first one whose band holds the score counts.
    pub risk_tiers: Vec<RiskTier>,
    /// Multiplier for a borrower whose score falls inside no tier, or of whom no credit data is
    /// available. Meant to be high: missing data is itself a risk signal.
    pub default_risk_multiplier_bps: u32,
    /// Floor on the premium, in bps of principal.
    pub min_premium_bps: u32,
    /// Ceiling on the premium, in bps of principal.
    pub max_premium_bps: u32,
    /// Fraction of principal that newly bought coverage insures, in bps.
    pub default_coverage_bps: u32,
}

/// A [`PremiumConfig`] as a mathematical value.
#[verifier::ext_equal]
pub struct PremiumTerms {
    pub base_rate_bps: u32,
    pub tenor_bps_per_day: u32,
    pub risk_tiers: Seq<RiskTier>,
    pub default_risk_multiplier_bps: u32,
    pub min_premium_bps: u32,
    pub max_premium_bps: u32,
    pub default_coverage_bps: u32,
}

impl View for PremiumConfig {
    type V = PremiumTerms;

    open spec fn view(&self) -> PremiumTerms {
        PremiumTerms {
            base_rate_bps: self.base_rate_bps,
            tenor_bps_per_day: self.tenor_bps_per_day,
            risk_tiers: self.risk_tiers@,
            default_risk_multiplier_bps: self.default_risk_multiplier_bps,
            min_premium_bps: self.min_premium_bps,
            max_premium_bps: self.max_premium_bps,
            default_coverage_bps: self.default_coverage_bps,
        }
    }
}

impl Clone for PremiumConfig {
    fn clone(&self) -> (r: Self)
        ensures
            r@ == self@,
    {
        let mut risk_tiers: Vec<RiskTier> = Vec::new();
        let mut i: usize = 0;
        while i < self.risk_tiers.len()
            invariant
                i <= self.risk_tiers@.len(),
                risk_tiers@ == self.risk_tiers@.take(i as int),
            decreases self.risk_tiers@.len() - i,
        {
            risk_tiers.push(self.risk_tiers[i]);
            i += 1;
        }
        PremiumConfig {
            base_rate_bps: self.base_rate_bps,
            tenor_bps_per_day: self.tenor_bps_per_day,
            risk_tiers,
            default_risk_multiplier_bps: self.default_risk_multiplier_bps,
            min_premium_bps: self.min_premium_bps,
            max_premium_bps: self.max_premium_bps,
            default_coverage_bps: self.default_coverage_bps,
        }
    }
}

impl RiskTier {
    /// Whether the tier's band holds `score`.
    pub open spec fn holds(self, score: u32) -> bool {
        self.min_score <= score <= self.max_score
    }
}

/// The multiplier of the first tier whose band holds `score`, or `default` where none does.
pub open spec fn tier_multiplier(score: u32, tiers: Seq<RiskTier>, default: u32) -> u32
    decreases tiers.len(),
{
    if tiers.len() == 0 {
        default
    } else if tiers.first().holds(score) {
        tiers.first().risk_multiplier_bps
    } else {
        tier_multiplier(score, tiers.drop_first(), default)
    }
}

impl PremiumTerms {
    /// The risk multiplier for a credit score.
    pub open spec fn multiplier(self, score: u32) -> u32 {
        tier_multiplier(score, self.risk_tiers, self.default_risk_multiplier_bps)
    }

    /// The premium before floor and ceiling: the base rate on the principal, times the risk
    /// multiplier, plus the tenor's share of that.
    pub open spec fn raw_premium(self, principal: int, multiplier: int, tenor_days: int) -> int {
        let base = bps_share(principal, self.base_rate_bps as int);
        let risk_adjusted = bps_share(base, multiplier);
        min_of(
            risk_adjusted + bps_share(risk_adjusted, tenor_days * self.tenor_bps_per_day),
            u128::MAX as int,
        )
    }

    /// The least premium on `principal`.
    pub open spec fn min_premium(self, principal: int) -> int {
        bps_share(principal, self.min_premium_bps as int)
    }

    /// The greatest premium on `principal`.
    pub open spec fn max_premium(self, principal: int) -> int {
        bps_share(principal, self.max_premium_bps as int)
    }

    /// The premium at a given risk multiplier: the raw premium, raised to the floor, then held at
    /// the ceiling; nothing where there is no principal.
    pub open spec fn premium_at(self, principal: int, multiplier: int, tenor_days: int) -> int {
        if principal <= 0 {
            0
        } else {
            min_of(
                max_of(
                    self.raw_premium(principal, multiplier, tenor_days),
                    self.min_premium(principal),
                ),
                self.max_premium(principal),
            )
        }
    }

    /// The premium for insuring `principal` over `tenor_days` for a borrower with that score.
    pub open spec fn premium(self, principal: int, score: u32, tenor_days: int) -> int {
        self.premium_at(principal, self.multiplier(score) as int, tenor_days)
    }
}

/// The risk multiplier for a credit score.
pub fn resolve_risk_multiplier_bps(score: u32, config: &PremiumConfig) -> (r: u32)
    ensures
        r == config@.multiplier(score),
{
    let ghost tiers = config.risk_tiers@;
    let ghost default = config.default_risk_multiplier_bps;
    let mut i: usize = 0;
    assert(tiers.skip(0) =~= tiers);
    while i < config.risk_tiers.len()
        invariant
            tiers == config.risk_tiers@,
            default == config.default_risk_multiplier_bps,
            i <= tiers.len(),
            config@.multiplier(score) == tier_multiplier(score, tiers.skip(i as int), default),
        decreases tiers.len() - i,
    {
        let tier = &config.risk_tiers[i];
        assert(tiers.skip(i as int).drop_first() =~= tiers.skip(i + 1));
        if score >= tier.min_score && score <= tier.max_score {
            return tier.risk_multiplier_bps;
        }
        i += 1;
    }
    config.default_risk_multiplier_bps
}

/// The premium for insuring `principal` over `invoice_tenor_days` for a borrower with that credit
/// score.
///
/// A longer tenor never lowers the premium, nor does a higher risk multiplier; floor and ceiling
/// can only flatten that curve, never invert it.
pub fn calculate_premium(
    principal: i128,
    sme_credit_score: u32,
    invoice_tenor_days: u32,
    config: &PremiumConfig,
) -> (r: u128)
    ensures
        r == config@.premium(principal as int, sme_credit_score, invoice_tenor_days as int),
{
    let risk_multiplier_bps: u32 = resolve_risk_multiplier_bps(sme_credit_score, config);
    premium_at_multiplier(principal, risk_multiplier_bps, invoice_tenor_days, config)
}

/// The premium for insuring `principal` over `invoice_tenor_days` at a given risk multiplier.
pub fn premium_at_multiplier(
    principal: i128,
    risk_multiplier_bps: u32,
    invoice_tenor_days: u32,
    config: &PremiumConfig,
) -> (r: u128)
    ensures
        r == config@.premium_at(
            principal as int,
            risk_multiplier_bps as int,
            invoice_tenor_days as int,
        ),
{
    if principal <= 0 {
        return 0;
    }
    let principal: u128 = principal as u128;
    let base: u128 = share(principal, config.base_rate_bps as u128);
    let risk_adjusted: u128 = share(base, risk_multiplier_bps as u128);

    assert(0 <= invoice_tenor_days * config.tenor_bps_per_day <= u128::MAX) by (nonlinear_arith)
        requires
            0 <= invoice_tenor_days <= u32::MAX,
            0 <= config.tenor_bps_per_day <= u32::MAX,
    ;
    let tenor_extra_bps: u128 = invoice_tenor_days as u128 * config.tenor_bps_per_day as u128;
    let tenor_bonus: u128 = share(risk_adjusted, tenor_extra_bps);
    let raw_premium: u128 = risk_adjusted.saturating_add(tenor_bonus);

    let min_premium: u128 = share(principal, config.min_premium_bps as u128);
    let max_premium: u128 = share(principal, config.max_premium_bps as u128);

    let floored: u128 = if raw_premium < min_premium {
        min_premium
    } else {
        raw_premium
    };
    if floored > max_premium {
        max_premium
    } else {
        floored
    }
}

} // verus!
