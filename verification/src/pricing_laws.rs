//! What a premium is, in terms of the principal, the rates, the scores and the days.

use vstd::prelude::*;

use crate::address::Address;
#[allow(unused_imports)]
use crate::bps::{bps_portion, bps_share, lemma_share_monotone};
use crate::error::InsuranceError;
use crate::laws::{
    law_first_matching_tier_counts, law_premium_always_fits, law_score_outside_tiers_gets_default,
};
use crate::pricing::{PremiumConfig, PremiumTerms};
use crate::purchase::Order;
#[allow(unused_imports)]
use crate::purchase::tenor_days;
use crate::state::ReserveState;
use crate::types::{CreditScoreData, ScoreQuery};

verus! {

/// Whether `share` is the ten-thousandth part of `product`, rounded down, where a product beyond
/// the largest unsigned amount counts as that amount.
pub open spec fn is_share_of(share: int, product: int) -> bool {
    if product <= 340282366920938463463374607431768211455 {
        share * 10_000 <= product < share * 10_000 + 10_000
    } else {
        share == 34028236692093846346337460743176821
    }
}

/// A share in basis points is the amount times the rate, divided by ten thousand and rounded down.
pub proof fn law_share_is_amount_times_rate(amount: int, bps: int)
    ensures
        is_share_of(bps_share(amount, bps), amount * bps),
{
}

/// The portion that a coverage insures is the amount times the rate, divided by ten thousand and
/// rounded toward zero.
pub proof fn law_portion_is_amount_times_rate(amount: int, bps: int)
    requires
        0 <= bps,
    ensures
        ({
            let portion = bps_portion(amount, bps);
            &&& amount >= 0 ==> portion * 10_000 <= amount * bps < portion * 10_000 + 10_000
            &&& amount < 0 ==> portion * 10_000 - 10_000 < amount * bps <= portion * 10_000
        }),
{
    assert((-amount) * bps == -(amount * bps)) by (nonlinear_arith);
}

/// The terms that prices are reckoned by are the numbers of the configuration, one by one.
pub proof fn law_terms_are_the_configuration(config: PremiumConfig)
    ensures
        config@.base_rate_bps == config.base_rate_bps,
        config@.tenor_bps_per_day == config.tenor_bps_per_day,
        config@.risk_tiers == config.risk_tiers@,
        config@.default_risk_multiplier_bps == config.default_risk_multiplier_bps,
        config@.min_premium_bps == config.min_premium_bps,
        config@.max_premium_bps == config.max_premium_bps,
        config@.default_coverage_bps == config.default_coverage_bps,
{
}

/// The first band with `min_score <= score <= max_score` sets the multiplier of a score and its
/// premium.
pub proof fn law_first_band_prices_the_score(
    terms: PremiumTerms,
    score: u32,
    i: int,
    principal: int,
    days: int,
)
    requires
        0 <= i < terms.risk_tiers.len(),
        terms.risk_tiers[i].min_score <= score <= terms.risk_tiers[i].max_score,
        forall|j: int|
            0 <= j < i ==> score < (#[trigger] terms.risk_tiers[j]).min_score || score
                > terms.risk_tiers[j].max_score,
    ensures
        terms.multiplier(score) == terms.risk_tiers[i].risk_multiplier_bps,
        terms.premium(principal, score, days) == terms.premium_at(
            principal,
            terms.risk_tiers[i].risk_multiplier_bps as int,
            days,
        ),
{
    law_first_matching_tier_counts(
        score,
        terms.risk_tiers,
        terms.default_risk_multiplier_bps,
        i,
    );
}

/// A score below or above every band is priced at the default multiplier.
pub proof fn law_default_prices_a_score_in_no_band(
    terms: PremiumTerms,
    score: u32,
    principal: int,
    days: int,
)
    requires
        forall|j: int|
            0 <= j < terms.risk_tiers.len() ==> score < (#[trigger] terms.risk_tiers[j]).min_score
                || score > terms.risk_tiers[j].max_score,
    ensures
        terms.multiplier(score) == terms.default_risk_multiplier_bps,
        terms.premium(principal, score, days) == terms.premium_at(
            principal,
            terms.default_risk_multiplier_bps as int,
            days,
        ),
{
    law_score_outside_tiers_gets_default(
        score,
        terms.risk_tiers,
        terms.default_risk_multiplier_bps,
    );
}

/// The premium to the unit: the base is a share of the whole principal, the adjusted base a share
/// of that, the extra a share of the adjusted base for each day; adjusted base and extra are the
/// premium, unless the floor is higher, and never more than the ceiling.
pub proof fn law_premium_to_the_unit(
    terms: PremiumTerms,
    principal: int,
    multiplier: int,
    days: int,
    base: int,
    adjusted: int,
    extra: int,
    floor: int,
    ceiling: int,
)
    requires
        0 < principal,
        is_share_of(base, principal * terms.base_rate_bps),
        is_share_of(adjusted, base * multiplier),
        is_share_of(extra, adjusted * (days * terms.tenor_bps_per_day)),
        is_share_of(floor, principal * terms.min_premium_bps),
        is_share_of(ceiling, principal * terms.max_premium_bps),
    ensures
        ({
            let premium = terms.premium_at(principal, multiplier, days);
            &&& adjusted + extra >= ceiling || floor >= ceiling ==> premium == ceiling
            &&& adjusted + extra < ceiling && floor <= adjusted + extra ==> premium == adjusted
                + extra
            &&& adjusted + extra <= floor < ceiling ==> premium == floor
        }),
{
    assert(base == bps_share(principal, terms.base_rate_bps as int));
    assert(adjusted == bps_share(base, multiplier));
    assert(extra == bps_share(adjusted, days * terms.tenor_bps_per_day));
    assert(floor == terms.min_premium(principal));
    assert(ceiling == terms.max_premium(principal));
}

/// Without a principal there is no premium.
pub proof fn law_no_principal_no_premium(
    terms: PremiumTerms,
    principal: int,
    multiplier: int,
    score: u32,
    days: int,
)
    requires
        principal <= 0,
    ensures
        terms.premium_at(principal, multiplier, days) == 0,
        terms.premium(principal, score, days) == 0,
{
}

/// Whether no product on the way to the premium is beyond the largest unsigned amount.
pub open spec fn nothing_saturates(
    terms: PremiumTerms,
    principal: int,
    multiplier: int,
    days: int,
) -> bool {
    &&& principal * terms.base_rate_bps <= u128::MAX
    &&& principal * terms.base_rate_bps * multiplier <= u128::MAX * 10_000
    &&& principal * terms.base_rate_bps * multiplier * (days * terms.tenor_bps_per_day) <= u128::MAX
        * 100_000_000
    &&& principal * terms.min_premium_bps <= u128::MAX
    &&& principal * terms.max_premium_bps <= u128::MAX
}

/// What the divisions on the way to a premium can take off by rounding, times 10_000^3.
pub open spec fn rounding(terms: PremiumTerms, multiplier: int, days: int) -> int {
    (multiplier + 10_000) * (10_000 + days * terms.tenor_bps_per_day) * 10_000 + 1_000_000_000_000
}

/// Three divisions in turn take off no more than their rounding.
proof fn lemma_three_divisions(
    product: int,
    multiplier: int,
    per_tenor: int,
    base: int,
    adjusted: int,
    extra: int,
)
    requires
        0 <= product,
        0 <= multiplier,
        0 <= per_tenor,
        base * 10_000 <= product < base * 10_000 + 10_000,
        adjusted * 10_000 <= base * multiplier < adjusted * 10_000 + 10_000,
        extra * 10_000 <= adjusted * per_tenor < extra * 10_000 + 10_000,
    ensures
        (adjusted + extra) * 1_000_000_000_000 <= product * multiplier * (10_000 + per_tenor),
        product * multiplier * (10_000 + per_tenor) < (adjusted + extra) * 1_000_000_000_000 + (
        multiplier + 10_000) * (10_000 + per_tenor) * 10_000 + 1_000_000_000_000,
{
    let k = 10_000 + per_tenor;
    let t = product * multiplier;
    assert(base * multiplier * 10_000 <= t <= base * multiplier * 10_000 + multiplier * 10_000)
        by (nonlinear_arith)
        requires
            0 <= multiplier,
            t == product * multiplier,
            base * 10_000 <= product < base * 10_000 + 10_000,
    ;
    assert(adjusted * 100_000_000 <= t < adjusted * 100_000_000 + (multiplier + 10_000) * 10_000);
    assert(adjusted * k == adjusted * 10_000 + adjusted * per_tenor) by (nonlinear_arith)
        requires
            k == 10_000 + per_tenor,
    ;
    assert((adjusted + extra) * 10_000 <= adjusted * k < (adjusted + extra) * 10_000 + 10_000);
    assert((adjusted * k) * 100_000_000 <= t * k) by (nonlinear_arith)
        requires
            adjusted * 100_000_000 <= t,
            k >= 0,
    ;
    assert(t * k < (adjusted * k) * 100_000_000 + (multiplier + 10_000) * k * 10_000)
        by (nonlinear_arith)
        requires
            t < adjusted * 100_000_000 + (multiplier + 10_000) * 10_000,
            k > 0,
    ;
}

/// Where nothing saturates, the shares that a premium is made of are plain divisions.
proof fn lemma_plain_divisions(terms: PremiumTerms, principal: int, multiplier: int, days: int)
    requires
        0 < principal,
        0 <= multiplier,
        0 <= days,
        nothing_saturates(terms, principal, multiplier, days),
    ensures
        ({
            let rate = terms.base_rate_bps as int;
            let per_tenor = days * terms.tenor_bps_per_day;
            let base = bps_share(principal, rate);
            let adjusted = bps_share(base, multiplier);
            let extra = bps_share(adjusted, per_tenor);
            &&& 0 <= principal * rate
            &&& 0 <= per_tenor
            &&& 0 <= base && 0 <= adjusted && 0 <= extra
            &&& base * 10_000 <= principal * rate < base * 10_000 + 10_000
            &&& adjusted * 10_000 <= base * multiplier < adjusted * 10_000 + 10_000
            &&& extra * 10_000 <= adjusted * per_tenor < extra * 10_000 + 10_000
        }),
{
    let rate = terms.base_rate_bps as int;
    let per_tenor = days * terms.tenor_bps_per_day;
    let product = principal * rate;
    assert(0 <= product) by (nonlinear_arith)
        requires
            0 < principal,
            0 <= rate,
            product == principal * rate,
    ;
    assert(0 <= per_tenor) by (nonlinear_arith)
        requires
            0 <= days,
            0 <= terms.tenor_bps_per_day,
            per_tenor == days * terms.tenor_bps_per_day,
    ;
    let base = bps_share(principal, rate);
    assert(base * 10_000 <= product < base * 10_000 + 10_000);
    assert(0 <= base * multiplier && base * multiplier * 10_000 <= product * multiplier)
        by (nonlinear_arith)
        requires
            0 <= base,
            0 <= multiplier,
            base * 10_000 <= product,
    ;
    let adjusted = bps_share(base, multiplier);
    assert(adjusted * 10_000 <= base * multiplier < adjusted * 10_000 + 10_000);
    assert(0 <= adjusted * per_tenor && (adjusted * per_tenor) * 100_000_000 <= (product
        * multiplier) * per_tenor) by (nonlinear_arith)
        requires
            0 <= adjusted,
            0 <= per_tenor,
            adjusted * 100_000_000 <= product * multiplier,
    ;
}

/// The premium follows principal, rate, multiplier and tenor, for every principal: where nothing
/// saturates it is their product, up to the rounding of the divisions, unless the floor lifts it or
/// the ceiling holds it, and both of these are rates of the principal too.
pub proof fn law_premium_follows_the_rates(
    terms: PremiumTerms,
    principal: int,
    multiplier: int,
    days: int,
)
    requires
        0 < principal,
        0 <= multiplier,
        0 <= days,
        nothing_saturates(terms, principal, multiplier, days),
    ensures
        ({
            let premium = terms.premium_at(principal, multiplier, days);
            let exact = principal * terms.base_rate_bps * multiplier * (10_000 + days
                * terms.tenor_bps_per_day);
            let least = principal * terms.min_premium_bps;
            let most = principal * terms.max_premium_bps;
            &&& premium * 10_000 <= most
            &&& terms.min_premium_bps <= terms.max_premium_bps ==> least < premium * 10_000 + 10_000
            &&& premium * 1_000_000_000_000 <= exact || premium * 10_000 <= least
            &&& exact < premium * 1_000_000_000_000 + rounding(terms, multiplier, days) || most
                < premium * 10_000 + 10_000
        }),
{
    let rate = terms.base_rate_bps as int;
    let per_tenor = days * terms.tenor_bps_per_day;
    lemma_plain_divisions(terms, principal, multiplier, days);
    let base = bps_share(principal, rate);
    let adjusted = bps_share(base, multiplier);
    let extra = bps_share(adjusted, per_tenor);
    lemma_three_divisions(principal * rate, multiplier, per_tenor, base, adjusted, extra);
    assert(principal * terms.min_premium_bps >= 0 && principal * terms.max_premium_bps >= 0)
        by (nonlinear_arith)
        requires
            0 < principal,
            0 <= terms.min_premium_bps,
            0 <= terms.max_premium_bps,
    ;
    if terms.min_premium_bps <= terms.max_premium_bps {
        assert(principal * terms.min_premium_bps <= principal * terms.max_premium_bps)
            by (nonlinear_arith)
            requires
                0 < principal,
                terms.min_premium_bps <= terms.max_premium_bps,
        ;
    }
}

/// Twice the principal costs twice the premium, up to rounding.
pub proof fn law_twice_the_principal_costs_twice(
    terms: PremiumTerms,
    principal: int,
    multiplier: int,
    days: int,
)
    requires
        0 < principal,
        0 <= multiplier,
        0 <= days,
        nothing_saturates(terms, 2 * principal, multiplier, days),
    ensures
        ({
            let once = terms.premium_at(principal, multiplier, days);
            let twice = terms.premium_at(2 * principal, multiplier, days);
            &&& 2 * once <= twice
            &&& (twice - 2 * once) * 1_000_000_000_000 < 2 * rounding(terms, multiplier, days)
        }),
{
    let rate = terms.base_rate_bps as int;
    let per_day = terms.tenor_bps_per_day as int;
    let per_tenor = days * per_day;
    let product = principal * rate;
    assert((2 * principal) * rate == 2 * product && product >= 0) by (nonlinear_arith)
        requires
            product == principal * rate,
            0 < principal,
            0 <= rate,
    ;
    assert(per_tenor >= 0) by (nonlinear_arith)
        requires
            per_tenor == days * per_day,
            0 <= days,
            0 <= per_day,
    ;
    let scaled = product * multiplier;
    assert((2 * product) * multiplier == 2 * scaled && scaled >= 0) by (nonlinear_arith)
        requires
            scaled == product * multiplier,
            0 <= product,
            0 <= multiplier,
    ;
    assert((2 * scaled) * per_tenor == 2 * (scaled * per_tenor) && scaled * per_tenor >= 0)
        by (nonlinear_arith)
        requires
            0 <= scaled,
            0 <= per_tenor,
    ;
    let least = principal * terms.min_premium_bps;
    let most = principal * terms.max_premium_bps;
    assert((2 * principal) * terms.min_premium_bps == 2 * least && (2 * principal)
        * terms.max_premium_bps == 2 * most && least >= 0 && most >= 0) by (nonlinear_arith)
        requires
            least == principal * terms.min_premium_bps,
            most == principal * terms.max_premium_bps,
            0 < principal,
            0 <= terms.min_premium_bps,
            0 <= terms.max_premium_bps,
    ;
    assert(nothing_saturates(terms, principal, multiplier, days));
    lemma_plain_divisions(terms, principal, multiplier, days);
    lemma_plain_divisions(terms, 2 * principal, multiplier, days);
    let base = bps_share(principal, rate);
    let adjusted = bps_share(base, multiplier);
    let extra = bps_share(adjusted, per_tenor);
    let base2 = bps_share(2 * principal, rate);
    let adjusted2 = bps_share(base2, multiplier);
    let extra2 = bps_share(adjusted2, per_tenor);
    assert(2 * base <= base2);
    assert(2 * (base * multiplier) <= base2 * multiplier) by (nonlinear_arith)
        requires
            2 * base <= base2,
            0 <= multiplier,
    ;
    assert(2 * adjusted <= adjusted2);
    assert(2 * (adjusted * per_tenor) <= adjusted2 * per_tenor) by (nonlinear_arith)
        requires
            2 * adjusted <= adjusted2,
            0 <= per_tenor,
    ;
    assert(2 * extra <= extra2);
    lemma_three_divisions(product, multiplier, per_tenor, base, adjusted, extra);
    lemma_three_divisions(2 * product, multiplier, per_tenor, base2, adjusted2, extra2);
    let exact = scaled * (10_000 + per_tenor);
    assert((2 * scaled) * (10_000 + per_tenor) == 2 * exact) by (nonlinear_arith)
        requires
            exact == scaled * (10_000 + per_tenor),
    ;
    assert(rounding(terms, multiplier, days) >= 1_000_000_000_000) by (nonlinear_arith)
        requires
            rounding(terms, multiplier, days) == (multiplier + 10_000) * (10_000 + per_tenor)
                * 10_000 + 1_000_000_000_000,
            0 <= multiplier,
            0 <= per_tenor,
    ;
}

/// A larger principal never costs less.
pub proof fn law_larger_principal_never_cheaper(
    terms: PremiumTerms,
    principal: int,
    larger: int,
    multiplier: int,
    days: int,
)
    requires
        principal <= larger,
        0 <= multiplier,
        0 <= days,
    ensures
        terms.premium_at(principal, multiplier, days) <= terms.premium_at(larger, multiplier, days),
{
    let rate = terms.base_rate_bps as int;
    let per_day = terms.tenor_bps_per_day as int;
    assert(0 <= days * per_day) by (nonlinear_arith)
        requires
            0 <= days,
            0 <= per_day,
    ;
    let least = terms.min_premium_bps as int;
    let most = terms.max_premium_bps as int;
    if principal > 0 {
        lemma_share_monotone(principal, larger, rate, rate);
        let base = bps_share(principal, rate);
        let more = bps_share(larger, rate);
        lemma_share_monotone(base, more, multiplier, multiplier);
        lemma_share_monotone(
            bps_share(base, multiplier),
            bps_share(more, multiplier),
            days * per_day,
            days * per_day,
        );
        lemma_share_monotone(principal, larger, least, least);
        lemma_share_monotone(principal, larger, most, most);
    } else if larger > 0 {
        lemma_share_monotone(larger, larger, rate, rate);
        let more = bps_share(larger, rate);
        lemma_share_monotone(more, more, multiplier, multiplier);
        let adjusted = bps_share(more, multiplier);
        lemma_share_monotone(adjusted, adjusted, days * per_day, days * per_day);
        lemma_share_monotone(larger, larger, least, least);
        lemma_share_monotone(larger, larger, most, most);
    }
}

/// A reply with a blended score is priced by that score, however the internal score compares.
pub proof fn law_blended_score_sets_the_quote(
    s: ReserveState,
    data: CreditScoreData,
    principal: i128,
    days: int,
)
    requires
        s.credit_score_contract is Some,
        data.blended_score > 0,
    ensures
        s.credit_score(Some(data)) == data.blended_score,
        s.quote(principal, Some(data), days) == s.premium_config->0.premium(
            principal as int,
            data.blended_score,
            days,
        ),
{
}

/// A reply without a blended score is priced by the internal score.
pub proof fn law_internal_score_stands_in_for_the_blended_one(
    s: ReserveState,
    data: CreditScoreData,
    principal: i128,
    days: int,
)
    requires
        s.credit_score_contract is Some,
        data.blended_score == 0,
    ensures
        s.credit_score(Some(data)) == data.score,
        s.quote(principal, Some(data), days) == s.premium_config->0.premium(
            principal as int,
            data.score,
            days,
        ),
{
}

/// Of a reply the scores alone count, and of these the blended one alone where there is one: two
/// replies that agree there get the same quote, whatever else they say.
pub proof fn law_scores_alone_count(
    s: ReserveState,
    data: CreditScoreData,
    other: CreditScoreData,
    principal: i128,
    days: int,
)
    requires
        data.blended_score == other.blended_score,
        data.blended_score > 0 || data.score == other.score,
    ensures
        s.credit_score(Some(data)) == s.credit_score(Some(other)),
        s.quote(principal, Some(data), days) == s.quote(principal, Some(other), days),
{
}

/// A quote is given whenever there are terms, and refused as lacking them otherwise.
pub proof fn law_quote_needs_terms_alone(
    s: ReserveState,
    principal: i128,
    reply: Option<CreditScoreData>,
    days: int,
    sme: Address,
)
    requires
        0 <= days,
    ensures
        s.premium_config is None ==> s.quote_refusal(principal, reply, days) == Some(
            InsuranceError::InvalidPremiumConfig,
        ) && s.terms_gate() == Some(InsuranceError::InvalidPremiumConfig),
        s.premium_config is Some ==> s.quote_refusal(principal, reply, days) is None
            && s.terms_gate() is None,
        s.score_query(sme) is Some <==> s.credit_score_contract is Some,
        s.score_query(sme) matches Some(query) ==> query == (ScoreQuery {
            credit_score_contract: s.credit_score_contract->0,
            sme,
        }),
{
    if s.premium_config is Some {
        law_premium_always_fits(s, principal, reply, days);
    }
}

/// The tenor is the number of whole days of 86_400 seconds from now until the due date: none for a
/// date that has passed, and as many as the count can hold for one beyond it.
pub proof fn law_tenor_counts_whole_days(due_date: int, now: int)
    ensures
        ({
            let days = tenor_days(due_date, now);
            &&& 0 <= days <= 4_294_967_295
            &&& due_date <= now ==> days == 0
            &&& due_date >= now ==> days * 86_400 <= due_date - now
            &&& days < 4_294_967_295 ==> due_date - now < days * 86_400 + 86_400
        }),
{
}

/// An order costs the quote for its whole days.
pub proof fn law_order_costs_its_days(s: ReserveState, order: Order, days: int)
    requires
        0 <= days <= 4_294_967_295,
        order.due_date <= order.now ==> days == 0,
        order.due_date >= order.now ==> days * 86_400 <= order.due_date - order.now,
        days < 4_294_967_295 ==> order.due_date - order.now < days * 86_400 + 86_400,
    ensures
        s.order_premium(order) == s.quote(order.principal, order.score_reply, days),
{
    law_tenor_counts_whole_days(order.due_date as int, order.now as int);
}

} // verus!
