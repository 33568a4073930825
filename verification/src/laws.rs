//! What holds of pricing, sales, claims and administration.

use vstd::prelude::*;

use crate::address::Address;
#[allow(unused_imports)]
use crate::bps::{bps_share, lemma_portion_bounds, lemma_share_monotone, max_of};
use crate::bps::BPS_DENOM;
use crate::claim::{ClaimEvidence, ClaimInquiry, ClaimStep};
#[allow(unused_imports)]
use crate::claim::{debt, recovery};
use crate::error::InsuranceError;
use crate::history::Call;
use crate::pricing::{PremiumTerms, RiskTier};
#[allow(unused_imports)]
use crate::pricing::tier_multiplier;
use crate::purchase::{Order, DEFAULT_SCORE_WHEN_UNAVAILABLE};
#[allow(unused_imports)]
use crate::purchase::tenor_days;
use crate::state::ReserveState;
#[allow(unused_imports)]
use crate::state::coverage_ratio;
use crate::types::{CoverageRecord, CreditScoreData};

verus! {

/// The first tier whose band holds the score sets the multiplier.
pub proof fn law_first_matching_tier_counts(
    score: u32,
    tiers: Seq<RiskTier>,
    default: u32,
    i: int,
)
    requires
        0 <= i < tiers.len(),
        tiers[i].holds(score),
        forall|j: int| 0 <= j < i ==> !(#[trigger] tiers[j]).holds(score),
    ensures
        tier_multiplier(score, tiers, default) == tiers[i].risk_multiplier_bps,
    decreases tiers.len(),
{
    if i > 0 {
        assert(!tiers[0].holds(score));
        assert forall|j: int| 0 <= j < i - 1 implies !(#[trigger] tiers.drop_first()[j]).holds(
            score,
        ) by {
            assert(tiers.drop_first()[j] == tiers[j + 1]);
        }
        law_first_matching_tier_counts(score, tiers.drop_first(), default, i - 1);
    }
}

/// A score outside every tier gets the default multiplier.
pub proof fn law_score_outside_tiers_gets_default(score: u32, tiers: Seq<RiskTier>, default: u32)
    requires
        forall|j: int| 0 <= j < tiers.len() ==> !(#[trigger] tiers[j]).holds(score),
    ensures
        tier_multiplier(score, tiers, default) == default,
    decreases tiers.len(),
{
    if tiers.len() > 0 {
        assert(!tiers[0].holds(score));
        assert forall|j: int| 0 <= j < tiers.drop_first().len() implies !(
        #[trigger] tiers.drop_first()[j]).holds(score) by {
            assert(tiers.drop_first()[j] == tiers[j + 1]);
        }
        law_score_outside_tiers_gets_default(score, tiers.drop_first(), default);
    }
}

/// The raw premium grows with the multiplier and with the tenor.
proof fn lemma_raw_premium_monotone(
    terms: PremiumTerms,
    principal: int,
    multiplier: int,
    higher: int,
    days: int,
    longer: int,
)
    requires
        0 <= principal,
        0 <= multiplier <= higher,
        0 <= days <= longer,
    ensures
        terms.raw_premium(principal, multiplier, days) <= terms.raw_premium(
            principal,
            higher,
            longer,
        ),
{
    let rate = terms.base_rate_bps as int;
    let per_day = terms.tenor_bps_per_day as int;
    lemma_share_monotone(principal, principal, rate, rate);
    let base = bps_share(principal, rate);
    lemma_share_monotone(base, base, multiplier, higher);
    let adjusted = bps_share(base, multiplier);
    let more = bps_share(base, higher);
    assert(0 <= days * per_day <= longer * per_day) by (nonlinear_arith)
        requires
            0 <= days <= longer,
            0 <= per_day,
    ;
    lemma_share_monotone(adjusted, more, days * per_day, longer * per_day);
}

/// A longer tenor never lowers the premium.
pub proof fn law_longer_tenor_never_cheaper(
    terms: PremiumTerms,
    principal: int,
    score: u32,
    days: int,
    longer: int,
)
    requires
        0 <= days <= longer,
    ensures
        terms.premium(principal, score, days) <= terms.premium(principal, score, longer),
{
    if principal > 0 {
        let multiplier = terms.multiplier(score) as int;
        lemma_raw_premium_monotone(terms, principal, multiplier, multiplier, days, longer);
    }
}

/// A later due date never lowers what an order costs.
pub proof fn law_later_due_date_never_cheaper(s: ReserveState, order: Order, later: u64)
    requires
        order.due_date <= later,
    ensures
        s.order_premium(order) <= s.order_premium(Order { due_date: later, ..order }),
{
    let days = tenor_days(order.due_date as int, order.now as int);
    let longer = tenor_days(later as int, order.now as int);
    let multiplier = s.risk_multiplier(order.score_reply) as int;
    if order.principal > 0 {
        lemma_raw_premium_monotone(
            s.premium_config->0,
            order.principal as int,
            multiplier,
            multiplier,
            days,
            longer,
        );
    }
}

/// A higher risk multiplier never lowers the premium.
pub proof fn law_higher_multiplier_never_cheaper(
    terms: PremiumTerms,
    principal: int,
    multiplier: int,
    higher: int,
    days: int,
)
    requires
        0 <= days,
        0 <= multiplier <= higher,
    ensures
        terms.premium_at(principal, multiplier, days) <= terms.premium_at(principal, higher, days),
{
    if principal > 0 {
        lemma_raw_premium_monotone(terms, principal, multiplier, higher, days, days);
    }
}

/// Whether the score is in some tier's band.
pub open spec fn some_tier_holds(tiers: Seq<RiskTier>, score: u32) -> bool {
    exists|i: int| 0 <= i < tiers.len() && (#[trigger] tiers[i]).holds(score)
}

/// Whether no score is in two bands.
pub open spec fn bands_are_disjoint(tiers: Seq<RiskTier>) -> bool {
    forall|i: int, j: int, score: u32|
        0 <= i < tiers.len() && 0 <= j < tiers.len() && i != j ==> !(#[trigger] tiers[i].holds(
            score,
        ) && #[trigger] tiers[j].holds(score))
}

/// Whether a lower band never has the smaller multiplier.
pub open spec fn lower_bands_cost_more(tiers: Seq<RiskTier>) -> bool {
    forall|i: int, j: int|
        0 <= i < tiers.len() && 0 <= j < tiers.len() && (#[trigger] tiers[i]).max_score < (
        #[trigger] tiers[j]).min_score ==> tiers[i].risk_multiplier_bps
            >= tiers[j].risk_multiplier_bps
}

/// Whether `default` is at least every tier's multiplier.
pub open spec fn default_costs_most(tiers: Seq<RiskTier>, default: u32) -> bool {
    forall|i: int| 0 <= i < tiers.len() ==> (#[trigger] tiers[i]).risk_multiplier_bps <= default
}

/// Where the bands are disjoint, the tier that holds a score sets its multiplier.
proof fn lemma_holding_tier_counts(score: u32, tiers: Seq<RiskTier>, default: u32, i: int)
    requires
        bands_are_disjoint(tiers),
        0 <= i < tiers.len(),
        tiers[i].holds(score),
    ensures
        tier_multiplier(score, tiers, default) == tiers[i].risk_multiplier_bps,
{
    assert forall|j: int| 0 <= j < i implies !(#[trigger] tiers[j]).holds(score) by {
        assert(!(tiers[i].holds(score) && tiers[j].holds(score)));
    }
    law_first_matching_tier_counts(score, tiers, default, i);
}

/// The order of the tiers does not matter: as long as no score is in two bands, every list of the
/// same tiers gives a score the same multiplier.
pub proof fn law_tier_order_does_not_matter(
    score: u32,
    tiers: Seq<RiskTier>,
    reordered: Seq<RiskTier>,
    default: u32,
)
    requires
        tiers.to_multiset() == reordered.to_multiset(),
        bands_are_disjoint(tiers),
    ensures
        tier_multiplier(score, reordered, default) == tier_multiplier(score, tiers, default),
{
    tiers.to_multiset_ensures();
    reordered.to_multiset_ensures();
    assert forall|tier: RiskTier| #[trigger] tiers.contains(tier) == reordered.contains(tier) by {
        assert(tiers.contains(tier) == (tiers.to_multiset().count(tier) > 0));
        assert(reordered.contains(tier) == (reordered.to_multiset().count(tier) > 0));
    }
    if some_tier_holds(tiers, score) {
        let i = choose|i: int| 0 <= i < tiers.len() && (#[trigger] tiers[i]).holds(score);
        lemma_holding_tier_counts(score, tiers, default, i);
        assert(tiers.contains(tiers[i]));
        assert forall|j: int|
            0 <= j < reordered.len() && (#[trigger] reordered[j]).holds(
                score,
            ) implies reordered[j].risk_multiplier_bps == tiers[i].risk_multiplier_bps by {
            assert(tiers.contains(reordered[j]));
            let k = choose|k: int| 0 <= k < tiers.len() && tiers[k] == reordered[j];
            assert(k == i || !(tiers[i].holds(score) && tiers[k].holds(score)));
        }
        lemma_agreeing_tiers_count(score, reordered, default, tiers[i].risk_multiplier_bps);
    } else {
        law_score_outside_tiers_gets_default(score, tiers, default);
        assert forall|j: int| 0 <= j < reordered.len() implies !(#[trigger] reordered[j]).holds(
            score,
        ) by {
            assert(tiers.contains(reordered[j]));
        }
        law_score_outside_tiers_gets_default(score, reordered, default);
    }
}

/// Where all tiers that hold a score carry the same multiplier, and there is one, that multiplier
/// counts.
proof fn lemma_agreeing_tiers_count(
    score: u32,
    tiers: Seq<RiskTier>,
    default: u32,
    multiplier: u32,
)
    requires
        some_tier_holds(tiers, score),
        forall|j: int|
            0 <= j < tiers.len() && (#[trigger] tiers[j]).holds(score)
                ==> tiers[j].risk_multiplier_bps == multiplier,
    ensures
        tier_multiplier(score, tiers, default) == multiplier,
    decreases tiers.len(),
{
    if tiers[0].holds(score) {
        assert(tiers[0].risk_multiplier_bps == multiplier);
    } else {
        let rest = tiers.drop_first();
        let i = choose|i: int| 0 <= i < tiers.len() && (#[trigger] tiers[i]).holds(score);
        assert(rest[i - 1] == tiers[i]);
        assert forall|j: int|
            0 <= j < rest.len() && (#[trigger] rest[j]).holds(
                score,
            ) implies rest[j].risk_multiplier_bps == multiplier by {
            assert(rest[j] == tiers[j + 1]);
        }
        lemma_agreeing_tiers_count(score, rest, default, multiplier);
    }
}

/// The order of the tiers moves no premium, as long as no score is in two bands.
pub proof fn law_tier_order_moves_no_premium(
    terms: PremiumTerms,
    reordered: Seq<RiskTier>,
    principal: int,
    score: u32,
    days: int,
)
    requires
        terms.risk_tiers.to_multiset() == reordered.to_multiset(),
        bands_are_disjoint(terms.risk_tiers),
    ensures
        (PremiumTerms { risk_tiers: reordered, ..terms }).premium(principal, score, days)
            == terms.premium(principal, score, days),
{
    law_tier_order_does_not_matter(
        score,
        terms.risk_tiers,
        reordered,
        terms.default_risk_multiplier_bps,
    );
}

/// A worse score never lowers the premium, for terms whose tiers grade the risk: the bands are
/// disjoint, a lower band never has the smaller multiplier, and, for a worse score that no tier
/// holds, the default is at least every multiplier. The better score is one that some tier holds,
/// else it gets the default itself.
pub proof fn law_worse_score_never_cheaper(
    terms: PremiumTerms,
    principal: int,
    worse: u32,
    better: u32,
    days: int,
)
    requires
        0 <= days,
        worse <= better,
        bands_are_disjoint(terms.risk_tiers),
        lower_bands_cost_more(terms.risk_tiers),
        some_tier_holds(terms.risk_tiers, better),
        some_tier_holds(terms.risk_tiers, worse) || default_costs_most(
            terms.risk_tiers,
            terms.default_risk_multiplier_bps,
        ),
    ensures
        terms.premium(principal, worse, days) >= terms.premium(principal, better, days),
{
    let tiers = terms.risk_tiers;
    let default = terms.default_risk_multiplier_bps;
    let j = choose|j: int| 0 <= j < tiers.len() && (#[trigger] tiers[j]).holds(better);
    lemma_holding_tier_counts(better, tiers, default, j);
    if some_tier_holds(tiers, worse) {
        let i = choose|i: int| 0 <= i < tiers.len() && (#[trigger] tiers[i]).holds(worse);
        lemma_holding_tier_counts(worse, tiers, default, i);
        if i != j && tiers[i].max_score >= tiers[j].min_score {
            let shared = if worse >= tiers[j].min_score {
                worse
            } else {
                tiers[j].min_score
            };
            assert(tiers[i].holds(shared) && tiers[j].holds(shared));
        }
    } else {
        law_score_outside_tiers_gets_default(worse, tiers, default);
    }
    law_higher_multiplier_never_cheaper(
        terms,
        principal,
        terms.multiplier(better) as int,
        terms.multiplier(worse) as int,
        days,
    );
}

/// The premium keeps to floor and ceiling: it is never above the ceiling, and not below the floor
/// where the floor is not above the ceiling.
pub proof fn law_premium_keeps_to_floor_and_ceiling(
    terms: PremiumTerms,
    principal: int,
    score: u32,
    days: int,
)
    requires
        principal > 0,
    ensures
        terms.premium(principal, score, days) <= terms.max_premium(principal),
        terms.min_premium_bps <= terms.max_premium_bps ==> terms.min_premium(principal)
            <= terms.premium(principal, score, days),
{
    if terms.min_premium_bps <= terms.max_premium_bps {
        lemma_share_monotone(
            principal,
            principal,
            terms.min_premium_bps as int,
            terms.max_premium_bps as int,
        );
    }
}

/// Every premium fits a token amount, so a quote is refused for want of terms alone.
pub proof fn law_premium_always_fits(
    s: ReserveState,
    principal: i128,
    reply: Option<CreditScoreData>,
    days: int,
)
    requires
        0 <= days,
        s.premium_config is Some,
    ensures
        0 <= s.quote(principal, reply, days) <= i128::MAX,
        s.quote_refusal(principal, reply, days) is None,
{
    let terms = s.premium_config->0;
    if principal > 0 {
        let multiplier = s.risk_multiplier(reply) as int;
        lemma_raw_premium_monotone(terms, principal as int, 0, multiplier, 0, days);
        lemma_share_monotone(
            principal as int,
            principal as int,
            0,
            terms.max_premium_bps as int,
        );
        lemma_share_monotone(
            principal as int,
            principal as int,
            0,
            terms.min_premium_bps as int,
        );
    }
}

/// Without exposure the coverage ratio is one whole, whatever the reserve.
pub proof fn law_ratio_without_exposure(reserves: int)
    ensures
        coverage_ratio(reserves, 0) == BPS_DENOM,
{
}

/// The ratio tells a fully backed reserve from an under-reserved one: it is at least one whole
/// exactly if the reserve is no less than the exposure, and one whole where the two are equal.
pub proof fn law_ratio_tells_full_backing(reserves: int, exposure: int)
    requires
        0 < exposure,
    ensures
        coverage_ratio(reserves, exposure) >= BPS_DENOM <==> reserves >= exposure,
        reserves == exposure ==> coverage_ratio(reserves, exposure) == BPS_DENOM,
{
    let held = max_of(reserves, 0);
    let scaled = held * 10_000;
    let ratio = scaled / exposure;
    vstd::arithmetic::div_mod::lemma_fundamental_div_mod(scaled, exposure);
    vstd::arithmetic::div_mod::lemma_mod_bound(scaled, exposure);
    if reserves == exposure {
        vstd::arithmetic::div_mod::lemma_fundamental_div_mod_converse(
            scaled,
            exposure,
            10_000,
            0,
        );
    } else if reserves > exposure {
        assert(ratio >= 10_000) by (nonlinear_arith)
            requires
                scaled == exposure * ratio + scaled % exposure,
                0 <= scaled % exposure < exposure,
                scaled == held * 10_000,
                held >= exposure,
                exposure > 0,
        ;
    } else {
        assert(ratio < 10_000) by (nonlinear_arith)
            requires
                scaled == exposure * ratio + scaled % exposure,
                0 <= scaled % exposure < exposure,
                scaled == held * 10_000,
                held < exposure,
                exposure > 0,
        ;
    }
}

/// A ratio never falls as the reserve grows.
pub proof fn law_ratio_grows_with_reserves(reserves: int, more: int, exposure: int)
    requires
        0 < exposure,
        reserves <= more,
    ensures
        coverage_ratio(reserves, exposure) <= coverage_ratio(more, exposure),
{
    vstd::arithmetic::div_mod::lemma_div_is_ordered(
        max_of(reserves, 0) * 10_000,
        max_of(more, 0) * 10_000,
        exposure,
    );
}

/// No sale leaves a fund with exposure below its coverage floor.
pub proof fn law_sale_respects_coverage_floor(s: ReserveState, order: Order)
    requires
        s.purchase_refusal(order) is None,
    ensures
        ({
            let fund = s.sold(order).fund(order.token);
            fund.total_covered_exposure > 0 ==> fund.coverage_ratio_bps
                >= fund.min_coverage_ratio_bps
        }),
{
    let fund = s.order_fund(order);
    if fund.total_covered_exposure > 0 {
        vstd::arithmetic::div_mod::lemma_div_pos_is_pos(
            max_of(fund.total_reserves as int, 0) * 10_000,
            fund.total_covered_exposure as int,
        );
    }
}

/// A sale that leaves the fund fully backed is never refused for the coverage floor.
pub proof fn law_full_backing_meets_every_floor(s: ReserveState, order: Order)
    requires
        s.fund(order.token).min_coverage_ratio_bps <= BPS_DENOM,
        s.fund(order.token).total_reserves + s.order_premium(order) >= s.fund(
            order.token,
        ).total_covered_exposure + s.order_exposure(order),
    ensures
        s.purchase_refusal(order) != Some(InsuranceError::CoverageRatioFloorBreached),
{
    let fund = s.fund(order.token);
    let exposure = fund.total_covered_exposure + s.order_exposure(order);
    if exposure > 0 {
        law_ratio_tells_full_backing(fund.total_reserves + s.order_premium(order), exposure);
    }
}

/// Coverage is sold only by an unpaused, configured contract, to its pool, for a principal and a
/// premium that are more than nothing.
pub proof fn law_sale_conditions(s: ReserveState, order: Order)
    requires
        s.purchase_refusal(order) is None,
    ensures
        !s.paused,
        s.config matches Some(config) && order.payer == config.pool_contract,
        order.principal > 0,
        s.order_record(order).premium_paid > 0,
        s.order_sale(order).transfer.amount == s.order_record(order).premium_paid,
{
}

/// A sale costs what the quote for the same borrower and tenor says.
pub proof fn law_sale_costs_the_quote(s: ReserveState, order: Order)
    requires
        s.purchase_refusal(order) is None,
    ensures
        ({
            let days = tenor_days(order.due_date as int, order.now as int);
            &&& s.quote_refusal(order.principal, order.score_reply, days) is None
            &&& s.order_record(order).premium_paid == s.quote(
                order.principal,
                order.score_reply,
                days,
            )
        }),
{
}

/// A sold coverage is on record, unclaimed, as the sale returned it.
pub proof fn law_sale_is_on_record(s: ReserveState, order: Order)
    requires
        s.purchase_refusal(order) is None,
    ensures
        s.sold(order).record(order.invoice_id) == Some(s.order_sale(order).record),
        !s.order_sale(order).record.claimed,
{
}

/// A misstated due date mis-prices the premium and nothing else: what is covered, and so what a
/// claim can pay, does not depend on it.
pub proof fn law_due_date_moves_only_the_premium(s: ReserveState, order: Order, due_date: u64)
    ensures
        ({
            let other = Order { due_date, ..order };
            let record = s.order_record(order);
            let other_record = s.order_record(other);
            &&& s.order_exposure(other) == s.order_exposure(order)
            &&& other_record == (CoverageRecord {
                premium_paid: other_record.premium_paid,
                ..record
            })
            &&& other_record.covered_amount() == record.covered_amount()
        }),
{
}

/// An invoice that has coverage gets no second one.
pub proof fn law_invoice_is_covered_once(s: ReserveState, order: Order)
    requires
        s.coverage.contains_key(order.invoice_id),
    ensures
        s.purchase_refusal(order) is Some,
        s.purchase_gate(order.payer, order.principal) is None ==> s.purchase_refusal(order) == Some(
            InsuranceError::AlreadyCovered,
        ),
{
}

/// Whether `after` is the coverage `before`, at most marked as claimed since.
pub open spec fn same_coverage(before: CoverageRecord, after: CoverageRecord) -> bool {
    &&& after == (CoverageRecord { claimed: after.claimed, ..before })
    &&& before.claimed ==> after.claimed
}

/// Coverage, once sold, stays as it was sold: no later call takes it away or changes its terms,
/// and a claimed one stays claimed.
pub proof fn law_coverage_is_permanent(s: ReserveState, call: Call, invoice_id: u64)
    requires
        s.coverage.contains_key(invoice_id),
    ensures
        s.after(call).coverage.contains_key(invoice_id),
        same_coverage(s.coverage[invoice_id], s.after(call).coverage[invoice_id]),
{
}

/// A claim pays the least of what the coverage insures, what is short and what the reserve holds,
/// and always more than nothing; with the collateral it never recovers more than the debt.
pub proof fn law_payout_is_capped(s: ReserveState, invoice_id: u64, evidence: ClaimEvidence)
    requires
        s.claim_refusal(invoice_id, evidence) is None,
    ensures
        ({
            let record = s.coverage[invoice_id];
            let payout = s.claim_payout(invoice_id, evidence);
            &&& 0 < payout
            &&& payout <= record.covered_amount()
            &&& payout <= evidence.shortfall()
            &&& payout + recovery(evidence.collateral) <= debt(evidence.funded->0)
            &&& payout <= s.fund(record.token).total_reserves
            &&& payout == record.covered_amount() || payout == evidence.shortfall() || payout
                == s.fund(record.token).total_reserves
        }),
{
}

/// In balanced books a claim never pays more than the insured principal.
pub proof fn law_payout_within_principal(s: ReserveState, invoice_id: u64, evidence: ClaimEvidence)
    requires
        s.balanced(),
        s.claim_refusal(invoice_id, evidence) is None,
    ensures
        s.claim_payout(invoice_id, evidence) <= s.coverage[invoice_id].principal,
{
    assert(s.record_is_sound(invoice_id));
    let record = s.coverage[invoice_id];
    lemma_portion_bounds(record.principal as int, record.coverage_bps as int);
}

/// Paying a claim never overdraws the reserve, and never adds to it.
pub proof fn law_claim_never_overdraws(
    s: ReserveState,
    invoice_id: u64,
    evidence: ClaimEvidence,
    now: u64,
)
    requires
        s.claim_refusal(invoice_id, evidence) is None,
    ensures
        ({
            let token = s.coverage[invoice_id].token;
            0 <= s.settled(invoice_id, evidence, now).fund(token).total_reserves < s.fund(
                token,
            ).total_reserves
        }),
{
}

/// A claim is paid only on unclaimed coverage of an invoice that has defaulted with something
/// still owed beyond its collateral.
pub proof fn law_claim_conditions(s: ReserveState, invoice_id: u64, evidence: ClaimEvidence)
    requires
        s.claim_refusal(invoice_id, evidence) is None,
    ensures
        !s.paused,
        s.coverage.contains_key(invoice_id),
        !s.coverage[invoice_id].claimed,
        evidence.defaulted,
        evidence.funded is Some,
        evidence.shortfall() > 0,
{
}

/// Asking step by step comes to the decision that all the answers together give: a claim refused
/// on the way is one that is refused with that error whatever the remaining answers, and the
/// evidence that is settled on is the answers. Every question is one not yet answered.
pub proof fn law_inquiry_agrees_with_claim(
    s: ReserveState,
    invoice_id: u64,
    inquiry: ClaimInquiry,
    evidence: ClaimEvidence,
)
    requires
        inquiry.is_part_of(evidence),
    ensures
        s.inquiry_refusal(invoice_id, inquiry) is Some ==> s.claim_refusal(invoice_id, evidence)
            == s.inquiry_refusal(invoice_id, inquiry),
        match s.claim_step(inquiry) {
            ClaimStep::AskDefault { invoice_contract } => inquiry.defaulted is None,
            ClaimStep::AskFunding { pool_contract } => inquiry.funded is None,
            ClaimStep::AskCollateral { pool_contract } => inquiry.collateral is None,
            ClaimStep::Settle { evidence: settled_on } => settled_on == evidence,
        },
{
}

/// A coverage pays once: after a claim it is marked as claimed, and every further claim on it is
/// refused.
pub proof fn law_coverage_pays_once(
    s: ReserveState,
    invoice_id: u64,
    evidence: ClaimEvidence,
    now: u64,
    again: ClaimEvidence,
)
    requires
        s.claim_refusal(invoice_id, evidence) is None,
    ensures
        s.settled(invoice_id, evidence, now).coverage[invoice_id].claimed,
        s.settled(invoice_id, evidence, now).claim_refusal(invoice_id, again) == Some(
            InsuranceError::AlreadyClaimed,
        ),
{
}

/// Claimed coverage is refused a claim in every state, with the error that says so unless the
/// contract is paused.
pub proof fn law_claimed_coverage_is_refused(
    s: ReserveState,
    invoice_id: u64,
    evidence: ClaimEvidence,
)
    requires
        s.coverage.contains_key(invoice_id),
        s.coverage[invoice_id].claimed,
    ensures
        s.claim_refusal(invoice_id, evidence) == Some(
            if s.paused {
                InsuranceError::ContractPaused
            } else {
                InsuranceError::AlreadyClaimed
            },
        ),
{
}

/// A reserve that holds nothing refuses a claim that is otherwise in order, and the claim is not
/// spent: the coverage is as before.
pub proof fn law_empty_reserve_does_not_spend_the_claim(
    s: ReserveState,
    invoice_id: u64,
    evidence: ClaimEvidence,
    now: u64,
)
    requires
        s.balanced(),
        s.claim_gate(invoice_id) is None,
        evidence.refusal() is None,
        s.fund(s.coverage[invoice_id].token).total_reserves <= 0,
    ensures
        s.claim_refusal(invoice_id, evidence) == Some(InsuranceError::InsufficientReserves),
        s.after(Call::FileClaim { invoice_id, evidence, now }) == s,
{
    assert(s.record_is_sound(invoice_id));
}

/// An otherwise sound claim against a reserve that holds too little is paid in part: it takes all
/// that the reserve holds.
pub proof fn law_short_reserve_pays_what_it_has(
    s: ReserveState,
    invoice_id: u64,
    evidence: ClaimEvidence,
    now: u64,
)
    requires
        s.claim_refusal(invoice_id, evidence) is None,
        s.fund(s.coverage[invoice_id].token).total_reserves
            <= s.coverage[invoice_id].covered_amount(),
        s.fund(s.coverage[invoice_id].token).total_reserves <= evidence.shortfall(),
    ensures
        s.settled(invoice_id, evidence, now).fund(s.coverage[invoice_id].token).total_reserves == 0,
{
}

/// A paid claim is the last entry of the invoice's history, behind the entries there were.
pub proof fn law_claim_is_in_history(
    s: ReserveState,
    invoice_id: u64,
    evidence: ClaimEvidence,
    now: u64,
)
    requires
        s.claim_refusal(invoice_id, evidence) is None,
        s.claim_count(invoice_id) < u32::MAX,
    ensures
        s.settled(invoice_id, evidence, now).claim_history(invoice_id) == s.claim_history(
            invoice_id,
        ).push(s.claim_item(invoice_id, evidence, now)),
{
    let count = s.claim_count(invoice_id);
    lemma_earlier_claims_stay(s, invoice_id, evidence, now, count as nat);
}

proof fn lemma_earlier_claims_stay(
    s: ReserveState,
    invoice_id: u64,
    evidence: ClaimEvidence,
    now: u64,
    n: nat,
)
    requires
        n <= s.claim_count(invoice_id),
    ensures
        s.settled(invoice_id, evidence, now).claims_up_to(invoice_id, n) == s.claims_up_to(
            invoice_id,
            n,
        ),
    decreases n,
{
    if n > 0 {
        lemma_earlier_claims_stay(s, invoice_id, evidence, now, (n - 1) as nat);
    }
}

/// In balanced books an invoice's history is the one claim paid on it, or empty, so a claim that
/// is not refused finds room there.
pub proof fn law_history_holds_the_one_claim(s: ReserveState, invoice_id: u64)
    requires
        s.balanced(),
    ensures
        s.claim_count(invoice_id) <= 1,
        s.claim_history(invoice_id).len() == (if s.is_claimed(invoice_id) {
            1int
        } else {
            0
        }),
        s.is_claimed(invoice_id) ==> s.claim_history(invoice_id)[0].payout
            <= s.coverage[invoice_id].covered_amount(),
{
    assert(s.history_is_sound(invoice_id));
    reveal_with_fuel(ReserveState::claims_up_to, 2);
}

/// A paused contract sells no coverage and pays no claim.
pub proof fn law_pause_stops_sales_and_claims(
    s: ReserveState,
    order: Order,
    invoice_id: u64,
    evidence: ClaimEvidence,
)
    requires
        s.paused,
    ensures
        s.purchase_refusal(order) == Some(InsuranceError::ContractPaused),
        s.claim_refusal(invoice_id, evidence) == Some(InsuranceError::ContractPaused),
{
}

/// Unpausing undoes pausing.
pub proof fn law_unpause_undoes_pause(s: ReserveState, admin: Address)
    requires
        !s.paused,
    ensures
        s.after(Call::Pause { admin }).after(Call::Unpause { admin }) == s,
{
}

/// The contract is set up once: no call changes who administers it, or what it works with.
pub proof fn law_configuration_is_permanent(s: ReserveState, call: Call)
    requires
        s.config is Some,
    ensures
        s.after(call).config == s.config,
{
}

/// Only the administrator changes the settings: pricing terms, credit score contract, pause
/// switch and minimum reserves stay as they are unless an administrator's call is accepted.
pub proof fn law_only_the_admin_changes_settings(s: ReserveState, call: Call)
    ensures
        ({
            let by_admin = match call {
                Call::SetPremiumConfig { admin, terms } => s.is_admin(admin),
                Call::SetCreditScoreContract { admin, contract } => s.is_admin(admin),
                Call::Pause { admin } => s.is_admin(admin),
                Call::Unpause { admin } => s.is_admin(admin),
                Call::SetMinReserveAmount { admin, token, min_amount } => s.is_admin(admin),
                _ => false,
            };
            by_admin || {
                &&& s.after(call).premium_config == s.premium_config
                &&& s.after(call).credit_score_contract == s.credit_score_contract
                &&& s.after(call).paused == s.paused
                &&& s.after(call).min_reserves == s.min_reserves
            }
        }),
{
}

/// A coverage floor changes only by an administrator's call for that token.
pub proof fn law_only_the_admin_changes_floors(s: ReserveState, call: Call, token: Address)
    ensures
        ({
            let by_admin = match call {
                Call::SetMinCoverageRatio { admin, token: t, min_ratio_bps } => t == token
                    && s.is_admin(admin),
                _ => false,
            };
            by_admin || s.after(call).fund(token).min_coverage_ratio_bps == s.fund(
                token,
            ).min_coverage_ratio_bps
        }),
{
}

/// The token that a call moves or configures.
pub open spec fn token_of(s: ReserveState, call: Call) -> Option<Address> {
    match call {
        Call::SetMinCoverageRatio { admin, token, min_ratio_bps } => Some(token),
        Call::FundReserve { admin, token, amount } => Some(token),
        Call::PurchaseCoverage { order } => Some(order.token),
        Call::FileClaim { invoice_id, evidence, now } => if s.coverage.contains_key(invoice_id) {
            Some(s.coverage[invoice_id].token)
        } else {
            None
        },
        _ => None,
    }
}

/// A call leaves the funds of all other tokens alone.
pub proof fn law_tokens_are_separate(s: ReserveState, call: Call, token: Address)
    requires
        token_of(s, call) != Some(token),
    ensures
        s.after(call).fund(token) == s.fund(token),
{
}

/// A setting reads back as it was set.
pub proof fn law_settings_are_read_back(
    s: ReserveState,
    terms: PremiumTerms,
    contract: Address,
    token: Address,
    min_amount: i128,
    min_ratio_bps: u32,
)
    ensures
        s.with_premium_config(terms).premium_config == Some(terms),
        s.with_credit_score_contract(contract).credit_score_contract == Some(contract),
        s.with_min_reserve(token, min_amount).min_reserve(token) == min_amount,
        s.with_min_coverage_ratio(token, min_ratio_bps).fund(token).min_coverage_ratio_bps
            == min_ratio_bps,
{
}

/// In balanced books a reserve either is healthy or needs a top-up, and without a configured
/// minimum it is healthy.
pub proof fn law_health_and_top_up_agree(s: ReserveState, token: Address)
    requires
        s.balanced(),
    ensures
        s.health(token).needs_top_up == !s.health(token).is_healthy,
        !s.min_reserves.contains_key(token) ==> s.health(token).is_healthy,
{
    assert(s.fund_balances(token));
    assert(s.min_reserve(token) >= 0);
}

/// Missing credit data gets the stand-in score and is priced at the default multiplier, whatever
/// tier the stand-in falls in; no contract being named and the named one not answering are alike.
pub proof fn law_missing_credit_data(
    s: ReserveState,
    reply: Option<CreditScoreData>,
    principal: i128,
    days: int,
)
    requires
        s.credit_score_contract is None || reply is None,
    ensures
        s.credit_score(reply) == DEFAULT_SCORE_WHEN_UNAVAILABLE,
        s.quote(principal, reply, days) == s.premium_config->0.premium_at(
            principal as int,
            s.premium_config->0.default_risk_multiplier_bps as int,
            days,
        ),
{
}

/// With credit data, the quote is the premium for the borrower's score.
pub proof fn law_credit_data_sets_the_price(
    s: ReserveState,
    reply: Option<CreditScoreData>,
    principal: i128,
    days: int,
)
    requires
        s.has_credit_data(reply),
    ensures
        s.quote(principal, reply, days) == s.premium_config->0.premium(
            principal as int,
            s.credit_score(reply),
            days,
        ),
{
}

/// Missing credit data is never cheaper than any data, for terms whose default is at least every
/// tier's multiplier.
pub proof fn law_missing_credit_data_never_cheaper(
    s: ReserveState,
    missing: Option<CreditScoreData>,
    reply: Option<CreditScoreData>,
    principal: i128,
    days: int,
)
    requires
        0 <= days,
        !s.has_credit_data(missing),
        default_costs_most(
            s.premium_config->0.risk_tiers,
            s.premium_config->0.default_risk_multiplier_bps,
        ),
    ensures
        s.quote(principal, missing, days) >= s.quote(principal, reply, days),
{
    let terms = s.premium_config->0;
    lemma_default_bounds_multiplier(
        s.credit_score(reply),
        terms.risk_tiers,
        terms.default_risk_multiplier_bps,
    );
    law_higher_multiplier_never_cheaper(
        terms,
        principal as int,
        s.risk_multiplier(reply) as int,
        terms.default_risk_multiplier_bps as int,
        days,
    );
}

/// A default that is at least every tier's multiplier is at least the multiplier of every score.
proof fn lemma_default_bounds_multiplier(score: u32, tiers: Seq<RiskTier>, default: u32)
    requires
        default_costs_most(tiers, default),
    ensures
        tier_multiplier(score, tiers, default) <= default,
    decreases tiers.len(),
{
    if tiers.len() > 0 {
        assert(tiers[0].risk_multiplier_bps <= default);
        assert forall|i: int| 0 <= i < tiers.drop_first().len() implies (
        #[trigger] tiers.drop_first()[i]).risk_multiplier_bps <= default by {
            assert(tiers.drop_first()[i] == tiers[i + 1]);
        }
        lemma_default_bounds_multiplier(score, tiers.drop_first(), default);
    }
}

/// Whether two states agree on everything that a call about one token and one invoice reads.
pub open spec fn agree_on(s: ReserveState, t: ReserveState, token: Address, invoice_id: u64) -> bool {
    &&& s.config == t.config
    &&& s.credit_score_contract == t.credit_score_contract
    &&& s.premium_config == t.premium_config
    &&& s.paused == t.paused
    &&& s.reentrancy_guard == t.reentrancy_guard
    &&& s.fund(token) == t.fund(token)
    &&& s.record(invoice_id) == t.record(invoice_id)
    &&& s.claim_count(invoice_id) == t.claim_count(invoice_id)
}

/// A sale depends on the entries of its token and invoice alone.
pub proof fn law_sale_is_local(s: ReserveState, t: ReserveState, order: Order)
    requires
        agree_on(s, t, order.token, order.invoice_id),
    ensures
        s.purchase_refusal(order) == t.purchase_refusal(order),
        s.order_sale(order) == t.order_sale(order),
        agree_on(s.sold(order), t.sold(order), order.token, order.invoice_id),
{
    assert(s.coverage.contains_key(order.invoice_id) == t.coverage.contains_key(order.invoice_id))
        by {
        assert(s.record(order.invoice_id) == t.record(order.invoice_id));
    }
}

/// A claim depends on the entries of its invoice, and of the token it is covered in, alone.
pub proof fn law_claim_is_local(
    s: ReserveState,
    t: ReserveState,
    insurance: Address,
    invoice_id: u64,
    evidence: ClaimEvidence,
    now: u64,
)
    requires
        s.coverage.contains_key(invoice_id),
        agree_on(s, t, s.coverage[invoice_id].token, invoice_id),
    ensures
        s.claim_refusal(invoice_id, evidence) == t.claim_refusal(invoice_id, evidence),
        s.claim_settlement(insurance, invoice_id, evidence) == t.claim_settlement(
            insurance,
            invoice_id,
            evidence,
        ),
        s.claim_item(invoice_id, evidence, now) == t.claim_item(invoice_id, evidence, now),
        agree_on(
            s.settled(invoice_id, evidence, now),
            t.settled(invoice_id, evidence, now),
            s.coverage[invoice_id].token,
            invoice_id,
        ),
{
    assert(t.coverage.contains_key(invoice_id) && t.coverage[invoice_id]
        == s.coverage[invoice_id]) by {
        assert(s.record(invoice_id) == t.record(invoice_id));
    }
}

} // verus!
