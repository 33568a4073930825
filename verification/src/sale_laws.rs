//! When coverage is sold, and what a sale does.

use vstd::prelude::*;

use crate::account_laws::{law_ratio_is_reserves_over_exposure, law_update_sets_the_ratio_alone};
#[allow(unused_imports)]
use crate::account_laws::is_ratio_of;
use crate::address::Address;
use crate::error::InsuranceError;
use crate::laws::law_premium_always_fits;
use crate::pricing_laws::law_portion_is_amount_times_rate;
#[allow(unused_imports)]
use crate::purchase::tenor_days;
use crate::purchase::Order;
use crate::state::ReserveState;
#[allow(unused_imports)]
use crate::state::coverage_ratio;
use crate::types::{CoverageRecord, Event, ReserveFund, Transfer};

verus! {

/// Whether `covered` is the part of the order's principal that coverage insures at the adopted
/// rate, rounded down.
pub open spec fn is_covered_by(covered: int, s: ReserveState, order: Order) -> bool {
    covered * 10_000 <= order.principal * s.premium_config->0.default_coverage_bps < covered * 10_000
        + 10_000
}

/// The exposure that an order adds is the covered part of its principal.
proof fn lemma_covered_is_the_exposure(s: ReserveState, order: Order, covered: int)
    requires
        order.principal > 0,
        is_covered_by(covered, s, order),
    ensures
        covered == s.order_exposure(order),
        0 <= covered,
        0 <= order.principal * s.premium_config->0.default_coverage_bps,
{
    let bps = s.premium_config->0.default_coverage_bps as int;
    law_portion_is_amount_times_rate(order.principal as int, bps);
    assert(0 <= order.principal * bps) by (nonlinear_arith)
        requires
            0 < order.principal,
            0 <= bps,
    ;
}

/// A ratio is below a floor exactly if the scaled reserves are below the floor's part of the
/// exposure.
proof fn lemma_below_the_floor(reserves: int, exposure: int, floor: int)
    requires
        0 < exposure,
        0 <= floor <= u32::MAX,
    ensures
        coverage_ratio(reserves, exposure) < floor <==> 0 < floor && reserves * 10_000 < floor
            * exposure,
{
    law_ratio_is_reserves_over_exposure(reserves, exposure);
    let ratio = coverage_ratio(reserves, exposure);
    assert(0 < floor ==> 0 < floor * exposure) by (nonlinear_arith)
        requires
            0 < exposure,
    ;
    if reserves > 0 {
        if ratio < floor {
            assert((ratio + 1) * exposure <= floor * exposure) by (nonlinear_arith)
                requires
                    ratio + 1 <= floor,
                    0 < exposure,
            ;
        } else {
            assert(floor * exposure <= ratio * exposure) by (nonlinear_arith)
                requires
                    floor <= ratio,
                    0 < exposure,
            ;
        }
    }
}

/// Who may buy, what may be priced: the checks before a sale, in their order.
pub proof fn law_checks_before_a_sale(
    s: ReserveState,
    payer: Address,
    principal: i128,
    invoice_id: u64,
)
    ensures
        ({
            let gate = s.purchase_gate(payer, principal);
            &&& s.paused ==> gate == Some(InsuranceError::ContractPaused)
            &&& !s.paused && s.config is None ==> gate == Some(InsuranceError::NotInitialized)
            &&& !s.paused && s.config is Some && s.config->0.pool_contract != payer ==> gate
                == Some(InsuranceError::Unauthorized)
            &&& !s.paused && s.config is Some && s.config->0.pool_contract == payer && principal
                <= 0 ==> gate == Some(InsuranceError::InvalidAmount)
            &&& !s.paused && s.config is Some && s.config->0.pool_contract == payer && principal
                > 0 ==> gate is None
        }),
        ({
            let gate = s.pricing_gate(invoice_id);
            &&& s.coverage.contains_key(invoice_id) ==> gate == Some(InsuranceError::AlreadyCovered)
            &&& !s.coverage.contains_key(invoice_id) && s.premium_config is None ==> gate == Some(
                InsuranceError::InvalidPremiumConfig,
            )
            &&& !s.coverage.contains_key(invoice_id) && s.premium_config is Some ==> gate is None
        }),
{
}

/// Every order is decided: it is sold exactly if the pool of a running contract asks for it, the
/// invoice has no coverage yet, there are terms, principal and premium are above nothing, the
/// amounts fit, the fund afterwards keeps to the token's floor, and no other call moves tokens.
/// Each refusal comes exactly for the reason it names. The floor refuses exactly the sales after
/// which the reserve, times 10_000, is below the configured number times the exposure.
pub proof fn law_every_order_is_decided(s: ReserveState, order: Order, covered: int)
    requires
        order.principal > 0 ==> is_covered_by(covered, s, order),
    ensures
        ({
            let refusal = s.purchase_refusal(order);
            let fund = s.fund(order.token);
            let premium = s.order_premium(order);
            let reserves = fund.total_reserves + premium;
            let exposure = fund.total_covered_exposure + covered;
            let by_pool = !s.paused && s.config is Some && s.config->0.pool_contract == order.payer;
            let is_new = by_pool && order.principal > 0 && !s.coverage.contains_key(
                order.invoice_id,
            );
            let priced = is_new && s.premium_config is Some && premium > 0;
            let fits = order.principal * s.premium_config->0.default_coverage_bps <= i128::MAX
                && exposure <= i128::MAX && reserves <= i128::MAX;
            let below = exposure > 0 && fund.min_coverage_ratio_bps > 0 && reserves * 10_000
                < fund.min_coverage_ratio_bps * exposure;
            let bookable = fund.total_premiums_collected + premium <= i128::MAX;
            &&& refusal is None <==> priced && fits && !below && !s.reentrancy_guard && bookable
            &&& refusal == Some(InsuranceError::CoverageRatioFloorBreached) <==> priced && fits
                && below
            &&& refusal == Some(InsuranceError::ContractPaused) <==> s.paused
            &&& refusal == Some(InsuranceError::NotInitialized) <==> !s.paused && s.config is None
            &&& refusal == Some(InsuranceError::Unauthorized) <==> (!s.paused && s.config is Some
                && s.config->0.pool_contract != order.payer) || (priced && fits && !below
                && s.reentrancy_guard)
            &&& refusal == Some(InsuranceError::InvalidAmount) <==> (by_pool && order.principal
                <= 0) || (is_new && s.premium_config is Some && premium <= 0)
            &&& refusal == Some(InsuranceError::AlreadyCovered) <==> by_pool && order.principal > 0
                && s.coverage.contains_key(order.invoice_id)
            &&& refusal == Some(InsuranceError::InvalidPremiumConfig) <==> is_new
                && s.premium_config is None
            &&& refusal == Some(InsuranceError::AmountOverflow) <==> priced && (!fits || (!below
                && !s.reentrancy_guard && !bookable))
        }),
{
    if order.principal > 0 && s.premium_config is Some {
        let fund = s.fund(order.token);
        let premium = s.order_premium(order);
        let exposure = fund.total_covered_exposure + covered;
        lemma_covered_is_the_exposure(s, order, covered);
        law_premium_always_fits(
            s,
            order.principal,
            order.score_reply,
            tenor_days(order.due_date as int, order.now as int),
        );
        if exposure > 0 {
            lemma_below_the_floor(
                fund.total_reserves + premium,
                exposure,
                fund.min_coverage_ratio_bps as int,
            );
        }
    }
}

/// A sale after which the reserve backs the configured part of the exposure is never refused for
/// the floor, and one after which it does not is never made.
pub proof fn law_floor_is_the_configured_number(s: ReserveState, order: Order, covered: int)
    requires
        order.principal > 0,
        is_covered_by(covered, s, order),
    ensures
        ({
            let fund = s.fund(order.token);
            let scaled = (fund.total_reserves + s.order_premium(order)) * 10_000;
            let demanded = fund.min_coverage_ratio_bps * (fund.total_covered_exposure + covered);
            &&& scaled >= demanded ==> s.purchase_refusal(order) != Some(
                InsuranceError::CoverageRatioFloorBreached,
            )
            &&& fund.total_reserves >= 0 && fund.total_covered_exposure >= 0 && scaled < demanded
                ==> s.purchase_refusal(order) is Some
        }),
{
    law_every_order_is_decided(s, order, covered);
    lemma_covered_is_the_exposure(s, order, covered);
    let fund = s.fund(order.token);
    let floor = fund.min_coverage_ratio_bps as int;
    let exposure = fund.total_covered_exposure + covered;
    if s.premium_config is Some {
        law_premium_always_fits(
            s,
            order.principal,
            order.score_reply,
            tenor_days(order.due_date as int, order.now as int),
        );
    }
    assert(floor == 0 || exposure == 0 ==> floor * exposure == 0) by (nonlinear_arith);
}

/// A sale puts the premium into the token's reserve and the covered part of the principal into its
/// exposure, records the coverage as sold, and touches nothing else.
pub proof fn law_what_a_sale_books(s: ReserveState, order: Order, covered: int)
    requires
        s.purchase_refusal(order) is None,
        is_covered_by(covered, s, order),
    ensures
        ({
            let after = s.sold(order);
            let before = s.fund(order.token);
            let fund = after.fund(order.token);
            let record = after.coverage[order.invoice_id];
            let premium = s.order_premium(order);
            &&& fund.total_reserves == before.total_reserves + premium
            &&& fund.total_premiums_collected == before.total_premiums_collected + premium
            &&& fund.total_covered_exposure == before.total_covered_exposure + covered
            &&& fund.total_claims_paid == before.total_claims_paid
            &&& fund.min_coverage_ratio_bps == before.min_coverage_ratio_bps
            &&& is_ratio_of(
                fund.coverage_ratio_bps as int,
                fund.total_reserves as int,
                fund.total_covered_exposure as int,
            )
            &&& record.invoice_id == order.invoice_id
            &&& record.token == order.token
            &&& record.principal == order.principal
            &&& record.premium_paid == premium
            &&& record.coverage_bps == s.premium_config->0.default_coverage_bps
            &&& record.purchased_at == order.now
            &&& !record.claimed
            &&& after == (ReserveState {
                reserves: s.reserves.insert(order.token, fund),
                coverage: s.coverage.insert(order.invoice_id, record),
                ..s
            })
        }),
{
    law_every_order_is_decided(s, order, covered);
    lemma_covered_is_the_exposure(s, order, covered);
    law_premium_always_fits(
        s,
        order.principal,
        order.score_reply,
        tenor_days(order.due_date as int, order.now as int),
    );
    let before = s.fund(order.token);
    let premium = s.order_premium(order);
    law_update_sets_the_ratio_alone(
        ReserveFund {
            total_reserves: (before.total_reserves + premium) as i128,
            total_premiums_collected: (before.total_premiums_collected + premium) as i128,
            total_covered_exposure: (before.total_covered_exposure + covered) as i128,
            ..before
        },
    );
}

/// A sale hands out the coverage as it is recorded, moves the premium from the payer to the
/// contract in the order's token, and announces it.
pub proof fn law_what_a_sale_hands_out(s: ReserveState, order: Order)
    ensures
        ({
            let sale = s.order_sale(order);
            let record = s.sold(order).coverage[order.invoice_id];
            &&& sale.record == record
            &&& sale.transfer == (Transfer {
                token: order.token,
                from: order.payer,
                to: order.insurance,
                amount: record.premium_paid,
            })
            &&& sale.event == (Event::Covered {
                invoice_id: order.invoice_id,
                payer: order.payer,
                premium: record.premium_paid,
                coverage_bps: record.coverage_bps,
            })
        }),
{
}

/// What a coverage insures is its rate of its principal, rounded toward zero, whatever else is on
/// record.
pub proof fn law_what_a_coverage_insures(record: CoverageRecord)
    ensures
        ({
            let covered = record.covered_amount();
            let product = record.principal * record.coverage_bps;
            &&& record.principal >= 0 ==> covered * 10_000 <= product < covered * 10_000 + 10_000
            &&& record.principal < 0 ==> covered * 10_000 - 10_000 < product <= covered * 10_000
        }),
{
    law_portion_is_amount_times_rate(record.principal as int, record.coverage_bps as int);
}

} // verus!
