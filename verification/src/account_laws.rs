//! What the reserve's accounts say, and what administering them does.

use vstd::prelude::*;

use crate::address::Address;
use crate::claim::ClaimEvidence;
use crate::error::InsuranceError;
use crate::pricing::PremiumTerms;
use crate::purchase::Order;
use crate::reserve::InsuranceReserve;
use crate::state::ReserveState;
#[allow(unused_imports)]
use crate::state::{answer, coverage_ratio, state_after, top_up};
use crate::types::{ClaimHistoryItem, ClaimSlot, Config, Event, ReserveFund, Transfer};

verus! {

/// The state that the rules speak of is what is stored, entry by entry.
pub proof fn law_state_is_what_is_stored(r: InsuranceReserve)
    ensures
        r@.config == r.config,
        r@.credit_score_contract == r.credit_score_contract,
        r@.premium_config is Some <==> r.premium_config is Some,
        r.premium_config matches Some(config) ==> r@.premium_config == Some(config@),
        r@.paused == r.paused,
        r@.reentrancy_guard == r.reentrancy_guard,
        r@.reserves == r.reserves@,
        r@.coverage == r.coverage@,
        r@.claim_counts == r.claim_counts@,
        r@.claim_entries == r.claim_entries@,
        r@.min_reserves == r.min_reserves@,
{
}

/// A call that there is a reason to refuse is answered with that reason and leaves everything as
/// it was; any other call is answered with its result and takes effect.
pub proof fn law_refusal_decides<T>(
    reason: InsuranceError,
    value: T,
    before: ReserveState,
    next: ReserveState,
)
    ensures
        answer(Some(reason), value) == Err::<T, InsuranceError>(reason),
        answer(None, value) == Ok::<T, InsuranceError>(value),
        state_after(Some(reason), before, next) == before,
        state_after(None, before, next) == next,
{
}

/// What is read of a token or an invoice is the stored entry. Where there is none, the fund is
/// empty with a ratio of one whole, the minimum and the count are zero, and there is no coverage.
pub proof fn law_entries_read_back(s: ReserveState, token: Address, invoice_id: u64)
    ensures
        s.reserves.contains_key(token) ==> s.fund(token) == s.reserves[token],
        !s.reserves.contains_key(token) ==> s.fund(token) == (ReserveFund {
            total_reserves: 0,
            total_premiums_collected: 0,
            total_claims_paid: 0,
            total_covered_exposure: 0,
            coverage_ratio_bps: 10_000,
            min_coverage_ratio_bps: 0,
        }),
        s.coverage.contains_key(invoice_id) ==> s.record(invoice_id) == Some(
            s.coverage[invoice_id],
        ),
        !s.coverage.contains_key(invoice_id) ==> s.record(invoice_id) is None,
        s.min_reserves.contains_key(token) ==> s.min_reserve(token) == s.min_reserves[token],
        !s.min_reserves.contains_key(token) ==> s.min_reserve(token) == 0,
        s.claim_counts.contains_key(invoice_id) ==> s.claim_count(invoice_id)
            == s.claim_counts[invoice_id],
        !s.claim_counts.contains_key(invoice_id) ==> s.claim_count(invoice_id) == 0,
{
}

/// Whether `ratio` is `reserves` as a fraction of `exposure`, in ten-thousandths rounded down: one
/// whole without exposure, nothing for a reserve in debt, and no more than its type holds.
pub open spec fn is_ratio_of(ratio: int, reserves: int, exposure: int) -> bool {
    &&& 0 <= ratio <= 4_294_967_295
    &&& exposure <= 0 ==> ratio == 10_000
    &&& exposure > 0 && reserves <= 0 ==> ratio == 0
    &&& exposure > 0 && reserves > 0 ==> ratio * exposure <= reserves * 10_000
    &&& exposure > 0 && reserves > 0 && ratio < 4_294_967_295 ==> reserves * 10_000 < (ratio + 1)
        * exposure
}

/// The coverage ratio is reserves over exposure.
pub proof fn law_ratio_is_reserves_over_exposure(reserves: int, exposure: int)
    ensures
        is_ratio_of(coverage_ratio(reserves, exposure), reserves, exposure),
{
    if exposure > 0 {
        let held = if reserves > 0 {
            reserves
        } else {
            0
        };
        let scaled = held * 10_000;
        let quotient = scaled / exposure;
        vstd::arithmetic::div_mod::lemma_fundamental_div_mod(scaled, exposure);
        vstd::arithmetic::div_mod::lemma_mod_bound(scaled, exposure);
        vstd::arithmetic::div_mod::lemma_div_pos_is_pos(scaled, exposure);
        assert(quotient * exposure <= scaled < (quotient + 1) * exposure) by (nonlinear_arith)
            requires
                scaled == exposure * quotient + scaled % exposure,
                0 <= scaled % exposure < exposure,
        ;
        if reserves <= 0 {
            assert(quotient == 0) by (nonlinear_arith)
                requires
                    quotient * exposure <= 0,
                    0 <= quotient,
                    0 < exposure,
            ;
        } else if quotient > 4_294_967_295 {
            assert(4_294_967_295 * exposure <= scaled) by (nonlinear_arith)
                requires
                    quotient * exposure <= scaled,
                    quotient > 4_294_967_295,
                    0 < exposure,
            ;
        }
    }
}

/// Bringing a fund's ratio up to date sets the ratio and nothing else.
pub proof fn law_update_sets_the_ratio_alone(fund: ReserveFund)
    ensures
        ({
            let updated = fund.with_ratio();
            &&& updated == (ReserveFund { coverage_ratio_bps: updated.coverage_ratio_bps, ..fund })
            &&& is_ratio_of(
                updated.coverage_ratio_bps as int,
                fund.total_reserves as int,
                fund.total_covered_exposure as int,
            )
        }),
{
    law_ratio_is_reserves_over_exposure(
        fund.total_reserves as int,
        fund.total_covered_exposure as int,
    );
}

/// Health compares what the reserve holds with the configured minimum and nothing else: it is
/// healthy exactly if it holds at least the minimum, and needs a top-up exactly if a minimum above
/// zero is configured and it holds less. The other figures are reported as they are stored.
pub proof fn law_health_compares_reserve_and_minimum(s: ReserveState, token: Address)
    ensures
        s.health(token).is_healthy <==> s.fund(token).total_reserves >= s.min_reserve(token),
        s.health(token).needs_top_up <==> s.min_reserve(token) > 0 && s.fund(token).total_reserves
            < s.min_reserve(token),
        s.health(token).token == token,
        s.health(token).total_reserves == s.fund(token).total_reserves,
        s.health(token).coverage_ratio_bps == s.fund(token).coverage_ratio_bps,
        s.health(token).min_reserve_amount == s.min_reserve(token),
{
}

/// Two reserves that hold the same against the same minimum are equally healthy, whatever they
/// cover, have collected or have paid.
pub proof fn law_exposure_does_not_move_health(s: ReserveState, t: ReserveState, token: Address)
    requires
        s.fund(token).total_reserves == t.fund(token).total_reserves,
        s.min_reserve(token) == t.min_reserve(token),
    ensures
        s.health(token).is_healthy == t.health(token).is_healthy,
        s.health(token).needs_top_up == t.health(token).needs_top_up,
{
}

/// Whether `places` are the indices below `n` at which a claim of the invoice is stored, in
/// ascending order, and `items` the claims stored there.
pub open spec fn are_entries_at(
    items: Seq<ClaimHistoryItem>,
    places: Seq<u32>,
    s: ReserveState,
    invoice_id: u64,
    n: int,
) -> bool {
    &&& items.len() == places.len()
    &&& forall|k: int|
        0 <= k < places.len() ==> (#[trigger] places[k]) < n && s.claim_entries.contains_key(
            ClaimSlot { invoice_id, index: places[k] },
        ) && items[k] == s.claim_entries[ClaimSlot { invoice_id, index: places[k] }]
    &&& forall|k: int, l: int|
        0 <= k < l < places.len() ==> (#[trigger] places[k]) < (#[trigger] places[l])
    &&& forall|i: u32|
        i < n && #[trigger] s.claim_entries.contains_key(ClaimSlot { invoice_id, index: i })
            ==> places.contains(i)
}

proof fn lemma_entries_in_order(s: ReserveState, invoice_id: u64, n: nat) -> (places: Seq<u32>)
    requires
        n <= u32::MAX,
    ensures
        are_entries_at(s.claims_up_to(invoice_id, n), places, s, invoice_id, n as int),
    decreases n,
{
    if n == 0 {
        Seq::empty()
    } else {
        let last = (n - 1) as u32;
        let earlier = lemma_entries_in_order(s, invoice_id, (n - 1) as nat);
        if s.claim_entries.contains_key(ClaimSlot { invoice_id, index: last }) {
            let places = earlier.push(last);
            assert forall|i: u32|
                i < n && #[trigger] s.claim_entries.contains_key(
                    ClaimSlot { invoice_id, index: i },
                ) implies places.contains(i) by {
                if i == last {
                    assert(places[earlier.len() as int] == last);
                } else {
                    assert(earlier.contains(i));
                    let k = choose|k: int| 0 <= k < earlier.len() && earlier[k] == i;
                    assert(places[k] == i);
                }
            }
            places
        } else {
            earlier
        }
    }
}

/// The history of an invoice is all its stored claims, each once, from the lowest index to the
/// highest.
pub proof fn law_history_lists_every_claim_in_order(s: ReserveState, invoice_id: u64)
    ensures
        exists|places: Seq<u32>|
            are_entries_at(
                s.claim_history(invoice_id),
                places,
                s,
                invoice_id,
                s.claim_count(invoice_id) as int,
            ),
{
    let count = s.claim_count(invoice_id);
    let places = lemma_entries_in_order(s, invoice_id, count as nat);
    assert(are_entries_at(s.claim_history(invoice_id), places, s, invoice_id, count as int));
}

/// The administrator of a configured contract, and no one else, may administer it.
pub proof fn law_who_may_administer(s: ReserveState, admin: Address)
    ensures
        s.admin_refusal(admin) is None <==> (s.config is Some && s.config->0.admin == admin),
        s.admin_refusal(admin) == Some(InsuranceError::NotInitialized) <==> s.config is None,
        s.admin_refusal(admin) == Some(InsuranceError::Unauthorized) <==> (s.config is Some
            && s.config->0.admin != admin),
{
}

/// Setting the contract up works once, and stores the three addresses alone.
pub proof fn law_setting_up(s: ReserveState, config: Config)
    ensures
        s.config is None ==> s.initialize_refusal() is None,
        s.config is Some ==> s.initialize_refusal() == Some(InsuranceError::AlreadyInitialized),
        s.initialized(config) == (ReserveState { config: Some(config), ..s }),
{
}

/// Terms are adopted exactly if an administrator proposes a ceiling no lower than the floor and a
/// coverage above nothing and no more than the whole; they replace the terms there were, and
/// nothing else.
pub proof fn law_adopting_terms(s: ReserveState, admin: Address, terms: PremiumTerms)
    ensures
        s.admin_refusal(admin) is Some ==> s.set_premium_config_refusal(admin, terms)
            == s.admin_refusal(admin),
        s.admin_refusal(admin) is None ==> {
            let refusal = s.set_premium_config_refusal(admin, terms);
            &&& terms.min_premium_bps > terms.max_premium_bps ==> refusal == Some(
                InsuranceError::InvalidPremiumConfig,
            )
            &&& terms.min_premium_bps <= terms.max_premium_bps && (terms.default_coverage_bps == 0
                || terms.default_coverage_bps > 10_000) ==> refusal == Some(
                InsuranceError::InvalidCoverageBps,
            )
            &&& terms.min_premium_bps <= terms.max_premium_bps && 1 <= terms.default_coverage_bps
                <= 10_000 ==> refusal is None
        },
        s.with_premium_config(terms) == (ReserveState { premium_config: Some(terms), ..s }),
{
}

/// A coverage floor of at most one whole can be set by an administrator; of the token's fund it
/// moves the floor alone.
pub proof fn law_setting_a_floor(
    s: ReserveState,
    admin: Address,
    token: Address,
    min_ratio_bps: u32,
)
    ensures
        s.admin_refusal(admin) is Some ==> s.set_min_coverage_ratio_refusal(admin, min_ratio_bps)
            == s.admin_refusal(admin),
        s.admin_refusal(admin) is None && min_ratio_bps > 10_000
            ==> s.set_min_coverage_ratio_refusal(admin, min_ratio_bps) == Some(
            InsuranceError::InvalidMinCoverageRatio,
        ),
        s.admin_refusal(admin) is None && min_ratio_bps <= 10_000
            ==> s.set_min_coverage_ratio_refusal(admin, min_ratio_bps) is None,
        s.with_min_coverage_ratio(token, min_ratio_bps) == (ReserveState {
            reserves: s.reserves.insert(
                token,
                ReserveFund { min_coverage_ratio_bps: min_ratio_bps, ..s.fund(token) },
            ),
            ..s
        }),
{
}

/// A top-up of more than nothing that fits is accepted from an administrator while no other call
/// moves tokens; it adds the amount to the token's reserve, brings the ratio up to date, and
/// changes nothing else.
pub proof fn law_topping_up(s: ReserveState, admin: Address, token: Address, amount: i128)
    ensures
        s.admin_refusal(admin) is Some ==> s.fund_refusal(admin, token, amount)
            == s.admin_refusal(admin),
        s.admin_refusal(admin) is None ==> {
            let refusal = s.fund_refusal(admin, token, amount);
            let sum = s.fund(token).total_reserves + amount;
            &&& amount <= 0 ==> refusal == Some(InsuranceError::InvalidAmount)
            &&& amount > 0 && s.reentrancy_guard ==> refusal == Some(InsuranceError::Unauthorized)
            &&& amount > 0 && !s.reentrancy_guard && sum > i128::MAX ==> refusal == Some(
                InsuranceError::AmountOverflow,
            )
            &&& amount > 0 && !s.reentrancy_guard && sum <= i128::MAX ==> refusal is None
        },
        s.fund_refusal(admin, token, amount) is None ==> {
            let before = s.fund(token);
            let after = s.funded(token, amount).fund(token);
            &&& after.total_reserves == before.total_reserves + amount
            &&& after == (ReserveFund {
                total_reserves: after.total_reserves,
                coverage_ratio_bps: after.coverage_ratio_bps,
                ..before
            })
            &&& is_ratio_of(
                after.coverage_ratio_bps as int,
                after.total_reserves as int,
                before.total_covered_exposure as int,
            )
            &&& s.funded(token, amount) == (ReserveState {
                reserves: s.reserves.insert(token, after),
                ..s
            })
        },
{
    let before = s.fund(token);
    law_update_sets_the_ratio_alone(
        ReserveFund { total_reserves: (before.total_reserves + amount) as i128, ..before },
    );
}

/// A top-up is announced as it is made, and moves from the administrator to the contract.
pub proof fn law_what_a_top_up_sets_in_motion(
    insurance: Address,
    admin: Address,
    token: Address,
    amount: i128,
)
    ensures
        ({
            let funding = top_up(insurance, admin, token, amount);
            &&& funding.transfer == (Transfer { token, from: admin, to: insurance, amount })
            &&& funding.event == (Event::ReserveFunded { admin, token, amount })
        }),
{
}

/// The money that moves is the money that is booked: what a top-up or a sale brings in is by how
/// much the reserve of that token grows, and what a claim takes out by how much it shrinks.
pub proof fn law_money_moved_is_money_booked(
    s: ReserveState,
    insurance: Address,
    admin: Address,
    token: Address,
    amount: i128,
    order: Order,
    invoice_id: u64,
    evidence: ClaimEvidence,
    now: u64,
)
    ensures
        s.fund_refusal(admin, token, amount) is None ==> {
            let moved = top_up(insurance, admin, token, amount).transfer;
            &&& moved.to == insurance
            &&& moved.amount == s.funded(token, amount).fund(moved.token).total_reserves - s.fund(
                moved.token,
            ).total_reserves
        },
        s.purchase_refusal(order) is None ==> {
            let moved = s.order_sale(order).transfer;
            &&& moved.to == order.insurance
            &&& moved.amount == s.sold(order).fund(moved.token).total_reserves - s.fund(
                moved.token,
            ).total_reserves
        },
        s.claim_refusal(invoice_id, evidence) is None ==> {
            let moved = s.claim_settlement(insurance, invoice_id, evidence).transfer;
            &&& moved.from == insurance
            &&& moved.amount == s.fund(moved.token).total_reserves - s.settled(
                invoice_id,
                evidence,
                now,
            ).fund(moved.token).total_reserves
        },
{
}

/// The pause switch, the credit score contract and a minimum reserve are set as asked, and nothing
/// else moves. A minimum below zero is refused.
pub proof fn law_other_settings(
    s: ReserveState,
    admin: Address,
    paused: bool,
    contract: Address,
    token: Address,
    min_amount: i128,
)
    ensures
        s.with_paused(paused) == (ReserveState { paused, ..s }),
        s.with_credit_score_contract(contract) == (ReserveState {
            credit_score_contract: Some(contract),
            ..s
        }),
        s.admin_refusal(admin) is Some ==> s.set_min_reserve_refusal(admin, min_amount)
            == s.admin_refusal(admin),
        s.admin_refusal(admin) is None && min_amount < 0 ==> s.set_min_reserve_refusal(
            admin,
            min_amount,
        ) == Some(InsuranceError::InvalidAmount),
        s.admin_refusal(admin) is None && min_amount >= 0 ==> s.set_min_reserve_refusal(
            admin,
            min_amount,
        ) is None,
        s.with_min_reserve(token, min_amount) == (ReserveState {
            min_reserves: s.min_reserves.insert(token, min_amount),
            ..s
        }),
        s.entered() == (ReserveState { reentrancy_guard: true, ..s }),
        s.left() == (ReserveState { reentrancy_guard: false, ..s }),
{
}

/// A contract that has not been set up stores nothing.
pub proof fn law_new_contract_is_empty(token: Address, invoice_id: u64, slot: ClaimSlot)
    ensures
        ({
            let s = ReserveState::empty();
            &&& s.config is None
            &&& s.credit_score_contract is None
            &&& s.premium_config is None
            &&& !s.paused
            &&& !s.reentrancy_guard
            &&& !s.reserves.contains_key(token)
            &&& !s.coverage.contains_key(invoice_id)
            &&& !s.claim_counts.contains_key(invoice_id)
            &&& !s.claim_entries.contains_key(slot)
            &&& !s.min_reserves.contains_key(token)
        }),
{
}

} // verus!
