//! Sequences of calls, and what holds after every one of them.

use vstd::prelude::*;

use crate::address::Address;
#[allow(unused_imports)]
use crate::books::{
    exposure_in, lemma_total_bounds, lemma_total_change, lemma_total_new, payout_in, premium_in,
};
#[allow(unused_imports)]
use crate::bps::{lemma_portion_bounds, max_of, BPS_DENOM};
use crate::claim::ClaimEvidence;
use crate::error::InsuranceError;
use crate::pricing::PremiumTerms;
use crate::purchase::Order;
use crate::state::ReserveState;
#[allow(unused_imports)]
use crate::state::{coverage_ratio, state_after};
use crate::types::{ClaimSlot, Config, ReserveFund};

verus! {

/// A call that can change the state.
pub enum Call {
    Initialize { config: Config },
    SetPremiumConfig { admin: Address, terms: PremiumTerms },
    SetMinCoverageRatio { admin: Address, token: Address, min_ratio_bps: u32 },
    SetCreditScoreContract { admin: Address, contract: Address },
    FundReserve { admin: Address, token: Address, amount: i128 },
    Pause { admin: Address },
    Unpause { admin: Address },
    PurchaseCoverage { order: Order },
    FileClaim { invoice_id: u64, evidence: ClaimEvidence, now: u64 },
    SetMinReserveAmount { admin: Address, token: Address, min_amount: i128 },
}

impl ReserveState {
    /// Why a call is refused.
    pub open spec fn refusal(self, call: Call) -> Option<InsuranceError> {
        match call {
            Call::Initialize { config } => self.initialize_refusal(),
            Call::SetPremiumConfig { admin, terms } => self.set_premium_config_refusal(
                admin,
                terms,
            ),
            Call::SetMinCoverageRatio { admin, token, min_ratio_bps } =>
                self.set_min_coverage_ratio_refusal(admin, min_ratio_bps),
            Call::SetCreditScoreContract { admin, contract } => self.admin_refusal(admin),
            Call::FundReserve { admin, token, amount } => self.fund_refusal(admin, token, amount),
            Call::Pause { admin } => self.admin_refusal(admin),
            Call::Unpause { admin } => self.admin_refusal(admin),
            Call::PurchaseCoverage { order } => self.purchase_refusal(order),
            Call::FileClaim { invoice_id, evidence, now } => self.claim_refusal(
                invoice_id,
                evidence,
            ),
            Call::SetMinReserveAmount { admin, token, min_amount } => self.set_min_reserve_refusal(
                admin,
                min_amount,
            ),
        }
    }

    /// The state that a call leads to where it is not refused.
    pub open spec fn accepted(self, call: Call) -> ReserveState {
        match call {
            Call::Initialize { config } => self.initialized(config),
            Call::SetPremiumConfig { admin, terms } => self.with_premium_config(terms),
            Call::SetMinCoverageRatio { admin, token, min_ratio_bps } =>
                self.with_min_coverage_ratio(token, min_ratio_bps),
            Call::SetCreditScoreContract { admin, contract } => self.with_credit_score_contract(
                contract,
            ),
            Call::FundReserve { admin, token, amount } => self.funded(token, amount),
            Call::Pause { admin } => self.with_paused(true),
            Call::Unpause { admin } => self.with_paused(false),
            Call::PurchaseCoverage { order } => self.sold(order),
            Call::FileClaim { invoice_id, evidence, now } => self.settled(
                invoice_id,
                evidence,
                now,
            ),
            Call::SetMinReserveAmount { admin, token, min_amount } => self.with_min_reserve(
                token,
                min_amount,
            ),
        }
    }

    /// The state after a call.
    pub open spec fn after(self, call: Call) -> ReserveState {
        state_after(self.refusal(call), self, self.accepted(call))
    }
}

/// A use of the guard against calls that come in while tokens move.
pub enum GuardCall {
    Start,
    End,
}

impl ReserveState {
    /// The state after a sequence of uses of the guard.
    pub open spec fn after_guard_calls(self, calls: Seq<GuardCall>) -> ReserveState
        decreases calls.len(),
    {
        if calls.len() == 0 {
            self
        } else {
            let before = self.after_guard_calls(calls.drop_last());
            match calls.last() {
                GuardCall::Start => before.entered(),
                GuardCall::End => before.left(),
            }
        }
    }
}

/// Whether the guard was raised by the call at `i` and has not been lowered since.
pub open spec fn start_is_open(calls: Seq<GuardCall>, i: int) -> bool {
    &&& 0 <= i < calls.len()
    &&& calls[i] is Start
    &&& forall|j: int| i < j < calls.len() ==> !((#[trigger] calls[j]) is End)
}

/// The guard is up exactly while a start has not been followed by an end, so that is when a
/// further start is not admitted and a call that moves tokens is refused; nothing but the guard
/// changes.
pub proof fn law_guard_is_up_from_start_to_end(s: ReserveState, calls: Seq<GuardCall>)
    requires
        !s.reentrancy_guard,
    ensures
        s.after_guard_calls(calls).reentrancy_guard <==> exists|i: int|
            #[trigger] start_is_open(calls, i),
        s.after_guard_calls(calls).left() == s,
    decreases calls.len(),
{
    if calls.len() > 0 {
        law_guard_is_up_from_start_to_end(s, calls.drop_last());
        let last = calls.len() - 1;
        if calls.last() is Start {
            assert(start_is_open(calls, last));
        } else {
            assert forall|i: int| !#[trigger] start_is_open(calls, i) by {
                assert(calls[last] is End);
            }
        }
    }
}

/// The state that a sequence of calls leads to, from a contract that has not been set up.
pub open spec fn state_reached(calls: Seq<Call>) -> ReserveState
    decreases calls.len(),
{
    if calls.len() == 0 {
        ReserveState::empty()
    } else {
        state_reached(calls.drop_last()).after(calls.last())
    }
}

/// What the administrator has paid into `token`'s reserve over a sequence of calls.
pub open spec fn treasury_paid(calls: Seq<Call>, token: Address) -> int
    decreases calls.len(),
{
    if calls.len() == 0 {
        0
    } else {
        let before = state_reached(calls.drop_last());
        let paid = match calls.last() {
            Call::FundReserve { admin, token: t, amount } => if t == token && before.refusal(
                calls.last(),
            ) is None {
                amount as int
            } else {
                0
            },
            _ => 0,
        };
        treasury_paid(calls.drop_last(), token) + paid
    }
}

/// A coverage ratio always fits its field.
proof fn lemma_ratio_fits(reserves: int, exposure: int)
    ensures
        0 <= coverage_ratio(reserves, exposure) <= u32::MAX,
{
    if exposure > 0 {
        vstd::arithmetic::div_mod::lemma_div_pos_is_pos(max_of(reserves, 0) * 10_000, exposure);
    }
}

/// A contract that has not been set up has balanced books.
proof fn lemma_empty_is_balanced()
    ensures
        ReserveState::empty().balanced(),
{
    let s = ReserveState::empty();
    assert forall|token: Address| #[trigger] s.fund_balances(token) by {
        assert(s.coverage.dom() =~= Set::<u64>::empty());
        assert(s.claim_entries.dom() =~= Set::<ClaimSlot>::empty());
    }
}

/// Replacing a fund's reserve or floor, and nothing that the records account for, keeps the books
/// balanced.
proof fn lemma_fund_change(s: ReserveState, token: Address, fund: ReserveFund)
    requires
        s.balanced(),
        fund == fund.with_ratio(),
        fund.total_reserves >= 0,
        fund.min_coverage_ratio_bps <= BPS_DENOM,
        fund.total_covered_exposure == s.fund(token).total_covered_exposure,
        fund.total_premiums_collected == s.fund(token).total_premiums_collected,
        fund.total_claims_paid == s.fund(token).total_claims_paid,
    ensures
        s.with_fund(token, fund).balanced(),
{
    let next = s.with_fund(token, fund);
    assert forall|t: Address| #[trigger] next.fund_balances(t) by {
        assert(s.fund_balances(t));
        assert(s.fund_balances(token));
    }
    assert forall|id: u64| next.coverage.contains_key(id) implies #[trigger] next.record_is_sound(
        id,
    ) by {
        assert(s.record_is_sound(id));
    }
    assert forall|id: u64| #[trigger] next.history_is_sound(id) by {
        assert(s.history_is_sound(id));
    }
    assert forall|slot: ClaimSlot|
        next.claim_entries.contains_key(slot) implies #[trigger] next.entry_is_sound(slot) by {
        assert(s.entry_is_sound(slot));
    }
    assert forall|t: Address| #[trigger] next.min_reserve(t) >= 0 by {
        assert(s.min_reserve(t) >= 0);
    }
}

/// A change of settings that no fund, record or claim depends on keeps the books balanced.
proof fn lemma_settings_change(s: ReserveState, next: ReserveState)
    requires
        s.balanced(),
        next.reserves == s.reserves,
        next.coverage == s.coverage,
        next.claim_counts == s.claim_counts,
        next.claim_entries == s.claim_entries,
        next.reentrancy_guard == s.reentrancy_guard,
        next.premium_config matches Some(terms) ==> terms.refusal() is None,
        forall|t: Address| #[trigger] next.min_reserve(t) >= 0,
    ensures
        next.balanced(),
{
    assert forall|t: Address| #[trigger] next.fund_balances(t) by {
        assert(s.fund_balances(t));
    }
    assert forall|id: u64| next.coverage.contains_key(id) implies #[trigger] next.record_is_sound(
        id,
    ) by {
        assert(s.record_is_sound(id));
    }
    assert forall|id: u64| #[trigger] next.history_is_sound(id) by {
        assert(s.history_is_sound(id));
    }
    assert forall|slot: ClaimSlot|
        next.claim_entries.contains_key(slot) implies #[trigger] next.entry_is_sound(slot) by {
        assert(s.entry_is_sound(slot));
    }
}

/// Selling coverage keeps the books balanced.
proof fn lemma_sale_balances(s: ReserveState, order: Order)
    requires
        s.balanced(),
        s.purchase_refusal(order) is None,
    ensures
        s.sold(order).balanced(),
{
    let next = s.sold(order);
    let id = order.invoice_id;
    let record = s.order_record(order);
    let fund = s.order_fund(order);
    lemma_ratio_fits(fund.total_reserves as int, fund.total_covered_exposure as int);
    lemma_portion_bounds(order.principal as int, record.coverage_bps as int);
    assert(s.fund_balances(order.token));
    assert(!s.is_claimed(id));
    assert forall|t: Address| #[trigger] next.fund_balances(t) by {
        assert(s.fund_balances(t));
        lemma_total_new(s.coverage, exposure_in(t), id, record);
        lemma_total_new(s.coverage, premium_in(t), id, record);
    }
    assert forall|other: u64|
        next.coverage.contains_key(other) implies #[trigger] next.record_is_sound(other) by {
        if other != id {
            assert(s.record_is_sound(other));
        }
    }
    assert forall|other: u64| #[trigger] next.history_is_sound(other) by {
        assert(s.history_is_sound(other));
    }
    assert forall|slot: ClaimSlot|
        next.claim_entries.contains_key(slot) implies #[trigger] next.entry_is_sound(slot) by {
        assert(s.entry_is_sound(slot));
    }
    assert forall|t: Address| #[trigger] next.min_reserve(t) >= 0 by {
        assert(s.min_reserve(t) >= 0);
    }
}

/// Paying a claim keeps the books balanced.
proof fn lemma_claim_balances(s: ReserveState, invoice_id: u64, evidence: ClaimEvidence, now: u64)
    requires
        s.balanced(),
        s.claim_refusal(invoice_id, evidence) is None,
    ensures
        s.settled(invoice_id, evidence, now).balanced(),
{
    let next = s.settled(invoice_id, evidence, now);
    let record = s.coverage[invoice_id];
    let spent = next.coverage[invoice_id];
    let fund = s.claim_fund(invoice_id, evidence);
    let item = s.claim_item(invoice_id, evidence, now);
    let slot = ClaimSlot { invoice_id, index: 0 };
    assert(s.history_is_sound(invoice_id));
    assert(s.record_is_sound(invoice_id));
    assert(s.fund_balances(record.token));
    assert(!s.claim_entries.contains_key(slot)) by {
        if s.claim_entries.contains_key(slot) {
            assert(s.entry_is_sound(slot));
        }
    }
    lemma_portion_bounds(record.principal as int, record.coverage_bps as int);
    lemma_ratio_fits(fund.total_reserves as int, fund.total_covered_exposure as int);
    assert(s.outstanding_exposure(record.token) >= record.covered_amount()) by {
        let amount = exposure_in(record.token);
        assert forall|id: u64| s.coverage.contains_key(id) implies amount(
            #[trigger] s.coverage[id],
        ) >= 0 by {
            assert(s.record_is_sound(id));
            lemma_portion_bounds(
                s.coverage[id].principal as int,
                s.coverage[id].coverage_bps as int,
            );
        }
        lemma_total_bounds(s.coverage, amount);
        assert(amount(s.coverage[invoice_id]) == record.covered_amount());
    }
    assert forall|t: Address| #[trigger] next.fund_balances(t) by {
        assert(s.fund_balances(t));
        lemma_total_change(s.coverage, exposure_in(t), invoice_id, spent);
        lemma_total_change(s.coverage, premium_in(t), invoice_id, spent);
        lemma_total_new(s.claim_entries, payout_in(t), slot, item);
    }
    assert forall|other: u64|
        next.coverage.contains_key(other) implies #[trigger] next.record_is_sound(other) by {
        assert(s.record_is_sound(other));
    }
    assert forall|other: u64| #[trigger] next.history_is_sound(other) by {
        assert(s.history_is_sound(other));
    }
    assert forall|other: ClaimSlot|
        next.claim_entries.contains_key(other) implies #[trigger] next.entry_is_sound(other) by {
        if other != slot {
            assert(s.entry_is_sound(other));
        }
    }
    assert forall|t: Address| #[trigger] next.min_reserve(t) >= 0 by {
        assert(s.min_reserve(t) >= 0);
    }
}

/// A call, accepted or refused, keeps balanced books balanced.
pub proof fn law_call_keeps_books_balanced(s: ReserveState, call: Call)
    requires
        s.balanced(),
    ensures
        s.after(call).balanced(),
{
    if s.refusal(call) is None {
        let next = s.accepted(call);
        match call {
            Call::PurchaseCoverage { order } => {
                lemma_sale_balances(s, order);
            },
            Call::FileClaim { invoice_id, evidence, now } => {
                lemma_claim_balances(s, invoice_id, evidence, now);
            },
            Call::FundReserve { admin, token, amount } => {
                assert(s.fund_balances(token));
                let fund = next.reserves[token];
                lemma_ratio_fits(fund.total_reserves as int, fund.total_covered_exposure as int);
                lemma_fund_change(s, token, fund);
            },
            Call::SetMinCoverageRatio { admin, token, min_ratio_bps } => {
                assert(s.fund_balances(token));
                lemma_fund_change(s, token, next.reserves[token]);
            },
            _ => {
                assert forall|t: Address| #[trigger] next.min_reserve(t) >= 0 by {
                    assert(s.min_reserve(t) >= 0);
                }
                lemma_settings_change(s, next);
            },
        }
    }
}

/// The books balance after every sequence of calls: each fund's exposure is the sum of the
/// outstanding covered amounts, its premiums and claims are those on record, its ratio is up to
/// date, and it never owes more than it holds.
pub proof fn law_books_always_balance(calls: Seq<Call>)
    ensures
        state_reached(calls).balanced(),
    decreases calls.len(),
{
    if calls.len() == 0 {
        lemma_empty_is_balanced();
    } else {
        law_books_always_balance(calls.drop_last());
        law_call_keeps_books_balanced(state_reached(calls.drop_last()), calls.last());
    }
}

/// No money appears or disappears: a reserve holds what the treasury and the premiums brought in,
/// less what the claims took out.
pub proof fn law_reserves_are_accounted_for(calls: Seq<Call>, token: Address)
    ensures
        state_reached(calls).fund(token).total_reserves == treasury_paid(calls, token)
            + state_reached(calls).premiums_paid(token) - state_reached(calls).payouts_made(token),
    decreases calls.len(),
{
    law_books_always_balance(calls);
    assert(state_reached(calls).fund_balances(token));
    if calls.len() > 0 {
        let before = state_reached(calls.drop_last());
        law_reserves_are_accounted_for(calls.drop_last(), token);
        law_books_always_balance(calls.drop_last());
        assert(before.fund_balances(token));
    } else {
        assert(ReserveState::empty().fund(token).total_reserves == 0);
    }
}

/// A refused call changes nothing.
pub proof fn law_refused_call_changes_nothing(s: ReserveState, call: Call)
    requires
        s.refusal(call) is Some,
    ensures
        s.after(call) == s,
{
}

} // verus!
