//! What the books add up to.

use vstd::prelude::*;

use crate::address::Address;
use crate::bps::BPS_DENOM;
#[allow(unused_imports)]
use crate::bps::fits_i128;
use crate::state::ReserveState;
use crate::types::{ClaimHistoryItem, ClaimSlot, CoverageRecord};

verus! {

/// The sum of `amount` over the values of a finite map.
pub open spec fn total<K, V>(entries: Map<K, V>, amount: spec_fn(V) -> int) -> int
    decreases entries.dom().len(),
    when entries.dom().finite()
{
    if entries.dom().len() == 0 {
        0
    } else {
        let key = entries.dom().choose();
        amount(entries[key]) + total(entries.remove(key), amount)
    }
}

/// A sum is that of one entry and that of the others.
pub proof fn lemma_total_split<K, V>(entries: Map<K, V>, amount: spec_fn(V) -> int, key: K)
    requires
        entries.dom().finite(),
        entries.contains_key(key),
    ensures
        total(entries, amount) == amount(entries[key]) + total(entries.remove(key), amount),
    decreases entries.dom().len(),
{
    let chosen = entries.dom().choose();
    if chosen != key {
        lemma_total_split(entries.remove(chosen), amount, key);
        lemma_total_split(entries.remove(key), amount, chosen);
        assert(entries.remove(chosen).remove(key) =~= entries.remove(key).remove(chosen));
    }
}

/// A new entry adds its amount to the sum.
pub proof fn lemma_total_new<K, V>(entries: Map<K, V>, amount: spec_fn(V) -> int, key: K, value: V)
    requires
        entries.dom().finite(),
        !entries.contains_key(key),
    ensures
        total(entries.insert(key, value), amount) == total(entries, amount) + amount(value),
{
    lemma_total_split(entries.insert(key, value), amount, key);
    assert(entries.insert(key, value).remove(key) =~= entries);
}

/// A changed entry changes the sum by as much as its amount changes.
pub proof fn lemma_total_change<K, V>(
    entries: Map<K, V>,
    amount: spec_fn(V) -> int,
    key: K,
    value: V,
)
    requires
        entries.dom().finite(),
        entries.contains_key(key),
    ensures
        total(entries.insert(key, value), amount) == total(entries, amount) - amount(entries[key])
            + amount(value),
{
    lemma_total_split(entries, amount, key);
    lemma_total_split(entries.insert(key, value), amount, key);
    assert(entries.insert(key, value).remove(key) =~= entries.remove(key));
}

/// A sum of amounts none of which is negative is at least each of them.
pub proof fn lemma_total_bounds<K, V>(entries: Map<K, V>, amount: spec_fn(V) -> int)
    requires
        entries.dom().finite(),
        forall|key: K| entries.contains_key(key) ==> amount(#[trigger] entries[key]) >= 0,
    ensures
        total(entries, amount) >= 0,
        forall|key: K|
            entries.contains_key(key) ==> total(entries, amount) >= amount(
                #[trigger] entries[key],
            ),
    decreases entries.dom().len(),
{
    assert forall|key: K| entries.contains_key(key) implies total(entries, amount) >= amount(
        #[trigger] entries[key],
    ) by {
        lemma_total_split(entries, amount, key);
        lemma_total_bounds(entries.remove(key), amount);
    }
    if entries.dom().len() != 0 {
        let key = entries.dom().choose();
        assert(entries.contains_key(key));
        assert(amount(entries[key]) >= 0);
    }
}

/// The outstanding exposure in `token` of a coverage.
pub open spec fn exposure_in(token: Address) -> spec_fn(CoverageRecord) -> int {
    |record: CoverageRecord|
        if record.token == token && !record.claimed {
            record.covered_amount()
        } else {
            0
        }
}

/// The premium in `token` paid for a coverage.
pub open spec fn premium_in(token: Address) -> spec_fn(CoverageRecord) -> int {
    |record: CoverageRecord|
        if record.token == token {
            record.premium_paid as int
        } else {
            0
        }
}

/// The payout in `token` of a claim.
pub open spec fn payout_in(token: Address) -> spec_fn(ClaimHistoryItem) -> int {
    |item: ClaimHistoryItem|
        if item.token == token {
            item.payout as int
        } else {
            0
        }
}

impl ReserveState {
    /// The covered amounts of all coverage in `token` that has been bought and not claimed.
    pub open spec fn outstanding_exposure(self, token: Address) -> int {
        total(self.coverage, exposure_in(token))
    }

    /// The premiums of all coverage ever bought in `token`.
    pub open spec fn premiums_paid(self, token: Address) -> int {
        total(self.coverage, premium_in(token))
    }

    /// The payouts of all claims ever paid in `token`.
    pub open spec fn payouts_made(self, token: Address) -> int {
        total(self.claim_entries, payout_in(token))
    }

    /// The fund of `token` agrees with the coverage sold and the claims paid, owes nothing, and
    /// its ratio is up to date.
    pub open spec fn fund_balances(self, token: Address) -> bool {
        let fund = self.fund(token);
        &&& fund.total_covered_exposure == self.outstanding_exposure(token)
        &&& fund.total_premiums_collected == self.premiums_paid(token)
        &&& fund.total_claims_paid == self.payouts_made(token)
        &&& fund.total_reserves >= 0
        &&& fund == fund.with_ratio()
        &&& fund.min_coverage_ratio_bps <= BPS_DENOM
    }

    /// The coverage stored for an invoice is one that was sold for it.
    pub open spec fn record_is_sound(self, invoice_id: u64) -> bool {
        let record = self.coverage[invoice_id];
        &&& record.invoice_id == invoice_id
        &&& record.principal > 0
        &&& record.premium_paid > 0
        &&& 0 < record.coverage_bps <= BPS_DENOM
        &&& fits_i128(record.principal * record.coverage_bps)
    }

    /// Whether a claim has been paid on the invoice.
    pub open spec fn is_claimed(self, invoice_id: u64) -> bool {
        self.coverage.contains_key(invoice_id) && self.coverage[invoice_id].claimed
    }

    /// An invoice has one history entry once its coverage is claimed, and none before; the entry
    /// is a payout of that coverage, within what it insures and what was short.
    pub open spec fn history_is_sound(self, invoice_id: u64) -> bool {
        &&& self.claim_count(invoice_id) == (if self.is_claimed(invoice_id) {
            1int
        } else {
            0
        })
        &&& self.is_claimed(invoice_id) ==> {
            let slot = ClaimSlot { invoice_id, index: 0 };
            let item = self.claim_entries[slot];
            let record = self.coverage[invoice_id];
            &&& self.claim_entries.contains_key(slot)
            &&& item.invoice_id == invoice_id
            &&& item.token == record.token
            &&& 0 < item.payout <= record.covered_amount()
            &&& item.payout <= item.shortfalls
        }
    }

    /// A stored claim history entry is the first of an invoice whose coverage is claimed.
    pub open spec fn entry_is_sound(self, slot: ClaimSlot) -> bool {
        slot.index == 0 && self.is_claimed(slot.invoice_id)
    }

    /// The books balance: every fund agrees with the coverage and the claims on record, every
    /// record is sound, and no call is under way.
    pub open spec fn balanced(self) -> bool {
        &&& self.coverage.dom().finite()
        &&& self.claim_entries.dom().finite()
        &&& !self.reentrancy_guard
        &&& self.premium_config matches Some(terms) ==> terms.refusal() is None
        &&& forall|token: Address| #[trigger] self.fund_balances(token)
        &&& forall|invoice_id: u64|
            self.coverage.contains_key(invoice_id) ==> #[trigger] self.record_is_sound(invoice_id)
        &&& forall|invoice_id: u64| #[trigger] self.history_is_sound(invoice_id)
        &&& forall|slot: ClaimSlot|
            self.claim_entries.contains_key(slot) ==> #[trigger] self.entry_is_sound(slot)
        &&& forall|token: Address| #[trigger] self.min_reserve(token) >= 0
    }
}

} // verus!
