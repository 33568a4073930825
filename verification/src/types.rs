//! What the contract stores, what other contracts tell it, and what it asks the chain to do.

use vstd::prelude::*;

use crate::address::Address;
use crate::bps::BPS_DENOM;
use crate::table::TableKey;

verus! {

/// Instance entries whose remaining lifetime falls below this many ledgers are extended
/// (about 30 days at 5 s a ledger).
pub const INSTANCE_LIFETIME_THRESHOLD: u32 = 17_280 * 30;

/// Lifetime, in ledgers, to which instance entries are extended (about 60 days).
pub const INSTANCE_BUMP_AMOUNT: u32 = 17_280 * 60;

/// Persistent entries whose remaining lifetime falls below this many ledgers are extended
/// (about 30 days at 5 s a ledger).
pub const PERSISTENT_LIFETIME_THRESHOLD: u32 = 17_280 * 30;

/// Lifetime, in ledgers, to which persistent entries are extended (about 60 days).
pub const PERSISTENT_BUMP_AMOUNT: u32 = 17_280 * 60;

/// Per-token reserve solvency state.
#[derive(Clone, Copy, Debug, PartialEq, Eq)]
pub struct ReserveFund {
    pub total_reserves: i128,
    pub total_premiums_collected: i128,
    pub total_claims_paid: i128,
    /// Sum of the covered amounts of all outstanding (bought, unclaimed) coverage.
    pub total_covered_exposure: i128,
    /// Reserves as a fraction of total covered exposure, in bps: 10_000 is fully backed, below
    /// that the fund is under-reserved. Without exposure it is 10_000.
    pub coverage_ratio_bps: u32,
    /// Admin-configured floor below which new coverage cannot be sold.
    pub min_coverage_ratio_bps: u32,
}

impl ReserveFund {
    /// The fund of a token that nothing has been booked for: no money, no exposure, no floor.
    pub open spec fn untouched() -> ReserveFund {
        ReserveFund {
            total_reserves: 0,
            total_premiums_collected: 0,
            total_claims_paid: 0,
            total_covered_exposure: 0,
            coverage_ratio_bps: BPS_DENOM,
            min_coverage_ratio_bps: 0,
        }
    }
}

impl Default for ReserveFund {
    fn default() -> (r: Self)
        ensures
            r == ReserveFund::untouched(),
    {
        ReserveFund {
            total_reserves: 0,
            total_premiums_collected: 0,
            total_claims_paid: 0,
            total_covered_exposure: 0,
            coverage_ratio_bps: BPS_DENOM,
            min_coverage_ratio_bps: 0,
        }
    }
}

/// The coverage bought for one invoice.
#[derive(Clone, Copy, Debug, PartialEq, Eq)]
pub struct CoverageRecord {
    pub invoice_id: u64,
    pub token: Address,
    pub principal: i128,
    pub premium_paid: i128,
    pub coverage_bps: u32,
    pub purchased_at: u64,
    /// Whether the coverage has paid its claim.
    pub claimed: bool,
}

/// A single historical claim entry recording the payout details.
#[derive(Clone, Copy, Debug, PartialEq, Eq)]
pub struct ClaimHistoryItem {
    pub invoice_id: u64,
    pub token: Address,
    pub payout: i128,
    pub shortfalls: i128,
    pub timestamp: u64,
}

/// Where one claim history entry is stored.
#[derive(Clone, Copy, Debug, PartialEq, Eq, Structural)]
pub struct ClaimSlot {
    pub invoice_id: u64,
    pub index: u32,
}

impl TableKey for ClaimSlot {
    fn same(&self, other: &Self) -> (r: bool) {
        *self == *other
    }
}

/// Health of a token's reserve against the configured minimum.
#[derive(Clone, Copy, Debug, PartialEq, Eq)]
pub struct ReserveHealth {
    pub token: Address,
    pub total_reserves: i128,
    pub coverage_ratio_bps: u32,
    pub min_reserve_amount: i128,
    pub is_healthy: bool,
    pub needs_top_up: bool,
}

/// Who administers the reserve, and the two contracts it works with.
#[derive(Clone, Copy, Debug, PartialEq, Eq)]
pub struct Config {
    pub admin: Address,
    pub pool_contract: Address,
    pub invoice_contract: Address,
}

/// What the credit score contract reports of a borrower.
#[derive(Clone, Copy, Debug, PartialEq, Eq)]
pub struct CreditScoreData {
    pub sme: Address,
    pub score: u32,
    pub total_invoices: u32,
    pub paid_on_time: u32,
    pub paid_late: u32,
    pub defaulted: u32,
    pub total_volume: i128,
    pub average_payment_days: i64,
    pub last_updated: u64,
    pub score_version: u32,
    pub config_version: u32,
    pub is_stale: bool,
    /// Score that takes in external attestations; zero where the contract does not give one.
    pub blended_score: u32,
}

/// What the pool reports of an invoice it funded.
#[derive(Clone, Copy, Debug, PartialEq, Eq)]
pub struct FundedInvoiceView {
    pub invoice_id: u64,
    pub sme: Address,
    pub token: Address,
    pub principal: i128,
    pub funded_at: u64,
    pub factoring_fee: i128,
    pub due_date: u64,
    pub repaid_amount: i128,
}

/// What the pool reports of the collateral posted for an invoice.
#[derive(Clone, Copy, Debug, PartialEq, Eq)]
pub struct CollateralDepositView {
    pub invoice_id: u64,
    pub depositor: Address,
    pub token: Address,
    pub amount: i128,
    pub settled: bool,
    pub posted_at: u64,
    pub released_at: u64,
    pub seized_at: u64,
}

/// A question to the credit score contract: how does it rate `sme`?
#[derive(Clone, Copy, Debug, PartialEq, Eq)]
pub struct ScoreQuery {
    pub credit_score_contract: Address,
    pub sme: Address,
}

/// A token transfer to carry out.
#[derive(Clone, Copy, Debug, PartialEq, Eq)]
pub struct Transfer {
    pub token: Address,
    pub from: Address,
    pub to: Address,
    pub amount: i128,
}

/// The notice by which the pool learns of a payout it has received.
#[derive(Clone, Copy, Debug, PartialEq, Eq)]
pub struct PayoutNotice {
    pub pool_contract: Address,
    pub insurance: Address,
    pub token: Address,
    pub invoice_id: u64,
    pub amount: i128,
}

/// An event to publish.
#[derive(Clone, Copy, Debug, PartialEq, Eq)]
pub enum Event {
    Initialized { admin: Address },
    PremiumConfigSet { admin: Address },
    MinCoverageRatioSet { admin: Address, token: Address, min_ratio_bps: u32 },
    ReserveFunded { admin: Address, token: Address, amount: i128 },
    Paused { admin: Address },
    Unpaused { admin: Address },
    Covered { invoice_id: u64, payer: Address, premium: i128, coverage_bps: u32 },
    Claimed { invoice_id: u64, payout: i128 },
    MinReserveAmountSet { admin: Address, token: Address, min_amount: i128 },
}

/// A top-up of the reserve that was accepted: the tokens to collect and the event to publish.
#[derive(Clone, Copy, Debug, PartialEq, Eq)]
pub struct Funding {
    pub transfer: Transfer,
    pub event: Event,
}

/// Coverage that was sold: the record, the premium to collect and the event to publish.
#[derive(Clone, Copy, Debug, PartialEq, Eq)]
pub struct Sale {
    pub record: CoverageRecord,
    pub transfer: Transfer,
    pub event: Event,
}

/// A claim that was accepted: the payout to make, in this order the transfer, the notice to the
/// pool and the event to publish.
#[derive(Clone, Copy, Debug, PartialEq, Eq)]
pub struct Settlement {
    pub payout: i128,
    pub transfer: Transfer,
    pub notice: PayoutNotice,
    pub event: Event,
}

} // verus!
