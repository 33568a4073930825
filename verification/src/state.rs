//! The contract's state as a mathematical value, and what the administrative calls do to it.

use vstd::prelude::*;

use crate::address::Address;
use crate::bps::BPS_DENOM;
#[allow(unused_imports)]
use crate::bps::{max_of, min_of};
use crate::error::InsuranceError;
use crate::pricing::PremiumTerms;
use crate::types::{
    ClaimHistoryItem, ClaimSlot, Config, CoverageRecord, Event, Funding, ReserveFund,
    ReserveHealth, Transfer,
};

verus! {

/// Everything the contract stores.
#[verifier::ext_equal]
pub struct ReserveState {
    pub config: Option<Config>,
    pub credit_score_contract: Option<Address>,
    pub premium_config: Option<PremiumTerms>,
    pub paused: bool,
    /// Up while a call is moving tokens.
    pub reentrancy_guard: bool,
    pub reserves: Map<Address, ReserveFund>,
    pub coverage: Map<u64, CoverageRecord>,
    pub claim_counts: Map<u64, u32>,
    pub claim_entries: Map<ClaimSlot, ClaimHistoryItem>,
    pub min_reserves: Map<Address, i128>,
}

/// The answer to a call: an error where there is a reason to refuse it, else `value`.
pub open spec fn answer<T>(refusal: Option<InsuranceError>, value: T) -> Result<T, InsuranceError> {
    match refusal {
        Some(e) => Err(e),
        None => Ok(value),
    }
}

/// The state after a call: `next`, or, where the call is refused, the state before it.
pub open spec fn state_after(
    refusal: Option<InsuranceError>,
    before: ReserveState,
    next: ReserveState,
) -> ReserveState {
    match refusal {
        Some(_) => before,
        None => next,
    }
}

/// What a top-up sets in motion: the amount moves from the administrator to the contract.
pub open spec fn top_up(
    insurance: Address,
    admin: Address,
    token: Address,
    amount: i128,
) -> Funding {
    Funding {
        transfer: Transfer { token, from: admin, to: insurance, amount },
        event: Event::ReserveFunded { admin, token, amount },
    }
}

/// Reserves as a fraction of exposure, in bps, rounded down: 10_000 is fully backed, less is
/// under-reserved. It is 10_000 without exposure, zero for a reserve in debt, and no more than the
/// largest `u32`.
pub open spec fn coverage_ratio(reserves: int, exposure: int) -> int {
    if exposure <= 0 {
        BPS_DENOM as int
    } else {
        min_of((max_of(reserves, 0) * BPS_DENOM) / exposure, u32::MAX as int)
    }
}

impl ReserveFund {
    /// The same fund with its coverage ratio brought up to date.
    pub open spec fn with_ratio(self) -> ReserveFund {
        ReserveFund {
            coverage_ratio_bps: coverage_ratio(
                self.total_reserves as int,
                self.total_covered_exposure as int,
            ) as u32,
            ..self
        }
    }
}

impl PremiumTerms {
    /// Why these terms cannot be adopted: a ceiling below the floor, or a coverage fraction that
    /// is zero or more than the whole.
    pub open spec fn refusal(self) -> Option<InsuranceError> {
        if self.max_premium_bps < self.min_premium_bps {
            Some(InsuranceError::InvalidPremiumConfig)
        } else if !(0 < self.default_coverage_bps <= BPS_DENOM) {
            Some(InsuranceError::InvalidCoverageBps)
        } else {
            None
        }
    }
}

impl ReserveState {
    /// A contract that has not been set up.
    pub open spec fn empty() -> ReserveState {
        ReserveState {
            config: None,
            credit_score_contract: None,
            premium_config: None,
            paused: false,
            reentrancy_guard: false,
            reserves: Map::empty(),
            coverage: Map::empty(),
            claim_counts: Map::empty(),
            claim_entries: Map::empty(),
            min_reserves: Map::empty(),
        }
    }

    /// The fund of `token`.
    pub open spec fn fund(self, token: Address) -> ReserveFund {
        if self.reserves.contains_key(token) {
            self.reserves[token]
        } else {
            ReserveFund::untouched()
        }
    }

    /// The coverage bought for an invoice.
    pub open spec fn record(self, invoice_id: u64) -> Option<CoverageRecord> {
        if self.coverage.contains_key(invoice_id) {
            Some(self.coverage[invoice_id])
        } else {
            None
        }
    }

    /// The configured minimum of `token`'s reserve, zero where none is configured.
    pub open spec fn min_reserve(self, token: Address) -> i128 {
        if self.min_reserves.contains_key(token) {
            self.min_reserves[token]
        } else {
            0
        }
    }

    /// How many claims have been paid on an invoice.
    pub open spec fn claim_count(self, invoice_id: u64) -> u32 {
        if self.claim_counts.contains_key(invoice_id) {
            self.claim_counts[invoice_id]
        } else {
            0
        }
    }

    /// The first `n` claim history entries of an invoice, without those that are not stored.
    pub open spec fn claims_up_to(self, invoice_id: u64, n: nat) -> Seq<ClaimHistoryItem>
        decreases n,
    {
        if n == 0 {
            Seq::empty()
        } else {
            let earlier = self.claims_up_to(invoice_id, (n - 1) as nat);
            let slot = ClaimSlot { invoice_id, index: (n - 1) as u32 };
            if self.claim_entries.contains_key(slot) {
                earlier.push(self.claim_entries[slot])
            } else {
                earlier
            }
        }
    }

    /// The claim history of an invoice, oldest entry first.
    pub open spec fn claim_history(self, invoice_id: u64) -> Seq<ClaimHistoryItem> {
        self.claims_up_to(invoice_id, self.claim_count(invoice_id) as nat)
    }

    /// How `token`'s reserve stands against its configured minimum.
    pub open spec fn health(self, token: Address) -> ReserveHealth {
        let fund = self.fund(token);
        let minimum = self.min_reserve(token);
        ReserveHealth {
            token,
            total_reserves: fund.total_reserves,
            coverage_ratio_bps: fund.coverage_ratio_bps,
            min_reserve_amount: minimum,
            is_healthy: fund.total_reserves >= minimum,
            needs_top_up: minimum > 0 && fund.total_reserves < minimum,
        }
    }

    /// Whether `admin` administers the contract.
    pub open spec fn is_admin(self, admin: Address) -> bool {
        self.config matches Some(config) && config.admin == admin
    }

    /// Why `admin` may not administer the contract.
    pub open spec fn admin_refusal(self, admin: Address) -> Option<InsuranceError> {
        match self.config {
            None => Some(InsuranceError::NotInitialized),
            Some(config) => if admin != config.admin {
                Some(InsuranceError::Unauthorized)
            } else {
                None
            },
        }
    }

    /// The state with the guard raised.
    pub open spec fn entered(self) -> ReserveState {
        ReserveState { reentrancy_guard: true, ..self }
    }

    /// The state with the guard lowered.
    pub open spec fn left(self) -> ReserveState {
        ReserveState { reentrancy_guard: false, ..self }
    }

    /// Why the contract cannot be set up.
    pub open spec fn initialize_refusal(self) -> Option<InsuranceError> {
        if self.config is Some {
            Some(InsuranceError::AlreadyInitialized)
        } else {
            None
        }
    }

    /// The state once the contract is set up.
    pub open spec fn initialized(self, config: Config) -> ReserveState {
        ReserveState { config: Some(config), ..self }
    }

    /// Why `admin` cannot adopt `terms`.
    pub open spec fn set_premium_config_refusal(
        self,
        admin: Address,
        terms: PremiumTerms,
    ) -> Option<InsuranceError> {
        if self.admin_refusal(admin) is Some {
            self.admin_refusal(admin)
        } else {
            terms.refusal()
        }
    }

    /// The state once `terms` are adopted.
    pub open spec fn with_premium_config(self, terms: PremiumTerms) -> ReserveState {
        ReserveState { premium_config: Some(terms), ..self }
    }

    /// Why `admin` cannot set a coverage floor of `min_ratio_bps`.
    pub open spec fn set_min_coverage_ratio_refusal(
        self,
        admin: Address,
        min_ratio_bps: u32,
    ) -> Option<InsuranceError> {
        if self.admin_refusal(admin) is Some {
            self.admin_refusal(admin)
        } else if min_ratio_bps > BPS_DENOM {
            Some(InsuranceError::InvalidMinCoverageRatio)
        } else {
            None
        }
    }

    /// The state with `token`'s fund replaced.
    pub open spec fn with_fund(self, token: Address, fund: ReserveFund) -> ReserveState {
        ReserveState { reserves: self.reserves.insert(token, fund), ..self }
    }

    /// The state once `token`'s coverage floor is set.
    pub open spec fn with_min_coverage_ratio(
        self,
        token: Address,
        min_ratio_bps: u32,
    ) -> ReserveState {
        self.with_fund(
            token,
            (ReserveFund { min_coverage_ratio_bps: min_ratio_bps, ..self.fund(token) }),
        )
    }

    /// The state once the credit score contract is named.
    pub open spec fn with_credit_score_contract(self, contract: Address) -> ReserveState {
        ReserveState { credit_score_contract: Some(contract), ..self }
    }

    /// Why `admin` cannot add `amount` to `token`'s reserve.
    pub open spec fn fund_refusal(
        self,
        admin: Address,
        token: Address,
        amount: i128,
    ) -> Option<InsuranceError> {
        if self.admin_refusal(admin) is Some {
            self.admin_refusal(admin)
        } else if amount <= 0 {
            Some(InsuranceError::InvalidAmount)
        } else if self.reentrancy_guard {
            Some(InsuranceError::Unauthorized)
        } else if self.fund(token).total_reserves + amount > i128::MAX {
            Some(InsuranceError::AmountOverflow)
        } else {
            None
        }
    }

    /// The state once `amount` has been added to `token`'s reserve.
    pub open spec fn funded(self, token: Address, amount: i128) -> ReserveState {
        let fund = self.fund(token);
        self.with_fund(
            token,
            (ReserveFund {
                total_reserves: (fund.total_reserves + amount) as i128,
                ..fund
            }).with_ratio(),
        )
    }

    /// The state with the pause switch set.
    pub open spec fn with_paused(self, paused: bool) -> ReserveState {
        ReserveState { paused, ..self }
    }

    /// Why `admin` cannot set a minimum reserve of `min_amount`.
    pub open spec fn set_min_reserve_refusal(
        self,
        admin: Address,
        min_amount: i128,
    ) -> Option<InsuranceError> {
        if self.admin_refusal(admin) is Some {
            self.admin_refusal(admin)
        } else if min_amount < 0 {
            Some(InsuranceError::InvalidAmount)
        } else {
            None
        }
    }

    /// The state once `token`'s minimum reserve is set.
    pub open spec fn with_min_reserve(self, token: Address, min_amount: i128) -> ReserveState {
        ReserveState { min_reserves: self.min_reserves.insert(token, min_amount), ..self }
    }
}

} // verus!
