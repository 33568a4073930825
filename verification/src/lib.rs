//! Default insurance for funded invoices.
//!
//! Invoices funded by a lending pool can be insured against default. A premium, priced from the
//! borrower's credit score and the invoice's tenor, is paid into a per-token reserve when
//! coverage is bought; once an insured invoice has defaulted, a claim pays the pool what the
//! seized collateral did not recover, as far as the coverage and the reserve go.
//!
//! The crate holds the rules and the books: [`reserve::InsuranceReserve`] is the contract's stored
//! state, and each of its methods decides one call. What only the chain can do (authorisation,
//! reading and writing ledger entries, asking other contracts, moving tokens, publishing events)
//! is the caller's part: a method takes the answers that the chain gave and returns what the chain
//! is to do next.

pub mod account_laws;
pub mod address;
pub mod books;
pub mod bps;
pub mod claim;
pub mod claim_laws;
pub mod error;
pub mod history;
pub mod laws;
pub mod pricing;
pub mod pricing_laws;
pub mod purchase;
pub mod reserve;
pub mod sale_laws;
pub mod state;
pub mod table;
pub mod types;
