//! Verified core of a two-party asset-swap escrow.
//!
//! The crate holds the instruction codec, the persisted escrow record with
//! its fixed binary layout, and the processor that validates the account set
//! supplied with each instruction and drives the two state transitions
//! (initialize, exchange). Reads and writes of real ledger accounts, and the
//! invocation of the asset-transfer collaborator, are left to the caller:
//! the processor returns the exact operations to perform.

pub mod error;
pub mod instruction;
pub mod laws;
pub mod ledger;
pub mod processor;
pub mod state;
