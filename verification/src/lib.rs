//! On-ledger logic that records label submissions and maintains a cumulative,
//! per-user statistics record determining reward accrual.
//!
//! The crate is organised leaf-first:
//! - [`error`]: the failure taxonomy of an invocation.
//! - [`record`]: the persisted 57-byte statistics record and its fixed layout.
//! - [`instruction`]: the request decoder for the instruction payload.
//! - [`address`]: deterministic derivation of the per-user storage address.
//! - [`processor`]: the full instruction-processing path over plain values.
//! - [`ledger`]: a model of one storage slot, showing the all-or-nothing
//!   effect of an invocation.

pub mod address;
pub mod error;
pub mod ledger;
pub mod processor;
pub mod instruction;
pub mod record;
