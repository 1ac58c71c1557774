//! Accounting core of a collateralized-debt-position (CDP) engine.
//!
//! The library tracks per-owner collateral deposits, computes how much
//! synthetic credit may be issued against a deposit under a fixed margin,
//! and accrues time-based interest on outstanding debt. Identity of the
//! caller, persistence of the records, the token ledger that actually
//! issues credit, and the wall clock are external collaborators: callers
//! hand their readings in as plain values and perform the issuance that a
//! successful operation authorizes.

pub mod accrual;
pub mod issuance;
pub mod laws;
pub mod rate;
pub mod registry;
pub mod state;
