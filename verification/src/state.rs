//! Data model: identities, the error taxonomy, the per-owner `Vault`
//! ledger record and the shared `Config` record, together with the spec
//! functions that give the issuance and accrual formulas their meaning.

use vstd::prelude::*;

verus! {

/// Fixed notional value ascribed to one collateral unit.
pub const BOND_UNIT_VALUE: u64 = 1000;

/// Fixed haircut, in percent, applied to collateral value before credit
/// may be issued against it.
pub const MARGIN_PERCENT: u64 = 5;

/// Denominator of the simple-interest formula: basis points scaled by the
/// seconds of a 365-day year.
pub const INTEREST_DENOMINATOR: u64 = 10000 * 365 * 24 * 3600;

/// An opaque 256-bit identity, standing for the public key of a party.
/// The engine only stores identities and compares them for equality.
#[derive(Clone, Copy, PartialEq, Eq, Structural, Debug)]
pub struct Identity {
    pub hi: u128,
    pub lo: u128,
}

/// Every way an operation of the engine can fail. Errors are surfaced
/// verbatim; no operation partially commits.
#[derive(Clone, Copy, PartialEq, Eq, Structural, Debug)]
pub enum ErrorCode {
    /// The caller lacks the privilege the operation demands.
    Unauthorized,
    /// The caller's external custody balance holds fewer collateral units
    /// than the deposit names.
    InsufficientCollateral,
    /// An intermediate computation would exceed the safe integer range;
    /// the operation fails rather than silently wrap.
    ArithmeticOverflow,
    /// The clock source returned a reading earlier than the stored
    /// timestamp of the last event.
    InvalidClockOrdering,
    /// A registry instrument identifier exceeds the permitted length.
    InvalidIdentifierLength,
}

/// Per-owner ledger record of deposited collateral and outstanding debt.
#[derive(Clone, Copy, PartialEq, Eq, Structural, Debug)]
pub struct Vault {
    /// Identity that controls this vault for further deposits.
    pub owner: Identity,
    /// Count of collateral units currently deposited.
    pub collateral_units: u64,
    /// Total outstanding debt issued against this vault.
    pub borrowed: u64,
    /// Seconds since epoch of the last borrow or accrual event.
    pub last_event_timestamp: i64,
}

/// Process-wide shared record holding the interest rate, mutable only by
/// its administrator.
#[derive(Clone, Copy, PartialEq, Eq, Structural, Debug)]
pub struct Config {
    /// Sole identity permitted to change the rate.
    pub admin: Identity,
    /// Interest rate in basis points (1 bps = 0.01%), per annum.
    pub borrow_rate_bps: u64,
}

impl Vault {
    /// A fresh vault for `owner`: no collateral, no debt, clock at the
    /// epoch. This is the zero-default record that lazy creation uses.
    pub fn new(owner: Identity) -> (v: Vault)
        ensures
            v == (Vault { owner, collateral_units: 0, borrowed: 0, last_event_timestamp: 0 }),
    {
        Vault { owner, collateral_units: 0, borrowed: 0, last_event_timestamp: 0 }
    }
}

/// Credit issuable against a single deposit of `unit_count` units:
/// the deposit's value with the margin haircut taken, truncated toward
/// zero. The ceiling is per-deposit: cumulative holdings play no part.
pub open spec fn mintable_amount(unit_count: u64) -> int {
    BOND_UNIT_VALUE * unit_count * (100 - MARGIN_PERCENT) / 100
}

/// Simple (non-compounding) interest owed on `borrowed` at `rate_bps`
/// basis points per annum over `elapsed` seconds, truncated toward zero.
pub open spec fn interest_amount(borrowed: u64, rate_bps: u64, elapsed: int) -> int {
    borrowed * rate_bps * elapsed / (INTEREST_DENOMINATOR as int)
}

} // verus!
