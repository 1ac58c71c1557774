//! Accrual engine: compute the simple interest owed on a vault's
//! outstanding debt since its last event and authorize its issuance to
//! the reward sink.

use vstd::prelude::*;

use crate::state::INTEREST_DENOMINATOR;
use crate::state::ErrorCode;
use crate::state::Vault;
use crate::state::interest_amount;

verus! {

/// When an accrual against `v` at clock reading `now` succeeds: the clock
/// has not run backwards and the interest owed fits the machine word.
pub open spec fn accrue_ok(v: Vault, rate_bps: u64, now: i64) -> bool {
    &&& now >= v.last_event_timestamp
    &&& interest_amount(v.borrowed, rate_bps, now - v.last_event_timestamp) <= u64::MAX
}

/// The error a failing accrual reports: a non-monotonic clock reading is
/// detected before any arithmetic is attempted.
pub open spec fn accrue_err(v: Vault, rate_bps: u64, now: i64) -> ErrorCode {
    if now < v.last_event_timestamp {
        ErrorCode::InvalidClockOrdering
    } else {
        ErrorCode::ArithmeticOverflow
    }
}

/// The vault a successful accrual leaves behind: only the event clock
/// moves. The interest goes to the reward sink, never to the vault's own
/// debt, and collateral and ownership are untouched.
pub open spec fn accrue_post(v: Vault, now: i64) -> Vault {
    Vault { last_event_timestamp: now, ..v }
}

/// Accrue interest on `vault` for the time elapsed since its last event.
///
/// Anyone may trigger accrual; no ownership check is involved. `rate_bps`
/// is the rate currently configured — no history is kept, so the whole
/// elapsed interval is charged at this one rate. On success the returned
/// amount is owed to the external reward sink, and the vault's event
/// clock advances to `now` even when the interest is zero, so rapid
/// repeated calls neither double-charge nor fail. The vault's own debt is
/// never changed. On any error the vault is left exactly as it was.
pub fn accrue_interest(vault: &mut Vault, rate_bps: u64, now: i64) -> (r: Result<u64, ErrorCode>)
    ensures
        r is Ok <==> accrue_ok(*old(vault), rate_bps, now),
        r matches Ok(interest) ==> interest == interest_amount(
            old(vault).borrowed,
            rate_bps,
            now - old(vault).last_event_timestamp,
        ) && *final(vault) == accrue_post(*old(vault), now),
        r matches Err(e) ==> e == accrue_err(*old(vault), rate_bps, now) && *final(vault) == *old(
            vault,
        ),
{
    if now < vault.last_event_timestamp {
        return Err(ErrorCode::InvalidClockOrdering);
    }
    // The difference of two i64 readings always fits in i128, and it is
    // non-negative here, so the widening to u128 is exact.
    let elapsed = ((now as i128) - (vault.last_event_timestamp as i128)) as u128;
    proof {
        vstd::arithmetic::mul::lemma_mul_upper_bound(
            vault.borrowed as int,
            u64::MAX as int,
            rate_bps as int,
            u64::MAX as int,
        );
    }
    let scaled = (vault.borrowed as u128) * (rate_bps as u128);
    let numerator = match scaled.checked_mul(elapsed) {
        Option::Some(p) => p,
        Option::None => {
            // The three-way product exceeds even the double-width range,
            // so the quotient is far beyond the machine word.
            proof {
                let d = INTEREST_DENOMINATOR as int;
                let q = u64::MAX as int + 1;
                assert(d * q <= u128::MAX);
                vstd::arithmetic::div_mod::lemma_div_multiples_vanish(q, d);
                vstd::arithmetic::div_mod::lemma_div_is_ordered(d * q, scaled * elapsed, d);
            }
            return Err(ErrorCode::ArithmeticOverflow);
        },
    };
    let wide_interest = numerator / (INTEREST_DENOMINATOR as u128);
    if wide_interest > u64::MAX as u128 {
        return Err(ErrorCode::ArithmeticOverflow);
    }
    vault.last_event_timestamp = now;
    Ok(wide_interest as u64)
}

} // verus!
