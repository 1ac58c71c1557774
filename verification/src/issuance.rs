//! Issuance engine: deposit collateral units into a vault and authorize
//! issuance of new credit up to the margin-adjusted ceiling of that
//! deposit.

use vstd::prelude::*;

use crate::state::BOND_UNIT_VALUE;
use crate::state::ErrorCode;
use crate::state::Identity;
use crate::state::MARGIN_PERCENT;
use crate::state::Vault;
use crate::state::mintable_amount;

verus! {

/// When a deposit of `unit_count` units against `v` succeeds: the
/// caller's external custody balance covers the deposit and every
/// intermediate of the update fits the machine word.
pub open spec fn deposit_ok(v: Vault, collateral_balance: u64, unit_count: u64) -> bool {
    &&& collateral_balance >= unit_count
    &&& BOND_UNIT_VALUE * unit_count <= u64::MAX
    &&& v.collateral_units + unit_count <= u64::MAX
    &&& v.borrowed + mintable_amount(unit_count) <= u64::MAX
}

/// The error a failing deposit reports: a short custody balance is
/// detected before any arithmetic is attempted.
pub open spec fn deposit_err(v: Vault, collateral_balance: u64, unit_count: u64) -> ErrorCode {
    if collateral_balance < unit_count {
        ErrorCode::InsufficientCollateral
    } else {
        ErrorCode::ArithmeticOverflow
    }
}

/// The vault a successful deposit leaves behind: collateral grown by the
/// deposit, debt grown by the deposit's mintable ceiling, ownership
/// re-asserted, the event clock set to the reading taken for this call.
pub open spec fn deposit_post(v: Vault, caller: Identity, unit_count: u64, now: i64) -> Vault {
    Vault {
        owner: caller,
        collateral_units: (v.collateral_units + unit_count) as u64,
        borrowed: (v.borrowed + mintable_amount(unit_count)) as u64,
        last_event_timestamp: now,
    }
}

/// The vault the issuance path works on: the caller's existing record if
/// one is already held, else a fresh zero-default record. Lazy creation
/// needs no separate provisioning step.
pub fn open_or_create_vault(existing: Option<Vault>, owner: Identity) -> (v: Vault)
    ensures
        v == match existing {
            Option::Some(held) => held,
            Option::None => Vault {
                owner,
                collateral_units: 0,
                borrowed: 0,
                last_event_timestamp: 0,
            },
        },
{
    match existing {
        Option::Some(held) => held,
        Option::None => Vault::new(owner),
    }
}

/// Deposit `unit_count` collateral units into `vault` and authorize
/// issuance of the margin-adjusted ceiling of this deposit alone.
///
/// `collateral_balance` is the caller's external custody balance, read by
/// the caller from the ledger; `now` is the caller's clock reading. On
/// success the returned amount is owed to the caller's credit balance by
/// an external issuance; the ceiling is computed from the incremental
/// deposit, never from the vault's cumulative holdings. On any error the
/// vault is left exactly as it was: no partial commit.
pub fn deposit_bond_and_mint(
    vault: &mut Vault,
    caller: Identity,
    collateral_balance: u64,
    unit_count: u64,
    now: i64,
) -> (r: Result<u64, ErrorCode>)
    requires
        unit_count > 0,
    ensures
        r is Ok <==> deposit_ok(*old(vault), collateral_balance, unit_count),
        r matches Ok(minted) ==> minted == mintable_amount(unit_count) && *final(vault)
            == deposit_post(*old(vault), caller, unit_count, now),
        r matches Err(e) ==> e == deposit_err(*old(vault), collateral_balance, unit_count)
            && *final(vault) == *old(vault),
{
    if collateral_balance < unit_count {
        return Err(ErrorCode::InsufficientCollateral);
    }
    let new_units = match vault.collateral_units.checked_add(unit_count) {
        Option::Some(n) => n,
        Option::None => {
            return Err(ErrorCode::ArithmeticOverflow);
        },
    };
    let total_value = match BOND_UNIT_VALUE.checked_mul(unit_count) {
        Option::Some(t) => t,
        Option::None => {
            return Err(ErrorCode::ArithmeticOverflow);
        },
    };
    // The haircut is taken on a double-width intermediate; the result can
    // be no larger than the deposit's full value, so it fits back in u64.
    let wide = (total_value as u128) * ((100 - MARGIN_PERCENT) as u128) / 100;
    proof {
        assert(total_value * (100 - MARGIN_PERCENT) <= total_value * 100);
        vstd::arithmetic::div_mod::lemma_div_is_ordered(
            total_value * (100 - MARGIN_PERCENT),
            total_value * 100,
            100,
        );
        assert(total_value * 100 / 100 == total_value);
    }
    let mintable = wide as u64;
    let new_borrowed = match vault.borrowed.checked_add(mintable) {
        Option::Some(b) => b,
        Option::None => {
            return Err(ErrorCode::ArithmeticOverflow);
        },
    };
    vault.owner = caller;
    vault.collateral_units = new_units;
    vault.borrowed = new_borrowed;
    vault.last_event_timestamp = now;
    Ok(mintable)
}

} // verus!
