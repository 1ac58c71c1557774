//! Laws of the engine, stated once over the spec-level model and proved
//! for every input: what a deposit moves, what an accrual leaves alone,
//! why back-to-back accrual cannot double-charge, and why operations on
//! distinct vaults never interfere.

use vstd::prelude::*;

use crate::accrual::accrue_ok;
use crate::accrual::accrue_post;
use crate::issuance::deposit_ok;
use crate::issuance::deposit_post;
use crate::state::BOND_UNIT_VALUE;
use crate::state::Identity;
use crate::state::MARGIN_PERCENT;
use crate::state::Vault;
use crate::state::interest_amount;
use crate::state::mintable_amount;

verus! {

/// A successful deposit moves the vault by exactly the stated amounts:
/// collateral up by the deposited count, debt up by the margin-adjusted
/// value of this deposit alone — the haircut taken on the unit value,
/// truncated toward zero.
pub proof fn lemma_deposit_changes_exactly(
    v: Vault,
    caller: Identity,
    collateral_balance: u64,
    unit_count: u64,
    now: i64,
)
    requires
        deposit_ok(v, collateral_balance, unit_count),
    ensures
        deposit_post(v, caller, unit_count, now).collateral_units == v.collateral_units
            + unit_count,
        deposit_post(v, caller, unit_count, now).borrowed == v.borrowed + mintable_amount(
            unit_count,
        ),
        mintable_amount(unit_count) == BOND_UNIT_VALUE * unit_count * (100 - MARGIN_PERCENT) / 100,
{
}

/// Accrual never touches the vault's own ledger: the interest is owed to
/// the reward sink, so only the event clock moves. In particular the debt
/// never decreases — and never grows — through accrual.
pub proof fn lemma_accrual_preserves_ledger(v: Vault, now: i64)
    ensures
        accrue_post(v, now).borrowed == v.borrowed,
        accrue_post(v, now).collateral_units == v.collateral_units,
        accrue_post(v, now).owner == v.owner,
        accrue_post(v, now).last_event_timestamp == now,
{
}

/// Back-to-back accrual cannot double-charge: a first accrual at `now`
/// advances the event clock to `now`, so a second accrual at the same
/// reading sees zero elapsed time, owes zero interest, cannot fail, and
/// leaves the vault exactly where the first left it.
pub proof fn lemma_accrual_idempotent(v: Vault, rate_bps: u64, now: i64)
    requires
        accrue_ok(v, rate_bps, now),
    ensures
        accrue_ok(accrue_post(v, now), rate_bps, now),
        interest_amount(
            accrue_post(v, now).borrowed,
            rate_bps,
            now - accrue_post(v, now).last_event_timestamp,
        ) == 0,
        accrue_post(accrue_post(v, now), now) == accrue_post(v, now),
{
    vstd::arithmetic::mul::lemma_mul_basics(v.borrowed * rate_bps);
}

/// The shared store of vaults, keyed by owner, that a deposit works on:
/// the caller's record if one is held, else the zero-default record that
/// lazy creation supplies.
pub open spec fn vault_or_default(store: Map<Identity, Vault>, owner: Identity) -> Vault {
    if store.contains_key(owner) {
        store[owner]
    } else {
        Vault { owner, collateral_units: 0, borrowed: 0, last_event_timestamp: 0 }
    }
}

/// The store after one owner's deposit: only that owner's record is
/// replaced, by the post-state of the deposit against it.
pub open spec fn store_after_deposit(
    store: Map<Identity, Vault>,
    caller: Identity,
    unit_count: u64,
    now: i64,
) -> Map<Identity, Vault> {
    store.insert(caller, deposit_post(vault_or_default(store, caller), caller, unit_count, now))
}

/// Deposits by two distinct owners never interfere: each reads and writes
/// its own record alone, so applying the two in either order leaves the
/// same store. Serialization is only ever needed per vault.
pub proof fn lemma_deposits_on_distinct_vaults_commute(
    store: Map<Identity, Vault>,
    caller_a: Identity,
    caller_b: Identity,
    units_a: u64,
    units_b: u64,
    now_a: i64,
    now_b: i64,
)
    requires
        caller_a != caller_b,
    ensures
        store_after_deposit(store, caller_a, units_a, now_a).contains_key(caller_b)
            == store.contains_key(caller_b),
        store.contains_key(caller_b) ==> store_after_deposit(
            store,
            caller_a,
            units_a,
            now_a,
        )[caller_b] == store[caller_b],
        store_after_deposit(
            store_after_deposit(store, caller_a, units_a, now_a),
            caller_b,
            units_b,
            now_b,
        ) == store_after_deposit(
            store_after_deposit(store, caller_b, units_b, now_b),
            caller_a,
            units_a,
            now_a,
        ),
{
    let a_then_b = store_after_deposit(
        store_after_deposit(store, caller_a, units_a, now_a),
        caller_b,
        units_b,
        now_b,
    );
    let b_then_a = store_after_deposit(
        store_after_deposit(store, caller_b, units_b, now_b),
        caller_a,
        units_a,
        now_a,
    );
    assert(a_then_b =~= b_then_a);
}

} // verus!
