//! Rate configuration: the one admin-gated mutation of the shared record.

use vstd::prelude::*;

use crate::state::Config;
use crate::state::ErrorCode;
use crate::state::Identity;

verus! {

/// Set the per-annum borrow rate. Only the configured administrator may
/// do so; any other caller fails with `Unauthorized` and the record is
/// left untouched. The new rate takes effect for every subsequent
/// accrual, including intervals that began before the change: no rate
/// history is kept. Setting the value already held is a functional no-op.
pub fn set_borrow_rate(config: &mut Config, caller: Identity, new_rate_bps: u64) -> (r: Result<
    (),
    ErrorCode,
>)
    ensures
        caller == old(config).admin ==> r is Ok && *final(config) == (Config {
            borrow_rate_bps: new_rate_bps,
            ..*old(config)
        }),
        caller != old(config).admin ==> r == Err::<(), ErrorCode>(ErrorCode::Unauthorized)
            && *final(config) == *old(config),
{
    if caller == config.admin {
        config.borrow_rate_bps = new_rate_bps;
        Ok(())
    } else {
        Err(ErrorCode::Unauthorized)
    }
}

} // verus!
