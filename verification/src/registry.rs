//! Bond registry: binds a unique instrument identifier to a newly issued
//! single collateral unit. The registry is the conceptual source of what
//! a vault counts as collateral; the engine itself never re-checks, at
//! deposit time, that deposited units originate here.

use vstd::prelude::*;
use vstd::string::StrSliceExecFns;

use crate::state::ErrorCode;
use crate::state::Identity;

verus! {

/// Longest permitted instrument identifier (an ISIN), in characters.
pub const MAX_ISIN_CHARS: usize = 12;

/// Immutable record binding an instrument identifier to the mint of its
/// collateral unit and to the issuing authority.
pub struct BondMetadata {
    /// Identity of the token mint the unit belongs to.
    pub mint: Identity,
    /// Identity that requested the registration.
    pub authority: Identity,
    /// The instrument identifier itself.
    pub isin: String,
}

/// Register the instrument named by `isin` and authorize issuance of its
/// single collateral unit.
///
/// An identifier over twelve characters is rejected with
/// `InvalidIdentifierLength` and nothing is recorded. On success the
/// returned amount — always exactly one unit — is owed to the caller's
/// collateral balance by an external issuance.
pub fn mint_bond(authority: Identity, mint: Identity, isin: String) -> (r: Result<
    (BondMetadata, u64),
    ErrorCode,
>)
    ensures
        isin@.len() <= MAX_ISIN_CHARS ==> (r matches Ok(p) && p.0 == (BondMetadata {
            mint,
            authority,
            isin,
        }) && p.1 == 1),
        isin@.len() > MAX_ISIN_CHARS ==> r == Err::<(BondMetadata, u64), ErrorCode>(
            ErrorCode::InvalidIdentifierLength,
        ),
{
    if isin.as_str().unicode_len() > MAX_ISIN_CHARS {
        return Err(ErrorCode::InvalidIdentifierLength);
    }
    Ok((BondMetadata { mint, authority, isin }, 1))
}

} // verus!
