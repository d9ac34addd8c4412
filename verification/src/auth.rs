//! The authorization gate: which invocations act with whose authority.

use vstd::prelude::*;
use crate::error::LedgerError;
use crate::identity::Identity;

verus! {

/// Whether an invocation made by `caller` carries the authorization of
/// `principal`. It does exactly when the caller is that principal.
pub open spec fn authorizes(caller: Seq<char>, principal: Seq<char>) -> bool {
    caller == principal
}

/// Confirms that the invocation made by `caller` is authorized by
/// `principal`, and fails closed with `Unauthorized` otherwise.
pub fn require_auth(caller: &Identity, principal: &Identity) -> (outcome: Result<(), LedgerError>)
    ensures
        outcome == (if authorizes(caller@, principal@) {
            Ok::<(), LedgerError>(())
        } else {
            Err::<(), LedgerError>(LedgerError::Unauthorized)
        }),
{
    if caller == principal {
        Ok(())
    } else {
        Err(LedgerError::Unauthorized)
    }
}

} // verus!
