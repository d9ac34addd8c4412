//! The rules of a transfer: what leaves the sender's balance and what
//! reaches the receiver's.

use vstd::prelude::*;
use crate::balances::balance_of;
use crate::error::LedgerError;

verus! {

/// What is left of `balance` once `amount` is taken from it, or why nothing
/// may be taken: the amount must be positive and the balance must cover it.
pub open spec fn debit_outcome(balance: int, amount: int) -> Result<int, LedgerError> {
    if amount <= 0 {
        Err(LedgerError::InvalidAmount)
    } else if balance < amount {
        Err(LedgerError::InsufficientBalance)
    } else {
        Ok(balance - amount)
    }
}

/// The balance table after `amount` has moved from `from` to `to`: first the
/// sender's balance is lowered, then the receiver's balance, as it then
/// stands, is raised. A transfer to oneself therefore changes no balance.
pub open spec fn transfer_balances(
    table: Map<Seq<char>, int>,
    from: Seq<char>,
    to: Seq<char>,
    amount: int,
) -> Map<Seq<char>, int> {
    let debited = table.insert(from, balance_of(table, from) - amount);
    debited.insert(to, balance_of(debited, to) + amount)
}

/// Takes `amount` from a sender's `balance`.
///
/// Returns what is left, or rejects the transfer: with `InvalidAmount` if
/// `amount` is not positive, else with `InsufficientBalance` if `balance` is
/// less than `amount`.
pub fn debit(balance: i128, amount: i128) -> (outcome: Result<i128, LedgerError>)
    ensures
        match outcome {
            Ok(left) => debit_outcome(balance as int, amount as int) == Ok::<int, LedgerError>(
                left as int,
            ),
            Err(error) => debit_outcome(balance as int, amount as int) == Err::<int, LedgerError>(
                error,
            ),
        },
{
    if amount <= 0 {
        Err(LedgerError::InvalidAmount)
    } else if balance < amount {
        Err(LedgerError::InsufficientBalance)
    } else {
        Ok(balance - amount)
    }
}

/// Adds `amount` to a receiver's `balance`. The sum must be one that a
/// 128-bit signed integer can hold.
pub fn credit(balance: i128, amount: i128) -> (raised: i128)
    requires
        i128::MIN <= balance + amount <= i128::MAX,
    ensures
        raised == balance + amount,
{
    balance + amount
}

} // verus!
