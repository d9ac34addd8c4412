//! What holds of the ledger in every state and across calls.

use vstd::prelude::*;
use crate::auth::authorizes;
use crate::balances::{
    balance_of,
    lemma_total_bounds_pair,
    lemma_total_empty,
    lemma_total_insert,
    total,
};
use crate::currency::CurrencyInfo;
use crate::error::LedgerError;
use crate::ledger::transfer_balances;
use crate::model::{
    declared_supply,
    initialize_step,
    is_initialized,
    retention,
    run,
    step,
    transfer_step,
    valid,
    Call,
};
use crate::storage::StorageView;

verus! {

/// In every state a ledger can be in, the balances add up to the declared
/// total supply.
pub proof fn lemma_supply_is_conserved(state: StorageView)
    requires
        valid(state),
    ensures
        total(state.balances) == declared_supply(state),
{
    if state.currency is None {
        lemma_total_empty::<Seq<char>>();
    }
}

/// `initialize` leaves a ledger in a state that a ledger can be in, whenever
/// the supply is one that a 128-bit signed integer can hold.
pub proof fn lemma_initialize_keeps_valid(
    state: StorageView,
    caller: Seq<char>,
    admin: Seq<char>,
    name: Seq<char>,
    symbol: Seq<char>,
    initial_supply: int,
)
    requires
        valid(state),
        i128::MIN <= initial_supply <= i128::MAX,
    ensures
        valid(initialize_step(state, caller, admin, name, symbol, initial_supply).0),
{
    let (next, outcome) = initialize_step(state, caller, admin, name, symbol, initial_supply);
    if outcome is Ok {
        lemma_total_empty::<Seq<char>>();
        lemma_total_insert(state.balances, admin, initial_supply);
    }
}

/// `transfer` leaves a ledger in a state that a ledger can be in: the
/// balances still add up to the total supply, none has become negative, and
/// each is still one that a 128-bit signed integer can hold.
pub proof fn lemma_transfer_keeps_valid(
    state: StorageView,
    caller: Seq<char>,
    from: Seq<char>,
    to: Seq<char>,
    amount: int,
)
    requires
        valid(state),
    ensures
        valid(transfer_step(state, caller, from, to, amount).0),
{
    let (next, outcome) = transfer_step(state, caller, from, to, amount);
    if outcome is Ok {
        let table = state.balances;
        let debited = table.insert(from, balance_of(table, from) - amount);
        lemma_total_insert(table, from, balance_of(table, from) - amount);
        lemma_total_insert(debited, to, balance_of(debited, to) + amount);
        if from != to {
            lemma_total_bounds_pair(table, from, to);
        }
    }
}

/// Every state that a sequence of calls can reach from a valid state is one
/// that a ledger can be in, provided each supply asked for is one that a
/// 128-bit signed integer can hold. In particular the balances add up to the
/// declared total supply after every call.
pub proof fn lemma_run_keeps_valid(state: StorageView, calls: Seq<Call>)
    requires
        valid(state),
        forall|index: int|
            0 <= index < calls.len() ==> (#[trigger] calls[index] matches Call::Initialize {
                initial_supply,
                ..
            } ==> i128::MIN <= initial_supply <= i128::MAX),
    ensures
        valid(run(state, calls)),
        total(run(state, calls).balances) == declared_supply(run(state, calls)),
    decreases calls.len(),
{
    if calls.len() != 0 {
        let earlier = calls.drop_last();
        assert forall|index: int| 0 <= index < earlier.len() implies (#[trigger] earlier[index]
            matches Call::Initialize { initial_supply, .. } ==> i128::MIN <= initial_supply
            <= i128::MAX) by {
            assert(earlier[index] == calls[index]);
        }
        lemma_run_keeps_valid(state, earlier);
        let reached = run(state, earlier);
        match calls.last() {
            Call::Initialize { caller, admin, name, symbol, initial_supply } => {
                lemma_initialize_keeps_valid(reached, caller, admin, name, symbol, initial_supply);
            },
            Call::Transfer { caller, from, to, amount } => {
                lemma_transfer_keeps_valid(reached, caller, from, to, amount);
            },
        }
    }
    lemma_supply_is_conserved(run(state, calls));
}

/// Once the currency is initialized, no sequence of calls changes its
/// details, and the balances keep adding up to its total supply.
pub proof fn lemma_currency_is_permanent(state: StorageView, calls: Seq<Call>)
    requires
        valid(state),
        is_initialized(state),
    ensures
        is_initialized(run(state, calls)),
        run(state, calls).currency == state.currency,
        valid(run(state, calls)),
        total(run(state, calls).balances) == declared_supply(state),
    decreases calls.len(),
{
    if calls.len() != 0 {
        lemma_currency_is_permanent(state, calls.drop_last());
        let reached = run(state, calls.drop_last());
        match calls.last() {
            Call::Initialize { .. } => {},
            Call::Transfer { caller, from, to, amount } => {
                lemma_transfer_keeps_valid(reached, caller, from, to, amount);
            },
        }
    }
    lemma_supply_is_conserved(run(state, calls));
}

/// After an `initialize` that succeeded, another `initialize` fails with
/// `AlreadyInitialized`, whatever it asks for, and leaves the currency's
/// details and all balances as the first call set them.
pub proof fn lemma_initialize_only_once(
    state: StorageView,
    caller: Seq<char>,
    admin: Seq<char>,
    name: Seq<char>,
    symbol: Seq<char>,
    initial_supply: int,
    again: Call,
)
    requires
        initialize_step(state, caller, admin, name, symbol, initial_supply).1 is Ok,
        again is Initialize,
    ensures
        step(initialize_step(state, caller, admin, name, symbol, initial_supply).0, again) == (
            initialize_step(state, caller, admin, name, symbol, initial_supply).0,
            Err::<bool, LedgerError>(LedgerError::AlreadyInitialized),
        ),
{
}

/// `initialize` on a ledger that is not initialized, made by a caller other
/// than the admin, fails with `Unauthorized` and changes nothing.
pub proof fn lemma_initialize_needs_admin(
    state: StorageView,
    caller: Seq<char>,
    admin: Seq<char>,
    name: Seq<char>,
    symbol: Seq<char>,
    initial_supply: int,
)
    requires
        !is_initialized(state),
        caller != admin,
    ensures
        initialize_step(state, caller, admin, name, symbol, initial_supply) == (
            state,
            Err::<bool, LedgerError>(LedgerError::Unauthorized),
        ),
{
}

/// `transfer` made by a caller other than the sender fails with
/// `Unauthorized` and changes nothing.
pub proof fn lemma_transfer_needs_sender(
    state: StorageView,
    caller: Seq<char>,
    from: Seq<char>,
    to: Seq<char>,
    amount: int,
)
    requires
        caller != from,
    ensures
        transfer_step(state, caller, from, to, amount) == (
            state,
            Err::<bool, LedgerError>(LedgerError::Unauthorized),
        ),
{
}

/// A transfer of zero or of a negative amount, made by the sender, fails
/// with `InvalidAmount` and changes nothing.
pub proof fn lemma_amount_must_be_positive(
    state: StorageView,
    from: Seq<char>,
    to: Seq<char>,
    amount: int,
)
    requires
        amount <= 0,
    ensures
        transfer_step(state, from, from, to, amount) == (
            state,
            Err::<bool, LedgerError>(LedgerError::InvalidAmount),
        ),
{
}

/// A transfer of a positive amount that is more than the sender holds, made
/// by the sender, fails with `InsufficientBalance` and changes nothing. One
/// more than a balance that is not negative is such an amount.
pub proof fn lemma_balance_must_cover_amount(
    state: StorageView,
    from: Seq<char>,
    to: Seq<char>,
    amount: int,
)
    requires
        amount > 0,
        amount > balance_of(state.balances, from),
    ensures
        transfer_step(state, from, from, to, amount) == (
            state,
            Err::<bool, LedgerError>(LedgerError::InsufficientBalance),
        ),
        balance_of(state.balances, from) >= 0 ==> transfer_step(
            state,
            from,
            from,
            to,
            balance_of(state.balances, from) + 1,
        ) == (state, Err::<bool, LedgerError>(LedgerError::InsufficientBalance)),
{
}

/// A transfer that succeeds between two different holders lowers the
/// sender's balance by the amount, raises the receiver's balance by the
/// amount, and leaves every other balance as it was.
pub proof fn lemma_transfer_moves_amount(
    state: StorageView,
    from: Seq<char>,
    to: Seq<char>,
    amount: int,
    other: Seq<char>,
)
    requires
        transfer_step(state, from, from, to, amount).1 is Ok,
        from != to,
        other != from,
        other != to,
    ensures
        balance_of(transfer_step(state, from, from, to, amount).0.balances, from) == balance_of(
            state.balances,
            from,
        ) - amount,
        balance_of(transfer_step(state, from, from, to, amount).0.balances, to) == balance_of(
            state.balances,
            to,
        ) + amount,
        balance_of(transfer_step(state, from, from, to, amount).0.balances, other) == balance_of(
            state.balances,
            other,
        ),
{
}

/// A transfer to oneself of a positive amount that one's balance covers
/// succeeds and changes no balance.
pub proof fn lemma_self_transfer_changes_no_balance(
    state: StorageView,
    holder: Seq<char>,
    amount: int,
)
    requires
        amount > 0,
        balance_of(state.balances, holder) >= amount,
    ensures
        transfer_step(state, holder, holder, holder, amount).1 == Ok::<bool, LedgerError>(true),
        transfer_step(state, holder, holder, holder, amount).0.balances == state.balances,
        transfer_step(state, holder, holder, holder, amount).0 == (StorageView {
            extension: Some(retention()),
            ..state
        }),
{
    let next = transfer_step(state, holder, holder, holder, amount).0;
    assert(next.balances =~= state.balances);
}

/// Before the currency is initialized every holder's balance is zero and the
/// currency's details read as the placeholder.
pub proof fn lemma_nothing_before_initialization(state: StorageView, user: Seq<char>)
    requires
        valid(state),
        !is_initialized(state),
    ensures
        balance_of(state.balances, user) == 0,
        state.currency is None,
        declared_supply(state) == CurrencyInfo::placeholder_view().total_supply,
{
}

/// A call that fails leaves the state as it was.
pub proof fn lemma_failure_changes_nothing(state: StorageView, call: Call)
    requires
        step(state, call).1 is Err,
    ensures
        step(state, call).0 == state,
{
}

} // verus!
