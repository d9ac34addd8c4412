//! The ledger as a state machine over what its storage holds: which states
//! are reachable, and what each operation makes of a state.

use vstd::prelude::*;
use crate::auth::authorizes;
use crate::balances::{all_non_negative, balance_of, total};
use crate::currency::CurrencyInfoView;
use crate::error::LedgerError;
use crate::ledger::{debit_outcome, transfer_balances};
use crate::storage::{StorageView, TtlExtension};

verus! {

/// Below how many remaining ledgers the stored state's life is extended.
pub const TTL_THRESHOLD: u32 = 100000;

/// For how many ledgers the stored state is to live once it is extended.
pub const TTL_EXTEND_TO: u32 = 100000;

/// The expiry extension that every successful change of the ledger asks for.
pub open spec fn retention() -> TtlExtension {
    TtlExtension { threshold: TTL_THRESHOLD, extend_to: TTL_EXTEND_TO }
}

/// Whether the currency has been initialized. A flag that was never written
/// reads as false.
pub open spec fn is_initialized(state: StorageView) -> bool {
    state.initialized == Some(true)
}

/// The states a ledger can be in.
///
/// Before initialization nothing is stored at all. Afterwards the flag is
/// set, the currency's details are there, and the balances add up to the
/// total supply. With a total supply that is not negative no balance is
/// negative; with a negative one the admin holds all of it and nothing can
/// ever move.
pub open spec fn valid(state: StorageView) -> bool {
    &&& state.well_formed()
    &&& match state.currency {
        None => state =~= StorageView::empty(),
        Some(info) => {
            &&& state.initialized == Some(true)
            &&& state.extension == Some(retention())
            &&& i128::MIN <= info.total_supply <= i128::MAX
            &&& total(state.balances) == info.total_supply
            &&& info.total_supply >= 0 ==> all_non_negative(state.balances)
            &&& info.total_supply < 0 ==> state.balances =~= Map::<Seq<char>, int>::empty().insert(
                info.community_admin,
                info.total_supply,
            )
        },
    }
}

/// What `initialize` makes of `state`: the state it leaves and what it
/// returns.
///
/// An initialized ledger rejects the call with `AlreadyInitialized`. Else a
/// caller who is not the admin is rejected with `Unauthorized`. Else the
/// currency's details are stored, the admin is credited with the whole
/// supply, the flag is set and the expiry extension is asked for. A rejected
/// call leaves the state as it was.
pub open spec fn initialize_step(
    state: StorageView,
    caller: Seq<char>,
    admin: Seq<char>,
    name: Seq<char>,
    symbol: Seq<char>,
    initial_supply: int,
) -> (StorageView, Result<bool, LedgerError>) {
    if is_initialized(state) {
        (state, Err(LedgerError::AlreadyInitialized))
    } else if !authorizes(caller, admin) {
        (state, Err(LedgerError::Unauthorized))
    } else {
        (
            StorageView {
                initialized: Some(true),
                currency: Some(
                    CurrencyInfoView {
                        name,
                        symbol,
                        total_supply: initial_supply,
                        community_admin: admin,
                    },
                ),
                balances: state.balances.insert(admin, initial_supply),
                extension: Some(retention()),
            },
            Ok(true),
        )
    }
}

/// What `transfer` makes of `state`: the state it leaves and what it returns.
///
/// A caller who is not the sender is rejected with `Unauthorized`. Else an
/// amount that is not positive is rejected with `InvalidAmount`. Else a
/// sender who holds less than the amount is rejected with
/// `InsufficientBalance`. Else the amount moves from the sender to the
/// receiver and the expiry extension is asked for. A rejected call leaves
/// the state as it was.
pub open spec fn transfer_step(
    state: StorageView,
    caller: Seq<char>,
    from: Seq<char>,
    to: Seq<char>,
    amount: int,
) -> (StorageView, Result<bool, LedgerError>) {
    if !authorizes(caller, from) {
        (state, Err(LedgerError::Unauthorized))
    } else {
        match debit_outcome(balance_of(state.balances, from), amount) {
            Err(error) => (state, Err(error)),
            Ok(_) => (
                StorageView {
                    balances: transfer_balances(state.balances, from, to, amount),
                    extension: Some(retention()),
                    ..state
                },
                Ok(true),
            ),
        }
    }
}

/// One call of an operation that can change the ledger.
pub enum Call {
    Initialize {
        caller: Seq<char>,
        admin: Seq<char>,
        name: Seq<char>,
        symbol: Seq<char>,
        initial_supply: int,
    },
    Transfer { caller: Seq<char>, from: Seq<char>, to: Seq<char>, amount: int },
}

/// What one call makes of `state`: the state it leaves and what it returns.
pub open spec fn step(state: StorageView, call: Call) -> (StorageView, Result<bool, LedgerError>) {
    match call {
        Call::Initialize { caller, admin, name, symbol, initial_supply } => initialize_step(
            state,
            caller,
            admin,
            name,
            symbol,
            initial_supply,
        ),
        Call::Transfer { caller, from, to, amount } => transfer_step(
            state,
            caller,
            from,
            to,
            amount,
        ),
    }
}

/// The state that `calls`, made one after the other, leave of `state`.
pub open spec fn run(state: StorageView, calls: Seq<Call>) -> StorageView
    decreases calls.len(),
{
    if calls.len() == 0 {
        state
    } else {
        step(run(state, calls.drop_last()), calls.last()).0
    }
}

/// The total supply that a state declares: that of its currency, or zero
/// while there is none.
pub open spec fn declared_supply(state: StorageView) -> int {
    match state.currency {
        Some(info) => info.total_supply,
        None => 0,
    }
}

} // verus!
