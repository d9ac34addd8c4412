//! The community currency: one-time initialization, authorized transfers,
//! and queries of balances and of the currency's details.

use vstd::prelude::*;
use crate::auth::require_auth;
use crate::balances::balance_of;
use crate::currency::CurrencyInfo;
use crate::error::LedgerError;
use crate::identity::Identity;
use crate::laws::{lemma_initialize_keeps_valid, lemma_transfer_keeps_valid};
use crate::ledger::{credit, debit, transfer_balances};
use crate::model::{
    initialize_step,
    is_initialized,
    transfer_step,
    valid,
    TTL_EXTEND_TO,
    TTL_THRESHOLD,
};
use crate::storage::{Balance, Storage, StorageView, TtlExtension};

verus! {

/// One instance of the community currency, with all of its state.
pub struct CommunityCurrencyContract {
    storage: Storage,
}

impl View for CommunityCurrencyContract {
    type V = StorageView;

    closed spec fn view(&self) -> StorageView {
        self.storage@
    }
}

impl CommunityCurrencyContract {
    /// The storage keeps its own invariant.
    pub closed spec fn well_stored(&self) -> bool {
        self.storage.inv()
    }

    /// The instance is in a state that a ledger can be in.
    pub open spec fn inv(&self) -> bool {
        self.well_stored() && valid(self@)
    }

    /// A currency that has not been initialized yet: nothing is stored.
    pub fn new() -> (contract: CommunityCurrencyContract)
        ensures
            contract.inv(),
            contract@ == StorageView::empty(),
    {
        let contract = CommunityCurrencyContract { storage: Storage::new() };
        proof {
            contract.storage.lemma_well_formed();
        }
        contract
    }

    /// Whether the currency has been initialized.
    pub fn is_initialized(&self) -> (flag: bool)
        ensures
            flag == is_initialized(self@),
    {
        self.storage.get_initialized().unwrap_or(false)
    }

    /// Sets up the currency, once: stores its name, symbol, total supply and
    /// admin, and credits the admin with the whole supply.
    ///
    /// `caller` is the identity that makes the invocation; the call needs the
    /// admin's authorization. The outcome is that of [`initialize_step`]: on
    /// a ledger that is already initialized the call fails with
    /// `AlreadyInitialized`, else for a caller other than the admin with
    /// `Unauthorized`, and a failed call changes nothing.
    pub fn initialize(
        &mut self,
        caller: &Identity,
        admin: Identity,
        name: String,
        symbol: String,
        initial_supply: i128,
    ) -> (outcome: Result<bool, LedgerError>)
        requires
            old(self).inv(),
        ensures
            final(self).inv(),
            (final(self)@, outcome) == initialize_step(
                old(self)@,
                caller@,
                admin@,
                name@,
                symbol@,
                initial_supply as int,
            ),
    {
        let is_initialized: bool = self.storage.get_initialized().unwrap_or(false);
        if is_initialized {
            return Err(LedgerError::AlreadyInitialized);
        }
        match require_auth(caller, &admin) {
            Err(error) => {
                return Err(error);
            },
            Ok(()) => {},
        }
        let currency = CurrencyInfo {
            name,
            symbol,
            total_supply: initial_supply,
            community_admin: admin.clone(),
        };
        proof {
            lemma_initialize_keeps_valid(
                old(self)@,
                caller@,
                admin@,
                name@,
                symbol@,
                initial_supply as int,
            );
        }
        self.storage.set_currency_info(currency);
        self.storage.set_balance(Balance::User(admin), initial_supply);
        self.storage.set_initialized(true);
        self.storage.extend_ttl(TTL_THRESHOLD, TTL_EXTEND_TO);
        Ok(true)
    }

    /// Moves `amount` from `from` to `to`.
    ///
    /// `caller` is the identity that makes the invocation; the call needs the
    /// sender's authorization. The outcome is that of [`transfer_step`]: a
    /// caller other than the sender fails with `Unauthorized`, else an amount
    /// that is not positive with `InvalidAmount`, else a sender who holds
    /// less than the amount with `InsufficientBalance`, and a failed call
    /// changes nothing.
    pub fn transfer(
        &mut self,
        caller: &Identity,
        from: Identity,
        to: Identity,
        amount: i128,
    ) -> (outcome: Result<bool, LedgerError>)
        requires
            old(self).inv(),
        ensures
            final(self).inv(),
            (final(self)@, outcome) == transfer_step(
                old(self)@,
                caller@,
                from@,
                to@,
                amount as int,
            ),
    {
        match require_auth(caller, &from) {
            Err(error) => {
                return Err(error);
            },
            Ok(()) => {},
        }
        let from_key = Balance::User(from);
        let to_key = Balance::User(to);
        let from_balance: i128 = self.storage.get_balance(&from_key).unwrap_or(0);
        let debited: i128 = match debit(from_balance, amount) {
            Err(error) => {
                return Err(error);
            },
            Ok(left) => left,
        };
        proof {
            lemma_transfer_keeps_valid(old(self)@, caller@, from_key@, to_key@, amount as int);
            let moved = transfer_balances(old(self)@.balances, from_key@, to_key@, amount as int);
            assert(moved.dom().contains(to_key@));
        }
        self.storage.set_balance(from_key, debited);
        let to_balance: i128 = self.storage.get_balance(&to_key).unwrap_or(0);
        let raised: i128 = credit(to_balance, amount);
        self.storage.set_balance(to_key, raised);
        self.storage.extend_ttl(TTL_THRESHOLD, TTL_EXTEND_TO);
        Ok(true)
    }

    /// What `user` holds: the stored balance, or zero for a holder that has
    /// none.
    pub fn get_balance(&self, user: Identity) -> (amount: i128)
        requires
            self.inv(),
        ensures
            amount == balance_of(self@.balances, user@),
    {
        self.storage.get_balance(&Balance::User(user)).unwrap_or(0)
    }

    /// The currency's details, or, before the currency is initialized, the
    /// placeholder details.
    pub fn get_currency_info(&self) -> (info: CurrencyInfo)
        ensures
            info@ == (match self@.currency {
                Some(stored) => stored,
                None => CurrencyInfo::placeholder_view(),
            }),
    {
        match self.storage.get_currency_info() {
            Some(stored) => stored,
            None => CurrencyInfo::placeholder(),
        }
    }

    /// The expiry extension that the last successful change asked for, if
    /// there was one.
    pub fn extension(&self) -> (asked: Option<TtlExtension>)
        ensures
            asked == self@.extension,
    {
        self.storage.extension()
    }
}

} // verus!
