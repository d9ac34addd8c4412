//! The currency's metadata: its name, symbol, total supply and admin.

use vstd::prelude::*;
use vstd::std_specs::cmp::PartialEqSpecImpl;
use crate::identity::Identity;

verus! {

/// The name reported for a currency that was never initialized.
pub const PLACEHOLDER_NAME: &'static str = "Not_Initialized";

/// The symbol reported for a currency that was never initialized.
pub const PLACEHOLDER_SYMBOL: &'static str = "N/A";

/// The key of the admin reported for a currency that was never initialized.
/// It is a fixed, well-known placeholder and stands for no principal.
pub const PLACEHOLDER_ADMIN: &'static str =
    "GAAAAAAAAAAAAAAAAAAAAAAAAAAAAAAAAAAAAAAAAAAAAAAAAAAAAWHF";

/// The details of the community currency. They are set once, when the
/// currency is initialized, and never change afterwards.
#[derive(Debug)]
pub struct CurrencyInfo {
    pub name: String,
    pub symbol: String,
    pub total_supply: i128,
    pub community_admin: Identity,
}

/// What a [`CurrencyInfo`] says, as mathematical values.
pub struct CurrencyInfoView {
    pub name: Seq<char>,
    pub symbol: Seq<char>,
    pub total_supply: int,
    pub community_admin: Seq<char>,
}

impl View for CurrencyInfo {
    type V = CurrencyInfoView;

    open spec fn view(&self) -> CurrencyInfoView {
        CurrencyInfoView {
            name: self.name@,
            symbol: self.symbol@,
            total_supply: self.total_supply as int,
            community_admin: self.community_admin@,
        }
    }
}

impl CurrencyInfo {
    /// What [`CurrencyInfo::placeholder`] says.
    pub open spec fn placeholder_view() -> CurrencyInfoView {
        CurrencyInfoView {
            name: PLACEHOLDER_NAME@,
            symbol: PLACEHOLDER_SYMBOL@,
            total_supply: 0,
            community_admin: PLACEHOLDER_ADMIN@,
        }
    }

    /// The sentinel that stands for "no currency yet": the placeholder name,
    /// symbol and admin, and a total supply of zero.
    pub fn placeholder() -> (info: CurrencyInfo)
        ensures
            info@ == CurrencyInfo::placeholder_view(),
    {
        CurrencyInfo {
            name: PLACEHOLDER_NAME.to_owned(),
            symbol: PLACEHOLDER_SYMBOL.to_owned(),
            total_supply: 0,
            community_admin: Identity::new(PLACEHOLDER_ADMIN),
        }
    }
}

impl Clone for CurrencyInfo {
    fn clone(&self) -> (copy: CurrencyInfo)
        ensures
            copy@ == self@,
    {
        CurrencyInfo {
            name: self.name.clone(),
            symbol: self.symbol.clone(),
            total_supply: self.total_supply,
            community_admin: self.community_admin.clone(),
        }
    }
}

impl PartialEq for CurrencyInfo {
    fn eq(&self, other: &CurrencyInfo) -> (same: bool) {
        self.name == other.name && self.symbol == other.symbol
            && self.total_supply == other.total_supply
            && self.community_admin == other.community_admin
    }
}

impl Eq for CurrencyInfo {}

impl PartialEqSpecImpl for CurrencyInfo {
    open spec fn obeys_eq_spec() -> bool {
        true
    }

    open spec fn eq_spec(&self, other: &CurrencyInfo) -> bool {
        self@ == other@
    }
}

} // verus!
