//! The ledger's persistent state, held in memory: an initialized flag, the
//! currency's details, one balance per holder, and the expiry extension that
//! was last asked for.

use vstd::prelude::*;
use vstd::std_specs::cmp::PartialEqSpecImpl;
use crate::currency::{CurrencyInfo, CurrencyInfoView};
use crate::identity::Identity;

verus! {

/// The key under which a holder's balance is stored.
#[derive(Debug)]
pub enum Balance {
    User(Identity),
}

impl View for Balance {
    type V = Seq<char>;

    open spec fn view(&self) -> Seq<char> {
        match self {
            Balance::User(holder) => holder@,
        }
    }
}

impl Clone for Balance {
    fn clone(&self) -> (copy: Balance)
        ensures
            copy@ == self@,
    {
        match self {
            Balance::User(holder) => Balance::User(holder.clone()),
        }
    }
}

impl PartialEq for Balance {
    fn eq(&self, other: &Balance) -> (same: bool) {
        match (self, other) {
            (Balance::User(holder), Balance::User(other_holder)) => holder == other_holder,
        }
    }
}

impl Eq for Balance {}

impl PartialEqSpecImpl for Balance {
    open spec fn obeys_eq_spec() -> bool {
        true
    }

    open spec fn eq_spec(&self, other: &Balance) -> bool {
        self@ == other@
    }
}

/// A request to keep the stored state alive: if it would expire in fewer than
/// `threshold` ledgers, let it live for `extend_to` ledgers from now.
#[derive(Debug, Clone, Copy, PartialEq, Eq, Structural)]
pub struct TtlExtension {
    pub threshold: u32,
    pub extend_to: u32,
}

/// What a [`Storage`] holds, as mathematical values.
#[verifier::ext_equal]
pub struct StorageView {
    /// The initialized flag, if it was ever written.
    pub initialized: Option<bool>,
    /// The currency's details, if they were ever written.
    pub currency: Option<CurrencyInfoView>,
    /// The balance written for each holder that has one.
    pub balances: Map<Seq<char>, int>,
    /// The expiry extension that was asked for last, if any was.
    pub extension: Option<TtlExtension>,
}

impl StorageView {
    /// A storage to which nothing was written yet.
    pub open spec fn empty() -> StorageView {
        StorageView {
            initialized: None,
            currency: None,
            balances: Map::empty(),
            extension: None,
        }
    }

    /// Every stored balance is one that a 128-bit signed integer can hold,
    /// and only finitely many holders have one.
    pub open spec fn well_formed(self) -> bool {
        &&& self.balances.dom().finite()
        &&& forall|holder: Seq<char>| #[trigger]
            self.balances.dom().contains(holder) ==> i128::MIN <= self.balances[holder]
                <= i128::MAX
    }
}

struct BalanceEntry {
    key: Balance,
    amount: i128,
}

/// The table that a list of entries stands for: later entries win.
spec fn entries_table(entries: Seq<BalanceEntry>) -> Map<Seq<char>, int>
    decreases entries.len(),
{
    if entries.len() == 0 {
        Map::empty()
    } else {
        entries_table(entries.drop_last()).insert(
            entries.last().key@,
            entries.last().amount as int,
        )
    }
}

/// The entry at `index` is the one stored under `key`.
spec fn entry_at(entries: Seq<BalanceEntry>, index: int, key: Seq<char>) -> bool {
    0 <= index < entries.len() && entries[index].key@ == key
}

/// No two entries are stored under the same key.
spec fn distinct_keys(entries: Seq<BalanceEntry>) -> bool {
    forall|i: int, j: int|
        0 <= i < j < entries.len() ==> #[trigger] entries[i].key@ != #[trigger] entries[j].key@
}

/// The table holds exactly the keys of the entries, and, where no key
/// occurs twice, the amount of each entry under its key.
proof fn lemma_entries_table(entries: Seq<BalanceEntry>)
    ensures
        entries_table(entries).dom().finite(),
        forall|key: Seq<char>| #[trigger]
            entries_table(entries).dom().contains(key) <==> exists|index: int|
                entry_at(entries, index, key),
        forall|key: Seq<char>| #[trigger]
            entries_table(entries).dom().contains(key) ==> i128::MIN <= entries_table(
                entries,
            )[key] <= i128::MAX,
        distinct_keys(entries) ==> forall|index: int, key: Seq<char>| #[trigger]
            entry_at(entries, index, key) ==> entries_table(entries)[key]
                == entries[index].amount,
    decreases entries.len(),
{
    if entries.len() != 0 {
        let front = entries.drop_last();
        let last = entries.last();
        lemma_entries_table(front);
        assert forall|key: Seq<char>| #[trigger]
            entries_table(entries).dom().contains(key) implies exists|index: int|
            entry_at(entries, index, key) by {
            if key == last.key@ {
                assert(entry_at(entries, entries.len() - 1, key));
            } else {
                let index = choose|index: int| entry_at(front, index, key);
                assert(entry_at(entries, index, key));
            }
        }
        assert forall|key: Seq<char>|
            (exists|index: int| entry_at(entries, index, key)) implies #[trigger]
            entries_table(entries).dom().contains(key) by {
            let index = choose|index: int| entry_at(entries, index, key);
            if index < entries.len() - 1 {
                assert(entry_at(front, index, key));
            }
        }
        if distinct_keys(entries) {
            assert(distinct_keys(front)) by {
                assert forall|i: int, j: int| 0 <= i < j < front.len() implies #[trigger]
                    front[i].key@ != #[trigger] front[j].key@ by {
                    assert(entries[i].key@ != entries[j].key@);
                }
            }
            assert forall|index: int, key: Seq<char>| #[trigger]
                entry_at(entries, index, key) implies entries_table(entries)[key]
                == entries[index].amount by {
                if index < entries.len() - 1 {
                    assert(entries[index].key@ != entries[entries.len() - 1].key@);
                    assert(entry_at(front, index, key));
                }
            }
        }
    }
}

/// The ledger's persistent state.
///
/// It answers typed reads and writes for the three things the ledger keeps,
/// and records the expiry extension that was asked for last.
pub struct Storage {
    initialized: Option<bool>,
    currency: Option<CurrencyInfo>,
    entries: Vec<BalanceEntry>,
    extension: Option<TtlExtension>,
}

impl View for Storage {
    type V = StorageView;

    closed spec fn view(&self) -> StorageView {
        StorageView {
            initialized: self.initialized,
            currency: match self.currency {
                Some(info) => Some(info@),
                None => None,
            },
            balances: entries_table(self.entries@),
            extension: self.extension,
        }
    }
}

impl Storage {
    /// The storage keeps one entry per holder.
    pub closed spec fn inv(&self) -> bool {
        distinct_keys(self.entries@)
    }

    /// What any storage holds is well formed.
    pub proof fn lemma_well_formed(&self)
        ensures
            self@.well_formed(),
    {
        lemma_entries_table(self.entries@);
    }

    /// A storage to which nothing was written yet.
    pub fn new() -> (storage: Storage)
        ensures
            storage.inv(),
            storage@ == StorageView::empty(),
    {
        Storage { initialized: None, currency: None, entries: Vec::new(), extension: None }
    }

    /// The initialized flag, if it was ever written.
    pub fn get_initialized(&self) -> (flag: Option<bool>)
        ensures
            flag == self@.initialized,
    {
        self.initialized
    }

    /// Writes the initialized flag.
    pub fn set_initialized(&mut self, flag: bool)
        requires
            old(self).inv(),
        ensures
            final(self).inv(),
            final(self)@ == (StorageView { initialized: Some(flag), ..old(self)@ }),
    {
        self.initialized = Some(flag);
    }

    /// A copy of the currency's details, if they were ever written.
    pub fn get_currency_info(&self) -> (info: Option<CurrencyInfo>)
        ensures
            match info {
                Some(found) => self@.currency == Some(found@),
                None => self@.currency is None,
            },
    {
        match &self.currency {
            Some(info) => Some(info.clone()),
            None => None,
        }
    }

    /// Writes the currency's details.
    pub fn set_currency_info(&mut self, info: CurrencyInfo)
        requires
            old(self).inv(),
        ensures
            final(self).inv(),
            final(self)@ == (StorageView { currency: Some(info@), ..old(self)@ }),
    {
        self.currency = Some(info);
    }

    /// Where the entry stored under `key` stands, if there is one.
    fn position(&self, key: &Balance) -> (found: Option<usize>)
        ensures
            match found {
                Some(index) => entry_at(self.entries@, index as int, key@),
                None => forall|index: int| !entry_at(self.entries@, index, key@),
            },
    {
        let mut index: usize = 0;
        while index < self.entries.len()
            invariant
                index <= self.entries.len(),
                forall|earlier: int| 0 <= earlier < index ==> !entry_at(self.entries@, earlier, key@),
            decreases self.entries.len() - index,
        {
            if self.entries[index].key == *key {
                return Some(index);
            }
            index += 1;
        }
        None
    }

    /// The balance written for the holder that `key` names, if there is one.
    pub fn get_balance(&self, key: &Balance) -> (amount: Option<i128>)
        requires
            self.inv(),
        ensures
            match amount {
                Some(found) => self@.balances.dom().contains(key@) && self@.balances[key@]
                    == found,
                None => !self@.balances.dom().contains(key@),
            },
    {
        proof {
            lemma_entries_table(self.entries@);
        }
        match self.position(key) {
            Some(index) => Some(self.entries[index].amount),
            None => None,
        }
    }

    /// Writes `amount` as the balance of the holder that `key` names, in
    /// place of any balance written for that holder before.
    pub fn set_balance(&mut self, key: Balance, amount: i128)
        requires
            old(self).inv(),
        ensures
            final(self).inv(),
            final(self)@ == (StorageView {
                balances: old(self)@.balances.insert(key@, amount as int),
                ..old(self)@
            }),
    {
        proof {
            lemma_entries_table(self.entries@);
        }
        let ghost before = self.entries@;
        let ghost key_view = key@;
        match self.position(&key) {
            Some(index) => {
                self.entries.set(index, BalanceEntry { key, amount });
                proof {
                    let after = self.entries@;
                    assert forall|i: int, j: int| 0 <= i < j < after.len() implies #[trigger]
                        after[i].key@ != #[trigger] after[j].key@ by {
                        assert(before[i].key@ != before[j].key@);
                    }
                    lemma_entries_table(after);
                    assert forall|other: Seq<char>|
                        entries_table(before).insert(key_view, amount as int).dom().contains(
                            other,
                        ) implies #[trigger] entries_table(after).dom().contains(other) by {
                        if other != key_view {
                            let at = choose|at: int| entry_at(before, at, other);
                            assert(entry_at(after, at, other));
                        } else {
                            assert(entry_at(after, index as int, other));
                        }
                    }
                    assert forall|other: Seq<char>| #[trigger]
                        entries_table(after).dom().contains(other) implies entries_table(
                        before,
                    ).insert(key_view, amount as int).dom().contains(other)
                        && entries_table(after)[other] == entries_table(before).insert(
                        key_view,
                        amount as int,
                    )[other] by {
                        let at = choose|at: int| entry_at(after, at, other);
                        if at != index {
                            assert(entry_at(before, at, other));
                            assert(before[at].key@ != before[index as int].key@);
                        }
                    }
                    assert(entries_table(after) =~= entries_table(before).insert(
                        key_view,
                        amount as int,
                    ));
                }
            },
            None => {
                self.entries.push(BalanceEntry { key, amount });
                proof {
                    let after = self.entries@;
                    assert(after.drop_last() =~= before);
                    assert forall|i: int, j: int| 0 <= i < j < after.len() implies #[trigger]
                        after[i].key@ != #[trigger] after[j].key@ by {
                        if j < before.len() {
                            assert(before[i].key@ != before[j].key@);
                        } else {
                            assert(!entry_at(before, i, key_view));
                        }
                    }
                }
            },
        }
    }

    /// The expiry extension that was asked for last, if any was.
    pub fn extension(&self) -> (asked: Option<TtlExtension>)
        ensures
            asked == self@.extension,
    {
        self.extension
    }

    /// Asks to keep the stored state alive: if it would expire in fewer than
    /// `threshold` ledgers, it is to live for `extend_to` ledgers from now.
    pub fn extend_ttl(&mut self, threshold: u32, extend_to: u32)
        requires
            old(self).inv(),
        ensures
            final(self).inv(),
            final(self)@ == (StorageView {
                extension: Some(TtlExtension { threshold, extend_to }),
                ..old(self)@
            }),
    {
        self.extension = Some(TtlExtension { threshold, extend_to });
    }
}

} // verus!
