//! The mathematics of a balance table: what a holder owns, what the table
//! adds up to, and how both change when one entry is written.

use vstd::prelude::*;

verus! {

/// What `holder` owns according to `table`. A holder without an entry owns
/// nothing.
pub open spec fn balance_of<K>(table: Map<K, int>, holder: K) -> int {
    if table.dom().contains(holder) {
        table[holder]
    } else {
        0
    }
}

/// The sum of all the balances in a finite `table`.
pub open spec fn total<K>(table: Map<K, int>) -> int
    decreases table.dom().len(),
    when table.dom().finite()
    via total_decreases::<K>
{
    if table.dom().len() == 0 {
        0
    } else {
        let holder = table.dom().choose();
        table[holder] + total(table.remove(holder))
    }
}

#[via_fn]
proof fn total_decreases<K>(table: Map<K, int>) {
    if table.dom().len() != 0 {
        let holder = table.dom().choose();
        assert(table.dom().contains(holder));
        assert(table.remove(holder).dom() =~= table.dom().remove(holder));
    }
}

/// No balance in `table` is negative.
pub open spec fn all_non_negative<K>(table: Map<K, int>) -> bool {
    forall|holder: K| #[trigger] table.dom().contains(holder) ==> table[holder] >= 0
}

/// The total of a table is the balance of any one of its holders plus the
/// total of the others.
pub proof fn lemma_total_remove<K>(table: Map<K, int>, holder: K)
    requires
        table.dom().finite(),
        table.dom().contains(holder),
    ensures
        total(table) == table[holder] + total(table.remove(holder)),
    decreases table.dom().len(),
{
    let first = table.dom().choose();
    assert(table.dom().len() != 0);
    if first != holder {
        let without_first = table.remove(first);
        let without_holder = table.remove(holder);
        assert(without_first.dom() =~= table.dom().remove(first));
        assert(without_holder.dom() =~= table.dom().remove(holder));
        lemma_total_remove(without_first, holder);
        lemma_total_remove(without_holder, first);
        assert(without_first.remove(holder) =~= without_holder.remove(first));
    }
}

/// The table without entries adds up to zero.
pub proof fn lemma_total_empty<K>()
    ensures
        total(Map::<K, int>::empty()) == 0,
{
    assert(Map::<K, int>::empty().dom() =~= Set::<K>::empty());
}

/// Writing `amount` for `holder` changes the total by the difference between
/// `amount` and what the holder owned before.
pub proof fn lemma_total_insert<K>(table: Map<K, int>, holder: K, amount: int)
    requires
        table.dom().finite(),
    ensures
        table.insert(holder, amount).dom().finite(),
        total(table.insert(holder, amount)) == total(table) - balance_of(table, holder) + amount,
{
    let written = table.insert(holder, amount);
    lemma_total_remove(written, holder);
    if table.dom().contains(holder) {
        lemma_total_remove(table, holder);
        assert(written.remove(holder) =~= table.remove(holder));
    } else {
        assert(written.remove(holder) =~= table);
    }
}

/// A table without negative balances adds up to at least what any two of its
/// holders own together.
pub proof fn lemma_total_bounds_pair<K>(table: Map<K, int>, first: K, second: K)
    requires
        table.dom().finite(),
        all_non_negative(table),
        first != second,
    ensures
        balance_of(table, first) >= 0,
        balance_of(table, second) >= 0,
        balance_of(table, first) + balance_of(table, second) <= total(table),
{
    let without_first = table.remove(first);
    let without_both = without_first.remove(second);
    assert(all_non_negative(without_both)) by {
        assert forall|holder: K| #[trigger]
            without_both.dom().contains(holder) implies without_both[holder] >= 0 by {
            assert(table.dom().contains(holder));
        }
    }
    lemma_total_non_negative(without_both);
    if table.dom().contains(first) {
        lemma_total_remove(table, first);
    } else {
        assert(without_first =~= table);
    }
    if without_first.dom().contains(second) {
        assert(table.dom().contains(second));
        lemma_total_remove(without_first, second);
    } else {
        assert(without_both =~= without_first);
    }
}

/// A table without negative balances does not add up to a negative total.
pub proof fn lemma_total_non_negative<K>(table: Map<K, int>)
    requires
        table.dom().finite(),
        all_non_negative(table),
    ensures
        total(table) >= 0,
    decreases table.dom().len(),
{
    if table.dom().len() != 0 {
        let holder = table.dom().choose();
        let rest = table.remove(holder);
        assert(table.dom().contains(holder));
        assert(rest.dom() =~= table.dom().remove(holder));
        assert forall|other: K| #[trigger] rest.dom().contains(other) implies rest[other]
            >= 0 by {
            assert(table.dom().contains(other));
        }
        lemma_total_non_negative(rest);
    }
}

} // verus!
