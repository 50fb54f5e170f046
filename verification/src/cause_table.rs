//! Per-cause tables: what they record for a cause, and when two of them
//! record the same.
//!
//! A table is a list of entries. What it records for a cause is the value of
//! the first entry that names the cause; the order of the entries and any
//! later entry for the same cause carry no meaning. Two tables are compared
//! by what they record, not by how they are laid out.

use vstd::prelude::*;
use crate::waqf_types::{
    CauseEntry, CauseEntryView, FinancialMetrics, FinancialMetricsView, same_amounts, views_of,
};

verus! {

/// The value recorded for a cause in a per-cause table, if any; the first
/// where the table names the cause more than once.
pub open spec fn entry_for(entries: Seq<CauseEntryView>, id: Seq<char>) -> Option<i64>
    decreases entries.len(),
{
    if entries.len() == 0 {
        None
    } else if entries[0].cause_id == id {
        Some(entries[0].value)
    } else {
        entry_for(entries.drop_first(), id)
    }
}

/// Whether two tables record the same value, or none, for every cause.
pub open spec fn tables_agree(a: Seq<CauseEntryView>, b: Seq<CauseEntryView>) -> bool {
    forall|id: Seq<char>| #[trigger] entry_for(a, id) == entry_for(b, id)
}

/// Whether a table names no cause twice.
pub open spec fn names_each_once(t: Seq<CauseEntryView>) -> bool {
    forall|i: int, j: int| 0 <= i < j < t.len() ==> t[i].cause_id != t[j].cause_id
}

/// A table records nothing for a cause that none of its entries names.
pub proof fn lemma_absent_entry(t: Seq<CauseEntryView>, id: Seq<char>)
    requires
        forall|i: int| 0 <= i < t.len() ==> (#[trigger] t[i]).cause_id != id,
    ensures
        entry_for(t, id) is None,
    decreases t.len(),
{
    if t.len() > 0 {
        assert(t[0].cause_id != id);
        assert forall|i: int| 0 <= i < t.drop_first().len() implies (#[trigger] t.drop_first()[i]).cause_id
            != id by {
            assert(t.drop_first()[i] == t[i + 1]);
        }
        lemma_absent_entry(t.drop_first(), id);
    }
}

/// A table that names no cause twice records for each of its entries that
/// entry's value.
pub proof fn lemma_entry_of_distinct(t: Seq<CauseEntryView>, i: int)
    requires
        names_each_once(t),
        0 <= i < t.len(),
    ensures
        entry_for(t, t[i].cause_id) == Some(t[i].value),
    decreases t.len(),
{
    if i > 0 {
        assert(t[0].cause_id != t[i].cause_id);
        assert forall|a: int, b: int| 0 <= a < b < t.drop_first().len() implies t.drop_first()[a].cause_id
            != t.drop_first()[b].cause_id by {
            assert(t.drop_first()[a] == t[a + 1]);
            assert(t.drop_first()[b] == t[b + 1]);
        }
        lemma_entry_of_distinct(t.drop_first(), i - 1);
        assert(t.drop_first()[i - 1] == t[i]);
    }
}

/// To record the same is an equivalence of tables.
pub proof fn law_agreement_is_equivalence(
    a: Seq<CauseEntryView>,
    b: Seq<CauseEntryView>,
    c: Seq<CauseEntryView>,
)
    ensures
        tables_agree(a, a),
        tables_agree(a, b) ==> tables_agree(b, a),
        tables_agree(a, b) && tables_agree(b, c) ==> tables_agree(a, c),
{
    if tables_agree(a, b) {
        assert forall|id: Seq<char>| #[trigger] entry_for(b, id) == entry_for(a, id) by {
            assert(entry_for(a, id) == entry_for(b, id));
        }
        if tables_agree(b, c) {
            assert forall|id: Seq<char>| #[trigger] entry_for(a, id) == entry_for(c, id) by {
                assert(entry_for(a, id) == entry_for(b, id));
                assert(entry_for(b, id) == entry_for(c, id));
            }
        }
    }
}

/// Two entries for different causes may change places: the table records
/// the same as before.
pub proof fn law_order_carries_no_meaning(first: CauseEntryView, second: CauseEntryView, rest: Seq<CauseEntryView>)
    requires
        first.cause_id != second.cause_id,
    ensures
        tables_agree(seq![first, second] + rest, seq![second, first] + rest),
{
    let x = seq![first, second] + rest;
    let y = seq![second, first] + rest;
    assert forall|id: Seq<char>| #[trigger] entry_for(x, id) == entry_for(y, id) by {
        assert(x.drop_first() =~= seq![second] + rest);
        assert(y.drop_first() =~= seq![first] + rest);
        assert(x.drop_first().drop_first() =~= rest);
        assert(y.drop_first().drop_first() =~= rest);
        reveal_with_fuel(entry_for, 3);
    }
}

/// Looks up what a table records for a cause.
pub fn find_entry(entries: &Vec<CauseEntry>, id: &String) -> (r: Option<i64>)
    ensures
        r == entry_for(views_of(entries@), id@),
{
    let ghost all = views_of(entries@);
    let mut i: usize = 0;
    assert(all.subrange(0, all.len() as int) =~= all);
    while i < entries.len()
        invariant
            i <= entries@.len(),
            all == views_of(entries@),
            entry_for(all, id@) == entry_for(all.subrange(i as int, all.len() as int), id@),
        decreases entries@.len() - i,
    {
        let ghost rest = all.subrange(i as int, all.len() as int);
        assert(rest[0] == entries@[i as int]@);
        assert(rest.drop_first() =~= all.subrange(i as int + 1, all.len() as int));
        if entries[i].cause_id == *id {
            return Some(entries[i].value);
        }
        i = i + 1;
    }
    None
}

fn records_same(a: &Vec<CauseEntry>, b: &Vec<CauseEntry>) -> (r: bool)
    ensures
        r == (forall|i: int|
            0 <= i < a@.len() ==> entry_for(views_of(a@), (#[trigger] views_of(a@)[i]).cause_id)
                == entry_for(views_of(b@), views_of(a@)[i].cause_id)),
{
    let mut i: usize = 0;
    while i < a.len()
        invariant
            i <= a@.len(),
            forall|j: int|
                0 <= j < i ==> entry_for(views_of(a@), (#[trigger] views_of(a@)[j]).cause_id)
                    == entry_for(views_of(b@), views_of(a@)[j].cause_id),
        decreases a@.len() - i,
    {
        let mine = find_entry(a, &a[i].cause_id);
        let theirs = find_entry(b, &a[i].cause_id);
        assert(a@[i as int]@ == views_of(a@)[i as int]);
        if mine != theirs {
            return false;
        }
        i = i + 1;
    }
    true
}

/// Whether two tables record the same value, or none, for every cause.
pub fn same_table(a: &Vec<CauseEntry>, b: &Vec<CauseEntry>) -> (r: bool)
    ensures
        r == tables_agree(views_of(a@), views_of(b@)),
{
    let ghost x = views_of(a@);
    let ghost y = views_of(b@);
    if !records_same(a, b) {
        return false;
    }
    if !records_same(b, a) {
        return false;
    }
    assert forall|id: Seq<char>| #[trigger] entry_for(x, id) == entry_for(y, id) by {
        if exists|i: int| 0 <= i < x.len() && (#[trigger] x[i]).cause_id == id {
            let i = choose|i: int| 0 <= i < x.len() && (#[trigger] x[i]).cause_id == id;
            assert(entry_for(x, x[i].cause_id) == entry_for(y, x[i].cause_id));
        } else if exists|j: int| 0 <= j < y.len() && (#[trigger] y[j]).cause_id == id {
            let j = choose|j: int| 0 <= j < y.len() && (#[trigger] y[j]).cause_id == id;
            assert(entry_for(y, y[j].cause_id) == entry_for(x, y[j].cause_id));
        } else {
            lemma_absent_entry(x, id);
            lemma_absent_entry(y, id);
        }
    }
    true
}

/// Whether two sets of financial figures are the same: every figure, the
/// investment returns in order, and what the table of amounts records for
/// every cause.
pub open spec fn same_figures(a: FinancialMetricsView, b: FinancialMetricsView) -> bool {
    &&& a.total_donations == b.total_donations
    &&& a.total_distributed == b.total_distributed
    &&& a.current_balance == b.current_balance
    &&& a.investment_returns == b.investment_returns
    &&& a.total_investment_return == b.total_investment_return
    &&& a.growth_rate == b.growth_rate
    &&& tables_agree(a.cause_allocations, b.cause_allocations)
}

/// Whether two sets of financial figures are the same.
pub fn same_financials(a: &FinancialMetrics, b: &FinancialMetrics) -> (r: bool)
    ensures
        r == same_figures(a@, b@),
{
    a.total_donations == b.total_donations && a.total_distributed == b.total_distributed
        && a.current_balance == b.current_balance && same_amounts(
        &a.investment_returns,
        &b.investment_returns,
    ) && a.total_investment_return == b.total_investment_return && a.growth_rate == b.growth_rate
        && same_table(&a.cause_allocations, &b.cause_allocations)
}

} // verus!
