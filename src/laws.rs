use vstd::prelude::*;
use crate::models::{CopyTradingPositionWhereDbModel, CopyTradingProviderDbModel, CopyTradingProviderWhereDbModel};
use crate::table::{
    batch_clashes, has_key, keys_unique, query_result, updated, Record, RowFilter, RowUpdate,
};

verus! {

/// After a record whose key was not stored is added, a query with a filter
/// that selects exactly the rows with that key returns that record alone.
pub proof fn law_add_then_query<E: Record, F: RowFilter<E>>(rows: Seq<E>, e: E, f: F)
    requires
        keys_unique(rows),
        !has_key(rows, e.key()),
        forall|r: E| #[trigger] f.selects(r) <==> r.key() == e.key(),
    ensures
        query_result(rows.push(e), Some(f)) == seq![e],
{
    let p = |row: E| f.selects(row);
    reveal_with_fuel(Seq::filter, 1);
    assert(rows.push(e).drop_last() =~= rows);
    if rows.filter(p).len() > 0 {
        rows.lemma_filter_pred(p, 0);
        rows.lemma_filter_contains_rev(p, rows.filter(p)[0]);
        let i = choose|i: int| 0 <= i < rows.len() && rows[i] == rows.filter(p)[0];
        assert(rows[i].key() == e.key());
    }
    assert(rows.filter(p) =~= Seq::<E>::empty());
    assert(rows.push(e).filter(p) =~= seq![e]);
}

/// A provider filter that holds only an id equal to the provider's selects
/// exactly the rows with that provider's key; so adding a new provider and
/// querying by its id returns that provider alone.
pub proof fn law_add_provider_then_query_by_id(
    rows: Seq<CopyTradingProviderDbModel>,
    e: CopyTradingProviderDbModel,
    f: CopyTradingProviderWhereDbModel,
)
    requires
        keys_unique(rows),
        !has_key(rows, e.id@),
        f.id is Some && f.id->Some_0@ == e.id@,
        f.trader_id is None,
        f.account_id is None,
    ensures
        query_result(rows.push(e), Some(f)) == seq![e],
{
    assert forall|r: CopyTradingProviderDbModel| #[trigger] f.selects(r) <==> r.key() == e.key() by {}
    law_add_then_query(rows, e, f);
}

/// A batch of two rows that share a key clashes, whatever is stored: the
/// bulk insert fails and leaves the table as it was.
pub proof fn law_bulk_with_shared_key_clashes<E: Record>(rows: Seq<E>, r1: E, r2: E)
    requires
        r1.key() == r2.key(),
    ensures
        batch_clashes(rows, seq![r1, r2]),
{
    let b = seq![r1, r2];
    assert(b[0].key() == b[1].key());
}

/// A position filter with every field unset constrains nothing, so a delete
/// with it is refused before any row is touched.
pub proof fn law_empty_position_filter_is_unconstrained(f: CopyTradingPositionWhereDbModel)
    requires
        f.id is None,
        f.source_position_id is None,
        f.subscription_id is None,
    ensures
        !f.constrains(),
{
}

/// An update aimed at a key that no row has changes nothing and creates no
/// row.
pub proof fn law_update_of_missing_key_changes_nothing<E: Record, U: RowUpdate<E>>(rows: Seq<E>, u: U)
    requires
        !has_key(rows, u.target()),
    ensures
        updated(rows, u) == rows,
{
    assert forall|i: int| 0 <= i < rows.len() implies updated(rows, u)[i] == rows[i] by {
        assert(rows[i].key() != u.target());
    }
    assert(updated(rows, u) =~= rows);
}

} // verus!
