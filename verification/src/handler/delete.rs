//! Removing jokes.

use vstd::prelude::*;
use crate::models::views;
use crate::status::QueryError;
use crate::store::{lemma_delete_by_id_keeps_wf, lemma_position_is_unique, Table};

verus! {

/// Removes every joke and returns how many there were, which may be none.
/// The identifiers that were given out are not given out again.
pub fn remove(table: &mut Table) -> (res: Result<usize, QueryError>)
    requires
        old(table)@.wf(),
    ensures
        final(table)@.wf(),
        res is Ok,
        res->Ok_0 == old(table)@.rows.len(),
        final(table)@ == old(table)@.delete_all(),
{
    let removed = table.rows.len();
    table.rows.clear();
    proof {
        assert(views(table.rows@) =~= Seq::empty());
    }
    Ok(removed)
}

/// Removes the joke with the given identifier and returns how many rows
/// that removed: one where a row had it, none where no row did, which is no
/// failure. Every other row stays, in its place.
pub fn delete_joke(id: i32, table: &mut Table) -> (res: Result<usize, QueryError>)
    requires
        old(table)@.wf(),
    ensures
        final(table)@.wf(),
        final(table)@ == old(table)@.delete_by_id(id as int),
        res is Ok,
        res->Ok_0 == (if old(table)@.contains_id(id as int) {
            1usize
        } else {
            0usize
        }),
        res->Ok_0 == old(table)@.rows.len() - final(table)@.rows.len(),
        !final(table)@.contains_id(id as int),
{
    let mut i: usize = 0;
    while i < table.rows.len()
        invariant
            i <= table.rows.len(),
            *table == *old(table),
            table@.wf(),
            forall|k: int| 0 <= k < i ==> (#[trigger] table@.rows[k]).id != id,
        decreases table.rows.len() - i,
    {
        if table.rows[i].id == id {
            proof {
                lemma_position_is_unique(table@, id as int, i as int);
                lemma_delete_by_id_keeps_wf(table@, id as int);
            }
            let _ = table.rows.remove(i);
            proof {
                assert(views(table.rows@) =~= views(old(table).rows@).remove(i as int));
            }
            return Ok(1);
        }
        i += 1;
    }
    Ok(0)
}

} // verus!
