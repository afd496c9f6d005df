//! Storing a joke.

use vstd::prelude::*;
use crate::models::{views, Joke, JokeView, NewJoke};
use crate::status::QueryError;
use crate::store::{lemma_insert_keeps_wf, Table};

verus! {

/// Stores a joke and returns the stored record, which has the table's next
/// identifier and the given text.
///
/// Fails, and leaves the table as it was, only where the table has given out
/// every identifier that a record can hold.
pub fn add(joke: NewJoke, table: &mut Table) -> (res: Result<Joke, QueryError>)
    requires
        old(table)@.wf(),
    ensures
        final(table)@.wf(),
        res is Ok <==> old(table)@.has_room(),
        res is Ok ==> final(table)@ == old(table)@.insert(joke@),
        res is Ok ==> res->Ok_0@ == (JokeView { id: old(table)@.next_id(), url: joke@ }),
        res is Ok ==> !old(table)@.contains_id(res->Ok_0@.id),
        res is Err ==> final(table)@ == old(table)@,
{
    if table.last_id == i32::MAX {
        return Err(QueryError);
    }
    let id: i32 = table.last_id + 1;
    let stored = Joke { id, url: joke.url };
    let copy = stored.clone();
    table.rows.push(stored);
    table.last_id = id;
    proof {
        assert(views(table.rows@) =~= views(old(table).rows@).push(copy@));
        lemma_insert_keeps_wf(old(table)@, joke@);
    }
    Ok(copy)
}

} // verus!
