//! Reading jokes.

use vstd::prelude::*;
use crate::models::{option_view, views, Joke};
use crate::status::QueryError;
use crate::store::{lemma_position_is_unique, Table};

verus! {

/// `diesel::result::Error`, the error of a query as the backend's client
/// reports it. Nothing of what it holds is known here.
#[verifier::external_type_specification]
#[verifier::external_body]
pub struct ExQueryFailure(diesel::result::Error);

/// Whether an error of a query is `diesel::result::Error::NotFound`, which
/// says that the query ran and no row matched.
pub uninterp spec fn is_not_found(err: diesel::result::Error) -> bool;

/// A query for one row with its error for no row turned into an answer: a
/// row stays a row, the error that says that no row matched becomes an
/// absent row, and every other error stays the error that it was.
pub open spec fn absent_where_not_found(row: Result<Joke, diesel::result::Error>) -> Result<
    Option<Joke>,
    diesel::result::Error,
> {
    match row {
        Ok(joke) => Ok(Some(joke)),
        Err(err) => if is_not_found(err) {
            Ok(None)
        } else {
            Err(err)
        },
    }
}

/// `diesel::OptionalExtension::optional`, which hands a row on as a row,
/// answers the error `NotFound` with an absent row, and hands every other
/// error on as it is.
#[verifier::external_body]
fn optional(row: Result<Joke, diesel::result::Error>) -> (res: Result<
    Option<Joke>,
    diesel::result::Error,
>)
    ensures
        row is Ok ==> res is Ok && res->Ok_0 == Some(row->Ok_0),
        row is Err ==> (res is Ok <==> is_not_found(row->Err_0)),
        row is Err && res is Ok ==> res->Ok_0 is None,
        row is Err && res is Err ==> res->Err_0 == row->Err_0,
{
    diesel::OptionalExtension::optional(row)
}

/// What a query for one joke came to. That no row matched is an answer, an
/// absent joke, and not a failure; every other error of the backend stays a
/// failure, and stays the error that it was.
pub fn found_or_absent(row: Result<Joke, diesel::result::Error>) -> (res: Result<
    Option<Joke>,
    diesel::result::Error,
>)
    ensures
        res == absent_where_not_found(row),
        row is Ok ==> res is Ok && res->Ok_0 == Some(row->Ok_0),
        row is Err ==> (res is Ok <==> is_not_found(row->Err_0)),
        row is Err && res is Ok ==> res->Ok_0 is None,
        row is Err && res is Err ==> res->Err_0 == row->Err_0,
{
    optional(row)
}

/// The joke with the given identifier, or none where no row has it. That no
/// row has it is an answer, not a failure: the lookup never fails.
pub fn get_joke(id: i32, table: &Table) -> (res: Result<Option<Joke>, QueryError>)
    requires
        table@.wf(),
    ensures
        res is Ok,
        option_view(res->Ok_0) == table@.find_by_id(id as int),
        res->Ok_0 is Some <==> table@.contains_id(id as int),
{
    let mut i: usize = 0;
    while i < table.rows.len()
        invariant
            i <= table.rows.len(),
            table@.wf(),
            forall|k: int| 0 <= k < i ==> (#[trigger] table@.rows[k]).id != id,
        decreases table.rows.len() - i,
    {
        if table.rows[i].id == id {
            let found = table.rows[i].clone();
            proof {
                lemma_position_is_unique(table@, id as int, i as int);
            }
            return Ok(Some(found));
        }
        i += 1;
    }
    Ok(None)
}

/// All jokes, in the order in which they were stored. An empty table gives
/// an empty list: listing never fails.
pub fn get_all_jokes(table: &Table) -> (res: Result<Vec<Joke>, QueryError>)
    ensures
        res is Ok,
        views(res->Ok_0@) == table@.rows,
        res->Ok_0@.len() == table@.rows.len(),
{
    let mut jokes: Vec<Joke> = Vec::new();
    let mut i: usize = 0;
    while i < table.rows.len()
        invariant
            i <= table.rows.len(),
            jokes@ == table.rows@.subrange(0, i as int),
        decreases table.rows.len() - i,
    {
        jokes.push(table.rows[i].clone());
        proof {
            assert(jokes@ =~= table.rows@.subrange(0, i + 1));
        }
        i += 1;
    }
    proof {
        assert(jokes@ =~= table.rows@);
    }
    Ok(jokes)
}

/// One joke picked by a draw, or none where the table is empty. The row is
/// the one at the draw's remainder by the number of rows, so that a draw made
/// uniformly at random picks among the rows: the lookup never fails.
pub fn pick_random(draw: usize, table: &Table) -> (res: Result<Option<Joke>, QueryError>)
    ensures
        res is Ok,
        res->Ok_0 is None <==> table@.rows.len() == 0,
        res->Ok_0 matches Some(joke) ==> joke@ == table@.rows[draw as int % table@.rows.len() as int]
            && table@.rows.contains(joke@),
{
    let n = table.rows.len();
    if n == 0 {
        return Ok(None);
    }
    let joke = table.rows[draw % n].clone();
    Ok(Some(joke))
}

} // verus!
