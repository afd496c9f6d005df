//! The handlers: one for each operation, from what the unit of work against
//! the backend handed back to the response.

pub mod create;
pub mod delete;
pub mod read;

use vstd::prelude::*;
use crate::models::Joke;
use crate::status::{
    classified, classify, collapse, collapse_deletion, collapse_lookup, collapsed,
    deletion_outcome, lookup_outcome, Attempt, Operation, ResponseStatus,
};

verus! {

/// The status of a response that carries a payload where it is a success.
pub open spec fn status_of<T>(response: Result<(ResponseStatus, T), ResponseStatus>)
    -> ResponseStatus {
    match response {
        Ok((status, _)) => status,
        Err(status) => status,
    }
}

/// The status of a response that carries no payload.
pub open spec fn bare_status_of(response: Result<ResponseStatus, ResponseStatus>)
    -> ResponseStatus {
    match response {
        Ok(status) => status,
        Err(status) => status,
    }
}

/// Answers a request to store a joke: created, with the stored record, where
/// the statement ran; an internal failure otherwise.
pub fn add_joke<Q, A>(res: Attempt<Joke, Q, A>) -> (response: Result<(ResponseStatus, Joke), ResponseStatus>)
    ensures
        res matches Ok(Ok(joke)) ==> response == Ok::<(ResponseStatus, Joke), ResponseStatus>(
            (ResponseStatus::Created, joke),
        ),
        !(res matches Ok(Ok(_))) ==> response == Err::<(ResponseStatus, Joke), ResponseStatus>(
            ResponseStatus::InternalFailure,
        ),
        status_of(response) == classified(Operation::Create, collapsed(res)),
        response is Ok <==> status_of(response).succeeded(),
{
    let status = classify(Operation::Create, collapse(&res));
    match res {
        Ok(Ok(joke)) => Ok((status, joke)),
        _ => Err(status),
    }
}

/// Answers a request to remove every joke: success where rows were removed,
/// no change where the table was empty already, an internal failure where the
/// statement did not run.
pub fn delete_all_joke<Q, A>(res: Attempt<usize, Q, A>) -> (response: Result<ResponseStatus, ResponseStatus>)
    ensures
        res matches Ok(Ok(removed)) ==> response == Ok::<ResponseStatus, ResponseStatus>(
            if removed > 0 {
                ResponseStatus::Success
            } else {
                ResponseStatus::NoChange
            },
        ),
        !(res matches Ok(Ok(_))) ==> response == Err::<ResponseStatus, ResponseStatus>(
            ResponseStatus::InternalFailure,
        ),
        bare_status_of(response) == classified(Operation::DeleteAll, deletion_outcome(res)),
        response is Ok <==> bare_status_of(response).succeeded(),
{
    let status = classify(Operation::DeleteAll, collapse_deletion(&res));
    if status.is_success() {
        Ok(status)
    } else {
        Err(status)
    }
}

/// Answers a request for the joke with a given identifier: success with the
/// record where it was found, not found where the query ran and found none,
/// an internal failure where the query did not run.
pub fn get_joke<Q, A>(res: Attempt<Option<Joke>, Q, A>) -> (response: Result<
    (ResponseStatus, Joke),
    ResponseStatus,
>)
    ensures
        res matches Ok(Ok(Some(joke))) ==> response == Ok::<(ResponseStatus, Joke), ResponseStatus>(
            (ResponseStatus::Success, joke),
        ),
        res matches Ok(Ok(None)) ==> response == Err::<(ResponseStatus, Joke), ResponseStatus>(
            ResponseStatus::NotFound,
        ),
        !(res matches Ok(Ok(_))) ==> response == Err::<(ResponseStatus, Joke), ResponseStatus>(
            ResponseStatus::InternalFailure,
        ),
        status_of(response) == classified(Operation::ReadOne, lookup_outcome(res)),
        response is Ok <==> status_of(response).succeeded(),
{
    let status = classify(Operation::ReadOne, collapse_lookup(&res));
    match res {
        Ok(Ok(Some(joke))) => Ok((status, joke)),
        _ => Err(status),
    }
}

/// Answers a request for one joke picked at random: as for a joke by its
/// identifier, with not found for an empty table.
pub fn get_random_joke<Q, A>(res: Attempt<Option<Joke>, Q, A>) -> (response: Result<
    (ResponseStatus, Joke),
    ResponseStatus,
>)
    ensures
        res matches Ok(Ok(Some(joke))) ==> response == Ok::<(ResponseStatus, Joke), ResponseStatus>(
            (ResponseStatus::Success, joke),
        ),
        res matches Ok(Ok(None)) ==> response == Err::<(ResponseStatus, Joke), ResponseStatus>(
            ResponseStatus::NotFound,
        ),
        !(res matches Ok(Ok(_))) ==> response == Err::<(ResponseStatus, Joke), ResponseStatus>(
            ResponseStatus::InternalFailure,
        ),
        status_of(response) == classified(Operation::ReadRandom, lookup_outcome(res)),
        response is Ok <==> status_of(response).succeeded(),
{
    let status = classify(Operation::ReadRandom, collapse_lookup(&res));
    match res {
        Ok(Ok(Some(joke))) => Ok((status, joke)),
        _ => Err(status),
    }
}

/// Answers a request for all jokes: success with the records, which may be
/// none, where the query ran; an internal failure otherwise.
pub fn get_all_jokes<Q, A>(res: Attempt<Vec<Joke>, Q, A>) -> (response: Result<
    (ResponseStatus, Vec<Joke>),
    ResponseStatus,
>)
    ensures
        res matches Ok(Ok(jokes)) ==> response == Ok::<(ResponseStatus, Vec<Joke>), ResponseStatus>(
            (ResponseStatus::Success, jokes),
        ),
        !(res matches Ok(Ok(_))) ==> response == Err::<(ResponseStatus, Vec<Joke>), ResponseStatus>(
            ResponseStatus::InternalFailure,
        ),
        status_of(response) == classified(Operation::ReadAll, collapsed(res)),
        response is Ok <==> status_of(response).succeeded(),
{
    let status = classify(Operation::ReadAll, collapse(&res));
    match res {
        Ok(Ok(jokes)) => Ok((status, jokes)),
        _ => Err(status),
    }
}

/// Answers a request to remove the joke with a given identifier: no content
/// where the statement ran, whether or not a row matched; an internal failure
/// otherwise.
pub fn delete_joke<Q, A>(res: Attempt<usize, Q, A>) -> (response: Result<ResponseStatus, ResponseStatus>)
    ensures
        res matches Ok(Ok(_)) ==> response == Ok::<ResponseStatus, ResponseStatus>(
            ResponseStatus::NoContent,
        ),
        !(res matches Ok(Ok(_))) ==> response == Err::<ResponseStatus, ResponseStatus>(
            ResponseStatus::InternalFailure,
        ),
        bare_status_of(response) == classified(Operation::DeleteOne, deletion_outcome(res)),
        response is Ok <==> bare_status_of(response).succeeded(),
{
    let status = classify(Operation::DeleteOne, collapse_deletion(&res));
    if status.is_success() {
        Ok(status)
    } else {
        Err(status)
    }
}

} // verus!
