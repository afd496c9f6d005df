//! The classification of outcomes: one table from what an operation came to,
//! to the status that the caller is answered with.

use vstd::prelude::*;

verus! {

/// The backend could not carry out a well-formed statement.
#[derive(Clone, Copy, Debug, PartialEq, Eq, Structural)]
pub struct QueryError;

/// What one unit of work against the backend hands back: outermost whether a
/// handle on the backend was had, with the error `A` where none was; inside
/// it whether the statement ran, with the error `Q` where it did not.
pub type Attempt<T, Q, A> = Result<Result<T, Q>, A>;

/// The operations that a request can ask for.
#[derive(Clone, Copy, Debug, PartialEq, Eq, Structural)]
pub enum Operation {
    Create,
    ReadOne,
    ReadAll,
    ReadRandom,
    DeleteOne,
    DeleteAll,
}

/// What an operation came to, with the layers of the outcome collapsed.
///
/// The first two are failures. `NotFound` and `NoChange` are not: the query
/// ran, and found no such record, or removed no row.
#[derive(Clone, Copy, Debug, PartialEq, Eq, Structural)]
pub enum Outcome {
    AcquisitionError,
    QueryError,
    NotFound,
    NoChange,
    Success,
}

/// The status that a caller is answered with.
#[derive(Clone, Copy, Debug, PartialEq, Eq, Structural)]
pub enum ResponseStatus {
    Success,
    Created,
    NoContent,
    NoChange,
    NotFound,
    InternalFailure,
}

impl Outcome {
    /// Whether the outcome is a failure of the backend or of the way to it.
    pub open spec fn failed(self) -> bool {
        self == Outcome::AcquisitionError || self == Outcome::QueryError
    }

    /// Whether the outcome is a failure, and so is to be logged. An absent
    /// record and a mutation that changed nothing are not.
    pub fn is_failure(self) -> (failed: bool)
        ensures
            failed == self.failed(),
    {
        match self {
            Outcome::AcquisitionError => true,
            Outcome::QueryError => true,
            _ => false,
        }
    }
}

/// The outcome of a unit of work of which only failure and success matter:
/// the failure of the layer that failed, or success.
pub open spec fn collapsed<T, Q, A>(res: Attempt<T, Q, A>) -> Outcome {
    match res {
        Err(_) => Outcome::AcquisitionError,
        Ok(Err(_)) => Outcome::QueryError,
        Ok(Ok(_)) => Outcome::Success,
    }
}

/// The outcome of a lookup: as `collapsed`, but a query that ran and found
/// no record is `NotFound`.
pub open spec fn lookup_outcome<T, Q, A>(res: Attempt<Option<T>, Q, A>) -> Outcome {
    match res {
        Ok(Ok(None)) => Outcome::NotFound,
        _ => collapsed(res),
    }
}

/// The outcome of a deletion: as `collapsed`, but a statement that ran and
/// removed no row is `NoChange`.
pub open spec fn deletion_outcome<Q, A>(res: Attempt<usize, Q, A>) -> Outcome {
    match res {
        Ok(Ok(removed)) => if removed == 0 {
            Outcome::NoChange
        } else {
            Outcome::Success
        },
        _ => collapsed(res),
    }
}

/// Collapses the layers of a unit of work into one outcome.
pub fn collapse<T, Q, A>(res: &Attempt<T, Q, A>) -> (outcome: Outcome)
    ensures
        outcome == collapsed(*res),
{
    match res {
        Err(_) => Outcome::AcquisitionError,
        Ok(Err(_)) => Outcome::QueryError,
        Ok(Ok(_)) => Outcome::Success,
    }
}

/// Collapses the layers of a lookup into one outcome.
pub fn collapse_lookup<T, Q, A>(res: &Attempt<Option<T>, Q, A>) -> (outcome: Outcome)
    ensures
        outcome == lookup_outcome(*res),
{
    match res {
        Ok(Ok(None)) => Outcome::NotFound,
        _ => collapse(res),
    }
}

/// Collapses the layers of a deletion into one outcome.
pub fn collapse_deletion<Q, A>(res: &Attempt<usize, Q, A>) -> (outcome: Outcome)
    ensures
        outcome == deletion_outcome(*res),
{
    match res {
        Ok(Ok(removed)) => if *removed == 0 {
            Outcome::NoChange
        } else {
            Outcome::Success
        },
        _ => collapse(res),
    }
}

/// The status for each operation and outcome.
///
/// A failure is an internal failure whatever was asked. An absent record is
/// not found. A deletion of everything that removed no row is no change. A
/// deletion by identifier answers with no content, whether or not a row
/// matched. A creation that succeeded has created, and every other success is
/// plain success.
pub open spec fn classified(op: Operation, outcome: Outcome) -> ResponseStatus {
    match outcome {
        Outcome::AcquisitionError => ResponseStatus::InternalFailure,
        Outcome::QueryError => ResponseStatus::InternalFailure,
        Outcome::NotFound => ResponseStatus::NotFound,
        Outcome::NoChange => if op == Operation::DeleteOne {
            ResponseStatus::NoContent
        } else {
            ResponseStatus::NoChange
        },
        Outcome::Success => match op {
            Operation::Create => ResponseStatus::Created,
            Operation::DeleteOne => ResponseStatus::NoContent,
            _ => ResponseStatus::Success,
        },
    }
}

/// Maps the outcome of an operation to the status of the response.
pub fn classify(op: Operation, outcome: Outcome) -> (status: ResponseStatus)
    ensures
        status == classified(op, outcome),
        status == ResponseStatus::InternalFailure <==> outcome.failed(),
        status == ResponseStatus::NotFound <==> outcome == Outcome::NotFound,
        status == ResponseStatus::Created <==> op == Operation::Create && outcome
            == Outcome::Success,
{
    match outcome {
        Outcome::AcquisitionError | Outcome::QueryError => ResponseStatus::InternalFailure,
        Outcome::NotFound => ResponseStatus::NotFound,
        Outcome::NoChange => match op {
            Operation::DeleteOne => ResponseStatus::NoContent,
            _ => ResponseStatus::NoChange,
        },
        Outcome::Success => match op {
            Operation::Create => ResponseStatus::Created,
            Operation::DeleteOne => ResponseStatus::NoContent,
            _ => ResponseStatus::Success,
        },
    }
}

/// What the log says of a failure: what was being done when the statement
/// failed, or that the backend could not be reached.
pub open spec fn context_text(op: Operation, outcome: Outcome) -> Seq<char> {
    if outcome == Outcome::AcquisitionError {
        "Error connecting to the db"@
    } else {
        match op {
            Operation::Create => "Error inserting joke"@,
            Operation::ReadOne => "Error getting joke"@,
            Operation::ReadAll => "Error getting jokes"@,
            Operation::ReadRandom => "Error getting a random joke"@,
            Operation::DeleteOne => "Error deleting joke"@,
            Operation::DeleteAll => "Error deleting jokes"@,
        }
    }
}

/// The line that goes to the log with the underlying error, where the
/// outcome is to be logged. A failure is, and says what was being done. An
/// absent record and a deletion that removed nothing are not failures, and
/// nothing is logged for them, nor for a success.
pub fn failure_context(op: Operation, outcome: Outcome) -> (context: Option<&'static str>)
    ensures
        context is Some <==> outcome.failed(),
        context is Some ==> context->Some_0@ == context_text(op, outcome),
{
    match outcome {
        Outcome::AcquisitionError => Some("Error connecting to the db"),
        Outcome::QueryError => Some(
            match op {
                Operation::Create => "Error inserting joke",
                Operation::ReadOne => "Error getting joke",
                Operation::ReadAll => "Error getting jokes",
                Operation::ReadRandom => "Error getting a random joke",
                Operation::DeleteOne => "Error deleting joke",
                Operation::DeleteAll => "Error deleting jokes",
            },
        ),
        _ => None,
    }
}

/// The status for any error on the way to the backend: an internal failure,
/// whatever the error says.
pub fn internal_error<E>(_err: E) -> (status: ResponseStatus)
    ensures
        status == ResponseStatus::InternalFailure,
{
    ResponseStatus::InternalFailure
}

impl ResponseStatus {
    /// The number that the status goes by on the wire.
    pub open spec fn code_spec(self) -> u16 {
        match self {
            ResponseStatus::Success => 200,
            ResponseStatus::Created => 201,
            ResponseStatus::NoContent => 204,
            ResponseStatus::NoChange => 304,
            ResponseStatus::NotFound => 404,
            ResponseStatus::InternalFailure => 500,
        }
    }

    /// Whether the status tells the caller that the request was carried out.
    pub open spec fn succeeded(self) -> bool {
        self != ResponseStatus::NotFound && self != ResponseStatus::InternalFailure
    }

    /// The number that the status goes by on the wire.
    #[verifier::when_used_as_spec(code_spec)]
    pub fn code(self) -> (code: u16)
        ensures
            code == self.code_spec(),
    {
        match self {
            ResponseStatus::Success => 200,
            ResponseStatus::Created => 201,
            ResponseStatus::NoContent => 204,
            ResponseStatus::NoChange => 304,
            ResponseStatus::NotFound => 404,
            ResponseStatus::InternalFailure => 500,
        }
    }

    /// Whether the status tells the caller that the request was carried out:
    /// every status but not found and internal failure does.
    #[verifier::when_used_as_spec(succeeded)]
    pub fn is_success(self) -> (ok: bool)
        ensures
            ok == self.succeeded(),
            ok <==> self.code_spec() < 400,
    {
        match self {
            ResponseStatus::NotFound | ResponseStatus::InternalFailure => false,
            _ => true,
        }
    }
}

/// Two statuses with the same number are the same status.
pub proof fn lemma_code_is_injective(a: ResponseStatus, b: ResponseStatus)
    ensures
        a.code_spec() == b.code_spec() <==> a == b,
{
}

/// A failure is answered with an internal failure and nothing else is;
/// an outcome that is no failure is never answered with one.
pub proof fn lemma_only_failures_are_internal(op: Operation, outcome: Outcome)
    ensures
        classified(op, outcome) == ResponseStatus::InternalFailure <==> outcome.failed(),
        !outcome.failed() && outcome != Outcome::NotFound ==> classified(op, outcome).succeeded(),
{
}

} // verus!
