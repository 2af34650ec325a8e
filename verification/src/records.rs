//! What the record endpoints answer, given what the record store returned.
//!
//! The store is queried by the caller. A failed listing is answered with an
//! empty list; a failed lookup is answered with `RecordNotFound`, never with a
//! record that the store did not return.

use vstd::prelude::*;

verus! {

/// No record was found under the identifier that was asked for.
#[derive(Clone, Copy, Debug, PartialEq, Eq, Structural)]
pub struct RecordNotFound;

impl RecordNotFound {
    /// The name of the error, as it is reported.
    pub fn name(&self) -> (name: &'static str)
        ensures
            name@ == "RecordNotFound"@,
    {
        "RecordNotFound"
    }
}

/// The acknowledgement of a request to create a record.
pub open spec fn acknowledgement() -> Seq<char> {
    "OK"@
}

/// The answer to a lookup for which the store returned `answer`.
pub open spec fn detail_answer<R, E>(answer: Result<R, E>) -> Result<R, RecordNotFound> {
    match answer {
        Ok(record) => Ok(record),
        Err(_) => Err(RecordNotFound),
    }
}

/// The records to list when the store returned `answer`: the records of the
/// store as they came, or none if the store could not be asked.
pub fn list<R, E>(answer: Result<Vec<R>, E>) -> (records: Vec<R>)
    ensures
        answer is Ok ==> records == answer->Ok_0,
        answer is Err ==> records@ == Seq::<R>::empty(),
{
    match answer {
        Ok(records) => records,
        Err(_) => Vec::new(),
    }
}

/// The answer to a lookup for which the store returned `answer`: the record
/// of the store, or `RecordNotFound` if the lookup failed.
pub fn detail<R, E>(answer: Result<R, E>) -> (found: Result<R, RecordNotFound>)
    ensures
        found == detail_answer(answer),
{
    match answer {
        Ok(record) => Ok(record),
        Err(_) => Err(RecordNotFound),
    }
}

/// Acknowledges a request to create a record. Nothing is created.
pub fn create() -> (reply: &'static str)
    ensures
        reply@ == acknowledgement(),
{
    "OK"
}

/// Looking a record up again gives the same answer as before, as long as the
/// store returns the same: the answer depends on nothing else.
pub proof fn lemma_detail_repeats<R, E>(first: Result<R, E>, second: Result<R, E>)
    requires
        first == second,
    ensures
        detail_answer(first) == detail_answer(second),
        first is Ok ==> detail_answer(second) == Ok::<R, RecordNotFound>(first->Ok_0),
{
}

} // verus!
