pub mod gql;

use vstd::prelude::*;

use crate::domains::counter::Counter;
use crate::infra::persistent::counter_document::restful::Payload;

verus! {

/// The binding under which the counter documents' namespace is found.
pub const COUNTER_BINDING: &'static str = "COUNTER";

/// Why a proxy could not complete a request to a counter document.
#[derive(Debug)]
pub enum RepositoryError {
    /// The document declined the mutation.
    UnableToMutate,
    /// The GraphQL reply carried neither errors nor data.
    MissingData,
    /// The GraphQL reply carried errors; their serialized form.
    GraphErrors(String),
}

/// The message that describes a repository error.
pub open spec fn repository_error_message(e: RepositoryError) -> Seq<char> {
    match e {
        RepositoryError::UnableToMutate => "unable to mutate"@,
        RepositoryError::MissingData => "missing data"@,
        RepositoryError::GraphErrors(m) => m@,
    }
}

impl RepositoryError {
    /// The human-readable message of this error.
    pub fn message(&self) -> (r: String)
        ensures
            r@ == repository_error_message(*self),
            *self is UnableToMutate ==> r@ == "unable to mutate"@,
            *self is MissingData ==> r@ == "missing data"@,
            *self matches RepositoryError::GraphErrors(m) ==> r@ == m@,
    {
        match self {
            RepositoryError::UnableToMutate => String::from_str("unable to mutate"),
            RepositoryError::MissingData => String::from_str("missing data"),
            RepositoryError::GraphErrors(m) => m.clone(),
        }
    }
}

/// The counter a document's count reply describes.
pub fn counter_from_payload(name: String, payload: Payload<i32>) -> (c: Counter)
    ensures
        c.name@ == name@,
        c.count == payload.data,
{
    Counter { count: payload.data, name }
}

/// The outcome of a mutation, given the document's acknowledgement.
pub fn mutation_outcome(payload: Payload<bool>) -> (r: Result<(), RepositoryError>)
    ensures
        payload.data ==> r is Ok,
        !payload.data ==> r matches Err(RepositoryError::UnableToMutate),
{
    if payload.data {
        Ok(())
    } else {
        Err(RepositoryError::UnableToMutate)
    }
}

/// The counter a GraphQL reply describes. Errors in the reply win over its
/// data; a reply with neither is missing its data. The reply's count is
/// narrowed to `i32` by truncation.
pub fn counter_from_graph_reply(name: String, errors: Option<String>, data: Option<i64>) -> (r: Result<
    Counter,
    RepositoryError,
>)
    ensures
        match errors {
            Some(m) => r matches Err(RepositoryError::GraphErrors(e)) && e@ == m@,
            None => match data {
                Some(count) => r matches Ok(c) && c.name@ == name@ && c.count == count as i32,
                None => r matches Err(RepositoryError::MissingData),
            },
        },
{
    match errors {
        Some(m) => Err(RepositoryError::GraphErrors(m)),
        None => match data {
            Some(count) => Ok(Counter { count: #[verifier::truncate] (count as i32), name }),
            None => Err(RepositoryError::MissingData),
        },
    }
}

} // verus!
