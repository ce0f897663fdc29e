//! The GraphQL query a proxy sends to a counter document.

use vstd::prelude::*;

verus! {

/// The query that reads a document's count.
pub struct GetCounter;

/// The text of the query.
pub open spec fn get_counter_query() -> Seq<char> {
    "query GetCounter {\n  counter {\n    count\n  }\n}\n"@
}

impl GetCounter {
    /// The name of the query's operation.
    pub fn operation_name() -> (r: &'static str)
        ensures
            r@ == "GetCounter"@,
    {
        "GetCounter"
    }

    /// The text of the query.
    pub fn query() -> (r: &'static str)
        ensures
            r@ == get_counter_query(),
    {
        "query GetCounter {\n  counter {\n    count\n  }\n}\n"
    }
}

} // verus!
