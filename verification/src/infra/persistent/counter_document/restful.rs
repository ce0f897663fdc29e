//! The REST commands a counter document answers, and the paths that address them.

use vstd::prelude::*;

use crate::text::{
    decimal, decimal_is_display_text, decimal_round_trip, is_display_text, i32_to_decimal, lemma_replace_all_skips_prefix,
    lemma_replace_all_whole, parse_decimal, replace_all, replace_all_text,
};

verus! {

/// A command addressed to a counter document.
#[derive(Debug, Clone, Copy, PartialEq, Eq, Structural)]
pub enum Commands {
    GetCount,
    GetName,
    MutateCount(Option<i32>),
}

/// The body of a document's reply: one value under `data`.
#[derive(Debug)]
pub struct Payload<T> {
    pub data: T,
}

/// Why a command could not be turned into a query path.
#[derive(Debug, Clone, Copy, PartialEq, Eq, Structural)]
pub enum QueryError {
    MissingValue,
}

/// The route pattern under which a document serves a command.
pub open spec fn route(c: Commands) -> Seq<char> {
    match c {
        Commands::GetCount => "/count"@,
        Commands::GetName => "/name"@,
        Commands::MutateCount(_) => "/count/mutate/:value"@,
    }
}

/// The placeholder in a route that stands for the mutation's value.
pub open spec fn value_placeholder() -> Seq<char> {
    ":value"@
}

/// The concrete path that requests a command: its route, with the
/// placeholder replaced by the decimal value where the command carries one.
pub open spec fn command_path(c: Commands) -> Result<Seq<char>, QueryError> {
    match c {
        Commands::MutateCount(Some(v)) => Ok(
            replace_all(route(Commands::MutateCount(None)), value_placeholder(), decimal(v as int)),
        ),
        Commands::MutateCount(None) => Err(QueryError::MissingValue),
        _ => Ok(route(c)),
    }
}

/// The message that describes a query error.
pub open spec fn query_error_message(e: QueryError) -> Seq<char> {
    match e {
        QueryError::MissingValue => "missing input value"@,
    }
}

impl QueryError {
    /// The human-readable message of this error.
    pub fn message(&self) -> (r: String)
        ensures
            r@ == query_error_message(*self),
            r@ == "missing input value"@,
    {
        match self {
            QueryError::MissingValue => String::from_str("missing input value"),
        }
    }
}

impl Commands {
    /// The route pattern under which a document serves this command.
    pub fn handler_path(self) -> (r: &'static str)
        ensures
            r@ == route(self),
            self is GetCount ==> r@ == "/count"@,
            self is GetName ==> r@ == "/name"@,
            self is MutateCount ==> r@ == "/count/mutate/:value"@,
    {
        match self {
            Commands::GetCount => "/count",
            Commands::GetName => "/name",
            Commands::MutateCount(_) => "/count/mutate/:value",
        }
    }

    /// The path that requests this command; a mutation without a value
    /// has none.
    pub fn query_string(self) -> (r: Result<String, QueryError>)
        ensures
            match (r, command_path(self)) {
                (Ok(s), Ok(p)) => s@ == p,
                (Err(e), Err(f)) => e == f,
                _ => false,
            },
            self matches Commands::MutateCount(Some(v)) ==> r matches Ok(s) && s@.len() >= 14
                && s@.take(14) == "/count/mutate/"@ && is_display_text(s@.skip(14), v as int),
            self matches Commands::MutateCount(None) ==> r == Err::<String, QueryError>(
                QueryError::MissingValue,
            ),
    {
        match self {
            Commands::MutateCount(val) => match val {
                Some(v) => {
                    proof { reveal_strlit(":value"); }
                    proof { mutate_path_is_display_text(v); }
                    let value = i32_to_decimal(v);
                    Ok(replace_all_text(Commands::MutateCount(None).handler_path(), ":value", value.as_str()))
                },
                None => Err(QueryError::MissingValue),
            },
            _ => Ok(String::from_str(self.handler_path())),
        }
    }
}


/// The fixed part of a mutation path, before the value.
pub open spec fn mutate_prefix() -> Seq<char> {
    "/count/mutate/"@
}

/// A mutation's path is the mutation route's fixed part followed by the
/// value in decimal, and that text reads back as the value: the document
/// that serves the path can recover exactly the amount the sender meant.
pub proof fn mutate_path_carries_value(v: i32)
    ensures
        command_path(Commands::MutateCount(Some(v))) == Ok::<Seq<char>, QueryError>(
            mutate_prefix() + decimal(v as int),
        ),
        parse_decimal(
            command_path(Commands::MutateCount(Some(v)))->Ok_0.skip(mutate_prefix().len() as int),
        ) == v,
{
    reveal_strlit("/count/mutate/:value");
    reveal_strlit("/count/mutate/");
    reveal_strlit(":value");
    let p = mutate_prefix();
    let pat = value_placeholder();
    let d = decimal(v as int);
    assert(route(Commands::MutateCount(None)) =~= p + pat);
    assert forall|k: int| 0 <= k < p.len() implies p[k] != pat[0] by {}
    lemma_replace_all_skips_prefix(p, pat, pat, d);
    lemma_replace_all_whole(pat, d);
    assert((p + d).skip(p.len() as int) =~= d);
    decimal_round_trip(v as int);
}

/// Mutations by different amounts are sent to different paths.
pub proof fn mutate_paths_distinct(a: i32, b: i32)
    requires
        a != b,
    ensures
        command_path(Commands::MutateCount(Some(a))) != command_path(Commands::MutateCount(Some(b))),
{
    mutate_path_carries_value(a);
    mutate_path_carries_value(b);
}


/// Each command has its own route, and a mutation's route does not depend
/// on the value it carries: `/count`, `/name` and `/count/mutate/:value`,
/// pairwise distinct.
pub proof fn routes_of_commands(x: Option<i32>)
    ensures
        route(Commands::GetCount) == "/count"@,
        route(Commands::GetName) == "/name"@,
        route(Commands::MutateCount(x)) == "/count/mutate/:value"@,
        route(Commands::MutateCount(x)) == route(Commands::MutateCount(None)),
        route(Commands::GetCount) != route(Commands::GetName),
        route(Commands::GetCount) != route(Commands::MutateCount(x)),
        route(Commands::GetName) != route(Commands::MutateCount(x)),
{
    reveal_strlit("/count");
    reveal_strlit("/name");
    reveal_strlit("/count/mutate/:value");
    assert(route(Commands::GetCount).len() != route(Commands::GetName).len());
    assert(route(Commands::GetCount).len() != route(Commands::MutateCount(x)).len());
    assert(route(Commands::GetName).len() != route(Commands::MutateCount(x)).len());
}

/// The path of a mutation by `v` is `/count/mutate/` followed by the text
/// `Display` gives `v`: a minus sign exactly when `v` is negative, then the
/// digits of its magnitude without leading zeros.
pub proof fn mutate_path_is_display_text(v: i32)
    ensures
        command_path(Commands::MutateCount(Some(v))) is Ok,
        command_path(Commands::MutateCount(Some(v)))->Ok_0.len() >= 14,
        command_path(Commands::MutateCount(Some(v)))->Ok_0.take(14) == "/count/mutate/"@,
        is_display_text(command_path(Commands::MutateCount(Some(v)))->Ok_0.skip(14), v as int),
{
    mutate_path_carries_value(v);
    reveal_strlit("/count/mutate/");
    decimal_is_display_text(v as int);
    let p = command_path(Commands::MutateCount(Some(v)))->Ok_0;
    assert(mutate_prefix().len() == 14);
    assert(p.take(14) =~= mutate_prefix());
    assert(p.skip(14) =~= decimal(v as int));
}

} // verus!
