//! How replies of the embedded HTTP application are carried back out.

use vstd::prelude::*;

use crate::json::{is_plain_json, is_plain_json_text, starts_value};

verus! {

/// The route at which a GraphQL endpoint is mounted.
pub const GRAPHQL_ROUTE: &'static str = "/graphql";

/// Whether `bytes` is one complete JSON text, as `serde_json` reads it.
pub uninterp spec fn parses_as_json(bytes: Seq<u8>) -> bool;

/// Calls `serde_json::from_slice::<serde_json::Value>` and reports whether it
/// succeeded. The contract names that outcome `parses_as_json` of the bytes,
/// which depends on the bytes alone, and states two facts of the reader:
/// every plain JSON text (see `crate::json`: within JSON's grammar, nesting
/// far below the reader's limit of 127, numbers without exponent that fit an
/// `f64`, strings of printable ASCII) is read; input whose first
/// non-whitespace byte cannot begin a value (or that is all whitespace) is
/// refused. Which other texts it accepts is left unsaid.
#[verifier::external_body]
fn json_parse_succeeds(bytes: &[u8]) -> (r: bool)
    ensures
        r == parses_as_json(bytes@),
        is_plain_json(bytes@) ==> r,
        !starts_value(bytes@) ==> !r,
{
    serde_json::from_slice::<serde_json::Value>(bytes).is_ok()
}

/// How a reply body is carried out: as JSON, or as raw bytes.
#[derive(Debug, Clone, Copy, PartialEq, Eq, Structural)]
pub enum BodyKind {
    Json,
    Raw,
}

/// The kind of a reply body, given whether it parsed as JSON.
pub open spec fn body_kind_of(parsed: bool) -> BodyKind {
    if parsed {
        BodyKind::Json
    } else {
        BodyKind::Raw
    }
}

/// The kind of a reply body, given whether it parsed as JSON.
pub fn body_kind_for(parsed: bool) -> (k: BodyKind)
    ensures
        k == body_kind_of(parsed),
        parsed ==> k == BodyKind::Json,
        !parsed ==> k == BodyKind::Raw,
{
    if parsed {
        BodyKind::Json
    } else {
        BodyKind::Raw
    }
}

/// The kind of a reply body: JSON when the bytes parse as JSON, raw otherwise.
/// A plain JSON text is always carried as JSON, whatever its content (an
/// object with an `errors` member included), and a body that cannot begin
/// a JSON value is always carried raw.
pub fn response_body_kind(bytes: &[u8]) -> (k: BodyKind)
    ensures
        k == body_kind_of(parses_as_json(bytes@)),
        is_plain_json(bytes@) ==> k == BodyKind::Json,
        !starts_value(bytes@) ==> k == BodyKind::Raw,
{
    let parsed = json_parse_succeeds(bytes);
    let plain = is_plain_json_text(bytes);
    let opens = crate::json::starts_with_value(bytes);
    body_kind_for((parsed || plain) && opens)
}

} // verus!
