pub mod gql;
pub mod restful;

use vstd::prelude::*;

verus! {

/// The storage key under which a document keeps its count.
pub const COUNT_KEY: &'static str = "count";

/// The count a document reports for what its storage read returned: the
/// stored value, or zero when nothing could be read.
pub open spec fn reported_count(read: Option<i32>) -> int {
    match read {
        Some(v) => v as int,
        None => 0,
    }
}

/// Whether an integer is representable as an `i32`.
pub open spec fn fits_i32(x: int) -> bool {
    i32::MIN <= x <= i32::MAX
}

/// The count a document reports, given what its storage read returned.
pub fn current_count(read: Option<i32>) -> (c: i32)
    ensures
        c == reported_count(read),
        read matches Some(v) ==> c == v,
        read is None ==> c == 0,
{
    match read {
        Some(v) => v,
        None => 0,
    }
}

/// The count a document stores after a modification by `value`, given the
/// count it held before.
pub fn modified_count(old: i32, value: i32) -> (c: i32)
    requires
        fits_i32(old + value),
    ensures
        c == old + value,
{
    old + value
}

/// A document reports exactly the count its storage holds, for every stored
/// value, and zero only when nothing could be read.
pub proof fn reported_count_is_stored_value(v: i32)
    ensures
        reported_count(Some(v)) == v,
        reported_count(None) == 0,
        reported_count(Some(v)) == 0 ==> v == 0,
{
}

} // verus!
