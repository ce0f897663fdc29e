//! The GraphQL surface of a counter document.

use vstd::prelude::*;

use crate::infra::persistent::counter_document::fits_i32;

verus! {

/// The document's mutations, by the amount each changes the count.
pub struct MutationRoot;

/// The amount `addCounter(val)` changes the count by.
pub open spec fn add_amount(val: i32) -> int {
    val as int
}

/// The amount `minusCounter(val)` changes the count by.
pub open spec fn minus_amount(val: i32) -> int {
    -(val as int)
}

impl MutationRoot {
    /// The amount by which `addCounter(val)` modifies the count.
    pub fn add_counter(&self, val: i32) -> (d: i32)
        ensures
            d == add_amount(val),
            d == val,
    {
        val
    }

    /// The amount by which `minusCounter(val)` modifies the count.
    pub fn minus_counter(&self, val: i32) -> (d: i32)
        requires
            val != i32::MIN,
        ensures
            d == minus_amount(val),
            d == -val,
            d + val == 0,
    {
        -val
    }
}


/// Subtracting an amount right after adding it leaves the count where it
/// was: `minusCounter(val)` undoes `addCounter(val)`.
pub proof fn minus_undoes_add(count: i32, val: i32)
    requires
        val != i32::MIN,
        fits_i32(count + add_amount(val)),
    ensures
        fits_i32(count + add_amount(val) + minus_amount(val)),
        count + add_amount(val) + minus_amount(val) == count,
{
}

/// Adding an amount right after subtracting it leaves the count where it
/// was: `addCounter(val)` undoes `minusCounter(val)`.
pub proof fn add_undoes_minus(count: i32, val: i32)
    requires
        val != i32::MIN,
        fits_i32(count + minus_amount(val)),
    ensures
        fits_i32(count + minus_amount(val) + add_amount(val)),
        count + minus_amount(val) + add_amount(val) == count,
{
}


/// `addCounter(val)` raises the count by `val` and `minusCounter(val)`
/// lowers it by `val`, for every amount: a count `c` becomes `c + val` and
/// `c - val` respectively.
pub proof fn amounts_raise_and_lower(count: i32, val: i32)
    requires
        val != i32::MIN,
    ensures
        add_amount(val) == val,
        minus_amount(val) == -val,
        count + add_amount(val) == count + val,
        count + minus_amount(val) == count - val,
        val > 0 ==> count + add_amount(val) > count && count + minus_amount(val) < count,
{
}

} // verus!
