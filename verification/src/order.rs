//! Three-way ordering outcomes and ordering of a value against an
//! inclusive range.

use vstd::prelude::*;

verus! {

/// Outcome of a three-way comparison between a runtime value and an
/// operand. For a value against an address range, `Equal` means the value
/// lies inside the inclusive range, not that it equals an endpoint.
#[derive(Clone, Copy, Debug, PartialEq, Eq, Structural)]
pub enum Order {
    Less,
    Equal,
    Greater,
}

/// Where a value stands relative to the inclusive range `[first, last]`:
/// `Less` below it, `Greater` above it, `Equal` inside it.
pub open spec fn range_order_spec(lhs: int, first: int, last: int) -> Order {
    if lhs < first {
        Order::Less
    } else if lhs > last {
        Order::Greater
    } else {
        Order::Equal
    }
}

/// Three-way ordering of a value against the inclusive range
/// `[rhs_first, rhs_last]`. Range membership is expressed as `Equal`, so
/// the same ordering masks that express `<`, `==`, `>=`, ... also express
/// "inside / outside this range".
pub fn range_order(lhs: u128, rhs_first: u128, rhs_last: u128) -> (r: Order)
    ensures
        r == range_order_spec(lhs as int, rhs_first as int, rhs_last as int),
{
    if lhs < rhs_first {
        Order::Less
    } else if lhs > rhs_last {
        Order::Greater
    } else {
        Order::Equal
    }
}

/// Natural total order of two scalars, as a three-way outcome.
pub open spec fn scalar_order_spec(lhs: int, rhs: int) -> Order {
    if lhs < rhs {
        Order::Less
    } else if lhs > rhs {
        Order::Greater
    } else {
        Order::Equal
    }
}

/// Three-way comparison of two unsigned integers.
pub fn scalar_order(lhs: u64, rhs: u64) -> (r: Order)
    ensures
        r == scalar_order_spec(lhs as int, rhs as int),
{
    if lhs < rhs {
        Order::Less
    } else if lhs > rhs {
        Order::Greater
    } else {
        Order::Equal
    }
}

/// Law: for every value and every non-empty inclusive range, the range
/// ordering is total — it is `Equal` exactly inside the range, `Less`
/// exactly below it, and `Greater` exactly above it, so exactly one of the
/// three outcomes holds.
pub proof fn lemma_range_order_total(lhs: int, first: int, last: int)
    requires
        first <= last,
    ensures
        range_order_spec(lhs, first, last) == Order::Equal <==> first <= lhs <= last,
        range_order_spec(lhs, first, last) == Order::Less <==> lhs < first,
        range_order_spec(lhs, first, last) == Order::Greater <==> lhs > last,
{
}

} // verus!
