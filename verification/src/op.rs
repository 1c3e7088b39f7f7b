//! Operators of the filter language: ordering masks, matching operators,
//! and the boolean combinators that fold sub-results into a verdict.

use vstd::prelude::*;
use crate::order::Order;

verus! {

/// The set of three-way outcomes that a relational operator accepts:
/// `==` accepts only `Equal`, `!=` accepts `Less` and `Greater`,
/// `<=` accepts `Less` and `Equal`, and so on.
#[derive(Clone, Copy, Debug, PartialEq, Eq, Structural)]
pub struct OrderingMask {
    pub less: bool,
    pub equal: bool,
    pub greater: bool,
}

impl OrderingMask {
    /// Whether the given outcome is one the mask accepts.
    pub open spec fn contains_spec(self, o: Order) -> bool {
        match o {
            Order::Less => self.less,
            Order::Equal => self.equal,
            Order::Greater => self.greater,
        }
    }

    /// Tests whether a three-way outcome belongs to the mask.
    pub fn contains(&self, o: Order) -> (r: bool)
        ensures
            r == self.contains_spec(o),
    {
        match o {
            Order::Less => self.less,
            Order::Equal => self.equal,
            Order::Greater => self.greater,
        }
    }

    /// The mask of the equality operator: it accepts `Equal` alone.
    pub fn equal() -> (m: OrderingMask)
        ensures
            m == (OrderingMask { less: false, equal: true, greater: false }),
    {
        OrderingMask { less: false, equal: true, greater: false }
    }
}

/// A matching operator: regex match on text, bitwise AND on integers, or
/// raw byte containment.
#[derive(Clone, Copy, Debug, PartialEq, Eq, Structural)]
pub enum MatchingOp {
    Matches,
    BitwiseAnd,
    Contains,
}

/// A comparison operator: either relational (an ordering mask applied to a
/// three-way ordering) or matching.
#[derive(Clone, Copy, Debug, PartialEq, Eq, Structural)]
pub enum ComparisonOp {
    Ordering(OrderingMask),
    Matching(MatchingOp),
}

/// A binary boolean combinator.
#[derive(Clone, Copy, Debug, PartialEq, Eq, Structural)]
pub enum CombiningOp {
    And,
    Or,
    Xor,
}

/// A unary boolean combinator.
#[derive(Clone, Copy, Debug, PartialEq, Eq, Structural)]
pub enum UnaryOp {
    Not,
}

/// What `combine` returns: conjunction, disjunction, or exclusive or.
pub open spec fn combine_spec(lhs: bool, op: CombiningOp, rhs: bool) -> bool {
    match op {
        CombiningOp::And => lhs && rhs,
        CombiningOp::Or => lhs || rhs,
        CombiningOp::Xor => lhs != rhs,
    }
}

/// What `unary` returns: negation.
pub open spec fn unary_spec(lhs: bool, op: UnaryOp) -> bool {
    match op {
        UnaryOp::Not => !lhs,
    }
}

/// The capability an expression tree needs to fold boolean sub-results
/// into a final verdict. The two spec methods state what each operation
/// returns, so a verdict is a function of the sub-results and the
/// operators alone.
pub trait Filter: Sized {
    /// What `combine` returns for this verdict type.
    spec fn combine_model(self, op: CombiningOp, other: Self) -> Self;

    /// What `unary` returns for this verdict type.
    spec fn unary_model(self, op: UnaryOp) -> Self;

    /// Folds this sub-result with another one.
    fn combine(self, op: CombiningOp, other: Self) -> (r: Self)
        ensures
            r == self.combine_model(op, other),
    ;

    /// Applies a unary combinator to this sub-result.
    fn unary(self, op: UnaryOp) -> (r: Self)
        ensures
            r == self.unary_model(op),
    ;
}

impl Filter for bool {
    open spec fn combine_model(self, op: CombiningOp, other: bool) -> bool {
        combine_spec(self, op, other)
    }

    open spec fn unary_model(self, op: UnaryOp) -> bool {
        unary_spec(self, op)
    }

    fn combine(self, op: CombiningOp, other: bool) -> (r: bool)
        ensures
            r == combine_spec(self, op, other),
    {
        match op {
            CombiningOp::And => self && other,
            CombiningOp::Or => self || other,
            CombiningOp::Xor => self != other,
        }
    }

    fn unary(self, op: UnaryOp) -> (r: bool)
        ensures
            r == unary_spec(self, op),
    {
        match op {
            UnaryOp::Not => !self,
        }
    }
}

} // verus!
