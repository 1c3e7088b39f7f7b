//! The evaluation engine: three-way ordering of a runtime value against an
//! operand, operator dispatch, the field environment, the membership test,
//! and the laws that hold of them.

use vstd::prelude::*;
use crate::bytes::{bytes_contains, contains_subseq, lex_order, lex_order_spec};
use crate::op::{ComparisonOp, MatchingOp, OrderingMask};
use crate::order::{range_order, range_order_spec, scalar_order, scalar_order_spec, Order};
use crate::text::{bytes_as_str, regex_match, regex_match_text, regex_valid, str_eq};
use crate::value::{domains_align, type_of, type_of_spec, IpAddr, IpRange, LhsValue, RhsValue, Type};

verus! {

/// Outcome of ordering a runtime value against an operand: either the
/// three-way ordering, or a type mismatch carrying the runtime value's
/// type so the diagnostic is never lost.
#[derive(Clone, Copy, Debug, PartialEq, Eq, Structural)]
pub enum OrderResult {
    Ordered(Order),
    Mismatch(Type),
}

/// How a single comparison fails: the two domains (or, for regex matching,
/// the text-or-not sub-domains) are incompatible, or the operand is a
/// syntactically invalid pattern.
#[derive(Clone, Copy, Debug, PartialEq, Eq, Structural)]
pub enum CompareError {
    TypeMismatch(Type),
    InvalidPattern,
}

/// Ordering of an address against an address range of the same family;
/// absent when the families differ.
pub open spec fn ip_order_spec(addr: IpAddr, range: IpRange) -> Option<Order> {
    match (addr, range) {
        (IpAddr::V4(a), IpRange::V4 { first, last }) => Some(
            range_order_spec(a as int, first as int, last as int),
        ),
        (IpAddr::V6(a), IpRange::V6 { first, last }) => Some(
            range_order_spec(a as int, first as int, last as int),
        ),
        _ => None,
    }
}

/// Orders a host address against an inclusive address range: `Equal`
/// inside the range, `Less` below, `Greater` above; `None` when the
/// address families differ.
pub fn ip_order(addr: &IpAddr, range: &IpRange) -> (r: Option<Order>)
    ensures
        r == ip_order_spec(*addr, *range),
{
    match (addr, range) {
        (IpAddr::V4(a), IpRange::V4 { first, last }) => Some(
            range_order(*a as u128, *first as u128, *last as u128),
        ),
        (IpAddr::V6(a), IpRange::V6 { first, last }) => Some(range_order(*a, *first, *last)),
        _ => None,
    }
}

/// Three-way ordering of a runtime value against an operand: the natural
/// order for scalars, lexicographic byte order for byte sequences, range
/// membership for addresses; a mismatch with the value's type tag for
/// every cross-domain pair.
pub open spec fn value_order_spec(lhs: LhsValue, rhs: RhsValue) -> OrderResult {
    match (lhs, rhs) {
        (LhsValue::IpAddr(addr), RhsValue::IpCidr(range)) => match ip_order_spec(addr, range) {
            Some(o) => OrderResult::Ordered(o),
            None => OrderResult::Mismatch(type_of_spec(lhs)),
        },
        (LhsValue::Unsigned(l), RhsValue::Unsigned(r)) => OrderResult::Ordered(
            scalar_order_spec(l as int, r as int),
        ),
        (LhsValue::Bytes(l), RhsValue::Bytes(r)) => OrderResult::Ordered(lex_order_spec(l@, r@)),
        _ => OrderResult::Mismatch(type_of_spec(lhs)),
    }
}

/// Orders a runtime value against a same-domain operand, or reports the
/// mismatch.
pub fn value_order(lhs: &LhsValue, rhs: &RhsValue) -> (r: OrderResult)
    ensures
        r == value_order_spec(*lhs, *rhs),
{
    match (lhs, rhs) {
        (LhsValue::IpAddr(addr), RhsValue::IpCidr(range)) => match ip_order(addr, range) {
            Some(o) => OrderResult::Ordered(o),
            None => OrderResult::Mismatch(type_of(lhs)),
        },
        (LhsValue::Unsigned(l), RhsValue::Unsigned(r)) => OrderResult::Ordered(
            scalar_order(*l, *r),
        ),
        (LhsValue::Bytes(l), RhsValue::Bytes(r)) => OrderResult::Ordered(lex_order(l, r)),
        _ => OrderResult::Mismatch(type_of(lhs)),
    }
}

/// What a single comparison returns, for every value, operator and
/// operand:
/// - a relational operator tests whether the three-way ordering belongs to
///   its mask, and reports a mismatch where no ordering exists;
/// - `Matches` requires both sides to be valid text, reports an invalid
///   pattern as its own error, and otherwise returns whether the pattern
///   matches anywhere in the value's text;
/// - `BitwiseAnd` of two unsigned integers is true exactly when their
///   bitwise AND is nonzero;
/// - `Contains` of two byte sequences is true exactly when the operand's
///   bytes occur contiguously in the value's bytes;
/// - every other pairing is a type mismatch carrying the value's type.
pub open spec fn compare_spec(lhs: LhsValue, op: ComparisonOp, rhs: RhsValue) -> Result<
    bool,
    CompareError,
> {
    match op {
        ComparisonOp::Ordering(mask) => match value_order_spec(lhs, rhs) {
            OrderResult::Ordered(o) => Ok(mask.contains_spec(o)),
            OrderResult::Mismatch(t) => Err(CompareError::TypeMismatch(t)),
        },
        ComparisonOp::Matching(mop) => match (lhs, mop, rhs) {
            (LhsValue::Bytes(l), MatchingOp::Matches, RhsValue::Bytes(r)) => {
                if vstd::utf8::valid_utf8(l@) && vstd::utf8::valid_utf8(r@) {
                    if regex_valid(vstd::utf8::decode_utf8(r@)) {
                        Ok(
                            regex_match(
                                vstd::utf8::decode_utf8(r@),
                                vstd::utf8::decode_utf8(l@),
                            ),
                        )
                    } else {
                        Err(CompareError::InvalidPattern)
                    }
                } else {
                    Err(CompareError::TypeMismatch(type_of_spec(lhs)))
                }
            },
            (LhsValue::Unsigned(l), MatchingOp::BitwiseAnd, RhsValue::Unsigned(r)) => Ok(
                (l & r) != 0,
            ),
            (LhsValue::Bytes(l), MatchingOp::Contains, RhsValue::Bytes(r)) => Ok(
                contains_subseq(l@, r@),
            ),
            _ => Err(CompareError::TypeMismatch(type_of_spec(lhs))),
        },
    }
}

/// Executes one (runtime value, operator, operand) triple.
pub fn exec_op(lhs: &LhsValue, op: ComparisonOp, rhs: &RhsValue) -> (r: Result<
    bool,
    CompareError,
>)
    ensures
        r == compare_spec(*lhs, op, *rhs),
{
    match op {
        ComparisonOp::Ordering(mask) => match value_order(lhs, rhs) {
            OrderResult::Ordered(o) => Ok(mask.contains(o)),
            OrderResult::Mismatch(t) => Err(CompareError::TypeMismatch(t)),
        },
        ComparisonOp::Matching(mop) => match (lhs, mop, rhs) {
            (LhsValue::Bytes(l), MatchingOp::Matches, RhsValue::Bytes(r)) => {
                match (bytes_as_str(l), bytes_as_str(r)) {
                    (Some(ltext), Some(rtext)) => match regex_match_text(rtext, ltext) {
                        Some(m) => Ok(m),
                        None => Err(CompareError::InvalidPattern),
                    },
                    _ => Err(CompareError::TypeMismatch(type_of(lhs))),
                }
            },
            (LhsValue::Unsigned(l), MatchingOp::BitwiseAnd, RhsValue::Unsigned(r)) => Ok(
                (*l & *r) != 0,
            ),
            (LhsValue::Bytes(l), MatchingOp::Contains, RhsValue::Bytes(r)) => Ok(
                bytes_contains(l, r),
            ),
            _ => Err(CompareError::TypeMismatch(type_of(lhs))),
        },
    }
}

/// Whether the value equals the operand, in the sense of the equality
/// operator: inside the range for addresses, byte-for-byte equality for
/// byte sequences, numeric equality for scalars.
pub open spec fn equal_match(lhs: LhsValue, rhs: RhsValue) -> bool {
    value_order_spec(lhs, rhs) == OrderResult::Ordered(Order::Equal)
}

/// Whether comparing the value with the operand is a type mismatch.
pub open spec fn order_mismatch(lhs: LhsValue, rhs: RhsValue) -> bool {
    value_order_spec(lhs, rhs) matches OrderResult::Mismatch(_)
}

/// What the membership test returns: true when at least one candidate
/// equals the value; when none does and at least one candidate's domain
/// mismatches the value's, the mismatch is reported; false otherwise.
pub open spec fn one_of_spec(lhs: LhsValue, candidates: Seq<RhsValue>) -> Result<
    bool,
    CompareError,
> {
    if exists|k: int| 0 <= k < candidates.len() && #[trigger] equal_match(lhs, candidates[k]) {
        Ok(true)
    } else if exists|k: int|
        0 <= k < candidates.len() && #[trigger] order_mismatch(lhs, candidates[k]) {
        Err(CompareError::TypeMismatch(type_of_spec(lhs)))
    } else {
        Ok(false)
    }
}

impl LhsValue {
    /// Whether this value equals the operand under the equality operator:
    /// range membership for addresses, byte-for-byte equality for byte
    /// sequences, numeric equality for scalars; false on any mismatch.
    pub fn equals(&self, rhs: &RhsValue) -> (r: bool)
        ensures
            r == equal_match(*self, *rhs),
    {
        match value_order(self, rhs) {
            OrderResult::Ordered(Order::Equal) => true,
            _ => false,
        }
    }
}

/// An immutable mapping from field path to runtime value, supplied by the
/// caller and only read during evaluation. The first binding for a path
/// shadows later ones.
pub struct ExecutionContext {
    fields: Vec<(String, LhsValue)>,
}

/// The value that an ordered list of bindings gives a path: the first
/// binding whose key equals the path, absent when none does.
pub open spec fn lookup_in(entries: Seq<(String, LhsValue)>, path: Seq<char>) -> Option<LhsValue>
    decreases entries.len(),
{
    if entries.len() == 0 {
        None
    } else if entries[0].0@ == path {
        Some(entries[0].1)
    } else {
        lookup_in(entries.drop_first(), path)
    }
}

/// The capability a compiled expression tree consumes from an
/// environment: looking a field up and executing comparisons and
/// membership tests. `lookup_model` pins what each implementation's
/// lookup answers, so an alternative environment (a test double, another
/// source of fields) can be substituted without touching the evaluation
/// core.
pub trait Context {
    /// What `get_field` answers for each path.
    spec fn lookup_model(&self, path: Seq<char>) -> Option<LhsValue>;

    /// Looks a field path up; an absent path is not an error.
    fn get_field(&self, path: &str) -> (r: Option<&LhsValue>)
        ensures
            match r {
                Some(v) => self.lookup_model(path@) == Some(*v),
                None => self.lookup_model(path@) is None,
            },
    ;

    /// Executes a single comparison against an environment-supplied value.
    fn compare(&self, lhs: &LhsValue, op: ComparisonOp, rhs: &RhsValue) -> (r: Result<
        bool,
        CompareError,
    >)
        ensures
            r == compare_spec(*lhs, op, *rhs),
    ;

    /// Tests whether the value equals at least one of the candidate
    /// operands, comparing each with the equality mask.
    fn one_of(&self, lhs: &LhsValue, candidates: &Vec<RhsValue>) -> (r: Result<
        bool,
        CompareError,
    >)
        ensures
            r == one_of_spec(*lhs, candidates@),
    ;
}

impl ExecutionContext {
    /// The environment's field bindings, in the order they were supplied.
    pub closed spec fn entries(self) -> Seq<(String, LhsValue)> {
        self.fields@
    }

    /// The value the environment binds to a path.
    pub open spec fn lookup_spec(self, path: Seq<char>) -> Option<LhsValue> {
        lookup_in(self.entries(), path)
    }

    /// Builds an environment from the supplied field bindings.
    pub fn new(fields: Vec<(String, LhsValue)>) -> (r: ExecutionContext)
        ensures
            r.entries() == fields@,
    {
        ExecutionContext { fields }
    }
}

impl Context for ExecutionContext {
    /// The lookup of the first binding whose key equals the path.
    open spec fn lookup_model(&self, path: Seq<char>) -> Option<LhsValue> {
        self.lookup_spec(path)
    }

    fn get_field(&self, path: &str) -> (r: Option<&LhsValue>) {
        proof {
            assert(self.fields@.skip(0) =~= self.fields@);
        }
        let mut i: usize = 0;
        while i < self.fields.len()
            invariant
                i <= self.fields@.len(),
                lookup_in(self.fields@.skip(i as int), path@) == lookup_in(self.fields@, path@),
            decreases self.fields@.len() - i,
        {
            proof {
                assert(self.fields@.skip(i as int)[0] == self.fields@[i as int]);
            }
            let pair = &self.fields[i];
            if str_eq(pair.0.as_str(), path) {
                return Some(&pair.1);
            }
            proof {
                assert(self.fields@.skip(i as int).drop_first() =~= self.fields@.skip(
                    i as int + 1,
                ));
            }
            i += 1;
        }
        None
    }

    fn compare(&self, lhs: &LhsValue, op: ComparisonOp, rhs: &RhsValue) -> (r: Result<
        bool,
        CompareError,
    >) {
        exec_op(lhs, op, rhs)
    }

    fn one_of(&self, lhs: &LhsValue, candidates: &Vec<RhsValue>) -> (r: Result<
        bool,
        CompareError,
    >) {
        let mut matched = false;
        let mut mismatched = false;
        let mut idx: usize = 0;
        while idx < candidates.len()
            invariant
                idx <= candidates@.len(),
                matched == exists|k: int|
                    0 <= k < idx && #[trigger] equal_match(*lhs, candidates@[k]),
                mismatched == exists|k: int|
                    0 <= k < idx && #[trigger] order_mismatch(*lhs, candidates@[k]),
            decreases candidates@.len() - idx,
        {
            match self.compare(lhs, ComparisonOp::Ordering(OrderingMask::equal()), &candidates[idx])
            {
                Ok(true) => {
                    proof {
                        assert(equal_match(*lhs, candidates@[idx as int]));
                    }
                    matched = true;
                },
                Ok(false) => {},
                Err(_) => {
                    proof {
                        assert(order_mismatch(*lhs, candidates@[idx as int]));
                    }
                    mismatched = true;
                },
            }
            idx += 1;
        }
        if matched {
            Ok(true)
        } else if mismatched {
            Err(CompareError::TypeMismatch(type_of(lhs)))
        } else {
            Ok(false)
        }
    }
}

impl Default for ExecutionContext {
    /// The empty environment: no field is bound.
    fn default() -> (r: ExecutionContext)
        ensures
            r.entries() == Seq::<(String, LhsValue)>::empty(),
    {
        ExecutionContext { fields: Vec::new() }
    }
}

/// Law: a comparison between values of mismatched domains reports a type
/// mismatch carrying the runtime value's type, under every relational and
/// every matching operator — never any other outcome.
pub proof fn lemma_compare_type_safe(lhs: LhsValue, op: ComparisonOp, rhs: RhsValue)
    requires
        !domains_align(lhs, rhs),
    ensures
        compare_spec(lhs, op, rhs) == Err::<bool, CompareError>(
            CompareError::TypeMismatch(type_of_spec(lhs)),
        ),
{
}

/// Law: evaluation has no hidden state — a field lookup, a comparison and
/// a membership test each return a function of the environment, the value,
/// the operator and the operands alone, so repeated evaluation of the same
/// pair yields identical results. The two results of each operation are
/// anything its contract admits for the same inputs.
pub proof fn lemma_evaluation_repeatable(
    env: ExecutionContext,
    path: Seq<char>,
    lhs: LhsValue,
    op: ComparisonOp,
    rhs: RhsValue,
    candidates: Seq<RhsValue>,
    l1: Option<LhsValue>,
    l2: Option<LhsValue>,
    r1: Result<bool, CompareError>,
    r2: Result<bool, CompareError>,
    m1: Result<bool, CompareError>,
    m2: Result<bool, CompareError>,
)
    requires
        l1 matches Some(v) ==> env.lookup_spec(path) == Some(v),
        l1 is None ==> env.lookup_spec(path) is None,
        l2 matches Some(v) ==> env.lookup_spec(path) == Some(v),
        l2 is None ==> env.lookup_spec(path) is None,
        r1 == compare_spec(lhs, op, rhs),
        r2 == compare_spec(lhs, op, rhs),
        m1 == one_of_spec(lhs, candidates),
        m2 == one_of_spec(lhs, candidates),
    ensures
        l1 == l2,
        r1 == r2,
        m1 == m2,
{
}

} // verus!
