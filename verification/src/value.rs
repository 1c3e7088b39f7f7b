//! The value model: runtime field values, rule operands, and the type tag
//! that a failed comparison reports.

use vstd::prelude::*;
use crate::text::bytes_as_str;

verus! {

/// A host network address, v4 or v6, as its numeric value.
#[derive(Clone, Copy, Debug, PartialEq, Eq, Structural)]
pub enum IpAddr {
    V4(u32),
    V6(u128),
}

/// A contiguous block of network addresses, held by its inclusive first
/// and last address.
#[derive(Clone, Copy, Debug, PartialEq, Eq, Structural)]
pub enum IpRange {
    V4 { first: u32, last: u32 },
    V6 { first: u128, last: u128 },
}

/// A field's runtime value: what one side of every comparison is.
#[derive(Clone, Debug)]
pub enum LhsValue {
    IpAddr(IpAddr),
    Bytes(Vec<u8>),
    Unsigned(u64),
}

/// A rule's literal or range operand: what a runtime value is compared
/// against.
#[derive(Clone, Debug)]
pub enum RhsValue {
    IpCidr(IpRange),
    Bytes(Vec<u8>),
    Unsigned(u64),
}

/// The type of a runtime value, reported when a comparison fails on a
/// domain mismatch; never used for dispatch. A byte sequence that is
/// valid UTF-8 is reported as `Text`, any other as `Bytes`.
#[derive(Clone, Copy, Debug, PartialEq, Eq, Structural)]
pub enum Type {
    IpAddrV4,
    IpAddrV6,
    Text,
    Bytes,
    Unsigned,
}

/// The type tag of a runtime value.
pub open spec fn type_of_spec(lhs: LhsValue) -> Type {
    match lhs {
        LhsValue::IpAddr(IpAddr::V4(_)) => Type::IpAddrV4,
        LhsValue::IpAddr(IpAddr::V6(_)) => Type::IpAddrV6,
        LhsValue::Bytes(b) => if vstd::utf8::valid_utf8(b@) {
            Type::Text
        } else {
            Type::Bytes
        },
        LhsValue::Unsigned(_) => Type::Unsigned,
    }
}

/// Reports the type of a runtime value, for diagnostics.
pub fn type_of(lhs: &LhsValue) -> (r: Type)
    ensures
        r == type_of_spec(*lhs),
{
    match lhs {
        LhsValue::IpAddr(IpAddr::V4(_)) => Type::IpAddrV4,
        LhsValue::IpAddr(IpAddr::V6(_)) => Type::IpAddrV6,
        LhsValue::Bytes(b) => if bytes_as_str(b).is_some() {
            Type::Text
        } else {
            Type::Bytes
        },
        LhsValue::Unsigned(_) => Type::Unsigned,
    }
}

/// Whether a runtime value and an operand belong to the same domain:
/// v4 address with v4 range, v6 address with v6 range, bytes with bytes,
/// unsigned with unsigned. Only same-domain pairs have an ordering; every
/// other pair is a type mismatch under every operator.
pub open spec fn domains_align(lhs: LhsValue, rhs: RhsValue) -> bool {
    match (lhs, rhs) {
        (LhsValue::IpAddr(IpAddr::V4(_)), RhsValue::IpCidr(IpRange::V4 { .. })) => true,
        (LhsValue::IpAddr(IpAddr::V6(_)), RhsValue::IpCidr(IpRange::V6 { .. })) => true,
        (LhsValue::Bytes(_), RhsValue::Bytes(_)) => true,
        (LhsValue::Unsigned(_), RhsValue::Unsigned(_)) => true,
        _ => false,
    }
}

} // verus!
