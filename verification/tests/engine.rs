use wirefilter::exec::{CompareError, Context, ExecutionContext, OrderResult};
use wirefilter::op::{CombiningOp, ComparisonOp, Filter, MatchingOp, OrderingMask, UnaryOp};
use wirefilter::order::{range_order, Order};
use wirefilter::value::{IpAddr, IpRange, LhsValue, RhsValue, Type};

fn v4(a: u8, b: u8, c: u8, d: u8) -> u32 {
    ((a as u32) << 24) | ((b as u32) << 16) | ((c as u32) << 8) | (d as u32)
}

fn ctx() -> ExecutionContext {
    ExecutionContext::new(Vec::new())
}

fn eq_op() -> ComparisonOp {
    ComparisonOp::Ordering(OrderingMask::equal())
}

fn greater_op() -> ComparisonOp {
    ComparisonOp::Ordering(OrderingMask { less: false, equal: false, greater: true })
}

#[test]
fn range_order_inside_and_outside() {
    assert_eq!(range_order(5, 0, 255), Order::Equal);
    assert_eq!(range_order(0, 0, 255), Order::Equal);
    assert_eq!(range_order(255, 0, 255), Order::Equal);
    assert_eq!(range_order(256, 0, 255), Order::Greater);
    assert_eq!(range_order(3, 10, 20), Order::Less);
}

#[test]
fn cidr_membership_inside() {
    let lhs = LhsValue::IpAddr(IpAddr::V4(v4(10, 0, 0, 5)));
    let rhs = RhsValue::IpCidr(IpRange::V4 { first: v4(10, 0, 0, 0), last: v4(10, 0, 0, 255) });
    assert_eq!(ctx().compare(&lhs, eq_op(), &rhs), Ok(true));
}

#[test]
fn cidr_membership_above() {
    let lhs = LhsValue::IpAddr(IpAddr::V4(v4(10, 0, 1, 1)));
    let rhs = RhsValue::IpCidr(IpRange::V4 { first: v4(10, 0, 0, 0), last: v4(10, 0, 0, 255) });
    assert_eq!(ctx().compare(&lhs, eq_op(), &rhs), Ok(false));
    assert_eq!(ctx().compare(&lhs, greater_op(), &rhs), Ok(true));
}

#[test]
fn cidr_membership_v6() {
    let lhs = LhsValue::IpAddr(IpAddr::V6(0x2001_0db8_0000_0000_0000_0000_0000_0001));
    let rhs = RhsValue::IpCidr(IpRange::V6 {
        first: 0x2001_0db8_0000_0000_0000_0000_0000_0000,
        last: 0x2001_0db8_0000_0000_ffff_ffff_ffff_ffff,
    });
    assert_eq!(ctx().compare(&lhs, eq_op(), &rhs), Ok(true));
}

#[test]
fn cross_family_address_is_mismatch() {
    let lhs = LhsValue::IpAddr(IpAddr::V4(v4(10, 0, 0, 5)));
    let rhs = RhsValue::IpCidr(IpRange::V6 { first: 0, last: u128::MAX });
    assert_eq!(
        ctx().compare(&lhs, eq_op(), &rhs),
        Err(CompareError::TypeMismatch(Type::IpAddrV4))
    );
}

#[test]
fn mismatched_domains_under_every_operator() {
    let lhs = LhsValue::IpAddr(IpAddr::V6(1));
    let rhs = RhsValue::Unsigned(1);
    let expected = Err(CompareError::TypeMismatch(Type::IpAddrV6));
    assert_eq!(ctx().compare(&lhs, eq_op(), &rhs), expected);
    assert_eq!(ctx().compare(&lhs, greater_op(), &rhs), expected);
    assert_eq!(ctx().compare(&lhs, ComparisonOp::Matching(MatchingOp::Matches), &rhs), expected);
    assert_eq!(
        ctx().compare(&lhs, ComparisonOp::Matching(MatchingOp::BitwiseAnd), &rhs),
        expected
    );
    assert_eq!(ctx().compare(&lhs, ComparisonOp::Matching(MatchingOp::Contains), &rhs), expected);
}

#[test]
fn mismatch_reports_text_tag_for_text_bytes() {
    let lhs = LhsValue::Bytes(b"abc".to_vec());
    let rhs = RhsValue::Unsigned(7);
    assert_eq!(ctx().compare(&lhs, eq_op(), &rhs), Err(CompareError::TypeMismatch(Type::Text)));
}

#[test]
fn mismatch_reports_bytes_tag_for_raw_bytes() {
    let lhs = LhsValue::Bytes(vec![0xff, 0xfe]);
    let rhs = RhsValue::Unsigned(7);
    assert_eq!(ctx().compare(&lhs, eq_op(), &rhs), Err(CompareError::TypeMismatch(Type::Bytes)));
}

#[test]
fn regex_matches_text() {
    let lhs = LhsValue::Bytes(b"abc".to_vec());
    let rhs = RhsValue::Bytes(b"^a".to_vec());
    assert_eq!(ctx().compare(&lhs, ComparisonOp::Matching(MatchingOp::Matches), &rhs), Ok(true));
}

#[test]
fn regex_match_can_fail() {
    let lhs = LhsValue::Bytes(b"abc".to_vec());
    let rhs = RhsValue::Bytes(b"^b".to_vec());
    assert_eq!(ctx().compare(&lhs, ComparisonOp::Matching(MatchingOp::Matches), &rhs), Ok(false));
}

#[test]
fn regex_on_non_text_bytes_is_mismatch() {
    let lhs = LhsValue::Bytes(vec![0xff, 0xfe]);
    let rhs = RhsValue::Bytes(b"^a".to_vec());
    assert_eq!(
        ctx().compare(&lhs, ComparisonOp::Matching(MatchingOp::Matches), &rhs),
        Err(CompareError::TypeMismatch(Type::Bytes))
    );
}

#[test]
fn regex_non_text_pattern_is_mismatch() {
    let lhs = LhsValue::Bytes(b"abc".to_vec());
    let rhs = RhsValue::Bytes(vec![0xff, 0xfe]);
    assert_eq!(
        ctx().compare(&lhs, ComparisonOp::Matching(MatchingOp::Matches), &rhs),
        Err(CompareError::TypeMismatch(Type::Text))
    );
}

#[test]
fn invalid_pattern_is_reported_not_a_crash() {
    let lhs = LhsValue::Bytes(b"abc".to_vec());
    let rhs = RhsValue::Bytes(b"(".to_vec());
    assert_eq!(
        ctx().compare(&lhs, ComparisonOp::Matching(MatchingOp::Matches), &rhs),
        Err(CompareError::InvalidPattern)
    );
}

#[test]
fn bitwise_and_nonzero() {
    let op = ComparisonOp::Matching(MatchingOp::BitwiseAnd);
    assert_eq!(ctx().compare(&LhsValue::Unsigned(6), op, &RhsValue::Unsigned(2)), Ok(true));
    assert_eq!(ctx().compare(&LhsValue::Unsigned(4), op, &RhsValue::Unsigned(2)), Ok(false));
}

#[test]
fn contains_finds_subsequence() {
    let op = ComparisonOp::Matching(MatchingOp::Contains);
    let hay = LhsValue::Bytes(b"hello world".to_vec());
    assert_eq!(ctx().compare(&hay, op, &RhsValue::Bytes(b"wor".to_vec())), Ok(true));
    let hay2 = LhsValue::Bytes(b"hello".to_vec());
    assert_eq!(ctx().compare(&hay2, op, &RhsValue::Bytes(b"xyz".to_vec())), Ok(false));
}

#[test]
fn contains_edge_cases() {
    let op = ComparisonOp::Matching(MatchingOp::Contains);
    let hay = LhsValue::Bytes(b"ab".to_vec());
    assert_eq!(ctx().compare(&hay, op, &RhsValue::Bytes(Vec::new())), Ok(true));
    assert_eq!(ctx().compare(&hay, op, &RhsValue::Bytes(b"abc".to_vec())), Ok(false));
    assert_eq!(ctx().compare(&hay, op, &RhsValue::Bytes(b"ab".to_vec())), Ok(true));
    let raw = LhsValue::Bytes(vec![0x00, 0xff, 0x10]);
    assert_eq!(ctx().compare(&raw, op, &RhsValue::Bytes(vec![0xff, 0x10])), Ok(true));
}

#[test]
fn bytes_order_is_lexicographic() {
    let less_op = ComparisonOp::Ordering(OrderingMask { less: true, equal: false, greater: false });
    let abc = LhsValue::Bytes(b"abc".to_vec());
    assert_eq!(ctx().compare(&abc, less_op, &RhsValue::Bytes(b"abd".to_vec())), Ok(true));
    let ab = LhsValue::Bytes(b"ab".to_vec());
    assert_eq!(ctx().compare(&ab, less_op, &RhsValue::Bytes(b"abc".to_vec())), Ok(true));
    assert_eq!(ctx().compare(&abc, eq_op(), &RhsValue::Bytes(b"abc".to_vec())), Ok(true));
    assert_eq!(ctx().compare(&abc, less_op, &RhsValue::Bytes(b"abb".to_vec())), Ok(false));
}

#[test]
fn unsigned_ordering() {
    let le_op = ComparisonOp::Ordering(OrderingMask { less: true, equal: true, greater: false });
    assert_eq!(ctx().compare(&LhsValue::Unsigned(3), le_op, &RhsValue::Unsigned(5)), Ok(true));
    assert_eq!(ctx().compare(&LhsValue::Unsigned(5), le_op, &RhsValue::Unsigned(5)), Ok(true));
    assert_eq!(ctx().compare(&LhsValue::Unsigned(7), le_op, &RhsValue::Unsigned(5)), Ok(false));
    assert_eq!(ctx().compare(&LhsValue::Unsigned(5), eq_op(), &RhsValue::Unsigned(5)), Ok(true));
}

#[test]
fn one_of_membership() {
    let c = ctx();
    let five = LhsValue::Unsigned(5);
    let hit = vec![
        RhsValue::Unsigned(1),
        RhsValue::Unsigned(2),
        RhsValue::Unsigned(5),
        RhsValue::Unsigned(9),
    ];
    assert_eq!(c.one_of(&five, &hit), Ok(true));
    let miss = vec![RhsValue::Unsigned(1), RhsValue::Unsigned(2), RhsValue::Unsigned(9)];
    assert_eq!(c.one_of(&five, &miss), Ok(false));
}

#[test]
fn one_of_all_mismatched_propagates_mismatch() {
    let c = ctx();
    let addr = LhsValue::IpAddr(IpAddr::V4(v4(127, 0, 0, 1)));
    let candidates = vec![RhsValue::Unsigned(1), RhsValue::Unsigned(2)];
    assert_eq!(c.one_of(&addr, &candidates), Err(CompareError::TypeMismatch(Type::IpAddrV4)));
}

#[test]
fn one_of_match_wins_over_mismatch() {
    let c = ctx();
    let five = LhsValue::Unsigned(5);
    let candidates = vec![
        RhsValue::Bytes(b"5".to_vec()),
        RhsValue::Unsigned(5),
    ];
    assert_eq!(c.one_of(&five, &candidates), Ok(true));
}

#[test]
fn one_of_empty_list_is_false() {
    let c = ctx();
    assert_eq!(c.one_of(&LhsValue::Unsigned(5), &Vec::new()), Ok(false));
}

#[test]
fn one_of_over_address_ranges() {
    let c = ctx();
    let addr = LhsValue::IpAddr(IpAddr::V4(v4(192, 168, 1, 7)));
    let candidates = vec![
        RhsValue::IpCidr(IpRange::V4 { first: v4(10, 0, 0, 0), last: v4(10, 255, 255, 255) }),
        RhsValue::IpCidr(IpRange::V4 { first: v4(192, 168, 0, 0), last: v4(192, 168, 255, 255) }),
    ];
    assert_eq!(c.one_of(&addr, &candidates), Ok(true));
}

#[test]
fn v6_address_against_v4_range_is_mismatch() {
    let lhs = LhsValue::IpAddr(IpAddr::V6(1));
    let rhs = RhsValue::IpCidr(IpRange::V4 { first: 0, last: u32::MAX });
    assert_eq!(
        ctx().compare(&lhs, eq_op(), &rhs),
        Err(CompareError::TypeMismatch(Type::IpAddrV6))
    );
}

#[test]
fn not_equal_mask_inverts_membership() {
    let ne_op = ComparisonOp::Ordering(OrderingMask { less: true, equal: false, greater: true });
    let inside = LhsValue::IpAddr(IpAddr::V4(v4(10, 0, 0, 5)));
    let below = LhsValue::IpAddr(IpAddr::V4(v4(9, 255, 255, 255)));
    let rhs = RhsValue::IpCidr(IpRange::V4 { first: v4(10, 0, 0, 0), last: v4(10, 0, 0, 255) });
    assert_eq!(ctx().compare(&inside, ne_op, &rhs), Ok(false));
    assert_eq!(ctx().compare(&below, ne_op, &rhs), Ok(true));
}

#[test]
fn range_order_at_extreme_bounds() {
    assert_eq!(range_order(u128::MAX, 0, u128::MAX), Order::Equal);
    assert_eq!(range_order(0, u128::MAX, u128::MAX), Order::Less);
    assert_eq!(range_order(u128::MAX, 0, 0), Order::Greater);
    assert_eq!(range_order(7, 7, 7), Order::Equal);
}

#[test]
fn combinator_truth_tables() {
    let pairs = [(false, false), (false, true), (true, false), (true, true)];
    for (a, b) in pairs {
        assert_eq!(a.combine(CombiningOp::And, b), a && b);
        assert_eq!(a.combine(CombiningOp::Or, b), a || b);
        assert_eq!(a.combine(CombiningOp::Xor, b), a != b);
    }
    assert_eq!(true.unary(UnaryOp::Not), false);
    assert_eq!(false.unary(UnaryOp::Not), true);
}

#[test]
fn get_field_finds_bound_values() {
    let env = ExecutionContext::new(vec![
        ("http.host".to_string(), LhsValue::Bytes(b"example.com".to_vec())),
        ("tcp.port".to_string(), LhsValue::Unsigned(443)),
    ]);
    match env.get_field("tcp.port") {
        Some(LhsValue::Unsigned(n)) => assert_eq!(*n, 443),
        _ => panic!("tcp.port should be bound to an unsigned value"),
    }
    match env.get_field("http.host") {
        Some(LhsValue::Bytes(b)) => assert_eq!(b.as_slice(), b"example.com"),
        _ => panic!("http.host should be bound to bytes"),
    }
    assert!(env.get_field("udp.port").is_none());
}

#[test]
fn get_field_first_binding_shadows_later_ones() {
    let env = ExecutionContext::new(vec![
        ("k".to_string(), LhsValue::Unsigned(1)),
        ("k".to_string(), LhsValue::Unsigned(2)),
    ]);
    match env.get_field("k") {
        Some(LhsValue::Unsigned(n)) => assert_eq!(*n, 1),
        _ => panic!("k should be bound"),
    }
}

#[test]
fn empty_environment_has_no_fields() {
    let env = ExecutionContext::default();
    assert!(env.get_field("anything").is_none());
}

#[test]
fn repeated_evaluation_is_identical() {
    let c = ctx();
    let lhs = LhsValue::Bytes(b"abc".to_vec());
    let rhs = RhsValue::Bytes(b"^a".to_vec());
    let op = ComparisonOp::Matching(MatchingOp::Matches);
    let first = c.compare(&lhs, op, &rhs);
    let second = c.compare(&lhs, op, &rhs);
    assert_eq!(first, second);
    let candidates = vec![RhsValue::Bytes(b"abc".to_vec())];
    assert_eq!(c.one_of(&lhs, &candidates), c.one_of(&lhs, &candidates));
}

#[test]
fn value_order_reports_mismatch_with_tag() {
    let lhs = LhsValue::Unsigned(3);
    let rhs = RhsValue::Bytes(b"3".to_vec());
    assert_eq!(
        wirefilter::exec::value_order(&lhs, &rhs),
        OrderResult::Mismatch(Type::Unsigned)
    );
    assert_eq!(
        wirefilter::exec::value_order(&LhsValue::Unsigned(3), &RhsValue::Unsigned(3)),
        OrderResult::Ordered(Order::Equal)
    );
}

#[test]
fn equals_follows_equality_semantics() {
    let addr = LhsValue::IpAddr(IpAddr::V4(v4(10, 0, 0, 5)));
    let range = RhsValue::IpCidr(IpRange::V4 { first: v4(10, 0, 0, 0), last: v4(10, 0, 0, 255) });
    assert!(addr.equals(&range));
    assert!(!LhsValue::Unsigned(4).equals(&RhsValue::Unsigned(5)));
    assert!(!LhsValue::Unsigned(4).equals(&RhsValue::Bytes(b"4".to_vec())));
}
