use ray_tracing::aabb::AABB;
use ray_tracing::scalar::Scalar;
use ray_tracing::serialization::encode::{encode_index, encode_scalar, encode_vector};
use ray_tracing::serialization::decimal::{
    index_text, parse_index, parse_scalar, scalar_text,
};
use ray_tracing::trig::{cosine, sine};
use ray_tracing::vector::Vector3;

fn raw(r: i64) -> Scalar {
    Scalar::from_raw(r)
}

fn vector(x: i64, y: i64, z: i64) -> Vector3 {
    Vector3::new(raw(x), raw(y), raw(z))
}

fn boxed(a: (i64, i64, i64), b: (i64, i64, i64)) -> AABB {
    AABB::new(vector(a.0, a.1, a.2), vector(b.0, b.1, b.2))
}

#[test]
fn scalar_arithmetic_rounds_down_and_saturates() {
    assert_eq!(raw(1_500_000).times(raw(2_500_000)), raw(3_750_000));
    assert_eq!(raw(-1).times(raw(1)), raw(-1));
    assert_eq!(raw(1).times(raw(1)), raw(0));
    assert_eq!(raw(i64::MAX).times(raw(2_000_000)), raw(i64::MAX));
    assert_eq!(raw(i64::MIN).times(raw(2_000_000)), raw(i64::MIN));
    assert_eq!(raw(i64::MAX).plus(raw(1)), raw(i64::MAX));
    assert_eq!(raw(i64::MIN).minus(raw(1)), raw(i64::MIN));
    assert_eq!(raw(i64::MIN).negated(), raw(i64::MAX));
    assert_eq!(raw(7_000_000).divided_by(raw(2_000_000)), raw(3_500_000));
    assert_eq!(raw(-1_000_000).divided_by(raw(3_000_000)), raw(-333_334));
    assert_eq!(raw(1_000_000).divided_by(raw(-3_000_000)), raw(-333_334));
    assert_eq!(raw(5).divided_by(raw(0)), raw(i64::MAX));
    assert_eq!(raw(-5).divided_by(raw(0)), raw(i64::MIN));
    assert_eq!(raw(0).divided_by(raw(0)), raw(0));
    assert_eq!(Scalar::from_units(3), raw(3_000_000));
    assert_eq!(Scalar::from_units(i64::MAX), raw(i64::MAX));
    assert_eq!(Scalar::mul_add(raw(2_000_000), raw(3_000_000), raw(500_000), raw(4_000_000)), raw(8_000_000));
    assert_eq!(Scalar::mul_sub(raw(2_000_000), raw(3_000_000), raw(500_000), raw(4_000_000)), raw(4_000_000));
    assert_eq!(
        Scalar::mul_add(raw(i64::MIN), raw(i64::MIN), raw(i64::MIN), raw(i64::MIN)),
        raw(i64::MAX)
    );
}

#[test]
fn square_root_rounds_down() {
    assert_eq!(raw(4_000_000).sqrt(), raw(2_000_000));
    assert_eq!(raw(2_000_000).sqrt(), raw(1_414_213));
    assert_eq!(raw(1).sqrt(), raw(1_000));
    assert_eq!(raw(0).sqrt(), raw(0));
    assert_eq!(raw(-4_000_000).sqrt(), raw(0));
    assert_eq!(raw(i64::MAX).sqrt(), raw(3_037_000_499_976));
}

#[test]
fn sine_and_cosine_at_known_angles() {
    assert_eq!((sine(raw(0)), cosine(raw(0))), (raw(0), raw(1_000_000)));
    assert_eq!((sine(raw(523_599)), cosine(raw(523_599))), (raw(500_000), raw(866_026)));
    assert_eq!((sine(raw(785_398)), cosine(raw(785_398))), (raw(707_107), raw(707_107)));
    assert_eq!((sine(raw(1_570_796)), cosine(raw(1_570_796))), (raw(1_000_000), raw(0)));
    assert_eq!((sine(raw(3_141_593)), cosine(raw(3_141_593))), (raw(0), raw(-1_000_000)));
    assert_eq!((sine(raw(-523_599)), cosine(raw(-523_599))), (raw(-500_000), raw(866_026)));
    assert_eq!((sine(raw(2_094_395)), cosine(raw(2_094_395))), (raw(866_026), raw(-500_000)));
    assert_eq!((sine(raw(4_712_389)), cosine(raw(4_712_389))), (raw(-1_000_000), raw(0)));
    assert_eq!((sine(raw(1_000_000)), cosine(raw(1_000_000))), (raw(841_471), raw(540_302)));
    for angle in [i64::MIN, -7_000_000, 9_999_999, i64::MAX] {
        let (s, c) = (sine(raw(angle)), cosine(raw(angle)));
        assert!(s.raw.abs() <= 1_000_000 && c.raw.abs() <= 1_000_000);
        let unit = s.raw * s.raw + c.raw * c.raw;
        assert!((unit - 1_000_000_000_000).abs() < 10_000_000, "{} {:?} {:?}", angle, s, c);
    }
}

#[test]
fn decimals_are_read() {
    assert_eq!(parse_scalar("0.5"), Some(raw(500_000)));
    assert_eq!(parse_scalar("-100.5"), Some(raw(-100_500_000)));
    assert_eq!(parse_scalar("7"), Some(raw(7_000_000)));
    assert_eq!(parse_scalar("0"), Some(raw(0)));
    assert_eq!(parse_scalar("-0.0"), Some(raw(0)));
    assert_eq!(parse_scalar("1e2"), Some(raw(100_000_000)));
    assert_eq!(parse_scalar("1.5E-3"), Some(raw(1_500)));
    assert_eq!(parse_scalar("12.5e+1"), Some(raw(125_000_000)));
    assert_eq!(parse_scalar("0.0000019"), Some(raw(1)));
    assert_eq!(parse_scalar("-0.0000019"), Some(raw(-1)));
    assert_eq!(parse_scalar("0.0000001"), Some(raw(0)));
    assert_eq!(parse_scalar("123456789012345678901234567890.5e-25"), Some(raw(12_345_678_901)));
    assert_eq!(parse_scalar("9223372036854.775807"), Some(raw(i64::MAX)));
    assert_eq!(parse_scalar("9223372036854.775808"), Some(raw(i64::MAX)));
    assert_eq!(parse_scalar("-9223372036854.775808"), Some(raw(i64::MIN)));
    assert_eq!(parse_scalar("-9223372036854.775809"), Some(raw(i64::MIN)));
    assert_eq!(parse_scalar("1e99999999999999999999999"), Some(raw(i64::MAX)));
    assert_eq!(parse_scalar("0e99999999999999999999999"), Some(raw(0)));
    assert_eq!(parse_scalar("5e-99999999999999999999999"), Some(raw(0)));
    for text in ["", "-", ".5", "1.", "1e", "1e+", "1x", "+1", "1.5.2", " 1", "0x10", "e5"] {
        assert_eq!(parse_scalar(text), None, "{:?}", text);
    }
}

#[test]
fn decimals_are_written_and_read_back() {
    assert_eq!(scalar_text(raw(500_000)), "0.500000");
    assert_eq!(scalar_text(raw(-100_500_000)), "-100.500000");
    assert_eq!(scalar_text(raw(0)), "0.000000");
    assert_eq!(scalar_text(raw(-1)), "-0.000001");
    assert_eq!(scalar_text(raw(i64::MAX)), "9223372036854.775807");
    assert_eq!(scalar_text(raw(i64::MIN)), "-9223372036854.775808");
    for r in [0, 1, -1, 999_999, 1_000_000, -123_456_789, i64::MAX, i64::MIN] {
        assert_eq!(parse_scalar(&scalar_text(raw(r))), Some(raw(r)));
    }
}

#[test]
fn identifiers_are_read_and_written() {
    assert_eq!(parse_index("0"), Some(0));
    assert_eq!(parse_index("14"), Some(14));
    assert_eq!(parse_index("007"), Some(7));
    assert_eq!(parse_index("18446744073709551615"), Some(usize::MAX));
    assert_eq!(parse_index("18446744073709551616"), None);
    assert_eq!(parse_index(""), None);
    assert_eq!(parse_index("-1"), None);
    assert_eq!(parse_index("1.0"), None);
    assert_eq!(index_text(0), "0");
    assert_eq!(index_text(1_234_567_890), "1234567890");
    assert_eq!(parse_index(&index_text(usize::MAX)), Some(usize::MAX));
}

#[test]
fn vectors_add_scale_and_multiply() {
    let a = vector(1_000_000, -2_000_000, 3_000_000);
    let b = vector(500_000, 500_000, -500_000);
    assert_eq!(a.plus(b), vector(1_500_000, -1_500_000, 2_500_000));
    assert_eq!(a.minus(b), vector(500_000, -2_500_000, 3_500_000));
    assert_eq!(a.negated(), vector(-1_000_000, 2_000_000, -3_000_000));
    assert_eq!(a.scaled(raw(2_000_000)), vector(2_000_000, -4_000_000, 6_000_000));
    assert_eq!(a.divided_by(raw(2_000_000)), vector(500_000, -1_000_000, 1_500_000));
    assert_eq!(a.dot(b), raw(-2_000_000));
    assert_eq!(a.min(b), vector(500_000, -2_000_000, -500_000));
    assert_eq!(a.max(b), vector(1_000_000, 500_000, 3_000_000));
}

#[test]
fn merge_is_idempotent_commutative_and_associative() {
    let a = boxed((0, 0, 0), (1, 1, 1));
    let b = boxed((-2, 0, 5), (0, 3, 6));
    let c = boxed((7, -7, 0), (8, -6, 0));
    assert_eq!(a.merge(b), boxed((-2, 0, 0), (1, 3, 6)));
    assert_eq!(a.merge(a.merge(b)), a.merge(b));
    assert_eq!(a.merge(a), a);
    assert_eq!(a.merge(b), b.merge(a));
    assert_eq!(a.merge(b).merge(c), a.merge(b.merge(c)));
    assert_eq!(AABB::merge_optional(Some(a), None), Some(a));
    assert_eq!(AABB::merge_optional(None, Some(b)), Some(b));
    assert_eq!(AABB::merge_optional(None, None), None);
    assert_eq!(AABB::merge_optional(Some(a), Some(b)), Some(a.merge(b)));
    assert_eq!(
        AABB::merge_optional(AABB::merge_optional(Some(a), None), Some(c)),
        AABB::merge_optional(Some(a), AABB::merge_optional(None, Some(c)))
    );
}

#[test]
fn box_is_stretched_to_a_point() {
    let a = boxed((0, 0, 0), (1, 1, 1));
    assert_eq!(a.or_vector(vector(5, -5, 0)), boxed((0, -5, 0), (5, 1, 1)));
    assert_eq!(a.or_vector(vector(1, 0, 1)), a);
    assert_eq!(
        AABB::between(vector(3, 0, 9), vector(1, 2, 4)),
        boxed((1, 0, 4), (3, 2, 9))
    );
}

#[test]
fn numbers_are_always_taken_for_values() {
    for n in [0, 7, 10, 1_000_000, usize::MAX] {
        assert_eq!(encode_index(n).unwrap().to_string(), n.to_string());
    }
    for (r, text) in [
        (0, "0.000000"),
        (-1, "-0.000001"),
        (500_000, "0.500000"),
        (-100_500_000, "-100.500000"),
        (i64::MAX, "9223372036854.775807"),
        (i64::MIN, "-9223372036854.775808"),
    ] {
        assert_eq!(encode_scalar(raw(r)).unwrap().to_string(), text);
    }
    assert_eq!(
        encode_vector(vector(1_000_000, -2, 0)).unwrap().to_string(),
        "[1.000000,-0.000002,0.000000]"
    );
}
