use synthahol_babylon::number::{decimal, floor_capped, negative_decimal, power_of_ten};
use synthahol_babylon::{Number, Param};

fn finite(negative: bool, coefficient: u128, exponent: i32) -> Option<Number> {
    Some(Number::Finite { negative, coefficient, exponent })
}

fn value(text: &str) -> Param {
    Param { id: "Any".to_owned(), value: Some(text.to_owned()) }
}

#[test]
fn parses_plain_decimals() {
    assert_eq!(Number::parse("0"), finite(false, 0, 0));
    assert_eq!(Number::parse("8"), finite(false, 8, 0));
    assert_eq!(Number::parse("1.5"), finite(false, 15, -1));
    assert_eq!(Number::parse("0.07"), finite(false, 7, -2));
    assert_eq!(Number::parse("150.0"), finite(false, 1500, -1));
    assert_eq!(Number::parse("-12.25"), finite(true, 1225, -2));
    assert_eq!(Number::parse("+3"), finite(false, 3, 0));
    assert_eq!(Number::parse("-0"), finite(true, 0, 0));
    assert_eq!(Number::parse("007"), finite(false, 7, 0));
    assert_eq!(Number::parse("0.07000000029802322"), finite(false, 7000000029802322, -17));
}

#[test]
fn parses_a_point_at_either_end() {
    assert_eq!(Number::parse("5."), finite(false, 5, 0));
    assert_eq!(Number::parse(".5"), finite(false, 5, -1));
    assert_eq!(Number::parse("-.25"), finite(true, 25, -2));
    assert_eq!(Number::parse("."), None);
    assert_eq!(Number::parse("-."), None);
    assert_eq!(Number::parse("+"), None);
}

#[test]
fn parses_exponents() {
    assert_eq!(Number::parse("1e3"), finite(false, 1, 3));
    assert_eq!(Number::parse("1E3"), finite(false, 1, 3));
    assert_eq!(Number::parse("2.5e-3"), finite(false, 25, -4));
    assert_eq!(Number::parse("2.5E+3"), finite(false, 25, 2));
    assert_eq!(Number::parse(".5e1"), finite(false, 5, 0));
    assert_eq!(Number::parse("5.e1"), finite(false, 5, 1));
    assert_eq!(Number::parse("1e"), None);
    assert_eq!(Number::parse("1e+"), None);
    assert_eq!(Number::parse("e5"), None);
    assert_eq!(Number::parse("1e5.0"), None);
    assert_eq!(Number::parse("1e5e5"), None);
}

#[test]
fn holds_huge_exponents_at_the_bounds() {
    assert_eq!(Number::parse("1e2147483647"), finite(false, 1, i32::MAX));
    assert_eq!(Number::parse("1e2147483648"), finite(false, 1, i32::MAX));
    assert_eq!(Number::parse("1e99999999999999999999999999999999"), finite(false, 1, i32::MAX));
    assert_eq!(Number::parse("1e-99999999999999999999999999999999"), finite(false, 1, i32::MIN));
    assert_eq!(Number::parse("0.5e-2147483648"), finite(false, 5, i32::MIN));
    assert_eq!(Number::parse("10e2147483647"), finite(false, 10, i32::MAX));
}

#[test]
fn keeps_thirty_eight_digits() {
    let digits = "12345678901234567890123456789012345678";
    assert_eq!(
        Number::parse(digits),
        finite(false, 12345678901234567890123456789012345678, 0)
    );
    let longer = "123456789012345678901234567890123456789";
    assert_eq!(
        Number::parse(longer),
        finite(false, 12345678901234567890123456789012345678, 1)
    );
    let fraction = "1.23456789012345678901234567890123456789999";
    assert_eq!(
        Number::parse(fraction),
        finite(false, 12345678901234567890123456789012345678, -37)
    );
    let padded = "0000000000000000000000000000000000000000000000000012.5";
    assert_eq!(Number::parse(padded), finite(false, 125, -1));
    let tiny = "0.00000000000000000000000000000000000000000000000001";
    assert_eq!(Number::parse(tiny), finite(false, 1, -50));
}

#[test]
fn parses_the_special_words() {
    assert_eq!(Number::parse("inf"), Some(Number::Infinite { negative: false }));
    assert_eq!(Number::parse("-inf"), Some(Number::Infinite { negative: true }));
    assert_eq!(Number::parse("+Infinity"), Some(Number::Infinite { negative: false }));
    assert_eq!(Number::parse("INF"), Some(Number::Infinite { negative: false }));
    assert_eq!(Number::parse("-iNfInItY"), Some(Number::Infinite { negative: true }));
    assert_eq!(Number::parse("nan"), Some(Number::NotANumber));
    assert_eq!(Number::parse("NaN"), Some(Number::NotANumber));
    assert_eq!(Number::parse("-nan"), Some(Number::NotANumber));
    assert_eq!(Number::parse("infinit"), None);
    assert_eq!(Number::parse("infinityy"), None);
    assert_eq!(Number::parse("na"), None);
    assert_eq!(Number::parse("in"), None);
    assert_eq!(Number::parse("nanx"), None);
}

#[test]
fn rejects_what_is_not_a_number() {
    for text in [
        "", " ", " 1", "1 ", "1,5", "0x10", "1_000", "--1", "+-1", "1..2", "1.2.3", "abc", "1f",
        "٣", "1.5\n", "true", "½", "1e1e", "-", "e", "１",
    ] {
        assert_eq!(Number::parse(text), None, "{:?}", text);
    }
}

#[test]
fn boolean_coercion() {
    assert_eq!(value("1.0000001").value_bool(), Some(true));
    assert_eq!(value("0.5").value_bool(), Some(false));
    assert_eq!(Param { id: "Any".to_owned(), value: None }.value_bool(), None);
    assert_eq!(value("on").value_bool(), None);
}

#[test]
fn switch_is_on_within_a_ten_millionth_of_one() {
    for text in [
        "1", "1.0", "1.00000000", "0.9999999", "1.0000001", "1.00000005", "100e-2", "0.1e1", "+1",
        "0.99999995",
    ] {
        assert_eq!(Number::parse(text).unwrap().is_one(), true, "{}", text);
    }
    for text in [
        "0", "0.0", "2", "10", "0.9", "-1", "-1.0", "0.99999989", "1.00000011", "1.0000002",
        "0.9999998", "1e1", "1e-1", "inf", "-inf", "nan", "1e40", "1e-40", "0.5", "-0",
        "1.00000010000000000000000000001", "11e-1",
    ] {
        assert_eq!(Number::parse(text).unwrap().is_one(), false, "{}", text);
    }
    assert!(Number::Finite { negative: false, coefficient: 1, exponent: 0 }.is_one());
    assert!(!Number::Finite { negative: false, coefficient: 1, exponent: 1 }.is_one());
    assert!(!Number::Finite { negative: false, coefficient: 1, exponent: i32::MIN }.is_one());
    assert!(!Number::Finite { negative: false, coefficient: u128::MAX, exponent: -39 }.is_one());
    assert!(Number::Finite {
        negative: false,
        coefficient: 100_000_000_000_000_000_000_000_000_000_000_000_000,
        exponent: -38
    }
    .is_one());
}

#[test]
fn unsigned_conversion_cuts_off_and_saturates() {
    assert_eq!(value("8.0").value_u32(), Some(8));
    assert_eq!(value("8.99").value_u32(), Some(8));
    assert_eq!(value("0.99").value_u32(), Some(0));
    assert_eq!(value("-0.5").value_u32(), Some(0));
    assert_eq!(value("-3").value_u32(), Some(0));
    assert_eq!(value("4294967295").value_u32(), Some(u32::MAX));
    assert_eq!(value("4294967295.9").value_u32(), Some(u32::MAX));
    assert_eq!(value("4294967296").value_u32(), Some(u32::MAX));
    assert_eq!(value("1e30").value_u32(), Some(u32::MAX));
    assert_eq!(value("1e2147483647").value_u32(), Some(u32::MAX));
    assert_eq!(value("1e-2147483648").value_u32(), Some(0));
    assert_eq!(value("123456e-3").value_u32(), Some(123));
    assert_eq!(value("0e99").value_u32(), Some(0));
    assert_eq!(value("inf").value_u32(), Some(u32::MAX));
    assert_eq!(value("-inf").value_u32(), Some(0));
    assert_eq!(value("nan").value_u32(), Some(0));
    assert_eq!(value("eight").value_u32(), None);
    assert_eq!(Param { id: "Any".to_owned(), value: None }.value_u32(), None);
}

#[test]
fn signed_conversion_cuts_off_and_saturates() {
    assert_eq!(value("-12.9").value_i32(), Some(-12));
    assert_eq!(value("12.9").value_i32(), Some(12));
    assert_eq!(value("-0.9").value_i32(), Some(0));
    assert_eq!(value("2147483647").value_i32(), Some(i32::MAX));
    assert_eq!(value("2147483648").value_i32(), Some(i32::MAX));
    assert_eq!(value("-2147483647.5").value_i32(), Some(-2147483647));
    assert_eq!(value("-2147483648").value_i32(), Some(i32::MIN));
    assert_eq!(value("-2147483649").value_i32(), Some(i32::MIN));
    assert_eq!(value("-1e300").value_i32(), Some(i32::MIN));
    assert_eq!(value("1e300").value_i32(), Some(i32::MAX));
    assert_eq!(value("inf").value_i32(), Some(i32::MAX));
    assert_eq!(value("-inf").value_i32(), Some(i32::MIN));
    assert_eq!(value("nan").value_i32(), Some(0));
    assert_eq!(value("").value_i32(), None);
}

#[test]
fn value_into_gives_the_number() {
    assert_eq!(value("0.35").value_into(), Some(decimal(35, 2)));
    assert_eq!(value("-1.5").value_into(), Some(negative_decimal(15, 1)));
    assert_eq!(value("x").value_into(), None);
    assert_eq!(Param { id: "Any".to_owned(), value: None }.value_into(), None);
}

#[test]
fn thousandths_round_to_nearest() {
    let cases = [
        ("0", 0),
        ("0.0004", 0),
        ("0.0005", 1),
        ("0.667", 667),
        ("0.6669999957084656", 667),
        ("0.6665", 667),
        ("0.66649999", 666),
        ("1", 1000),
        ("4294967.295", 4294967295),
        ("4294967.2954", 4294967295),
        ("4294967.2955", 4294967295),
        ("1e30", 4294967295),
        ("-0.6", 0),
        ("inf", 4294967295),
        ("-inf", 0),
        ("nan", 0),
    ];
    for (text, expected) in cases {
        assert_eq!(Number::parse(text).unwrap().thousandths(), expected, "{}", text);
    }
}

#[test]
fn times_hundred_raises_the_exponent() {
    assert_eq!(
        decimal(1, 0).times_hundred(),
        Number::Finite { negative: false, coefficient: 1, exponent: 2 },
    );
    assert_eq!(decimal(4375, 4).times_hundred(), decimal(4375, 2));
    assert_eq!(
        negative_decimal(5, 1).times_hundred(),
        Number::Finite { negative: true, coefficient: 5, exponent: 1 },
    );
    let top = Number::Finite { negative: false, coefficient: 1, exponent: i32::MAX - 1 };
    assert_eq!(
        top.times_hundred(),
        Number::Finite { negative: false, coefficient: 1, exponent: i32::MAX },
    );
    assert_eq!(Number::NotANumber.times_hundred(), Number::NotANumber);
    assert_eq!(
        Number::Infinite { negative: true }.times_hundred(),
        Number::Infinite { negative: true }
    );
}

#[test]
fn decimal_counts_places_after_the_point() {
    assert_eq!(decimal(294, 3), Number::Finite { negative: false, coefficient: 294, exponent: -3 });
    assert_eq!(decimal(8, 0), Number::Finite { negative: false, coefficient: 8, exponent: 0 });
    assert_eq!(
        negative_decimal(1010, 0),
        Number::Finite { negative: true, coefficient: 1010, exponent: 0 },
    );
    assert_eq!(decimal(294, 3).to_u32(), 0);
    assert_eq!(decimal(2940, 1).to_u32(), 294);
    assert_eq!(negative_decimal(2940, 1).to_i32(), -294);
}

#[test]
fn floor_is_capped() {
    assert_eq!(floor_capped(15, -1, 100), 1);
    assert_eq!(floor_capped(15, 0, 100), 15);
    assert_eq!(floor_capped(15, 1, 100), 100);
    assert_eq!(floor_capped(15, 1, 150), 150);
    assert_eq!(floor_capped(15, 1, 151), 150);
    assert_eq!(floor_capped(0, 1_000_000, 7), 0);
    assert_eq!(floor_capped(7, -1_000_000, 7), 0);
    assert_eq!(floor_capped(u128::MAX, -38, 10), 3);
    assert_eq!(floor_capped(u128::MAX, 0, 10), 10);
    assert_eq!(power_of_ten(0), 1);
    assert_eq!(power_of_ten(7), 10_000_000);
    assert_eq!(power_of_ten(38), 100_000_000_000_000_000_000_000_000_000_000_000_000);
}
