use real_estate_tracker::decimal::{Decimal, Number};

#[test]
fn parse_reads_sign_whole_and_fraction() {
    let d = Decimal::parse("-12.050").expect("decimal shape");
    assert!(d.negative);
    assert_eq!(d.whole, vec![1, 2]);
    assert_eq!(d.fraction, vec![0, 5, 0]);
    assert_eq!(d.render(), "-12.050");
    let whole = Decimal::parse("250000").expect("decimal shape");
    assert_eq!(whole, Decimal { negative: false, whole: vec![2, 5, 0, 0, 0, 0], fraction: vec![] });
}

#[test]
fn parse_refuses_what_is_not_a_plain_decimal() {
    for text in ["", "-", ".", ".5", "5.", "1.2.3", "1e5", "+1", " 1", "1 ", "--1", "1-", "NaN", "inf", "1,000", "\u{0663}"] {
        assert_eq!(Decimal::parse(text), None, "{:?}", text);
    }
}

#[test]
fn render_gives_back_the_text_that_was_parsed() {
    for text in ["0", "-0", "7", "0.5", "100", "0.1", "12345678901234567890123.000001", "-3.25"] {
        assert_eq!(Decimal::parse(text).expect("decimal shape").render(), text);
    }
}

#[test]
fn floats_keep_their_plain_text() {
    for value in [250000.0_f64, 0.1 + 0.2, 1e21, 5e-324, 1.5, -0.0, 100.0, 1850.5] {
        let text = value.to_string();
        assert_eq!(Decimal::parse(&text).expect("finite").render(), text);
    }
    assert_eq!(Decimal::parse(&f64::NAN.to_string()), None);
    assert_eq!(Decimal::parse(&f64::INFINITY.to_string()), None);
}

#[test]
fn from_u64_renders_decimal_digits() {
    assert_eq!(Decimal::from_u64(0).render(), "0");
    assert_eq!(Decimal::from_u64(100).render(), "100");
    assert_eq!(Decimal::from_u64(u64::MAX).render(), "18446744073709551615");
    assert_eq!(Decimal::from_u64(907).whole, vec![9, 0, 7]);
}

#[test]
fn positive_means_greater_than_zero() {
    assert!(Decimal::parse("0.001").unwrap().positive());
    assert!(Decimal::parse("10").unwrap().positive());
    assert!(!Decimal::parse("0").unwrap().positive());
    assert!(!Decimal::parse("0.000").unwrap().positive());
    assert!(!Decimal::parse("-0").unwrap().positive());
    assert!(!Decimal::parse("-4").unwrap().positive());
}

#[test]
fn render_is_total_on_any_digit_values() {
    let odd = Decimal { negative: false, whole: vec![], fraction: vec![12] };
    assert_eq!(odd.render(), ".9");
}

#[test]
fn numbers_read_every_text_of_a_float() {
    for value in [0.0_f64, -0.0, 1.5, 250000.0, 1e300, 5e-324, f64::MAX, f64::MIN_POSITIVE, f64::NAN, f64::INFINITY, f64::NEG_INFINITY] {
        let text = value.to_string();
        let number = Number::parse(&text).expect("the text of a float");
        assert_eq!(number.render(), text);
        assert_eq!(number.positive(), value > 0.0, "{}", text);
    }
}

#[test]
fn numbers_without_digits_are_read_as_such() {
    assert_eq!(Number::parse("NaN"), Some(Number::NotANumber));
    assert_eq!(Number::parse("inf"), Some(Number::Infinite { negative: false }));
    assert_eq!(Number::parse("-inf"), Some(Number::Infinite { negative: true }));
    assert_eq!(Number::parse("12.5"), Some(Number::Finite(Decimal::parse("12.5").unwrap())));
    for text in ["nan", "Inf", "+inf", "infinity", "-NaN", "", "1e3"] {
        assert_eq!(Number::parse(text), None, "{:?}", text);
    }
}
