use server::text::{append_five_digits, bytes_equal, i64_to_text, join_commas, parse_i64, split_commas};

#[test]
fn decimal_writes_signed_numbers() {
    assert_eq!(i64_to_text(0), "0");
    assert_eq!(i64_to_text(7), "7");
    assert_eq!(i64_to_text(1200), "1200");
    assert_eq!(i64_to_text(-35), "-35");
    assert_eq!(i64_to_text(i64::MAX), "9223372036854775807");
    assert_eq!(i64_to_text(i64::MIN), "-9223372036854775808");
}

#[test]
fn decimal_reads_back() {
    for n in [i64::MIN, -1000, -1, 0, 1, 99, 100, 123456789, i64::MAX] {
        assert_eq!(parse_i64(&i64_to_text(n)), Some(n));
    }
}

#[test]
fn parse_accepts_signs_and_digits() {
    assert_eq!(parse_i64("42"), Some(42));
    assert_eq!(parse_i64("+42"), Some(42));
    assert_eq!(parse_i64("-42"), Some(-42));
    assert_eq!(parse_i64("007"), Some(7));
    assert_eq!(parse_i64("-9223372036854775808"), Some(i64::MIN));
    assert_eq!(parse_i64("9223372036854775807"), Some(i64::MAX));
}

#[test]
fn parse_refuses_what_std_refuses() {
    for s in ["", "+", "-", "12a", " 12", "12 ", "1.5", "+-1", "9223372036854775808", "-9223372036854775809", "99999999999999999999999", "١٢"] {
        assert_eq!(parse_i64(s), None, "{:?}", s);
        assert!(s.parse::<i64>().is_err());
    }
}

#[test]
fn parse_agrees_with_std() {
    for s in ["0", "-0", "+0", "123", "-123", "00001", "9223372036854775807", "-9223372036854775808"] {
        assert_eq!(parse_i64(s), s.parse::<i64>().ok());
    }
}

#[test]
fn split_agrees_with_std() {
    for s in ["", ",", "a", "a,b", "a,,b", ",a,", "ab,cd,ef", "ñ,ü", "1,2,3,4"] {
        let expected: Vec<&str> = s.split(',').collect();
        assert_eq!(split_commas(s), expected);
    }
}

#[test]
fn join_agrees_with_std() {
    let cases: Vec<Vec<String>> = vec![
        vec![],
        vec!["a".to_string()],
        vec!["Cola".to_string(), "Chips".to_string()],
        vec!["".to_string(), "x".to_string(), "".to_string()],
    ];
    for parts in cases {
        assert_eq!(join_commas(&parts), parts.join(","));
    }
}

#[test]
fn five_digits_are_zero_padded() {
    for n in [0u16, 7, 42, 999, 12345, 65535] {
        let mut s = String::from("x");
        append_five_digits(&mut s, n);
        assert_eq!(s, format!("x{:05}", n));
    }
}

#[test]
fn bytes_compare_by_content() {
    assert!(bytes_equal(&[1, 2, 3], &[1, 2, 3]));
    assert!(!bytes_equal(&[1, 2, 3], &[1, 2, 4]));
    assert!(!bytes_equal(&[1, 2], &[1, 2, 3]));
    assert!(bytes_equal(&[], &[]));
}
