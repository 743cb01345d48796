use tiplink_gateway::text::{parse_i64, push_i64_text, push_u64_digits};

#[test]
fn parse_i64_agrees_with_std() {
    let cases = [
        "0", "-0", "+5", "-", "+", "", "12a", " 1", "1 ", "007", "-42",
        "9223372036854775807", "9223372036854775808", "-9223372036854775808",
        "-9223372036854775809", "99999999999999999999999", "+-1", "١٢", "1_000",
    ];
    for c in cases {
        assert_eq!(parse_i64(c), c.parse::<i64>().ok(), "input {:?}", c);
    }
}

#[test]
fn parse_i64_rejects_bare_signs_and_overflow() {
    assert_eq!(parse_i64("-"), None);
    assert_eq!(parse_i64("+"), None);
    assert_eq!(parse_i64("9223372036854775808"), None);
    assert_eq!(parse_i64("-9223372036854775808"), Some(i64::MIN));
}

#[test]
fn i64_text_agrees_with_std() {
    for n in [0i64, 1, -1, 9, 10, -10, 1700000000, i64::MAX, i64::MIN] {
        let mut s = String::new();
        push_i64_text(&mut s, n);
        assert_eq!(s, n.to_string());
    }
}

#[test]
fn u64_digits_agree_with_std() {
    for n in [0u64, 7, 10, 1000000, u64::MAX] {
        let mut s = String::from("x=");
        push_u64_digits(&mut s, n);
        assert_eq!(s, format!("x={}", n));
    }
}

#[test]
fn rendered_i64_parses_back() {
    for n in [i64::MIN, -86400, 0, 86400, i64::MAX] {
        let mut s = String::new();
        push_i64_text(&mut s, n);
        assert_eq!(parse_i64(&s), Some(n));
    }
}
