use canteen_api::params::{FromParam, ParamValue, Params};
use canteen_api::text::{append_decimal, parse_integer};
use canteen_api::util::{ApiError as PlainError, SmartParam};
use canteen_api::v1::api::util::LazyParam;
use canteen_api::v1::StatusCode;

fn params(pairs: &[(&str, &str)]) -> Params {
    let mut p = Params::new();
    for (k, v) in pairs {
        p.insert(k.to_string(), ParamValue::Text(v.to_string()));
    }
    p
}

#[test]
fn parse_integer_accepts_signs_and_digits() {
    assert_eq!(parse_integer("42", true, i32::MIN as i64, i32::MAX as i64), Some(42));
    assert_eq!(parse_integer("-42", true, i32::MIN as i64, i32::MAX as i64), Some(-42));
    assert_eq!(parse_integer("+42", true, i32::MIN as i64, i32::MAX as i64), Some(42));
    assert_eq!(parse_integer("007", true, i32::MIN as i64, i32::MAX as i64), Some(7));
    assert_eq!(parse_integer("-0", true, -5, 5), Some(0));
}

#[test]
fn parse_integer_rejects_malformed_text() {
    for s in ["", "-", "+", " 1", "1 ", "1_000", "12a", "a12", "--1", "+-1", "1.0"] {
        assert_eq!(parse_integer(s, true, i64::MIN, i64::MAX), None, "{:?}", s);
    }
    assert_eq!(parse_integer("-1", false, 0, 65535), None);
    assert_eq!(parse_integer("+1", false, 0, 65535), Some(1));
}

#[test]
fn parse_integer_checks_range() {
    assert_eq!(parse_integer("2147483647", true, i32::MIN as i64, i32::MAX as i64), Some(2147483647));
    assert_eq!(parse_integer("2147483648", true, i32::MIN as i64, i32::MAX as i64), None);
    assert_eq!(parse_integer("-2147483648", true, i32::MIN as i64, i32::MAX as i64), Some(-2147483648));
    assert_eq!(parse_integer("-2147483649", true, i32::MIN as i64, i32::MAX as i64), None);
    assert_eq!(parse_integer("9223372036854775807", true, i64::MIN, i64::MAX), Some(i64::MAX));
    assert_eq!(parse_integer("-9223372036854775808", true, i64::MIN, i64::MAX), Some(i64::MIN));
    assert_eq!(parse_integer("9223372036854775808", true, i64::MIN, i64::MAX), None);
    assert_eq!(parse_integer("99999999999999999999999", true, i64::MIN, i64::MAX), None);
    assert_eq!(parse_integer("65536", false, 0, 65535), None);
}

#[test]
fn parse_integer_agrees_with_std() {
    let samples = [
        "0", "1", "-1", "+5", "-", "+", "", "12x", "2147483647", "2147483648", "-2147483648",
        "-2147483649", "00012", "-00", "9223372036854775808", " 3", "٣",
    ];
    for s in samples {
        assert_eq!(i32::from_param(s), s.parse::<i32>().ok(), "{:?}", s);
        assert_eq!(i64::from_param(s), s.parse::<i64>().ok(), "{:?}", s);
        assert_eq!(u16::from_param(s), s.parse::<u16>().ok(), "{:?}", s);
    }
}

#[test]
fn decimal_text_matches_display_and_reads_back() {
    for n in [0i64, 1, 9, 10, 42, -7, -10, 1000, i64::MAX, i64::MIN, i32::MIN as i64] {
        let mut s = String::from("id '");
        append_decimal(&mut s, n);
        assert_eq!(s, format!("id '{}", n));
        let mut t = String::new();
        append_decimal(&mut t, n);
        assert_eq!(parse_integer(&t, true, i64::MIN, i64::MAX), Some(n));
    }
}

#[test]
fn params_insert_replaces_and_get_reads_back() {
    let mut p = params(&[("a", "1"), ("b", "2")]);
    assert!(matches!(p.get("a"), Some(ParamValue::Text(s)) if s == "1"));
    p.insert("a".to_string(), ParamValue::Text("3".to_string()));
    assert!(matches!(p.get("a"), Some(ParamValue::Text(s)) if s == "3"));
    assert!(matches!(p.get("b"), Some(ParamValue::Text(s)) if s == "2"));
    assert!(p.get("c").is_none());
    p.insert("c".to_string(), ParamValue::Other);
    assert!(matches!(p.get("c"), Some(ParamValue::Other)));
}

#[test]
fn lazy_param_reads_typed_values() {
    let p = params(&[("id", "17"), ("username", "alice")]);
    let lp = LazyParam { param: &p };
    assert_eq!(lp.get::<i32>("id").ok(), Some(17));
    assert_eq!(lp.get::<i64>("id").ok(), Some(17));
    assert_eq!(lp.get::<String>("username").ok(), Some("alice".to_string()));
}

#[test]
fn lazy_param_missing_parameter() {
    let p = params(&[]);
    let lp = LazyParam { param: &p };
    let e = lp.get::<i64>("myid").err().unwrap();
    assert_eq!(e.status, StatusCode::BadRequest);
    assert_eq!(e.status.code(), 400);
    assert_eq!(e.desc, "Missing Parameter 'myid'");
    assert_eq!(e.details, None);
}

#[test]
fn lazy_param_unparsable_parameter() {
    let p = params(&[("id", "abc")]);
    let lp = LazyParam { param: &p };
    let e = lp.get::<i32>("id").err().unwrap();
    assert_eq!(e.status, StatusCode::BadRequest);
    assert_eq!(e.desc, "Parameter 'id' cannot be parsed as 'i32'");
    assert_eq!(e.details, Some("value: 'abc'".to_string()));
    let e = lp.get::<i64>("id").err().unwrap();
    assert_eq!(e.desc, "Parameter 'id' cannot be parsed as 'i64'");
}

#[test]
fn smart_param_errors() {
    let p = params(&[("id", "x1")]);
    let sp = SmartParam { param: &p };
    assert_eq!(sp.get::<i32>("id").err().unwrap().desc, "Not parse");
    assert_eq!(sp.get::<i32>("other").err().unwrap().desc, "Not there");
    let p = params(&[("id", "-3")]);
    let sp = SmartParam { param: &p };
    assert_eq!(sp.get::<i32>("id").ok(), Some(-3));
}

#[test]
fn plain_error_keeps_message() {
    let e = PlainError::new("Not there");
    assert_eq!(e.desc, "Not there");
    assert_eq!(e.description(), "Not there");
}
