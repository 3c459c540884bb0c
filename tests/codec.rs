use microservice::form::{parse_form, FormError};
use microservice::query::{parse_query, query_conditions, Condition, QueryError, TimeField};
use microservice::models::TimeRange;
use microservice::text::{append_decimal, parse_i64, NumberError};

#[test]
fn form_with_message_only_defaults_username() {
    let m = parse_form(b"message=hi").unwrap();
    assert_eq!(m.message, "hi");
    assert_eq!(m.username, "anonymous");
}

#[test]
fn form_with_username_and_message() {
    let m = parse_form(b"username=bob&message=hello%20there+you").unwrap();
    assert_eq!(m.username, "bob");
    assert_eq!(m.message, "hello there you");
}

#[test]
fn form_without_message_fails() {
    let e = parse_form(b"username=bob").unwrap_err();
    assert_eq!(e, FormError::MissingField);
    assert_eq!(e.message(), "Missing field 'message");
}

#[test]
fn empty_form_fails() {
    assert_eq!(parse_form(b"").unwrap_err(), FormError::MissingField);
}

#[test]
fn form_keeps_empty_values_and_last_duplicate() {
    let m = parse_form(b"message=first&username=&message=second").unwrap();
    assert_eq!(m.message, "second");
    assert_eq!(m.username, "");
}

#[test]
fn query_with_bad_before_names_before() {
    match parse_query("before=notanumber") {
        Err(e) => {
            assert_eq!(e.field(), TimeField::Before);
            assert_eq!(e.message(), "Error parsing 'before': invalid digit found in string");
            let QueryError::InvalidNumber { raw, reason, .. } = e;
            assert_eq!(raw, "notanumber");
            assert_eq!(reason, NumberError::InvalidDigit);
        }
        Ok(_) => panic!("accepted a non-numeric bound"),
    }
}

#[test]
fn query_with_bad_after_names_after() {
    let e = parse_query("before=5&after=soon").unwrap_err();
    assert_eq!(e.field(), TimeField::After);
    assert_eq!(e.message(), "Error parsing 'after': invalid digit found in string");
}

#[test]
fn query_checks_before_first() {
    let e = parse_query("after=x&before=y").unwrap_err();
    assert_eq!(e.field(), TimeField::Before);
}

#[test]
fn query_with_both_bounds() {
    let t = parse_query("before=25&after=-15").unwrap();
    assert_eq!(t, TimeRange { before: Some(25), after: Some(-15) });
}

#[test]
fn query_without_bounds_is_unbounded() {
    assert_eq!(parse_query("").unwrap(), TimeRange::unbounded());
    assert_eq!(parse_query("page=2").unwrap(), TimeRange { before: None, after: None });
}

#[test]
fn query_with_empty_bound_fails() {
    let e = parse_query("after=").unwrap_err();
    assert_eq!(e.message(), "Error parsing 'after': cannot parse integer from empty string");
}

fn kept(range: &TimeRange, stamps: &[i64]) -> Vec<i64> {
    let conds = query_conditions(range);
    stamps.iter().copied().filter(|t| conds.iter().all(|c| c.holds(*t))).collect()
}

#[test]
fn conditions_filter_timestamps() {
    let stamps = [10, 20, 30];
    assert_eq!(kept(&TimeRange { before: Some(25), after: None }, &stamps), vec![10, 20]);
    assert_eq!(kept(&TimeRange { before: None, after: Some(15) }, &stamps), vec![20, 30]);
    assert_eq!(kept(&TimeRange { before: Some(25), after: Some(15) }, &stamps), vec![20]);
    assert_eq!(kept(&TimeRange::unbounded(), &stamps), vec![10, 20, 30]);
}

#[test]
fn conditions_of_each_bound() {
    let range = TimeRange { before: Some(25), after: Some(15) };
    assert_eq!(query_conditions(&range), vec![Condition::Below(25), Condition::Above(15)]);
    assert!(query_conditions(&TimeRange::unbounded()).is_empty());
}

#[test]
fn integers_parse() {
    assert_eq!(parse_i64("0"), Ok(0));
    assert_eq!(parse_i64("+17"), Ok(17));
    assert_eq!(parse_i64("-42"), Ok(-42));
    assert_eq!(parse_i64("007"), Ok(7));
    assert_eq!(parse_i64("9223372036854775807"), Ok(i64::MAX));
    assert_eq!(parse_i64("-9223372036854775808"), Ok(i64::MIN));
}

#[test]
fn integers_rejected() {
    assert_eq!(parse_i64(""), Err(NumberError::Empty));
    assert_eq!(parse_i64("-"), Err(NumberError::InvalidDigit));
    assert_eq!(parse_i64("+"), Err(NumberError::InvalidDigit));
    assert_eq!(parse_i64(" 1"), Err(NumberError::InvalidDigit));
    assert_eq!(parse_i64("12a"), Err(NumberError::InvalidDigit));
    assert_eq!(parse_i64("9223372036854775808"), Err(NumberError::PosOverflow));
    assert_eq!(parse_i64("-9223372036854775809"), Err(NumberError::NegOverflow));
    assert_eq!(parse_i64("99999999999999999999x"), Err(NumberError::InvalidDigit));
}

#[test]
fn decimals_render() {
    let mut s = String::from("t=");
    append_decimal(&mut s, 0);
    assert_eq!(s, "t=0");
    let mut s = String::new();
    append_decimal(&mut s, -305);
    assert_eq!(s, "-305");
    let mut s = String::new();
    append_decimal(&mut s, i64::MIN);
    assert_eq!(s, "-9223372036854775808");
    let mut s = String::new();
    append_decimal(&mut s, i64::MAX);
    assert_eq!(s, "9223372036854775807");
}
