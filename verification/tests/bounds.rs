use questions::decimal::to_decimal;
use questions::pagination::{
    extract_pagination, pagination_from_bounds, pagination_from_readings, read_bound, valid_range,
    Error, ErrorKind, Pagination,
};
use questions::query::QueryParams;

fn params(pairs: &[(&str, &str)]) -> QueryParams {
    let mut p = QueryParams::new();
    for (name, text) in pairs {
        p.insert(name.to_string(), text.to_string());
    }
    p
}

#[test]
fn both_bounds_in_order_are_accepted() {
    let p = extract_pagination(params(&[("start", "2"), ("end", "10")])).unwrap();
    assert_eq!(p, Pagination { start: 2, end: 10 });
}

#[test]
fn equal_bounds_are_accepted() {
    let p = extract_pagination(params(&[("start", "4"), ("end", "4")])).unwrap();
    assert_eq!(p, Pagination { start: 4, end: 4 });
}

#[test]
fn other_parameters_do_not_count() {
    let p = extract_pagination(params(&[("start", "1"), ("end", "3"), ("sort", "title")]))
        .unwrap();
    assert_eq!(p, Pagination { start: 1, end: 3 });
    let p = extract_pagination(params(&[("limit", "3")])).unwrap();
    assert_eq!(p, Pagination { start: 0, end: usize::MAX });
}

#[test]
fn no_bounds_give_the_full_range() {
    let p = extract_pagination(QueryParams::new()).unwrap();
    assert_eq!(p, Pagination { start: 0, end: usize::MAX });
    assert_eq!(valid_range(p, 0), 0..0);
    assert_eq!(valid_range(p, 5), 0..5);
    assert_eq!(valid_range(p, usize::MAX), 0..usize::MAX);
}

#[test]
fn start_greater_than_end_is_refused() {
    match extract_pagination(params(&[("start", "3"), ("end", "1")])) {
        Err(Error::StartGreaterThanEnd(p)) => assert_eq!(p, Pagination { start: 3, end: 1 }),
        other => panic!("unexpected: {:?}", other),
    }
}

#[test]
fn start_alone_is_refused() {
    let r = extract_pagination(params(&[("start", "2")]));
    assert!(matches!(r, Err(Error::MissingParameters)));
}

#[test]
fn end_alone_is_refused() {
    let r = extract_pagination(params(&[("end", "2")]));
    assert!(matches!(r, Err(Error::MissingParameters)));
    // The text of the one bound is not looked at.
    let r = extract_pagination(params(&[("end", "abc")]));
    assert!(matches!(r, Err(Error::MissingParameters)));
}

#[test]
fn unreadable_start_is_refused() {
    match extract_pagination(params(&[("start", "abc"), ("end", "5")])) {
        Err(Error::ParseError(detail)) => assert_eq!(detail, "invalid digit found in string"),
        other => panic!("unexpected: {:?}", other),
    }
}

#[test]
fn unreadable_end_is_refused() {
    let r = pagination_from_bounds(Some("1"), Some("5x"));
    assert!(matches!(r, Err(Error::ParseError(_))));
}

#[test]
fn unreadable_bound_is_refused_before_the_order_is_looked_at() {
    let r = pagination_from_bounds(Some("9"), Some("x"));
    assert!(matches!(r, Err(Error::ParseError(_))));
}

#[test]
fn empty_bound_is_refused() {
    match pagination_from_bounds(Some(""), Some("5")) {
        Err(Error::ParseError(detail)) => {
            assert_eq!(detail, "cannot parse integer from empty string")
        }
        other => panic!("unexpected: {:?}", other),
    }
}

#[test]
fn negative_bound_is_refused() {
    let r = pagination_from_bounds(Some("-1"), Some("5"));
    assert!(matches!(r, Err(Error::ParseError(_))));
}

#[test]
fn bound_with_blanks_is_refused() {
    assert!(matches!(pagination_from_bounds(Some(" 1"), Some("5")), Err(Error::ParseError(_))));
    assert!(matches!(pagination_from_bounds(Some("1"), Some("5 ")), Err(Error::ParseError(_))));
    assert!(matches!(pagination_from_bounds(Some("1_0"), Some("50")), Err(Error::ParseError(_))));
}

#[test]
fn sign_alone_is_refused() {
    assert!(matches!(pagination_from_bounds(Some("+"), Some("5")), Err(Error::ParseError(_))));
    assert!(matches!(pagination_from_bounds(Some("++1"), Some("5")), Err(Error::ParseError(_))));
}

#[test]
fn bound_too_large_is_refused() {
    let too_large = format!("{}0", usize::MAX);
    match pagination_from_bounds(Some("0"), Some(&too_large)) {
        Err(Error::ParseError(detail)) => {
            assert_eq!(detail, "number too large to fit in target type")
        }
        other => panic!("unexpected: {:?}", other),
    }
}

#[test]
fn largest_bound_is_accepted() {
    let largest = format!("{}", usize::MAX);
    let p = pagination_from_bounds(Some("0"), Some(&largest)).unwrap();
    assert_eq!(p, Pagination { start: 0, end: usize::MAX });
}

#[test]
fn plus_sign_and_leading_zeros_are_read() {
    let p = pagination_from_bounds(Some("+7"), Some("0012")).unwrap();
    assert_eq!(p, Pagination { start: 7, end: 12 });
}

#[test]
fn bounds_are_read_not_handed_back() {
    let p = pagination_from_bounds(Some("10"), Some("9000")).unwrap();
    assert_eq!(p.start, 10);
    assert_eq!(p.end, 9000);
}

#[test]
fn range_is_cut_down_to_the_length() {
    assert_eq!(valid_range(Pagination { start: 2, end: 10 }, 5), 2..5);
    assert_eq!(valid_range(Pagination { start: 1, end: 3 }, 5), 1..3);
    assert_eq!(valid_range(Pagination { start: 0, end: 5 }, 5), 0..5);
}

#[test]
fn range_is_empty_from_the_length_on() {
    assert_eq!(valid_range(Pagination { start: 5, end: 9 }, 5), 5..5);
    assert_eq!(valid_range(Pagination { start: 7, end: 9 }, 5), 5..5);
    assert_eq!(valid_range(Pagination { start: 3, end: 3 }, 5), 3..3);
    assert_eq!(valid_range(Pagination { start: 0, end: 0 }, 0), 0..0);
    assert_eq!(valid_range(Pagination { start: 2, end: 4 }, 0), 0..0);
}

#[test]
fn range_of_resolved_bounds_is_within_the_collection() {
    for length in 0..8usize {
        for s in 0..10usize {
            for e in s..10usize {
                let p = pagination_from_bounds(Some(&to_decimal(s)), Some(&to_decimal(e)))
                    .unwrap();
                let r = valid_range(p, length);
                assert_eq!(r.start, s.min(length));
                assert_eq!(r.end, e.min(length));
                assert!(r.start <= r.end && r.end <= length);
            }
        }
    }
}

#[test]
fn kind_drops_the_detail() {
    assert_eq!(Error::ParseError("x".to_string()).kind(), ErrorKind::ParseError);
    assert_eq!(Error::MissingParameters.kind(), ErrorKind::MissingParameters);
    let p = Pagination { start: 3, end: 1 };
    assert_eq!(Error::StartGreaterThanEnd(p).kind(), ErrorKind::StartGreaterThanEnd(p));
}

#[test]
fn messages_are_exact() {
    assert_eq!(Error::MissingParameters.message(), "Missing parameter");
    assert_eq!(
        Error::StartGreaterThanEnd(Pagination { start: 3, end: 1 }).message(),
        "Start greater end Pagination { start: 3, end: 1 }"
    );
    assert_eq!(
        Error::ParseError("invalid digit found in string".to_string()).message(),
        "Cannot parse parameter: invalid digit found in string"
    );
}

#[test]
fn description_matches_the_debug_text() {
    let p = Pagination { start: 120, end: 4007 };
    assert_eq!(p.describe(), "Pagination { start: 120, end: 4007 }");
    assert_eq!(p.describe(), format!("{:?}", p));
    let q = Pagination { start: 0, end: usize::MAX };
    assert_eq!(q.describe(), format!("{:?}", q));
}

#[test]
fn decimal_text_is_exact() {
    assert_eq!(to_decimal(0), "0");
    assert_eq!(to_decimal(7), "7");
    assert_eq!(to_decimal(10), "10");
    assert_eq!(to_decimal(1905), "1905");
    assert_eq!(to_decimal(usize::MAX), format!("{}", usize::MAX));
}

#[test]
fn params_keep_the_last_text_of_a_name() {
    let mut p = QueryParams::new();
    assert_eq!(p.get("start"), None);
    p.insert("start".to_string(), "1".to_string());
    p.insert("start".to_string(), "2".to_string());
    p.insert("end".to_string(), "3".to_string());
    assert_eq!(p.get("start"), Some("2"));
    assert_eq!(p.get("end"), Some("3"));
    assert_eq!(p.get("END"), None);
}

#[test]
fn reading_gives_the_number_or_the_message() {
    assert_eq!(read_bound("42"), Ok(42));
    assert_eq!(read_bound("+0"), Ok(0));
    assert_eq!(read_bound("4x2"), Err("invalid digit found in string".to_string()));
    assert_eq!(read_bound(""), Err("cannot parse integer from empty string".to_string()));
}

#[test]
fn readings_in_order_are_accepted() {
    let p = pagination_from_readings(Ok(2), Ok(10)).unwrap();
    assert_eq!(p, Pagination { start: 2, end: 10 });
    let p = pagination_from_readings(Ok(0), Ok(0)).unwrap();
    assert_eq!(p, Pagination { start: 0, end: 0 });
}

#[test]
fn readings_out_of_order_are_refused() {
    match pagination_from_readings(Ok(3), Ok(1)) {
        Err(Error::StartGreaterThanEnd(p)) => assert_eq!(p, Pagination { start: 3, end: 1 }),
        other => panic!("unexpected: {:?}", other),
    }
}

#[test]
fn message_of_start_comes_before_that_of_end() {
    match pagination_from_readings(Err("first".to_string()), Err("second".to_string())) {
        Err(Error::ParseError(detail)) => assert_eq!(detail, "first"),
        other => panic!("unexpected: {:?}", other),
    }
    match pagination_from_readings(Ok(9), Err("second".to_string())) {
        Err(Error::ParseError(detail)) => assert_eq!(detail, "second"),
        other => panic!("unexpected: {:?}", other),
    }
    match pagination_from_readings(Err("first".to_string()), Ok(1)) {
        Err(Error::ParseError(detail)) => assert_eq!(detail, "first"),
        other => panic!("unexpected: {:?}", other),
    }
    match pagination_from_bounds(Some(""), Some("x")) {
        Err(Error::ParseError(detail)) => {
            assert_eq!(detail, "cannot parse integer from empty string")
        }
        other => panic!("unexpected: {:?}", other),
    }
}
