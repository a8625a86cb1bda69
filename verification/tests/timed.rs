use iocore::timed::PathDateTime;

#[test]
fn test_to_array() {
    let t = PathDateTime::from_timestamp(1742346763, 0);
    assert_eq!(t.to_array(), [2025, 3, 19, 1, 12, 43]);
}

#[test]
fn test_to_bytes() {
    let t = PathDateTime::from_timestamp(1742346763, 0);
    assert_eq!(t.to_bytes(), vec![7, 233, 0, 3, 0, 19, 0, 1, 0, 12, 0, 43]);
}

#[test]
fn times_without_calendar_fields() {
    assert_eq!(PathDateTime::from_timestamp(i64::MAX, 0).checked_to_array(), None);
    assert_eq!(PathDateTime::from_timestamp(-62167219200 - 86400, 0).checked_to_bytes(), None);
    assert_eq!(PathDateTime::from_timestamp(0, 0).checked_to_array(), Some([1970, 1, 1, 0, 0, 0]));
}

#[test]
fn test_parse_from_str_as_utc() {
    let t = PathDateTime::parse_from_str("2025-03-19T01:12:43", "%Y-%m-%dT%H:%M:%S").unwrap();
    assert_eq!(t, PathDateTime::from_timestamp(1742346763, 0));
    assert_eq!(t.to_array(), [2025, 3, 19, 1, 12, 43]);
    let t = PathDateTime::parse_from_str("2025-03-19 01:12:43", "%Y-%m-%d %H:%M:%S").unwrap();
    assert_eq!(t, PathDateTime::from_timestamp(1742346763, 0));
    let t = PathDateTime::parse_from_str("2025-03-19T01:12:43.123456789Z", "%Y-%m-%dT%H:%M:%S.%fZ").unwrap();
    assert_eq!(t, PathDateTime::from_timestamp(1742346763, 123456789));
    match PathDateTime::parse_from_str("yesterday", "%Y-%m-%d") {
        Err(iocore::errors::Error::ParseError(m)) => {
            assert!(m.starts_with("error parsing 'yesterday' with format '%Y-%m-%d': "), "{}", m)
        },
        other => panic!("unexpected {:?}", other),
    }
}
