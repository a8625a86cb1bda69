use std::cmp::Ordering;

use iocore::path::Path;
use iocore::path_timestamps::PathTimestamps;
use iocore::timed::PathDateTime;

fn at(secs: i64, nanos: u32) -> PathDateTime {
    PathDateTime::from_timestamp(secs, nanos)
}

#[test]
fn test_cmp_time() {
    assert_eq!(at(10, 0).cmp_time(&at(11, 0)), Ordering::Less);
    assert_eq!(at(10, 5).cmp_time(&at(10, 4)), Ordering::Greater);
    assert_eq!(at(10, 5).cmp_time(&at(10, 5)), Ordering::Equal);
    assert_eq!(at(-1, 999_999_999).cmp_time(&at(0, 0)), Ordering::Less);
}

#[test]
fn test_path_timestamps_order_and_fields() {
    let a = PathTimestamps::new(Path::raw("/tmp/a"), at(5, 0), at(1742346763, 0), at(1, 0));
    let b = PathTimestamps::new(Path::raw("/tmp/b"), at(1, 0), at(1742346764, 0), at(1, 0));
    assert_eq!(a.cmp_modified(&b), Ordering::Less);
    assert_eq!(b.cmp_modified(&a), Ordering::Greater);
    let f = a.fields();
    assert_eq!(f[0].0, "modified");
    assert_eq!(f[0].1, at(1742346763, 0));
}

#[test]
fn test_record_times() {
    let mut t = PathTimestamps::new(Path::raw("/tmp/a"), at(5, 0), at(6, 0), at(1, 0));
    t.record_access_time(at(100, 1));
    assert_eq!(t.accessed, at(100, 1));
    assert_eq!(t.modified, at(6, 0));
    t.record_modified_time(at(200, 2));
    assert_eq!(t.modified, at(200, 2));
    assert_eq!(t.accessed, at(100, 1));
    assert_eq!(t.created, at(1, 0));
    assert_eq!(t.path, Path::raw("/tmp/a"));
}

fn parsed(s: &str) -> PathDateTime {
    PathDateTime::parse_from_str(s, "%Y-%m-%dT%H:%M:%S").unwrap()
}

fn stamps(modified: &str) -> PathTimestamps {
    PathTimestamps::new(Path::raw("dummy"), parsed("2025-03-20T00:00:00"), parsed(modified), parsed("2025-03-18T00:00:00"))
}

#[test]
fn test_ordering_same_path() {
    let old = stamps("2025-03-18T00:10:20");
    let new = stamps("2025-03-22T00:10:20");
    assert_eq!(old.cmp_modified(&new), Ordering::Less);
    assert_eq!(new.cmp_modified(&old), Ordering::Greater);
    let mut ts = vec![new.clone(), old.clone()];
    ts.sort_by(|a, b| a.cmp_modified(b));
    assert_eq!(ts, vec![old, new]);
}

#[test]
fn test_not_equal_same_path_and_different_modified_time() {
    let old = stamps("2025-03-18T00:10:20");
    let new = stamps("2025-03-22T00:10:20");
    assert_ne!(old, new);
}

#[test]
fn test_equal_same_path_and_same_modified_time() {
    let a = stamps("2025-03-18T00:10:20");
    let b = stamps("2025-03-18T00:10:20");
    assert_eq!(a, b);
}
