use iocore::errors::Error;
use iocore::path::Path;
use iocore::walk::plan::{descends, take_answer, walk_start, Found};

#[test]
fn starting_a_walk() {
    let p = Path::raw("/d");
    assert_eq!(walk_start(&p, false, false, None, None), Err(Error::WalkDirError("\"/d\" does not exist".to_string(), Path::raw("/d"), 1)));
    assert_eq!(walk_start(&p, true, false, Some(3), None), Err(Error::WalkDirError("\"/d\" is not a directory".to_string(), Path::raw("/d"), 4)));
    assert_eq!(walk_start(&p, true, true, None, None), Ok(Some(1)));
    assert_eq!(walk_start(&p, true, true, Some(2), Some(2)), Ok(None));
    assert_eq!(walk_start(&p, true, true, Some(1), Some(2)), Ok(Some(2)));
    assert!(descends(None, Some(0)));
    assert!(descends(Some(1), Some(2)));
    assert!(!descends(Some(2), Some(2)));
}

#[test]
fn answers_of_the_handler() {
    let fs = Path::raw("/src/iocore/fs");
    assert_eq!(take_answer(Some(true), None, &fs, 1), Ok(true));
    assert_eq!(take_answer(None, None, &fs, 1), Ok(false));
    assert_eq!(
        take_answer(None, Some(Error::PathScanningError("path shall not be scanned".to_string())), &fs, 1),
        Err(Error::WalkDirError("PathScanningError: path shall not be scanned".to_string(), Path::raw("/src/iocore/fs"), 1))
    );
    let e = Error::WalkDirError("ParseError: x".to_string(), Path::raw("/a"), 2);
    assert_eq!(e.to_string(), "WalkDirError ParseError: x: /a");
}

#[test]
fn found_paths_are_kept_once_and_sorted() {
    let mut f = Found::new();
    assert!(f.insert(Path::raw("b")));
    assert!(f.insert(Path::raw("a/c")));
    assert!(!f.insert(Path::raw("b")));
    assert!(f.insert(Path::raw("a")));
    assert_eq!(f.len(), 3);
    let (paths, dirs) = f.into_sorted(&vec![false, false, false]);
    assert_eq!(paths, vec![Path::raw("a"), Path::raw("b"), Path::raw("a/c")]);
    assert_eq!(dirs, vec![false, false, false]);
}
