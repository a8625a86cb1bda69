use iocore::path::Path;
use iocore::path_cmp::{
    cmp_paths_by_parts, fallback_cmp_paths_by_parts, path_ord_split_clamp, path_ord_split_max,
    path_ord_split_min, path_ord_to_string_clamp, path_ord_to_string_max, path_ord_to_string_min,
};
use iocore::path_sort::sort_by_path_order;
use std::cmp::Ordering;

fn sorted(mut paths: Vec<Path>) -> Vec<Path> {
    let mut dirs = vec![false; paths.len()];
    sort_by_path_order(&mut paths, &mut dirs);
    paths
}

#[test]
fn test_paths_should_be_ordered_alphabetically() {
    let paths = vec![Path::raw("zzzzz"), Path::raw("mmmmm"), Path::raw("nnnnn"), Path::raw("aaaaa")];
    assert_eq!(
        sorted(paths),
        vec![Path::raw("aaaaa"), Path::raw("mmmmm"), Path::raw("nnnnn"), Path::raw("zzzzz"),]
    );
}

#[test]
fn but_paths_should_be_ordered_by_length() {
    let paths = vec![Path::raw("mmmmm"), Path::raw("mmm"), Path::raw("aaa"), Path::raw("aaaa")];
    assert_eq!(
        sorted(paths),
        vec![Path::raw("aaa"), Path::raw("aaaa"), Path::raw("mmm"), Path::raw("mmmmm"),]
    );
}

#[test]
fn but_paths_should_be_ordered_by_depth_of_folders() {
    let paths = vec![
        Path::raw("abcdefg"),
        Path::raw("nopqrst"),
        Path::raw("a/bcdefg"),
        Path::raw("no/pqrst"),
        Path::raw("u/v/w/x/y"),
        Path::raw("uv/wx/y"),
    ];
    assert_eq!(
        sorted(paths),
        vec![
            Path::raw("abcdefg"),
            Path::raw("nopqrst"),
            Path::raw("a/bcdefg"),
            Path::raw("no/pqrst"),
            Path::raw("uv/wx/y"),
            Path::raw("u/v/w/x/y"),
        ]
    );
}

#[test]
fn shallower_paths_come_first_then_by_text() {
    let paths = vec![
        Path::raw("zzzzz"),
        Path::raw("mmmmm/mmmmm"),
        Path::raw("mmmmm"),
        Path::raw("nnnnn"),
        Path::raw("nnnnn/nnnn"),
        Path::raw("aaaaa"),
    ];
    assert_eq!(
        sorted(paths),
        vec![
            Path::raw("aaaaa"),
            Path::raw("mmmmm"),
            Path::raw("nnnnn"),
            Path::raw("zzzzz"),
            Path::raw("mmmmm/mmmmm"),
            Path::raw("nnnnn/nnnn"),
        ]
    );
}

#[test]
fn deeper_paths_come_later() {
    let paths = vec![
        Path::raw("u/v/w/x/y"),
        Path::raw("abcdefg"),
        Path::raw("u/v/w"),
        Path::raw("nopqrst"),
        Path::raw("u/v"),
        Path::raw("a/bcdefg"),
        Path::raw("uv/wx/y"),
        Path::raw("no/pqrst"),
        Path::raw("u/v/w/x"),
    ];
    assert_eq!(
        sorted(paths),
        vec![
            Path::raw("abcdefg"),
            Path::raw("nopqrst"),
            Path::raw("a/bcdefg"),
            Path::raw("no/pqrst"),
            Path::raw("u/v"),
            Path::raw("u/v/w"),
            Path::raw("uv/wx/y"),
            Path::raw("u/v/w/x"),
            Path::raw("u/v/w/x/y"),
        ]
    );
}

#[test]
fn sorting_keeps_each_flag_with_its_path() {
    let mut paths = vec![Path::raw("b"), Path::raw("a/b"), Path::raw("a")];
    let mut dirs = vec![true, false, true];
    sort_by_path_order(&mut paths, &mut dirs);
    assert_eq!(paths.len(), 3);
    for (p, d) in paths.iter().zip(dirs.iter()) {
        let expected = p.as_str() != "a/b";
        assert_eq!(*d, expected);
    }
}

#[test]
fn comparing_by_parts() {
    assert_eq!(cmp_paths_by_parts(&Path::raw("a/b"), false, &Path::raw("b"), false), Ordering::Greater);
    assert_eq!(cmp_paths_by_parts(&Path::raw("b"), false, &Path::raw("a/b"), false), Ordering::Less);
    assert_eq!(cmp_paths_by_parts(&Path::raw("abc"), false, &Path::raw("abd"), false), Ordering::Less);
    assert_eq!(cmp_paths_by_parts(&Path::raw("abc"), false, &Path::raw("abc"), false), Ordering::Equal);
    assert_eq!(fallback_cmp_paths_by_parts(&Path::raw("abc"), &Path::raw("abc")), Ordering::Equal);
    assert_eq!(fallback_cmp_paths_by_parts(&Path::raw("abd"), &Path::raw("abc")), Ordering::Greater);
    assert_eq!(fallback_cmp_paths_by_parts(&Path::raw("abc"), &Path::raw("abcd")), Ordering::Less);
    assert_eq!(fallback_cmp_paths_by_parts(&Path::raw("a/b"), &Path::raw("abcd")), Ordering::Greater);
    assert_eq!(fallback_cmp_paths_by_parts(&Path::raw("abcd"), &Path::raw("abc")), Ordering::Greater);
    assert_eq!(fallback_cmp_paths_by_parts(&Path::raw("abc"), &Path::raw("abd")), Ordering::Less);
}

#[test]
fn path_ord_extremes() {
    assert_eq!(path_ord_split_max(Path::raw("a/b"), Path::raw("abcdef")), Path::raw("a/b"));
    assert_eq!(path_ord_split_min(Path::raw("a/b"), Path::raw("abcdef")), Path::raw("abcdef"));
    assert_eq!(path_ord_to_string_max(Path::raw("abc"), Path::raw("abd")), Path::raw("abd"));
    assert_eq!(path_ord_to_string_min(Path::raw("abc"), Path::raw("abd")), Path::raw("abc"));
    assert_eq!(path_ord_to_string_max(Path::raw("ab"), Path::raw("abd")), Path::raw("abd"));
    assert_eq!(
        path_ord_to_string_clamp(Path::raw("abz"), Path::raw("abc"), Path::raw("abd")),
        Path::raw("abd")
    );
    assert_eq!(
        path_ord_split_clamp(Path::raw("a/b/c"), Path::raw("a"), Path::raw("a/b")),
        Path::raw("a/b")
    );
}

#[test]
fn test_sort_paths_mixed_flags_keeps_neighbours_in_order() {
    let mut paths = vec![
        Path::raw("b/c"),
        Path::raw("a"),
        Path::raw("z/y/x"),
        Path::raw("b"),
        Path::raw("a/b"),
    ];
    let mut dirs = vec![false, true, false, true, true];
    let before: Vec<(String, bool)> = paths.iter().map(|p| p.to_string()).zip(dirs.iter().cloned()).collect();
    sort_by_path_order(&mut paths, &mut dirs);
    assert_eq!(paths.len(), 5);
    let mut after: Vec<(String, bool)> = paths.iter().map(|p| p.to_string()).zip(dirs.iter().cloned()).collect();
    for i in 0..paths.len() - 1 {
        assert_ne!(
            cmp_paths_by_parts(&paths[i], dirs[i], &paths[i + 1], dirs[i + 1]),
            Ordering::Greater,
            "{:?}",
            after
        );
    }
    let mut expected = before.clone();
    expected.sort();
    after.sort();
    assert_eq!(after, expected);
}

#[test]
fn test_path_ordering() {
    let folder = |n: &str| (Path::raw(&format!("tests/test_path_ordering/{}", n)), true);
    let file = |n: &str| (Path::raw(&format!("tests/__test_files__/test_path_ordering/test_path_ordering/{}", n)), false);
    let given = vec![
        folder("a"), file("a/a"), file("a/b"), file("a/c"), file("a/d"),
        folder("b"), file("b/a"), file("b/b"), file("b/c"), file("b/d"),
        folder("c"), file("c/a"), file("c/b"), file("c/c"), file("c/d"),
        folder("d"), file("d/a"), file("d/b"), file("d/c"), file("d/d"),
    ];
    let mut paths: Vec<Path> = given.iter().map(|(p, _)| p.clone()).collect();
    let mut dirs: Vec<bool> = given.iter().map(|(_, d)| *d).collect();
    sort_by_path_order(&mut paths, &mut dirs);
    let expected: Vec<Path> = vec![
        folder("a"), folder("b"), folder("c"), folder("d"),
        file("a/a"), file("a/b"), file("a/c"), file("a/d"),
        file("b/a"), file("b/b"), file("b/c"), file("b/d"),
        file("c/a"), file("c/b"), file("c/c"), file("c/d"),
        file("d/a"), file("d/b"), file("d/c"), file("d/d"),
    ]
    .into_iter()
    .map(|(p, _)| p)
    .collect();
    assert_eq!(paths, expected);
}
