use iocore::path::Path;
use iocore::path_list::sort_paths;

fn listed(entries: &[(&str, bool)]) -> Vec<(String, bool)> {
    let mut paths: Vec<Path> = entries.iter().map(|(p, _)| Path::raw(p)).collect();
    let mut dirs: Vec<bool> = entries.iter().map(|(_, d)| *d).collect();
    sort_paths(&mut paths, &mut dirs);
    paths.iter().map(|p| p.to_string()).zip(dirs).collect()
}

#[test]
fn deeper_paths_come_first() {
    assert_eq!(
        listed(&[("b/c", false), ("a", false)]),
        vec![("b/c".to_string(), false), ("a".to_string(), false)]
    );
    assert_eq!(
        listed(&[("a", false), ("b/c", false)]),
        vec![("b/c".to_string(), false), ("a".to_string(), false)]
    );
}

#[test]
fn longer_texts_come_first_at_equal_depth_and_ties_keep_their_order() {
    assert_eq!(
        listed(&[("x/b", false), ("x/aaa", false), ("x/c", false), ("y/zz", false)]),
        vec![
            ("x/aaa".to_string(), false),
            ("y/zz".to_string(), false),
            ("x/b".to_string(), false),
            ("x/c".to_string(), false),
        ]
    );
}

#[test]
fn directories_come_before_other_entries() {
    assert_eq!(
        listed(&[("a/b/c", false), ("d", true), ("e/f", true)]),
        vec![("e/f".to_string(), true), ("d".to_string(), true), ("a/b/c".to_string(), false)]
    );
}
