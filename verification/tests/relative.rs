use iocore::path::Path;
use iocore::string_path::{File, FilePath, FSNode, NodePath, PathRelative, StringPath};

// The home directory stands for what `~` expands to.
const PATH: &str = "/home/user/Music/Ableton";
const ANCESTOR: &str = "/home/user/Music";

#[test]
fn test_path_relative_to() {
    let path = PATH.to_string();
    let ancestor = ANCESTOR.to_string();
    assert_eq!(path.relative_to(&ancestor), "Ableton");
}

#[test]
fn test_relative_wherewith() {
    let path = PATH.to_string();
    let ancestor = Path::raw(ANCESTOR);
    assert_eq!(path.relative_wherewith(&ancestor), Path::raw("Ableton"));
}

#[test]
fn test_path_relative() {
    let path = NodePath::from(PATH);
    assert_eq!(path.relative_to(ANCESTOR), "Ableton");
    assert_eq!(path.relative_wherewith(&Path::raw(ANCESTOR)), Path::raw("Ableton"));
}

#[test]
fn file_path_to_cuts_the_first_occurrence() {
    let p = FilePath::from("/a/b/a/b/c");
    assert_eq!(p.to("a/b"), "/a/b/c");
    assert_eq!(p.to("/a/b/"), "a/b/c");
    assert_eq!(p.to("x"), "/a/b/a/b/c");
    assert_eq!(p.tostring(), "/a/b/a/b/c");
}

fn rel(own: &str, other: &str) -> String {
    let a = Path::raw(own);
    let b = Path::raw(other);
    a.relative_to(&b, &a, false, &b, false, "/home/user/").to_string()
}

#[test]
fn test_relative_to_child_to_parent() {
    assert_eq!(rel("a/b/c/x/y/z.bin", "a/b/c"), "x/y/z.bin");
    assert_eq!(rel("a/b/c/x/y/z.bin", "a/b/c/"), "x/y/z.bin");
}

#[test]
fn test_relative_to_parent_to_child_no_trailing_slash_both_inexisting_paths() {
    assert_eq!(rel("a/b/c", "a/b/c/x/y/z.bin"), "../../../");
}

#[test]
fn test_relative_to_parent_to_child_with_trailing_slash_both_inexisting_paths() {
    assert_eq!(rel("a/b/c/", "a/b/c/x/y/z.bin"), "../../../");
}

#[test]
fn relative_to_itself_and_to_strangers() {
    assert_eq!(rel("a/b", "a/b"), "./");
    assert_eq!(rel("a/b", "x/y"), "x/y");
    let a = Path::raw("~/a/b");
    let b = Path::raw("~");
    assert_eq!(a.relative_to(&b, &a, true, &b, true, "/home/user/").to_string(), "a/b");
}

#[test]
fn relative_to_uses_the_existing_canonical_forms() {
    let own = Path::raw("x/c/d");
    let other = Path::raw("y");
    let cs = Path::raw("/r/y/c/d");
    let ct = Path::raw("/r/y");
    assert_eq!(own.relative_to(&other, &cs, true, &ct, true, "/h/").to_string(), "c/d");
    assert_eq!(own.relative_to(&other, &cs, false, &ct, true, "/h/").to_string(), "/r/y");
    let checked = own.checked_relative_to(&other, &cs, true, &ct, true, "/h/");
    assert_eq!(checked.map(|p| p.to_string()), Some("c/d".to_string()));
}

#[test]
fn relative_to_with_a_pattern_that_does_not_compile() {
    let own = Path::raw("a(/b");
    let other = Path::raw("a(");
    assert!(own.checked_relative_to(&other, &own, false, &other, false, "/h/").is_none());
}

#[test]
fn is_parent_of_compares_parts() {
    assert!(Path::raw("/a/b").is_parent_of(&Path::raw("/a/b/c")));
    assert!(!Path::raw("/a/b").is_parent_of(&Path::raw("/a/b")));
    assert!(!Path::raw("/a/x").is_parent_of(&Path::raw("/a/b/c")));
    assert!(!Path::raw("/a/b/c").is_parent_of(&Path::raw("/a/b")));
}

#[test]
fn test_file_of_node_relative() {
    let meta = FSNode::from_metadata(FilePath::from("/home/user/docs/a.txt"), 0o100644, None, None, None, 3, true, false, false);
    let f = File::of(meta);
    assert_eq!(f.path.0, "/home/user/docs/a.txt");
    assert_eq!(f.meta.as_ref().map(|m| m.size), Some(3));
    assert_eq!(f.tostring(), "/home/user/docs/a.txt");
    assert_eq!(f.relative_to("/home/user"), "docs/a.txt");
    assert_eq!(f.relative_wherewith(&Path::raw("/home/user/")).to_string(), "docs/a.txt");
}
