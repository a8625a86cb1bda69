use iocore::node::Node;
use iocore::path::Path;
use iocore::path_status::PathStatus;
use iocore::path_type::PathType;

const TILDE: &str = "/home/user/";

fn new(p: &str) -> Path {
    Path::new(p, TILDE)
}

#[test]
fn test_path_join() {
    let folder = new("folder");
    assert_eq!(folder.join("a"), new("folder/a"));
    assert_eq!(folder.join("a/b"), new("folder/a/b"));
    assert_eq!(folder.join("a").join("b"), new("folder/a/b"));
    assert_eq!(folder.join("/a"), new("/a"));
}

#[test]
fn test_split_extension() {
    let path = new("/foo/baz.txt");
    assert_eq!(path.split_extension(), ("baz".to_string(), Some("txt".to_string())));
}

#[test]
fn test_join_extension() {
    let path = Path::join_extension("baz", Some("txt".to_string()));
    assert_eq!(path, "baz.txt");
}

#[test]
fn test_tildify() {
    let cargo_path = Path::raw("/home/user").join(".cargo");
    assert_eq!(cargo_path.to_string().starts_with("~"), false);
    assert_eq!(cargo_path.tildify(TILDE).to_string(), "~/.cargo");
    assert_eq!(new(&cargo_path.tildify(TILDE).to_string()).to_string(), cargo_path.to_string());
}

#[test]
fn test_path_contains() {
    let test_path = Path::raw("/src/project/tests/test_path.rs");
    assert!(test_path.contains("test_path.rs"));
    assert!(test_path.contains("tests/test_path.rs"));
    assert!(test_path.contains("sts/test_path.rs"));
    assert!(test_path.contains("_path.rs"));
    assert!(!test_path.contains("nope"));
}

#[test]
fn test_path_from_path_buf() {
    assert_eq!(Path::raw("/resolved/path"), Path::raw("/resolved/path"));
    assert_eq!(Path::from_string("/resolved/path".to_string()), Path::raw("/resolved/path"));
}

#[test]
fn test_path_inner_string() {
    assert_eq!(Path::raw("string").inner_string(), String::from("string"));
}

#[test]
fn test_path_with_filename() {
    let path = Path::raw("path/with-filename.rs");
    assert_eq!(path.with_filename("with-filename.go"), Path::raw("path/with-filename.go"));
}

#[test]
fn new_collapses_separators_and_expands_home() {
    assert_eq!(new("a//b///c").to_string(), "a/b/c");
    assert_eq!(new("~/x").to_string(), "/home/user/x");
    assert_eq!(new("~x").to_string(), "~x");
}

#[test]
fn names_parts_and_parents() {
    let p = Path::raw("/a/b/c.tar.gz");
    assert_eq!(p.name(), "c.tar.gz");
    assert_eq!(p.extension(), Some(".gz".to_string()));
    assert_eq!(p.split(), vec!["/", "a", "b", "c.tar.gz"]);
    assert_eq!(Path::raw("a//b/").split(), vec!["a", "b"]);
    assert_eq!(p.parent().unwrap(), Path::raw("/a/b"));
    assert_eq!(Path::raw("x").parent().unwrap(), Path::raw("./"));
    assert_eq!(p.parents(), "/a/b");
    assert_eq!(p.parent_name(), "b");
    assert_eq!(p.without_extension(), Path::raw("/a/b/c.tar"));
    assert_eq!(p.with_extension("txt", TILDE), Path::raw("/a/b/c.tar.txt"));
    assert_eq!(Path::raw("/a/.hidden").extension(), None);
    assert!(Path::raw("/a/.hidden").is_hidden());
    assert_eq!(Path::raw("/a/b").hidden(), Path::raw("/a/.b"));
    assert_eq!(Path::raw("/a/..").name(), "");
    assert!(Path::raw("/a").is_absolute());
    assert!(!Path::raw("a").is_absolute());
    assert_eq!(Path::raw("ab").to_bytes(), vec![97u8, 98u8]);
}

#[test]
fn expanding_home() {
    assert_eq!(Path::raw("~/x").expand("/root"), Path::raw("/root/x"));
    assert_eq!(Path::raw("x/~").expand("/root"), Path::raw("x/~"));
    assert_eq!(Path::raw("~/x").try_expand(None, "/home/u/"), Path::raw("/home/u//x"));
}

fn node(path: &str, is_file: bool, is_dir: bool, mode: u32) -> Node {
    Node::from_metadata(Path::raw(path), 1, 2, 3, 10, is_dir, is_file, false, None, None, None, mode)
}

#[test]
fn metadata_queries() {
    let p = Path::raw("/f");
    let file = node("/f", true, false, 0o100644);
    assert_eq!(p.kind(&file), PathType::File);
    assert!(p.is_file(&file));
    assert!(p.path_exists(&file));
    assert_eq!(p.file_size(&file), 10);
    assert_eq!(p.mode(&file), 0o644);
    assert_eq!(p.status(&file, PathStatus::Nonexistent), PathStatus::WritableFile);
    let ro = node("/f", true, false, 0o100444);
    assert_eq!(p.status(&ro, PathStatus::WritableDirectory), PathStatus::ReadOnlyFile);
    let none = Node::absent(Path::raw("/g"));
    assert!(!p.path_exists(&none));
    assert_eq!(p.status(&none, PathStatus::WritableDirectory), PathStatus::WritableFile);
    assert_eq!(p.status(&none, PathStatus::ReadOnlyDirectory), PathStatus::Nonexistent);
    assert!(p.is_writable_file(&none, PathStatus::ReadOnlyDirectory));
    assert!(p.owner_readable(&file));
    assert!(p.owner_writable(&file));
    assert!(!p.owner_executable(&file));
    assert!(p.group_readable(&file));
    assert!(!p.group_writable(&file));
    assert!(p.others_readable(&file));
    assert!(!p.others_writable(&file));
    assert!(p.others_executable(&node("/f", true, false, 0o755)));
    assert!(!p.others_executable(&node("/f", true, false, 0o754)));
}

#[test]
fn permission_queries_of_mode_640() {
    let p = Path::raw("/f");
    let f = node("/f", true, false, 0o100640);
    assert_eq!(p.mode(&f), 0o640);
    assert!(p.readable(&f));
    assert!(p.writable(&f));
    assert!(!p.executable(&f));
    assert!(p.owner_readable(&f) && p.owner_writable(&f) && !p.owner_executable(&f));
    assert!(p.group_readable(&f) && !p.group_writable(&f) && !p.group_executable(&f));
    assert!(!p.others_readable(&f) && !p.others_writable(&f) && !p.others_executable(&f));
    assert_eq!(Path::readable_file(Path::raw("/f"), &f), Ok(Path::raw("/f")));
    let none = node("/f", true, false, 0o100004);
    assert!(!p.readable(&none));
    assert!(Path::readable_file(Path::raw("/f"), &none).is_err());
}

#[test]
fn hiding_twice_changes_nothing() {
    let h = Path::raw("a/b.txt").hidden();
    assert_eq!(h.to_string(), "a/.b.txt");
    assert!(h.name().starts_with('.'));
    assert_eq!(h.hidden(), h);
    assert_eq!(Path::raw("x/.y").hidden(), Path::raw("x/.y"));
    assert_eq!(Path::raw("c").hidden().hidden().to_string(), Path::raw("c").hidden().to_string());
}

#[test]
fn tildify_then_new_round_trip() {
    for p in ["/home/user/a/b", "/etc/passwd", "relative/x"] {
        let path = Path::raw(p);
        assert_eq!(Path::new(&path.tildify("/home/user/").to_string(), "/home/user/"), path);
    }
}

#[test]
fn test_path_as_str() {
    let here = Path::raw("/work/iocore");
    let file = Path::raw("/work/iocore/tests/test_path.rs");
    let test_path = file.relative_to_cwd(&here, &file, true, &here, true, TILDE).unwrap();
    assert_eq!(test_path.as_str(), "tests/test_path.rs");
}

#[test]
fn test_path_str() {
    assert_eq!(Path::raw("&'static str").as_str(), "&'static str");
}

#[test]
fn test_path_() {
    assert_eq!(Path::raw("&'static str").as_str(), "&'static str");
}
