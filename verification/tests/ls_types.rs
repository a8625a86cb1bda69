use iocore::ls_node_type::LsNodeType;
use iocore::ls_path_type::LsPathType;
use iocore::path_type::PathType;

#[test]
fn test_ls_path_type_from_path_type() {
    assert_eq!(LsPathType::from(PathType::File), LsPathType::File);
    assert_eq!(LsPathType::from(PathType::Symlink), LsPathType::Symlink);
    assert_eq!(LsPathType::from(PathType::Setuid), LsPathType::Setuid);
    assert_eq!(LsPathType::from(PathType::Directory), LsPathType::Directory);
    assert_eq!(LsPathType::from(PathType::Nonexistent), LsPathType::Nonexistent);
}

#[test]
fn test_ls_path_type_into_char() {
    assert_eq!(LsPathType::File.into_char(), '-');
    assert_eq!(LsPathType::Symlink.into_char(), 'l');
    assert_eq!(LsPathType::Setuid.into_char(), 's');
    assert_eq!(LsPathType::Directory.into_char(), 'd');
    assert_eq!(LsPathType::Nonexistent.into_char(), '?');
}

#[test]
fn test_ls_path_type_to_string() {
    assert_eq!(LsPathType::File.to_string(), "-");
    assert_eq!(LsPathType::Symlink.to_string(), "l");
    assert_eq!(LsPathType::Setuid.to_string(), "s");
    assert_eq!(LsPathType::Directory.to_string(), "d");
    assert_eq!(LsPathType::Nonexistent.to_string(), "?");
}

#[test]
fn ls_types_round_trip_through_path_types() {
    for t in [PathType::File, PathType::Symlink, PathType::Setuid, PathType::Directory, PathType::Nonexistent] {
        assert_eq!(LsPathType::from(t).path_type(), t);
        assert_eq!(LsNodeType::from(t).path_type(), t);
    }
}

#[test]
fn path_type_names() {
    assert_eq!(PathType::File.to_str(), "file");
    assert_eq!(PathType::from_name("FILE"), PathType::File);
    assert_eq!(PathType::from_name("Directory"), PathType::Directory);
    assert_eq!(PathType::from_name("whatever"), PathType::Nonexistent);
}

#[test]
fn path_type_names_read_back_in_any_case() {
    for t in [PathType::File, PathType::Symlink, PathType::Setuid, PathType::Directory, PathType::Nonexistent] {
        assert_eq!(PathType::from_name(t.to_str()), t);
        assert_eq!(PathType::from_name(&t.to_str().to_uppercase()), t);
    }
    assert_eq!(PathType::from_name("SymLink"), PathType::Symlink);
    assert_eq!(PathType::from_name("folder"), PathType::Nonexistent);
}
