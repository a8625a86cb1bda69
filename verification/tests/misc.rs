use iocore::args::{args_from_string, command_args};
use iocore::buffer::{FileBuffer, SeekPos};
use iocore::bytes::seq_bytes;
use iocore::code::Code;
use iocore::errors::{Error, FileSystemError, FileSystemException};
use iocore::filename::FileName;
use iocore::node::{Node, NodeStack, Timestamp};
use iocore::opts::OpenOptions;
use iocore::path::Path;
use iocore::path_meta::{remove_absolute_path, remove_all_text, replace_all_text, resolved_path, Admission};
use iocore::path_status::PathStatus;
use iocore::path_type::PathType;
use iocore::size::Size;
use iocore::walk::entry::Entry;
use iocore::walk::info::Info;

#[test]
fn test_seq_bytes() {
    assert_eq!(seq_bytes(10), vec![0, 1, 2, 3, 4, 5, 6, 7, 8, 9]);
    let b = seq_bytes(300);
    assert_eq!(b[255], 255);
    assert_eq!(b[256], 1);
    assert_eq!(b[299], 44);
}

#[test]
fn splitting_arguments() {
    assert_eq!(args_from_string("a b/c  --flag  n/o/p "), vec!["a", "b/c", "--flag", "n/o/p"]);
    assert_eq!(args_from_string("  "), Vec::<String>::new());
    assert_eq!(args_from_string("x\ty\nz"), vec!["x", "y", "z"]);
}

#[test]
fn filesystem_errors() {
    let e = FileSystemError::PathDoesNotExist;
    assert_eq!(e.code(), Code::ENOENT);
    assert_eq!(e.errno(), 2);
    assert_eq!(e.as_str(), "path-does-not-exist");
    assert_eq!(e.to_string(), "file does not exist (error:2)");
    assert_eq!(e.to_debug_string(), "path-does-not-exist:2");
    assert_eq!(FileSystemError::UnsafeFileContent.code(), Code::EIEIO);
    let x = FileSystemException::with_detail(FileSystemError::ReadFile, Path::raw("/a"), "boom");
    assert_eq!(x.error(), FileSystemError::ReadFile);
    assert_eq!(x.message(), "reading file (error:1) error on \"/a\": boom");
    assert_eq!(x.to_string(), "\"/a\": reading file (error:1) reading file (error:1) error on \"/a\": boom");
    let y = FileSystemException::without_detail(FileSystemError::SetMode, Path::raw("b"));
    assert_eq!(y.message(), "setting mode on file (error:1) error on \"b\"");
    let err = Error::from_exception(&y);
    assert_eq!(err.to_string(), format!("FileSystemError: {}", y.to_string()));
    assert_eq!(Error::ParseError("x".to_string()).to_string(), "ParseError: x");
}

#[test]
fn seeking_a_buffer() {
    let mut b = FileBuffer::open_write(Path::raw("/f"), vec![1, 2, 3, 4]);
    assert_eq!(b.len(), 4);
    assert_eq!(b.index(), 4);
    assert_eq!(b.seek(SeekPos::Start(1)), Ok(1));
    assert_eq!(b.seek(SeekPos::Current(2)), Ok(3));
    assert_eq!(b.seek(SeekPos::Current(2)), Err("cannot seek to 2 out-of-bounds".to_string()));
    assert_eq!(b.index(), 3);
    assert_eq!(b.seek(SeekPos::End(1)), Ok(3));
    assert_eq!(b.seek(SeekPos::End(-4)), Ok(0));
    assert_eq!(b.seek(SeekPos::End(5)), Err("5 > 4".to_string()));
    assert_eq!(b.seek(SeekPos::End(-5)), Err("cannot seek to 5 Δ -1 < 0".to_string()));
    b.record_write(&[9, 9], 2);
    assert_eq!(b.data(), vec![1, 2, 3, 4, 9, 9]);
    assert_eq!(b.len(), 6);
    let mut r = FileBuffer::open_read(Path::raw("/g"));
    r.record_read(&[5, 6, 7], 2);
    assert_eq!(r.data(), vec![5, 6]);
    assert_eq!(r.index(), 2);
    assert_eq!(r.path(), Path::raw("/g"));
}

#[test]
fn open_options() {
    let mut o = OpenOptions::new();
    assert_eq!(o.to_string(), format!("[mode:{:40o}]", 0o600));
    o.read(true).write(true).mode(0);
    assert_eq!(o.to_string(), "[read,write]");
    o.create(true).append(true).mode(0o755);
    assert_eq!(o.to_string(), format!("[read,write,create,append,mode:{:40o}]", 0o755));
    assert!(o.applies_mode(true));
    assert!(!o.applies_mode(false));
}

#[test]
fn file_names() {
    let n = FileName::new("a.txt").unwrap();
    assert!(n.validate().is_ok());
    assert_eq!(n.to_string(), "a.txt");
    assert_eq!(n.at_path(&Path::raw("/d"), true, true).unwrap(), Path::raw("/d/a.txt"));
    assert_eq!(
        n.at_path(&Path::raw("/d"), true, false).err(),
        Some(Error::PathConversionError(
            "in joining iocore::filename::FileName(\"a.txt\"): \"/d\" exists and is not a diretory".to_string()
        ))
    );
    assert_eq!(
        FileName::new("a/b").err(),
        Some(Error::MalformedFileName("FileName contains path separator \"/\": \"a/b\"".to_string()))
    );
}

fn file_node(path: &str, mode: u32) -> Node {
    let t = Some(Timestamp { secs: 1, nanos: 2 });
    Node::from_metadata(Path::raw(path), 7, 1, 2, 99, false, true, false, t, None, t, mode)
}

#[test]
fn nodes_and_stacks() {
    let n = file_node("/x/y.txt", 0o100644);
    assert_eq!(n.path_type(), PathType::File);
    assert_eq!(n.path_status(), PathStatus::WritableFile);
    assert_eq!(file_node("/x", 0o100444).path_status(), PathStatus::ReadOnlyFile);
    assert_eq!(n.filename(), "y.txt");
    assert!(n.path_exists());
    assert!(n.is_writable_file());
    assert_eq!(n.accessed(), Some(Timestamp { secs: 1, nanos: 2 }));
    assert_eq!(n.created(), None);
    let absent = Node::absent(Path::raw("/z"));
    assert!(!absent.path_exists());
    assert_eq!(absent.path_status(), PathStatus::Nonexistent);
    let mut s = NodeStack::new();
    assert_eq!(s.push(&n), 1);
    assert_eq!(s.push(&absent), 2);
    assert_eq!(s.pop().map(|n| n.path().to_string()), Some("/z".to_string()));
    assert_eq!(s.len(), 1);
    assert_eq!(s.pop().map(|n| n.size), Some(99));
    assert!(s.pop().is_none());
}

#[test]
fn walk_entries() {
    let n = file_node("/x/y.txt", 0o100644);
    let e = Entry::from_path(&Path::raw("/x/y.txt"), &n);
    assert!(matches!(e, Entry::File(_)));
    assert_eq!(e.size(), Size::from(99));
    assert_eq!(e.variant_unit_id(), "iocore::walk::entry::Entry::File");
    assert_eq!(e.id(), "iocore::walk::entry::Entry::File%/x/y.txt");
    assert_eq!(e.to_string(), "iocore::walk::entry::Entry::File/x/y.txt");
    let dir = Node::from_metadata(Path::raw("/x"), 1, 1, 1, 10, true, false, false, None, None, None, 0o40755);
    let mut d = Entry::from_info(&Info::of(&Path::raw("/x"), &dir), &dir);
    d.increment_size(Size::from(5));
    assert_eq!(d.size(), Size::from(15));
    let mut f = Entry::from_path(&Path::raw("/x/y.txt"), &n);
    f.increment_size(Size::from(5));
    assert_eq!(f.size(), Size::from(99));
    let mut i = Info::of(&Path::raw("/q"), &n);
    assert_eq!(i.increment_size(Size::from(1)), Size::from(100));
    assert_eq!(i.path(), Path::raw("/q"));
}

#[test]
fn admissions_and_existence() {
    let p = Path::raw("/w");
    assert!(matches!(Path::writable_file(p.clone(), PathStatus::WritableFile), Admission::Ready(_)));
    assert!(matches!(Path::writable_file(p.clone(), PathStatus::Nonexistent), Admission::CreateParents(_)));
    match Path::writable_directory(p.clone(), PathStatus::WritableFile) {
        Admission::Refused(e) => assert_eq!(
            e.to_string(),
            "FileSystemError: \"/w\": non-writable file (error:1) non-writable file (error:1) error on \"/w\": path (exists as writable file)"
        ),
        _ => panic!("expected a refusal"),
    }
    let absent = Node::absent(Path::raw("/none"));
    assert!(Path::existing("/none", "/h/", &absent).is_err());
    assert!(Path::existing("/f", "/h/", &file_node("/f", 0o644)).is_ok());
    assert_eq!(
        Path::file("/d", "/h/", Ok(&absent)).err(),
        Some(Error::UnexpectedPathType("/d is not a file".to_string()))
    );
    assert_eq!(Path::readable_file(Path::raw("/f"), &file_node("/f", 0o777)), Ok(Path::raw("/f")));
    assert!(Path::readable_file(Path::raw("/f"), &file_node("/f", 0o003)).is_err());
}

#[test]
fn removing_text() {
    assert_eq!(remove_all_text("a/b/a/b", "a/"), "b/b");
    assert_eq!(remove_all_text("aaa", "aa"), "a");
    assert_eq!(remove_all_text("abc", ""), "abc");
    assert_eq!(remove_absolute_path(&Path::raw("x/y"), &Path::raw("/cwd")), Path::raw("x/y"));
    assert_eq!(remove_absolute_path(&Path::raw("/x"), &Path::raw("/cwd")), Path::raw("/x"));
}

#[test]
fn replacing_text() {
    assert_eq!(replace_all_text("a/b/a", "a", "x"), "x/b/x");
    assert_eq!(replace_all_text("ab", "", "~"), "ab".replace("", "~"));
    assert_eq!(replace_all_text("aaa", "aa", "b"), "aaa".replace("aa", "b"));
    assert_eq!(resolved_path(&Path::raw("/home/u/x"), "/home/u"), "~/x");
}

#[test]
fn creation_append_and_symlink_decisions() {
    let p = Path::raw("/x/y.txt");
    assert_eq!(p.creatable(&file_node("/x/y.txt", 0o100644)), Ok(()));
    assert_eq!(p.creatable(&Node::absent(Path::raw("/x/y.txt"))), Ok(()));
    let dir = Node::from_metadata(Path::raw("/x/y.txt"), 1, 1, 1, 10, true, false, false, None, None, None, 0o40755);
    match p.creatable(&dir) {
        Err(Error::FileSystemError(m)) => {
            assert!(m.starts_with("\"/x/y.txt\": "), "{}", m);
            assert!(m.contains("path exists (directory)"), "{}", m);
        },
        other => panic!("unexpected {:?}", other),
    }
    assert_eq!(p.appendable(&file_node("/x/y.txt", 0o100644)), Ok(()));
    match p.appendable(&file_node("/x/y.txt", 0o100444)) {
        Err(Error::FileSystemError(m)) => assert!(m.contains("not writable file"), "{}", m),
        other => panic!("unexpected {:?}", other),
    }
    assert_eq!(p.symlink_target(Path::raw("/x/link"), PathStatus::Nonexistent), Ok(Path::raw("/x/link")));
    assert_eq!(p.symlink_target(Path::raw("/x/link"), PathStatus::WritableSymlink), Ok(Path::raw("/x/link")));
    assert_eq!(p.symlink_target(Path::raw("/x/link"), PathStatus::WritableFile), Ok(Path::raw("/x/link")));
    match p.symlink_target(Path::raw("/x/d"), PathStatus::WritableDirectory) {
        Err(Error::FileSystemError(m)) => {
            assert!(m.starts_with("\"/x/y.txt\": "), "{}", m);
            assert!(m.contains("to /x/d path exists as a "), "{}", m);
        },
        other => panic!("unexpected {:?}", other),
    }
}

#[test]
fn command_args_split_at_spaces_and_trimmed() {
    assert_eq!(command_args("echo\t x"), vec!["echo", "x"]);
    assert_eq!(command_args("ls  -la"), vec!["ls", "", "-la"]);
    assert_eq!(command_args(""), vec![""]);
}

#[test]
fn seek_computable_guards_overflow() {
    let b = FileBuffer::open_write(Path::raw("/f"), vec![1, 2, 3, 4]);
    assert!(b.seek_computable(SeekPos::Start(u64::MAX)));
    assert!(b.seek_computable(SeekPos::End(-2)));
    assert!(!b.seek_computable(SeekPos::End(i64::MIN)));
    assert!(b.seek_computable(SeekPos::Current(-4)));
    assert!(!b.seek_computable(SeekPos::Current(i64::MAX)));
    assert!(b.seek_computable(SeekPos::Current(i64::MAX - 4)));
}

#[test]
fn command_args_trim_unicode_white_space() {
    assert_eq!(command_args("\u{3000}run\u{a0} \u{2003}x\u{85}"), vec!["run", "x"]);
}
