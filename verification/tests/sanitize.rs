use iocore::errors::Error;
use iocore::path::{filename_max, Path};
use iocore::sanitize::{safe_string, safe_text};

#[test]
fn test_safe_string_valid_utf8() {
    assert_eq!(safe_string("héllo".as_bytes(), "greeting"), Ok("héllo".to_string()));
    assert_eq!(safe_string(b"", "nothing"), Ok(String::new()));
}

#[test]
fn test_safe_string_refuses_garbage() {
    match safe_string(&[0x61, 0xff, 0x62], "stdout of \"id\"") {
        Err(Error::SafetyError(m)) => {
            assert!(m.ends_with(" in converting \"stdout of \\\"id\\\"\""), "{}", m);
            assert!(m.len() > " in converting ".len());
        },
        other => panic!("unexpected {:?}", other),
    }
}

#[test]
fn test_safe_text() {
    assert_eq!(safe_text(b"abc"), Ok("abc".to_string()));
    assert!(matches!(safe_text(&[0xc3]), Err(Error::SafetyError(_))));
}

#[test]
fn test_text_of_contents() {
    let p = Path::raw("/tmp/file.txt");
    assert_eq!(p.text_of_contents(b"line\n"), Ok("line\n".to_string()));
    match p.text_of_contents(&[0xfe, 0xfe]) {
        Err(Error::FileSystemError(m)) => assert!(m.starts_with("\"/tmp/file.txt\": "), "{}", m),
        other => panic!("unexpected {:?}", other),
    }
}

#[test]
fn test_filename_max() {
    assert_eq!(filename_max("macos"), 255);
    assert_eq!(filename_max("linux"), 1024);
}

#[test]
fn test_path_safe() {
    assert_eq!(Path::safe("~/a//b", "/home/u/", "linux"), Ok(Path::raw("/home/u/a/b")));
    let long = "a".repeat(1025);
    match Path::safe(&long, "/home/u/", "linux") {
        Err(Error::FileSystemError(m)) => {
            assert_eq!(m, format!("iocore::fs::Path path too long in \"linux\": {:?}", long))
        },
        other => panic!("unexpected {:?}", other),
    }
    assert!(Path::safe(&"a".repeat(1024), "/home/u/", "linux").is_ok());
    assert!(Path::safe(&"a".repeat(256), "/home/u/", "macos").is_err());
}
