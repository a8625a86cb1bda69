use iocore::errors::Error;
use iocore::sys::{
    guess_unix_home, parse_u32, path_owned_expectedly, split_fields, unix_home_candidates,
    unix_user_info_home, u32_from_str, Group, NumberFailure, User, XPC,
};
use iocore::path::Path;

#[test]
fn test_user_from_id_cmd_string() {
    let stdout = format!("uid=501(name) gid=20(group) groups=20(group),101(access_bpf),12(everyone),61(localaccounts),79(_appserverusr),80(admin),81(_appserveradm),98(_lpadmin),701(com.apple.sharepoint.group.1),702(com.apple.sharepoint.group.2),33(_appstore),100(_lpoperator),204(_developer),250(_analyticsusers),395(com.apple.access_ftp),398(com.apple.access_screensharing)");
    let user = User::from_id_cmd_string(&stdout).unwrap();

    assert_eq!(user.gid, 20);
    assert_eq!(user.uid, 501);
    assert_eq!(user.name, "name");
    assert_eq!(user.group, "group");
    let expected: Vec<(u32, &str)> = vec![
        (501, "name"),
        (20, "group"),
        (20, "group"),
        (101, "access_bpf"),
        (12, "everyone"),
        (61, "localaccounts"),
        (79, "_appserverusr"),
        (80, "admin"),
        (81, "_appserveradm"),
        (98, "_lpadmin"),
        (701, "com.apple.sharepoint.group.1"),
        (702, "com.apple.sharepoint.group.2"),
        (33, "_appstore"),
        (100, "_lpoperator"),
        (204, "_developer"),
        (250, "_analyticsusers"),
        (395, "com.apple.access_ftp"),
        (398, "com.apple.access_screensharing"),
    ];
    assert_eq!(
        user.groups,
        expected.into_iter().map(|(gid, name)| Group { gid, name: name.to_string() }).collect::<Vec<Group>>()
    );
}

#[test]
fn id_output_without_a_user() {
    assert_eq!(
        User::from_id_cmd_string("nothing here"),
        Err(Error::SystemError("could not secure user information from /usr/bin/id".to_string()))
    );
    let r = User::checked_from_id_cmd_string("uid=99999999999(a) gid=1(b)");
    assert_eq!(
        r,
        Some(Err(Error::SafetyError(
            "number too large to fit in target type in converting \"99999999999\" \"uid\" to u32".to_string()
        )))
    );
    assert_eq!(User::checked_from_id_cmd_string("uid=1(a) gid=2(b) groups=99999999999(c)"), None);
    let u = User::checked_from_id_cmd_string("uid=1(a) gid=2(b)").unwrap().unwrap();
    assert_eq!((u.uid(), u.gid(), u.name()), (1, 2, "a".to_string()));
    let r = User::from_id_cmd_string("uid=1(a) gid=99999999999(b) x");
    assert_eq!(
        r,
        Err(Error::SafetyError(
            "number too large to fit in target type in converting \"99999999999\" \"gid\" to u32".to_string()
        ))
    );
}

#[test]
fn parsing_numbers() {
    assert_eq!(u32_from_str("42"), Ok(42));
    assert_eq!(u32_from_str("+42"), Ok(42));
    assert_eq!(u32_from_str("-42"), Err(NumberFailure::InvalidDigit));
    assert_eq!(u32_from_str("+"), Err(NumberFailure::InvalidDigit));
    assert_eq!(u32_from_str(""), Err(NumberFailure::Empty));
    assert_eq!(u32_from_str("4294967295"), Ok(u32::MAX));
    assert_eq!(u32_from_str("4294967296"), Err(NumberFailure::PosOverflow));
    assert_eq!(u32_from_str("99999999999x"), Err(NumberFailure::PosOverflow));
    assert_eq!(u32_from_str("4x"), Err(NumberFailure::InvalidDigit));
    for s in ["0", "7", "123", "+9", "-1", "", "1 ", "٣"] {
        assert_eq!(u32_from_str(s).ok(), s.parse::<u32>().ok());
    }
    assert_eq!(
        parse_u32("x", "uid"),
        Err(Error::SafetyError("invalid digit found in string in converting \"x\" \"uid\" to u32".to_string()))
    );
}

#[test]
fn passwd_lookup() {
    let lines: Vec<String> = vec![
        "root:x:0:0:root:/root:/bin/bash".to_string(),
        "user:x:1000:1000:User:/home/user:/bin/sh".to_string(),
    ];
    // The seventh field of a seven-field line is taken.
    assert_eq!(unix_user_info_home(&lines, "/etc/passwd", "user", 1000), Ok("/bin/sh".to_string()));
    assert_eq!(
        unix_user_info_home(&lines, "/etc/passwd", "user", 7),
        Err(Error::SystemError("unexpected uid in \"/etc/passwd:2\": 1000 != 7".to_string()))
    );
    assert_eq!(
        unix_user_info_home(&lines, "/etc/passwd", "nobody", 7),
        Err(Error::SystemError("home not found in /etc/passwd for uid 7 (nobody)".to_string()))
    );
    let odd = vec!["user:x:1000:extra".to_string()];
    assert_eq!(
        unix_user_info_home(&odd, "p", "user", 1000),
        Err(Error::SystemError("unexpected number of fields in \"p:1\" 4".to_string()))
    );
    assert_eq!(split_fields("a::b", ':'), vec!["a", "", "b"]);
}

#[test]
fn home_guesses() {
    assert_eq!(unix_home_candidates("me"), ("/home/me".to_string(), "/Users/me".to_string()));
    assert_eq!(guess_unix_home("me", false, true), Ok("/Users/me".to_string()));
    assert_eq!(
        guess_unix_home("me", false, false),
        Err(Error::HomePathError("neither paths seem to be home of user \"me\"".to_string()))
    );
    assert!(path_owned_expectedly(Path::raw("/home/me"), "me", 5, 5).is_ok());
    assert_eq!(
        path_owned_expectedly(Path::raw("/home/me"), "me", 5, 6).map(|p| p.to_string()),
        Err(Error::SystemError("\"/home/me\" ain't owned by uid 5 (\"me\")".to_string()))
    );
}

#[test]
fn test_xpc_from_vars() {
    let x = XPC::from_vars(Some("1"), Some("0x0f"), Some("com.example.svc".to_string()));
    assert_eq!(
        x,
        XPC {
            null_bootstrap: Some(true),
            flags: Some(vec![0x0f]),
            service_name: Some("com.example.svc".to_string()),
        }
    );
    let y = XPC::from_vars(Some("0"), Some("0xffff"), None);
    assert_eq!(y.null_bootstrap, Some(false));
    assert_eq!(y.flags, Some(vec![0xff, 0xff]));
    assert_eq!(y.service_name, None);
    assert_eq!(XPC::from_vars(Some("7"), None, None).null_bootstrap, Some(true));
    assert_eq!(XPC::from_vars(Some("300"), Some("zz"), None), XPC { null_bootstrap: None, flags: None, service_name: None });
    assert_eq!(XPC::from_vars(Some("abc"), Some(""), None).flags, None);
    assert_eq!(XPC::from_vars(None, None, None).null_bootstrap, None);
}

const USER: &str = "alice";

#[test]
fn sys_test_guess_unix_home_macosx() {
    assert_eq!(guess_unix_home(USER, false, true).unwrap(), format!("/Users/{}", USER));
}

#[test]
fn sys_test_guess_unix_home_linux() {
    assert_eq!(guess_unix_home(USER, true, false).unwrap(), format!("/home/{}", USER));
}

#[test]
fn test_sys_test_guess_unix_home_macosx() {
    let user = "bob";
    assert_eq!(guess_unix_home(user, false, true).unwrap(), format!("/Users/{}", user));
}

#[test]
fn test_sys_test_guess_unix_home_linux() {
    let user = "bob";
    assert_eq!(guess_unix_home(user, true, true).unwrap(), format!("/home/{}", user));
}
