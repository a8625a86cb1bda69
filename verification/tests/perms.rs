use iocore::errors::Error;
use iocore::perms::{PathPermissions, Permission, RoleBits};

fn p754() -> PathPermissions {
    PathPermissions { user: RoleBits::from_u8(7), group: RoleBits::from_u8(5), other: RoleBits::from_u8(4) }
}

#[test]
fn perms_test_permissions_to_array() {
    assert_eq!(p754().to_array(), [7, 5, 4]);
}

#[test]
fn perms_test_permissions_to_string_octal() {
    assert_eq!(p754().to_string_octal(), "754");
}

#[test]
fn test_parse_permissions_from_u32() {
    let result = PathPermissions::from_u32(0o754);
    assert_eq!(result.is_ok(), true);
    let permissions = result.unwrap();
    assert_eq!(permissions.to_string_octal(), "754");
}

#[test]
fn test_parse_permissions_from_string_octal() {
    let result = PathPermissions::from_string_octal("754");
    assert_eq!(result.is_ok(), true);
    let permissions = result.unwrap();
    assert_eq!(permissions.to_string_octal(), "754");
}

#[test]
fn test_parse_permissions_from_string_octal_error() {
    let result = PathPermissions::from_string_octal("909");
    assert_eq!(result.is_err(), true);
    assert_eq!(
        result,
        Err(Error::FileSystemError("cannot parse u32 from 909 base 8: invalid digit found in string".to_string()))
    );
}

#[test]
fn test_permissions_into_u32() {
    assert_eq!(p754().into_u32(), 0o754);
}

#[test]
fn test_permissions_set() {
    let mut permissions = PathPermissions::default();
    permissions.set_user(true, true, true);
    permissions.set_group(true, false, true);
    permissions.set_other(true, false, false);
    assert_eq!(permissions.to_string(), "754");
    permissions.set_user_executable(false);
    assert_eq!(permissions.to_string(), "654");
    permissions.set_user_readable(false);
    assert_eq!(permissions.to_string(), "254");
    permissions.set_group_executable(false);
    assert_eq!(permissions.to_string(), "244");
    permissions.set_group_readable(false);
    assert_eq!(permissions.to_string(), "204");
    permissions.set_other_readable(false);
    assert_eq!(permissions.to_string(), "200");
}

#[test]
fn test_permission_readable() {
    assert_eq!(Permission(RoleBits(false, false, false)).readable(), false);
    assert_eq!(Permission(RoleBits(true, false, false)).readable(), true);
}

#[test]
fn test_permission_writable() {
    assert_eq!(Permission(RoleBits(false, false, false)).writable(), false);
    assert_eq!(Permission(RoleBits(false, true, false)).writable(), true);
}

#[test]
fn test_permission_executable() {
    assert_eq!(Permission(RoleBits(false, false, false)).executable(), false);
    assert_eq!(Permission(RoleBits(false, false, true)).executable(), true);
}

#[test]
fn permissions_from_a_full_mode_keep_the_low_bits() {
    let p = PathPermissions::from_u32(0o100640).unwrap();
    assert_eq!(p.to_string_octal(), "640");
    assert_eq!(p.into_u32(), 0o640);
    assert_eq!(RoleBits::from_u8(13), RoleBits(true, false, true));
    assert!(p.readable());
    assert!(p.writable());
    assert!(!p.executable());
    assert_eq!(
        PathPermissions::from_string_octal(""),
        Err(Error::FileSystemError("cannot parse u32 from  base 8: cannot parse integer from empty string".to_string()))
    );
    assert_eq!(PathPermissions::from_string_octal("+17").unwrap().into_u32(), 0o17);
}
