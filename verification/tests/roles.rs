use galaxy_graphql::error::{CustomError, FORBIDDEN_MESSAGE};
use galaxy_graphql::role::{check_user_role_is_allowed, get_role, Role, RoleGuard};

#[test]
fn role_text_round_trip() {
    assert_eq!(Role::Admin.to_string(), "ADMIN");
    assert_eq!(Role::User.to_string(), "USER");
    assert_eq!(Role::parse("ADMIN").unwrap(), Role::Admin);
    assert_eq!(Role::parse("USER").unwrap(), Role::User);
    assert_eq!("ADMIN".parse::<Role>().unwrap(), Role::Admin);
}

#[test]
fn role_parse_is_case_sensitive() {
    assert!(Role::parse("admin").is_err());
    assert!(Role::parse("Admin").is_err());
    assert!(Role::parse("").is_err());
    assert!(Role::parse("ADMIN ").is_err());
}

#[test]
fn get_role_without_header() {
    assert!(matches!(get_role(None), Ok(None)));
}

#[test]
fn get_role_reads_header() {
    assert!(matches!(get_role(Some(b"ADMIN")), Ok(Some(Role::Admin))));
    assert!(matches!(get_role(Some(b"USER")), Ok(Some(Role::User))));
}

#[test]
fn get_role_unknown_role() {
    let err = get_role(Some(b"GUEST")).unwrap_err();
    assert_eq!(err.message, "Matching variant not found");
}

#[test]
fn get_role_not_visible_ascii() {
    let err = get_role(Some(&[0xC3, 0xA9])).unwrap_err();
    assert_eq!(err.message, "failed to convert header to a str");
}

#[test]
fn check_role_allowed() {
    assert!(check_user_role_is_allowed(&Ok(Some(Role::Admin)), &Role::Admin).is_ok());
}

#[test]
fn check_role_other_role_forbidden() {
    let err = check_user_role_is_allowed(&Ok(Some(Role::User)), &Role::Admin).unwrap_err();
    assert_eq!(err.message, FORBIDDEN_MESSAGE);
}

#[test]
fn check_role_missing_forbidden() {
    let err = check_user_role_is_allowed(&Ok(None), &Role::Admin).unwrap_err();
    assert_eq!(err.message, "Forbidden");
}

#[test]
fn check_role_lookup_error() {
    let failed: Result<Option<Role>, CustomError> = Err(CustomError::from_message("boom"));
    let err = check_user_role_is_allowed(&failed, &Role::Admin).unwrap_err();
    assert_eq!(err.message, "Error while getting a user's role: boom");
}

#[test]
fn guard_without_lookup_is_forbidden() {
    let guard = RoleGuard::new(Role::Admin);
    assert_eq!(guard.check(None).unwrap_err().message, "Forbidden");
    let ok: Result<Option<Role>, CustomError> = Ok(Some(Role::Admin));
    assert!(guard.check(Some(&ok)).is_ok());
}

#[test]
fn guard_can_be_disabled() {
    let guard = RoleGuard::new(Role::Admin);
    assert!(guard.check_unless_disabled(Some("true"), None).is_ok());
    assert_eq!(guard.check_unless_disabled(Some("false"), None).unwrap_err().message, "Forbidden");
    assert_eq!(guard.check_unless_disabled(None, None).unwrap_err().message, "Forbidden");
}

#[test]
fn custom_error_conversions() {
    let e: CustomError = "some message".into();
    assert_eq!(e.message, "some message");
    let e: CustomError = strum::ParseError::VariantNotFound.into();
    assert_eq!(e.message, "Matching variant not found");
    let bad = http::HeaderValue::from_bytes(&[0xc3, 0xa9]).unwrap();
    let e: CustomError = bad.to_str().unwrap_err().into();
    assert_eq!(e.message, "failed to convert header to a str");
}
