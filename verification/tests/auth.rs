use std::time::{SystemTime, UNIX_EPOCH};

use galaxy_graphql::claims::{claims_issued_at, create_jwt_claims, get_jwt_secret_key};
use galaxy_graphql::password::{hash_password, verify_password, PasswordErrorKind};
use galaxy_graphql::role::Role;
use galaxy_graphql::users::{create_user_entity, new_user_entity, sign_in, User, UserEntity, UserInput};

fn now() -> i64 {
    SystemTime::now().duration_since(UNIX_EPOCH).unwrap().as_secs() as i64
}

fn stored_user(password: &str, role: &str) -> UserEntity {
    UserEntity {
        id: 1,
        username: "john_doe".to_string(),
        hash: hash_password(password).unwrap(),
        first_name: "John".to_string(),
        last_name: "Doe".to_string(),
        role: role.to_string(),
    }
}

#[test]
fn hashed_password_verifies() {
    let hash = hash_password("password").unwrap();
    assert_ne!(hash, "password");
    assert!(hash.starts_with("$argon2id$"));
    assert!(verify_password(&hash, "password").is_ok());
}

#[test]
fn hashes_use_fresh_salts() {
    assert_ne!(hash_password("password").unwrap(), hash_password("password").unwrap());
}

#[test]
fn wrong_password_is_invalid() {
    let hash = hash_password("password").unwrap();
    let err = verify_password(&hash, "wrong_password").unwrap_err();
    assert_eq!(err.kind, PasswordErrorKind::InvalidPassword);
    assert_eq!(err.message, "invalid password");
}

#[test]
fn malformed_hash_is_another_error() {
    let err = verify_password("not a hash", "password").unwrap_err();
    assert_eq!(err.kind, PasswordErrorKind::Other);
}

#[test]
fn hash_text_without_phc_start_is_refused_for_every_password() {
    for password in ["", "password", "ü"] {
        assert_eq!(verify_password("", password).unwrap_err().kind, PasswordErrorKind::Other);
        assert_eq!(verify_password("argon2id$v=19", password).unwrap_err().kind, PasswordErrorKind::Other);
    }
}

#[test]
fn claims_expire_an_hour_later() {
    let claims = claims_issued_at("john_doe".to_string(), Role::Admin, 1_000);
    assert_eq!(claims.sub, "john_doe");
    assert_eq!(claims.exp, 4_600);
    assert_eq!(claims.role, "ADMIN");
}

#[test]
fn claims_are_issued_now() {
    let before = now();
    let claims = create_jwt_claims("jane".to_string(), Role::User);
    let after = now();
    assert!(before + 3600 <= claims.exp && claims.exp <= after + 3600);
    assert_eq!(claims.role, "USER");
}

#[test]
fn secret_key_comes_from_the_setting() {
    assert_eq!(get_jwt_secret_key(Some("example")), "example");
}

#[test]
fn test_sign_in() {
    let user = stored_user("password", "ADMIN");
    let claims = sign_in(&user, "password").unwrap();
    assert_eq!("john_doe", &claims.sub);
    assert_eq!("ADMIN", &claims.role);
    assert!(claims.exp > now());
}

#[test]
fn test_sign_in_fails() {
    let user = stored_user("password", "ADMIN");
    let err = sign_in(&user, "wrong_password").unwrap_err();
    assert_eq!("Can't authenticate a user", err.message);
}

#[test]
fn sign_in_with_unknown_role() {
    let user = stored_user("password", "GUEST");
    assert_eq!(sign_in(&user, "password").unwrap_err().message, "Matching variant not found");
}

#[test]
fn created_user_can_sign_in() {
    let input = UserInput {
        username: "jane".to_string(),
        password: "secret".to_string(),
        first_name: "Jane".to_string(),
        last_name: "Roe".to_string(),
        role: Role::User,
    };
    let entity = create_user_entity(input).unwrap();
    assert_eq!(entity.role, "USER");
    let stored = UserEntity {
        id: 2,
        username: entity.username,
        hash: entity.hash,
        first_name: entity.first_name,
        last_name: entity.last_name,
        role: entity.role,
    };
    let claims = sign_in(&stored, "secret").unwrap();
    assert_eq!(claims.sub, "jane");
    assert_eq!(claims.role, "USER");
    let user = User::from_entity(&stored);
    assert_eq!(user.role, Role::User);
    assert_eq!(user.first_name, "Jane");
}

#[test]
fn new_user_entity_keeps_fields() {
    let input = UserInput {
        username: "a".to_string(),
        password: "p".to_string(),
        first_name: "b".to_string(),
        last_name: "c".to_string(),
        role: Role::Admin,
    };
    let e = new_user_entity(input, "h".to_string());
    assert_eq!((e.username.as_str(), e.hash.as_str(), e.role.as_str()), ("a", "h", "ADMIN"));
}

#[test]
fn hash_is_an_argon2id_phc_string_holding_its_salt() {
    let prefix = "$argon2id$v=19$m=19456,t=2,p=1$";
    let hash = hash_password("password").unwrap();
    assert!(hash.starts_with(prefix));
    let rest = &hash[prefix.len()..];
    let (salt, output) = rest.split_once('$').unwrap();
    assert_eq!(salt.len(), 22);
    assert!(!output.is_empty());
    let other = hash_password("password").unwrap();
    assert_ne!(hash, other);
    assert!(verify_password(&other, "password").is_ok());
}
