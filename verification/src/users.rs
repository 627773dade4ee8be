//! Users of the authentication service: the stored rows, the objects the
//! service shows, account creation and signing in.
use vstd::prelude::*;
use vstd::string::StringSliceAdditionalSpecFns;

use crate::claims::{chrono_timestamp_bound, claims_issued_at, current_timestamp, Claims, TOKEN_LIFETIME_SECONDS};
use crate::error::CustomError;
use crate::password::{
    argon2_hash_outcome, argon2_verify_outcome, hash_password, hash_result_view, is_argon2id_phc_string,
    password_error_view, valid_salt, verify_password, PasswordError, PasswordErrorKind,
};
use crate::role::{parse_role_spec, role_name, Role};

verus! {

/// A stored user.
#[derive(Debug)]
pub struct UserEntity {
    pub id: i32,
    pub username: String,
    pub hash: String,
    pub first_name: String,
    pub last_name: String,
    pub role: String,
}

/// A user to be stored.
#[derive(Debug)]
pub struct NewUserEntity {
    pub username: String,
    pub hash: String,
    pub first_name: String,
    pub last_name: String,
    pub role: String,
}

/// A user as the service shows it.
#[derive(Debug)]
pub struct User {
    pub username: String,
    pub first_name: String,
    pub last_name: String,
    pub role: Role,
}

/// The input of account creation.
pub struct UserInput {
    pub username: String,
    pub password: String,
    pub first_name: String,
    pub last_name: String,
    pub role: Role,
}

/// The input of signing in.
pub struct SignInInput {
    pub username: String,
    pub password: String,
}

impl User {
    /// The user that a stored row describes; its role text names a role.
    pub fn from_entity(entity: &UserEntity) -> (r: User)
        requires
            parse_role_spec(entity.role@) is Some,
        ensures
            r.username@ == entity.username@,
            r.first_name@ == entity.first_name@,
            r.last_name@ == entity.last_name@,
            Some(r.role) == parse_role_spec(entity.role@),
    {
        let role = match Role::parse(entity.role.as_str()) {
            Ok(role) => role,
            Err(_) => Role::User,
        };
        User {
            username: entity.username.clone(),
            first_name: entity.first_name.clone(),
            last_name: entity.last_name.clone(),
            role,
        }
    }
}

/// The row to store for a new account whose password hashed to `hash`.
pub fn new_user_entity(user: UserInput, hash: String) -> (r: NewUserEntity)
    ensures
        r.username@ == user.username@,
        r.hash@ == hash@,
        r.first_name@ == user.first_name@,
        r.last_name@ == user.last_name@,
        r.role@ == role_name(user.role),
{
    let role = user.role.to_string();
    NewUserEntity {
        username: user.username,
        hash,
        first_name: user.first_name,
        last_name: user.last_name,
        role,
    }
}

/// The hash of a new row, or the error of the hasher, with its kind and
/// message.
pub open spec fn entity_hash_view(r: Result<NewUserEntity, PasswordError>) -> Result<Seq<char>, (PasswordErrorKind, Seq<char>)> {
    match r {
        Ok(e) => Ok(e.hash@),
        Err(e) => Err(password_error_view(e)),
    }
}

/// The row to store for a new account: its password hashed with a fresh
/// salt, or the error of the hasher. The stored hash verifies the password.
pub fn create_user_entity(user: UserInput) -> (r: Result<NewUserEntity, PasswordError>)
    ensures
        exists|salt: Seq<char>|
            valid_salt(salt) && entity_hash_view(r) == argon2_hash_outcome(
                vstd::utf8::encode_utf8(user.password@),
                salt,
            ) && (r matches Ok(e) ==> is_argon2id_phc_string(e.hash@, salt)),
        r matches Ok(e) ==> {
            &&& e.username@ == user.username@
            &&& e.first_name@ == user.first_name@
            &&& e.last_name@ == user.last_name@
            &&& e.role@ == role_name(user.role)
            &&& argon2_verify_outcome(e.hash@, vstd::utf8::encode_utf8(user.password@)) is Ok
        },
{
    let ghost password = user.password@;
    let hashed = hash_password(user.password.as_str());
    let ghost salt = choose|salt: Seq<char>|
        valid_salt(salt) && hash_result_view(hashed) == argon2_hash_outcome(
            vstd::utf8::encode_utf8(password),
            salt,
        ) && (hashed matches Ok(h) ==> is_argon2id_phc_string(h@, salt));
    let r = match hashed {
        Ok(hash) => Ok(new_user_entity(user, hash)),
        Err(e) => Err(e),
    };
    assert(valid_salt(salt) && entity_hash_view(r) == argon2_hash_outcome(
        vstd::utf8::encode_utf8(password),
        salt,
    ) && (r matches Ok(e) ==> is_argon2id_phc_string(e.hash@, salt)));
    r
}

/// What signing in answers, given the stored hash and role text and the
/// password entered: the role text for the token, or the message of the
/// error. A wrong password is refused with `Can't authenticate a user`.
pub open spec fn sign_in_spec(hash: Seq<char>, role_text: Seq<char>, password: Seq<u8>) -> Result<Seq<char>, Seq<char>> {
    match argon2_verify_outcome(hash, password) {
        Ok(()) => match parse_role_spec(role_text) {
            Some(role) => Ok(role_name(role)),
            None => Err("Matching variant not found"@),
        },
        Err((kind, message)) => if kind == PasswordErrorKind::InvalidPassword {
            Err("Can't authenticate a user"@)
        } else {
            Err(message)
        },
    }
}

pub open spec fn sign_in_view(r: Result<Claims, CustomError>) -> Result<Seq<char>, Seq<char>> {
    match r {
        Ok(c) => Ok(c.role@),
        Err(e) => Err(e.message@),
    }
}

/// Signs a stored user in with the password entered, at the time `now`
/// (seconds since the Unix epoch): the claims of the token to issue (the
/// user's name and role, expiring 60 minutes after `now`), or the error.
pub fn sign_in_at(user: &UserEntity, input_password: &str, now: i64) -> (r: Result<Claims, CustomError>)
    requires
        -chrono_timestamp_bound() < now < chrono_timestamp_bound(),
    ensures
        sign_in_view(r) == sign_in_spec(user.hash@, user.role@, input_password.spec_bytes()),
        r matches Ok(c) ==> c.sub@ == user.username@,
        r matches Ok(c) ==> c.exp == now + TOKEN_LIFETIME_SECONDS,
{
    match verify_password(user.hash.as_str(), input_password) {
        Ok(()) => match Role::parse(user.role.as_str()) {
            Ok(role) => Ok(claims_issued_at(user.username.clone(), role, now)),
            Err(e) => Err(CustomError::from_parse_error(e)),
        },
        Err(e) => {
            if e.kind == PasswordErrorKind::InvalidPassword {
                Err(CustomError::from_message("Can't authenticate a user"))
            } else {
                Err(CustomError { message: e.message })
            }
        },
    }
}

/// Signs a stored user in with the password entered, now: the claims of the
/// token to issue (the user's name and role, expiring 60 minutes after the
/// clock's reading, which `sign_in_at` is given), or the error.
pub fn sign_in(user: &UserEntity, input_password: &str) -> (r: Result<Claims, CustomError>)
    ensures
        sign_in_view(r) == sign_in_spec(user.hash@, user.role@, input_password.spec_bytes()),
        r matches Ok(c) ==> c.sub@ == user.username@,
        r matches Ok(c) ==> -chrono_timestamp_bound() + TOKEN_LIFETIME_SECONDS < c.exp < chrono_timestamp_bound()
            + TOKEN_LIFETIME_SECONDS,
{
    let now = current_timestamp();
    sign_in_at(user, input_password, now)
}

/// Law: a user whose stored hash verifies the entered password signs in and
/// gets a token with the stored role.
pub proof fn sign_in_with_the_right_password(hash: Seq<char>, role: Role, password: Seq<u8>)
    requires
        argon2_verify_outcome(hash, password) is Ok,
    ensures
        sign_in_spec(hash, role_name(role), password) == Ok::<Seq<char>, Seq<char>>(role_name(role)),
{
    crate::role::role_text_round_trip(role);
}

/// Law: a wrong password is refused with `Can't authenticate a user`, whatever
/// the stored role.
pub proof fn sign_in_with_a_wrong_password(hash: Seq<char>, role_text: Seq<char>, password: Seq<u8>)
    requires
        argon2_verify_outcome(hash, password) matches Err((kind, _)) && kind == PasswordErrorKind::InvalidPassword,
    ensures
        sign_in_spec(hash, role_text, password) == Err::<Seq<char>, Seq<char>>("Can't authenticate a user"@),
{
}

} // verus!
