//! Password hashing and verification with Argon2 (default parameters), the
//! hashes kept as PHC strings.
use argon2::{PasswordHasher, PasswordVerifier};
use vstd::prelude::*;
use vstd::string::StringSliceAdditionalSpecFns;

verus! {

/// Whether a password check failed because the password is wrong, or for any
/// other reason (a malformed hash string, for instance).
#[derive(Clone, Copy, Debug, PartialEq, Eq, Structural)]
pub enum PasswordErrorKind {
    InvalidPassword,
    Other,
}

/// An error of the password hasher: its kind and its message.
#[derive(Debug)]
pub struct PasswordError {
    pub kind: PasswordErrorKind,
    pub message: String,
}

/// The view of a password error: its kind and its message.
pub open spec fn password_error_view(e: PasswordError) -> (PasswordErrorKind, Seq<char>) {
    (e.kind, e.message@)
}

/// The outcome of checking `password` against the PHC string `hash` with
/// Argon2: a function of the two alone.
pub uninterp spec fn argon2_verify_outcome(hash: Seq<char>, password: Seq<u8>) -> Result<(), (PasswordErrorKind, Seq<char>)>;

/// The PHC string that Argon2 with default parameters makes of `password`
/// and `salt`, or its error: a function of the two alone.
pub uninterp spec fn argon2_hash_outcome(password: Seq<u8>, salt: Seq<char>) -> Result<Seq<char>, (PasswordErrorKind, Seq<char>)>;

/// A character that a B64 salt may hold: `[a-zA-Z0-9/+.-]`.
pub open spec fn is_salt_char(c: char) -> bool {
    ('a' <= c && c <= 'z') || ('A' <= c && c <= 'Z') || ('0' <= c && c <= '9') || c == '/' || c == '+'
        || c == '.' || c == '-'
}

/// A salt that `Salt::from_b64` accepts: 4 to 64 salt characters.
pub open spec fn valid_salt(s: Seq<char>) -> bool {
    4 <= s.len() <= 64 && forall|i: int| 0 <= i < s.len() ==> is_salt_char(#[trigger] s[i])
}

pub open spec fn verify_result_view(r: Result<(), PasswordError>) -> Result<(), (PasswordErrorKind, Seq<char>)> {
    match r {
        Ok(()) => Ok(()),
        Err(e) => Err(password_error_view(e)),
    }
}

pub open spec fn hash_result_view(r: Result<String, PasswordError>) -> Result<Seq<char>, (PasswordErrorKind, Seq<char>)> {
    match r {
        Ok(h) => Ok(h@),
        Err(e) => Err(password_error_view(e)),
    }
}

/// A fresh random salt from `SaltString::generate` with the operating
/// system's generator: the B64 text of 16 random bytes, so 22 salt
/// characters. Which salt comes out is left open.
#[verifier::external_body]
fn generate_salt() -> (s: String)
    ensures
        valid_salt(s@),
        s@.len() == 22,
{
    argon2::password_hash::SaltString::generate(&mut argon2::password_hash::rand_core::OsRng).as_str().to_string()
}

/// The start of every PHC string that Argon2 with default parameters writes:
/// the algorithm Argon2id, version 19, 19456 KiB of memory, 2 passes and 1
/// lane.
pub open spec fn argon2id_default_prefix() -> Seq<char> {
    "$argon2id$v=19$m=19456,t=2,p=1$"@
}

/// A PHC string of Argon2id with default parameters for `salt`: the default
/// start, then the salt as it was given, then `$` and the encoded output.
pub open spec fn is_argon2id_phc_string(hash: Seq<char>, salt: Seq<char>) -> bool {
    let p = argon2id_default_prefix();
    &&& p.len() + salt.len() < hash.len()
    &&& hash.subrange(0, p.len() as int) == p
    &&& hash.subrange(p.len() as int, (p.len() + salt.len()) as int) == salt
    &&& hash[(p.len() + salt.len()) as int] == '$'
}

/// `Argon2::default().hash_password`, its result written as a PHC string and
/// its error converted. As the argon2 and password-hash sources show, the
/// string is `$argon2id$v=19$m=19456,t=2,p=1$`, the salt, `$` and the output
/// (`Argon2::default`, `Params::default`, `PasswordHash`'s `Display`), and
/// verifying the same password against it recomputes the same output.
#[verifier::external_body]
fn argon2_hash(password: &[u8], salt: &str) -> (r: Result<String, PasswordError>)
    requires
        valid_salt(salt@),
    ensures
        hash_result_view(r) == argon2_hash_outcome(password@, salt@),
        r is Ok ==> argon2_verify_outcome(r->Ok_0@, password@) is Ok,
        r is Ok ==> is_argon2id_phc_string(r->Ok_0@, salt@),
{
    let salt = argon2::password_hash::Salt::from_b64(salt).expect("a valid salt");
    argon2::Argon2::default().hash_password(password, salt).map(|h| h.to_string()).map_err(|e| PasswordError {
        kind: if matches!(e, argon2::password_hash::Error::Password) { PasswordErrorKind::InvalidPassword } else { PasswordErrorKind::Other },
        message: e.to_string(),
    })
}

/// A text that `PasswordHash::new` refuses at once, before reading any field:
/// one that is empty or does not start with the separator `$`.
pub open spec fn lacks_phc_start(hash: Seq<char>) -> bool {
    hash.len() == 0 || hash[0] != '$'
}

/// `Argon2::default().verify_password` against the hash string read by
/// `PasswordHash::new`, its error converted (a wrong password is
/// `Error::Password`). As the password-hash source shows, `PasswordHash::new`
/// answers `Error::PhcStringField` for a text that is empty or does not start
/// with `$`, whatever the password.
#[verifier::external_body]
fn argon2_verify(hash: &str, password: &[u8]) -> (r: Result<(), PasswordError>)
    ensures
        verify_result_view(r) == argon2_verify_outcome(hash@, password@),
        lacks_phc_start(hash@) ==> r is Err && r->Err_0.kind == PasswordErrorKind::Other,
{
    let checked = match argon2::PasswordHash::new(hash) {
        Ok(parsed) => argon2::Argon2::default().verify_password(password, &parsed),
        Err(e) => Err(e),
    };
    checked.map_err(|e| PasswordError {
        kind: if matches!(e, argon2::password_hash::Error::Password) { PasswordErrorKind::InvalidPassword } else { PasswordErrorKind::Other },
        message: e.to_string(),
    })
}

/// Hashes a password with a fresh random salt. The hash it returns is an
/// Argon2id PHC string that holds the salt, is a function of the password and
/// the salt alone, and verifies the same password.
pub fn hash_password(password: &str) -> (r: Result<String, PasswordError>)
    ensures
        exists|salt: Seq<char>|
            valid_salt(salt) && hash_result_view(r) == argon2_hash_outcome(password.spec_bytes(), salt) && (
            r matches Ok(h) ==> is_argon2id_phc_string(h@, salt)),
        r matches Ok(h) ==> argon2_verify_outcome(h@, password.spec_bytes()) is Ok,
{
    let salt = generate_salt();
    let r = argon2_hash(password.as_bytes(), salt.as_str());
    assert(valid_salt(salt@) && hash_result_view(r) == argon2_hash_outcome(password.spec_bytes(), salt@) && (
    r matches Ok(h) ==> is_argon2id_phc_string(h@, salt@)));
    r
}

/// Checks `input_password` against a stored PHC hash string. A text that is
/// empty or does not start with `$` is refused for every password, and not as
/// a wrong password.
pub fn verify_password(password_hash_string: &str, input_password: &str) -> (r: Result<(), PasswordError>)
    ensures
        verify_result_view(r) == argon2_verify_outcome(password_hash_string@, input_password.spec_bytes()),
        lacks_phc_start(password_hash_string@) ==> (r matches Err(e) && e.kind == PasswordErrorKind::Other),
{
    argon2_verify(password_hash_string, input_password.as_bytes())
}

} // verus!
