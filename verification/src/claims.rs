//! The claims a token carries and how they are made at sign-in.
use vstd::prelude::*;

use crate::role::{role_name, Role};

verus! {

/// The claims of a token: its subject (the user name), its expiry (seconds
/// since the Unix epoch) and the role of the user.
#[derive(Debug)]
pub struct Claims {
    pub sub: String,
    pub exp: i64,
    pub role: String,
}

/// How long a token stays valid, in seconds (60 minutes).
pub const TOKEN_LIFETIME_SECONDS: i64 = 3600;

/// The bound that chrono's dates keep timestamps within: chrono supports
/// the years -262144 to 262143, so no timestamp reaches 10^13 seconds.
pub open spec fn chrono_timestamp_bound() -> int {
    10_000_000_000_000
}

/// The current local time as seconds since the Unix epoch
/// (`chrono::Local::now().timestamp()`). Which time comes out is left open;
/// it lies within the range of chrono's dates.
#[verifier::external_body]
pub(crate) fn current_timestamp() -> (t: i64)
    ensures
        -chrono_timestamp_bound() < t < chrono_timestamp_bound(),
{
    chrono::Local::now().timestamp()
}

/// The secret key that signs and checks tokens, read once from the setting
/// `JWT_SECRET_KEY`; the setting must be present.
pub fn get_jwt_secret_key(secret_key_setting: Option<&str>) -> (r: String)
    requires
        secret_key_setting is Some,
    ensures
        r@ == secret_key_setting->0@,
{
    match secret_key_setting {
        Some(key) => String::from_str(key),
        None => String::new(),
    }
}

/// The claims of a token for `username` with `role`, issued at `now`.
pub fn claims_issued_at(username: String, role: Role, now: i64) -> (c: Claims)
    requires
        now + TOKEN_LIFETIME_SECONDS <= i64::MAX,
    ensures
        c.sub@ == username@,
        c.exp == now + TOKEN_LIFETIME_SECONDS,
        c.role@ == role_name(role),
{
    Claims { sub: username, exp: now + TOKEN_LIFETIME_SECONDS, role: role.to_string() }
}

/// The claims of a token for `username` with `role`, issued now and expiring
/// 60 minutes later.
pub fn create_jwt_claims(username: String, role: Role) -> (c: Claims)
    ensures
        c.sub@ == username@,
        c.role@ == role_name(role),
        -chrono_timestamp_bound() + TOKEN_LIFETIME_SECONDS < c.exp < chrono_timestamp_bound() + TOKEN_LIFETIME_SECONDS,
{
    let now = current_timestamp();
    claims_issued_at(username, role, now)
}

/// Law: a token lives for exactly 60 minutes.
pub proof fn token_lifetime_is_an_hour()
    ensures
        TOKEN_LIFETIME_SECONDS == 60 * 60,
{
}

} // verus!
