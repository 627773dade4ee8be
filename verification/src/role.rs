//! User roles, how a role travels in the `role` request header, and the
//! checks that let an operation through only for the role it asks for.
use vstd::prelude::*;

use crate::error::{CustomError, FORBIDDEN_MESSAGE};
use crate::text::str_eq;

verus! {

/// The role a user holds.
#[derive(Clone, Copy, Debug, PartialEq, Eq, Structural, Hash)]
pub enum Role {
    Admin,
    User,
}

/// The text of a role (`SCREAMING_SNAKE_CASE` of its name).
pub open spec fn role_name(r: Role) -> Seq<char> {
    match r {
        Role::Admin => "ADMIN"@,
        Role::User => "USER"@,
    }
}

/// The role a text names, if any; matching is exact and case-sensitive.
pub open spec fn parse_role_spec(s: Seq<char>) -> Option<Role> {
    if s == "ADMIN"@ {
        Some(Role::Admin)
    } else if s == "USER"@ {
        Some(Role::User)
    } else {
        None
    }
}

/// A header byte that http accepts in a header value at all.
pub open spec fn is_valid_header_byte(b: u8) -> bool {
    (32 <= b && b != 127) || b == 9
}

/// A header byte that http's `HeaderValue::to_str` accepts.
pub open spec fn is_visible_ascii(b: u8) -> bool {
    (32 <= b && b < 127) || b == 9
}

pub open spec fn all_valid_header_bytes(b: Seq<u8>) -> bool {
    forall|i: int| 0 <= i < b.len() ==> is_valid_header_byte(#[trigger] b[i])
}

pub open spec fn all_visible_ascii(b: Seq<u8>) -> bool {
    forall|i: int| 0 <= i < b.len() ==> is_visible_ascii(#[trigger] b[i])
}

/// The characters that single bytes stand for.
pub open spec fn bytes_as_chars(b: Seq<u8>) -> Seq<char> {
    b.map_values(|x: u8| x as char)
}

/// The header value, as text, when http's `HeaderValue::to_str` accepts it:
/// when every byte is visible ASCII (or a tab), the text whose characters are
/// those bytes; otherwise its `ToStrError`.
#[verifier::external_body]
pub(crate) fn header_value_to_str(bytes: &[u8]) -> (r: Result<String, http::header::ToStrError>)
    requires
        all_valid_header_bytes(bytes@),
    ensures
        r is Ok <==> all_visible_ascii(bytes@),
        r matches Ok(s) ==> s@ == bytes_as_chars(bytes@),
{
    let value = http::HeaderValue::from_bytes(bytes).expect("bytes of a received header value");
    value.to_str().map(|s| s.to_string())
}

/// What `get_role` gives for a header value: none without the header, the
/// role it names, or the message of the error on the way.
pub open spec fn get_role_spec(role_header: Option<Seq<u8>>) -> Result<Option<Role>, Seq<char>> {
    match role_header {
        None => Ok(None),
        Some(b) => if !all_visible_ascii(b) {
            Err("failed to convert header to a str"@)
        } else {
            match parse_role_spec(bytes_as_chars(b)) {
                Some(r) => Ok(Some(r)),
                None => Err("Matching variant not found"@),
            }
        },
    }
}

/// The view of a role lookup: its errors taken by their messages.
pub open spec fn role_result_view(r: Result<Option<Role>, CustomError>) -> Result<Option<Role>, Seq<char>> {
    match r {
        Ok(x) => Ok(x),
        Err(e) => Err(e.message@),
    }
}

impl Role {
    /// The text of the role, as strum's `Display` writes it.
    pub fn to_string(&self) -> (r: String)
        ensures
            r@ == role_name(*self),
    {
        match self {
            Role::Admin => String::from_str("ADMIN"),
            Role::User => String::from_str("USER"),
        }
    }

    /// The role that `s` names exactly, or strum's `VariantNotFound`.
    pub fn parse(s: &str) -> (r: Result<Role, strum::ParseError>)
        ensures
            match parse_role_spec(s@) {
                Some(role) => r == Ok::<Role, strum::ParseError>(role),
                None => r is Err,
            },
    {
        if str_eq(s, "ADMIN") {
            Ok(Role::Admin)
        } else if str_eq(s, "USER") {
            Ok(Role::User)
        } else {
            Err(variant_not_found())
        }
    }
}

/// strum's error for text that names no variant.
#[verifier::external_body]
pub(crate) fn variant_not_found() -> strum::ParseError {
    strum::ParseError::VariantNotFound
}

impl core::str::FromStr for Role {
    type Err = strum::ParseError;

    /// The role that `s` names exactly, or strum's `VariantNotFound`.
    fn from_str(s: &str) -> (r: Result<Role, strum::ParseError>)
        ensures
            match parse_role_spec(s@) {
                Some(role) => r == Ok::<Role, strum::ParseError>(role),
                None => r is Err,
            },
    {
        Role::parse(s)
    }
}

/// The role named by the `role` request header: none when the header is
/// absent, an error when its value is not visible ASCII or names no role.
pub fn get_role(role_header: Option<&[u8]>) -> (r: Result<Option<Role>, CustomError>)
    requires
        role_header matches Some(b) ==> all_valid_header_bytes(b@),
    ensures
        role_result_view(r) == get_role_spec(
            match role_header {
                Some(b) => Some(b@),
                None => None,
            },
        ),
{
    match role_header {
        None => Ok(None),
        Some(bytes) => {
            match header_value_to_str(bytes) {
                Err(e) => Err(CustomError::from_to_str_error(e)),
                Ok(text) => match Role::parse(text.as_str()) {
                    Ok(role) => Ok(Some(role)),
                    Err(e) => Err(CustomError::from_parse_error(e)),
                },
            }
        },
    }
}

/// What `check_user_role_is_allowed` answers: nothing on success, else the
/// message of its error.
pub open spec fn role_check_spec(getting: Result<Option<Role>, Seq<char>>, allowed: Role) -> Result<(), Seq<char>> {
    match getting {
        Err(m) => Err("Error while getting a user's role: "@ + m),
        Ok(Some(role)) => if role == allowed {
            Ok(())
        } else {
            Err(FORBIDDEN_MESSAGE@)
        },
        Ok(None) => Err(FORBIDDEN_MESSAGE@),
    }
}

/// The view of a check's outcome: its error taken by its message.
pub open spec fn unit_result_view(r: Result<(), CustomError>) -> Result<(), Seq<char>> {
    match r {
        Ok(()) => Ok(()),
        Err(e) => Err(e.message@),
    }
}

/// Lets a request through only when the role looked up for it is present and
/// equals `allowed_role`; a failed lookup is reported with its message.
pub fn check_user_role_is_allowed(
    getting_role_result: &Result<Option<Role>, CustomError>,
    allowed_role: &Role,
) -> (r: Result<(), CustomError>)
    ensures
        unit_result_view(r) == role_check_spec(role_result_view(*getting_role_result), *allowed_role),
{
    match getting_role_result {
        Err(e) => Err(CustomError { message: crate::text::concat2("Error while getting a user's role: ", e.message.as_str()) }),
        Ok(maybe_role) => match maybe_role {
            Some(role) => {
                if *role == *allowed_role {
                    Ok(())
                } else {
                    Err(CustomError::from_message(FORBIDDEN_MESSAGE))
                }
            },
            None => Err(CustomError::from_message(FORBIDDEN_MESSAGE)),
        },
    }
}

/// A guard on an operation that only the holder of `role` may run.
pub struct RoleGuard {
    pub role: Role,
}

/// What a guard answers: no role lookup in the request is forbidden, else the
/// answer of `check_user_role_is_allowed`.
pub open spec fn guard_spec(getting: Option<Result<Option<Role>, Seq<char>>>, role: Role) -> Result<(), Seq<char>> {
    match getting {
        None => Err(FORBIDDEN_MESSAGE@),
        Some(g) => role_check_spec(g, role),
    }
}

/// The text that `bool::from_str` accepts for `b`.
pub open spec fn bool_text(s: Seq<char>, b: bool) -> bool {
    if b {
        s == "true"@
    } else {
        s == "false"@
    }
}

impl RoleGuard {
    pub fn new(role: Role) -> (r: RoleGuard)
        ensures
            r.role == role,
    {
        RoleGuard { role }
    }

    /// Checks the role lookup that the request carries, if any.
    pub fn check(&self, getting_role_result: Option<&Result<Option<Role>, CustomError>>) -> (r: Result<(), CustomError>)
        ensures
            unit_result_view(r) == guard_spec(
                match getting_role_result {
                    Some(g) => Some(role_result_view(*g)),
                    None => None,
                },
                self.role,
            ),
    {
        match getting_role_result {
            Some(getting) => check_user_role_is_allowed(getting, &self.role),
            None => Err(CustomError::from_message(FORBIDDEN_MESSAGE)),
        }
    }

    /// As `check`, except that the setting `DISABLE_AUTH`, when present and
    /// `true`, lets every request through. The setting, when present, is one
    /// of the texts that `bool::from_str` accepts.
    pub fn check_unless_disabled(
        &self,
        disable_auth: Option<&str>,
        getting_role_result: Option<&Result<Option<Role>, CustomError>>,
    ) -> (r: Result<(), CustomError>)
        requires
            disable_auth matches Some(s) ==> (bool_text(s@, true) || bool_text(s@, false)),
        ensures
            (disable_auth matches Some(s) && bool_text(s@, true)) ==> r is Ok,
            !(disable_auth matches Some(s) && bool_text(s@, true)) ==> unit_result_view(r) == guard_spec(
                match getting_role_result {
                    Some(g) => Some(role_result_view(*g)),
                    None => None,
                },
                self.role,
            ),
    {
        if let Some(setting) = disable_auth {
            if str_eq(setting, "true") {
                return Ok(());
            }
        }
        self.check(getting_role_result)
    }
}

/// Law: the text of a role names that role, and no other role has that text.
pub proof fn role_text_round_trip(role: Role)
    ensures
        parse_role_spec(role_name(role)) == Some(role),
{
    reveal_strlit("ADMIN");
    reveal_strlit("USER");
    assert("ADMIN"@ != "USER"@) by {
        assert("ADMIN"@.len() != "USER"@.len());
    }
}

/// Law: a text that names a role is that role's text.
pub proof fn role_parse_gives_text(s: Seq<char>)
    ensures
        parse_role_spec(s) matches Some(role) ==> role_name(role) == s,
{
}

/// Law: a role check succeeds exactly when the lookup found the allowed role.
pub proof fn role_check_allows_only_that_role(getting: Result<Option<Role>, Seq<char>>, allowed: Role)
    ensures
        role_check_spec(getting, allowed) is Ok <==> getting == Ok::<Option<Role>, Seq<char>>(Some(allowed)),
{
}

/// Law: a guard lets a request through exactly when the request carries a
/// role lookup that found the guard's own role. Any other role found, or no
/// role, or no lookup, is refused with `Forbidden`; a failed lookup is
/// refused with its message.
pub proof fn guard_allows_only_its_role(getting: Option<Result<Option<Role>, Seq<char>>>, role: Role)
    ensures
        guard_spec(getting, role) is Ok <==> getting == Some(Ok::<Option<Role>, Seq<char>>(Some(role))),
        getting matches Some(Ok(found)) && found != Some(role) ==> guard_spec(getting, role) == Err::<(), Seq<char>>(
            FORBIDDEN_MESSAGE@,
        ),
        getting is None ==> guard_spec(getting, role) == Err::<(), Seq<char>>(FORBIDDEN_MESSAGE@),
        getting matches Some(Err(m)) ==> guard_spec(getting, role) == Err::<(), Seq<char>>(
            "Error while getting a user's role: "@ + m,
        ),
{
}

} // verus!
