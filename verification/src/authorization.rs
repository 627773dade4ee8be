//! The authorization step in front of the services: it reads the
//! `Authorization` header of a request, asks for the bearer token in it to be
//! decoded, and forwards the role that the token carries, or answers with an
//! error. Decoding and checking the token itself is left to the caller; this
//! module decides what happens before and after.
use vstd::prelude::*;
use vstd::string::StringSliceAdditionalSpecFns;

use crate::claims::Claims;
use crate::error::CustomError;
use crate::role::{all_valid_header_bytes, all_visible_ascii, bytes_as_chars, header_value_to_str};
use crate::text::{
    ascii_upper, concat2, concat3, is_ascii_whitespace, starts_with_upper, starts_with_upper_exec,
    trim_bounds, trim_end_bound, trim_end_spec, trim_spec,
};

verus! {

broadcast use vstd::string::group_string_axioms;

/// HTTP status 400.
pub const BAD_REQUEST: u16 = 400;

/// HTTP status 500.
pub const INTERNAL_SERVER_ERROR: u16 = 500;

/// What happens to a request once its header is read.
#[derive(Debug)]
pub enum AuthStep {
    /// Let the request through unchanged.
    PassThrough,
    /// Answer with this message and status.
    Reject { message: String, status: u16 },
    /// Decode and check this token, then call `on_token_decoded`.
    Decode { jwt: String },
}

/// The view of an authorization step.
pub enum StepView {
    PassThrough,
    Reject(Seq<char>, u16),
    Decode(Seq<char>),
}

impl View for AuthStep {
    type V = StepView;

    open spec fn view(&self) -> StepView {
        match self {
            AuthStep::PassThrough => StepView::PassThrough,
            AuthStep::Reject { message, status } => StepView::Reject(message@, *status),
            AuthStep::Decode { jwt } => StepView::Decode(jwt@),
        }
    }
}

/// How the authorization of a request ends.
#[derive(Debug)]
pub enum AuthOutcome {
    /// Let the request through unchanged.
    PassThrough,
    /// Answer with this message and status.
    Reject { message: String, status: u16 },
    /// Let the request through with this role for the services.
    Authorized { role: String },
}

/// The view of an authorization outcome.
pub enum OutcomeView {
    PassThrough,
    Reject(Seq<char>, u16),
    Authorized(Seq<char>),
}

impl View for AuthOutcome {
    type V = OutcomeView;

    open spec fn view(&self) -> OutcomeView {
        match self {
            AuthOutcome::PassThrough => OutcomeView::PassThrough,
            AuthOutcome::Reject { message, status } => OutcomeView::Reject(message@, *status),
            AuthOutcome::Authorized { role } => OutcomeView::Authorized(role@),
        }
    }
}

pub open spec fn header_view(header: Option<&[u8]>) -> Option<Seq<u8>> {
    match header {
        Some(b) => Some(b@),
        None => None,
    }
}

/// What the gateway does with the value of the `Authorization` header:
/// without the header the request passes; a value that is not visible ASCII,
/// or that does not start (after trimming, ignoring case) with `Bearer `, is
/// refused with status 400; otherwise the token after `Bearer `, with
/// trailing whitespace removed, is to be decoded.
pub open spec fn gateway_step_spec(header: Option<Seq<u8>>) -> StepView {
    match header {
        None => StepView::PassThrough,
        Some(b) => if !all_visible_ascii(b) {
            StepView::Reject("'AUTHORIZATION' header is not convertible to a string"@, 400)
        } else {
            let s = bytes_as_chars(b);
            let t = trim_spec(s);
            if !starts_with_upper(t, "BEARER "@) {
                StepView::Reject("'"@ + s + "' is not correctly formatted"@, 400)
            } else {
                StepView::Decode(trim_end_spec(t.subrange(7, t.len() as int)))
            }
        },
    }
}

proof fn lemma_visible_ascii_chars(b: Seq<u8>)
    requires
        all_visible_ascii(b),
    ensures
        vstd::utf8::is_ascii_chars(bytes_as_chars(b)),
        bytes_as_chars(b).len() == b.len(),
{
    assert forall|i: int| 0 <= i < bytes_as_chars(b).len() implies '\0' <= #[trigger] bytes_as_chars(
        b,
    )[i] <= '\u{7f}' by {
        assert(bytes_as_chars(b)[i] == b[i] as char);
    }
}

/// Reads the `Authorization` header as the gateway does (see
/// `gateway_step_spec`).
pub fn inspect_authorization_header(header: Option<&[u8]>) -> (r: AuthStep)
    requires
        header matches Some(b) ==> all_valid_header_bytes(b@),
    ensures
        r@ == gateway_step_spec(header_view(header)),
{
    match header {
        None => AuthStep::PassThrough,
        Some(bytes) => match header_value_to_str(bytes) {
            Err(_) => AuthStep::Reject {
                message: String::from_str("'AUTHORIZATION' header is not convertible to a string"),
                status: BAD_REQUEST,
            },
            Ok(untrimmed) => {
                proof {
                    lemma_visible_ascii_chars(bytes@);
                }
                let value = untrimmed.as_str();
                let (start, end) = trim_bounds(value);
                let trimmed = value.substring_ascii(start, end);
                if !starts_with_upper_exec(trimmed, "BEARER ") {
                    return AuthStep::Reject {
                        message: concat3("'", value, "' is not correctly formatted"),
                        status: BAD_REQUEST,
                    };
                }
                let n = trimmed.unicode_len();
                proof {
                    reveal_strlit("BEARER ");
                    assert forall|j: int| 0 <= j < 6 implies trimmed@[j] != ' ' by {
                        assert(ascii_upper(trimmed@[j]) == "BEARER "@[j]);
                    }
                    assert(ascii_upper(trimmed@[6]) == "BEARER "@[6]);
                    assert(trimmed@[6] == ' ');
                }
                // the first space splits the value in two, as `splitn(2, ' ')` does
                let mut k: usize = 0;
                while k < n && trimmed.get_char(k) != ' '
                    invariant
                        n == trimmed@.len(),
                        n >= 7,
                        k <= 6,
                        trimmed@[6] == ' ',
                    decreases n - k,
                {
                    k = k + 1;
                }
                if k == n {
                    return AuthStep::Reject {
                        message: concat3("'", trimmed, "' is not correctly formatted"),
                        status: BAD_REQUEST,
                    };
                }
                proof {
                    assert forall|j: int| 0 <= j < 6 implies trimmed@[j] != ' ' by {
                        assert(ascii_upper(trimmed@[j]) == "BEARER "@[j]);
                    }
                }
                assert(k == 6);
                let rest = trimmed.substring_ascii(k + 1, n);
                let rest_end = trim_end_bound(rest);
                let jwt = rest.substring_ascii(0, rest_end);
                AuthStep::Decode { jwt: String::from_str(jwt) }
            },
        },
    }
}

/// The token that follows the seven bytes of `Bearer ` in a header value.
pub fn get_jwt_from_header_value(auth_header_value: &str) -> (r: &str)
    requires
        7 <= auth_header_value.spec_bytes().len(),
        vstd::utf8::is_char_boundary(auth_header_value.spec_bytes(), 7),
    ensures
        r.spec_bytes() == auth_header_value.spec_bytes().subrange(7, auth_header_value.spec_bytes().len() as int),
        vstd::utf8::is_ascii_chars(auth_header_value@) ==> r@ == auth_header_value@.subrange(
            7,
            auth_header_value@.len() as int,
        ),
{
    if auth_header_value.is_ascii() {
        let n = auth_header_value.unicode_len();
        let r = auth_header_value.substring_ascii(7, n);
        assert(r.spec_bytes() =~= auth_header_value.spec_bytes().subrange(7, auth_header_value.spec_bytes().len() as int));
        r
    } else {
        let (_, rest) = auth_header_value.split_at(7);
        rest
    }
}

/// The UTF-8 bytes of two texts, one after the other, are the bytes of the
/// first followed by those of the second.
proof fn lemma_encode_utf8_concat(a: Seq<char>, b: Seq<char>)
    ensures
        vstd::utf8::encode_utf8(a + b) == vstd::utf8::encode_utf8(a) + vstd::utf8::encode_utf8(b),
    decreases a.len(),
{
    if a.len() == 0 {
        assert(a + b =~= b);
        assert(vstd::utf8::encode_utf8(a) + vstd::utf8::encode_utf8(b) =~= vstd::utf8::encode_utf8(b));
    } else {
        lemma_encode_utf8_concat(a.drop_first(), b);
        assert((a + b).drop_first() =~= a.drop_first() + b);
        assert((a + b)[0] == a[0]);
        let head = vstd::utf8::encode_scalar(a[0] as u32);
        assert(head + (vstd::utf8::encode_utf8(a.drop_first()) + vstd::utf8::encode_utf8(b)) =~= (head
            + vstd::utf8::encode_utf8(a.drop_first())) + vstd::utf8::encode_utf8(b));
    }
}

/// Where the bytes of a text's prefix end, a character starts (or the bytes
/// end).
proof fn lemma_char_boundary_after_prefix(a: Seq<char>, b: Seq<char>)
    ensures
        vstd::utf8::is_char_boundary(
            vstd::utf8::encode_utf8(a + b),
            vstd::utf8::encode_utf8(a).len() as int,
        ),
    decreases a.len(),
{
    broadcast use vstd::utf8::encode_utf8_valid_utf8;

    lemma_encode_utf8_concat(a, b);
    if a.len() > 0 {
        let c = a + b;
        let bytes = vstd::utf8::encode_utf8(c);
        vstd::utf8::encode_utf8_first_scalar(c);
        assert(c[0] == a[0]);
        assert(c.drop_first() =~= a.drop_first() + b);
        assert(vstd::utf8::pop_first_scalar(bytes) =~= vstd::utf8::encode_utf8(c.drop_first()));
        lemma_encode_utf8_concat(a.drop_first(), b);
        lemma_char_boundary_after_prefix(a.drop_first(), b);
    }
}

/// Law: for a header value `Bearer ` followed by a token `t`, the bytes after
/// the first seven start at a character, so `get_jwt_from_header_value` may
/// be asked, and the only text with the bytes it returns is `t` itself: it
/// gives the token back.
pub proof fn bearer_header_value_gives_back_token(t: Seq<char>, r: Seq<char>)
    ensures
        7 <= vstd::utf8::encode_utf8("Bearer "@ + t).len(),
        vstd::utf8::is_char_boundary(vstd::utf8::encode_utf8("Bearer "@ + t), 7),
        vstd::utf8::encode_utf8(r) == vstd::utf8::encode_utf8("Bearer "@ + t).subrange(
            7,
            vstd::utf8::encode_utf8("Bearer "@ + t).len() as int,
        ) ==> r == t,
{
    let prefix = "Bearer "@;
    reveal_strlit("Bearer ");
    assert(vstd::utf8::is_ascii_chars(prefix));
    vstd::utf8::is_ascii_chars_encode_utf8(prefix);
    lemma_encode_utf8_concat(prefix, t);
    lemma_char_boundary_after_prefix(prefix, t);
    let bytes = vstd::utf8::encode_utf8(prefix + t);
    assert(bytes.subrange(7, bytes.len() as int) =~= vstd::utf8::encode_utf8(t));
    if vstd::utf8::encode_utf8(r) == bytes.subrange(7, bytes.len() as int) {
        vstd::utf8::encode_utf8_decode_utf8(r);
        vstd::utf8::encode_utf8_decode_utf8(t);
    }
}

/// What the router plugin does with the value of the `authorization`
/// header: without the header the request passes; a value that is not
/// visible ASCII is an error (the text of http's `ToStrError`); otherwise the
/// token after the first seven characters is to be decoded.
pub open spec fn router_step_spec(header: Option<Seq<u8>>) -> Result<StepView, Seq<char>> {
    match header {
        None => Ok(StepView::PassThrough),
        Some(b) => if !all_visible_ascii(b) {
            Err("failed to convert header to a str"@)
        } else {
            Ok(StepView::Decode(bytes_as_chars(b).subrange(7, b.len() as int)))
        },
    }
}

pub open spec fn router_result_view(r: Result<AuthStep, CustomError>) -> Result<StepView, Seq<char>> {
    match r {
        Ok(s) => Ok(s@),
        Err(e) => Err(e.message@),
    }
}

/// Law: for a visible-ASCII header `Bearer ` followed by a token `t`, of any
/// length, the router asks for exactly `t` to be decoded.
pub proof fn router_decodes_the_whole_token(b: Seq<u8>, t: Seq<char>)
    requires
        all_visible_ascii(b),
        bytes_as_chars(b) == "Bearer "@ + t,
    ensures
        router_step_spec(Some(b)) == Ok::<StepView, Seq<char>>(StepView::Decode(t)),
{
    reveal_strlit("Bearer ");
    assert(bytes_as_chars(b).len() == b.len());
    assert(bytes_as_chars(b).subrange(7, b.len() as int) =~= t);
}

/// Reads the `authorization` header as the router plugin does (see
/// `router_step_spec`). A visible-ASCII value shorter than `Bearer ` is left
/// out: the plugin cannot cut the token out of it.
pub fn inspect_router_authorization_header(header: Option<&[u8]>) -> (r: Result<AuthStep, CustomError>)
    requires
        header matches Some(b) ==> all_valid_header_bytes(b@),
        header matches Some(b) ==> (all_visible_ascii(b@) ==> b@.len() >= 7),
    ensures
        router_result_view(r) == router_step_spec(header_view(header)),
{
    match header {
        None => Ok(AuthStep::PassThrough),
        Some(bytes) => match header_value_to_str(bytes) {
            Err(e) => Err(CustomError::from_to_str_error(e)),
            Ok(value) => {
                proof {
                    lemma_visible_ascii_chars(bytes@);
                }
                let v = value.as_str();
                proof {
                    vstd::string::is_ascii_spec_bytes(v);
                }
                assert(v.spec_bytes().len() == v@.len());
                assert(vstd::utf8::is_char_boundary(v.spec_bytes(), 7)) by {
                    vstd::utf8::encode_utf8_valid_utf8(v@);
                    if v.spec_bytes().len() == 7 {
                        vstd::utf8::is_char_boundary_start_end_of_seq(v.spec_bytes());
                    } else {
                        vstd::utf8::is_char_boundary_iff_not_is_continuation_byte(v.spec_bytes(), 7);
                    }
                }
                let jwt = get_jwt_from_header_value(v);
                Ok(AuthStep::Decode { jwt: String::from_str(jwt) })
            },
        },
    }
}

/// The view of a decoded token: its role, or the text of the decoding error.
pub open spec fn decoded_view(decoded: Result<Claims, String>) -> Result<Seq<char>, Seq<char>> {
    match decoded {
        Ok(c) => Ok(c.role@),
        Err(e) => Err(e@),
    }
}

/// What follows the decoding of a token: its role is forwarded, or, when the
/// token is invalid, the request is refused with status 400.
pub open spec fn decoded_outcome_spec(decoded: Result<Seq<char>, Seq<char>>) -> OutcomeView {
    match decoded {
        Ok(role) => OutcomeView::Authorized(role),
        Err(e) => OutcomeView::Reject("JWT is invalid: "@ + e, 400),
    }
}

/// Decides on a request once its token was decoded (with the claims) or
/// refused (with the text of the error).
pub fn on_token_decoded(decoded: Result<Claims, String>) -> (r: AuthOutcome)
    ensures
        r@ == decoded_outcome_spec(decoded_view(decoded)),
{
    match decoded {
        Ok(claims) => AuthOutcome::Authorized { role: claims.role },
        Err(e) => AuthOutcome::Reject { message: concat2("JWT is invalid: ", e.as_str()), status: BAD_REQUEST },
    }
}

/// Decides on a request whose role could not be handed on to the services:
/// it is refused with status 500.
pub fn on_role_forwarding_failed(error_message: &str) -> (r: AuthOutcome)
    ensures
        r@ == OutcomeView::Reject("Failed to pass a user's role: "@ + error_message@, 500),
{
    AuthOutcome::Reject {
        message: concat2("Failed to pass a user's role: ", error_message),
        status: INTERNAL_SERVER_ERROR,
    }
}

/// Law: a header `Bearer <token>` (the token ending in a non-whitespace
/// character) asks for exactly that token to be decoded.
pub proof fn gateway_extracts_bearer_token(b: Seq<u8>, token: Seq<char>)
    requires
        all_visible_ascii(b),
        bytes_as_chars(b) == "Bearer "@ + token,
        token.len() > 0,
        !is_ascii_whitespace(token.last()),
    ensures
        gateway_step_spec(Some(b)) == StepView::Decode(token),
{
    reveal_strlit("Bearer ");
    reveal_strlit("BEARER ");
    let s = bytes_as_chars(b);
    assert(s[0] == 'B');
    assert(s.last() == token.last());
    assert(trim_spec(s) == s);
    assert(starts_with_upper(s, "BEARER "@)) by {
        assert forall|i: int| 0 <= i < 7 implies ascii_upper(#[trigger] s[i]) == "BEARER "@[i] by {
            assert(s[i] == "Bearer "@[i]);
        }
    }
    assert(s.subrange(7, s.len() as int) =~= token);
    assert(trim_end_spec(token) == token);
}

/// Law: a header that holds no `Bearer ` prefix is refused with status 400.
pub proof fn gateway_refuses_without_bearer(b: Seq<u8>)
    requires
        all_visible_ascii(b),
        !starts_with_upper(trim_spec(bytes_as_chars(b)), "BEARER "@),
    ensures
        gateway_step_spec(Some(b)) matches StepView::Reject(_, status) && status == 400,
{
}

/// Law: a request refused after decoding is answered with status 400, and an
/// accepted one carries the role of its token.
pub proof fn decoded_token_decides(decoded: Result<Seq<char>, Seq<char>>)
    ensures
        decoded is Err ==> (decoded_outcome_spec(decoded) matches OutcomeView::Reject(_, status) && status == 400),
        decoded matches Ok(role) ==> decoded_outcome_spec(decoded) == OutcomeView::Authorized(role),
{
}

} // verus!
