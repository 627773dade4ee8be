//! The error carried between the services: a message and nothing more.
use vstd::prelude::*;

verus! {

/// The message given to a caller that lacks the role an operation needs.
pub const FORBIDDEN_MESSAGE: &'static str = "Forbidden";

/// An error that only carries a human-readable message.
#[derive(Debug)]
pub struct CustomError {
    pub message: String,
}

#[verifier::external_type_specification]
#[verifier::external_body]
pub struct ExToStrError(http::header::ToStrError);

#[verifier::external_type_specification]
#[verifier::external_body]
pub struct ExParseError(strum::ParseError);

/// The text of `http::header::ToStrError`'s `Display`, which the http source
/// writes as one fixed sentence.
#[verifier::external_body]
fn to_str_error_message(e: &http::header::ToStrError) -> (r: String)
    ensures
        r@ == "failed to convert header to a str"@,
{
    e.to_string()
}

/// The text of `strum::ParseError`'s `Display`; the enum has the single
/// variant `VariantNotFound`, whose text the strum source fixes.
#[verifier::external_body]
fn parse_error_message(e: &strum::ParseError) -> (r: String)
    ensures
        r@ == "Matching variant not found"@,
{
    e.to_string()
}

impl CustomError {
    /// An error with the given message.
    pub fn from_message(message: &str) -> (r: CustomError)
        ensures
            r.message@ == message@,
    {
        CustomError { message: String::from_str(message) }
    }

    /// The error for a header value that is not visible ASCII; its message is
    /// the text of http's `ToStrError`.
    pub fn from_to_str_error(source: http::header::ToStrError) -> (r: CustomError)
        ensures
            r.message@ == "failed to convert header to a str"@,
    {
        CustomError { message: to_str_error_message(&source) }
    }

    /// The error for text that names no variant of an enum; its message is
    /// the text of strum's `ParseError`.
    pub fn from_parse_error(source: strum::ParseError) -> (r: CustomError)
        ensures
            r.message@ == "Matching variant not found"@,
    {
        CustomError { message: parse_error_message(&source) }
    }
}

impl From<&str> for CustomError {
    /// An error whose message is `source`.
    fn from(source: &str) -> (r: CustomError)
        ensures
            r.message@ == source@,
    {
        CustomError::from_message(source)
    }
}

impl vstd::std_specs::convert::FromSpecImpl<&str> for CustomError {
    open spec fn obeys_from_spec() -> bool {
        false
    }

    open spec fn from_spec(v: &str) -> CustomError {
        arbitrary()
    }
}

impl From<http::header::ToStrError> for CustomError {
    /// The error for a header value that is not visible ASCII.
    fn from(source: http::header::ToStrError) -> (r: CustomError)
        ensures
            r.message@ == "failed to convert header to a str"@,
    {
        CustomError::from_to_str_error(source)
    }
}

impl vstd::std_specs::convert::FromSpecImpl<http::header::ToStrError> for CustomError {
    open spec fn obeys_from_spec() -> bool {
        false
    }

    open spec fn from_spec(v: http::header::ToStrError) -> CustomError {
        arbitrary()
    }
}

impl From<strum::ParseError> for CustomError {
    /// The error for text that names no variant.
    fn from(source: strum::ParseError) -> (r: CustomError)
        ensures
            r.message@ == "Matching variant not found"@,
    {
        CustomError::from_parse_error(source)
    }
}

impl vstd::std_specs::convert::FromSpecImpl<strum::ParseError> for CustomError {
    open spec fn obeys_from_spec() -> bool {
        false
    }

    open spec fn from_spec(v: strum::ParseError) -> CustomError {
        arbitrary()
    }
}

} // verus!
