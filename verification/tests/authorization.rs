use galaxy_graphql::claims::Claims;
use galaxy_graphql::authorization::{
    get_jwt_from_header_value, inspect_authorization_header, inspect_router_authorization_header,
    on_role_forwarding_failed, on_token_decoded, AuthOutcome, AuthStep,
};

fn decode_of(step: AuthStep) -> String {
    match step {
        AuthStep::Decode { jwt } => jwt,
        other => panic!("expected a token to decode, got {:?}", other),
    }
}

fn reject_of(step: AuthStep) -> (String, u16) {
    match step {
        AuthStep::Reject { message, status } => (message, status),
        other => panic!("expected a refusal, got {:?}", other),
    }
}

#[test]
fn gateway_without_header_passes() {
    assert!(matches!(inspect_authorization_header(None), AuthStep::PassThrough));
}

#[test]
fn gateway_extracts_bearer_token() {
    assert_eq!(decode_of(inspect_authorization_header(Some(b"Bearer abc.def.ghi"))), "abc.def.ghi");
}

#[test]
fn gateway_bearer_is_case_insensitive_and_trimmed() {
    assert_eq!(decode_of(inspect_authorization_header(Some(b"  bEaReR xyz \t"))), "xyz");
    assert_eq!(decode_of(inspect_authorization_header(Some(b"BEARER   tok  "))), "  tok");
}

#[test]
fn gateway_refuses_other_schemes() {
    let (message, status) = reject_of(inspect_authorization_header(Some(b" Basic abc")));
    assert_eq!(message, "' Basic abc' is not correctly formatted");
    assert_eq!(status, 400);
    let (message, _) = reject_of(inspect_authorization_header(Some(b"Bearer")));
    assert_eq!(message, "'Bearer' is not correctly formatted");
}

#[test]
fn gateway_refuses_non_ascii() {
    let (message, status) = reject_of(inspect_authorization_header(Some(&[b'B', 0xFF])));
    assert_eq!(message, "'AUTHORIZATION' header is not convertible to a string");
    assert_eq!(status, 400);
}

#[test]
fn router_cuts_after_seven_characters() {
    match inspect_router_authorization_header(Some(b"Bearer abc")) {
        Ok(step) => assert_eq!(decode_of(step), "abc"),
        Err(e) => panic!("{}", e.message),
    }
    assert!(matches!(inspect_router_authorization_header(None), Ok(AuthStep::PassThrough)));
    let err = inspect_router_authorization_header(Some(&[0x80, b'a', b'b', b'c', b'd', b'e', b'f', b'g'])).unwrap_err();
    assert_eq!(err.message, "failed to convert header to a str");
}

#[test]
fn jwt_from_header_value() {
    assert_eq!(get_jwt_from_header_value("Bearer token"), "token");
    assert_eq!(get_jwt_from_header_value("Bearer "), "");
    assert_eq!(get_jwt_from_header_value("Bearer é"), "é");
    for t in ["", "a.b.c", "éü漢字", "Bearer x"] {
        assert_eq!(get_jwt_from_header_value(&format!("Bearer {}", t)), t);
    }
}

#[test]
fn decoded_token_forwards_role() {
    let claims = Claims { sub: "john_doe".to_string(), exp: 0, role: "ADMIN".to_string() };
    match on_token_decoded(Ok(claims)) {
        AuthOutcome::Authorized { role } => assert_eq!(role, "ADMIN"),
        other => panic!("{:?}", other),
    }
}

#[test]
fn invalid_token_is_refused() {
    match on_token_decoded(Err("ExpiredSignature".to_string())) {
        AuthOutcome::Reject { message, status } => {
            assert_eq!(message, "JWT is invalid: ExpiredSignature");
            assert_eq!(status, 400);
        }
        other => panic!("{:?}", other),
    }
    match on_role_forwarding_failed("oops") {
        AuthOutcome::Reject { message, status } => {
            assert_eq!(message, "Failed to pass a user's role: oops");
            assert_eq!(status, 500);
        }
        other => panic!("{:?}", other),
    }
}
