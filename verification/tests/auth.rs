use media_api::auth::{bearer_token, claims_from_token, token_rejection, Claims};

#[test]
fn bearer_token_is_taken_after_the_prefix() {
    assert_eq!(bearer_token(Some("Bearer abc.def.ghi")).ok().unwrap(), "abc.def.ghi");
    assert_eq!(bearer_token(Some("Bearer ")).ok().unwrap(), "");
}

#[test]
fn missing_or_malformed_header_is_refused() {
    let e = bearer_token(None).err().unwrap();
    assert_eq!(e.message, "Missing Authorization header");
    assert_eq!(e.status_code(), 401);
    let e = bearer_token(Some("bearer abc")).err().unwrap();
    assert_eq!(
        e.message,
        "Invalid Authorization header format. Expected: Bearer <token>"
    );
    let e = bearer_token(Some("Basic dXNlcg==")).err().unwrap();
    assert_eq!(e.status_code(), 401);
}

#[test]
fn invalid_token_message() {
    assert_eq!(
        token_rejection("ExpiredSignature").message,
        "Invalid or expired token: ExpiredSignature"
    );
}

#[test]
fn subject_prefers_user_id() {
    let c = Claims { sub: "s".to_string(), user_id: Some("u".to_string()), exp: 1, iat: 0 };
    assert_eq!(c.subject(), "u");
    let c = Claims { sub: "s".to_string(), user_id: None, exp: 1, iat: 0 };
    assert_eq!(c.subject(), "s");
}

#[test]
fn a_token_must_name_a_user() {
    assert!(claims_from_token(None, None, 10, 0).is_none());
    let c = claims_from_token(None, Some("u".to_string()), 10, 1).unwrap();
    assert_eq!(c.subject(), "u");
    assert_eq!(c.sub, "");
    let c = claims_from_token(Some("s".to_string()), None, 10, 1).unwrap();
    assert_eq!(c.subject(), "s");
    assert_eq!((c.exp, c.iat), (10, 1));
}
