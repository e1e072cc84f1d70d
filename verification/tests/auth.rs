use listo_rs::cookie_tools::lax_session_cookie;
use http::{HeaderMap, HeaderValue};
use listo_rs::auth::{
    create_temp_user_id_cookie, current_logout_cookie, get_user_id_from_cookies, logout_cookie, session_cookie, user_id_from_cookie_header,
    Claims, JwToken, JwTokenReaderService, Status, TokenError, UserBody, ValidationErrors,
};

#[test]
fn invalid_email() {
    let email = String::from("not-email");
    let password = String::from("password");

    let body = UserBody {
        password,
        email,
        token: String::new(),
    };

    assert!(body.validate().is_err());
}

#[test]
fn invalid_password() {
    let email = String::from("email@mail.co");
    let password = String::from("pass");

    let body = UserBody {
        password,
        email,
        token: String::new(),
    };

    assert!(body.validate().is_err());
}

#[test]
fn valid_body() {
    let email = String::from("email@mail.co");
    let password = String::from("password123");

    let body = UserBody {
        password,
        email,
        token: String::new(),
    };

    assert!(body.validate().is_ok());
}

#[test]
fn validation_names_the_failing_fields() {
    let body = UserBody { password: String::from("pass"), email: String::from("nope"), token: String::new() };
    assert_eq!(body.validate(), Err(ValidationErrors { email: true, password: true }));
    let body = UserBody { password: String::from("12345678"), email: String::from("a@b.co"), token: String::new() };
    assert_eq!(body.validate(), Ok(()));
    // Seven bytes is still too short.
    let body = UserBody { password: String::from("1234567"), email: String::from("a@b.co"), token: String::new() };
    assert_eq!(body.validate(), Err(ValidationErrors { email: false, password: true }));
}

#[test]
fn new_claims_carry_the_user_and_issuer() {
    let c = Claims::new(42);
    assert_eq!(c.sub, 42);
    assert_eq!(c.exp(), 1000000000000);
    assert_eq!(c.iss(), "listo_rs");
    assert_eq!(c.to_json(), "{\"sub\":42,\"exp\":1000000000000,\"iss\":\"listo_rs\"}");
}

#[test]
fn claims_json_escapes_the_issuer() {
    let c = Claims::from_parts(7, 9, String::from("a\"b\\c\nd\u{1}"));
    assert_eq!(c.to_json(), "{\"sub\":7,\"exp\":9,\"iss\":\"a\\\"b\\\\c\\nd\\u0001\"}");
}

#[test]
fn session_cookie_holds_a_signed_token() {
    let c = Claims::new(5).to_cookie(b"my-secret").unwrap();
    assert!(c.starts_with("jwt=eyJ"));
    assert!(c.contains("; HttpOnly; SameSite=Strict; Path=/; Expires="));
    // The token is a JWT of the claims: three dot-separated parts.
    let token = c["jwt=".len()..].split(';').next().unwrap();
    assert_eq!(token.split('.').count(), 3);
}

#[test]
fn session_cookie_expires_a_week_later() {
    let c = session_cookie("tok", 0).unwrap();
    assert_eq!(c, "jwt=tok; HttpOnly; SameSite=Strict; Path=/; Expires=Thu, 08 Jan 1970 00:00:00 GMT");
    assert_eq!(session_cookie("tok", i64::MAX), None);
    let _ = TokenError::Time;
}

#[test]
fn temp_user_id_cookie_text() {
    assert_eq!(create_temp_user_id_cookie(17), "temp_user_id=17; Path=/api/v1/auth/; Max-Age=300");
}

#[test]
fn temp_user_id_round_trip() {
    for id in [0u64, 1, 17, 18446744073709551615] {
        let header = format!("temp_user_id={}", id);
        assert_eq!(user_id_from_cookie_header(&header), Some(id));
    }
}

#[test]
fn user_id_from_cookie_header_cases() {
    assert_eq!(user_id_from_cookie_header("a=1; temp_user_id = 12 ; b=2"), Some(12));
    assert_eq!(user_id_from_cookie_header("temp_user_id=abc"), None);
    assert_eq!(user_id_from_cookie_header("temp_user_id=18446744073709551616"), None);
    assert_eq!(user_id_from_cookie_header("temp_user_id=+3"), Some(3));
    assert_eq!(user_id_from_cookie_header("broken; temp_user_id=4"), Some(4));
    assert_eq!(user_id_from_cookie_header("temp_user_id=5; temp_user_id=6"), Some(5));
    assert_eq!(user_id_from_cookie_header(""), None);
}

#[test]
fn user_id_from_request_headers() {
    let mut headers = HeaderMap::new();
    assert_eq!(get_user_id_from_cookies(&headers), None);
    headers.insert("Cookie", HeaderValue::from_static("jwt=x; temp_user_id=99"));
    assert_eq!(get_user_id_from_cookies(&headers), Some(99));
}

#[test]
fn session_token_from_headers() {
    let mut headers = HeaderMap::new();
    headers.append("Cookie", HeaderValue::from_static("a=b"));
    headers.append("Cookie", HeaderValue::from_static("jwt=token123"));
    // The token layer reads the first Cookie header only.
    assert_eq!(JwToken::<()>::token_from_headers(&headers), None);
    // The reader layer looks through all of them.
    assert_eq!(Claims::cookie_from_headers(&headers), Some(String::from("token123")));
}

#[test]
fn logout_cookie_expires_now() {
    assert_eq!(logout_cookie(0).unwrap(), "jwt=logout; Path=/; Expires=Thu, 01 Jan 1970 00:00:00 GMT");
    assert_eq!(logout_cookie(-1).unwrap(), "jwt=logout; Path=/; Expires=Wed, 31 Dec 1969 23:59:59 GMT");
    assert_eq!(logout_cookie(-377705116801), None);
    assert!(logout_cookie(-377705116800).is_some());
    assert!(current_logout_cookie().starts_with("jwt=logout; Path=/; Expires="));
}

#[test]
fn status_codes() {
    assert_eq!(Status::Success.code(), 200);
    assert_eq!(Status::Created.code(), 201);
    assert_eq!(Status::BadRequest.code(), 400);
    assert_eq!(Status::Unauthorized.code(), 401);
    assert_eq!(Status::Forbidden.code(), 403);
    assert_eq!(Status::NotFound.code(), 404);
    assert_eq!(Status::InternalServerError.code(), 500);
}

#[test]
fn issued_session_tokens_check_out() {
    let cookie = Claims::new(77).to_cookie(b"my-secret").unwrap();
    let pair = cookie.split(';').next().unwrap().to_string();
    let mut headers = HeaderMap::new();
    headers.insert("Cookie", HeaderValue::from_str(&pair).unwrap());
    let payload = JwTokenReaderService::<()>::claims_payload(&headers, b"my-secret").unwrap();
    assert_eq!(payload, "{\"sub\":77,\"exp\":1000000000000,\"iss\":\"listo_rs\"}");
    assert_eq!(JwToken::<()>::claims_payload(&headers, b"my-secret"), Some(payload));
    assert_eq!(JwTokenReaderService::<()>::claims_payload(&headers, b"other"), None);
}

#[test]
fn lax_session_cookie_lasts_a_day() {
    assert_eq!(
        lax_session_cookie("jwt", "body", "localhost", 0).unwrap(),
        "jwt=body; HttpOnly; SameSite=Lax; Path=/; Domain=localhost; Expires=Fri, 02 Jan 1970 00:00:00 GMT"
    );
    assert!(lax_session_cookie("jwt", "body", "localhost", -86401).is_some());
    assert_eq!(lax_session_cookie("jwt", "body", "localhost", -377705116800 - 86401), None);
    assert_eq!(lax_session_cookie("jwt", "body", "localhost", i64::MAX), None);
}

#[test]
fn session_cookie_at_a_given_time() {
    let c = Claims::new(5).cookie_at(b"my-secret", 0).unwrap();
    assert!(c.starts_with("jwt=eyJ"));
    assert!(c.ends_with("; HttpOnly; SameSite=Strict; Path=/; Expires=Thu, 08 Jan 1970 00:00:00 GMT"));
    assert_eq!(Claims::new(5).cookie_at(b"my-secret", i64::MAX), Err(TokenError::Time));
}
