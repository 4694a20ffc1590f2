use base64::Engine;
use chat_gateway::session::Session;
use chat_gateway::GatewayError;

fn sample_session() -> Session {
    Session {
        refresh_token: Some("rtok".to_string()),
        access_token: "atok".to_string(),
        user_id: "user-1".to_string(),
        email: "a@b.c".to_string(),
        picture: Some("https://p.example/x.png".to_string()),
        expires_in: 3600,
        expires: 1700000000,
    }
}

fn assert_sessions_equal(a: &Session, b: &Session) {
    assert_eq!(a.refresh_token, b.refresh_token);
    assert_eq!(a.access_token, b.access_token);
    assert_eq!(a.user_id, b.user_id);
    assert_eq!(a.email, b.email);
    assert_eq!(a.picture, b.picture);
    assert_eq!(a.expires_in, b.expires_in);
    assert_eq!(a.expires, b.expires);
}

#[test]
fn round_trip_plain() {
    let s = sample_session();
    let cookie = s.encode();
    let back = Session::decode(&cookie).unwrap();
    assert_sessions_equal(&s, &back);
}

#[test]
fn round_trip_none_fields() {
    let s = Session {
        refresh_token: None,
        access_token: "x".to_string(),
        user_id: String::new(),
        email: String::new(),
        picture: None,
        expires_in: 0,
        expires: 0,
    };
    let cookie = s.encode();
    let back = Session::decode(&cookie).unwrap();
    assert_sessions_equal(&s, &back);
}

#[test]
fn round_trip_special_characters() {
    let s = Session {
        refresh_token: Some("quote\" backslash\\ newline\n tab\t".to_string()),
        access_token: "a\"b\\c\u{1}d".to_string(),
        user_id: "unicode \u{00e9}\u{4e2d}".to_string(),
        email: "control\u{1f}end".to_string(),
        picture: None,
        expires_in: -1,
        expires: -9223372036854775808,
    };
    let cookie = s.encode();
    let back = Session::decode(&cookie).unwrap();
    assert_sessions_equal(&s, &back);
}

#[test]
fn round_trip_extreme_integers() {
    let s = Session {
        refresh_token: None,
        access_token: "t".to_string(),
        user_id: "u".to_string(),
        email: "e".to_string(),
        picture: None,
        expires_in: 9223372036854775807,
        expires: -9223372036854775808,
    };
    let cookie = s.encode();
    let back = Session::decode(&cookie).unwrap();
    assert_sessions_equal(&s, &back);
}

#[test]
fn encode_is_base64url_of_canonical_json() {
    let s = Session {
        refresh_token: None,
        access_token: "at".to_string(),
        user_id: "u1".to_string(),
        email: "e@x".to_string(),
        picture: None,
        expires_in: 10,
        expires: 20,
    };
    let cookie = s.encode();
    let bytes = base64::engine::general_purpose::URL_SAFE
        .decode(cookie.as_bytes())
        .unwrap();
    let json = String::from_utf8(bytes).unwrap();
    assert_eq!(
        json,
        "{\"refresh_token\":null,\"access_token\":\"at\",\"user_id\":\"u1\",\
         \"email\":\"e@x\",\"picture\":null,\"expires_in\":10,\"expires\":20}"
    );
}

#[test]
fn decode_rejects_invalid_base64() {
    assert_eq!(
        Session::decode("!!!not-base64!!!").unwrap_err(),
        GatewayError::InvalidSession
    );
}

#[test]
fn decode_rejects_non_json_payload() {
    let cookie = base64::engine::general_purpose::URL_SAFE.encode(b"hello world");
    assert_eq!(
        Session::decode(&cookie).unwrap_err(),
        GatewayError::InvalidSession
    );
}

#[test]
fn decode_rejects_schema_mismatch() {
    let cookie = base64::engine::general_purpose::URL_SAFE.encode(b"{\"foo\":1}");
    assert_eq!(
        Session::decode(&cookie).unwrap_err(),
        GatewayError::InvalidSession
    );
}

#[test]
fn decode_rejects_empty_access_token() {
    let json = "{\"refresh_token\":null,\"access_token\":\"\",\"user_id\":\"u\",\
                \"email\":\"e\",\"picture\":null,\"expires_in\":1,\"expires\":2}";
    let cookie = base64::engine::general_purpose::URL_SAFE.encode(json.as_bytes());
    assert_eq!(
        Session::decode(&cookie).unwrap_err(),
        GatewayError::InvalidSession
    );
}

#[test]
fn decode_rejects_trailing_garbage() {
    let json = "{\"refresh_token\":null,\"access_token\":\"a\",\"user_id\":\"u\",\
                \"email\":\"e\",\"picture\":null,\"expires_in\":1,\"expires\":2}x";
    let cookie = base64::engine::general_purpose::URL_SAFE.encode(json.as_bytes());
    assert_eq!(
        Session::decode(&cookie).unwrap_err(),
        GatewayError::InvalidSession
    );
}

#[test]
fn decode_rejects_arbitrary_inputs_without_crash() {
    let inputs = [
        "",
        "=",
        "A",
        "AA==",
        "bnVsbA==",
        "e30=",
        "\u{1F600}",
        "aaaa aaaa",
        "////",
        "----____",
    ];
    for i in inputs {
        assert_eq!(
            Session::decode(i).unwrap_err(),
            GatewayError::InvalidSession
        );
    }
}

#[test]
fn login_session_expiry_is_issue_time_plus_lifetime() {
    let s = Session::from_login(
        None,
        "tok".to_string(),
        "u".to_string(),
        "e".to_string(),
        None,
        3600,
        1700000000,
    );
    assert_eq!(s.expires, 1700003600);
    assert_eq!(s.expires_in, 3600);
    let back = Session::decode(&s.encode()).unwrap();
    assert_eq!(back.expires, 1700003600);
}
