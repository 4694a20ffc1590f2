use base64::Engine;
use chat_gateway::captcha::{captcha_begin, CaptchaCheck};
use chat_gateway::config::TemplateData;
use chat_gateway::handlers::{
    auth_page, chat_data, chat_page, chat_redirect, image_url, logout, not_found_page,
    session_info, token_login, token_login_finish, BodyKind, CookieOp, Response, Template,
    TokenLoginStep,
};
use chat_gateway::assets::AssetMap;
use chat_gateway::session::Session;
use chat_gateway::token::validate;

fn make_token(sub: &str, email: &str, exp: i64) -> String {
    let payload = format!("{{\"sub\":\"{}\",\"email\":\"{}\",\"exp\":{}}}", sub, email, exp);
    let mid = base64::engine::general_purpose::URL_SAFE_NO_PAD.encode(payload.as_bytes());
    format!("hdr.{}.sig", mid)
}

fn make_session() -> Session {
    Session {
        refresh_token: Some("rt-1".to_string()),
        access_token: make_token("u1", "e@x.com", 123),
        user_id: "u1".to_string(),
        email: "e@x.com".to_string(),
        picture: None,
        expires_in: 3600,
        expires: 0,
    }
}

const PAGE_PROPS: &str = "{\"user\":{\"id\":\"u1\",\"name\":\"e@x.com\",\"email\":\"e@x.com\",\
\"image\":null,\"picture\":null,\"groups\":[]},\"serviceStatus\":{},\"userCountry\":\"US\",\
\"geoOk\":true,\"serviceAnnouncement\":{\"paid\":{},\"public\":{}},\"isUserInCanPayGroup\":true}";

#[test]
fn token_validation_extracts_profile() {
    let t = make_token("u1", "e@x.com", 123);
    let p = validate(&t).unwrap();
    assert_eq!(p.user_id, "u1");
    assert_eq!(p.email, "e@x.com");
    assert_eq!(p.expires, 123);
}

#[test]
fn token_validation_rejects_malformed() {
    assert!(validate("").is_err());
    assert!(validate("nodots").is_err());
    assert!(validate("a.b").is_err());
    assert!(validate("a.b.c.d").is_err());
    assert!(validate(".b.c").is_err());
    let bad_payload = base64::engine::general_purpose::URL_SAFE_NO_PAD.encode(b"{\"x\":1}");
    assert!(validate(&format!("h.{}.s", bad_payload)).is_err());
}

#[test]
fn data_endpoint_without_cookie_soft_redirects() {
    let r = chat_data(None);
    assert_eq!(r.status, 200);
    match r.body {
        BodyKind::Json(b) => assert_eq!(
            b,
            "{\"pageProps\":{\"__N_REDIRECT\":\"/auth/login?\",\"__N_REDIRECT_STATUS\":307},\
             \"__N_SSP\":true}"
        ),
        _ => panic!("expected a JSON body"),
    }
}

#[test]
fn data_endpoint_with_invalid_cookie_soft_redirects() {
    let r = chat_data(Some("garbage-cookie"));
    assert_eq!(r.status, 200);
    match r.body {
        BodyKind::Json(b) => assert!(b.contains("__N_REDIRECT")),
        _ => panic!("expected a JSON body"),
    }
}

#[test]
fn data_endpoint_with_valid_cookie_returns_props() {
    let cookie = make_session().encode();
    let r = chat_data(Some(&cookie));
    assert_eq!(r.status, 200);
    match r.body {
        BodyKind::Json(b) => assert_eq!(
            b,
            format!("{{\"pageProps\":{},\"__N_SSP\":true}}", PAGE_PROPS)
        ),
        _ => panic!("expected a JSON body"),
    }
}

#[test]
fn page_without_cookie_redirects_to_login() {
    let r = chat_page(None, None, &Vec::new());
    assert_eq!(r.status, 302);
    assert_eq!(r.location.as_deref(), Some("/auth/login"));
}

#[test]
fn page_with_valid_cookie_renders_envelope() {
    let cookie = make_session().encode();
    let q = vec![("x".to_string(), "1".to_string())];
    let r = chat_page(Some(&cookie), Some("conv9".to_string()), &q);
    assert_eq!(r.status, 200);
    match r.body {
        BodyKind::Page { template, props } => {
            assert_eq!(template, Template::Detail);
            let p = props.unwrap();
            let expected = format!(
                "{{\"props\":{{\"pageProps\":{},\"__N_SSP\":true}},\"page\":\"/c/[chatId]\",\
                 \"query\":{{\"x\":\"1\",\"chatId\":\"conv9\"}},\
                 \"buildId\":\"XmKrBoPpskgF_4RiIX1jm\",\"isFallback\":false,\"gssp\":true,\
                 \"scriptLoader\":[]}}",
                PAGE_PROPS
            );
            assert_eq!(p, expected);
        }
        _ => panic!("expected a page body"),
    }
}

#[test]
fn session_info_reports_identity() {
    let cookie = make_session().encode();
    let r = session_info(Some(&cookie));
    assert_eq!(r.status, 200);
    match r.body {
        BodyKind::Json(b) => {
            let expected = format!(
                "{{\"user\":{{\"id\":\"u1\",\"name\":\"e@x.com\",\"email\":\"e@x.com\",\
                 \"image\":null,\"picture\":null,\"groups\":[]}},\
                 \"expires\":\"1970-01-01T00:00:00\",\"accessToken\":\"{}\",\
                 \"authProvider\":\"auth0\"}}",
                make_token("u1", "e@x.com", 123)
            );
            assert_eq!(b, expected);
        }
        _ => panic!("expected a JSON body"),
    }
}

#[test]
fn session_info_rejects_invalid_cookie() {
    let r = session_info(Some("junk"));
    assert_eq!(r.status, 401);
    let r2 = session_info(None);
    assert_eq!(r2.status, 302);
}

#[test]
fn logout_clears_cookie_and_redirects() {
    // With a decodable cookie: the refresh token is handed out for
    // best-effort revocation.
    let cookie = make_session().encode();
    let (revoke, r) = logout(Some(&cookie));
    assert_eq!(revoke.as_deref(), Some("rt-1"));
    assert_eq!(r.status, 303);
    assert_eq!(r.location.as_deref(), Some("/auth/login"));
    assert!(matches!(r.cookie, CookieOp::Clear));

    // With no cookie or a broken one: the response is identical.
    let (revoke2, r2) = logout(None);
    assert_eq!(revoke2, None);
    assert_eq!(r2.status, 303);
    assert_eq!(r2.location.as_deref(), Some("/auth/login"));
    assert!(matches!(r2.cookie, CookieOp::Clear));

    let (revoke3, r3) = logout(Some("not-a-session"));
    assert_eq!(revoke3, None);
    assert_eq!(r3.status, 303);
    assert!(matches!(r3.cookie, CookieOp::Clear));
}

fn captcha_config(active: bool) -> TemplateData {
    TemplateData {
        api_prefix: None,
        cf_site_key: if active { Some("site".to_string()) } else { None },
        cf_secret_key: if active { Some("sec".to_string()) } else { None },
    }
}

#[test]
fn captcha_configured_rejects_missing_token_before_network() {
    let cfg = captcha_config(true);
    assert!(matches!(captcha_begin(&cfg, None), CaptchaCheck::Reject));
    assert!(matches!(captcha_begin(&cfg, Some("")), CaptchaCheck::Reject));
}

#[test]
fn captcha_configured_verifies_token() {
    let cfg = captcha_config(true);
    match captcha_begin(&cfg, Some("resp-token")) {
        CaptchaCheck::Verify { secret, response } => {
            assert_eq!(secret, "sec");
            assert_eq!(response, "resp-token");
        }
        _ => panic!("expected a verification request"),
    }
}

#[test]
fn captcha_unconfigured_ignores_token() {
    let cfg = captcha_config(false);
    assert!(matches!(captcha_begin(&cfg, None), CaptchaCheck::Proceed));
    assert!(matches!(captcha_begin(&cfg, Some("")), CaptchaCheck::Proceed));
    assert!(matches!(
        captcha_begin(&cfg, Some("anything")),
        CaptchaCheck::Proceed
    ));
}

#[test]
fn token_login_paths() {
    match token_login(None) {
        TokenLoginStep::Done(r) => {
            assert_eq!(r.status, 302);
            assert_eq!(r.location.as_deref(), Some("/auth/login"));
        }
        _ => panic!("expected a redirect"),
    }
    match token_login(Some("not a token")) {
        TokenLoginStep::Done(r) => assert_eq!(r.status, 401),
        _ => panic!("expected a rejection"),
    }
    let t = make_token("u2", "f@y", 500);
    match token_login(Some(&t)) {
        TokenLoginStep::Fetch { access_token, profile } => {
            assert_eq!(access_token, t);
            assert_eq!(profile.user_id, "u2");
            let r: Response = token_login_finish(&access_token, &profile, None, 100);
            assert_eq!(r.status, 200);
            assert_eq!(r.location.as_deref(), Some("/"));
            match r.cookie {
                CookieOp::Put { value, max_age } => {
                    assert_eq!(max_age, 400);
                    let s = Session::decode(&value).unwrap();
                    assert_eq!(s.user_id, "u2");
                    assert_eq!(s.email, "f@y");
                    assert_eq!(s.expires, 500);
                    assert_eq!(s.expires_in, 400);
                    assert_eq!(s.refresh_token, None);
                }
                _ => panic!("expected a cookie"),
            }
        }
        _ => panic!("expected a fetch step"),
    }
}

#[test]
fn redirects_for_legacy_paths() {
    let r = chat_redirect(None);
    assert_eq!(r.status, 307);
    assert_eq!(r.location.as_deref(), Some("/"));
    let r2 = chat_redirect(Some("abc"));
    assert_eq!(r2.location.as_deref(), Some("/c/abc"));
}

#[test]
fn image_proxy_requires_url() {
    let q = vec![
        ("w".to_string(), "32".to_string()),
        ("url".to_string(), "https://img.example/a.png".to_string()),
    ];
    match image_url(&q) {
        Ok(u) => assert_eq!(u, "https://img.example/a.png"),
        Err(_) => panic!("expected the url"),
    }
    match image_url(&Vec::new()) {
        Ok(_) => panic!("expected a rejection"),
        Err(r) => assert_eq!(r.status, 400),
    }
}

#[test]
fn not_found_renders_error_envelope() {
    let r = not_found_page();
    assert_eq!(r.status, 200);
    match r.body {
        BodyKind::Page { template, props } => {
            assert_eq!(template, Template::ErrorPage);
            assert_eq!(
                props.unwrap(),
                "{\"props\":{\"pageProps\":{\"statusCode\":404}},\"page\":\"/_error\",\
                 \"query\":{},\"buildId\":\"XmKrBoPpskgF_4RiIX1jm\",\"nextExport\":true,\
                 \"isFallback\":false,\"gip\":false,\"scriptLoader\":[]}"
            );
        }
        _ => panic!("expected a page body"),
    }
    let a = auth_page();
    assert_eq!(a.status, 200);
}

#[test]
fn asset_map_keeps_the_first_entry_for_a_key() {
    let mut m = AssetMap::new();
    m.register("/a.js".to_string(), vec![1], "text/javascript".to_string());
    m.register("/a.js".to_string(), vec![2], "text/plain".to_string());
    let (bytes, mime) = m.resolve("/a.js").unwrap();
    assert_eq!(bytes, vec![1]);
    assert_eq!(mime, "text/javascript");
}

#[test]
fn chat_query_capture_replaces_an_existing_key() {
    let cookie = make_session().encode();
    let q = vec![
        ("chatId".to_string(), "old".to_string()),
        ("y".to_string(), "2".to_string()),
    ];
    let r = chat_page(Some(&cookie), Some("new".to_string()), &q);
    match r.body {
        BodyKind::Page { props, .. } => {
            let p = props.unwrap();
            assert!(p.contains("\"query\":{\"y\":\"2\",\"chatId\":\"new\"}"));
            assert!(!p.contains("old"));
        }
        _ => panic!("expected a page body"),
    }
}

#[test]
fn asset_map_resolves_registered_keys() {
    let mut m = AssetMap::new();
    m.register(
        "/main.css".to_string(),
        vec![1, 2, 3],
        "text/css".to_string(),
    );
    let (bytes, mime) = m.resolve("/main.css").unwrap();
    assert_eq!(bytes, vec![1, 2, 3]);
    assert_eq!(mime, "text/css");
    assert!(m.resolve("/other.css").is_none());
    assert!(m.resolve("main.css").is_none());
}
