use base64::Engine;
use chat_gateway::handlers::{
    share_continue_begin, share_continue_finish, share_data_begin, share_data_finish,
    share_page_begin, share_page_finish, share_redirect, BodyKind, ShareStep, Template,
};
use chat_gateway::session::Session;
use chat_gateway::share::{strip_origin, transform_share_body};
use chat_gateway::config::TemplateData;

fn make_session() -> Session {
    let payload = "{\"sub\":\"u1\",\"email\":\"e@x.com\",\"exp\":123}";
    let mid = base64::engine::general_purpose::URL_SAFE_NO_PAD.encode(payload.as_bytes());
    Session {
        refresh_token: None,
        access_token: format!("hdr.{}.sig", mid),
        user_id: "u1".to_string(),
        email: "e@x.com".to_string(),
        picture: None,
        expires_in: 3600,
        expires: 0,
    }
}

#[test]
fn origin_prefix_is_stripped() {
    assert_eq!(strip_origin("https://chat.openai.com/foo"), "/foo");
    assert_eq!(strip_origin("https://chat.openai.com"), "");
    assert_eq!(strip_origin("https://elsewhere.example/foo"), "https://elsewhere.example/foo");
    assert_eq!(strip_origin("/already/relative"), "/already/relative");
}

#[test]
fn share_body_link_becomes_relative() {
    let body = "{\"continue_conversation_url\":\"https://chat.openai.com/foo\"}";
    let out = transform_share_body(body).unwrap();
    assert_eq!(out, "{\"continue_conversation_url\":\"/foo\"}");
}

#[test]
fn share_body_without_link_passes_through() {
    let out = transform_share_body("{\"title\":\"t\"}").unwrap();
    assert_eq!(out, "{\"title\":\"t\"}");
    assert!(transform_share_body("not json at all").is_none());
}

#[test]
fn share_data_endpoint_transforms_payload() {
    let body = "{\"continue_conversation_url\":\"https://chat.openai.com/foo\"}";
    let r = share_data_finish("abc", body);
    assert_eq!(r.status, 200);
    match r.body {
        BodyKind::Json(b) => assert_eq!(
            b,
            "{\"pageProps\":{\"sharedConversationId\":\"abc\",\"serverResponse\":\
             {\"type\":\"data\",\"data\":{\"continue_conversation_url\":\"/foo\"}},\
             \"continueMode\":false,\"moderationMode\":false,\"chatPageProps\":{}},\
             \"__N_SSP\":true}"
        ),
        _ => panic!("expected a JSON body"),
    }
}

#[test]
fn share_data_endpoint_maps_upstream_failure_to_not_found() {
    let r = share_data_finish("abc", "<html>err</html>");
    assert_eq!(r.status, 200);
    match r.body {
        BodyKind::Json(b) => assert_eq!(b, "{\"notFound\":true}"),
        _ => panic!("expected a JSON body"),
    }
}

#[test]
fn share_page_renders_or_falls_back() {
    let body = "{\"continue_conversation_url\":\"https://chat.openai.com/c/1\"}";
    let r = share_page_finish("abc", body);
    match r.body {
        BodyKind::Page { template, props } => {
            assert_eq!(template, Template::Share);
            let p = props.unwrap();
            assert!(p.contains("\"sharedConversationId\":\"abc\""));
            assert!(p.contains("\"continue_conversation_url\":\"/c/1\""));
            assert!(p.contains("\"page\":\"/share/[[...shareParams]]\""));
            assert!(p.contains("\"query\":{\"shareParams\":[\"abc\"]}"));
        }
        _ => panic!("expected a page body"),
    }
    let r2 = share_page_finish("abc", "oops");
    match r2.body {
        BodyKind::Page { template, props } => {
            assert_eq!(template, Template::ErrorPage);
            assert!(props.unwrap().contains("\"gip\":true"));
        }
        _ => panic!("expected a page body"),
    }
}

#[test]
fn share_begin_gates_on_the_session() {
    let cookie = make_session().encode();
    match share_page_begin(Some(&cookie), "abc") {
        ShareStep::Fetch(s) => assert_eq!(s.user_id, "u1"),
        _ => panic!("expected a fetch step"),
    }
    match share_page_begin(Some("junk"), "abc") {
        ShareStep::Done(r) => {
            assert_eq!(r.status, 302);
            assert_eq!(r.location.as_deref(), Some("/auth/login?next=%2Fshare%2Fabc"));
        }
        _ => panic!("expected a redirect"),
    }
    match share_page_begin(None, "abc") {
        ShareStep::Done(r) => assert_eq!(r.location.as_deref(), Some("/auth/login")),
        _ => panic!("expected a redirect"),
    }
    match share_data_begin(Some("junk"), "abc") {
        ShareStep::Done(r) => {
            assert_eq!(r.status, 200);
            match r.body {
                BodyKind::Json(b) => assert_eq!(
                    b,
                    "{\"pageProps\":{\"__N_REDIRECT\":\"/auth/login?next=%2Fshare%2Fabc\",\
                     \"__N_REDIRECT_STATUS\":307},\"__N_SSP\":true}"
                ),
                _ => panic!("expected a JSON body"),
            }
        }
        _ => panic!("expected a soft redirect"),
    }
    match share_continue_begin(None, "abc") {
        ShareStep::Done(r) => match r.body {
            BodyKind::Json(b) => assert!(b.contains("%2Fshare%2Fabc%2Fcontinue")),
            _ => panic!("expected a JSON body"),
        },
        _ => panic!("expected a soft redirect"),
    }
}

#[test]
fn share_continue_embeds_user_and_payload() {
    let s = make_session();
    let body = "{\"continue_conversation_url\":\"https://chat.openai.com/foo\"}";
    let r = share_continue_finish(&s, "abc", body);
    assert_eq!(r.status, 200);
    assert!(!r.referrer_same_origin);
    match r.body {
        BodyKind::Json(b) => {
            assert!(b.contains("\"continueMode\":true"));
            assert!(b.contains("\"id\":\"u1\""));
            assert!(b.contains("{\"continue_conversation_url\":\"/foo\"}"));
            assert!(b.starts_with("{\"pageProps\":{\"user\":"));
        }
        _ => panic!("expected a JSON body"),
    }
    let r2 = share_continue_finish(&s, "abc", "bad");
    assert!(r2.referrer_same_origin);
    match r2.body {
        BodyKind::Json(b) => assert_eq!(b, "{\"notFound\":true}"),
        _ => panic!("expected a JSON body"),
    }
}

#[test]
fn share_continue_page_redirects_permanently() {
    let r = share_redirect("abc");
    assert_eq!(r.status, 308);
    assert_eq!(r.location.as_deref(), Some("/share/abc"));
}

#[test]
fn upstream_url_prefers_the_configured_prefix() {
    let d = TemplateData {
        api_prefix: Some("https://proxy.example".to_string()),
        cf_site_key: None,
        cf_secret_key: None,
    };
    assert_eq!(d.share_api_url("abc"), "https://proxy.example/backend-api/share/abc");
    let d2 = TemplateData { api_prefix: None, cf_site_key: None, cf_secret_key: None };
    assert_eq!(d2.share_api_url("abc"), "https://chat.openai.com/backend-api/share/abc");
}
