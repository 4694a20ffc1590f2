//! The request handlers: pure functions from the request's plain values
//! (cookie, captures, query, upstream results) to a response description.
//! The I/O shell around the library performs the network calls between the
//! begin and finish phases and writes the response out.

use vstd::prelude::*;
use vstd::string::{StrSliceExecFns, StringExecFns};
use crate::text::str_eq;
use crate::session::{spec_decode, spec_encode, Session, SessionV};
use crate::token::{spec_validate, validate, lemma_validate_nonempty, Profile};
use crate::envelope::{
    build_chat_data_body, build_chat_page_envelope, build_error_envelope, build_session_info,
    build_soft_redirect, pairs_view, spec_data_body, spec_error_envelope, spec_page_envelope,
    spec_page_props, spec_query_json, spec_session_info, spec_soft_redirect,
};
use crate::share::{
    build_share_continue_body, build_share_data_body, build_share_page_envelope,
    spec_share_continue_props, spec_share_payload, spec_share_props, spec_share_query,
    transform_share_body,
};
use crate::timefmt::{format_epoch, utc_datetime_text_of};
use crate::GatewayError;

verus! {

/// The page templates the shell renders; each maps to one template file.
#[derive(PartialEq, Eq, Structural, Clone, Copy, Debug)]
pub enum Template {
    ErrorPage,
    Auth,
    Chat,
    Detail,
    Login,
    Share,
}

impl Template {
    /// The template file this variant names.
    pub fn file_name(&self) -> (r: &'static str)
        ensures
            *self == Template::ErrorPage ==> r@ == "404.htm"@,
            *self == Template::Auth ==> r@ == "auth.htm"@,
            *self == Template::Chat ==> r@ == "chat.htm"@,
            *self == Template::Detail ==> r@ == "detail.htm"@,
            *self == Template::Login ==> r@ == "login.htm"@,
            *self == Template::Share ==> r@ == "share.htm"@,
    {
        match self {
            Template::ErrorPage => "404.htm",
            Template::Auth => "auth.htm",
            Template::Chat => "chat.htm",
            Template::Detail => "detail.htm",
            Template::Login => "login.htm",
            Template::Share => "share.htm",
        }
    }
}

/// What happens to the session cookie on a response.
pub enum CookieOp {
    Keep,
    Put { value: String, max_age: i64 },
    Clear,
}

/// The body of a response.
pub enum BodyKind {
    Empty,
    /// A rendered page: the template and, for most pages, the props text
    /// injected into it.
    Page { template: Template, props: Option<String> },
    /// The login form with an error message and the submitted username.
    Login { error: String, username: String },
    Json(String),
    Text(String),
}

/// A response, described as plain values for the shell to write out.
pub struct Response {
    pub status: u16,
    pub location: Option<String>,
    pub cookie: CookieOp,
    pub body: BodyKind,
    /// One data endpoint marks its failure response `referrer-policy:
    /// same-origin`.
    pub referrer_same_origin: bool,
}

/// The hard redirect to the login page that unauthenticated page requests
/// receive.
pub open spec fn is_login_redirect(r: Response) -> bool {
    &&& r.status == 302
    &&& r.location matches Some(l) && l@ == "/auth/login"@
    &&& r.cookie is Keep
    &&& r.body is Empty
    &&& !r.referrer_same_origin
}

/// A 200 response whose body is exactly the given JSON text.
pub open spec fn is_json_ok(r: Response, body: Seq<char>) -> bool {
    &&& r.status == 200
    &&& r.location is None
    &&& r.cookie is Keep
    &&& r.body matches BodyKind::Json(b) && b@ == body
    &&& !r.referrer_same_origin
}

/// A 200 response rendering a template with the given props text.
pub open spec fn is_page_ok(r: Response, t: Template, props: Option<Seq<char>>) -> bool {
    &&& r.status == 200
    &&& r.location is None
    &&& r.cookie is Keep
    &&& r.body matches BodyKind::Page { template, props: p } && template == t && (match props {
        Some(q) => p matches Some(pp) && pp@ == q,
        None => p is None,
    })
    &&& !r.referrer_same_origin
}

/// The identity a request carries: its cookie decoded and the access token
/// inside it revalidated.
pub open spec fn spec_session_of(c: Seq<char>) -> Option<SessionV> {
    match spec_decode(c) {
        Some(s) => if spec_validate(s.access_token) is Some {
            Some(s)
        } else {
            None
        },
        None => None,
    }
}

/// Decodes a cookie value and revalidates the access token inside it.
pub fn extract_session(cookie_value: &str) -> (r: Result<Session, GatewayError>)
    ensures
        match spec_session_of(cookie_value@) {
            Some(sv) => r matches Ok(s) && s@ == sv,
            None => r is Err,
        },
        r is Err ==> spec_session_of(cookie_value@) is None,
{
    let s = match Session::decode(cookie_value) {
        Ok(s) => s,
        Err(e) => {
            return Err(e);
        },
    };
    match validate(s.access_token.as_str()) {
        Ok(_) => Ok(s),
        Err(e) => Err(e),
    }
}

pub fn redirect_login() -> (r: Response)
    ensures
        is_login_redirect(r),
{
    Response {
        status: 302,
        location: Some("/auth/login".to_owned()),
        cookie: CookieOp::Keep,
        body: BodyKind::Empty,
        referrer_same_origin: false,
    }
}

/// The public landing page.
pub fn auth_page() -> (r: Response)
    ensures
        is_page_ok(r, Template::Auth, None),
{
    Response {
        status: 200,
        location: None,
        cookie: CookieOp::Keep,
        body: BodyKind::Page { template: Template::Auth, props: None },
        referrer_same_origin: false,
    }
}

/// The login form, empty.
pub fn login_page() -> (r: Response)
    ensures
        r.status == 200,
        r.location is None,
        r.cookie is Keep,
        r.body matches BodyKind::Login { error, username } && error@ == Seq::<char>::empty()
            && username@ == Seq::<char>::empty(),
{
    Response {
        status: 200,
        location: None,
        cookie: CookieOp::Keep,
        body: BodyKind::Login { error: String::new(), username: String::new() },
        referrer_same_origin: false,
    }
}

/// The login form re-rendered with an error and the submitted username; no
/// redirect on a failed login.
pub fn login_failed(username: &str, message: &str) -> (r: Response)
    ensures
        r.status == 200,
        r.location is None,
        r.cookie is Keep,
        r.body matches BodyKind::Login { error, username: u } && error@ == message@ && u@
            == username@,
{
    Response {
        status: 200,
        location: None,
        cookie: CookieOp::Keep,
        body: BodyKind::Login { error: message.to_owned(), username: username.to_owned() },
        referrer_same_origin: false,
    }
}

/// A successful credential login: the session goes into the cookie and the
/// client is sent home.
pub fn login_success(session: &Session) -> (r: Response)
    requires
        session@.wf(),
    ensures
        r.status == 303,
        r.location matches Some(l) && l@ == "/"@,
        r.cookie matches CookieOp::Put { value, max_age } && value@ == spec_encode(session@)
            && max_age == session.expires_in && spec_decode(value@) == Some(session@),
        r.body is Empty,
{
    let value = session.encode();
    Response {
        status: 303,
        location: Some("/".to_owned()),
        cookie: CookieOp::Put { value, max_age: session.expires_in },
        body: BodyKind::Empty,
        referrer_same_origin: false,
    }
}

/// What the bearer-token login does before any upstream call.
pub enum TokenLoginStep {
    /// No authorization header: back to the login page.
    Done(Response),
    /// A valid token: the shell may fetch the user picture, then finish.
    Fetch { access_token: String, profile: Profile },
}

/// Begins a bearer-token login: validates the header token locally.
pub fn token_login(auth_header: Option<&str>) -> (r: TokenLoginStep)
    ensures
        auth_header is None ==> (r matches TokenLoginStep::Done(resp) && is_login_redirect(resp)),
        auth_header matches Some(h) ==> match spec_validate(h@) {
            Some(pv) => r matches TokenLoginStep::Fetch { access_token, profile } && access_token@
                == h@ && profile@ == pv && h@.len() > 0,
            None => r matches TokenLoginStep::Done(resp) && resp.status == 401 && resp.body
                is Text,
        },
{
    match auth_header {
        None => TokenLoginStep::Done(redirect_login()),
        Some(h) => {
            proof {
                lemma_validate_nonempty(h@);
            }
            match validate(h) {
                Ok(profile) => TokenLoginStep::Fetch { access_token: h.to_owned(), profile },
                Err(_) => TokenLoginStep::Done(
                    Response {
                        status: 401,
                        location: None,
                        cookie: CookieOp::Keep,
                        body: BodyKind::Text("unauthorized".to_owned()),
                        referrer_same_origin: false,
                    },
                ),
            }
        },
    }
}

/// Finishes a bearer-token login: builds the session (the picture fetch is
/// best-effort) and sets the cookie; the response carries the home location.
pub fn token_login_finish(
    access_token: &str,
    profile: &Profile,
    picture: Option<String>,
    now: i64,
) -> (r: Response)
    requires
        access_token@.len() > 0,
        now >= 0,
    ensures
        ({
            let ei: int = if profile.expires >= now {
                profile.expires - now
            } else {
                0
            };
            let sv = SessionV {
                refresh_token: None,
                access_token: access_token@,
                user_id: profile.user_id@,
                email: profile.email@,
                picture: match picture {
                    Some(p) => Some(p@),
                    None => None,
                },
                expires_in: ei,
                expires: profile.expires as int,
            };
            &&& r.status == 200
            &&& r.location matches Some(l) && l@ == "/"@
            &&& r.cookie matches CookieOp::Put { value, max_age } && value@ == spec_encode(sv)
                && max_age == ei && spec_decode(value@) == Some(sv)
            &&& r.body is Empty
        }),
{
    let expires_in: i64 = if profile.expires >= now {
        profile.expires - now
    } else {
        0
    };
    let session = Session {
        refresh_token: None,
        access_token: access_token.to_owned(),
        user_id: profile.user_id.clone(),
        email: profile.email.clone(),
        picture,
        expires_in,
        expires: profile.expires,
    };
    let value = session.encode();
    Response {
        status: 200,
        location: Some("/".to_owned()),
        cookie: CookieOp::Put { value, max_age: expires_in },
        body: BodyKind::Empty,
        referrer_same_origin: false,
    }
}

/// Logs out: the cookie is cleared and the client sent to the login page,
/// whatever the cookie held and whatever becomes of the revocation; the
/// refresh token to revoke (best-effort) is handed back separately.
pub fn logout(cookie: Option<&str>) -> (r: (Option<String>, Response))
    ensures
        r.1.status == 303,
        r.1.location matches Some(l) && l@ == "/auth/login"@,
        r.1.cookie is Clear,
        r.1.body is Empty,
        match cookie {
            Some(c) => match spec_decode(c@) {
                Some(sv) => (match r.0 {
                    Some(t) => sv.refresh_token == Some(t@),
                    None => sv.refresh_token is None,
                }),
                None => r.0 is None,
            },
            None => r.0 is None,
        },
{
    let revoke = match cookie {
        Some(c) => match Session::decode(c) {
            Ok(s) => s.refresh_token,
            Err(_) => None,
        },
        None => None,
    };
    let resp = Response {
        status: 303,
        location: Some("/auth/login".to_owned()),
        cookie: CookieOp::Clear,
        body: BodyKind::Empty,
        referrer_same_origin: false,
    };
    (revoke, resp)
}

/// The session-info endpoint: the decoded identity as JSON, a hard redirect
/// without a cookie, a 401 on an invalid one.
pub fn session_info(cookie: Option<&str>) -> (r: Response)
    ensures
        cookie is None ==> is_login_redirect(r),
        cookie matches Some(c) ==> match spec_session_of(c@) {
            Some(sv) => match utc_datetime_text_of(sv.expires) {
                Some(t) => is_json_ok(r, spec_session_info(sv, t)),
                None => r.status == 500 && r.body is Text,
            },
            None => r.status == 401 && r.body is Text,
        },
{
    let c = match cookie {
        Some(c) => c,
        None => {
            return redirect_login();
        },
    };
    let session = match extract_session(c) {
        Ok(s) => s,
        Err(_) => {
            return Response {
                status: 401,
                location: None,
                cookie: CookieOp::Keep,
                body: BodyKind::Text("invalid session".to_owned()),
                referrer_same_origin: false,
            };
        },
    };
    let expires_text = match format_epoch(session.expires) {
        Some(t) => t,
        None => {
            return Response {
                status: 500,
                location: None,
                cookie: CookieOp::Keep,
                body: BodyKind::Text("session expiry out of range".to_owned()),
                referrer_same_origin: false,
            };
        },
    };
    Response {
        status: 200,
        location: None,
        cookie: CookieOp::Keep,
        body: BodyKind::Json(build_session_info(&session, expires_text.as_str())),
        referrer_same_origin: false,
    }
}

/// The query pairs without any previous conversation capture, the captured
/// one appended.
pub open spec fn spec_chat_query(
    q: Seq<(Seq<char>, Seq<char>)>,
    id: Seq<char>,
) -> Seq<(Seq<char>, Seq<char>)> {
    q.filter(|p: (Seq<char>, Seq<char>)| p.0 != "chatId"@).push(("chatId"@, id))
}

fn merge_chat_query(q: &Vec<(String, String)>, id: &str) -> (r: Vec<(String, String)>)
    ensures
        pairs_view(r@) == spec_chat_query(pairs_view(q@), id@),
{
    let mut r: Vec<(String, String)> = Vec::new();
    let mut i: usize = 0;
    proof {
        assert(pairs_view(q@.subrange(0, 0)).filter(
            |p: (Seq<char>, Seq<char>)| p.0 != "chatId"@,
        ) =~= Seq::<(Seq<char>, Seq<char>)>::empty());
        assert(pairs_view(r@) =~= pairs_view(q@.subrange(0, 0)).filter(
            |p: (Seq<char>, Seq<char>)| p.0 != "chatId"@,
        ));
    }
    while i < q.len()
        invariant
            i <= q@.len(),
            pairs_view(r@) == pairs_view(q@.subrange(0, i as int)).filter(
                |p: (Seq<char>, Seq<char>)| p.0 != "chatId"@,
            ),
        decreases q@.len() - i,
    {
        proof {
            let pv = pairs_view(q@.subrange(0, i as int));
            let pv1 = pairs_view(q@.subrange(0, i + 1));
            assert(pv1.drop_last() =~= pv);
            assert(pv1.last() == (q@[i as int].0@, q@[i as int].1@));
        }
        if !str_eq(q[i].0.as_str(), "chatId") {
            let pair = (q[i].0.clone(), q[i].1.clone());
            r.push(pair);
        }
        proof {
            let f = |p: (Seq<char>, Seq<char>)| p.0 != "chatId"@;
            let pv1 = pairs_view(q@.subrange(0, i + 1));
            reveal_with_fuel(Seq::filter, 2);
            assert(pv1.filter(f) =~= (if f(pv1.last()) {
                pv1.drop_last().filter(f).push(pv1.last())
            } else {
                pv1.drop_last().filter(f)
            }));
            assert(pairs_view(r@) =~= pv1.filter(f));
        }
        i += 1;
    }
    let pair = ("chatId".to_owned(), id.to_owned());
    r.push(pair);
    proof {
        assert(q@.subrange(0, q@.len() as int) =~= q@);
        assert(pairs_view(r@) =~= spec_chat_query(pairs_view(q@), id@));
    }
    r
}

/// The chat page: unauthenticated requests are redirected to the login
/// page; authenticated ones get the page envelope for the home view or for
/// one conversation.
pub fn chat_page(
    cookie: Option<&str>,
    conversation_id: Option<String>,
    query: &Vec<(String, String)>,
) -> (r: Response)
    ensures
        cookie is None ==> is_login_redirect(r),
        cookie matches Some(c) ==> match spec_session_of(c@) {
            Some(sv) => match conversation_id {
                Some(id) => is_page_ok(
                    r,
                    Template::Detail,
                    Some(
                        spec_page_envelope(
                            spec_page_props(sv),
                            "/c/[chatId]"@,
                            spec_query_json(spec_chat_query(pairs_view(query@), id@)),
                        ),
                    ),
                ),
                None => is_page_ok(
                    r,
                    Template::Chat,
                    Some(
                        spec_page_envelope(
                            spec_page_props(sv),
                            "/"@,
                            spec_query_json(pairs_view(query@)),
                        ),
                    ),
                ),
            },
            None => is_login_redirect(r),
        },
{
    let c = match cookie {
        Some(c) => c,
        None => {
            return redirect_login();
        },
    };
    let session = match extract_session(c) {
        Ok(s) => s,
        Err(_) => {
            return redirect_login();
        },
    };
    match conversation_id {
        Some(id) => {
            let q = merge_chat_query(query, id.as_str());
            let props = build_chat_page_envelope(&session, "/c/[chatId]", &q);
            Response {
                status: 200,
                location: None,
                cookie: CookieOp::Keep,
                body: BodyKind::Page { template: Template::Detail, props: Some(props) },
                referrer_same_origin: false,
            }
        },
        None => {
            let props = build_chat_page_envelope(&session, "/", query);
            Response {
                status: 200,
                location: None,
                cookie: CookieOp::Keep,
                body: BodyKind::Page { template: Template::Chat, props: Some(props) },
                referrer_same_origin: false,
            }
        },
    }
}

/// The chat data endpoint: a missing or invalid cookie gets HTTP 200 with
/// the soft-redirect body, never a hard redirect; a valid one gets the bare
/// page props.
pub fn chat_data(cookie: Option<&str>) -> (r: Response)
    ensures
        match cookie {
            Some(c) => match spec_session_of(c@) {
                Some(sv) => is_json_ok(r, spec_data_body(spec_page_props(sv))),
                None => is_json_ok(r, spec_soft_redirect("/auth/login?"@)),
            },
            None => is_json_ok(r, spec_soft_redirect("/auth/login?"@)),
        },
{
    let session = match cookie {
        Some(c) => match extract_session(c) {
            Ok(s) => Some(s),
            Err(_) => None,
        },
        None => None,
    };
    match session {
        Some(s) => Response {
            status: 200,
            location: None,
            cookie: CookieOp::Keep,
            body: BodyKind::Json(build_chat_data_body(&s)),
            referrer_same_origin: false,
        },
        None => Response {
            status: 200,
            location: None,
            cookie: CookieOp::Keep,
            body: BodyKind::Json(build_soft_redirect("/auth/login?")),
            referrer_same_origin: false,
        },
    }
}

/// The redirect from the old chat paths to the canonical ones.
pub fn chat_redirect(conversation_id: Option<&str>) -> (r: Response)
    ensures
        r.status == 307,
        r.cookie is Keep,
        r.body is Empty,
        match conversation_id {
            Some(id) => r.location matches Some(l) && l@ == "/c/"@ + id@,
            None => r.location matches Some(l) && l@ == "/"@,
        },
{
    let location = match conversation_id {
        Some(id) => {
            let mut l = "/c/".to_owned();
            l.append(id);
            l
        },
        None => "/".to_owned(),
    };
    Response {
        status: 307,
        location: Some(location),
        cookie: CookieOp::Keep,
        body: BodyKind::Empty,
        referrer_same_origin: false,
    }
}

/// The permanent redirect from a share continue page to the share page.
pub fn share_redirect(share_id: &str) -> (r: Response)
    ensures
        r.status == 308,
        r.location matches Some(l) && l@ == "/share/"@ + share_id@,
        r.cookie is Keep,
        r.body is Empty,
{
    let mut l = "/share/".to_owned();
    l.append(share_id);
    Response {
        status: 308,
        location: Some(l),
        cookie: CookieOp::Keep,
        body: BodyKind::Empty,
        referrer_same_origin: false,
    }
}

/// What a share request does before the upstream call.
pub enum ShareStep {
    /// Answered locally (unauthenticated).
    Done(Response),
    /// Fetch the share resource with this session's access token.
    Fetch(Session),
}

/// The share page: an invalid session is sent to the login page with a
/// return path; a valid one proceeds to the upstream fetch.
pub fn share_page_begin(cookie: Option<&str>, share_id: &str) -> (r: ShareStep)
    ensures
        cookie is None ==> (r matches ShareStep::Done(resp) && is_login_redirect(resp)),
        cookie matches Some(c) ==> match spec_session_of(c@) {
            Some(sv) => r matches ShareStep::Fetch(s) && s@ == sv,
            None => r matches ShareStep::Done(resp) && {
                &&& resp.status == 302
                &&& resp.location matches Some(l) && l@ == "/auth/login?next=%2Fshare%2F"@
                    + share_id@
                &&& resp.body is Empty
                &&& resp.cookie is Keep
            },
        },
{
    let c = match cookie {
        Some(c) => c,
        None => {
            return ShareStep::Done(redirect_login());
        },
    };
    match extract_session(c) {
        Ok(s) => ShareStep::Fetch(s),
        Err(_) => {
            let mut l = "/auth/login?next=%2Fshare%2F".to_owned();
            l.append(share_id);
            ShareStep::Done(
                Response {
                    status: 302,
                    location: Some(l),
                    cookie: CookieOp::Keep,
                    body: BodyKind::Empty,
                    referrer_same_origin: false,
                },
            )
        },
    }
}

/// The share page, after the upstream call: the transformed payload in a
/// page envelope, or the error page when the body was not JSON.
pub fn share_page_finish(share_id: &str, body: &str) -> (r: Response)
    ensures
        match spec_share_payload(body@) {
            Some(payload) => is_page_ok(
                r,
                Template::Share,
                Some(
                    spec_page_envelope(
                        spec_share_props(share_id@, payload),
                        "/share/[[...shareParams]]"@,
                        spec_share_query(share_id@),
                    ),
                ),
            ),
            None => is_page_ok(r, Template::ErrorPage, Some(spec_error_envelope(true))),
        },
{
    match transform_share_body(body) {
        Some(payload) => Response {
            status: 200,
            location: None,
            cookie: CookieOp::Keep,
            body: BodyKind::Page {
                template: Template::Share,
                props: Some(build_share_page_envelope(share_id, payload.as_str())),
            },
            referrer_same_origin: false,
        },
        None => Response {
            status: 200,
            location: None,
            cookie: CookieOp::Keep,
            body: BodyKind::Page {
                template: Template::ErrorPage,
                props: Some(build_error_envelope(true)),
            },
            referrer_same_origin: false,
        },
    }
}

/// A share data endpoint with a missing or invalid session: HTTP 200 with a
/// soft redirect carrying the return path.
fn share_data_unauth(share_id: &str, cont: bool) -> (r: Response)
    ensures
        !cont ==> is_json_ok(
            r,
            spec_soft_redirect("/auth/login?next=%2Fshare%2F"@ + share_id@),
        ),
        cont ==> is_json_ok(
            r,
            spec_soft_redirect("/auth/login?next=%2Fshare%2F"@ + share_id@ + "%2Fcontinue"@),
        ),
{
    let mut l = "/auth/login?next=%2Fshare%2F".to_owned();
    l.append(share_id);
    if cont {
        l.append("%2Fcontinue");
    }
    Response {
        status: 200,
        location: None,
        cookie: CookieOp::Keep,
        body: BodyKind::Json(build_soft_redirect(l.as_str())),
        referrer_same_origin: false,
    }
}

/// The share data endpoint: soft redirect without identity, upstream fetch
/// with one.
pub fn share_data_begin(cookie: Option<&str>, share_id: &str) -> (r: ShareStep)
    ensures
        ({
            let unauth = cookie is None || (cookie matches Some(c) && spec_session_of(c@)
                is None);
            &&& unauth ==> (r matches ShareStep::Done(resp) && is_json_ok(
                resp,
                spec_soft_redirect("/auth/login?next=%2Fshare%2F"@ + share_id@),
            ))
            &&& cookie matches Some(c) ==> (match spec_session_of(c@) {
                Some(sv) => r matches ShareStep::Fetch(s) && s@ == sv,
                None => true,
            })
        }),
{
    match cookie {
        Some(c) => match extract_session(c) {
            Ok(s) => ShareStep::Fetch(s),
            Err(_) => ShareStep::Done(share_data_unauth(share_id, false)),
        },
        None => ShareStep::Done(share_data_unauth(share_id, false)),
    }
}

/// The share data endpoint, after the upstream call.
pub fn share_data_finish(share_id: &str, body: &str) -> (r: Response)
    ensures
        match spec_share_payload(body@) {
            Some(payload) => is_json_ok(r, spec_data_body(spec_share_props(share_id@, payload))),
            None => is_json_ok(r, "{\"notFound\":true}"@),
        },
{
    match transform_share_body(body) {
        Some(payload) => Response {
            status: 200,
            location: None,
            cookie: CookieOp::Keep,
            body: BodyKind::Json(build_share_data_body(share_id, payload.as_str())),
            referrer_same_origin: false,
        },
        None => Response {
            status: 200,
            location: None,
            cookie: CookieOp::Keep,
            body: BodyKind::Json("{\"notFound\":true}".to_owned()),
            referrer_same_origin: false,
        },
    }
}

/// The continue-mode share data endpoint: soft redirect without identity.
pub fn share_continue_begin(cookie: Option<&str>, share_id: &str) -> (r: ShareStep)
    ensures
        ({
            let unauth = cookie is None || (cookie matches Some(c) && spec_session_of(c@)
                is None);
            &&& unauth ==> (r matches ShareStep::Done(resp) && is_json_ok(
                resp,
                spec_soft_redirect(
                    "/auth/login?next=%2Fshare%2F"@ + share_id@ + "%2Fcontinue"@,
                ),
            ))
            &&& cookie matches Some(c) ==> (match spec_session_of(c@) {
                Some(sv) => r matches ShareStep::Fetch(s) && s@ == sv,
                None => true,
            })
        }),
{
    match cookie {
        Some(c) => match extract_session(c) {
            Ok(s) => ShareStep::Fetch(s),
            Err(_) => ShareStep::Done(share_data_unauth(share_id, true)),
        },
        None => ShareStep::Done(share_data_unauth(share_id, true)),
    }
}

/// The continue-mode share data endpoint, after the upstream call. The
/// failure body is marked same-origin referrer policy.
pub fn share_continue_finish(session: &Session, share_id: &str, body: &str) -> (r: Response)
    ensures
        match spec_share_payload(body@) {
            Some(payload) => is_json_ok(
                r,
                spec_data_body(spec_share_continue_props(session@, share_id@, payload)),
            ),
            None => {
                &&& r.status == 200
                &&& r.location is None
                &&& r.cookie is Keep
                &&& r.body matches BodyKind::Json(b) && b@ == "{\"notFound\":true}"@
                &&& r.referrer_same_origin
            },
        },
{
    match transform_share_body(body) {
        Some(payload) => Response {
            status: 200,
            location: None,
            cookie: CookieOp::Keep,
            body: BodyKind::Json(build_share_continue_body(session, share_id, payload.as_str())),
            referrer_same_origin: false,
        },
        None => Response {
            status: 200,
            location: None,
            cookie: CookieOp::Keep,
            body: BodyKind::Json("{\"notFound\":true}".to_owned()),
            referrer_same_origin: true,
        },
    }
}

/// The first query value under the given key.
pub open spec fn spec_query_value(q: Seq<(Seq<char>, Seq<char>)>, k: Seq<char>) -> Option<
    Seq<char>,
>
    decreases q.len(),
{
    if q.len() == 0 {
        None
    } else if q[0].0 == k {
        Some(q[0].1)
    } else {
        spec_query_value(q.skip(1), k)
    }
}

/// The image proxy accepts only requests naming an upstream URL; the shell
/// streams that URL's bytes back unchanged.
pub fn image_url(query: &Vec<(String, String)>) -> (r: Result<String, Response>)
    ensures
        match spec_query_value(pairs_view(query@), "url"@) {
            Some(u) => r matches Ok(v) && v@ == u,
            None => r matches Err(resp) && resp.status == 400 && resp.body is Text,
        },
{
    let mut i: usize = 0;
    proof {
        assert(query@.skip(0) =~= query@);
    }
    while i < query.len()
        invariant
            i <= query@.len(),
            spec_query_value(pairs_view(query@), "url"@) == spec_query_value(
                pairs_view(query@.skip(i as int)),
                "url"@,
            ),
        decreases query@.len() - i,
    {
        proof {
            let pv = pairs_view(query@.skip(i as int));
            assert(pv[0] == (query@[i as int].0@, query@[i as int].1@));
            assert(pairs_view(query@.skip(i as int)).skip(1) =~= pairs_view(query@.skip(i + 1)));
        }
        if str_eq(query[i].0.as_str(), "url") {
            return Ok(query[i].1.clone());
        }
        i += 1;
    }
    proof {
        assert(pairs_view(query@.skip(query@.len() as int)).len() == 0);
    }
    Err(
        Response {
            status: 400,
            location: None,
            cookie: CookieOp::Keep,
            body: BodyKind::Text("Missing URL parameter".to_owned()),
            referrer_same_origin: false,
        },
    )
}

/// The catch-all page: a rendered 404 template.
pub fn not_found_page() -> (r: Response)
    ensures
        is_page_ok(r, Template::ErrorPage, Some(spec_error_envelope(false))),
{
    Response {
        status: 200,
        location: None,
        cookie: CookieOp::Keep,
        body: BodyKind::Page {
            template: Template::ErrorPage,
            props: Some(build_error_envelope(false)),
        },
        referrer_same_origin: false,
    }
}

} // verus!
