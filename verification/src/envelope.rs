//! The SSR response-envelope builder: every JSON body the gateway serves is
//! one of these exact texts. Full pages embed an envelope with page, query
//! and build identifier; data endpoints return the bare page props.

use vstd::prelude::*;
use crate::text::{json_quoted, push_chars, push_quoted, chars_to_string};
use crate::session::{opt_quoted, Session, SessionV};
use crate::routes::spec_build_id;

verus! {

/// The user object embedded in page props and session info.
pub open spec fn spec_user_block(s: SessionV) -> Seq<char> {
    "{\"id\":"@ + json_quoted(s.user_id) + ",\"name\":"@ + json_quoted(s.email) + ",\"email\":"@
        + json_quoted(s.email) + ",\"image\":"@ + opt_quoted(s.picture) + ",\"picture\":"@
        + opt_quoted(s.picture) + ",\"groups\":[]}"@
}

/// The fields shared by every authenticated page-props object.
pub open spec fn spec_common_fields(s: SessionV) -> Seq<char> {
    "\"user\":"@ + spec_user_block(s)
        + ",\"serviceStatus\":{},\"userCountry\":\"US\",\"geoOk\":true,\"serviceAnnouncement\":{\"paid\":{},\"public\":{}},\"isUserInCanPayGroup\":true"@
}

/// The page props of an authenticated chat page.
pub open spec fn spec_page_props(s: SessionV) -> Seq<char> {
    "{"@ + spec_common_fields(s) + "}"@
}

/// One query entry as JSON text.
pub open spec fn spec_query_entry(p: (Seq<char>, Seq<char>)) -> Seq<char> {
    json_quoted(p.0) + ":"@ + json_quoted(p.1)
}

/// The fields of the query object, comma separated, in order.
pub open spec fn spec_query_fields(q: Seq<(Seq<char>, Seq<char>)>) -> Seq<char>
    decreases q.len(),
{
    if q.len() == 0 {
        Seq::empty()
    } else if q.len() == 1 {
        spec_query_entry(q.last())
    } else {
        spec_query_fields(q.drop_last()) + ","@ + spec_query_entry(q.last())
    }
}

/// The query object of a page envelope.
pub open spec fn spec_query_json(q: Seq<(Seq<char>, Seq<char>)>) -> Seq<char> {
    "{"@ + spec_query_fields(q) + "}"@
}

pub open spec fn pairs_view(q: Seq<(String, String)>) -> Seq<(Seq<char>, Seq<char>)> {
    q.map_values(|p: (String, String)| (p.0@, p.1@))
}

/// A full-page envelope: inner page props wrapped with page, query, build
/// identifier and loader fields.
pub open spec fn spec_page_envelope(
    inner: Seq<char>,
    page: Seq<char>,
    query_json: Seq<char>,
) -> Seq<char> {
    "{\"props\":{\"pageProps\":"@ + inner + ",\"__N_SSP\":true},\"page\":"@ + json_quoted(page)
        + ",\"query\":"@ + query_json + ",\"buildId\":\""@ + spec_build_id()
        + "\",\"isFallback\":false,\"gssp\":true,\"scriptLoader\":[]}"@
}

/// A data-endpoint body: the bare page props.
pub open spec fn spec_data_body(inner: Seq<char>) -> Seq<char> {
    "{\"pageProps\":"@ + inner + ",\"__N_SSP\":true}"@
}

/// The soft-redirect body a data endpoint serves to an unauthenticated
/// client: HTTP 200, the client-side router navigates.
pub open spec fn spec_soft_redirect(login_path: Seq<char>) -> Seq<char> {
    "{\"pageProps\":{\"__N_REDIRECT\":"@ + json_quoted(login_path)
        + ",\"__N_REDIRECT_STATUS\":307},\"__N_SSP\":true}"@
}

/// The error-page envelope; `gip` differs between the catch-all page and
/// the failed share page.
pub open spec fn spec_error_envelope(gip: bool) -> Seq<char> {
    "{\"props\":{\"pageProps\":{\"statusCode\":404}},\"page\":\"/_error\",\"query\":{},\"buildId\":\""@
        + spec_build_id() + "\",\"nextExport\":true,\"isFallback\":false,\"gip\":"@ + (if gip {
        "true"@
    } else {
        "false"@
    }) + ",\"scriptLoader\":[]}"@
}

/// The session-info body: user, expiry text, access token, provider.
pub open spec fn spec_session_info(s: SessionV, expires_text: Seq<char>) -> Seq<char> {
    "{\"user\":"@ + spec_user_block(s) + ",\"expires\":"@ + json_quoted(expires_text)
        + ",\"accessToken\":"@ + json_quoted(s.access_token) + ",\"authProvider\":\"auth0\"}"@
}

fn push_opt_quoted(out: &mut Vec<char>, o: &Option<String>)
    ensures
        final(out)@ == old(out)@ + opt_quoted(
            match o {
                Some(s) => Some(s@),
                None => None,
            },
        ),
{
    match o {
        Some(s) => push_quoted(out, s.as_str()),
        None => push_chars(out, "null"),
    }
}

fn push_user_block(out: &mut Vec<char>, s: &Session)
    ensures
        final(out)@ == old(out)@ + spec_user_block(s@),
{
    push_chars(out, "{\"id\":");
    push_quoted(out, s.user_id.as_str());
    push_chars(out, ",\"name\":");
    push_quoted(out, s.email.as_str());
    push_chars(out, ",\"email\":");
    push_quoted(out, s.email.as_str());
    push_chars(out, ",\"image\":");
    push_opt_quoted(out, &s.picture);
    push_chars(out, ",\"picture\":");
    push_opt_quoted(out, &s.picture);
    push_chars(out, ",\"groups\":[]}");
    proof {
        assert(out@ =~= old(out)@ + spec_user_block(s@));
    }
}

pub(crate) fn push_common_fields(out: &mut Vec<char>, s: &Session)
    ensures
        final(out)@ == old(out)@ + spec_common_fields(s@),
{
    push_chars(out, "\"user\":");
    push_user_block(out, s);
    push_chars(
        out,
        ",\"serviceStatus\":{},\"userCountry\":\"US\",\"geoOk\":true,\"serviceAnnouncement\":{\"paid\":{},\"public\":{}},\"isUserInCanPayGroup\":true",
    );
    proof {
        assert(out@ =~= old(out)@ + spec_common_fields(s@));
    }
}

pub(crate) fn push_page_props(out: &mut Vec<char>, s: &Session)
    ensures
        final(out)@ == old(out)@ + spec_page_props(s@),
{
    push_chars(out, "{");
    push_common_fields(out, s);
    push_chars(out, "}");
    proof {
        assert(out@ =~= old(out)@ + spec_page_props(s@));
    }
}

/// Builds the query object of a page envelope from the request pairs.
pub(crate) fn push_query_json(out: &mut Vec<char>, q: &Vec<(String, String)>)
    ensures
        final(out)@ == old(out)@ + spec_query_json(pairs_view(q@)),
{
    push_chars(out, "{");
    let ghost mid = old(out)@ + "{"@;
    let mut i: usize = 0;
    proof {
        assert(pairs_view(q@.subrange(0, 0)) =~= Seq::<(Seq<char>, Seq<char>)>::empty());
        assert(out@ =~= mid + spec_query_fields(pairs_view(q@.subrange(0, 0))));
    }
    while i < q.len()
        invariant
            i <= q@.len(),
            out@ == mid + spec_query_fields(pairs_view(q@.subrange(0, i as int))),
        decreases q@.len() - i,
    {
        if i > 0 {
            push_chars(out, ",");
        }
        push_quoted(out, q[i].0.as_str());
        push_chars(out, ":");
        push_quoted(out, q[i].1.as_str());
        proof {
            let pv1 = pairs_view(q@.subrange(0, i + 1));
            assert(pv1.drop_last() =~= pairs_view(q@.subrange(0, i as int)));
            assert(pv1.last() == (q@[i as int].0@, q@[i as int].1@));
            assert(out@ =~= mid + spec_query_fields(pv1));
        }
        i += 1;
    }
    push_chars(out, "}");
    proof {
        assert(q@.subrange(0, q@.len() as int) =~= q@);
        assert(out@ =~= old(out)@ + spec_query_json(pairs_view(q@)));
    }
}

/// Builds the full-page envelope text for an authenticated chat page.
pub fn build_chat_page_envelope(s: &Session, page: &str, q: &Vec<(String, String)>) -> (r: String)
    ensures
        r@ == spec_page_envelope(spec_page_props(s@), page@, spec_query_json(pairs_view(q@))),
{
    let mut out: Vec<char> = Vec::new();
    push_chars(&mut out, "{\"props\":{\"pageProps\":");
    push_page_props(&mut out, s);
    push_chars(&mut out, ",\"__N_SSP\":true},\"page\":");
    push_quoted(&mut out, page);
    push_chars(&mut out, ",\"query\":");
    push_query_json(&mut out, q);
    push_chars(&mut out, ",\"buildId\":\"");
    push_chars(&mut out, "XmKrBoPpskgF_4RiIX1jm");
    push_chars(&mut out, "\",\"isFallback\":false,\"gssp\":true,\"scriptLoader\":[]}");
    proof {
        assert(out@ =~= spec_page_envelope(
            spec_page_props(s@),
            page@,
            spec_query_json(pairs_view(q@)),
        ));
    }
    chars_to_string(&out)
}

/// Builds the data-endpoint body for an authenticated chat request.
pub fn build_chat_data_body(s: &Session) -> (r: String)
    ensures
        r@ == spec_data_body(spec_page_props(s@)),
{
    let mut out: Vec<char> = Vec::new();
    push_chars(&mut out, "{\"pageProps\":");
    push_page_props(&mut out, s);
    push_chars(&mut out, ",\"__N_SSP\":true}");
    proof {
        assert(out@ =~= spec_data_body(spec_page_props(s@)));
    }
    chars_to_string(&out)
}

/// Builds the soft-redirect body pointing at a login path.
pub fn build_soft_redirect(login_path: &str) -> (r: String)
    ensures
        r@ == spec_soft_redirect(login_path@),
{
    let mut out: Vec<char> = Vec::new();
    push_chars(&mut out, "{\"pageProps\":{\"__N_REDIRECT\":");
    push_quoted(&mut out, login_path);
    push_chars(&mut out, ",\"__N_REDIRECT_STATUS\":307},\"__N_SSP\":true}");
    proof {
        assert(out@ =~= spec_soft_redirect(login_path@));
    }
    chars_to_string(&out)
}

/// Builds the error-page envelope.
pub fn build_error_envelope(gip: bool) -> (r: String)
    ensures
        r@ == spec_error_envelope(gip),
{
    let mut out: Vec<char> = Vec::new();
    push_chars(
        &mut out,
        "{\"props\":{\"pageProps\":{\"statusCode\":404}},\"page\":\"/_error\",\"query\":{},\"buildId\":\"",
    );
    push_chars(&mut out, "XmKrBoPpskgF_4RiIX1jm");
    push_chars(&mut out, "\",\"nextExport\":true,\"isFallback\":false,\"gip\":");
    if gip {
        push_chars(&mut out, "true");
    } else {
        push_chars(&mut out, "false");
    }
    push_chars(&mut out, ",\"scriptLoader\":[]}");
    proof {
        assert(out@ =~= spec_error_envelope(gip));
    }
    chars_to_string(&out)
}

/// Builds the session-info body.
pub fn build_session_info(s: &Session, expires_text: &str) -> (r: String)
    ensures
        r@ == spec_session_info(s@, expires_text@),
{
    let mut out: Vec<char> = Vec::new();
    push_chars(&mut out, "{\"user\":");
    push_user_block(&mut out, s);
    push_chars(&mut out, ",\"expires\":");
    push_quoted(&mut out, expires_text);
    push_chars(&mut out, ",\"accessToken\":");
    push_quoted(&mut out, s.access_token.as_str());
    push_chars(&mut out, ",\"authProvider\":\"auth0\"}");
    proof {
        assert(out@ =~= spec_session_info(s@, expires_text@));
    }
    chars_to_string(&out)
}

} // verus!
