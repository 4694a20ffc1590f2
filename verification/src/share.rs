//! The share-resource transformer: the upstream share payload is parsed,
//! its continue-conversation link made relative when it points at the
//! canonical origin, and the result embedded in an envelope.

use vstd::prelude::*;
use vstd::string::StrSliceExecFns;
use crate::text::{json_quoted, push_chars, push_quoted, chars_to_string, str_starts_with,
    spec_starts_with};
use crate::config::{spec_upstream_origin, upstream_origin};
use crate::session::{Session, SessionV};
use crate::envelope::{spec_common_fields, spec_page_props, spec_page_envelope, spec_data_body,
    push_page_props, push_common_fields};

verus! {

/// What probing the upstream body yields: nothing when the body is not
/// JSON; otherwise the optional continue-conversation link. A pure function
/// of the body text.
pub uninterp spec fn ccu_of(body: Seq<char>) -> Option<Option<Seq<char>>>;

/// The body re-serialized with the link replaced (when one is given): a
/// pure function of the body and the replacement.
pub uninterp spec fn rewritten_of(body: Seq<char>, repl: Option<Seq<char>>) -> Option<Seq<char>>;

/// Relies on serde_json's `from_str::<Value>` (a pure parse that fails
/// exactly on non-JSON), `Value::get` and `Value::as_str`.
#[verifier::external_body]
pub(crate) fn probe_ccu(body: &str) -> (r: Option<Option<String>>)
    ensures
        match r {
            Some(o) => ccu_of(body@) == Some(
                match o {
                    Some(u) => Some(u@),
                    None => None::<Seq<char>>,
                },
            ),
            None => ccu_of(body@) is None,
        },
{
    match serde_json::from_str::<serde_json::Value>(body) {
        Ok(v) => Some(
            v.get("continue_conversation_url").and_then(|x| x.as_str()).map(|s| s.to_string()),
        ),
        Err(_) => None,
    }
}

/// Relies on serde_json's `from_str::<Value>`, `Value::as_object_mut`, the
/// map's `insert`, and `Value::to_string`: all pure functions of the
/// inputs; the parse here succeeds exactly when the probe's does, both
/// parsing the same text.
#[verifier::external_body]
pub(crate) fn rewrite_ccu(body: &str, repl: Option<&str>) -> (r: Option<String>)
    ensures
        match r {
            Some(t) => ccu_of(body@) is Some && rewritten_of(
                body@,
                match repl {
                    Some(u) => Some(u@),
                    None => None::<Seq<char>>,
                },
            ) == Some(t@),
            None => ccu_of(body@) is None,
        },
{
    match serde_json::from_str::<serde_json::Value>(body) {
        Ok(mut v) => {
            if let Some(new_value) = repl {
                if let Some(map) = v.as_object_mut() {
                    map.insert(
                        "continue_conversation_url".to_owned(),
                        serde_json::Value::String(new_value.to_owned()),
                    );
                }
            }
            Some(v.to_string())
        },
        Err(_) => None,
    }
}

/// A link that starts with the canonical upstream origin loses that prefix
/// and becomes relative; anything else passes unchanged.
pub open spec fn spec_strip_origin(u: Seq<char>) -> Seq<char> {
    if spec_starts_with(u, spec_upstream_origin()) {
        u.skip(spec_upstream_origin().len() as int)
    } else {
        u
    }
}

/// Makes a continue-conversation link relative, mirroring
/// `spec_strip_origin`.
pub fn strip_origin(u: &str) -> (r: String)
    ensures
        r@ == spec_strip_origin(u@),
{
    proof {
        reveal_strlit("https://chat.openai.com");
    }
    let n = u.unicode_len();
    if str_starts_with(u, upstream_origin()) {
        u.substring_char(23, n).to_owned()
    } else {
        u.to_owned()
    }
}

/// The share payload to embed: the upstream body with its link made
/// relative, or nothing when the body is not JSON.
pub open spec fn spec_share_payload(body: Seq<char>) -> Option<Seq<char>> {
    match ccu_of(body) {
        None => None,
        Some(o) => rewritten_of(
            body,
            match o {
                Some(u) => Some(spec_strip_origin(u)),
                None => None,
            },
        ),
    }
}

/// Transforms the upstream share body, mirroring `spec_share_payload`.
pub fn transform_share_body(body: &str) -> (r: Option<String>)
    ensures
        match r {
            Some(t) => spec_share_payload(body@) == Some(t@),
            None => spec_share_payload(body@) is None,
        },
{
    let ccu = match probe_ccu(body) {
        Some(o) => o,
        None => {
            return None;
        },
    };
    match ccu {
        Some(u) => {
            let stripped = strip_origin(u.as_str());
            rewrite_ccu(body, Some(stripped.as_str()))
        },
        None => rewrite_ccu(body, None),
    }
}

/// The page props of a share view (data variant): the id, the payload, and
/// the fixed flags.
pub open spec fn spec_share_props(id: Seq<char>, payload: Seq<char>) -> Seq<char> {
    "{\"sharedConversationId\":"@ + json_quoted(id)
        + ",\"serverResponse\":{\"type\":\"data\",\"data\":"@ + payload
        + "},\"continueMode\":false,\"moderationMode\":false,\"chatPageProps\":{}}"@
}

/// The query object of a share page envelope.
pub open spec fn spec_share_query(id: Seq<char>) -> Seq<char> {
    "{\"shareParams\":["@ + json_quoted(id) + "]}"@
}

/// The page props of the continue-mode data endpoint: the common fields,
/// the share payload, and the chat page props nested inside.
pub open spec fn spec_share_continue_props(
    s: SessionV,
    id: Seq<char>,
    payload: Seq<char>,
) -> Seq<char> {
    "{"@ + spec_common_fields(s) + ",\"sharedConversationId\":"@ + json_quoted(id)
        + ",\"serverResponse\":{\"type\":\"data\",\"data\":"@ + payload
        + "},\"continueMode\":true,\"moderationMode\":false,\"chatPageProps\":"@ + spec_page_props(
        s,
    ) + "}"@
}

fn push_share_props(out: &mut Vec<char>, id: &str, payload: &str)
    ensures
        final(out)@ == old(out)@ + spec_share_props(id@, payload@),
{
    push_chars(out, "{\"sharedConversationId\":");
    push_quoted(out, id);
    push_chars(out, ",\"serverResponse\":{\"type\":\"data\",\"data\":");
    push_chars(out, payload);
    push_chars(out, "},\"continueMode\":false,\"moderationMode\":false,\"chatPageProps\":{}}");
    proof {
        assert(out@ =~= old(out)@ + spec_share_props(id@, payload@));
    }
}

/// Builds the full share page envelope.
pub fn build_share_page_envelope(id: &str, payload: &str) -> (r: String)
    ensures
        r@ == spec_page_envelope(
            spec_share_props(id@, payload@),
            "/share/[[...shareParams]]"@,
            spec_share_query(id@),
        ),
{
    let mut out: Vec<char> = Vec::new();
    push_chars(&mut out, "{\"props\":{\"pageProps\":");
    push_share_props(&mut out, id, payload);
    push_chars(&mut out, ",\"__N_SSP\":true},\"page\":");
    push_quoted(&mut out, "/share/[[...shareParams]]");
    push_chars(&mut out, ",\"query\":");
    push_chars(&mut out, "{\"shareParams\":[");
    push_quoted(&mut out, id);
    push_chars(&mut out, "]}");
    push_chars(&mut out, ",\"buildId\":\"");
    push_chars(&mut out, "XmKrBoPpskgF_4RiIX1jm");
    push_chars(&mut out, "\",\"isFallback\":false,\"gssp\":true,\"scriptLoader\":[]}");
    proof {
        assert(out@ =~= spec_page_envelope(
            spec_share_props(id@, payload@),
            "/share/[[...shareParams]]"@,
            spec_share_query(id@),
        ));
    }
    chars_to_string(&out)
}

/// Builds the share data-endpoint body.
pub fn build_share_data_body(id: &str, payload: &str) -> (r: String)
    ensures
        r@ == spec_data_body(spec_share_props(id@, payload@)),
{
    let mut out: Vec<char> = Vec::new();
    push_chars(&mut out, "{\"pageProps\":");
    push_share_props(&mut out, id, payload);
    push_chars(&mut out, ",\"__N_SSP\":true}");
    proof {
        assert(out@ =~= spec_data_body(spec_share_props(id@, payload@)));
    }
    chars_to_string(&out)
}

/// Builds the continue-mode data-endpoint body.
pub fn build_share_continue_body(s: &Session, id: &str, payload: &str) -> (r: String)
    ensures
        r@ == spec_data_body(spec_share_continue_props(s@, id@, payload@)),
{
    let mut out: Vec<char> = Vec::new();
    push_chars(&mut out, "{\"pageProps\":");
    push_chars(&mut out, "{");
    push_common_fields(&mut out, s);
    push_chars(&mut out, ",\"sharedConversationId\":");
    push_quoted(&mut out, id);
    push_chars(&mut out, ",\"serverResponse\":{\"type\":\"data\",\"data\":");
    push_chars(&mut out, payload);
    push_chars(&mut out, "},\"continueMode\":true,\"moderationMode\":false,\"chatPageProps\":");
    push_page_props(&mut out, s);
    push_chars(&mut out, "}");
    push_chars(&mut out, ",\"__N_SSP\":true}");
    proof {
        assert(out@ =~= spec_data_body(spec_share_continue_props(s@, id@, payload@)));
    }
    chars_to_string(&out)
}

} // verus!
