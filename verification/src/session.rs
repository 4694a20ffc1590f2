//! The session codec: a session travels in the client cookie as the
//! base64url encoding of a canonical JSON object. `encode` builds that text
//! and `decode` inverts it; the round trip is part of `encode`'s contract.

use vstd::prelude::*;
use crate::text::{
    escape_text, int_text, is_digit, json_quoted, parse_int, scan_string, take_lit,
    chars_to_string, expect_lit, parse_i64_at, parse_string_at, push_chars, push_i64, push_quoted,
    str_chars, lemma_parse_int_text, lemma_scan_quoted, lemma_take_lit,
};
use crate::b64::{b64url_of, b64url_decode_of, b64url_encode, b64url_decode};
use crate::GatewayError;

verus! {

/// The identity a successful login establishes; it lives entirely inside
/// the client cookie, the server keeps no session store.
#[derive(Debug)]
pub struct Session {
    pub refresh_token: Option<String>,
    pub access_token: String,
    pub user_id: String,
    pub email: String,
    pub picture: Option<String>,
    pub expires_in: i64,
    pub expires: i64,
}

/// The mathematical value of a session: its fields as sequences and
/// integers.
pub struct SessionV {
    pub refresh_token: Option<Seq<char>>,
    pub access_token: Seq<char>,
    pub user_id: Seq<char>,
    pub email: Seq<char>,
    pub picture: Option<Seq<char>>,
    pub expires_in: int,
    pub expires: int,
}

impl View for Session {
    type V = SessionV;

    open spec fn view(&self) -> SessionV {
        SessionV {
            refresh_token: match self.refresh_token {
                Some(s) => Some(s@),
                None => None,
            },
            access_token: self.access_token@,
            user_id: self.user_id@,
            email: self.email@,
            picture: match self.picture {
                Some(s) => Some(s@),
                None => None,
            },
            expires_in: self.expires_in as int,
            expires: self.expires as int,
        }
    }
}

impl SessionV {
    /// A session is well formed when its access token is non-empty.
    pub open spec fn wf(self) -> bool {
        self.access_token.len() > 0
    }
}

/// An optional string field: a JSON string literal or `null`.
pub open spec fn opt_quoted(o: Option<Seq<char>>) -> Seq<char> {
    match o {
        Some(s) => json_quoted(s),
        None => "null"@,
    }
}

/// The canonical JSON text of a session: all fields, in a fixed order.
pub open spec fn spec_session_json(s: SessionV) -> Seq<char> {
    "{\"refresh_token\":"@ + opt_quoted(s.refresh_token) + ",\"access_token\":"@ + json_quoted(
        s.access_token,
    ) + ",\"user_id\":"@ + json_quoted(s.user_id) + ",\"email\":"@ + json_quoted(s.email)
        + ",\"picture\":"@ + opt_quoted(s.picture) + ",\"expires_in\":"@ + int_text(s.expires_in)
        + ",\"expires\":"@ + int_text(s.expires) + "}"@
}

/// Parses an optional string field: a quoted string or the word `null`.
pub open spec fn spec_parse_opt_string(v: Seq<char>) -> Option<(Option<Seq<char>>, Seq<char>)> {
    if v.len() > 0 && v[0] == '"' {
        match scan_string(v.skip(1)) {
            Some(sr) => Some((Some(sr.0), sr.1)),
            None => None,
        }
    } else {
        match take_lit(v, "null"@) {
            Some(r) => Some((None, r)),
            None => None,
        }
    }
}

/// Parses a mandatory string field.
pub open spec fn spec_parse_quoted(v: Seq<char>) -> Option<(Seq<char>, Seq<char>)> {
    if v.len() > 0 && v[0] == '"' {
        scan_string(v.skip(1))
    } else {
        None
    }
}

/// Parses the canonical session JSON: every field in order, nothing after
/// the closing brace, and a non-empty access token.
pub open spec fn spec_parse_session(v: Seq<char>) -> Option<SessionV> {
    match take_lit(v, "{\"refresh_token\":"@) {
        None => None,
        Some(v1) => match spec_parse_opt_string(v1) {
            None => None,
            Some(rt) => match take_lit(rt.1, ",\"access_token\":"@) {
                None => None,
                Some(v2) => match spec_parse_quoted(v2) {
                    None => None,
                    Some(at) => match take_lit(at.1, ",\"user_id\":"@) {
                        None => None,
                        Some(v3) => match spec_parse_quoted(v3) {
                            None => None,
                            Some(uid) => match take_lit(uid.1, ",\"email\":"@) {
                                None => None,
                                Some(v4) => match spec_parse_quoted(v4) {
                                    None => None,
                                    Some(em) => match take_lit(em.1, ",\"picture\":"@) {
                                        None => None,
                                        Some(v5) => match spec_parse_opt_string(v5) {
                                            None => None,
                                            Some(pic) => match take_lit(
                                                pic.1,
                                                ",\"expires_in\":"@,
                                            ) {
                                                None => None,
                                                Some(v6) => match parse_int(v6) {
                                                    None => None,
                                                    Some(ei) => match take_lit(
                                                        ei.1,
                                                        ",\"expires\":"@,
                                                    ) {
                                                        None => None,
                                                        Some(v7) => match parse_int(v7) {
                                                            None => None,
                                                            Some(ex) => match take_lit(
                                                                ex.1,
                                                                "}"@,
                                                            ) {
                                                                None => None,
                                                                Some(v8) => if v8.len() == 0
                                                                    && at.0.len() > 0 {
                                                                    Some(
                                                                        SessionV {
                                                                            refresh_token: rt.0,
                                                                            access_token: at.0,
                                                                            user_id: uid.0,
                                                                            email: em.0,
                                                                            picture: pic.0,
                                                                            expires_in: ei.0,
                                                                            expires: ex.0,
                                                                        },
                                                                    )
                                                                } else {
                                                                    None
                                                                },
                                                            },
                                                        },
                                                    },
                                                },
                                            },
                                        },
                                    },
                                },
                            },
                        },
                    },
                },
            },
        },
    }
}

/// The cookie text of a session.
pub open spec fn spec_encode(s: SessionV) -> Seq<char> {
    b64url_of(spec_session_json(s))
}

/// What decoding a cookie yields: base64url decoding, then the canonical
/// session parse.
pub open spec fn spec_decode(c: Seq<char>) -> Option<SessionV> {
    match b64url_decode_of(c) {
        Some(j) => spec_parse_session(j),
        None => None,
    }
}

impl Session {
    /// Builds the canonical JSON text of this session.
    fn to_json_chars(&self) -> (r: Vec<char>)
        ensures
            r@ == spec_session_json(self@),
    {
        let mut out: Vec<char> = Vec::new();
        push_chars(&mut out, "{\"refresh_token\":");
        match &self.refresh_token {
            Some(s) => push_quoted(&mut out, s.as_str()),
            None => push_chars(&mut out, "null"),
        }
        push_chars(&mut out, ",\"access_token\":");
        push_quoted(&mut out, self.access_token.as_str());
        push_chars(&mut out, ",\"user_id\":");
        push_quoted(&mut out, self.user_id.as_str());
        push_chars(&mut out, ",\"email\":");
        push_quoted(&mut out, self.email.as_str());
        push_chars(&mut out, ",\"picture\":");
        match &self.picture {
            Some(s) => push_quoted(&mut out, s.as_str()),
            None => push_chars(&mut out, "null"),
        }
        push_chars(&mut out, ",\"expires_in\":");
        push_i64(&mut out, self.expires_in);
        push_chars(&mut out, ",\"expires\":");
        push_i64(&mut out, self.expires);
        push_chars(&mut out, "}");
        proof {
            assert(out@ =~= spec_session_json(self@));
        }
        out
    }

    /// Serializes this session into its cookie text. Decoding the result
    /// recovers exactly this session.
    pub fn encode(&self) -> (r: String)
        requires
            self@.wf(),
        ensures
            r@ == spec_encode(self@),
            spec_decode(r@) == Some(self@),
    {
        let json = self.to_json_chars();
        let js = chars_to_string(&json);
        let r = b64url_encode(js.as_str());
        proof {
            lemma_parse_session_json(self@);
        }
        r
    }

    /// Builds the session a successful credential exchange establishes:
    /// the absolute expiry is the issue time plus the granted lifetime.
    pub fn from_login(
        refresh_token: Option<String>,
        access_token: String,
        user_id: String,
        email: String,
        picture: Option<String>,
        expires_in: i64,
        now: i64,
    ) -> (r: Session)
        requires
            access_token@.len() > 0,
            0 <= now,
            0 <= expires_in,
            now + expires_in <= i64::MAX,
        ensures
            r@.wf(),
            r@ == (SessionV {
                refresh_token: match refresh_token {
                    Some(t) => Some(t@),
                    None => None,
                },
                access_token: access_token@,
                user_id: user_id@,
                email: email@,
                picture: match picture {
                    Some(p) => Some(p@),
                    None => None,
                },
                expires_in: expires_in as int,
                expires: now + expires_in,
            }),
    {
        let expires = now + expires_in;
        Session { refresh_token, access_token, user_id, email, picture, expires_in, expires }
    }

    /// Decodes a cookie value; fails with `InvalidSession` on anything that
    /// is not the encoding of a well-formed session.
    pub fn decode(cookie: &str) -> (r: Result<Session, GatewayError>)
        ensures
            match spec_decode(cookie@) {
                Some(sv) => r matches Ok(s) && s@ == sv,
                None => r == Err::<Session, GatewayError>(GatewayError::InvalidSession),
            },
    {
        let js = match b64url_decode(cookie) {
            Some(t) => t,
            None => {
                return Err(GatewayError::InvalidSession);
            },
        };
        let v = str_chars(js.as_str());
        match parse_session_chars(&v) {
            Some(s) => Ok(s),
            None => Err(GatewayError::InvalidSession),
        }
    }
}

/// Parses an optional string field at position `i` (a quoted string or the
/// word `null`), mirroring `spec_parse_opt_string` on the suffix.
fn parse_opt_string_at(v: &Vec<char>, i: usize) -> (r: Option<(Option<String>, usize)>)
    requires
        i <= v@.len(),
    ensures
        match r {
            Some(oj) => {
                &&& i <= oj.1 <= v@.len()
                &&& spec_parse_opt_string(v@.skip(i as int)) == Some(
                    (
                        match oj.0 {
                            Some(s) => Some(s@),
                            None => None::<Seq<char>>,
                        },
                        v@.skip(oj.1 as int),
                    ),
                )
            },
            None => spec_parse_opt_string(v@.skip(i as int)) is None,
        },
{
    proof {
        if i < v@.len() {
            assert(v@.skip(i as int)[0] == v@[i as int]);
        }
    }
    if i < v.len() && v[i] == '"' {
        proof {
            assert(v@.skip(i as int).skip(1) =~= v@.skip(i + 1));
        }
        match parse_string_at(v, i + 1) {
            Some((s, j)) => Some((Some(chars_to_string(&s)), j)),
            None => None,
        }
    } else {
        match expect_lit(v, i, "null") {
            Some(j) => Some((None, j)),
            None => None,
        }
    }
}

/// Parses a mandatory string field at position `i`, mirroring
/// `spec_parse_quoted` on the suffix.
fn parse_quoted_at(v: &Vec<char>, i: usize) -> (r: Option<(String, usize)>)
    requires
        i <= v@.len(),
    ensures
        match r {
            Some(sj) => {
                &&& i <= sj.1 <= v@.len()
                &&& spec_parse_quoted(v@.skip(i as int)) == Some((sj.0@, v@.skip(sj.1 as int)))
            },
            None => spec_parse_quoted(v@.skip(i as int)) is None,
        },
{
    proof {
        if i < v@.len() {
            assert(v@.skip(i as int)[0] == v@[i as int]);
        }
    }
    if i < v.len() && v[i] == '"' {
        proof {
            assert(v@.skip(i as int).skip(1) =~= v@.skip(i + 1));
        }
        match parse_string_at(v, i + 1) {
            Some((s, j)) => Some((chars_to_string(&s), j)),
            None => None,
        }
    } else {
        None
    }
}

/// Parses the canonical session JSON, mirroring `spec_parse_session`.
fn parse_session_chars(v: &Vec<char>) -> (r: Option<Session>)
    ensures
        match r {
            Some(s) => spec_parse_session(v@) == Some(s@),
            None => spec_parse_session(v@) is None,
        },
{
    proof {
        assert(v@.skip(0) =~= v@);
    }
    let i0 = match expect_lit(v, 0, "{\"refresh_token\":") {
        Some(j) => j,
        None => {
            return None;
        },
    };
    let (refresh_token, i1) = match parse_opt_string_at(v, i0) {
        Some(oj) => oj,
        None => {
            return None;
        },
    };
    let i2 = match expect_lit(v, i1, ",\"access_token\":") {
        Some(j) => j,
        None => {
            return None;
        },
    };
    let (access_token, i3) = match parse_quoted_at(v, i2) {
        Some(sj) => sj,
        None => {
            return None;
        },
    };
    let i4 = match expect_lit(v, i3, ",\"user_id\":") {
        Some(j) => j,
        None => {
            return None;
        },
    };
    let (user_id, i5) = match parse_quoted_at(v, i4) {
        Some(sj) => sj,
        None => {
            return None;
        },
    };
    let i6 = match expect_lit(v, i5, ",\"email\":") {
        Some(j) => j,
        None => {
            return None;
        },
    };
    let (email, i7) = match parse_quoted_at(v, i6) {
        Some(sj) => sj,
        None => {
            return None;
        },
    };
    let i8 = match expect_lit(v, i7, ",\"picture\":") {
        Some(j) => j,
        None => {
            return None;
        },
    };
    let (picture, i9) = match parse_opt_string_at(v, i8) {
        Some(oj) => oj,
        None => {
            return None;
        },
    };
    let i10 = match expect_lit(v, i9, ",\"expires_in\":") {
        Some(j) => j,
        None => {
            return None;
        },
    };
    let (expires_in, i11) = match parse_i64_at(v, i10) {
        Some(nj) => nj,
        None => {
            return None;
        },
    };
    let i12 = match expect_lit(v, i11, ",\"expires\":") {
        Some(j) => j,
        None => {
            return None;
        },
    };
    let (expires, i13) = match parse_i64_at(v, i12) {
        Some(nj) => nj,
        None => {
            return None;
        },
    };
    let i14 = match expect_lit(v, i13, "}") {
        Some(j) => j,
        None => {
            return None;
        },
    };
    if i14 != v.len() {
        proof {
            assert(v@.skip(i14 as int).len() > 0);
        }
        return None;
    }
    if access_token.as_str().unicode_len() == 0 {
        return None;
    }
    Some(
        Session {
            refresh_token,
            access_token,
            user_id,
            email,
            picture,
            expires_in,
            expires,
        },
    )
}

/// The codec round trip at the JSON level: parsing the canonical text of a
/// well-formed session yields that session back.
#[verifier::rlimit(100)]
#[verifier::spinoff_prover]
pub proof fn lemma_parse_session_json(s: SessionV)
    requires
        s.wf(),
        -9223372036854775808 <= s.expires_in <= 9223372036854775807,
        -9223372036854775808 <= s.expires <= 9223372036854775807,
    ensures
        spec_parse_session(spec_session_json(s)) == Some(s),
{
    reveal_strlit("null");
    reveal_strlit(",\"expires\":");
    reveal_strlit("}");
    let j = spec_session_json(s);
    let l1 = "{\"refresh_token\":"@;
    let l2 = ",\"access_token\":"@;
    let l3 = ",\"user_id\":"@;
    let l4 = ",\"email\":"@;
    let l5 = ",\"picture\":"@;
    let l6 = ",\"expires_in\":"@;
    let l7 = ",\"expires\":"@;
    let l8 = "}"@;
    let t8 = Seq::<char>::empty();
    let t7 = int_text(s.expires) + l8 + t8;
    let t6 = int_text(s.expires_in) + l7 + t7;
    let t5 = opt_quoted(s.picture) + l6 + t6;
    let t4 = json_quoted(s.email) + l5 + t5;
    let t3 = json_quoted(s.user_id) + l4 + t4;
    let t2 = json_quoted(s.access_token) + l3 + t3;
    let t1 = opt_quoted(s.refresh_token) + l2 + t2;
    assert(j =~= l1 + t1);
    lemma_take_lit(l1, t1);
    lemma_parse_opt_quoted(s.refresh_token, l2 + t2);
    assert(t1 =~= opt_quoted(s.refresh_token) + (l2 + t2));
    lemma_take_lit(l2, t2);
    lemma_parse_json_quoted(s.access_token, l3 + t3);
    assert(t2 =~= json_quoted(s.access_token) + (l3 + t3));
    lemma_take_lit(l3, t3);
    lemma_parse_json_quoted(s.user_id, l4 + t4);
    assert(t3 =~= json_quoted(s.user_id) + (l4 + t4));
    lemma_take_lit(l4, t4);
    lemma_parse_json_quoted(s.email, l5 + t5);
    assert(t4 =~= json_quoted(s.email) + (l5 + t5));
    lemma_take_lit(l5, t5);
    lemma_parse_opt_quoted(s.picture, l6 + t6);
    assert(t5 =~= opt_quoted(s.picture) + (l6 + t6));
    lemma_take_lit(l6, t6);
    assert(l7[0] == ',');
    assert(!is_digit(',')) by {
        assert(',' as nat == 44);
    }
    assert((l7 + t7)[0] == ',');
    lemma_parse_int_text(s.expires_in, l7 + t7);
    assert(t6 =~= int_text(s.expires_in) + (l7 + t7));
    lemma_take_lit(l7, t7);
    assert(l8[0] == '}');
    assert(!is_digit('}')) by {
        assert('}' as nat == 125);
    }
    assert((l8 + t8)[0] == '}');
    lemma_parse_int_text(s.expires, l8 + t8);
    assert(t7 =~= int_text(s.expires) + (l8 + t8));
    lemma_take_lit(l8, t8);
}

/// Parsing an optional string field off the front of its own text.
proof fn lemma_parse_opt_quoted(o: Option<Seq<char>>, rest: Seq<char>)
    ensures
        spec_parse_opt_string(opt_quoted(o) + rest) == Some((o, rest)),
{
    reveal_strlit("null");
    let v = opt_quoted(o) + rest;
    match o {
        Some(s) => {
            assert(v[0] == '"');
            assert(v.skip(1) =~= escape_text(s) + seq!['"'] + rest);
            lemma_scan_quoted(s, rest);
        },
        None => {
            assert(v[0] == 'n');
            assert(v[0] != '"');
            assert(v =~= "null"@ + rest);
            lemma_take_lit("null"@, rest);
        },
    }
}

/// Parsing a mandatory string field off the front of its own text.
proof fn lemma_parse_json_quoted(s: Seq<char>, rest: Seq<char>)
    ensures
        spec_parse_quoted(json_quoted(s) + rest) == Some((s, rest)),
{
    let v = json_quoted(s) + rest;
    assert(v[0] == '"');
    assert(v.skip(1) =~= escape_text(s) + seq!['"'] + rest);
    lemma_scan_quoted(s, rest);
}

} // verus!
