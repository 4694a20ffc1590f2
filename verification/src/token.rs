//! The token validator: a stateless, network-free check of a bearer access
//! token. A token is three dot-separated base64url segments; the middle one
//! decodes to a canonical profile object carrying subject, email and expiry.

use vstd::prelude::*;
use vstd::string::StrSliceExecFns;
use crate::text::{
    has_char, parse_int, scan_string, str_chars, str_has_char, take_lit, expect_lit, parse_i64_at,
    parse_string_at, chars_to_string,
};
use crate::b64::{b64url_nopad_decode, b64url_nopad_decode_of};
use crate::GatewayError;

verus! {

/// What a valid access token carries.
#[derive(Debug)]
pub struct Profile {
    pub user_id: String,
    pub email: String,
    pub expires: i64,
}

/// The mathematical value of a profile.
pub struct ProfileV {
    pub user_id: Seq<char>,
    pub email: Seq<char>,
    pub expires: int,
}

impl View for Profile {
    type V = ProfileV;

    open spec fn view(&self) -> ProfileV {
        ProfileV { user_id: self.user_id@, email: self.email@, expires: self.expires as int }
    }
}

/// The position of the first dot, if any.
pub open spec fn first_dot(v: Seq<char>) -> Option<int>
    decreases v.len(),
{
    if v.len() == 0 {
        None
    } else if v[0] == '.' {
        Some(0)
    } else {
        match first_dot(v.skip(1)) {
            Some(i) => Some(i + 1),
            None => None,
        }
    }
}

/// Parses a mandatory quoted string field.
pub open spec fn spec_profile_quoted(v: Seq<char>) -> Option<(Seq<char>, Seq<char>)> {
    if v.len() > 0 && v[0] == '"' {
        scan_string(v.skip(1))
    } else {
        None
    }
}

/// Parses the canonical profile payload: subject, email and expiry, in that
/// order, nothing more.
pub open spec fn spec_parse_profile(v: Seq<char>) -> Option<ProfileV> {
    match take_lit(v, "{\"sub\":"@) {
        None => None,
        Some(v1) => match spec_profile_quoted(v1) {
            None => None,
            Some(sub) => match take_lit(sub.1, ",\"email\":"@) {
                None => None,
                Some(v2) => match spec_profile_quoted(v2) {
                    None => None,
                    Some(em) => match take_lit(em.1, ",\"exp\":"@) {
                        None => None,
                        Some(v3) => match parse_int(v3) {
                            None => None,
                            Some(exp) => match take_lit(exp.1, "}"@) {
                                None => None,
                                Some(v4) => if v4.len() == 0 {
                                    Some(
                                        ProfileV {
                                            user_id: sub.0,
                                            email: em.0,
                                            expires: exp.0,
                                        },
                                    )
                                } else {
                                    None
                                },
                            },
                        },
                    },
                },
            },
        },
    }
}

/// What validating an access token yields: three non-empty dot-separated
/// segments, the middle one decoding to a canonical profile.
pub open spec fn spec_validate(t: Seq<char>) -> Option<ProfileV> {
    match first_dot(t) {
        None => None,
        Some(d1) => {
            let rest = t.skip(d1 + 1);
            match first_dot(rest) {
                None => None,
                Some(d2) => {
                    let payload = rest.subrange(0, d2);
                    let sig = rest.skip(d2 + 1);
                    if d1 > 0 && d2 > 0 && sig.len() > 0 && !has_char(sig, '.') {
                        match b64url_nopad_decode_of(payload) {
                            Some(j) => spec_parse_profile(j),
                            None => None,
                        }
                    } else {
                        None
                    }
                },
            }
        },
    }
}

/// A token that validates is in particular non-empty.
pub proof fn lemma_validate_nonempty(t: Seq<char>)
    ensures
        spec_validate(t) is Some ==> t.len() > 0,
{
}

proof fn lemma_first_dot_at(v: Seq<char>, k: int)
    requires
        0 <= k <= v.len(),
        forall|t: int| 0 <= t < k ==> v[t] != '.',
        k == v.len() || v[k] == '.',
    ensures
        first_dot(v) == if k == v.len() {
            None::<int>
        } else {
            Some(k)
        },
    decreases k,
{
    if k == 0 {
        if v.len() == 0 {
        } else {
            assert(v[0] == '.');
        }
    } else {
        assert(v[0] != '.');
        lemma_first_dot_at(v.skip(1), k - 1);
        if k == v.len() {
        } else {
            assert(v.skip(1)[k - 1] == v[k]);
        }
    }
}

/// Finds the first dot at or after the start of `s`, mirroring `first_dot`.
fn find_dot(s: &str) -> (r: Option<usize>)
    ensures
        match r {
            Some(k) => k < s@.len() && first_dot(s@) == Some(k as int),
            None => first_dot(s@) is None,
        },
{
    let n = s.unicode_len();
    let mut i: usize = 0;
    while i < n
        invariant
            i <= n,
            n == s@.len(),
            forall|t: int| 0 <= t < i ==> s@[t] != '.',
        decreases n - i,
    {
        if s.get_char(i) == '.' {
            proof {
                lemma_first_dot_at(s@, i as int);
            }
            return Some(i);
        }
        i += 1;
    }
    proof {
        lemma_first_dot_at(s@, n as int);
    }
    None
}

/// Parses the canonical profile payload, mirroring `spec_parse_profile`.
fn parse_profile_chars(v: &Vec<char>) -> (r: Option<Profile>)
    ensures
        match r {
            Some(p) => spec_parse_profile(v@) == Some(p@),
            None => spec_parse_profile(v@) is None,
        },
{
    proof {
        assert(v@.skip(0) =~= v@);
    }
    let i0 = match expect_lit(v, 0, "{\"sub\":") {
        Some(j) => j,
        None => {
            return None;
        },
    };
    let (user_id, i1) = match parse_profile_quoted_at(v, i0) {
        Some(sj) => sj,
        None => {
            return None;
        },
    };
    let i2 = match expect_lit(v, i1, ",\"email\":") {
        Some(j) => j,
        None => {
            return None;
        },
    };
    let (email, i3) = match parse_profile_quoted_at(v, i2) {
        Some(sj) => sj,
        None => {
            return None;
        },
    };
    let i4 = match expect_lit(v, i3, ",\"exp\":") {
        Some(j) => j,
        None => {
            return None;
        },
    };
    let (expires, i5) = match parse_i64_at(v, i4) {
        Some(nj) => nj,
        None => {
            return None;
        },
    };
    let i6 = match expect_lit(v, i5, "}") {
        Some(j) => j,
        None => {
            return None;
        },
    };
    if i6 != v.len() {
        proof {
            assert(v@.skip(i6 as int).len() > 0);
        }
        return None;
    }
    Some(Profile { user_id, email, expires })
}

fn parse_profile_quoted_at(v: &Vec<char>, i: usize) -> (r: Option<(String, usize)>)
    requires
        i <= v@.len(),
    ensures
        match r {
            Some(sj) => {
                &&& i <= sj.1 <= v@.len()
                &&& spec_profile_quoted(v@.skip(i as int)) == Some((sj.0@, v@.skip(sj.1 as int)))
            },
            None => spec_profile_quoted(v@.skip(i as int)) is None,
        },
{
    proof {
        if i < v@.len() {
            assert(v@.skip(i as int)[0] == v@[i as int]);
        }
    }
    if i < v.len() && v[i] == '"' {
        proof {
            assert(v@.skip(i as int).skip(1) =~= v@.skip(i + 1));
        }
        match parse_string_at(v, i + 1) {
            Some((s, j)) => Some((chars_to_string(&s), j)),
            None => None,
        }
    } else {
        None
    }
}

/// Validates an access token locally: no network. Fails with `Unauthorized`
/// exactly on tokens that do not carry a canonical profile.
pub fn validate(token: &str) -> (r: Result<Profile, GatewayError>)
    ensures
        match spec_validate(token@) {
            Some(pv) => r matches Ok(p) && p@ == pv,
            None => r == Err::<Profile, GatewayError>(GatewayError::Unauthorized),
        },
{
    let n = token.unicode_len();
    let d1 = match find_dot(token) {
        Some(k) => k,
        None => {
            return Err(GatewayError::Unauthorized);
        },
    };
    let rest = token.substring_char(d1 + 1, n);
    proof {
        assert(rest@ =~= token@.skip(d1 + 1));
    }
    let m = rest.unicode_len();
    let d2 = match find_dot(rest) {
        Some(k) => k,
        None => {
            return Err(GatewayError::Unauthorized);
        },
    };
    let payload = rest.substring_char(0, d2);
    let sig = rest.substring_char(d2 + 1, m);
    proof {
        assert(sig@ =~= rest@.skip(d2 + 1));
    }
    if !(d1 > 0 && d2 > 0 && sig.unicode_len() > 0 && !str_has_char(sig, '.')) {
        return Err(GatewayError::Unauthorized);
    }
    let js = match b64url_nopad_decode(payload) {
        Some(t) => t,
        None => {
            return Err(GatewayError::Unauthorized);
        },
    };
    let v = str_chars(js.as_str());
    match parse_profile_chars(&v) {
        Some(p) => Ok(p),
        None => Err(GatewayError::Unauthorized),
    }
}

} // verus!
