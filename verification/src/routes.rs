//! The route dispatcher: a fixed, priority-ordered table from request
//! method and path to a route category, with one dynamic segment capture
//! and wildcard tails, exactly as the served bundle expects.

use vstd::prelude::*;
use crate::text::{
    has_char, spec_ends_with, spec_starts_with, str_ends_with, str_eq, str_has_char,
    str_starts_with,
};
use vstd::string::StrSliceExecFns;

verus! {

#[derive(PartialEq, Eq, Structural, Clone, Copy, Debug)]
pub enum Method {
    Get,
    Post,
    Other,
}

/// A route category; `S` is `String` in executable code and `Seq<char>` in
/// specifications.
#[derive(PartialEq, Eq, Clone, Debug)]
pub enum Route<S> {
    PublicPage,
    LoginPage,
    LoginSubmit,
    TokenLogin,
    Logout,
    SessionInfo,
    ChatPage(Option<S>),
    ChatRedirect(Option<S>),
    SharePage(S),
    ShareRedirect(S),
    ChatData(Option<S>),
    ShareData(S),
    ShareContinueData(S),
    ImageProxy,
    StaticAsset(S),
    NotFound,
}

impl View for Route<String> {
    type V = Route<Seq<char>>;

    open spec fn view(&self) -> Route<Seq<char>> {
        match self {
            Route::PublicPage => Route::PublicPage,
            Route::LoginPage => Route::LoginPage,
            Route::LoginSubmit => Route::LoginSubmit,
            Route::TokenLogin => Route::TokenLogin,
            Route::Logout => Route::Logout,
            Route::SessionInfo => Route::SessionInfo,
            Route::ChatPage(o) => Route::ChatPage(
                match o {
                    Some(s) => Some(s@),
                    None => None,
                },
            ),
            Route::ChatRedirect(o) => Route::ChatRedirect(
                match o {
                    Some(s) => Some(s@),
                    None => None,
                },
            ),
            Route::SharePage(s) => Route::SharePage(s@),
            Route::ShareRedirect(s) => Route::ShareRedirect(s@),
            Route::ChatData(o) => Route::ChatData(
                match o {
                    Some(s) => Some(s@),
                    None => None,
                },
            ),
            Route::ShareData(s) => Route::ShareData(s@),
            Route::ShareContinueData(s) => Route::ShareContinueData(s@),
            Route::ImageProxy => Route::ImageProxy,
            Route::StaticAsset(s) => Route::StaticAsset(s@),
            Route::NotFound => Route::NotFound,
        }
    }
}

/// The build identifier baked into the served bundle; the data-endpoint
/// paths embed it.
pub open spec fn spec_build_id() -> Seq<char> {
    "XmKrBoPpskgF_4RiIX1jm"@
}

pub fn build_id() -> (r: &'static str)
    ensures
        r@ == spec_build_id(),
{
    "XmKrBoPpskgF_4RiIX1jm"
}

/// A single non-empty path segment: no separator inside.
pub open spec fn is_one_seg(s: Seq<char>) -> bool {
    s.len() > 0 && !has_char(s, '/')
}

/// The text after a prefix.
pub open spec fn seg_after(p: Seq<char>, pre: Seq<char>) -> Seq<char> {
    p.skip(pre.len() as int)
}

/// Whether the path names a bundled static file by extension.
pub open spec fn has_static_ext(p: Seq<char>) -> bool {
    ||| (spec_ends_with(p, ".png"@) && p.len() > 5)
    ||| (spec_ends_with(p, ".js"@) && p.len() > 4)
    ||| (spec_ends_with(p, ".css"@) && p.len() > 5)
    ||| (spec_ends_with(p, ".webp"@) && p.len() > 6)
    ||| (spec_ends_with(p, ".json"@) && p.len() > 6)
}

/// Whether the path lies under one of the wildcard static prefixes.
pub open spec fn has_static_prefix(p: Seq<char>) -> bool {
    ||| spec_starts_with(p, "/_next/static/"@)
    ||| spec_starts_with(p, "/fonts/"@)
    ||| spec_starts_with(p, "/ulp/"@)
    ||| spec_starts_with(p, "/sweetalert2/"@)
}

/// The route table: first match wins, in the order the routes are
/// registered; anything unmatched is `NotFound`.
pub open spec fn spec_classify(m: Method, p: Seq<char>) -> Route<Seq<char>> {
    if m == Method::Get && p == "/auth"@ {
        Route::PublicPage
    } else if m == Method::Get && p == "/auth/login"@ {
        Route::LoginPage
    } else if m == Method::Post && p == "/auth/login"@ {
        Route::LoginSubmit
    } else if m == Method::Post && p == "/auth/login/token"@ {
        Route::TokenLogin
    } else if m == Method::Get && p == "/auth/logout"@ {
        Route::Logout
    } else if m == Method::Get && p == "/auth/session"@ {
        Route::SessionInfo
    } else if m == Method::Get && (p == "/"@ || p == "/c"@) {
        Route::ChatPage(None)
    } else if m == Method::Get && spec_starts_with(p, "/c/"@) && is_one_seg(seg_after(p, "/c/"@)) {
        Route::ChatPage(Some(seg_after(p, "/c/"@)))
    } else if p == "/chat"@ {
        Route::ChatRedirect(None)
    } else if spec_starts_with(p, "/chat/"@) && is_one_seg(seg_after(p, "/chat/"@)) {
        Route::ChatRedirect(Some(seg_after(p, "/chat/"@)))
    } else if m == Method::Get && spec_starts_with(p, "/share/"@) && is_one_seg(
        seg_after(p, "/share/"@),
    ) {
        Route::SharePage(seg_after(p, "/share/"@))
    } else if m == Method::Get && spec_starts_with(p, "/share/"@) && spec_ends_with(
        p,
        "/continue"@,
    ) && p.len() > 16 && is_one_seg(p.subrange(7, p.len() - 9)) {
        Route::ShareRedirect(p.subrange(7, p.len() - 9))
    } else if m == Method::Get && p == "/_next/data/"@ + spec_build_id() + "/index.json"@ {
        Route::ChatData(None)
    } else if m == Method::Get && spec_starts_with(p, "/_next/data/"@ + spec_build_id() + "/c/"@)
        && spec_ends_with(p, ".json"@) && p.len() > 15 + spec_build_id().len() + 5 && is_one_seg(
        p.subrange(15 + spec_build_id().len() as int, p.len() - 5),
    ) {
        Route::ChatData(Some(p.subrange(15 + spec_build_id().len() as int, p.len() - 5)))
    } else if m == Method::Get && spec_starts_with(
        p,
        "/_next/data/"@ + spec_build_id() + "/share/"@,
    ) && spec_ends_with(p, ".json"@) && p.len() > 19 + spec_build_id().len() + 5 && is_one_seg(
        p.subrange(19 + spec_build_id().len() as int, p.len() - 5),
    ) {
        Route::ShareData(p.subrange(19 + spec_build_id().len() as int, p.len() - 5))
    } else if m == Method::Get && spec_starts_with(
        p,
        "/_next/data/"@ + spec_build_id() + "/share/"@,
    ) && spec_ends_with(p, "/continue.json"@) && p.len() > 19 + spec_build_id().len() + 14
        && is_one_seg(p.subrange(19 + spec_build_id().len() as int, p.len() - 14)) {
        Route::ShareContinueData(p.subrange(19 + spec_build_id().len() as int, p.len() - 14))
    } else if m == Method::Get && p == "/_next/image"@ {
        Route::ImageProxy
    } else if m == Method::Get && has_static_ext(p) {
        Route::StaticAsset(p)
    } else if has_static_prefix(p) {
        Route::StaticAsset(p)
    } else {
        Route::NotFound
    }
}

/// Classifies a request against the route table.
pub fn classify(m: Method, path: &str) -> (r: Route<String>)
    ensures
        r@ == spec_classify(m, path@),
{
    let n = path.unicode_len();
    proof {
        reveal_strlit("/_next/data/XmKrBoPpskgF_4RiIX1jm/index.json");
        reveal_strlit("/_next/data/XmKrBoPpskgF_4RiIX1jm/c/");
        reveal_strlit("/_next/data/XmKrBoPpskgF_4RiIX1jm/share/");
        reveal_strlit("/_next/data/");
        reveal_strlit("XmKrBoPpskgF_4RiIX1jm");
        reveal_strlit("/index.json");
        reveal_strlit("/c/");
        reveal_strlit("/chat/");
        reveal_strlit("/chat");
        reveal_strlit("/share/");
        reveal_strlit("/continue");
        reveal_strlit(".json");
        reveal_strlit("/continue.json");
        reveal_strlit("/");
        reveal_strlit("/c");
        assert("/_next/data/XmKrBoPpskgF_4RiIX1jm/index.json"@ =~= "/_next/data/"@
            + spec_build_id() + "/index.json"@);
        assert("/_next/data/XmKrBoPpskgF_4RiIX1jm/c/"@ =~= "/_next/data/"@ + spec_build_id()
            + "/c/"@);
        assert("/_next/data/XmKrBoPpskgF_4RiIX1jm/share/"@ =~= "/_next/data/"@ + spec_build_id()
            + "/share/"@);
        assert(spec_build_id().len() == 21);
        assert("/_next/data/XmKrBoPpskgF_4RiIX1jm/c/"@.len() == 36);
        assert("/_next/data/XmKrBoPpskgF_4RiIX1jm/share/"@.len() == 40);
    }
    if m == Method::Get && str_eq(path, "/auth") {
        Route::PublicPage
    } else if m == Method::Get && str_eq(path, "/auth/login") {
        Route::LoginPage
    } else if m == Method::Post && str_eq(path, "/auth/login") {
        Route::LoginSubmit
    } else if m == Method::Post && str_eq(path, "/auth/login/token") {
        Route::TokenLogin
    } else if m == Method::Get && str_eq(path, "/auth/logout") {
        Route::Logout
    } else if m == Method::Get && str_eq(path, "/auth/session") {
        Route::SessionInfo
    } else if m == Method::Get && (str_eq(path, "/") || str_eq(path, "/c")) {
        Route::ChatPage(None)
    } else if m == Method::Get && str_starts_with(path, "/c/") && n > 3 && !str_has_char(
        path.substring_char(3, n),
        '/',
    ) {
        proof {
            assert(path@.skip(3) =~= path@.subrange(3, n as int));
        }
        Route::ChatPage(Some(path.substring_char(3, n).to_owned()))
    } else if str_eq(path, "/chat") {
        Route::ChatRedirect(None)
    } else if str_starts_with(path, "/chat/") && n > 6 && !str_has_char(
        path.substring_char(6, n),
        '/',
    ) {
        proof {
            assert(path@.skip(6) =~= path@.subrange(6, n as int));
        }
        Route::ChatRedirect(Some(path.substring_char(6, n).to_owned()))
    } else if m == Method::Get && str_starts_with(path, "/share/") && n > 7 && !str_has_char(
        path.substring_char(7, n),
        '/',
    ) {
        proof {
            assert(path@.skip(7) =~= path@.subrange(7, n as int));
        }
        Route::SharePage(path.substring_char(7, n).to_owned())
    } else if m == Method::Get && str_starts_with(path, "/share/") && str_ends_with(
        path,
        "/continue",
    ) && n > 16 && {
        let mid = path.substring_char(7, n - 9);
        mid.unicode_len() > 0 && !str_has_char(mid, '/')
    } {
        Route::ShareRedirect(path.substring_char(7, n - 9).to_owned())
    } else if m == Method::Get && str_eq(path, "/_next/data/XmKrBoPpskgF_4RiIX1jm/index.json") {
        proof {
            assert("/_next/data/XmKrBoPpskgF_4RiIX1jm/index.json"@ =~= "/_next/data/"@
                + spec_build_id() + "/index.json"@) by {
                reveal_strlit("/_next/data/XmKrBoPpskgF_4RiIX1jm/index.json");
                reveal_strlit("/_next/data/");
                reveal_strlit("XmKrBoPpskgF_4RiIX1jm");
                reveal_strlit("/index.json");
            }
        }
        Route::ChatData(None)
    } else if m == Method::Get && str_starts_with(path, "/_next/data/XmKrBoPpskgF_4RiIX1jm/c/")
        && str_ends_with(path, ".json") && n > 41 && {
        let mid = path.substring_char(36, n - 5);
        mid.unicode_len() > 0 && !str_has_char(mid, '/')
    } {
        proof {
            assert("/_next/data/XmKrBoPpskgF_4RiIX1jm/c/"@ =~= "/_next/data/"@ + spec_build_id()
                + "/c/"@) by {
                reveal_strlit("/_next/data/XmKrBoPpskgF_4RiIX1jm/c/");
                reveal_strlit("/_next/data/");
                reveal_strlit("XmKrBoPpskgF_4RiIX1jm");
                reveal_strlit("/c/");
            }
        }
        Route::ChatData(Some(path.substring_char(36, n - 5).to_owned()))
    } else if m == Method::Get && str_starts_with(path, "/_next/data/XmKrBoPpskgF_4RiIX1jm/share/")
        && str_ends_with(path, ".json") && n > 45 && {
        let mid = path.substring_char(40, n - 5);
        mid.unicode_len() > 0 && !str_has_char(mid, '/')
    } {
        proof {
            assert("/_next/data/XmKrBoPpskgF_4RiIX1jm/share/"@ =~= "/_next/data/"@
                + spec_build_id() + "/share/"@) by {
                reveal_strlit("/_next/data/XmKrBoPpskgF_4RiIX1jm/share/");
                reveal_strlit("/_next/data/");
                reveal_strlit("XmKrBoPpskgF_4RiIX1jm");
                reveal_strlit("/share/");
            }
        }
        Route::ShareData(path.substring_char(40, n - 5).to_owned())
    } else if m == Method::Get && str_starts_with(path, "/_next/data/XmKrBoPpskgF_4RiIX1jm/share/")
        && str_ends_with(path, "/continue.json") && n > 54 && {
        let mid = path.substring_char(40, n - 14);
        mid.unicode_len() > 0 && !str_has_char(mid, '/')
    } {
        proof {
            assert("/_next/data/XmKrBoPpskgF_4RiIX1jm/share/"@ =~= "/_next/data/"@
                + spec_build_id() + "/share/"@) by {
                reveal_strlit("/_next/data/XmKrBoPpskgF_4RiIX1jm/share/");
                reveal_strlit("/_next/data/");
                reveal_strlit("XmKrBoPpskgF_4RiIX1jm");
                reveal_strlit("/share/");
            }
        }
        Route::ShareContinueData(path.substring_char(40, n - 14).to_owned())
    } else if m == Method::Get && str_eq(path, "/_next/image") {
        Route::ImageProxy
    } else if m == Method::Get && ((str_ends_with(path, ".png") && n > 5) || (str_ends_with(
        path,
        ".js",
    ) && n > 4) || (str_ends_with(path, ".css") && n > 5) || (str_ends_with(path, ".webp") && n
        > 6) || (str_ends_with(path, ".json") && n > 6)) {
        Route::StaticAsset(path.to_owned())
    } else if str_starts_with(path, "/_next/static/") || str_starts_with(path, "/fonts/")
        || str_starts_with(path, "/ulp/") || str_starts_with(path, "/sweetalert2/") {
        Route::StaticAsset(path.to_owned())
    } else {
        Route::NotFound
    }
}

} // verus!
