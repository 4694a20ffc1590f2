use chat_gateway::routes::{classify, Method, Route};

#[test]
fn fixed_routes() {
    assert_eq!(classify(Method::Get, "/auth"), Route::PublicPage);
    assert_eq!(classify(Method::Get, "/auth/login"), Route::LoginPage);
    assert_eq!(classify(Method::Post, "/auth/login"), Route::LoginSubmit);
    assert_eq!(classify(Method::Post, "/auth/login/token"), Route::TokenLogin);
    assert_eq!(classify(Method::Get, "/auth/logout"), Route::Logout);
    assert_eq!(classify(Method::Get, "/auth/session"), Route::SessionInfo);
    assert_eq!(classify(Method::Get, "/_next/image"), Route::ImageProxy);
}

#[test]
fn chat_routes() {
    assert_eq!(classify(Method::Get, "/"), Route::ChatPage(None));
    assert_eq!(classify(Method::Get, "/c"), Route::ChatPage(None));
    assert_eq!(
        classify(Method::Get, "/c/abc-123"),
        Route::ChatPage(Some("abc-123".to_string()))
    );
    assert_eq!(classify(Method::Get, "/chat"), Route::ChatRedirect(None));
    assert_eq!(
        classify(Method::Post, "/chat/xyz"),
        Route::ChatRedirect(Some("xyz".to_string()))
    );
    assert_eq!(classify(Method::Get, "/c/a/b"), Route::NotFound);
}

#[test]
fn share_routes() {
    assert_eq!(
        classify(Method::Get, "/share/abc"),
        Route::SharePage("abc".to_string())
    );
    assert_eq!(
        classify(Method::Get, "/share/abc/continue"),
        Route::ShareRedirect("abc".to_string())
    );
    assert_eq!(classify(Method::Post, "/share/abc"), Route::NotFound);
}

#[test]
fn data_routes_carry_the_build_id() {
    assert_eq!(
        classify(Method::Get, "/_next/data/XmKrBoPpskgF_4RiIX1jm/index.json"),
        Route::ChatData(None)
    );
    assert_eq!(
        classify(Method::Get, "/_next/data/XmKrBoPpskgF_4RiIX1jm/c/c1.json"),
        Route::ChatData(Some("c1".to_string()))
    );
    assert_eq!(
        classify(Method::Get, "/_next/data/XmKrBoPpskgF_4RiIX1jm/share/s1.json"),
        Route::ShareData("s1".to_string())
    );
    assert_eq!(
        classify(
            Method::Get,
            "/_next/data/XmKrBoPpskgF_4RiIX1jm/share/s1/continue.json"
        ),
        Route::ShareContinueData("s1".to_string())
    );
    assert_eq!(
        classify(Method::Get, "/_next/data/XmKrBoPpskgF_4RiIX1jm/share/continue.json"),
        Route::ShareData("continue".to_string())
    );
    // A wrong build identifier is not a data route; the .json extension
    // makes it a static lookup instead.
    assert_eq!(
        classify(Method::Get, "/_next/data/WRONG/index.json"),
        Route::StaticAsset("/_next/data/WRONG/index.json".to_string())
    );
}

#[test]
fn static_routes() {
    assert_eq!(
        classify(Method::Get, "/main.css"),
        Route::StaticAsset("/main.css".to_string())
    );
    assert_eq!(
        classify(Method::Get, "/sub/dir/app.js"),
        Route::StaticAsset("/sub/dir/app.js".to_string())
    );
    assert_eq!(
        classify(Method::Post, "/fonts/a.woff2"),
        Route::StaticAsset("/fonts/a.woff2".to_string())
    );
    assert_eq!(
        classify(Method::Other, "/_next/static/chunks/1.woff"),
        Route::StaticAsset("/_next/static/chunks/1.woff".to_string())
    );
    assert_eq!(
        classify(Method::Get, "/ulp/x"),
        Route::StaticAsset("/ulp/x".to_string())
    );
    assert_eq!(
        classify(Method::Get, "/sweetalert2/y"),
        Route::StaticAsset("/sweetalert2/y".to_string())
    );
}

#[test]
fn unmatched_routes_fall_through() {
    assert_eq!(classify(Method::Get, "/nope"), Route::NotFound);
    assert_eq!(classify(Method::Post, "/"), Route::NotFound);
    assert_eq!(classify(Method::Get, "/auth/other"), Route::NotFound);
    assert_eq!(classify(Method::Post, "/_next/image"), Route::NotFound);
    assert_eq!(classify(Method::Get, "/share/"), Route::NotFound);
}
