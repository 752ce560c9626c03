use axum::http::{HeaderMap, HeaderValue};
use musicboxd::session::{
    extract_session_id, get_current_user, get_session_user, logout, secure_flag, session_auth,
    session_cookie_text, session_in_cookie, signed_in, CurrentUser, HttpReply, OAuthConfig,
};
use musicboxd::store::{DbError, SqlValue, DELETE_SESSION, FIND_SESSION_USER};

fn with_cookie(value: &str) -> HeaderMap {
    let mut headers = HeaderMap::new();
    headers.insert("cookie", HeaderValue::from_str(value).unwrap());
    headers
}

fn config(base_url: &str) -> OAuthConfig {
    OAuthConfig::unconfigured(base_url)
}

#[test]
fn session_cookie_includes_secure_flag_for_https() {
    let base_url = "https://example.com";
    let secure = secure_flag(base_url);
    let cookie = format!("session=abc; HttpOnly; SameSite=Lax; Path=/{secure}");
    assert!(
        cookie.contains("; Secure"),
        "cookie must include Secure flag for HTTPS"
    );
    assert_eq!(secure, if base_url.starts_with("https") { "; Secure" } else { "" });
}

#[test]
fn session_cookie_omits_secure_flag_for_http() {
    let base_url = "http://localhost:9090";
    let secure = secure_flag(base_url);
    let cookie = format!("session=abc; HttpOnly; SameSite=Lax; Path=/{secure}");
    assert!(
        !cookie.contains("; Secure"),
        "cookie must not include Secure flag for plain HTTP"
    );
    assert_eq!(secure, if base_url.starts_with("https") { "; Secure" } else { "" });
}

#[test]
fn signing_in_sets_the_cookie_for_thirty_days() {
    match signed_in("https://example.com", "abc", 0) {
        HttpReply::Found { location, set_cookie } => {
            assert_eq!(location, "/");
            assert_eq!(
                set_cookie,
                "session=abc; HttpOnly; SameSite=Lax; Path=/; Max-Age=2592000; \
                 Expires=Sat, 31 Jan 1970 00:00:00 GMT; Secure"
            );
        }
        _ => panic!("a redirect was expected"),
    }
    match signed_in("http://localhost:9090", "abc", 1_700_000_000) {
        HttpReply::Found { set_cookie, .. } => assert_eq!(
            set_cookie,
            "session=abc; HttpOnly; SameSite=Lax; Path=/; Max-Age=2592000; \
             Expires=Thu, 14 Dec 2023 22:13:20 GMT"
        ),
        _ => panic!("a redirect was expected"),
    }
}

#[test]
fn the_secure_attribute_is_there_exactly_on_https() {
    for (base_url, secure) in [
        ("https://example.com", true),
        ("http://localhost:9090", false),
        ("", false),
        ("HTTPS://example.com", false),
    ] {
        for now in [0, 1_700_000_000, 253_399_708_799] {
            let HttpReply::Found { set_cookie, .. } = signed_in(base_url, "abc", now)
                else { panic!() };
            assert_eq!(set_cookie.contains("; Secure"), secure);
            assert_eq!(set_cookie.matches(';').count(), if secure { 6 } else { 5 });
        }
        let (_, reply) = logout(&HeaderMap::new(), &config(base_url));
        let HttpReply::Found { set_cookie, .. } = reply else { panic!() };
        assert_eq!(set_cookie.contains("; Secure"), secure);
    }
}

#[test]
fn the_cookie_holds_the_given_date() {
    assert_eq!(
        session_cookie_text("s1", "soon", "https"),
        "session=s1; HttpOnly; SameSite=Lax; Path=/; Max-Age=2592000; Expires=soon; Secure"
    );
}

#[test]
fn a_session_is_found_among_cookies() {
    assert_eq!(session_in_cookie("session=abc").as_deref(), Some("abc"));
    assert_eq!(session_in_cookie("a=b; session=abc; c=d").as_deref(), Some("abc"));
    assert_eq!(session_in_cookie("  session=  abc  ;x=y").as_deref(), Some("abc"));
    assert_eq!(session_in_cookie("a=b; session=abc; session=def").as_deref(), Some("abc"));
    assert_eq!(session_in_cookie("session=; session=def").as_deref(), Some("def"));
    assert_eq!(session_in_cookie("session=;").as_deref(), None);
    assert_eq!(session_in_cookie("session=").as_deref(), None);
    assert_eq!(session_in_cookie("mysession=abc").as_deref(), None);
    assert_eq!(session_in_cookie("Session=abc").as_deref(), None);
    assert_eq!(session_in_cookie("").as_deref(), None);
    assert_eq!(session_in_cookie("session=a=b").as_deref(), Some("a=b"));
}

#[test]
fn the_cookie_that_is_set_names_its_session() {
    match signed_in("http://x", "0b5a-1", 5) {
        HttpReply::Found { set_cookie, .. } => {
            assert_eq!(session_in_cookie(&set_cookie).as_deref(), Some("0b5a-1"));
            assert_eq!(
                session_in_cookie(&format!("theme=dark; {set_cookie}")).as_deref(),
                Some("0b5a-1")
            );
        }
        _ => panic!("a redirect was expected"),
    }
}

#[test]
fn the_session_comes_from_the_cookie_header() {
    assert_eq!(extract_session_id(&with_cookie("session=abc")).as_deref(), Some("abc"));
    assert_eq!(extract_session_id(&HeaderMap::new()), None);
    let mut opaque = HeaderMap::new();
    opaque.insert("cookie", HeaderValue::from_bytes(b"session=ab\xffc").unwrap());
    assert_eq!(extract_session_id(&opaque), None);
    let mut twice = with_cookie("session=first");
    twice.append("cookie", HeaderValue::from_static("session=second"));
    assert_eq!(extract_session_id(&twice).as_deref(), Some("first"));
    let mut tab = HeaderMap::new();
    tab.insert("cookie", HeaderValue::from_bytes(b"a=b;\tsession=abc").unwrap());
    assert_eq!(extract_session_id(&tab).as_deref(), Some("abc"));
}

#[test]
fn the_user_of_a_session_is_looked_up() {
    let lookup = get_session_user(&with_cookie("session=abc")).unwrap();
    assert_eq!(lookup.sql, FIND_SESSION_USER);
    assert!(matches!(&lookup.params[..], [SqlValue::Text(id)] if id == "abc"));
    assert!(get_session_user(&with_cookie("other=abc")).is_none());
}

#[test]
fn the_current_user_is_the_one_that_was_found() {
    let user = session_auth(Ok(Some(("u1".to_string(), "alice".to_string()))));
    assert_eq!(user.as_ref().map(|u| u.user_id.as_str()), Some("u1"));
    assert_eq!(get_current_user(&user).as_deref(), Some("alice"));
    assert!(session_auth(Ok(None)).is_none());
    let failed = DbError { message: "locked".to_string() };
    assert!(session_auth(Err(failed)).is_none());
    let nobody: Option<CurrentUser> = None;
    assert_eq!(get_current_user(&nobody), None);
}

#[test]
fn signing_out_ends_the_session() {
    let (statement, reply) = logout(&with_cookie("session=abc"), &config("https://example.com"));
    let statement = statement.unwrap();
    assert_eq!(statement.sql, DELETE_SESSION);
    assert!(matches!(&statement.params[..], [SqlValue::Text(id)] if id == "abc"));
    match reply {
        HttpReply::Found { location, set_cookie } => {
            assert_eq!(location, "/");
            assert_eq!(set_cookie, "session=; HttpOnly; SameSite=Lax; Path=/; Max-Age=0; Secure");
            assert_eq!(session_in_cookie(&set_cookie), None);
        }
        _ => panic!("a redirect was expected"),
    }
    let (none, reply) = logout(&HeaderMap::new(), &config("http://localhost"));
    assert!(none.is_none());
    match reply {
        HttpReply::Found { set_cookie, .. } => {
            assert_eq!(set_cookie, "session=; HttpOnly; SameSite=Lax; Path=/; Max-Age=0")
        }
        _ => panic!("a redirect was expected"),
    }
}

#[test]
fn the_configuration_names_the_first_missing_variable() {
    let some = |s: &str| Some(s.to_string());
    let full = OAuthConfig::from_env("http://x", some("a"), some("b"), some("c"), some("d"));
    let full = full.ok().unwrap();
    assert_eq!(full.google_client_id, "a");
    assert_eq!(full.google_client_secret, "b");
    assert_eq!(full.github_client_id, "c");
    assert_eq!(full.github_client_secret, "d");
    assert_eq!(full.base_url, "http://x");
    let error = |a, b, c, d| OAuthConfig::from_env("http://x", a, b, c, d).err().unwrap();
    assert_eq!(error(None, None, None, None), "GOOGLE_CLIENT_ID not set");
    assert_eq!(error(some("a"), None, None, None), "GOOGLE_CLIENT_SECRET not set");
    assert_eq!(error(some("a"), some("b"), None, some("d")), "GITHUB_CLIENT_ID not set");
    assert_eq!(error(some("a"), some("b"), some("c"), None), "GITHUB_CLIENT_SECRET not set");
}
