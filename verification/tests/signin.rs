use musicboxd::oauth::{
    begin_login, build_github_client, build_google_client, client_without_faults, github_login,
    github_login_with, google_login, google_login_with, ConfiguredClient, LoginStart,
};
use musicboxd::session::{session_in_cookie, HttpReply, OAuthConfig};
use musicboxd::signin::{
    complete_login, github_callback, google_callback, upsert_user, CallbackParams, CallbackStep,
    Fetched, GitHubEmail, GitHubUser, GoogleUserInfo, Login, LoginStep,
};
use musicboxd::store::{
    DbError, SqlValue, Statement, COUNT_OAUTH_STATES, COUNT_USERNAME, DELETE_OAUTH_STATE,
    FIND_ACCOUNT, FIND_PKCE_VERIFIER, FIND_USER_BY_EMAIL, INSERT_SESSION, INSERT_USER,
    LINK_ACCOUNT, SAVE_OAUTH_STATE,
};

fn config(base_url: &str) -> OAuthConfig {
    let some = |s: &str| Some(s.to_string());
    OAuthConfig::from_env(base_url, some("gid"), some("gsecret"), some("hid"), some("hsecret"))
        .ok()
        .unwrap()
}

fn params() -> CallbackParams {
    CallbackParams { code: "code".to_string(), state: "state".to_string() }
}

fn broken() -> DbError {
    DbError { message: "disk full".to_string() }
}

fn texts(s: &Statement) -> Vec<&str> {
    s.params
        .iter()
        .map(|p| match p {
            SqlValue::Text(t) => t.as_str(),
            _ => panic!("a text was expected"),
        })
        .collect()
}

fn is_text(reply: &HttpReply, code: u16, text: &str) -> bool {
    matches!(reply, HttpReply::Text { status, body } if *status == code && body == text)
}

fn answered(step: CallbackStep, code: u16, text: &str) -> bool {
    matches!(step, CallbackStep::Reply(reply) if is_text(&reply, code, text))
}

fn failed(step: LoginStep) -> bool {
    matches!(step, LoginStep::Reply(reply) if is_text(&reply, 500, "Database error"))
}

fn login() -> Login {
    Login {
        base_url: "http://localhost".to_string(),
        provider: "google".to_string(),
        provider_uid: "g-1".to_string(),
        email: "alice@example.com".to_string(),
        username_hint: "alice@example.com".to_string(),
    }
}

fn is_uuid(text: &str) -> bool {
    text.len() == 36 && uuid::Uuid::parse_str(text).map_or(false, |u| u.get_version_num() == 4)
}

#[test]
fn clients_hold_the_providers_endpoints() {
    let google = build_google_client(&config("https://example.com")).ok().unwrap();
    assert_eq!(google.client_id, "gid");
    assert_eq!(google.client_secret, "gsecret");
    assert_eq!(google.auth_url, "https://accounts.google.com/o/oauth2/v2/auth");
    assert_eq!(google.token_url, "https://oauth2.googleapis.com/token");
    assert_eq!(google.redirect_url, "https://example.com/auth/google/callback");
    let github = build_github_client(&config("https://example.com")).ok().unwrap();
    assert_eq!(github.client_id, "hid");
    assert_eq!(github.client_secret, "hsecret");
    assert_eq!(github.auth_url, "https://github.com/login/oauth/authorize");
    assert_eq!(github.token_url, "https://github.com/login/oauth/access_token");
    assert_eq!(github.redirect_url, "https://example.com/auth/github/callback");
}

#[test]
fn a_base_url_that_is_none_is_reported() {
    let error = build_google_client(&config("not a url")).err().unwrap();
    assert!(error.starts_with("invalid Google redirect URL: "), "{error}");
    assert!(error.len() > "invalid Google redirect URL: ".len());
    let error = build_github_client(&config("")).err().unwrap();
    assert!(error.starts_with("invalid GitHub redirect URL: "), "{error}");
}

#[test]
fn the_first_faulty_endpoint_is_reported() {
    let client = || ConfiguredClient {
        client_id: "i".to_string(),
        client_secret: "s".to_string(),
        auth_url: "a".to_string(),
        token_url: "t".to_string(),
        redirect_url: "r".to_string(),
    };
    let fault = |text: &str| Some(text.to_string());
    let error = |a, t, r| client_without_faults("X", client(), a, t, r).err().unwrap();
    assert_eq!(error(fault("1"), fault("2"), fault("3")), "invalid X auth URL: 1");
    assert_eq!(error(None, fault("2"), fault("3")), "invalid X token URL: 2");
    assert_eq!(error(None, None, fault("3")), "invalid X redirect URL: 3");
    assert!(client_without_faults("X", client(), None, None, None).is_ok());
}

#[test]
fn a_google_login_remembers_its_secrets() {
    let verifier = "v".repeat(43);
    let start = google_login_with(&config("https://example.com"), "token", &verifier);
    let LoginStart::Save { statement, then } = start else { panic!() };
    assert_eq!(statement.sql, SAVE_OAUTH_STATE);
    assert_eq!(texts(&statement), vec!["token", verifier.as_str()]);
    let url = then.url.clone();
    assert!(url.starts_with("https://accounts.google.com/o/oauth2/v2/auth?"), "{url}");
    for part in [
        "response_type=code",
        "client_id=gid",
        "state=token",
        "redirect_uri=https%3A%2F%2Fexample.com%2Fauth%2Fgoogle%2Fcallback",
        "scope=email+profile",
        "code_challenge_method=S256",
        "code_challenge=",
    ] {
        assert!(url.contains(part), "{part} in {url}");
    }
    assert!(!url.contains(&verifier));
    assert!(matches!(
        then.resume(Ok(())),
        HttpReply::SeeOther { location } if location == url
    ));
}

#[test]
fn a_github_login_has_no_challenge() {
    let LoginStart::Save { statement, then } =
        github_login_with(&config("https://example.com"), "token") else { panic!() };
    assert_eq!(texts(&statement), vec!["token", ""]);
    assert!(then.url.starts_with("https://github.com/login/oauth/authorize?"), "{}", then.url);
    assert!(then.url.contains("scope=user%3Aemail"), "{}", then.url);
    assert!(then.url.contains("state=token"));
    assert!(!then.url.contains("code_challenge"));
    assert!(is_text(&then.resume(Err(broken())), 500, "Failed to initiate login"));
}

#[test]
fn fresh_secrets_differ() {
    let secrets = |start: LoginStart| match start {
        LoginStart::Save { statement, then } => {
            let saved: Vec<String> = texts(&statement).iter().map(|s| s.to_string()).collect();
            assert!(then.url.contains(&format!("state={}", saved[0])));
            saved
        }
        _ => panic!("the sign-in has to be remembered"),
    };
    let first = secrets(google_login(&config("https://example.com")));
    let second = secrets(google_login(&config("https://example.com")));
    assert_eq!((first[0].len(), first[1].len()), (22, 43));
    assert_ne!(first[0], second[0]);
    assert_ne!(first[1], second[1]);
    let github = secrets(github_login(&config("https://example.com")));
    assert_eq!((github[0].len(), github[1].as_str()), (22, ""));
}

#[test]
fn a_misconfigured_server_refuses_logins() {
    for start in [google_login(&config("nowhere")), github_login(&config("nowhere"))] {
        let LoginStart::Reply(reply) = start else { panic!() };
        assert!(is_text(&reply, 500, "OAuth misconfigured"));
    }
    let LoginStart::Save { then, .. } = begin_login("a", "b", "u".to_string()) else { panic!() };
    assert_eq!(then.url, "u");
}

#[test]
fn an_unknown_state_is_refused() {
    let CallbackStep::FindVerifier { statement, then } =
        google_callback(config("https://example.com"), params()) else { panic!() };
    assert_eq!(statement.sql, FIND_PKCE_VERIFIER);
    assert_eq!(texts(&statement), vec!["state"]);
    assert!(answered(then.resume(Ok(None)), 400, "Invalid or expired state"));
    let CallbackStep::FindVerifier { then, .. } =
        google_callback(config("https://example.com"), params()) else { panic!() };
    assert!(answered(then.resume(Err(broken())), 400, "Invalid or expired state"));
    let CallbackStep::CountStates { statement, then } =
        github_callback(config("https://example.com"), params()) else { panic!() };
    assert_eq!(statement.sql, COUNT_OAUTH_STATES);
    assert_eq!(texts(&statement), vec!["state"]);
    assert!(answered(then.resume(Ok(0)), 400, "Invalid or expired state"));
    let CallbackStep::CountStates { then, .. } =
        github_callback(config("https://example.com"), params()) else { panic!() };
    assert!(answered(then.resume(Err(broken())), 400, "Invalid or expired state"));
}

#[test]
fn a_google_callback_leads_to_a_login() {
    let CallbackStep::FindVerifier { then, .. } =
        google_callback(config("https://example.com"), params()) else { panic!() };
    let CallbackStep::ForgetState { statement, then } = then.resume(Ok(Some("ver".to_string())))
        else { panic!() };
    assert_eq!(statement.sql, DELETE_OAUTH_STATE);
    assert_eq!(texts(&statement), vec!["state"]);
    let CallbackStep::ExchangeCode { client, code, pkce_verifier, then } = then.resume(Ok(()))
        else { panic!() };
    assert_eq!(client.token_url, "https://oauth2.googleapis.com/token");
    assert_eq!(code, "code");
    assert_eq!(pkce_verifier.as_deref(), Some("ver"));
    let CallbackStep::FetchGoogleUser { request, then } = then.resume(Some("access".to_string()))
        else { panic!() };
    assert_eq!(request.url, "https://openidconnect.googleapis.com/v1/userinfo");
    assert_eq!(request.access_token, "access");
    assert_eq!(request.user_agent, None);
    let info = GoogleUserInfo { sub: "g-1".to_string(), email: "a@x.com".to_string() };
    let CallbackStep::Login(LoginStep::FindAccount { statement, then }) =
        then.resume(Fetched::Read(info)) else { panic!() };
    assert_eq!(statement.sql, FIND_ACCOUNT);
    assert_eq!(texts(&statement), vec!["google", "g-1"]);
    assert_eq!(then.login.email, "a@x.com");
    assert_eq!(then.login.username_hint, "a@x.com");
    assert_eq!(then.login.base_url, "https://example.com");
}

fn google_info(info: Fetched<GoogleUserInfo>) -> CallbackStep {
    let CallbackStep::FindVerifier { then, .. } =
        google_callback(config("https://example.com"), params()) else { panic!() };
    let CallbackStep::ForgetState { then, .. } = then.resume(Ok(Some("v".to_string())))
        else { panic!() };
    let CallbackStep::ExchangeCode { then, .. } = then.resume(Ok(())) else { panic!() };
    let CallbackStep::FetchGoogleUser { then, .. } = then.resume(Some("t".to_string()))
        else { panic!() };
    then.resume(info)
}

fn github_user(user: Fetched<GitHubUser>) -> CallbackStep {
    let CallbackStep::CountStates { then, .. } =
        github_callback(config("https://example.com"), params()) else { panic!() };
    let CallbackStep::ForgetState { then, .. } = then.resume(Ok(1)) else { panic!() };
    let CallbackStep::ExchangeCode { client, pkce_verifier, then, .. } = then.resume(Ok(()))
        else { panic!() };
    assert_eq!(client.token_url, "https://github.com/login/oauth/access_token");
    assert_eq!(pkce_verifier, None);
    let CallbackStep::FetchGitHubUser { request, then } = then.resume(Some("access".to_string()))
        else { panic!() };
    assert_eq!(request.url, "https://api.github.com/user");
    assert_eq!(request.access_token, "access");
    assert_eq!(request.user_agent, Some("musicboxd/0.1"));
    then.resume(user)
}

fn octocat(email: Option<&str>) -> Fetched<GitHubUser> {
    Fetched::Read(GitHubUser {
        id: 583231,
        login: "octocat".to_string(),
        email: email.map(|e| e.to_string()),
    })
}

#[test]
fn failures_of_the_providers_are_answered() {
    assert!(answered(google_info(Fetched::Failed), 500, "Failed to fetch user info"));
    assert!(answered(google_info(Fetched::Unreadable), 500, "Failed to parse user info"));
    assert!(answered(github_user(Fetched::Failed), 500, "Failed to fetch GitHub user"));
    assert!(answered(github_user(Fetched::Unreadable), 500, "Failed to parse GitHub user"));
    let CallbackStep::FindVerifier { then, .. } =
        google_callback(config("nowhere"), params()) else { panic!() };
    let CallbackStep::ForgetState { then, .. } = then.resume(Ok(Some("v".to_string())))
        else { panic!() };
    assert!(answered(then.resume(Err(broken())), 500, "OAuth misconfigured"));
    let CallbackStep::CountStates { then, .. } =
        github_callback(config("https://example.com"), params()) else { panic!() };
    let CallbackStep::ForgetState { then, .. } = then.resume(Ok(2)) else { panic!() };
    let CallbackStep::ExchangeCode { then, .. } = then.resume(Ok(())) else { panic!() };
    assert!(answered(then.resume(None), 400, "Token exchange failed"));
}

#[test]
fn a_github_profile_with_an_email_logs_in() {
    let CallbackStep::Login(LoginStep::FindAccount { statement, then }) =
        github_user(octocat(Some("o@x.com"))) else { panic!() };
    assert_eq!(texts(&statement), vec!["github", "583231"]);
    assert_eq!(then.login.email, "o@x.com");
    assert_eq!(then.login.username_hint, "octocat");
}

#[test]
fn without_one_the_primary_email_is_asked_for() {
    for hidden in [None, Some("")] {
        let CallbackStep::FetchGitHubEmails { request, then } = github_user(octocat(hidden))
            else { panic!() };
        assert_eq!(request.url, "https://api.github.com/user/emails");
        assert_eq!(request.access_token, "access");
        assert_eq!(request.user_agent, Some("musicboxd/0.1"));
        let email = |text: &str, primary| GitHubEmail { email: text.to_string(), primary };
        let emails = vec![email("a@x.com", false), email("b@x.com", true), email("c@x.com", true)];
        let CallbackStep::Login(LoginStep::FindAccount { then, .. }) = then.resume(Fetched::Read(emails))
            else { panic!() };
        assert_eq!(then.login.email, "b@x.com");
    }
    for none in [Fetched::Read(vec![]), Fetched::Failed, Fetched::Unreadable] {
        let CallbackStep::FetchGitHubEmails { then, .. } = github_user(octocat(None))
            else { panic!() };
        assert!(answered(then.resume(none), 400, "No public email on GitHub account"));
    }
}

#[test]
fn a_linked_account_opens_a_session_for_its_user() {
    let LoginStep::FindAccount { statement, then } = upsert_user(login()) else { panic!() };
    assert_eq!(texts(&statement), vec!["google", "g-1"]);
    let LoginStep::CreateSession { statement, then } =
        then.resume_with(Ok(Some("u1".to_string())), "sess".to_string()) else { panic!() };
    assert_eq!(statement.sql, INSERT_SESSION);
    assert_eq!(texts(&statement), vec!["sess", "u1"]);
    match then.resume(Ok(()), 0) {
        LoginStep::Reply(HttpReply::Found { location, set_cookie }) => {
            assert_eq!(location, "/");
            assert_eq!(session_in_cookie(&set_cookie).as_deref(), Some("sess"));
        }
        _ => panic!("a redirect was expected"),
    }
}

#[test]
fn a_new_account_gets_a_user() {
    let LoginStep::FindAccount { then, .. } = upsert_user(login()) else { panic!() };
    let LoginStep::CountUsername { statement, then } =
        then.resume_with(Ok(None), "u9".to_string()) else { panic!() };
    assert_eq!(statement.sql, COUNT_USERNAME);
    assert_eq!(texts(&statement), vec!["aliceexamplecom"]);
    let LoginStep::CountUsername { statement, then } = then.resume(Ok(1)) else { panic!() };
    assert_eq!(texts(&statement), vec!["aliceexamplecom_1"]);
    let LoginStep::InsertUser { statement, then } = then.resume(Ok(0)) else { panic!() };
    assert_eq!(statement.sql, INSERT_USER);
    assert_eq!(texts(&statement), vec!["u9", "aliceexamplecom_1", "alice@example.com"]);
    let LoginStep::FindByEmail { statement, then } = then.resume(Ok(())) else { panic!() };
    assert_eq!(statement.sql, FIND_USER_BY_EMAIL);
    assert_eq!(texts(&statement), vec!["alice@example.com"]);
    let LoginStep::LinkAccount { statement, then } = then.resume(Ok("u3".to_string()))
        else { panic!() };
    assert_eq!(statement.sql, LINK_ACCOUNT);
    assert_eq!(texts(&statement), vec!["u3", "google", "g-1"]);
    let LoginStep::CreateSession { statement, .. } =
        then.resume_with(Ok(()), "s".to_string()) else { panic!() };
    assert_eq!(texts(&statement), vec!["s", "u3"]);
}

#[test]
fn identifiers_are_fresh() {
    let lookup = || match complete_login(login()) {
        LoginStep::FindAccount { then, .. } => then,
        _ => panic!(),
    };
    let session = || match lookup().resume(Ok(Some("u1".to_string()))) {
        LoginStep::CreateSession { statement, then } => {
            assert_eq!(texts(&statement)[0], then.session_id);
            then.session_id
        }
        _ => panic!("a session has to be opened"),
    };
    let (first, second) = (session(), session());
    assert!(is_uuid(&first) && is_uuid(&second));
    assert_ne!(first, second);
    let LoginStep::FindAccount { then, .. } = upsert_user(login()) else { panic!() };
    let LoginStep::CountUsername { then, .. } = then.resume(Ok(None)) else { panic!() };
    assert!(is_uuid(&then.user_id));
    let LoginStep::InsertUser { statement, .. } = then.resume_with(Ok(0), "spare")
        else { panic!() };
    assert!(is_uuid(texts(&statement)[0]));
}

#[test]
fn database_failures_end_a_login() {
    let lookup = || match upsert_user(login()) {
        LoginStep::FindAccount { then, .. } => then,
        _ => panic!(),
    };
    assert!(failed(lookup().resume(Err(broken()))));
    let LoginStep::CountUsername { then, .. } = lookup().resume(Ok(None)) else { panic!() };
    assert!(failed(then.resume(Err(broken()))));
    let insert = || match lookup().resume(Ok(None)) {
        LoginStep::CountUsername { then, .. } => match then.resume(Ok(0)) {
            LoginStep::InsertUser { then, .. } => then,
            _ => panic!(),
        },
        _ => panic!(),
    };
    assert!(failed(insert().resume(Err(broken()))));
    let LoginStep::FindByEmail { then, .. } = insert().resume(Ok(())) else { panic!() };
    assert!(failed(then.resume(Err(broken()))));
    let LoginStep::FindByEmail { then, .. } = insert().resume(Ok(())) else { panic!() };
    let LoginStep::LinkAccount { then, .. } = then.resume(Ok("u".to_string())) else { panic!() };
    assert!(failed(then.resume(Err(broken()))));
    let LoginStep::CreateSession { then, .. } = lookup().resume(Ok(Some("u".to_string())))
        else { panic!() };
    assert!(failed(then.resume(Err(broken()), 0)));
}
