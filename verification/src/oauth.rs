//! Clients of the sign-in providers, and starting a sign-in.

use crate::session::{reply_text, text_reply, HttpReply, HttpReplyData, OAuthConfig};
use crate::store::{
    save_oauth_state, save_oauth_state_stmt, DbError, SqlData, Statement, StatementData,
    SAVE_OAUTH_STATE,
};
use crate::text::{byte_len, concat, opt_text, texts};
use vstd::prelude::*;
use vstd::utf8::is_ascii_chars_encode_utf8;

verus! {

// ---------------------------------------------------------------------------
// The parts of a client
// ---------------------------------------------------------------------------

/// Why `oauth2::AuthUrl::new` refuses a text, if it does.
pub uninterp spec fn auth_url_error(url: Seq<char>) -> Option<Seq<char>>;

/// Why `oauth2::TokenUrl::new` refuses a text, if it does.
pub uninterp spec fn token_url_error(url: Seq<char>) -> Option<Seq<char>>;

/// Why `oauth2::RedirectUrl::new` refuses a text, if it does.
pub uninterp spec fn redirect_url_error(url: Seq<char>) -> Option<Seq<char>>;

/// `oauth2::AuthUrl::new`: the text of the error with which it refuses an
/// authorization endpoint, or `None` where it accepts it. Which texts are URLs
/// is left to `oauth2`.
#[verifier::external_body]
fn check_auth_url(url: &str) -> (error: Option<String>)
    ensures
        match error {
            Some(e) => auth_url_error(url@) == Some(e@),
            None => auth_url_error(url@) is None,
        },
{
    oauth2::AuthUrl::new(url.to_string()).err().map(|e| e.to_string())
}

/// `oauth2::TokenUrl::new`: the text of the error with which it refuses a token
/// endpoint, or `None` where it accepts it. Which texts are URLs is left to
/// `oauth2`.
#[verifier::external_body]
fn check_token_url(url: &str) -> (error: Option<String>)
    ensures
        match error {
            Some(e) => token_url_error(url@) == Some(e@),
            None => token_url_error(url@) is None,
        },
{
    oauth2::TokenUrl::new(url.to_string()).err().map(|e| e.to_string())
}

/// `oauth2::RedirectUrl::new`: the text of the error with which it refuses a
/// redirection endpoint, or `None` where it accepts it. Which texts are URLs is
/// left to `oauth2`.
#[verifier::external_body]
fn check_redirect_url(url: &str) -> (error: Option<String>)
    ensures
        match error {
            Some(e) => redirect_url_error(url@) == Some(e@),
            None => redirect_url_error(url@) is None,
        },
{
    oauth2::RedirectUrl::new(url.to_string()).err().map(|e| e.to_string())
}

/// A client of a sign-in provider: the identity of this server there, the
/// provider's endpoints, and where the provider sends the user back to.
pub struct ConfiguredClient {
    pub client_id: String,
    pub client_secret: String,
    pub auth_url: String,
    pub token_url: String,
    pub redirect_url: String,
}

/// The contents of a client.
pub struct ClientData {
    pub client_id: Seq<char>,
    pub client_secret: Seq<char>,
    pub auth_url: Seq<char>,
    pub token_url: Seq<char>,
    pub redirect_url: Seq<char>,
}

impl View for ConfiguredClient {
    type V = ClientData;

    open spec fn view(&self) -> ClientData {
        ClientData {
            client_id: self.client_id@,
            client_secret: self.client_secret@,
            auth_url: self.auth_url@,
            token_url: self.token_url@,
            redirect_url: self.redirect_url@,
        }
    }
}

impl ClientData {
    /// Whether every endpoint is a URL.
    pub open spec fn wf(self) -> bool {
        &&& auth_url_error(self.auth_url) is None
        &&& token_url_error(self.token_url) is None
        &&& redirect_url_error(self.redirect_url) is None
    }
}

/// A client, given what is wrong with each of its endpoints: the first fault is
/// the error.
pub open spec fn faultless_client(
    provider: Seq<char>,
    client: ClientData,
    auth_error: Option<Seq<char>>,
    token_error: Option<Seq<char>>,
    redirect_error: Option<Seq<char>>,
) -> Result<ClientData, Seq<char>> {
    match auth_error {
        Some(e) => Err("invalid "@ + provider + " auth URL: "@ + e),
        None => match token_error {
            Some(e) => Err("invalid "@ + provider + " token URL: "@ + e),
            None => match redirect_error {
                Some(e) => Err("invalid "@ + provider + " redirect URL: "@ + e),
                None => Ok(client),
            },
        },
    }
}

/// A client whose endpoints are URLs, or what is wrong with the first endpoint
/// that is none.
pub open spec fn checked_client(provider: Seq<char>, client: ClientData) -> Result<
    ClientData,
    Seq<char>,
> {
    faultless_client(
        provider,
        client,
        auth_url_error(client.auth_url),
        token_url_error(client.token_url),
        redirect_url_error(client.redirect_url),
    )
}

/// The contents of the outcome of building a client.
pub open spec fn client_outcome(r: Result<ConfiguredClient, String>) -> Result<
    ClientData,
    Seq<char>,
> {
    match r {
        Ok(c) => Ok(c@),
        Err(e) => Err(e@),
    }
}

/// The message on an endpoint that is no URL.
fn endpoint_error(provider: &str, endpoint: &str, error: &str) -> (message: String)
    ensures
        message@ == "invalid "@ + provider@ + endpoint@ + error@,
{
    let mut message = "invalid ".to_string();
    message.append(provider);
    message.append(endpoint);
    message.append(error);
    message
}

/// Decides on a client, given what is wrong with each of its endpoints.
pub fn client_without_faults(
    provider: &str,
    client: ConfiguredClient,
    auth_error: Option<String>,
    token_error: Option<String>,
    redirect_error: Option<String>,
) -> (r: Result<ConfiguredClient, String>)
    ensures
        client_outcome(r) == faultless_client(
            provider@,
            client@,
            opt_text(auth_error),
            opt_text(token_error),
            opt_text(redirect_error),
        ),
{
    match auth_error {
        Some(e) => return Err(endpoint_error(provider, " auth URL: ", e.as_str())),
        None => {},
    }
    match token_error {
        Some(e) => return Err(endpoint_error(provider, " token URL: ", e.as_str())),
        None => {},
    }
    match redirect_error {
        Some(e) => return Err(endpoint_error(provider, " redirect URL: ", e.as_str())),
        None => {},
    }
    Ok(client)
}

/// Checks that every endpoint of a client is a URL.
fn check_client(provider: &str, client: ConfiguredClient) -> (r: Result<ConfiguredClient, String>)
    ensures
        client_outcome(r) == checked_client(provider@, client@),
{
    let auth_error = check_auth_url(client.auth_url.as_str());
    let token_error = check_token_url(client.token_url.as_str());
    let redirect_error = check_redirect_url(client.redirect_url.as_str());
    client_without_faults(provider, client, auth_error, token_error, redirect_error)
}

/// The client for Google.
pub open spec fn google_client(config: OAuthConfig) -> Result<ClientData, Seq<char>> {
    checked_client(
        "Google"@,
        ClientData {
            client_id: config.google_client_id@,
            client_secret: config.google_client_secret@,
            auth_url: "https://accounts.google.com/o/oauth2/v2/auth"@,
            token_url: "https://oauth2.googleapis.com/token"@,
            redirect_url: config.base_url@ + "/auth/google/callback"@,
        },
    )
}

/// Builds the client for Google.
pub fn build_google_client(config: &OAuthConfig) -> (r: Result<ConfiguredClient, String>)
    ensures
        client_outcome(r) == google_client(*config),
{
    check_client(
        "Google",
        ConfiguredClient {
            client_id: config.google_client_id.clone(),
            client_secret: config.google_client_secret.clone(),
            auth_url: "https://accounts.google.com/o/oauth2/v2/auth".to_string(),
            token_url: "https://oauth2.googleapis.com/token".to_string(),
            redirect_url: concat(config.base_url.as_str(), "/auth/google/callback"),
        },
    )
}

/// The client for GitHub.
pub open spec fn github_client(config: OAuthConfig) -> Result<ClientData, Seq<char>> {
    checked_client(
        "GitHub"@,
        ClientData {
            client_id: config.github_client_id@,
            client_secret: config.github_client_secret@,
            auth_url: "https://github.com/login/oauth/authorize"@,
            token_url: "https://github.com/login/oauth/access_token"@,
            redirect_url: config.base_url@ + "/auth/github/callback"@,
        },
    )
}

/// Builds the client for GitHub.
pub fn build_github_client(config: &OAuthConfig) -> (r: Result<ConfiguredClient, String>)
    ensures
        client_outcome(r) == github_client(*config),
{
    check_client(
        "GitHub",
        ConfiguredClient {
            client_id: config.github_client_id.clone(),
            client_secret: config.github_client_secret.clone(),
            auth_url: "https://github.com/login/oauth/authorize".to_string(),
            token_url: "https://github.com/login/oauth/access_token".to_string(),
            redirect_url: concat(config.base_url.as_str(), "/auth/github/callback"),
        },
    )
}

// ---------------------------------------------------------------------------
// Fresh secrets
// ---------------------------------------------------------------------------

/// A text in the URL-safe alphabet of base 64.
pub open spec fn base64_url(s: Seq<char>) -> bool {
    forall|i: int|
        0 <= i < s.len() ==> {
            let c = #[trigger] s[i];
            'A' <= c <= 'Z' || 'a' <= c <= 'z' || '0' <= c <= '9' || c == '-' || c == '_'
        }
}

/// The shape of a state token: 16 random bytes in base 64.
pub open spec fn csrf_text(s: Seq<char>) -> bool {
    s.len() == 22 && base64_url(s)
}

/// The shape of a PKCE verifier: 32 random bytes in base 64.
pub open spec fn verifier_text(s: Seq<char>) -> bool {
    s.len() == 43 && base64_url(s)
}

/// `oauth2::CsrfToken::new_random`: a random state token.
#[verifier::external_body]
fn fresh_csrf_token() -> (token: String)
    ensures
        csrf_text(token@),
{
    oauth2::CsrfToken::new_random().into_secret()
}

/// `oauth2::PkceCodeChallenge::new_random_sha256`: the random verifier of a PKCE
/// challenge. The challenge that comes with it is the one that follows from the
/// verifier.
#[verifier::external_body]
fn fresh_pkce_verifier() -> (verifier: String)
    ensures
        verifier_text(verifier@),
{
    oauth2::PkceCodeChallenge::new_random_sha256().1.into_secret()
}

// ---------------------------------------------------------------------------
// The address that starts a sign-in
// ---------------------------------------------------------------------------

/// The address at the provider that starts a sign-in.
pub uninterp spec fn authorize_url_text(
    auth_url: Seq<char>,
    client_id: Seq<char>,
    redirect_url: Seq<char>,
    scopes: Seq<Seq<char>>,
    state: Seq<char>,
) -> Seq<char>;

/// The address at the provider that starts a sign-in with the SHA-256 challenge
/// of a PKCE verifier.
pub uninterp spec fn pkce_authorize_url_text(
    auth_url: Seq<char>,
    client_id: Seq<char>,
    redirect_url: Seq<char>,
    scopes: Seq<Seq<char>>,
    state: Seq<char>,
    pkce_verifier: Seq<char>,
) -> Seq<char>;

/// `oauth2::Client::authorize_url` and `AuthorizationRequest::url`: the
/// authorization endpoint with the client, the state, the redirection endpoint
/// and the scopes in its query.
#[verifier::external_body]
fn authorize_url(client: &ConfiguredClient, scopes: &Vec<String>, state: &str) -> (url: String)
    requires
        client@.wf(),
    ensures
        url@ == authorize_url_text(
            client.auth_url@,
            client.client_id@,
            client.redirect_url@,
            texts(scopes@),
            state@,
        ),
{
    oauth2::basic::BasicClient::new(oauth2::ClientId::new(client.client_id.clone()))
        .set_auth_uri(oauth2::AuthUrl::new(client.auth_url.clone()).unwrap())
        .set_redirect_uri(oauth2::RedirectUrl::new(client.redirect_url.clone()).unwrap())
        .authorize_url(|| oauth2::CsrfToken::new(state.to_string()))
        .add_scopes(scopes.iter().map(|s| oauth2::Scope::new(s.clone())))
        .url().0.to_string()
}

/// `oauth2::AuthorizationRequest::set_pkce_challenge` before `url`, with the
/// challenge of `PkceCodeChallenge::from_code_verifier_sha256`, which panics on
/// a verifier that is not 43 to 128 bytes long.
#[verifier::external_body]
fn pkce_authorize_url(
    client: &ConfiguredClient,
    scopes: &Vec<String>,
    state: &str,
    pkce_verifier: &str,
) -> (url: String)
    requires
        client@.wf(),
        43 <= byte_len(pkce_verifier@) <= 128,
    ensures
        url@ == pkce_authorize_url_text(
            client.auth_url@,
            client.client_id@,
            client.redirect_url@,
            texts(scopes@),
            state@,
            pkce_verifier@,
        ),
{
    let verifier = oauth2::PkceCodeVerifier::new(pkce_verifier.to_string());
    oauth2::basic::BasicClient::new(oauth2::ClientId::new(client.client_id.clone()))
        .set_auth_uri(oauth2::AuthUrl::new(client.auth_url.clone()).unwrap())
        .set_redirect_uri(oauth2::RedirectUrl::new(client.redirect_url.clone()).unwrap())
        .authorize_url(|| oauth2::CsrfToken::new(state.to_string()))
        .add_scopes(scopes.iter().map(|s| oauth2::Scope::new(s.clone())))
        .set_pkce_challenge(oauth2::PkceCodeChallenge::from_code_verifier_sha256(&verifier))
        .url().0.to_string()
}

// ---------------------------------------------------------------------------
// Starting a sign-in
// ---------------------------------------------------------------------------

/// What starting a sign-in does.
pub enum LoginStart {
    /// The request is answered at once.
    Reply(HttpReply),
    /// The statement is run, and then `then` decides.
    Save { statement: Statement, then: LoginSaved },
}

/// The address to send the user to once the sign-in is remembered.
pub struct LoginSaved {
    pub url: String,
}

/// The contents of the start of a sign-in.
pub enum LoginStartData {
    Reply(HttpReplyData),
    Save { statement: StatementData, url: Seq<char> },
}

impl View for LoginStart {
    type V = LoginStartData;

    open spec fn view(&self) -> LoginStartData {
        match self {
            LoginStart::Reply(r) => LoginStartData::Reply(r@),
            LoginStart::Save { statement, then } => LoginStartData::Save {
                statement: statement@,
                url: then.url@,
            },
        }
    }
}

impl LoginSaved {
    /// Sends the user to the provider if the sign-in was remembered.
    pub fn resume(self, saved: Result<(), DbError>) -> (reply: HttpReply)
        ensures
            reply@ == (match saved {
                Ok(_) => HttpReplyData::SeeOther { location: self.url@ },
                Err(_) => text_reply(500, "Failed to initiate login"),
            }),
    {
        match saved {
            Ok(_) => HttpReply::SeeOther { location: self.url },
            Err(_) => reply_text(500, "Failed to initiate login"),
        }
    }
}

/// Starts a sign-in that sends the user to `url`: its secrets are remembered
/// first.
pub fn begin_login(csrf_token: &str, pkce_verifier: &str, url: String) -> (start: LoginStart)
    ensures
        start@ == (LoginStartData::Save {
            statement: save_oauth_state_stmt(csrf_token@, pkce_verifier@),
            url: url@,
        }),
{
    LoginStart::Save {
        statement: save_oauth_state(csrf_token, pkce_verifier),
        then: LoginSaved { url },
    }
}

/// The start of a sign-in through Google with a given state token and PKCE
/// verifier: both are remembered, and the provider is told the token and the
/// verifier's challenge.
pub open spec fn google_login_start(
    config: OAuthConfig,
    csrf_token: Seq<char>,
    pkce_verifier: Seq<char>,
) -> LoginStartData {
    match google_client(config) {
        Err(_) => LoginStartData::Reply(text_reply(500, "OAuth misconfigured")),
        Ok(client) => LoginStartData::Save {
            statement: save_oauth_state_stmt(csrf_token, pkce_verifier),
            url: pkce_authorize_url_text(
                client.auth_url,
                client.client_id,
                client.redirect_url,
                seq!["email"@, "profile"@],
                csrf_token,
                pkce_verifier,
            ),
        },
    }
}

/// Starts a sign-in through Google with a given state token and PKCE verifier.
pub fn google_login_with(
    config: &OAuthConfig,
    csrf_token: &str,
    pkce_verifier: &str,
) -> (start: LoginStart)
    requires
        43 <= byte_len(pkce_verifier@) <= 128,
    ensures
        start@ == google_login_start(*config, csrf_token@, pkce_verifier@),
{
    match build_google_client(config) {
        Err(_) => LoginStart::Reply(reply_text(500, "OAuth misconfigured")),
        Ok(client) => {
            let scopes = vec!["email".to_string(), "profile".to_string()];
            assert(texts(scopes@) =~= seq!["email"@, "profile"@]);
            let url = pkce_authorize_url(&client, &scopes, csrf_token, pkce_verifier);
            begin_login(csrf_token, pkce_verifier, url)
        },
    }
}

/// Starts a sign-in through Google with fresh secrets.
pub fn google_login(config: &OAuthConfig) -> (start: LoginStart)
    ensures
        exists|csrf_token: Seq<char>, pkce_verifier: Seq<char>|
            #[trigger] csrf_text(csrf_token) && #[trigger] verifier_text(pkce_verifier) && start@
                == google_login_start(*config, csrf_token, pkce_verifier),
{
    let pkce_verifier = fresh_pkce_verifier();
    let csrf_token = fresh_csrf_token();
    proof {
        is_ascii_chars_encode_utf8(pkce_verifier@);
    }
    google_login_with(config, csrf_token.as_str(), pkce_verifier.as_str())
}

/// The start of a sign-in through GitHub with a given state token, which is
/// remembered and told to the provider. GitHub is used without PKCE.
pub open spec fn github_login_start(config: OAuthConfig, csrf_token: Seq<char>) -> LoginStartData {
    match github_client(config) {
        Err(_) => LoginStartData::Reply(text_reply(500, "OAuth misconfigured")),
        Ok(client) => LoginStartData::Save {
            statement: save_oauth_state_stmt(csrf_token, ""@),
            url: authorize_url_text(
                client.auth_url,
                client.client_id,
                client.redirect_url,
                seq!["user:email"@],
                csrf_token,
            ),
        },
    }
}

/// Starts a sign-in through GitHub with a given state token.
pub fn github_login_with(config: &OAuthConfig, csrf_token: &str) -> (start: LoginStart)
    ensures
        start@ == github_login_start(*config, csrf_token@),
{
    match build_github_client(config) {
        Err(_) => LoginStart::Reply(reply_text(500, "OAuth misconfigured")),
        Ok(client) => {
            let scopes = vec!["user:email".to_string()];
            assert(texts(scopes@) =~= seq!["user:email"@]);
            let url = authorize_url(&client, &scopes, csrf_token);
            begin_login(csrf_token, "", url)
        },
    }
}

/// Starts a sign-in through GitHub with a fresh state token.
pub fn github_login(config: &OAuthConfig) -> (start: LoginStart)
    ensures
        exists|csrf_token: Seq<char>|
            #[trigger] csrf_text(csrf_token) && start@ == github_login_start(*config, csrf_token),
{
    let csrf_token = fresh_csrf_token();
    github_login_with(config, csrf_token.as_str())
}

// ---------------------------------------------------------------------------
// Laws
// ---------------------------------------------------------------------------

/// The client for Google is this server's identity there, Google's endpoints, and
/// the callback for Google under the server's own address; the first endpoint that
/// is no URL is told instead.
pub proof fn law_google_client(config: OAuthConfig, r: Result<ConfiguredClient, String>)
    requires
        call_ensures(build_google_client, (&config,), r),
    ensures
        ({
            let auth = "https://accounts.google.com/o/oauth2/v2/auth"@;
            let token = "https://oauth2.googleapis.com/token"@;
            let redirect = config.base_url@ + "/auth/google/callback"@;
            &&& auth_url_error(auth) is None && token_url_error(token) is None
                && redirect_url_error(redirect) is None ==> r is Ok && r->Ok_0.client_id@
                == config.google_client_id@ && r->Ok_0.client_secret@
                == config.google_client_secret@ && r->Ok_0.auth_url@ == auth && r->Ok_0.token_url@
                == token && r->Ok_0.redirect_url@ == redirect
            &&& auth_url_error(auth) matches Some(e) ==> r is Err && r->Err_0@ == "invalid "@
                + "Google"@ + " auth URL: "@ + e
            &&& auth_url_error(auth) is None && token_url_error(token) is Some ==> r is Err
                && r->Err_0@ == "invalid "@ + "Google"@ + " token URL: "@ + token_url_error(
                token,
            )->0
            &&& auth_url_error(auth) is None && token_url_error(token) is None
                && redirect_url_error(redirect) is Some ==> r is Err && r->Err_0@ == "invalid "@
                + "Google"@ + " redirect URL: "@ + redirect_url_error(redirect)->0
        }),
{
}

/// The client for GitHub likewise.
pub proof fn law_github_client(config: OAuthConfig, r: Result<ConfiguredClient, String>)
    requires
        call_ensures(build_github_client, (&config,), r),
    ensures
        ({
            let auth = "https://github.com/login/oauth/authorize"@;
            let token = "https://github.com/login/oauth/access_token"@;
            let redirect = config.base_url@ + "/auth/github/callback"@;
            &&& auth_url_error(auth) is None && token_url_error(token) is None
                && redirect_url_error(redirect) is None ==> r is Ok && r->Ok_0.client_id@
                == config.github_client_id@ && r->Ok_0.client_secret@
                == config.github_client_secret@ && r->Ok_0.auth_url@ == auth && r->Ok_0.token_url@
                == token && r->Ok_0.redirect_url@ == redirect
            &&& auth_url_error(auth) matches Some(e) ==> r is Err && r->Err_0@ == "invalid "@
                + "GitHub"@ + " auth URL: "@ + e
            &&& auth_url_error(auth) is None && token_url_error(token) is Some ==> r is Err
                && r->Err_0@ == "invalid "@ + "GitHub"@ + " token URL: "@ + token_url_error(
                token,
            )->0
            &&& auth_url_error(auth) is None && token_url_error(token) is None
                && redirect_url_error(redirect) is Some ==> r is Err && r->Err_0@ == "invalid "@
                + "GitHub"@ + " redirect URL: "@ + redirect_url_error(redirect)->0
        }),
{
}

/// A client is good if none of its endpoints has a fault, and stays as it is; the
/// first fault is told with the provider and the endpoint.
pub proof fn law_client_faults(
    provider: &str,
    client: ConfiguredClient,
    auth: Option<String>,
    token: Option<String>,
    redirect: Option<String>,
    r: Result<ConfiguredClient, String>,
)
    requires
        call_ensures(client_without_faults, (provider, client, auth, token, redirect), r),
    ensures
        auth is None && token is None && redirect is None ==> r is Ok && r->Ok_0.client_id@
            == client.client_id@ && r->Ok_0.client_secret@ == client.client_secret@
            && r->Ok_0.auth_url@ == client.auth_url@ && r->Ok_0.token_url@ == client.token_url@
            && r->Ok_0.redirect_url@ == client.redirect_url@,
        auth matches Some(e) ==> r is Err && r->Err_0@ == "invalid "@ + provider@ + " auth URL: "@
            + e@,
        auth is None && token is Some ==> r is Err && r->Err_0@ == "invalid "@ + provider@
            + " token URL: "@ + token->0@,
        auth is None && token is None && redirect is Some ==> r is Err && r->Err_0@ == "invalid "@
            + provider@ + " redirect URL: "@ + redirect->0@,
{
}

/// A sign-in through Google remembers its state token and its verifier, and then
/// sends the user to Google with that token, the verifier's challenge, and the wish
/// to see the email and the profile. Where that fails it is told, and so is a
/// client with a fault.
pub proof fn law_google_sign_in_starts(
    config: OAuthConfig,
    csrf_token: &str,
    pkce_verifier: &str,
    client: Result<ConfiguredClient, String>,
    start: LoginStart,
    e: DbError,
    sent: HttpReply,
    failed: HttpReply,
)
    requires
        call_ensures(build_google_client, (&config,), client),
        call_ensures(google_login_with, (&config, csrf_token, pkce_verifier), start),
        call_ensures(LoginSaved::resume, (start->Save_then, Ok::<(), DbError>(())), sent),
        call_ensures(LoginSaved::resume, (start->Save_then, Err::<(), DbError>(e)), failed),
    ensures
        client is Err ==> start is Reply && start->Reply_0@ == (HttpReplyData::Text {
            status: 500,
            body: "OAuth misconfigured"@,
        }),
        client matches Ok(c) ==> {
            &&& start is Save
            &&& start->Save_statement@.sql == SAVE_OAUTH_STATE@
            &&& start->Save_statement@.params == seq![
                SqlData::Text(csrf_token@),
                SqlData::Text(pkce_verifier@),
            ]
            &&& sent@ == (HttpReplyData::SeeOther {
                location: pkce_authorize_url_text(
                    c.auth_url@,
                    c.client_id@,
                    c.redirect_url@,
                    seq!["email"@, "profile"@],
                    csrf_token@,
                    pkce_verifier@,
                ),
            })
            &&& failed@ == (HttpReplyData::Text { status: 500, body: "Failed to initiate login"@ })
        },
{
}

/// A sign-in through GitHub remembers its state token, without a verifier, and then
/// sends the user to GitHub with that token and the wish to see the email
/// addresses.
pub proof fn law_github_sign_in_starts(
    config: OAuthConfig,
    csrf_token: &str,
    client: Result<ConfiguredClient, String>,
    start: LoginStart,
    sent: HttpReply,
)
    requires
        call_ensures(build_github_client, (&config,), client),
        call_ensures(github_login_with, (&config, csrf_token), start),
        call_ensures(LoginSaved::resume, (start->Save_then, Ok::<(), DbError>(())), sent),
    ensures
        client is Err ==> start is Reply && start->Reply_0@ == (HttpReplyData::Text {
            status: 500,
            body: "OAuth misconfigured"@,
        }),
        client matches Ok(c) ==> {
            &&& start is Save
            &&& start->Save_statement@.sql == SAVE_OAUTH_STATE@
            &&& start->Save_statement@.params.len() == 2
            &&& start->Save_statement@.params[0] == SqlData::Text(csrf_token@)
            &&& start->Save_statement@.params[1] == SqlData::Text(Seq::empty())
            &&& sent@ == (HttpReplyData::SeeOther {
                location: authorize_url_text(
                    c.auth_url@,
                    c.client_id@,
                    c.redirect_url@,
                    seq!["user:email"@],
                    csrf_token@,
                ),
            })
        },
{
    reveal_strlit("");
    assert(""@ =~= Seq::<char>::empty());
}

/// A sign-in remembers its two secrets in their places, and goes on to the address
/// that it was given.
pub proof fn law_begin_login(
    csrf_token: &str,
    pkce_verifier: &str,
    url: String,
    start: LoginStart,
)
    requires
        call_ensures(begin_login, (csrf_token, pkce_verifier, url), start),
    ensures
        start is Save,
        start->Save_statement@.sql == SAVE_OAUTH_STATE@,
        start->Save_statement@.params == seq![
            SqlData::Text(csrf_token@),
            SqlData::Text(pkce_verifier@),
        ],
        start->Save_then.url@ == url@,
{
}

/// Fresh secrets: the state token that is remembered is the one that the provider
/// is told, of 22 characters, and for Google the verifier is the one of the
/// challenge, of 43.
pub proof fn law_fresh_sign_ins(
    config: OAuthConfig,
    google: Result<ConfiguredClient, String>,
    github: Result<ConfiguredClient, String>,
    by_google: LoginStart,
    by_github: LoginStart,
)
    requires
        call_ensures(build_google_client, (&config,), google),
        call_ensures(build_github_client, (&config,), github),
        call_ensures(google_login, (&config,), by_google),
        call_ensures(github_login, (&config,), by_github),
    ensures
        google matches Ok(c) ==> by_google is Save && exists|state: Seq<char>, verifier: Seq<char>|
            #[trigger] csrf_text(state) && #[trigger] verifier_text(verifier) && state.len() == 22
                && verifier.len() == 43 && by_google->Save_statement@.params == seq![
                SqlData::Text(state),
                SqlData::Text(verifier),
            ] && by_google->Save_then.url@ == pkce_authorize_url_text(
                c.auth_url@,
                c.client_id@,
                c.redirect_url@,
                seq!["email"@, "profile"@],
                state,
                verifier,
            ),
        github matches Ok(c) ==> by_github is Save && exists|state: Seq<char>|
            #[trigger] csrf_text(state) && state.len() == 22
                && by_github->Save_statement@.params[0] == SqlData::Text(state)
                && by_github->Save_then.url@ == authorize_url_text(
                c.auth_url@,
                c.client_id@,
                c.redirect_url@,
                seq!["user:email"@],
                state,
            ),
{
    if let Ok(c) = google {
        let (state, verifier) = choose|csrf_token: Seq<char>, pkce_verifier: Seq<char>|
            #[trigger] csrf_text(csrf_token) && #[trigger] verifier_text(pkce_verifier)
                && by_google@ == google_login_start(config, csrf_token, pkce_verifier);
        assert(by_google@ == google_login_start(config, state, verifier));
        assert(by_google->Save_then.url@ == pkce_authorize_url_text(
            c.auth_url@,
            c.client_id@,
            c.redirect_url@,
            seq!["email"@, "profile"@],
            state,
            verifier,
        ));
    }
    if let Ok(c) = github {
        let state = choose|csrf_token: Seq<char>|
            #[trigger] csrf_text(csrf_token) && by_github@ == github_login_start(
                config,
                csrf_token,
            );
        assert(by_github->Save_then.url@ == authorize_url_text(
            c.auth_url@,
            c.client_id@,
            c.redirect_url@,
            seq!["user:email"@],
            state,
        ));
    }
}

} // verus!
