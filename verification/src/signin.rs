//! Completing a sign-in: what happens when a provider sends the user back.
//!
//! A sign-in alternates between this server's decisions and work outside it. A
//! step names the work to do next; its `then` takes what came of it and gives
//! the next step.

use crate::ids::{fresh_uuid, uuid_text};
use crate::oauth::{
    build_github_client, build_google_client, github_client, google_client, ClientData,
    ConfiguredClient,
};
use crate::session::{
    reply_text, signed_in, signed_in_reply, text_reply, HttpReply, HttpReplyData, OAuthConfig,
    HTTP_DATE_END, SESSION_SECONDS,
};
use crate::store::{
    count_oauth_states, count_oauth_states_stmt, count_username, count_username_stmt,
    delete_oauth_state, delete_oauth_state_stmt, find_account, find_account_stmt,
    find_pkce_verifier, find_pkce_verifier_stmt, find_user_by_email, find_user_by_email_stmt,
    insert_session, insert_session_stmt, insert_user, insert_user_stmt, link_account,
    link_account_stmt, DbError, SqlData, Statement, COUNT_OAUTH_STATES, COUNT_USERNAME,
    DELETE_OAUTH_STATE, FIND_ACCOUNT, FIND_PKCE_VERIFIER, FIND_USER_BY_EMAIL, INSERT_SESSION,
    INSERT_USER, LINK_ACCOUNT,
};
use crate::text::{opt_text, signed_decimal, to_signed_decimal};
use crate::username::{
    base_name, candidate, spare_name, username_base, UsernameSearch, UsernameStep,
};
use vstd::prelude::*;

verus! {

// ---------------------------------------------------------------------------
// From a provider's account to a session
// ---------------------------------------------------------------------------

/// An account at a provider that signs in, and the address under which the
/// server is reached.
pub struct Login {
    pub base_url: String,
    pub provider: String,
    pub provider_uid: String,
    pub email: String,
    pub username_hint: String,
}

/// The next step from an account to a session.
pub enum LoginStep {
    /// Find the user that the account is linked to: at most one row.
    FindAccount { statement: Statement, then: AccountLookup },
    /// Count the users with a name.
    CountUsername { statement: Statement, then: UsernameCounted },
    /// Add a user.
    InsertUser { statement: Statement, then: UserInserted },
    /// Find the user with the account's email: exactly one row.
    FindByEmail { statement: Statement, then: EmailLookup },
    /// Link the account to a user.
    LinkAccount { statement: Statement, then: AccountLinked },
    /// Open a session.
    CreateSession { statement: Statement, then: SessionCreated },
    /// Answer the request.
    Reply(HttpReply),
}

/// Waits for the user that the account is linked to.
pub struct AccountLookup {
    pub login: Login,
}

/// Waits for the number of users with a name.
pub struct UsernameCounted {
    pub login: Login,
    pub user_id: String,
    pub search: UsernameSearch,
}

/// Waits for a user to be added.
pub struct UserInserted {
    pub login: Login,
}

/// Waits for the user with the account's email.
pub struct EmailLookup {
    pub login: Login,
}

/// Waits for the account to be linked.
pub struct AccountLinked {
    pub login: Login,
    pub user_id: String,
}

/// Waits for a session to be opened.
pub struct SessionCreated {
    pub base_url: String,
    pub session_id: String,
}

/// Whether a step answers that the database failed.
pub open spec fn database_error(step: LoginStep) -> bool {
    step matches LoginStep::Reply(reply) && reply@ == text_reply(500, "Database error")
}

/// Whether a step opens the session `session_id` for a user.
pub open spec fn opens_session(
    step: LoginStep,
    base_url: Seq<char>,
    user_id: Seq<char>,
    session_id: Seq<char>,
) -> bool {
    step matches LoginStep::CreateSession { statement, then } && statement@ == insert_session_stmt(
        session_id,
        user_id,
    ) && then.base_url@ == base_url && then.session_id@ == session_id
}

/// Whether a step looks up the `k`-th candidate for the name of a new user.
pub open spec fn counts_username(
    step: LoginStep,
    login: Login,
    user_id: Seq<char>,
    base: Seq<char>,
    k: nat,
) -> bool {
    step matches LoginStep::CountUsername { statement, then } && statement@ == count_username_stmt(
        candidate(base, k),
    ) && then.login == login && then.user_id@ == user_id && then.search.base@ == base
        && then.search.tried == k && then.search.wf()
}

/// Whether a step adds a user.
pub open spec fn inserts_user(
    step: LoginStep,
    login: Login,
    user_id: Seq<char>,
    username: Seq<char>,
) -> bool {
    step matches LoginStep::InsertUser { statement, then } && statement@ == insert_user_stmt(
        user_id,
        username,
        login.email@,
    ) && then.login == login
}

/// Answers that the database failed.
fn fail_login() -> (step: LoginStep)
    ensures
        database_error(step),
{
    LoginStep::Reply(reply_text(500, "Database error"))
}

/// Opens a session for a user.
fn open_session(base_url: String, user_id: &str, session_id: String) -> (step: LoginStep)
    ensures
        opens_session(step, base_url@, user_id@, session_id@),
{
    LoginStep::CreateSession {
        statement: insert_session(session_id.as_str(), user_id),
        then: SessionCreated { base_url, session_id },
    }
}

/// Takes an account to its user: the user that it is linked to, or else the one
/// with its email, who is added first where there is none.
pub fn upsert_user(login: Login) -> (step: LoginStep)
    ensures
        step matches LoginStep::FindAccount { statement, then } && statement@ == find_account_stmt(
            login.provider@,
            login.provider_uid@,
        ) && then.login == login,
{
    LoginStep::FindAccount {
        statement: find_account(login.provider.as_str(), login.provider_uid.as_str()),
        then: AccountLookup { login },
    }
}

/// Signs an account in: its user first, then a session.
pub fn complete_login(login: Login) -> (step: LoginStep)
    ensures
        step matches LoginStep::FindAccount { statement, then } && statement@ == find_account_stmt(
            login.provider@,
            login.provider_uid@,
        ) && then.login == login,
{
    upsert_user(login)
}

impl AccountLookup {
    /// Opens a session for the user that the account is linked to. An account
    /// that is linked to none gets a new user, for whom a name is looked for.
    /// `fresh` identifies the session or the new user.
    pub fn resume_with(
        self,
        found: Result<Option<String>, DbError>,
        fresh: String,
    ) -> (step: LoginStep)
        ensures
            match found {
                Err(_) => database_error(step),
                Ok(Some(user_id)) => opens_session(
                    step,
                    self.login.base_url@,
                    user_id@,
                    fresh@,
                ),
                Ok(None) => counts_username(
                    step,
                    self.login,
                    fresh@,
                    base_name(self.login.username_hint@),
                    0,
                ),
            },
    {
        match found {
            Err(_) => fail_login(),
            Ok(Some(user_id)) => open_session(
                self.login.base_url,
                user_id.as_str(),
                fresh,
            ),
            Ok(None) => {
                let search = UsernameSearch::start(self.login.username_hint.as_str());
                LoginStep::CountUsername {
                    statement: count_username(search.candidate_name().as_str()),
                    then: UsernameCounted { login: self.login, user_id: fresh, search },
                }
            },
        }
    }

    /// As `resume_with`, with a fresh identifier.
    pub fn resume(self, found: Result<Option<String>, DbError>) -> (step: LoginStep)
        ensures
            exists|fresh: Seq<char>| #[trigger]
                uuid_text(fresh) && match found {
                    Err(_) => database_error(step),
                    Ok(Some(user_id)) => opens_session(
                        step,
                        self.login.base_url@,
                        user_id@,
                        fresh,
                    ),
                    Ok(None) => counts_username(
                        step,
                        self.login,
                        fresh,
                        base_name(self.login.username_hint@),
                        0,
                    ),
                },
    {
        self.resume_with(found, fresh_uuid())
    }
}

/// Goes on with the search for a name of a new user.
fn go_on_naming(login: Login, user_id: String, named: UsernameStep) -> (step: LoginStep)
    requires
        named matches UsernameStep::LookUp(search) ==> search.wf(),
    ensures
        match named {
            UsernameStep::Settled(name) => inserts_user(step, login, user_id@, name@),
            UsernameStep::LookUp(search) => counts_username(
                step,
                login,
                user_id@,
                search.base@,
                search.tried as nat,
            ),
        },
{
    match named {
        UsernameStep::Settled(name) => LoginStep::InsertUser {
            statement: insert_user(user_id.as_str(), name.as_str(), login.email.as_str()),
            then: UserInserted { login },
        },
        UsernameStep::LookUp(search) => LoginStep::CountUsername {
            statement: count_username(search.candidate_name().as_str()),
            then: UsernameCounted { login, user_id, search },
        },
    }
}

impl UsernameCounted {
    /// Adds the user with the candidate where nobody has that name, otherwise
    /// looks up the next candidate; after the last the user is added with
    /// `spare` behind the base.
    pub fn resume_with(self, count: Result<i64, DbError>, spare: &str) -> (step: LoginStep)
        ensures
            match count {
                Err(_) => database_error(step),
                Ok(n) => if n == 0 {
                    inserts_user(step, self.login, self.user_id@, self.search.name())
                } else if self.search.tried < 99 {
                    counts_username(
                        step,
                        self.login,
                        self.user_id@,
                        self.search.base@,
                        self.search.tried as nat + 1,
                    )
                } else {
                    inserts_user(
                        step,
                        self.login,
                        self.user_id@,
                        spare_name(self.search.base@, spare@),
                    )
                },
            },
    {
        match count {
            Err(_) => fail_login(),
            Ok(n) => go_on_naming(self.login, self.user_id, self.search.answer_with(n, spare)),
        }
    }

    /// As `resume_with`, with a fresh identifier to fall back on.
    pub fn resume(self, count: Result<i64, DbError>) -> (step: LoginStep)
        ensures
            match count {
                Err(_) => database_error(step),
                Ok(n) => if n == 0 {
                    inserts_user(step, self.login, self.user_id@, self.search.name())
                } else if self.search.tried < 99 {
                    counts_username(
                        step,
                        self.login,
                        self.user_id@,
                        self.search.base@,
                        self.search.tried as nat + 1,
                    )
                } else {
                    exists|spare: Seq<char>| #[trigger]
                        crate::ids::simple_uuid_text(spare) && inserts_user(
                            step,
                            self.login,
                            self.user_id@,
                            spare_name(self.search.base@, spare),
                        )
                },
            },
    {
        match count {
            Err(_) => fail_login(),
            Ok(n) => go_on_naming(self.login, self.user_id, self.search.answer(n)),
        }
    }
}

impl UserInserted {
    /// Finds the user with the account's email: the new one, or one that was
    /// there before.
    pub fn resume(self, inserted: Result<(), DbError>) -> (step: LoginStep)
        ensures
            match inserted {
                Err(_) => database_error(step),
                Ok(_) => step matches LoginStep::FindByEmail { statement, then } && statement@
                    == find_user_by_email_stmt(self.login.email@) && then.login == self.login,
            },
    {
        match inserted {
            Err(_) => fail_login(),
            Ok(_) => LoginStep::FindByEmail {
                statement: find_user_by_email(self.login.email.as_str()),
                then: EmailLookup { login: self.login },
            },
        }
    }
}

impl EmailLookup {
    /// Links the account to the user with its email.
    pub fn resume(self, user_id: Result<String, DbError>) -> (step: LoginStep)
        ensures
            match user_id {
                Err(_) => database_error(step),
                Ok(id) => step matches LoginStep::LinkAccount { statement, then } && statement@
                    == link_account_stmt(id@, self.login.provider@, self.login.provider_uid@)
                    && then.login == self.login && then.user_id == id,
            },
    {
        match user_id {
            Err(_) => fail_login(),
            Ok(id) => LoginStep::LinkAccount {
                statement: link_account(
                    id.as_str(),
                    self.login.provider.as_str(),
                    self.login.provider_uid.as_str(),
                ),
                then: AccountLinked { login: self.login, user_id: id },
            },
        }
    }
}

impl AccountLinked {
    /// Opens a session for the user that the account is now linked to.
    pub fn resume_with(self, linked: Result<(), DbError>, session_id: String) -> (step: LoginStep)
        ensures
            match linked {
                Err(_) => database_error(step),
                Ok(_) => opens_session(
                    step,
                    self.login.base_url@,
                    self.user_id@,
                    session_id@,
                ),
            },
    {
        match linked {
            Err(_) => fail_login(),
            Ok(_) => open_session(self.login.base_url, self.user_id.as_str(), session_id),
        }
    }

    /// As `resume_with`, with a fresh session identifier.
    pub fn resume(self, linked: Result<(), DbError>) -> (step: LoginStep)
        ensures
            match linked {
                Err(_) => database_error(step),
                Ok(_) => exists|session_id: Seq<char>| #[trigger]
                    uuid_text(session_id) && opens_session(
                        step,
                        self.login.base_url@,
                        self.user_id@,
                        session_id,
                    ),
            },
    {
        self.resume_with(linked, fresh_uuid())
    }
}

impl SessionCreated {
    /// Answers with the session cookie, `now` seconds after 1970.
    pub fn resume(self, created: Result<(), DbError>, now: u64) -> (step: LoginStep)
        requires
            now + SESSION_SECONDS < HTTP_DATE_END,
        ensures
            match created {
                Err(_) => database_error(step),
                Ok(_) => step matches LoginStep::Reply(reply) && reply@ == signed_in_reply(
                    self.base_url@,
                    self.session_id@,
                    now,
                ),
            },
    {
        match created {
            Err(_) => fail_login(),
            Ok(_) => LoginStep::Reply(
                signed_in(self.base_url.as_str(), self.session_id.as_str(), now),
            ),
        }
    }
}

// ---------------------------------------------------------------------------
// From a provider's callback to an account
// ---------------------------------------------------------------------------

/// What a provider sends back: the code to exchange, and the state token of the
/// sign-in.
pub struct CallbackParams {
    pub code: String,
    pub state: String,
}

/// A sign-in provider.
#[derive(Clone, Copy, PartialEq, Eq, Structural)]
pub enum Provider {
    Google,
    GitHub,
}

/// What came of asking a provider about the user.
pub enum Fetched<T> {
    /// The request failed.
    Failed,
    /// The response could not be read.
    Unreadable,
    /// The response.
    Read(T),
}

/// What Google says of the user.
pub struct GoogleUserInfo {
    pub sub: String,
    pub email: String,
}

/// What GitHub says of the user.
pub struct GitHubUser {
    pub id: i64,
    pub login: String,
    pub email: Option<String>,
}

/// An email address of a GitHub user.
pub struct GitHubEmail {
    pub email: String,
    pub primary: bool,
}

/// A request to a provider with the user's access token.
pub struct UserRequest {
    pub url: &'static str,
    pub access_token: String,
    pub user_agent: Option<&'static str>,
}

/// The next step of a callback.
pub enum CallbackStep {
    /// Find the PKCE verifier of the sign-in: at most one row.
    FindVerifier { statement: Statement, then: VerifierLookup },
    /// Count the sign-ins with the state token.
    CountStates { statement: Statement, then: StatesCounted },
    /// Forget the sign-in.
    ForgetState { statement: Statement, then: StateForgotten },
    /// Exchange the code for an access token.
    ExchangeCode {
        client: ConfiguredClient,
        code: String,
        pkce_verifier: Option<String>,
        then: CodeExchanged,
    },
    /// Ask Google about the user.
    FetchGoogleUser { request: UserRequest, then: GoogleUserFetched },
    /// Ask GitHub about the user.
    FetchGitHubUser { request: UserRequest, then: GitHubUserFetched },
    /// Ask GitHub for the user's email addresses.
    FetchGitHubEmails { request: UserRequest, then: GitHubEmailsFetched },
    /// Go on from the account to a session.
    Login(LoginStep),
    /// Answer the request.
    Reply(HttpReply),
}

/// Waits for the PKCE verifier of a sign-in through Google.
pub struct VerifierLookup {
    pub config: OAuthConfig,
    pub params: CallbackParams,
}

/// Waits for the number of sign-ins through GitHub with the state token.
pub struct StatesCounted {
    pub config: OAuthConfig,
    pub params: CallbackParams,
}

/// Waits for the sign-in to be forgotten.
pub struct StateForgotten {
    pub config: OAuthConfig,
    pub provider: Provider,
    pub code: String,
    pub pkce_verifier: Option<String>,
}

/// Waits for an access token.
pub struct CodeExchanged {
    pub base_url: String,
    pub provider: Provider,
}

/// Waits for what Google says of the user.
pub struct GoogleUserFetched {
    pub base_url: String,
}

/// Waits for what GitHub says of the user.
pub struct GitHubUserFetched {
    pub base_url: String,
    pub access_token: String,
}

/// Waits for the email addresses of a GitHub user.
pub struct GitHubEmailsFetched {
    pub base_url: String,
    pub user: GitHubUser,
}

/// Whether a step answers with a status code and a text.
pub open spec fn answers(step: CallbackStep, status: u16, body: &str) -> bool {
    step matches CallbackStep::Reply(reply) && reply@ == text_reply(status, body)
}

/// Whether a step takes an account to a session.
pub open spec fn logs_in(
    step: CallbackStep,
    base_url: Seq<char>,
    provider: Seq<char>,
    provider_uid: Seq<char>,
    email: Seq<char>,
    username_hint: Seq<char>,
) -> bool {
    &&& step matches CallbackStep::Login(LoginStep::FindAccount { statement, then })
    &&& statement@ == find_account_stmt(provider, provider_uid)
    &&& then.login.base_url@ == base_url
    &&& then.login.provider@ == provider
    &&& then.login.provider_uid@ == provider_uid
    &&& then.login.email@ == email
    &&& then.login.username_hint@ == username_hint
}

/// Answers with a status code and a text.
fn answer(status: u16, body: &str) -> (step: CallbackStep)
    ensures
        answers(step, status, body),
{
    CallbackStep::Reply(reply_text(status, body))
}

/// Google sends the user back: the sign-in with the state token is looked for.
pub fn google_callback(config: OAuthConfig, params: CallbackParams) -> (step: CallbackStep)
    ensures
        step matches CallbackStep::FindVerifier { statement, then } && statement@
            == find_pkce_verifier_stmt(params.state@) && then.config == config && then.params
            == params,
{
    CallbackStep::FindVerifier {
        statement: find_pkce_verifier(params.state.as_str()),
        then: VerifierLookup { config, params },
    }
}

/// GitHub sends the user back: the sign-ins with the state token are counted.
pub fn github_callback(config: OAuthConfig, params: CallbackParams) -> (step: CallbackStep)
    ensures
        step matches CallbackStep::CountStates { statement, then } && statement@
            == count_oauth_states_stmt(params.state@) && then.config == config && then.params
            == params,
{
    CallbackStep::CountStates {
        statement: count_oauth_states(params.state.as_str()),
        then: StatesCounted { config, params },
    }
}

/// Whether a step forgets a sign-in, to go on with its code and verifier.
pub open spec fn forgets_state(
    step: CallbackStep,
    config: OAuthConfig,
    params: CallbackParams,
    provider: Provider,
    pkce_verifier: Option<String>,
) -> bool {
    step matches CallbackStep::ForgetState { statement, then } && statement@
        == delete_oauth_state_stmt(params.state@) && then.config == config && then.provider
        == provider && then.code == params.code && then.pkce_verifier == pkce_verifier
}

impl VerifierLookup {
    /// Forgets the sign-in that was found, so that its state token is good for
    /// one callback only. Without one, because there is none, it is older than
    /// ten minutes or the lookup failed, the callback is refused.
    pub fn resume(self, found: Result<Option<String>, DbError>) -> (step: CallbackStep)
        ensures
            match found {
                Err(_) => answers(step, 400, "Invalid or expired state"),
                Ok(None) => answers(step, 400, "Invalid or expired state"),
                Ok(Some(verifier)) => forgets_state(
                    step,
                    self.config,
                    self.params,
                    Provider::Google,
                    Some(verifier),
                ),
            },
    {
        match found {
            Err(_) => answer(400, "Invalid or expired state"),
            Ok(None) => answer(400, "Invalid or expired state"),
            Ok(Some(verifier)) => CallbackStep::ForgetState {
                statement: delete_oauth_state(self.params.state.as_str()),
                then: StateForgotten {
                    config: self.config,
                    provider: Provider::Google,
                    code: self.params.code,
                    pkce_verifier: Some(verifier),
                },
            },
        }
    }
}

impl StatesCounted {
    /// Forgets the sign-in that was found, so that its state token is good for
    /// one callback only. Without one, because there is none, it is older than
    /// ten minutes or the lookup failed, the callback is refused.
    pub fn resume(self, count: Result<i64, DbError>) -> (step: CallbackStep)
        ensures
            match count {
                Err(_) => answers(step, 400, "Invalid or expired state"),
                Ok(n) => if n == 0 {
                    answers(step, 400, "Invalid or expired state")
                } else {
                    forgets_state(step, self.config, self.params, Provider::GitHub, None)
                },
            },
    {
        let found = match count {
            Err(_) => false,
            Ok(n) => n != 0,
        };
        if !found {
            answer(400, "Invalid or expired state")
        } else {
            CallbackStep::ForgetState {
                statement: delete_oauth_state(self.params.state.as_str()),
                then: StateForgotten {
                    config: self.config,
                    provider: Provider::GitHub,
                    code: self.params.code,
                    pkce_verifier: None,
                },
            }
        }
    }
}

/// The client for a provider.
pub open spec fn provider_client(provider: Provider, config: OAuthConfig) -> Result<
    ClientData,
    Seq<char>,
> {
    match provider {
        Provider::Google => google_client(config),
        Provider::GitHub => github_client(config),
    }
}

impl StateForgotten {
    /// Exchanges the code, with the verifier of the sign-in, whether or not the
    /// sign-in could be forgotten.
    pub fn resume(self, _forgotten: Result<(), DbError>) -> (step: CallbackStep)
        ensures
            match provider_client(self.provider, self.config) {
                Err(_) => answers(step, 500, "OAuth misconfigured"),
                Ok(wanted) => step matches CallbackStep::ExchangeCode {
                    client,
                    code,
                    pkce_verifier,
                    then,
                } && client@ == wanted && code == self.code && pkce_verifier == self.pkce_verifier
                    && then.base_url == self.config.base_url && then.provider == self.provider,
            },
    {
        let built = match self.provider {
            Provider::Google => build_google_client(&self.config),
            Provider::GitHub => build_github_client(&self.config),
        };
        match built {
            Err(_) => answer(500, "OAuth misconfigured"),
            Ok(client) => CallbackStep::ExchangeCode {
                client,
                code: self.code,
                pkce_verifier: self.pkce_verifier,
                then: CodeExchanged { base_url: self.config.base_url, provider: self.provider },
            },
        }
    }
}

/// Where Google tells about the user.
pub const GOOGLE_USER_URL: &'static str = "https://openidconnect.googleapis.com/v1/userinfo";

/// Where GitHub tells about the user.
pub const GITHUB_USER_URL: &'static str = "https://api.github.com/user";

/// Where GitHub tells the user's email addresses.
pub const GITHUB_EMAILS_URL: &'static str = "https://api.github.com/user/emails";

/// How this server names itself to GitHub, which asks for a name.
pub const USER_AGENT: &'static str = "musicboxd/0.1";

impl CodeExchanged {
    /// Asks the provider about the user, or refuses the callback where the code
    /// was not accepted.
    pub fn resume(self, access_token: Option<String>) -> (step: CallbackStep)
        ensures
            match access_token {
                None => answers(step, 400, "Token exchange failed"),
                Some(token) => match self.provider {
                    Provider::Google => step matches CallbackStep::FetchGoogleUser {
                        request,
                        then,
                    } && request.url@ == GOOGLE_USER_URL@ && request.access_token@ == token@
                        && request.user_agent is None && then.base_url == self.base_url,
                    Provider::GitHub => step matches CallbackStep::FetchGitHubUser {
                        request,
                        then,
                    } && request.url@ == GITHUB_USER_URL@ && request.access_token@ == token@ && (
                    request.user_agent matches Some(agent) && agent@ == USER_AGENT@)
                        && then.base_url == self.base_url && then.access_token@ == token@,
                },
            },
    {
        match access_token {
            None => answer(400, "Token exchange failed"),
            Some(token) => match self.provider {
                Provider::Google => CallbackStep::FetchGoogleUser {
                    request: UserRequest {
                        url: GOOGLE_USER_URL,
                        access_token: token,
                        user_agent: None,
                    },
                    then: GoogleUserFetched { base_url: self.base_url },
                },
                Provider::GitHub => CallbackStep::FetchGitHubUser {
                    request: UserRequest {
                        url: GITHUB_USER_URL,
                        access_token: token.clone(),
                        user_agent: Some(USER_AGENT),
                    },
                    then: GitHubUserFetched { base_url: self.base_url, access_token: token },
                },
            },
        }
    }
}

impl GoogleUserFetched {
    /// Signs in the Google account, whose email also suggests the username.
    pub fn resume(self, info: Fetched<GoogleUserInfo>) -> (step: CallbackStep)
        ensures
            match info {
                Fetched::Failed => answers(step, 500, "Failed to fetch user info"),
                Fetched::Unreadable => answers(step, 500, "Failed to parse user info"),
                Fetched::Read(user) => logs_in(
                    step,
                    self.base_url@,
                    "google"@,
                    user.sub@,
                    user.email@,
                    user.email@,
                ),
            },
    {
        match info {
            Fetched::Failed => answer(500, "Failed to fetch user info"),
            Fetched::Unreadable => answer(500, "Failed to parse user info"),
            Fetched::Read(user) => {
                let hint = user.email.clone();
                CallbackStep::Login(
                    complete_login(
                        Login {
                            base_url: self.base_url,
                            provider: "google".to_string(),
                            provider_uid: user.sub,
                            email: user.email,
                            username_hint: hint,
                        },
                    ),
                )
            },
        }
    }
}

/// Signs in a GitHub account, identified by its number and with its login as
/// the suggested username.
fn login_github(base_url: String, user: GitHubUser, email: String) -> (step: CallbackStep)
    ensures
        logs_in(
            step,
            base_url@,
            "github"@,
            signed_decimal(user.id as int),
            email@,
            user.login@,
        ),
{
    CallbackStep::Login(
        complete_login(
            Login {
                base_url,
                provider: "github".to_string(),
                provider_uid: to_signed_decimal(user.id),
                email,
                username_hint: user.login,
            },
        ),
    )
}

/// The email that a GitHub profile shows, if it shows one.
pub open spec fn shown_email(user: GitHubUser) -> Option<Seq<char>> {
    match user.email {
        Some(e) => if e@.len() == 0 {
            None
        } else {
            Some(e@)
        },
        None => None,
    }
}

impl GitHubUserFetched {
    /// Signs in the GitHub account where its profile shows an email, otherwise
    /// asks for the email addresses.
    pub fn resume(self, user: Fetched<GitHubUser>) -> (step: CallbackStep)
        ensures
            match user {
                Fetched::Failed => answers(step, 500, "Failed to fetch GitHub user"),
                Fetched::Unreadable => answers(step, 500, "Failed to parse GitHub user"),
                Fetched::Read(u) => match shown_email(u) {
                    Some(email) => logs_in(
                        step,
                        self.base_url@,
                        "github"@,
                        signed_decimal(u.id as int),
                        email,
                        u.login@,
                    ),
                    None => step matches CallbackStep::FetchGitHubEmails { request, then }
                        && request.url@ == GITHUB_EMAILS_URL@ && request.access_token@
                        == self.access_token@ && (request.user_agent matches Some(agent) && agent@
                        == USER_AGENT@) && then.base_url == self.base_url && then.user == u,
                },
            },
    {
        match user {
            Fetched::Failed => answer(500, "Failed to fetch GitHub user"),
            Fetched::Unreadable => answer(500, "Failed to parse GitHub user"),
            Fetched::Read(u) => {
                match &u.email {
                    Some(e) => {
                        if !e.as_str().is_empty() {
                            let email = e.clone();
                            return login_github(self.base_url, u, email);
                        }
                    },
                    None => {},
                }
                CallbackStep::FetchGitHubEmails {
                    request: UserRequest {
                        url: GITHUB_EMAILS_URL,
                        access_token: self.access_token,
                        user_agent: Some(USER_AGENT),
                    },
                    then: GitHubEmailsFetched { base_url: self.base_url, user: u },
                }
            },
        }
    }
}

/// The first address that is the primary one, if there is one.
pub open spec fn primary_email(emails: Seq<GitHubEmail>) -> Option<Seq<char>>
    decreases emails.len(),
{
    if emails.len() == 0 {
        None
    } else if emails[0].primary {
        Some(emails[0].email@)
    } else {
        primary_email(emails.drop_first())
    }
}

/// Finds the first address that is the primary one.
fn find_primary(emails: &Vec<GitHubEmail>) -> (email: Option<String>)
    ensures
        opt_text(email) == primary_email(emails@),
{
    let mut i: usize = 0;
    assert(emails@.skip(0) =~= emails@);
    while i < emails.len()
        invariant
            i <= emails@.len(),
            primary_email(emails@.skip(i as int)) == primary_email(emails@),
        decreases emails@.len() - i,
    {
        if emails[i].primary {
            return Some(emails[i].email.clone());
        }
        assert(emails@.skip(i as int).drop_first() =~= emails@.skip(i + 1));
        i = i + 1;
    }
    None
}

impl GitHubEmailsFetched {
    /// Signs in the GitHub account with its primary address. Where the addresses
    /// could not be fetched or read, or none is the primary one, the callback is
    /// refused.
    pub fn resume(self, fetched: Fetched<Vec<GitHubEmail>>) -> (step: CallbackStep)
        ensures
            match fetched {
                Fetched::Failed => answers(step, 400, "No public email on GitHub account"),
                Fetched::Unreadable => answers(step, 400, "No public email on GitHub account"),
                Fetched::Read(emails) => match primary_email(emails@) {
                    Some(email) => logs_in(
                        step,
                        self.base_url@,
                        "github"@,
                        signed_decimal(self.user.id as int),
                        email,
                        self.user.login@,
                    ),
                    None => answers(step, 400, "No public email on GitHub account"),
                },
            },
    {
        let primary = match fetched {
            Fetched::Read(emails) => find_primary(&emails),
            _ => None,
        };
        match primary {
            Some(email) => login_github(self.base_url, self.user, email),
            None => answer(400, "No public email on GitHub account"),
        }
    }
}

// ---------------------------------------------------------------------------
// Laws
// ---------------------------------------------------------------------------

/// An account that is linked to a user signs that user in: a session with a fresh
/// identifier is opened for the user, and the reply sets its cookie.
pub proof fn law_linked_account_signs_in(
    login: Login,
    user_id: String,
    fresh: String,
    id: &str,
    base_url: &str,
    now: u64,
    find: LoginStep,
    open: LoginStep,
    last: LoginStep,
    reply: HttpReply,
)
    requires
        id@ == fresh@,
        base_url@ == login.base_url@,
        call_ensures(complete_login, (login,), find),
        call_ensures(
            AccountLookup::resume_with,
            (find->FindAccount_then, Ok::<Option<String>, DbError>(Some(user_id)), fresh),
            open,
        ),
        call_ensures(
            SessionCreated::resume,
            (open->CreateSession_then, Ok::<(), DbError>(()), now),
            last,
        ),
        call_ensures(signed_in, (base_url, id, now), reply),
    ensures
        find is FindAccount,
        find->FindAccount_statement@.sql == FIND_ACCOUNT@,
        find->FindAccount_statement@.params == seq![
            SqlData::Text(login.provider@),
            SqlData::Text(login.provider_uid@),
        ],
        open is CreateSession,
        open->CreateSession_statement@.sql == INSERT_SESSION@,
        open->CreateSession_statement@.params == seq![
            SqlData::Text(fresh@),
            SqlData::Text(user_id@),
        ],
        last is Reply && last->Reply_0@ == reply@,
{
}

/// An account that is linked to no user gets one: a user is added with a name that
/// nobody has and the account's email, the account is linked to the user with that
/// email, and a session is opened for that user.
pub proof fn law_new_account_signs_in(
    login: Login,
    fresh: String,
    spare: &str,
    hint: &str,
    base: String,
    user_id: String,
    session_id: String,
    find: LoginStep,
    count: LoginStep,
    insert: LoginStep,
    lookup: LoginStep,
    link: LoginStep,
    open: LoginStep,
)
    requires
        hint@ == login.username_hint@,
        call_ensures(username_base, (hint,), base),
        call_ensures(upsert_user, (login,), find),
        call_ensures(
            AccountLookup::resume_with,
            (find->FindAccount_then, Ok::<Option<String>, DbError>(None), fresh),
            count,
        ),
        call_ensures(
            UsernameCounted::resume_with,
            (count->CountUsername_then, Ok::<i64, DbError>(0), spare),
            insert,
        ),
        call_ensures(UserInserted::resume, (insert->InsertUser_then, Ok::<(), DbError>(())), lookup),
        call_ensures(
            EmailLookup::resume,
            (lookup->FindByEmail_then, Ok::<String, DbError>(user_id)),
            link,
        ),
        call_ensures(
            AccountLinked::resume_with,
            (link->LinkAccount_then, Ok::<(), DbError>(()), session_id),
            open,
        ),
    ensures
        count is CountUsername,
        count->CountUsername_statement@.sql == COUNT_USERNAME@,
        count->CountUsername_statement@.params == seq![SqlData::Text(base@)],
        insert is InsertUser,
        insert->InsertUser_statement@.sql == INSERT_USER@,
        insert->InsertUser_statement@.params == seq![
            SqlData::Text(fresh@),
            SqlData::Text(base@),
            SqlData::Text(login.email@),
        ],
        lookup is FindByEmail,
        lookup->FindByEmail_statement@.sql == FIND_USER_BY_EMAIL@,
        lookup->FindByEmail_statement@.params == seq![SqlData::Text(login.email@)],
        link is LinkAccount,
        link->LinkAccount_statement@.sql == LINK_ACCOUNT@,
        link->LinkAccount_statement@.params == seq![
            SqlData::Text(user_id@),
            SqlData::Text(login.provider@),
            SqlData::Text(login.provider_uid@),
        ],
        open is CreateSession,
        open->CreateSession_statement@.sql == INSERT_SESSION@,
        open->CreateSession_statement@.params == seq![
            SqlData::Text(session_id@),
            SqlData::Text(user_id@),
        ],
        open->CreateSession_then.session_id@ == session_id@,
        open->CreateSession_then.base_url@ == login.base_url@,
{
}

/// A name that somebody has makes way for the next candidate, which is counted in
/// turn; behind the last the user is added with the spare text. The user's
/// identifier stays the same throughout.
pub proof fn law_taken_name_is_not_used(
    counted: UsernameCounted,
    n: i64,
    spare: &str,
    next: UsernameSearch,
    name: String,
    step: LoginStep,
)
    requires
        n != 0,
        counted.search.tried <= 99,
        next.base@ == counted.search.base@,
        next.tried == counted.search.tried + 1,
        call_ensures(UsernameSearch::candidate_name, (&next,), name),
        call_ensures(UsernameCounted::resume_with, (counted, Ok::<i64, DbError>(n), spare), step),
    ensures
        counted.search.tried < 99 ==> step is CountUsername && step->CountUsername_statement@.sql
            == COUNT_USERNAME@ && step->CountUsername_statement@.params == seq![
            SqlData::Text(name@),
        ] && step->CountUsername_then.user_id@ == counted.user_id@
            && step->CountUsername_then.login == counted.login
            && step->CountUsername_then.search.tried == counted.search.tried + 1,
        counted.search.tried == 99 ==> step is InsertUser && step->InsertUser_statement@.params
            == seq![
            SqlData::Text(counted.user_id@),
            SqlData::Text(counted.search.base@ + "_"@ + spare@),
            SqlData::Text(counted.login.email@),
        ],
{
}

/// A free name is used.
pub proof fn law_free_name_is_used(
    counted: UsernameCounted,
    spare: &str,
    name: String,
    step: LoginStep,
    same: LoginStep,
)
    requires
        call_ensures(UsernameSearch::candidate_name, (&counted.search,), name),
        call_ensures(UsernameCounted::resume_with, (counted, Ok::<i64, DbError>(0), spare), step),
        call_ensures(UsernameCounted::resume, (counted, Ok::<i64, DbError>(0)), same),
    ensures
        step is InsertUser && same is InsertUser,
        step->InsertUser_statement@.params == seq![
            SqlData::Text(counted.user_id@),
            SqlData::Text(name@),
            SqlData::Text(counted.login.email@),
        ],
        same->InsertUser_statement@ == step->InsertUser_statement@,
{
}

/// Sessions and users get fresh identifiers of 36 characters; the session that is
/// opened is the one whose cookie is set.
pub proof fn law_fresh_sessions(
    lookup: AccountLookup,
    linked: AccountLinked,
    user_id: String,
    found: LoginStep,
    none: LoginStep,
    open: LoginStep,
)
    requires
        call_ensures(
            AccountLookup::resume,
            (lookup, Ok::<Option<String>, DbError>(Some(user_id))),
            found,
        ),
        call_ensures(AccountLookup::resume, (lookup, Ok::<Option<String>, DbError>(None)), none),
        call_ensures(AccountLinked::resume, (linked, Ok::<(), DbError>(())), open),
    ensures
        found is CreateSession,
        found->CreateSession_then.session_id@.len() == 36,
        found->CreateSession_statement@.params == seq![
            SqlData::Text(found->CreateSession_then.session_id@),
            SqlData::Text(user_id@),
        ],
        found->CreateSession_then.base_url@ == lookup.login.base_url@,
        none is CountUsername && none->CountUsername_then.user_id@.len() == 36,
        none->CountUsername_then.login == lookup.login,
        none->CountUsername_then.search.tried == 0,
        open is CreateSession,
        open->CreateSession_then.session_id@.len() == 36,
        open->CreateSession_statement@.params == seq![
            SqlData::Text(open->CreateSession_then.session_id@),
            SqlData::Text(linked.user_id@),
        ],
        open->CreateSession_then.base_url@ == linked.login.base_url@,
{
}

/// Whatever the database fails at on the way to a session, the reply says that it
/// failed, and nothing more.
pub proof fn law_sign_in_failures(
    lookup: AccountLookup,
    counted: UsernameCounted,
    inserted: UserInserted,
    email: EmailLookup,
    linked: AccountLinked,
    created: SessionCreated,
    fresh: String,
    spare: &str,
    now: u64,
    e: DbError,
    steps: Seq<LoginStep>,
)
    requires
        steps.len() == 6,
        call_ensures(
            AccountLookup::resume_with,
            (lookup, Err::<Option<String>, DbError>(e), fresh),
            steps[0],
        ),
        call_ensures(
            UsernameCounted::resume_with,
            (counted, Err::<i64, DbError>(e), spare),
            steps[1],
        ),
        call_ensures(UserInserted::resume, (inserted, Err::<(), DbError>(e)), steps[2]),
        call_ensures(EmailLookup::resume, (email, Err::<String, DbError>(e)), steps[3]),
        call_ensures(
            AccountLinked::resume_with,
            (linked, Err::<(), DbError>(e), fresh),
            steps[4],
        ),
        call_ensures(SessionCreated::resume, (created, Err::<(), DbError>(e), now), steps[5]),
    ensures
        forall|i: int|
            0 <= i < 6 ==> (#[trigger] steps[i]) is Reply && steps[i]->Reply_0@
                == (HttpReplyData::Text { status: 500, body: "Database error"@ }),
{
}

/// A callback from Google looks for the sign-in with the state token that came
/// back, forgets it, exchanges the code that came back with the verifier that was
/// remembered, asks Google about the user with the token, and signs in Google's
/// account of that user, with the email as the hint for a name.
pub proof fn law_google_callback(
    config: OAuthConfig,
    params: CallbackParams,
    verifier: String,
    forgotten: Result<(), DbError>,
    token: String,
    user: GoogleUserInfo,
    client: ConfiguredClient,
    find: CallbackStep,
    forget: CallbackStep,
    exchange: CallbackStep,
    ask: CallbackStep,
    last: CallbackStep,
)
    requires
        call_ensures(build_google_client, (&config,), Ok::<ConfiguredClient, String>(client)),
        call_ensures(google_callback, (config, params), find),
        call_ensures(
            VerifierLookup::resume,
            (find->FindVerifier_then, Ok::<Option<String>, DbError>(Some(verifier))),
            forget,
        ),
        call_ensures(StateForgotten::resume, (forget->ForgetState_then, forgotten), exchange),
        call_ensures(CodeExchanged::resume, (exchange->ExchangeCode_then, Some(token)), ask),
        call_ensures(
            GoogleUserFetched::resume,
            (ask->FetchGoogleUser_then, Fetched::Read(user)),
            last,
        ),
    ensures
        find is FindVerifier,
        find->FindVerifier_statement@.sql == FIND_PKCE_VERIFIER@,
        find->FindVerifier_statement@.params == seq![SqlData::Text(params.state@)],
        forget is ForgetState,
        forget->ForgetState_statement@.sql == DELETE_OAUTH_STATE@,
        forget->ForgetState_statement@.params == seq![SqlData::Text(params.state@)],
        exchange is ExchangeCode,
        exchange->ExchangeCode_client@ == client@,
        exchange->ExchangeCode_code == params.code,
        exchange->ExchangeCode_pkce_verifier == Some(verifier),
        ask is FetchGoogleUser,
        ask->FetchGoogleUser_request.url@ == "https://openidconnect.googleapis.com/v1/userinfo"@,
        ask->FetchGoogleUser_request.access_token@ == token@,
        ask->FetchGoogleUser_request.user_agent is None,
        last is Login && last->Login_0 is FindAccount,
        last->Login_0->FindAccount_statement@.sql == FIND_ACCOUNT@,
        last->Login_0->FindAccount_statement@.params == seq![
            SqlData::Text("google"@),
            SqlData::Text(user.sub@),
        ],
        ({
            let login = last->Login_0->FindAccount_then.login;
            &&& login.base_url@ == config.base_url@
            &&& login.provider@ == "google"@
            &&& login.provider_uid@ == user.sub@
            &&& login.email@ == user.email@
            &&& login.username_hint@ == user.email@
        }),
{
}

/// A callback from GitHub likewise, without a verifier: where the profile shows an
/// email the account is signed in with it, otherwise its addresses are asked for
/// and the first primary one is used. The account is GitHub's number of the user,
/// and the hint for a name is the login there.
pub proof fn law_github_callback(
    config: OAuthConfig,
    params: CallbackParams,
    n: i64,
    forgotten: Result<(), DbError>,
    token: String,
    user: GitHubUser,
    uid: String,
    client: ConfiguredClient,
    count: CallbackStep,
    forget: CallbackStep,
    exchange: CallbackStep,
    ask: CallbackStep,
    told: CallbackStep,
)
    requires
        n != 0,
        call_ensures(build_github_client, (&config,), Ok::<ConfiguredClient, String>(client)),
        call_ensures(to_signed_decimal, (user.id,), uid),
        call_ensures(github_callback, (config, params), count),
        call_ensures(StatesCounted::resume, (count->CountStates_then, Ok::<i64, DbError>(n)), forget),
        call_ensures(StateForgotten::resume, (forget->ForgetState_then, forgotten), exchange),
        call_ensures(CodeExchanged::resume, (exchange->ExchangeCode_then, Some(token)), ask),
        call_ensures(
            GitHubUserFetched::resume,
            (ask->FetchGitHubUser_then, Fetched::Read(user)),
            told,
        ),
    ensures
        count is CountStates,
        count->CountStates_statement@.sql == COUNT_OAUTH_STATES@,
        count->CountStates_statement@.params == seq![SqlData::Text(params.state@)],
        forget is ForgetState,
        forget->ForgetState_statement@.sql == DELETE_OAUTH_STATE@,
        forget->ForgetState_statement@.params == seq![SqlData::Text(params.state@)],
        exchange is ExchangeCode,
        exchange->ExchangeCode_client@ == client@,
        exchange->ExchangeCode_code == params.code,
        exchange->ExchangeCode_pkce_verifier is None,
        ask is FetchGitHubUser,
        ask->FetchGitHubUser_request.url@ == "https://api.github.com/user"@,
        ask->FetchGitHubUser_request.access_token@ == token@,
        ask->FetchGitHubUser_request.user_agent is Some
            && ask->FetchGitHubUser_request.user_agent->0@ == "musicboxd/0.1"@,
        user.email is Some && user.email->0@.len() > 0 ==> {
            &&& told is Login && told->Login_0 is FindAccount
            &&& told->Login_0->FindAccount_statement@.sql == FIND_ACCOUNT@
            &&& told->Login_0->FindAccount_statement@.params == seq![
                SqlData::Text("github"@),
                SqlData::Text(uid@),
            ]
            &&& ({
                let login = told->Login_0->FindAccount_then.login;
                login.base_url@ == config.base_url@ && login.provider@ == "github"@
                    && login.provider_uid@ == uid@ && login.email@ == user.email->0@
                    && login.username_hint@ == user.login@
            })
        },
        user.email is None || user.email->0@.len() == 0 ==> {
            &&& told is FetchGitHubEmails
            &&& told->FetchGitHubEmails_request.url@ == "https://api.github.com/user/emails"@
            &&& told->FetchGitHubEmails_request.access_token@ == token@
            &&& told->FetchGitHubEmails_request.user_agent is Some
                && told->FetchGitHubEmails_request.user_agent->0@ == "musicboxd/0.1"@
            &&& told->FetchGitHubEmails_then.user == user
            &&& told->FetchGitHubEmails_then.base_url@ == config.base_url@
        },
{
}

/// The first primary address is the one behind which no other primary one comes
/// first.
proof fn lemma_primary_email(emails: Seq<GitHubEmail>)
    ensures
        match primary_email(emails) {
            Some(email) => exists|i: int|
                0 <= i < emails.len() && (#[trigger] emails[i]).primary && emails[i].email@ == email
                    && (forall|j: int| 0 <= j < i ==> !(#[trigger] emails[j]).primary),
            None => forall|i: int| 0 <= i < emails.len() ==> !(#[trigger] emails[i]).primary,
        },
    decreases emails.len(),
{
    if emails.len() > 0 && !emails[0].primary {
        let rest = emails.drop_first();
        lemma_primary_email(rest);
        match primary_email(rest) {
            Some(email) => {
                let i = choose|i: int|
                    0 <= i < rest.len() && (#[trigger] rest[i]).primary && rest[i].email@ == email
                        && (forall|j: int| 0 <= j < i ==> !(#[trigger] rest[j]).primary);
                assert(emails[i + 1] == rest[i]);
                assert forall|j: int| 0 <= j < i + 1 implies !(#[trigger] emails[j]).primary by {
                    if j > 0 {
                        assert(emails[j] == rest[j - 1]);
                    }
                }
            },
            None => {
                assert forall|i: int| 0 <= i < emails.len() implies !(
                #[trigger] emails[i]).primary by {
                    if i > 0 {
                        assert(emails[i] == rest[i - 1]);
                    }
                }
            },
        }
    }
}

/// Of a GitHub user's addresses the first primary one is used; where there is none,
/// and where they could not be had, the callback is refused.
pub proof fn law_primary_address_is_used(
    fetched: GitHubEmailsFetched,
    emails: Vec<GitHubEmail>,
    i: int,
    uid: String,
    read: CallbackStep,
    failed: CallbackStep,
    unreadable: CallbackStep,
)
    requires
        call_ensures(to_signed_decimal, (fetched.user.id,), uid),
        call_ensures(GitHubEmailsFetched::resume, (fetched, Fetched::Read(emails)), read),
        call_ensures(
            GitHubEmailsFetched::resume,
            (fetched, Fetched::<Vec<GitHubEmail>>::Failed),
            failed,
        ),
        call_ensures(
            GitHubEmailsFetched::resume,
            (fetched, Fetched::<Vec<GitHubEmail>>::Unreadable),
            unreadable,
        ),
    ensures
        0 <= i < emails@.len() && emails@[i].primary && (forall|j: int|
            0 <= j < i ==> !(#[trigger] emails@[j]).primary) ==> {
            &&& read is Login && read->Login_0 is FindAccount
            &&& read->Login_0->FindAccount_statement@.params == seq![
                SqlData::Text("github"@),
                SqlData::Text(uid@),
            ]
            &&& ({
                let login = read->Login_0->FindAccount_then.login;
                login.base_url@ == fetched.base_url@ && login.provider@ == "github"@
                    && login.provider_uid@ == uid@ && login.email@ == emails@[i].email@
                    && login.username_hint@ == fetched.user.login@
            })
        },
        (forall|j: int| 0 <= j < emails@.len() ==> !(#[trigger] emails@[j]).primary) ==> read is Reply
            && read->Reply_0@ == (HttpReplyData::Text {
            status: 400,
            body: "No public email on GitHub account"@,
        }),
        failed is Reply && failed->Reply_0@ == (HttpReplyData::Text {
            status: 400,
            body: "No public email on GitHub account"@,
        }),
        unreadable is Reply && unreadable->Reply_0@ == failed->Reply_0@,
{
    lemma_primary_email(emails@);
    if 0 <= i < emails@.len() && emails@[i].primary && (forall|j: int|
        0 <= j < i ==> !(#[trigger] emails@[j]).primary) {
        assert(primary_email(emails@) is Some);
        let k = choose|k: int|
            0 <= k < emails@.len() && (#[trigger] emails@[k]).primary && emails@[k].email@
                == primary_email(emails@)->0 && (forall|j: int|
                0 <= j < k ==> !(#[trigger] emails@[j]).primary);
        assert(k == i);
    }
}

/// A callback without a sign-in that was started is refused, and so is one whose
/// code is not accepted, or whose user the provider does not tell.
pub proof fn law_refused_callbacks(
    lookup: VerifierLookup,
    counted: StatesCounted,
    forgotten: StateForgotten,
    exchanged: CodeExchanged,
    google: GoogleUserFetched,
    github: GitHubUserFetched,
    e: DbError,
    why: String,
    done: Result<(), DbError>,
    states: Seq<CallbackStep>,
    misconfigured: CallbackStep,
    refused: CallbackStep,
    users: Seq<CallbackStep>,
)
    requires
        states.len() == 4,
        call_ensures(VerifierLookup::resume, (lookup, Ok::<Option<String>, DbError>(None)), states[0]),
        call_ensures(VerifierLookup::resume, (lookup, Err::<Option<String>, DbError>(e)), states[1]),
        call_ensures(StatesCounted::resume, (counted, Ok::<i64, DbError>(0)), states[2]),
        call_ensures(StatesCounted::resume, (counted, Err::<i64, DbError>(e)), states[3]),
        forgotten.provider is Google ==> call_ensures(
            build_google_client,
            (&forgotten.config,),
            Err::<ConfiguredClient, String>(why),
        ),
        forgotten.provider is GitHub ==> call_ensures(
            build_github_client,
            (&forgotten.config,),
            Err::<ConfiguredClient, String>(why),
        ),
        call_ensures(StateForgotten::resume, (forgotten, done), misconfigured),
        call_ensures(CodeExchanged::resume, (exchanged, None::<String>), refused),
        users.len() == 4,
        call_ensures(
            GoogleUserFetched::resume,
            (google, Fetched::<GoogleUserInfo>::Failed),
            users[0],
        ),
        call_ensures(
            GoogleUserFetched::resume,
            (google, Fetched::<GoogleUserInfo>::Unreadable),
            users[1],
        ),
        call_ensures(GitHubUserFetched::resume, (github, Fetched::<GitHubUser>::Failed), users[2]),
        call_ensures(
            GitHubUserFetched::resume,
            (github, Fetched::<GitHubUser>::Unreadable),
            users[3],
        ),
    ensures
        forall|i: int|
            0 <= i < 4 ==> (#[trigger] states[i]) is Reply && states[i]->Reply_0@
                == (HttpReplyData::Text { status: 400, body: "Invalid or expired state"@ }),
        misconfigured is Reply && misconfigured->Reply_0@ == (HttpReplyData::Text {
            status: 500,
            body: "OAuth misconfigured"@,
        }),
        refused is Reply && refused->Reply_0@ == (HttpReplyData::Text {
            status: 400,
            body: "Token exchange failed"@,
        }),
        users[0] is Reply && users[0]->Reply_0@ == (HttpReplyData::Text {
            status: 500,
            body: "Failed to fetch user info"@,
        }),
        users[1] is Reply && users[1]->Reply_0@ == (HttpReplyData::Text {
            status: 500,
            body: "Failed to parse user info"@,
        }),
        users[2] is Reply && users[2]->Reply_0@ == (HttpReplyData::Text {
            status: 500,
            body: "Failed to fetch GitHub user"@,
        }),
        users[3] is Reply && users[3]->Reply_0@ == (HttpReplyData::Text {
            status: 500,
            body: "Failed to parse GitHub user"@,
        }),
{
}

/// With fresh identifiers a taken name makes way just the same, and a failing
/// database is told just the same.
pub proof fn law_fresh_names_and_failures(
    lookup: AccountLookup,
    counted: UsernameCounted,
    linked: AccountLinked,
    n: i64,
    e: DbError,
    next: UsernameSearch,
    name: String,
    step: LoginStep,
    failed: Seq<LoginStep>,
)
    requires
        n != 0,
        counted.search.tried <= 99,
        next.base@ == counted.search.base@,
        next.tried == counted.search.tried + 1,
        call_ensures(UsernameSearch::candidate_name, (&next,), name),
        call_ensures(UsernameCounted::resume, (counted, Ok::<i64, DbError>(n)), step),
        failed.len() == 3,
        call_ensures(AccountLookup::resume, (lookup, Err::<Option<String>, DbError>(e)), failed[0]),
        call_ensures(UsernameCounted::resume, (counted, Err::<i64, DbError>(e)), failed[1]),
        call_ensures(AccountLinked::resume, (linked, Err::<(), DbError>(e)), failed[2]),
    ensures
        counted.search.tried < 99 ==> step is CountUsername && step->CountUsername_statement@.params
            == seq![SqlData::Text(name@)] && step->CountUsername_then.user_id@ == counted.user_id@
            && step->CountUsername_then.login == counted.login,
        counted.search.tried == 99 ==> step is InsertUser
            && step->InsertUser_statement@.params.len() == 3
            && step->InsertUser_statement@.params[0] == SqlData::Text(counted.user_id@)
            && step->InsertUser_statement@.params[1] is Text
            && step->InsertUser_statement@.params[1]->Text_0.take(
            counted.search.base@.len() as int,
        ) == counted.search.base@ && step->InsertUser_statement@.params[1]->Text_0.len()
            == counted.search.base@.len() + 33 && step->InsertUser_statement@.params[2]
            == SqlData::Text(counted.login.email@),
        forall|i: int|
            0 <= i < 3 ==> (#[trigger] failed[i]) is Reply && failed[i]->Reply_0@
                == (HttpReplyData::Text { status: 500, body: "Database error"@ }),
{
    reveal_strlit("_");
    if counted.search.tried == 99 {
        let spare = choose|spare: Seq<char>| #[trigger]
            crate::ids::simple_uuid_text(spare) && inserts_user(
                step,
                counted.login,
                counted.user_id@,
                spare_name(counted.search.base@, spare),
            );
        let full = spare_name(counted.search.base@, spare);
        assert(full.take(counted.search.base@.len() as int) =~= counted.search.base@);
    }
}

} // verus!
