//! The Spotify client: its credentials, its access token, and what it makes of
//! Spotify's answers.

use crate::headers::{header_text, read_header};
use crate::text::{
    after_plus, begins_with, chars_of, concat, concat3, decimal, digits_value, is_digit,
    law_decimal_round_trip, opt_text, parse_unsigned, parsed_unsigned, to_decimal,
};
use axum::http::HeaderMap;
use vstd::prelude::*;

verus! {

// ---------------------------------------------------------------------------
// Errors
// ---------------------------------------------------------------------------

/// Why a request for albums could not be answered.
#[derive(Debug, Clone, Copy, PartialEq, Eq, Structural)]
pub enum SpotifyError {
    /// The server has no Spotify credentials.
    NotConfigured,
    /// Spotify could not be reached.
    Transport,
    /// Spotify asks for fewer requests.
    RateLimited { retry_after_secs: u64 },
    /// Spotify refused the request.
    Http { status: u16 },
    /// Spotify's answer could not be read.
    BadBody,
    /// The database failed.
    Database,
    /// A stored list of identifiers could not be read.
    CacheCorrupt,
    /// The tracks of an album are stored, but not the album.
    MissingAlbumRow,
}

/// What a user is told of an error. Only that the server lacks credentials is
/// told; the rest stays in the log.
pub open spec fn error_message(e: SpotifyError) -> Seq<char> {
    match e {
        SpotifyError::NotConfigured => "Spotify is not configured on this server"@,
        _ => "internal server error"@,
    }
}

/// What the log says of an error.
pub open spec fn error_description(e: SpotifyError) -> Seq<char> {
    match e {
        SpotifyError::NotConfigured => "no Spotify credentials"@,
        SpotifyError::Transport => "request error"@,
        SpotifyError::RateLimited { retry_after_secs } => "rate limited, retry after "@ + decimal(
            retry_after_secs as nat,
        ) + "s"@,
        SpotifyError::Http { status } => "HTTP "@ + decimal(status as nat),
        SpotifyError::BadBody => "response parse error"@,
        SpotifyError::Database => "DB error"@,
        SpotifyError::CacheCorrupt => "search cache parse error"@,
        SpotifyError::MissingAlbumRow => "album row missing despite cached tracks"@,
    }
}

impl SpotifyError {
    /// What a user is told of the error.
    pub fn message(&self) -> (text: String)
        ensures
            text@ == error_message(*self),
    {
        match self {
            SpotifyError::NotConfigured => "Spotify is not configured on this server".to_string(),
            _ => "internal server error".to_string(),
        }
    }

    /// What the log says of the error.
    pub fn description(&self) -> (text: String)
        ensures
            text@ == error_description(*self),
    {
        match self {
            SpotifyError::NotConfigured => "no Spotify credentials".to_string(),
            SpotifyError::Transport => "request error".to_string(),
            SpotifyError::RateLimited { retry_after_secs } => concat3(
                "rate limited, retry after ",
                to_decimal(*retry_after_secs).as_str(),
                "s",
            ),
            SpotifyError::Http { status } => concat("HTTP ", to_decimal(*status as u64).as_str()),
            SpotifyError::BadBody => "response parse error".to_string(),
            SpotifyError::Database => "DB error".to_string(),
            SpotifyError::CacheCorrupt => "search cache parse error".to_string(),
            SpotifyError::MissingAlbumRow => "album row missing despite cached tracks".to_string(),
        }
    }
}

// ---------------------------------------------------------------------------
// Requests and answers
// ---------------------------------------------------------------------------

/// A request to the Spotify API, sent with an access token.
pub struct ApiRequest {
    pub url: String,
    pub query: Vec<(&'static str, String)>,
    pub access_token: String,
}

/// The contents of a request.
pub struct ApiRequestData {
    pub url: Seq<char>,
    pub query: Seq<(Seq<char>, Seq<char>)>,
    pub access_token: Seq<char>,
}

impl View for ApiRequest {
    type V = ApiRequestData;

    open spec fn view(&self) -> ApiRequestData {
        ApiRequestData {
            url: self.url@,
            query: self.query@.map_values(|p: (&'static str, String)| (p.0@, p.1@)),
            access_token: self.access_token@,
        }
    }
}

/// What came of a request.
pub enum ApiReply<T> {
    /// No answer came.
    Failed,
    /// An answer came; `body` is `None` where it could not be read.
    Received { status: u16, headers: HeaderMap, body: Option<T> },
}

/// How long to wait where Spotify does not say, in seconds.
pub const DEFAULT_RETRY_SECS: u64 = 5;

/// The number of seconds that the text of a `Retry-After` header asks to wait; a
/// default where the header is absent or no number.
pub open spec fn secs_in(header: Option<Seq<char>>) -> u64 {
    match header {
        Some(text) => match parsed_unsigned(text, u64::MAX as nat) {
            Some(secs) => secs as u64,
            None => DEFAULT_RETRY_SECS,
        },
        None => DEFAULT_RETRY_SECS,
    }
}

/// Reads the text of a `Retry-After` header as a number of seconds.
pub fn read_secs(header: &Option<String>) -> (secs: u64)
    ensures
        secs == secs_in(opt_text(*header)),
{
    match header {
        Some(text) => {
            let chars = chars_of(text.as_str());
            assert(chars@.subrange(0, chars@.len() as int) =~= text@);
            match parse_unsigned(&chars, 0, chars.len(), u64::MAX) {
                Some(secs) => secs,
                None => DEFAULT_RETRY_SECS,
            }
        },
        None => DEFAULT_RETRY_SECS,
    }
}

/// The number of seconds that an answer asks to wait.
pub open spec fn retry_after(headers: HeaderMap) -> u64 {
    secs_in(header_text(headers, "retry-after"@))
}

/// Reads the `Retry-After` header of an answer as a number of seconds.
pub fn retry_after_secs(headers: &HeaderMap) -> (secs: u64)
    ensures
        secs == retry_after(*headers),
{
    proof {
        reveal_strlit("retry-after");
    }
    read_secs(&read_header(headers, "retry-after"))
}

/// What an answer yields: its body where the request succeeded, which is to say
/// that the status is from 200 to 299.
pub open spec fn reply_outcome<T>(reply: ApiReply<T>) -> Result<T, SpotifyError> {
    match reply {
        ApiReply::Failed => Err(SpotifyError::Transport),
        ApiReply::Received { status, headers, body } => if status == 429 {
            Err(SpotifyError::RateLimited { retry_after_secs: retry_after(headers) })
        } else if status < 200 || status > 299 {
            Err(SpotifyError::Http { status })
        } else {
            match body {
                Some(b) => Ok(b),
                None => Err(SpotifyError::BadBody),
            }
        },
    }
}

/// Reads an answer.
pub fn read_reply<T>(reply: ApiReply<T>) -> (out: Result<T, SpotifyError>)
    ensures
        out == reply_outcome(reply),
{
    match reply {
        ApiReply::Failed => Err(SpotifyError::Transport),
        ApiReply::Received { status, headers, body } => if status == 429 {
            Err(SpotifyError::RateLimited { retry_after_secs: retry_after_secs(&headers) })
        } else if status < 200 || status > 299 {
            Err(SpotifyError::Http { status })
        } else {
            match body {
                Some(b) => Ok(b),
                None => Err(SpotifyError::BadBody),
            }
        },
    }
}

/// Where the API tells about albums; the identifier of one follows.
pub const ALBUMS_URL: &'static str = "https://api.spotify.com/v1/albums/";

/// The request for one album.
pub open spec fn album_request_data(
    spotify_id: Seq<char>,
    access_token: Seq<char>,
) -> ApiRequestData {
    ApiRequestData { url: ALBUMS_URL@ + spotify_id, query: Seq::empty(), access_token }
}

/// Builds the request for one album.
pub fn album_request(spotify_id: &str, access_token: String) -> (request: ApiRequest)
    ensures
        request@ == album_request_data(spotify_id@, access_token@),
{
    let query: Vec<(&'static str, String)> = Vec::new();
    let request = ApiRequest { url: concat(ALBUMS_URL, spotify_id), query, access_token };
    assert(request@.query =~= Seq::<(Seq<char>, Seq<char>)>::empty());
    request
}

/// Work that goes on in the background after an answer.
pub enum BackgroundJob {
    /// Fetch an album's metadata anew.
    Refresh { spotify_id: String },
    /// Fetch an album's cover art and store it.
    StoreCoverArt { spotify_id: String, url: String },
}

/// The contents of a background job.
pub enum JobData {
    Refresh { spotify_id: Seq<char> },
    StoreCoverArt { spotify_id: Seq<char>, url: Seq<char> },
}

impl View for BackgroundJob {
    type V = JobData;

    open spec fn view(&self) -> JobData {
        match self {
            BackgroundJob::Refresh { spotify_id } => JobData::Refresh { spotify_id: spotify_id@ },
            BackgroundJob::StoreCoverArt { spotify_id, url } => JobData::StoreCoverArt {
                spotify_id: spotify_id@,
                url: url@,
            },
        }
    }
}

/// The contents of a list of background jobs.
pub open spec fn jobs_data(jobs: Seq<BackgroundJob>) -> Seq<JobData> {
    jobs.map_values(|j: BackgroundJob| j@)
}

// ---------------------------------------------------------------------------
// The client
// ---------------------------------------------------------------------------

/// The credentials of this server at Spotify.
pub struct Credentials {
    pub client_id: String,
    pub client_secret: String,
}

/// An access token and when it expires, in nanoseconds on the clock that `now`
/// is read from.
pub struct CachedToken {
    pub token: String,
    pub expires_at: u128,
}

/// Client for the Spotify Web API: the credentials, and the access token that
/// was fetched last.
pub struct SpotifyClient {
    pub credentials: Option<Credentials>,
    pub token_cache: Option<CachedToken>,
}

/// The answer of the token endpoint.
pub struct TokenResponse {
    pub access_token: String,
    /// The lifetime of the token in seconds.
    pub expires_in: u64,
}

/// Where access tokens come from.
pub const TOKEN_URL: &'static str = "https://accounts.spotify.com/api/token";

/// A request for an access token: a form posted with the credentials as user
/// name and password.
pub struct TokenRequest {
    pub url: &'static str,
    pub client_id: String,
    pub client_secret: String,
    pub form: (&'static str, &'static str),
}

/// How to come by an access token.
pub enum TokenStep {
    /// The token at hand is good.
    Ready(String),
    /// Fetch one, then call `accept_token`.
    Fetch(TokenRequest),
    /// There is none to be had.
    Fail(SpotifyError),
}

/// A second in nanoseconds.
pub const SECOND: u128 = 1_000_000_000;

/// The least lifetime that a token must have left to be used, in nanoseconds:
/// it must not expire between retrieval and use.
pub const TOKEN_BUFFER: u128 = 60_000_000_000;

impl CachedToken {
    /// Whether the token may be used at `now`: it has at least a minute left.
    pub open spec fn usable(self, now: u64) -> bool {
        now + TOKEN_BUFFER <= self.expires_at
    }
}

/// The outcome of reading two environment variables with credentials.
pub open spec fn env_credentials(
    client_id: Option<Seq<char>>,
    client_secret: Option<Seq<char>>,
) -> Result<(Seq<char>, Seq<char>), Seq<char>> {
    match (client_id, client_secret) {
        (None, _) => Err("SPOTIFY_CLIENT_ID not set"@),
        (_, None) => Err("SPOTIFY_CLIENT_SECRET not set"@),
        (Some(id), Some(secret)) => Ok((id, secret)),
    }
}

impl SpotifyClient {
    /// Whether the client holds exactly these credentials, and no token.
    pub open spec fn holds(self, client_id: Seq<char>, client_secret: Seq<char>) -> bool {
        &&& self.credentials matches Some(c)
        &&& c.client_id@ == client_id
        &&& c.client_secret@ == client_secret
        &&& self.token_cache is None
    }

    /// A client with empty credentials, which can answer from the database
    /// alone: Spotify refuses it a token.
    pub fn new_test() -> (client: SpotifyClient)
        ensures
            client.holds(Seq::empty(), Seq::empty()),
    {
        let client_id = String::new();
        let client_secret = String::new();
        assert(client_id@ =~= Seq::<char>::empty());
        assert(client_secret@ =~= Seq::<char>::empty());
        SpotifyClient {
            credentials: Some(Credentials { client_id, client_secret }),
            token_cache: None,
        }
    }

    /// A client for a server without credentials. Whatever is asked of it fails
    /// with [`SpotifyError::NotConfigured`], so that the server starts and says
    /// what is missing.
    pub fn unconfigured() -> (client: SpotifyClient)
        ensures
            client.credentials is None,
            client.token_cache is None,
    {
        SpotifyClient { credentials: None, token_cache: None }
    }

    /// A client with the credentials in the environment variables
    /// `SPOTIFY_CLIENT_ID` and `SPOTIFY_CLIENT_SECRET`, which are handed in
    /// where they are set.
    pub fn from_env(client_id: Option<String>, client_secret: Option<String>) -> (client: Result<
        SpotifyClient,
        String,
    >)
        ensures
            match env_credentials(opt_text(client_id), opt_text(client_secret)) {
                Ok(pair) => client is Ok && client->Ok_0.holds(pair.0, pair.1),
                Err(message) => client is Err && client->Err_0@ == message,
            },
    {
        match (client_id, client_secret) {
            (None, _) => Err("SPOTIFY_CLIENT_ID not set".to_string()),
            (_, None) => Err("SPOTIFY_CLIENT_SECRET not set".to_string()),
            (Some(client_id), Some(client_secret)) => Ok(
                SpotifyClient {
                    credentials: Some(Credentials { client_id, client_secret }),
                    token_cache: None,
                },
            ),
        }
    }

    /// A valid access token: the one at hand, unless it has less than a minute
    /// of lifetime left, in which case a new one is to be fetched.
    pub fn token(&self, now: u64) -> (step: TokenStep)
        ensures
            match self.credentials {
                None => step == TokenStep::Fail(SpotifyError::NotConfigured),
                Some(c) => if self.token_cache is Some && self.token_cache->0.usable(now) {
                    step matches TokenStep::Ready(token) && token@ == self.token_cache->0.token@
                } else {
                    step matches TokenStep::Fetch(request) && request.url@ == TOKEN_URL@
                        && request.client_id@ == c.client_id@ && request.client_secret@
                        == c.client_secret@ && request.form.0@ == "grant_type"@ && request.form.1@
                        == "client_credentials"@
                },
            },
    {
        match &self.credentials {
            None => TokenStep::Fail(SpotifyError::NotConfigured),
            Some(c) => {
                match &self.token_cache {
                    Some(cached) => {
                        if now as u128 + TOKEN_BUFFER <= cached.expires_at {
                            return TokenStep::Ready(cached.token.clone());
                        }
                    },
                    None => {},
                }
                TokenStep::Fetch(
                    TokenRequest {
                        url: TOKEN_URL,
                        client_id: c.client_id.clone(),
                        client_secret: c.client_secret.clone(),
                        form: ("grant_type", "client_credentials"),
                    },
                )
            },
        }
    }

    /// Takes the answer of the token endpoint, which came at `now`. A token is
    /// kept for later; after a failure the client is as it was.
    pub fn accept_token(&mut self, reply: ApiReply<TokenResponse>, now: u64) -> (token: Result<
        String,
        SpotifyError,
    >)
        ensures
            final(self).credentials == old(self).credentials,
            match reply_outcome(reply) {
                Ok(body) => token is Ok && token->Ok_0@ == body.access_token@ && (
                final(self).token_cache matches Some(cached) && cached.token@
                    == body.access_token@ && cached.expires_at == now + body.expires_in * SECOND),
                Err(e) => token == Err::<String, SpotifyError>(e) && final(self).token_cache
                    == old(self).token_cache,
            },
    {
        match read_reply(reply) {
            Ok(body) => {
                assert(body.expires_in * SECOND <= 0xffff_ffff_ffff_ffff * 1_000_000_000)
                    by (nonlinear_arith)
                    requires
                        body.expires_in <= 0xffff_ffff_ffff_ffff,
                        SECOND == 1_000_000_000,
                ;
                let expires_at: u128 = now as u128 + body.expires_in as u128 * SECOND;
                self.token_cache = Some(CachedToken { token: body.access_token.clone(), expires_at });
                Ok(body.access_token)
            },
            Err(e) => Err(e),
        }
    }
}

/// A token that was accepted is used again as long as it has a minute of
/// lifetime left, and no longer.
pub proof fn law_token_reused_until_last_minute(
    cached: CachedToken,
    fetched: u64,
    expires_in: u64,
    now: u64,
)
    requires
        cached.expires_at == fetched + expires_in * SECOND,
    ensures
        cached.usable(now) <==> (fetched + expires_in * SECOND) - now >= 60 * SECOND,
{
}

/// Only a request that succeeded yields a body.
pub proof fn law_body_only_on_success<T>(reply: ApiReply<T>)
    requires
        reply_outcome(reply) is Ok,
    ensures
        reply matches ApiReply::Received { status, headers: _, body } && 200 <= status <= 299
            && body == Some(reply_outcome(reply)->Ok_0),
{
}

/// An answer yields its body only with a status from 200 to 299; 429 asks to wait,
/// any other status is told, and so is that no answer came or that it could not be
/// read.
pub proof fn law_reading_answers<T>(
    status: u16,
    headers: HeaderMap,
    body: T,
    secs: u64,
    none: Result<T, SpotifyError>,
    read: Result<T, SpotifyError>,
    unreadable: Result<T, SpotifyError>,
)
    requires
        call_ensures(read_reply::<T>, (ApiReply::Failed,), none),
        call_ensures(
            read_reply::<T>,
            (ApiReply::Received { status, headers, body: Some(body) },),
            read,
        ),
        call_ensures(
            read_reply::<T>,
            (ApiReply::Received { status, headers, body: None },),
            unreadable,
        ),
        call_ensures(retry_after_secs, (&headers,), secs),
    ensures
        none == Err::<T, SpotifyError>(SpotifyError::Transport),
        200 <= status <= 299 ==> read == Ok::<T, SpotifyError>(body) && unreadable == Err::<
            T,
            SpotifyError,
        >(SpotifyError::BadBody),
        status == 429 ==> read == Err::<T, SpotifyError>(
            SpotifyError::RateLimited { retry_after_secs: secs },
        ) && unreadable == read,
        status != 429 && (status < 200 || status > 299) ==> read == Err::<T, SpotifyError>(
            SpotifyError::Http { status },
        ) && unreadable == read,
{
}

/// The number of seconds to wait is the one that the header says in digits; five
/// where there is no header or it says something else.
pub proof fn law_seconds_to_wait(header: Option<String>, secs: u64)
    requires
        call_ensures(read_secs, (&header,), secs),
    ensures
        header is None ==> secs == 5,
        header matches Some(text) ==> {
            &&& text@.len() > 0 && (forall|i: int|
                0 <= i < text@.len() ==> '0' <= #[trigger] text@[i] <= '9') && digits_value(text@)
                <= u64::MAX ==> secs == digits_value(text@)
            &&& text@.len() > 1 && text@[0] == '+' && (forall|i: int|
                1 <= i < text@.len() ==> '0' <= #[trigger] text@[i] <= '9') && digits_value(
                text@.drop_first(),
            ) <= u64::MAX ==> secs == digits_value(text@.drop_first())
            &&& text@.len() == 0 || (text@.len() == 1 && text@[0] == '+') ==> secs == 5
            &&& text@.len() > 0 && text@[0] == '+' && digits_value(text@.drop_first()) > u64::MAX
                ==> secs == 5
            &&& text@.len() > 0 && text@[0] != '+' && digits_value(text@) > u64::MAX ==> secs == 5
            &&& (exists|i: int| 1 <= i < text@.len() && !('0' <= #[trigger] text@[i] <= '9'))
                ==> secs == 5
            &&& text@.len() > 0 && text@[0] != '+' && !('0' <= text@[0] <= '9') ==> secs == 5
        },
{
    if let Some(text) = header {
        let s = text@;
        if s.len() > 0 && (forall|i: int| 0 <= i < s.len() ==> '0' <= #[trigger] s[i] <= '9') {
            assert('0' <= s[0] <= '9');
            assert(after_plus(s) == s);
            assert forall|i: int| 0 <= i < s.len() implies is_digit(#[trigger] s[i]) by {
                assert('0' <= s[i] <= '9');
            }
        }
        if s.len() > 1 && s[0] == '+' && (forall|i: int|
            1 <= i < s.len() ==> '0' <= #[trigger] s[i] <= '9') {
            let digits = s.drop_first();
            assert(after_plus(s) == digits);
            assert forall|i: int| 0 <= i < digits.len() implies is_digit(#[trigger] digits[i]) by {
                assert('0' <= s[i + 1] <= '9');
            }
        }
        if exists|i: int| 1 <= i < s.len() && !('0' <= #[trigger] s[i] <= '9') {
            let i = choose|i: int| 1 <= i < s.len() && !('0' <= #[trigger] s[i] <= '9');
            let digits = after_plus(s);
            if s[0] == '+' {
                assert(digits[i - 1] == s[i]);
                assert(!is_digit(digits[i - 1]));
            } else {
                assert(!is_digit(digits[i]));
            }
        }
        if s.len() > 0 && s[0] != '+' && !('0' <= s[0] <= '9') {
            assert(!is_digit(after_plus(s)[0]));
        }
    }
}

/// The header that says how long to wait is `Retry-After`.
pub proof fn law_wait_is_in_the_header(headers: HeaderMap, text: Option<String>, secs: u64, same: u64)
    requires
        call_ensures(read_header, (&headers, "retry-after"), text),
        call_ensures(read_secs, (&text,), secs),
        call_ensures(retry_after_secs, (&headers,), same),
    ensures
        same == secs,
{
}

/// One album is asked for by its identifier, with the access token.
pub proof fn law_album_request(spotify_id: &str, access_token: String, request: ApiRequest)
    requires
        call_ensures(album_request, (spotify_id, access_token), request),
    ensures
        request.url@ == "https://api.spotify.com/v1/albums/"@ + spotify_id@,
        request.query@.len() == 0,
        request.access_token@ == access_token@,
{
    assert(request@.query.len() == request.query@.len());
}

/// The contents of requests and jobs are their own.
pub proof fn law_request_contents(request: ApiRequest, jobs: Seq<BackgroundJob>)
    ensures
        request@.url == request.url@,
        request@.access_token == request.access_token@,
        request@.query.len() == request.query@.len(),
        forall|i: int|
            0 <= i < request.query@.len() ==> #[trigger] request@.query[i] == (
                request.query@[i].0@,
                request.query@[i].1@,
            ),
        jobs_data(jobs).len() == jobs.len(),
        forall|i: int|
            0 <= i < jobs.len() ==> #[trigger] jobs_data(jobs)[i] == match jobs[i] {
                BackgroundJob::Refresh { spotify_id } => JobData::Refresh { spotify_id: spotify_id@ },
                BackgroundJob::StoreCoverArt { spotify_id, url } => JobData::StoreCoverArt {
                    spotify_id: spotify_id@,
                    url: url@,
                },
            },
{
}

/// Users are told that the server lacks credentials, and of every other failure
/// only that there was one: no two of them can be told apart.
pub proof fn law_failures_look_alike(a: SpotifyError, b: SpotifyError, of_a: String, of_b: String)
    requires
        call_ensures(SpotifyError::message, (&a,), of_a),
        call_ensures(SpotifyError::message, (&b,), of_b),
    ensures
        a is NotConfigured ==> of_a@ == "Spotify is not configured on this server"@,
        !(a is NotConfigured) ==> of_a@ == "internal server error"@,
        !(a is NotConfigured) && !(b is NotConfigured) ==> of_a@ == of_b@,
{
}

/// The log tells failures apart, and says the status or the seconds to wait.
pub proof fn law_log_tells_failures(e: SpotifyError, text: String)
    requires
        call_ensures(SpotifyError::description, (&e,), text),
    ensures
        e matches SpotifyError::Http { status } ==> begins_with(text@, "HTTP "@) && digits_value(
            text@.skip("HTTP "@.len() as int),
        ) == status,
        e matches SpotifyError::RateLimited { retry_after_secs } ==> exists|number: Seq<char>|
            #[trigger] digits_value(number) == retry_after_secs && text@
                == "rate limited, retry after "@ + number + "s"@,
        e is NotConfigured ==> text@ == "no Spotify credentials"@,
        e is Transport ==> text@ == "request error"@,
        e is BadBody ==> text@ == "response parse error"@,
        e is Database ==> text@ == "DB error"@,
        e is CacheCorrupt ==> text@ == "search cache parse error"@,
        e is MissingAlbumRow ==> text@ == "album row missing despite cached tracks"@,
{
    match e {
        SpotifyError::Http { status } => {
            let number = decimal(status as nat);
            law_decimal_round_trip(status as nat);
            assert(text@.take("HTTP "@.len() as int) =~= "HTTP "@);
            assert(text@.skip("HTTP "@.len() as int) =~= number);
        },
        SpotifyError::RateLimited { retry_after_secs } => {
            law_decimal_round_trip(retry_after_secs as nat);
            assert(digits_value(decimal(retry_after_secs as nat)) == retry_after_secs);
        },
        _ => {},
    }
}

/// A token that the endpoint handed out is kept and handed out again, without
/// asking, as long as it has a minute of lifetime left; from then on a new one is
/// asked for with the client's credentials, which stay as they are.
pub proof fn law_token_is_kept(
    client: &mut SpotifyClient,
    status: u16,
    headers: HeaderMap,
    body: TokenResponse,
    now: u64,
    token: Result<String, SpotifyError>,
    later: u64,
    step: TokenStep,
)
    requires
        200 <= status <= 299,
        old(client).credentials is Some,
        call_ensures(
            SpotifyClient::accept_token,
            (client, ApiReply::Received { status, headers, body: Some(body) }, now),
            token,
        ),
        call_ensures(SpotifyClient::token, (&*final(client), later), step),
    ensures
        token is Ok && token->Ok_0@ == body.access_token@,
        final(client).credentials == old(client).credentials,
        later + 60_000_000_000 <= now + body.expires_in * 1_000_000_000 ==> step is Ready
            && step->Ready_0@ == body.access_token@,
        later + 60_000_000_000 > now + body.expires_in * 1_000_000_000 ==> {
            &&& step is Fetch
            &&& step->Fetch_0.url@ == "https://accounts.spotify.com/api/token"@
            &&& step->Fetch_0.client_id@ == old(client).credentials->0.client_id@
            &&& step->Fetch_0.client_secret@ == old(client).credentials->0.client_secret@
            &&& step->Fetch_0.form.0@ == "grant_type"@
            &&& step->Fetch_0.form.1@ == "client_credentials"@
        },
{
}

/// An endpoint that hands out no token changes nothing, and the failure is told.
pub proof fn law_no_token_changes_nothing(
    client: &mut SpotifyClient,
    reply: ApiReply<TokenResponse>,
    now: u64,
    why: SpotifyError,
    token: Result<String, SpotifyError>,
)
    requires
        call_ensures(
            read_reply::<TokenResponse>,
            (reply,),
            Err::<TokenResponse, SpotifyError>(why),
        ),
        call_ensures(SpotifyClient::accept_token, (client, reply, now), token),
    ensures
        token == Err::<String, SpotifyError>(why),
        *final(client) == *old(client),
{
}

/// A client without a token asks for one; one without credentials cannot.
pub proof fn law_token_is_asked_for(client: SpotifyClient, now: u64, step: TokenStep)
    requires
        call_ensures(SpotifyClient::token, (&client, now), step),
    ensures
        client.credentials is None ==> step == TokenStep::Fail(SpotifyError::NotConfigured),
        client.credentials is Some && client.token_cache is None ==> step is Fetch
            && step->Fetch_0.client_id@ == client.credentials->0.client_id@
            && step->Fetch_0.client_secret@ == client.credentials->0.client_secret@,
{
}

/// Credentials come from the environment as they are; the first that is missing
/// is told.
pub proof fn law_credentials_from_environment(
    client_id: Option<String>,
    client_secret: Option<String>,
    client: Result<SpotifyClient, String>,
)
    requires
        call_ensures(SpotifyClient::from_env, (client_id, client_secret), client),
    ensures
        client_id is Some && client_secret is Some ==> client is Ok
            && client->Ok_0.credentials is Some && client->Ok_0.credentials->0.client_id@
            == client_id->0@ && client->Ok_0.credentials->0.client_secret@ == client_secret->0@
            && client->Ok_0.token_cache is None,
        client_id is None ==> client is Err && client->Err_0@ == "SPOTIFY_CLIENT_ID not set"@,
        client_id is Some && client_secret is None ==> client is Err && client->Err_0@
            == "SPOTIFY_CLIENT_SECRET not set"@,
{
}

/// A client without credentials has none, and a client for tests has empty ones;
/// neither has a token.
pub proof fn law_new_clients(unconfigured: SpotifyClient, test: SpotifyClient)
    requires
        call_ensures(SpotifyClient::unconfigured, (), unconfigured),
        call_ensures(SpotifyClient::new_test, (), test),
    ensures
        unconfigured.credentials is None,
        unconfigured.token_cache is None,
        test.credentials is Some,
        test.credentials->0.client_id@.len() == 0,
        test.credentials->0.client_secret@.len() == 0,
        test.token_cache is None,
{
}

} // verus!
