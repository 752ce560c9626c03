//! Sessions: the cookie that carries them, and who a request comes from.

use crate::headers::{header_text, lower_case_name, read_header};
use crate::ids::{hex_digit, uuid_text};
use crate::store::{
    delete_session, delete_session_stmt, find_session_user, find_session_user_stmt, DbError,
    SqlData, Statement, DELETE_SESSION, FIND_SESSION_USER,
};
use crate::text::{
    begins_with, chars_of, decimal, is_digit, law_decimal_round_trip, law_trimmed_unchanged,
    lemma_pieces_nonempty, opt_text, pieces, starts_with, string_of, to_decimal, trim_bounds,
    trimmed, white,
};
use axum::http::HeaderMap;
use vstd::prelude::*;

verus! {

// ---------------------------------------------------------------------------
// Configuration and users
// ---------------------------------------------------------------------------

/// The credentials for signing in through Google and GitHub, and the address
/// under which the server is reached.
#[derive(Clone)]
pub struct OAuthConfig {
    pub google_client_id: String,
    pub google_client_secret: String,
    pub github_client_id: String,
    pub github_client_secret: String,
    pub base_url: String,
}

impl OAuthConfig {
    /// The configuration made of environment variables, each `None` where it is
    /// not set. The first missing one, in the order of the fields, is the
    /// error.
    pub fn from_env(
        base_url: &str,
        google_client_id: Option<String>,
        google_client_secret: Option<String>,
        github_client_id: Option<String>,
        github_client_secret: Option<String>,
    ) -> (config: Result<Self, String>)
        ensures
            match config {
                Ok(c) => {
                    &&& google_client_id == Some(c.google_client_id)
                    &&& google_client_secret == Some(c.google_client_secret)
                    &&& github_client_id == Some(c.github_client_id)
                    &&& github_client_secret == Some(c.github_client_secret)
                    &&& c.base_url@ == base_url@
                },
                Err(e) => {
                    ||| google_client_id is None && e@ == "GOOGLE_CLIENT_ID not set"@
                    ||| google_client_id is Some && google_client_secret is None && e@
                        == "GOOGLE_CLIENT_SECRET not set"@
                    ||| google_client_id is Some && google_client_secret is Some
                        && github_client_id is None && e@ == "GITHUB_CLIENT_ID not set"@
                    ||| google_client_id is Some && google_client_secret is Some
                        && github_client_id is Some && github_client_secret is None && e@
                        == "GITHUB_CLIENT_SECRET not set"@
                },
            },
    {
        let google_client_id = match google_client_id {
            Some(v) => v,
            None => return Err("GOOGLE_CLIENT_ID not set".to_string()),
        };
        let google_client_secret = match google_client_secret {
            Some(v) => v,
            None => return Err("GOOGLE_CLIENT_SECRET not set".to_string()),
        };
        let github_client_id = match github_client_id {
            Some(v) => v,
            None => return Err("GITHUB_CLIENT_ID not set".to_string()),
        };
        let github_client_secret = match github_client_secret {
            Some(v) => v,
            None => return Err("GITHUB_CLIENT_SECRET not set".to_string()),
        };
        Ok(
            OAuthConfig {
                google_client_id,
                google_client_secret,
                github_client_id,
                github_client_secret,
                base_url: base_url.to_string(),
            },
        )
    }

    /// The configuration of a server without credentials, on which nobody can
    /// sign in.
    pub fn unconfigured(base_url: &str) -> (config: Self)
        ensures
            config.google_client_id@.len() == 0,
            config.google_client_secret@.len() == 0,
            config.github_client_id@.len() == 0,
            config.github_client_secret@.len() == 0,
            config.base_url@ == base_url@,
    {
        OAuthConfig {
            google_client_id: String::new(),
            google_client_secret: String::new(),
            github_client_id: String::new(),
            github_client_secret: String::new(),
            base_url: base_url.to_string(),
        }
    }
}

/// The user that a request comes from.
#[derive(Clone)]
pub struct CurrentUser {
    pub user_id: String,
    pub username: String,
}

/// The name of the user that a request comes from, if it comes from one.
pub fn get_current_user(user: &Option<CurrentUser>) -> (name: Option<String>)
    ensures
        name == (match *user {
            Some(u) => Some(u.username),
            None => None,
        }),
{
    match user {
        Some(u) => Some(u.username.clone()),
        None => None,
    }
}

// ---------------------------------------------------------------------------
// Replies
// ---------------------------------------------------------------------------

/// What a request is answered.
pub enum HttpReply {
    /// A status code and a text.
    Text { status: u16, body: String },
    /// A redirect that starts a sign-in (303 See Other).
    SeeOther { location: String },
    /// A redirect that sets a cookie (302 Found).
    Found { location: String, set_cookie: String },
}

/// The contents of a reply.
pub enum HttpReplyData {
    Text { status: u16, body: Seq<char> },
    SeeOther { location: Seq<char> },
    Found { location: Seq<char>, set_cookie: Seq<char> },
}

impl View for HttpReply {
    type V = HttpReplyData;

    open spec fn view(&self) -> HttpReplyData {
        match self {
            HttpReply::Text { status, body } => HttpReplyData::Text {
                status: *status,
                body: body@,
            },
            HttpReply::SeeOther { location } => HttpReplyData::SeeOther { location: location@ },
            HttpReply::Found { location, set_cookie } => HttpReplyData::Found {
                location: location@,
                set_cookie: set_cookie@,
            },
        }
    }
}

/// A reply of a status code and a text.
pub open spec fn text_reply(status: u16, body: &str) -> HttpReplyData {
    HttpReplyData::Text { status, body: body@ }
}

/// Builds a reply of a status code and a text.
pub fn reply_text(status: u16, body: &str) -> (reply: HttpReply)
    ensures
        reply@ == text_reply(status, body),
{
    HttpReply::Text { status, body: body.to_string() }
}

// ---------------------------------------------------------------------------
// The cookie that is set
// ---------------------------------------------------------------------------

/// How long a session lasts, in seconds: thirty days.
pub const SESSION_SECONDS: u64 = 2592000;

/// The first second that has no HTTP date: the year 10000 begins.
pub const HTTP_DATE_END: u64 = 253402300800;

/// The HTTP date of a number of seconds after 1970-01-01 00:00:00 UTC.
pub uninterp spec fn http_date(seconds: u64) -> Seq<char>;

/// Whether a text can be carried in a header without loss: printable ASCII.
pub open spec fn printable(s: Seq<char>) -> bool {
    forall|i: int| 0 <= i < s.len() ==> ' ' <= #[trigger] s[i] <= '~'
}

/// `httpdate::fmt_http_date`: the date in the IMF-fixdate form, such as
/// `Thu, 01 Jan 1970 00:00:00 GMT`, which is always 29 printable characters, none
/// of them a semicolon. `fmt_http_date` panics from the year 10000 on.
#[verifier::external_body]
fn fmt_http_date(seconds: u64) -> (date: String)
    requires
        seconds < HTTP_DATE_END,
    ensures
        date@ == http_date(seconds),
        date@.len() == 29,
        forall|i: int| 0 <= i < date@.len() ==> ' ' <= #[trigger] date@[i] <= '~',
        !date@.contains(';'),
{
    httpdate::fmt_http_date(std::time::UNIX_EPOCH + std::time::Duration::from_secs(seconds))
}

/// The attribute that keeps a cookie to encrypted connections, present when the
/// server is reached by HTTPS.
pub open spec fn secure_attribute(base_url: Seq<char>) -> Seq<char> {
    if begins_with(base_url, "https"@) {
        "; Secure"@
    } else {
        ""@
    }
}

/// The attribute that keeps a cookie to encrypted connections, present when the
/// server is reached by HTTPS.
pub fn secure_flag(base_url: &str) -> (flag: &'static str)
    ensures
        flag@ == secure_attribute(base_url@),
{
    let url = chars_of(base_url);
    let n: usize = url.len();
    let scheme = chars_of("https");
    assert(url@.subrange(0, n as int) =~= base_url@);
    if starts_with(&url, 0, n, &scheme) {
        "; Secure"
    } else {
        ""
    }
}

/// The cookie that opens a session.
pub open spec fn session_cookie(
    session_id: Seq<char>,
    expires: Seq<char>,
    base_url: Seq<char>,
) -> Seq<char> {
    "session="@ + session_id + "; HttpOnly; SameSite=Lax; Path=/; Max-Age="@ + decimal(
        SESSION_SECONDS as nat,
    ) + "; Expires="@ + expires + secure_attribute(base_url)
}

/// The cookie that ends a session.
pub open spec fn ended_cookie(base_url: Seq<char>) -> Seq<char> {
    "session=; HttpOnly; SameSite=Lax; Path=/; Max-Age=0"@ + secure_attribute(base_url)
}

/// The reply that signs a user in: a redirect to the start page that sets the
/// session cookie.
pub open spec fn signed_in_reply(
    base_url: Seq<char>,
    session_id: Seq<char>,
    now: u64,
) -> HttpReplyData {
    HttpReplyData::Found {
        location: "/"@,
        set_cookie: session_cookie(
            session_id,
            http_date((now + SESSION_SECONDS) as u64),
            base_url,
        ),
    }
}

/// Builds the cookie that opens a session until `expires`. It can be carried in a
/// header if its parts can.
pub fn session_cookie_text(session_id: &str, expires: &str, base_url: &str) -> (cookie: String)
    ensures
        cookie@ == session_cookie(session_id@, expires@, base_url@),
        printable(session_id@) && printable(expires@) ==> printable(cookie@),
{
    proof {
        reveal_strlit("session=");
        reveal_strlit("; HttpOnly; SameSite=Lax; Path=/; Max-Age=");
        reveal_strlit("; Expires=");
        reveal_strlit("; Secure");
        reveal_strlit("");
        law_decimal_round_trip(SESSION_SECONDS as nat);
        assert(printable("session="@));
        assert(printable("; HttpOnly; SameSite=Lax; Path=/; Max-Age="@));
        assert(printable("; Expires="@));
        assert(printable(secure_attribute(base_url@)));
        assert(forall|i: int|
            0 <= i < decimal(SESSION_SECONDS as nat).len() ==> is_digit(
                #[trigger] decimal(SESSION_SECONDS as nat)[i],
            ));
        assert(printable(decimal(SESSION_SECONDS as nat)));
    }
    let mut cookie = "session=".to_string();
    cookie.append(session_id);
    cookie.append("; HttpOnly; SameSite=Lax; Path=/; Max-Age=");
    cookie.append(to_decimal(SESSION_SECONDS).as_str());
    cookie.append("; Expires=");
    cookie.append(expires);
    cookie.append(secure_flag(base_url));
    cookie
}

/// Builds the reply that signs a user in, `now` seconds after 1970.
pub fn signed_in(base_url: &str, session_id: &str, now: u64) -> (reply: HttpReply)
    requires
        now + SESSION_SECONDS < HTTP_DATE_END,
    ensures
        reply@ == signed_in_reply(base_url@, session_id@, now),
        printable(session_id@) ==> printable(
            session_cookie(session_id@, http_date((now + SESSION_SECONDS) as u64), base_url@),
        ),
        !http_date((now + SESSION_SECONDS) as u64).contains(';'),
{
    let expires = fmt_http_date(now + SESSION_SECONDS);
    HttpReply::Found {
        location: "/".to_string(),
        set_cookie: session_cookie_text(session_id, expires.as_str(), base_url),
    }
}

/// The reply that signs a user out.
pub open spec fn signed_out_reply(base_url: Seq<char>) -> HttpReplyData {
    HttpReplyData::Found { location: "/"@, set_cookie: ended_cookie(base_url) }
}

// ---------------------------------------------------------------------------
// The cookie that comes back
// ---------------------------------------------------------------------------

/// The session that one piece of a cookie header names, if it names one.
pub open spec fn piece_session(piece: Seq<char>) -> Option<Seq<char>> {
    let cookie = trimmed(piece);
    if begins_with(cookie, "session="@) {
        let value = trimmed(cookie.skip(8));
        if value.len() > 0 {
            Some(value)
        } else {
            None
        }
    } else {
        None
    }
}

/// The session that the first of several pieces that names one names.
pub open spec fn first_session(ps: Seq<Seq<char>>) -> Option<Seq<char>>
    decreases ps.len(),
{
    if ps.len() == 0 {
        None
    } else {
        match first_session(ps.drop_last()) {
            Some(id) => Some(id),
            None => piece_session(ps.last()),
        }
    }
}

/// The session that a cookie header names: its pieces are separated by
/// semicolons.
pub open spec fn cookie_session(cookie: Seq<char>) -> Option<Seq<char>> {
    first_session(pieces(cookie, ';'))
}

/// Reads the session that `chars[from..to]` names.
fn session_in_piece(chars: &Vec<char>, from: usize, to: usize) -> (id: Option<String>)
    requires
        from <= to <= chars@.len(),
    ensures
        opt_text(id) == piece_session(chars@.subrange(from as int, to as int)),
{
    let ghost piece = chars@.subrange(from as int, to as int);
    let (a, b) = trim_bounds(chars, from, to);
    let name = chars_of("session=");
    proof {
        reveal_strlit("session=");
        assert(name@.len() == 8);
    }
    if starts_with(chars, a, b, &name) {
        let (c, d) = trim_bounds(chars, a + 8, b);
        assert(chars@.subrange(a as int, b as int).skip(8) =~= chars@.subrange(a + 8, b as int));
        if c < d {
            Some(string_of(chars, c, d))
        } else {
            None
        }
    } else {
        None
    }
}

/// Reads the session that the text of a cookie header names.
pub fn session_in_cookie(cookie: &str) -> (id: Option<String>)
    ensures
        opt_text(id) == cookie_session(cookie@),
{
    let chars = chars_of(cookie);
    let mut found: Option<String> = None;
    let mut start: usize = 0;
    let mut i: usize = 0;
    assert(pieces(chars@.take(0), ';').drop_last() =~= Seq::<Seq<char>>::empty());
    assert(chars@.subrange(0, 0) =~= Seq::<char>::empty());
    while i < chars.len()
        invariant
            start <= i <= chars@.len(),
            chars@ == cookie@,
            pieces(chars@.take(i as int), ';').len() >= 1,
            pieces(chars@.take(i as int), ';').last() == chars@.subrange(start as int, i as int),
            opt_text(found) == first_session(pieces(chars@.take(i as int), ';').drop_last()),
        decreases chars@.len() - i,
    {
        let ghost before = pieces(chars@.take(i as int), ';');
        let ghost after = pieces(chars@.take(i + 1), ';');
        assert(chars@.take(i + 1).drop_last() =~= chars@.take(i as int));
        assert(chars@.take(i + 1).last() == chars@[i as int]);
        if chars[i] == ';' {
            assert(after.drop_last() =~= before);
            if found.is_none() {
                found = session_in_piece(&chars, start, i);
            }
            start = i + 1;
            assert(chars@.subrange(i + 1, i + 1) =~= Seq::<char>::empty());
        } else {
            assert(after.drop_last() =~= before.drop_last());
            assert(chars@.subrange(start as int, i + 1) =~= chars@.subrange(
                start as int,
                i as int,
            ).push(chars@[i as int]));
        }
        i = i + 1;
    }
    assert(chars@.take(chars@.len() as int) =~= chars@);
    if found.is_none() {
        let n: usize = chars.len();
        found = session_in_piece(&chars, start, n);
    }
    found
}

/// The session that a request names in its cookies.
pub open spec fn request_session(headers: HeaderMap) -> Option<Seq<char>> {
    match header_text(headers, "cookie"@) {
        Some(cookie) => cookie_session(cookie),
        None => None,
    }
}

/// Reads the session that a request names in its cookies.
pub fn extract_session_id(headers: &HeaderMap) -> (id: Option<String>)
    ensures
        opt_text(id) == request_session(*headers),
{
    proof {
        reveal_strlit("cookie");
        assert(lower_case_name("cookie"@));
    }
    match read_header(headers, "cookie") {
        Some(cookie) => session_in_cookie(cookie.as_str()),
        None => None,
    }
}

// ---------------------------------------------------------------------------
// Sessions in the database
// ---------------------------------------------------------------------------

/// The statement that finds the user of a request, if the request names a
/// session.
pub fn get_session_user(headers: &HeaderMap) -> (lookup: Option<Statement>)
    ensures
        match lookup {
            Some(s) => request_session(*headers) matches Some(id) && s@ == find_session_user_stmt(
                id,
            ),
            None => request_session(*headers) is None,
        },
{
    match extract_session_id(headers) {
        Some(id) => Some(find_session_user(id.as_str())),
        None => None,
    }
}

/// The user that a request comes from, given the identifier and the name of the
/// user that the session lookup found. Nobody where nothing was found or the
/// lookup failed.
pub fn session_auth(found: Result<Option<(String, String)>, DbError>) -> (user: Option<
    CurrentUser,
>)
    ensures
        user == (match found {
            Ok(Some(row)) => Some(CurrentUser { user_id: row.0, username: row.1 }),
            Ok(None) => None,
            Err(_) => None,
        }),
{
    match found {
        Ok(Some((user_id, username))) => Some(CurrentUser { user_id, username }),
        Ok(None) => None,
        Err(_) => None,
    }
}

/// Signing out: the statement that ends the session that the request names, if
/// it names one, and the reply. The reply does not depend on whether the
/// statement succeeds.
pub fn logout(headers: &HeaderMap, config: &OAuthConfig) -> (out: (Option<Statement>, HttpReply))
    ensures
        match out.0 {
            Some(s) => request_session(*headers) matches Some(id) && s@ == delete_session_stmt(id),
            None => request_session(*headers) is None,
        },
        out.1@ == signed_out_reply(config.base_url@),
        printable(ended_cookie(config.base_url@)),
{
    proof {
        reveal_strlit("session=; HttpOnly; SameSite=Lax; Path=/; Max-Age=0");
        reveal_strlit("; Secure");
        reveal_strlit("");
        assert(printable(secure_attribute(config.base_url@)));
    }
    let statement = match extract_session_id(headers) {
        Some(id) => Some(delete_session(id.as_str())),
        None => None,
    };
    let mut cookie = "session=; HttpOnly; SameSite=Lax; Path=/; Max-Age=0".to_string();
    cookie.append(secure_flag(config.base_url.as_str()));
    (statement, HttpReply::Found { location: "/".to_string(), set_cookie: cookie })
}

// ---------------------------------------------------------------------------
// Laws
// ---------------------------------------------------------------------------

/// The pieces of two texts with a separator between them are the pieces of the
/// one and then those of the other.
proof fn lemma_pieces_concat(a: Seq<char>, b: Seq<char>, sep: char)
    ensures
        pieces(a.push(sep) + b, sep) == pieces(a, sep) + pieces(b, sep),
    decreases b.len(),
{
    lemma_pieces_nonempty(b, sep);
    if b.len() == 0 {
        assert(a.push(sep) + b =~= a.push(sep));
        assert(a.push(sep).drop_last() =~= a);
        assert(pieces(a, sep).push(Seq::<char>::empty()) =~= pieces(a, sep) + pieces(b, sep));
    } else {
        let shorter = b.drop_last();
        lemma_pieces_concat(a, shorter, sep);
        lemma_pieces_nonempty(shorter, sep);
        assert((a.push(sep) + b).drop_last() =~= a.push(sep) + shorter);
        assert((a.push(sep) + b).last() == b.last());
        let before = pieces(a, sep) + pieces(shorter, sep);
        assert(before.last() == pieces(shorter, sep).last());
        assert(pieces(a.push(sep) + b, sep) =~= pieces(a, sep) + pieces(b, sep));
    }
}

/// A text without the separator is its only piece.
proof fn lemma_one_piece(s: Seq<char>, sep: char)
    requires
        !s.contains(sep),
    ensures
        pieces(s, sep) == seq![s],
    decreases s.len(),
{
    if s.len() == 0 {
        assert(s =~= Seq::<char>::empty());
    } else {
        let shorter = s.drop_last();
        assert forall|i: int| 0 <= i < shorter.len() implies shorter[i] != sep by {
            assert(s[i] == shorter[i]);
        }
        lemma_one_piece(shorter, sep);
        assert(s.last() == s[s.len() - 1]);
        assert(shorter.push(s.last()) =~= s);
        assert(seq![shorter].drop_last().push(s) =~= seq![s]);
    }
}

/// The first of the pieces that names a session decides, whatever follows.
proof fn lemma_first_session_append(ps: Seq<Seq<char>>, qs: Seq<Seq<char>>)
    ensures
        first_session(ps + qs) == (match first_session(ps) {
            Some(id) => Some(id),
            None => first_session(qs),
        }),
    decreases qs.len(),
{
    if qs.len() == 0 {
        assert(ps + qs =~= ps);
    } else {
        lemma_first_session_append(ps, qs.drop_last());
        assert((ps + qs).drop_last() =~= ps + qs.drop_last());
        assert((ps + qs).last() == qs.last());
    }
}

/// Whether a text can be the value of a cookie: not empty, without a semicolon
/// and without whitespace at its ends.
pub open spec fn cookie_value(id: Seq<char>) -> bool {
    &&& id.len() > 0
    &&& !id.contains(';')
    &&& !white(id[0])
    &&& !white(id.last())
}

/// A piece `session=...` with an optional leading space names its value.
proof fn lemma_session_piece(id: Seq<char>, lead: Seq<char>)
    requires
        cookie_value(id),
        lead == Seq::<char>::empty() || lead == seq![' '],
    ensures
        piece_session(lead + "session="@ + id) == Some(id),
{
    reveal_strlit("session=");
    let cookie = "session="@ + id;
    let piece = lead + "session="@ + id;
    assert(cookie[0] == 's');
    assert(cookie.last() == id.last());
    law_trimmed_unchanged(cookie);
    if lead == seq![' '] {
        assert(piece.drop_first() =~= cookie);
        assert(crate::text::trimmed_start(piece) == crate::text::trimmed_start(cookie));
        assert(trimmed(piece) == trimmed(cookie));
    } else {
        assert(piece =~= cookie);
    }
    assert(cookie.take(8) =~= "session="@);
    assert(cookie.skip(8) =~= id);
    law_trimmed_unchanged(id);
}

/// A request that sends back the session it was given is recognised, whether
/// the session cookie comes alone or after others that name no session.
pub proof fn law_session_cookie_round_trip(id: Seq<char>, others: Seq<char>)
    requires
        cookie_value(id),
        cookie_session(others) is None,
    ensures
        cookie_session("session="@ + id) == Some(id),
        cookie_session(others + "; session="@ + id) == Some(id),
{
    reveal_strlit("session=");
    reveal_strlit("; session=");
    let alone = "session="@ + id;
    assert forall|i: int| 0 <= i < alone.len() implies alone[i] != ';' by {
        if i >= 8 {
            assert(alone[i] == id[i - 8]);
            assert(id.contains(id[i - 8]));
        }
    }
    lemma_one_piece(alone, ';');
    lemma_session_piece(id, Seq::empty());
    assert(Seq::<char>::empty() + "session="@ + id =~= alone);
    assert(seq![alone].drop_last() =~= Seq::<Seq<char>>::empty());
    assert(first_session(seq![alone].drop_last()) is None);

    let spaced = seq![' '] + "session="@ + id;
    assert forall|i: int| 0 <= i < spaced.len() implies spaced[i] != ';' by {
        if i >= 9 {
            assert(spaced[i] == id[i - 9]);
            assert(id.contains(id[i - 9]));
        }
    }
    lemma_one_piece(spaced, ';');
    lemma_session_piece(id, seq![' ']);
    assert(seq![spaced].drop_last() =~= Seq::<Seq<char>>::empty());
    assert(first_session(seq![spaced]) == Some(id));
    assert(others + "; session="@ + id =~= others.push(';') + spaced);
    lemma_pieces_concat(others, spaced, ';');
    lemma_first_session_append(pieces(others, ';'), seq![spaced]);
}

/// The cookies that follow the one that names the session do not matter.
pub proof fn law_later_cookies_ignored(cookie: Seq<char>, more: Seq<char>)
    requires
        cookie_session(cookie) is Some,
    ensures
        cookie_session(cookie.push(';') + more) == cookie_session(cookie),
{
    lemma_pieces_concat(cookie, more, ';');
    lemma_first_session_append(pieces(cookie, ';'), pieces(more, ';'));
}

/// Every fresh session identifier can be the value of a cookie.
pub proof fn law_fresh_ids_are_cookie_values(id: Seq<char>)
    requires
        uuid_text(id),
    ensures
        cookie_value(id),
        printable(id),
{
    assert(hex_digit(id[0]));
    assert(hex_digit(id[35]));
    assert forall|i: int| 0 <= i < id.len() implies id[i] != ';' && ' ' <= #[trigger] id[i]
        <= '~' by {
        if i != 8 && i != 13 && i != 18 && i != 23 {
            assert(hex_digit(id[i]));
        }
    }
}

/// What a browser sends back of a cookie that it was sent: the part before the
/// first semicolon.
pub open spec fn returned(set_cookie: Seq<char>) -> Seq<char> {
    pieces(set_cookie, ';')[0]
}

/// Of a cookie without a semicolon in its pair, the pair is sent back.
proof fn lemma_returned(pair: Seq<char>, attributes: Seq<char>)
    requires
        !pair.contains(';'),
    ensures
        returned(pair.push(';') + attributes) == pair,
{
    lemma_pieces_concat(pair, attributes, ';');
    lemma_one_piece(pair, ';');
}

/// Whoever is signed in and sends the cookie back is recognised by the session
/// that was opened.
pub proof fn law_signed_in_is_recognised(id: Seq<char>, expires: Seq<char>, base_url: Seq<char>)
    requires
        uuid_text(id),
    ensures
        returned(session_cookie(id, expires, base_url)) == "session="@ + id,
        cookie_session(returned(session_cookie(id, expires, base_url))) == Some(id),
{
    reveal_strlit("session=");
    reveal_strlit("; HttpOnly; SameSite=Lax; Path=/; Max-Age=");
    law_fresh_ids_are_cookie_values(id);
    let pair = "session="@ + id;
    let cookie = session_cookie(id, expires, base_url);
    let attributes = cookie.skip(pair.len() as int + 1);
    assert forall|i: int| 0 <= i < pair.len() implies pair[i] != ';' by {
        if i >= 8 {
            assert(pair[i] == id[i - 8]);
            assert(id.contains(id[i - 8]));
        }
    }
    assert(cookie[pair.len() as int] == ';');
    assert(cookie =~= pair.push(';') + attributes);
    lemma_returned(pair, attributes);
    assert(cookie_session(Seq::<char>::empty()) is None) by {
        let none = Seq::<char>::empty();
        assert(pieces(none, ';') == seq![none]);
        assert(seq![none].drop_last() =~= Seq::<Seq<char>>::empty());
        reveal_with_fuel(first_session, 2);
        assert(trimmed(none) =~= none);
    }
    law_session_cookie_round_trip(id, Seq::empty());
}

/// Whoever is signed out and sends the cookie back is nobody.
pub proof fn law_signed_out_is_nobody(base_url: Seq<char>)
    ensures
        cookie_session(returned(ended_cookie(base_url))) is None,
{
    reveal_strlit("session=");
    reveal_strlit("session=; HttpOnly; SameSite=Lax; Path=/; Max-Age=0");
    let pair = "session="@;
    let cookie = ended_cookie(base_url);
    let attributes = cookie.skip(9);
    assert(cookie =~= pair.push(';') + attributes);
    lemma_returned(pair, attributes);
    lemma_one_piece(pair, ';');
    assert(seq![pair].drop_last() =~= Seq::<Seq<char>>::empty());
    reveal_with_fuel(first_session, 2);
    law_trimmed_unchanged(pair);
    assert(pair.skip(8) =~= Seq::<char>::empty());
}

/// Whether a text holds another.
pub open spec fn holds(text: Seq<char>, part: Seq<char>) -> bool {
    exists|i: int|
        0 <= i <= text.len() - part.len() && #[trigger] text.subrange(i, i + part.len()) == part
}

/// Whether no semicolon of a text begins `; Secure`: none is followed by ` Se`.
spec fn insecure(s: Seq<char>) -> bool {
    forall|i: int|
        0 <= i < s.len() && #[trigger] s[i] == ';' ==> i + 3 < s.len() && !(s[i + 2] == 'S' && s[i
            + 3] == 'e')
}

/// A text in which no semicolon begins `; Secure` does not hold it.
proof fn lemma_insecure(s: Seq<char>)
    requires
        insecure(s),
    ensures
        !holds(s, "; Secure"@),
{
    reveal_strlit("; Secure");
    let part = "; Secure"@;
    if holds(s, part) {
        let i = choose|i: int|
            0 <= i <= s.len() - part.len() && #[trigger] s.subrange(i, i + part.len()) == part;
        assert(s[i] == s.subrange(i, i + part.len())[0]);
        assert(s[i + 2] == s.subrange(i, i + part.len())[2]);
        assert(s[i + 3] == s.subrange(i, i + part.len())[3]);
    }
}

/// A text that ends in `; Secure` holds it.
proof fn lemma_ends_secure(s: Seq<char>)
    ensures
        holds(s + "; Secure"@, "; Secure"@),
{
    let part = "; Secure"@;
    let text = s + part;
    assert(text.subrange(s.len() as int, s.len() as int + part.len()) =~= part);
}

/// Of two texts in which no semicolon begins `; Secure`, neither does one where
/// they stand together.
proof fn lemma_insecure_append(a: Seq<char>, b: Seq<char>)
    requires
        insecure(a),
        insecure(b),
    ensures
        insecure(a + b),
{
    let s = a + b;
    assert forall|i: int| 0 <= i < s.len() && #[trigger] s[i] == ';' implies i + 3 < s.len() && !(
    s[i + 2] == 'S' && s[i + 3] == 'e') by {
        if i < a.len() {
            assert(a[i] == ';');
        } else {
            assert(b[i - a.len()] == ';');
        }
    }
}

/// A text without a semicolon is such a text.
proof fn lemma_insecure_plain(s: Seq<char>)
    requires
        !s.contains(';'),
    ensures
        insecure(s),
{
    assert forall|i: int| 0 <= i < s.len() implies #[trigger] s[i] != ';' by {
        assert(s.contains(s[i]));
    }
}

/// The cookie that opens a session is kept to encrypted connections exactly when
/// the server is reached by HTTPS.
pub proof fn law_secure_only_on_https(
    base_url: &str,
    session_id: &str,
    now: u64,
    reply: HttpReply,
)
    requires
        !session_id@.contains(';'),
        call_ensures(signed_in, (base_url, session_id, now), reply),
    ensures
        reply matches HttpReply::Found { location: _, set_cookie } && (holds(
            set_cookie@,
            "; Secure"@,
        ) <==> begins_with(base_url@, "https"@)),
{
    let expires = http_date((now + SESSION_SECONDS) as u64);
    let age = decimal(SESSION_SECONDS as nat);
    let cookie = session_cookie(session_id@, expires, base_url@);
    let plain = "session="@ + session_id@ + "; HttpOnly; SameSite=Lax; Path=/; Max-Age="@ + age
        + "; Expires="@ + expires;
    assert(cookie =~= plain + secure_attribute(base_url@));
    if begins_with(base_url@, "https"@) {
        lemma_ends_secure(plain);
    } else {
        reveal_strlit("");
        reveal_strlit("session=");
        reveal_strlit("; HttpOnly; SameSite=Lax; Path=/; Max-Age=");
        reveal_strlit("; Expires=");
        law_decimal_round_trip(SESSION_SECONDS as nat);
        assert forall|i: int| 0 <= i < age.len() implies age[i] != ';' by {
            assert(is_digit(age[i]));
        }
        lemma_insecure_plain("session="@);
        lemma_insecure_plain(session_id@);
        lemma_insecure_plain(age);
        lemma_insecure_plain(expires);
        let attributes = "; HttpOnly; SameSite=Lax; Path=/; Max-Age="@;
        let a = "session="@ + session_id@;
        let b = a + attributes;
        let c = b + age;
        let d = c + "; Expires="@;
        lemma_insecure_append("session="@, session_id@);
        lemma_insecure_append(a, attributes);
        lemma_insecure_append(b, age);
        lemma_insecure_append(c, "; Expires="@);
        lemma_insecure_append(d, expires);
        lemma_insecure(plain);
        assert(cookie =~= plain);
    }
}

/// The same of the cookie that ends a session.
pub proof fn law_ended_secure_only_on_https(base_url: Seq<char>)
    ensures
        holds(ended_cookie(base_url), "; Secure"@) <==> begins_with(base_url, "https"@),
{
    let plain = "session=; HttpOnly; SameSite=Lax; Path=/; Max-Age=0"@;
    if begins_with(base_url, "https"@) {
        lemma_ends_secure(plain);
    } else {
        reveal_strlit("");
        reveal_strlit("session=; HttpOnly; SameSite=Lax; Path=/; Max-Age=0");
        lemma_insecure(plain);
        assert(ended_cookie(base_url) =~= plain);
    }
}

/// A text in the middle of another is held by it.
proof fn lemma_holds_middle(a: Seq<char>, part: Seq<char>, b: Seq<char>)
    ensures
        holds(a + part + b, part),
{
    let text = a + part + b;
    assert(text.subrange(a.len() as int, a.len() as int + part.len()) =~= part);
}

/// The reply that signs a user in leads to the start page and sets a cookie: the
/// session's identifier, kept from scripts and from other sites' requests, good for
/// the whole server and for thirty days, until the date that is thirty days off.
pub proof fn law_signed_in_cookie(base_url: &str, session_id: &str, now: u64, reply: HttpReply)
    requires
        call_ensures(signed_in, (base_url, session_id, now), reply),
    ensures
        reply is Found,
        reply->Found_location@ == "/"@,
        begins_with(reply->set_cookie@, "session="@ + session_id@ + ";"@),
        holds(reply->set_cookie@, "; HttpOnly; SameSite=Lax; Path=/; Max-Age=2592000; "@),
        holds(reply->set_cookie@, "; Expires="@ + http_date((now + 30 * 24 * 3600) as u64)),
{
    let cookie = reply->set_cookie@;
    let expires = http_date((now + SESSION_SECONDS) as u64);
    let attributes = "; HttpOnly; SameSite=Lax; Path=/; Max-Age="@;
    let age = decimal(2592000);
    reveal_strlit(";");
    reveal_strlit("; HttpOnly; SameSite=Lax; Path=/; Max-Age=");
    reveal_strlit("; HttpOnly; SameSite=Lax; Path=/; Max-Age=2592000; ");
    reveal_strlit("; Expires=");
    reveal_strlit("session=");
    assert(age =~= seq!['2', '5', '9', '2', '0', '0', '0']) by {
        reveal_with_fuel(decimal, 8);
    }
    let pair = "session="@ + session_id@;
    let secure = secure_attribute(base_url@);
    assert(cookie =~= pair + attributes + age + "; Expires="@ + expires + secure);
    let start = pair + ";"@;
    assert(cookie.take(start.len() as int) =~= start);
    let part = "; HttpOnly; SameSite=Lax; Path=/; Max-Age=2592000; "@;
    let rest = "; Expires="@.skip(2) + expires + secure;
    assert(part =~= attributes + age + seq![';', ' ']);
    assert(cookie =~= pair + part + rest);
    lemma_holds_middle(pair, part, rest);
    let until = "; Expires="@ + expires;
    let before = pair + attributes + age;
    assert(cookie =~= before + until + secure);
    lemma_holds_middle(before, until, secure);
}

/// The session that a request names is read from its `Cookie` header; signing out
/// ends exactly that session, tells the browser to forget the cookie at once, and
/// leads to the start page.
pub proof fn law_signing_out(
    headers: HeaderMap,
    config: OAuthConfig,
    id: Option<String>,
    out: (Option<Statement>, HttpReply),
)
    requires
        call_ensures(extract_session_id, (&headers,), id),
        call_ensures(logout, (&headers, &config), out),
    ensures
        id is None ==> out.0 is None,
        id matches Some(session) ==> out.0 is Some && out.0->0@.sql == DELETE_SESSION@
            && out.0->0@.params == seq![SqlData::Text(session@)],
        out.1 is Found,
        out.1->Found_location@ == "/"@,
        begins_with(
            out.1->set_cookie@,
            "session=; HttpOnly; SameSite=Lax; Path=/; Max-Age=0"@,
        ),
{
    let cookie = out.1->set_cookie@;
    let start = "session=; HttpOnly; SameSite=Lax; Path=/; Max-Age=0"@;
    assert(cookie == ended_cookie(config.base_url@));
    assert(cookie.take(start.len() as int) =~= start);
}

/// The user of a request is looked up by the session that the request names, and
/// is the one that is found; nobody where the request names none, none is found or
/// the lookup fails.
pub proof fn law_user_of_a_request(
    headers: HeaderMap,
    id: Option<String>,
    lookup: Option<Statement>,
    user_id: String,
    username: String,
    e: DbError,
    user: Option<CurrentUser>,
    nobody: Option<CurrentUser>,
    failed: Option<CurrentUser>,
    name: Option<String>,
)
    requires
        call_ensures(extract_session_id, (&headers,), id),
        call_ensures(get_session_user, (&headers,), lookup),
        call_ensures(
            session_auth,
            (Ok::<Option<(String, String)>, DbError>(Some((user_id, username))),),
            user,
        ),
        call_ensures(session_auth, (Ok::<Option<(String, String)>, DbError>(None),), nobody),
        call_ensures(session_auth, (Err::<Option<(String, String)>, DbError>(e),), failed),
        call_ensures(get_current_user, (&user,), name),
    ensures
        id is None ==> lookup is None,
        id matches Some(session) ==> lookup is Some && lookup->0@.sql == FIND_SESSION_USER@
            && lookup->0@.params == seq![SqlData::Text(session@)],
        user is Some && user->0.user_id == user_id && user->0.username == username,
        nobody is None,
        failed is None,
        name == Some(username),
{
}

/// Nobody has no name.
pub proof fn law_nobody_has_no_name(name: Option<String>)
    requires
        call_ensures(get_current_user, (&None::<CurrentUser>,), name),
    ensures
        name is None,
{
}

/// Reading the cookies of a request is reading the text of its `Cookie` header.
pub proof fn law_session_is_in_the_cookie_header(
    headers: HeaderMap,
    text: Option<String>,
    cookie: &str,
    id: Option<String>,
    read: Option<String>,
)
    requires
        call_ensures(read_header, (&headers, "cookie"), text),
        text is Some ==> cookie@ == text->0@,
        call_ensures(session_in_cookie, (cookie,), read),
        call_ensures(extract_session_id, (&headers,), id),
    ensures
        text is None ==> id is None,
        text is Some ==> opt_text(id) == opt_text(read),
{
}

/// A cookie that is none of the session is passed over, and an empty session is
/// none; the first that names one decides. Whitespace around names and values does
/// not count.
pub proof fn law_session_of_a_cookie(cookie: &str, id: Option<String>)
    requires
        call_ensures(session_in_cookie, (cookie,), id),
    ensures
        match id {
            None => forall|i: int|
                0 <= i < pieces(cookie@, ';').len() ==> !(begins_with(
                    trimmed(#[trigger] pieces(cookie@, ';')[i]),
                    "session="@,
                ) && trimmed(trimmed(pieces(cookie@, ';')[i]).skip(8)).len() > 0),
            Some(session) => exists|i: int|
                0 <= i < pieces(cookie@, ';').len() && begins_with(
                    trimmed(#[trigger] pieces(cookie@, ';')[i]),
                    "session="@,
                ) && trimmed(trimmed(pieces(cookie@, ';')[i]).skip(8)) == session@ && session@.len()
                    > 0 && (forall|j: int|
                    0 <= j < i ==> !(begins_with(
                        trimmed(#[trigger] pieces(cookie@, ';')[j]),
                        "session="@,
                    ) && trimmed(trimmed(pieces(cookie@, ';')[j]).skip(8)).len() > 0)),
        },
{
    lemma_first_session_is_first(pieces(cookie@, ';'));
}

/// The first of the pieces that names a session is the one that decides.
proof fn lemma_first_session_is_first(ps: Seq<Seq<char>>)
    ensures
        match first_session(ps) {
            None => forall|i: int| 0 <= i < ps.len() ==> piece_session(#[trigger] ps[i]) is None,
            Some(id) => exists|i: int|
                0 <= i < ps.len() && piece_session(#[trigger] ps[i]) == Some(id) && (forall|j: int|
                    0 <= j < i ==> piece_session(#[trigger] ps[j]) is None),
        },
    decreases ps.len(),
{
    if ps.len() > 0 {
        let shorter = ps.drop_last();
        lemma_first_session_is_first(shorter);
        match first_session(shorter) {
            Some(id) => {
                let i = choose|i: int|
                    0 <= i < shorter.len() && piece_session(#[trigger] shorter[i]) == Some(id) && (
                    forall|j: int| 0 <= j < i ==> piece_session(#[trigger] shorter[j]) is None);
                assert(ps[i] == shorter[i]);
                assert forall|j: int| 0 <= j < i implies piece_session(#[trigger] ps[j]) is None by {
                    assert(ps[j] == shorter[j]);
                }
            },
            None => {
                let last = ps.len() - 1;
                assert(ps[last] == ps.last());
                assert forall|j: int| 0 <= j < last implies piece_session(
                    #[trigger] ps[j],
                ) is None by {
                    assert(ps[j] == shorter[j]);
                }
            },
        }
    }
}

/// Configurations hold what they were given, and the first missing variable is
/// told.
pub proof fn law_configuration(
    base_url: &str,
    google_client_id: Option<String>,
    google_client_secret: Option<String>,
    github_client_id: Option<String>,
    github_client_secret: Option<String>,
    config: Result<OAuthConfig, String>,
    empty: OAuthConfig,
)
    requires
        call_ensures(
            OAuthConfig::from_env,
            (
                base_url,
                google_client_id,
                google_client_secret,
                github_client_id,
                github_client_secret,
            ),
            config,
        ),
        call_ensures(OAuthConfig::unconfigured, (base_url,), empty),
    ensures
        google_client_id is Some && google_client_secret is Some && github_client_id is Some
            && github_client_secret is Some ==> config is Ok && config->Ok_0.google_client_id
            == google_client_id->0 && config->Ok_0.google_client_secret == google_client_secret->0
            && config->Ok_0.github_client_id == github_client_id->0
            && config->Ok_0.github_client_secret == github_client_secret->0
            && config->Ok_0.base_url@ == base_url@,
        google_client_id is None ==> config is Err && config->Err_0@
            == "GOOGLE_CLIENT_ID not set"@,
        google_client_id is Some && google_client_secret is None ==> config is Err
            && config->Err_0@ == "GOOGLE_CLIENT_SECRET not set"@,
        google_client_id is Some && google_client_secret is Some && github_client_id is None
            ==> config is Err && config->Err_0@ == "GITHUB_CLIENT_ID not set"@,
        google_client_id is Some && google_client_secret is Some && github_client_id is Some
            && github_client_secret is None ==> config is Err && config->Err_0@
            == "GITHUB_CLIENT_SECRET not set"@,
        empty.google_client_id@.len() == 0 && empty.google_client_secret@.len() == 0,
        empty.github_client_id@.len() == 0 && empty.github_client_secret@.len() == 0,
        empty.base_url@ == base_url@,
{
}

/// A text reply has the status and the text that it was given, and the contents
/// of replies are their own.
pub proof fn law_replies(status: u16, body: &str, reply: HttpReply, any: HttpReply)
    requires
        call_ensures(reply_text, (status, body), reply),
    ensures
        reply is Text && reply->status == status && reply->body@ == body@,
        any matches HttpReply::Text { status: s, body: b } ==> any@ == (HttpReplyData::Text {
            status: s,
            body: b@,
        }),
        any matches HttpReply::SeeOther { location } ==> any@ == (HttpReplyData::SeeOther {
            location: location@,
        }),
        any matches HttpReply::Found { location, set_cookie } ==> any@ == (HttpReplyData::Found {
            location: location@,
            set_cookie: set_cookie@,
        }),
{
}

/// The cookie that opens a session is its identifier and the attributes, of which
/// the last is there for servers that are reached by HTTPS alone.
pub proof fn law_session_cookie_text(
    session_id: &str,
    expires: &str,
    base_url: &str,
    flag: &'static str,
    cookie: String,
)
    requires
        call_ensures(secure_flag, (base_url,), flag),
        call_ensures(session_cookie_text, (session_id, expires, base_url), cookie),
    ensures
        begins_with(base_url@, "https"@) ==> flag@ == "; Secure"@,
        !begins_with(base_url@, "https"@) ==> flag@.len() == 0,
        begins_with(cookie@, "session="@ + session_id@ + ";"@),
        holds(cookie@, "; HttpOnly; SameSite=Lax; Path=/; Max-Age=2592000; "@),
        cookie@.len() >= (expires@ + flag@).len() && cookie@.skip(
            cookie@.len() - (expires@ + flag@).len(),
        ) == expires@ + flag@,
{
    let attributes = "; HttpOnly; SameSite=Lax; Path=/; Max-Age="@;
    let age = decimal(2592000);
    reveal_strlit("");
    reveal_strlit(";");
    reveal_strlit("; HttpOnly; SameSite=Lax; Path=/; Max-Age=");
    reveal_strlit("; HttpOnly; SameSite=Lax; Path=/; Max-Age=2592000; ");
    reveal_strlit("; Expires=");
    assert(age =~= seq!['2', '5', '9', '2', '0', '0', '0']) by {
        reveal_with_fuel(decimal, 8);
    }
    let pair = "session="@ + session_id@;
    let start = pair + ";"@;
    assert(cookie@ =~= pair + attributes + age + "; Expires="@ + expires@ + flag@);
    assert(cookie@.take(start.len() as int) =~= start);
    let part = "; HttpOnly; SameSite=Lax; Path=/; Max-Age=2592000; "@;
    let rest = "; Expires="@.skip(2) + expires@ + flag@;
    assert(part =~= attributes + age + seq![';', ' ']);
    assert(cookie@ =~= pair + part + rest);
    lemma_holds_middle(pair, part, rest);
    assert(cookie@.skip(cookie@.len() - (expires@ + flag@).len()) =~= expires@ + flag@);
}

} // verus!
