//! The statements that the server runs on its database.
//!
//! Each statement is its text and its parameters, in the order of the question
//! marks. A function `x` builds the statement that the spec function `x_stmt`
//! describes.

use crate::text::opt_text;
use vstd::prelude::*;

verus! {

/// A parameter of a statement.
pub enum SqlValue {
    Null,
    Int(i64),
    Text(String),
    Blob(Vec<u8>),
}

/// The contents of a parameter.
pub enum SqlData {
    Null,
    Int(int),
    Text(Seq<char>),
    Blob(Seq<u8>),
}

impl View for SqlValue {
    type V = SqlData;

    open spec fn view(&self) -> SqlData {
        match self {
            SqlValue::Null => SqlData::Null,
            SqlValue::Int(n) => SqlData::Int(*n as int),
            SqlValue::Text(s) => SqlData::Text(s@),
            SqlValue::Blob(b) => SqlData::Blob(b@),
        }
    }
}

/// A statement with its parameters.
pub struct Statement {
    pub sql: &'static str,
    pub params: Vec<SqlValue>,
}

/// The contents of a statement.
#[verifier::ext_equal]
pub struct StatementData {
    pub sql: Seq<char>,
    pub params: Seq<SqlData>,
}

impl View for Statement {
    type V = StatementData;

    open spec fn view(&self) -> StatementData {
        StatementData {
            sql: self.sql@,
            params: self.params@.map_values(|v: SqlValue| v@),
        }
    }
}

/// Why the database could not run a statement.
pub struct DbError {
    pub message: String,
}

/// An optional text as a parameter.
pub open spec fn opt_data(o: Option<Seq<char>>) -> SqlData {
    match o {
        Some(s) => SqlData::Text(s),
        None => SqlData::Null,
    }
}

/// An optional integer as a parameter.
pub open spec fn opt_int_data(o: Option<u32>) -> SqlData {
    match o {
        Some(n) => SqlData::Int(n as int),
        None => SqlData::Null,
    }
}

/// A text as a parameter.
fn text_value(s: &str) -> (v: SqlValue)
    ensures
        v@ == SqlData::Text(s@),
{
    SqlValue::Text(s.to_string())
}

/// An optional text as a parameter.
fn opt_value(o: &Option<String>) -> (v: SqlValue)
    ensures
        v@ == opt_data(opt_text(*o)),
{
    match o {
        Some(s) => SqlValue::Text(s.clone()),
        None => SqlValue::Null,
    }
}

/// An optional integer as a parameter.
fn opt_int_value(o: Option<u32>) -> (v: SqlValue)
    ensures
        v@ == opt_int_data(o),
{
    match o {
        Some(n) => SqlValue::Int(n as i64),
        None => SqlValue::Null,
    }
}

// ---------------------------------------------------------------------------
// Signing in
// ---------------------------------------------------------------------------

/// Remembers a sign-in that was started: its state token and its PKCE verifier.
pub const SAVE_OAUTH_STATE: &'static str =
    "INSERT INTO oauth_states (csrf_token, pkce_verifier) VALUES (?, ?)";

/// The statement [`SAVE_OAUTH_STATE`].
pub open spec fn save_oauth_state_stmt(
    csrf_token: Seq<char>,
    pkce_verifier: Seq<char>,
) -> StatementData {
    StatementData {
        sql: SAVE_OAUTH_STATE@,
        params: seq![SqlData::Text(csrf_token), SqlData::Text(pkce_verifier)],
    }
}

/// Builds [`SAVE_OAUTH_STATE`].
pub fn save_oauth_state(csrf_token: &str, pkce_verifier: &str) -> (s: Statement)
    ensures
        s@ == save_oauth_state_stmt(csrf_token@, pkce_verifier@),
{
    let s = Statement {
        sql: SAVE_OAUTH_STATE,
        params: vec![text_value(csrf_token), text_value(pkce_verifier)],
    };
    assert(s@.params =~= seq![SqlData::Text(csrf_token@), SqlData::Text(pkce_verifier@)]);
    s
}

/// Finds the PKCE verifier of a sign-in that was started in the last ten minutes.
pub const FIND_PKCE_VERIFIER: &'static str =
    "SELECT pkce_verifier FROM oauth_states \
     WHERE csrf_token = ? \
     AND created_at > strftime('%Y-%m-%dT%H:%M:%SZ', 'now', '-10 minutes')";

/// The statement [`FIND_PKCE_VERIFIER`].
pub open spec fn find_pkce_verifier_stmt(csrf_token: Seq<char>) -> StatementData {
    StatementData { sql: FIND_PKCE_VERIFIER@, params: seq![SqlData::Text(csrf_token)] }
}

/// Builds [`FIND_PKCE_VERIFIER`].
pub fn find_pkce_verifier(csrf_token: &str) -> (s: Statement)
    ensures
        s@ == find_pkce_verifier_stmt(csrf_token@),
{
    let s = Statement { sql: FIND_PKCE_VERIFIER, params: vec![text_value(csrf_token)] };
    assert(s@.params =~= seq![SqlData::Text(csrf_token@)]);
    s
}

/// Counts the sign-ins with a state token that were started in the last ten minutes.
pub const COUNT_OAUTH_STATES: &'static str =
    "SELECT COUNT(*) FROM oauth_states \
     WHERE csrf_token = ? \
     AND created_at > strftime('%Y-%m-%dT%H:%M:%SZ', 'now', '-10 minutes')";

/// The statement [`COUNT_OAUTH_STATES`].
pub open spec fn count_oauth_states_stmt(csrf_token: Seq<char>) -> StatementData {
    StatementData { sql: COUNT_OAUTH_STATES@, params: seq![SqlData::Text(csrf_token)] }
}

/// Builds [`COUNT_OAUTH_STATES`].
pub fn count_oauth_states(csrf_token: &str) -> (s: Statement)
    ensures
        s@ == count_oauth_states_stmt(csrf_token@),
{
    let s = Statement { sql: COUNT_OAUTH_STATES, params: vec![text_value(csrf_token)] };
    assert(s@.params =~= seq![SqlData::Text(csrf_token@)]);
    s
}

/// Forgets a sign-in that was started.
pub const DELETE_OAUTH_STATE: &'static str =
    "DELETE FROM oauth_states WHERE csrf_token = ?";

/// The statement [`DELETE_OAUTH_STATE`].
pub open spec fn delete_oauth_state_stmt(csrf_token: Seq<char>) -> StatementData {
    StatementData { sql: DELETE_OAUTH_STATE@, params: seq![SqlData::Text(csrf_token)] }
}

/// Builds [`DELETE_OAUTH_STATE`].
pub fn delete_oauth_state(csrf_token: &str) -> (s: Statement)
    ensures
        s@ == delete_oauth_state_stmt(csrf_token@),
{
    let s = Statement { sql: DELETE_OAUTH_STATE, params: vec![text_value(csrf_token)] };
    assert(s@.params =~= seq![SqlData::Text(csrf_token@)]);
    s
}

/// Finds the user of a session that has not expired.
pub const FIND_SESSION_USER: &'static str =
    "SELECT u.user_id, u.username \
     FROM sessions s JOIN users u ON s.user_id = u.user_id \
     WHERE s.session_id = ? \
     AND s.expires_at > strftime('%Y-%m-%dT%H:%M:%SZ', 'now')";

/// The statement [`FIND_SESSION_USER`].
pub open spec fn find_session_user_stmt(session_id: Seq<char>) -> StatementData {
    StatementData { sql: FIND_SESSION_USER@, params: seq![SqlData::Text(session_id)] }
}

/// Builds [`FIND_SESSION_USER`].
pub fn find_session_user(session_id: &str) -> (s: Statement)
    ensures
        s@ == find_session_user_stmt(session_id@),
{
    let s = Statement { sql: FIND_SESSION_USER, params: vec![text_value(session_id)] };
    assert(s@.params =~= seq![SqlData::Text(session_id@)]);
    s
}

/// Ends a session.
pub const DELETE_SESSION: &'static str =
    "DELETE FROM sessions WHERE session_id = ?";

/// The statement [`DELETE_SESSION`].
pub open spec fn delete_session_stmt(session_id: Seq<char>) -> StatementData {
    StatementData { sql: DELETE_SESSION@, params: seq![SqlData::Text(session_id)] }
}

/// Builds [`DELETE_SESSION`].
pub fn delete_session(session_id: &str) -> (s: Statement)
    ensures
        s@ == delete_session_stmt(session_id@),
{
    let s = Statement { sql: DELETE_SESSION, params: vec![text_value(session_id)] };
    assert(s@.params =~= seq![SqlData::Text(session_id@)]);
    s
}

/// Opens a session that expires after thirty days.
pub const INSERT_SESSION: &'static str =
    "INSERT INTO sessions (session_id, user_id, expires_at) \
     VALUES (?, ?, strftime('%Y-%m-%dT%H:%M:%SZ', 'now', '+30 days'))";

/// The statement [`INSERT_SESSION`].
pub open spec fn insert_session_stmt(session_id: Seq<char>, user_id: Seq<char>) -> StatementData {
    StatementData {
        sql: INSERT_SESSION@,
        params: seq![SqlData::Text(session_id), SqlData::Text(user_id)],
    }
}

/// Builds [`INSERT_SESSION`].
pub fn insert_session(session_id: &str, user_id: &str) -> (s: Statement)
    ensures
        s@ == insert_session_stmt(session_id@, user_id@),
{
    let s = Statement {
        sql: INSERT_SESSION,
        params: vec![text_value(session_id), text_value(user_id)],
    };
    assert(s@.params =~= seq![SqlData::Text(session_id@), SqlData::Text(user_id@)]);
    s
}

/// Finds the user that an account of a provider is linked to.
pub const FIND_ACCOUNT: &'static str =
    "SELECT user_id FROM oauth_accounts WHERE provider = ? AND provider_uid = ?";

/// The statement [`FIND_ACCOUNT`].
pub open spec fn find_account_stmt(
    provider: Seq<char>,
    provider_uid: Seq<char>,
) -> StatementData {
    StatementData {
        sql: FIND_ACCOUNT@,
        params: seq![SqlData::Text(provider), SqlData::Text(provider_uid)],
    }
}

/// Builds [`FIND_ACCOUNT`].
pub fn find_account(provider: &str, provider_uid: &str) -> (s: Statement)
    ensures
        s@ == find_account_stmt(provider@, provider_uid@),
{
    let s = Statement {
        sql: FIND_ACCOUNT,
        params: vec![text_value(provider), text_value(provider_uid)],
    };
    assert(s@.params =~= seq![SqlData::Text(provider@), SqlData::Text(provider_uid@)]);
    s
}

/// Adds a user, unless the username or the email is already there.
pub const INSERT_USER: &'static str =
    "INSERT OR IGNORE INTO users (user_id, username, email) VALUES (?, ?, ?)";

/// The statement [`INSERT_USER`].
pub open spec fn insert_user_stmt(
    user_id: Seq<char>,
    username: Seq<char>,
    email: Seq<char>,
) -> StatementData {
    StatementData {
        sql: INSERT_USER@,
        params: seq![SqlData::Text(user_id), SqlData::Text(username), SqlData::Text(email)],
    }
}

/// Builds [`INSERT_USER`].
pub fn insert_user(user_id: &str, username: &str, email: &str) -> (s: Statement)
    ensures
        s@ == insert_user_stmt(user_id@, username@, email@),
{
    let s = Statement {
        sql: INSERT_USER,
        params: vec![text_value(user_id), text_value(username), text_value(email)],
    };
    assert(s@.params =~= seq![
        SqlData::Text(user_id@),
        SqlData::Text(username@),
        SqlData::Text(email@),
    ]);
    s
}

/// Finds the user with an email.
pub const FIND_USER_BY_EMAIL: &'static str =
    "SELECT user_id FROM users WHERE email = ?";

/// The statement [`FIND_USER_BY_EMAIL`].
pub open spec fn find_user_by_email_stmt(email: Seq<char>) -> StatementData {
    StatementData { sql: FIND_USER_BY_EMAIL@, params: seq![SqlData::Text(email)] }
}

/// Builds [`FIND_USER_BY_EMAIL`].
pub fn find_user_by_email(email: &str) -> (s: Statement)
    ensures
        s@ == find_user_by_email_stmt(email@),
{
    let s = Statement { sql: FIND_USER_BY_EMAIL, params: vec![text_value(email)] };
    assert(s@.params =~= seq![SqlData::Text(email@)]);
    s
}

/// Links an account of a provider to a user, unless it is already linked.
pub const LINK_ACCOUNT: &'static str =
    "INSERT OR IGNORE INTO oauth_accounts \
     (user_id, provider, provider_uid) VALUES (?, ?, ?)";

/// The statement [`LINK_ACCOUNT`].
pub open spec fn link_account_stmt(
    user_id: Seq<char>,
    provider: Seq<char>,
    provider_uid: Seq<char>,
) -> StatementData {
    StatementData {
        sql: LINK_ACCOUNT@,
        params: seq![
            SqlData::Text(user_id),
            SqlData::Text(provider),
            SqlData::Text(provider_uid),
        ],
    }
}

/// Builds [`LINK_ACCOUNT`].
pub fn link_account(user_id: &str, provider: &str, provider_uid: &str) -> (s: Statement)
    ensures
        s@ == link_account_stmt(user_id@, provider@, provider_uid@),
{
    let s = Statement {
        sql: LINK_ACCOUNT,
        params: vec![text_value(user_id), text_value(provider), text_value(provider_uid)],
    };
    assert(s@.params =~= seq![
        SqlData::Text(user_id@),
        SqlData::Text(provider@),
        SqlData::Text(provider_uid@),
    ]);
    s
}

/// Counts the users with a username.
pub const COUNT_USERNAME: &'static str =
    "SELECT COUNT(*) FROM users WHERE username = ?";

/// The statement [`COUNT_USERNAME`].
pub open spec fn count_username_stmt(username: Seq<char>) -> StatementData {
    StatementData { sql: COUNT_USERNAME@, params: seq![SqlData::Text(username)] }
}

/// Builds [`COUNT_USERNAME`].
pub fn count_username(username: &str) -> (s: Statement)
    ensures
        s@ == count_username_stmt(username@),
{
    let s = Statement { sql: COUNT_USERNAME, params: vec![text_value(username)] };
    assert(s@.params =~= seq![SqlData::Text(username@)]);
    s
}

// ---------------------------------------------------------------------------
// Profiles
// ---------------------------------------------------------------------------

/// Finds a user by name, with the numbers of followers and of followed users.
pub const FIND_PROFILE: &'static str =
    "SELECT u.user_id, u.bio, u.created_at, \
     (SELECT COUNT(*) FROM follows WHERE followee_id = u.user_id) AS follower_count, \
     (SELECT COUNT(*) FROM follows WHERE follower_id = u.user_id) AS following_count \
     FROM users u WHERE u.username = ?";

/// The statement [`FIND_PROFILE`].
pub open spec fn find_profile_stmt(username: Seq<char>) -> StatementData {
    StatementData { sql: FIND_PROFILE@, params: seq![SqlData::Text(username)] }
}

/// Builds [`FIND_PROFILE`].
pub fn find_profile(username: &str) -> (s: Statement)
    ensures
        s@ == find_profile_stmt(username@),
{
    let s = Statement { sql: FIND_PROFILE, params: vec![text_value(username)] };
    assert(s@.params =~= seq![SqlData::Text(username@)]);
    s
}

/// Counts whether one user follows another.
pub const COUNT_FOLLOW: &'static str =
    "SELECT COUNT(*) FROM follows WHERE follower_id = ? AND followee_id = ?";

/// The statement [`COUNT_FOLLOW`].
pub open spec fn count_follow_stmt(
    follower_id: Seq<char>,
    followee_id: Seq<char>,
) -> StatementData {
    StatementData {
        sql: COUNT_FOLLOW@,
        params: seq![SqlData::Text(follower_id), SqlData::Text(followee_id)],
    }
}

/// Builds [`COUNT_FOLLOW`].
pub fn count_follow(follower_id: &str, followee_id: &str) -> (s: Statement)
    ensures
        s@ == count_follow_stmt(follower_id@, followee_id@),
{
    let s = Statement {
        sql: COUNT_FOLLOW,
        params: vec![text_value(follower_id), text_value(followee_id)],
    };
    assert(s@.params =~= seq![SqlData::Text(follower_id@), SqlData::Text(followee_id@)]);
    s
}

/// Counts the other users with a username.
pub const COUNT_TAKEN: &'static str =
    "SELECT COUNT(*) FROM users WHERE username = ? AND user_id != ?";

/// The statement [`COUNT_TAKEN`].
pub open spec fn count_taken_stmt(username: Seq<char>, user_id: Seq<char>) -> StatementData {
    StatementData {
        sql: COUNT_TAKEN@,
        params: seq![SqlData::Text(username), SqlData::Text(user_id)],
    }
}

/// Builds [`COUNT_TAKEN`].
pub fn count_taken(username: &str, user_id: &str) -> (s: Statement)
    ensures
        s@ == count_taken_stmt(username@, user_id@),
{
    let s = Statement {
        sql: COUNT_TAKEN,
        params: vec![text_value(username), text_value(user_id)],
    };
    assert(s@.params =~= seq![SqlData::Text(username@), SqlData::Text(user_id@)]);
    s
}

/// Sets a user's name and bio.
pub const UPDATE_USER: &'static str =
    "UPDATE users SET username = ?, bio = ?, updated_at = strftime('%Y-%m-%dT%H:%M:%SZ', 'now') \
     WHERE user_id = ?";

/// The statement [`UPDATE_USER`].
pub open spec fn update_user_stmt(
    username: Seq<char>,
    bio: Option<Seq<char>>,
    user_id: Seq<char>,
) -> StatementData {
    StatementData {
        sql: UPDATE_USER@,
        params: seq![SqlData::Text(username), opt_data(bio), SqlData::Text(user_id)],
    }
}

/// Builds [`UPDATE_USER`].
pub fn update_user(username: &str, bio: &Option<String>, user_id: &str) -> (s: Statement)
    ensures
        s@ == update_user_stmt(username@, opt_text(*bio), user_id@),
{
    let s = Statement {
        sql: UPDATE_USER,
        params: vec![text_value(username), opt_value(bio), text_value(user_id)],
    };
    assert(s@.params =~= seq![
        SqlData::Text(username@),
        opt_data(opt_text(*bio)),
        SqlData::Text(user_id@),
    ]);
    s
}

/// Makes a user follow another, named by username.
pub const INSERT_FOLLOW: &'static str =
    "INSERT OR IGNORE INTO follows (follower_id, followee_id) \
     SELECT ?, user_id FROM users WHERE username = ?";

/// The statement [`INSERT_FOLLOW`].
pub open spec fn insert_follow_stmt(
    follower_id: Seq<char>,
    target_username: Seq<char>,
) -> StatementData {
    StatementData {
        sql: INSERT_FOLLOW@,
        params: seq![SqlData::Text(follower_id), SqlData::Text(target_username)],
    }
}

/// Builds [`INSERT_FOLLOW`].
pub fn insert_follow(follower_id: &str, target_username: &str) -> (s: Statement)
    ensures
        s@ == insert_follow_stmt(follower_id@, target_username@),
{
    let s = Statement {
        sql: INSERT_FOLLOW,
        params: vec![text_value(follower_id), text_value(target_username)],
    };
    assert(s@.params =~= seq![SqlData::Text(follower_id@), SqlData::Text(target_username@)]);
    s
}

/// Makes a user no longer follow another, named by username.
pub const DELETE_FOLLOW: &'static str =
    "DELETE FROM follows WHERE follower_id = ? \
     AND followee_id = (SELECT user_id FROM users WHERE username = ?)";

/// The statement [`DELETE_FOLLOW`].
pub open spec fn delete_follow_stmt(
    follower_id: Seq<char>,
    target_username: Seq<char>,
) -> StatementData {
    StatementData {
        sql: DELETE_FOLLOW@,
        params: seq![SqlData::Text(follower_id), SqlData::Text(target_username)],
    }
}

/// Builds [`DELETE_FOLLOW`].
pub fn delete_follow(follower_id: &str, target_username: &str) -> (s: Statement)
    ensures
        s@ == delete_follow_stmt(follower_id@, target_username@),
{
    let s = Statement {
        sql: DELETE_FOLLOW,
        params: vec![text_value(follower_id), text_value(target_username)],
    };
    assert(s@.params =~= seq![SqlData::Text(follower_id@), SqlData::Text(target_username@)]);
    s
}

// ---------------------------------------------------------------------------
// Ratings
// ---------------------------------------------------------------------------

/// Adds the release group of a cached album, unless it is already there.
pub const ENSURE_RELEASE_GROUP: &'static str =
    "INSERT OR IGNORE INTO release_groups (release_group_id, title, primary_type, first_release_year, spotify_id) \
     SELECT ?, title, album_type, CAST(SUBSTR(release_date, 1, 4) AS INTEGER), spotify_id \
     FROM spotify_albums WHERE spotify_id = ?";

/// The statement [`ENSURE_RELEASE_GROUP`].
pub open spec fn ensure_release_group_stmt(
    release_group_id: Seq<char>,
    spotify_id: Seq<char>,
) -> StatementData {
    StatementData {
        sql: ENSURE_RELEASE_GROUP@,
        params: seq![SqlData::Text(release_group_id), SqlData::Text(spotify_id)],
    }
}

/// Builds [`ENSURE_RELEASE_GROUP`].
pub fn ensure_release_group(release_group_id: &str, spotify_id: &str) -> (s: Statement)
    ensures
        s@ == ensure_release_group_stmt(release_group_id@, spotify_id@),
{
    let s = Statement {
        sql: ENSURE_RELEASE_GROUP,
        params: vec![text_value(release_group_id), text_value(spotify_id)],
    };
    assert(s@.params =~= seq![SqlData::Text(release_group_id@), SqlData::Text(spotify_id@)]);
    s
}

/// Finds the release group of an album.
pub const FIND_RELEASE_GROUP: &'static str =
    "SELECT release_group_id FROM release_groups WHERE spotify_id = ?";

/// The statement [`FIND_RELEASE_GROUP`].
pub open spec fn find_release_group_stmt(spotify_id: Seq<char>) -> StatementData {
    StatementData { sql: FIND_RELEASE_GROUP@, params: seq![SqlData::Text(spotify_id)] }
}

/// Builds [`FIND_RELEASE_GROUP`].
pub fn find_release_group(spotify_id: &str) -> (s: Statement)
    ensures
        s@ == find_release_group_stmt(spotify_id@),
{
    let s = Statement { sql: FIND_RELEASE_GROUP, params: vec![text_value(spotify_id)] };
    assert(s@.params =~= seq![SqlData::Text(spotify_id@)]);
    s
}

/// Sets a user's rating of a release group, together with the review and the favorite
/// track: one row per user and release group, replaced by a later rating.
pub const SAVE_RATING: &'static str =
    "INSERT INTO ratings (rating_id, user_id, release_group_id, rating, review, favorite_track_id) \
     VALUES (?, ?, ?, ?, ?, ?) \
     ON CONFLICT(user_id, release_group_id) DO UPDATE SET \
     rating = excluded.rating, \
     review = excluded.review, \
     favorite_track_id = excluded.favorite_track_id, \
     updated_at = strftime('%Y-%m-%dT%H:%M:%SZ', 'now')";

/// The statement [`SAVE_RATING`].
pub open spec fn save_rating_stmt(
    rating_id: Seq<char>,
    user_id: Seq<char>,
    release_group_id: Seq<char>,
    rating: int,
    review: Option<Seq<char>>,
    favorite_track_id: Option<Seq<char>>,
) -> StatementData {
    StatementData {
        sql: SAVE_RATING@,
        params: seq![
            SqlData::Text(rating_id),
            SqlData::Text(user_id),
            SqlData::Text(release_group_id),
            SqlData::Int(rating),
            opt_data(review),
            opt_data(favorite_track_id),
        ],
    }
}

/// Builds [`SAVE_RATING`].
pub fn save_rating(
    rating_id: &str,
    user_id: &str,
    release_group_id: &str,
    rating: i64,
    review: &Option<String>,
    favorite_track_id: &Option<String>,
) -> (s: Statement)
    ensures
        s@ == save_rating_stmt(
            rating_id@,
            user_id@,
            release_group_id@,
            rating as int,
            opt_text(*review),
            opt_text(*favorite_track_id),
        ),
{
    let s = Statement {
        sql: SAVE_RATING,
        params: vec![
            text_value(rating_id),
            text_value(user_id),
            text_value(release_group_id),
            SqlValue::Int(rating),
            opt_value(review),
            opt_value(favorite_track_id),
        ],
    };
    assert(s@.params =~= seq![
        SqlData::Text(rating_id@),
        SqlData::Text(user_id@),
        SqlData::Text(release_group_id@),
        SqlData::Int(rating as int),
        opt_data(opt_text(*review)),
        opt_data(opt_text(*favorite_track_id)),
    ]);
    s
}

/// Finds a user's rating of an album.
pub const FIND_RATING: &'static str =
    "SELECT r.rating, r.review, r.favorite_track_id FROM ratings r \
     JOIN release_groups rg ON r.release_group_id = rg.release_group_id \
     WHERE rg.spotify_id = ? AND r.user_id = ?";

/// The statement [`FIND_RATING`].
pub open spec fn find_rating_stmt(spotify_id: Seq<char>, user_id: Seq<char>) -> StatementData {
    StatementData {
        sql: FIND_RATING@,
        params: seq![SqlData::Text(spotify_id), SqlData::Text(user_id)],
    }
}

/// Builds [`FIND_RATING`].
pub fn find_rating(spotify_id: &str, user_id: &str) -> (s: Statement)
    ensures
        s@ == find_rating_stmt(spotify_id@, user_id@),
{
    let s = Statement {
        sql: FIND_RATING,
        params: vec![text_value(spotify_id), text_value(user_id)],
    };
    assert(s@.params =~= seq![SqlData::Text(spotify_id@), SqlData::Text(user_id@)]);
    s
}

/// Lists the ratings of a user, the latest first, with the name of the favorite track.
pub const LIST_RATINGS: &'static str =
    "SELECT sa.spotify_id, sa.title, sa.artists, sa.album_type, sa.release_date, \
     sa.cover_art IS NOT NULL AS has_cover_art, r.rating, r.review, r.created_at AS rated_at, \
     st.name AS favorite_track_name \
     FROM ratings r \
     JOIN users u ON r.user_id = u.user_id \
     JOIN release_groups rg ON r.release_group_id = rg.release_group_id \
     JOIN spotify_albums sa ON rg.spotify_id = sa.spotify_id \
     LEFT JOIN spotify_tracks st \
     ON st.spotify_id = rg.spotify_id AND st.track_id = r.favorite_track_id \
     WHERE u.username = ? \
     ORDER BY r.created_at DESC";

/// The statement [`LIST_RATINGS`].
pub open spec fn list_ratings_stmt(username: Seq<char>) -> StatementData {
    StatementData { sql: LIST_RATINGS@, params: seq![SqlData::Text(username)] }
}

/// Builds [`LIST_RATINGS`].
pub fn list_ratings(username: &str) -> (s: Statement)
    ensures
        s@ == list_ratings_stmt(username@),
{
    let s = Statement { sql: LIST_RATINGS, params: vec![text_value(username)] };
    assert(s@.params =~= seq![SqlData::Text(username@)]);
    s
}

// ---------------------------------------------------------------------------
// Albums and tracks
// ---------------------------------------------------------------------------

/// Finds a page of results that was cached in the last day.
pub const READ_SEARCH_CACHE: &'static str =
    "SELECT spotify_ids, total FROM spotify_search_cache \
     WHERE query = ? AND result_offset = ? \
     AND datetime(cached_at, '+1 day') > datetime('now')";

/// The statement [`READ_SEARCH_CACHE`].
pub open spec fn read_search_cache_stmt(query: Seq<char>, offset: int) -> StatementData {
    StatementData {
        sql: READ_SEARCH_CACHE@,
        params: seq![SqlData::Text(query), SqlData::Int(offset)],
    }
}

/// Builds [`READ_SEARCH_CACHE`].
pub fn read_search_cache(query: &str, offset: i64) -> (s: Statement)
    ensures
        s@ == read_search_cache_stmt(query@, offset as int),
{
    let s = Statement {
        sql: READ_SEARCH_CACHE,
        params: vec![text_value(query), SqlValue::Int(offset)],
    };
    assert(s@.params =~= seq![SqlData::Text(query@), SqlData::Int(offset as int)]);
    s
}

/// Caches a page of results.
pub const WRITE_SEARCH_CACHE: &'static str =
    "INSERT OR REPLACE INTO spotify_search_cache \
     (query, result_offset, spotify_ids, total, cached_at) \
     VALUES (?, ?, ?, ?, datetime('now'))";

/// The statement [`WRITE_SEARCH_CACHE`].
pub open spec fn write_search_cache_stmt(
    query: Seq<char>,
    offset: int,
    spotify_ids: Seq<char>,
    total: int,
) -> StatementData {
    StatementData {
        sql: WRITE_SEARCH_CACHE@,
        params: seq![
            SqlData::Text(query),
            SqlData::Int(offset),
            SqlData::Text(spotify_ids),
            SqlData::Int(total),
        ],
    }
}

/// Builds [`WRITE_SEARCH_CACHE`].
pub fn write_search_cache(
    query: &str,
    offset: i64,
    spotify_ids: &str,
    total: i64,
) -> (s: Statement)
    ensures
        s@ == write_search_cache_stmt(query@, offset as int, spotify_ids@, total as int),
{
    let s = Statement {
        sql: WRITE_SEARCH_CACHE,
        params: vec![
            text_value(query),
            SqlValue::Int(offset),
            text_value(spotify_ids),
            SqlValue::Int(total),
        ],
    };
    assert(s@.params =~= seq![
        SqlData::Text(query@),
        SqlData::Int(offset as int),
        SqlData::Text(spotify_ids@),
        SqlData::Int(total as int),
    ]);
    s
}

/// Finds a cached album.
pub const FIND_ALBUM: &'static str =
    "SELECT spotify_id, title, artists, album_type, release_date, cover_art \
     FROM spotify_albums WHERE spotify_id = ?";

/// The statement [`FIND_ALBUM`].
pub open spec fn find_album_stmt(spotify_id: Seq<char>) -> StatementData {
    StatementData { sql: FIND_ALBUM@, params: seq![SqlData::Text(spotify_id)] }
}

/// Builds [`FIND_ALBUM`].
pub fn find_album(spotify_id: &str) -> (s: Statement)
    ensures
        s@ == find_album_stmt(spotify_id@),
{
    let s = Statement { sql: FIND_ALBUM, params: vec![text_value(spotify_id)] };
    assert(s@.params =~= seq![SqlData::Text(spotify_id@)]);
    s
}

/// Caches an album or renews all its metadata, and returns whether its cover art
/// is stored. The hit count is kept, and so are the cover art and the time at
/// which the album was first cached.
pub const UPSERT_ALBUM: &'static str =
    "INSERT INTO spotify_albums \
     (spotify_id, title, artists, album_type, release_date, cover_art_url, raw_json) \
     VALUES (?, ?, ?, ?, ?, ?, ?) \
     ON CONFLICT(spotify_id) DO UPDATE SET \
     title         = excluded.title, \
     artists       = excluded.artists, \
     album_type    = excluded.album_type, \
     release_date  = excluded.release_date, \
     cover_art_url = excluded.cover_art_url, \
     raw_json      = excluded.raw_json \
     RETURNING cover_art IS NOT NULL";

/// The statement [`UPSERT_ALBUM`].
pub open spec fn upsert_album_stmt(
    spotify_id: Seq<char>,
    title: Seq<char>,
    artists_json: Seq<char>,
    album_type: Seq<char>,
    release_date: Option<Seq<char>>,
    cover_art_url: Option<Seq<char>>,
    raw_json: Seq<char>,
) -> StatementData {
    StatementData {
        sql: UPSERT_ALBUM@,
        params: seq![
            SqlData::Text(spotify_id),
            SqlData::Text(title),
            SqlData::Text(artists_json),
            SqlData::Text(album_type),
            opt_data(release_date),
            opt_data(cover_art_url),
            SqlData::Text(raw_json),
        ],
    }
}

/// Builds [`UPSERT_ALBUM`].
pub fn upsert_album(
    spotify_id: &str,
    title: &str,
    artists_json: &str,
    album_type: &str,
    release_date: &Option<String>,
    cover_art_url: &Option<String>,
    raw_json: &str,
) -> (s: Statement)
    ensures
        s@ == upsert_album_stmt(
            spotify_id@,
            title@,
            artists_json@,
            album_type@,
            opt_text(*release_date),
            opt_text(*cover_art_url),
            raw_json@,
        ),
{
    let s = Statement {
        sql: UPSERT_ALBUM,
        params: vec![
            text_value(spotify_id),
            text_value(title),
            text_value(artists_json),
            text_value(album_type),
            opt_value(release_date),
            opt_value(cover_art_url),
            text_value(raw_json),
        ],
    };
    assert(s@.params =~= seq![
        SqlData::Text(spotify_id@),
        SqlData::Text(title@),
        SqlData::Text(artists_json@),
        SqlData::Text(album_type@),
        opt_data(opt_text(*release_date)),
        opt_data(opt_text(*cover_art_url)),
        SqlData::Text(raw_json@),
    ]);
    s
}

/// Adds one to an album's hit count and returns it, and whether the album's cover
/// art is stored.
pub const BUMP_HITS: &'static str =
    "UPDATE spotify_albums SET search_hit_count = search_hit_count + 1 \
     WHERE spotify_id = ? \
     RETURNING search_hit_count, cover_art IS NOT NULL";

/// The statement [`BUMP_HITS`].
pub open spec fn bump_hits_stmt(spotify_id: Seq<char>) -> StatementData {
    StatementData { sql: BUMP_HITS@, params: seq![SqlData::Text(spotify_id)] }
}

/// Builds [`BUMP_HITS`].
pub fn bump_hits(spotify_id: &str) -> (s: Statement)
    ensures
        s@ == bump_hits_stmt(spotify_id@),
{
    let s = Statement { sql: BUMP_HITS, params: vec![text_value(spotify_id)] };
    assert(s@.params =~= seq![SqlData::Text(spotify_id@)]);
    s
}

/// Renews the metadata of a cached album.
pub const REFRESH_ALBUM_ROW: &'static str =
    "UPDATE spotify_albums \
     SET title = ?, artists = ?, album_type = ?, release_date = ?, \
     cover_art_url = ?, raw_json = ?, cached_at = datetime('now') \
     WHERE spotify_id = ?";

/// The statement [`REFRESH_ALBUM_ROW`].
pub open spec fn refresh_album_row_stmt(
    title: Seq<char>,
    artists_json: Seq<char>,
    album_type: Seq<char>,
    release_date: Option<Seq<char>>,
    cover_art_url: Option<Seq<char>>,
    raw_json: Seq<char>,
    spotify_id: Seq<char>,
) -> StatementData {
    StatementData {
        sql: REFRESH_ALBUM_ROW@,
        params: seq![
            SqlData::Text(title),
            SqlData::Text(artists_json),
            SqlData::Text(album_type),
            opt_data(release_date),
            opt_data(cover_art_url),
            SqlData::Text(raw_json),
            SqlData::Text(spotify_id),
        ],
    }
}

/// Builds [`REFRESH_ALBUM_ROW`].
pub fn refresh_album_row(
    title: &str,
    artists_json: &str,
    album_type: &str,
    release_date: &Option<String>,
    cover_art_url: &Option<String>,
    raw_json: &str,
    spotify_id: &str,
) -> (s: Statement)
    ensures
        s@ == refresh_album_row_stmt(
            title@,
            artists_json@,
            album_type@,
            opt_text(*release_date),
            opt_text(*cover_art_url),
            raw_json@,
            spotify_id@,
        ),
{
    let s = Statement {
        sql: REFRESH_ALBUM_ROW,
        params: vec![
            text_value(title),
            text_value(artists_json),
            text_value(album_type),
            opt_value(release_date),
            opt_value(cover_art_url),
            text_value(raw_json),
            text_value(spotify_id),
        ],
    };
    assert(s@.params =~= seq![
        SqlData::Text(title@),
        SqlData::Text(artists_json@),
        SqlData::Text(album_type@),
        opt_data(opt_text(*release_date)),
        opt_data(opt_text(*cover_art_url)),
        SqlData::Text(raw_json@),
        SqlData::Text(spotify_id@),
    ]);
    s
}

/// Finds the cover image URL of a cached album.
pub const FIND_COVER_URL: &'static str =
    "SELECT cover_art_url FROM spotify_albums WHERE spotify_id = ?";

/// The statement [`FIND_COVER_URL`].
pub open spec fn find_cover_url_stmt(spotify_id: Seq<char>) -> StatementData {
    StatementData { sql: FIND_COVER_URL@, params: seq![SqlData::Text(spotify_id)] }
}

/// Builds [`FIND_COVER_URL`].
pub fn find_cover_url(spotify_id: &str) -> (s: Statement)
    ensures
        s@ == find_cover_url_stmt(spotify_id@),
{
    let s = Statement { sql: FIND_COVER_URL, params: vec![text_value(spotify_id)] };
    assert(s@.params =~= seq![SqlData::Text(spotify_id@)]);
    s
}

/// Stores the cover image of a cached album.
pub const STORE_COVER_ART: &'static str =
    "UPDATE spotify_albums SET cover_art = ? WHERE spotify_id = ?";

/// The statement [`STORE_COVER_ART`].
pub open spec fn store_cover_art_stmt(
    cover_art: Seq<u8>,
    spotify_id: Seq<char>,
) -> StatementData {
    StatementData {
        sql: STORE_COVER_ART@,
        params: seq![SqlData::Blob(cover_art), SqlData::Text(spotify_id)],
    }
}

/// Builds [`STORE_COVER_ART`].
pub fn store_cover_art(cover_art: Vec<u8>, spotify_id: &str) -> (s: Statement)
    ensures
        s@ == store_cover_art_stmt(cover_art@, spotify_id@),
{
    let ghost cover_art_bytes = cover_art@;
    let s = Statement {
        sql: STORE_COVER_ART,
        params: vec![SqlValue::Blob(cover_art), text_value(spotify_id)],
    };
    assert(s@.params =~= seq![SqlData::Blob(cover_art_bytes), SqlData::Text(spotify_id@)]);
    s
}

/// Lists the cached tracks of an album, by disc and track number.
pub const LIST_TRACKS: &'static str =
    "SELECT track_id, disc_number, track_number, name, artists, duration_ms \
     FROM spotify_tracks WHERE spotify_id = ? \
     ORDER BY disc_number, track_number";

/// The statement [`LIST_TRACKS`].
pub open spec fn list_tracks_stmt(spotify_id: Seq<char>) -> StatementData {
    StatementData { sql: LIST_TRACKS@, params: seq![SqlData::Text(spotify_id)] }
}

/// Builds [`LIST_TRACKS`].
pub fn list_tracks(spotify_id: &str) -> (s: Statement)
    ensures
        s@ == list_tracks_stmt(spotify_id@),
{
    let s = Statement { sql: LIST_TRACKS, params: vec![text_value(spotify_id)] };
    assert(s@.params =~= seq![SqlData::Text(spotify_id@)]);
    s
}

/// Caches a track, unless it is already there.
pub const INSERT_TRACK: &'static str =
    "INSERT OR IGNORE INTO spotify_tracks \
     (spotify_id, track_id, disc_number, track_number, name, artists, duration_ms) \
     VALUES (?, ?, ?, ?, ?, ?, ?)";

/// The statement [`INSERT_TRACK`].
pub open spec fn insert_track_stmt(
    spotify_id: Seq<char>,
    track_id: Seq<char>,
    disc_number: int,
    track_number: int,
    name: Seq<char>,
    artists_json: Seq<char>,
    duration_ms: Option<u32>,
) -> StatementData {
    StatementData {
        sql: INSERT_TRACK@,
        params: seq![
            SqlData::Text(spotify_id),
            SqlData::Text(track_id),
            SqlData::Int(disc_number),
            SqlData::Int(track_number),
            SqlData::Text(name),
            SqlData::Text(artists_json),
            opt_int_data(duration_ms),
        ],
    }
}

/// Builds [`INSERT_TRACK`].
pub fn insert_track(
    spotify_id: &str,
    track_id: &str,
    disc_number: i64,
    track_number: i64,
    name: &str,
    artists_json: &str,
    duration_ms: Option<u32>,
) -> (s: Statement)
    ensures
        s@ == insert_track_stmt(
            spotify_id@,
            track_id@,
            disc_number as int,
            track_number as int,
            name@,
            artists_json@,
            duration_ms,
        ),
{
    let s = Statement {
        sql: INSERT_TRACK,
        params: vec![
            text_value(spotify_id),
            text_value(track_id),
            SqlValue::Int(disc_number),
            SqlValue::Int(track_number),
            text_value(name),
            text_value(artists_json),
            opt_int_value(duration_ms),
        ],
    };
    assert(s@.params =~= seq![
        SqlData::Text(spotify_id@),
        SqlData::Text(track_id@),
        SqlData::Int(disc_number as int),
        SqlData::Int(track_number as int),
        SqlData::Text(name@),
        SqlData::Text(artists_json@),
        opt_int_data(duration_ms),
    ]);
    s
}

// ---------------------------------------------------------------------------
// Follow lists
// ---------------------------------------------------------------------------

/// Lists the users who follow a user, by name: one more than a page, from an offset.
pub const LIST_FOLLOWERS: &'static str =
    "SELECT u.user_id, u.username, u.bio, \
     (SELECT COUNT(*) FROM follows WHERE followee_id = u.user_id) AS follower_count, \
     CASE WHEN vf.follower_id IS NOT NULL THEN 1 ELSE 0 END AS is_following \
     FROM users u \
     INNER JOIN follows f ON f.follower_id = u.user_id \
     AND f.followee_id = (SELECT user_id FROM users WHERE username = ?) \
     LEFT JOIN follows vf ON vf.follower_id = ? AND vf.followee_id = u.user_id \
     WHERE (? = '' OR u.username LIKE ? ESCAPE '\\') \
     ORDER BY u.username \
     LIMIT 21 OFFSET ?";

/// The statement [`LIST_FOLLOWERS`].
pub open spec fn list_followers_stmt(
    target_username: Seq<char>,
    viewer_id: Seq<char>,
    query: Seq<char>,
    pattern: Seq<char>,
    offset: int,
) -> StatementData {
    StatementData {
        sql: LIST_FOLLOWERS@,
        params: seq![
            SqlData::Text(target_username),
            SqlData::Text(viewer_id),
            SqlData::Text(query),
            SqlData::Text(pattern),
            SqlData::Int(offset),
        ],
    }
}

/// Builds [`LIST_FOLLOWERS`].
pub fn list_followers(
    target_username: &str,
    viewer_id: &str,
    query: &str,
    pattern: &str,
    offset: i64,
) -> (s: Statement)
    ensures
        s@ == list_followers_stmt(target_username@, viewer_id@, query@, pattern@, offset as int),
{
    let s = Statement {
        sql: LIST_FOLLOWERS,
        params: vec![
            text_value(target_username),
            text_value(viewer_id),
            text_value(query),
            text_value(pattern),
            SqlValue::Int(offset),
        ],
    };
    assert(s@.params =~= seq![
        SqlData::Text(target_username@),
        SqlData::Text(viewer_id@),
        SqlData::Text(query@),
        SqlData::Text(pattern@),
        SqlData::Int(offset as int),
    ]);
    s
}

/// Lists the users that a user follows, by name: one more than a page, from an offset.
pub const LIST_FOLLOWING: &'static str =
    "SELECT u.user_id, u.username, u.bio, \
     (SELECT COUNT(*) FROM follows WHERE followee_id = u.user_id) AS follower_count, \
     CASE WHEN vf.follower_id IS NOT NULL THEN 1 ELSE 0 END AS is_following \
     FROM users u \
     INNER JOIN follows f ON f.followee_id = u.user_id \
     AND f.follower_id = (SELECT user_id FROM users WHERE username = ?) \
     LEFT JOIN follows vf ON vf.follower_id = ? AND vf.followee_id = u.user_id \
     WHERE (? = '' OR u.username LIKE ? ESCAPE '\\') \
     ORDER BY u.username \
     LIMIT 21 OFFSET ?";

/// The statement [`LIST_FOLLOWING`].
pub open spec fn list_following_stmt(
    target_username: Seq<char>,
    viewer_id: Seq<char>,
    query: Seq<char>,
    pattern: Seq<char>,
    offset: int,
) -> StatementData {
    StatementData {
        sql: LIST_FOLLOWING@,
        params: seq![
            SqlData::Text(target_username),
            SqlData::Text(viewer_id),
            SqlData::Text(query),
            SqlData::Text(pattern),
            SqlData::Int(offset),
        ],
    }
}

/// Builds [`LIST_FOLLOWING`].
pub fn list_following(
    target_username: &str,
    viewer_id: &str,
    query: &str,
    pattern: &str,
    offset: i64,
) -> (s: Statement)
    ensures
        s@ == list_following_stmt(target_username@, viewer_id@, query@, pattern@, offset as int),
{
    let s = Statement {
        sql: LIST_FOLLOWING,
        params: vec![
            text_value(target_username),
            text_value(viewer_id),
            text_value(query),
            text_value(pattern),
            SqlValue::Int(offset),
        ],
    };
    assert(s@.params =~= seq![
        SqlData::Text(target_username@),
        SqlData::Text(viewer_id@),
        SqlData::Text(query@),
        SqlData::Text(pattern@),
        SqlData::Int(offset as int),
    ]);
    s
}

// ---------------------------------------------------------------------------
// Laws
// ---------------------------------------------------------------------------

/// The contents of a statement are its own text and its own parameters, one for
/// one and each of its kind.
pub proof fn law_statement_contents(s: Statement, i: int)
    requires
        0 <= i < s.params@.len(),
    ensures
        s@.sql == s.sql@,
        s@.params.len() == s.params@.len(),
        s.params@[i] is Null ==> s@.params[i] == SqlData::Null,
        s.params@[i] matches SqlValue::Int(n) ==> s@.params[i] == SqlData::Int(n as int),
        s.params@[i] matches SqlValue::Text(t) ==> s@.params[i] == SqlData::Text(t@),
        s.params@[i] matches SqlValue::Blob(b) ==> s@.params[i] == SqlData::Blob(b@),
{
}

/// Different parameters have different contents.
pub proof fn law_parameters_are_told_apart(a: SqlValue, b: SqlValue)
    requires
        a@ == b@,
    ensures
        a is Null <==> b is Null,
        a is Int <==> b is Int,
        a is Text <==> b is Text,
        a is Blob <==> b is Blob,
        a is Int ==> a->Int_0 == b->Int_0,
        a is Text ==> a->Text_0@ == b->Text_0@,
        a is Blob ==> a->Blob_0@ == b->Blob_0@,
{
}

/// Remembers a sign-in that was started: its state token and its PKCE verifier.
/// The statement has this text, and these parameters for its marks.
pub proof fn law_save_oauth_state(csrf_token: &str, pkce_verifier: &str, s: Statement)
    requires
        call_ensures(save_oauth_state, (csrf_token, pkce_verifier), s),
    ensures
        s.sql@ == "INSERT INTO oauth_states (csrf_token, pkce_verifier) VALUES (?, ?)"@,
        s@.params == seq![SqlData::Text(csrf_token@), SqlData::Text(pkce_verifier@)],
{
}

/// Finds the PKCE verifier of a sign-in that was started in the last ten minutes.
/// The statement has this text, and these parameters for its marks.
pub proof fn law_find_pkce_verifier(csrf_token: &str, s: Statement)
    requires
        call_ensures(find_pkce_verifier, (csrf_token,), s),
    ensures
        s.sql@ == (
            "SELECT pkce_verifier FROM oauth_states \
             WHERE csrf_token = ? \
             AND created_at > strftime('%Y-%m-%dT%H:%M:%SZ', 'now', '-10 minutes')"
        )@,
        s@.params == seq![SqlData::Text(csrf_token@)],
{
}

/// Counts the sign-ins with a state token that were started in the last ten minutes.
/// The statement has this text, and these parameters for its marks.
pub proof fn law_count_oauth_states(csrf_token: &str, s: Statement)
    requires
        call_ensures(count_oauth_states, (csrf_token,), s),
    ensures
        s.sql@ == (
            "SELECT COUNT(*) FROM oauth_states \
             WHERE csrf_token = ? \
             AND created_at > strftime('%Y-%m-%dT%H:%M:%SZ', 'now', '-10 minutes')"
        )@,
        s@.params == seq![SqlData::Text(csrf_token@)],
{
}

/// Forgets a sign-in that was started.
/// The statement has this text, and these parameters for its marks.
pub proof fn law_delete_oauth_state(csrf_token: &str, s: Statement)
    requires
        call_ensures(delete_oauth_state, (csrf_token,), s),
    ensures
        s.sql@ == "DELETE FROM oauth_states WHERE csrf_token = ?"@,
        s@.params == seq![SqlData::Text(csrf_token@)],
{
}

/// Finds the user of a session that has not expired.
/// The statement has this text, and these parameters for its marks.
pub proof fn law_find_session_user(session_id: &str, s: Statement)
    requires
        call_ensures(find_session_user, (session_id,), s),
    ensures
        s.sql@ == (
            "SELECT u.user_id, u.username \
             FROM sessions s JOIN users u ON s.user_id = u.user_id \
             WHERE s.session_id = ? \
             AND s.expires_at > strftime('%Y-%m-%dT%H:%M:%SZ', 'now')"
        )@,
        s@.params == seq![SqlData::Text(session_id@)],
{
}

/// Ends a session.
/// The statement has this text, and these parameters for its marks.
pub proof fn law_delete_session(session_id: &str, s: Statement)
    requires
        call_ensures(delete_session, (session_id,), s),
    ensures
        s.sql@ == "DELETE FROM sessions WHERE session_id = ?"@,
        s@.params == seq![SqlData::Text(session_id@)],
{
}

/// Opens a session that expires after thirty days.
/// The statement has this text, and these parameters for its marks.
pub proof fn law_insert_session(session_id: &str, user_id: &str, s: Statement)
    requires
        call_ensures(insert_session, (session_id, user_id), s),
    ensures
        s.sql@ == (
            "INSERT INTO sessions (session_id, user_id, expires_at) \
             VALUES (?, ?, strftime('%Y-%m-%dT%H:%M:%SZ', 'now', '+30 days'))"
        )@,
        s@.params == seq![SqlData::Text(session_id@), SqlData::Text(user_id@)],
{
}

/// Finds the user that an account of a provider is linked to.
/// The statement has this text, and these parameters for its marks.
pub proof fn law_find_account(provider: &str, provider_uid: &str, s: Statement)
    requires
        call_ensures(find_account, (provider, provider_uid), s),
    ensures
        s.sql@ == (
            "SELECT user_id FROM oauth_accounts WHERE provider = ? AND provider_uid = ?"
        )@,
        s@.params == seq![SqlData::Text(provider@), SqlData::Text(provider_uid@)],
{
}

/// Adds a user, unless the username or the email is already there.
/// The statement has this text, and these parameters for its marks.
pub proof fn law_insert_user(user_id: &str, username: &str, email: &str, s: Statement)
    requires
        call_ensures(insert_user, (user_id, username, email), s),
    ensures
        s.sql@ == "INSERT OR IGNORE INTO users (user_id, username, email) VALUES (?, ?, ?)"@,
        s@.params == seq![SqlData::Text(user_id@), SqlData::Text(username@), SqlData::Text(email@)],
{
}

/// Finds the user with an email.
/// The statement has this text, and these parameters for its marks.
pub proof fn law_find_user_by_email(email: &str, s: Statement)
    requires
        call_ensures(find_user_by_email, (email,), s),
    ensures
        s.sql@ == "SELECT user_id FROM users WHERE email = ?"@,
        s@.params == seq![SqlData::Text(email@)],
{
}

/// Links an account of a provider to a user, unless it is already linked.
/// The statement has this text, and these parameters for its marks.
pub proof fn law_link_account(user_id: &str, provider: &str, provider_uid: &str, s: Statement)
    requires
        call_ensures(link_account, (user_id, provider, provider_uid), s),
    ensures
        s.sql@ == (
            "INSERT OR IGNORE INTO oauth_accounts \
             (user_id, provider, provider_uid) VALUES (?, ?, ?)"
        )@,
        s@.params == seq![
            SqlData::Text(user_id@),
            SqlData::Text(provider@),
            SqlData::Text(provider_uid@),
        ],
{
}

/// Counts the users with a username.
/// The statement has this text, and these parameters for its marks.
pub proof fn law_count_username(username: &str, s: Statement)
    requires
        call_ensures(count_username, (username,), s),
    ensures
        s.sql@ == "SELECT COUNT(*) FROM users WHERE username = ?"@,
        s@.params == seq![SqlData::Text(username@)],
{
}

/// Finds a user by name, with the numbers of followers and of followed users.
/// The statement has this text, and these parameters for its marks.
pub proof fn law_find_profile(username: &str, s: Statement)
    requires
        call_ensures(find_profile, (username,), s),
    ensures
        s.sql@ == (
            "SELECT u.user_id, u.bio, u.created_at, \
             (SELECT COUNT(*) FROM follows WHERE followee_id = u.user_id) AS follower_count, \
             (SELECT COUNT(*) FROM follows WHERE follower_id = u.user_id) AS following_count \
             FROM users u WHERE u.username = ?"
        )@,
        s@.params == seq![SqlData::Text(username@)],
{
}

/// Counts whether one user follows another.
/// The statement has this text, and these parameters for its marks.
pub proof fn law_count_follow(follower_id: &str, followee_id: &str, s: Statement)
    requires
        call_ensures(count_follow, (follower_id, followee_id), s),
    ensures
        s.sql@ == "SELECT COUNT(*) FROM follows WHERE follower_id = ? AND followee_id = ?"@,
        s@.params == seq![SqlData::Text(follower_id@), SqlData::Text(followee_id@)],
{
}

/// Counts the other users with a username.
/// The statement has this text, and these parameters for its marks.
pub proof fn law_count_taken(username: &str, user_id: &str, s: Statement)
    requires
        call_ensures(count_taken, (username, user_id), s),
    ensures
        s.sql@ == "SELECT COUNT(*) FROM users WHERE username = ? AND user_id != ?"@,
        s@.params == seq![SqlData::Text(username@), SqlData::Text(user_id@)],
{
}

/// Sets a user's name and bio.
/// The statement has this text, and these parameters for its marks.
pub proof fn law_update_user(username: &str, bio: &Option<String>, user_id: &str, s: Statement)
    requires
        call_ensures(update_user, (username, bio, user_id), s),
    ensures
        s.sql@ == (
            "UPDATE users SET username = ?, bio = ?, updated_at = strftime('%Y-%m-%dT%H:%M:%SZ', 'now') \
             WHERE user_id = ?"
        )@,
        s@.params == seq![
            SqlData::Text(username@),
            match *bio {
                Some(t) => SqlData::Text(t@),
                None => SqlData::Null,
            },
            SqlData::Text(user_id@),
        ],
{
}

/// Makes a user follow another, named by username.
/// The statement has this text, and these parameters for its marks.
pub proof fn law_insert_follow(follower_id: &str, target_username: &str, s: Statement)
    requires
        call_ensures(insert_follow, (follower_id, target_username), s),
    ensures
        s.sql@ == (
            "INSERT OR IGNORE INTO follows (follower_id, followee_id) \
             SELECT ?, user_id FROM users WHERE username = ?"
        )@,
        s@.params == seq![SqlData::Text(follower_id@), SqlData::Text(target_username@)],
{
}

/// Makes a user no longer follow another, named by username.
/// The statement has this text, and these parameters for its marks.
pub proof fn law_delete_follow(follower_id: &str, target_username: &str, s: Statement)
    requires
        call_ensures(delete_follow, (follower_id, target_username), s),
    ensures
        s.sql@ == (
            "DELETE FROM follows WHERE follower_id = ? \
             AND followee_id = (SELECT user_id FROM users WHERE username = ?)"
        )@,
        s@.params == seq![SqlData::Text(follower_id@), SqlData::Text(target_username@)],
{
}

/// Adds the release group of a cached album, unless it is already there.
/// The statement has this text, and these parameters for its marks.
pub proof fn law_ensure_release_group(release_group_id: &str, spotify_id: &str, s: Statement)
    requires
        call_ensures(ensure_release_group, (release_group_id, spotify_id), s),
    ensures
        s.sql@ == (
            "INSERT OR IGNORE INTO release_groups (release_group_id, title, primary_type, first_release_year, spotify_id) \
             SELECT ?, title, album_type, CAST(SUBSTR(release_date, 1, 4) AS INTEGER), spotify_id \
             FROM spotify_albums WHERE spotify_id = ?"
        )@,
        s@.params == seq![SqlData::Text(release_group_id@), SqlData::Text(spotify_id@)],
{
}

/// Finds the release group of an album.
/// The statement has this text, and these parameters for its marks.
pub proof fn law_find_release_group(spotify_id: &str, s: Statement)
    requires
        call_ensures(find_release_group, (spotify_id,), s),
    ensures
        s.sql@ == "SELECT release_group_id FROM release_groups WHERE spotify_id = ?"@,
        s@.params == seq![SqlData::Text(spotify_id@)],
{
}

/// Sets a user's rating of a release group, together with the review and the favorite
/// track: one row per user and release group, replaced by a later rating.
/// The statement has this text, and these parameters for its marks.
pub proof fn law_save_rating(
    rating_id: &str,
    user_id: &str,
    release_group_id: &str,
    rating: i64,
    review: &Option<String>,
    favorite_track_id: &Option<String>,
    s: Statement,
)
    requires
        call_ensures(
            save_rating,
            (rating_id, user_id, release_group_id, rating, review, favorite_track_id),
            s,
        ),
    ensures
        s.sql@ == (
            "INSERT INTO ratings (rating_id, user_id, release_group_id, rating, review, favorite_track_id) \
             VALUES (?, ?, ?, ?, ?, ?) \
             ON CONFLICT(user_id, release_group_id) DO UPDATE SET \
             rating = excluded.rating, \
             review = excluded.review, \
             favorite_track_id = excluded.favorite_track_id, \
             updated_at = strftime('%Y-%m-%dT%H:%M:%SZ', 'now')"
        )@,
        s@.params == seq![
            SqlData::Text(rating_id@),
            SqlData::Text(user_id@),
            SqlData::Text(release_group_id@),
            SqlData::Int(rating as int),
            match *review {
                Some(t) => SqlData::Text(t@),
                None => SqlData::Null,
            },
            match *favorite_track_id {
                Some(t) => SqlData::Text(t@),
                None => SqlData::Null,
            },
        ],
{
}

/// Finds a user's rating of an album.
/// The statement has this text, and these parameters for its marks.
pub proof fn law_find_rating(spotify_id: &str, user_id: &str, s: Statement)
    requires
        call_ensures(find_rating, (spotify_id, user_id), s),
    ensures
        s.sql@ == (
            "SELECT r.rating, r.review, r.favorite_track_id FROM ratings r \
             JOIN release_groups rg ON r.release_group_id = rg.release_group_id \
             WHERE rg.spotify_id = ? AND r.user_id = ?"
        )@,
        s@.params == seq![SqlData::Text(spotify_id@), SqlData::Text(user_id@)],
{
}

/// Lists the ratings of a user, the latest first, with the name of the favorite track.
/// The statement has this text, and these parameters for its marks.
pub proof fn law_list_ratings(username: &str, s: Statement)
    requires
        call_ensures(list_ratings, (username,), s),
    ensures
        s.sql@ == (
            "SELECT sa.spotify_id, sa.title, sa.artists, sa.album_type, sa.release_date, \
             sa.cover_art IS NOT NULL AS has_cover_art, r.rating, r.review, r.created_at AS rated_at, \
             st.name AS favorite_track_name \
             FROM ratings r \
             JOIN users u ON r.user_id = u.user_id \
             JOIN release_groups rg ON r.release_group_id = rg.release_group_id \
             JOIN spotify_albums sa ON rg.spotify_id = sa.spotify_id \
             LEFT JOIN spotify_tracks st \
             ON st.spotify_id = rg.spotify_id AND st.track_id = r.favorite_track_id \
             WHERE u.username = ? \
             ORDER BY r.created_at DESC"
        )@,
        s@.params == seq![SqlData::Text(username@)],
{
}

/// Finds a page of results that was cached in the last day.
/// The statement has this text, and these parameters for its marks.
pub proof fn law_read_search_cache(query: &str, offset: i64, s: Statement)
    requires
        call_ensures(read_search_cache, (query, offset), s),
    ensures
        s.sql@ == (
            "SELECT spotify_ids, total FROM spotify_search_cache \
             WHERE query = ? AND result_offset = ? \
             AND datetime(cached_at, '+1 day') > datetime('now')"
        )@,
        s@.params == seq![SqlData::Text(query@), SqlData::Int(offset as int)],
{
}

/// Caches a page of results.
/// The statement has this text, and these parameters for its marks.
pub proof fn law_write_search_cache(
    query: &str,
    offset: i64,
    spotify_ids: &str,
    total: i64,
    s: Statement,
)
    requires
        call_ensures(write_search_cache, (query, offset, spotify_ids, total), s),
    ensures
        s.sql@ == (
            "INSERT OR REPLACE INTO spotify_search_cache \
             (query, result_offset, spotify_ids, total, cached_at) \
             VALUES (?, ?, ?, ?, datetime('now'))"
        )@,
        s@.params == seq![
            SqlData::Text(query@),
            SqlData::Int(offset as int),
            SqlData::Text(spotify_ids@),
            SqlData::Int(total as int),
        ],
{
}

/// Finds a cached album.
/// The statement has this text, and these parameters for its marks.
pub proof fn law_find_album(spotify_id: &str, s: Statement)
    requires
        call_ensures(find_album, (spotify_id,), s),
    ensures
        s.sql@ == (
            "SELECT spotify_id, title, artists, album_type, release_date, cover_art \
             FROM spotify_albums WHERE spotify_id = ?"
        )@,
        s@.params == seq![SqlData::Text(spotify_id@)],
{
}

/// Caches an album or renews all its metadata, and returns whether its cover art
/// is stored. The hit count is kept, and so are the cover art and the time at
/// which the album was first cached.
/// The statement has this text, and these parameters for its marks.
pub proof fn law_upsert_album(
    spotify_id: &str,
    title: &str,
    artists_json: &str,
    album_type: &str,
    release_date: &Option<String>,
    cover_art_url: &Option<String>,
    raw_json: &str,
    s: Statement,
)
    requires
        call_ensures(
            upsert_album,
            (spotify_id, title, artists_json, album_type, release_date, cover_art_url, raw_json),
            s,
        ),
    ensures
        s.sql@ == (
            "INSERT INTO spotify_albums \
             (spotify_id, title, artists, album_type, release_date, cover_art_url, raw_json) \
             VALUES (?, ?, ?, ?, ?, ?, ?) \
             ON CONFLICT(spotify_id) DO UPDATE SET \
             title         = excluded.title, \
             artists       = excluded.artists, \
             album_type    = excluded.album_type, \
             release_date  = excluded.release_date, \
             cover_art_url = excluded.cover_art_url, \
             raw_json      = excluded.raw_json \
             RETURNING cover_art IS NOT NULL"
        )@,
        s@.params == seq![
            SqlData::Text(spotify_id@),
            SqlData::Text(title@),
            SqlData::Text(artists_json@),
            SqlData::Text(album_type@),
            match *release_date {
                Some(t) => SqlData::Text(t@),
                None => SqlData::Null,
            },
            match *cover_art_url {
                Some(t) => SqlData::Text(t@),
                None => SqlData::Null,
            },
            SqlData::Text(raw_json@),
        ],
{
}

/// Adds one to an album's hit count and returns it, and whether the album's cover
/// art is stored.
/// The statement has this text, and these parameters for its marks.
pub proof fn law_bump_hits(spotify_id: &str, s: Statement)
    requires
        call_ensures(bump_hits, (spotify_id,), s),
    ensures
        s.sql@ == (
            "UPDATE spotify_albums SET search_hit_count = search_hit_count + 1 \
             WHERE spotify_id = ? \
             RETURNING search_hit_count, cover_art IS NOT NULL"
        )@,
        s@.params == seq![SqlData::Text(spotify_id@)],
{
}

/// Renews the metadata of a cached album.
/// The statement has this text, and these parameters for its marks.
pub proof fn law_refresh_album_row(
    title: &str,
    artists_json: &str,
    album_type: &str,
    release_date: &Option<String>,
    cover_art_url: &Option<String>,
    raw_json: &str,
    spotify_id: &str,
    s: Statement,
)
    requires
        call_ensures(
            refresh_album_row,
            (title, artists_json, album_type, release_date, cover_art_url, raw_json, spotify_id),
            s,
        ),
    ensures
        s.sql@ == (
            "UPDATE spotify_albums \
             SET title = ?, artists = ?, album_type = ?, release_date = ?, \
             cover_art_url = ?, raw_json = ?, cached_at = datetime('now') \
             WHERE spotify_id = ?"
        )@,
        s@.params == seq![
            SqlData::Text(title@),
            SqlData::Text(artists_json@),
            SqlData::Text(album_type@),
            match *release_date {
                Some(t) => SqlData::Text(t@),
                None => SqlData::Null,
            },
            match *cover_art_url {
                Some(t) => SqlData::Text(t@),
                None => SqlData::Null,
            },
            SqlData::Text(raw_json@),
            SqlData::Text(spotify_id@),
        ],
{
}

/// Finds the cover image URL of a cached album.
/// The statement has this text, and these parameters for its marks.
pub proof fn law_find_cover_url(spotify_id: &str, s: Statement)
    requires
        call_ensures(find_cover_url, (spotify_id,), s),
    ensures
        s.sql@ == "SELECT cover_art_url FROM spotify_albums WHERE spotify_id = ?"@,
        s@.params == seq![SqlData::Text(spotify_id@)],
{
}

/// Stores the cover image of a cached album.
/// The statement has this text, and these parameters for its marks.
pub proof fn law_store_cover_art(cover_art: Vec<u8>, spotify_id: &str, s: Statement)
    requires
        call_ensures(store_cover_art, (cover_art, spotify_id), s),
    ensures
        s.sql@ == "UPDATE spotify_albums SET cover_art = ? WHERE spotify_id = ?"@,
        s@.params == seq![SqlData::Blob(cover_art@), SqlData::Text(spotify_id@)],
{
}

/// Lists the cached tracks of an album, by disc and track number.
/// The statement has this text, and these parameters for its marks.
pub proof fn law_list_tracks(spotify_id: &str, s: Statement)
    requires
        call_ensures(list_tracks, (spotify_id,), s),
    ensures
        s.sql@ == (
            "SELECT track_id, disc_number, track_number, name, artists, duration_ms \
             FROM spotify_tracks WHERE spotify_id = ? \
             ORDER BY disc_number, track_number"
        )@,
        s@.params == seq![SqlData::Text(spotify_id@)],
{
}

/// Caches a track, unless it is already there.
/// The statement has this text, and these parameters for its marks.
pub proof fn law_insert_track(
    spotify_id: &str,
    track_id: &str,
    disc_number: i64,
    track_number: i64,
    name: &str,
    artists_json: &str,
    duration_ms: Option<u32>,
    s: Statement,
)
    requires
        call_ensures(
            insert_track,
            (spotify_id, track_id, disc_number, track_number, name, artists_json, duration_ms),
            s,
        ),
    ensures
        s.sql@ == (
            "INSERT OR IGNORE INTO spotify_tracks \
             (spotify_id, track_id, disc_number, track_number, name, artists, duration_ms) \
             VALUES (?, ?, ?, ?, ?, ?, ?)"
        )@,
        s@.params == seq![
            SqlData::Text(spotify_id@),
            SqlData::Text(track_id@),
            SqlData::Int(disc_number as int),
            SqlData::Int(track_number as int),
            SqlData::Text(name@),
            SqlData::Text(artists_json@),
            match duration_ms {
                Some(n) => SqlData::Int(n as int),
                None => SqlData::Null,
            },
        ],
{
}

/// Lists the users who follow a user, by name: one more than a page, from an offset.
/// The statement has this text, and these parameters for its marks.
pub proof fn law_list_followers(
    target_username: &str,
    viewer_id: &str,
    query: &str,
    pattern: &str,
    offset: i64,
    s: Statement,
)
    requires
        call_ensures(list_followers, (target_username, viewer_id, query, pattern, offset), s),
    ensures
        s.sql@ == (
            "SELECT u.user_id, u.username, u.bio, \
             (SELECT COUNT(*) FROM follows WHERE followee_id = u.user_id) AS follower_count, \
             CASE WHEN vf.follower_id IS NOT NULL THEN 1 ELSE 0 END AS is_following \
             FROM users u \
             INNER JOIN follows f ON f.follower_id = u.user_id \
             AND f.followee_id = (SELECT user_id FROM users WHERE username = ?) \
             LEFT JOIN follows vf ON vf.follower_id = ? AND vf.followee_id = u.user_id \
             WHERE (? = '' OR u.username LIKE ? ESCAPE '\\') \
             ORDER BY u.username \
             LIMIT 21 OFFSET ?"
        )@,
        s@.params == seq![
            SqlData::Text(target_username@),
            SqlData::Text(viewer_id@),
            SqlData::Text(query@),
            SqlData::Text(pattern@),
            SqlData::Int(offset as int),
        ],
{
}

/// Lists the users that a user follows, by name: one more than a page, from an offset.
/// The statement has this text, and these parameters for its marks.
pub proof fn law_list_following(
    target_username: &str,
    viewer_id: &str,
    query: &str,
    pattern: &str,
    offset: i64,
    s: Statement,
)
    requires
        call_ensures(list_following, (target_username, viewer_id, query, pattern, offset), s),
    ensures
        s.sql@ == (
            "SELECT u.user_id, u.username, u.bio, \
             (SELECT COUNT(*) FROM follows WHERE followee_id = u.user_id) AS follower_count, \
             CASE WHEN vf.follower_id IS NOT NULL THEN 1 ELSE 0 END AS is_following \
             FROM users u \
             INNER JOIN follows f ON f.followee_id = u.user_id \
             AND f.follower_id = (SELECT user_id FROM users WHERE username = ?) \
             LEFT JOIN follows vf ON vf.follower_id = ? AND vf.followee_id = u.user_id \
             WHERE (? = '' OR u.username LIKE ? ESCAPE '\\') \
             ORDER BY u.username \
             LIMIT 21 OFFSET ?"
        )@,
        s@.params == seq![
            SqlData::Text(target_username@),
            SqlData::Text(viewer_id@),
            SqlData::Text(query@),
            SqlData::Text(pattern@),
            SqlData::Int(offset as int),
        ],
{
}

} // verus!
