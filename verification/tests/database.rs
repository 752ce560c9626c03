// The statements of the library, run on a database in memory.

use musicboxd::albums::{store_album, store_track};
use musicboxd::catalog::{SpotifyApiAlbum, SpotifyApiArtist, SpotifyApiTrack, SpotifyImage};
use musicboxd::follow::{get_followers, get_following};
use musicboxd::profile::{follow_user, unfollow_user};
use musicboxd::ratings::get_user_ratings;
use musicboxd::session::CurrentUser;
use musicboxd::store::{
    bump_hits, count_follow, count_oauth_states, count_taken, count_username, delete_oauth_state,
    delete_session, ensure_release_group, find_account, find_album, find_cover_url,
    find_pkce_verifier, find_profile, find_rating, find_release_group, find_session_user,
    find_user_by_email, insert_session, insert_user, link_account, list_tracks,
    read_search_cache, refresh_album_row, save_oauth_state, save_rating, store_cover_art,
    update_user, write_search_cache, SqlValue, Statement,
};
use sqlx::sqlite::{SqlitePoolOptions, SqliteRow};
use sqlx::{Row, SqlitePool};

const SCHEMA: [&str; 10] = [
    "CREATE TABLE users (user_id TEXT PRIMARY KEY, username TEXT NOT NULL UNIQUE, \
     email TEXT NOT NULL UNIQUE, bio TEXT, \
     created_at TEXT NOT NULL DEFAULT (strftime('%Y-%m-%dT%H:%M:%SZ', 'now')), updated_at TEXT)",
    "CREATE TABLE oauth_accounts (user_id TEXT NOT NULL, provider TEXT NOT NULL, \
     provider_uid TEXT NOT NULL, PRIMARY KEY (provider, provider_uid))",
    "CREATE TABLE oauth_states (csrf_token TEXT PRIMARY KEY, pkce_verifier TEXT NOT NULL, \
     created_at TEXT NOT NULL DEFAULT (strftime('%Y-%m-%dT%H:%M:%SZ', 'now')))",
    "CREATE TABLE sessions (session_id TEXT PRIMARY KEY, user_id TEXT NOT NULL, \
     expires_at TEXT NOT NULL)",
    "CREATE TABLE follows (follower_id TEXT NOT NULL, followee_id TEXT NOT NULL, \
     PRIMARY KEY (follower_id, followee_id), CHECK (follower_id != followee_id))",
    "CREATE TABLE spotify_albums (spotify_id TEXT PRIMARY KEY, title TEXT NOT NULL, \
     artists TEXT NOT NULL, album_type TEXT, release_date TEXT, cover_art BLOB, \
     cover_art_url TEXT, raw_json TEXT NOT NULL, search_hit_count INTEGER NOT NULL DEFAULT 0, \
     cached_at TEXT NOT NULL DEFAULT (datetime('now')))",
    "CREATE TABLE spotify_tracks (spotify_id TEXT NOT NULL, track_id TEXT NOT NULL, \
     disc_number INTEGER NOT NULL DEFAULT 1, track_number INTEGER NOT NULL, name TEXT NOT NULL, \
     artists TEXT NOT NULL, duration_ms INTEGER, PRIMARY KEY (spotify_id, track_id))",
    "CREATE TABLE spotify_search_cache (query TEXT NOT NULL, result_offset INTEGER NOT NULL, \
     spotify_ids TEXT NOT NULL, total INTEGER NOT NULL, cached_at TEXT NOT NULL, \
     PRIMARY KEY (query, result_offset))",
    "CREATE TABLE release_groups (release_group_id TEXT PRIMARY KEY, title TEXT NOT NULL, \
     primary_type TEXT, first_release_year INTEGER, spotify_id TEXT UNIQUE)",
    "CREATE TABLE ratings (rating_id TEXT PRIMARY KEY, user_id TEXT NOT NULL, \
     release_group_id TEXT NOT NULL, rating INTEGER NOT NULL, review TEXT, \
     favorite_track_id TEXT, \
     created_at TEXT NOT NULL DEFAULT (strftime('%Y-%m-%dT%H:%M:%SZ', 'now')), \
     updated_at TEXT, UNIQUE (user_id, release_group_id))",
];

struct Db {
    runtime: tokio::runtime::Runtime,
    pool: SqlitePool,
}

impl Db {
    fn new() -> Db {
        let runtime = tokio::runtime::Builder::new_current_thread().enable_all().build().unwrap();
        let pool = runtime.block_on(async {
            SqlitePoolOptions::new().max_connections(1).connect("sqlite::memory:").await.unwrap()
        });
        let db = Db { runtime, pool };
        for table in SCHEMA {
            db.execute(table);
        }
        db
    }

    fn execute(&self, sql: &str) {
        self.runtime.block_on(async { sqlx::query(sql).execute(&self.pool).await.unwrap() });
    }

    fn query(&self, statement: Statement) -> Vec<SqliteRow> {
        let mut query = sqlx::query(statement.sql);
        for param in statement.params {
            query = match param {
                SqlValue::Null => query.bind(None::<String>),
                SqlValue::Int(n) => query.bind(n),
                SqlValue::Text(s) => query.bind(s),
                SqlValue::Blob(b) => query.bind(b),
            };
        }
        self.runtime.block_on(async { query.fetch_all(&self.pool).await.unwrap() })
    }

    fn ask(&self, sql: &str) -> Option<String> {
        let rows = self
            .runtime
            .block_on(async { sqlx::query(sql).fetch_all(&self.pool).await.unwrap() });
        rows[0].get(0)
    }

    fn number(&self, statement: Statement) -> i64 {
        self.query(statement)[0].get(0)
    }

    fn user(&self, id: &str, username: &str) {
        self.query(insert_user(id, username, &format!("{id}@x.com")));
    }

    fn follow(&self, follower_id: &str, followee_username: &str) {
        let viewer = viewer(follower_id);
        self.query(follow_user(&viewer, followee_username).ok().unwrap());
    }

    fn names(&self, statement: Statement) -> Vec<String> {
        self.query(statement).iter().map(|r| r.get("username")).collect()
    }
}

fn viewer(user_id: &str) -> Option<CurrentUser> {
    Some(CurrentUser { user_id: user_id.to_string(), username: String::new() })
}

fn album(name: &str, url: &str) -> SpotifyApiAlbum {
    SpotifyApiAlbum {
        id: "sp1".to_string(),
        name: name.to_string(),
        artists: vec![SpotifyApiArtist { name: "Artist A".to_string() }],
        album_type: "album".to_string(),
        release_date: Some("2020-01-01".to_string()),
        images: vec![SpotifyImage { url: url.to_string(), width: None }],
        tracks: None,
    }
}

fn track(id: &str, number: u32, name: &str) -> SpotifyApiTrack {
    SpotifyApiTrack {
        id: id.to_string(),
        name: name.to_string(),
        artists: vec![SpotifyApiArtist { name: "Artist A".to_string() }],
        disc_number: 1,
        track_number: number,
        duration_ms: None,
    }
}

// One user, one album and one release group.
fn fixtures() -> Db {
    let db = Db::new();
    db.query(insert_user("u1", "alice", "a@x.com"));
    db.query(store_album(&album("Test Album", "http://img")));
    db.query(ensure_release_group("rg1", "sp1"));
    db
}

fn rate(db: &Db, rating_id: &str, rating: i64, favorite_track_id: Option<&str>) {
    let favorite = favorite_track_id.map(|s| s.to_string());
    db.query(save_rating(rating_id, "u1", "rg1", rating, &None, &favorite));
}

const FAVORITE: &str = "SELECT favorite_track_id FROM ratings WHERE user_id = 'u1'";

#[test]
fn saving_favorite_track_stores_track_id() {
    let db = fixtures();
    db.query(store_track("sp1", &track("t1", 1, "Best Track")));
    rate(&db, "r1", 8, Some("t1"));
    assert_eq!(
        db.ask(FAVORITE).as_deref(),
        Some("t1"),
        "favorite_track_id should be stored alongside the rating"
    );
}

#[test]
fn updating_rating_replaces_favorite_track() {
    let db = fixtures();
    db.query(store_track("sp1", &track("t1", 1, "First Fave")));
    db.query(store_track("sp1", &track("t2", 1, "Second Fave")));
    rate(&db, "r1", 7, Some("t1"));
    rate(&db, "r2", 9, Some("t2"));
    let count = db.ask("SELECT CAST(COUNT(*) AS TEXT) FROM ratings WHERE user_id = 'u1'");
    assert_eq!(count.as_deref(), Some("1"), "upsert must keep exactly one row per user/album");
    assert_eq!(
        db.ask(FAVORITE).as_deref(),
        Some("t2"),
        "favorite_track_id should be replaced with the new track ID on upsert"
    );
}

#[test]
fn clearing_favorite_track_sets_null() {
    let db = fixtures();
    db.query(store_track("sp1", &track("t1", 1, "Some Track")));
    rate(&db, "r1", 8, Some("t1"));
    rate(&db, "r2", 8, None);
    assert!(
        db.ask(FAVORITE).is_none(),
        "favorite_track_id should be NULL after being cleared with None"
    );
}

#[test]
fn get_my_rating_returns_favorite_track_id() {
    let db = fixtures();
    db.query(store_track("sp1", &track("t1", 1, "Fave Track")));
    rate(&db, "r1", 7, Some("t1"));
    let rows = db.query(find_rating("sp1", "u1"));
    let favorite_track_id: Option<String> = rows[0].get("favorite_track_id");
    assert_eq!(
        favorite_track_id.as_deref(),
        Some("t1"),
        "get_my_rating query must return the favorite_track_id column"
    );
    assert_eq!(rows[0].get::<i64, _>("rating"), 7);
    assert_eq!(rows[0].get::<Option<String>, _>("review"), None);
}

#[test]
fn get_user_ratings_resolves_track_name() {
    let db = fixtures();
    db.query(store_track("sp1", &track("t1", 1, "Greatest Hit")));
    rate(&db, "r1", 9, Some("t1"));
    let rows = db.query(get_user_ratings("alice"));
    assert_eq!(rows.len(), 1, "alice should have exactly one rated album");
    let favorite_track_name: Option<String> = rows[0].get("favorite_track_name");
    assert_eq!(favorite_track_name.as_deref(), Some("Greatest Hit"));
    assert_eq!(rows[0].get::<i64, _>("has_cover_art"), 0);
    assert_eq!(rows[0].get::<String, _>("artists"), "[\"Artist A\"]");
}

#[test]
fn rate_album_upserts_release_group() {
    let db = fixtures();
    db.query(ensure_release_group("rg2", "sp1"));
    let groups = db.ask("SELECT CAST(COUNT(*) AS TEXT) FROM release_groups WHERE spotify_id = 'sp1'");
    assert_eq!(groups.as_deref(), Some("1"), "exactly one release_groups row should exist");
    let year = db.ask("SELECT CAST(first_release_year AS TEXT) FROM release_groups");
    assert_eq!(year.as_deref(), Some("2020"));
    let rows = db.query(find_release_group("sp1"));
    assert_eq!(rows[0].get::<String, _>(0), "rg1");
    rate(&db, "r1", 8, None);
    assert_eq!(db.query(find_rating("sp1", "u1"))[0].get::<i64, _>("rating"), 8);
    db.query(ensure_release_group("rg3", "unknown"));
    assert!(db.query(find_release_group("unknown")).is_empty());
}

#[test]
fn rating_update_on_duplicate() {
    let db = Db::new();
    db.query(insert_user("u1", "alice", "a@x.com"));
    let mut rated = album("Test Album", "http://img");
    rated.release_date = Some("2020".to_string());
    db.query(store_album(&rated));
    db.query(ensure_release_group("rg1", "sp1"));
    rate(&db, "r1", 7, None);
    rate(&db, "r2", 9, None);
    let count = db.ask("SELECT CAST(COUNT(*) AS TEXT) FROM ratings WHERE user_id = 'u1'");
    assert_eq!(count.as_deref(), Some("1"), "only one rating row should exist after upsert");
    let rating = db.ask("SELECT CAST(rating AS TEXT) FROM ratings WHERE user_id = 'u1'");
    assert_eq!(rating.as_deref(), Some("9"), "rating should be updated to 9");
}

#[test]
fn follow_and_unfollow() {
    let db = Db::new();
    db.query(insert_user("u1", "alice", "a@x.com"));
    db.query(insert_user("u2", "bob", "b@x.com"));
    db.query(insert_user("u3", "carol", "c@x.com"));
    db.follow("u1", "carol");
    db.follow("u3", "bob");
    db.query(follow_user(&viewer("u1"), "bob").ok().unwrap());
    db.query(follow_user(&viewer("u1"), "bob").ok().unwrap());
    assert_eq!(db.number(count_follow("u1", "u2")), 1, "follow row should exist");
    assert_eq!(db.number(count_follow("u2", "u1")), 0);
    db.query(unfollow_user(&viewer("u1"), "bob").ok().unwrap());
    assert_eq!(
        db.number(count_follow("u1", "u2")),
        0,
        "follow row should be gone after unfollow"
    );
    assert_eq!(db.number(count_follow("u1", "u3")), 1);
    assert_eq!(db.number(count_follow("u3", "u2")), 1);
    db.query(follow_user(&viewer("u1"), "alice").ok().unwrap());
    assert_eq!(db.number(count_follow("u1", "u1")), 0);
    db.query(follow_user(&viewer("u1"), "nobody").ok().unwrap());
    assert_eq!(
        db.ask("SELECT CAST(COUNT(*) AS TEXT) FROM follows").as_deref(),
        Some("2")
    );
}

#[test]
fn update_profile_rejects_taken_username() {
    let db = Db::new();
    db.query(insert_user("u1", "alice", "a@x.com"));
    db.query(insert_user("u2", "bob", "b@x.com"));
    assert_eq!(
        db.number(count_taken("bob", "u1")),
        1,
        "should detect that 'bob' is already taken by another user"
    );
    assert_eq!(db.number(count_taken("alice", "u1")), 0);
    let result = db.runtime.block_on(async {
        sqlx::query("UPDATE users SET username = 'bob' WHERE user_id = 'u1'")
            .execute(&db.pool)
            .await
    });
    assert!(result.is_err(), "direct update to taken username should fail");
    db.query(update_user("al", &Some("hi".to_string()), "u1"));
    let rows = db.query(find_profile("al"));
    assert_eq!(rows[0].get::<String, _>("user_id"), "u1");
    assert_eq!(rows[0].get::<Option<String>, _>("bio").as_deref(), Some("hi"));
    assert!(db.query(find_profile("alice")).is_empty());
}

#[test]
fn profiles_count_followers() {
    let db = Db::new();
    db.user("u1", "alice");
    db.user("u2", "bob");
    db.user("u3", "carol");
    db.follow("u2", "alice");
    db.follow("u3", "alice");
    db.follow("u1", "bob");
    let rows = db.query(find_profile("alice"));
    assert_eq!(rows[0].get::<i64, _>("follower_count"), 2);
    assert_eq!(rows[0].get::<i64, _>("following_count"), 1);
    assert_eq!(rows[0].get::<String, _>("created_at").len(), 20);
}

#[test]
fn followers_returns_users_who_follow_target() {
    let db = Db::new();
    db.user("u1", "alice");
    db.user("u2", "bob");
    db.user("u3", "carol");
    db.follow("u2", "alice");
    db.follow("u3", "alice");
    let names = db.names(get_followers(&None, "alice", "", 1));
    assert_eq!(names.len(), 2, "alice has two followers");
    assert!(names.contains(&"bob".to_string()));
    assert!(names.contains(&"carol".to_string()));
    assert!(!names.contains(&"alice".to_string()), "target should not appear in own follower list");
}

#[test]
fn followers_excludes_users_not_following_target() {
    let db = Db::new();
    db.user("u1", "alice");
    db.user("u2", "bob");
    db.user("u3", "carol");
    db.follow("u2", "alice");
    let names = db.names(get_followers(&None, "alice", "", 1));
    assert_eq!(names.len(), 1, "only one follower");
    assert_eq!(names[0], "bob");
}

#[test]
fn followers_query_filter_matches_substring() {
    let db = Db::new();
    db.user("u1", "alice");
    db.user("u2", "bob");
    db.user("u3", "barbara");
    db.follow("u2", "alice");
    db.follow("u3", "alice");
    let names = db.names(get_followers(&None, "alice", "barb", 1));
    assert_eq!(names.len(), 1, "only barbara matches 'barb'");
    assert_eq!(names[0], "barbara");
}

#[test]
fn followers_is_following_reflects_viewer_state() {
    let db = Db::new();
    db.user("u1", "alice");
    db.user("u2", "bob");
    db.user("u3", "carol");
    db.follow("u2", "alice");
    db.follow("u3", "alice");
    db.follow("u2", "carol");
    let rows = db.query(get_followers(&viewer("u2"), "alice", "", 1));
    assert_eq!(rows.len(), 2);
    for row in &rows {
        let username: String = row.get("username");
        let is_following: i64 = row.get("is_following");
        match username.as_str() {
            "carol" => assert_eq!(is_following, 1, "bob follows carol"),
            "bob" => assert_eq!(is_following, 0, "bob cannot follow himself"),
            other => panic!("unexpected user {other}"),
        }
    }
}

fn crowd(name: &str, count: u32, followers: bool) -> Db {
    let db = Db::new();
    db.user("u1", "alice");
    for i in 0..count {
        let uid = format!("u{}", i + 2);
        let uname = format!("{name}{i:02}");
        db.user(&uid, &uname);
        if followers {
            db.follow(&uid, "alice");
        } else {
            db.follow("u1", &uname);
        }
    }
    db
}

#[test]
fn followers_has_more_true_when_over_20() {
    let db = crowd("follower", 21, true);
    let names = db.names(get_followers(&None, "alice", "", 1));
    assert_eq!(names.len(), 21, "query returns 21 rows so caller knows has_more = true");
}

#[test]
fn followers_has_more_false_when_leq_20() {
    let db = crowd("follower", 5, true);
    let names = db.names(get_followers(&None, "alice", "", 1));
    assert!(names.len() <= 20, "≤20 rows means has_more = false");
    assert_eq!(names.len(), 5);
}

#[test]
fn followers_empty_for_nonexistent_target() {
    let db = Db::new();
    db.user("u1", "alice");
    db.user("u2", "bob");
    db.follow("u2", "alice");
    assert_eq!(db.names(get_followers(&None, "nobody", "", 1)).len(), 0);
}

#[test]
fn followers_second_page_returns_remainder() {
    let db = crowd("follower", 21, true);
    let names = db.names(get_followers(&None, "alice", "", 2));
    assert_eq!(names.len(), 1, "21st follower appears on page 2");
}

#[test]
fn following_returns_users_target_follows() {
    let db = Db::new();
    db.user("u1", "alice");
    db.user("u2", "bob");
    db.user("u3", "carol");
    db.follow("u1", "bob");
    db.follow("u1", "carol");
    let names = db.names(get_following(&None, "alice", "", 1));
    assert_eq!(names.len(), 2);
    assert!(names.contains(&"bob".to_string()));
    assert!(names.contains(&"carol".to_string()));
    assert!(!names.contains(&"alice".to_string()), "target should not appear in own following list");
}

#[test]
fn following_excludes_users_target_does_not_follow() {
    let db = Db::new();
    db.user("u1", "alice");
    db.user("u2", "bob");
    db.user("u3", "carol");
    db.follow("u1", "bob");
    let names = db.names(get_following(&None, "alice", "", 1));
    assert_eq!(names.len(), 1);
    assert_eq!(names[0], "bob");
}

#[test]
fn following_query_filter_matches_substring() {
    let db = Db::new();
    db.user("u1", "alice");
    db.user("u2", "bob");
    db.user("u3", "barbara");
    db.follow("u1", "bob");
    db.follow("u1", "barbara");
    let names = db.names(get_following(&None, "alice", "barb", 1));
    assert_eq!(names.len(), 1);
    assert_eq!(names[0], "barbara");
}

#[test]
fn following_is_following_reflects_viewer_state() {
    let db = Db::new();
    db.user("u1", "alice");
    db.user("u2", "bob");
    db.user("u3", "carol");
    db.follow("u1", "bob");
    db.follow("u1", "carol");
    let rows = db.query(get_following(&viewer("u1"), "alice", "", 1));
    assert_eq!(rows.len(), 2);
    for row in &rows {
        let username: String = row.get("username");
        let is_following: i64 = row.get("is_following");
        assert_eq!(is_following, 1, "alice follows {username}");
    }
}

#[test]
fn following_has_more_true_when_over_20() {
    let db = crowd("followed", 21, false);
    let names = db.names(get_following(&None, "alice", "", 1));
    assert_eq!(names.len(), 21, "21 rows means has_more = true");
}

#[test]
fn following_second_page_returns_remainder() {
    let db = crowd("followed", 21, false);
    let names = db.names(get_following(&None, "alice", "", 2));
    assert_eq!(names.len(), 1, "21st followed user appears on page 2");
}

#[test]
fn following_empty_for_nonexistent_target() {
    let db = Db::new();
    db.user("u1", "alice");
    db.user("u2", "bob");
    db.follow("u1", "bob");
    assert_eq!(db.names(get_following(&None, "nobody", "", 1)).len(), 0);
}

#[test]
fn patterns_match_their_own_characters_only() {
    let db = Db::new();
    db.user("u1", "alice");
    for (id, name) in [("u2", "a_b"), ("u3", "axb"), ("u4", "50%"), ("u5", "500")] {
        db.user(id, name);
        db.follow(id, "alice");
    }
    assert_eq!(db.names(get_followers(&None, "alice", "a_b", 1)), vec!["a_b"]);
    assert_eq!(db.names(get_followers(&None, "alice", "50%", 1)), vec!["50%"]);
    assert_eq!(db.names(get_followers(&None, "alice", "b", 1)), vec!["a_b", "axb"]);
}

#[test]
fn oauth_states_insert_and_retrieve() {
    let db = Db::new();
    db.query(save_oauth_state("csrf-abc", "pkce-xyz"));
    let rows = db.query(find_pkce_verifier("csrf-abc"));
    assert_eq!(rows.len(), 1, "recently inserted state should be found within TTL");
    assert_eq!(rows[0].get::<String, _>(0), "pkce-xyz");
    assert_eq!(db.number(count_oauth_states("csrf-abc")), 1);
    db.query(delete_oauth_state("csrf-abc"));
    assert_eq!(db.number(count_oauth_states("csrf-abc")), 0);
}

#[test]
fn oauth_states_expired_not_returned() {
    let db = Db::new();
    db.execute(
        "INSERT INTO oauth_states (csrf_token, pkce_verifier, created_at) \
         VALUES ('csrf-old', 'pkce-xyz', strftime('%Y-%m-%dT%H:%M:%SZ', 'now', '-11 minutes'))",
    );
    assert!(
        db.query(find_pkce_verifier("csrf-old")).is_empty(),
        "state older than 10 minutes should not be returned"
    );
    assert_eq!(db.number(count_oauth_states("csrf-old")), 0);
}

#[test]
fn sessions_valid_session_returned() {
    let db = Db::new();
    db.query(insert_user("u1", "alice", "a@x.com"));
    db.query(insert_session("sess-1", "u1"));
    let rows = db.query(find_session_user("sess-1"));
    assert_eq!(rows.len(), 1, "valid session should be found");
    assert_eq!(rows[0].get::<String, _>("username"), "alice");
    assert_eq!(rows[0].get::<String, _>("user_id"), "u1");
    db.query(delete_session("sess-1"));
    assert!(db.query(find_session_user("sess-1")).is_empty());
}

#[test]
fn sessions_expired_not_returned() {
    let db = Db::new();
    db.query(insert_user("u1", "alice", "a@x.com"));
    db.execute(
        "INSERT INTO sessions (session_id, user_id, expires_at) \
         VALUES ('sess-old', 'u1', strftime('%Y-%m-%dT%H:%M:%SZ', 'now', '-1 day'))",
    );
    assert!(
        db.query(find_session_user("sess-old")).is_empty(),
        "expired session should not be returned"
    );
}

#[test]
fn accounts_are_linked_once() {
    let db = Db::new();
    db.query(insert_user("u1", "alice", "a@x.com"));
    db.query(insert_user("u2", "other", "a@x.com"));
    assert_eq!(db.query(find_user_by_email("a@x.com"))[0].get::<String, _>(0), "u1");
    assert_eq!(db.number(count_username("alice")), 1);
    assert_eq!(db.number(count_username("other")), 0);
    assert!(db.query(find_account("google", "g-1")).is_empty());
    db.query(link_account("u1", "google", "g-1"));
    db.query(link_account("u9", "google", "g-1"));
    assert_eq!(db.query(find_account("google", "g-1"))[0].get::<String, _>(0), "u1");
}

#[test]
fn albums_keep_their_hits_when_they_are_stored_again() {
    let db = Db::new();
    db.query(store_album(&album("First", "http://a")));
    assert_eq!(db.number(bump_hits("sp1")), 1);
    db.query(store_album(&album("Second", "http://b")));
    assert_eq!(db.number(bump_hits("sp1")), 2);
    let rows = db.query(find_album("sp1"));
    assert_eq!(rows[0].get::<String, _>("title"), "Second");
    assert_eq!(rows[0].get::<String, _>("artists"), "[\"Artist A\"]");
    assert_eq!(rows[0].get::<Option<Vec<u8>>, _>("cover_art"), None);
    let url: Option<String> = db.query(find_cover_url("sp1"))[0].get(0);
    assert_eq!(url.as_deref(), Some("http://b"));
    let flag = |row: &SqliteRow, column: usize| row.get::<i64, _>(column) != 0;
    assert!(!flag(&db.query(store_album(&album("Second", "http://b")))[0], 0));
    db.query(store_cover_art(vec![1, 2, 3], "sp1"));
    assert!(flag(&db.query(store_album(&album("Second", "http://b")))[0], 0));
    assert_eq!(
        db.query(find_album("sp1"))[0].get::<Option<Vec<u8>>, _>("cover_art"),
        Some(vec![1, 2, 3])
    );
    db.query(refresh_album_row("Third", "[]", "single", &None, &None, "{}", "sp1"));
    let rows = db.query(find_album("sp1"));
    assert_eq!(rows[0].get::<String, _>("title"), "Third");
    assert_eq!(rows[0].get::<Option<String>, _>("release_date"), None);
    let hit = db.query(bump_hits("sp1"));
    assert_eq!(hit[0].get::<i64, _>(0), 3);
    assert!(flag(&hit[0], 1));
}

#[test]
fn tracks_are_listed_by_disc_and_number() {
    let db = Db::new();
    let mut second_disc = track("t3", 1, "C");
    second_disc.disc_number = 2;
    for t in [&second_disc, &track("t2", 2, "B"), &track("t1", 1, "A"), &track("t1", 9, "again")] {
        db.query(store_track("sp1", t));
    }
    let names: Vec<String> =
        db.query(list_tracks("sp1")).iter().map(|r| r.get("name")).collect();
    assert_eq!(names, vec!["A", "B", "C"]);
}

#[test]
fn search_pages_are_cached_for_a_day() {
    let db = Db::new();
    db.query(write_search_cache("moon", 0, "[\"a\"]", 5));
    db.query(write_search_cache("moon", 10, "[\"b\"]", 5));
    db.query(write_search_cache("moon", 0, "[\"c\"]", 6));
    let rows = db.query(read_search_cache("moon", 0));
    assert_eq!(rows[0].get::<String, _>("spotify_ids"), "[\"c\"]");
    assert_eq!(rows[0].get::<i64, _>("total"), 6);
    assert!(db.query(read_search_cache("moon", 20)).is_empty());
    db.execute("UPDATE spotify_search_cache SET cached_at = datetime('now', '-25 hours')");
    assert!(db.query(read_search_cache("moon", 0)).is_empty());
}
