use axum::http::{HeaderMap, HeaderValue};
use musicboxd::albums::{get_album_detail, AlbumStep, DetailStep};
use musicboxd::catalog::{
    DbSpotifyAlbum, DbTrack, SpotifyApiAlbum, SpotifyApiArtist, SpotifyApiTrack, SpotifyImage,
};
use musicboxd::refresh::{fetch_and_store_cover_art, refresh_album, CoverArtStep, RefreshStep};
use musicboxd::spotify::{
    read_reply, read_secs, retry_after_secs, ApiReply, BackgroundJob, SpotifyClient, SpotifyError,
    TokenResponse, TokenStep,
};
use musicboxd::store::{
    DbError, SqlValue, Statement, FIND_ALBUM, FIND_COVER_URL, INSERT_TRACK, LIST_TRACKS,
    REFRESH_ALBUM_ROW, STORE_COVER_ART, UPSERT_ALBUM,
};

const SECOND: u64 = 1_000_000_000;

fn received<T>(status: u16, body: Option<T>) -> ApiReply<T> {
    ApiReply::Received { status, headers: HeaderMap::new(), body }
}

fn db_error() -> DbError {
    DbError { message: "disk full".to_string() }
}

fn api_album(images: Vec<SpotifyImage>, tracks: Option<Vec<SpotifyApiTrack>>) -> SpotifyApiAlbum {
    SpotifyApiAlbum {
        id: "sp1".to_string(),
        name: "Rumours".to_string(),
        artists: vec![SpotifyApiArtist { name: "Fleetwood \"Mac\"".to_string() }],
        album_type: "album".to_string(),
        release_date: Some("1977-02-04".to_string()),
        images,
        tracks,
    }
}

fn cover(url: &str) -> Vec<SpotifyImage> {
    vec![SpotifyImage { url: url.to_string(), width: Some(640) }]
}

fn api_track(id: &str, number: u32) -> SpotifyApiTrack {
    SpotifyApiTrack {
        id: id.to_string(),
        name: format!("Track {number}"),
        artists: vec![SpotifyApiArtist { name: "Fleetwood Mac".to_string() }],
        disc_number: 1,
        track_number: number,
        duration_ms: Some(1000 * number),
    }
}

fn text(value: &SqlValue) -> &str {
    match value {
        SqlValue::Text(s) => s,
        _ => panic!("a text was expected"),
    }
}

// Reads the row that an upsert writes.
fn row_of(statement: &Statement) -> DbSpotifyAlbum {
    assert_eq!(statement.sql, UPSERT_ALBUM);
    DbSpotifyAlbum {
        spotify_id: text(&statement.params[0]).to_string(),
        title: text(&statement.params[1]).to_string(),
        artists: text(&statement.params[2]).to_string(),
        album_type: Some(text(&statement.params[3]).to_string()),
        release_date: Some(text(&statement.params[4]).to_string()),
        cover_art: None,
    }
}

fn is_cover_job(job: &Option<BackgroundJob>, id: &str, address: &str) -> bool {
    matches!(
        job,
        Some(BackgroundJob::StoreCoverArt { spotify_id, url }) if spotify_id == id && url == address
    )
}

#[test]
fn answers_are_read_by_their_status() {
    assert_eq!(read_reply::<u8>(ApiReply::Failed), Err(SpotifyError::Transport));
    assert_eq!(read_reply(received(200, Some(7))), Ok(7));
    assert_eq!(read_reply(received(299, Some(7))), Ok(7));
    assert_eq!(read_reply::<u8>(received(200, None)), Err(SpotifyError::BadBody));
    assert_eq!(read_reply(received(199, Some(7))), Err(SpotifyError::Http { status: 199 }));
    assert_eq!(read_reply(received(300, Some(7))), Err(SpotifyError::Http { status: 300 }));
    assert_eq!(read_reply(received(404, Some(7))), Err(SpotifyError::Http { status: 404 }));
    assert_eq!(
        read_reply(received(429, Some(7))),
        Err(SpotifyError::RateLimited { retry_after_secs: 5 })
    );
}

#[test]
fn the_wait_is_in_the_retry_after_header() {
    let with = |value: &'static str| {
        let mut headers = HeaderMap::new();
        headers.insert("Retry-After", HeaderValue::from_static(value));
        headers
    };
    assert_eq!(retry_after_secs(&with("30")), 30);
    assert_eq!(retry_after_secs(&with("0")), 0);
    assert_eq!(retry_after_secs(&with("soon")), 5);
    assert_eq!(retry_after_secs(&with("18446744073709551616")), 5);
    assert_eq!(retry_after_secs(&HeaderMap::new()), 5);
    let mut opaque = HeaderMap::new();
    opaque.insert("Retry-After", HeaderValue::from_bytes(b"3\xff").unwrap());
    assert_eq!(retry_after_secs(&opaque), 5);
    assert_eq!(read_secs(&Some("12".to_string())), 12);
    assert_eq!(read_secs(&None), 5);
    let reply: ApiReply<u8> = ApiReply::Received { status: 429, headers: with("9"), body: None };
    assert_eq!(read_reply(reply), Err(SpotifyError::RateLimited { retry_after_secs: 9 }));
}

#[test]
fn users_are_told_little_of_errors_and_the_log_more() {
    assert_eq!(SpotifyError::Transport.message(), "internal server error");
    assert_eq!(SpotifyError::Http { status: 500 }.message(), "internal server error");
    assert_eq!(
        SpotifyError::NotConfigured.message(),
        "Spotify is not configured on this server"
    );
    assert_eq!(
        SpotifyError::RateLimited { retry_after_secs: 30 }.description(),
        "rate limited, retry after 30s"
    );
    assert_eq!(SpotifyError::Http { status: 404 }.description(), "HTTP 404");
    assert_eq!(SpotifyError::NotConfigured.description(), "no Spotify credentials");
    assert_eq!(SpotifyError::Transport.description(), "request error");
    assert_eq!(SpotifyError::BadBody.description(), "response parse error");
    assert_eq!(SpotifyError::Database.description(), "DB error");
    assert_eq!(SpotifyError::CacheCorrupt.description(), "search cache parse error");
    assert_eq!(
        SpotifyError::MissingAlbumRow.description(),
        "album row missing despite cached tracks"
    );
}

#[test]
fn credentials_come_from_the_environment() {
    let some = |s: &str| Some(s.to_string());
    let client = SpotifyClient::from_env(some("id"), some("secret")).ok().unwrap();
    let credentials = client.credentials.unwrap();
    assert_eq!((credentials.client_id.as_str(), credentials.client_secret.as_str()), ("id", "secret"));
    assert_eq!(
        SpotifyClient::from_env(None, some("secret")).err().unwrap(),
        "SPOTIFY_CLIENT_ID not set"
    );
    assert_eq!(
        SpotifyClient::from_env(some("id"), None).err().unwrap(),
        "SPOTIFY_CLIENT_SECRET not set"
    );
}

#[test]
fn a_token_is_fetched_and_used_until_its_last_minute() {
    let mut client = SpotifyClient::from_env(Some("id".to_string()), Some("s".to_string()))
        .ok()
        .unwrap();
    match client.token(0) {
        TokenStep::Fetch(request) => {
            assert_eq!(request.url, "https://accounts.spotify.com/api/token");
            assert_eq!(request.client_id, "id");
            assert_eq!(request.client_secret, "s");
            assert_eq!(request.form, ("grant_type", "client_credentials"));
        }
        _ => panic!("a token has to be fetched"),
    }
    let body = TokenResponse { access_token: "t1".to_string(), expires_in: 3600 };
    let token = client.accept_token(received(200, Some(body)), 10 * SECOND);
    assert_eq!(token.ok().as_deref(), Some("t1"));
    let last = 10 * SECOND + 3540 * SECOND;
    assert!(matches!(client.token(10 * SECOND), TokenStep::Ready(t) if t == "t1"));
    assert!(matches!(client.token(last), TokenStep::Ready(t) if t == "t1"));
    assert!(matches!(client.token(last + 1), TokenStep::Fetch(_)));
    let failed = client.accept_token(received(500, None), last + 1);
    assert_eq!(failed.err(), Some(SpotifyError::Http { status: 500 }));
    assert!(matches!(client.token(last), TokenStep::Ready(t) if t == "t1"));
}

#[test]
fn short_lived_and_very_long_lived_tokens() {
    let mut client = SpotifyClient::new_test();
    let short = TokenResponse { access_token: "a".to_string(), expires_in: 59 };
    assert!(client.accept_token(received(200, Some(short)), 0).is_ok());
    assert!(matches!(client.token(0), TokenStep::Fetch(_)));
    let long = TokenResponse { access_token: "b".to_string(), expires_in: u64::MAX };
    assert!(client.accept_token(received(200, Some(long)), u64::MAX).is_ok());
    assert!(matches!(client.token(u64::MAX), TokenStep::Ready(t) if t == "b"));
}

#[test]
fn without_credentials_everything_fails_with_a_clear_message() {
    let client = SpotifyClient::unconfigured();
    assert!(matches!(client.token(0), TokenStep::Fail(SpotifyError::NotConfigured)));
    assert!(matches!(
        client.get_album("sp1"),
        AlbumStep::Done { result: Err(SpotifyError::NotConfigured), job: None }
    ));
    assert!(matches!(
        get_album_detail(&client, "sp1"),
        DetailStep::Done { result: Err(SpotifyError::NotConfigured), job: None }
    ));
}

#[test]
fn a_stored_album_is_answered_from_the_database() {
    let client = SpotifyClient::new_test();
    let then = match client.get_album("sp1") {
        AlbumStep::FindAlbum { statement, then } => {
            assert_eq!(statement.sql, FIND_ALBUM);
            assert_eq!(text(&statement.params[0]), "sp1");
            then
        }
        _ => panic!("the album has to be looked up"),
    };
    let row = DbSpotifyAlbum {
        spotify_id: "sp1".to_string(),
        title: "Rumours".to_string(),
        artists: "[\"Fleetwood Mac\"]".to_string(),
        album_type: None,
        release_date: None,
        cover_art: Some(vec![1]),
    };
    match then.resume(Ok(Some(row))) {
        AlbumStep::Done { result: Ok(album), job: None } => {
            assert_eq!(album.title, "Rumours");
            assert!(album.has_cover_art);
        }
        _ => panic!("the album has to be answered"),
    }
}

#[test]
fn an_album_from_spotify_is_stored_and_reads_back() {
    let client = SpotifyClient::new_test();
    let AlbumStep::FindAlbum { then, .. } = client.get_album("asked") else { panic!() };
    let AlbumStep::GetToken { then } = then.resume(Ok(None)) else { panic!() };
    let (request, then) = match then.resume(Ok("tok".to_string())) {
        AlbumStep::CallApi { request, then } => (request, then),
        _ => panic!("the API has to be asked"),
    };
    assert_eq!(request.url, "https://api.spotify.com/v1/albums/asked");
    assert!(request.query.is_empty());
    assert_eq!(request.access_token, "tok");
    let api = api_album(cover("http://img"), None);
    let (statement, then) = match then.resume(received(200, Some(api))) {
        AlbumStep::StoreAlbum { statement, then } => (statement, then),
        _ => panic!("the album has to be stored"),
    };
    assert_eq!(text(&statement.params[2]), "[\"Fleetwood \\\"Mac\\\"\"]");
    assert_eq!(text(&statement.params[5]), "http://img");
    assert_eq!(text(&statement.params[6]), "{\"id\":\"sp1\",\"name\":\"Rumours\"}");
    let row = row_of(&statement);
    let album = match then.resume(Ok(false)) {
        AlbumStep::Done { result: Ok(album), job } => {
            assert!(is_cover_job(&job, "sp1", "http://img"));
            album
        }
        _ => panic!("the album has to be answered"),
    };
    let back = musicboxd::catalog::spotify_album_from_db(&row);
    assert_eq!(back.spotify_id, album.spotify_id);
    assert_eq!(back.title, album.title);
    assert_eq!(back.artists, album.artists);
    assert_eq!(back.album_type, album.album_type);
    assert_eq!(back.release_year, album.release_year);
    assert!(!back.has_cover_art && !album.has_cover_art);
}

#[test]
fn album_lookups_report_each_error() {
    let lookup = || match SpotifyClient::new_test().get_album("sp1") {
        AlbumStep::FindAlbum { then, .. } => then,
        _ => panic!(),
    };
    let failed = |step: AlbumStep| match step {
        AlbumStep::Done { result: Err(e), job: None } => e,
        _ => panic!("an error was expected"),
    };
    assert_eq!(failed(lookup().resume(Err(db_error()))), SpotifyError::Database);
    let AlbumStep::GetToken { then } = lookup().resume(Ok(None)) else { panic!() };
    assert_eq!(failed(then.resume(Err(SpotifyError::Transport))), SpotifyError::Transport);
    let AlbumStep::GetToken { then } = lookup().resume(Ok(None)) else { panic!() };
    let AlbumStep::CallApi { then, .. } = then.resume(Ok("t".to_string())) else { panic!() };
    assert_eq!(failed(then.resume(received(404, None))), SpotifyError::Http { status: 404 });
    let AlbumStep::GetToken { then } = lookup().resume(Ok(None)) else { panic!() };
    let AlbumStep::CallApi { then, .. } = then.resume(Ok("t".to_string())) else { panic!() };
    let reply = received(200, Some(api_album(vec![], None)));
    let AlbumStep::StoreAlbum { statement, then } = then.resume(reply) else { panic!() };
    assert!(matches!(statement.params[5], SqlValue::Null));
    assert_eq!(failed(then.resume(Err(db_error()))), SpotifyError::Database);
}

#[test]
fn stored_tracks_are_answered_from_the_database() {
    let DetailStep::ListTracks { statement, then } =
        SpotifyClient::new_test().get_album_detail("sp1") else { panic!() };
    assert_eq!(statement.sql, LIST_TRACKS);
    let rows = vec![DbTrack {
        track_id: "t1".to_string(),
        disc_number: 1,
        track_number: 1,
        name: "Dreams".to_string(),
        artists: "[]".to_string(),
        duration_ms: Some(257_000),
    }];
    let DetailStep::FindAlbum { statement, then } = then.resume(Ok(rows)) else { panic!() };
    assert_eq!(statement.sql, FIND_ALBUM);
    assert_eq!(text(&statement.params[0]), "sp1");
    assert_eq!(then.tracks.len(), 1);
    match then.resume(Ok(None)) {
        DetailStep::Done { result: Err(e), .. } => assert_eq!(e, SpotifyError::MissingAlbumRow),
        _ => panic!("an error was expected"),
    }
}

#[test]
fn tracks_from_spotify_are_stored_in_order() {
    let DetailStep::ListTracks { then, .. } =
        get_album_detail(&SpotifyClient::new_test(), "sp1") else { panic!() };
    let DetailStep::GetToken { then } = then.resume(Ok(vec![])) else { panic!() };
    let DetailStep::CallApi { request, then } = then.resume(Ok("tok".to_string())) else { panic!() };
    assert_eq!(request.url, "https://api.spotify.com/v1/albums/sp1");
    let api = api_album(cover("u"), Some(vec![api_track("t1", 1), api_track("t2", 2)]));
    let DetailStep::StoreAlbum { then, .. } = then.resume(received(200, Some(api))) else { panic!() };
    let DetailStep::StoreTrack { job, statement, then } = then.resume(Ok(false)) else { panic!() };
    assert!(is_cover_job(&job, "sp1", "u"));
    assert_eq!(statement.sql, INSERT_TRACK);
    assert_eq!(text(&statement.params[1]), "t1");
    assert_eq!(text(&statement.params[5]), "[\"Fleetwood Mac\"]");
    assert!(matches!(statement.params[6], SqlValue::Int(1000)));
    let DetailStep::StoreTrack { job, statement, then } = then.resume(Ok(())) else { panic!() };
    assert!(job.is_none());
    assert_eq!(text(&statement.params[1]), "t2");
    match then.resume(Ok(())) {
        DetailStep::Done { job: None, result: Ok(detail) } => {
            assert_eq!(detail.album.title, "Rumours");
            let ids: Vec<_> = detail.tracks.iter().map(|t| t.track_id.as_str()).collect();
            assert_eq!(ids, vec!["t1", "t2"]);
            assert_eq!(detail.tracks[1].track_number, 2);
        }
        _ => panic!("the album has to be answered"),
    }
}

#[test]
fn an_album_without_tracks_is_answered_at_once() {
    let DetailStep::ListTracks { then, .. } =
        SpotifyClient::new_test().get_album_detail("sp1") else { panic!() };
    let DetailStep::GetToken { then } = then.resume(Ok(vec![])) else { panic!() };
    let DetailStep::CallApi { then, .. } = then.resume(Ok("tok".to_string())) else { panic!() };
    let reply = received(200, Some(api_album(vec![], None)));
    let DetailStep::StoreAlbum { then, .. } = then.resume(reply) else { panic!() };
    match then.resume(Ok(false)) {
        DetailStep::Done { job: None, result: Ok(detail) } => assert!(detail.tracks.is_empty()),
        _ => panic!("the album has to be answered"),
    }
}

#[test]
fn cover_art_that_is_there_is_not_fetched_again() {
    let AlbumStep::FindAlbum { then, .. } = SpotifyClient::new_test().get_album("sp1")
        else { panic!() };
    let AlbumStep::GetToken { then } = then.resume(Ok(None)) else { panic!() };
    let AlbumStep::CallApi { then, .. } = then.resume(Ok("t".to_string())) else { panic!() };
    let reply = received(200, Some(api_album(cover("u"), None)));
    let AlbumStep::StoreAlbum { then, .. } = then.resume(reply) else { panic!() };
    match then.resume(Ok(true)) {
        AlbumStep::Done { result: Ok(album), job: None } => assert!(album.has_cover_art),
        _ => panic!("the album has to be answered without a job"),
    }
    let DetailStep::ListTracks { then, .. } =
        SpotifyClient::new_test().get_album_detail("sp1") else { panic!() };
    let DetailStep::GetToken { then } = then.resume(Ok(vec![])) else { panic!() };
    let DetailStep::CallApi { then, .. } = then.resume(Ok("t".to_string())) else { panic!() };
    let reply = received(200, Some(api_album(cover("u"), None)));
    let DetailStep::StoreAlbum { then, .. } = then.resume(reply) else { panic!() };
    match then.resume(Ok(true)) {
        DetailStep::Done { result: Ok(detail), job: None } => {
            assert!(detail.album.has_cover_art)
        }
        _ => panic!("the album has to be answered without a job"),
    }
}

#[test]
fn cover_art_is_downloaded_and_stored() {
    let step = fetch_and_store_cover_art("sp1".to_string(), "http://img".to_string());
    let CoverArtStep::Download { url, then } = step else { panic!() };
    assert_eq!(url, "http://img");
    let CoverArtStep::Store { statement, then } = then.resume(received(200, Some(vec![1, 2])))
        else { panic!() };
    assert_eq!(statement.sql, STORE_COVER_ART);
    assert!(matches!(&statement.params[0], SqlValue::Blob(b) if b[..] == [1, 2]));
    assert_eq!(text(&statement.params[1]), "sp1");
    assert!(matches!(then.resume(Ok(())), CoverArtStep::Done(Ok(()))));
    let CoverArtStep::Download { then, .. } =
        fetch_and_store_cover_art("sp1".to_string(), "u".to_string()) else { panic!() };
    assert!(matches!(
        then.resume(received(429, None)),
        CoverArtStep::Done(Err(SpotifyError::RateLimited { retry_after_secs: 5 }))
    ));
}

fn refreshed(new: Vec<SpotifyImage>, old: Result<Option<Option<String>>, DbError>) -> RefreshStep {
    let RefreshStep::GetToken { then } = refresh_album("row".to_string()) else { panic!() };
    let RefreshStep::CallApi { request, then } = then.resume(Ok("tok".to_string())) else { panic!() };
    assert_eq!(request.url, "https://api.spotify.com/v1/albums/row");
    let RefreshStep::FindCoverUrl { statement, then } =
        then.resume(received(200, Some(api_album(new, None)))) else { panic!() };
    assert_eq!(statement.sql, FIND_COVER_URL);
    assert_eq!(text(&statement.params[0]), "row");
    let RefreshStep::UpdateRow { statement, then } = then.resume(old) else { panic!() };
    assert_eq!(statement.sql, REFRESH_ALBUM_ROW);
    assert_eq!(text(&statement.params[0]), "Rumours");
    assert_eq!(text(&statement.params[6]), "row");
    then.resume(Ok(()))
}

#[test]
fn a_refresh_fetches_cover_art_only_if_its_url_changed() {
    let old = |url: &str| Ok(Some(Some(url.to_string())));
    assert!(matches!(refreshed(cover("a"), old("a")), RefreshStep::Done(Ok(()))));
    assert!(matches!(refreshed(vec![], old("a")), RefreshStep::Done(Ok(()))));
    for before in [old("b"), Ok(Some(None)), Ok(None), Err(db_error())] {
        match refreshed(cover("a"), before) {
            RefreshStep::CoverArt(CoverArtStep::Download { url, then }) => {
                assert_eq!(url, "a");
                assert_eq!(then.spotify_id, "row");
            }
            _ => panic!("the cover art has to be fetched"),
        }
    }
}

#[test]
fn a_refresh_ends_at_the_first_error() {
    let RefreshStep::GetToken { then } = refresh_album("row".to_string()) else { panic!() };
    assert!(matches!(
        then.resume(Err(SpotifyError::NotConfigured)),
        RefreshStep::Done(Err(SpotifyError::NotConfigured))
    ));
    let RefreshStep::GetToken { then } = refresh_album("row".to_string()) else { panic!() };
    let RefreshStep::CallApi { then, .. } = then.resume(Ok("t".to_string())) else { panic!() };
    assert!(matches!(
        then.resume(received(503, None)),
        RefreshStep::Done(Err(SpotifyError::Http { status: 503 }))
    ));
}
