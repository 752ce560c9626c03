use axum::http::HeaderMap;
use musicboxd::catalog::{
    DbSpotifyAlbum, SearchPage, SpotifyApiAlbum, SpotifyApiArtist, SpotifyImage,
};
use musicboxd::search::{
    load_cached_page, normalize_query, search_music, CachedPage, SearchStep, SpotifyAlbumPage,
};
use musicboxd::spotify::{ApiReply, BackgroundJob, SpotifyClient, SpotifyError};
use musicboxd::store::{
    DbError, SqlValue, Statement, BUMP_HITS, FIND_ALBUM, READ_SEARCH_CACHE, UPSERT_ALBUM,
    WRITE_SEARCH_CACHE,
};
use std::collections::HashMap;

fn text(value: &SqlValue) -> &str {
    match value {
        SqlValue::Text(s) => s,
        _ => panic!("a text was expected"),
    }
}

fn number(value: &SqlValue) -> i64 {
    match value {
        SqlValue::Int(n) => *n,
        _ => panic!("an integer was expected"),
    }
}

fn api_album(id: &str, name: &str, artist: &str, url: Option<&str>) -> SpotifyApiAlbum {
    SpotifyApiAlbum {
        id: id.to_string(),
        name: name.to_string(),
        artists: vec![SpotifyApiArtist { name: artist.to_string() }],
        album_type: "album".to_string(),
        release_date: Some("1977".to_string()),
        images: url
            .map(|u| SpotifyImage { url: u.to_string(), width: Some(640) })
            .into_iter()
            .collect(),
        tracks: None,
    }
}

// A database that holds albums, their hit counts and cached pages.
struct Db {
    rows: HashMap<String, (Vec<String>, i64)>,
    pages: HashMap<(String, i64), (String, i64)>,
    arts: Vec<String>,
    calls: u32,
}

impl Db {
    fn new() -> Db {
        Db { rows: HashMap::new(), pages: HashMap::new(), arts: Vec::new(), calls: 0 }
    }

    fn upsert(&mut self, s: &Statement) {
        assert_eq!(s.sql, UPSERT_ALBUM);
        let columns: Vec<String> = s.params[..5].iter().map(|p| text(p).to_string()).collect();
        let hits = self.rows.get(&columns[0]).map_or(0, |r| r.1);
        self.rows.insert(columns[0].clone(), (columns, hits));
    }

    fn find(&self, s: &Statement) -> Option<DbSpotifyAlbum> {
        assert_eq!(s.sql, FIND_ALBUM);
        self.rows.get(text(&s.params[0])).map(|(c, _)| DbSpotifyAlbum {
            spotify_id: c[0].clone(),
            title: c[1].clone(),
            artists: c[2].clone(),
            album_type: Some(c[3].clone()),
            release_date: Some(c[4].clone()),
            cover_art: self.arts.contains(&c[0]).then_some(vec![1]),
        })
    }

    fn bump(&mut self, s: &Statement) -> i64 {
        assert_eq!(s.sql, BUMP_HITS);
        let row = self.rows.get_mut(text(&s.params[0])).unwrap();
        row.1 += 1;
        row.1
    }
}

fn run(
    db: &mut Db,
    mut step: SearchStep,
    found: fn() -> SpotifyAlbumPage,
) -> (Result<SearchPage, SpotifyError>, Vec<BackgroundJob>) {
    let mut jobs = Vec::new();
    loop {
        step = match step {
            SearchStep::ReadCache { statement, then } => {
                assert_eq!(statement.sql, READ_SEARCH_CACHE);
                let key = (text(&statement.params[0]).to_string(), number(&statement.params[1]));
                let row = db.pages.get(&key).map(|(ids, total)| CachedPage {
                    spotify_ids: ids.clone(),
                    total: *total,
                });
                then.resume(Ok(row))
            }
            SearchStep::FindAlbum { statement, then } => {
                let row = db.find(&statement);
                then.resume(Ok(row))
            }
            SearchStep::CountCachedHit { statement, then } => {
                let (more, next) = then.resume(Ok(db.bump(&statement)));
                jobs.extend(more);
                next
            }
            SearchStep::GetToken { then } => then.resume(Ok("tok".to_string())),
            SearchStep::CallApi { request, then } => {
                assert_eq!(request.url, "https://api.spotify.com/v1/search");
                db.calls += 1;
                then.resume(ApiReply::Received {
                    status: 200,
                    headers: HeaderMap::new(),
                    body: Some(found()),
                })
            }
            SearchStep::StoreAlbum { statement, then } => {
                db.upsert(&statement);
                then.resume(Ok(()))
            }
            SearchStep::CountFoundHit { statement, then } => {
                let count = db.bump(&statement);
                let has_art = db.arts.iter().any(|id| id == text(&statement.params[0]));
                let (more, next) = then.resume(Ok((count, has_art)));
                jobs.extend(more);
                next
            }
            SearchStep::WriteCache { statement, then } => {
                assert_eq!(statement.sql, WRITE_SEARCH_CACHE);
                let p = &statement.params;
                db.pages.insert(
                    (text(&p[0]).to_string(), number(&p[1])),
                    (text(&p[2]).to_string(), number(&p[3])),
                );
                then.resume(Ok(()))
            }
            SearchStep::Done(result) => return (result, jobs),
        };
    }
}

fn moon_page() -> SpotifyAlbumPage {
    SpotifyAlbumPage {
        items: vec![
            api_album("a", "The Dark Side of the Moon", "Pink Floyd", Some("http://a")),
            api_album("b", "Wish You Were Here", "Pink Floyd", Some("http://b")),
            api_album("c", "Dark Side of the Moon Live", "Someone", None),
        ],
        total: 123,
    }
}

fn titles(page: &SearchPage) -> Vec<&str> {
    page.albums.iter().map(|a| a.title.as_str()).collect()
}

#[test]
fn queries_are_normalized() {
    assert_eq!(normalize_query("  Dark\tSIDE of  the Moon "), "dark side of the moon");
    assert_eq!(normalize_query(""), "");
    assert_eq!(normalize_query("   "), "");
    assert_eq!(normalize_query("BJÖRK"), "björk");
    let once = normalize_query(" A  B ");
    assert_eq!(normalize_query(&once), once);
}

#[test]
fn the_third_page_begins_at_twenty() {
    let client = SpotifyClient::new_test();
    let offset = |page: u32| match client.search("x", page) {
        SearchStep::ReadCache { statement, then } => {
            assert_eq!(number(&statement.params[1]), then.offset as i64);
            then.offset
        }
        _ => panic!("the cache has to be read"),
    };
    assert_eq!(offset(1), 0);
    assert_eq!(offset(2), 10);
    assert_eq!(offset(3), 20);
    assert_eq!(offset(0), 0);
    match search_music(&client, "x", 0) {
        SearchStep::ReadCache { then, .. } => assert_eq!(then.offset, 0),
        _ => panic!("the cache has to be read"),
    }
}

#[test]
fn the_api_is_asked_for_the_page() {
    let client = SpotifyClient::new_test();
    let SearchStep::ReadCache { then, .. } = client.search(" Moon ", 4) else { panic!() };
    let SearchStep::GetToken { then } = then.resume(Ok(None)) else { panic!() };
    let SearchStep::CallApi { request, .. } = then.resume(Ok("tok".to_string())) else { panic!() };
    let query: Vec<(&str, &str)> = request.query.iter().map(|(k, v)| (*k, v.as_str())).collect();
    assert_eq!(query, vec![("q", "moon"), ("type", "album"), ("limit", "10"), ("offset", "30")]);
    assert_eq!(request.access_token, "tok");
}

#[test]
fn a_search_keeps_what_is_relevant_and_caches_the_page() {
    let mut db = Db::new();
    let client = SpotifyClient::new_test();
    let query = "Dark  side of the MOON";
    let (result, jobs) = run(&mut db, client.search(query, 1), moon_page);
    let page = result.unwrap();
    assert_eq!(titles(&page), vec!["The Dark Side of the Moon", "Dark Side of the Moon Live"]);
    assert_eq!(page.total, 123);
    assert_eq!(
        db.pages.get(&("dark side of the moon".to_string(), 0)),
        Some(&("[\"a\",\"c\"]".to_string(), 123))
    );
    assert!(!db.rows.contains_key("b"));
    assert!(matches!(
        &jobs[..],
        [BackgroundJob::StoreCoverArt { spotify_id, url }] if spotify_id == "a" && url == "http://a"
    ));
    let (again, jobs) = run(&mut db, client.search("dark side of the moon", 1), moon_page);
    let again = again.unwrap();
    assert_eq!(titles(&again), titles(&page));
    assert_eq!(again.total, 123);
    assert_eq!(again.albums[0].artists, page.albums[0].artists);
    assert_eq!(again.albums[0].release_year, Some(1977));
    assert_eq!(db.calls, 1);
    assert!(jobs.is_empty());
    assert_eq!(db.rows["a"].1, 2);
}

#[test]
fn stored_cover_art_is_shown_and_not_fetched_again() {
    let mut db = Db::new();
    let client = SpotifyClient::new_test();
    let query = "dark side of the moon";
    let (first, jobs) = run(&mut db, client.search(query, 1), moon_page);
    assert!(!first.unwrap().albums[0].has_cover_art);
    assert_eq!(jobs.len(), 1);
    db.arts.push("a".to_string());
    db.pages.clear();
    let (again, jobs) = run(&mut db, client.search(query, 1), moon_page);
    let again = again.unwrap();
    assert_eq!(db.calls, 2);
    assert!(again.albums[0].has_cover_art);
    assert!(!again.albums[1].has_cover_art);
    assert!(jobs.is_empty());
    let (cached, _) = run(&mut db, client.search(query, 1), moon_page);
    assert!(cached.unwrap().albums[0].has_cover_art);
}

#[test]
fn artists_are_found_in_any_case() {
    let mut db = Db::new();
    let bjork = || SpotifyAlbumPage {
        items: vec![api_album("d", "Debut", "BJÖRK", None)],
        total: 1,
    };
    let (result, _) = run(&mut db, SpotifyClient::new_test().search("björk", 1), bjork);
    assert_eq!(titles(&result.unwrap()), vec!["Debut"]);
}

#[test]
fn every_hundredth_hit_refreshes() {
    let mut db = Db::new();
    let client = SpotifyClient::new_test();
    let mut refreshed = Vec::new();
    for hit in 1..=200 {
        let (result, jobs) = run(&mut db, client.search("dark side of the moon", 1), moon_page);
        assert!(result.is_ok());
        if jobs.iter().any(|j| matches!(j, BackgroundJob::Refresh { spotify_id } if spotify_id == "a")) {
            refreshed.push(hit);
        }
    }
    assert_eq!(refreshed, vec![100, 200]);
}

#[test]
fn ids_without_a_row_are_left_out() {
    let mut db = Db::new();
    let client = SpotifyClient::new_test();
    let (_, _) = run(&mut db, client.search("dark side of the moon", 1), moon_page);
    db.rows.remove("a");
    let (result, _) = run(&mut db, client.search("dark side of the moon", 1), moon_page);
    assert_eq!(titles(&result.unwrap()), vec!["Dark Side of the Moon Live"]);
    let ids = vec!["c".to_string(), "x".to_string(), "c".to_string()];
    let (result, _) = run(&mut db, load_cached_page(Some(ids), 7), moon_page);
    let page = result.unwrap();
    assert_eq!(page.albums.len(), 2);
    assert_eq!(page.total, 7);
}

#[test]
fn an_empty_page_is_cached_too() {
    let mut db = Db::new();
    let client = SpotifyClient::new_test();
    let none = || SpotifyAlbumPage { items: vec![], total: 0 };
    let (result, jobs) = run(&mut db, client.search("zzz", 2), none);
    assert_eq!(result.unwrap().albums.len(), 0);
    assert!(jobs.is_empty());
    assert_eq!(db.pages.get(&("zzz".to_string(), 10)), Some(&("[]".to_string(), 0)));
}

#[test]
fn searches_report_each_error() {
    let broken = || DbError { message: "locked".to_string() };
    let failed = |step: SearchStep| match step {
        SearchStep::Done(Err(e)) => e,
        _ => panic!("an error was expected"),
    };
    let client = SpotifyClient::new_test();
    let read = || match client.search("moon", 1) {
        SearchStep::ReadCache { then, .. } => then,
        _ => panic!(),
    };
    assert_eq!(
        failed(SpotifyClient::unconfigured().search("moon", 1)),
        SpotifyError::NotConfigured
    );
    assert_eq!(failed(read().resume(Err(broken()))), SpotifyError::Database);
    let corrupt = CachedPage { spotify_ids: "oops".to_string(), total: 1 };
    assert_eq!(failed(read().resume(Ok(Some(corrupt)))), SpotifyError::CacheCorrupt);
    assert_eq!(failed(load_cached_page(None, 1)), SpotifyError::CacheCorrupt);
    let cached = CachedPage { spotify_ids: "[\"a\"]".to_string(), total: 1 };
    let SearchStep::FindAlbum { then, .. } = read().resume(Ok(Some(cached))) else { panic!() };
    assert_eq!(failed(then.resume(Err(broken()))), SpotifyError::Database);
    let SearchStep::GetToken { then } = read().resume(Ok(None)) else { panic!() };
    assert_eq!(failed(then.resume(Err(SpotifyError::BadBody))), SpotifyError::BadBody);
    let SearchStep::GetToken { then } = read().resume(Ok(None)) else { panic!() };
    let SearchStep::CallApi { then, .. } = then.resume(Ok("t".to_string())) else { panic!() };
    assert_eq!(failed(then.resume(ApiReply::Failed)), SpotifyError::Transport);
    let SearchStep::GetToken { then } = read().resume(Ok(None)) else { panic!() };
    let SearchStep::CallApi { then, .. } = then.resume(Ok("t".to_string())) else { panic!() };
    let reply = ApiReply::Received {
        status: 200,
        headers: HeaderMap::new(),
        body: Some(moon_page()),
    };
    let SearchStep::StoreAlbum { then, .. } = then.resume(reply) else { panic!() };
    let SearchStep::CountFoundHit { then, .. } = then.resume(Ok(())) else { panic!() };
    let (jobs, step) = then.resume(Err(broken()));
    assert!(jobs.is_empty());
    assert_eq!(failed(step), SpotifyError::Database);
}
