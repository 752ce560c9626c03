//! Searching for albums: in the search cache first, at Spotify where the page
//! is not cached.
//!
//! A step names the work to do next; its `then` takes what came of it and gives
//! the next step.

use crate::albums::{cover_job, cover_job_data, store_album, store_album_stmt};
use crate::catalog::{
    album_is, album_of_row, album_of_stored, albums_data, artist_names, best_image_url,
    lemma_album_is, names_of, release_year, spotify_album_from_db, spotify_album_from_stored,
    DbSpotifyAlbum, SearchPage, SpotifyAlbum, SpotifyAlbumData, SpotifyApiAlbum, SpotifyImage,
};
use crate::json::{json_list, json_list_text, read_json_list, write_json_list};
use crate::relevance::{
    lemma_filter_same, lemma_target_tokens, matches_in, relevance_of, relevance_score,
    target_tokens, tokens,
};
use crate::spotify::{
    jobs_data, read_reply, reply_outcome, ApiReply, ApiRequest, ApiRequestData, BackgroundJob,
    JobData, SpotifyClient, SpotifyError,
};
use crate::store::{
    bump_hits, bump_hits_stmt, find_album, find_album_stmt, read_search_cache,
    read_search_cache_stmt, write_search_cache, write_search_cache_stmt, DbError, SqlData,
    Statement, BUMP_HITS, FIND_ALBUM, READ_SEARCH_CACHE, WRITE_SEARCH_CACHE,
};
use crate::text::{
    all_ascii, ascii_lower, chars_of, decimal, digits_value, is_word, join, joined,
    law_decimal_round_trip, law_words_are_words, law_words_of_joined, lowercase, open_words, texts,
    to_decimal, to_lowercase, white, words, words_of,
};
use axum::http::HeaderMap;
use vstd::prelude::*;

verus! {

/// The number of results on a page, the most that Spotify hands out at once.
pub const PAGE_SIZE: u32 = 10;

/// The number of hits after which an album's metadata are fetched anew.
pub const REFRESH_EVERY: i64 = 100;

/// Where the API searches.
pub const SEARCH_URL: &'static str = "https://api.spotify.com/v1/search";

// ---------------------------------------------------------------------------
// Queries and pages
// ---------------------------------------------------------------------------

/// A query as it is cached and sent: its words in lower case, with single
/// spaces between them.
pub open spec fn normalized(query: Seq<char>) -> Seq<char> {
    joined(words(lowercase(query)), " "@)
}

/// Normalizes a query.
pub fn normalize_query(query: &str) -> (out: String)
    ensures
        out@ == normalized(query@),
{
    let lower = to_lowercase(query);
    join(&words_of(&chars_of(lower.as_str())), " ")
}

/// The number of results before a page; pages count from one, and page zero is
/// the first page too.
pub open spec fn page_offset(page: u32) -> int {
    if page == 0 {
        0
    } else {
        (page - 1) * PAGE_SIZE
    }
}

/// Whether an album of the API is worth showing for a query: at least half of
/// the query's tokens occur in its title or its artists' names.
pub open spec fn relevant(query: Seq<char>, api: SpotifyApiAlbum) -> bool {
    let (matched, total) = relevance_of(query, api.name@, artist_names(api.artists@));
    2 * matched >= total
}

/// The albums of the API that are worth showing, in the API's order.
pub open spec fn relevant_albums(
    query: Seq<char>,
    found: Seq<SpotifyApiAlbum>,
) -> Seq<SpotifyApiAlbum> {
    found.filter(|a: SpotifyApiAlbum| relevant(query, a))
}

/// Keeps the albums of the API that are worth showing.
pub fn keep_relevant(query: &str, found: Vec<SpotifyApiAlbum>) -> (kept: Vec<SpotifyApiAlbum>)
    ensures
        kept@ == relevant_albums(query@, found@),
{
    let ghost all = found@;
    let ghost wanted = |a: SpotifyApiAlbum| relevant(query@, a);
    let mut rest = found;
    let mut kept: Vec<SpotifyApiAlbum> = Vec::new();
    proof {
        reveal(Seq::filter);
        assert(all.take(0).filter(wanted) =~= Seq::<SpotifyApiAlbum>::empty());
        assert(all.skip(0) =~= all);
    }
    let ghost mut done: int = 0;
    while rest.len() > 0
        invariant
            0 <= done <= all.len(),
            rest@ == all.skip(done),
            wanted == |a: SpotifyApiAlbum| relevant(query@, a),
            kept@ == all.take(done).filter(wanted),
        decreases rest@.len(),
    {
        let album = rest.remove(0);
        let ghost before = kept@;
        let names = names_of(&album.artists);
        let score = relevance_score(query, album.name.as_str(), names.as_slice());
        proof {
            reveal(Seq::filter);
            assert(all.take(done + 1).drop_last() =~= all.take(done));
            assert(all.take(done + 1).last() == album);
            assert(rest@ =~= all.skip(done + 1));
        }
        if score.is_relevant() {
            kept.push(album);
            assert(kept@ =~= before.push(all[done]));
        }
        proof {
            done = done + 1;
        }
    }
    assert(all.take(done) =~= all);
    kept
}

// ---------------------------------------------------------------------------
// Steps
// ---------------------------------------------------------------------------

/// The next step of a search.
pub enum SearchStep {
    /// Look for the page in the search cache: at most one row.
    ReadCache { statement: Statement, then: CacheRead },
    /// Find an album of the cached page: at most one row.
    FindAlbum { statement: Statement, then: CachedLookup },
    /// Count a hit of an album of the cached page: one row, whose first column is
    /// the count.
    CountCachedHit { statement: Statement, then: CachedHit },
    /// Get an access token.
    GetToken { then: SearchToken },
    /// Ask the API for the page.
    CallApi { request: ApiRequest, then: SearchReplied },
    /// Store an album that was found.
    StoreAlbum { statement: Statement, then: FoundStored },
    /// Count a hit of an album that was found: one row, with the count and
    /// whether the album's cover art is stored.
    CountFoundHit { statement: Statement, then: FoundHit },
    /// Cache the page.
    WriteCache { statement: Statement, then: CacheWritten },
    /// Answer.
    Done(Result<SearchPage, SpotifyError>),
}

/// A row of the search cache.
pub struct CachedPage {
    /// A JSON array of album identifiers.
    pub spotify_ids: String,
    pub total: i64,
}

/// A page of albums in an API response, and the number of results that Spotify
/// reports for the query.
pub struct SpotifyAlbumPage {
    pub items: Vec<SpotifyApiAlbum>,
    pub total: u32,
}

/// Waits for the row of the search cache.
pub struct CacheRead {
    pub query: String,
    pub offset: u32,
}

/// Waits for the row of an album of the cached page. `albums` were found before,
/// `id` is being looked up, and `rest` are still to be looked up.
pub struct CachedLookup {
    pub albums: Vec<SpotifyAlbum>,
    pub id: String,
    pub rest: Vec<String>,
    pub total: i64,
}

/// Waits for the hit count of an album of the cached page.
pub struct CachedHit {
    pub albums: Vec<SpotifyAlbum>,
    pub id: String,
    pub row: DbSpotifyAlbum,
    pub rest: Vec<String>,
    pub total: i64,
}

/// Waits for an access token.
pub struct SearchToken {
    pub query: String,
    pub offset: u32,
}

/// Waits for the API's answer.
pub struct SearchReplied {
    pub query: String,
    pub offset: u32,
}

/// The page that is being stored: its query, its offset and Spotify's total.
pub struct FoundPage {
    pub query: String,
    pub offset: u32,
    pub total: u32,
}

/// An album that was found and stored.
pub struct FoundAlbum {
    pub api_album: SpotifyApiAlbum,
    /// Whether its cover art is stored.
    pub has_cover_art: bool,
}

/// Waits for an album to be stored. `stored` were stored before, `current` is
/// being stored, and `rest` are still to be stored.
pub struct FoundStored {
    pub page: FoundPage,
    pub stored: Vec<FoundAlbum>,
    pub current: SpotifyApiAlbum,
    pub rest: Vec<SpotifyApiAlbum>,
}

/// Waits for the hit count of the album that was just stored.
pub struct FoundHit {
    pub page: FoundPage,
    pub stored: Vec<FoundAlbum>,
    pub current: SpotifyApiAlbum,
    pub rest: Vec<SpotifyApiAlbum>,
}

/// Waits for the page to be cached.
pub struct CacheWritten {
    pub albums: Vec<SpotifyAlbum>,
    pub total: u32,
}

/// Whether a step answers with an error.
pub open spec fn search_fails(step: SearchStep, e: SpotifyError) -> bool {
    step == SearchStep::Done(Err(e))
}

/// Whether a step looks for a page in the search cache.
pub open spec fn reads_cache(step: SearchStep, query: Seq<char>, offset: int) -> bool {
    step matches SearchStep::ReadCache { statement, then } && statement@ == read_search_cache_stmt(
        query,
        offset,
    ) && then.query@ == query && then.offset == offset
}

impl SpotifyClient {
    /// Searches for albums, in the search cache first.
    pub fn search(&self, query: &str, page: u32) -> (step: SearchStep)
        requires
            page_offset(page) <= u32::MAX,
        ensures
            if self.credentials is None {
                search_fails(step, SpotifyError::NotConfigured)
            } else {
                reads_cache(step, normalized(query@), page_offset(page))
            },
    {
        if self.credentials.is_none() {
            return SearchStep::Done(Err(SpotifyError::NotConfigured));
        }
        let before: u32 = if page == 0 {
            0
        } else {
            page - 1
        };
        let offset: u32 = before * PAGE_SIZE;
        let normal = normalize_query(query);
        SearchStep::ReadCache {
            statement: read_search_cache(normal.as_str(), offset as i64),
            then: CacheRead { query: normal, offset },
        }
    }
}

/// Answers a search request. Pages count from one.
pub fn search_music(client: &SpotifyClient, query: &str, page: u32) -> (step: SearchStep)
    requires
        page_offset(page) <= u32::MAX,
    ensures
        if client.credentials is None {
            search_fails(step, SpotifyError::NotConfigured)
        } else {
            reads_cache(step, normalized(query@), page_offset(page))
        },
{
    let page: u32 = if page == 0 {
        1
    } else {
        page
    };
    client.search(query, page)
}

// ---------------------------------------------------------------------------
// A cached page
// ---------------------------------------------------------------------------

/// Whether a step goes on loading a cached page: it looks up the first of
/// `rest`, or, where there is none left, answers with the albums.
pub open spec fn loads_cached(
    step: SearchStep,
    albums: Seq<SpotifyAlbumData>,
    rest: Seq<Seq<char>>,
    total: i64,
) -> bool {
    if rest.len() == 0 {
        step matches SearchStep::Done(result) && result is Ok && albums_data(
            result->Ok_0.albums@,
        ) == albums && result->Ok_0.total == total as usize
    } else {
        step matches SearchStep::FindAlbum { statement, then } && statement@ == find_album_stmt(
            rest[0],
        ) && albums_data(then.albums@) == albums && then.id@ == rest[0] && texts(then.rest@)
            == rest.drop_first() && then.total == total
    }
}

/// Goes on loading a cached page, in the order of the identifiers.
pub fn load_albums_by_ids_and_bump(
    albums: Vec<SpotifyAlbum>,
    rest: Vec<String>,
    total: i64,
) -> (step: SearchStep)
    ensures
        loads_cached(step, albums_data(albums@), texts(rest@), total),
{
    if rest.len() == 0 {
        return SearchStep::Done(
            Ok(SearchPage { albums, total: #[verifier::truncate] (total as usize) }),
        );
    }
    let ghost all = rest@;
    let mut rest = rest;
    let id = rest.remove(0);
    assert(texts(rest@) =~= texts(all).drop_first());
    SearchStep::FindAlbum {
        statement: find_album(id.as_str()),
        then: CachedLookup { albums, id, rest, total },
    }
}

/// Whether a step loads a cached page, given the identifiers that its row holds
/// if they could be read.
pub open spec fn loads_page(step: SearchStep, ids: Option<Seq<Seq<char>>>, total: i64) -> bool {
    match ids {
        Some(list) => loads_cached(step, Seq::empty(), list, total),
        None => search_fails(step, SpotifyError::CacheCorrupt),
    }
}

/// Loads a cached page, given the identifiers that its row holds if they could
/// be read.
pub fn load_cached_page(ids: Option<Vec<String>>, total: i64) -> (step: SearchStep)
    ensures
        loads_page(
            step,
            match ids {
                Some(list) => Some(texts(list@)),
                None => None,
            },
            total,
        ),
{
    match ids {
        Some(list) => {
            let albums: Vec<SpotifyAlbum> = Vec::new();
            assert(albums_data(albums@) =~= Seq::<SpotifyAlbumData>::empty());
            load_albums_by_ids_and_bump(albums, list, total)
        },
        None => SearchStep::Done(Err(SpotifyError::CacheCorrupt)),
    }
}

impl CacheRead {
    /// Loads the cached page, or asks Spotify where none is cached.
    pub fn resume(self, row: Result<Option<CachedPage>, DbError>) -> (step: SearchStep)
        ensures
            match row {
                Err(_) => search_fails(step, SpotifyError::Database),
                Ok(Some(cached)) => loads_page(
                    step,
                    json_list(cached.spotify_ids@),
                    cached.total,
                ),
                Ok(None) => step matches SearchStep::GetToken { then } && then.query == self.query
                    && then.offset == self.offset,
            },
    {
        match row {
            Err(_) => SearchStep::Done(Err(SpotifyError::Database)),
            Ok(Some(cached)) => load_cached_page(
                read_json_list(cached.spotify_ids.as_str()),
                cached.total,
            ),
            Ok(None) => SearchStep::GetToken {
                then: SearchToken { query: self.query, offset: self.offset },
            },
        }
    }
}

impl CachedLookup {
    /// Counts a hit of the album; an album that is not stored is left out.
    pub fn resume(self, row: Result<Option<DbSpotifyAlbum>, DbError>) -> (step: SearchStep)
        ensures
            match row {
                Err(_) => search_fails(step, SpotifyError::Database),
                Ok(None) => loads_cached(
                    step,
                    albums_data(self.albums@),
                    texts(self.rest@),
                    self.total,
                ),
                Ok(Some(r)) => step matches SearchStep::CountCachedHit { statement, then }
                    && statement@ == bump_hits_stmt(self.id@) && then.albums == self.albums
                    && then.id == self.id && then.row == r && then.rest == self.rest && then.total
                    == self.total,
            },
    {
        match row {
            Err(_) => SearchStep::Done(Err(SpotifyError::Database)),
            Ok(None) => load_albums_by_ids_and_bump(self.albums, self.rest, self.total),
            Ok(Some(r)) => SearchStep::CountCachedHit {
                statement: bump_hits(self.id.as_str()),
                then: CachedHit {
                    albums: self.albums,
                    id: self.id,
                    row: r,
                    rest: self.rest,
                    total: self.total,
                },
            },
        }
    }
}

/// The jobs that a hit sets off: every hundredth has the metadata fetched anew.
pub open spec fn hit_jobs(spotify_id: Seq<char>, count: i64) -> Seq<JobData> {
    if count as int % REFRESH_EVERY as int == 0 {
        seq![JobData::Refresh { spotify_id }]
    } else {
        Seq::empty()
    }
}

/// The jobs that a hit sets off.
fn jobs_of_hit(spotify_id: &str, count: i64) -> (jobs: Vec<BackgroundJob>)
    ensures
        jobs_data(jobs@) == hit_jobs(spotify_id@, count),
{
    let mut jobs: Vec<BackgroundJob> = Vec::new();
    assert(jobs_data(jobs@) =~= Seq::<JobData>::empty());
    if count % REFRESH_EVERY == 0 {
        jobs.push(BackgroundJob::Refresh { spotify_id: spotify_id.to_string() });
        assert(jobs_data(jobs@) =~= seq![JobData::Refresh { spotify_id: spotify_id@ }]);
    }
    jobs
}

impl CachedHit {
    /// Adds the album to the page and goes on with the next, after starting the
    /// jobs.
    pub fn resume(self, count: Result<i64, DbError>) -> (out: (Vec<BackgroundJob>, SearchStep))
        ensures
            match count {
                Err(_) => out.0@.len() == 0 && search_fails(out.1, SpotifyError::Database),
                Ok(n) => jobs_data(out.0@) == hit_jobs(self.id@, n) && loads_cached(
                    out.1,
                    albums_data(self.albums@).push(album_of_row(self.row)),
                    texts(self.rest@),
                    self.total,
                ),
            },
    {
        match count {
            Err(_) => (Vec::new(), SearchStep::Done(Err(SpotifyError::Database))),
            Ok(n) => {
                let jobs = jobs_of_hit(self.id.as_str(), n);
                let mut albums = self.albums;
                let ghost before = albums@;
                albums.push(spotify_album_from_db(&self.row));
                assert(albums_data(albums@) =~= albums_data(before).push(album_of_row(self.row)));
                (jobs, load_albums_by_ids_and_bump(albums, self.rest, self.total))
            },
        }
    }
}

// ---------------------------------------------------------------------------
// A page from Spotify
// ---------------------------------------------------------------------------

/// The request for a page of results.
pub open spec fn search_request_data(
    query: Seq<char>,
    offset: u32,
    access_token: Seq<char>,
) -> ApiRequestData {
    ApiRequestData {
        url: SEARCH_URL@,
        query: seq![
            ("q"@, query),
            ("type"@, "album"@),
            ("limit"@, "10"@),
            ("offset"@, decimal(offset as nat)),
        ],
        access_token,
    }
}

/// Builds the request for a page of results.
pub fn search_api(query: String, offset: u32, access_token: String) -> (request: ApiRequest)
    ensures
        request@ == search_request_data(query@, offset, access_token@),
{
    let ghost q = query@;
    let params: Vec<(&'static str, String)> = vec![
        ("q", query),
        ("type", "album".to_string()),
        ("limit", "10".to_string()),
        ("offset", to_decimal(offset as u64)),
    ];
    let request = ApiRequest { url: SEARCH_URL.to_string(), query: params, access_token };
    assert(request@.query =~= seq![
        ("q"@, q),
        ("type"@, "album"@),
        ("limit"@, "10"@),
        ("offset"@, decimal(offset as nat)),
    ]);
    request
}

impl SearchToken {
    /// Asks the API for the page.
    pub fn resume(self, token: Result<String, SpotifyError>) -> (step: SearchStep)
        ensures
            match token {
                Err(e) => search_fails(step, e),
                Ok(t) => step matches SearchStep::CallApi { request, then } && request@
                    == search_request_data(self.query@, self.offset, t@) && then.query@
                    == self.query@ && then.offset == self.offset,
            },
    {
        match token {
            Err(e) => SearchStep::Done(Err(e)),
            Ok(t) => SearchStep::CallApi {
                request: search_api(self.query.clone(), self.offset, t),
                then: SearchReplied { query: self.query, offset: self.offset },
            },
        }
    }
}

/// The identifiers of albums that were found.
pub open spec fn ids_of(found: Seq<FoundAlbum>) -> Seq<Seq<char>> {
    found.map_values(|f: FoundAlbum| f.api_album.id@)
}

/// The album that an album that was found stands for.
pub open spec fn album_found(f: FoundAlbum) -> SpotifyAlbumData {
    album_of_stored(f.api_album, f.has_cover_art)
}

/// The albums that albums that were found stand for.
pub open spec fn albums_of(found: Seq<FoundAlbum>) -> Seq<SpotifyAlbumData> {
    found.map_values(|f: FoundAlbum| album_found(f))
}

/// Whether a step goes on storing what was found: it stores the first of `rest`,
/// or, where there is none left, caches the page. What is cached reads back as
/// the identifiers of the page.
pub open spec fn stores_found(
    step: SearchStep,
    page: FoundPage,
    stored: Seq<FoundAlbum>,
    rest: Seq<SpotifyApiAlbum>,
) -> bool {
    if rest.len() == 0 {
        &&& step matches SearchStep::WriteCache { statement, then }
        &&& statement@ == write_search_cache_stmt(
            page.query@,
            page.offset as int,
            json_list_text(ids_of(stored)),
            page.total as int,
        )
        &&& json_list(json_list_text(ids_of(stored))) == Some(ids_of(stored))
        &&& albums_data(then.albums@) == albums_of(stored)
        &&& then.total == page.total
    } else {
        step matches SearchStep::StoreAlbum { statement, then } && statement@ == store_album_stmt(
            rest[0],
        ) && then.page == page && then.stored@ == stored && then.current == rest[0]
            && then.rest@ == rest.drop_first()
    }
}

/// The identifiers of albums that were found.
fn collect_ids(found: &Vec<FoundAlbum>) -> (ids: Vec<String>)
    ensures
        texts(ids@) == ids_of(found@),
{
    let mut ids: Vec<String> = Vec::new();
    let mut i: usize = 0;
    while i < found.len()
        invariant
            i <= found@.len(),
            texts(ids@) =~= ids_of(found@.take(i as int)),
        decreases found@.len() - i,
    {
        let ghost before = ids@;
        ids.push(found[i].api_album.id.clone());
        assert(texts(ids@) =~= texts(before).push(found@[i as int].api_album.id@));
        assert(ids_of(found@.take(i + 1)) =~= ids_of(found@.take(i as int)).push(
            found@[i as int].api_album.id@,
        ));
        i = i + 1;
    }
    assert(found@.take(found@.len() as int) =~= found@);
    ids
}

/// The albums that albums that were found stand for.
fn collect_albums(found: &Vec<FoundAlbum>) -> (albums: Vec<SpotifyAlbum>)
    ensures
        albums_data(albums@) == albums_of(found@),
{
    let mut albums: Vec<SpotifyAlbum> = Vec::new();
    let mut i: usize = 0;
    while i < found.len()
        invariant
            i <= found@.len(),
            albums_data(albums@) =~= albums_of(found@.take(i as int)),
        decreases found@.len() - i,
    {
        let ghost before = albums@;
        albums.push(spotify_album_from_stored(&found[i].api_album, found[i].has_cover_art));
        assert(albums_data(albums@) =~= albums_data(before).push(album_found(found@[i as int])));
        assert(albums_of(found@.take(i + 1)) =~= albums_of(found@.take(i as int)).push(
            album_found(found@[i as int]),
        ));
        i = i + 1;
    }
    assert(found@.take(found@.len() as int) =~= found@);
    albums
}

/// Goes on storing what was found.
fn next_found(
    page: FoundPage,
    stored: Vec<FoundAlbum>,
    rest: Vec<SpotifyApiAlbum>,
) -> (step: SearchStep)
    ensures
        stores_found(step, page, stored@, rest@),
{
    if rest.len() == 0 {
        let ids_json = write_json_list(&collect_ids(&stored));
        return SearchStep::WriteCache {
            statement: write_search_cache(
                page.query.as_str(),
                page.offset as i64,
                ids_json.as_str(),
                page.total as i64,
            ),
            then: CacheWritten { albums: collect_albums(&stored), total: page.total },
        };
    }
    let ghost all = rest@;
    let mut rest = rest;
    let current = rest.remove(0);
    assert(rest@ =~= all.drop_first());
    SearchStep::StoreAlbum {
        statement: store_album(&current),
        then: FoundStored { page, stored, current, rest },
    }
}

impl SearchReplied {
    /// Stores the albums of the answer that are worth showing.
    pub fn resume(self, reply: ApiReply<SpotifyAlbumPage>) -> (step: SearchStep)
        ensures
            match reply_outcome(reply) {
                Err(e) => search_fails(step, e),
                Ok(found) => stores_found(
                    step,
                    FoundPage { query: self.query, offset: self.offset, total: found.total },
                    Seq::empty(),
                    relevant_albums(self.query@, found.items@),
                ),
            },
    {
        match read_reply(reply) {
            Err(e) => SearchStep::Done(Err(e)),
            Ok(found) => {
                let kept = keep_relevant(self.query.as_str(), found.items);
                let page = FoundPage { query: self.query, offset: self.offset, total: found.total };
                next_found(page, Vec::new(), kept)
            },
        }
    }
}

impl FoundStored {
    /// Counts a hit of the album that was stored.
    pub fn resume(self, stored: Result<(), DbError>) -> (step: SearchStep)
        ensures
            match stored {
                Err(_) => search_fails(step, SpotifyError::Database),
                Ok(_) => step matches SearchStep::CountFoundHit { statement, then } && statement@
                    == bump_hits_stmt(self.current.id@) && then.page == self.page && then.stored
                    == self.stored && then.current == self.current && then.rest == self.rest,
            },
    {
        match stored {
            Err(_) => SearchStep::Done(Err(SpotifyError::Database)),
            Ok(_) => SearchStep::CountFoundHit {
                statement: bump_hits(self.current.id.as_str()),
                then: FoundHit {
                    page: self.page,
                    stored: self.stored,
                    current: self.current,
                    rest: self.rest,
                },
            },
        }
    }
}

/// The jobs that a hit of an album from the API sets off: those of a hit, and
/// the fetching of its cover art if the album does not have it yet.
pub open spec fn found_jobs(
    api: SpotifyApiAlbum,
    count: i64,
    has_cover_art: bool,
) -> Seq<JobData> {
    match cover_job_data(api, has_cover_art) {
        Some(job) => hit_jobs(api.id@, count).push(job),
        None => hit_jobs(api.id@, count),
    }
}

impl FoundHit {
    /// Goes on with the next album that was found, after starting the jobs. `hit`
    /// is the count, and whether the album's cover art is stored.
    pub fn resume(self, hit: Result<(i64, bool), DbError>) -> (out: (
        Vec<BackgroundJob>,
        SearchStep,
    ))
        ensures
            match hit {
                Err(_) => out.0@.len() == 0 && search_fails(out.1, SpotifyError::Database),
                Ok((n, has_art)) => jobs_data(out.0@) == found_jobs(self.current, n, has_art)
                    && stores_found(
                    out.1,
                    self.page,
                    self.stored@.push(
                        FoundAlbum { api_album: self.current, has_cover_art: has_art },
                    ),
                    self.rest@,
                ),
            },
    {
        match hit {
            Err(_) => (Vec::new(), SearchStep::Done(Err(SpotifyError::Database))),
            Ok((n, has_art)) => {
                let mut jobs = jobs_of_hit(self.current.id.as_str(), n);
                let ghost before = jobs@;
                match cover_job(&self.current, has_art) {
                    Some(job) => {
                        jobs.push(job);
                        assert(jobs_data(jobs@) =~= jobs_data(before).push(job@));
                    },
                    None => {},
                }
                let mut stored = self.stored;
                stored.push(FoundAlbum { api_album: self.current, has_cover_art: has_art });
                (jobs, next_found(self.page, stored, self.rest))
            },
        }
    }
}

impl CacheWritten {
    /// Answers with the albums that were found.
    pub fn resume(self, written: Result<(), DbError>) -> (step: SearchStep)
        ensures
            match written {
                Err(_) => search_fails(step, SpotifyError::Database),
                Ok(_) => step matches SearchStep::Done(result) && result is Ok && albums_data(
                    result->Ok_0.albums@,
                ) == albums_data(self.albums@) && result->Ok_0.total == self.total,
            },
    {
        match written {
            Err(_) => SearchStep::Done(Err(SpotifyError::Database)),
            Ok(_) => SearchStep::Done(
                Ok(SearchPage { albums: self.albums, total: self.total as usize }),
            ),
        }
    }
}

// ---------------------------------------------------------------------------
// Laws
// ---------------------------------------------------------------------------

/// Whether storing the albums that were found one after the other, all with
/// success and with these hits, leads from one step to another. A hit is the
/// count, and whether the album's cover art is stored.
pub open spec fn stores_hits(step: SearchStep, hits: Seq<(i64, bool)>, last: SearchStep) -> bool
    decreases hits.len(),
{
    if hits.len() == 0 {
        step == last
    } else {
        step matches SearchStep::StoreAlbum { statement: _, then } && exists|
            counted: SearchStep,
            out: (Vec<BackgroundJob>, SearchStep),
        |
            call_ensures(FoundStored::resume, (then, Ok::<(), DbError>(())), counted)
                && counted is CountFoundHit && #[trigger] call_ensures(
                FoundHit::resume,
                (counted->CountFoundHit_then, Ok::<(i64, bool), DbError>(hits[0])),
                out,
            ) && stores_hits(out.1, hits.drop_first(), last)
    }
}

/// Albums of the API with what their hits tell of their cover art.
pub open spec fn with_hits(
    apis: Seq<SpotifyApiAlbum>,
    hits: Seq<(i64, bool)>,
) -> Seq<FoundAlbum> {
    Seq::new(
        apis.len(),
        |i: int| FoundAlbum { api_album: apis[i], has_cover_art: hits[i].1 },
    )
}

/// Once all of `rest` are stored, the page with them behind the others is cached.
proof fn lemma_stores_rest(
    step: SearchStep,
    page: FoundPage,
    stored: Seq<FoundAlbum>,
    rest: Seq<SpotifyApiAlbum>,
    hits: Seq<(i64, bool)>,
    last: SearchStep,
)
    requires
        stores_found(step, page, stored, rest),
        hits.len() == rest.len(),
        stores_hits(step, hits, last),
    ensures
        stores_found(last, page, stored + with_hits(rest, hits), Seq::empty()),
    decreases rest.len(),
{
    if rest.len() == 0 {
        assert(stored + with_hits(rest, hits) =~= stored);
    } else {
        let then = step->StoreAlbum_then;
        let (counted, out) = choose|
            counted: SearchStep,
            out: (Vec<BackgroundJob>, SearchStep),
        |
            call_ensures(FoundStored::resume, (then, Ok::<(), DbError>(())), counted)
                && counted is CountFoundHit && #[trigger] call_ensures(
                FoundHit::resume,
                (counted->CountFoundHit_then, Ok::<(i64, bool), DbError>(hits[0])),
                out,
            ) && stores_hits(out.1, hits.drop_first(), last);
        let tail = rest.drop_first();
        let more = stored.push(FoundAlbum { api_album: rest[0], has_cover_art: hits[0].1 });
        assert(stores_found(out.1, page, more, tail));
        lemma_stores_rest(out.1, page, more, tail, hits.drop_first(), last);
        assert(more + with_hits(tail, hits.drop_first()) =~= stored + with_hits(rest, hits));
    }
}

/// When every album that is worth showing could be stored, the page holds all of
/// them in Spotify's order, each with cover art if it is stored; the page is
/// cached under the query and the offset, and answered with Spotify's total.
pub proof fn law_page_shows_what_is_relevant(
    replied: SearchReplied,
    reply: ApiReply<SpotifyAlbumPage>,
    hits: Seq<(i64, bool)>,
    first: SearchStep,
    written: SearchStep,
    last: SearchStep,
)
    requires
        reply_outcome(reply) is Ok,
        hits.len() == relevant_albums(replied.query@, reply_outcome(reply)->Ok_0.items@).len(),
        call_ensures(SearchReplied::resume, (replied, reply), first),
        stores_hits(first, hits, written),
        call_ensures(
            CacheWritten::resume,
            (written->WriteCache_then, Ok::<(), DbError>(())),
            last,
        ),
    ensures
        ({
            let body = reply_outcome(reply)->Ok_0;
            let shown = with_hits(relevant_albums(replied.query@, body.items@), hits);
            &&& written is WriteCache
            &&& written->WriteCache_statement@ == write_search_cache_stmt(
                replied.query@,
                replied.offset as int,
                json_list_text(ids_of(shown)),
                body.total as int,
            )
            &&& last matches SearchStep::Done(result)
            &&& result is Ok
            &&& albums_data(result->Ok_0.albums@) == albums_of(shown)
            &&& result->Ok_0.total == body.total
        }),
{
    let body = reply_outcome(reply)->Ok_0;
    let kept = relevant_albums(replied.query@, body.items@);
    let page = FoundPage { query: replied.query, offset: replied.offset, total: body.total };
    lemma_stores_rest(first, page, Seq::empty(), kept, hits, written);
    assert(Seq::<FoundAlbum>::empty() + with_hits(kept, hits) =~= with_hits(kept, hits));
}

/// Whether looking up the albums of a cached page one after the other, all with
/// success and with these answers, leads from one step to another. An answer is
/// the album's row with its hit count, or `None` where the album is not stored.
pub open spec fn loads_answers(
    step: SearchStep,
    answers: Seq<Option<(DbSpotifyAlbum, i64)>>,
    last: SearchStep,
) -> bool
    decreases answers.len(),
{
    if answers.len() == 0 {
        step == last
    } else {
        step matches SearchStep::FindAlbum { statement: _, then } && match answers[0] {
            None => exists|next: SearchStep| #[trigger]
                call_ensures(
                    CachedLookup::resume,
                    (then, Ok::<Option<DbSpotifyAlbum>, DbError>(None)),
                    next,
                ) && loads_answers(next, answers.drop_first(), last),
            Some((row, count)) => exists|
                counted: SearchStep,
                out: (Vec<BackgroundJob>, SearchStep),
            |
                call_ensures(
                    CachedLookup::resume,
                    (then, Ok::<Option<DbSpotifyAlbum>, DbError>(Some(row))),
                    counted,
                ) && counted is CountCachedHit && #[trigger] call_ensures(
                    CachedHit::resume,
                    (counted->CountCachedHit_then, Ok::<i64, DbError>(count)),
                    out,
                ) && loads_answers(out.1, answers.drop_first(), last),
        }
    }
}

/// The albums of the rows that were found, in order.
pub open spec fn albums_in(answers: Seq<Option<(DbSpotifyAlbum, i64)>>) -> Seq<SpotifyAlbumData>
    decreases answers.len(),
{
    if answers.len() == 0 {
        Seq::empty()
    } else {
        match answers[0] {
            Some((row, _)) => seq![album_of_row(row)] + albums_in(answers.drop_first()),
            None => albums_in(answers.drop_first()),
        }
    }
}

/// Once all of `rest` are looked up, the page holds those that were found.
proof fn lemma_loads_rest(
    step: SearchStep,
    albums: Seq<SpotifyAlbumData>,
    rest: Seq<Seq<char>>,
    total: i64,
    answers: Seq<Option<(DbSpotifyAlbum, i64)>>,
    last: SearchStep,
)
    requires
        loads_cached(step, albums, rest, total),
        answers.len() == rest.len(),
        loads_answers(step, answers, last),
    ensures
        loads_cached(last, albums + albums_in(answers), Seq::empty(), total),
    decreases rest.len(),
{
    if rest.len() == 0 {
        assert(albums + albums_in(answers) =~= albums);
    } else {
        let then = step->FindAlbum_then;
        let tail = rest.drop_first();
        let later = answers.drop_first();
        match answers[0] {
            None => {
                let next = choose|next: SearchStep| #[trigger]
                    call_ensures(
                        CachedLookup::resume,
                        (then, Ok::<Option<DbSpotifyAlbum>, DbError>(None)),
                        next,
                    ) && loads_answers(next, later, last);
                assert(loads_cached(next, albums, tail, total));
                lemma_loads_rest(next, albums, tail, total, later, last);
            },
            Some((row, count)) => {
                let (counted, out) = choose|
                    counted: SearchStep,
                    out: (Vec<BackgroundJob>, SearchStep),
                |
                    call_ensures(
                        CachedLookup::resume,
                        (then, Ok::<Option<DbSpotifyAlbum>, DbError>(Some(row))),
                        counted,
                    ) && counted is CountCachedHit && #[trigger] call_ensures(
                        CachedHit::resume,
                        (counted->CountCachedHit_then, Ok::<i64, DbError>(count)),
                        out,
                    ) && loads_answers(out.1, later, last);
                let more = albums.push(album_of_row(row));
                assert(loads_cached(out.1, more, tail, total));
                lemma_loads_rest(out.1, more, tail, total, later, last);
                assert(more + albums_in(later) =~= albums + albums_in(answers));
            },
        }
    }
}

/// A cached page holds the albums of its identifiers, in their order; those that
/// are not stored are left out. Its total is the one that was cached.
pub proof fn law_cached_albums_in_order(
    ids: Seq<Seq<char>>,
    total: i64,
    answers: Seq<Option<(DbSpotifyAlbum, i64)>>,
    first: SearchStep,
    last: SearchStep,
)
    requires
        loads_page(first, Some(ids), total),
        answers.len() == ids.len(),
        loads_answers(first, answers, last),
    ensures
        last matches SearchStep::Done(result) && result is Ok && albums_data(
            result->Ok_0.albums@,
        ) == albums_in(answers) && result->Ok_0.total == total as usize,
{
    lemma_loads_rest(first, Seq::empty(), ids, total, answers, last);
    assert(Seq::<SpotifyAlbumData>::empty() + albums_in(answers) =~= albums_in(answers));
}

/// Whether two albums are the same but for the cover art, which is stored later.
pub open spec fn same_album(a: SpotifyAlbumData, b: SpotifyAlbumData) -> bool {
    a == (SpotifyAlbumData { has_cover_art: a.has_cover_art, ..b })
}

/// Where every album is found, each has its place.
proof fn lemma_albums_in(answers: Seq<Option<(DbSpotifyAlbum, i64)>>)
    requires
        forall|i: int| 0 <= i < answers.len() ==> #[trigger] answers[i] is Some,
    ensures
        albums_in(answers).len() == answers.len(),
        forall|i: int|
            0 <= i < answers.len() ==> #[trigger] albums_in(answers)[i] == album_of_row(
                answers[i].unwrap().0,
            ),
    decreases answers.len(),
{
    if answers.len() > 0 {
        let later = answers.drop_first();
        assert(answers[0] is Some);
        assert forall|i: int| 0 <= i < later.len() implies #[trigger] later[i] is Some by {
            assert(later[i] == answers[i + 1]);
        }
        lemma_albums_in(later);
        assert forall|i: int| 0 <= i < answers.len() implies #[trigger] albums_in(answers)[i]
            == album_of_row(answers[i].unwrap().0) by {
            if i > 0 {
                assert(albums_in(answers)[i] == albums_in(later)[i - 1]);
                assert(later[i - 1] == answers[i]);
            }
        }
    }
}

/// A cached page shows what the search that cached it found, with the total that
/// was cached, as long as the albums are stored as they were found; only cover
/// art may have come since.
pub proof fn law_cached_page_repeats_search(
    found: Seq<FoundAlbum>,
    total: i64,
    answers: Seq<Option<(DbSpotifyAlbum, i64)>>,
    first: SearchStep,
    last: SearchStep,
)
    requires
        loads_page(first, Some(ids_of(found)), total),
        answers.len() == found.len(),
        forall|i: int|
            0 <= i < found.len() ==> (#[trigger] answers[i]) is Some && same_album(
                album_of_row(answers[i].unwrap().0),
                album_found(found[i]),
            ),
        loads_answers(first, answers, last),
    ensures
        last matches SearchStep::Done(result) && result is Ok && result->Ok_0.total
            == total as usize && albums_data(result->Ok_0.albums@).len() == albums_of(found).len()
            && (forall|i: int|
            0 <= i < found.len() ==> same_album(
                #[trigger] albums_data(result->Ok_0.albums@)[i],
                albums_of(found)[i],
            )),
{
    law_cached_albums_in_order(ids_of(found), total, answers, first, last);
    lemma_albums_in(answers);
    assert forall|i: int| 0 <= i < found.len() implies same_album(
        #[trigger] albums_in(answers)[i],
        albums_of(found)[i],
    ) by {
        assert(answers[i] is Some);
    }
}

/// An album that already has its cover art sets off no fetching of it.
pub proof fn law_stored_art_is_not_fetched(
    hit: FoundHit,
    count: i64,
    out: (Vec<BackgroundJob>, SearchStep),
)
    requires
        call_ensures(FoundHit::resume, (hit, Ok::<(i64, bool), DbError>((count, true))), out),
    ensures
        forall|i: int| 0 <= i < out.0@.len() ==> (#[trigger] jobs_data(out.0@)[i]) is Refresh,
{
    assert(jobs_data(out.0@) == hit_jobs(hit.current.id@, count));
    assert(jobs_data(out.0@).len() == out.0@.len());
}

/// Every page begins where the one before it ends.
pub proof fn law_pages_adjoin(page: u32)
    requires
        1 <= page < u32::MAX,
    ensures
        page_offset((page + 1) as u32) == page_offset(page) + PAGE_SIZE,
        page_offset(1) == 0,
{
}

/// Normalizing keeps the words of a query in lower case, and nothing else.
pub proof fn law_normalized_words(query: Seq<char>)
    ensures
        words(normalized(query)) == words(lowercase(query)),
{
    reveal_strlit(" ");
    assert(" "@ =~= seq![' ']);
    law_words_are_words(lowercase(query));
    law_words_of_joined(words(lowercase(query)));
}

/// Whether a text is ASCII without upper-case letters.
pub open spec fn lower_ascii(s: Seq<char>) -> bool {
    forall|i: int|
        0 <= i < s.len() ==> #[trigger] s[i] <= '\u{007F}' && ascii_lower(s[i]) == s[i]
}

/// The words of such a text are such texts.
proof fn lemma_lower_words(s: Seq<char>)
    requires
        lower_ascii(s),
    ensures
        forall|i: int| 0 <= i < open_words(s).0.len() ==> lower_ascii(#[trigger] open_words(s).0[i]),
        lower_ascii(open_words(s).1),
    decreases s.len(),
{
    if s.len() > 0 {
        let shorter = s.drop_last();
        assert forall|i: int| 0 <= i < shorter.len() implies #[trigger] shorter[i] <= '\u{007F}'
            && ascii_lower(shorter[i]) == shorter[i] by {
            assert(shorter[i] == s[i]);
        }
        lemma_lower_words(shorter);
        assert(s.last() == s[s.len() - 1]);
    }
}

/// Such texts joined by spaces are such a text.
proof fn lemma_lower_joined(parts: Seq<Seq<char>>)
    requires
        forall|i: int| 0 <= i < parts.len() ==> lower_ascii(#[trigger] parts[i]),
    ensures
        lower_ascii(joined(parts, seq![' '])),
    decreases parts.len(),
{
    if parts.len() > 1 {
        let shorter = parts.drop_last();
        assert forall|i: int| 0 <= i < shorter.len() implies lower_ascii(#[trigger] shorter[i]) by {
            assert(shorter[i] == parts[i]);
        }
        lemma_lower_joined(shorter);
        assert(lower_ascii(parts[parts.len() - 1]));
    } else if parts.len() == 1 {
        assert(lower_ascii(parts[0]));
    }
}

/// Normalizing an ASCII query a second time changes nothing: the query that is
/// cached is its own cache key.
pub proof fn law_normalized_once(query: Seq<char>)
    requires
        all_ascii(query),
    ensures
        normalized(normalized(query)) == normalized(query),
{
    reveal_strlit(" ");
    assert(" "@ =~= seq![' ']);
    let lower = lowercase(query);
    assert forall|i: int| 0 <= i < lower.len() implies #[trigger] lower[i] <= '\u{007F}'
        && ascii_lower(lower[i]) == lower[i] by {
        assert(lower[i] == ascii_lower(query[i]));
        assert(query[i] <= '\u{007F}');
    }
    lemma_lower_words(lower);
    let parts = words(lower);
    assert forall|i: int| 0 <= i < parts.len() implies lower_ascii(#[trigger] parts[i]) by {
        if i < open_words(lower).0.len() {
            assert(parts[i] == open_words(lower).0[i]);
        }
    }
    lemma_lower_joined(parts);
    let normal = normalized(query);
    assert(all_ascii(normal));
    assert(lowercase(normal) =~= normal);
    law_normalized_words(query);
}

/// An album of Spotify's answer is kept exactly when twice the number of the
/// query's tokens that occur in its title or in the name of an artist is at least
/// the number of the query's tokens; what is kept stays in Spotify's order.
pub proof fn law_kept_albums_match_half(
    query: &str,
    found: Vec<SpotifyApiAlbum>,
    kept: Vec<SpotifyApiAlbum>,
)
    requires
        call_ensures(keep_relevant, (query, found), kept),
    ensures
        kept@ == found@.filter(
            |a: SpotifyApiAlbum|
                2 * tokens(query@).filter(
                    |t: Seq<char>|
                        tokens(a.name@).contains(t) || exists|j: int|
                            0 <= j < a.artists@.len() && #[trigger] tokens(
                                a.artists@[j].name@,
                            ).contains(t),
                ).len() >= tokens(query@).len(),
        ),
        forall|i: int|
            0 <= i < found@.len() ==> (kept@.contains(#[trigger] found@[i]) <==> 2 * tokens(
                query@,
            ).filter(
                |t: Seq<char>|
                    tokens(found@[i].name@).contains(t) || exists|j: int|
                        0 <= j < found@[i].artists@.len() && #[trigger] tokens(
                            found@[i].artists@[j].name@,
                        ).contains(t),
            ).len() >= tokens(query@).len()),
{
    let wanted = tokens(query@);
    let p = |a: SpotifyApiAlbum| relevant(query@, a);
    let q = |a: SpotifyApiAlbum|
        2 * wanted.filter(
            |t: Seq<char>|
                tokens(a.name@).contains(t) || exists|j: int|
                    0 <= j < a.artists@.len() && #[trigger] tokens(a.artists@[j].name@).contains(t),
        ).len() >= wanted.len();
    assert forall|i: int| 0 <= i < found@.len() implies p(#[trigger] found@[i]) == q(found@[i]) by {
        let a = found@[i];
        lemma_matches_of_album(query@, a);
    }
    lemma_filter_same(found@, p, q);
    broadcast use vstd::seq_lib::group_filter_ensures;

    assert forall|i: int| 0 <= i < found@.len() implies (kept@.contains(#[trigger] found@[i])
        <==> q(found@[i])) by {
        if kept@.contains(found@[i]) {
            let k = choose|k: int| 0 <= k < kept@.len() && kept@[k] == found@[i];
            assert(q(found@.filter(q)[k]));
        }
        if q(found@[i]) {
            assert(found@.filter(q).contains(found@[i]));
        }
    }
}

/// The tokens of a query that an album matches, counted over its title and its
/// artists one by one.
proof fn lemma_matches_of_album(query: Seq<char>, a: SpotifyApiAlbum)
    ensures
        matches_in(tokens(query), target_tokens(a.name@, artist_names(a.artists@))) == tokens(
            query,
        ).filter(
            |t: Seq<char>|
                tokens(a.name@).contains(t) || exists|j: int|
                    0 <= j < a.artists@.len() && #[trigger] tokens(a.artists@[j].name@).contains(t),
        ).len(),
{
    let wanted = tokens(query);
    let names = artist_names(a.artists@);
    let target = target_tokens(a.name@, names);
    let p = |t: Seq<char>| target.contains(t);
    let q = |t: Seq<char>|
        tokens(a.name@).contains(t) || exists|j: int|
            0 <= j < a.artists@.len() && #[trigger] tokens(a.artists@[j].name@).contains(t);
    assert forall|i: int| 0 <= i < wanted.len() implies p(#[trigger] wanted[i]) == q(wanted[i]) by {
        let t = wanted[i];
        lemma_target_tokens(a.name@, names, t);
        if exists|j: int| 0 <= j < names.len() && #[trigger] tokens(names[j]).contains(t) {
            let j = choose|j: int| 0 <= j < names.len() && #[trigger] tokens(names[j]).contains(t);
            assert(tokens(a.artists@[j].name@).contains(t));
        }
        if exists|j: int|
            0 <= j < a.artists@.len() && #[trigger] tokens(a.artists@[j].name@).contains(t) {
            let j = choose|j: int|
                0 <= j < a.artists@.len() && #[trigger] tokens(a.artists@[j].name@).contains(t);
            assert(tokens(names[j]).contains(t));
        }
    }
    lemma_filter_same(wanted, p, q);
}

/// Words joined by single spaces hold no other whitespace, and none at their ends.
proof fn lemma_joined_words_spacing(parts: Seq<Seq<char>>)
    requires
        forall|i: int| 0 <= i < parts.len() ==> is_word(#[trigger] parts[i]),
    ensures
        ({
            let s = joined(parts, seq![' ']);
            &&& parts.len() > 0 ==> s.len() > 0 && !white(s[0]) && !white(s.last())
            &&& parts.len() == 0 ==> s.len() == 0
            &&& forall|i: int|
                0 <= i < s.len() && white(#[trigger] s[i]) ==> s[i] == ' ' && i + 1 < s.len()
                    && !white(s[i + 1])
        }),
    decreases parts.len(),
{
    let sep = seq![' '];
    let s = joined(parts, sep);
    if parts.len() == 1 {
        assert(is_word(parts[0]));
    } else if parts.len() > 1 {
        let before = parts.drop_last();
        assert forall|i: int| 0 <= i < before.len() implies is_word(#[trigger] before[i]) by {
            assert(before[i] == parts[i]);
        }
        lemma_joined_words_spacing(before);
        let head = joined(before, sep);
        let last = parts.last();
        assert(is_word(parts[parts.len() - 1]));
        assert(s == head + sep + last);
        assert(s[0] == head[0]);
        assert(s.last() == last.last());
        assert forall|i: int| 0 <= i < s.len() && white(#[trigger] s[i]) implies s[i] == ' ' && i + 1
            < s.len() && !white(s[i + 1]) by {
            if i < head.len() {
                assert(s[i] == head[i]);
                assert(s[i + 1] == head[i + 1]);
            } else if i == head.len() {
                assert(s[i + 1] == last[0]);
            } else {
                assert(s[i] == last[i - head.len() - 1]);
            }
        }
    }
}

/// A normalized query has the words of the query's lower case, in their order; the
/// only whitespace in it are single spaces between two words.
pub proof fn law_normalized_query(query: &str, lower: String, out: String)
    requires
        call_ensures(to_lowercase, (query,), lower),
        call_ensures(normalize_query, (query,), out),
    ensures
        words(out@) == words(lower@),
        out@.len() > 0 ==> !white(out@[0]) && !white(out@.last()),
        forall|i: int|
            0 <= i < out@.len() && white(#[trigger] out@[i]) ==> out@[i] == ' ' && i + 1
                < out@.len() && !white(out@[i + 1]),
{
    law_normalized_words(query@);
    law_words_are_words(lower@);
    lemma_joined_words_spacing(words(lower@));
    reveal_strlit(" ");
    assert(" "@ =~= seq![' ']);
}

/// A search looks in the cache first, for the normalized query and the number of
/// results on the pages before: ten for each, and none before the first page,
/// which page zero is too. A server without credentials refuses.
pub proof fn law_search_reads_the_cache(
    client: SpotifyClient,
    query: &str,
    page: u32,
    normal: String,
    step: SearchStep,
    answer: SearchStep,
)
    requires
        page <= 429_496_730,
        call_ensures(normalize_query, (query,), normal),
        call_ensures(SpotifyClient::search, (&client, query, page), step),
        call_ensures(search_music, (&client, query, page), answer),
    ensures
        client.credentials is None ==> step == SearchStep::Done(Err(SpotifyError::NotConfigured))
            && answer == SearchStep::Done(Err(SpotifyError::NotConfigured)),
        client.credentials is Some ==> {
            let before: int = if page <= 1 {
                0
            } else {
                10 * (page - 1)
            };
            &&& step is ReadCache && answer is ReadCache
            &&& step->ReadCache_statement@.sql == READ_SEARCH_CACHE@
            &&& step->ReadCache_statement@.params == seq![
                SqlData::Text(normal@),
                SqlData::Int(before),
            ]
            &&& answer->ReadCache_statement@ == step->ReadCache_statement@
            &&& step->ReadCache_then.query@ == normal@ && step->ReadCache_then.offset == before
            &&& answer->ReadCache_then.query@ == normal@ && answer->ReadCache_then.offset == before
        },
{
}

/// Where the page is not cached, Spotify is asked for ten albums that match the
/// query, from the page's offset on, with the access token.
pub proof fn law_search_asks_spotify(
    read: CacheRead,
    token: String,
    miss: SearchStep,
    call: SearchStep,
)
    requires
        call_ensures(CacheRead::resume, (read, Ok::<Option<CachedPage>, DbError>(None)), miss),
        call_ensures(
            SearchToken::resume,
            (miss->GetToken_then, Ok::<String, SpotifyError>(token)),
            call,
        ),
    ensures
        miss is GetToken,
        call is CallApi,
        ({
            let request = call->CallApi_request;
            &&& request@.url == "https://api.spotify.com/v1/search"@
            &&& request@.access_token == token@
            &&& request@.query.len() == 4
            &&& request@.query[0] == ("q"@, read.query@)
            &&& request@.query[1] == ("type"@, "album"@)
            &&& request@.query[2] == ("limit"@, "10"@)
            &&& request@.query[3].0 == "offset"@
            &&& digits_value(request@.query[3].1) == read.offset
        }),
        call->CallApi_then.query@ == read.query@,
        call->CallApi_then.offset == read.offset,
{
    law_decimal_round_trip(read.offset as nat);
}

/// A page from Spotify, once everything could be stored, shows the albums of the
/// answer that were kept, in Spotify's order: each with its identifier, name, type,
/// artists and year, and with cover art if it is stored. The page is cached under
/// the query and the offset as the identifiers of these albums and Spotify's total,
/// which is answered too.
pub proof fn law_page_from_spotify(
    replied: SearchReplied,
    query: &str,
    status: u16,
    headers: HeaderMap,
    body: SpotifyAlbumPage,
    kept: Vec<SpotifyApiAlbum>,
    hits: Seq<(i64, bool)>,
    first: SearchStep,
    written: SearchStep,
    last: SearchStep,
    i: int,
    year: Option<u32>,
)
    requires
        query@ == replied.query@,
        0 <= i < kept@.len() ==> call_ensures(release_year, (&kept@[i].release_date,), year),
        200 <= status <= 299,
        call_ensures(keep_relevant, (query, body.items), kept),
        hits.len() == kept@.len(),
        call_ensures(
            SearchReplied::resume,
            (replied, ApiReply::Received { status, headers, body: Some(body) }),
            first,
        ),
        stores_hits(first, hits, written),
        call_ensures(
            CacheWritten::resume,
            (written->WriteCache_then, Ok::<(), DbError>(())),
            last,
        ),
    ensures
        last is Done && last->Done_0 is Ok,
        last->Done_0->Ok_0.total == body.total,
        last->Done_0->Ok_0.albums@.len() == kept@.len(),
        0 <= i < kept@.len() ==> album_is(
            last->Done_0->Ok_0.albums@[i],
            kept@[i].id@,
            kept@[i].name@,
            Seq::new(kept@[i].artists@.len(), |k: int| kept@[i].artists@[k].name@),
            kept@[i].album_type@,
            year,
            hits[i].1,
        ),
        written is WriteCache,
        written->WriteCache_statement@.sql == WRITE_SEARCH_CACHE@,
        written->WriteCache_statement@.params.len() == 4,
        written->WriteCache_statement@.params[0] == SqlData::Text(replied.query@),
        written->WriteCache_statement@.params[1] == SqlData::Int(replied.offset as int),
        written->WriteCache_statement@.params[2] is Text,
        json_list(written->WriteCache_statement@.params[2]->Text_0) == Some(
            Seq::new(kept@.len(), |i: int| kept@[i].id@),
        ),
        written->WriteCache_statement@.params[3] == SqlData::Int(body.total as int),
{
    let reply = ApiReply::Received { status, headers, body: Some(body) };
    law_page_shows_what_is_relevant(replied, reply, hits, first, written, last);
    let page = FoundPage { query: replied.query, offset: replied.offset, total: body.total };
    lemma_stores_rest(first, page, Seq::empty(), kept@, hits, written);
    let shown = with_hits(kept@, hits);
    assert(Seq::<FoundAlbum>::empty() + shown =~= shown);
    assert(ids_of(shown) =~= Seq::new(kept@.len(), |i: int| kept@[i].id@));
    let albums = last->Done_0->Ok_0.albums@;
    assert(albums_data(albums).len() == albums.len());
    if 0 <= i < kept@.len() {
        assert(albums_data(albums)[i] == albums[i]@);
        assert(albums_of(shown)[i] == album_found(shown[i]));
        lemma_album_is(albums[i]);
        assert(artist_names(kept@[i].artists@) =~= Seq::new(
            kept@[i].artists@.len(),
            |k: int| kept@[i].artists@[k].name@,
        ));
    }
}

/// A cached page whose albums are all stored shows the album of each row that was
/// found, in the order of the identifiers that were cached, and the total that was
/// cached.
pub proof fn law_page_from_the_cache(
    read: CacheRead,
    cached: CachedPage,
    ids: Seq<Seq<char>>,
    answers: Seq<Option<(DbSpotifyAlbum, i64)>>,
    first: SearchStep,
    last: SearchStep,
)
    requires
        json_list(cached.spotify_ids@) == Some(ids),
        call_ensures(CacheRead::resume, (read, Ok::<Option<CachedPage>, DbError>(Some(cached))), first),
        answers.len() == ids.len(),
        forall|i: int| 0 <= i < answers.len() ==> #[trigger] answers[i] is Some,
        loads_answers(first, answers, last),
    ensures
        last is Done && last->Done_0 is Ok,
        last->Done_0->Ok_0.total == cached.total as usize,
        last->Done_0->Ok_0.albums@.len() == ids.len(),
        forall|i: int, album: SpotifyAlbum|
            0 <= i < ids.len() && #[trigger] call_ensures(
                spotify_album_from_db,
                (&answers[i].unwrap().0,),
                album,
            ) ==> last->Done_0->Ok_0.albums@[i]@ == album@,
{
    law_cached_albums_in_order(ids, cached.total, answers, first, last);
    lemma_albums_in(answers);
    let albums = last->Done_0->Ok_0.albums@;
    assert(albums_data(albums).len() == albums.len());
    assert forall|i: int, album: SpotifyAlbum|
        0 <= i < ids.len() && #[trigger] call_ensures(
            spotify_album_from_db,
            (&answers[i].unwrap().0,),
            album,
        ) implies albums[i]@ == album@ by {
        assert(albums_data(albums)[i] == albums[i]@);
        assert(albums_in(answers)[i] == album_of_row(answers[i].unwrap().0));
    }
}

/// Of a cached page the albums are looked up one by one, in the order of the
/// identifiers, each found one is counted a hit, and one that is not stored is left
/// out.
pub proof fn law_cached_albums_are_looked_up(
    albums: Vec<SpotifyAlbum>,
    rest: Vec<String>,
    total: i64,
    row: DbSpotifyAlbum,
    step: SearchStep,
    found: SearchStep,
    missing: SearchStep,
)
    requires
        rest@.len() > 0,
        call_ensures(load_albums_by_ids_and_bump, (albums, rest, total), step),
        call_ensures(
            CachedLookup::resume,
            (step->FindAlbum_then, Ok::<Option<DbSpotifyAlbum>, DbError>(Some(row))),
            found,
        ),
        call_ensures(
            CachedLookup::resume,
            (step->FindAlbum_then, Ok::<Option<DbSpotifyAlbum>, DbError>(None)),
            missing,
        ),
    ensures
        step is FindAlbum,
        step->FindAlbum_statement@.sql == FIND_ALBUM@,
        step->FindAlbum_statement@.params == seq![SqlData::Text(rest@[0]@)],
        found is CountCachedHit,
        found->CountCachedHit_statement@.sql == BUMP_HITS@,
        found->CountCachedHit_statement@.params == seq![SqlData::Text(rest@[0]@)],
        found->CountCachedHit_then.row == row,
        found->CountCachedHit_then.id@ == rest@[0]@,
        texts(found->CountCachedHit_then.rest@) == texts(rest@).drop_first(),
        albums_data(found->CountCachedHit_then.albums@) == albums_data(albums@),
        found->CountCachedHit_then.total == total,
        rest@.len() == 1 ==> missing is Done && missing->Done_0 is Ok && albums_data(
            missing->Done_0->Ok_0.albums@,
        ) == albums_data(albums@) && missing->Done_0->Ok_0.total == total as usize,
        rest@.len() > 1 ==> missing is FindAlbum && missing->FindAlbum_statement@.sql == FIND_ALBUM@
            && missing->FindAlbum_statement@.params == seq![SqlData::Text(rest@[1]@)]
            && albums_data(missing->FindAlbum_then.albums@) == albums_data(albums@)
            && missing->FindAlbum_then.total == total,
{
    assert(texts(rest@).len() == rest@.len());
    assert(texts(rest@)[0] == rest@[0]@);
    if rest@.len() > 1 {
        assert(texts(rest@).drop_first()[0] == rest@[1]@);
    }
}

/// Every hundredth hit of an album, and no other, sets off one fetching anew of its
/// metadata; a hit of an album from Spotify without cover art also sets off the
/// fetching of its cover image, where it has one.
pub proof fn law_jobs_of_hits(
    cached: CachedHit,
    fresh: FoundHit,
    count: i64,
    has_art: bool,
    url: Option<String>,
    images: &[SpotifyImage],
    of_cached: (Vec<BackgroundJob>, SearchStep),
    of_fresh: (Vec<BackgroundJob>, SearchStep),
)
    requires
        call_ensures(CachedHit::resume, (cached, Ok::<i64, DbError>(count)), of_cached),
        call_ensures(
            FoundHit::resume,
            (fresh, Ok::<(i64, bool), DbError>((count, has_art))),
            of_fresh,
        ),
        images@ == fresh.current.images@,
        call_ensures(best_image_url, (images,), url),
    ensures
        count % 100 == 0 ==> of_cached.0@.len() == 1 && of_cached.0@[0] is Refresh
            && of_cached.0@[0]->Refresh_spotify_id@ == cached.id@,
        count % 100 != 0 ==> of_cached.0@.len() == 0,
        ({
            let refreshes: int = if count % 100 == 0 {
                1
            } else {
                0
            };
            let jobs = of_fresh.0@;
            &&& count % 100 == 0 ==> jobs.len() > 0 && jobs[0] is Refresh
                && jobs[0]->Refresh_spotify_id@ == fresh.current.id@
            &&& has_art || url is None ==> jobs.len() == refreshes
            &&& !has_art && url is Some ==> jobs.len() == refreshes + 1 && jobs[refreshes] is StoreCoverArt
                && jobs[refreshes]->StoreCoverArt_spotify_id@ == fresh.current.id@
                && jobs[refreshes]->StoreCoverArt_url@ == url->0@
        }),
{
    assert(jobs_data(of_cached.0@).len() == of_cached.0@.len());
    assert(jobs_data(of_fresh.0@).len() == of_fresh.0@.len());
    if count % 100 == 0 {
        assert(jobs_data(of_cached.0@)[0] == of_cached.0@[0]@);
        assert(jobs_data(of_fresh.0@)[0] == of_fresh.0@[0]@);
    }
    if !has_art && url is Some {
        let last = of_fresh.0@.len() - 1;
        assert(jobs_data(of_fresh.0@)[last] == of_fresh.0@[last]@);
    }
}

/// An album of a page from Spotify is stored and counted a hit by its identifier.
pub proof fn law_found_album_is_stored_and_counted(
    stored: FoundStored,
    step: SearchStep,
)
    requires
        call_ensures(FoundStored::resume, (stored, Ok::<(), DbError>(())), step),
    ensures
        step is CountFoundHit,
        step->CountFoundHit_statement@.sql == BUMP_HITS@,
        step->CountFoundHit_statement@.params == seq![SqlData::Text(stored.current.id@)],
        step->CountFoundHit_then.page == stored.page,
        step->CountFoundHit_then.current == stored.current,
        step->CountFoundHit_then.rest == stored.rest,
        step->CountFoundHit_then.stored == stored.stored,
{
}

/// Whatever fails ends the search: a database error as such, an unreadable list of
/// identifiers as a corrupt cache, a missing token and a bad answer as what they
/// are. No job is started then.
pub proof fn law_search_failures(
    read: CacheRead,
    cached: CachedPage,
    lookup: CachedLookup,
    hit: CachedHit,
    token: SearchToken,
    stored: FoundStored,
    found: FoundHit,
    written: CacheWritten,
    e: DbError,
    why: SpotifyError,
    steps: Seq<SearchStep>,
    outs: Seq<(Vec<BackgroundJob>, SearchStep)>,
)
    requires
        steps.len() == 6,
        outs.len() == 2,
        call_ensures(CacheRead::resume, (read, Err::<Option<CachedPage>, DbError>(e)), steps[0]),
        call_ensures(
            CachedLookup::resume,
            (lookup, Err::<Option<DbSpotifyAlbum>, DbError>(e)),
            steps[1],
        ),
        call_ensures(FoundStored::resume, (stored, Err::<(), DbError>(e)), steps[2]),
        call_ensures(CacheWritten::resume, (written, Err::<(), DbError>(e)), steps[3]),
        call_ensures(SearchToken::resume, (token, Err::<String, SpotifyError>(why)), steps[4]),
        json_list(cached.spotify_ids@) is None,
        call_ensures(
            CacheRead::resume,
            (read, Ok::<Option<CachedPage>, DbError>(Some(cached))),
            steps[5],
        ),
        call_ensures(CachedHit::resume, (hit, Err::<i64, DbError>(e)), outs[0]),
        call_ensures(FoundHit::resume, (found, Err::<(i64, bool), DbError>(e)), outs[1]),
    ensures
        forall|i: int|
            0 <= i < 4 ==> #[trigger] steps[i] == SearchStep::Done(Err(SpotifyError::Database)),
        steps[4] == SearchStep::Done(Err(why)),
        steps[5] == SearchStep::Done(Err(SpotifyError::CacheCorrupt)),
        forall|i: int|
            0 <= i < 2 ==> (#[trigger] outs[i]).0@.len() == 0 && outs[i].1 == SearchStep::Done(
                Err(SpotifyError::Database),
            ),
{
}

/// A page from Spotify is stored from the first album that was kept on; where none
/// was, it is cached as an empty page right away.
pub proof fn law_storing_begins(
    replied: SearchReplied,
    query: &str,
    status: u16,
    headers: HeaderMap,
    body: SpotifyAlbumPage,
    kept: Vec<SpotifyApiAlbum>,
    first: SearchStep,
    statement: Statement,
)
    requires
        query@ == replied.query@,
        200 <= status <= 299,
        call_ensures(keep_relevant, (query, body.items), kept),
        call_ensures(
            SearchReplied::resume,
            (replied, ApiReply::Received { status, headers, body: Some(body) }),
            first,
        ),
        kept@.len() > 0 ==> call_ensures(store_album, (&kept@[0],), statement),
    ensures
        kept@.len() > 0 ==> {
            &&& first is StoreAlbum
            &&& first->StoreAlbum_statement@ == statement@
            &&& first->StoreAlbum_then.current == kept@[0]
            &&& first->StoreAlbum_then.rest@ == kept@.drop_first()
            &&& first->StoreAlbum_then.stored@.len() == 0
            &&& first->StoreAlbum_then.page.query@ == replied.query@
            &&& first->StoreAlbum_then.page.offset == replied.offset
            &&& first->StoreAlbum_then.page.total == body.total
        },
        kept@.len() == 0 ==> {
            &&& first is WriteCache
            &&& first->WriteCache_statement@.sql == WRITE_SEARCH_CACHE@
            &&& first->WriteCache_statement@.params.len() == 4
            &&& first->WriteCache_statement@.params[0] == SqlData::Text(replied.query@)
            &&& first->WriteCache_statement@.params[1] == SqlData::Int(replied.offset as int)
            &&& first->WriteCache_statement@.params[2] is Text
            &&& json_list(first->WriteCache_statement@.params[2]->Text_0) == Some(
                Seq::<Seq<char>>::empty(),
            )
            &&& first->WriteCache_statement@.params[3] == SqlData::Int(body.total as int)
            &&& first->WriteCache_then.albums@.len() == 0
            &&& first->WriteCache_then.total == body.total
        },
{
    if kept@.len() == 0 {
        assert(ids_of(Seq::<FoundAlbum>::empty()) =~= Seq::<Seq<char>>::empty());
        let albums = first->WriteCache_then.albums@;
        assert(albums_data(albums).len() == albums.len());
    }
}

/// Storing goes on with the next album that was kept, in order; behind the last
/// the page with all of them is cached, under its query and its offset.
pub proof fn law_storing_goes_on(
    hit: FoundHit,
    count: i64,
    has_art: bool,
    out: (Vec<BackgroundJob>, SearchStep),
    statement: Statement,
    album: SpotifyAlbum,
)
    requires
        call_ensures(FoundHit::resume, (hit, Ok::<(i64, bool), DbError>((count, has_art))), out),
        hit.rest@.len() > 0 ==> call_ensures(store_album, (&hit.rest@[0],), statement),
        call_ensures(spotify_album_from_stored, (&hit.current, has_art), album),
    ensures
        hit.rest@.len() > 0 ==> {
            &&& out.1 is StoreAlbum
            &&& out.1->StoreAlbum_statement@ == statement@
            &&& out.1->StoreAlbum_then.current == hit.rest@[0]
            &&& out.1->StoreAlbum_then.rest@ == hit.rest@.drop_first()
            &&& out.1->StoreAlbum_then.page == hit.page
            &&& out.1->StoreAlbum_then.stored@.len() == hit.stored@.len() + 1
            &&& out.1->StoreAlbum_then.stored@.drop_last() == hit.stored@
            &&& out.1->StoreAlbum_then.stored@.last().api_album == hit.current
            &&& out.1->StoreAlbum_then.stored@.last().has_cover_art == has_art
        },
        hit.rest@.len() == 0 ==> {
            let n = hit.stored@.len() as int;
            &&& out.1 is WriteCache
            &&& out.1->WriteCache_statement@.sql == WRITE_SEARCH_CACHE@
            &&& out.1->WriteCache_statement@.params.len() == 4
            &&& out.1->WriteCache_statement@.params[0] == SqlData::Text(hit.page.query@)
            &&& out.1->WriteCache_statement@.params[1] == SqlData::Int(hit.page.offset as int)
            &&& out.1->WriteCache_statement@.params[2] is Text
            &&& json_list(out.1->WriteCache_statement@.params[2]->Text_0) == Some(
                Seq::new(
                    (n + 1) as nat,
                    |i: int|
                        if i < n {
                            hit.stored@[i].api_album.id@
                        } else {
                            hit.current.id@
                        },
                ),
            )
            &&& out.1->WriteCache_statement@.params[3] == SqlData::Int(hit.page.total as int)
            &&& out.1->WriteCache_then.albums@.len() == n + 1
            &&& out.1->WriteCache_then.albums@[n]@ == album@
            &&& out.1->WriteCache_then.total == hit.page.total
        },
{
    let all = hit.stored@.push(FoundAlbum { api_album: hit.current, has_cover_art: has_art });
    if hit.rest@.len() > 0 {
        assert(all.drop_last() =~= hit.stored@);
    } else {
        let n = hit.stored@.len() as int;
        assert(ids_of(all) =~= Seq::new(
            (n + 1) as nat,
            |i: int|
                if i < n {
                    hit.stored@[i].api_album.id@
                } else {
                    hit.current.id@
                },
        ));
        let albums = out.1->WriteCache_then.albums@;
        assert(albums_data(albums).len() == albums.len());
        assert(albums_data(albums)[n] == albums[n]@);
        assert(albums_of(all)[n] == album_found(all[n]));
    }
}

/// A cached page is loaded from its first identifier on; without identifiers it is
/// an empty page with its total.
pub proof fn law_cached_page_begins(
    read: CacheRead,
    cached: CachedPage,
    ids: Seq<Seq<char>>,
    first: SearchStep,
)
    requires
        json_list(cached.spotify_ids@) == Some(ids),
        call_ensures(
            CacheRead::resume,
            (read, Ok::<Option<CachedPage>, DbError>(Some(cached))),
            first,
        ),
    ensures
        ids.len() == 0 ==> first is Done && first->Done_0 is Ok
            && first->Done_0->Ok_0.albums@.len() == 0 && first->Done_0->Ok_0.total
            == cached.total as usize,
        ids.len() > 0 ==> {
            &&& first is FindAlbum
            &&& first->FindAlbum_statement@.sql == FIND_ALBUM@
            &&& first->FindAlbum_statement@.params == seq![SqlData::Text(ids[0])]
            &&& first->FindAlbum_then.id@ == ids[0]
            &&& texts(first->FindAlbum_then.rest@) == ids.drop_first()
            &&& first->FindAlbum_then.albums@.len() == 0
            &&& first->FindAlbum_then.total == cached.total
        },
{
    if ids.len() == 0 {
        let albums = first->Done_0->Ok_0.albums@;
        assert(albums_data(albums).len() == albums.len());
    } else {
        let albums = first->FindAlbum_then.albums@;
        assert(albums_data(albums).len() == albums.len());
    }
}

/// An album of a cached page that was counted goes behind those before it; then the
/// next identifier is looked up, and behind the last the page is answered.
pub proof fn law_cached_page_goes_on(
    hit: CachedHit,
    count: i64,
    album: SpotifyAlbum,
    out: (Vec<BackgroundJob>, SearchStep),
)
    requires
        call_ensures(CachedHit::resume, (hit, Ok::<i64, DbError>(count)), out),
        call_ensures(spotify_album_from_db, (&hit.row,), album),
    ensures
        hit.rest@.len() == 0 ==> {
            &&& out.1 is Done && out.1->Done_0 is Ok
            &&& out.1->Done_0->Ok_0.total == hit.total as usize
            &&& out.1->Done_0->Ok_0.albums@.len() == hit.albums@.len() + 1
            &&& out.1->Done_0->Ok_0.albums@.last()@ == album@
            &&& forall|k: int|
                0 <= k < hit.albums@.len() ==> (#[trigger] out.1->Done_0->Ok_0.albums@[k])@
                    == hit.albums@[k]@
        },
        hit.rest@.len() > 0 ==> {
            &&& out.1 is FindAlbum
            &&& out.1->FindAlbum_statement@.sql == FIND_ALBUM@
            &&& out.1->FindAlbum_statement@.params == seq![SqlData::Text(hit.rest@[0]@)]
            &&& out.1->FindAlbum_then.id@ == hit.rest@[0]@
            &&& texts(out.1->FindAlbum_then.rest@) == texts(hit.rest@).drop_first()
            &&& out.1->FindAlbum_then.total == hit.total
            &&& out.1->FindAlbum_then.albums@.len() == hit.albums@.len() + 1
            &&& out.1->FindAlbum_then.albums@.last()@ == album@
            &&& forall|k: int|
                0 <= k < hit.albums@.len() ==> (#[trigger] out.1->FindAlbum_then.albums@[k])@
                    == hit.albums@[k]@
        },
{
    assert(texts(hit.rest@).len() == hit.rest@.len());
    let albums = if hit.rest@.len() == 0 {
        out.1->Done_0->Ok_0.albums@
    } else {
        out.1->FindAlbum_then.albums@
    };
    assert(albums_data(albums) == albums_data(hit.albums@).push(album_of_row(hit.row)));
    assert(albums_data(albums).len() == albums.len());
    assert(albums_data(hit.albums@).len() == hit.albums@.len());
    assert(albums_data(albums)[albums.len() - 1] == albums.last()@);
    assert forall|k: int| 0 <= k < hit.albums@.len() implies (#[trigger] albums[k])@
        == hit.albums@[k]@ by {
        assert(albums_data(albums)[k] == albums[k]@);
        assert(albums_data(hit.albums@)[k] == hit.albums@[k]@);
    }
}

/// An answer of Spotify that yields no page ends the search with its error.
pub proof fn law_bad_answer_ends_the_search(
    replied: SearchReplied,
    reply: ApiReply<SpotifyAlbumPage>,
    bad: SpotifyError,
    step: SearchStep,
)
    requires
        call_ensures(
            read_reply::<SpotifyAlbumPage>,
            (reply,),
            Err::<SpotifyAlbumPage, SpotifyError>(bad),
        ),
        call_ensures(SearchReplied::resume, (replied, reply), step),
    ensures
        step == SearchStep::Done(Err(bad)),
{
}

/// A page whose identifiers could be read is loaded from the first on, and one
/// whose identifiers could not is corrupt.
pub proof fn law_loading_a_cached_page(
    ids: Vec<String>,
    total: i64,
    loaded: SearchStep,
    corrupt: SearchStep,
)
    requires
        call_ensures(load_cached_page, (Some(ids), total), loaded),
        call_ensures(load_cached_page, (None::<Vec<String>>, total), corrupt),
    ensures
        corrupt == SearchStep::Done(Err(SpotifyError::CacheCorrupt)),
        ids@.len() == 0 ==> loaded is Done && loaded->Done_0 is Ok
            && loaded->Done_0->Ok_0.albums@.len() == 0 && loaded->Done_0->Ok_0.total
            == total as usize,
        ids@.len() > 0 ==> loaded is FindAlbum && loaded->FindAlbum_statement@.params == seq![
            SqlData::Text(ids@[0]@),
        ] && loaded->FindAlbum_then.albums@.len() == 0 && loaded->FindAlbum_then.total == total,
{
    assert(texts(ids@).len() == ids@.len());
    if ids@.len() == 0 {
        let albums = loaded->Done_0->Ok_0.albums@;
        assert(albums_data(albums).len() == albums.len());
    } else {
        assert(texts(ids@)[0] == ids@[0]@);
        let albums = loaded->FindAlbum_then.albums@;
        assert(albums_data(albums).len() == albums.len());
    }
}

/// The request for a page of results asks for ten albums that match the query, from
/// the offset on.
pub proof fn law_search_request(
    query: String,
    offset: u32,
    access_token: String,
    request: ApiRequest,
)
    requires
        call_ensures(search_api, (query, offset, access_token), request),
    ensures
        request.url@ == "https://api.spotify.com/v1/search"@,
        request.access_token@ == access_token@,
        request.query@.len() == 4,
        request.query@[0].0@ == "q"@ && request.query@[0].1@ == query@,
        request.query@[1].0@ == "type"@ && request.query@[1].1@ == "album"@,
        request.query@[2].0@ == "limit"@ && request.query@[2].1@ == "10"@,
        request.query@[3].0@ == "offset"@ && digits_value(request.query@[3].1@) == offset,
{
    law_decimal_round_trip(offset as nat);
    let pairs = request@.query;
    assert(pairs.len() == request.query@.len());
    assert(pairs[0] == (request.query@[0].0@, request.query@[0].1@));
    assert(pairs[1] == (request.query@[1].0@, request.query@[1].1@));
    assert(pairs[2] == (request.query@[2].0@, request.query@[2].1@));
    assert(pairs[3] == (request.query@[3].0@, request.query@[3].1@));
}

} // verus!
