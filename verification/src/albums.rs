//! Looking up an album: in the database first, at Spotify where it is not there
//! yet.
//!
//! A step names the work to do next; its `then` takes what came of it and gives
//! the next step.

use crate::catalog::{
    album_of_row, album_of_stored, artist_names, best_image_url, best_url, names_of,
    spotify_album_from_db, spotify_album_from_stored, track_from_api, track_from_db, track_of_api,
    track_of_row, tracks_data, AlbumDetail, DbSpotifyAlbum, DbTrack, SpotifyAlbum,
    SpotifyAlbumData, SpotifyApiAlbum, SpotifyApiTrack, SpotifyImage, Track, TrackData,
};
use crate::json::{album_raw, json_list, json_list_text, write_album_raw, write_json_list};
use crate::spotify::{
    album_request, album_request_data, read_reply, reply_outcome, ApiReply, ApiRequest,
    BackgroundJob, JobData, SpotifyClient, SpotifyError,
};
use crate::store::{
    find_album, find_album_stmt, insert_track, insert_track_stmt, list_tracks, list_tracks_stmt,
    upsert_album, upsert_album_stmt, DbError, SqlData, Statement, StatementData, FIND_ALBUM,
    INSERT_TRACK, LIST_TRACKS, UPSERT_ALBUM,
};
use crate::text::{opt_text, texts};
use axum::http::HeaderMap;
use vstd::prelude::*;

verus! {

// ---------------------------------------------------------------------------
// Storing what Spotify says
// ---------------------------------------------------------------------------

/// The statement that stores an album of the API.
pub open spec fn store_album_stmt(api: SpotifyApiAlbum) -> StatementData {
    upsert_album_stmt(
        api.id@,
        api.name@,
        json_list_text(artist_names(api.artists@)),
        api.album_type@,
        opt_text(api.release_date),
        best_url(api.images@),
        album_raw(api.id@, api.name@),
    )
}

/// Whether a row holds what was stored of an album of the API.
pub open spec fn row_holds_album(row: DbSpotifyAlbum, api: SpotifyApiAlbum) -> bool {
    &&& row.spotify_id@ == api.id@
    &&& row.title@ == api.name@
    &&& row.artists@ == json_list_text(artist_names(api.artists@))
    &&& opt_text(row.album_type) == Some(api.album_type@)
    &&& opt_text(row.release_date) == opt_text(api.release_date)
}

/// Stores an album of the API. An album that is read back from such a row is the
/// one that the API returned, with cover art once the row holds some.
pub fn store_album(api: &SpotifyApiAlbum) -> (s: Statement)
    ensures
        s@ == store_album_stmt(*api),
        forall|row: DbSpotifyAlbum| #[trigger]
            row_holds_album(row, *api) ==> album_of_row(row) == album_of_stored(
                *api,
                row.cover_art is Some,
            ),
{
    let artists_json = write_json_list(&names_of(&api.artists));
    let raw_json = write_album_raw(api.id.as_str(), api.name.as_str());
    let cover_art_url = best_image_url(api.images.as_slice());
    upsert_album(
        api.id.as_str(),
        api.name.as_str(),
        artists_json.as_str(),
        api.album_type.as_str(),
        &api.release_date,
        &cover_art_url,
        raw_json.as_str(),
    )
}

/// The statement that stores a track of an album.
pub open spec fn store_track_stmt(spotify_id: Seq<char>, t: SpotifyApiTrack) -> StatementData {
    insert_track_stmt(
        spotify_id,
        t.id@,
        t.disc_number as int,
        t.track_number as int,
        t.name@,
        json_list_text(artist_names(t.artists@)),
        t.duration_ms,
    )
}

/// Whether a row holds what was stored of a track of the API.
pub open spec fn row_holds_track(row: DbTrack, t: SpotifyApiTrack) -> bool {
    &&& row.track_id@ == t.id@
    &&& row.disc_number == t.disc_number
    &&& row.track_number == t.track_number
    &&& row.name@ == t.name@
    &&& row.artists@ == json_list_text(artist_names(t.artists@))
    &&& row.duration_ms == match t.duration_ms {
        Some(ms) => Some(ms as i64),
        None => None,
    }
}

/// Stores a track of an album. A track that is read back from such a row is the
/// one that the API returned.
pub fn store_track(spotify_id: &str, t: &SpotifyApiTrack) -> (s: Statement)
    ensures
        s@ == store_track_stmt(spotify_id@, *t),
        forall|row: DbTrack| #[trigger]
            row_holds_track(row, *t) ==> track_of_row(row) == track_of_api(*t),
{
    let artists_json = write_json_list(&names_of(&t.artists));
    insert_track(
        spotify_id,
        t.id.as_str(),
        t.disc_number as i64,
        t.track_number as i64,
        t.name.as_str(),
        artists_json.as_str(),
        t.duration_ms,
    )
}

/// The job that fetches the cover art of an album of the API, where there is any
/// and the album does not have it yet.
pub open spec fn cover_job_data(api: SpotifyApiAlbum, has_cover_art: bool) -> Option<JobData> {
    if has_cover_art {
        None
    } else {
        match best_url(api.images@) {
            Some(url) => Some(JobData::StoreCoverArt { spotify_id: api.id@, url }),
            None => None,
        }
    }
}

/// The contents of a background job, where there is one.
pub open spec fn opt_job(job: Option<BackgroundJob>) -> Option<JobData> {
    match job {
        Some(j) => Some(j@),
        None => None,
    }
}

/// The job that fetches the cover art of an album of the API, where there is any
/// and the album does not have it yet.
pub fn cover_job(api: &SpotifyApiAlbum, has_cover_art: bool) -> (job: Option<BackgroundJob>)
    ensures
        opt_job(job) == cover_job_data(*api, has_cover_art),
{
    if has_cover_art {
        return None;
    }
    match best_image_url(api.images.as_slice()) {
        Some(url) => Some(BackgroundJob::StoreCoverArt { spotify_id: api.id.clone(), url }),
        None => None,
    }
}

// ---------------------------------------------------------------------------
// One album
// ---------------------------------------------------------------------------

/// The next step of looking up an album.
pub enum AlbumStep {
    /// Find the album's row: at most one.
    FindAlbum { statement: Statement, then: AlbumLookup },
    /// Get an access token.
    GetToken { then: AlbumToken },
    /// Ask the API for the album.
    CallApi { request: ApiRequest, then: AlbumReplied },
    /// Store the album: one row, which tells whether its cover art is stored.
    StoreAlbum { statement: Statement, then: AlbumStored },
    /// Start the job, if there is one, and answer.
    Done { result: Result<SpotifyAlbum, SpotifyError>, job: Option<BackgroundJob> },
}

/// Waits for the album's row.
pub struct AlbumLookup {
    pub spotify_id: String,
}

/// Waits for an access token.
pub struct AlbumToken {
    pub spotify_id: String,
}

/// Waits for the API's answer.
pub struct AlbumReplied {}

/// Waits for the album to be stored.
pub struct AlbumStored {
    pub api_album: SpotifyApiAlbum,
}

/// Whether a step answers with an error.
pub open spec fn album_fails(step: AlbumStep, e: SpotifyError) -> bool {
    step == (AlbumStep::Done { result: Err(e), job: None })
}

/// Answers with an error.
fn fail_album(e: SpotifyError) -> (step: AlbumStep)
    ensures
        album_fails(step, e),
{
    AlbumStep::Done { result: Err(e), job: None }
}

impl SpotifyClient {
    /// Looks up an album, in the database first.
    pub fn get_album(&self, spotify_id: &str) -> (step: AlbumStep)
        ensures
            if self.credentials is None {
                album_fails(step, SpotifyError::NotConfigured)
            } else {
                step matches AlbumStep::FindAlbum { statement, then } && statement@
                    == find_album_stmt(spotify_id@) && then.spotify_id@ == spotify_id@
            },
    {
        if self.credentials.is_none() {
            return fail_album(SpotifyError::NotConfigured);
        }
        AlbumStep::FindAlbum {
            statement: find_album(spotify_id),
            then: AlbumLookup { spotify_id: spotify_id.to_string() },
        }
    }
}

impl AlbumLookup {
    /// Answers with the stored album; without one Spotify is asked.
    pub fn resume(self, row: Result<Option<DbSpotifyAlbum>, DbError>) -> (step: AlbumStep)
        ensures
            match row {
                Err(_) => album_fails(step, SpotifyError::Database),
                Ok(Some(r)) => step matches AlbumStep::Done { result, job } && result is Ok
                    && result->Ok_0@ == album_of_row(r) && job is None,
                Ok(None) => step matches AlbumStep::GetToken { then } && then.spotify_id
                    == self.spotify_id,
            },
    {
        match row {
            Err(_) => fail_album(SpotifyError::Database),
            Ok(Some(r)) => AlbumStep::Done { result: Ok(spotify_album_from_db(&r)), job: None },
            Ok(None) => AlbumStep::GetToken { then: AlbumToken { spotify_id: self.spotify_id } },
        }
    }
}

impl AlbumToken {
    /// Asks the API for the album.
    pub fn resume(self, token: Result<String, SpotifyError>) -> (step: AlbumStep)
        ensures
            match token {
                Err(e) => album_fails(step, e),
                Ok(t) => step matches AlbumStep::CallApi { request, then } && request@
                    == album_request_data(self.spotify_id@, t@),
            },
    {
        match token {
            Err(e) => fail_album(e),
            Ok(t) => AlbumStep::CallApi {
                request: album_request(self.spotify_id.as_str(), t),
                then: AlbumReplied {  },
            },
        }
    }
}

impl AlbumReplied {
    /// Stores the album that the API returned.
    pub fn resume(self, reply: ApiReply<SpotifyApiAlbum>) -> (step: AlbumStep)
        ensures
            match reply_outcome(reply) {
                Err(e) => album_fails(step, e),
                Ok(api) => step matches AlbumStep::StoreAlbum { statement, then } && statement@
                    == store_album_stmt(api) && then.api_album == api,
            },
    {
        match read_reply(reply) {
            Err(e) => fail_album(e),
            Ok(api) => AlbumStep::StoreAlbum {
                statement: store_album(&api),
                then: AlbumStored { api_album: api },
            },
        }
    }
}

impl AlbumStored {
    /// Answers with the album that the API returned, and lets its cover art be
    /// fetched unless it is there, which `stored` tells.
    pub fn resume(self, stored: Result<bool, DbError>) -> (step: AlbumStep)
        ensures
            match stored {
                Err(_) => album_fails(step, SpotifyError::Database),
                Ok(has_art) => step matches AlbumStep::Done { result, job } && result is Ok
                    && result->Ok_0@ == album_of_stored(self.api_album, has_art) && opt_job(job)
                    == cover_job_data(self.api_album, has_art),
            },
    {
        match stored {
            Err(_) => fail_album(SpotifyError::Database),
            Ok(has_art) => AlbumStep::Done {
                result: Ok(spotify_album_from_stored(&self.api_album, has_art)),
                job: cover_job(&self.api_album, has_art),
            },
        }
    }
}

// ---------------------------------------------------------------------------
// An album with its tracks
// ---------------------------------------------------------------------------

/// The next step of looking up an album with its tracks.
pub enum DetailStep {
    /// List the stored tracks.
    ListTracks { statement: Statement, then: TracksListed },
    /// Find the album's row: at most one.
    FindAlbum { statement: Statement, then: DetailLookup },
    /// Get an access token.
    GetToken { then: DetailToken },
    /// Ask the API for the album.
    CallApi { request: ApiRequest, then: DetailReplied },
    /// Store the album: one row, which tells whether its cover art is stored.
    StoreAlbum { statement: Statement, then: DetailStored },
    /// Start the job, if there is one, and store a track.
    StoreTrack { job: Option<BackgroundJob>, statement: Statement, then: TrackStored },
    /// Start the job, if there is one, and answer.
    Done { job: Option<BackgroundJob>, result: Result<AlbumDetail, SpotifyError> },
}

/// Waits for the stored tracks.
pub struct TracksListed {
    pub spotify_id: String,
}

/// Waits for the row of an album whose tracks are stored.
pub struct DetailLookup {
    pub tracks: Vec<Track>,
}

/// Waits for an access token.
pub struct DetailToken {
    pub spotify_id: String,
}

/// Waits for the API's answer.
pub struct DetailReplied {
    pub spotify_id: String,
}

/// Waits for the album to be stored.
pub struct DetailStored {
    pub spotify_id: String,
    pub api_album: SpotifyApiAlbum,
}

/// Waits for a track to be stored. `tracks` are those stored before, `current`
/// is being stored, and `rest` are still to be stored.
pub struct TrackStored {
    pub spotify_id: String,
    pub album: SpotifyAlbum,
    pub tracks: Vec<Track>,
    pub current: SpotifyApiTrack,
    pub rest: Vec<SpotifyApiTrack>,
}

/// Whether a step answers with an error.
pub open spec fn detail_fails(step: DetailStep, e: SpotifyError) -> bool {
    step == (DetailStep::Done { job: None, result: Err(e) })
}

/// Answers with an error.
fn fail_detail(e: SpotifyError) -> (step: DetailStep)
    ensures
        detail_fails(step, e),
{
    DetailStep::Done { job: None, result: Err(e) }
}

/// Whether a step goes on storing tracks: the first of `rest`, or, where there
/// is none left, the step answers with the album and the tracks.
pub open spec fn stores_tracks(
    step: DetailStep,
    job: Option<JobData>,
    spotify_id: Seq<char>,
    album: SpotifyAlbumData,
    tracks: Seq<TrackData>,
    rest: Seq<SpotifyApiTrack>,
) -> bool {
    if rest.len() == 0 {
        step matches DetailStep::Done { job: j, result } && opt_job(j) == job && result is Ok
            && result->Ok_0.album@ == album && tracks_data(result->Ok_0.tracks@) == tracks
    } else {
        step matches DetailStep::StoreTrack { job: j, statement, then } && opt_job(j) == job
            && statement@ == store_track_stmt(spotify_id, rest[0]) && then.spotify_id@
            == spotify_id && then.album@ == album && tracks_data(then.tracks@) == tracks
            && then.current == rest[0] && then.rest@ == rest.drop_first()
    }
}

/// Goes on storing tracks.
fn next_track(
    job: Option<BackgroundJob>,
    spotify_id: String,
    album: SpotifyAlbum,
    tracks: Vec<Track>,
    rest: Vec<SpotifyApiTrack>,
) -> (step: DetailStep)
    ensures
        stores_tracks(step, opt_job(job), spotify_id@, album@, tracks_data(tracks@), rest@),
{
    if rest.len() == 0 {
        return DetailStep::Done { job, result: Ok(AlbumDetail { album, tracks }) };
    }
    let ghost all = rest@;
    let mut rest = rest;
    let current = rest.remove(0);
    assert(rest@ =~= all.drop_first());
    DetailStep::StoreTrack {
        job,
        statement: store_track(spotify_id.as_str(), &current),
        then: TrackStored { spotify_id, album, tracks, current, rest },
    }
}

/// Whether a step lists the stored tracks of an album.
pub open spec fn lists_tracks(step: DetailStep, spotify_id: Seq<char>) -> bool {
    step matches DetailStep::ListTracks { statement, then } && statement@ == list_tracks_stmt(
        spotify_id,
    ) && then.spotify_id@ == spotify_id
}

impl SpotifyClient {
    /// Looks up an album with its tracks, in the database first.
    pub fn get_album_detail(&self, spotify_id: &str) -> (step: DetailStep)
        ensures
            if self.credentials is None {
                detail_fails(step, SpotifyError::NotConfigured)
            } else {
                lists_tracks(step, spotify_id@)
            },
    {
        if self.credentials.is_none() {
            return fail_detail(SpotifyError::NotConfigured);
        }
        DetailStep::ListTracks {
            statement: list_tracks(spotify_id),
            then: TracksListed { spotify_id: spotify_id.to_string() },
        }
    }
}

/// Answers a request for an album with its tracks.
pub fn get_album_detail(client: &SpotifyClient, spotify_id: &str) -> (step: DetailStep)
    ensures
        if client.credentials is None {
            detail_fails(step, SpotifyError::NotConfigured)
        } else {
            lists_tracks(step, spotify_id@)
        },
{
    client.get_album_detail(spotify_id)
}

/// The tracks that a list of rows stands for; an empty list counts as not
/// stored, for an album has at least one track.
pub open spec fn cached_tracks(rows: Seq<DbTrack>) -> Option<Seq<TrackData>> {
    if rows.len() == 0 {
        None
    } else {
        Some(rows.map_values(|r: DbTrack| track_of_row(r)))
    }
}

/// The stored tracks, where there are any.
pub fn load_cached_tracks(rows: &Vec<DbTrack>) -> (tracks: Option<Vec<Track>>)
    ensures
        match tracks {
            Some(ts) => cached_tracks(rows@) == Some(tracks_data(ts@)),
            None => cached_tracks(rows@) is None,
        },
{
    if rows.len() == 0 {
        return None;
    }
    let mut tracks: Vec<Track> = Vec::new();
    let mut i: usize = 0;
    while i < rows.len()
        invariant
            i <= rows@.len(),
            tracks_data(tracks@) =~= rows@.take(i as int).map_values(
                |r: DbTrack| track_of_row(r),
            ),
        decreases rows@.len() - i,
    {
        let ghost before = tracks@;
        tracks.push(track_from_db(&rows[i]));
        assert(tracks_data(tracks@) =~= tracks_data(before).push(track_of_row(rows@[i as int])));
        i = i + 1;
    }
    assert(rows@.take(rows@.len() as int) =~= rows@);
    Some(tracks)
}

impl TracksListed {
    /// Looks for the album's row where its tracks are stored; otherwise Spotify
    /// is asked.
    pub fn resume(self, rows: Result<Vec<DbTrack>, DbError>) -> (step: DetailStep)
        ensures
            match rows {
                Err(_) => detail_fails(step, SpotifyError::Database),
                Ok(rs) => match cached_tracks(rs@) {
                    Some(tracks) => step matches DetailStep::FindAlbum { statement, then }
                        && statement@ == find_album_stmt(self.spotify_id@) && tracks_data(
                        then.tracks@,
                    ) == tracks,
                    None => step matches DetailStep::GetToken { then } && then.spotify_id
                        == self.spotify_id,
                },
            },
    {
        match rows {
            Err(_) => fail_detail(SpotifyError::Database),
            Ok(rs) => match load_cached_tracks(&rs) {
                Some(tracks) => DetailStep::FindAlbum {
                    statement: find_album(self.spotify_id.as_str()),
                    then: DetailLookup { tracks },
                },
                None => DetailStep::GetToken {
                    then: DetailToken { spotify_id: self.spotify_id },
                },
            },
        }
    }
}

impl DetailLookup {
    /// Answers with the stored album and its stored tracks.
    pub fn resume(self, row: Result<Option<DbSpotifyAlbum>, DbError>) -> (step: DetailStep)
        ensures
            match row {
                Err(_) => detail_fails(step, SpotifyError::Database),
                Ok(None) => detail_fails(step, SpotifyError::MissingAlbumRow),
                Ok(Some(r)) => step matches DetailStep::Done { job, result } && job is None
                    && result is Ok && result->Ok_0.album@ == album_of_row(r) && tracks_data(
                    result->Ok_0.tracks@,
                ) == tracks_data(self.tracks@),
            },
    {
        match row {
            Err(_) => fail_detail(SpotifyError::Database),
            Ok(None) => fail_detail(SpotifyError::MissingAlbumRow),
            Ok(Some(r)) => DetailStep::Done {
                job: None,
                result: Ok(AlbumDetail { album: spotify_album_from_db(&r), tracks: self.tracks }),
            },
        }
    }
}

impl DetailToken {
    /// Asks the API for the album.
    pub fn resume(self, token: Result<String, SpotifyError>) -> (step: DetailStep)
        ensures
            match token {
                Err(e) => detail_fails(step, e),
                Ok(t) => step matches DetailStep::CallApi { request, then } && request@
                    == album_request_data(self.spotify_id@, t@) && then.spotify_id
                    == self.spotify_id,
            },
    {
        match token {
            Err(e) => fail_detail(e),
            Ok(t) => DetailStep::CallApi {
                request: album_request(self.spotify_id.as_str(), t),
                then: DetailReplied { spotify_id: self.spotify_id },
            },
        }
    }
}

impl DetailReplied {
    /// Stores the album that the API returned.
    pub fn resume(self, reply: ApiReply<SpotifyApiAlbum>) -> (step: DetailStep)
        ensures
            match reply_outcome(reply) {
                Err(e) => detail_fails(step, e),
                Ok(api) => step matches DetailStep::StoreAlbum { statement, then } && statement@
                    == store_album_stmt(api) && then.spotify_id == self.spotify_id
                    && then.api_album == api,
            },
    {
        match read_reply(reply) {
            Err(e) => fail_detail(e),
            Ok(api) => DetailStep::StoreAlbum {
                statement: store_album(&api),
                then: DetailStored { spotify_id: self.spotify_id, api_album: api },
            },
        }
    }
}

/// The tracks of an album of the API; none where the answer holds none.
pub open spec fn api_tracks(api: SpotifyApiAlbum) -> Seq<SpotifyApiTrack> {
    match api.tracks {
        Some(ts) => ts@,
        None => Seq::empty(),
    }
}

impl DetailStored {
    /// Lets the cover art be fetched unless it is there, which `stored` tells, and
    /// stores the tracks.
    pub fn resume(self, stored: Result<bool, DbError>) -> (step: DetailStep)
        ensures
            match stored {
                Err(_) => detail_fails(step, SpotifyError::Database),
                Ok(has_art) => stores_tracks(
                    step,
                    cover_job_data(self.api_album, has_art),
                    self.spotify_id@,
                    album_of_stored(self.api_album, has_art),
                    Seq::empty(),
                    api_tracks(self.api_album),
                ),
            },
    {
        match stored {
            Err(_) => fail_detail(SpotifyError::Database),
            Ok(has_art) => {
                let album = spotify_album_from_stored(&self.api_album, has_art);
                let job = cover_job(&self.api_album, has_art);
                let tracks: Vec<Track> = Vec::new();
                assert(tracks_data(tracks@) =~= Seq::<TrackData>::empty());
                let rest: Vec<SpotifyApiTrack> = match self.api_album.tracks {
                    Some(ts) => ts,
                    None => Vec::new(),
                };
                next_track(job, self.spotify_id, album, tracks, rest)
            },
        }
    }
}

impl TrackStored {
    /// Goes on with the next track.
    pub fn resume(self, stored: Result<(), DbError>) -> (step: DetailStep)
        ensures
            match stored {
                Err(_) => detail_fails(step, SpotifyError::Database),
                Ok(_) => stores_tracks(
                    step,
                    None,
                    self.spotify_id@,
                    self.album@,
                    tracks_data(self.tracks@).push(track_of_api(self.current)),
                    self.rest@,
                ),
            },
    {
        match stored {
            Err(_) => fail_detail(SpotifyError::Database),
            Ok(_) => {
                let mut tracks = self.tracks;
                let ghost before = tracks@;
                tracks.push(track_from_api(&self.current));
                assert(tracks_data(tracks@) =~= tracks_data(before).push(
                    track_of_api(self.current),
                ));
                next_track(None, self.spotify_id, self.album, tracks, self.rest)
            },
        }
    }
}

// ---------------------------------------------------------------------------
// Laws
// ---------------------------------------------------------------------------

/// Whether storing `n` tracks one after the other, all with success, leads from
/// one step to another.
pub open spec fn stores_n_tracks(step: DetailStep, n: nat, last: DetailStep) -> bool
    decreases n,
{
    if n == 0 {
        step == last
    } else {
        step matches DetailStep::StoreTrack { job: _, statement: _, then } && exists|next:
            DetailStep| #[trigger]
            call_ensures(TrackStored::resume, (then, Ok::<(), DbError>(())), next)
                && stores_n_tracks(next, (n - 1) as nat, last)
    }
}

/// Once all of `rest` are stored, the step answers with them behind the others.
proof fn lemma_stores_rest(
    step: DetailStep,
    job: Option<JobData>,
    spotify_id: Seq<char>,
    album: SpotifyAlbumData,
    tracks: Seq<TrackData>,
    rest: Seq<SpotifyApiTrack>,
    last: DetailStep,
)
    requires
        stores_tracks(step, job, spotify_id, album, tracks, rest),
        stores_n_tracks(step, rest.len(), last),
    ensures
        last matches DetailStep::Done { job: _, result } && result is Ok && result->Ok_0.album@
            == album && tracks_data(result->Ok_0.tracks@) == tracks + rest.map_values(
            |t: SpotifyApiTrack| track_of_api(t),
        ),
    decreases rest.len(),
{
    let of_api = |t: SpotifyApiTrack| track_of_api(t);
    if rest.len() == 0 {
        assert(tracks + rest.map_values(of_api) =~= tracks);
    } else {
        let then = step->StoreTrack_then;
        let next = choose|next: DetailStep| #[trigger]
            call_ensures(TrackStored::resume, (then, Ok::<(), DbError>(())), next)
                && stores_n_tracks(next, (rest.len() - 1) as nat, last);
        let tail = rest.drop_first();
        let more = tracks.push(track_of_api(rest[0]));
        assert(stores_tracks(next, None, spotify_id, album, more, tail));
        lemma_stores_rest(next, None, spotify_id, album, more, tail, last);
        assert(more + tail.map_values(of_api) =~= tracks + rest.map_values(of_api));
    }
}

/// When an album from Spotify and all its tracks could be stored, the answer is
/// that album with the API's tracks, in the API's order.
pub proof fn law_all_tracks_in_order(
    stored: DetailStored,
    has_art: bool,
    first: DetailStep,
    last: DetailStep,
)
    requires
        call_ensures(DetailStored::resume, (stored, Ok::<bool, DbError>(has_art)), first),
        stores_n_tracks(first, api_tracks(stored.api_album).len(), last),
    ensures
        last matches DetailStep::Done { job: _, result } && result is Ok && result->Ok_0.album@
            == album_of_stored(stored.api_album, has_art) && tracks_data(result->Ok_0.tracks@)
            == api_tracks(stored.api_album).map_values(|t: SpotifyApiTrack| track_of_api(t)),
{
    let rest = api_tracks(stored.api_album);
    lemma_stores_rest(
        first,
        cover_job_data(stored.api_album, has_art),
        stored.spotify_id@,
        album_of_stored(stored.api_album, has_art),
        Seq::empty(),
        rest,
        last,
    );
    let of_api = |t: SpotifyApiTrack| track_of_api(t);
    assert(Seq::<TrackData>::empty() + rest.map_values(of_api) =~= rest.map_values(of_api));
}

/// An album that is stored is found in the database as it is; nothing is fetched.
/// One that is not stored is asked for at Spotify by its identifier, stored with
/// everything that the answer says, and answered; its cover image is fetched if it
/// is not stored and there is one.
pub proof fn law_album_is_looked_up(
    client: SpotifyClient,
    spotify_id: &str,
    row: DbSpotifyAlbum,
    token: String,
    find: AlbumStep,
    found: AlbumStep,
    missing: AlbumStep,
    call: AlbumStep,
    album: SpotifyAlbum,
)
    requires
        client.credentials is Some,
        call_ensures(SpotifyClient::get_album, (&client, spotify_id), find),
        call_ensures(
            AlbumLookup::resume,
            (find->FindAlbum_then, Ok::<Option<DbSpotifyAlbum>, DbError>(Some(row))),
            found,
        ),
        call_ensures(spotify_album_from_db, (&row,), album),
        call_ensures(
            AlbumLookup::resume,
            (find->FindAlbum_then, Ok::<Option<DbSpotifyAlbum>, DbError>(None)),
            missing,
        ),
        call_ensures(
            AlbumToken::resume,
            (missing->GetToken_then, Ok::<String, SpotifyError>(token)),
            call,
        ),
    ensures
        find is FindAlbum,
        find->FindAlbum_statement@.sql == FIND_ALBUM@,
        find->FindAlbum_statement@.params == seq![SqlData::Text(spotify_id@)],
        found is Done && found->Done_result is Ok && found->Done_result->Ok_0@ == album@,
        found->Done_job is None,
        missing is GetToken,
        call is CallApi,
        call->CallApi_request@.url == "https://api.spotify.com/v1/albums/"@ + spotify_id@,
        call->CallApi_request@.access_token == token@,
        call->CallApi_request@.query.len() == 0,
{
}

/// The same from Spotify's answer on.
pub proof fn law_album_from_spotify(
    replied: AlbumReplied,
    status: u16,
    headers: HeaderMap,
    api: SpotifyApiAlbum,
    has_art: bool,
    store: AlbumStep,
    last: AlbumStep,
    statement: Statement,
    album: SpotifyAlbum,
    job: Option<BackgroundJob>,
)
    requires
        200 <= status <= 299,
        call_ensures(
            AlbumReplied::resume,
            (replied, ApiReply::Received { status, headers, body: Some(api) }),
            store,
        ),
        call_ensures(
            AlbumStored::resume,
            (store->StoreAlbum_then, Ok::<bool, DbError>(has_art)),
            last,
        ),
        call_ensures(store_album, (&api,), statement),
        call_ensures(spotify_album_from_stored, (&api, has_art), album),
        call_ensures(cover_job, (&api, has_art), job),
    ensures
        store is StoreAlbum,
        store->StoreAlbum_statement@ == statement@,
        last is Done && last->Done_result is Ok && last->Done_result->Ok_0@ == album@,
        opt_job(last->Done_job) == opt_job(job),
{
}

/// An album is stored with its identifier, name, artists as a JSON array that reads
/// back as their names, type, release date, the address of its cover image, and the
/// raw JSON of its identifier and name.
pub proof fn law_everything_of_an_album_is_stored(
    api: SpotifyApiAlbum,
    images: &[SpotifyImage],
    url: Option<String>,
    id: &str,
    name: &str,
    raw: String,
    names: Vec<String>,
    s: Statement,
)
    requires
        images@ == api.images@,
        call_ensures(best_image_url, (images,), url),
        id@ == api.id@,
        name@ == api.name@,
        call_ensures(write_album_raw, (id, name), raw),
        call_ensures(names_of, (&api.artists,), names),
        call_ensures(store_album, (&api,), s),
    ensures
        s@.sql == UPSERT_ALBUM@,
        s@.params.len() == 7,
        s@.params[0] == SqlData::Text(api.id@),
        s@.params[1] == SqlData::Text(api.name@),
        s@.params[2] == SqlData::Text(json_list_text(texts(names@))),
        s@.params[3] == SqlData::Text(api.album_type@),
        s@.params[4] == (match api.release_date {
            Some(date) => SqlData::Text(date@),
            None => SqlData::Null,
        }),
        s@.params[5] == (match url {
            Some(u) => SqlData::Text(u@),
            None => SqlData::Null,
        }),
        s@.params[6] == SqlData::Text(raw@),
{
}

/// A track is stored under its album, with its identifier, its numbers, its name,
/// its artists as a JSON array of their names, and its duration.
pub proof fn law_everything_of_a_track_is_stored(
    spotify_id: &str,
    t: SpotifyApiTrack,
    names: Vec<String>,
    s: Statement,
)
    requires
        call_ensures(names_of, (&t.artists,), names),
        call_ensures(store_track, (spotify_id, &t), s),
    ensures
        s@.sql == INSERT_TRACK@,
        s@.params == seq![
            SqlData::Text(spotify_id@),
            SqlData::Text(t.id@),
            SqlData::Int(t.disc_number as int),
            SqlData::Int(t.track_number as int),
            SqlData::Text(t.name@),
            SqlData::Text(json_list_text(texts(names@))),
            match t.duration_ms {
                Some(ms) => SqlData::Int(ms as int),
                None => SqlData::Null,
            },
        ],
{
}

/// An album that was stored is read back as Spotify described it, and with cover
/// art exactly when the row holds some.
pub proof fn law_stored_album_reads_back(
    api: SpotifyApiAlbum,
    names: Vec<String>,
    row: DbSpotifyAlbum,
    direct: SpotifyAlbum,
    read: SpotifyAlbum,
)
    requires
        call_ensures(names_of, (&api.artists,), names),
        row.spotify_id@ == api.id@,
        row.title@ == api.name@,
        json_list(row.artists@) == Some(texts(names@)),
        row.album_type is Some && row.album_type->0@ == api.album_type@,
        opt_text(row.release_date) == opt_text(api.release_date),
        call_ensures(spotify_album_from_stored, (&api, row.cover_art is Some), direct),
        call_ensures(spotify_album_from_db, (&row,), read),
    ensures
        read@ == direct@,
{
}

/// A track that was stored is read back as Spotify described it.
pub proof fn law_stored_track_reads_back(
    t: SpotifyApiTrack,
    names: Vec<String>,
    row: DbTrack,
    direct: Track,
    read: Track,
)
    requires
        call_ensures(names_of, (&t.artists,), names),
        row.track_id@ == t.id@,
        row.disc_number == t.disc_number,
        row.track_number == t.track_number,
        row.name@ == t.name@,
        json_list(row.artists@) == Some(texts(names@)),
        row.duration_ms == (match t.duration_ms {
            Some(ms) => Some(ms as i64),
            None => None,
        }),
        call_ensures(track_from_api, (&t,), direct),
        call_ensures(track_from_db, (&row,), read),
    ensures
        read@ == direct@,
{
}

/// The cover image is fetched exactly when it is not stored and the album has
/// images: for this album, the one that is picked.
pub proof fn law_cover_image_is_fetched(
    api: SpotifyApiAlbum,
    has_art: bool,
    images: &[SpotifyImage],
    url: Option<String>,
    job: Option<BackgroundJob>,
)
    requires
        images@ == api.images@,
        call_ensures(best_image_url, (images,), url),
        call_ensures(cover_job, (&api, has_art), job),
    ensures
        has_art || api.images@.len() == 0 ==> job is None,
        !has_art && api.images@.len() > 0 ==> {
            &&& job is Some && job->0 is StoreCoverArt
            &&& job->0->StoreCoverArt_spotify_id@ == api.id@
            &&& url is Some && job->0->StoreCoverArt_url@ == url->0@
        },
        opt_job(job) is None <==> job is None,
{
}

/// An album whose tracks are stored is answered from the database, with all of its
/// tracks in the order of the rows.
pub proof fn law_detail_from_the_database(
    client: SpotifyClient,
    spotify_id: &str,
    rows: Vec<DbTrack>,
    row: DbSpotifyAlbum,
    list: DetailStep,
    find: DetailStep,
    last: DetailStep,
    album: SpotifyAlbum,
    i: int,
    track: Track,
)
    requires
        client.credentials is Some,
        rows@.len() > 0,
        call_ensures(get_album_detail, (&client, spotify_id), list),
        call_ensures(
            TracksListed::resume,
            (list->ListTracks_then, Ok::<Vec<DbTrack>, DbError>(rows)),
            find,
        ),
        call_ensures(
            DetailLookup::resume,
            (find->FindAlbum_then, Ok::<Option<DbSpotifyAlbum>, DbError>(Some(row))),
            last,
        ),
        call_ensures(spotify_album_from_db, (&row,), album),
        0 <= i < rows@.len(),
        call_ensures(track_from_db, (&rows@[i],), track),
    ensures
        list is ListTracks,
        list->ListTracks_statement@.sql == LIST_TRACKS@,
        list->ListTracks_statement@.params == seq![SqlData::Text(spotify_id@)],
        find is FindAlbum,
        find->FindAlbum_statement@.sql == FIND_ALBUM@,
        find->FindAlbum_statement@.params == seq![SqlData::Text(spotify_id@)],
        last is Done && last->Done_result is Ok && last->Done_job is None,
        last->Done_result->Ok_0.album@ == album@,
        last->Done_result->Ok_0.tracks@.len() == rows@.len(),
        last->Done_result->Ok_0.tracks@[i]@ == track@,
{
    let tracks = last->Done_result->Ok_0.tracks@;
    assert(tracks_data(tracks).len() == tracks.len());
    assert(tracks_data(tracks)[i] == tracks[i]@);
}

/// An album without stored tracks is asked for at Spotify by its identifier.
pub proof fn law_detail_asks_spotify(
    client: SpotifyClient,
    spotify_id: &str,
    rows: Vec<DbTrack>,
    token: String,
    list: DetailStep,
    missing: DetailStep,
    call: DetailStep,
)
    requires
        client.credentials is Some,
        rows@.len() == 0,
        call_ensures(SpotifyClient::get_album_detail, (&client, spotify_id), list),
        call_ensures(
            TracksListed::resume,
            (list->ListTracks_then, Ok::<Vec<DbTrack>, DbError>(rows)),
            missing,
        ),
        call_ensures(
            DetailToken::resume,
            (missing->GetToken_then, Ok::<String, SpotifyError>(token)),
            call,
        ),
    ensures
        list is ListTracks,
        missing is GetToken,
        call is CallApi,
        call->CallApi_request@.url == "https://api.spotify.com/v1/albums/"@ + spotify_id@,
        call->CallApi_request@.access_token == token@,
        call->CallApi_then.spotify_id@ == spotify_id@,
{
}

/// From Spotify's answer on: the album is stored, then each of its tracks under
/// the identifier that was asked for, and the answer is the album with all of them,
/// in Spotify's order.
pub proof fn law_detail_from_spotify(
    replied: DetailReplied,
    status: u16,
    headers: HeaderMap,
    api: SpotifyApiAlbum,
    tracks: Vec<SpotifyApiTrack>,
    has_art: bool,
    store: DetailStep,
    first: DetailStep,
    last: DetailStep,
    statement: Statement,
    album: SpotifyAlbum,
    job: Option<BackgroundJob>,
    i: int,
    track: Track,
)
    requires
        200 <= status <= 299,
        api.tracks == Some(tracks),
        call_ensures(
            DetailReplied::resume,
            (replied, ApiReply::Received { status, headers, body: Some(api) }),
            store,
        ),
        call_ensures(store_album, (&api,), statement),
        call_ensures(
            DetailStored::resume,
            (store->StoreAlbum_then, Ok::<bool, DbError>(has_art)),
            first,
        ),
        stores_n_tracks(first, tracks@.len(), last),
        call_ensures(spotify_album_from_stored, (&api, has_art), album),
        call_ensures(cover_job, (&api, has_art), job),
        0 <= i < tracks@.len(),
        call_ensures(track_from_api, (&tracks@[i],), track),
    ensures
        store is StoreAlbum,
        store->StoreAlbum_statement@ == statement@,
        first is StoreTrack,
        opt_job(first->StoreTrack_job) == opt_job(job),
        last is Done && last->Done_result is Ok,
        last->Done_result->Ok_0.album@ == album@,
        last->Done_result->Ok_0.tracks@.len() == tracks@.len(),
        last->Done_result->Ok_0.tracks@[i]@ == track@,
{
    let stored = store->StoreAlbum_then;
    law_all_tracks_in_order(stored, has_art, first, last);
    let shown = last->Done_result->Ok_0.tracks@;
    assert(tracks_data(shown).len() == shown.len());
    assert(tracks_data(shown)[i] == shown[i]@);
}

/// An album from Spotify is stored before its tracks, which come under the
/// identifier that was asked for.
pub proof fn law_detail_is_stored(
    replied: DetailReplied,
    status: u16,
    headers: HeaderMap,
    api: SpotifyApiAlbum,
    statement: Statement,
    store: DetailStep,
)
    requires
        200 <= status <= 299,
        call_ensures(
            DetailReplied::resume,
            (replied, ApiReply::Received { status, headers, body: Some(api) }),
            store,
        ),
        call_ensures(store_album, (&api,), statement),
    ensures
        store is StoreAlbum,
        store->StoreAlbum_statement@ == statement@,
        store->StoreAlbum_then.spotify_id@ == replied.spotify_id@,
        store->StoreAlbum_then.api_album == api,
{
}

/// A track is stored by the statement for it under the identifier that was asked
/// for, and the tracks behind it come next, in order, without another job.
pub proof fn law_tracks_are_stored_in_turn(
    stored: TrackStored,
    id: &str,
    next: DetailStep,
    statement: Statement,
    track: Track,
)
    requires
        id@ == stored.spotify_id@,
        stored.rest@.len() > 0,
        call_ensures(TrackStored::resume, (stored, Ok::<(), DbError>(())), next),
        call_ensures(store_track, (id, &stored.rest@[0]), statement),
        call_ensures(track_from_api, (&stored.current,), track),
    ensures
        next is StoreTrack,
        next->StoreTrack_job is None,
        next->StoreTrack_statement@ == statement@,
        next->StoreTrack_then.rest@ == stored.rest@.drop_first(),
        next->StoreTrack_then.current == stored.rest@[0],
        next->StoreTrack_then.spotify_id@ == stored.spotify_id@,
        next->StoreTrack_then.album@ == stored.album@,
        next->StoreTrack_then.tracks@.len() == stored.tracks@.len() + 1,
        next->StoreTrack_then.tracks@.last()@ == track@,
        forall|k: int|
            0 <= k < stored.tracks@.len() ==> (#[trigger] next->StoreTrack_then.tracks@[k])@
                == stored.tracks@[k]@,
{
    let tracks = next->StoreTrack_then.tracks@;
    assert(tracks_data(tracks).len() == tracks.len());
    assert(tracks_data(stored.tracks@).len() == stored.tracks@.len());
    assert(tracks_data(tracks)[tracks.len() - 1] == tracks.last()@);
    assert forall|k: int| 0 <= k < stored.tracks@.len() implies (#[trigger] tracks[k])@
        == stored.tracks@[k]@ by {
        assert(tracks_data(tracks)[k] == tracks[k]@);
        assert(tracks_data(stored.tracks@)[k] == stored.tracks@[k]@);
    }
}

/// Storing tracks begins with the first, with the job for the cover image, and
/// ends with the last: then the answer is the album with all of them.
pub proof fn law_tracks_begin_and_end(
    stored: DetailStored,
    has_art: bool,
    tracks: Vec<SpotifyApiTrack>,
    id: &str,
    job: Option<BackgroundJob>,
    statement: Statement,
    album: SpotifyAlbum,
    begin: DetailStep,
    late: TrackStored,
    track: Track,
    end: DetailStep,
)
    requires
        stored.api_album.tracks == Some(tracks),
        tracks@.len() > 0,
        id@ == stored.spotify_id@,
        call_ensures(DetailStored::resume, (stored, Ok::<bool, DbError>(has_art)), begin),
        call_ensures(cover_job, (&stored.api_album, has_art), job),
        call_ensures(store_track, (id, &tracks@[0]), statement),
        call_ensures(spotify_album_from_stored, (&stored.api_album, has_art), album),
        late.rest@.len() == 0,
        call_ensures(TrackStored::resume, (late, Ok::<(), DbError>(())), end),
        call_ensures(track_from_api, (&late.current,), track),
    ensures
        begin is StoreTrack,
        opt_job(begin->StoreTrack_job) == opt_job(job),
        begin->StoreTrack_statement@ == statement@,
        begin->StoreTrack_then.current == tracks@[0],
        begin->StoreTrack_then.rest@ == tracks@.drop_first(),
        begin->StoreTrack_then.spotify_id@ == stored.spotify_id@,
        begin->StoreTrack_then.album@ == album@,
        begin->StoreTrack_then.tracks@.len() == 0,
        end is Done && end->Done_result is Ok && end->Done_job is None,
        end->Done_result->Ok_0.album@ == late.album@,
        end->Done_result->Ok_0.tracks@.len() == late.tracks@.len() + 1,
        end->Done_result->Ok_0.tracks@.last()@ == track@,
        forall|k: int|
            0 <= k < late.tracks@.len() ==> (#[trigger] end->Done_result->Ok_0.tracks@[k])@
                == late.tracks@[k]@,
{
    let shown = end->Done_result->Ok_0.tracks@;
    assert(tracks_data(begin->StoreTrack_then.tracks@).len()
        == begin->StoreTrack_then.tracks@.len());
    assert(tracks_data(shown).len() == shown.len());
    assert(tracks_data(late.tracks@).len() == late.tracks@.len());
    assert(tracks_data(shown)[shown.len() - 1] == shown.last()@);
    assert forall|k: int| 0 <= k < late.tracks@.len() implies (#[trigger] shown[k])@
        == late.tracks@[k]@ by {
        assert(tracks_data(shown)[k] == shown[k]@);
        assert(tracks_data(late.tracks@)[k] == late.tracks@[k]@);
    }
}

/// An answer without tracks is an album without tracks.
pub proof fn law_album_without_tracks(
    stored: DetailStored,
    has_art: bool,
    last: DetailStep,
    album: SpotifyAlbum,
    job: Option<BackgroundJob>,
)
    requires
        stored.api_album.tracks is None || stored.api_album.tracks->0@.len() == 0,
        call_ensures(DetailStored::resume, (stored, Ok::<bool, DbError>(has_art)), last),
        call_ensures(spotify_album_from_stored, (&stored.api_album, has_art), album),
        call_ensures(cover_job, (&stored.api_album, has_art), job),
    ensures
        last is Done && last->Done_result is Ok,
        last->Done_result->Ok_0.album@ == album@,
        last->Done_result->Ok_0.tracks@.len() == 0,
        opt_job(last->Done_job) == opt_job(job),
{
    let tracks = last->Done_result->Ok_0.tracks@;
    assert(tracks_data(tracks).len() == tracks.len());
}

/// Whatever fails ends the lookup of an album, and starts no job: no credentials, a
/// database error, no token, or an answer that yields no album.
pub proof fn law_album_failures(
    client: SpotifyClient,
    id: &str,
    lookup: AlbumLookup,
    token: AlbumToken,
    replied: AlbumReplied,
    stored: AlbumStored,
    e: DbError,
    why: SpotifyError,
    reply: ApiReply<SpotifyApiAlbum>,
    bad: SpotifyError,
    steps: Seq<AlbumStep>,
)
    requires
        steps.len() == 5,
        client.credentials is None,
        call_ensures(SpotifyClient::get_album, (&client, id), steps[0]),
        call_ensures(
            AlbumLookup::resume,
            (lookup, Err::<Option<DbSpotifyAlbum>, DbError>(e)),
            steps[1],
        ),
        call_ensures(AlbumToken::resume, (token, Err::<String, SpotifyError>(why)), steps[2]),
        call_ensures(
            read_reply::<SpotifyApiAlbum>,
            (reply,),
            Err::<SpotifyApiAlbum, SpotifyError>(bad),
        ),
        call_ensures(AlbumReplied::resume, (replied, reply), steps[3]),
        call_ensures(AlbumStored::resume, (stored, Err::<bool, DbError>(e)), steps[4]),
    ensures
        forall|i: int| 0 <= i < 5 ==> (#[trigger] steps[i]) is Done && steps[i]->Done_job is None,
        steps[0]->Done_result == Err::<SpotifyAlbum, SpotifyError>(SpotifyError::NotConfigured),
        steps[1]->Done_result == Err::<SpotifyAlbum, SpotifyError>(SpotifyError::Database),
        steps[2]->Done_result == Err::<SpotifyAlbum, SpotifyError>(why),
        steps[3]->Done_result == Err::<SpotifyAlbum, SpotifyError>(bad),
        steps[4]->Done_result == Err::<SpotifyAlbum, SpotifyError>(SpotifyError::Database),
{
}

/// The same of an album with its tracks, where a missing row of an album with
/// stored tracks is an error too.
pub proof fn law_detail_failures(
    client: SpotifyClient,
    id: &str,
    listed: TracksListed,
    lookup: DetailLookup,
    token: DetailToken,
    replied: DetailReplied,
    stored: DetailStored,
    track: TrackStored,
    e: DbError,
    why: SpotifyError,
    reply: ApiReply<SpotifyApiAlbum>,
    bad: SpotifyError,
    steps: Seq<DetailStep>,
)
    requires
        steps.len() == 8,
        client.credentials is None,
        call_ensures(get_album_detail, (&client, id), steps[0]),
        call_ensures(TracksListed::resume, (listed, Err::<Vec<DbTrack>, DbError>(e)), steps[1]),
        call_ensures(
            DetailLookup::resume,
            (lookup, Err::<Option<DbSpotifyAlbum>, DbError>(e)),
            steps[2],
        ),
        call_ensures(
            DetailLookup::resume,
            (lookup, Ok::<Option<DbSpotifyAlbum>, DbError>(None)),
            steps[3],
        ),
        call_ensures(DetailToken::resume, (token, Err::<String, SpotifyError>(why)), steps[4]),
        call_ensures(
            read_reply::<SpotifyApiAlbum>,
            (reply,),
            Err::<SpotifyApiAlbum, SpotifyError>(bad),
        ),
        call_ensures(DetailReplied::resume, (replied, reply), steps[5]),
        call_ensures(DetailStored::resume, (stored, Err::<bool, DbError>(e)), steps[6]),
        call_ensures(TrackStored::resume, (track, Err::<(), DbError>(e)), steps[7]),
    ensures
        forall|i: int| 0 <= i < 8 ==> (#[trigger] steps[i]) is Done && steps[i]->Done_job is None,
        steps[0]->Done_result == Err::<AlbumDetail, SpotifyError>(SpotifyError::NotConfigured),
        steps[1]->Done_result == Err::<AlbumDetail, SpotifyError>(SpotifyError::Database),
        steps[2]->Done_result == Err::<AlbumDetail, SpotifyError>(SpotifyError::Database),
        steps[3]->Done_result == Err::<AlbumDetail, SpotifyError>(SpotifyError::MissingAlbumRow),
        steps[4]->Done_result == Err::<AlbumDetail, SpotifyError>(why),
        steps[5]->Done_result == Err::<AlbumDetail, SpotifyError>(bad),
        steps[6]->Done_result == Err::<AlbumDetail, SpotifyError>(SpotifyError::Database),
        steps[7]->Done_result == Err::<AlbumDetail, SpotifyError>(SpotifyError::Database),
{
}

/// Stored tracks are one for each row, in their order; no rows are no stored
/// tracks.
pub proof fn law_cached_tracks(rows: Vec<DbTrack>, tracks: Option<Vec<Track>>, i: int, track: Track)
    requires
        call_ensures(load_cached_tracks, (&rows,), tracks),
        0 <= i < rows@.len() ==> call_ensures(track_from_db, (&rows@[i],), track),
    ensures
        rows@.len() == 0 <==> tracks is None,
        rows@.len() > 0 ==> tracks->0@.len() == rows@.len(),
        0 <= i < rows@.len() ==> tracks->0@[i]@ == track@,
{
    if rows@.len() > 0 {
        let ts = tracks->0@;
        assert(tracks_data(ts).len() == ts.len());
        if 0 <= i < rows@.len() {
            assert(tracks_data(ts)[i] == ts[i]@);
        }
    }
}

} // verus!
