//! Work in the background: fetching an album's metadata anew, and its cover art.
//!
//! A step names the work to do next; its `then` takes what came of it and gives
//! the next step. Nobody waits for the outcome, so an error only ends the job.

use crate::catalog::{
    artist_names, best_image_url, best_url, names_of, SpotifyApiAlbum, SpotifyImage,
};
use crate::json::{album_raw, json_list_text, write_album_raw, write_json_list};
use crate::spotify::{
    album_request, album_request_data, read_reply, reply_outcome, ApiReply, ApiRequest,
    SpotifyError,
};
use crate::store::{
    find_cover_url, find_cover_url_stmt, refresh_album_row, refresh_album_row_stmt,
    store_cover_art, store_cover_art_stmt, DbError, SqlData, Statement, StatementData,
    FIND_COVER_URL, REFRESH_ALBUM_ROW, STORE_COVER_ART,
};
use crate::text::{opt_text, texts};
use axum::http::HeaderMap;
use vstd::prelude::*;

verus! {

// ---------------------------------------------------------------------------
// Cover art
// ---------------------------------------------------------------------------

/// The next step of fetching cover art.
pub enum CoverArtStep {
    /// Download the image.
    Download { url: String, then: CoverReplied },
    /// Store the image.
    Store { statement: Statement, then: CoverStored },
    /// End.
    Done(Result<(), SpotifyError>),
}

/// Waits for the image.
pub struct CoverReplied {
    pub spotify_id: String,
}

/// Waits for the image to be stored.
pub struct CoverStored {}

/// Whether a step downloads the cover art of an album.
pub open spec fn downloads(step: CoverArtStep, spotify_id: Seq<char>, url: Seq<char>) -> bool {
    step matches CoverArtStep::Download { url: u, then } && u@ == url && then.spotify_id@
        == spotify_id
}

/// Fetches the cover art of an album from its public URL.
pub fn fetch_and_store_cover_art(spotify_id: String, url: String) -> (step: CoverArtStep)
    ensures
        downloads(step, spotify_id@, url@),
{
    CoverArtStep::Download { url, then: CoverReplied { spotify_id } }
}

impl CoverReplied {
    /// Stores the image.
    pub fn resume(self, reply: ApiReply<Vec<u8>>) -> (step: CoverArtStep)
        ensures
            match reply_outcome(reply) {
                Err(e) => step == CoverArtStep::Done(Err(e)),
                Ok(bytes) => step matches CoverArtStep::Store { statement, then } && statement@
                    == store_cover_art_stmt(bytes@, self.spotify_id@),
            },
    {
        match read_reply(reply) {
            Err(e) => CoverArtStep::Done(Err(e)),
            Ok(bytes) => CoverArtStep::Store {
                statement: store_cover_art(bytes, self.spotify_id.as_str()),
                then: CoverStored {  },
            },
        }
    }
}

impl CoverStored {
    /// Ends.
    pub fn resume(self, stored: Result<(), DbError>) -> (step: CoverArtStep)
        ensures
            step == CoverArtStep::Done(
                match stored {
                    Err(_) => Err(SpotifyError::Database),
                    Ok(_) => Ok(()),
                },
            ),
    {
        match stored {
            Err(_) => CoverArtStep::Done(Err(SpotifyError::Database)),
            Ok(_) => CoverArtStep::Done(Ok(())),
        }
    }
}

// ---------------------------------------------------------------------------
// Metadata
// ---------------------------------------------------------------------------

/// The next step of fetching an album's metadata anew.
pub enum RefreshStep {
    /// Get an access token.
    GetToken { then: RefreshToken },
    /// Ask the API for the album.
    CallApi { request: ApiRequest, then: RefreshReplied },
    /// Find the URL of the cover art that was stored last: at most one row, whose
    /// column may be null.
    FindCoverUrl { statement: Statement, then: OldCoverUrl },
    /// Renew the album's row.
    UpdateRow { statement: Statement, then: RowUpdated },
    /// Fetch the cover art.
    CoverArt(CoverArtStep),
    /// End.
    Done(Result<(), SpotifyError>),
}

/// Waits for an access token.
pub struct RefreshToken {
    pub spotify_id: String,
}

/// Waits for the API's answer.
pub struct RefreshReplied {
    pub spotify_id: String,
}

/// Waits for the URL of the cover art that was stored last.
pub struct OldCoverUrl {
    pub spotify_id: String,
    pub api_album: SpotifyApiAlbum,
}

/// Waits for the row to be renewed.
pub struct RowUpdated {
    pub spotify_id: String,
    pub new_cover_url: Option<String>,
    pub old_cover_url: Option<String>,
}

/// Fetches an album's metadata anew.
pub fn refresh_album(spotify_id: String) -> (step: RefreshStep)
    ensures
        step matches RefreshStep::GetToken { then } && then.spotify_id == spotify_id,
{
    RefreshStep::GetToken { then: RefreshToken { spotify_id } }
}

impl RefreshToken {
    /// Asks the API for the album.
    pub fn resume(self, token: Result<String, SpotifyError>) -> (step: RefreshStep)
        ensures
            match token {
                Err(e) => step == RefreshStep::Done(Err(e)),
                Ok(t) => step matches RefreshStep::CallApi { request, then } && request@
                    == album_request_data(self.spotify_id@, t@) && then.spotify_id
                    == self.spotify_id,
            },
    {
        match token {
            Err(e) => RefreshStep::Done(Err(e)),
            Ok(t) => RefreshStep::CallApi {
                request: album_request(self.spotify_id.as_str(), t),
                then: RefreshReplied { spotify_id: self.spotify_id },
            },
        }
    }
}

impl RefreshReplied {
    /// Looks for the URL of the cover art that was stored last, to know whether
    /// it changes.
    pub fn resume(self, reply: ApiReply<SpotifyApiAlbum>) -> (step: RefreshStep)
        ensures
            match reply_outcome(reply) {
                Err(e) => step == RefreshStep::Done(Err(e)),
                Ok(api) => step matches RefreshStep::FindCoverUrl { statement, then }
                    && statement@ == find_cover_url_stmt(self.spotify_id@) && then.spotify_id
                    == self.spotify_id && then.api_album == api,
            },
    {
        match read_reply(reply) {
            Err(e) => RefreshStep::Done(Err(e)),
            Ok(api) => RefreshStep::FindCoverUrl {
                statement: find_cover_url(self.spotify_id.as_str()),
                then: OldCoverUrl { spotify_id: self.spotify_id, api_album: api },
            },
        }
    }
}

/// The statement that renews an album's row.
pub open spec fn renew_album_stmt(spotify_id: Seq<char>, api: SpotifyApiAlbum) -> StatementData {
    refresh_album_row_stmt(
        api.name@,
        json_list_text(artist_names(api.artists@)),
        api.album_type@,
        opt_text(api.release_date),
        best_url(api.images@),
        album_raw(api.id@, api.name@),
        spotify_id,
    )
}

/// The URL of the cover art that was stored last: `None` where the lookup
/// failed, there is no row, or its column is null.
pub open spec fn old_url(found: Result<Option<Option<String>>, DbError>) -> Option<String> {
    match found {
        Ok(Some(url)) => url,
        _ => None,
    }
}

impl OldCoverUrl {
    /// Renews the album's row.
    pub fn resume(self, found: Result<Option<Option<String>>, DbError>) -> (step: RefreshStep)
        ensures
            step matches RefreshStep::UpdateRow { statement, then } && statement@
                == renew_album_stmt(self.spotify_id@, self.api_album) && then.spotify_id
                == self.spotify_id && opt_text(then.new_cover_url) == best_url(
                self.api_album.images@,
            ) && then.old_cover_url == old_url(found),
    {
        let old_cover_url = match found {
            Ok(Some(url)) => url,
            _ => None,
        };
        let api = self.api_album;
        let new_cover_url = best_image_url(api.images.as_slice());
        let artists_json = write_json_list(&names_of(&api.artists));
        let raw_json = write_album_raw(api.id.as_str(), api.name.as_str());
        let statement = refresh_album_row(
            api.name.as_str(),
            artists_json.as_str(),
            api.album_type.as_str(),
            &api.release_date,
            &new_cover_url,
            raw_json.as_str(),
            self.spotify_id.as_str(),
        );
        RefreshStep::UpdateRow {
            statement,
            then: RowUpdated { spotify_id: self.spotify_id, new_cover_url, old_cover_url },
        }
    }
}

impl RowUpdated {
    /// Fetches the cover art anew, but only if its URL changed.
    pub fn resume(self, updated: Result<(), DbError>) -> (step: RefreshStep)
        ensures
            match updated {
                Err(_) => step == RefreshStep::Done(Err(SpotifyError::Database)),
                Ok(_) => match self.new_cover_url {
                    Some(url) => if opt_text(self.old_cover_url) == Some(url@) {
                        step == RefreshStep::Done(Ok(()))
                    } else {
                        step matches RefreshStep::CoverArt(art) && downloads(
                            art,
                            self.spotify_id@,
                            url@,
                        )
                    },
                    None => step == RefreshStep::Done(Ok(())),
                },
            },
    {
        match updated {
            Err(_) => RefreshStep::Done(Err(SpotifyError::Database)),
            Ok(_) => match self.new_cover_url {
                Some(url) => {
                    let unchanged = match &self.old_cover_url {
                        Some(old_url) => *old_url == url,
                        None => false,
                    };
                    if unchanged {
                        RefreshStep::Done(Ok(()))
                    } else {
                        RefreshStep::CoverArt(fetch_and_store_cover_art(self.spotify_id, url))
                    }
                },
                None => RefreshStep::Done(Ok(())),
            },
        }
    }
}

// ---------------------------------------------------------------------------
// Laws
// ---------------------------------------------------------------------------

/// A cover image is downloaded from its address and stored, byte for byte, for the
/// album.
pub proof fn law_cover_image_is_stored(
    spotify_id: String,
    url: String,
    status: u16,
    headers: HeaderMap,
    bytes: Vec<u8>,
    download: CoverArtStep,
    store: CoverArtStep,
    last: CoverArtStep,
)
    requires
        200 <= status <= 299,
        call_ensures(fetch_and_store_cover_art, (spotify_id, url), download),
        call_ensures(
            CoverReplied::resume,
            (
                download->Download_then,
                ApiReply::Received { status, headers, body: Some(bytes) },
            ),
            store,
        ),
        call_ensures(CoverStored::resume, (store->Store_then, Ok::<(), DbError>(())), last),
    ensures
        download is Download,
        download->Download_url@ == url@,
        store is Store,
        store->Store_statement@.sql == STORE_COVER_ART@,
        store->Store_statement@.params == seq![
            SqlData::Blob(bytes@),
            SqlData::Text(spotify_id@),
        ],
        last == CoverArtStep::Done(Ok(())),
{
}

/// Fetching metadata anew asks Spotify for the album, looks up the address of its
/// cover image, and renews its row with everything that the answer says.
pub proof fn law_metadata_is_renewed(
    spotify_id: String,
    token: String,
    status: u16,
    headers: HeaderMap,
    api: SpotifyApiAlbum,
    found: Result<Option<Option<String>>, DbError>,
    images: &[SpotifyImage],
    url: Option<String>,
    id: &str,
    name: &str,
    raw: String,
    names: Vec<String>,
    start: RefreshStep,
    call: RefreshStep,
    find: RefreshStep,
    update: RefreshStep,
)
    requires
        200 <= status <= 299,
        images@ == api.images@,
        call_ensures(best_image_url, (images,), url),
        id@ == api.id@,
        name@ == api.name@,
        call_ensures(write_album_raw, (id, name), raw),
        call_ensures(names_of, (&api.artists,), names),
        call_ensures(refresh_album, (spotify_id,), start),
        call_ensures(
            RefreshToken::resume,
            (start->GetToken_then, Ok::<String, SpotifyError>(token)),
            call,
        ),
        call_ensures(
            RefreshReplied::resume,
            (call->CallApi_then, ApiReply::Received { status, headers, body: Some(api) }),
            find,
        ),
        call_ensures(OldCoverUrl::resume, (find->FindCoverUrl_then, found), update),
    ensures
        start is GetToken,
        call is CallApi,
        call->CallApi_request@.url == "https://api.spotify.com/v1/albums/"@ + spotify_id@,
        call->CallApi_request@.access_token == token@,
        find is FindCoverUrl,
        find->FindCoverUrl_statement@.sql == FIND_COVER_URL@,
        find->FindCoverUrl_statement@.params == seq![SqlData::Text(spotify_id@)],
        update is UpdateRow,
        update->UpdateRow_statement@.sql == REFRESH_ALBUM_ROW@,
        update->UpdateRow_statement@.params == seq![
            SqlData::Text(api.name@),
            SqlData::Text(json_list_text(texts(names@))),
            SqlData::Text(api.album_type@),
            match api.release_date {
                Some(date) => SqlData::Text(date@),
                None => SqlData::Null,
            },
            match url {
                Some(u) => SqlData::Text(u@),
                None => SqlData::Null,
            },
            SqlData::Text(raw@),
            SqlData::Text(spotify_id@),
        ],
        update->UpdateRow_then.spotify_id@ == spotify_id@,
        opt_text(update->UpdateRow_then.new_cover_url) == opt_text(url),
        update->UpdateRow_then.old_cover_url == (match found {
            Ok(Some(old)) => old,
            _ => None,
        }),
{
}

/// The cover image is fetched anew exactly when the album has one and its address
/// is not the one that was stored.
pub proof fn law_changed_cover_is_fetched(updated: RowUpdated, step: RefreshStep)
    requires
        call_ensures(RowUpdated::resume, (updated, Ok::<(), DbError>(())), step),
    ensures
        updated.new_cover_url is None ==> step == RefreshStep::Done(Ok(())),
        updated.new_cover_url is Some && updated.old_cover_url is Some
            && updated.old_cover_url->0@ == updated.new_cover_url->0@ ==> step
            == RefreshStep::Done(Ok(())),
        updated.new_cover_url is Some && (updated.old_cover_url is None
            || updated.old_cover_url->0@ != updated.new_cover_url->0@) ==> {
            &&& step is CoverArt && step->CoverArt_0 is Download
            &&& step->CoverArt_0->Download_url@ == updated.new_cover_url->0@
            &&& step->CoverArt_0->Download_then.spotify_id@ == updated.spotify_id@
        },
{
}

/// Whatever fails ends the job with its error.
pub proof fn law_background_failures(
    token: RefreshToken,
    replied: RefreshReplied,
    updated: RowUpdated,
    cover: CoverReplied,
    stored: CoverStored,
    e: DbError,
    why: SpotifyError,
    reply: ApiReply<SpotifyApiAlbum>,
    image: ApiReply<Vec<u8>>,
    bad: SpotifyError,
    steps: Seq<RefreshStep>,
    covers: Seq<CoverArtStep>,
)
    requires
        steps.len() == 3,
        covers.len() == 2,
        call_ensures(RefreshToken::resume, (token, Err::<String, SpotifyError>(why)), steps[0]),
        call_ensures(
            read_reply::<SpotifyApiAlbum>,
            (reply,),
            Err::<SpotifyApiAlbum, SpotifyError>(bad),
        ),
        call_ensures(RefreshReplied::resume, (replied, reply), steps[1]),
        call_ensures(RowUpdated::resume, (updated, Err::<(), DbError>(e)), steps[2]),
        call_ensures(read_reply::<Vec<u8>>, (image,), Err::<Vec<u8>, SpotifyError>(bad)),
        call_ensures(CoverReplied::resume, (cover, image), covers[0]),
        call_ensures(CoverStored::resume, (stored, Err::<(), DbError>(e)), covers[1]),
    ensures
        steps[0] == RefreshStep::Done(Err(why)),
        steps[1] == RefreshStep::Done(Err(bad)),
        steps[2] == RefreshStep::Done(Err(SpotifyError::Database)),
        covers[0] == CoverArtStep::Done(Err(bad)),
        covers[1] == CoverArtStep::Done(Err(SpotifyError::Database)),
{
}

} // verus!
