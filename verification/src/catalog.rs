//! Albums and tracks: what the Spotify API and the database hold of them, and
//! what the server hands out.

use crate::json::{json_list, read_stored_list, stored_list};
use crate::text::{
    after_plus, chars_of, digits_value, is_digit, law_value_of_digits, law_value_of_four_digits,
    opt_text, parse_unsigned, parsed_unsigned, texts,
};
use vstd::prelude::*;

verus! {

// ---------------------------------------------------------------------------
// What the server hands out
// ---------------------------------------------------------------------------

/// An album as search and lookup return it.
#[derive(Debug, Clone)]
pub struct SpotifyAlbum {
    pub spotify_id: String,
    pub title: String,
    pub artists: Vec<String>,
    pub album_type: String,
    pub release_year: Option<u32>,
    /// True once the cover art has been stored. The first search response may
    /// be false; later ones are true after the background fetch completes.
    pub has_cover_art: bool,
}

/// The contents of a `SpotifyAlbum`.
pub struct SpotifyAlbumData {
    pub spotify_id: Seq<char>,
    pub title: Seq<char>,
    pub artists: Seq<Seq<char>>,
    pub album_type: Seq<char>,
    pub release_year: Option<u32>,
    pub has_cover_art: bool,
}

impl View for SpotifyAlbum {
    type V = SpotifyAlbumData;

    open spec fn view(&self) -> SpotifyAlbumData {
        SpotifyAlbumData {
            spotify_id: self.spotify_id@,
            title: self.title@,
            artists: texts(self.artists@),
            album_type: self.album_type@,
            release_year: self.release_year,
            has_cover_art: self.has_cover_art,
        }
    }
}

/// The contents of a list of albums.
pub open spec fn albums_data(albums: Seq<SpotifyAlbum>) -> Seq<SpotifyAlbumData> {
    albums.map_values(|a: SpotifyAlbum| a@)
}

/// A track of an album.
#[derive(Debug, Clone)]
pub struct Track {
    pub track_id: String,
    pub disc_number: u32,
    pub track_number: u32,
    pub name: String,
    pub artists: Vec<String>,
    pub duration_ms: Option<u32>,
}

/// The contents of a `Track`.
pub struct TrackData {
    pub track_id: Seq<char>,
    pub disc_number: u32,
    pub track_number: u32,
    pub name: Seq<char>,
    pub artists: Seq<Seq<char>>,
    pub duration_ms: Option<u32>,
}

impl View for Track {
    type V = TrackData;

    open spec fn view(&self) -> TrackData {
        TrackData {
            track_id: self.track_id@,
            disc_number: self.disc_number,
            track_number: self.track_number,
            name: self.name@,
            artists: texts(self.artists@),
            duration_ms: self.duration_ms,
        }
    }
}

/// The contents of a list of tracks.
pub open spec fn tracks_data(tracks: Seq<Track>) -> Seq<TrackData> {
    tracks.map_values(|t: Track| t@)
}

/// Album metadata together with the track listing.
#[derive(Debug, Clone)]
pub struct AlbumDetail {
    pub album: SpotifyAlbum,
    pub tracks: Vec<Track>,
}

/// A page of search results together with the number of results that Spotify
/// reports for the query.
#[derive(Debug, Clone)]
pub struct SearchPage {
    pub albums: Vec<SpotifyAlbum>,
    pub total: usize,
}

// ---------------------------------------------------------------------------
// What the Spotify API returns
// ---------------------------------------------------------------------------

/// An artist in an API response.
pub struct SpotifyApiArtist {
    pub name: String,
}

/// A cover image in an API response.
pub struct SpotifyImage {
    pub url: String,
    pub width: Option<u32>,
}

/// A track in an API response.
pub struct SpotifyApiTrack {
    pub id: String,
    pub name: String,
    pub artists: Vec<SpotifyApiArtist>,
    pub disc_number: u32,
    pub track_number: u32,
    pub duration_ms: Option<u32>,
}

/// An album in an API response. The tracks are present when a single album was
/// fetched, absent in search results.
pub struct SpotifyApiAlbum {
    pub id: String,
    pub name: String,
    pub artists: Vec<SpotifyApiArtist>,
    pub album_type: String,
    pub release_date: Option<String>,
    pub images: Vec<SpotifyImage>,
    pub tracks: Option<Vec<SpotifyApiTrack>>,
}

/// The names of a list of artists.
pub open spec fn artist_names(artists: Seq<SpotifyApiArtist>) -> Seq<Seq<char>> {
    artists.map_values(|a: SpotifyApiArtist| a.name@)
}

/// The names of a list of artists.
pub fn names_of(artists: &Vec<SpotifyApiArtist>) -> (names: Vec<String>)
    ensures
        texts(names@) == artist_names(artists@),
{
    let mut names: Vec<String> = Vec::new();
    let mut i: usize = 0;
    while i < artists.len()
        invariant
            i <= artists@.len(),
            texts(names@) =~= artist_names(artists@.take(i as int)),
        decreases artists@.len() - i,
    {
        let ghost before = names@;
        names.push(artists[i].name.clone());
        assert(texts(names@) =~= texts(before).push(artists@[i as int].name@));
        assert(artist_names(artists@.take(i + 1)) =~= artist_names(artists@.take(i as int)).push(
            artists@[i as int].name@,
        ));
        i = i + 1;
    }
    assert(artists@.take(artists@.len() as int) =~= artists@);
    names
}

// ---------------------------------------------------------------------------
// What the database holds
// ---------------------------------------------------------------------------

/// A row of the album table.
pub struct DbSpotifyAlbum {
    pub spotify_id: String,
    pub title: String,
    /// A JSON array of display names.
    pub artists: String,
    pub album_type: Option<String>,
    pub release_date: Option<String>,
    pub cover_art: Option<Vec<u8>>,
}

/// A row of the track table.
pub struct DbTrack {
    pub track_id: String,
    pub disc_number: i64,
    pub track_number: i64,
    pub name: String,
    /// A JSON array of display names.
    pub artists: String,
    pub duration_ms: Option<i64>,
}

// ---------------------------------------------------------------------------
// Conversions
// ---------------------------------------------------------------------------

/// The year of a release date, which Spotify gives as YYYY, YYYY-MM or
/// YYYY-MM-DD: the number that its first four characters denote, if they do.
pub open spec fn year_of(date: Option<Seq<char>>) -> Option<u32> {
    match date {
        Some(d) => if d.len() < 4 {
            None
        } else {
            match parsed_unsigned(d.take(4), u32::MAX as nat) {
                Some(year) => Some(year as u32),
                None => None,
            }
        },
        None => None,
    }
}

/// The year of a release date.
pub fn release_year(date: &Option<String>) -> (year: Option<u32>)
    ensures
        year == year_of(opt_text(*date)),
{
    match date {
        Some(d) => {
            let chars = chars_of(d.as_str());
            if chars.len() < 4 {
                return None;
            }
            assert(chars@.subrange(0, 4) =~= d@.take(4));
            match parse_unsigned(&chars, 0, 4, u32::MAX as u64) {
                Some(year) => Some(year as u32),
                None => None,
            }
        },
        None => None,
    }
}

/// The album that a database row with these artists stands for. It has cover art
/// when the row holds the image.
pub open spec fn album_of_parts(
    row: DbSpotifyAlbum,
    artists: Seq<Seq<char>>,
) -> SpotifyAlbumData {
    SpotifyAlbumData {
        spotify_id: row.spotify_id@,
        title: row.title@,
        artists,
        album_type: match row.album_type {
            Some(t) => t@,
            None => Seq::empty(),
        },
        release_year: year_of(opt_text(row.release_date)),
        has_cover_art: row.cover_art is Some,
    }
}

/// Converts a database row with these artists into the album that the server
/// hands out.
pub fn album_from_parts(row: &DbSpotifyAlbum, artists: Vec<String>) -> (album: SpotifyAlbum)
    ensures
        album@ == album_of_parts(*row, texts(artists@)),
{
    SpotifyAlbum {
        spotify_id: row.spotify_id.clone(),
        title: row.title.clone(),
        artists,
        album_type: match &row.album_type {
            Some(t) => t.clone(),
            None => String::new(),
        },
        release_year: release_year(&row.release_date),
        has_cover_art: row.cover_art.is_some(),
    }
}

/// The album that a database row stands for.
pub open spec fn album_of_row(row: DbSpotifyAlbum) -> SpotifyAlbumData {
    album_of_parts(row, stored_list(row.artists@))
}

/// Converts a database row into the album that the server hands out.
pub fn spotify_album_from_db(row: &DbSpotifyAlbum) -> (album: SpotifyAlbum)
    ensures
        album@ == album_of_row(*row),
{
    album_from_parts(row, read_stored_list(row.artists.as_str()))
}

/// The album that an API response stands for. The response says nothing of cover
/// art, which is stored only after it.
pub open spec fn album_of_api(api: SpotifyApiAlbum) -> SpotifyAlbumData {
    SpotifyAlbumData {
        spotify_id: api.id@,
        title: api.name@,
        artists: artist_names(api.artists@),
        album_type: api.album_type@,
        release_year: year_of(opt_text(api.release_date)),
        has_cover_art: false,
    }
}

/// Converts an API response into the album that the server hands out.
pub fn spotify_album_from_api(api: &SpotifyApiAlbum) -> (album: SpotifyAlbum)
    ensures
        album@ == album_of_api(*api),
{
    SpotifyAlbum {
        spotify_id: api.id.clone(),
        title: api.name.clone(),
        artists: names_of(&api.artists),
        album_type: api.album_type.clone(),
        release_year: release_year(&api.release_date),
        has_cover_art: false,
    }
}

/// The album that an API response stands for once it is stored: it has cover art
/// when its row holds the image.
pub open spec fn album_of_stored(api: SpotifyApiAlbum, has_cover_art: bool) -> SpotifyAlbumData {
    SpotifyAlbumData { has_cover_art, ..album_of_api(api) }
}

/// Converts an API response that was stored into the album that the server hands
/// out.
pub fn spotify_album_from_stored(api: &SpotifyApiAlbum, has_cover_art: bool) -> (album:
    SpotifyAlbum)
    ensures
        album@ == album_of_stored(*api, has_cover_art),
{
    SpotifyAlbum { has_cover_art, ..spotify_album_from_api(api) }
}

/// The track that an API response stands for.
pub open spec fn track_of_api(t: SpotifyApiTrack) -> TrackData {
    TrackData {
        track_id: t.id@,
        disc_number: t.disc_number,
        track_number: t.track_number,
        name: t.name@,
        artists: artist_names(t.artists@),
        duration_ms: t.duration_ms,
    }
}

/// Converts a track of an API response into the track that the server hands
/// out.
pub fn track_from_api(t: &SpotifyApiTrack) -> (track: Track)
    ensures
        track@ == track_of_api(*t),
{
    Track {
        track_id: t.id.clone(),
        disc_number: t.disc_number,
        track_number: t.track_number,
        name: t.name.clone(),
        artists: names_of(&t.artists),
        duration_ms: t.duration_ms,
    }
}

/// The low 32 bits of an integer.
pub open spec fn low_u32(n: i64) -> u32 {
    (n as int % 0x1_0000_0000) as u32
}

/// The low 32 bits of an integer.
pub fn truncate_u32(n: i64) -> (out: u32)
    ensures
        out == low_u32(n),
{
    assert(#[verifier::truncate] (n as u32) == (n as u64) % 0x1_0000_0000u64) by (bit_vector);
    assert((n as u64) as int % 0x1_0000_0000 == n as int % 0x1_0000_0000) by {
        assert(n >= 0 ==> (n as u64) == n) by (bit_vector);
        assert(n < 0 ==> (n as u64) == n + 0x1_0000_0000_0000_0000) by (bit_vector);
    }
    #[verifier::truncate] (n as u32)
}

/// The track that a database row with these artists stands for.
pub open spec fn track_of_parts(row: DbTrack, artists: Seq<Seq<char>>) -> TrackData {
    TrackData {
        track_id: row.track_id@,
        disc_number: low_u32(row.disc_number),
        track_number: low_u32(row.track_number),
        name: row.name@,
        artists,
        duration_ms: match row.duration_ms {
            Some(ms) => Some(low_u32(ms)),
            None => None,
        },
    }
}

/// Converts a database row with these artists into the track that the server
/// hands out.
pub fn track_from_parts(row: &DbTrack, artists: Vec<String>) -> (track: Track)
    ensures
        track@ == track_of_parts(*row, texts(artists@)),
{
    Track {
        track_id: row.track_id.clone(),
        disc_number: truncate_u32(row.disc_number),
        track_number: truncate_u32(row.track_number),
        name: row.name.clone(),
        artists,
        duration_ms: match row.duration_ms {
            Some(ms) => Some(truncate_u32(ms)),
            None => None,
        },
    }
}

/// The track that a database row stands for.
pub open spec fn track_of_row(row: DbTrack) -> TrackData {
    track_of_parts(row, stored_list(row.artists@))
}

/// Converts a database row into the track that the server hands out.
pub fn track_from_db(row: &DbTrack) -> (track: Track)
    ensures
        track@ == track_of_row(*row),
{
    track_from_parts(row, read_stored_list(row.artists.as_str()))
}

// ---------------------------------------------------------------------------
// Cover images
// ---------------------------------------------------------------------------

/// The width of an image; an image without one counts as having width zero.
pub open spec fn width_of(image: SpotifyImage) -> u32 {
    match image.width {
        Some(w) => w,
        None => 0,
    }
}

/// Whether the image at `i` is the last among the widest.
pub open spec fn is_best(images: Seq<SpotifyImage>, i: int) -> bool {
    &&& 0 <= i < images.len()
    &&& forall|j: int| 0 <= j < i ==> width_of(#[trigger] images[j]) <= width_of(images[i])
    &&& forall|j: int| i < j < images.len() ==> width_of(#[trigger] images[j]) < width_of(images[i])
}

/// The URL of the last among the widest images; `None` where there is none.
pub open spec fn best_url(images: Seq<SpotifyImage>) -> Option<Seq<char>> {
    if images.len() == 0 {
        None
    } else {
        Some(images[choose|i: int| is_best(images, i)].url@)
    }
}

/// Where there are images, one of them is the last among the widest.
pub proof fn lemma_best_exists(images: Seq<SpotifyImage>)
    requires
        images.len() > 0,
    ensures
        exists|i: int| is_best(images, i),
    decreases images.len(),
{
    let last = images.len() - 1;
    if images.len() == 1 {
        assert(is_best(images, 0));
    } else {
        let before = images.drop_last();
        lemma_best_exists(before);
        let i = choose|i: int| is_best(before, i);
        assert(forall|j: int| 0 <= j < last ==> before[j] == #[trigger] images[j]);
        assert forall|j: int| 0 <= j < last implies width_of(#[trigger] images[j]) <= width_of(
            images[i],
        ) by {
            assert(width_of(before[j]) <= width_of(before[i]));
        }
        if width_of(images[last]) >= width_of(images[i]) {
            assert(is_best(images, last));
        } else {
            assert forall|j: int| i < j < images.len() implies width_of(#[trigger] images[j])
                < width_of(images[i]) by {
                if j < last {
                    assert(width_of(before[j]) < width_of(before[i]));
                }
            }
            assert(is_best(images, i));
        }
    }
}

/// Only one image can be the last among the widest.
pub proof fn lemma_best_unique(images: Seq<SpotifyImage>, i: int, j: int)
    requires
        is_best(images, i),
        is_best(images, j),
    ensures
        i == j,
{
    if i < j {
        assert(width_of(images[j]) < width_of(images[i]));
        assert(width_of(images[i]) <= width_of(images[j]));
    } else if j < i {
        assert(width_of(images[i]) < width_of(images[j]));
        assert(width_of(images[j]) <= width_of(images[i]));
    }
}

/// The cover image is the last among the widest, whichever place that is.
pub proof fn law_best_url_is_the_best(images: Seq<SpotifyImage>, i: int)
    requires
        is_best(images, i),
    ensures
        best_url(images) == Some(images[i].url@),
{
    lemma_best_unique(images, i, choose|k: int| is_best(images, k));
}

/// Picks the cover image: the largest for quality, and among equally wide ones
/// the last.
pub fn best_image_url(images: &[SpotifyImage]) -> (url: Option<String>)
    ensures
        opt_text(url) == best_url(images@),
{
    if images.len() == 0 {
        return None;
    }
    let mut best: usize = 0;
    let mut widest: u32 = match images[0].width {
        Some(w) => w,
        None => 0,
    };
    let mut i: usize = 1;
    while i < images.len()
        invariant
            0 <= best < i <= images@.len(),
            widest == width_of(images@[best as int]),
            forall|j: int| 0 <= j < best ==> width_of(#[trigger] images@[j]) <= widest,
            forall|j: int| best < j < i ==> width_of(#[trigger] images@[j]) < widest,
        decreases images@.len() - i,
    {
        let w: u32 = match images[i].width {
            Some(w) => w,
            None => 0,
        };
        if w >= widest {
            best = i;
            widest = w;
        }
        i = i + 1;
    }
    proof {
        assert(is_best(images@, best as int));
        lemma_best_unique(images@, best as int, choose|i: int| is_best(images@, i));
    }
    Some(images[best].url.clone())
}

// ---------------------------------------------------------------------------
// Laws
// ---------------------------------------------------------------------------

/// The contents of albums are their own, field by field and one for one.
pub proof fn law_album_contents(albums: Seq<SpotifyAlbum>, i: int)
    requires
        0 <= i < albums.len(),
    ensures
        albums_data(albums).len() == albums.len(),
        albums_data(albums)[i] == albums[i]@,
        albums[i]@.spotify_id == albums[i].spotify_id@,
        albums[i]@.title == albums[i].title@,
        albums[i]@.artists == Seq::new(
            albums[i].artists@.len(),
            |k: int| albums[i].artists@[k]@,
        ),
        albums[i]@.album_type == albums[i].album_type@,
        albums[i]@.release_year == albums[i].release_year,
        albums[i]@.has_cover_art == albums[i].has_cover_art,
{
    assert(texts(albums[i].artists@) =~= Seq::new(
        albums[i].artists@.len(),
        |k: int| albums[i].artists@[k]@,
    ));
}

/// The contents of tracks are their own, field by field and one for one.
pub proof fn law_track_contents(tracks: Seq<Track>, i: int)
    requires
        0 <= i < tracks.len(),
    ensures
        tracks_data(tracks).len() == tracks.len(),
        tracks_data(tracks)[i] == tracks[i]@,
        tracks[i]@.track_id == tracks[i].track_id@,
        tracks[i]@.disc_number == tracks[i].disc_number,
        tracks[i]@.track_number == tracks[i].track_number,
        tracks[i]@.name == tracks[i].name@,
        tracks[i]@.artists == Seq::new(
            tracks[i].artists@.len(),
            |k: int| tracks[i].artists@[k]@,
        ),
        tracks[i]@.duration_ms == tracks[i].duration_ms,
{
    assert(texts(tracks[i].artists@) =~= Seq::new(
        tracks[i].artists@.len(),
        |k: int| tracks[i].artists@[k]@,
    ));
}

/// The names of artists are theirs, one for one.
pub proof fn law_names_one_for_one(artists: Vec<SpotifyApiArtist>, names: Vec<String>)
    requires
        call_ensures(names_of, (&artists,), names),
    ensures
        names@.len() == artists@.len(),
        forall|i: int|
            0 <= i < names@.len() ==> (#[trigger] names@[i])@ == artists@[i].name@,
        artist_names(artists@) == Seq::new(artists@.len(), |i: int| artists@[i].name@),
{
    assert(texts(names@).len() == artist_names(artists@).len());
    assert forall|i: int| 0 <= i < names@.len() implies (#[trigger] names@[i])@
        == artists@[i].name@ by {
        assert(texts(names@)[i] == names@[i]@);
        assert(artist_names(artists@)[i] == artists@[i].name@);
    }
    assert(artist_names(artists@) =~= Seq::new(artists@.len(), |i: int| artists@[i].name@));
}

/// The year of a date that begins with four digits is the number that these
/// digits denote; a plus sign and three digits denote a number too; any other
/// beginning, and none, is no year.
pub proof fn law_release_year(date: Option<String>, year: Option<u32>)
    requires
        call_ensures(release_year, (&date,), year),
    ensures
        match date {
            None => year is None,
            Some(d) => {
                &&& d@.len() < 4 ==> year is None
                &&& d@.len() >= 4 && (forall|i: int| 0 <= i < 4 ==> '0' <= #[trigger] d@[i] <= '9')
                    ==> year == Some(digits_value(d@.take(4)) as u32) && year == Some(
                    (1000 * (d@[0] as u32 - 48) + 100 * (d@[1] as u32 - 48) + 10 * (d@[2] as u32
                        - 48) + (d@[3] as u32 - 48)) as u32,
                )
                &&& d@.len() >= 4 && d@[0] == '+' && (forall|i: int|
                    1 <= i < 4 ==> '0' <= #[trigger] d@[i] <= '9') ==> year == Some(
                    digits_value(d@.subrange(1, 4)) as u32,
                )
                &&& (exists|i: int| 1 <= i < 4 && i < d@.len() && !('0' <= #[trigger] d@[i] <= '9'))
                    ==> year is None
                &&& d@.len() >= 4 && d@[0] != '+' && !('0' <= d@[0] <= '9') ==> year is None
            },
        },
{
    match date {
        None => {},
        Some(d) => {
            if d@.len() >= 4 {
                let s = d@.take(4);
                if forall|i: int| 0 <= i < 4 ==> '0' <= #[trigger] d@[i] <= '9' {
                    assert('0' <= d@[0] <= '9');
                    assert forall|i: int| 0 <= i < 4 implies '0' <= #[trigger] s[i] <= '9' by {
                        assert('0' <= d@[i] <= '9');
                    }
                    assert forall|i: int| 0 <= i < 4 implies is_digit(#[trigger] s[i]) by {
                        assert('0' <= d@[i] <= '9');
                    }
                    law_value_of_four_digits(s);
                    assert(after_plus(s) == s);
                } else if d@[0] == '+' {
                    let t = d@.subrange(1, 4);
                    assert(after_plus(s) =~= t);
                    if forall|i: int| 1 <= i < 4 ==> '0' <= #[trigger] d@[i] <= '9' {
                        assert forall|i: int| 0 <= i < 3 implies is_digit(#[trigger] t[i]) by {
                            assert('0' <= d@[i + 1] <= '9');
                        }
                        let none = Seq::<char>::empty();
                        law_value_of_digits(none, t[0]);
                        law_value_of_digits(none.push(t[0]), t[1]);
                        law_value_of_digits(none.push(t[0]).push(t[1]), t[2]);
                        assert(t =~= none.push(t[0]).push(t[1]).push(t[2]));
                        assert(is_digit(t[0]) && is_digit(t[1]) && is_digit(t[2]));
                    } else {
                        let i = choose|i: int| 1 <= i < 4 && !('0' <= #[trigger] d@[i] <= '9');
                        assert(!is_digit(t[i - 1]));
                    }
                } else {
                    let i = choose|i: int| 0 <= i < 4 && !('0' <= #[trigger] d@[i] <= '9');
                    assert(!is_digit(s[i]));
                }
            }
        },
    }
}

/// Whether an album's fields are these, given what came of reading the year of its
/// release date and the texts of its artists.
pub open spec fn album_is(
    album: SpotifyAlbum,
    id: Seq<char>,
    title: Seq<char>,
    artists: Seq<Seq<char>>,
    album_type: Seq<char>,
    year: Option<u32>,
    has_cover_art: bool,
) -> bool {
    &&& album.spotify_id@ == id
    &&& album.title@ == title
    &&& album.artists@.len() == artists.len()
    &&& forall|k: int| 0 <= k < artists.len() ==> (#[trigger] album.artists@[k])@ == artists[k]
    &&& album.album_type@ == album_type
    &&& album.release_year == year
    &&& album.has_cover_art == has_cover_art
}

/// An album whose contents are these has these fields.
pub proof fn lemma_album_is(album: SpotifyAlbum)
    ensures
        album_is(
            album,
            album@.spotify_id,
            album@.title,
            album@.artists,
            album@.album_type,
            album@.release_year,
            album@.has_cover_art,
        ),
{
    assert forall|k: int| 0 <= k < album@.artists.len() implies (#[trigger] album.artists@[k])@
        == album@.artists[k] by {
        assert(texts(album.artists@)[k] == album.artists@[k]@);
    }
}

/// An album that is read from the database has the row's identifier, title, type
/// and cover art, the year of its release date, and the artists that its JSON
/// array lists: no type where the row has none, no artists where there is no
/// array.
pub proof fn law_album_from_row(row: DbSpotifyAlbum, album: SpotifyAlbum, year: Option<u32>)
    requires
        call_ensures(spotify_album_from_db, (&row,), album),
        call_ensures(release_year, (&row.release_date,), year),
    ensures
        album.spotify_id@ == row.spotify_id@,
        album.title@ == row.title@,
        row.album_type matches Some(t) ==> album.album_type@ == t@,
        row.album_type is None ==> album.album_type@.len() == 0,
        album.release_year == year,
        album.has_cover_art <==> row.cover_art is Some,
        json_list(row.artists@) matches Some(names) ==> album.artists@.len() == names.len() && (
        forall|k: int| 0 <= k < names.len() ==> (#[trigger] album.artists@[k])@ == names[k]),
        json_list(row.artists@) is None ==> album.artists@.len() == 0,
{
    lemma_album_is(album);
}

/// The same of an album made of a row and artists that were read before.
pub proof fn law_album_from_parts(
    row: DbSpotifyAlbum,
    artists: Vec<String>,
    album: SpotifyAlbum,
    year: Option<u32>,
)
    requires
        call_ensures(album_from_parts, (&row, artists), album),
        call_ensures(release_year, (&row.release_date,), year),
    ensures
        album.spotify_id@ == row.spotify_id@,
        album.title@ == row.title@,
        row.album_type matches Some(t) ==> album.album_type@ == t@,
        row.album_type is None ==> album.album_type@.len() == 0,
        album.release_year == year,
        album.has_cover_art <==> row.cover_art is Some,
        album.artists@.len() == artists@.len(),
        forall|k: int|
            0 <= k < artists@.len() ==> (#[trigger] album.artists@[k])@ == artists@[k]@,
{
    lemma_album_is(album);
    assert forall|k: int| 0 <= k < artists@.len() implies (#[trigger] album.artists@[k])@
        == artists@[k]@ by {
        assert(texts(artists@)[k] == artists@[k]@);
    }
}

/// An album of the API keeps its identifier, name, type and artists, has the year
/// of its release date, and as much cover art as is said to be stored.
pub proof fn law_album_from_api(
    api: SpotifyApiAlbum,
    has_art: bool,
    plain: SpotifyAlbum,
    stored: SpotifyAlbum,
    year: Option<u32>,
)
    requires
        call_ensures(spotify_album_from_api, (&api,), plain),
        call_ensures(spotify_album_from_stored, (&api, has_art), stored),
        call_ensures(release_year, (&api.release_date,), year),
    ensures
        album_is(
            plain,
            api.id@,
            api.name@,
            Seq::new(api.artists@.len(), |k: int| api.artists@[k].name@),
            api.album_type@,
            year,
            false,
        ),
        album_is(
            stored,
            api.id@,
            api.name@,
            Seq::new(api.artists@.len(), |k: int| api.artists@[k].name@),
            api.album_type@,
            year,
            has_art,
        ),
{
    lemma_album_is(plain);
    lemma_album_is(stored);
    assert(artist_names(api.artists@) =~= Seq::new(
        api.artists@.len(),
        |k: int| api.artists@[k].name@,
    ));
}

/// A track of the API keeps everything that it says.
pub proof fn law_track_from_api(t: SpotifyApiTrack, track: Track)
    requires
        call_ensures(track_from_api, (&t,), track),
    ensures
        track.track_id@ == t.id@,
        track.disc_number == t.disc_number,
        track.track_number == t.track_number,
        track.name@ == t.name@,
        track.artists@.len() == t.artists@.len(),
        forall|k: int|
            0 <= k < t.artists@.len() ==> (#[trigger] track.artists@[k])@ == t.artists@[k].name@,
        track.duration_ms == t.duration_ms,
{
    assert(texts(track.artists@).len() == artist_names(t.artists@).len());
    assert forall|k: int| 0 <= k < t.artists@.len() implies (#[trigger] track.artists@[k])@
        == t.artists@[k].name@ by {
        assert(texts(track.artists@)[k] == track.artists@[k]@);
        assert(artist_names(t.artists@)[k] == t.artists@[k].name@);
    }
}

/// A track that is read from the database has the row's identifier, name, numbers
/// and duration, as far as they fit in 32 bits, and the artists that its JSON array
/// lists.
pub proof fn law_track_from_row(row: DbTrack, track: Track)
    requires
        call_ensures(track_from_db, (&row,), track),
    ensures
        track.track_id@ == row.track_id@,
        (row.disc_number - track.disc_number) % 0x1_0000_0000 == 0,
        (row.track_number - track.track_number) % 0x1_0000_0000 == 0,
        track.name@ == row.name@,
        row.duration_ms matches Some(ms) ==> track.duration_ms is Some && (ms
            - track.duration_ms->0) % 0x1_0000_0000 == 0,
        row.duration_ms is None ==> track.duration_ms is None,
        json_list(row.artists@) matches Some(names) ==> track.artists@.len() == names.len() && (
        forall|k: int| 0 <= k < names.len() ==> (#[trigger] track.artists@[k])@ == names[k]),
        json_list(row.artists@) is None ==> track.artists@.len() == 0,
{
    assert forall|k: int| 0 <= k < track.artists@.len() implies (#[trigger] track.artists@[k])@
        == stored_list(row.artists@)[k] by {
        assert(texts(track.artists@)[k] == track.artists@[k]@);
    }
    assert(texts(track.artists@).len() == track.artists@.len());
}

/// The same of a track made of a row and artists that were read before.
pub proof fn law_track_from_parts(row: DbTrack, artists: Vec<String>, track: Track)
    requires
        call_ensures(track_from_parts, (&row, artists), track),
    ensures
        track.track_id@ == row.track_id@,
        (row.disc_number - track.disc_number) % 0x1_0000_0000 == 0,
        (row.track_number - track.track_number) % 0x1_0000_0000 == 0,
        track.name@ == row.name@,
        row.duration_ms matches Some(ms) ==> track.duration_ms is Some && (ms
            - track.duration_ms->0) % 0x1_0000_0000 == 0,
        row.duration_ms is None ==> track.duration_ms is None,
        track.artists@.len() == artists@.len(),
        forall|k: int|
            0 <= k < artists@.len() ==> (#[trigger] track.artists@[k])@ == artists@[k]@,
{
    assert(texts(track.artists@).len() == texts(artists@).len());
    assert forall|k: int| 0 <= k < artists@.len() implies (#[trigger] track.artists@[k])@
        == artists@[k]@ by {
        assert(texts(track.artists@)[k] == track.artists@[k]@);
        assert(texts(artists@)[k] == artists@[k]@);
    }
}

/// Reading 32 bits of a number drops multiples of 2 to the 32 alone.
pub proof fn law_truncation_to_32_bits(n: i64, out: u32)
    requires
        call_ensures(truncate_u32, (n,), out),
    ensures
        (n - out) % 0x1_0000_0000 == 0,
        0 <= n <= u32::MAX ==> out == n,
{
}

/// The cover image is one of the images; none is wider, and none behind it is as
/// wide. An image without a width is the narrowest. Without images there is none.
pub proof fn law_cover_image_is_the_widest(images: &[SpotifyImage], url: Option<String>)
    requires
        call_ensures(best_image_url, (images,), url),
    ensures
        images@.len() == 0 ==> url is None,
        images@.len() > 0 ==> exists|i: int|
            0 <= i < images@.len() && url is Some && url->0@ == (#[trigger] images@[i]).url@ && (
            forall|j: int|
                0 <= j < images@.len() && (#[trigger] images@[j]).width is Some
                    && images@[j].width->0 > 0 ==> images@[i].width is Some && images@[j].width->0
                    <= images@[i].width->0 && (j > i ==> images@[j].width->0
                    < images@[i].width->0)) && ((images@[i].width is None || images@[i].width->0
                == 0) ==> i == images@.len() - 1),
{
    if images@.len() > 0 {
        lemma_best_exists(images@);
        let i = choose|i: int| is_best(images@, i);
        assert(url is Some && url->0@ == images@[i].url@);
        assert forall|j: int|
            0 <= j < images@.len() && (#[trigger] images@[j]).width is Some && images@[j].width->0
                > 0 implies images@[i].width is Some && images@[j].width->0
            <= images@[i].width->0 && (j > i ==> images@[j].width->0 < images@[i].width->0) by {
            if j != i {
                assert(width_of(images@[j]) <= width_of(images@[i]));
            }
        }
        if images@[i].width is None || images@[i].width->0 == 0 {
            if i < images@.len() - 1 {
                assert(width_of(images@[i + 1]) < width_of(images@[i]));
            }
        }
    }
}

} // verus!
