//! Ratings of albums.
//!
//! A step names the work to do next; its `then` takes what came of it and gives
//! the next step. An error is the text that the user is shown.

use crate::catalog::{release_year, spotify_album_from_db, year_of, DbSpotifyAlbum, SpotifyAlbum};
use crate::ids::{fresh_uuid, uuid_text};
use crate::json::{json_list, read_stored_list, stored_list};
use crate::profile::{action_outcome, refused};
use crate::session::CurrentUser;
use crate::store::{
    ensure_release_group, ensure_release_group_stmt, find_rating, find_rating_stmt,
    find_release_group, find_release_group_stmt, list_ratings, list_ratings_stmt, save_rating,
    save_rating_stmt, DbError, SqlData, Statement, ENSURE_RELEASE_GROUP, FIND_RATING,
    FIND_RELEASE_GROUP, LIST_RATINGS, SAVE_RATING,
};
use crate::text::{opt_text, texts};
use vstd::prelude::*;

verus! {

// ---------------------------------------------------------------------------
// Rating an album
// ---------------------------------------------------------------------------

/// A rating that a user gives an album.
pub struct NewRating {
    pub spotify_id: String,
    pub rating: u8,
    pub review: Option<String>,
    pub favorite_track_id: Option<String>,
}

/// The next step of rating an album.
pub enum RateStep {
    /// Make sure that the album has a release group.
    EnsureGroup { statement: Statement, then: GroupEnsured },
    /// Find the album's release group: at most one row.
    FindGroup { statement: Statement, then: GroupLookup },
    /// Save the rating, in place of an earlier one.
    SaveRating { statement: Statement, then: RatingSaved },
    /// Answer.
    Done(Result<(), String>),
}

/// Waits for the release group to be there.
pub struct GroupEnsured {
    pub user_id: String,
    pub rating: NewRating,
}

/// Waits for the release group.
pub struct GroupLookup {
    pub user_id: String,
    pub rating: NewRating,
}

/// Waits for the rating to be saved.
pub struct RatingSaved {}

/// Whether a step refuses the request with a text.
pub open spec fn rate_refused(step: RateStep, text: Seq<char>) -> bool {
    step matches RateStep::Done(outcome) && refused(outcome, text)
}

/// Whether a step answers a request to rate an album. Ratings go from 1 to 10;
/// `group_id` identifies the release group where the album has none yet.
pub open spec fn starts_rating(
    step: RateStep,
    viewer: Option<CurrentUser>,
    rating: NewRating,
    group_id: Seq<char>,
) -> bool {
    if rating.rating < 1 || rating.rating > 10 {
        rate_refused(step, "Rating must be between 1 and 10"@)
    } else {
        match viewer {
            None => rate_refused(step, "Not logged in"@),
            Some(v) => step matches RateStep::EnsureGroup { statement, then } && statement@
                == ensure_release_group_stmt(group_id, rating.spotify_id@) && then.user_id
                == v.user_id && then.rating == rating,
        }
    }
}

/// Rates an album, with an identifier for its release group.
pub fn rate_album_with(
    viewer: Option<CurrentUser>,
    rating: NewRating,
    group_id: &str,
) -> (step: RateStep)
    ensures
        starts_rating(step, viewer, rating, group_id@),
{
    if rating.rating < 1 || rating.rating > 10 {
        return RateStep::Done(Err("Rating must be between 1 and 10".to_string()));
    }
    match viewer {
        None => RateStep::Done(Err("Not logged in".to_string())),
        Some(v) => RateStep::EnsureGroup {
            statement: ensure_release_group(group_id, rating.spotify_id.as_str()),
            then: GroupEnsured { user_id: v.user_id, rating },
        },
    }
}

/// Rates an album.
pub fn rate_album(viewer: Option<CurrentUser>, rating: NewRating) -> (step: RateStep)
    ensures
        exists|group_id: Seq<char>| #[trigger]
            uuid_text(group_id) && starts_rating(step, viewer, rating, group_id),
{
    let group_id = fresh_uuid();
    rate_album_with(viewer, rating, group_id.as_str())
}

impl GroupEnsured {
    /// Looks for the release group.
    pub fn resume(self, ensured: Result<(), DbError>) -> (step: RateStep)
        ensures
            match ensured {
                Err(e) => rate_refused(step, e.message@),
                Ok(_) => step matches RateStep::FindGroup { statement, then } && statement@
                    == find_release_group_stmt(self.rating.spotify_id@) && then.user_id
                    == self.user_id && then.rating == self.rating,
            },
    {
        match ensured {
            Err(e) => RateStep::Done(Err(e.message)),
            Ok(_) => RateStep::FindGroup {
                statement: find_release_group(self.rating.spotify_id.as_str()),
                then: GroupLookup { user_id: self.user_id, rating: self.rating },
            },
        }
    }
}

/// Whether a step saves a rating for the release group that was found, under an
/// identifier of its own.
pub open spec fn saves_rating(
    step: RateStep,
    lookup: GroupLookup,
    found: Result<Option<String>, DbError>,
    rating_id: Seq<char>,
) -> bool {
    match found {
        Err(e) => rate_refused(step, e.message@),
        Ok(None) => rate_refused(step, "Album not found in cache"@),
        Ok(Some(group_id)) => step matches RateStep::SaveRating { statement, then } && statement@
            == save_rating_stmt(
            rating_id,
            lookup.user_id@,
            group_id@,
            lookup.rating.rating as int,
            opt_text(lookup.rating.review),
            opt_text(lookup.rating.favorite_track_id),
        ),
    }
}

impl GroupLookup {
    /// Saves the rating under an identifier.
    pub fn resume_with(
        self,
        found: Result<Option<String>, DbError>,
        rating_id: &str,
    ) -> (step: RateStep)
        ensures
            saves_rating(step, self, found, rating_id@),
    {
        match found {
            Err(e) => RateStep::Done(Err(e.message)),
            Ok(None) => RateStep::Done(Err("Album not found in cache".to_string())),
            Ok(Some(group_id)) => RateStep::SaveRating {
                statement: save_rating(
                    rating_id,
                    self.user_id.as_str(),
                    group_id.as_str(),
                    self.rating.rating as i64,
                    &self.rating.review,
                    &self.rating.favorite_track_id,
                ),
                then: RatingSaved {  },
            },
        }
    }

    /// Saves the rating under a fresh identifier.
    pub fn resume(self, found: Result<Option<String>, DbError>) -> (step: RateStep)
        ensures
            exists|rating_id: Seq<char>| #[trigger]
                uuid_text(rating_id) && saves_rating(step, self, found, rating_id),
    {
        let rating_id = fresh_uuid();
        self.resume_with(found, rating_id.as_str())
    }
}

impl RatingSaved {
    /// Answers.
    pub fn resume(self, saved: Result<(), DbError>) -> (step: RateStep)
        ensures
            match saved {
                Err(e) => rate_refused(step, e.message@),
                Ok(_) => step == RateStep::Done(Ok(())),
            },
    {
        RateStep::Done(action_outcome(saved))
    }
}

// ---------------------------------------------------------------------------
// Reading ratings
// ---------------------------------------------------------------------------

/// The low eight bits of an integer.
pub open spec fn low_u8(n: i64) -> u8 {
    (n as int % 0x100) as u8
}

/// The low eight bits of an integer.
pub fn truncate_u8(n: i64) -> (out: u8)
    ensures
        out == low_u8(n),
{
    assert(#[verifier::truncate] (n as u8) == (n as u64) % 0x100u64) by (bit_vector);
    assert((n as u64) as int % 0x100 == n as int % 0x100) by {
        assert(n >= 0 ==> (n as u64) == n) by (bit_vector);
        assert(n < 0 ==> (n as u64) == n + 0x1_0000_0000_0000_0000) by (bit_vector);
    }
    #[verifier::truncate] (n as u8)
}

/// A user's own rating of an album.
#[derive(Debug, Clone)]
pub struct MyRating {
    pub rating: u8,
    pub review: Option<String>,
    pub favorite_track_id: Option<String>,
}

/// A row with a user's own rating of an album.
pub struct MyRatingRow {
    pub rating: i64,
    pub review: Option<String>,
    pub favorite_track_id: Option<String>,
}

/// The next step of showing a user's own rating of an album.
pub enum MyRatingStep {
    /// Find the rating's row: at most one.
    FindRating { statement: Statement, then: RatingLookup },
    /// Answer; `None` where there is no rating.
    Done(Result<Option<MyRating>, String>),
}

/// Waits for the rating's row.
pub struct RatingLookup {}

/// Shows the rating that the user of the request has given an album.
pub fn get_my_rating(viewer: &Option<CurrentUser>, spotify_id: &str) -> (step: MyRatingStep)
    ensures
        match *viewer {
            None => step == MyRatingStep::Done(Ok(None)),
            Some(v) => step matches MyRatingStep::FindRating { statement, then } && statement@
                == find_rating_stmt(spotify_id@, v.user_id@),
        },
{
    match viewer {
        None => MyRatingStep::Done(Ok(None)),
        Some(v) => MyRatingStep::FindRating {
            statement: find_rating(spotify_id, v.user_id.as_str()),
            then: RatingLookup {  },
        },
    }
}

impl RatingLookup {
    /// Answers.
    pub fn resume(self, found: Result<Option<MyRatingRow>, DbError>) -> (step: MyRatingStep)
        ensures
            match found {
                Err(e) => step matches MyRatingStep::Done(outcome) && refused(
                    outcome,
                    e.message@,
                ),
                Ok(None) => step == MyRatingStep::Done(Ok(None)),
                Ok(Some(row)) => step == MyRatingStep::Done(
                    Ok(
                        Some(
                            MyRating {
                                rating: low_u8(row.rating),
                                review: row.review,
                                favorite_track_id: row.favorite_track_id,
                            },
                        ),
                    ),
                ),
            },
    {
        match found {
            Err(e) => MyRatingStep::Done(Err(e.message)),
            Ok(None) => MyRatingStep::Done(Ok(None)),
            Ok(Some(row)) => MyRatingStep::Done(
                Ok(
                    Some(
                        MyRating {
                            rating: truncate_u8(row.rating),
                            review: row.review,
                            favorite_track_id: row.favorite_track_id,
                        },
                    ),
                ),
            ),
        }
    }
}

/// An album that a user has rated.
#[derive(Debug, Clone)]
pub struct UserRating {
    pub spotify_id: String,
    pub title: String,
    pub artists: Vec<String>,
    pub album_type: String,
    pub release_year: Option<u32>,
    pub has_cover_art: bool,
    pub rating: u8,
    pub review: Option<String>,
    pub favorite_track_name: Option<String>,
    pub rated_at: String,
}

/// The contents of a `UserRating`.
pub struct UserRatingData {
    pub spotify_id: Seq<char>,
    pub title: Seq<char>,
    pub artists: Seq<Seq<char>>,
    pub album_type: Seq<char>,
    pub release_year: Option<u32>,
    pub has_cover_art: bool,
    pub rating: u8,
    pub review: Option<Seq<char>>,
    pub favorite_track_name: Option<Seq<char>>,
    pub rated_at: Seq<char>,
}

impl View for UserRating {
    type V = UserRatingData;

    open spec fn view(&self) -> UserRatingData {
        UserRatingData {
            spotify_id: self.spotify_id@,
            title: self.title@,
            artists: texts(self.artists@),
            album_type: self.album_type@,
            release_year: self.release_year,
            has_cover_art: self.has_cover_art,
            rating: self.rating,
            review: opt_text(self.review),
            favorite_track_name: opt_text(self.favorite_track_name),
            rated_at: self.rated_at@,
        }
    }
}

/// The contents of a list of rated albums.
pub open spec fn ratings_data(ratings: Seq<UserRating>) -> Seq<UserRatingData> {
    ratings.map_values(|r: UserRating| r@)
}

/// A row with an album that a user has rated.
pub struct UserRatingRow {
    pub spotify_id: String,
    pub title: String,
    /// A JSON array of display names.
    pub artists: String,
    pub album_type: Option<String>,
    pub release_date: Option<String>,
    /// Zero where no cover art is stored.
    pub has_cover_art: i64,
    pub rating: i64,
    pub review: Option<String>,
    pub favorite_track_name: Option<String>,
    pub rated_at: String,
}

/// The rated album that a row with these artists stands for.
pub open spec fn rating_of_parts(row: UserRatingRow, artists: Seq<Seq<char>>) -> UserRatingData {
    UserRatingData {
        spotify_id: row.spotify_id@,
        title: row.title@,
        artists,
        album_type: match row.album_type {
            Some(t) => t@,
            None => Seq::empty(),
        },
        release_year: year_of(opt_text(row.release_date)),
        has_cover_art: row.has_cover_art != 0,
        rating: low_u8(row.rating),
        review: opt_text(row.review),
        favorite_track_name: opt_text(row.favorite_track_name),
        rated_at: row.rated_at@,
    }
}

/// Converts a row with these artists into the rated album that it stands for.
pub fn rating_from_parts(row: &UserRatingRow, artists: Vec<String>) -> (rating: UserRating)
    ensures
        rating@ == rating_of_parts(*row, texts(artists@)),
{
    UserRating {
        spotify_id: row.spotify_id.clone(),
        title: row.title.clone(),
        artists,
        album_type: match &row.album_type {
            Some(t) => t.clone(),
            None => String::new(),
        },
        release_year: release_year(&row.release_date),
        has_cover_art: row.has_cover_art != 0,
        rating: truncate_u8(row.rating),
        review: row.review.clone(),
        favorite_track_name: row.favorite_track_name.clone(),
        rated_at: row.rated_at.clone(),
    }
}

/// The rated album that a row stands for.
pub open spec fn rating_of_row(row: UserRatingRow) -> UserRatingData {
    rating_of_parts(row, stored_list(row.artists@))
}

/// Converts a row into the rated album that it stands for.
pub fn user_rating_from_db(row: &UserRatingRow) -> (rating: UserRating)
    ensures
        rating@ == rating_of_row(*row),
{
    rating_from_parts(row, read_stored_list(row.artists.as_str()))
}

/// Lists the albums that a user has rated, the latest first. The answer is what
/// [`user_ratings`] makes of the rows.
pub fn get_user_ratings(username: &str) -> (statement: Statement)
    ensures
        statement@ == list_ratings_stmt(username@),
{
    list_ratings(username)
}

/// The albums that a user has rated, in the order of the rows.
pub fn user_ratings(rows: Result<Vec<UserRatingRow>, DbError>) -> (ratings: Result<
    Vec<UserRating>,
    String,
>)
    ensures
        match rows {
            Err(e) => refused(ratings, e.message@),
            Ok(rs) => ratings is Ok && ratings_data(ratings->Ok_0@) == rs@.map_values(
                |r: UserRatingRow| rating_of_row(r),
            ),
        },
{
    match rows {
        Err(e) => Err(e.message),
        Ok(rs) => {
            let mut ratings: Vec<UserRating> = Vec::new();
            let mut i: usize = 0;
            while i < rs.len()
                invariant
                    i <= rs@.len(),
                    ratings_data(ratings@) =~= rs@.take(i as int).map_values(
                        |r: UserRatingRow| rating_of_row(r),
                    ),
                decreases rs@.len() - i,
            {
                let ghost before = ratings@;
                ratings.push(user_rating_from_db(&rs[i]));
                assert(ratings_data(ratings@) =~= ratings_data(before).push(
                    rating_of_row(rs@[i as int]),
                ));
                i = i + 1;
            }
            assert(rs@.take(rs@.len() as int) =~= rs@);
            Ok(ratings)
        },
    }
}

/// A rating that was accepted is read back as it was given.
pub proof fn law_ratings_fit(rating: u8)
    requires
        1 <= rating <= 10,
    ensures
        low_u8(rating as i64) == rating,
{
}

// ---------------------------------------------------------------------------
// Laws
// ---------------------------------------------------------------------------

/// Rating an album from 1 to 10 first makes sure of its release group, then finds
/// it, and then saves the rating, the review and the favorite track as they were
/// given, for the user of the request and that group; then it is done.
pub proof fn law_rating_is_saved(
    viewer: CurrentUser,
    rating: NewRating,
    group_id: &str,
    group: String,
    rating_id: &str,
    ensure: RateStep,
    find: RateStep,
    save: RateStep,
    last: RateStep,
)
    requires
        1 <= rating.rating <= 10,
        call_ensures(rate_album_with, (Some(viewer), rating, group_id), ensure),
        call_ensures(
            GroupEnsured::resume,
            (ensure->EnsureGroup_then, Ok::<(), DbError>(())),
            find,
        ),
        call_ensures(
            GroupLookup::resume_with,
            (find->FindGroup_then, Ok::<Option<String>, DbError>(Some(group)), rating_id),
            save,
        ),
        call_ensures(RatingSaved::resume, (save->SaveRating_then, Ok::<(), DbError>(())), last),
    ensures
        ensure is EnsureGroup,
        ensure->EnsureGroup_statement@.sql == ENSURE_RELEASE_GROUP@,
        ensure->EnsureGroup_statement@.params == seq![
            SqlData::Text(group_id@),
            SqlData::Text(rating.spotify_id@),
        ],
        find is FindGroup,
        find->FindGroup_statement@.sql == FIND_RELEASE_GROUP@,
        find->FindGroup_statement@.params == seq![SqlData::Text(rating.spotify_id@)],
        save is SaveRating,
        save->SaveRating_statement@.sql == SAVE_RATING@,
        save->SaveRating_statement@.params == seq![
            SqlData::Text(rating_id@),
            SqlData::Text(viewer.user_id@),
            SqlData::Text(group@),
            SqlData::Int(rating.rating as int),
            match rating.review {
                Some(r) => SqlData::Text(r@),
                None => SqlData::Null,
            },
            match rating.favorite_track_id {
                Some(t) => SqlData::Text(t@),
                None => SqlData::Null,
            },
        ],
        last == RateStep::Done(Ok(())),
{
}

/// A rating outside 1 to 10 and a request from nobody are refused before anything
/// else; an album without a release group is refused, and so is what the database
/// fails at, with its message.
pub proof fn law_rating_is_refused(
    viewer: Option<CurrentUser>,
    rating: NewRating,
    group_id: &str,
    rating_id: &str,
    e: DbError,
    asked: RateStep,
    ensured: GroupEnsured,
    lookup: GroupLookup,
    saved: RatingSaved,
    unsure: RateStep,
    missing: RateStep,
    lost: RateStep,
    unsaved: RateStep,
)
    requires
        call_ensures(rate_album_with, (viewer, rating, group_id), asked),
        call_ensures(GroupEnsured::resume, (ensured, Err::<(), DbError>(e)), unsure),
        call_ensures(
            GroupLookup::resume_with,
            (lookup, Ok::<Option<String>, DbError>(None), rating_id),
            missing,
        ),
        call_ensures(
            GroupLookup::resume_with,
            (lookup, Err::<Option<String>, DbError>(e), rating_id),
            lost,
        ),
        call_ensures(RatingSaved::resume, (saved, Err::<(), DbError>(e)), unsaved),
    ensures
        rating.rating == 0 || rating.rating > 10 ==> asked is Done && asked->Done_0 is Err
            && asked->Done_0->Err_0@ == "Rating must be between 1 and 10"@,
        1 <= rating.rating <= 10 && viewer is None ==> asked is Done && asked->Done_0 is Err
            && asked->Done_0->Err_0@ == "Not logged in"@,
        1 <= rating.rating <= 10 && viewer is Some ==> asked is EnsureGroup,
        missing is Done && missing->Done_0 is Err && missing->Done_0->Err_0@
            == "Album not found in cache"@,
        unsure is Done && unsure->Done_0 is Err && unsure->Done_0->Err_0@ == e.message@,
        lost is Done && lost->Done_0 is Err && lost->Done_0->Err_0@ == e.message@,
        unsaved is Done && unsaved->Done_0 is Err && unsaved->Done_0->Err_0@ == e.message@,
{
}

/// The rating that a user sees of an album is the one that is stored for that
/// user and that album, as far as it fits in 8 bits, with its review and its
/// favorite track; nobody has one.
pub proof fn law_own_rating_is_shown(
    viewer: Option<CurrentUser>,
    spotify_id: &str,
    found: Result<Option<MyRatingRow>, DbError>,
    first: MyRatingStep,
    lookup: RatingLookup,
    last: MyRatingStep,
)
    requires
        call_ensures(get_my_rating, (&viewer, spotify_id), first),
        call_ensures(RatingLookup::resume, (lookup, found), last),
    ensures
        viewer is None ==> first == MyRatingStep::Done(Ok(None)),
        viewer matches Some(v) ==> first is FindRating && first->FindRating_statement@.sql
            == FIND_RATING@ && first->FindRating_statement@.params == seq![
            SqlData::Text(spotify_id@),
            SqlData::Text(v.user_id@),
        ],
        found matches Ok(Some(row)) ==> {
            &&& last is Done && last->Done_0 is Ok && last->Done_0->Ok_0 is Some
            &&& (row.rating - last->Done_0->Ok_0->0.rating) % 0x100 == 0
            &&& last->Done_0->Ok_0->0.review == row.review
            &&& last->Done_0->Ok_0->0.favorite_track_id == row.favorite_track_id
        },
        found matches Ok(None) ==> last == MyRatingStep::Done(Ok(None)),
        found matches Err(e) ==> last is Done && last->Done_0 is Err && last->Done_0->Err_0@
            == e.message@,
{
}

/// Reading 8 bits of a number drops multiples of 256 alone.
pub proof fn law_truncation_to_8_bits(n: i64, out: u8)
    requires
        call_ensures(truncate_u8, (n,), out),
    ensures
        (n - out) % 0x100 == 0,
        0 <= n <= 255 ==> out == n,
{
}

/// The list of rated albums has one entry for each row, in their order, and each
/// carries its row's identifier, title, type, rating (as far as it fits in 8 bits),
/// review, favorite track and time as they are, the year of its release date,
/// whether it has cover art, and the artists that its JSON array lists.
pub proof fn law_ratings_carry_their_rows(
    rows: Vec<UserRatingRow>,
    ratings: Result<Vec<UserRating>, String>,
    i: int,
    year: Option<u32>,
)
    requires
        call_ensures(user_ratings, (Ok::<Vec<UserRatingRow>, DbError>(rows),), ratings),
        0 <= i < rows@.len(),
        call_ensures(release_year, (&rows@[i].release_date,), year),
    ensures
        ratings is Ok,
        ratings->Ok_0@.len() == rows@.len(),
        ({
            let row = rows@[i];
            let r = ratings->Ok_0@[i];
            &&& r.spotify_id@ == row.spotify_id@
            &&& r.title@ == row.title@
            &&& row.album_type matches Some(t) ==> r.album_type@ == t@
            &&& row.album_type is None ==> r.album_type@.len() == 0
            &&& r.release_year == year
            &&& r.has_cover_art <==> row.has_cover_art != 0
            &&& (row.rating - r.rating) % 0x100 == 0
            &&& row.review matches Some(text) ==> r.review is Some && r.review->0@ == text@
            &&& row.review is None ==> r.review is None
            &&& row.favorite_track_name matches Some(name) ==> r.favorite_track_name is Some
                && r.favorite_track_name->0@ == name@
            &&& row.favorite_track_name is None ==> r.favorite_track_name is None
            &&& r.rated_at@ == row.rated_at@
            &&& json_list(row.artists@) matches Some(names) ==> r.artists@.len() == names.len() && (
            forall|k: int| 0 <= k < names.len() ==> (#[trigger] r.artists@[k])@ == names[k])
            &&& json_list(row.artists@) is None ==> r.artists@.len() == 0
        }),
{
    let rs = ratings->Ok_0@;
    assert(ratings_data(rs).len() == rs.len());
    assert(ratings_data(rs)[i] == rs[i]@);
    assert(rs[i]@ == rating_of_row(rows@[i]));
    assert(texts(rs[i].artists@).len() == rs[i].artists@.len());
    assert forall|k: int| 0 <= k < rs[i].artists@.len() implies (#[trigger] rs[i].artists@[k])@
        == stored_list(rows@[i].artists@)[k] by {
        assert(texts(rs[i].artists@)[k] == rs[i].artists@[k]@);
    }
}

/// An empty list of rows is an empty list of albums, and a failure is told.
pub proof fn law_ratings_of_no_rows(
    rows: Result<Vec<UserRatingRow>, DbError>,
    ratings: Result<Vec<UserRating>, String>,
)
    requires
        call_ensures(user_ratings, (rows,), ratings),
    ensures
        rows matches Ok(rs) ==> ratings is Ok && ratings->Ok_0@.len() == rs@.len(),
        rows matches Err(e) ==> ratings is Err && ratings->Err_0@ == e.message@,
{
    if let Ok(rs) = rows {
        assert(ratings_data(ratings->Ok_0@).len() == ratings->Ok_0@.len());
    }
}

/// A rated album and the same album as lookup hands it out agree in everything
/// that both show.
pub proof fn law_rated_album_is_the_album(
    row: DbSpotifyAlbum,
    rated: UserRatingRow,
    album: SpotifyAlbum,
    rating: UserRating,
)
    requires
        call_ensures(spotify_album_from_db, (&row,), album),
        call_ensures(user_rating_from_db, (&rated,), rating),
        rated.spotify_id@ == row.spotify_id@,
        rated.title@ == row.title@,
        rated.artists@ == row.artists@,
        rated.album_type == row.album_type,
        rated.release_date == row.release_date,
        rated.has_cover_art != 0 <==> row.cover_art is Some,
    ensures
        rating.spotify_id@ == album.spotify_id@,
        rating.title@ == album.title@,
        texts(rating.artists@) == texts(album.artists@),
        rating.album_type@ == album.album_type@,
        rating.release_year == album.release_year,
        rating.has_cover_art == album.has_cover_art,
{
}

/// A row with artists that were read before gives an entry with the row's fields
/// and these artists.
pub proof fn law_rating_from_parts(
    row: UserRatingRow,
    artists: Vec<String>,
    rating: UserRating,
    year: Option<u32>,
)
    requires
        call_ensures(rating_from_parts, (&row, artists), rating),
        call_ensures(release_year, (&row.release_date,), year),
    ensures
        rating.spotify_id@ == row.spotify_id@,
        rating.title@ == row.title@,
        texts(rating.artists@) == texts(artists@),
        row.album_type matches Some(t) ==> rating.album_type@ == t@,
        row.album_type is None ==> rating.album_type@.len() == 0,
        rating.release_year == year,
        rating.has_cover_art <==> row.has_cover_art != 0,
        (row.rating - rating.rating) % 0x100 == 0,
        row.review matches Some(text) ==> rating.review is Some && rating.review->0@ == text@,
        row.review is None ==> rating.review is None,
        row.favorite_track_name matches Some(name) ==> rating.favorite_track_name is Some
            && rating.favorite_track_name->0@ == name@,
        row.favorite_track_name is None ==> rating.favorite_track_name is None,
        rating.rated_at@ == row.rated_at@,
{
}

/// The ratings of a user are looked up by the user's name.
pub proof fn law_ratings_are_those_of_the_user(username: &str, statement: Statement)
    requires
        call_ensures(get_user_ratings, (username,), statement),
    ensures
        statement@.sql == LIST_RATINGS@,
        statement@.params == seq![SqlData::Text(username@)],
{
}

/// With fresh identifiers a rating is made sure of and saved just the same.
pub proof fn law_rating_with_fresh_identifiers(
    viewer: Option<CurrentUser>,
    rating: NewRating,
    lookup: GroupLookup,
    group: String,
    ensure: RateStep,
    save: RateStep,
    missing: RateStep,
    e: DbError,
    lost: RateStep,
)
    requires
        call_ensures(GroupLookup::resume, (lookup, Err::<Option<String>, DbError>(e)), lost),
        call_ensures(rate_album, (viewer, rating), ensure),
        call_ensures(
            GroupLookup::resume,
            (lookup, Ok::<Option<String>, DbError>(Some(group))),
            save,
        ),
        call_ensures(GroupLookup::resume, (lookup, Ok::<Option<String>, DbError>(None)), missing),
    ensures
        rating.rating == 0 || rating.rating > 10 ==> ensure is Done && ensure->Done_0 is Err
            && ensure->Done_0->Err_0@ == "Rating must be between 1 and 10"@,
        1 <= rating.rating <= 10 && viewer is None ==> ensure is Done && ensure->Done_0 is Err
            && ensure->Done_0->Err_0@ == "Not logged in"@,
        1 <= rating.rating <= 10 && viewer is Some ==> ensure is EnsureGroup
            && ensure->EnsureGroup_statement@.sql == ENSURE_RELEASE_GROUP@
            && ensure->EnsureGroup_statement@.params.len() == 2
            && ensure->EnsureGroup_statement@.params[0] is Text
            && ensure->EnsureGroup_statement@.params[0]->Text_0.len() == 36
            && ensure->EnsureGroup_statement@.params[1] == SqlData::Text(rating.spotify_id@)
            && ensure->EnsureGroup_then.user_id == viewer->0.user_id
            && ensure->EnsureGroup_then.rating == rating,
        save is SaveRating,
        save->SaveRating_statement@.sql == SAVE_RATING@,
        save->SaveRating_statement@.params.len() == 6,
        save->SaveRating_statement@.params[0] is Text,
        save->SaveRating_statement@.params[0]->Text_0.len() == 36,
        save->SaveRating_statement@.params[1] == SqlData::Text(lookup.user_id@),
        save->SaveRating_statement@.params[2] == SqlData::Text(group@),
        save->SaveRating_statement@.params[3] == SqlData::Int(lookup.rating.rating as int),
        save->SaveRating_statement@.params[4] == (match lookup.rating.review {
            Some(r) => SqlData::Text(r@),
            None => SqlData::Null,
        }),
        save->SaveRating_statement@.params[5] == (match lookup.rating.favorite_track_id {
            Some(t) => SqlData::Text(t@),
            None => SqlData::Null,
        }),
        missing is Done && missing->Done_0 is Err && missing->Done_0->Err_0@
            == "Album not found in cache"@,
        lost is Done && lost->Done_0 is Err && lost->Done_0->Err_0@ == e.message@,
{
}

} // verus!
