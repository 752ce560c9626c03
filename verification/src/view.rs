//! What the pages show.

use crate::catalog::{albums_data, AlbumDetail, SearchPage, SpotifyAlbum, SpotifyAlbumData, Track};
use crate::profile::UserProfile;
use crate::ratings::{MyRating, NewRating, UserRating};
use crate::text::{
    byte_prefix, chars_of, concat, decimal, digits_value, is_blank, is_digit, join, joined,
    law_decimal_injective, law_decimal_round_trip, law_trimmed_keeps_the_rest, opt_text,
    prefix_of_bytes, texts, to_decimal, to_uppercase, trimmed, uppercase, white,
};
use vstd::prelude::*;

verus! {

// ---------------------------------------------------------------------------
// Queries in URLs
// ---------------------------------------------------------------------------

/// A character of a query in a URL: a space becomes a plus sign, and the
/// characters that mean something in a URL are written as percent codes.
pub open spec fn encoded_char(c: char) -> Seq<char> {
    if c == '%' {
        seq!['%', '2', '5']
    } else if c == '&' {
        seq!['%', '2', '6']
    } else if c == '#' {
        seq!['%', '2', '3']
    } else if c == '+' {
        seq!['%', '2', 'B']
    } else if c == ' ' {
        seq!['+']
    } else {
        seq![c]
    }
}

/// A query in a URL.
pub open spec fn encoded(s: Seq<char>) -> Seq<char>
    decreases s.len(),
{
    if s.len() == 0 {
        Seq::empty()
    } else {
        encoded_char(s[0]) + encoded(s.drop_first())
    }
}

/// Encodes a search query for use in a URL.
pub fn url_encode_query(s: &str) -> (out: String)
    ensures
        out@ == encoded(s@),
{
    let chars = chars_of(s);
    let mut out = String::new();
    let mut i: usize = 0;
    assert(s@.skip(0) =~= s@);
    assert(out@ + encoded(s@) =~= encoded(s@));
    while i < chars.len()
        invariant
            i <= chars@.len(),
            chars@ == s@,
            encoded(s@) == out@ + encoded(s@.skip(i as int)),
        decreases chars@.len() - i,
    {
        let c = chars[i];
        let ghost before = out@;
        assert(s@.skip(i as int).drop_first() =~= s@.skip(i + 1));
        if c == '%' {
            out.push('%');
            out.push('2');
            out.push('5');
        } else if c == '&' {
            out.push('%');
            out.push('2');
            out.push('6');
        } else if c == '#' {
            out.push('%');
            out.push('2');
            out.push('3');
        } else if c == '+' {
            out.push('%');
            out.push('2');
            out.push('B');
        } else if c == ' ' {
            out.push('+');
        } else {
            out.push(c);
        }
        assert(out@ =~= before + encoded_char(c));
        assert(before + (encoded_char(c) + encoded(s@.skip(i + 1))) =~= out@ + encoded(
            s@.skip(i + 1),
        ));
        i = i + 1;
    }
    assert(s@.skip(i as int) =~= Seq::<char>::empty());
    assert(out@ + Seq::<char>::empty() =~= out@);
    out
}

/// Where a submitted search leads: to the start page where the query is blank.
pub open spec fn destination(query: Seq<char>) -> Seq<char> {
    if trimmed(query).len() == 0 {
        "/"@
    } else {
        "/?q="@ + encoded(query)
    }
}

/// Where a submitted search leads.
pub fn search_destination(query: &str) -> (url: String)
    ensures
        url@ == destination(query@),
{
    if is_blank(query) {
        "/".to_string()
    } else {
        concat("/?q=", url_encode_query(query).as_str())
    }
}

// ---------------------------------------------------------------------------
// Short texts
// ---------------------------------------------------------------------------

/// A number below 100 in two digits.
pub open spec fn two_digits(n: nat) -> Seq<char> {
    if n < 10 {
        "0"@ + decimal(n)
    } else {
        decimal(n)
    }
}

/// A duration in minutes and seconds; nothing where it is not known.
pub open spec fn duration_text(ms: Option<u32>) -> Seq<char> {
    match ms {
        Some(v) => decimal((v / 1000 / 60) as nat) + ":"@ + two_digits((v / 1000 % 60) as nat),
        None => Seq::empty(),
    }
}

/// Writes a duration in minutes and seconds.
pub fn format_duration(ms: Option<u32>) -> (text: String)
    ensures
        text@ == duration_text(ms),
{
    match ms {
        Some(v) => {
            let total: u32 = v / 1000;
            let seconds: u32 = total % 60;
            let mut text = to_decimal((total / 60) as u64);
            text.append(":");
            let ghost before = text@;
            if seconds < 10 {
                text.append("0");
            }
            text.append(to_decimal(seconds as u64).as_str());
            assert(text@ =~= before + two_digits(seconds as nat));
            text
        },
        None => {
            let text = String::new();
            assert(text@ =~= Seq::<char>::empty());
            text
        },
    }
}

/// The year of an album, or four question marks.
pub open spec fn year_text(year: Option<u32>) -> Seq<char> {
    match year {
        Some(y) => decimal(y as nat),
        None => "????"@,
    }
}

/// Writes the year of an album.
pub fn format_year(year: Option<u32>) -> (text: String)
    ensures
        text@ == year_text(year),
{
    match year {
        Some(y) => to_decimal(y as u64),
        None => "????".to_string(),
    }
}

/// What a page says of an error.
pub open spec fn error_text(e: Seq<char>) -> Seq<char> {
    "Error: "@ + e
}

// ---------------------------------------------------------------------------
// Album cards
// ---------------------------------------------------------------------------

/// An album in a list of results or of ratings.
pub struct AlbumCard {
    pub cover_src: String,
    pub href: String,
    pub title: String,
    pub artists: String,
    pub album_type: String,
    pub year: String,
}

/// The contents of an `AlbumCard`.
pub struct AlbumCardData {
    pub cover_src: Seq<char>,
    pub href: Seq<char>,
    pub title: Seq<char>,
    pub artists: Seq<char>,
    pub album_type: Seq<char>,
    pub year: Seq<char>,
}

impl View for AlbumCard {
    type V = AlbumCardData;

    open spec fn view(&self) -> AlbumCardData {
        AlbumCardData {
            cover_src: self.cover_src@,
            href: self.href@,
            title: self.title@,
            artists: self.artists@,
            album_type: self.album_type@,
            year: self.year@,
        }
    }
}

/// The card of an album.
pub open spec fn card_data(
    spotify_id: Seq<char>,
    title: Seq<char>,
    artists: Seq<Seq<char>>,
    album_type: Seq<char>,
    year: Option<u32>,
) -> AlbumCardData {
    AlbumCardData {
        cover_src: "/album-art/"@ + spotify_id,
        href: "/album/"@ + spotify_id,
        title,
        artists: joined(artists, ", "@),
        album_type,
        year: year_text(year),
    }
}

/// The card of an album.
pub open spec fn card_of(album: SpotifyAlbumData) -> AlbumCardData {
    card_data(album.spotify_id, album.title, album.artists, album.album_type, album.release_year)
}

/// Makes the card of an album.
pub fn album_card(album: &SpotifyAlbum) -> (card: AlbumCard)
    ensures
        card@ == card_of(album@),
{
    AlbumCard {
        cover_src: concat("/album-art/", album.spotify_id.as_str()),
        href: concat("/album/", album.spotify_id.as_str()),
        title: album.title.clone(),
        artists: join(&album.artists, ", "),
        album_type: album.album_type.clone(),
        year: format_year(album.release_year),
    }
}

/// The contents of a list of cards.
pub open spec fn cards_data(cards: Seq<AlbumCard>) -> Seq<AlbumCardData> {
    cards.map_values(|c: AlbumCard| c@)
}

/// Makes the cards of a list of albums.
pub fn album_cards(albums: &Vec<SpotifyAlbum>) -> (cards: Vec<AlbumCard>)
    ensures
        cards_data(cards@) == albums_data(albums@).map_values(|a: SpotifyAlbumData| card_of(a)),
{
    let mut cards: Vec<AlbumCard> = Vec::new();
    let mut i: usize = 0;
    while i < albums.len()
        invariant
            i <= albums@.len(),
            cards@.len() == i,
            forall|k: int| 0 <= k < i ==> (#[trigger] cards@[k])@ == card_of(albums@[k]@),
        decreases albums@.len() - i,
    {
        cards.push(album_card(&albums[i]));
        i = i + 1;
    }
    assert(cards_data(cards@) =~= albums_data(albums@).map_values(
        |a: SpotifyAlbumData| card_of(a),
    ));
    cards
}

// ---------------------------------------------------------------------------
// The start page
// ---------------------------------------------------------------------------

/// Who the start page's header greets.
pub enum HeaderView {
    /// A user, with a link to their profile.
    SignedIn { href: String, username: String },
    /// Nobody: the header offers to sign in.
    SignedOut,
}

/// Who the header greets, once it is known who the request comes from.
pub fn header_view(user: &Result<Option<String>, String>) -> (view: HeaderView)
    ensures
        match *user {
            Ok(Some(name)) => view matches HeaderView::SignedIn { href, username } && href@
                == "/user/"@ + name@ && username@ == name@,
            _ => view is SignedOut,
        },
{
    match user {
        Ok(Some(name)) => HeaderView::SignedIn {
            href: concat("/user/", name.as_str()),
            username: name.clone(),
        },
        _ => HeaderView::SignedOut,
    }
}

/// The results on the start page: the query that they are for, the page that
/// was fetched last, and the albums of all pages so far.
pub struct HomeState {
    pub query: Option<String>,
    pub page: u32,
    pub albums: Vec<SpotifyAlbum>,
}

impl HomeState {
    /// The state before the first query.
    pub fn new() -> (state: HomeState)
        ensures
            state.query is None,
            state.page == 1,
            state.albums@.len() == 0,
    {
        HomeState { query: None, page: 1, albums: Vec::new() }
    }

    /// The query in the URL is `query`. Another query than before begins anew
    /// with its first page; the same query changes nothing.
    pub fn set_query(&mut self, query: String)
        ensures
            opt_text(final(self).query) == Some(query@),
            if opt_text(old(self).query) == Some(query@) {
                final(self).page == old(self).page && final(self).albums == old(self).albums
            } else {
                final(self).page == 1 && final(self).albums@.len() == 0
            },
    {
        let same = match &self.query {
            Some(q) => *q == query,
            None => false,
        };
        if !same {
            self.page = 1;
            self.albums = Vec::new();
        }
        self.query = Some(query);
    }

    /// Asks for the next page.
    pub fn load_more(&mut self)
        requires
            old(self).page < u32::MAX,
        ensures
            final(self).page == old(self).page + 1,
            final(self).query == old(self).query,
            final(self).albums == old(self).albums,
    {
        self.page = self.page + 1;
    }

    /// Takes the albums of the page that was asked for: the first page replaces
    /// what is there, a later one goes behind it.
    pub fn accept(&mut self, fetched: Vec<SpotifyAlbum>)
        ensures
            final(self).page == old(self).page,
            final(self).query == old(self).query,
            final(self).albums@ == after_page(old(self).albums@, old(self).page, fetched@),
    {
        if self.page == 1 {
            self.albums = fetched;
        } else {
            let mut fetched = fetched;
            self.albums.append(&mut fetched);
        }
    }
}

/// The albums after a page was fetched.
pub open spec fn after_page(
    albums: Seq<SpotifyAlbum>,
    page: u32,
    fetched: Seq<SpotifyAlbum>,
) -> Seq<SpotifyAlbum> {
    if page == 1 {
        fetched
    } else {
        albums + fetched
    }
}

/// The page of results for a blank query, which is not searched for: an empty
/// one. `None` for any other query.
pub fn blank_page(query: &str) -> (page: Option<SearchPage>)
    ensures
        match page {
            Some(p) => trimmed(query@).len() == 0 && p.albums@.len() == 0 && p.total == 0,
            None => trimmed(query@).len() > 0,
        },
{
    if is_blank(query) {
        Some(SearchPage { albums: Vec::new(), total: 0 })
    } else {
        None
    }
}

/// Whether the start page shows results: not for a blank query.
pub fn shows_results(query: &str) -> (yes: bool)
    ensures
        yes == (trimmed(query@).len() > 0),
{
    !is_blank(query)
}

/// What stands below the results while a page is being fetched.
pub fn waiting_text(albums: &Vec<SpotifyAlbum>) -> (text: &'static str)
    ensures
        text@ == if albums@.len() == 0 {
            "Searching..."@
        } else {
            "Loading..."@
        },
{
    if albums.len() == 0 {
        "Searching..."
    } else {
        "Loading..."
    }
}

/// What stands below the results once a page was fetched.
pub enum SearchStatus {
    /// A text.
    Message(String),
    /// The button that asks for the next page.
    LoadMore,
}

/// What stands below the results once a page was fetched.
pub fn search_status(result: &Result<SearchPage, String>, page: u32) -> (status: SearchStatus)
    ensures
        match *result {
            Err(e) => status matches SearchStatus::Message(text) && text@ == error_text(e@),
            Ok(p) => if p.albums@.len() == 0 && page == 1 {
                status matches SearchStatus::Message(text) && text@ == "No results found."@
            } else {
                status is LoadMore
            },
        },
{
    match result {
        Err(e) => SearchStatus::Message(concat("Error: ", e.as_str())),
        Ok(p) => if p.albums.len() == 0 && page == 1 {
            SearchStatus::Message("No results found.".to_string())
        } else {
            SearchStatus::LoadMore
        },
    }
}

// ---------------------------------------------------------------------------
// The page of an album
// ---------------------------------------------------------------------------

/// A track on an album's page.
pub struct TrackRow {
    pub number: u32,
    pub name: String,
    /// The artists, where there are any.
    pub artists: Option<String>,
    pub duration: String,
}

/// The contents of a `TrackRow`.
pub struct TrackRowData {
    pub number: u32,
    pub name: Seq<char>,
    pub artists: Option<Seq<char>>,
    pub duration: Seq<char>,
}

impl View for TrackRow {
    type V = TrackRowData;

    open spec fn view(&self) -> TrackRowData {
        TrackRowData {
            number: self.number,
            name: self.name@,
            artists: opt_text(self.artists),
            duration: self.duration@,
        }
    }
}

/// The row of a track.
pub open spec fn row_of_track(t: Track) -> TrackRowData {
    let artists = joined(texts(t.artists@), ", "@);
    TrackRowData {
        number: t.track_number,
        name: t.name@,
        artists: if artists.len() == 0 {
            None
        } else {
            Some(artists)
        },
        duration: duration_text(t.duration_ms),
    }
}

/// Makes the row of a track.
pub fn track_row(t: &Track) -> (row: TrackRow)
    ensures
        row@ == row_of_track(*t),
{
    let artists = join(&t.artists, ", ");
    TrackRow {
        number: t.track_number,
        name: t.name.clone(),
        artists: if artists.as_str().is_empty() {
            None
        } else {
            Some(artists)
        },
        duration: format_duration(t.duration_ms),
    }
}

/// What an album's page shows.
pub enum AlbumView {
    /// A text.
    Message(String),
    /// The album and its tracks.
    Album { card: AlbumCard, tracks: Vec<TrackRow> },
}

/// What an album's page shows once the album was looked up.
pub fn album_view(detail: &Result<AlbumDetail, String>) -> (view: AlbumView)
    ensures
        match *detail {
            Err(e) => view matches AlbumView::Message(text) && text@ == error_text(e@),
            Ok(d) => view matches AlbumView::Album { card, tracks } && card@ == card_of(d.album@)
                && tracks@.map_values(|r: TrackRow| r@) == d.tracks@.map_values(
                |t: Track| row_of_track(t),
            ),
        },
{
    match detail {
        Err(e) => AlbumView::Message(concat("Error: ", e.as_str())),
        Ok(d) => {
            let mut tracks: Vec<TrackRow> = Vec::new();
            let mut i: usize = 0;
            while i < d.tracks.len()
                invariant
                    i <= d.tracks@.len(),
                    tracks@.len() == i,
                    forall|k: int|
                        0 <= k < i ==> (#[trigger] tracks@[k])@ == row_of_track(d.tracks@[k]),
                decreases d.tracks@.len() - i,
            {
                tracks.push(track_row(&d.tracks[i]));
                i = i + 1;
            }
            assert(tracks@.map_values(|r: TrackRow| r@) =~= d.tracks@.map_values(
                |t: Track| row_of_track(t),
            ));
            AlbumView::Album { card: album_card(&d.album), tracks }
        },
    }
}

/// The rating of an album on its page.
pub enum RatingWidget {
    /// A text in place of the rating.
    Message(&'static str),
    /// One dot for each possible rating, from 1 up; the dots up to the user's
    /// rating are active.
    Dots(Vec<bool>),
}

/// The highest rating.
pub const HIGHEST_RATING: u8 = 10;

/// Whether it is known that the request comes from a user.
pub open spec fn known_user(user: Option<Result<Option<String>, String>>) -> bool {
    user matches Some(Ok(Some(_)))
}

/// The user's rating as far as it is known; zero where it is not.
pub open spec fn known_rating(rating: Option<Result<Option<MyRating>, String>>) -> u8 {
    match rating {
        Some(Ok(Some(r))) => r.rating,
        _ => 0,
    }
}

/// Whether a new rating is the one that a click on a dot gives an album: the
/// review and the favorite track of the stored rating stay. Nothing is saved where
/// the stored rating could not be read.
pub open spec fn clicked(
    spotify_id: Seq<char>,
    dot: u8,
    stored: Result<Option<MyRating>, String>,
    new_rating: Option<NewRating>,
) -> bool {
    match stored {
        Err(_) => new_rating is None,
        Ok(stored) => new_rating matches Some(new) && new.spotify_id@ == spotify_id && new.rating
            == dot && opt_text(new.review) == (match stored {
            Some(r) => opt_text(r.review),
            None => None,
        }) && opt_text(new.favorite_track_id) == (match stored {
            Some(r) => opt_text(r.favorite_track_id),
            None => None,
        }),
    }
}

/// The rating to save for a click on a dot, beside the rating that is stored.
pub fn rating_click(
    spotify_id: &str,
    dot: u8,
    stored: Result<Option<MyRating>, String>,
) -> (new_rating: Option<NewRating>)
    ensures
        clicked(spotify_id@, dot, stored, new_rating),
{
    match stored {
        Err(_) => None,
        Ok(Some(r)) => Some(
            NewRating {
                spotify_id: spotify_id.to_string(),
                rating: dot,
                review: r.review,
                favorite_track_id: r.favorite_track_id,
            },
        ),
        Ok(None) => Some(
            NewRating {
                spotify_id: spotify_id.to_string(),
                rating: dot,
                review: None,
                favorite_track_id: None,
            },
        ),
    }
}

/// The rating of an album. `user` and `rating` are `None` until they are known.
pub fn rating_widget(
    user: &Option<Result<Option<String>, String>>,
    rating: &Option<Result<Option<MyRating>, String>>,
) -> (widget: RatingWidget)
    ensures
        if known_user(*user) {
            widget matches RatingWidget::Dots(dots) && dots@ == Seq::new(
                HIGHEST_RATING as nat,
                |i: int| known_rating(*rating) >= i + 1,
            )
        } else {
            widget matches RatingWidget::Message(text) && text@ == "Sign in to rate this album."@
        },
{
    match user {
        Some(Ok(Some(_))) => {
            let given: u8 = match rating {
                Some(Ok(Some(r))) => r.rating,
                _ => 0,
            };
            let mut dots: Vec<bool> = Vec::new();
            let mut dot: u8 = 1;
            while dot <= HIGHEST_RATING
                invariant
                    1 <= dot <= HIGHEST_RATING + 1,
                    dots@ =~= Seq::new((dot - 1) as nat, |i: int| given >= i + 1),
                decreases HIGHEST_RATING + 1 - dot,
            {
                dots.push(given >= dot);
                dot = dot + 1;
            }
            RatingWidget::Dots(dots)
        },
        _ => RatingWidget::Message("Sign in to rate this album."),
    }
}

// ---------------------------------------------------------------------------
// The page of a user
// ---------------------------------------------------------------------------

/// What a viewer can do on a user's page.
pub enum ProfileAction {
    /// Edit the profile, which is the viewer's own.
    Edit,
    /// Follow the user no longer.
    Unfollow,
    /// Follow the user.
    Follow,
}

/// What a user's page shows of the user.
pub struct ProfileCard {
    pub initial: String,
    pub username: String,
    /// The bio, unless it is empty.
    pub bio: Option<String>,
    /// The day on which the user joined.
    pub joined: String,
    pub follower_count: i64,
    pub following_count: i64,
    pub action: ProfileAction,
}

/// The contents of a `ProfileCard`.
pub struct ProfileCardData {
    pub initial: Seq<char>,
    pub username: Seq<char>,
    pub bio: Option<Seq<char>>,
    pub joined: Seq<char>,
    pub follower_count: i64,
    pub following_count: i64,
    pub action: ProfileAction,
}

impl View for ProfileCard {
    type V = ProfileCardData;

    open spec fn view(&self) -> ProfileCardData {
        ProfileCardData {
            initial: self.initial@,
            username: self.username@,
            bio: opt_text(self.bio),
            joined: self.joined@,
            follower_count: self.follower_count,
            following_count: self.following_count,
            action: self.action,
        }
    }
}

/// The initial of a name in upper case; a question mark for an empty name.
pub open spec fn initial_of(name: Seq<char>) -> Seq<char> {
    if name.len() == 0 {
        uppercase('?')
    } else {
        uppercase(name[0])
    }
}

/// A bio as it is shown: not at all where it is empty.
pub open spec fn shown_bio(bio: Option<Seq<char>>) -> Option<Seq<char>> {
    match bio {
        Some(b) => if b.len() == 0 {
            None
        } else {
            Some(b)
        },
        None => None,
    }
}

/// The day of a point in time, which its first ten bytes give.
pub open spec fn day_of(time: Seq<char>) -> Seq<char> {
    match byte_prefix(time, 10) {
        Some(day) => day,
        None => Seq::empty(),
    }
}

/// What a user's page shows of a profile.
pub open spec fn card_of_profile(p: UserProfile) -> ProfileCardData {
    ProfileCardData {
        initial: initial_of(p.username@),
        username: p.username@,
        bio: shown_bio(opt_text(p.bio)),
        joined: day_of(p.joined_at@),
        follower_count: p.follower_count,
        following_count: p.following_count,
        action: if p.is_self {
            ProfileAction::Edit
        } else if p.is_following {
            ProfileAction::Unfollow
        } else {
            ProfileAction::Follow
        },
    }
}

/// Makes what a user's page shows of a profile.
pub fn profile_card(p: &UserProfile) -> (card: ProfileCard)
    ensures
        card@ == card_of_profile(*p),
{
    let name = chars_of(p.username.as_str());
    let initial = if name.len() == 0 {
        to_uppercase('?')
    } else {
        to_uppercase(name[0])
    };
    let bio = match &p.bio {
        Some(b) => if b.as_str().is_empty() {
            None
        } else {
            Some(b.clone())
        },
        None => None,
    };
    let joined = match prefix_of_bytes(p.joined_at.as_str(), 10) {
        Some(day) => day,
        None => {
            let none = String::new();
            assert(none@ =~= Seq::<char>::empty());
            none
        },
    };
    ProfileCard {
        initial,
        username: p.username.clone(),
        bio,
        joined,
        follower_count: p.follower_count,
        following_count: p.following_count,
        action: if p.is_self {
            ProfileAction::Edit
        } else if p.is_following {
            ProfileAction::Unfollow
        } else {
            ProfileAction::Follow
        },
    }
}

/// What a user's page shows.
pub enum ProfileView {
    /// A text.
    Message(String),
    /// The user.
    Profile(ProfileCard),
}

/// What a user's page shows once the user was looked up.
pub fn profile_view(profile: &Result<Option<UserProfile>, String>) -> (view: ProfileView)
    ensures
        match *profile {
            Err(e) => view matches ProfileView::Message(text) && text@ == error_text(e@),
            Ok(None) => view matches ProfileView::Message(text) && text@ == "User not found."@,
            Ok(Some(p)) => view matches ProfileView::Profile(card) && card@ == card_of_profile(p),
        },
{
    match profile {
        Err(e) => ProfileView::Message(concat("Error: ", e.as_str())),
        Ok(None) => ProfileView::Message("User not found.".to_string()),
        Ok(Some(p)) => ProfileView::Profile(profile_card(p)),
    }
}

/// The form in which a user edits their profile.
pub struct EditForm {
    pub open: bool,
    pub username: String,
    pub bio: String,
    pub error: Option<String>,
}

impl EditForm {
    /// The form before it was opened.
    pub fn new() -> (form: EditForm)
        ensures
            !form.open,
            form.username@.len() == 0,
            form.bio@.len() == 0,
            form.error is None,
    {
        EditForm { open: false, username: String::new(), bio: String::new(), error: None }
    }

    /// Opens the form with the user's name and bio.
    pub fn start(&mut self, username: String, bio: Option<String>)
        ensures
            final(self).open,
            final(self).username@ == username@,
            final(self).bio@ == (match bio {
                Some(b) => b@,
                None => Seq::empty(),
            }),
            final(self).error is None,
    {
        self.username = username;
        self.bio = match bio {
            Some(b) => b,
            None => {
                let none = String::new();
                assert(none@ =~= Seq::<char>::empty());
                none
            },
        };
        self.error = None;
        self.open = true;
    }

    /// Closes the form.
    pub fn cancel(&mut self)
        ensures
            !final(self).open,
            final(self).username == old(self).username,
            final(self).bio == old(self).bio,
            final(self).error == old(self).error,
    {
        self.open = false;
    }

    /// Takes the outcome of saving: the form closes, or it shows why it could
    /// not be saved. The result tells whether the profile is to be fetched anew.
    pub fn saved(&mut self, outcome: Result<(), String>) -> (changed: bool)
        ensures
            changed == (outcome is Ok),
            final(self).username == old(self).username,
            final(self).bio == old(self).bio,
            match outcome {
                Ok(_) => !final(self).open && final(self).error == old(self).error,
                Err(e) => final(self).open == old(self).open && final(self).error == Some(e),
            },
    {
        match outcome {
            Ok(_) => {
                self.open = false;
                true
            },
            Err(e) => {
                self.error = Some(e);
                false
            },
        }
    }
}

/// A rated album on a user's page.
pub struct RatingCard {
    pub card: AlbumCard,
    pub rating: u8,
}

/// The card of a rated album.
pub open spec fn card_of_rating(r: UserRating) -> (AlbumCardData, u8) {
    (
        card_data(r.spotify_id@, r.title@, texts(r.artists@), r.album_type@, r.release_year),
        r.rating,
    )
}

/// Makes the card of a rated album.
pub fn rating_card(r: &UserRating) -> (card: RatingCard)
    ensures
        (card.card@, card.rating) == card_of_rating(*r),
{
    RatingCard {
        card: AlbumCard {
            cover_src: concat("/album-art/", r.spotify_id.as_str()),
            href: concat("/album/", r.spotify_id.as_str()),
            title: r.title.clone(),
            artists: join(&r.artists, ", "),
            album_type: r.album_type.clone(),
            year: format_year(r.release_year),
        },
        rating: r.rating,
    }
}

/// What a user's page shows of the user's ratings.
pub enum RatingsView {
    /// A text.
    Message(String),
    /// The rated albums.
    List(Vec<RatingCard>),
}

/// What a user's page shows of the user's ratings once they were looked up.
pub fn ratings_view(ratings: &Result<Vec<UserRating>, String>) -> (view: RatingsView)
    ensures
        match *ratings {
            Err(e) => view matches RatingsView::Message(text) && text@ == error_text(e@),
            Ok(rs) => if rs@.len() == 0 {
                view matches RatingsView::Message(text) && text@ == "No ratings yet."@
            } else {
                view matches RatingsView::List(cards) && cards@.map_values(
                    |c: RatingCard| (c.card@, c.rating),
                ) == rs@.map_values(|r: UserRating| card_of_rating(r))
            },
        },
{
    match ratings {
        Err(e) => RatingsView::Message(concat("Error: ", e.as_str())),
        Ok(rs) => {
            if rs.len() == 0 {
                return RatingsView::Message("No ratings yet.".to_string());
            }
            let mut cards: Vec<RatingCard> = Vec::new();
            let mut i: usize = 0;
            while i < rs.len()
                invariant
                    i <= rs@.len(),
                    cards@.len() == i,
                    forall|k: int|
                        0 <= k < i ==> ((#[trigger] cards@[k]).card@, cards@[k].rating)
                            == card_of_rating(rs@[k]),
                decreases rs@.len() - i,
            {
                cards.push(rating_card(&rs[i]));
                i = i + 1;
            }
            assert(cards@.map_values(|c: RatingCard| (c.card@, c.rating)) =~= rs@.map_values(
                |r: UserRating| card_of_rating(r),
            ));
            RatingsView::List(cards)
        },
    }
}

// ---------------------------------------------------------------------------
// Laws
// ---------------------------------------------------------------------------

/// The value of a hexadecimal digit.
pub open spec fn hex_value(c: char) -> Option<nat> {
    if '0' <= c <= '9' {
        Some((c as u32 - 48) as nat)
    } else if 'A' <= c <= 'F' {
        Some((c as u32 - 55) as nat)
    } else if 'a' <= c <= 'f' {
        Some((c as u32 - 87) as nat)
    } else {
        None
    }
}

/// What a browser or a server reads in an encoded query, as far as percent codes
/// of ASCII characters go: a plus sign is a space, a percent sign and two
/// hexadecimal digits are the character with that number.
pub open spec fn decoded(s: Seq<char>) -> Seq<char>
    decreases s.len(),
{
    if s.len() == 0 {
        Seq::empty()
    } else if s[0] == '+' {
        seq![' '] + decoded(s.drop_first())
    } else if s[0] == '%' && s.len() >= 3 && hex_value(s[1]) is Some && hex_value(s[2]) is Some {
        seq![(16 * hex_value(s[1])->0 + hex_value(s[2])->0) as u8 as char] + decoded(s.skip(3))
    } else {
        seq![s[0]] + decoded(s.drop_first())
    }
}

/// Decoding an encoded query gives the query back.
pub proof fn law_encoding_round_trip(s: Seq<char>)
    ensures
        decoded(encoded(s)) == s,
    decreases s.len(),
{
    if s.len() > 0 {
        let rest = encoded(s.drop_first());
        let all = encoded(s);
        law_encoding_round_trip(s.drop_first());
        assert(s =~= seq![s[0]] + s.drop_first());
        if encoded_char(s[0]).len() == 3 {
            assert(all.skip(3) =~= rest);
            assert(all[0] == '%');
            assert(all[1] == encoded_char(s[0])[1]);
            assert(all[2] == encoded_char(s[0])[2]);
        } else {
            assert(all.drop_first() =~= rest);
            assert(all[0] == encoded_char(s[0])[0]);
        }
    }
}

/// An encoded query holds none of the characters that would end it in a URL.
pub proof fn law_encoded_is_one_value(s: Seq<char>)
    ensures
        forall|i: int|
            0 <= i < encoded(s).len() ==> (#[trigger] encoded(s)[i]) != '&' && encoded(s)[i] != '#'
                && encoded(s)[i] != ' ',
    decreases s.len(),
{
    if s.len() > 0 {
        let first = encoded_char(s[0]);
        let rest = encoded(s.drop_first());
        law_encoded_is_one_value(s.drop_first());
        assert forall|i: int| 0 <= i < encoded(s).len() implies (#[trigger] encoded(s)[i]) != '&'
            && encoded(s)[i] != '#' && encoded(s)[i] != ' ' by {
            if i < first.len() {
                assert(encoded(s)[i] == first[i]);
            } else {
                assert(encoded(s)[i] == rest[i - first.len()]);
            }
        }
    }
}

/// The albums that the start page shows after it has fetched `pages`, from the
/// first on.
pub open spec fn shown_after(pages: Seq<Seq<SpotifyAlbum>>) -> Seq<SpotifyAlbum>
    decreases pages.len(),
{
    if pages.len() == 0 {
        Seq::empty()
    } else {
        after_page(shown_after(pages.drop_last()), pages.len() as u32, pages.last())
    }
}

/// The start page shows the albums of all pages that it has fetched, in order.
pub proof fn law_pages_accumulate(pages: Seq<Seq<SpotifyAlbum>>)
    requires
        pages.len() <= u32::MAX,
    ensures
        shown_after(pages) == pages.flatten(),
    decreases pages.len(),
{
    if pages.len() == 0 {
        assert(pages.flatten() =~= Seq::<SpotifyAlbum>::empty());
    } else {
        let before = pages.drop_last();
        law_pages_accumulate(before);
        pages.lemma_flatten_and_flatten_alt_are_equivalent();
        before.lemma_flatten_and_flatten_alt_are_equivalent();
        assert(pages.flatten_alt() == before.flatten_alt() + pages.last());
        if pages.len() == 1 {
            assert(before.flatten() =~= Seq::<SpotifyAlbum>::empty());
            assert(before.flatten() + pages.last() =~= pages.last());
        }
    }
}

/// Seconds are shown in two digits.
proof fn lemma_two_digits(n: nat)
    requires
        n < 60,
    ensures
        two_digits(n).len() == 2,
        digits_value(two_digits(n)) == n,
{
    reveal_strlit("0");
    reveal_with_fuel(decimal, 3);
    reveal_with_fuel(digits_value, 3);
    law_decimal_round_trip(n);
    if n < 10 {
        assert(two_digits(n).drop_last() =~= seq!['0']);
        assert(two_digits(n).last() == decimal(n).last());
        assert(seq!['0'].drop_last() =~= Seq::<char>::empty());
    }
}

/// Durations read the same only if they have the same number of whole seconds.
pub proof fn law_duration_identifies_seconds(a: u32, b: u32)
    requires
        duration_text(Some(a)) == duration_text(Some(b)),
    ensures
        a / 1000 == b / 1000,
{
    reveal_strlit(":");
    let text = duration_text(Some(a));
    let minutes = text.take(text.len() - 3);
    let seconds = text.skip(text.len() - 2);
    lemma_two_digits((a / 1000 % 60) as nat);
    lemma_two_digits((b / 1000 % 60) as nat);
    assert(minutes =~= decimal((a / 1000 / 60) as nat));
    assert(minutes =~= decimal((b / 1000 / 60) as nat));
    assert(seconds =~= two_digits((a / 1000 % 60) as nat));
    assert(seconds =~= two_digits((b / 1000 % 60) as nat));
    law_decimal_injective((a / 1000 / 60) as nat, (b / 1000 / 60) as nat);
}

/// Queries are encoded in parts.
proof fn lemma_encoded_in_parts(a: Seq<char>, b: Seq<char>)
    ensures
        encoded(a + b) == encoded(a) + encoded(b),
    decreases a.len(),
{
    if a.len() == 0 {
        assert(a + b =~= b);
        assert(encoded(a) + encoded(b) =~= encoded(b));
    } else {
        lemma_encoded_in_parts(a.drop_first(), b);
        assert((a + b).drop_first() =~= a.drop_first() + b);
        assert(encoded(a + b) =~= encoded(a) + encoded(b));
    }
}

/// A query is encoded character by character: a space as a plus sign, the
/// characters that mean something in a URL as a percent sign and their number in
/// hexadecimal, and every other as itself.
pub proof fn law_encoding_by_character(
    a: &str,
    b: &str,
    both: &str,
    one: &str,
    of_a: String,
    of_b: String,
    of_both: String,
    of_one: String,
)
    requires
        both@ == a@ + b@,
        one@.len() == 1,
        call_ensures(url_encode_query, (a,), of_a),
        call_ensures(url_encode_query, (b,), of_b),
        call_ensures(url_encode_query, (both,), of_both),
        call_ensures(url_encode_query, (one,), of_one),
    ensures
        of_both@ == of_a@ + of_b@,
        ({
            let c = one@[0];
            if c == ' ' {
                of_one@ == seq!['+']
            } else if c == '%' || c == '&' || c == '#' || c == '+' {
                of_one@.len() == 3 && of_one@[0] == '%' && hex_value(of_one@[1]) is Some && hex_value(
                    of_one@[2],
                ) is Some && 16 * hex_value(of_one@[1])->0 + hex_value(of_one@[2])->0 == c as u32
            } else {
                of_one@ == one@
            }
        }),
        decoded(of_both@) == both@,
{
    lemma_encoded_in_parts(a@, b@);
    law_encoding_round_trip(both@);
    reveal_with_fuel(encoded, 2);
    let c = one@[0];
    assert(one@.drop_first() =~= Seq::<char>::empty());
    assert(of_one@ =~= encoded_char(c));
    assert(one@ =~= seq![c]);
}

/// Hexadecimal digits have the values 0 to 15.
pub proof fn law_hexadecimal_digits()
    ensures
        forall|c: char| '0' <= c <= '9' ==> #[trigger] hex_value(c) == Some((c as u32 - 48) as nat),
        forall|c: char|
            'A' <= c <= 'F' ==> #[trigger] hex_value(c) == Some((c as u32 - 65 + 10) as nat),
        forall|c: char|
            'a' <= c <= 'f' ==> #[trigger] hex_value(c) == Some((c as u32 - 97 + 10) as nat),
{
}

/// A search leads to the results of its query; a blank one leads to the start page,
/// is not searched for and shows no results.
pub proof fn law_where_a_search_leads(
    query: &str,
    code: String,
    url: String,
    page: Option<SearchPage>,
    shown: bool,
)
    requires
        call_ensures(url_encode_query, (query,), code),
        call_ensures(search_destination, (query,), url),
        call_ensures(blank_page, (query,), page),
        call_ensures(shows_results, (query,), shown),
    ensures
        ({
            let blank = forall|i: int| 0 <= i < query@.len() ==> white(#[trigger] query@[i]);
            &&& url@ == if blank {
                "/"@
            } else {
                "/?q="@ + code@
            }
            &&& shown <==> !blank
            &&& page is Some <==> blank
            &&& page matches Some(p) ==> p.albums@.len() == 0 && p.total == 0
        }),
{
    law_trimmed_keeps_the_rest(query@);
}

/// A duration is written in whole minutes and the remaining whole seconds, the
/// latter in two digits, with a colon between them; nothing where it is not known.
pub proof fn law_duration_text(ms: Option<u32>, text: String)
    requires
        call_ensures(format_duration, (ms,), text),
    ensures
        ms is None ==> text@.len() == 0,
        ms matches Some(v) ==> {
            let n = text@.len() as int;
            &&& n >= 4
            &&& text@[n - 3] == ':'
            &&& forall|i: int| 0 <= i < n && i != n - 3 ==> '0' <= #[trigger] text@[i] <= '9'
            &&& digits_value(text@.take(n - 3)) == v as int / 60000
            &&& digits_value(text@.skip(n - 2)) == v as int / 1000 % 60
            &&& n > 4 ==> text@[0] != '0'
        },
{
    if let Some(v) = ms {
        reveal_strlit(":");
        reveal_strlit("0");
        let m = (v / 1000 / 60) as nat;
        let s = (v / 1000 % 60) as nat;
        let minutes = decimal(m);
        let seconds = two_digits(s);
        let n = text@.len() as int;
        lemma_two_digits(s);
        law_decimal_round_trip(m);
        law_decimal_round_trip(s);
        assert(text@.take(n - 3) =~= minutes);
        assert(text@.skip(n - 2) =~= seconds);
        assert(v as int / 1000 / 60 == v as int / 60000);
        assert forall|i: int| 0 <= i < n && i != n - 3 implies '0' <= #[trigger] text@[i]
            <= '9' by {
            if i < n - 3 {
                assert(is_digit(minutes[i]));
            } else if s >= 10 {
                assert(is_digit(decimal(s)[i - (n - 2)]));
            } else {
                assert(decimal(s).len() == 1);
                assert(is_digit(decimal(s)[0]));
            }
        }
        lemma_first_digit(m);
    }
}

/// A number of two digits or more does not begin with a zero.
proof fn lemma_first_digit(n: nat)
    ensures
        decimal(n).len() > 0,
        n > 0 ==> decimal(n)[0] != '0',
        n < 10 ==> decimal(n).len() == 1,
    decreases n,
{
    if n >= 10 {
        lemma_first_digit(n / 10);
    }
}

/// A year is written in decimal; an unknown one as four question marks.
pub proof fn law_year_text(year: Option<u32>, text: String)
    requires
        call_ensures(format_year, (year,), text),
    ensures
        year is None ==> text@ == "????"@,
        year matches Some(y) ==> text@.len() > 0 && digits_value(text@) == y && (text@.len() > 1
            ==> text@[0] != '0') && forall|i: int|
            0 <= i < text@.len() ==> '0' <= #[trigger] text@[i] <= '9',
{
    if let Some(y) = year {
        law_decimal_round_trip(y as nat);
        lemma_first_digit(y as nat);
        assert forall|i: int| 0 <= i < text@.len() implies '0' <= #[trigger] text@[i] <= '9' by {
            assert(is_digit(decimal(y as nat)[i]));
        }
    }
}

/// The card of an album shows its title and type as they are, its artists with
/// commas between them and its year, and leads to the album's own page and cover.
pub proof fn law_album_card(
    album: SpotifyAlbum,
    artists: String,
    year: String,
    card: AlbumCard,
)
    requires
        call_ensures(join, (&album.artists, ", "), artists),
        call_ensures(format_year, (album.release_year,), year),
        call_ensures(album_card, (&album,), card),
    ensures
        card.cover_src@ == "/album-art/"@ + album.spotify_id@,
        card.href@ == "/album/"@ + album.spotify_id@,
        card.title@ == album.title@,
        card.artists@ == artists@,
        card.album_type@ == album.album_type@,
        card.year@ == year@,
{
}

/// The card of a rated album shows the same of it, and the rating.
pub proof fn law_rating_card(
    rating: UserRating,
    artists: String,
    year: String,
    card: RatingCard,
)
    requires
        call_ensures(join, (&rating.artists, ", "), artists),
        call_ensures(format_year, (rating.release_year,), year),
        call_ensures(rating_card, (&rating,), card),
    ensures
        card.card.cover_src@ == "/album-art/"@ + rating.spotify_id@,
        card.card.href@ == "/album/"@ + rating.spotify_id@,
        card.card.title@ == rating.title@,
        card.card.artists@ == artists@,
        card.card.album_type@ == rating.album_type@,
        card.card.year@ == year@,
        card.rating == rating.rating,
{
}

/// A list of albums has a card for each, in their order.
pub proof fn law_album_cards(
    albums: Vec<SpotifyAlbum>,
    cards: Vec<AlbumCard>,
    i: int,
    card: AlbumCard,
)
    requires
        call_ensures(album_cards, (&albums,), cards),
        0 <= i < albums@.len(),
        call_ensures(album_card, (&albums@[i],), card),
    ensures
        cards@.len() == albums@.len(),
        cards@[i]@ == card@,
        cards@[i].title@ == albums@[i].title@,
        cards@[i].href@ == "/album/"@ + albums@[i].spotify_id@,
        cards@[i].cover_src@ == "/album-art/"@ + albums@[i].spotify_id@,
        cards@[i].album_type@ == albums@[i].album_type@,
        cards@[i].year@ == card.year@,
        cards@[i].artists@ == card.artists@,
{
    assert(cards_data(cards@).len() == cards@.len());
    assert(albums_data(albums@).len() == albums@.len());
    assert(cards_data(cards@)[i] == cards@[i]@);
    assert(albums_data(albums@)[i] == albums@[i]@);
}

/// A list of no albums has no cards.
pub proof fn law_no_cards_without_albums(albums: Vec<SpotifyAlbum>, cards: Vec<AlbumCard>)
    requires
        call_ensures(album_cards, (&albums,), cards),
    ensures
        cards@.len() == albums@.len(),
{
    assert(cards_data(cards@).len() == cards@.len());
    assert(albums_data(albums@).len() == albums@.len());
}

/// The header greets the user by name, with a link to their page, and offers
/// everybody else to sign in.
pub proof fn law_header(user: Result<Option<String>, String>, view: HeaderView)
    requires
        call_ensures(header_view, (&user,), view),
    ensures
        user is Ok && user->Ok_0 is Some ==> view is SignedIn && view->href@ == "/user/"@
            + user->Ok_0->0@ && view->username@ == user->Ok_0->0@,
        user is Err || user->Ok_0 is None ==> view is SignedOut,
{
}

/// The start page begins with the first page and no albums.
pub proof fn law_new_home(state: HomeState)
    requires
        call_ensures(HomeState::new, (), state),
    ensures
        state.query is None,
        state.page == 1,
        state.albums@.len() == 0,
{
}

/// Another query begins anew with its first page; the same query changes nothing.
pub proof fn law_home_takes_a_query(state: &mut HomeState, query: String, out: ())
    requires
        call_ensures(HomeState::set_query, (state, query), out),
    ensures
        final(state).query is Some && final(state).query->0@ == query@,
        old(state).query is Some && old(state).query->0@ == query@ ==> final(state).page
            == old(state).page && final(state).albums@ == old(state).albums@,
        old(state).query is None || old(state).query->0@ != query@ ==> final(state).page == 1
            && final(state).albums@.len() == 0,
{
}

/// The next page is the one behind the last; what is shown stays until it comes.
pub proof fn law_home_asks_for_more(state: &mut HomeState, out: ())
    requires
        old(state).page < u32::MAX,
        call_ensures(HomeState::load_more, (state,), out),
    ensures
        final(state).page == old(state).page + 1,
        final(state).query == old(state).query,
        final(state).albums@ == old(state).albums@,
{
}

/// The first page replaces what is shown, and a later one goes behind it.
pub proof fn law_home_takes_a_page(state: &mut HomeState, fetched: Vec<SpotifyAlbum>, out: ())
    requires
        call_ensures(HomeState::accept, (state, fetched), out),
    ensures
        final(state).page == old(state).page,
        final(state).query == old(state).query,
        old(state).page == 1 ==> final(state).albums@ == fetched@,
        old(state).page != 1 ==> final(state).albums@ == old(state).albums@ + fetched@,
{
}

/// Below the results stands that the search goes on, that there are none, why it
/// failed, or the button for more.
pub proof fn law_status_below_results(
    albums: Vec<SpotifyAlbum>,
    waiting: &'static str,
    result: Result<SearchPage, String>,
    page: u32,
    status: SearchStatus,
)
    requires
        call_ensures(waiting_text, (&albums,), waiting),
        call_ensures(search_status, (&result, page), status),
    ensures
        albums@.len() == 0 ==> waiting@ == "Searching..."@,
        albums@.len() > 0 ==> waiting@ == "Loading..."@,
        result matches Err(e) ==> status is Message && status->Message_0@ == "Error: "@ + e@,
        result matches Ok(p) ==> {
            &&& p.albums@.len() == 0 && page == 1 ==> status is Message && status->Message_0@
                == "No results found."@
            &&& p.albums@.len() > 0 || page != 1 ==> status is LoadMore
        },
{
}

/// A track's row shows its number and name as they are, its artists with commas
/// between them, unless there is nothing to show of them, and its duration.
pub proof fn law_track_row(t: Track, artists: String, duration: String, row: TrackRow)
    requires
        call_ensures(join, (&t.artists, ", "), artists),
        call_ensures(format_duration, (t.duration_ms,), duration),
        call_ensures(track_row, (&t,), row),
    ensures
        row.number == t.track_number,
        row.name@ == t.name@,
        artists@.len() == 0 ==> row.artists is None,
        artists@.len() > 0 ==> row.artists is Some && row.artists->0@ == artists@,
        row.duration@ == duration@,
{
}

/// An album's page shows the album's card and a row for each of its tracks, in
/// their order, or why the album could not be had.
pub proof fn law_album_page(
    detail: Result<AlbumDetail, String>,
    view: AlbumView,
    card: AlbumCard,
    i: int,
    row: TrackRow,
)
    requires
        call_ensures(album_view, (&detail,), view),
        detail matches Ok(d) ==> call_ensures(album_card, (&d.album,), card) && (0 <= i
            < d.tracks@.len() ==> call_ensures(track_row, (&d.tracks@[i],), row)),
    ensures
        detail matches Err(e) ==> view is Message && view->Message_0@ == "Error: "@ + e@,
        detail matches Ok(d) ==> {
            &&& view is Album
            &&& view->card@ == card@
            &&& view->tracks@.len() == d.tracks@.len()
            &&& 0 <= i < d.tracks@.len() ==> view->tracks@[i]@ == row@
        },
{
    if let Ok(d) = detail {
        let shown = view->tracks@;
        let data = shown.map_values(|r: TrackRow| r@);
        let wanted = d.tracks@.map_values(|t: Track| row_of_track(t));
        assert(data == wanted);
        assert(data.len() == shown.len());
        if 0 <= i < d.tracks@.len() {
            assert(data[i] == shown[i]@);
            assert(wanted[i] == row_of_track(d.tracks@[i]));
        }
    }
}

/// The contents of cards and rows are their own.
pub proof fn law_card_contents(card: AlbumCard, row: TrackRow, profile: ProfileCard)
    ensures
        card@.cover_src == card.cover_src@ && card@.href == card.href@ && card@.title
            == card.title@,
        card@.artists == card.artists@ && card@.album_type == card.album_type@ && card@.year
            == card.year@,
        row@.number == row.number && row@.name == row.name@ && row@.duration == row.duration@,
        row.artists is None ==> row@.artists is None,
        row.artists matches Some(a) ==> row@.artists == Some(a@),
        profile@.initial == profile.initial@ && profile@.username == profile.username@,
        profile@.joined == profile.joined@ && profile@.action == profile.action,
        profile@.follower_count == profile.follower_count && profile@.following_count
            == profile.following_count,
        profile.bio is None ==> profile@.bio is None,
        profile.bio matches Some(b) ==> profile@.bio == Some(b@),
{
}

/// A user sees ten dots, of which as many are active as their rating says, and none
/// where there is no rating yet; everybody else is asked to sign in.
pub proof fn law_rating_dots(
    user: Option<Result<Option<String>, String>>,
    rating: Option<Result<Option<MyRating>, String>>,
    widget: RatingWidget,
)
    requires
        call_ensures(rating_widget, (&user, &rating), widget),
    ensures
        user matches Some(Ok(Some(name))) ==> widget is Dots && widget->Dots_0@.len() == 10 && forall|
            i: int,
        |
            0 <= i < 10 ==> (#[trigger] widget->Dots_0@[i] <==> (rating matches Some(Ok(Some(r)))
                && i < r.rating)),
        !(user matches Some(Ok(Some(name)))) ==> widget is Message && widget->Message_0@
            == "Sign in to rate this album."@,
{
}

/// A click on a dot rates the album with that dot, and keeps the review and the
/// favorite track that are stored; where they could not be read nothing is saved.
pub proof fn law_click_keeps_the_rest(
    spotify_id: &str,
    dot: u8,
    stored: Result<Option<MyRating>, String>,
    new_rating: Option<NewRating>,
)
    requires
        call_ensures(rating_click, (spotify_id, dot, stored), new_rating),
    ensures
        stored is Err ==> new_rating is None,
        stored is Ok ==> new_rating is Some && new_rating->0.spotify_id@ == spotify_id@
            && new_rating->0.rating == dot,
        stored matches Ok(Some(r)) ==> {
            &&& r.review matches Some(text) ==> new_rating->0.review is Some
                && new_rating->0.review->0@ == text@
            &&& r.review is None ==> new_rating->0.review is None
            &&& r.favorite_track_id matches Some(id) ==> new_rating->0.favorite_track_id is Some
                && new_rating->0.favorite_track_id->0@ == id@
            &&& r.favorite_track_id is None ==> new_rating->0.favorite_track_id is None
        },
        stored matches Ok(None) ==> new_rating->0.review is None
            && new_rating->0.favorite_track_id is None,
{
}

/// A user's page shows the name and its initial in upper case, the bio unless it is
/// empty, the day of joining, the numbers of followers and followed users, and what
/// the viewer can do: edit the own profile, or follow another user or no longer.
pub proof fn law_profile_card(
    p: UserProfile,
    initial: String,
    joined_at: &str,
    day: Option<String>,
    card: ProfileCard,
)
    requires
        p.username@.len() > 0 ==> call_ensures(to_uppercase, (p.username@[0],), initial),
        joined_at@ == p.joined_at@,
        call_ensures(prefix_of_bytes, (joined_at, 10u32), day),
        call_ensures(profile_card, (&p,), card),
    ensures
        p.username@.len() > 0 ==> card.initial@ == initial@,
        p.username@.len() == 0 ==> card.initial@ == seq!['?'],
        card.username@ == p.username@,
        p.bio is None || p.bio->0@.len() == 0 ==> card.bio is None,
        p.bio is Some && p.bio->0@.len() > 0 ==> card.bio is Some && card.bio->0@ == p.bio->0@,
        day matches Some(d) ==> card.joined@ == d@,
        day is None ==> card.joined@.len() == 0,
        card.follower_count == p.follower_count,
        card.following_count == p.following_count,
        card.action is Edit <==> p.is_self,
        card.action is Unfollow <==> !p.is_self && p.is_following,
        card.action is Follow <==> !p.is_self && !p.is_following,
{
}

/// A user's page shows the user's card, that there is no such user, or why the user
/// could not be had.
pub proof fn law_profile_page(
    profile: Result<Option<UserProfile>, String>,
    card: ProfileCard,
    view: ProfileView,
)
    requires
        call_ensures(profile_view, (&profile,), view),
        profile matches Ok(Some(p)) ==> call_ensures(profile_card, (&p,), card),
    ensures
        profile matches Err(e) ==> view is Message && view->Message_0@ == "Error: "@ + e@,
        profile matches Ok(None) ==> view is Message && view->Message_0@ == "User not found."@,
        profile matches Ok(Some(p)) ==> view is Profile && view->Profile_0@ == card@,
{
}

/// The ratings on a user's page are a card for each, in their order, a word where
/// there are none, or why they could not be had.
pub proof fn law_ratings_page(
    ratings: Result<Vec<UserRating>, String>,
    view: RatingsView,
    i: int,
    card: RatingCard,
)
    requires
        call_ensures(ratings_view, (&ratings,), view),
        ratings matches Ok(rs) ==> (0 <= i < rs@.len() ==> call_ensures(
            rating_card,
            (&rs@[i],),
            card,
        )),
    ensures
        ratings matches Err(e) ==> view is Message && view->Message_0@ == "Error: "@ + e@,
        ratings matches Ok(rs) ==> {
            &&& rs@.len() == 0 ==> view is Message && view->Message_0@ == "No ratings yet."@
            &&& rs@.len() > 0 ==> view is List && view->List_0@.len() == rs@.len()
            &&& 0 <= i < rs@.len() ==> view->List_0@[i].card@ == card.card@ && view->List_0@[i].rating
                == rs@[i].rating
        },
{
    if let Ok(rs) = ratings {
        if rs@.len() > 0 {
            let shown = view->List_0@;
            let data = shown.map_values(|c: RatingCard| (c.card@, c.rating));
            let wanted = rs@.map_values(|r: UserRating| card_of_rating(r));
            assert(data == wanted);
            assert(data.len() == shown.len());
            if 0 <= i < rs@.len() {
                assert(data[i] == (shown[i].card@, shown[i].rating));
                assert(wanted[i] == card_of_rating(rs@[i]));
            }
        }
    }
}

/// The form is closed and empty before it is opened.
pub proof fn law_new_form(form: EditForm)
    requires
        call_ensures(EditForm::new, (), form),
    ensures
        !form.open,
        form.username@.len() == 0,
        form.bio@.len() == 0,
        form.error is None,
{
}

/// The form opens with the user's name and bio, and without an error.
pub proof fn law_form_opens(form: &mut EditForm, username: String, bio: Option<String>, out: ())
    requires
        call_ensures(EditForm::start, (form, username, bio), out),
    ensures
        final(form).open,
        final(form).username@ == username@,
        bio matches Some(b) ==> final(form).bio@ == b@,
        bio is None ==> final(form).bio@.len() == 0,
        final(form).error is None,
{
}

/// Closing the form changes nothing else.
pub proof fn law_form_closes(form: &mut EditForm, out: ())
    requires
        call_ensures(EditForm::cancel, (form,), out),
    ensures
        !final(form).open,
        final(form).username == old(form).username,
        final(form).bio == old(form).bio,
        final(form).error == old(form).error,
{
}

/// Once the profile was saved the form closes and the profile is fetched anew;
/// otherwise the form stays and shows why. What was typed stays either way.
pub proof fn law_form_is_saved(form: &mut EditForm, outcome: Result<(), String>, changed: bool)
    requires
        call_ensures(EditForm::saved, (form, outcome), changed),
    ensures
        changed <==> outcome is Ok,
        final(form).username == old(form).username,
        final(form).bio == old(form).bio,
        outcome is Ok ==> !final(form).open && final(form).error == old(form).error,
        outcome matches Err(e) ==> final(form).open == old(form).open && final(form).error
            == Some(e),
{
}

} // verus!
