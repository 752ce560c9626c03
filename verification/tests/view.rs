use musicboxd::catalog::{AlbumDetail, SearchPage, SpotifyAlbum, Track};
use musicboxd::profile::UserProfile;
use musicboxd::ratings::{MyRating, UserRating};
use musicboxd::view::{
    album_card, album_cards, album_view, blank_page, format_duration, format_year, header_view,
    profile_view, rating_click, rating_widget, ratings_view, search_destination, search_status,
    shows_results, url_encode_query, waiting_text, AlbumView, EditForm, HeaderView, HomeState, ProfileAction,
    ProfileCard, ProfileView, RatingWidget, RatingsView, SearchStatus,
};

fn album(id: &str) -> SpotifyAlbum {
    SpotifyAlbum {
        spotify_id: id.to_string(),
        title: format!("Title {id}"),
        artists: vec!["A".to_string(), "B".to_string()],
        album_type: "album".to_string(),
        release_year: Some(1977),
        has_cover_art: false,
    }
}

fn track(number: u32, artists: Vec<String>) -> Track {
    Track {
        track_id: format!("t{number}"),
        disc_number: 1,
        track_number: number,
        name: format!("Track {number}"),
        artists,
        duration_ms: Some(61_999),
    }
}

fn page(ids: &[&str]) -> SearchPage {
    SearchPage { albums: ids.iter().map(|id| album(id)).collect(), total: 50 }
}

fn ids(state: &HomeState) -> Vec<&str> {
    state.albums.iter().map(|a| a.spotify_id.as_str()).collect()
}

#[test]
fn queries_are_encoded_for_urls() {
    assert_eq!(url_encode_query("dark side"), "dark+side");
    assert_eq!(url_encode_query("a%b&c#d+e f"), "a%25b%26c%23d%2Be+f");
    assert_eq!(url_encode_query("%2B"), "%252B");
    assert_eq!(url_encode_query("björk?=/"), "björk?=/");
    assert_eq!(url_encode_query(""), "");
    for s in ["", "100% + &#", "a b  c", "%25", "+ +", "é%é"] {
        let replaced = s
            .replace('%', "%25")
            .replace('&', "%26")
            .replace('#', "%23")
            .replace('+', "%2B")
            .replace(' ', "+");
        assert_eq!(url_encode_query(s), replaced);
    }
}

#[test]
fn encoded_queries_decode_again() {
    for s in ["dark side", "100% + &#", "%2B", "a=b", " + "] {
        let url = format!("http://x/?q={}", url_encode_query(s));
        let url = reqwest::Url::parse(&url).unwrap();
        let pairs: Vec<(String, String)> = url.query_pairs().into_owned().collect();
        assert_eq!(pairs, vec![("q".to_string(), s.to_string())]);
    }
}

#[test]
fn a_search_leads_to_its_query() {
    assert_eq!(search_destination("dark side"), "/?q=dark+side");
    assert_eq!(search_destination(""), "/");
    assert_eq!(search_destination(" \t "), "/");
    assert_eq!(search_destination(" x"), "/?q=+x");
}

#[test]
fn durations_show_minutes_and_seconds() {
    assert_eq!(format_duration(None), "");
    assert_eq!(format_duration(Some(0)), "0:00");
    assert_eq!(format_duration(Some(999)), "0:00");
    assert_eq!(format_duration(Some(61_999)), "1:01");
    assert_eq!(format_duration(Some(600_000)), "10:00");
    assert_eq!(format_duration(Some(3_599_000)), "59:59");
    assert_eq!(format_duration(Some(u32::MAX)), "71582:47");
}

#[test]
fn unknown_years_are_question_marks() {
    assert_eq!(format_year(Some(1977)), "1977");
    assert_eq!(format_year(None), "????");
}

#[test]
fn cards_show_albums() {
    let card = album_card(&album("x"));
    assert_eq!(card.cover_src, "/album-art/x");
    assert_eq!(card.href, "/album/x");
    assert_eq!(card.title, "Title x");
    assert_eq!(card.artists, "A, B");
    assert_eq!(card.album_type, "album");
    assert_eq!(card.year, "1977");
    assert_eq!(album_cards(&vec![album("x"), album("y")])[1].href, "/album/y");
}

#[test]
fn the_header_greets_the_user() {
    match header_view(&Ok(Some("alice".to_string()))) {
        HeaderView::SignedIn { href, username } => {
            assert_eq!((href.as_str(), username.as_str()), ("/user/alice", "alice"))
        }
        HeaderView::SignedOut => panic!("the user has to be greeted"),
    }
    assert!(matches!(header_view(&Ok(None)), HeaderView::SignedOut));
    assert!(matches!(header_view(&Err("e".to_string())), HeaderView::SignedOut));
}

#[test]
fn pages_accumulate_until_the_query_changes() {
    let mut state = HomeState::new();
    state.set_query("moon".to_string());
    state.accept(page(&["a", "b"]).albums);
    assert_eq!(ids(&state), vec!["a", "b"]);
    state.load_more();
    assert_eq!(state.page, 2);
    state.accept(page(&["c"]).albums);
    assert_eq!(ids(&state), vec!["a", "b", "c"]);
    state.set_query("moon".to_string());
    assert_eq!((state.page, state.albums.len()), (2, 3));
    state.set_query("sun".to_string());
    assert_eq!((state.page, state.albums.len()), (1, 0));
    state.accept(page(&["d"]).albums);
    state.accept(page(&["e"]).albums);
    assert_eq!(ids(&state), vec!["e"]);
}

#[test]
fn blank_queries_are_not_searched_for() {
    let blank = blank_page(" ").unwrap();
    assert_eq!((blank.albums.len(), blank.total), (0, 0));
    assert!(blank_page("x").is_none());
    assert!(shows_results(" x"));
    assert!(!shows_results("\u{2003}"));
}

#[test]
fn the_start_page_says_how_the_search_goes() {
    assert_eq!(waiting_text(&vec![]), "Searching...");
    assert_eq!(waiting_text(&vec![album("a")]), "Loading...");
    let message = |result, n| match search_status(&result, n) {
        SearchStatus::Message(text) => Some(text),
        SearchStatus::LoadMore => None,
    };
    assert_eq!(message(Err("boom".to_string()), 1).as_deref(), Some("Error: boom"));
    assert_eq!(message(Ok(page(&[])), 1).as_deref(), Some("No results found."));
    assert_eq!(message(Ok(page(&[])), 2), None);
    assert_eq!(message(Ok(page(&["a"])), 1), None);
}

#[test]
fn an_albums_page_lists_its_tracks() {
    let detail = AlbumDetail {
        album: album("x"),
        tracks: vec![track(1, vec!["A".to_string(), "C".to_string()]), track(2, vec![])],
    };
    match album_view(&Ok(detail)) {
        AlbumView::Album { card, tracks } => {
            assert_eq!(card.cover_src, "/album-art/x");
            assert_eq!(tracks[0].number, 1);
            assert_eq!(tracks[0].name, "Track 1");
            assert_eq!(tracks[0].artists.as_deref(), Some("A, C"));
            assert_eq!(tracks[0].duration, "1:01");
            assert_eq!(tracks[1].artists, None);
        }
        AlbumView::Message(_) => panic!("the album has to be shown"),
    }
    assert!(matches!(
        album_view(&Err("gone".to_string())),
        AlbumView::Message(text) if text == "Error: gone"
    ));
}

#[test]
fn dots_up_to_the_rating_are_active() {
    let user = Some(Ok(Some("alice".to_string())));
    let rated = |rating| {
        Some(Ok(Some(MyRating { rating, review: None, favorite_track_id: None })))
    };
    let dots = |rating| match rating_widget(&user, &rating) {
        RatingWidget::Dots(dots) => dots,
        RatingWidget::Message(_) => panic!("dots were expected"),
    };
    assert_eq!(dots(rated(3)), vec![true, true, true, false, false, false, false, false, false, false]);
    assert_eq!(dots(rated(10)), vec![true; 10]);
    assert_eq!(dots(None), vec![false; 10]);
    assert_eq!(dots(Some(Ok(None))), vec![false; 10]);
    assert_eq!(dots(Some(Err("e".to_string()))), vec![false; 10]);
    for nobody in [None, Some(Ok(None)), Some(Err("e".to_string()))] {
        assert!(matches!(
            rating_widget(&nobody, &rated(3)),
            RatingWidget::Message("Sign in to rate this album.")
        ));
    }
}

#[test]
fn a_click_keeps_review_and_favorite_track() {
    let mine = MyRating {
        rating: 3,
        review: Some("great".to_string()),
        favorite_track_id: Some("t1".to_string()),
    };
    let kept = rating_click("sp1", 8, Ok(Some(mine))).unwrap();
    assert_eq!((kept.spotify_id.as_str(), kept.rating), ("sp1", 8));
    assert_eq!(kept.review.as_deref(), Some("great"));
    assert_eq!(kept.favorite_track_id.as_deref(), Some("t1"));
    let first = rating_click("sp1", 1, Ok(None)).unwrap();
    assert_eq!((first.spotify_id.as_str(), first.rating), ("sp1", 1));
    assert_eq!((first.review, first.favorite_track_id), (None, None));
    assert!(rating_click("sp1", 1, Err("locked".to_string())).is_none());
}

fn profile(username: &str, joined_at: &str) -> UserProfile {
    UserProfile {
        username: username.to_string(),
        bio: Some("hi".to_string()),
        follower_count: 3,
        following_count: 4,
        joined_at: joined_at.to_string(),
        is_self: false,
        is_following: false,
    }
}

fn shown(profile: UserProfile) -> ProfileCard {
    match profile_view(&Ok(Some(profile))) {
        ProfileView::Profile(card) => card,
        ProfileView::Message(_) => panic!("the profile has to be shown"),
    }
}

#[test]
fn a_users_page_shows_the_user() {
    let card = shown(profile("alice", "2024-05-06T07:08:09Z"));
    assert_eq!(card.initial, "A");
    assert_eq!(card.username, "alice");
    assert_eq!(card.bio.as_deref(), Some("hi"));
    assert_eq!(card.joined, "2024-05-06");
    assert_eq!((card.follower_count, card.following_count), (3, 4));
    assert!(matches!(card.action, ProfileAction::Follow));
    assert_eq!(shown(profile("", "")).initial, "?");
    assert_eq!(shown(profile("ßeta", "short")).initial, "SS");
    assert_eq!(shown(profile("x", "short")).joined, "");
    let mut p = profile("x", "");
    p.bio = Some(String::new());
    p.is_following = true;
    let card = shown(p.clone());
    assert_eq!(card.bio, None);
    assert!(matches!(card.action, ProfileAction::Unfollow));
    p.is_self = true;
    p.bio = None;
    let card = shown(p);
    assert_eq!(card.bio, None);
    assert!(matches!(card.action, ProfileAction::Edit));
    assert!(matches!(
        profile_view(&Ok(None)),
        ProfileView::Message(text) if text == "User not found."
    ));
    assert!(matches!(
        profile_view(&Err("e".to_string())),
        ProfileView::Message(text) if text == "Error: e"
    ));
}

#[test]
fn the_form_stays_open_until_it_is_saved() {
    let mut form = EditForm::new();
    assert!(!form.open);
    form.start("alice".to_string(), Some("hi".to_string()));
    assert!(form.open);
    assert_eq!((form.username.as_str(), form.bio.as_str()), ("alice", "hi"));
    assert!(!form.saved(Err("taken".to_string())));
    assert!(form.open);
    assert_eq!(form.error.as_deref(), Some("taken"));
    assert!(form.saved(Ok(())));
    assert!(!form.open);
    form.start("alice".to_string(), None);
    assert_eq!((form.error.as_deref(), form.bio.as_str()), (None, ""));
    form.cancel();
    assert!(!form.open);
}

#[test]
fn a_users_page_lists_the_ratings() {
    let rating = UserRating {
        spotify_id: "x".to_string(),
        title: "T".to_string(),
        artists: vec!["A".to_string()],
        album_type: "single".to_string(),
        release_year: None,
        has_cover_art: true,
        rating: 9,
        review: None,
        favorite_track_name: None,
        rated_at: "now".to_string(),
    };
    match ratings_view(&Ok(vec![rating])) {
        RatingsView::List(cards) => {
            assert_eq!(cards[0].rating, 9);
            assert_eq!(cards[0].card.href, "/album/x");
            assert_eq!(cards[0].card.year, "????");
            assert_eq!(cards[0].card.artists, "A");
        }
        RatingsView::Message(_) => panic!("the ratings have to be listed"),
    }
    assert!(matches!(
        ratings_view(&Ok(vec![])),
        RatingsView::Message(text) if text == "No ratings yet."
    ));
    assert!(matches!(
        ratings_view(&Err("e".to_string())),
        RatingsView::Message(text) if text == "Error: e"
    ));
}
