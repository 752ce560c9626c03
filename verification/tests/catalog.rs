use musicboxd::catalog::{
    album_from_parts, best_image_url, release_year, spotify_album_from_api,
    spotify_album_from_db, track_from_api, track_from_db, track_from_parts, truncate_u32,
    DbSpotifyAlbum, DbTrack, SpotifyApiAlbum, SpotifyApiArtist, SpotifyApiTrack, SpotifyImage,
};
use musicboxd::json::{read_stored_list, write_album_raw};

fn image(url: &str, width: Option<u32>) -> SpotifyImage {
    SpotifyImage { url: url.to_string(), width }
}

fn year(date: &str) -> Option<u32> {
    release_year(&Some(date.to_string()))
}

fn row(artists: &str) -> DbSpotifyAlbum {
    DbSpotifyAlbum {
        spotify_id: "sp1".to_string(),
        title: "Rumours".to_string(),
        artists: artists.to_string(),
        album_type: Some("album".to_string()),
        release_date: Some("1977-02-04".to_string()),
        cover_art: None,
    }
}

#[test]
fn the_year_is_in_the_first_four_characters() {
    assert_eq!(year("1977"), Some(1977));
    assert_eq!(year("1977-02"), Some(1977));
    assert_eq!(year("1977-02-04"), Some(1977));
    assert_eq!(year("0000"), Some(0));
    assert_eq!(year("+123"), Some(123));
    assert_eq!(year("197"), None);
    assert_eq!(year(""), None);
    assert_eq!(year("19é7"), None);
    assert_eq!(year("ab77-01"), None);
    assert_eq!(release_year(&None), None);
}

#[test]
fn the_widest_image_is_the_cover() {
    let images = [image("a", Some(300)), image("b", Some(640)), image("c", Some(64))];
    assert_eq!(best_image_url(&images).as_deref(), Some("b"));
    assert_eq!(best_image_url(&[]), None);
    let unknown = [image("a", None), image("b", None)];
    assert_eq!(best_image_url(&unknown).as_deref(), Some("b"));
    let ties = [image("a", Some(640)), image("b", Some(640)), image("c", None)];
    assert_eq!(best_image_url(&ties).as_deref(), Some("b"));
    let zero = [image("a", Some(0)), image("b", None)];
    assert_eq!(best_image_url(&zero).as_deref(), Some("b"));
}

#[test]
fn a_row_becomes_an_album() {
    let album = spotify_album_from_db(&row("[\"Fleetwood Mac\",\"Stevie Nicks\"]"));
    assert_eq!(album.spotify_id, "sp1");
    assert_eq!(album.title, "Rumours");
    assert_eq!(album.artists, vec!["Fleetwood Mac", "Stevie Nicks"]);
    assert_eq!(album.album_type, "album");
    assert_eq!(album.release_year, Some(1977));
    assert!(!album.has_cover_art);
    let mut other = row("not JSON");
    other.album_type = None;
    other.release_date = None;
    other.cover_art = Some(vec![]);
    let album = spotify_album_from_db(&other);
    assert!(album.artists.is_empty());
    assert_eq!(album.album_type, "");
    assert_eq!(album.release_year, None);
    assert!(album.has_cover_art);
    let given = album_from_parts(&other, vec!["Given".to_string()]);
    assert_eq!(given.artists, vec!["Given"]);
}

#[test]
fn stored_lists_are_json_arrays_of_strings() {
    assert_eq!(read_stored_list("[\"a\", \"b\\\"c\"]"), vec!["a", "b\"c"]);
    assert!(read_stored_list("[]").is_empty());
    assert!(read_stored_list("[1]").is_empty());
    assert!(read_stored_list("{\"a\":1}").is_empty());
    assert!(read_stored_list("").is_empty());
}

#[test]
fn the_raw_object_is_json() {
    assert_eq!(write_album_raw("sp1", "A \"B\" \\ C"), "{\"id\":\"sp1\",\"name\":\"A \\\"B\\\" \\\\ C\"}");
    let value: serde_json::Value = serde_json::from_str(&write_album_raw("x", "é\n")).unwrap();
    assert_eq!(value["id"], "x");
    assert_eq!(value["name"], "é\n");
}

#[test]
fn an_api_album_has_no_cover_art_yet() {
    let api = SpotifyApiAlbum {
        id: "sp2".to_string(),
        name: "OK Computer".to_string(),
        artists: vec![SpotifyApiArtist { name: "Radiohead".to_string() }],
        album_type: "album".to_string(),
        release_date: Some("1997".to_string()),
        images: vec![image("u", Some(1))],
        tracks: None,
    };
    let album = spotify_album_from_api(&api);
    assert_eq!(album.spotify_id, "sp2");
    assert_eq!(album.title, "OK Computer");
    assert_eq!(album.artists, vec!["Radiohead"]);
    assert_eq!(album.album_type, "album");
    assert_eq!(album.release_year, Some(1997));
    assert!(!album.has_cover_art);
}

#[test]
fn tracks_are_converted() {
    let api = SpotifyApiTrack {
        id: "t1".to_string(),
        name: "Airbag".to_string(),
        artists: vec![SpotifyApiArtist { name: "Radiohead".to_string() }],
        disc_number: 1,
        track_number: 2,
        duration_ms: Some(284_000),
    };
    let track = track_from_api(&api);
    assert_eq!(track.track_id, "t1");
    assert_eq!((track.disc_number, track.track_number), (1, 2));
    assert_eq!(track.name, "Airbag");
    assert_eq!(track.artists, vec!["Radiohead"]);
    assert_eq!(track.duration_ms, Some(284_000));
    let stored = DbTrack {
        track_id: "t1".to_string(),
        disc_number: 1,
        track_number: 2,
        name: "Airbag".to_string(),
        artists: "[\"Radiohead\"]".to_string(),
        duration_ms: None,
    };
    let track = track_from_db(&stored);
    assert_eq!((track.disc_number, track.track_number), (1, 2));
    assert_eq!(track.artists, vec!["Radiohead"]);
    assert_eq!(track.duration_ms, None);
    assert_eq!(track_from_parts(&stored, vec![]).artists.len(), 0);
}

#[test]
fn numbers_from_the_database_keep_their_low_bits() {
    for n in [0i64, 1, -1, 0xffff_ffff, 0x1_0000_0000, 0x1_0000_0007, i64::MIN, i64::MAX] {
        assert_eq!(truncate_u32(n), n as u32);
    }
}
