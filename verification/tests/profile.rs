use musicboxd::follow::{
    follow_page, get_followers, get_following, pattern_of, FollowRow,
};
use musicboxd::profile::{
    action_outcome, check_username, follow_user, get_user_profile, unfollow_user, update_profile,
    ProfileRow, ProfileStep, UpdateStep, UserProfile,
};
use musicboxd::ratings::{
    get_my_rating, get_user_ratings, rate_album, rate_album_with, rating_from_parts, truncate_u8,
    user_ratings, MyRatingRow, MyRatingStep, NewRating, RateStep, UserRatingRow,
};
use musicboxd::session::CurrentUser;
use musicboxd::store::{
    DbError, SqlValue, Statement, COUNT_FOLLOW, COUNT_TAKEN, DELETE_FOLLOW, ENSURE_RELEASE_GROUP,
    FIND_PROFILE, FIND_RATING, FIND_RELEASE_GROUP, INSERT_FOLLOW, LIST_FOLLOWERS, LIST_FOLLOWING,
    LIST_RATINGS, SAVE_RATING, UPDATE_USER,
};

fn broken() -> DbError {
    DbError { message: "disk full".to_string() }
}

fn alice() -> Option<CurrentUser> {
    Some(CurrentUser { user_id: "u1".to_string(), username: "alice".to_string() })
}

fn text(value: &SqlValue) -> &str {
    match value {
        SqlValue::Text(s) => s,
        _ => panic!("a text was expected"),
    }
}

fn texts(s: &Statement) -> Vec<&str> {
    s.params.iter().map(text).collect()
}

fn row(user_id: &str) -> ProfileRow {
    ProfileRow {
        user_id: user_id.to_string(),
        bio: Some("hi".to_string()),
        created_at: "2024-05-06T07:08:09Z".to_string(),
        follower_count: 3,
        following_count: 4,
    }
}

fn shown(step: ProfileStep) -> UserProfile {
    match step {
        ProfileStep::Done(Ok(Some(profile))) => profile,
        _ => panic!("a profile was expected"),
    }
}

#[test]
fn a_profile_knows_who_looks_at_it() {
    let lookup = |viewer| match get_user_profile("bob".to_string(), viewer) {
        ProfileStep::FindProfile { statement, then } => {
            assert_eq!(statement.sql, FIND_PROFILE);
            assert_eq!(texts(&statement), vec!["bob"]);
            then
        }
        _ => panic!("the user has to be looked up"),
    };
    let nobody = shown(lookup(None).resume(Ok(Some(row("u2")))));
    assert!(!nobody.is_self && !nobody.is_following);
    assert_eq!(nobody.username, "bob");
    assert_eq!(nobody.bio.as_deref(), Some("hi"));
    assert_eq!((nobody.follower_count, nobody.following_count), (3, 4));
    assert_eq!(nobody.joined_at, "2024-05-06T07:08:09Z");
    let own = shown(lookup(alice()).resume(Ok(Some(row("u1")))));
    assert!(own.is_self && !own.is_following);
    let counted = || match lookup(alice()).resume(Ok(Some(row("u2")))) {
        ProfileStep::CountFollow { statement, then } => {
            assert_eq!(statement.sql, COUNT_FOLLOW);
            assert_eq!(texts(&statement), vec!["u1", "u2"]);
            then
        }
        _ => panic!("the follow has to be counted"),
    };
    assert!(shown(counted().resume(Ok(1))).is_following);
    assert!(!shown(counted().resume(Ok(0))).is_following);
    assert!(!shown(counted().resume(Err(broken()))).is_following);
    assert!(matches!(lookup(None).resume(Ok(None)), ProfileStep::Done(Ok(None))));
    assert!(matches!(
        lookup(None).resume(Err(broken())),
        ProfileStep::Done(Err(e)) if e == "disk full"
    ));
}

#[test]
fn usernames_are_checked() {
    let length = Some("Username must be 3–32 characters".to_string());
    let letters = Some("Username may only contain letters, digits, and underscores".to_string());
    assert_eq!(check_username("ab"), length);
    assert_eq!(check_username(""), length);
    assert_eq!(check_username(&"a".repeat(33)), length);
    assert_eq!(check_username("abc"), None);
    assert_eq!(check_username(&"a".repeat(32)), None);
    assert_eq!(check_username("a_1"), None);
    assert_eq!(check_username("éé"), None);
    assert_eq!(check_username(&"é".repeat(17)), length);
    assert_eq!(check_username("a b c"), letters);
    assert_eq!(check_username("a-b"), letters);
}

#[test]
fn a_profile_is_updated_unless_the_name_is_taken() {
    let update = |viewer, name: &str, bio: &str| {
        update_profile(viewer, name.to_string(), bio.to_string())
    };
    let refused = |step: UpdateStep, text: &str| {
        matches!(step, UpdateStep::Done(Err(e)) if e == text)
    };
    assert!(refused(update(None, "", ""), "Not logged in"));
    assert!(refused(update(alice(), "ab", ""), "Username must be 3–32 characters"));
    assert!(refused(
        update(alice(), "a!!", ""),
        "Username may only contain letters, digits, and underscores"
    ));
    let count = |bio: &str| match update(alice(), "bob", bio) {
        UpdateStep::CountTaken { statement, then } => {
            assert_eq!(statement.sql, COUNT_TAKEN);
            assert_eq!(texts(&statement), vec!["bob", "u1"]);
            then
        }
        _ => panic!("the name has to be looked up"),
    };
    assert!(refused(count("").resume(Ok(1)), "Username is already taken"));
    assert!(refused(count("").resume(Err(broken())), "disk full"));
    let UpdateStep::UpdateUser { statement, then } = count("hello").resume(Ok(0)) else { panic!() };
    assert_eq!(statement.sql, UPDATE_USER);
    assert_eq!(texts(&statement), vec!["bob", "hello", "u1"]);
    assert!(matches!(then.resume(Ok(())), UpdateStep::Done(Ok(()))));
    let UpdateStep::UpdateUser { statement, then } = count("").resume(Ok(0)) else { panic!() };
    assert!(matches!(statement.params[1], SqlValue::Null));
    assert!(refused(then.resume(Err(broken())), "disk full"));
}

#[test]
fn following_takes_a_user() {
    let follow = follow_user(&alice(), "bob").ok().unwrap();
    assert_eq!(follow.sql, INSERT_FOLLOW);
    assert_eq!(texts(&follow), vec!["u1", "bob"]);
    let unfollow = unfollow_user(&alice(), "bob").ok().unwrap();
    assert_eq!(unfollow.sql, DELETE_FOLLOW);
    assert_eq!(texts(&unfollow), vec!["u1", "bob"]);
    assert_eq!(follow_user(&None, "bob").err().as_deref(), Some("Not logged in"));
    assert_eq!(unfollow_user(&None, "bob").err().as_deref(), Some("Not logged in"));
    assert_eq!(action_outcome(Ok(())), Ok(()));
    assert_eq!(action_outcome(Err(broken())), Err("disk full".to_string()));
}

fn new_rating(rating: u8) -> NewRating {
    NewRating {
        spotify_id: "sp1".to_string(),
        rating,
        review: Some("great".to_string()),
        favorite_track_id: None,
    }
}

#[test]
fn ratings_go_from_one_to_ten() {
    for rating in [0, 11, 255] {
        assert!(matches!(
            rate_album(None, new_rating(rating)),
            RateStep::Done(Err(e)) if e == "Rating must be between 1 and 10"
        ));
    }
    for rating in [1, 10] {
        assert!(matches!(
            rate_album(None, new_rating(rating)),
            RateStep::Done(Err(e)) if e == "Not logged in"
        ));
        assert!(matches!(rate_album(alice(), new_rating(rating)), RateStep::EnsureGroup { .. }));
    }
}

#[test]
fn a_rating_is_saved_for_the_release_group() {
    let RateStep::EnsureGroup { statement, then } =
        rate_album_with(alice(), new_rating(8), "rg-new") else { panic!() };
    assert_eq!(statement.sql, ENSURE_RELEASE_GROUP);
    assert_eq!(texts(&statement), vec!["rg-new", "sp1"]);
    let RateStep::FindGroup { statement, then } = then.resume(Ok(())) else { panic!() };
    assert_eq!(statement.sql, FIND_RELEASE_GROUP);
    assert_eq!(texts(&statement), vec!["sp1"]);
    let RateStep::SaveRating { statement, then } =
        then.resume_with(Ok(Some("rg1".to_string())), "r1") else { panic!() };
    assert_eq!(statement.sql, SAVE_RATING);
    assert_eq!(text(&statement.params[0]), "r1");
    assert_eq!(text(&statement.params[1]), "u1");
    assert_eq!(text(&statement.params[2]), "rg1");
    assert!(matches!(statement.params[3], SqlValue::Int(8)));
    assert_eq!(text(&statement.params[4]), "great");
    assert!(matches!(statement.params[5], SqlValue::Null));
    assert!(matches!(then.resume(Ok(())), RateStep::Done(Ok(()))));
}

#[test]
fn rating_errors_are_reported() {
    let ensured = || match rate_album(alice(), new_rating(5)) {
        RateStep::EnsureGroup { statement, then } => {
            assert!(uuid::Uuid::parse_str(text(&statement.params[0])).is_ok());
            then
        }
        _ => panic!(),
    };
    let found = || match ensured().resume(Ok(())) {
        RateStep::FindGroup { then, .. } => then,
        _ => panic!(),
    };
    let refused = |step: RateStep, text: &str| matches!(step, RateStep::Done(Err(e)) if e == text);
    assert!(refused(ensured().resume(Err(broken())), "disk full"));
    assert!(refused(found().resume(Err(broken())), "disk full"));
    assert!(refused(found().resume(Ok(None)), "Album not found in cache"));
    let RateStep::SaveRating { statement, then } = found().resume(Ok(Some("rg".to_string())))
        else { panic!() };
    assert!(uuid::Uuid::parse_str(text(&statement.params[0])).is_ok());
    assert!(refused(then.resume(Err(broken())), "disk full"));
}

#[test]
fn a_users_own_rating_is_read() {
    assert!(matches!(get_my_rating(&None, "sp1"), MyRatingStep::Done(Ok(None))));
    let lookup = || match get_my_rating(&alice(), "sp1") {
        MyRatingStep::FindRating { statement, then } => {
            assert_eq!(statement.sql, FIND_RATING);
            assert_eq!(texts(&statement), vec!["sp1", "u1"]);
            then
        }
        _ => panic!(),
    };
    assert!(matches!(lookup().resume(Ok(None)), MyRatingStep::Done(Ok(None))));
    assert!(matches!(
        lookup().resume(Err(broken())),
        MyRatingStep::Done(Err(e)) if e == "disk full"
    ));
    let row = MyRatingRow {
        rating: 9,
        review: None,
        favorite_track_id: Some("t1".to_string()),
    };
    match lookup().resume(Ok(Some(row))) {
        MyRatingStep::Done(Ok(Some(mine))) => {
            assert_eq!(mine.rating, 9);
            assert_eq!(mine.review, None);
            assert_eq!(mine.favorite_track_id.as_deref(), Some("t1"));
        }
        _ => panic!("a rating was expected"),
    }
    for n in [0i64, 1, 10, 255, 256, 266, -1, i64::MIN] {
        assert_eq!(truncate_u8(n), n as u8);
    }
}

fn rated(artists: &str, has_cover_art: i64) -> UserRatingRow {
    UserRatingRow {
        spotify_id: "sp1".to_string(),
        title: "Rumours".to_string(),
        artists: artists.to_string(),
        album_type: None,
        release_date: Some("1977-02".to_string()),
        has_cover_art,
        rating: 10,
        review: Some("yes".to_string()),
        favorite_track_name: Some("Dreams".to_string()),
        rated_at: "2024-01-01".to_string(),
    }
}

#[test]
fn a_users_ratings_are_listed() {
    let statement = get_user_ratings("alice");
    assert_eq!(statement.sql, LIST_RATINGS);
    assert_eq!(texts(&statement), vec!["alice"]);
    let ratings = user_ratings(Ok(vec![rated("[\"A\"]", 1), rated("?", 0)])).ok().unwrap();
    assert_eq!(ratings.len(), 2);
    assert_eq!(ratings[0].artists, vec!["A"]);
    assert!(ratings[0].has_cover_art);
    assert_eq!(ratings[0].release_year, Some(1977));
    assert_eq!(ratings[0].album_type, "");
    assert_eq!(ratings[0].rating, 10);
    assert_eq!(ratings[0].review.as_deref(), Some("yes"));
    assert_eq!(ratings[0].favorite_track_name.as_deref(), Some("Dreams"));
    assert_eq!(ratings[0].rated_at, "2024-01-01");
    assert!(ratings[1].artists.is_empty() && !ratings[1].has_cover_art);
    assert_eq!(user_ratings(Err(broken())).err().as_deref(), Some("disk full"));
    let given = rating_from_parts(&rated("?", 0), vec!["B".to_string()]);
    assert_eq!(given.artists, vec!["B"]);
}

fn follow_row(i: usize) -> FollowRow {
    FollowRow {
        user_id: format!("u{i}"),
        username: format!("user{i}"),
        bio: None,
        follower_count: i as i64,
        is_following: (i % 2) as i64,
    }
}

#[test]
fn follow_lists_are_paged_by_twenty() {
    let page = |n: usize| follow_page(Ok((0..n).map(follow_row).collect())).ok().unwrap();
    assert!(page(21).has_more);
    assert_eq!(page(21).users.len(), 20);
    assert!(!page(20).has_more);
    assert_eq!(page(20).users.len(), 20);
    assert_eq!(page(0).users.len(), 0);
    let five = page(5);
    assert!(!five.has_more);
    assert_eq!(five.users[3].username, "user3");
    assert_eq!(five.users[3].follower_count, 3);
    assert!(five.users[3].is_following && !five.users[2].is_following);
    assert_eq!(follow_page(Err(broken())).err().as_deref(), Some("disk full"));
}

#[test]
fn follow_lists_are_filtered() {
    assert_eq!(pattern_of(""), "%");
    assert_eq!(pattern_of("barb"), "%barb%");
    assert_eq!(pattern_of("a_b%c\\d"), "%a\\_b\\%c\\\\d%");
    let followers = get_followers(&alice(), "bob", "barb", 2);
    assert_eq!(followers.sql, LIST_FOLLOWERS);
    let first: Vec<&str> = followers.params[..4].iter().map(text).collect();
    assert_eq!(first, vec!["bob", "u1", "barb", "%barb%"]);
    assert!(matches!(followers.params[4], SqlValue::Int(20)));
    let following = get_following(&None, "bob", "", 1);
    assert_eq!(following.sql, LIST_FOLLOWING);
    let first: Vec<&str> = following.params[..4].iter().map(text).collect();
    assert_eq!(first, vec!["bob", "", "", "%"]);
    assert!(matches!(following.params[4], SqlValue::Int(0)));
}
