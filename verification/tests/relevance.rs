use musicboxd::relevance::{relevance_score, tokenize, Relevance};

fn fraction(score: Relevance) -> f64 {
    score.matched as f64 / score.total as f64
}

#[test]
fn exact_title_match() {
    assert_eq!(
        fraction(relevance_score("rumours", "Rumours", &["Fleetwood Mac".to_string()])),
        1.0
    );
}

#[test]
fn artist_only_match() {
    // Query is purely an artist name; the album title is unrelated.
    assert_eq!(
        fraction(relevance_score("fleetwood mac", "Rumours", &["Fleetwood Mac".to_string()])),
        1.0
    );
}

#[test]
fn multi_word_title_match() {
    assert_eq!(
        fraction(relevance_score(
            "dark side of the moon",
            "The Dark Side of the Moon",
            &["Pink Floyd".to_string()]
        )),
        1.0
    );
}

#[test]
fn partial_match_above_threshold() {
    let score = fraction(relevance_score(
        "ok computer radiohead",
        "OK Computer",
        &["Radiohead".to_string()],
    ));
    assert!(score >= 0.5, "expected ≥ 0.5, got {score}");
}

#[test]
fn unrelated_result_below_threshold() {
    let score = fraction(relevance_score(
        "dark side of the moon",
        "Wish You Were Here",
        &["Pink Floyd".to_string()],
    ));
    assert!(score < 0.5, "expected < 0.5, got {score}");
}

#[test]
fn punctuation_normalised() {
    // Apostrophe in artist name should not prevent matching.
    assert_eq!(
        fraction(relevance_score(
            "guns n roses",
            "Appetite for Destruction",
            &["Guns N' Roses".to_string()]
        )),
        1.0
    );
}

#[test]
fn empty_query_returns_full_score() {
    assert_eq!(fraction(relevance_score("", "Anything", &[])), 1.0);
}

#[test]
fn each_occurrence_in_the_query_counts() {
    let score = relevance_score("the the moon", "The Band", &[]);
    assert_eq!((score.matched, score.total), (2, 3));
    assert!(score.is_relevant());
}

#[test]
fn exactly_half_is_relevant() {
    let half = relevance_score("blue moon", "Blue", &[]);
    assert_eq!((half.matched, half.total), (1, 2));
    assert!(half.is_relevant());
    let third = relevance_score("blue moon rising", "Blue", &[]);
    assert!(!third.is_relevant());
}

#[test]
fn tokens_are_runs_of_letters_and_digits() {
    assert_eq!(tokenize("Mac's  R&B, 2nd-hand"), vec!["mac", "s", "r", "b", "2nd", "hand"]);
    assert!(tokenize(" - ! ").is_empty());
}

#[test]
fn letters_beyond_ascii_belong_to_tokens() {
    assert_eq!(tokenize("Sigur Rós – Ágætis"), vec!["sigur", "rós", "ágætis"]);
}

#[test]
fn case_does_not_matter_beyond_ascii() {
    let score = relevance_score("björk", "Debut", &["BJÖRK".to_string()]);
    assert_eq!((score.matched, score.total), (1, 1));
    let score = relevance_score("BJÖRK DEBUT", "Début", &["Björk".to_string()]);
    assert_eq!((score.matched, score.total), (1, 2));
    assert!(score.is_relevant());
}

#[test]
fn a_query_matches_itself_and_more_artists_do_no_harm() {
    let title = "Kind of Blue";
    let alone = relevance_score(title, title, &[]);
    assert_eq!(alone.matched, alone.total);
    let few = relevance_score("miles blue", title, &[]);
    let more = relevance_score("miles blue", title, &["Miles Davis".to_string()]);
    assert!(few.matched <= more.matched);
    assert_eq!((few.matched, more.matched), (1, 2));
}
