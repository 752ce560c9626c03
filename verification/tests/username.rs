use musicboxd::username::{username_base, UsernameSearch, UsernameStep};

fn settle(hint: &str, taken: &[&str], spare: &str) -> String {
    let mut search = UsernameSearch::start(hint);
    loop {
        let name = search.candidate_name();
        let count = taken.iter().filter(|t| **t == name).count() as i64;
        match search.answer_with(count, spare) {
            UsernameStep::Settled(name) => return name,
            UsernameStep::LookUp(next) => search = next,
        }
    }
}

#[test]
fn the_hint_is_stripped_to_what_a_username_may_hold() {
    assert_eq!(username_base("alice"), "alice");
    assert_eq!(username_base("a.l-i ce_1@example.com"), "alice_1examplecom");
    assert_eq!(username_base("@!"), "user");
    assert_eq!(username_base(""), "user");
    assert_eq!(username_base("björk"), "björk");
    assert_eq!(username_base(&"x".repeat(40)), "x".repeat(32));
    assert_eq!(username_base(&format!("{}{}", ".".repeat(9), "é".repeat(40))), "é".repeat(32));
}

#[test]
fn the_first_free_candidate_is_taken() {
    assert_eq!(settle("bob", &[], "f"), "bob");
    assert_eq!(settle("bob", &["bob"], "f"), "bob_1");
    assert_eq!(settle("bob", &["bob", "bob_1", "bob_2"], "f"), "bob_3");
    assert_eq!(settle("bob", &["bob_1"], "f"), "bob");
}

#[test]
fn after_the_last_candidate_the_spare_is_taken() {
    let taken: Vec<String> = std::iter::once("bob".to_string())
        .chain((1..=99).map(|i| format!("bob_{i}")))
        .collect();
    let names: Vec<&str> = taken.iter().map(|s| s.as_str()).collect();
    assert_eq!(settle("bob", &names, "0123"), "bob_0123");
    assert_eq!(settle("bob", &names[..99], "0123"), "bob_99");
}

#[test]
fn a_fresh_spare_is_a_simple_uuid() {
    let mut search = UsernameSearch::start("bob");
    let mut lookups = 0;
    let name = loop {
        lookups += 1;
        match search.answer(1) {
            UsernameStep::Settled(name) => break name,
            UsernameStep::LookUp(next) => search = next,
        }
    };
    assert_eq!(lookups, 100);
    let spare = name.strip_prefix("bob_").unwrap();
    assert_eq!(spare.len(), 32);
    assert!(spare.chars().all(|c| c.is_ascii_hexdigit() && !c.is_ascii_uppercase()));
    assert!(uuid::Uuid::parse_str(spare).is_ok());
}

#[test]
fn every_settled_name_may_be_a_username() {
    for hint in ["alice@example.com", "", "Ünïcode name", "_"] {
        for taken in [&[][..], &["user", "_", "aliceexamplecom"][..]] {
            let name = settle(hint, taken, "00ff");
            assert!(!name.is_empty());
            assert!(name.chars().all(|c| c.is_alphanumeric() || c == '_'));
            assert!(!taken.contains(&name.as_str()));
        }
    }
}
