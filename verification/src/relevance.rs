//! How well a search result matches a query.

use crate::text::{
    alphanumeric, chars_of, is_alphanumeric, lowercase, texts, to_lowercase, words, words_of,
};
use vstd::prelude::*;

verus! {

/// A character as tokens see it: every character but letters and numbers is a
/// space.
pub open spec fn spaced(c: char) -> char {
    if alphanumeric(c) {
        c
    } else {
        ' '
    }
}

/// The tokens of a text: the runs of letters and numbers of its lower case.
pub open spec fn tokens(s: Seq<char>) -> Seq<Seq<char>> {
    words(lowercase(s).map_values(|c: char| spaced(c)))
}

/// The tokens of several texts, one text after the other.
pub open spec fn all_tokens(parts: Seq<Seq<char>>) -> Seq<Seq<char>>
    decreases parts.len(),
{
    if parts.len() == 0 {
        Seq::empty()
    } else {
        all_tokens(parts.drop_last()) + tokens(parts.last())
    }
}

/// The tokens of a title and of the names of its artists.
pub open spec fn target_tokens(title: Seq<char>, artists: Seq<Seq<char>>) -> Seq<Seq<char>> {
    tokens(title) + all_tokens(artists)
}

/// How many of `query` occur in `target`, each occurrence in `query` counted.
pub open spec fn matches_in(query: Seq<Seq<char>>, target: Seq<Seq<char>>) -> nat {
    query.filter(|t: Seq<char>| target.contains(t)).len()
}

/// The fraction `matched / total` of a query's tokens that a result holds.
#[derive(Debug, Clone, Copy)]
pub struct Relevance {
    pub matched: usize,
    pub total: usize,
}

impl Relevance {
    /// Whether the fraction is at least one half.
    pub open spec fn at_least_half(self) -> bool {
        2 * self.matched >= self.total
    }

    /// Whether the fraction is at least one half: results below are noise.
    pub fn is_relevant(&self) -> (yes: bool)
        ensures
            yes == self.at_least_half(),
    {
        self.matched >= self.total || self.matched >= self.total - self.matched
    }
}

/// The relevance of a result: the fraction of the query's tokens that occur in
/// the title or in an artist's name, and the whole for a query without tokens.
pub open spec fn relevance_of(
    query: Seq<char>,
    title: Seq<char>,
    artists: Seq<Seq<char>>,
) -> (nat, nat) {
    let wanted = tokens(query);
    if wanted.len() == 0 {
        (1, 1)
    } else {
        (matches_in(wanted, target_tokens(title, artists)), wanted.len())
    }
}

/// Splits a text into tokens.
pub fn tokenize(s: &str) -> (out: Vec<String>)
    ensures
        texts(out@) == tokens(s@),
{
    let lower = to_lowercase(s);
    let chars = chars_of(lower.as_str());
    let mut spaced_chars: Vec<char> = Vec::new();
    let mut i: usize = 0;
    while i < chars.len()
        invariant
            i <= chars@.len(),
            chars@ == lowercase(s@),
            spaced_chars@ =~= lowercase(s@).take(i as int).map_values(|c: char| spaced(c)),
        decreases chars@.len() - i,
    {
        let c = chars[i];
        if is_alphanumeric(c) {
            spaced_chars.push(c);
        } else {
            spaced_chars.push(' ');
        }
        i = i + 1;
    }
    assert(lowercase(s@).take(chars@.len() as int) =~= lowercase(s@));
    words_of(&spaced_chars)
}

/// Whether a token is among others.
fn contains_token(target: &Vec<String>, token: &String) -> (yes: bool)
    ensures
        yes == texts(target@).contains(token@),
{
    let mut i: usize = 0;
    while i < target.len()
        invariant
            i <= target@.len(),
            forall|k: int| 0 <= k < i ==> texts(target@)[k] != token@,
        decreases target@.len() - i,
    {
        if target[i] == *token {
            assert(texts(target@)[i as int] == token@);
            return true;
        }
        i = i + 1;
    }
    false
}

/// Moves the tokens of a text to the end of a list.
fn add_tokens(target: &mut Vec<String>, s: &str)
    ensures
        texts(final(target)@) == texts(old(target)@) + tokens(s@),
{
    let mut more = tokenize(s);
    let ghost a = target@;
    let ghost b = more@;
    target.append(&mut more);
    assert(texts(target@) =~= texts(a) + texts(b));
}

/// What fraction of the query's tokens appear in the title or in the artists'
/// names.
pub fn relevance_score(query: &str, title: &str, artists: &[String]) -> (score: Relevance)
    ensures
        (score.matched as nat, score.total as nat) == relevance_of(
            query@,
            title@,
            texts(artists@),
        ),
        score.matched <= score.total,
{
    let wanted = tokenize(query);
    if wanted.len() == 0 {
        return Relevance { matched: 1, total: 1 };
    }
    let mut target = tokenize(title);
    let ghost of_title = texts(target@);
    let mut i: usize = 0;
    assert(of_title + all_tokens(texts(artists@).take(0)) =~= of_title);
    while i < artists.len()
        invariant
            i <= artists@.len(),
            texts(target@) =~= of_title + all_tokens(texts(artists@).take(i as int)),
        decreases artists@.len() - i,
    {
        add_tokens(&mut target, artists[i].as_str());
        assert(texts(artists@).take(i + 1).drop_last() =~= texts(artists@).take(i as int));
        assert(texts(artists@).take(i + 1).last() == artists@[i as int]@);
        i = i + 1;
    }
    assert(texts(artists@).take(artists@.len() as int) =~= texts(artists@));
    let ghost names = texts(target@);
    let ghost found = |t: Seq<char>| names.contains(t);
    let ghost query_tokens = texts(wanted@);
    let mut matched: usize = 0;
    let mut k: usize = 0;
    proof {
        reveal(Seq::filter);
    }
    while k < wanted.len()
        invariant
            k <= wanted@.len(),
            matched <= k,
            names == texts(target@),
            query_tokens == texts(wanted@),
            found == |t: Seq<char>| names.contains(t),
            matched == query_tokens.take(k as int).filter(found).len(),
        decreases wanted@.len() - k,
    {
        proof {
            reveal(Seq::filter);
            assert(query_tokens.take(k + 1).drop_last() =~= query_tokens.take(k as int));
            assert(query_tokens.take(k + 1).last() == wanted@[k as int]@);
        }
        if contains_token(&target, &wanted[k]) {
            matched = matched + 1;
        }
        k = k + 1;
    }
    assert(query_tokens.take(query_tokens.len() as int) =~= query_tokens);
    Relevance { matched, total: wanted.len() }
}

// ---------------------------------------------------------------------------
// Laws
// ---------------------------------------------------------------------------

/// Counting matches, token by token.
proof fn lemma_matches_bounds(query: Seq<Seq<char>>, target: Seq<Seq<char>>)
    ensures
        matches_in(query, target) <= query.len(),
        matches_in(query, target) == query.len() <==> (forall|i: int|
            0 <= i < query.len() ==> target.contains(#[trigger] query[i])),
    decreases query.len(),
{
    reveal(Seq::filter);
    if query.len() > 0 {
        let shorter = query.drop_last();
        lemma_matches_bounds(shorter, target);
        assert(forall|i: int| 0 <= i < shorter.len() ==> shorter[i] == query[i]);
        assert(query[query.len() - 1] == query.last());
        if forall|i: int| 0 <= i < shorter.len() ==> target.contains(#[trigger] shorter[i]) {
            if target.contains(query.last()) {
                assert forall|i: int| 0 <= i < query.len() implies target.contains(
                    #[trigger] query[i],
                ) by {
                    if i < shorter.len() {
                        assert(target.contains(shorter[i]));
                    }
                }
            }
        } else {
            let bad = choose|i: int| 0 <= i < shorter.len() && !target.contains(#[trigger] shorter[i]);
            assert(!target.contains(query[bad]));
        }
    }
}

/// A result is fully relevant exactly when every token of the query occurs in
/// its title or its artists' names; the fraction never exceeds one.
pub proof fn law_fully_relevant(query: Seq<char>, title: Seq<char>, artists: Seq<Seq<char>>)
    ensures
        ({
            let (matched, total) = relevance_of(query, title, artists);
            &&& 0 < total
            &&& matched <= total
            &&& matched == total <==> (forall|i: int|
                0 <= i < tokens(query).len() ==> target_tokens(title, artists).contains(
                    #[trigger] tokens(query)[i],
                ))
        }),
{
    lemma_matches_bounds(tokens(query), target_tokens(title, artists));
}

/// Case does not matter on either side: texts with the same lower case score the
/// same.
pub proof fn law_case_does_not_matter(
    query: Seq<char>,
    title: Seq<char>,
    artist: Seq<char>,
    other_query: Seq<char>,
    other_title: Seq<char>,
    other_artist: Seq<char>,
    artists: Seq<Seq<char>>,
)
    requires
        lowercase(query) == lowercase(other_query),
        lowercase(title) == lowercase(other_title),
        lowercase(artist) == lowercase(other_artist),
    ensures
        relevance_of(query, title, artists.push(artist)) == relevance_of(
            other_query,
            other_title,
            artists.push(other_artist),
        ),
{
    assert(artists.push(artist).drop_last() =~= artists);
    assert(artists.push(other_artist).drop_last() =~= artists);
}

/// More targets never match less.
proof fn lemma_matches_monotone(
    query: Seq<Seq<char>>,
    target: Seq<Seq<char>>,
    larger: Seq<Seq<char>>,
)
    requires
        forall|t: Seq<char>| target.contains(t) ==> larger.contains(t),
    ensures
        matches_in(query, target) <= matches_in(query, larger),
    decreases query.len(),
{
    reveal(Seq::filter);
    if query.len() > 0 {
        lemma_matches_monotone(query.drop_last(), target, larger);
    }
}

/// Naming one more artist never makes a result less relevant.
pub proof fn law_more_artists_no_less_relevant(
    query: Seq<char>,
    title: Seq<char>,
    artists: Seq<Seq<char>>,
    artist: Seq<char>,
)
    ensures
        relevance_of(query, title, artists).0 <= relevance_of(
            query,
            title,
            artists.push(artist),
        ).0,
        relevance_of(query, title, artists).1 == relevance_of(
            query,
            title,
            artists.push(artist),
        ).1,
{
    let target = target_tokens(title, artists);
    let larger = target_tokens(title, artists.push(artist));
    assert(artists.push(artist).drop_last() =~= artists);
    assert(larger =~= target + tokens(artist));
    assert forall|t: Seq<char>| target.contains(t) implies larger.contains(t) by {
        let i = choose|i: int| 0 <= i < target.len() && target[i] == t;
        assert(larger[i] == t);
    }
    lemma_matches_monotone(tokens(query), target, larger);
}

/// Filtering by what agrees on the elements keeps the same of them.
pub proof fn lemma_filter_same<A>(s: Seq<A>, p: spec_fn(A) -> bool, q: spec_fn(A) -> bool)
    requires
        forall|i: int| 0 <= i < s.len() ==> p(#[trigger] s[i]) == q(s[i]),
    ensures
        s.filter(p) == s.filter(q),
    decreases s.len(),
{
    reveal(Seq::filter);
    if s.len() > 0 {
        let shorter = s.drop_last();
        assert forall|i: int| 0 <= i < shorter.len() implies p(#[trigger] shorter[i]) == q(
            shorter[i],
        ) by {
            assert(shorter[i] == s[i]);
        }
        lemma_filter_same(shorter, p, q);
        assert(s[s.len() - 1] == s.last());
    }
}

/// A token of several texts is a token of one of them.
proof fn lemma_all_tokens(parts: Seq<Seq<char>>, t: Seq<char>)
    ensures
        all_tokens(parts).contains(t) <==> exists|j: int|
            0 <= j < parts.len() && #[trigger] tokens(parts[j]).contains(t),
    decreases parts.len(),
{
    if parts.len() > 0 {
        let shorter = parts.drop_last();
        let before = all_tokens(shorter);
        let all = all_tokens(parts);
        lemma_all_tokens(shorter, t);
        if all.contains(t) {
            let k = choose|k: int| 0 <= k < all.len() && all[k] == t;
            if k < before.len() {
                assert(before.contains(before[k]));
                let j = choose|j: int|
                    0 <= j < shorter.len() && #[trigger] tokens(shorter[j]).contains(t);
                assert(tokens(parts[j]).contains(t));
            } else {
                assert(tokens(parts.last())[k - before.len()] == t);
                assert(tokens(parts[parts.len() - 1]).contains(t));
            }
        }
        if exists|j: int| 0 <= j < parts.len() && #[trigger] tokens(parts[j]).contains(t) {
            let j = choose|j: int| 0 <= j < parts.len() && #[trigger] tokens(parts[j]).contains(t);
            if j < shorter.len() {
                assert(tokens(shorter[j]).contains(t));
                let k = choose|k: int| 0 <= k < before.len() && before[k] == t;
                assert(all[k] == t);
            } else {
                let k = choose|k: int| 0 <= k < tokens(parts[j]).len() && tokens(parts[j])[k] == t;
                assert(all[before.len() + k] == t);
            }
        }
    }
}

/// A token of a title and its artists is one of the title or of an artist.
pub proof fn lemma_target_tokens(title: Seq<char>, artists: Seq<Seq<char>>, t: Seq<char>)
    ensures
        target_tokens(title, artists).contains(t) <==> (tokens(title).contains(t) || exists|j: int|
            0 <= j < artists.len() && #[trigger] tokens(artists[j]).contains(t)),
{
    lemma_all_tokens(artists, t);
    let of_title = tokens(title);
    let of_artists = all_tokens(artists);
    let all = of_title + of_artists;
    if all.contains(t) {
        let k = choose|k: int| 0 <= k < all.len() && all[k] == t;
        if k < of_title.len() {
            assert(of_title[k] == t);
        } else {
            assert(of_artists[k - of_title.len()] == t);
        }
    }
    if of_title.contains(t) {
        let k = choose|k: int| 0 <= k < of_title.len() && of_title[k] == t;
        assert(all[k] == t);
    }
    if of_artists.contains(t) {
        let k = choose|k: int| 0 <= k < of_artists.len() && of_artists[k] == t;
        assert(all[of_title.len() + k] == t);
    }
}

/// The tokens of a text are the words of its lower case once everything in it but
/// letters and numbers has given way to spaces; so each is a run of letters and
/// numbers.
pub proof fn law_tokens_are_runs(s: &str, lower: String, spread: Seq<char>, out: Vec<String>)
    requires
        call_ensures(to_lowercase, (s,), lower),
        spread.len() == lower@.len(),
        forall|i: int|
            0 <= i < spread.len() ==> #[trigger] spread[i] == if alphanumeric(lower@[i]) {
                lower@[i]
            } else {
                ' '
            },
        call_ensures(tokenize, (s,), out),
    ensures
        tokens(s@) == words(spread),
        out@.len() == words(spread).len(),
        forall|i: int| 0 <= i < out@.len() ==> (#[trigger] out@[i])@ == words(spread)[i],
{
    assert(spread =~= lowercase(s@).map_values(|c: char| spaced(c)));
    assert forall|i: int| 0 <= i < out@.len() implies (#[trigger] out@[i])@ == words(spread)[i] by {
        assert(texts(out@)[i] == out@[i]@);
    }
}

/// The relevance of a result counts those tokens of the query that occur in the
/// title or in the name of an artist, each occurrence in the query for itself; for
/// a query without tokens it is the whole.
pub proof fn law_relevance_counts_tokens(
    query: &str,
    title: &str,
    artists: &[String],
    score: Relevance,
)
    requires
        call_ensures(relevance_score, (query, title, artists), score),
    ensures
        tokens(query@).len() == 0 ==> score.matched == score.total && score.total > 0,
        tokens(query@).len() > 0 ==> score.total == tokens(query@).len() && score.matched == tokens(
            query@,
        ).filter(
            |t: Seq<char>|
                tokens(title@).contains(t) || exists|j: int|
                    0 <= j < artists@.len() && #[trigger] tokens(artists@[j]@).contains(t),
        ).len(),
{
    let names = texts(artists@);
    let target = target_tokens(title@, names);
    let p = |t: Seq<char>| target.contains(t);
    let q = |t: Seq<char>|
        tokens(title@).contains(t) || exists|j: int|
            0 <= j < artists@.len() && #[trigger] tokens(artists@[j]@).contains(t);
    assert forall|i: int| 0 <= i < tokens(query@).len() implies p(#[trigger] tokens(query@)[i]) == q(
        tokens(query@)[i],
    ) by {
        let t = tokens(query@)[i];
        lemma_target_tokens(title@, names, t);
        if exists|j: int| 0 <= j < names.len() && #[trigger] tokens(names[j]).contains(t) {
            let j = choose|j: int| 0 <= j < names.len() && #[trigger] tokens(names[j]).contains(t);
            assert(tokens(artists@[j]@).contains(t));
        }
        if exists|j: int| 0 <= j < artists@.len() && #[trigger] tokens(artists@[j]@).contains(t) {
            let j = choose|j: int|
                0 <= j < artists@.len() && #[trigger] tokens(artists@[j]@).contains(t);
            assert(tokens(names[j]).contains(t));
        }
    }
    lemma_filter_same(tokens(query@), p, q);
}

/// A result is relevant from one half on: as soon as no more tokens are missing
/// than are there.
pub proof fn law_half_is_relevant(score: Relevance, yes: bool)
    requires
        call_ensures(Relevance::is_relevant, (&score,), yes),
    ensures
        yes <==> score.total - score.matched <= score.matched,
{
}

} // verus!
