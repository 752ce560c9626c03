//! Choosing a username for a new user.

use crate::ids::{fresh_simple_uuid, simple_uuid_text};
use crate::relevance::lemma_filter_same;
use crate::text::{
    alphanumeric, chars_of, concat3, decimal, digits_value, is_alphanumeric, is_digit,
    law_decimal_injective, law_decimal_round_trip, to_decimal,
};
use vstd::prelude::*;

verus! {

/// The characters that a username may hold: letters, numbers and underscores.
pub open spec fn username_char(c: char) -> bool {
    alphanumeric(c) || c == '_'
}

/// Whether a username may hold a character.
pub fn is_username_char(c: char) -> (yes: bool)
    ensures
        yes == username_char(c),
{
    is_alphanumeric(c) || c == '_'
}

/// Whether a text is made of username characters only.
pub open spec fn username_text(s: Seq<char>) -> bool {
    forall|i: int| 0 <= i < s.len() ==> username_char(#[trigger] s[i])
}

/// At most the first `n` of a sequence.
pub open spec fn at_most(s: Seq<char>, n: nat) -> Seq<char> {
    if s.len() <= n {
        s
    } else {
        s.take(n as int)
    }
}

/// The name that a hint suggests: its first 32 characters that a username may
/// hold, or `user` where there is none.
pub open spec fn base_name(hint: Seq<char>) -> Seq<char> {
    let kept = at_most(hint.filter(|c: char| username_char(c)), 32);
    if kept.len() == 0 {
        "user"@
    } else {
        kept
    }
}

/// A filtered beginning is a beginning of the filtered whole.
proof fn lemma_filter_prefix(s: Seq<char>, k: int, keep: spec_fn(char) -> bool)
    requires
        0 <= k <= s.len(),
    ensures
        s.take(k).filter(keep).len() <= s.filter(keep).len(),
        s.filter(keep).take(s.take(k).filter(keep).len() as int) == s.take(k).filter(keep),
    decreases s.len() - k,
{
    reveal(Seq::filter);
    let part = s.take(k).filter(keep);
    if k == s.len() {
        assert(s.take(k) =~= s);
        assert(s.filter(keep).take(part.len() as int) =~= part);
    } else {
        lemma_filter_prefix(s, k + 1, keep);
        assert(s.take(k + 1).drop_last() =~= s.take(k));
        let next = s.take(k + 1).filter(keep);
        assert(next.take(part.len() as int) =~= part);
        assert(s.filter(keep).take(part.len() as int) =~= s.filter(keep).take(
            next.len() as int,
        ).take(part.len() as int));
    }
}

/// The name that a hint suggests.
pub fn username_base(hint: &str) -> (base: String)
    ensures
        base@ == base_name(hint@),
{
    let chars = chars_of(hint);
    let ghost keep = |c: char| username_char(c);
    let mut base = String::new();
    let mut kept: u32 = 0;
    let mut i: usize = 0;
    proof {
        reveal(Seq::filter);
    }
    while i < chars.len() && kept < 32
        invariant
            i <= chars@.len(),
            chars@ == hint@,
            keep == |c: char| username_char(c),
            kept == base@.len(),
            kept <= 32,
            base@ == hint@.take(i as int).filter(keep),
        decreases chars@.len() - i,
    {
        proof {
            reveal(Seq::filter);
            assert(hint@.take(i + 1).drop_last() =~= hint@.take(i as int));
            assert(hint@.take(i + 1).last() == chars@[i as int]);
        }
        if is_username_char(chars[i]) {
            base.push(chars[i]);
            kept = kept + 1;
        }
        i = i + 1;
    }
    proof {
        lemma_filter_prefix(hint@, i as int, keep);
        assert(hint@.take(hint@.len() as int) =~= hint@);
        assert(at_most(hint@.filter(keep), 32) =~= base@);
    }
    if kept == 0 {
        "user".to_string()
    } else {
        base
    }
}

/// The names that are tried, in order: the base, then the base with `_1` to
/// `_99` behind it.
pub open spec fn candidate(base: Seq<char>, k: nat) -> Seq<char> {
    if k == 0 {
        base
    } else {
        base + "_"@ + decimal(k)
    }
}

/// The name taken when every candidate is in use.
pub open spec fn spare_name(base: Seq<char>, spare: Seq<char>) -> Seq<char> {
    base + "_"@ + spare
}

/// A search for a free username: the candidate that is being looked up.
pub struct UsernameSearch {
    pub base: String,
    pub tried: u32,
}

/// What a search for a free username does next.
pub enum UsernameStep {
    /// The name is settled.
    Settled(String),
    /// The candidate of this search is to be looked up.
    LookUp(UsernameSearch),
}

impl UsernameSearch {
    /// The candidates run from the base to the base with `_99`.
    pub open spec fn wf(self) -> bool {
        self.tried <= 99
    }

    /// The candidate that is being looked up.
    pub open spec fn name(self) -> Seq<char> {
        candidate(self.base@, self.tried as nat)
    }

    /// A search that starts from the name that a hint suggests.
    pub fn start(hint: &str) -> (search: Self)
        ensures
            search.wf(),
            search.base@ == base_name(hint@),
            search.tried == 0,
    {
        UsernameSearch { base: username_base(hint), tried: 0 }
    }

    /// The candidate that is being looked up.
    pub fn candidate_name(&self) -> (name: String)
        ensures
            name@ == self.name(),
    {
        if self.tried == 0 {
            self.base.clone()
        } else {
            concat3(self.base.as_str(), "_", to_decimal(self.tried as u64).as_str())
        }
    }

    /// Goes on after `count` users were found with the candidate: it is taken
    /// when there is none, otherwise the next candidate is looked up, and after
    /// the last the base with `spare` behind it is taken.
    pub fn answer_with(self, count: i64, spare: &str) -> (step: UsernameStep)
        ensures
            match step {
                UsernameStep::Settled(name) => {
                    ||| count == 0 && name@ == self.name()
                    ||| count != 0 && self.tried >= 99 && name@ == spare_name(self.base@, spare@)
                },
                UsernameStep::LookUp(next) => {
                    &&& count != 0
                    &&& self.tried < 99
                    &&& next.base == self.base
                    &&& next.tried == self.tried + 1
                    &&& next.wf()
                },
            },
    {
        if count == 0 {
            UsernameStep::Settled(self.candidate_name())
        } else if self.tried < 99 {
            UsernameStep::LookUp(UsernameSearch { base: self.base, tried: self.tried + 1 })
        } else {
            UsernameStep::Settled(concat3(self.base.as_str(), "_", spare))
        }
    }

    /// Goes on after `count` users were found with the candidate, with a fresh
    /// identifier to fall back on.
    pub fn answer(self, count: i64) -> (step: UsernameStep)
        ensures
            match step {
                UsernameStep::Settled(name) => {
                    ||| count == 0 && name@ == self.name()
                    ||| count != 0 && self.tried >= 99 && exists|spare: Seq<char>|
                        #[trigger] simple_uuid_text(spare) && name@ == spare_name(self.base@, spare)
                },
                UsernameStep::LookUp(next) => {
                    &&& count != 0
                    &&& self.tried < 99
                    &&& next.base == self.base
                    &&& next.tried == self.tried + 1
                    &&& next.wf()
                },
            },
    {
        let spare = fresh_simple_uuid();
        self.answer_with(count, spare.as_str())
    }
}

// ---------------------------------------------------------------------------
// Laws
// ---------------------------------------------------------------------------

/// The name that a search from the `k`-th candidate settles on when exactly the
/// names in `taken` are in use.
pub open spec fn settled_name(
    base: Seq<char>,
    k: nat,
    taken: Set<Seq<char>>,
    spare: Seq<char>,
) -> Seq<char>
    decreases 100 - k,
{
    if !taken.contains(candidate(base, k)) {
        candidate(base, k)
    } else if k < 99 {
        settled_name(base, k + 1, taken, spare)
    } else {
        spare_name(base, spare)
    }
}

/// Whether a search settles on a name when each candidate is looked up among
/// exactly the names in `taken`.
pub open spec fn settles_on(
    search: UsernameSearch,
    taken: Set<Seq<char>>,
    spare: &str,
    name: Seq<char>,
) -> bool
    decreases 100 - search.tried,
{
    exists|count: i64, step: UsernameStep|
        (count == 0) == !taken.contains(search.name()) && #[trigger] call_ensures(
            UsernameSearch::answer_with,
            (search, count, spare),
            step,
        ) && match step {
            UsernameStep::Settled(settled) => settled@ == name,
            UsernameStep::LookUp(next) => search.tried < next.tried <= 99 && settles_on(
                next,
                taken,
                spare,
                name,
            ),
        }
}

/// A search settles on [`settled_name`].
proof fn lemma_settles_on(
    search: UsernameSearch,
    taken: Set<Seq<char>>,
    spare: &str,
    name: Seq<char>,
)
    requires
        search.wf(),
        settles_on(search, taken, spare, name),
    ensures
        name == settled_name(search.base@, search.tried as nat, taken, spare@),
    decreases 100 - search.tried,
{
    let (count, step) = choose|count: i64, step: UsernameStep|
        (count == 0) == !taken.contains(search.name()) && #[trigger] call_ensures(
            UsernameSearch::answer_with,
            (search, count, spare),
            step,
        ) && match step {
            UsernameStep::Settled(settled) => settled@ == name,
            UsernameStep::LookUp(next) => search.tried < next.tried <= 99 && settles_on(
                next,
                taken,
                spare,
                name,
            ),
        };
    if let UsernameStep::LookUp(next) = step {
        lemma_settles_on(next, taken, spare, name);
    }
}

/// The search that a hint starts settles on [`settled_name`], from the first
/// candidate on.
pub proof fn law_search_settles(
    hint: &str,
    search: UsernameSearch,
    taken: Set<Seq<char>>,
    spare: &str,
    name: Seq<char>,
)
    requires
        call_ensures(UsernameSearch::start, (hint,), search),
        settles_on(search, taken, spare, name),
    ensures
        name == settled_name(base_name(hint@), 0, taken, spare@),
{
    lemma_settles_on(search, taken, spare, name);
}

/// The search settles on the first candidate that is not in use; only where all
/// hundred are in use does it fall back on the spare name.
pub proof fn law_first_free_candidate(
    base: Seq<char>,
    k: nat,
    taken: Set<Seq<char>>,
    spare: Seq<char>,
    free: nat,
)
    requires
        k <= free <= 99,
        !taken.contains(candidate(base, free)),
        forall|j: nat| k <= j < free ==> taken.contains(#[trigger] candidate(base, j)),
    ensures
        settled_name(base, k, taken, spare) == candidate(base, free),
    decreases free - k,
{
    if k < free {
        assert(taken.contains(candidate(base, k)));
        law_first_free_candidate(base, k + 1, taken, spare, free);
    }
}

/// A name that the search settles on is free, unless it is the spare name.
pub proof fn law_settled_name_is_free(
    base: Seq<char>,
    k: nat,
    taken: Set<Seq<char>>,
    spare: Seq<char>,
)
    requires
        k <= 99,
    ensures
        !taken.contains(settled_name(base, k, taken, spare)) || settled_name(base, k, taken, spare)
            == spare_name(base, spare),
    decreases 100 - k,
{
    if taken.contains(candidate(base, k)) && k < 99 {
        law_settled_name_is_free(base, k + 1, taken, spare);
    }
}

/// No candidate is tried twice.
pub proof fn law_candidates_differ(base: Seq<char>, i: nat, j: nat)
    requires
        i != j,
    ensures
        candidate(base, i) != candidate(base, j),
{
    reveal_strlit("_");
    if i == 0 {
        assert(candidate(base, j).len() > base.len());
    } else if j == 0 {
        assert(candidate(base, i).len() > base.len());
    } else if candidate(base, i) == candidate(base, j) {
        let n = base.len() + 1;
        assert(candidate(base, i).skip(n as int) =~= decimal(i));
        assert(candidate(base, j).skip(n as int) =~= decimal(j));
        law_decimal_injective(i, j);
    }
}

/// What is kept of a text is made of what is to be kept.
proof fn lemma_filter_holds(s: Seq<char>, keep: spec_fn(char) -> bool)
    ensures
        forall|i: int| 0 <= i < s.filter(keep).len() ==> keep(#[trigger] s.filter(keep)[i]),
    decreases s.len(),
{
    reveal(Seq::filter);
    if s.len() > 0 {
        lemma_filter_holds(s.drop_last(), keep);
    }
}

/// A suggested name is one to 32 characters long, and every name that the
/// search can settle on is made of username characters.
pub proof fn law_names_are_usernames(hint: Seq<char>, k: nat, spare: Seq<char>)
    requires
        simple_uuid_text(spare),
    ensures
        1 <= base_name(hint).len() <= 32,
        username_text(candidate(base_name(hint), k)),
        username_text(spare_name(base_name(hint), spare)),
{
    reveal_strlit("user");
    reveal_strlit("_");
    lemma_filter_holds(hint, |c: char| username_char(c));
    let base = base_name(hint);
    assert(username_text(base));
    law_decimal_round_trip(k);
    assert forall|i: int| 0 <= i < candidate(base, k).len() implies username_char(
        #[trigger] candidate(base, k)[i],
    ) by {
        if i < base.len() {
            assert(candidate(base, k)[i] == base[i]);
        } else if i > base.len() {
            assert(is_digit(decimal(k)[i - base.len() - 1]));
        }
    }
    assert forall|i: int| 0 <= i < spare_name(base, spare).len() implies username_char(
        #[trigger] spare_name(base, spare)[i],
    ) by {
        if i < base.len() {
            assert(spare_name(base, spare)[i] == base[i]);
        } else if i > base.len() {
            assert(crate::ids::hex_digit(spare[i - base.len() - 1]));
        }
    }
}

/// A username may hold letters, numbers and underscores.
pub proof fn law_username_characters(c: char, yes: bool)
    requires
        call_ensures(is_username_char, (c,), yes),
    ensures
        yes <==> alphanumeric(c) || c == '_',
        yes == username_char(c),
{
}

/// The name that a hint suggests are the first 32 of its letters, numbers and
/// underscores, in their order, or `user` where it has none.
pub proof fn law_suggested_name(hint: &str, base: String)
    requires
        call_ensures(username_base, (hint,), base),
    ensures
        ({
            let kept = hint@.filter(|c: char| alphanumeric(c) || c == '_');
            &&& kept.len() == 0 ==> base@ == "user"@
            &&& 0 < kept.len() <= 32 ==> base@ == kept
            &&& kept.len() > 32 ==> base@ == kept.take(32)
        }),
{
    let p = |c: char| username_char(c);
    let q = |c: char| alphanumeric(c) || c == '_';
    lemma_filter_same(hint@, p, q);
}

/// A search starts with the suggested name itself, and behind it come the name with
/// an underscore and the numbers from 1 on.
pub proof fn law_candidates(
    hint: &str,
    base: String,
    first: UsernameSearch,
    search: UsernameSearch,
    name: String,
)
    requires
        call_ensures(username_base, (hint,), base),
        call_ensures(UsernameSearch::start, (hint,), first),
        call_ensures(UsernameSearch::candidate_name, (&search,), name),
    ensures
        first.base@ == base@,
        first.tried == 0,
        search.tried == 0 ==> name@ == search.base@,
        search.tried > 0 ==> {
            let n = search.base@.len() as int;
            &&& name@.len() > n + 1
            &&& name@.take(n) == search.base@
            &&& name@[n] == '_'
            &&& forall|i: int| n < i < name@.len() ==> '0' <= #[trigger] name@[i] <= '9'
            &&& digits_value(name@.skip(n + 1)) == search.tried
        },
        name@ == search.name(),
{
    reveal_strlit("_");
    if search.tried > 0 {
        let n = search.base@.len() as int;
        let number = decimal(search.tried as nat);
        law_decimal_round_trip(search.tried as nat);
        assert(name@.take(n) =~= search.base@);
        assert(name@.skip(n + 1) =~= number);
        assert forall|i: int| n < i < name@.len() implies '0' <= #[trigger] name@[i] <= '9' by {
            assert(name@[i] == number[i - n - 1]);
            assert(is_digit(number[i - n - 1]));
        }
    }
}

/// A candidate that nobody has is taken; one that somebody has makes way for the
/// next, up to the ninety-ninth, behind which the name with the spare text is
/// taken.
pub proof fn law_candidate_is_taken_when_free(
    search: UsernameSearch,
    count: i64,
    spare: &str,
    name: String,
    step: UsernameStep,
)
    requires
        call_ensures(UsernameSearch::candidate_name, (&search,), name),
        call_ensures(UsernameSearch::answer_with, (search, count, spare), step),
    ensures
        count == 0 ==> step is Settled && step->Settled_0@ == name@,
        count != 0 && search.tried < 99 ==> step is LookUp && step->LookUp_0.base == search.base
            && step->LookUp_0.tried == search.tried + 1,
        count != 0 && search.tried >= 99 ==> step is Settled && step->Settled_0@ == search.base@
            + "_"@ + spare@,
{
}

/// With a fresh identifier as the spare text it is the same.
pub proof fn law_answer_with_a_fresh_text(
    search: UsernameSearch,
    count: i64,
    name: String,
    step: UsernameStep,
)
    requires
        call_ensures(UsernameSearch::candidate_name, (&search,), name),
        call_ensures(UsernameSearch::answer, (search, count), step),
    ensures
        count == 0 ==> step is Settled && step->Settled_0@ == name@,
        count != 0 && search.tried < 99 ==> step is LookUp && step->LookUp_0.base == search.base
            && step->LookUp_0.tried == search.tried + 1,
        count != 0 && search.tried >= 99 ==> step is Settled && step->Settled_0@.len()
            == search.base@.len() + 33 && step->Settled_0@.take(search.base@.len() as int)
            == search.base@ && step->Settled_0@[search.base@.len() as int] == '_',
{
    reveal_strlit("_");
    if count != 0 && search.tried >= 99 {
        let spare = choose|spare: Seq<char>|
            #[trigger] simple_uuid_text(spare) && step->Settled_0@ == spare_name(
                search.base@,
                spare,
            );
        assert(spare_name(search.base@, spare).take(search.base@.len() as int) =~= search.base@);
    }
}

} // verus!
