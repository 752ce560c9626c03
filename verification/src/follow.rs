//! The lists of a user's followers and of the users that a user follows.

use crate::profile::{refused, viewer_id};
use crate::session::CurrentUser;
use crate::store::{
    list_followers, list_followers_stmt, list_following, list_following_stmt, DbError, SqlData,
    Statement, LIST_FOLLOWERS, LIST_FOLLOWING,
};
use crate::text::chars_of;
use vstd::prelude::*;

verus! {

/// The number of users on a page. One row more is asked for, which tells
/// whether there are more pages.
pub const FOLLOW_PAGE_SIZE: usize = 20;

/// A user on a list, as a viewer sees them.
pub struct FollowEntry {
    pub user_id: String,
    pub username: String,
    pub bio: Option<String>,
    pub follower_count: i64,
    /// Whether the viewer follows the user.
    pub is_following: bool,
}

/// A row of a list.
pub struct FollowRow {
    pub user_id: String,
    pub username: String,
    pub bio: Option<String>,
    pub follower_count: i64,
    /// One where the viewer follows the user, zero otherwise.
    pub is_following: i64,
}

/// A page of a list.
pub struct FollowPage {
    pub users: Vec<FollowEntry>,
    /// Whether there are more pages.
    pub has_more: bool,
}

/// A character as a `LIKE` pattern writes it: the pattern's own characters are
/// preceded by a backslash.
pub open spec fn like_char(c: char) -> Seq<char> {
    if c == '\\' || c == '%' || c == '_' {
        seq!['\\', c]
    } else {
        seq![c]
    }
}

/// A text as a `LIKE` pattern writes it.
pub open spec fn like_text(s: Seq<char>) -> Seq<char>
    decreases s.len(),
{
    if s.len() == 0 {
        Seq::empty()
    } else {
        like_text(s.drop_last()) + like_char(s.last())
    }
}

/// The pattern that matches the names that hold a query; every name where the
/// query is empty.
pub open spec fn like_pattern(query: Seq<char>) -> Seq<char> {
    if query.len() == 0 {
        seq!['%']
    } else {
        seq!['%'] + like_text(query) + seq!['%']
    }
}

/// Builds the pattern that matches the names that hold a query.
pub fn pattern_of(query: &str) -> (pattern: String)
    ensures
        pattern@ == like_pattern(query@),
{
    let chars = chars_of(query);
    let mut pattern = String::new();
    pattern.push('%');
    assert(pattern@ =~= seq!['%']);
    if chars.len() == 0 {
        return pattern;
    }
    let mut i: usize = 0;
    assert(seq!['%'] + like_text(query@.take(0)) =~= seq!['%']);
    while i < chars.len()
        invariant
            i <= chars@.len(),
            chars@ == query@,
            pattern@ == seq!['%'] + like_text(query@.take(i as int)),
        decreases chars@.len() - i,
    {
        let c = chars[i];
        let ghost before = like_text(query@.take(i as int));
        assert(query@.take(i + 1).drop_last() =~= query@.take(i as int));
        assert(query@.take(i + 1).last() == c);
        if c == '\\' || c == '%' || c == '_' {
            pattern.push('\\');
        }
        pattern.push(c);
        assert(pattern@ =~= seq!['%'] + (before + like_char(c)));
        i = i + 1;
    }
    assert(query@.take(query@.len() as int) =~= query@);
    pattern.push('%');
    assert(pattern@ =~= seq!['%'] + like_text(query@) + seq!['%']);
    pattern
}

/// The number of users before a page; pages count from one.
pub open spec fn follow_offset(page: u32) -> int {
    if page == 0 {
        0
    } else {
        (page - 1) * FOLLOW_PAGE_SIZE
    }
}

/// The number of users before a page.
fn offset_of(page: u32) -> (offset: i64)
    ensures
        offset == follow_offset(page),
{
    if page == 0 {
        0
    } else {
        (page as i64 - 1) * 20
    }
}

/// The identifier of the user that a request comes from; empty for nobody.
fn id_of(viewer: &Option<CurrentUser>) -> (id: String)
    ensures
        id@ == viewer_id(*viewer),
{
    match viewer {
        Some(v) => v.user_id.clone(),
        None => {
            let id = String::new();
            assert(id@ =~= Seq::<char>::empty());
            id
        },
    }
}

/// Lists a page of the users who follow a user and whose names hold a query. The
/// answer is what [`follow_page`] makes of the rows.
pub fn get_followers(
    viewer: &Option<CurrentUser>,
    username: &str,
    query: &str,
    page: u32,
) -> (statement: Statement)
    ensures
        statement@ == list_followers_stmt(
            username@,
            viewer_id(*viewer),
            query@,
            like_pattern(query@),
            follow_offset(page),
        ),
{
    list_followers(
        username,
        id_of(viewer).as_str(),
        query,
        pattern_of(query).as_str(),
        offset_of(page),
    )
}

/// Lists a page of the users whom a user follows and whose names hold a query.
/// The answer is what [`follow_page`] makes of the rows.
pub fn get_following(
    viewer: &Option<CurrentUser>,
    username: &str,
    query: &str,
    page: u32,
) -> (statement: Statement)
    ensures
        statement@ == list_following_stmt(
            username@,
            viewer_id(*viewer),
            query@,
            like_pattern(query@),
            follow_offset(page),
        ),
{
    list_following(
        username,
        id_of(viewer).as_str(),
        query,
        pattern_of(query).as_str(),
        offset_of(page),
    )
}

/// The user that a row stands for.
pub open spec fn entry_of(row: FollowRow) -> FollowEntry {
    FollowEntry {
        user_id: row.user_id,
        username: row.username,
        bio: row.bio,
        follower_count: row.follower_count,
        is_following: row.is_following != 0,
    }
}

/// The users of a page that rows stand for: no more than fit on the page.
pub open spec fn page_entries(rows: Seq<FollowRow>) -> Seq<FollowEntry> {
    let shown = if rows.len() > FOLLOW_PAGE_SIZE {
        rows.take(FOLLOW_PAGE_SIZE as int)
    } else {
        rows
    };
    shown.map_values(|r: FollowRow| entry_of(r))
}

/// The page that rows stand for. There are more pages where there are more rows
/// than fit on the page.
pub fn follow_page(rows: Result<Vec<FollowRow>, DbError>) -> (page: Result<FollowPage, String>)
    ensures
        match rows {
            Err(e) => refused(page, e.message@),
            Ok(rs) => page is Ok && page->Ok_0.users@ == page_entries(rs@) && page->Ok_0.has_more
                == (rs@.len() > FOLLOW_PAGE_SIZE),
        },
{
    match rows {
        Err(e) => Err(e.message),
        Ok(rs) => {
            let has_more = rs.len() > FOLLOW_PAGE_SIZE;
            let ghost all = rs@;
            let mut rs = rs;
            if has_more {
                rs.truncate(FOLLOW_PAGE_SIZE);
            }
            let ghost shown = rs@;
            let mut users: Vec<FollowEntry> = Vec::new();
            let ghost mut done: int = 0;
            assert(shown.skip(0) =~= shown);
            while rs.len() > 0
                invariant
                    0 <= done <= shown.len(),
                    rs@ == shown.skip(done),
                    users@ =~= shown.take(done).map_values(|r: FollowRow| entry_of(r)),
                decreases rs@.len(),
            {
                let row = rs.remove(0);
                assert(rs@ =~= shown.skip(done + 1));
                users.push(
                    FollowEntry {
                        user_id: row.user_id,
                        username: row.username,
                        bio: row.bio,
                        follower_count: row.follower_count,
                        is_following: row.is_following != 0,
                    },
                );
                proof {
                    done = done + 1;
                }
            }
            assert(shown.take(done) =~= shown);
            Ok(FollowPage { users, has_more })
        },
    }
}

/// `n`, but no more than `most`.
pub open spec fn no_more_than(n: int, most: int) -> int {
    if n <= most {
        n
    } else {
        most
    }
}

/// The rows that the database returns for a page of a whole list: one more than
/// fit on the page, where there are as many.
pub open spec fn rows_at(all: Seq<FollowRow>, page: u32) -> Seq<FollowRow> {
    let len = all.len() as int;
    let from = no_more_than(follow_offset(page), len);
    all.subrange(from, no_more_than(from + FOLLOW_PAGE_SIZE + 1, len))
}

/// A page shows the users of the list from its offset on, as many as fit on it,
/// and says that there are more where the list goes on behind them.
pub proof fn law_page_of_list(all: Seq<FollowRow>, page: u32)
    ensures
        page_entries(rows_at(all, page)) == all.subrange(
            no_more_than(follow_offset(page), all.len() as int),
            no_more_than(follow_offset(page) + FOLLOW_PAGE_SIZE, all.len() as int),
        ).map_values(|r: FollowRow| entry_of(r)),
        rows_at(all, page).len() > FOLLOW_PAGE_SIZE <==> follow_offset(page) + FOLLOW_PAGE_SIZE
            < all.len(),
{
    assert(page_entries(rows_at(all, page)) =~= all.subrange(
        no_more_than(follow_offset(page), all.len() as int),
        no_more_than(follow_offset(page) + FOLLOW_PAGE_SIZE, all.len() as int),
    ).map_values(|r: FollowRow| entry_of(r)));
}

/// Every page begins where the one before it ends.
pub proof fn law_follow_pages_adjoin(page: u32)
    requires
        1 <= page < u32::MAX,
    ensures
        follow_offset((page + 1) as u32) == follow_offset(page) + FOLLOW_PAGE_SIZE,
        follow_offset(1) == 0,
{
}

/// A page has an entry for each row, up to twenty, in the order of the rows; each
/// carries its row's own identifier, name, bio and number of followers, and says
/// whether the viewer follows the user. There are more pages exactly where there
/// are more rows.
pub proof fn law_entries_carry_their_rows(
    rows: Vec<FollowRow>,
    page: Result<FollowPage, String>,
    i: int,
)
    requires
        call_ensures(follow_page, (Ok::<Vec<FollowRow>, DbError>(rows),), page),
    ensures
        page is Ok,
        page->Ok_0.users@.len() == if rows@.len() <= 20 {
            rows@.len()
        } else {
            20
        },
        page->Ok_0.has_more <==> rows@.len() > 20,
        0 <= i < page->Ok_0.users@.len() ==> {
            let user = page->Ok_0.users@[i];
            let row = rows@[i];
            &&& user.user_id == row.user_id
            &&& user.username == row.username
            &&& user.bio == row.bio
            &&& user.follower_count == row.follower_count
            &&& user.is_following <==> row.is_following != 0
        },
{
}

/// A failure to list is told with its message.
pub proof fn law_failed_list_is_told(e: DbError, page: Result<FollowPage, String>)
    requires
        call_ensures(follow_page, (Err::<Vec<FollowRow>, DbError>(e),), page),
    ensures
        page is Err,
        page->Err_0@ == e.message@,
{
}

/// Whether a text matches a `LIKE` pattern with the backslash as escape character,
/// upper and lower case told apart: `%` stands for any text, `_` for any
/// character, and what follows a backslash for itself.
pub open spec fn like(pattern: Seq<char>, s: Seq<char>) -> bool
    decreases pattern.len(), s.len(),
{
    if pattern.len() == 0 {
        s.len() == 0
    } else if pattern[0] == '%' {
        like(pattern.skip(1), s) || (s.len() > 0 && like(pattern, s.skip(1)))
    } else if pattern[0] == '\\' && pattern.len() >= 2 {
        s.len() > 0 && s[0] == pattern[1] && like(pattern.skip(2), s.skip(1))
    } else if pattern[0] == '_' {
        s.len() > 0 && like(pattern.skip(1), s.skip(1))
    } else {
        s.len() > 0 && s[0] == pattern[0] && like(pattern.skip(1), s.skip(1))
    }
}

/// A percent sign stands for any text.
proof fn lemma_like_any(pattern: Seq<char>, s: Seq<char>)
    requires
        pattern.len() > 0,
        pattern[0] == '%',
    ensures
        like(pattern, s) <==> exists|k: int|
            0 <= k <= s.len() && #[trigger] like(pattern.skip(1), s.skip(k)),
    decreases s.len(),
{
    let rest = pattern.skip(1);
    assert(s.skip(0) =~= s);
    if s.len() == 0 {
        if exists|k: int| 0 <= k <= s.len() && #[trigger] like(rest, s.skip(k)) {
            assert(like(rest, s.skip(0)));
        }
        if like(pattern, s) {
            assert(like(rest, s.skip(0)));
        }
    } else {
        let tail = s.skip(1);
        lemma_like_any(pattern, tail);
        if like(pattern, s) {
            if like(rest, s) {
                assert(like(rest, s.skip(0)));
            } else {
                let k = choose|k: int| 0 <= k <= tail.len() && #[trigger] like(rest, tail.skip(k));
                assert(tail.skip(k) =~= s.skip(k + 1));
                assert(like(rest, s.skip(k + 1)));
            }
        }
        if exists|k: int| 0 <= k <= s.len() && #[trigger] like(rest, s.skip(k)) {
            let k = choose|k: int| 0 <= k <= s.len() && #[trigger] like(rest, s.skip(k));
            if k > 0 {
                assert(tail.skip(k - 1) =~= s.skip(k));
                assert(like(rest, tail.skip(k - 1)));
            }
        }
    }
}

/// A text is written from its front as well.
proof fn lemma_like_text_front(s: Seq<char>)
    requires
        s.len() > 0,
    ensures
        like_text(s) == like_char(s[0]) + like_text(s.drop_first()),
    decreases s.len(),
{
    reveal_with_fuel(like_text, 2);
    let rest = s.drop_first();
    if s.len() == 1 {
        assert(s.drop_last() =~= Seq::<char>::empty());
        assert(rest =~= Seq::<char>::empty());
        assert(like_text(s) =~= like_char(s[0]));
        assert(like_char(s[0]) + like_text(rest) =~= like_char(s[0]));
    } else {
        lemma_like_text_front(s.drop_last());
        assert(s.drop_last().drop_first() =~= rest.drop_last());
        assert(like_text(s) =~= like_char(s[0]) + like_text(rest));
    }
}

/// A written text matches itself, before whatever matches the rest.
proof fn lemma_like_text(q: Seq<char>, rest: Seq<char>, s: Seq<char>)
    ensures
        like(like_text(q) + rest, s) <==> (q.len() <= s.len() && s.take(q.len() as int) == q && like(
            rest,
            s.skip(q.len() as int),
        )),
    decreases q.len(),
{
    let pattern = like_text(q) + rest;
    if q.len() == 0 {
        assert(pattern =~= rest);
        assert(s.skip(0) =~= s);
        assert(s.take(0) =~= q);
    } else {
        let later = q.drop_first();
        let n = like_char(q[0]).len() as int;
        lemma_like_text_front(q);
        assert(pattern.skip(n) =~= like_text(later) + rest);
        assert(pattern[0] == like_char(q[0])[0]);
        if n == 2 {
            assert(pattern[1] == q[0]);
        }
        if s.len() > 0 {
            let tail = s.skip(1);
            lemma_like_text(later, rest, tail);
            if q.len() <= s.len() {
                assert(tail.skip(later.len() as int) =~= s.skip(q.len() as int));
                assert(s.take(q.len() as int) =~= seq![s[0]] + tail.take(later.len() as int));
                assert(q =~= seq![q[0]] + later);
                if s.take(q.len() as int) == q {
                    assert(s.take(q.len() as int)[0] == q[0]);
                    assert(tail.take(later.len() as int) =~= later);
                }
            }
        }
    }
}

/// The pattern of a query matches the names that hold the query, wherever in them,
/// and no others; whatever characters the query is made of.
pub proof fn law_pattern_matches_names_that_hold_the_query(
    query: &str,
    pattern: String,
    name: Seq<char>,
)
    requires
        call_ensures(pattern_of, (query,), pattern),
    ensures
        like(pattern@, name) <==> exists|k: int|
            0 <= k <= name.len() - query@.len() && #[trigger] name.subrange(k, k + query@.len())
                == query@,
{
    let q = query@;
    let any = seq!['%'];
    assert(any.skip(1) =~= Seq::<char>::empty());
    assert forall|t: Seq<char>| #[trigger] like(any, t) by {
        lemma_like_any(any, t);
        assert(t.skip(t.len() as int) =~= Seq::<char>::empty());
        assert(like(any.skip(1), t.skip(t.len() as int)));
    }
    if q.len() == 0 {
        assert(pattern@ =~= any);
        assert(name.subrange(0, 0) =~= q);
        assert(name.subrange(0, 0int + q.len()) == q);
    } else {
        let rest = like_text(q) + any;
        assert(pattern@ =~= any + rest);
        assert(pattern@.skip(1) =~= rest);
        assert(pattern@[0] == '%');
        lemma_like_any(pattern@, name);
        if like(pattern@, name) {
            let k = choose|k: int|
                0 <= k <= name.len() && #[trigger] like(pattern@.skip(1), name.skip(k));
            lemma_like_text(q, any, name.skip(k));
            assert(name.skip(k).take(q.len() as int) =~= name.subrange(k, k + q.len()));
        }
        if exists|k: int|
            0 <= k <= name.len() - q.len() && #[trigger] name.subrange(k, k + q.len()) == q {
            let k = choose|k: int|
                0 <= k <= name.len() - q.len() && #[trigger] name.subrange(k, k + q.len()) == q;
            lemma_like_text(q, any, name.skip(k));
            assert(name.skip(k).take(q.len() as int) =~= name.subrange(k, k + q.len()));
            assert(like(any, name.skip(k).skip(q.len() as int)));
            assert(like(pattern@.skip(1), name.skip(k)));
        }
    }
}

/// Both lists are asked for by the user's name, for the viewer (nobody has an empty
/// identifier), with the query and its pattern, and from twenty users for each page
/// before.
pub proof fn law_lists_ask_for_the_page(
    viewer: Option<CurrentUser>,
    username: &str,
    query: &str,
    page: u32,
    pattern: String,
    followers: Statement,
    following: Statement,
)
    requires
        call_ensures(pattern_of, (query,), pattern),
        call_ensures(get_followers, (&viewer, username, query, page), followers),
        call_ensures(get_following, (&viewer, username, query, page), following),
    ensures
        followers@.sql == LIST_FOLLOWERS@,
        following@.sql == LIST_FOLLOWING@,
        followers@.params == following@.params,
        followers@.params.len() == 5,
        followers@.params[0] == SqlData::Text(username@),
        viewer matches Some(v) ==> followers@.params[1] == SqlData::Text(v.user_id@),
        viewer is None ==> followers@.params[1] == SqlData::Text(Seq::empty()),
        followers@.params[2] == SqlData::Text(query@),
        followers@.params[3] == SqlData::Text(pattern@),
        followers@.params[4] == SqlData::Int(
            if page == 0 {
                0
            } else {
                20 * (page - 1)
            },
        ),
{
}

} // verus!
