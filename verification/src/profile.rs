//! Profiles: showing and editing them, and following users.
//!
//! A step names the work to do next; its `then` takes what came of it and gives
//! the next step. An error is the text that the user is shown.

use crate::session::CurrentUser;
use crate::store::{
    count_follow, count_follow_stmt, count_taken, count_taken_stmt, delete_follow,
    delete_follow_stmt, find_profile, find_profile_stmt, insert_follow, insert_follow_stmt,
    update_user, update_user_stmt, DbError, SqlData, Statement, StatementData, COUNT_FOLLOW,
    COUNT_TAKEN, DELETE_FOLLOW, FIND_PROFILE, INSERT_FOLLOW, UPDATE_USER,
};
use crate::text::{alphanumeric, byte_len, chars_of, opt_text, utf8_len};
use crate::username::{is_username_char, username_char, username_text};
use vstd::prelude::*;
use vstd::utf8::encode_utf8;

verus! {

/// Whether an outcome is the error with a text.
pub open spec fn refused<T>(outcome: Result<T, String>, text: Seq<char>) -> bool {
    outcome is Err && outcome->Err_0@ == text
}

/// The outcome of an action that runs one statement.
pub fn action_outcome(run: Result<(), DbError>) -> (outcome: Result<(), String>)
    ensures
        match run {
            Ok(_) => outcome == Ok::<(), String>(()),
            Err(e) => refused(outcome, e.message@),
        },
{
    match run {
        Ok(_) => Ok(()),
        Err(e) => Err(e.message),
    }
}

// ---------------------------------------------------------------------------
// Showing a profile
// ---------------------------------------------------------------------------

/// A user's profile as a viewer sees it.
#[derive(Debug, Clone)]
pub struct UserProfile {
    pub username: String,
    pub bio: Option<String>,
    pub follower_count: i64,
    pub following_count: i64,
    pub joined_at: String,
    /// Whether the viewer is the user.
    pub is_self: bool,
    /// Whether the viewer follows the user.
    pub is_following: bool,
}

/// A user's row, with the numbers of followers and of followed users.
pub struct ProfileRow {
    pub user_id: String,
    pub bio: Option<String>,
    pub created_at: String,
    pub follower_count: i64,
    pub following_count: i64,
}

/// The next step of showing a profile.
pub enum ProfileStep {
    /// Find the user's row: at most one.
    FindProfile { statement: Statement, then: ProfileLookup },
    /// Count whether the viewer follows the user.
    CountFollow { statement: Statement, then: FollowCounted },
    /// Answer; `None` where there is no such user.
    Done(Result<Option<UserProfile>, String>),
}

/// Waits for the user's row.
pub struct ProfileLookup {
    pub username: String,
    pub viewer: Option<CurrentUser>,
}

/// Waits for the count.
pub struct FollowCounted {
    pub username: String,
    pub row: ProfileRow,
}

/// The profile that a row stands for.
pub open spec fn profile_of(
    username: String,
    row: ProfileRow,
    is_self: bool,
    is_following: bool,
) -> UserProfile {
    UserProfile {
        username,
        bio: row.bio,
        follower_count: row.follower_count,
        following_count: row.following_count,
        joined_at: row.created_at,
        is_self,
        is_following,
    }
}

/// The profile that a row stands for.
fn make_profile(username: String, row: ProfileRow, is_self: bool, is_following: bool) -> (profile:
    UserProfile)
    ensures
        profile == profile_of(username, row, is_self, is_following),
{
    UserProfile {
        username,
        bio: row.bio,
        follower_count: row.follower_count,
        following_count: row.following_count,
        joined_at: row.created_at,
        is_self,
        is_following,
    }
}

/// Shows a user's profile to a viewer.
pub fn get_user_profile(username: String, viewer: Option<CurrentUser>) -> (step: ProfileStep)
    ensures
        step matches ProfileStep::FindProfile { statement, then } && statement@
            == find_profile_stmt(username@) && then.username == username && then.viewer == viewer,
{
    ProfileStep::FindProfile {
        statement: find_profile(username.as_str()),
        then: ProfileLookup { username, viewer },
    }
}

impl ProfileLookup {
    /// Answers, unless the viewer is another user: then it has to be known
    /// whether the viewer follows the user.
    pub fn resume(self, found: Result<Option<ProfileRow>, DbError>) -> (step: ProfileStep)
        ensures
            match found {
                Err(e) => step matches ProfileStep::Done(outcome) && refused(outcome, e.message@),
                Ok(None) => step == ProfileStep::Done(Ok(None)),
                Ok(Some(row)) => match self.viewer {
                    None => step == ProfileStep::Done(
                        Ok(Some(profile_of(self.username, row, false, false))),
                    ),
                    Some(v) => if v.user_id@ == row.user_id@ {
                        step == ProfileStep::Done(
                            Ok(Some(profile_of(self.username, row, true, false))),
                        )
                    } else {
                        step matches ProfileStep::CountFollow { statement, then } && statement@
                            == count_follow_stmt(v.user_id@, row.user_id@) && then.username
                            == self.username && then.row == row
                    },
                },
            },
    {
        match found {
            Err(e) => ProfileStep::Done(Err(e.message)),
            Ok(None) => ProfileStep::Done(Ok(None)),
            Ok(Some(row)) => match &self.viewer {
                None => ProfileStep::Done(
                    Ok(Some(make_profile(self.username, row, false, false))),
                ),
                Some(v) => if v.user_id == row.user_id {
                    ProfileStep::Done(Ok(Some(make_profile(self.username, row, true, false))))
                } else {
                    ProfileStep::CountFollow {
                        statement: count_follow(v.user_id.as_str(), row.user_id.as_str()),
                        then: FollowCounted { username: self.username, row },
                    }
                },
            },
        }
    }
}

impl FollowCounted {
    /// Answers. Where the count failed, the viewer counts as not following.
    pub fn resume(self, count: Result<i64, DbError>) -> (step: ProfileStep)
        ensures
            step == ProfileStep::Done(
                Ok(
                    Some(
                        profile_of(
                            self.username,
                            self.row,
                            false,
                            count is Ok && count->Ok_0 > 0,
                        ),
                    ),
                ),
            ),
    {
        let is_following = match count {
            Ok(n) => n > 0,
            Err(_) => false,
        };
        ProfileStep::Done(
            Ok(Some(make_profile(self.username, self.row, false, is_following))),
        )
    }
}

// ---------------------------------------------------------------------------
// Editing a profile
// ---------------------------------------------------------------------------

/// The next step of editing a profile.
pub enum UpdateStep {
    /// Count the other users with the new name.
    CountTaken { statement: Statement, then: TakenCounted },
    /// Change the user's row.
    UpdateUser { statement: Statement, then: UserUpdated },
    /// Answer.
    Done(Result<(), String>),
}

/// Waits for the number of other users with the new name.
pub struct TakenCounted {
    pub user_id: String,
    pub new_username: String,
    pub new_bio: String,
}

/// Waits for the user's row to be changed.
pub struct UserUpdated {}

/// Whether a step refuses the request with a text.
pub open spec fn update_refused(step: UpdateStep, text: Seq<char>) -> bool {
    step matches UpdateStep::Done(outcome) && refused(outcome, text)
}

/// What is wrong with a new username, if something is: it takes from 3 to 32
/// bytes and holds letters, digits and underscores only.
pub open spec fn username_fault(name: Seq<char>) -> Option<Seq<char>> {
    if byte_len(name) < 3 || byte_len(name) > 32 {
        Some("Username must be 3–32 characters"@)
    } else if !username_text(name) {
        Some("Username may only contain letters, digits, and underscores"@)
    } else {
        None
    }
}

/// Finds what is wrong with a new username.
pub fn check_username(name: &str) -> (fault: Option<String>)
    ensures
        opt_text(fault) == username_fault(name@),
{
    let n = utf8_len(name);
    if n < 3 || n > 32 {
        return Some("Username must be 3–32 characters".to_string());
    }
    let chars = chars_of(name);
    let mut i: usize = 0;
    while i < chars.len()
        invariant
            i <= chars@.len(),
            chars@ == name@,
            3 <= byte_len(name@) <= 32,
            forall|k: int| 0 <= k < i ==> username_char(#[trigger] name@[k]),
        decreases chars@.len() - i,
    {
        if !is_username_char(chars[i]) {
            assert(!username_char(name@[i as int]));
            return Some("Username may only contain letters, digits, and underscores".to_string());
        }
        i = i + 1;
    }
    None
}

/// Edits the profile of the user that the request comes from.
pub fn update_profile(
    viewer: Option<CurrentUser>,
    new_username: String,
    new_bio: String,
) -> (step: UpdateStep)
    ensures
        match viewer {
            None => update_refused(step, "Not logged in"@),
            Some(v) => match username_fault(new_username@) {
                Some(fault) => update_refused(step, fault),
                None => step matches UpdateStep::CountTaken { statement, then } && statement@
                    == count_taken_stmt(new_username@, v.user_id@) && then.user_id == v.user_id
                    && then.new_username == new_username && then.new_bio == new_bio,
            },
        },
{
    match viewer {
        None => UpdateStep::Done(Err("Not logged in".to_string())),
        Some(v) => match check_username(new_username.as_str()) {
            Some(fault) => UpdateStep::Done(Err(fault)),
            None => UpdateStep::CountTaken {
                statement: count_taken(new_username.as_str(), v.user_id.as_str()),
                then: TakenCounted { user_id: v.user_id, new_username, new_bio },
            },
        },
    }
}

/// A bio as it is stored: none where it is empty.
pub open spec fn stored_bio(bio: Seq<char>) -> Option<Seq<char>> {
    if bio.len() == 0 {
        None
    } else {
        Some(bio)
    }
}

impl TakenCounted {
    /// Changes the user's row, unless another user has the new name.
    pub fn resume(self, taken: Result<i64, DbError>) -> (step: UpdateStep)
        ensures
            match taken {
                Err(e) => update_refused(step, e.message@),
                Ok(n) => if n > 0 {
                    update_refused(step, "Username is already taken"@)
                } else {
                    step matches UpdateStep::UpdateUser { statement, then } && statement@
                        == update_user_stmt(
                        self.new_username@,
                        stored_bio(self.new_bio@),
                        self.user_id@,
                    )
                },
            },
    {
        match taken {
            Err(e) => UpdateStep::Done(Err(e.message)),
            Ok(n) => if n > 0 {
                UpdateStep::Done(Err("Username is already taken".to_string()))
            } else {
                let bio = if self.new_bio.as_str().is_empty() {
                    None
                } else {
                    Some(self.new_bio)
                };
                UpdateStep::UpdateUser {
                    statement: update_user(
                        self.new_username.as_str(),
                        &bio,
                        self.user_id.as_str(),
                    ),
                    then: UserUpdated {  },
                }
            },
        }
    }
}

impl UserUpdated {
    /// Answers.
    pub fn resume(self, updated: Result<(), DbError>) -> (step: UpdateStep)
        ensures
            match updated {
                Err(e) => update_refused(step, e.message@),
                Ok(_) => step == UpdateStep::Done(Ok(())),
            },
    {
        UpdateStep::Done(action_outcome(updated))
    }
}

// ---------------------------------------------------------------------------
// Following
// ---------------------------------------------------------------------------

/// Whether an action is the one statement, or is refused because the request
/// comes from nobody.
pub open spec fn signed_in_action(
    action: Result<Statement, String>,
    viewer: Option<CurrentUser>,
    statement: StatementData,
) -> bool {
    match viewer {
        None => refused(action, "Not logged in"@),
        Some(_) => action is Ok && action->Ok_0@ == statement,
    }
}

/// The identifier of the user that a request comes from; empty for nobody.
pub open spec fn viewer_id(viewer: Option<CurrentUser>) -> Seq<char> {
    match viewer {
        Some(v) => v.user_id@,
        None => Seq::empty(),
    }
}

/// Lets the user that the request comes from follow another. The answer is the
/// [`action_outcome`] of the statement.
pub fn follow_user(viewer: &Option<CurrentUser>, target_username: &str) -> (action: Result<
    Statement,
    String,
>)
    ensures
        signed_in_action(
            action,
            *viewer,
            insert_follow_stmt(viewer_id(*viewer), target_username@),
        ),
{
    match viewer {
        None => Err("Not logged in".to_string()),
        Some(v) => Ok(insert_follow(v.user_id.as_str(), target_username)),
    }
}

/// Lets the user that the request comes from follow another no longer. The
/// answer is the [`action_outcome`] of the statement.
pub fn unfollow_user(viewer: &Option<CurrentUser>, target_username: &str) -> (action: Result<
    Statement,
    String,
>)
    ensures
        signed_in_action(
            action,
            *viewer,
            delete_follow_stmt(viewer_id(*viewer), target_username@),
        ),
{
    match viewer {
        None => Err("Not logged in".to_string()),
        Some(v) => Ok(delete_follow(v.user_id.as_str(), target_username)),
    }
}

// ---------------------------------------------------------------------------
// Laws
// ---------------------------------------------------------------------------

/// Who follows whom after one user follows another, both by their identifiers.
/// Nobody follows themselves.
pub open spec fn after_follow(
    follows: Set<(Seq<char>, Seq<char>)>,
    follower_id: Seq<char>,
    followee_id: Seq<char>,
) -> Set<(Seq<char>, Seq<char>)> {
    if follower_id == followee_id {
        follows
    } else {
        follows.insert((follower_id, followee_id))
    }
}

/// Who follows whom after one user follows another no longer.
pub open spec fn after_unfollow(
    follows: Set<(Seq<char>, Seq<char>)>,
    follower_id: Seq<char>,
    followee_id: Seq<char>,
) -> Set<(Seq<char>, Seq<char>)> {
    follows.remove((follower_id, followee_id))
}

/// Who follows whom after a statement has run on a database in which `users`
/// gives the identifier of each username: what [`INSERT_FOLLOW`] and
/// [`DELETE_FOLLOW`] do. A name that nobody has changes nothing.
pub open spec fn after_statement(
    users: Map<Seq<char>, Seq<char>>,
    follows: Set<(Seq<char>, Seq<char>)>,
    statement: StatementData,
) -> Set<(Seq<char>, Seq<char>)> {
    match (statement.params[0], statement.params[1]) {
        (SqlData::Text(follower_id), SqlData::Text(name)) => if !users.contains_key(name) {
            follows
        } else if statement.sql == INSERT_FOLLOW@ {
            after_follow(follows, follower_id, users[name])
        } else if statement.sql == DELETE_FOLLOW@ {
            after_unfollow(follows, follower_id, users[name])
        } else {
            follows
        },
        _ => follows,
    }
}

/// Following and then unfollowing a user whom one did not follow leaves
/// everything as it was.
pub proof fn law_unfollow_undoes_follow(
    follows: Set<(Seq<char>, Seq<char>)>,
    v: Seq<char>,
    t: Seq<char>,
)
    ensures
        !follows.contains((v, t)) ==> after_unfollow(after_follow(follows, v, t), v, t) == follows,
        v != t ==> after_follow(follows, v, t).contains((v, t)),
        !after_unfollow(follows, v, t).contains((v, t)),
{
    if !follows.contains((v, t)) {
        assert(after_unfollow(after_follow(follows, v, t), v, t) =~= follows);
    }
}

/// The two statements differ.
proof fn lemma_follow_statements_differ()
    ensures
        INSERT_FOLLOW@ != DELETE_FOLLOW@,
{
    reveal_strlit(
        "INSERT OR IGNORE INTO follows (follower_id, followee_id) \
         SELECT ?, user_id FROM users WHERE username = ?",
    );
    reveal_strlit(
        "DELETE FROM follows WHERE follower_id = ? \
         AND followee_id = (SELECT user_id FROM users WHERE username = ?)",
    );
    assert(INSERT_FOLLOW@[0] == 'I');
    assert(DELETE_FOLLOW@[0] == 'D');
}

/// A user who follows another through [`follow_user`] and then no longer through
/// [`unfollow_user`] is where they were: both succeed, the other is followed in
/// between, and in the end everybody follows whom they followed before.
pub proof fn law_unfollow_user_undoes_follow_user(
    viewer: Option<CurrentUser>,
    target_username: &str,
    followed: Result<Statement, String>,
    unfollowed: Result<Statement, String>,
    users: Map<Seq<char>, Seq<char>>,
    follows: Set<(Seq<char>, Seq<char>)>,
)
    requires
        viewer is Some,
        users.contains_key(target_username@),
        users[target_username@] != viewer_id(viewer),
        !follows.contains((viewer_id(viewer), users[target_username@])),
        call_ensures(follow_user, (&viewer, target_username), followed),
        call_ensures(unfollow_user, (&viewer, target_username), unfollowed),
    ensures
        followed is Ok,
        unfollowed is Ok,
        after_statement(users, follows, followed->Ok_0@) == follows.insert(
            (viewer_id(viewer), users[target_username@]),
        ),
        after_statement(
            users,
            after_statement(users, follows, followed->Ok_0@),
            unfollowed->Ok_0@,
        ) == follows,
{
    lemma_follow_statements_differ();
    law_unfollow_undoes_follow(follows, viewer_id(viewer), users[target_username@]);
}

/// A new username is accepted if and only if it takes 3 to 32 bytes and each of
/// its characters is a letter, a number or an underscore. The length is told of
/// first.
pub proof fn law_which_usernames_are_accepted(name: &str, fault: Option<String>)
    requires
        call_ensures(check_username, (name,), fault),
    ensures
        fault is None <==> (3 <= encode_utf8(name@).len() <= 32 && forall|i: int|
            0 <= i < name@.len() ==> alphanumeric(#[trigger] name@[i]) || name@[i] == '_'),
        fault is Some && (encode_utf8(name@).len() < 3 || encode_utf8(name@).len() > 32)
            ==> fault->0@ == "Username must be 3–32 characters"@,
        fault is Some && 3 <= encode_utf8(name@).len() <= 32 ==> fault->0@
            == "Username may only contain letters, digits, and underscores"@,
{
    if username_text(name@) {
        assert forall|i: int| 0 <= i < name@.len() implies alphanumeric(#[trigger] name@[i])
            || name@[i] == '_' by {
            assert(username_char(name@[i]));
        }
    } else {
        let i = choose|i: int| 0 <= i < name@.len() && !username_char(#[trigger] name@[i]);
        assert(!alphanumeric(name@[i]) && name@[i] != '_');
    }
}

/// Editing a profile with a name that is accepted asks whether somebody else has
/// it, and then sets the name and the bio of the user of the request, to none where
/// the bio is empty.
pub proof fn law_profile_is_edited(
    viewer: CurrentUser,
    new_username: String,
    name: &str,
    new_bio: String,
    count: i64,
    ask: UpdateStep,
    change: UpdateStep,
    last: UpdateStep,
)
    requires
        name@ == new_username@,
        call_ensures(check_username, (name,), None::<String>),
        call_ensures(update_profile, (Some(viewer), new_username, new_bio), ask),
        count <= 0,
        call_ensures(TakenCounted::resume, (ask->CountTaken_then, Ok::<i64, DbError>(count)), change),
        call_ensures(UserUpdated::resume, (change->UpdateUser_then, Ok::<(), DbError>(())), last),
    ensures
        ask is CountTaken,
        ask->CountTaken_statement@.sql == COUNT_TAKEN@,
        ask->CountTaken_statement@.params == seq![
            SqlData::Text(new_username@),
            SqlData::Text(viewer.user_id@),
        ],
        change is UpdateUser,
        change->UpdateUser_statement@.sql == UPDATE_USER@,
        change->UpdateUser_statement@.params == seq![
            SqlData::Text(new_username@),
            if new_bio@.len() == 0 {
                SqlData::Null
            } else {
                SqlData::Text(new_bio@)
            },
            SqlData::Text(viewer.user_id@),
        ],
        last == UpdateStep::Done(Ok(())),
{
}

/// Editing a profile is refused to nobody's request, with a name that has a fault,
/// with one that another user has, and where the database fails.
pub proof fn law_profile_edit_is_refused(
    viewer: Option<CurrentUser>,
    new_username: String,
    name: &str,
    new_bio: String,
    fault: Option<String>,
    asked: UpdateStep,
    counted: TakenCounted,
    updated: UserUpdated,
    count: i64,
    e: DbError,
    taken: UpdateStep,
    uncounted: UpdateStep,
    unchanged: UpdateStep,
)
    requires
        name@ == new_username@,
        call_ensures(check_username, (name,), fault),
        call_ensures(update_profile, (viewer, new_username, new_bio), asked),
        count > 0,
        call_ensures(TakenCounted::resume, (counted, Ok::<i64, DbError>(count)), taken),
        call_ensures(TakenCounted::resume, (counted, Err::<i64, DbError>(e)), uncounted),
        call_ensures(UserUpdated::resume, (updated, Err::<(), DbError>(e)), unchanged),
    ensures
        viewer is None ==> asked is Done && asked->Done_0 is Err && asked->Done_0->Err_0@
            == "Not logged in"@,
        viewer is Some && fault is Some ==> asked is Done && asked->Done_0 is Err
            && asked->Done_0->Err_0@ == fault->0@,
        viewer is Some && fault is None ==> asked is CountTaken,
        taken is Done && taken->Done_0 is Err && taken->Done_0->Err_0@
            == "Username is already taken"@,
        uncounted is Done && uncounted->Done_0 is Err && uncounted->Done_0->Err_0@ == e.message@,
        unchanged is Done && unchanged->Done_0 is Err && unchanged->Done_0->Err_0@ == e.message@,
{
}

/// A profile shows the row of the user who has the name: to nobody without more
/// ado, to the user as their own, and to another user with what the count of the
/// viewer's follows of that user says.
pub proof fn law_profile_shows_the_user(
    username: String,
    viewer: Option<CurrentUser>,
    row: ProfileRow,
    count: Result<i64, DbError>,
    find: ProfileStep,
    found: ProfileStep,
    last: ProfileStep,
)
    requires
        call_ensures(get_user_profile, (username, viewer), find),
        call_ensures(
            ProfileLookup::resume,
            (find->FindProfile_then, Ok::<Option<ProfileRow>, DbError>(Some(row))),
            found,
        ),
        call_ensures(FollowCounted::resume, (found->CountFollow_then, count), last),
    ensures
        find is FindProfile,
        find->FindProfile_statement@.sql == FIND_PROFILE@,
        find->FindProfile_statement@.params == seq![SqlData::Text(username@)],
        viewer is None ==> found is Done && found->Done_0 is Ok && found->Done_0->Ok_0 is Some && {
            let p = found->Done_0->Ok_0->0;
            p.username == username && p.bio == row.bio
                && p.follower_count == row.follower_count && p.following_count
                == row.following_count && p.joined_at == row.created_at && !p.is_self
                && !p.is_following
        },
        viewer is Some && viewer->0.user_id@ == row.user_id@ ==> found is Done
            && found->Done_0 is Ok && found->Done_0->Ok_0 is Some && {
            let p = found->Done_0->Ok_0->0;
            p.username == username && p.bio == row.bio && p.follower_count == row.follower_count
                && p.following_count == row.following_count && p.joined_at == row.created_at
                && p.is_self && !p.is_following
        },
        viewer is Some && viewer->0.user_id@ != row.user_id@ ==> {
            &&& found is CountFollow
            &&& found->CountFollow_statement@.sql == COUNT_FOLLOW@
            &&& found->CountFollow_statement@.params == seq![
                SqlData::Text(viewer->0.user_id@),
                SqlData::Text(row.user_id@),
            ]
            &&& last is Done && last->Done_0 is Ok && last->Done_0->Ok_0 is Some
            &&& ({
                let p = last->Done_0->Ok_0->0;
                p.username == username && p.bio == row.bio && p.follower_count
                    == row.follower_count && p.following_count == row.following_count
                    && p.joined_at == row.created_at && !p.is_self && (p.is_following <==> (
                count matches Ok(n) && n > 0))
            })
        },
{
}

/// A name that nobody has shows no profile, and a failed lookup is told.
pub proof fn law_no_profile_to_show(
    lookup: ProfileLookup,
    e: DbError,
    none: ProfileStep,
    failed: ProfileStep,
)
    requires
        call_ensures(
            ProfileLookup::resume,
            (lookup, Ok::<Option<ProfileRow>, DbError>(None)),
            none,
        ),
        call_ensures(
            ProfileLookup::resume,
            (lookup, Err::<Option<ProfileRow>, DbError>(e)),
            failed,
        ),
    ensures
        none == ProfileStep::Done(Ok(None)),
        failed is Done && failed->Done_0 is Err && failed->Done_0->Err_0@ == e.message@,
{
}

/// Following and unfollowing is done by the user of the request, to the user with
/// the name, each by its own statement; nobody can.
pub proof fn law_who_follows_whom(
    viewer: Option<CurrentUser>,
    target_username: &str,
    followed: Result<Statement, String>,
    unfollowed: Result<Statement, String>,
)
    requires
        call_ensures(follow_user, (&viewer, target_username), followed),
        call_ensures(unfollow_user, (&viewer, target_username), unfollowed),
    ensures
        viewer is None ==> followed is Err && followed->Err_0@ == "Not logged in"@ && unfollowed is Err
            && unfollowed->Err_0@ == "Not logged in"@,
        viewer matches Some(v) ==> {
            let params = seq![SqlData::Text(v.user_id@), SqlData::Text(target_username@)];
            &&& followed is Ok && followed->Ok_0@.sql == INSERT_FOLLOW@ && followed->Ok_0@.params
                == params
            &&& unfollowed is Ok && unfollowed->Ok_0@.sql == DELETE_FOLLOW@
                && unfollowed->Ok_0@.params == params
        },
{
}

/// What came of an action that runs one statement is what came of the statement.
pub proof fn law_action_outcome(run: Result<(), DbError>, outcome: Result<(), String>)
    requires
        call_ensures(action_outcome, (run,), outcome),
    ensures
        run is Ok <==> outcome is Ok,
        run matches Err(e) ==> outcome->Err_0@ == e.message@,
{
}

} // verus!
