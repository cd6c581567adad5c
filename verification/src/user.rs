//! Users: the stored profile, the profile of the signed-in user, and the
//! query text that looks a user up by id.

use vstd::prelude::*;
use crate::decimal::{decimal_repr, decimal_value, lemma_decimal_roundtrip, push_decimal};

verus! {

/// A user's stored profile.
#[derive(Clone, Debug)]
pub struct UserInfo {
    pub id: i64,
    pub name: String,
    pub username: String,
    pub avatar_url: String,
    /// Code of the language the user's challenge boilerplate starts in.
    pub default_language: i32,
}

/// What the signed-in user sees of themselves: the profile, and whether
/// they have a valid commit.
#[derive(Clone, Debug)]
pub struct MeInfo {
    pub id: i64,
    pub name: String,
    pub username: String,
    pub avatar_url: String,
    pub default_language: i32,
    pub completed_correctly: bool,
}

impl MeInfo {
    /// The signed-in user's view of `user`; `has_valid_commit` says whether
    /// the lookup of the user's latest valid commit found one.
    pub fn from_user(user: UserInfo, has_valid_commit: bool) -> (me: MeInfo)
        ensures
            me.id == user.id,
            me.name == user.name,
            me.username == user.username,
            me.avatar_url == user.avatar_url,
            me.default_language == user.default_language,
            me.completed_correctly == has_valid_commit,
    {
        MeInfo {
            id: user.id,
            name: user.name,
            username: user.username,
            avatar_url: user.avatar_url,
            default_language: user.default_language,
            completed_correctly: has_valid_commit,
        }
    }
}

/// The fixed head of the query that selects a user by id.
pub open spec fn user_query_head() -> Seq<char> {
    "SELECT * FROM users WHERE id = "@
}

/// The query text that selects the user `user_id`: the fixed head followed
/// by the decimal text of the id and nothing else.
pub fn user_by_id_query(user_id: i64) -> (q: String)
    ensures
        q@ == user_query_head() + decimal_repr(user_id as int),
{
    let mut q = String::from_str("SELECT * FROM users WHERE id = ");
    push_decimal(&mut q, user_id);
    q
}

/// The query that `user_by_id_query` writes names exactly the user it was
/// asked for: what follows the fixed head reads back as that user's id.
pub proof fn lemma_user_query_names_user(user_id: i64, q: Seq<char>)
    requires
        q == user_query_head() + decimal_repr(user_id as int),
    ensures
        q.subrange(0, user_query_head().len() as int) == user_query_head(),
        decimal_value(q.skip(user_query_head().len() as int)) == Some(user_id as int),
{
    lemma_decimal_roundtrip(user_id as int);
    assert(q.subrange(0, user_query_head().len() as int) =~= user_query_head());
    assert(q.skip(user_query_head().len() as int) =~= decimal_repr(user_id as int));
}

/// Whether an insert of a user that skips existing ids added a row, from the
/// number of rows it affected.
pub fn user_was_added(rows_affected: u64) -> (added: bool)
    ensures
        added == (rows_affected > 0),
{
    rows_affected > 0
}

} // verus!
