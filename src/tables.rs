//! Checks on tables read back from storage, before they become a store.

use crate::model::{DBComment, DBPost, DBSession, DBUser};
use crate::moderation::Policy;
use crate::state::{
    ForumView, db_comment_rows, lists_post, post_rows, session_rows, user_rows,
};
use vstd::prelude::*;

verus! {

/// Whether no two users share a name.
pub(crate) fn usernames_unique(users: &Vec<DBUser>) -> (r: bool)
    ensures
        r == (forall|i: int, j: int|
            0 <= i < users@.len() && 0 <= j < users@.len() && i != j ==> user_rows(users@)[i].username
                != user_rows(users@)[j].username),
{
    let ghost rows = user_rows(users@);
    let n = users.len();
    for i in 0..n
        invariant
            n == users.len(),
            rows == user_rows(users@),
            forall|a: int, b: int|
                0 <= a < i && 0 <= b < i && a != b ==> rows[a].username != rows[b].username,
    {
        for j in 0..i
            invariant
                n == users.len(),
                i < n,
                rows == user_rows(users@),
                forall|a: int, b: int|
                    0 <= a < i && 0 <= b < i && a != b ==> rows[a].username != rows[b].username,
                forall|b: int| 0 <= b < j ==> rows[i as int].username != rows[b].username,
        {
            if users[i].username == users[j].username {
                proof {
                    assert(rows[i as int].username == rows[j as int].username);
                }
                return false;
            }
        }
    }
    true
}

/// Whether no two sessions share a user or an id.
pub(crate) fn sessions_unique(sessions: &Vec<DBSession>) -> (r: bool)
    ensures
        r == (forall|i: int, j: int|
            0 <= i < sessions@.len() && 0 <= j < sessions@.len() && i != j
                ==> session_rows(sessions@)[i].username != session_rows(sessions@)[j].username
                && session_rows(sessions@)[i].id != session_rows(sessions@)[j].id),
{
    let ghost rows = session_rows(sessions@);
    let n = sessions.len();
    for i in 0..n
        invariant
            n == sessions.len(),
            rows == session_rows(sessions@),
            forall|a: int, b: int|
                0 <= a < i && 0 <= b < i && a != b ==> rows[a].username != rows[b].username
                    && rows[a].id != rows[b].id,
    {
        for j in 0..i
            invariant
                n == sessions.len(),
                i < n,
                rows == session_rows(sessions@),
                forall|a: int, b: int|
                    0 <= a < i && 0 <= b < i && a != b ==> rows[a].username != rows[b].username
                        && rows[a].id != rows[b].id,
                forall|b: int|
                    0 <= b < j ==> rows[i as int].username != rows[b].username && rows[i as int].id
                        != rows[b].id,
        {
            if sessions[i].username == sessions[j].username || sessions[i].id == sessions[j].id {
                proof {
                    assert(rows[i as int].username == rows[j as int].username || rows[i as int].id
                        == rows[j as int].id);
                }
                return false;
            }
        }
    }
    true
}

/// Whether the post ids increase in table order.
pub(crate) fn post_ids_increase(posts: &Vec<DBPost>) -> (r: bool)
    ensures
        r == (forall|i: int, j: int|
            0 <= i < j < posts@.len() ==> post_rows(posts@)[i].id < post_rows(posts@)[j].id),
{
    let ghost rows = post_rows(posts@);
    let n = posts.len();
    if n == 0 {
        return true;
    }
    for i in 1..n
        invariant
            n == posts.len(),
            rows == post_rows(posts@),
            forall|a: int, b: int| 0 <= a < b < i ==> rows[a].id < rows[b].id,
    {
        if posts[i - 1].id >= posts[i].id {
            proof {
                assert(rows[i - 1].id >= rows[i as int].id);
            }
            return false;
        }
        proof {
            assert forall|a: int, b: int| 0 <= a < b < i + 1 implies rows[a].id < rows[b].id by {
                if b == i && a < i - 1 {
                    assert(rows[a].id < rows[i - 1].id);
                }
            }
        }
    }
    true
}

/// Whether the comment ids increase in table order.
pub(crate) fn comment_ids_increase(comments: &Vec<DBComment>) -> (r: bool)
    ensures
        r == (forall|i: int, j: int|
            0 <= i < j < comments@.len() ==> db_comment_rows(comments@)[i].id < db_comment_rows(
                comments@,
            )[j].id),
{
    let ghost rows = db_comment_rows(comments@);
    let n = comments.len();
    if n == 0 {
        return true;
    }
    for i in 1..n
        invariant
            n == comments.len(),
            rows == db_comment_rows(comments@),
            forall|a: int, b: int| 0 <= a < b < i ==> rows[a].id < rows[b].id,
    {
        if comments[i - 1].id >= comments[i].id {
            proof {
                assert(rows[i - 1].id >= rows[i as int].id);
            }
            return false;
        }
        proof {
            assert forall|a: int, b: int| 0 <= a < b < i + 1 implies rows[a].id < rows[b].id by {
                if b == i && a < i - 1 {
                    assert(rows[a].id < rows[i - 1].id);
                }
            }
        }
    }
    true
}

/// Whether a post with the id `id` is among `posts`.
pub(crate) fn posts_contain(posts: &Vec<DBPost>, id: u32) -> (r: bool)
    ensures
        r == lists_post(post_rows(posts@), id),
{
    let ghost rows = post_rows(posts@);
    let mut i: usize = 0;
    while i < posts.len()
        invariant
            i <= posts.len(),
            rows == post_rows(posts@),
            forall|k: int| 0 <= k < i ==> rows[k].id != id,
        decreases posts.len() - i,
    {
        if posts[i].id == id {
            proof {
                assert(rows[i as int].id == id);
            }
            return true;
        }
        i = i + 1;
    }
    false
}

/// Whether every comment is attached to one of `posts`.
pub(crate) fn comments_attached(posts: &Vec<DBPost>, comments: &Vec<DBComment>) -> (r: bool)
    ensures
        r == (forall|k: int|
            0 <= k < comments@.len() ==> lists_post(
                post_rows(posts@),
                #[trigger] db_comment_rows(comments@)[k].post_id,
            )),
{
    let ghost rows = db_comment_rows(comments@);
    let n = comments.len();
    for k in 0..n
        invariant
            n == comments.len(),
            rows == db_comment_rows(comments@),
            forall|c: int| 0 <= c < k ==> lists_post(post_rows(posts@), #[trigger] rows[c].post_id),
    {
        if !posts_contain(posts, comments[k].post_id) {
            proof {
                assert(!lists_post(post_rows(posts@), rows[k as int].post_id));
            }
            return false;
        }
    }
    true
}

/// What a store holding these tables looks like.
pub open spec fn tables_view(
    users: Seq<DBUser>,
    sessions: Seq<DBSession>,
    posts: Seq<DBPost>,
    comments: Seq<DBComment>,
    policy: Policy,
) -> ForumView {
    ForumView {
        users: user_rows(users),
        sessions: session_rows(sessions),
        posts: post_rows(posts),
        comments: db_comment_rows(comments),
        policy,
    }
}

} // verus!
