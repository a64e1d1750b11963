//! Properties that relate several requests, stated over the view of the store
//! that the handlers' contracts use.

use crate::forum::{AI_USERNAME, PLACEHOLDER};
use crate::state::{ForumView, survives_login};
use crate::credentials::{generated_salt, is_b64_digit};
use crate::model::{SessionRow, UserRow};
use crate::text::{lemma_trimmed_unchanged, trimmed};
use vstd::prelude::*;

verus! {

/// In the sessions after `username` logs in with `token`, the session with id
/// `token` is theirs and no other session has that id.
proof fn lemma_login_session(f: ForumView, username: Seq<char>, token: Seq<char>)
    ensures
        f.after_login(username, token).session_owner(token) == Some(username),
{
    let kept = f.sessions.filter(survives_login(username, token));
    let s = f.after_login(username, token).sessions;
    assert(s[kept.len() as int] == SessionRow { username, id: token });
    assert forall|i: int| 0 <= i < s.len() && s[i].id == token implies i == kept.len() by {
        if i < kept.len() {
            f.sessions.lemma_filter_pred(survives_login(username, token), i);
            assert(s[i] == kept[i]);
        }
    }
}

/// A generated token has no white space, so trimming leaves it as it is.
pub proof fn lemma_generated_token_is_trimmed(token: Seq<char>)
    requires
        generated_salt(token),
    ensures
        trimmed(token) == token,
{
    assert(is_b64_digit(token[0]));
    assert(is_b64_digit(token.last()));
    lemma_trimmed_unchanged(token);
}

/// The sessions of users other than `username`.
pub open spec fn held_by_others(username: Seq<char>) -> spec_fn(SessionRow) -> bool {
    |s: SessionRow| s.username != username
}

/// Where no session has the id `token`, the sessions that survive a login are
/// exactly the other users' sessions.
proof fn lemma_survivors_are_others(sessions: Seq<SessionRow>, username: Seq<char>, token: Seq<char>)
    requires
        forall|i: int| 0 <= i < sessions.len() ==> #[trigger] sessions[i].id != token,
    ensures
        sessions.filter(survives_login(username, token)) == sessions.filter(
            held_by_others(username),
        ),
    decreases sessions.len(),
{
    if sessions.len() == 0 {
        reveal(Seq::filter);
    } else {
        let rest = sessions.drop_last();
        assert forall|i: int| 0 <= i < rest.len() implies #[trigger] rest[i].id != token by {
            assert(rest[i] == sessions[i]);
        }
        lemma_survivors_are_others(rest, username, token);
        assert(sessions =~= rest.push(sessions.last()));
        rest.lemma_filter_push(sessions.last(), survives_login(username, token));
        rest.lemma_filter_push(sessions.last(), held_by_others(username));
    }
}

/// A login with a token that no session holds leaves every other user's
/// session as it was, and leaves the user with that one session.
pub proof fn lemma_login_keeps_other_sessions(f: ForumView, username: Seq<char>, token: Seq<char>)
    requires
        forall|i: int| 0 <= i < f.sessions.len() ==> #[trigger] f.sessions[i].id != token,
    ensures
        f.after_login(username, token).sessions == f.sessions.filter(held_by_others(username)).push(
            SessionRow { username, id: token },
        ),
{
    lemma_survivors_are_others(f.sessions, username, token);
}

/// Signing up gives a session: the token handed back is not empty, and
/// presenting it names the new user.
pub proof fn lemma_signup_then_validate(f: ForumView, user: UserRow, token: Seq<char>)
    requires
        !f.has_user(user.username),
        generated_salt(token),
    ensures
        token.len() > 0,
        f.after_signup(user, token).session_owner(trimmed(token)) == Some(user.username),
{
    lemma_generated_token_is_trimmed(token);
    lemma_login_session(f, user.username, token);
    assert(f.after_signup(user, token).sessions == f.after_login(user.username, token).sessions);
}

/// After a successful signup the name is taken by the row just stored, so a
/// second signup with the same name is a conflict that leaves that row, and its
/// hash, as they were.
pub proof fn lemma_signup_twice(f: ForumView, user: UserRow, token: Seq<char>)
    requires
        f.wf(),
        !f.has_user(user.username),
    ensures
        f.after_signup(user, token).has_user(user.username),
        f.after_signup(user, token).user(user.username) == user,
{
    let g = f.after_signup(user, token);
    let last = f.users.len() as int;
    assert(g.users[last] == user);
    let c = choose|i: int| 0 <= i < g.users.len() && g.users[i].username == user.username;
    if c != last {
        assert(g.users[c] == f.users[c]);
    }
}

/// A new login ends the user's previous session: the token they held before
/// no longer names anyone once they log in with another.
pub proof fn lemma_login_replaces_session(
    f: ForumView,
    username: Seq<char>,
    old_token: Seq<char>,
    new_token: Seq<char>,
)
    requires
        f.wf(),
        f.session_owner(old_token) == Some(username),
        old_token != new_token,
    ensures
        f.after_login(username, new_token).session_owner(old_token) is None,
{
    let keep = survives_login(username, new_token);
    let kept = f.sessions.filter(keep);
    let s = f.after_login(username, new_token).sessions;
    let owner = choose|i: int| 0 <= i < f.sessions.len() && f.sessions[i].id == old_token;
    assert forall|i: int| 0 <= i < s.len() implies s[i].id != old_token by {
        if i < kept.len() {
            assert(s[i] == kept[i]);
            f.sessions.lemma_filter_pred(keep, i);
            assert(kept.contains(kept[i]));
            f.sessions.lemma_filter_contains_rev(keep, kept[i]);
            let j = choose|j: int| 0 <= j < f.sessions.len() && f.sessions[j] == kept[i];
            if kept[i].id == old_token {
                assert(j == owner);
            }
        }
    }
}

/// A valid post adds exactly one post row and one placeholder comment by the
/// advice author; once the worker stores advice other than the placeholder text
/// in that comment, the comment no longer holds the placeholder.
pub proof fn lemma_post_then_advice(
    f: ForumView,
    token: Seq<char>,
    content: Seq<char>,
    flags: u32,
    post_created: i64,
    comment_created: i64,
    advice: Seq<char>,
)
    requires
        f.post_error(token, content, flags) is None,
        advice != PLACEHOLDER@,
    ensures
        ({
            let post = f.new_post(f.session_owner(trimmed(token))->0, content, post_created);
            let placeholder = f.new_placeholder(post.id, comment_created);
            let g = f.after_post(post, placeholder);
            let h = g.after_comment_update(placeholder.id, advice);
            &&& g.posts.len() == f.posts.len() + 1
            &&& g.posts.last() == post
            &&& g.comments.len() == f.comments.len() + 1
            &&& g.comments.last().post_id == post.id
            &&& g.comments.last().username == AI_USERNAME@
            &&& g.comments.last().content == PLACEHOLDER@
            &&& h.comments.len() == g.comments.len()
            &&& h.comments.last().id == placeholder.id
            &&& h.comments.last().content == advice
            &&& h.comments.last().content != PLACEHOLDER@
        }),
{
}

} // verus!
