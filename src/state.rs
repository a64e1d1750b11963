//! The content of the store as a mathematical value, its invariant, and how
//! each request changes it.

use crate::error::ApiError;
use crate::forum::{AI_USERNAME, PLACEHOLDER};
use crate::model::{
    CommentRow, DBComment, DBPost, DBSession, DBUser, PostRow, PostView, SessionRow, UserRow,
    post_with_comments,
};
use crate::moderation::{Policy, blocks};
use crate::text::{is_blank_text, trimmed};
use vstd::prelude::*;

verus! {

/// The views of the rows of the users table.
pub open spec fn user_rows(v: Seq<DBUser>) -> Seq<UserRow> {
    v.map_values(|u: DBUser| u@)
}

/// The views of the rows of the sessions table.
pub open spec fn session_rows(v: Seq<DBSession>) -> Seq<SessionRow> {
    v.map_values(|s: DBSession| s@)
}

/// The views of the rows of the posts table.
pub open spec fn post_rows(v: Seq<DBPost>) -> Seq<PostRow> {
    v.map_values(|p: DBPost| p@)
}

/// The views of the rows of the comments table.
pub open spec fn db_comment_rows(v: Seq<DBComment>) -> Seq<CommentRow> {
    v.map_values(|c: DBComment| c@)
}

/// The sessions that survive when `username` logs in with `token`: every other
/// user's session whose id is not `token`.
pub open spec fn survives_login(username: Seq<char>, token: Seq<char>) -> spec_fn(SessionRow) -> bool {
    |s: SessionRow| s.username != username && s.id != token
}

/// The comments attached to the post `post_id`.
pub open spec fn attached_to(post_id: u32) -> spec_fn(CommentRow) -> bool {
    |c: CommentRow| c.post_id == post_id
}

/// Whether a post with the id `id` is among `posts`.
pub open spec fn lists_post(posts: Seq<PostRow>, id: u32) -> bool {
    exists|i: int| 0 <= i < posts.len() && posts[i].id == id
}

/// The content of the store.
pub struct ForumView {
    pub users: Seq<UserRow>,
    pub sessions: Seq<SessionRow>,
    pub posts: Seq<PostRow>,
    pub comments: Seq<CommentRow>,
    pub policy: Policy,
}

impl ForumView {
    /// The invariant of the store: usernames are unique, a user has at most one
    /// session and a token names at most one, post and comment ids increase in
    /// table order, and every comment is attached to a stored post.
    pub open spec fn wf(self) -> bool {
        &&& forall|i: int, j: int|
            0 <= i < self.users.len() && 0 <= j < self.users.len() && i != j
                ==> self.users[i].username != self.users[j].username
        &&& forall|i: int, j: int|
            0 <= i < self.sessions.len() && 0 <= j < self.sessions.len() && i != j
                ==> self.sessions[i].username != self.sessions[j].username
                && self.sessions[i].id != self.sessions[j].id
        &&& forall|i: int, j: int|
            0 <= i < j < self.posts.len() ==> self.posts[i].id < self.posts[j].id
        &&& forall|i: int, j: int|
            0 <= i < j < self.comments.len() ==> self.comments[i].id < self.comments[j].id
        &&& forall|k: int|
            0 <= k < self.comments.len() ==> self.has_post(#[trigger] self.comments[k].post_id)
    }

    pub open spec fn has_user(self, username: Seq<char>) -> bool {
        exists|i: int| 0 <= i < self.users.len() && self.users[i].username == username
    }

    /// The stored user named `username`.
    pub open spec fn user(self, username: Seq<char>) -> UserRow {
        self.users[choose|i: int| 0 <= i < self.users.len() && self.users[i].username == username]
    }

    pub open spec fn has_post(self, id: u32) -> bool {
        lists_post(self.posts, id)
    }

    /// The user whose session has the id `token`, if any.
    pub open spec fn session_owner(self, token: Seq<char>) -> Option<Seq<char>> {
        if exists|i: int| 0 <= i < self.sessions.len() && self.sessions[i].id == token {
            Some(
                self.sessions[choose|i: int|
                    0 <= i < self.sessions.len() && self.sessions[i].id == token].username,
            )
        } else {
            None
        }
    }

    /// The id the next post gets: one more than the last, or 1 in an empty table.
    pub open spec fn next_post_id(self) -> int {
        if self.posts.len() == 0 {
            1
        } else {
            self.posts.last().id + 1
        }
    }

    /// The id the next comment gets: one more than the last, or 1 in an empty table.
    pub open spec fn next_comment_id(self) -> int {
        if self.comments.len() == 0 {
            1
        } else {
            self.comments.last().id + 1
        }
    }

    /// The sessions after `username` logs in with `token`: any earlier session
    /// of theirs, and any session with that id, is replaced.
    pub open spec fn sessions_after_login(self, username: Seq<char>, token: Seq<char>) -> Seq<
        SessionRow,
    > {
        self.sessions.filter(survives_login(username, token)).push(
            SessionRow { username, id: token },
        )
    }

    /// The store after `username` logs in with `token`.
    pub open spec fn after_login(self, username: Seq<char>, token: Seq<char>) -> ForumView {
        ForumView { sessions: self.sessions_after_login(username, token), ..self }
    }

    /// The store after `user` signs up and is given the session `token`.
    pub open spec fn after_signup(self, user: UserRow, token: Seq<char>) -> ForumView {
        ForumView {
            users: self.users.push(user),
            sessions: self.sessions_after_login(user.username, token),
            ..self
        }
    }

    pub open spec fn has_comment(self, id: u32) -> bool {
        exists|i: int| 0 <= i < self.comments.len() && self.comments[i].id == id
    }

    /// Why a post of `content` by the holder of `token` (trimmed), analysed as `flags`,
    /// is refused, checked in this order: session, blank content, moderation,
    /// and room for the new ids.
    pub open spec fn post_error(self, token: Seq<char>, content: Seq<char>, flags: u32) -> Option<
        ApiError,
    > {
        if self.session_owner(trimmed(token)) is None {
            Some(ApiError::Unauthorized)
        } else if is_blank_text(content) {
            Some(ApiError::BadRequest)
        } else if blocks(self.policy, flags) {
            Some(ApiError::Forbidden)
        } else if self.next_post_id() > u32::MAX || self.next_comment_id() > u32::MAX {
            Some(ApiError::Internal)
        } else {
            None
        }
    }

    /// The row of a new post of `content` by `username`.
    pub open spec fn new_post(self, username: Seq<char>, content: Seq<char>, created: i64) -> PostRow {
        PostRow { id: self.next_post_id() as u32, created, username, content }
    }

    /// The placeholder advice comment of a new post `post_id`.
    pub open spec fn new_placeholder(self, post_id: u32, created: i64) -> CommentRow {
        CommentRow {
            id: self.next_comment_id() as u32,
            created,
            post_id,
            username: AI_USERNAME@,
            content: PLACEHOLDER@,
        }
    }

    /// The store after `post` and its `placeholder` comment are added.
    pub open spec fn after_post(self, post: PostRow, placeholder: CommentRow) -> ForumView {
        ForumView { posts: self.posts.push(post), comments: self.comments.push(placeholder), ..self }
    }

    /// Why a comment on `post_id` of `content` by the holder of `token` (trimmed),
    /// analysed as `flags`, is refused, checked in this order: session, the
    /// post, blank content, moderation, and room for the new id.
    pub open spec fn comment_error(
        self,
        token: Seq<char>,
        post_id: u32,
        content: Seq<char>,
        flags: u32,
    ) -> Option<ApiError> {
        if self.session_owner(trimmed(token)) is None {
            Some(ApiError::Unauthorized)
        } else if !self.has_post(post_id) {
            Some(ApiError::NotFound)
        } else if is_blank_text(content) {
            Some(ApiError::BadRequest)
        } else if blocks(self.policy, flags) {
            Some(ApiError::Forbidden)
        } else if self.next_comment_id() > u32::MAX {
            Some(ApiError::Internal)
        } else {
            None
        }
    }

    /// The row of a new comment on `post_id`.
    pub open spec fn new_comment(
        self,
        post_id: u32,
        username: Seq<char>,
        content: Seq<char>,
        created: i64,
    ) -> CommentRow {
        CommentRow { id: self.next_comment_id() as u32, created, post_id, username, content }
    }

    /// The store after the comment `comment_id` gets the content `content`.
    pub open spec fn after_comment_update(self, comment_id: u32, content: Seq<char>) -> ForumView {
        ForumView {
            comments: self.comments.map_values(
                |c: CommentRow|
                    if c.id == comment_id {
                        CommentRow { content, ..c }
                    } else {
                        c
                    },
            ),
            ..self
        }
    }

    /// The stored post at `i` as sent to clients: with its comments, or `None`
    /// where it has none.
    pub open spec fn post_view(self, i: int) -> PostView {
        let cs = self.comments_of(self.posts[i].id);
        post_with_comments(self.posts[i], if cs.len() == 0 { None } else { Some(cs) })
    }

    /// The comments attached to the post `post_id`, in table order.
    pub open spec fn comments_of(self, post_id: u32) -> Seq<CommentRow> {
        self.comments.filter(attached_to(post_id))
    }
}

/// The view of an optional string.
pub open spec fn opt_view(s: Option<String>) -> Option<Seq<char>> {
    match s {
        Some(t) => Some(t@),
        None => None,
    }
}

} // verus!
