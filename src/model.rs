//! Rows of the store and the values exchanged with clients.

use vstd::prelude::*;

verus! {

/// The view of a user row.
pub struct UserRow {
    pub created: i64,
    pub username: Seq<char>,
    pub hashed_password: Seq<char>,
}

/// The view of a session row: `id` is the bearer token of `username`.
pub struct SessionRow {
    pub username: Seq<char>,
    pub id: Seq<char>,
}

/// The view of a post row.
pub struct PostRow {
    pub id: u32,
    pub created: i64,
    pub username: Seq<char>,
    pub content: Seq<char>,
}

/// The view of a comment row, stored or sent to a client.
pub struct CommentRow {
    pub id: u32,
    pub created: i64,
    pub post_id: u32,
    pub username: Seq<char>,
    pub content: Seq<char>,
}

/// The view of a post as sent to a client, with its comments attached.
pub struct PostView {
    pub id: u32,
    pub created: i64,
    pub username: Seq<char>,
    pub content: Seq<char>,
    pub comments: Option<Seq<CommentRow>>,
}

/// Used only as an input to the endpoint that adds a comment.
#[derive(Debug)]
pub struct InputComment {
    pub post_id: u32,
    pub content: String,
}

/// A user session as exchanged with clients.
#[derive(Debug)]
pub struct Session {
    pub username: String,
    pub id: String,
}

impl View for Session {
    type V = SessionRow;

    open spec fn view(&self) -> SessionRow {
        SessionRow { username: self.username@, id: self.id@ }
    }
}

impl Clone for Session {
    fn clone(&self) -> (r: Self)
        ensures
            r@ == self@,
    {
        Session { username: self.username.clone(), id: self.id.clone() }
    }
}

/// Credentials sent by a client to sign up or log in.
#[derive(Debug)]
pub struct User {
    pub created: i64,
    pub username: String,
    pub password: String,
}

impl Clone for User {
    fn clone(&self) -> (r: Self)
        ensures
            r == *self,
    {
        User {
            created: self.created,
            username: self.username.clone(),
            password: self.password.clone(),
        }
    }
}

impl User {
    /// Credentials stamped with the current time.
    pub fn new(username: &str, password: &str) -> (r: Self)
        ensures
            r.username@ == username@,
            r.password@ == password@,
    {
        User {
            username: username.to_string(),
            password: password.to_string(),
            created: crate::clock::now_timestamp(),
        }
    }
}

/// A post as sent to clients, with its comments (`None` when it has none).
#[derive(Debug)]
pub struct Post {
    pub id: u32,
    pub created: i64,
    pub username: String,
    pub content: String,
    pub comments: Option<Vec<Comment>>,
}

/// The views of a list of comments.
pub open spec fn comment_rows(comments: Seq<Comment>) -> Seq<CommentRow> {
    comments.map_values(|c: Comment| c@)
}

impl View for Post {
    type V = PostView;

    open spec fn view(&self) -> PostView {
        PostView {
            id: self.id,
            created: self.created,
            username: self.username@,
            content: self.content@,
            comments: match self.comments {
                Some(cs) => Some(comment_rows(cs@)),
                None => None,
            },
        }
    }
}

/// A comment as sent to clients.
#[derive(Debug)]
pub struct Comment {
    pub id: u32,
    pub created: i64,
    pub post_id: u32,
    pub username: String,
    pub content: String,
}

impl View for Comment {
    type V = CommentRow;

    open spec fn view(&self) -> CommentRow {
        CommentRow {
            id: self.id,
            created: self.created,
            post_id: self.post_id,
            username: self.username@,
            content: self.content@,
        }
    }
}

impl Clone for Comment {
    fn clone(&self) -> (r: Self)
        ensures
            r@ == self@,
    {
        Comment {
            id: self.id,
            created: self.created,
            post_id: self.post_id,
            username: self.username.clone(),
            content: self.content.clone(),
        }
    }
}

/// A stored session: `id` is the bearer token that identifies `username`.
#[derive(Debug)]
pub struct DBSession {
    pub username: String,
    pub id: String,
}

impl View for DBSession {
    type V = SessionRow;

    open spec fn view(&self) -> SessionRow {
        SessionRow { username: self.username@, id: self.id@ }
    }
}

impl Clone for DBSession {
    fn clone(&self) -> (r: Self)
        ensures
            r@ == self@,
    {
        DBSession { username: self.username.clone(), id: self.id.clone() }
    }
}

/// A stored user; the password is kept only as a salted hash.
#[derive(Debug)]
pub struct DBUser {
    pub created: i64,
    pub username: String,
    pub hashed_password: String,
}

impl View for DBUser {
    type V = UserRow;

    open spec fn view(&self) -> UserRow {
        UserRow {
            created: self.created,
            username: self.username@,
            hashed_password: self.hashed_password@,
        }
    }
}

impl Clone for DBUser {
    fn clone(&self) -> (r: Self)
        ensures
            r@ == self@,
    {
        DBUser {
            created: self.created,
            username: self.username.clone(),
            hashed_password: self.hashed_password.clone(),
        }
    }
}

/// A stored post; its comments live in their own table.
#[derive(Debug)]
pub struct DBPost {
    pub id: u32,
    pub created: i64,
    pub username: String,
    pub content: String,
}

impl View for DBPost {
    type V = PostRow;

    open spec fn view(&self) -> PostRow {
        PostRow { id: self.id, created: self.created, username: self.username@, content: self.content@ }
    }
}

impl Clone for DBPost {
    fn clone(&self) -> (r: Self)
        ensures
            r@ == self@,
    {
        DBPost {
            id: self.id,
            created: self.created,
            username: self.username.clone(),
            content: self.content.clone(),
        }
    }
}

/// A stored comment, attached to the post `post_id`.
#[derive(Debug)]
pub struct DBComment {
    pub id: u32,
    pub post_id: u32,
    pub created: i64,
    pub username: String,
    pub content: String,
}

impl View for DBComment {
    type V = CommentRow;

    open spec fn view(&self) -> CommentRow {
        CommentRow {
            id: self.id,
            created: self.created,
            post_id: self.post_id,
            username: self.username@,
            content: self.content@,
        }
    }
}

impl Clone for DBComment {
    fn clone(&self) -> (r: Self)
        ensures
            r@ == self@,
    {
        DBComment {
            id: self.id,
            post_id: self.post_id,
            created: self.created,
            username: self.username.clone(),
            content: self.content.clone(),
        }
    }
}

impl DBComment {
    /// A comment row stamped with the current time.
    pub fn new(id: u32, post_id: u32, username: &str, content: &str) -> (r: Self)
        ensures
            r.id == id,
            r.post_id == post_id,
            r.username@ == username@,
            r.content@ == content@,
    {
        DBComment {
            id,
            post_id,
            username: username.to_string(),
            content: content.to_string(),
            created: crate::clock::now_timestamp(),
        }
    }
}

/// The post sent to clients for a stored post and its comments.
pub open spec fn post_with_comments(post: PostRow, comments: Option<Seq<CommentRow>>) -> PostView {
    PostView {
        id: post.id,
        created: post.created,
        username: post.username,
        content: post.content,
        comments,
    }
}

/// Conversion from an owned `DBPost` to `Post` by attaching comments.
pub trait FromDBPost: Sized + View<V = PostView> {
    fn from_db(post: DBPost, comments: Option<Vec<Comment>>) -> (r: Self)
        ensures
            r@ == post_with_comments(
                post@,
                match comments {
                    Some(cs) => Some(comment_rows(cs@)),
                    None => None,
                },
            ),
    ;
}

impl FromDBPost for Post {
    fn from_db(post: DBPost, comments: Option<Vec<Comment>>) -> (r: Self) {
        Post {
            id: post.id,
            username: post.username,
            content: post.content,
            created: post.created,
            comments,
        }
    }
}

/// Conversion from a borrowed `DBComment` to an owned `Comment` by cloning.
pub trait FromDBComment: Sized + View<V = CommentRow> {
    fn from_db(comment: &DBComment) -> (r: Self)
        ensures
            r@ == comment@,
    ;
}

impl FromDBComment for Comment {
    fn from_db(comment: &DBComment) -> (r: Self) {
        Comment {
            id: comment.id,
            post_id: comment.post_id,
            username: comment.username.clone(),
            content: comment.content.clone(),
            created: comment.created,
        }
    }
}

} // verus!
