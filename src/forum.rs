//! The store of users, sessions, posts and comments, and the request handlers
//! that read and change it.

use crate::clock::now_timestamp;
use crate::credentials::{
    argon2_accepts, argon2_phc, generated_salt, hash_password, random_salt, verify_password,
};
use crate::error::ApiError;
use crate::model::{
    Comment, CommentRow, DBComment, DBPost, DBSession, DBUser, FromDBComment, FromDBPost,
    InputComment, Post, PostRow, Session, SessionRow, User, UserRow, comment_rows,
};
use crate::moderation::{Policy, Verdict, blocks, censor_flags};
use crate::state::{
    ForumView, attached_to, db_comment_rows, lists_post, opt_view, post_rows, session_rows,
    survives_login,
    user_rows,
};
use crate::tables::{
    comment_ids_increase, comments_attached, post_ids_increase, posts_contain, sessions_unique,
    tables_view, usernames_unique,
};
use crate::text::{is_blank, is_blank_text, trim, trimmed};
use vstd::prelude::*;

verus! {

/// Author of the advice comment attached to every new post.
pub const AI_USERNAME: &'static str = "AI";

/// Content of the advice comment until the advice has been generated.
pub const PLACEHOLDER: &'static str = "Loading, please wait!";

/// What a stored post hands to the advice worker: the post, and the
/// placeholder comment that the advice will replace.
#[derive(Debug)]
pub struct PostReceipt {
    pub post: DBPost,
    pub placeholder: DBComment,
}

/// The forum's store: four tables and the moderation policy, fixed when the
/// store is made.
pub struct Forum {
    users: Vec<DBUser>,
    sessions: Vec<DBSession>,
    posts: Vec<DBPost>,
    comments: Vec<DBComment>,
    policy: Policy,
}

impl View for Forum {
    type V = ForumView;

    closed spec fn view(&self) -> ForumView {
        ForumView {
            users: user_rows(self.users@),
            sessions: session_rows(self.sessions@),
            posts: post_rows(self.posts@),
            comments: db_comment_rows(self.comments@),
            policy: self.policy,
        }
    }
}

impl Forum {
    #[verifier::type_invariant]
    spec fn inv(&self) -> bool {
        self@.wf()
    }

    /// An empty store under the default policy.
    pub fn new() -> (r: Forum)
        ensures
            r@.users.len() == 0,
            r@.sessions.len() == 0,
            r@.posts.len() == 0,
            r@.comments.len() == 0,
            r@.policy == Policy::Standard,
    {
        Forum::with_policy(Policy::Standard)
    }

    /// An empty store under `policy`.
    pub fn with_policy(policy: Policy) -> (r: Forum)
        ensures
            r@.users.len() == 0,
            r@.sessions.len() == 0,
            r@.posts.len() == 0,
            r@.comments.len() == 0,
            r@.policy == policy,
    {
        let r = Forum {
            users: Vec::new(),
            sessions: Vec::new(),
            posts: Vec::new(),
            comments: Vec::new(),
            policy,
        };
        proof {
            assert(r@.users =~= Seq::<UserRow>::empty());
            assert(r@.sessions =~= Seq::<SessionRow>::empty());
            assert(r@.posts =~= Seq::<PostRow>::empty());
            assert(r@.comments =~= Seq::<CommentRow>::empty());
        }
        r
    }

    /// A store holding these tables, as read back from storage, where they meet
    /// the store's invariant; `None` where they do not.
    pub fn from_tables(
        users: Vec<DBUser>,
        sessions: Vec<DBSession>,
        posts: Vec<DBPost>,
        comments: Vec<DBComment>,
        policy: Policy,
    ) -> (r: Option<Forum>)
        ensures
            match r {
                Some(f) => f@ == tables_view(users@, sessions@, posts@, comments@, policy),
                None => !tables_view(users@, sessions@, posts@, comments@, policy).wf(),
            },
    {
        let ghost v = tables_view(users@, sessions@, posts@, comments@, policy);
        let users_ok = usernames_unique(&users);
        let sessions_ok = sessions_unique(&sessions);
        let posts_ok = post_ids_increase(&posts);
        let comments_ok = comment_ids_increase(&comments);
        let attached_ok = comments_attached(&posts, &comments);
        let ok = users_ok && sessions_ok && posts_ok && comments_ok && attached_ok;
        if ok {
            let f = Forum { users, sessions, posts, comments, policy };
            proof {
                assert(f@ == v);
            }
            Some(f)
        } else {
            proof {
                if !users_ok {
                    let (i, j) = choose|i: int, j: int|
                        0 <= i < users@.len() && 0 <= j < users@.len() && i != j && user_rows(
                            users@,
                        )[i].username == user_rows(users@)[j].username;
                    assert(v.users[i].username == v.users[j].username);
                } else if !sessions_ok {
                    let (i, j) = choose|i: int, j: int|
                        0 <= i < sessions@.len() && 0 <= j < sessions@.len() && i != j && !(
                        session_rows(sessions@)[i].username != session_rows(sessions@)[j].username
                            && session_rows(sessions@)[i].id != session_rows(sessions@)[j].id);
                    assert(v.sessions[i] == session_rows(sessions@)[i]);
                } else if !posts_ok {
                    let (i, j) = choose|i: int, j: int|
                        0 <= i < j < posts@.len() && !(post_rows(posts@)[i].id < post_rows(
                            posts@,
                        )[j].id);
                    assert(v.posts[i].id >= v.posts[j].id);
                } else if !comments_ok {
                    let (i, j) = choose|i: int, j: int|
                        0 <= i < j < comments@.len() && !(db_comment_rows(comments@)[i].id
                            < db_comment_rows(comments@)[j].id);
                    assert(v.comments[i].id >= v.comments[j].id);
                } else if !attached_ok {
                    let k = choose|k: int|
                        0 <= k < comments@.len() && !lists_post(
                            post_rows(posts@),
                            #[trigger] db_comment_rows(comments@)[k].post_id,
                        );
                    assert(!v.has_post(v.comments[k].post_id));
                }
            }
            None
        }
    }

    /// The position of the session whose id is `token`.
    fn find_session(&self, token: &String) -> (r: Option<usize>)
        ensures
            match r {
                Some(i) => i < self@.sessions.len() && self@.sessions[i as int].id == token@,
                None => forall|i: int|
                    0 <= i < self@.sessions.len() ==> self@.sessions[i].id != token@,
            },
    {
        let mut i: usize = 0;
        while i < self.sessions.len()
            invariant
                i <= self.sessions.len(),
                forall|k: int| 0 <= k < i ==> self@.sessions[k].id != token@,
            decreases self.sessions.len() - i,
        {
            if self.sessions[i].id == *token {
                return Some(i);
            }
            i = i + 1;
        }
        None
    }

    /// The position of the user named `username`.
    fn find_user(&self, username: &String) -> (r: Option<usize>)
        ensures
            match r {
                Some(i) => i < self@.users.len() && self@.users[i as int].username == username@
                    && self@.user(username@) == self@.users[i as int],
                None => !self@.has_user(username@),
            },
    {
        proof {
            use_type_invariant(self);
        }
        let mut i: usize = 0;
        while i < self.users.len()
            invariant
                i <= self.users.len(),
                self@.wf(),
                forall|k: int| 0 <= k < i ==> self@.users[k].username != username@,
            decreases self.users.len() - i,
        {
            if self.users[i].username == *username {
                proof {
                    assert(self@.users[i as int].username == username@);
                    let j = choose|j: int|
                        0 <= j < self@.users.len() && self@.users[j].username == username@;
                    assert(j == i);
                }
                return Some(i);
            }
            i = i + 1;
        }
        None
    }

    /// Gives `username` the session `token`, replacing their earlier session
    /// and any session with that id.
    fn start_session(&mut self, username: String, token: String)
        ensures
            final(self)@ == old(self)@.after_login(username@, token@),
    {
        proof {
            use_type_invariant(&*self);
        }
        let ghost rows = self@.sessions;
        let ghost keep = survives_login(username@, token@);
        let ghost mut origin: Seq<int> = Seq::empty();
        let mut kept: Vec<DBSession> = Vec::new();
        let n = self.sessions.len();
        for i in 0..n
            invariant
                n == self.sessions.len(),
                rows == self@.sessions,
                self@.wf(),
                keep == survives_login(username@, token@),
                session_rows(kept@) == rows.take(i as int).filter(keep),
                origin.len() == kept.len(),
                forall|k: int| 0 <= k < kept.len() ==> keep(#[trigger] kept@[k]@),
                forall|k: int|
                    0 <= k < kept.len() ==> 0 <= #[trigger] origin[k] < i && kept@[k]@
                        == rows[origin[k]],
                forall|a: int, b: int|
                    0 <= a < kept.len() && 0 <= b < kept.len() && a != b ==> kept@[a]@.username
                        != kept@[b]@.username && kept@[a]@.id != kept@[b]@.id,
        {
            let s = &self.sessions[i];
            let keeps = !(s.username == username) && !(s.id == token);
            proof {
                assert(rows.take(i + 1) =~= rows.take(i as int).push(rows[i as int]));
                rows.take(i as int).lemma_filter_push(rows[i as int], keep);
            }
            if keeps {
                let ghost before = kept@;
                let ghost before_origin = origin;
                kept.push(s.clone());
                proof {
                    origin = origin.push(i as int);
                    assert(session_rows(kept@) =~= session_rows(before).push(rows[i as int]));
                    assert forall|a: int, b: int|
                        0 <= a < kept.len() && 0 <= b < kept.len() && a != b implies kept@[a]@.username
                        != kept@[b]@.username && kept@[a]@.id != kept@[b]@.id by {
                        if a < before.len() && b < before.len() {
                            assert(kept@[a] == before[a] && kept@[b] == before[b]);
                        } else if a < before.len() {
                            assert(kept@[a] == before[a]);
                            assert(origin[a] == before_origin[a]);
                            assert(rows[origin[a]].username != rows[i as int].username);
                        } else {
                            assert(kept@[b] == before[b]);
                            assert(origin[b] == before_origin[b]);
                            assert(rows[origin[b]].username != rows[i as int].username);
                        }
                    }
                }
            }
        }
        proof {
            assert(rows.take(n as int) =~= rows);
        }
        let ghost before = kept@;
        kept.push(DBSession { username, id: token });
        proof {
            let new_rows = session_rows(kept@);
            assert(new_rows =~= session_rows(before).push(SessionRow { username: username@, id: token@ }));
            assert forall|a: int, b: int|
                0 <= a < new_rows.len() && 0 <= b < new_rows.len() && a != b implies new_rows[a].username
                != new_rows[b].username && new_rows[a].id != new_rows[b].id by {
                if a < before.len() && b < before.len() {
                    assert(kept@[a] == before[a] && kept@[b] == before[b]);
                } else if a < before.len() {
                    assert(kept@[a] == before[a]);
                    assert(keep(before[a]@));
                } else {
                    assert(kept@[b] == before[b]);
                    assert(keep(before[b]@));
                }
            }
        }
        self.sessions = kept;
    }

    /// Logs in with the session token `token`: the user must exist and the
    /// password must match the stored hash; any earlier session of theirs ends.
    pub fn login_with_token(&mut self, input: &User, token: String) -> (r: Result<
        Session,
        ApiError,
    >)
        ensures
            !old(self)@.has_user(input.username@) ==> r == Err::<Session, ApiError>(
                ApiError::NotFound,
            ) && final(self)@ == old(self)@,
            old(self)@.has_user(input.username@) && !argon2_accepts(
                input.password@,
                old(self)@.user(input.username@).hashed_password,
            ) ==> r == Err::<Session, ApiError>(ApiError::Unauthorized) && final(self)@ == old(
                self,
            )@,
            old(self)@.has_user(input.username@) && argon2_accepts(
                input.password@,
                old(self)@.user(input.username@).hashed_password,
            ) ==> (r matches Ok(s) && s@ == (SessionRow { username: input.username@, id: token@ })
                && final(self)@ == old(self)@.after_login(input.username@, token@)),
    {
        let i = match self.find_user(&input.username) {
            Some(i) => i,
            None => return Err(ApiError::NotFound),
        };
        if !verify_password(input.password.as_str(), self.users[i].hashed_password.as_str()) {
            return Err(ApiError::Unauthorized);
        }
        let session = Session { username: input.username.clone(), id: token.clone() };
        self.start_session(input.username.clone(), token);
        Ok(session)
    }

    /// Logs in: as [`Forum::login_with_token`], with a fresh random token.
    pub fn login(&mut self, input: &User) -> (r: Result<Session, ApiError>)
        ensures
            !old(self)@.has_user(input.username@) ==> r == Err::<Session, ApiError>(
                ApiError::NotFound,
            ) && final(self)@ == old(self)@,
            old(self)@.has_user(input.username@) && !argon2_accepts(
                input.password@,
                old(self)@.user(input.username@).hashed_password,
            ) ==> r == Err::<Session, ApiError>(ApiError::Unauthorized) && final(self)@ == old(
                self,
            )@,
            old(self)@.has_user(input.username@) && argon2_accepts(
                input.password@,
                old(self)@.user(input.username@).hashed_password,
            ) ==> (r matches Ok(s) && s.username@ == input.username@ && generated_salt(s.id@)
                && final(self)@ == old(self)@.after_login(input.username@, s.id@)),
    {
        let token = random_salt();
        self.login_with_token(input, token)
    }

    /// Signs up `input.username` with the stored hash `hashed_password`, created
    /// at `created`, and gives them the session `token`. A taken username is a
    /// conflict and changes nothing.
    pub fn create_account_with(
        &mut self,
        input: &User,
        hashed_password: String,
        token: String,
        created: i64,
    ) -> (r: Result<Session, ApiError>)
        ensures
            old(self)@.has_user(input.username@) ==> r == Err::<Session, ApiError>(
                ApiError::Conflict,
            ) && final(self)@ == old(self)@,
            !old(self)@.has_user(input.username@) ==> (r matches Ok(s) && s@ == (SessionRow {
                username: input.username@,
                id: token@,
            }) && final(self)@ == old(self)@.after_signup(
                UserRow {
                    created,
                    username: input.username@,
                    hashed_password: hashed_password@,
                },
                token@,
            )),
    {
        proof {
            use_type_invariant(&*self);
        }
        if self.find_user(&input.username).is_some() {
            return Err(ApiError::Conflict);
        }
        let ghost before = self@;
        let user = DBUser { created, username: input.username.clone(), hashed_password };
        let ghost row = user@;
        let mut users: Vec<DBUser> = Vec::new();
        proof {
            assert(user_rows(users@) =~= Seq::<UserRow>::empty());
        }
        std::mem::swap(&mut users, &mut self.users);
        users.push(user);
        proof {
            let rows = user_rows(users@);
            assert(rows =~= before.users.push(row));
            assert forall|i: int, j: int|
                0 <= i < rows.len() && 0 <= j < rows.len() && i != j implies rows[i].username
                != rows[j].username by {
                if i == rows.len() - 1 {
                    assert(rows[j] == before.users[j]);
                } else if j == rows.len() - 1 {
                    assert(rows[i] == before.users[i]);
                }
            }
        }
        self.users = users;
        let session = Session { username: input.username.clone(), id: token.clone() };
        self.start_session(input.username.clone(), token);
        Ok(session)
    }

    /// Signs up: hashes the password under a fresh random salt, then as
    /// [`Forum::create_account_with`] with a fresh random token and the current
    /// time. Fails with `Internal`, changing nothing, where hashing fails.
    pub fn create_account(&mut self, input: &User) -> (r: Result<Session, ApiError>)
        ensures
            old(self)@.has_user(input.username@) ==> r == Err::<Session, ApiError>(
                ApiError::Conflict,
            ) && final(self)@ == old(self)@,
            !old(self)@.has_user(input.username@) ==> match r {
                Ok(s) => {
                    &&& s.username@ == input.username@
                    &&& s.id@.len() > 0
                    &&& final(self)@ == old(self)@.after_signup(final(self)@.users.last(), s.id@)
                    &&& final(self)@.users.last().username == input.username@
                    &&& exists|salt: Seq<char>|
                        final(self)@.users.last().hashed_password == #[trigger] argon2_phc(
                            input.password@,
                            salt,
                        )
                },
                Err(e) => e == ApiError::Internal && final(self)@ == old(self)@,
            },
            !old(self)@.has_user(input.username@) && 4 * input.password@.len() <= 0xFFFF_FFFF
                ==> r is Ok,
            r matches Ok(s) ==> generated_salt(s.id@),
    {
        if self.find_user(&input.username).is_some() {
            return Err(ApiError::Conflict);
        }
        let salt = random_salt();
        let hashed = match hash_password(input.password.as_str(), salt.as_str()) {
            Some(h) => h,
            None => return Err(ApiError::Internal),
        };
        let token = random_salt();
        let created = now_timestamp();
        let r = self.create_account_with(input, hashed, token, created);
        proof {
            assert(final(self)@.users.last().hashed_password == argon2_phc(input.password@, salt@));
        }
        r
    }

    /// The id for the next post, if it fits.
    fn next_post_id(&self) -> (r: Option<u32>)
        ensures
            match r {
                Some(id) => id == self@.next_post_id(),
                None => self@.next_post_id() > u32::MAX,
            },
    {
        if self.posts.len() == 0 {
            Some(1)
        } else {
            let last = self.posts[self.posts.len() - 1].id;
            if last < u32::MAX {
                Some(last + 1)
            } else {
                None
            }
        }
    }

    /// The id for the next comment, if it fits.
    fn next_comment_id(&self) -> (r: Option<u32>)
        ensures
            match r {
                Some(id) => id == self@.next_comment_id(),
                None => self@.next_comment_id() > u32::MAX,
            },
    {
        if self.comments.len() == 0 {
            Some(1)
        } else {
            let last = self.comments[self.comments.len() - 1].id;
            if last < u32::MAX {
                Some(last + 1)
            } else {
                None
            }
        }
    }

    /// Whether a post with the id `id` is stored.
    fn contains_post(&self, id: u32) -> (r: bool)
        ensures
            r == self@.has_post(id),
    {
        posts_contain(&self.posts, id)
    }

    /// Appends `comment`, whose id exceeds every stored one and whose post is
    /// stored.
    fn append_comment(&mut self, comment: DBComment)
        requires
            old(self)@.has_post(comment.post_id),
            comment.id == old(self)@.next_comment_id(),
        ensures
            final(self)@ == (ForumView { comments: old(self)@.comments.push(comment@), ..old(self)@ }),
    {
        proof {
            use_type_invariant(&*self);
        }
        let ghost before = self@;
        let ghost row = comment@;
        let mut comments: Vec<DBComment> = Vec::new();
        proof {
            assert(db_comment_rows(comments@) =~= Seq::<CommentRow>::empty());
        }
        std::mem::swap(&mut comments, &mut self.comments);
        comments.push(comment);
        proof {
            let rows = db_comment_rows(comments@);
            assert(rows =~= before.comments.push(row));
            assert forall|i: int, j: int| 0 <= i < j < rows.len() implies rows[i].id < rows[j].id by {
                if j == rows.len() - 1 && i < j - 1 {
                    assert(before.comments[i].id < before.comments[j - 1].id);
                }
            }
            assert forall|k: int| 0 <= k < rows.len() implies before.has_post(#[trigger] rows[k].post_id) by {
                if k < before.comments.len() {
                    assert(rows[k] == before.comments[k]);
                }
            }
        }
        self.comments = comments;
    }

    /// Stores a post of `content` by the holder of `token`, analysed as
    /// `verdict` and created at `created`, with its placeholder advice comment.
    pub fn submit_post_checked(&mut self, token: &str, content: &str, verdict: Verdict, created: i64) -> (r: Result<PostReceipt, ApiError>)
        ensures
            match old(self)@.post_error(token@, content@, verdict.flags) {
                Some(e) => r == Err::<PostReceipt, ApiError>(e) && final(self)@ == old(self)@,
                None => r matches Ok(receipt) && {
                    let post = old(self)@.new_post(
                        old(self)@.session_owner(trimmed(token@))->0,
                        content@,
                        created,
                    );
                    let placeholder = old(self)@.new_placeholder(post.id, created);
                    &&& receipt.post@ == post
                    &&& receipt.placeholder@ == placeholder
                    &&& final(self)@ == old(self)@.after_post(post, placeholder)
                },
            },
            old(self)@.session_owner(trimmed(token@)) is Some && !is_blank_text(content@) && blocks(
                old(self)@.policy,
                verdict.flags,
            ) ==> r == Err::<PostReceipt, ApiError>(ApiError::Forbidden),
            blocks(old(self)@.policy, verdict.flags) ==> final(self)@.posts == old(self)@.posts,
    {
        proof {
            use_type_invariant(&*self);
        }
        let username = match self.validate_session(token) {
            Some(u) => u,
            None => return Err(ApiError::Unauthorized),
        };
        if is_blank(content) {
            return Err(ApiError::BadRequest);
        }
        if self.policy.is_blocked(&verdict) {
            return Err(ApiError::Forbidden);
        }
        let post_id = match self.next_post_id() {
            Some(id) => id,
            None => return Err(ApiError::Internal),
        };
        let comment_id = match self.next_comment_id() {
            Some(id) => id,
            None => return Err(ApiError::Internal),
        };
        let post = DBPost { id: post_id, created, username, content: content.to_string() };
        let placeholder = DBComment {
            id: comment_id,
            post_id,
            created,
            username: AI_USERNAME.to_string(),
            content: PLACEHOLDER.to_string(),
        };
        let receipt = PostReceipt { post: post.clone(), placeholder: placeholder.clone() };
        let ghost before = self@;
        let ghost post_row = post@;
        let mut comments: Vec<DBComment> = Vec::new();
        let mut posts: Vec<DBPost> = Vec::new();
        proof {
            assert(db_comment_rows(comments@) =~= Seq::<CommentRow>::empty());
            assert(post_rows(posts@) =~= Seq::<PostRow>::empty());
        }
        std::mem::swap(&mut comments, &mut self.comments);
        std::mem::swap(&mut posts, &mut self.posts);
        posts.push(post);
        proof {
            let rows = post_rows(posts@);
            assert(rows =~= before.posts.push(post_row));
            assert forall|i: int, j: int| 0 <= i < j < rows.len() implies rows[i].id < rows[j].id by {
                if j == rows.len() - 1 && i < j - 1 {
                    assert(before.posts[i].id < before.posts[j - 1].id);
                }
            }
        }
        self.posts = posts;
        proof {
            assert forall|k: int| 0 <= k < before.comments.len() implies self@.has_post(#[trigger] before.comments[k].post_id) by {
                assert(before.has_post(before.comments[k].post_id));
                let i = choose|i: int| 0 <= i < before.posts.len() && before.posts[i].id == before.comments[k].post_id;
                assert(self@.posts[i] == before.posts[i]);
            }
        }
        self.comments = comments;
        proof {
            assert(self@.comments =~= before.comments);
            assert(self@.posts[self@.posts.len() - 1].id == post_id);
        }
        self.append_comment(placeholder);
        Ok(receipt)
    }

    /// Submits a post: analyses `content` with rustrict and stamps it with the
    /// current time, then as [`Forum::submit_post_checked`].
    pub fn submit_post(&mut self, token: &str, content: &str) -> (r: Result<PostReceipt, ApiError>)
        ensures
            match old(self)@.post_error(token@, content@, censor_flags(content@)) {
                Some(e) => r == Err::<PostReceipt, ApiError>(e) && final(self)@ == old(self)@,
                None => r matches Ok(receipt) && {
                    let post = old(self)@.new_post(
                        old(self)@.session_owner(trimmed(token@))->0,
                        content@,
                        receipt.post.created,
                    );
                    let placeholder = old(self)@.new_placeholder(post.id, receipt.placeholder.created);
                    &&& receipt.post@ == post
                    &&& receipt.placeholder@ == placeholder
                    &&& final(self)@ == old(self)@.after_post(post, placeholder)
                },
            },
            old(self)@.session_owner(trimmed(token@)) is Some && !is_blank_text(content@) && blocks(
                old(self)@.policy,
                censor_flags(content@),
            ) ==> r == Err::<PostReceipt, ApiError>(ApiError::Forbidden),
            blocks(old(self)@.policy, censor_flags(content@)) ==> final(self)@.posts == old(self)@.posts,
    {
        let verdict = Verdict::of_text(content);
        let created = now_timestamp();
        self.submit_post_checked(token, content, verdict, created)
    }

    /// Stores a comment of `input.content` on the post `input.post_id` by the
    /// holder of `token`, analysed as `verdict` and created at `created`.
    pub fn add_comment_checked(&mut self, token: &str, input: &InputComment, verdict: Verdict, created: i64) -> (r: Result<DBComment, ApiError>)
        ensures
            match old(self)@.comment_error(token@, input.post_id, input.content@, verdict.flags) {
                Some(e) => r == Err::<DBComment, ApiError>(e) && final(self)@ == old(self)@,
                None => r matches Ok(c) && {
                    let row = old(self)@.new_comment(
                        input.post_id,
                        old(self)@.session_owner(trimmed(token@))->0,
                        input.content@,
                        created,
                    );
                    &&& c@ == row
                    &&& final(self)@ == (ForumView { comments: old(self)@.comments.push(row), ..old(self)@ })
                },
            },
            old(self)@.session_owner(trimmed(token@)) is Some && !old(self)@.has_post(input.post_id) ==> r
                == Err::<DBComment, ApiError>(ApiError::NotFound),
            !old(self)@.has_post(input.post_id) ==> final(self)@.comments == old(self)@.comments,
    {
        proof {
            use_type_invariant(&*self);
        }
        let username = match self.validate_session(token) {
            Some(u) => u,
            None => return Err(ApiError::Unauthorized),
        };
        if !self.contains_post(input.post_id) {
            return Err(ApiError::NotFound);
        }
        if is_blank(input.content.as_str()) {
            return Err(ApiError::BadRequest);
        }
        if self.policy.is_blocked(&verdict) {
            return Err(ApiError::Forbidden);
        }
        let id = match self.next_comment_id() {
            Some(id) => id,
            None => return Err(ApiError::Internal),
        };
        let comment = DBComment {
            id,
            post_id: input.post_id,
            created,
            username,
            content: input.content.clone(),
        };
        let stored = comment.clone();
        self.append_comment(comment);
        Ok(stored)
    }

    /// Adds a comment: analyses the content with rustrict and stamps it with
    /// the current time, then as [`Forum::add_comment_checked`].
    pub fn add_comment(&mut self, token: &str, input: &InputComment) -> (r: Result<DBComment, ApiError>)
        ensures
            match old(self)@.comment_error(token@, input.post_id, input.content@, censor_flags(input.content@)) {
                Some(e) => r == Err::<DBComment, ApiError>(e) && final(self)@ == old(self)@,
                None => r matches Ok(c) && {
                    let row = old(self)@.new_comment(
                        input.post_id,
                        old(self)@.session_owner(trimmed(token@))->0,
                        input.content@,
                        c.created,
                    );
                    &&& c@ == row
                    &&& final(self)@ == (ForumView { comments: old(self)@.comments.push(row), ..old(self)@ })
                },
            },
            old(self)@.session_owner(trimmed(token@)) is Some && !old(self)@.has_post(input.post_id) ==> r
                == Err::<DBComment, ApiError>(ApiError::NotFound),
            !old(self)@.has_post(input.post_id) ==> final(self)@.comments == old(self)@.comments,
    {
        let verdict = Verdict::of_text(input.content.as_str());
        let created = now_timestamp();
        self.add_comment_checked(token, input, verdict, created)
    }

    /// Sets the content of the comment `comment_id`, as the advice worker does
    /// once the advice for a post is ready. Returns whether such a comment is
    /// stored; where none is, nothing changes.
    pub fn complete_advice(&mut self, comment_id: u32, advice: String) -> (r: bool)
        ensures
            r == old(self)@.has_comment(comment_id),
            final(self)@ == old(self)@.after_comment_update(comment_id, advice@),
    {
        proof {
            use_type_invariant(&*self);
        }
        let ghost before = self@;
        let ghost text = advice@;
        let mut i: usize = 0;
        while i < self.comments.len()
            invariant
                i <= self.comments.len(),
                forall|k: int| 0 <= k < i ==> self@.comments[k].id != comment_id,
            ensures
                i <= self.comments.len(),
                forall|k: int| 0 <= k < i ==> self@.comments[k].id != comment_id,
                i < self.comments.len() ==> self@.comments[i as int].id == comment_id,
            decreases self.comments.len() - i,
        {
            if self.comments[i].id == comment_id {
                break;
            }
            i = i + 1;
        }
        if i == self.comments.len() {
            proof {
                assert(before.after_comment_update(comment_id, text).comments =~= before.comments);
            }
            return false;
        }
        let mut comments: Vec<DBComment> = Vec::new();
        proof {
            assert(db_comment_rows(comments@) =~= Seq::<CommentRow>::empty());
        }
        std::mem::swap(&mut comments, &mut self.comments);
        let old_row = &comments[i];
        let updated = DBComment {
            id: old_row.id,
            post_id: old_row.post_id,
            created: old_row.created,
            username: old_row.username.clone(),
            content: advice,
        };
        let ghost old_rows = db_comment_rows(comments@);
        comments.set(i, updated);
        proof {
            let rows = db_comment_rows(comments@);
            assert(old_rows == before.comments);
            assert forall|k: int| 0 <= k < rows.len() && k != i implies rows[k].id != comment_id by {
                assert(rows[k] == old_rows[k]);
                if k < i {
                    assert(before.comments[k].id < before.comments[i as int].id);
                } else {
                    assert(before.comments[i as int].id < before.comments[k].id);
                }
            }
            assert(rows =~= before.after_comment_update(comment_id, text).comments);
            assert(before.comments[i as int].id == comment_id);
        }
        self.comments = comments;
        true
    }

    /// The comments attached to the post `post_id`, in table order.
    fn comments_for(&self, post_id: u32) -> (r: Vec<Comment>)
        ensures
            comment_rows(r@) == self@.comments_of(post_id),
    {
        let ghost rows = self@.comments;
        let ghost keep = attached_to(post_id);
        let mut found: Vec<Comment> = Vec::new();
        let n = self.comments.len();
        for j in 0..n
            invariant
                n == self.comments.len(),
                rows == self@.comments,
                keep == attached_to(post_id),
                comment_rows(found@) == rows.take(j as int).filter(keep),
        {
            proof {
                assert(rows.take(j + 1) =~= rows.take(j as int).push(rows[j as int]));
                rows.take(j as int).lemma_filter_push(rows[j as int], keep);
            }
            if self.comments[j].post_id == post_id {
                let ghost before = found@;
                found.push(Comment::from_db(&self.comments[j]));
                proof {
                    assert(comment_rows(found@) =~= comment_rows(before).push(rows[j as int]));
                }
            }
        }
        proof {
            assert(rows.take(n as int) =~= rows);
        }
        found
    }

    /// Every stored post, in ascending id order, each with its comments
    /// (`None` where it has none); `None` where no post is stored.
    pub fn get_posts(&self) -> (r: Option<Vec<Post>>)
        ensures
            r is None <==> self@.posts.len() == 0,
            r matches Some(ps) ==> ps@.len() == self@.posts.len() && forall|i: int|
                0 <= i < ps@.len() ==> #[trigger] ps@[i]@ == self@.post_view(i),
            r matches Some(ps) ==> forall|i: int|
                0 <= i < ps@.len() ==> (#[trigger] ps@[i]@.comments is None <==> self@.comments_of(
                    self@.posts[i].id,
                ).len() == 0),
    {
        let mut posts: Vec<Post> = Vec::new();
        let n = self.posts.len();
        for i in 0..n
            invariant
                n == self.posts.len(),
                posts.len() == i,
                forall|k: int| 0 <= k < i ==> #[trigger] posts@[k]@ == self@.post_view(k),
        {
            let comments = self.comments_for(self.posts[i].id);
            let comments = if comments.len() == 0 {
                None
            } else {
                Some(comments)
            };
            posts.push(Post::from_db(self.posts[i].clone(), comments));
        }
        if posts.len() == 0 {
            None
        } else {
            Some(posts)
        }
    }

    /// The stored row of the user named `username`.
    pub fn user_row(&self, username: &str) -> (r: Option<DBUser>)
        ensures
            match r {
                Some(u) => self@.has_user(username@) && u@ == self@.user(username@),
                None => !self@.has_user(username@),
            },
    {
        let name = username.to_string();
        match self.find_user(&name) {
            Some(i) => Some(self.users[i].clone()),
            None => None,
        }
    }

    /// The user whose session has the id `token`, with white space trimmed
    /// from both ends of it.
    pub fn validate_session(&self, token: &str) -> (r: Option<String>)
        ensures
            opt_view(r) == self@.session_owner(trimmed(token@)),
    {
        proof {
            use_type_invariant(self);
        }
        let token = trim(token).to_string();
        match self.find_session(&token) {
            Some(i) => {
                proof {
                    let j = choose|j: int|
                        0 <= j < self@.sessions.len() && self@.sessions[j].id == token@;
                    assert(self@.sessions[i as int].id == token@);
                    assert(j == i);
                }
                Some(self.sessions[i].username.clone())
            },
            None => None,
        }
    }
}

} // verus!
