//! A small multi-user forum: accounts and bearer sessions, moderated posts and
//! comments, and an advice comment that is filled in after a post is stored.
//!
//! The store of users, sessions, posts and comments is [`Forum`]; every request
//! handler is a method on it whose contract states how the tables change.

pub mod advice;
mod clock;
pub mod credentials;
pub mod dom;
pub mod error;
pub mod forum;
pub mod laws;
pub mod model;
pub mod moderation;
pub mod state;
mod tables;
pub mod text;

pub use model::{Comment, InputComment, Post, Session, User};
pub use model::{DBComment, DBPost, DBSession, DBUser, FromDBComment, FromDBPost};
pub use dom::{set_text, set_text_str};
pub use error::ApiError;
pub use forum::{Forum, PostReceipt};
