//! Row types of the forum's relational model.
//!
//! Timestamps are unix seconds (`i64`), ids are the store's surrogate keys,
//! assigned densely from 1 in insertion order. `User::password` holds only
//! the keyed hash of the password, never the plaintext.

use vstd::prelude::*;

verus! {

/// A registered account.
#[derive(Debug)]
pub struct User {
    pub id: i32,
    pub username: String,
    pub email: String,
    /// Keyed hash of the password; the plaintext is never stored.
    pub password: String,
}

/// Insertion form for a user row; `password` already holds the keyed hash.
#[derive(Debug)]
pub struct NewUser {
    pub username: String,
    pub email: String,
    pub password: String,
}

/// Credentials presented at login.
#[derive(Debug)]
pub struct LoginUser {
    pub username: String,
    pub password: String,
}

/// A posted thread.
#[derive(Debug)]
pub struct Thread {
    pub id: i32,
    pub title: String,
    /// Optional URL; absent when the submission left the link field empty.
    pub link: Option<String>,
    pub author_id: i32,
    pub created_at: i64,
}

/// Insertion form for a thread; an empty `link` means no link.
#[derive(Debug)]
pub struct NewThread {
    pub title: String,
    pub link: String,
    pub author_id: i32,
    pub created_at: i64,
}

/// A comment attached to a thread, optionally replying to an earlier comment
/// of the same thread.
#[derive(Debug)]
pub struct Comment {
    pub id: i32,
    pub content: String,
    pub thread_id: i32,
    pub author_id: i32,
    pub parent_comment_id: Option<i32>,
    pub created_at: i64,
}

/// Insertion form for a comment row.
#[derive(Debug)]
pub struct NewComment {
    pub content: String,
    pub thread_id: i32,
    pub author_id: i32,
    pub parent_comment_id: Option<i32>,
    pub created_at: i64,
}

impl NewUser {
    /// Build the insertion form for a user row. `password_hash` is the keyed
    /// hash produced by the credential collaborator; the plaintext password
    /// never reaches a row.
    pub fn new(username: String, email: String, password_hash: String) -> (r: NewUser)
        ensures
            r.username == username,
            r.email == email,
            r.password == password_hash,
    {
        NewUser { username, email, password: password_hash }
    }
}

impl NewThread {
    /// Build the insertion form for a thread from the submitted form fields,
    /// stamping it with the server clock.
    pub fn from_post_form(title: String, link: String, author_id: i32) -> (r: NewThread)
        ensures
            r.title == title,
            r.link == link,
            r.author_id == author_id,
    {
        NewThread { title, link, author_id, created_at: crate::clock::now_timestamp() }
    }
}

impl NewComment {
    /// Build the insertion form for a comment, stamping it with the server
    /// clock.
    pub fn new(
        content: String,
        thread_id: i32,
        author_id: i32,
        parent_comment_id: Option<i32>,
    ) -> (r: NewComment)
        ensures
            r.content == content,
            r.thread_id == thread_id,
            r.author_id == author_id,
            r.parent_comment_id == parent_comment_id,
    {
        NewComment { content, thread_id, author_id, parent_comment_id, created_at: crate::clock::now_timestamp() }
    }
}

impl User {
    /// An owned copy of the row, equal to the original.
    pub fn duplicate(&self) -> (r: User)
        ensures
            r == *self,
    {
        User {
            id: self.id,
            username: self.username.clone(),
            email: self.email.clone(),
            password: self.password.clone(),
        }
    }
}

impl Thread {
    /// An owned copy of the row, equal to the original.
    pub fn duplicate(&self) -> (r: Thread)
        ensures
            r == *self,
    {
        Thread {
            id: self.id,
            title: self.title.clone(),
            link: match &self.link {
                Some(l) => Some(l.clone()),
                None => None,
            },
            author_id: self.author_id,
            created_at: self.created_at,
        }
    }
}

impl Comment {
    /// An owned copy of the row, equal to the original.
    pub fn duplicate(&self) -> (r: Comment)
        ensures
            r == *self,
    {
        Comment {
            id: self.id,
            content: self.content.clone(),
            thread_id: self.thread_id,
            author_id: self.author_id,
            parent_comment_id: self.parent_comment_id,
            created_at: self.created_at,
        }
    }
}

} // verus!
