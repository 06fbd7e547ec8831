//! The forum service: session checks, input validation, and store calls for
//! the write operations (register, login, post thread, post comment) and the
//! read operations (list threads, view thread).
//!
//! Credential hashing and verification belong to an outside collaborator (an
//! Argon2 backend driven by the surrounding application), so the operations
//! that need it come in two halves: the service decides everything up to the
//! hash (`register_request`, `login_lookup`), the application performs the
//! hash or the comparison, and the service takes the outcome back
//! (`register_hashed`, `login_verified`) with a contract that pins the result
//! for every value the collaborator can hand in.

use vstd::prelude::*;

use crate::errors::ForumError;
use crate::models::{Comment, NewComment, NewThread, NewUser, Thread, User};
use crate::session;
use crate::store::{
    comment_author_pairs, named_user, thread_author_pairs, username_taken, Store,
};

verus! {

/// The forum service over its store. The store is the only state: sessions
/// are stateless tokens and the credential secret lives with the outside
/// collaborator that hashes.
pub struct Forum {
    pub store: Store,
}

/// What `view_thread` returns: the thread, its author, the thread's comments
/// each with their author, and whether the viewer presented a session token.
#[derive(Debug)]
pub struct ThreadView {
    pub thread: Thread,
    pub author: User,
    pub comments: Vec<(Comment, User)>,
    pub viewer_logged_in: bool,
}

impl Forum {
    /// The service is well-formed exactly when its store is.
    pub open spec fn wf(&self) -> bool {
        self.store.wf()
    }

    /// A fresh service over an empty store.
    pub fn new() -> (f: Forum)
        ensures
            f.wf(),
            f.store.users@ == Seq::<User>::empty(),
            f.store.threads@ == Seq::<Thread>::empty(),
            f.store.comments@ == Seq::<Comment>::empty(),
    {
        Forum { store: Store::new() }
    }

    /// First half of registration: validate the submitted fields and check
    /// that the username is free. On `Ok` the caller hashes the password and
    /// completes with `register_hashed`.
    pub fn register_request(&self, username: &str, email: &str, password: &str) -> (r: Result<
        (),
        ForumError,
    >)
        requires
            self.wf(),
        ensures
            ({
                let empty = username@.len() == 0 || email@.len() == 0 || password@.len() == 0;
                let taken = username_taken(self.store.users@, username@);
                let full = self.store.users@.len() == i32::MAX;
                &&& (r is Ok <==> !empty && !taken && !full)
                &&& (r == Err::<(), ForumError>(ForumError::ValidationError) <==> empty)
                &&& (r == Err::<(), ForumError>(ForumError::DuplicateUsername) <==> !empty
                    && taken)
                &&& (r == Err::<(), ForumError>(ForumError::ConstraintError) <==> !empty && !taken
                    && full)
            }),
    {
        if username.is_empty() || email.is_empty() || password.is_empty() {
            return Err(ForumError::ValidationError);
        }
        match self.store.find_user_by_username(username) {
            Ok(_) => Err(ForumError::DuplicateUsername),
            Err(_) => {
                if self.store.users.len() >= i32::MAX as usize {
                    Err(ForumError::ConstraintError)
                } else {
                    Ok(())
                }
            },
        }
    }

    /// Second half of registration: store the hashed credential. Succeeds
    /// exactly when the fields are non-empty, the username is still free and
    /// the id space is not exhausted; a duplicate registration fails and
    /// leaves the first user's row unchanged.
    pub fn register_hashed(&mut self, username: &str, email: &str, password_hash: &str) -> (r:
        Result<User, ForumError>)
        requires
            old(self).wf(),
        ensures
            final(self).wf(),
            r is Err ==> *final(self) == *old(self),
            ({
                let empty = username@.len() == 0 || email@.len() == 0 || password_hash@.len()
                    == 0;
                let taken = username_taken(old(self).store.users@, username@);
                let full = old(self).store.users@.len() == i32::MAX;
                &&& (r is Ok <==> !empty && !taken && !full)
                &&& (r == Err::<User, ForumError>(ForumError::ValidationError) <==> empty)
                &&& (r == Err::<User, ForumError>(ForumError::DuplicateUsername) <==> !empty
                    && taken)
                &&& (r == Err::<User, ForumError>(ForumError::ConstraintError) <==> !empty
                    && !taken && full)
            }),
            r matches Ok(u) ==> {
                &&& u.id as int == old(self).store.users@.len() + 1
                &&& u.username@ == username@
                &&& u.email@ == email@
                &&& u.password@ == password_hash@
                &&& final(self).store.users@ == old(self).store.users@.push(u)
                &&& final(self).store.threads@ == old(self).store.threads@
                &&& final(self).store.comments@ == old(self).store.comments@
            },
    {
        if username.is_empty() || email.is_empty() || password_hash.is_empty() {
            return Err(ForumError::ValidationError);
        }
        let nu = NewUser::new(username.to_owned(), email.to_owned(), password_hash.to_owned());
        match self.store.create_user(nu) {
            Ok(u) => Ok(u),
            Err(crate::errors::StoreError::DuplicateUsername) => Err(
                ForumError::DuplicateUsername,
            ),
            Err(_) => Err(ForumError::ConstraintError),
        }
    }

    /// First half of login: the stored credential hash for a username, so
    /// that the collaborator can compare it against the candidate password.
    /// Fails exactly when the username is unknown.
    pub fn login_lookup(&self, username: &str) -> (r: Result<String, ForumError>)
        requires
            self.wf(),
        ensures
            r is Ok <==> username_taken(self.store.users@, username@),
            r matches Ok(h) ==> h@ == named_user(self.store.users@, username@).password@,
            r is Err ==> r == Err::<String, ForumError>(ForumError::NotFound),
    {
        match self.store.find_user_by_username(username) {
            Ok(u) => Ok(u.password),
            Err(_) => Err(ForumError::NotFound),
        }
    }

    /// Second half of login: take the collaborator's verdict on the
    /// credential. An unknown username fails with `NotFound`, a rejected
    /// credential with `InvalidCredential`; otherwise a session token bound
    /// to the username is issued.
    pub fn login_verified(&self, username: &str, credential_valid: bool) -> (r: Result<
        String,
        ForumError,
    >)
        requires
            self.wf(),
        ensures
            ({
                let taken = username_taken(self.store.users@, username@);
                &&& (r is Ok <==> taken && credential_valid)
                &&& (r == Err::<String, ForumError>(ForumError::NotFound) <==> !taken)
                &&& (r == Err::<String, ForumError>(ForumError::InvalidCredential) <==> taken
                    && !credential_valid)
            }),
            r matches Ok(t) ==> t@ == session::token_of(username@) && session::bound_username(t@)
                == username@,
    {
        match self.store.find_user_by_username(username) {
            Err(_) => Err(ForumError::NotFound),
            Ok(_) => {
                if credential_valid {
                    Ok(session::issue(username))
                } else {
                    Err(ForumError::InvalidCredential)
                }
            },
        }
    }

    /// Log a session out. Tokens are stateless, so there is nothing to
    /// delete server-side: the HTTP layer instructs the client to discard
    /// its cookie. The call never fails, also for a token that was already
    /// logged out, which makes logout idempotent.
    pub fn logout(&self, _token: Option<&str>) -> (r: Result<(), ForumError>)
        ensures
            r == Ok::<(), ForumError>(()),
    {
        Ok(())
    }

    /// All threads, each with its author, in insertion order.
    pub fn list_threads(&self) -> (r: Vec<(Thread, User)>)
        requires
            self.wf(),
        ensures
            r@ == thread_author_pairs(self.store.users@, self.store.threads@),
    {
        self.store.list_threads_with_authors()
    }

    /// Post a thread. The token must resolve to a registered user and the
    /// title must be non-empty; the link is optional and an empty link field
    /// means no link. The thread is stamped with the server clock.
    pub fn post_thread(&mut self, token: Option<&str>, title: &str, link: &str) -> (r: Result<
        Thread,
        ForumError,
    >)
        requires
            old(self).wf(),
        ensures
            final(self).wf(),
            r is Err ==> *final(self) == *old(self),
            r == Err::<Thread, ForumError>(ForumError::Unauthenticated) <==> token is None,
            token matches Some(t) ==> ({
                let uname = session::bound_username(t@);
                let known = username_taken(old(self).store.users@, uname);
                let empty = title@.len() == 0;
                let full = old(self).store.threads@.len() == i32::MAX;
                &&& (r == Err::<Thread, ForumError>(ForumError::UserNotFound) <==> !known)
                &&& (r == Err::<Thread, ForumError>(ForumError::ValidationError) <==> known
                    && empty)
                &&& (r is Ok <==> known && !empty && !full)
                &&& (r == Err::<Thread, ForumError>(ForumError::ConstraintError) <==> known
                    && !empty && full)
                &&& (r matches Ok(th) ==> {
                    &&& th.id as int == old(self).store.threads@.len() + 1
                    &&& th.title@ == title@
                    &&& (link@.len() == 0 ==> th.link is None)
                    &&& (link@.len() > 0 ==> (th.link matches Some(l) && l@ == link@))
                    &&& th.author_id == named_user(old(self).store.users@, uname).id
                    &&& final(self).store.threads@ == old(self).store.threads@.push(th)
                    &&& final(self).store.users@ == old(self).store.users@
                    &&& final(self).store.comments@ == old(self).store.comments@
                })
            }),
    {
        let who = session::resolve(token);
        match who {
            None => Err(ForumError::Unauthenticated),
            Some(uname) => {
                match self.store.find_user_by_username(uname.as_str()) {
                    Err(_) => Err(ForumError::UserNotFound),
                    Ok(u) => {
                        if title.is_empty() {
                            return Err(ForumError::ValidationError);
                        }
                        let nt = NewThread::from_post_form(title.to_owned(), link.to_owned(), u.id);
                        match self.store.create_thread(nt) {
                            Ok(t) => Ok(t),
                            Err(_) => Err(ForumError::ConstraintError),
                        }
                    },
                }
            },
        }
    }

    /// View a thread: the thread, its author, its comments with their
    /// authors, and whether the viewer presented a token. Fails exactly when
    /// the thread does not exist; no login is required to read.
    pub fn view_thread(&self, token: Option<&str>, thread_id: i32) -> (r: Result<
        ThreadView,
        ForumError,
    >)
        requires
            self.wf(),
        ensures
            r is Ok <==> 1 <= thread_id as int && thread_id as int <= self.store.threads@.len(),
            r is Err ==> r == Err::<ThreadView, ForumError>(ForumError::ThreadNotFound),
            r matches Ok(v) ==> {
                &&& v.thread == self.store.threads@[thread_id as int - 1]
                &&& v.author == self.store.users@[v.thread.author_id as int - 1]
                &&& v.comments@ == comment_author_pairs(
                    self.store.users@,
                    self.store.comments@,
                    thread_id,
                )
                &&& v.viewer_logged_in == (token is Some)
            },
    {
        match self.store.get_thread_by_id(thread_id) {
            Err(_) => Err(ForumError::ThreadNotFound),
            Ok(thread) => {
                proof {
                    assert(crate::store::thread_row_ok(
                        self.store.threads@[thread_id as int - 1],
                        thread_id as int - 1,
                        self.store.users@.len() as int,
                    ));
                }
                let author = self.store.users[(thread.author_id - 1) as usize].duplicate();
                let comments = self.store.list_comments_for_thread_with_authors(thread_id);
                let viewer_logged_in = match token {
                    Some(_) => true,
                    None => false,
                };
                Ok(ThreadView { thread, author, comments, viewer_logged_in })
            },
        }
    }

    /// Post a comment under a thread, optionally as a reply to a parent
    /// comment, which must be an existing comment of the same thread. The
    /// comment is stamped with the server clock.
    pub fn post_comment(
        &mut self,
        token: Option<&str>,
        thread_id: i32,
        content: &str,
        parent_comment_id: Option<i32>,
    ) -> (r: Result<Comment, ForumError>)
        requires
            old(self).wf(),
        ensures
            final(self).wf(),
            r is Err ==> *final(self) == *old(self),
            r == Err::<Comment, ForumError>(ForumError::Unauthenticated) <==> token is None,
            token matches Some(t) ==> ({
                let uname = session::bound_username(t@);
                let known = username_taken(old(self).store.users@, uname);
                let thread_ok = 1 <= thread_id as int && thread_id as int <= old(
                    self,
                ).store.threads@.len();
                let empty = content@.len() == 0;
                let badparent = match parent_comment_id {
                    Some(p) => !(1 <= p as int && p as int <= old(self).store.comments@.len())
                        || old(self).store.comments@[p as int - 1].thread_id != thread_id,
                    None => false,
                };
                let full = old(self).store.comments@.len() == i32::MAX;
                &&& (r == Err::<Comment, ForumError>(ForumError::ThreadNotFound) <==> !thread_ok)
                &&& (r == Err::<Comment, ForumError>(ForumError::UserNotFound) <==> thread_ok
                    && !known)
                &&& (r == Err::<Comment, ForumError>(ForumError::ValidationError) <==> thread_ok
                    && known && empty)
                &&& (r == Err::<Comment, ForumError>(ForumError::InvalidParent) <==> thread_ok
                    && known && !empty && badparent)
                &&& (r is Ok <==> thread_ok && known && !empty && !badparent && !full)
                &&& (r == Err::<Comment, ForumError>(ForumError::ConstraintError) <==> thread_ok
                    && known && !empty && !badparent && full)
                &&& (r matches Ok(c) ==> {
                    &&& c.id as int == old(self).store.comments@.len() + 1
                    &&& c.content@ == content@
                    &&& c.thread_id == thread_id
                    &&& c.author_id == named_user(old(self).store.users@, uname).id
                    &&& c.parent_comment_id == parent_comment_id
                    &&& final(self).store.comments@ == old(self).store.comments@.push(c)
                    &&& final(self).store.users@ == old(self).store.users@
                    &&& final(self).store.threads@ == old(self).store.threads@
                })
            }),
    {
        let who = session::resolve(token);
        match who {
            None => Err(ForumError::Unauthenticated),
            Some(uname) => {
                let thread = match self.store.get_thread_by_id(thread_id) {
                    Ok(t) => t,
                    Err(_) => {
                        return Err(ForumError::ThreadNotFound);
                    },
                };
                let user = match self.store.find_user_by_username(uname.as_str()) {
                    Ok(u) => u,
                    Err(_) => {
                        return Err(ForumError::UserNotFound);
                    },
                };
                if content.is_empty() {
                    return Err(ForumError::ValidationError);
                }
                let nc = NewComment::new(
                    content.to_owned(),
                    thread.id,
                    user.id,
                    parent_comment_id,
                );
                match self.store.create_comment(nc) {
                    Ok(c) => Ok(c),
                    Err(crate::errors::StoreError::InvalidParent) => Err(
                        ForumError::InvalidParent,
                    ),
                    Err(_) => Err(ForumError::ConstraintError),
                }
            },
        }
    }
}

} // verus!
