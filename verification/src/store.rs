//! The relational store: users, threads and comments, with their
//! referential-integrity invariants.
//!
//! Rows are append-only: nothing in the core updates or deletes a row, so the
//! store assigns surrogate ids densely from 1 in insertion order. The
//! well-formedness predicate `Store::wf` is the schema's invariant: usernames
//! are unique, required columns are non-empty, every author and thread
//! reference points at an existing row, and a parent-comment reference points
//! at an earlier comment of the same thread.

use vstd::prelude::*;

use crate::errors::StoreError;
use crate::models::{Comment, NewComment, NewThread, NewUser, Thread, User};

verus! {

/// True when some row of `users` carries `name` as its username.
pub open spec fn username_taken(users: Seq<User>, name: Seq<char>) -> bool {
    exists|i: int| 0 <= i < users.len() && (#[trigger] users[i]).username@ == name
}

/// Registering a username makes it taken: after a successful insert of `u`
/// the table holds `u.username`. Together with `create_user`'s contract this
/// is the duplicate-registration law: a second registration of the same name
/// must yield `DuplicateUsername` and leave every existing row, the first
/// user's included, unchanged.
pub proof fn lemma_registered_username_taken(users: Seq<User>, u: User)
    ensures
        username_taken(users.push(u), u.username@),
{
    assert(users.push(u)[users.len() as int] == u);
}

/// The index of the row carrying `name`; meaningful only when
/// `username_taken(users, name)` holds.
pub open spec fn named_user_index(users: Seq<User>, name: Seq<char>) -> int {
    choose|i: int| 0 <= i < users.len() && (#[trigger] users[i]).username@ == name
}

/// The row carrying `name`; meaningful only when `username_taken(users, name)`
/// holds. Under `Store::wf` the row is unique.
pub open spec fn named_user(users: Seq<User>, name: Seq<char>) -> User {
    users[named_user_index(users, name)]
}

/// Well-formedness of the user row at index `i`: ids are dense from 1,
/// username and email are non-empty.
pub open spec fn user_row_ok(u: User, i: int) -> bool {
    &&& u.id == i + 1
    &&& u.username@.len() > 0
    &&& u.email@.len() > 0
}

/// Well-formedness of the thread row at index `i` in a store with `n_users`
/// user rows: dense id, non-empty title, an author that exists, and a link
/// that is either absent or non-empty.
pub open spec fn thread_row_ok(t: Thread, i: int, n_users: int) -> bool {
    &&& t.id == i + 1
    &&& t.title@.len() > 0
    &&& 1 <= t.author_id as int && t.author_id as int <= n_users
    &&& t.link matches Some(l) ==> l@.len() > 0
}

/// Well-formedness of the comment row at index `i`: dense id, non-empty
/// content, an existing thread and author, and a parent (when present) that
/// is an earlier comment of the same thread.
pub open spec fn comment_row_ok(
    c: Comment,
    i: int,
    n_users: int,
    n_threads: int,
    comments: Seq<Comment>,
) -> bool {
    &&& c.id == i + 1
    &&& c.content@.len() > 0
    &&& 1 <= c.thread_id as int && c.thread_id as int <= n_threads
    &&& 1 <= c.author_id as int && c.author_id as int <= n_users
    &&& match c.parent_comment_id {
        Some(p) => 1 <= p as int && p as int <= i && comments[p as int - 1].thread_id
            == c.thread_id,
        None => true,
    }
}

/// The join of `threads` with `users` on the author id, in insertion order:
/// each thread paired with its author's row.
pub open spec fn thread_author_pairs(users: Seq<User>, threads: Seq<Thread>) -> Seq<(Thread, User)>
    decreases threads.len(),
{
    if threads.len() == 0 {
        Seq::empty()
    } else {
        thread_author_pairs(users, threads.drop_last()).push(
            (threads.last(), users[threads.last().author_id as int - 1]),
        )
    }
}

/// The comments of thread `tid`, in insertion order, each paired with its
/// author's row.
pub open spec fn comment_author_pairs(
    users: Seq<User>,
    comments: Seq<Comment>,
    tid: i32,
) -> Seq<(Comment, User)>
    decreases comments.len(),
{
    if comments.len() == 0 {
        Seq::empty()
    } else {
        let rest = comment_author_pairs(users, comments.drop_last(), tid);
        if comments.last().thread_id == tid {
            rest.push((comments.last(), users[comments.last().author_id as int - 1]))
        } else {
            rest
        }
    }
}

/// The relational store. Fields are public so that contracts can speak of the
/// rows directly; every operation requires and preserves `wf`.
pub struct Store {
    pub users: Vec<User>,
    pub threads: Vec<Thread>,
    pub comments: Vec<Comment>,
}

impl Store {
    /// Invariant of the `users` table.
    pub open spec fn users_ok(&self) -> bool {
        &&& self.users@.len() <= i32::MAX
        &&& forall|i: int|
            0 <= i < self.users@.len() ==> user_row_ok(#[trigger] self.users@[i], i)
        &&& forall|i: int, j: int|
            #![trigger self.users@[i], self.users@[j]]
            0 <= i < j < self.users@.len() ==> self.users@[i].username@
                != self.users@[j].username@
    }

    /// Invariant of the `threads` table.
    pub open spec fn threads_ok(&self) -> bool {
        &&& self.threads@.len() <= i32::MAX
        &&& forall|i: int|
            0 <= i < self.threads@.len() ==> thread_row_ok(
                #[trigger] self.threads@[i],
                i,
                self.users@.len() as int,
            )
    }

    /// Invariant of the `comments` table.
    pub open spec fn comments_ok(&self) -> bool {
        &&& self.comments@.len() <= i32::MAX
        &&& forall|i: int|
            0 <= i < self.comments@.len() ==> comment_row_ok(
                #[trigger] self.comments@[i],
                i,
                self.users@.len() as int,
                self.threads@.len() as int,
                self.comments@,
            )
    }

    /// The schema invariant: every operation requires and preserves it.
    pub open spec fn wf(&self) -> bool {
        &&& self.users_ok()
        &&& self.threads_ok()
        &&& self.comments_ok()
    }

    /// An empty store.
    pub fn new() -> (s: Store)
        ensures
            s.wf(),
            s.users@ == Seq::<User>::empty(),
            s.threads@ == Seq::<Thread>::empty(),
            s.comments@ == Seq::<Comment>::empty(),
    {
        Store { users: Vec::new(), threads: Vec::new(), comments: Vec::new() }
    }

    /// Insert a user row.
    ///
    /// Succeeds exactly when the required columns are non-empty, the username
    /// is not yet taken, and the id space is not exhausted; a failed insert
    /// leaves the store unchanged.
    pub fn create_user(&mut self, nu: NewUser) -> (r: Result<User, StoreError>)
        requires
            old(self).wf(),
        ensures
            final(self).wf(),
            r is Err ==> *final(self) == *old(self),
            ({
                let empty = nu.username@.len() == 0 || nu.email@.len() == 0;
                let taken = username_taken(old(self).users@, nu.username@);
                let full = old(self).users@.len() == i32::MAX;
                &&& (r is Ok <==> !empty && !taken && !full)
                &&& (r == Err::<User, StoreError>(StoreError::DuplicateUsername) <==> !empty
                    && taken)
                &&& (r == Err::<User, StoreError>(StoreError::ConstraintError) <==> empty || (
                !empty && !taken && full))
            }),
            r matches Ok(u) ==> {
                &&& u.id as int == old(self).users@.len() + 1
                &&& u.username@ == nu.username@
                &&& u.email@ == nu.email@
                &&& u.password@ == nu.password@
                &&& final(self).users@ == old(self).users@.push(u)
                &&& final(self).threads@ == old(self).threads@
                &&& final(self).comments@ == old(self).comments@
            },
    {
        if nu.username.as_str().is_empty() || nu.email.as_str().is_empty() {
            return Err(StoreError::ConstraintError);
        }
        let n = self.users.len();
        let mut i: usize = 0;
        while i < n
            invariant
                *self == *old(self),
                self.wf(),
                n == self.users@.len(),
                i <= n,
                nu.username@.len() > 0,
                nu.email@.len() > 0,
                forall|j: int| 0 <= j < i ==> (#[trigger] self.users@[j]).username@
                    != nu.username@,
            decreases n - i,
        {
            if self.users[i].username == nu.username {
                return Err(StoreError::DuplicateUsername);
            }
            i += 1;
        }
        assert(!username_taken(self.users@, nu.username@));
        if self.users.len() >= i32::MAX as usize {
            return Err(StoreError::ConstraintError);
        }
        let id: i32 = (self.users.len() + 1) as i32;
        let user = User { id, username: nu.username, email: nu.email, password: nu.password };
        let row = user.duplicate();
        self.users.push(row);
        assert forall|k: int| 0 <= k < self.threads@.len() implies thread_row_ok(
            #[trigger] self.threads@[k],
            k,
            self.users@.len() as int,
        ) by {
            assert(thread_row_ok(self.threads@[k], k, old(self).users@.len() as int));
        }
        assert forall|k: int| 0 <= k < self.comments@.len() implies comment_row_ok(
            #[trigger] self.comments@[k],
            k,
            self.users@.len() as int,
            self.threads@.len() as int,
            self.comments@,
        ) by {
            assert(comment_row_ok(
                self.comments@[k],
                k,
                old(self).users@.len() as int,
                self.threads@.len() as int,
                self.comments@,
            ));
        }
        Ok(user)
    }

    /// Look a user up by username.
    pub fn find_user_by_username(&self, username: &str) -> (r: Result<User, StoreError>)
        requires
            self.wf(),
        ensures
            r is Ok <==> username_taken(self.users@, username@),
            r matches Ok(u) ==> u == named_user(self.users@, username@) && u.username@
                == username@,
            r is Err ==> r == Err::<User, StoreError>(StoreError::NotFound),
    {
        let name = username.to_owned();
        let n = self.users.len();
        let mut i: usize = 0;
        while i < n
            invariant
                n == self.users@.len(),
                i <= n,
                name@ == username@,
                self.wf(),
                forall|j: int| 0 <= j < i ==> (#[trigger] self.users@[j]).username@ != username@,
            decreases n - i,
        {
            if self.users[i].username == name {
                let u = self.users[i].duplicate();
                proof {
                    assert(username_taken(self.users@, username@));
                    let j = named_user_index(self.users@, username@);
                    assert(0 <= j < self.users@.len() && self.users@[j].username@ == username@);
                    if j != i as int {
                        assert(self.users@[j].username@ != self.users@[i as int].username@);
                    }
                }
                return Ok(u);
            }
            i += 1;
        }
        Err(StoreError::NotFound)
    }

    /// Insert a thread row.
    ///
    /// Succeeds exactly when the title is non-empty, the author exists, and
    /// the id space is not exhausted; a failed insert leaves the store
    /// unchanged. An empty link column of the insertion form becomes an
    /// absent link.
    pub fn create_thread(&mut self, nt: NewThread) -> (r: Result<Thread, StoreError>)
        requires
            old(self).wf(),
        ensures
            final(self).wf(),
            r is Err ==> *final(self) == *old(self),
            ({
                let empty = nt.title@.len() == 0;
                let badfk = !(1 <= nt.author_id as int && nt.author_id as int <= old(
                    self,
                ).users@.len());
                let full = old(self).threads@.len() == i32::MAX;
                &&& (r is Ok <==> !empty && !badfk && !full)
                &&& (r == Err::<Thread, StoreError>(StoreError::ForeignKeyViolation) <==> !empty
                    && badfk)
                &&& (r == Err::<Thread, StoreError>(StoreError::ConstraintError) <==> empty || (
                !empty && !badfk && full))
            }),
            r matches Ok(t) ==> {
                &&& t.id as int == old(self).threads@.len() + 1
                &&& t.title@ == nt.title@
                &&& (nt.link@.len() == 0 ==> t.link is None)
                &&& (nt.link@.len() > 0 ==> (t.link matches Some(l) && l@ == nt.link@))
                &&& t.author_id == nt.author_id
                &&& t.created_at == nt.created_at
                &&& final(self).threads@ == old(self).threads@.push(t)
                &&& final(self).users@ == old(self).users@
                &&& final(self).comments@ == old(self).comments@
            },
    {
        if nt.title.as_str().is_empty() {
            return Err(StoreError::ConstraintError);
        }
        if !(nt.author_id >= 1 && (nt.author_id as usize) <= self.users.len()) {
            return Err(StoreError::ForeignKeyViolation);
        }
        if self.threads.len() >= i32::MAX as usize {
            return Err(StoreError::ConstraintError);
        }
        let id: i32 = (self.threads.len() + 1) as i32;
        let link: Option<String> = if nt.link.as_str().is_empty() {
            None
        } else {
            Some(nt.link)
        };
        let thread = Thread {
            id,
            title: nt.title,
            link,
            author_id: nt.author_id,
            created_at: nt.created_at,
        };
        let row = thread.duplicate();
        self.threads.push(row);
        assert forall|k: int| 0 <= k < self.comments@.len() implies comment_row_ok(
            #[trigger] self.comments@[k],
            k,
            self.users@.len() as int,
            self.threads@.len() as int,
            self.comments@,
        ) by {
            assert(comment_row_ok(
                self.comments@[k],
                k,
                self.users@.len() as int,
                old(self).threads@.len() as int,
                self.comments@,
            ));
        }
        Ok(thread)
    }

    /// Look a thread up by id.
    pub fn get_thread_by_id(&self, id: i32) -> (r: Result<Thread, StoreError>)
        requires
            self.wf(),
        ensures
            r is Ok <==> 1 <= id as int && id as int <= self.threads@.len(),
            r matches Ok(t) ==> t == self.threads@[id as int - 1],
            r is Err ==> r == Err::<Thread, StoreError>(StoreError::NotFound),
    {
        if id >= 1 && (id as usize) <= self.threads.len() {
            Ok(self.threads[(id - 1) as usize].duplicate())
        } else {
            Err(StoreError::NotFound)
        }
    }

    /// Insert a comment row.
    ///
    /// Succeeds exactly when the content is non-empty, thread and author
    /// exist, the parent reference (when present) names an earlier comment of
    /// the same thread, and the id space is not exhausted; a failed insert
    /// leaves the store unchanged.
    pub fn create_comment(&mut self, nc: NewComment) -> (r: Result<Comment, StoreError>)
        requires
            old(self).wf(),
        ensures
            final(self).wf(),
            r is Err ==> *final(self) == *old(self),
            ({
                let empty = nc.content@.len() == 0;
                let badthread = !(1 <= nc.thread_id as int && nc.thread_id as int <= old(
                    self,
                ).threads@.len());
                let badauthor = !(1 <= nc.author_id as int && nc.author_id as int <= old(
                    self,
                ).users@.len());
                let badparent = match nc.parent_comment_id {
                    Some(p) => !(1 <= p as int && p as int <= old(self).comments@.len()) || old(
                        self,
                    ).comments@[p as int - 1].thread_id != nc.thread_id,
                    None => false,
                };
                let full = old(self).comments@.len() == i32::MAX;
                &&& (r is Ok <==> !empty && !badthread && !badauthor && !badparent && !full)
                &&& (r == Err::<Comment, StoreError>(StoreError::ForeignKeyViolation) <==> !empty
                    && (badthread || badauthor))
                &&& (r == Err::<Comment, StoreError>(StoreError::InvalidParent) <==> !empty
                    && !badthread && !badauthor && badparent)
                &&& (r == Err::<Comment, StoreError>(StoreError::ConstraintError) <==> empty || (
                !empty && !badthread && !badauthor && !badparent && full))
            }),
            r matches Ok(c) ==> {
                &&& c.id as int == old(self).comments@.len() + 1
                &&& c.content@ == nc.content@
                &&& c.thread_id == nc.thread_id
                &&& c.author_id == nc.author_id
                &&& c.parent_comment_id == nc.parent_comment_id
                &&& c.created_at == nc.created_at
                &&& final(self).comments@ == old(self).comments@.push(c)
                &&& final(self).users@ == old(self).users@
                &&& final(self).threads@ == old(self).threads@
            },
    {
        if nc.content.as_str().is_empty() {
            return Err(StoreError::ConstraintError);
        }
        if !(nc.thread_id >= 1 && (nc.thread_id as usize) <= self.threads.len()) {
            return Err(StoreError::ForeignKeyViolation);
        }
        if !(nc.author_id >= 1 && (nc.author_id as usize) <= self.users.len()) {
            return Err(StoreError::ForeignKeyViolation);
        }
        match nc.parent_comment_id {
            Some(p) => {
                if !(p >= 1 && (p as usize) <= self.comments.len()) {
                    return Err(StoreError::InvalidParent);
                }
                if self.comments[(p - 1) as usize].thread_id != nc.thread_id {
                    return Err(StoreError::InvalidParent);
                }
            },
            None => {},
        }
        if self.comments.len() >= i32::MAX as usize {
            return Err(StoreError::ConstraintError);
        }
        let id: i32 = (self.comments.len() + 1) as i32;
        let comment = Comment {
            id,
            content: nc.content,
            thread_id: nc.thread_id,
            author_id: nc.author_id,
            parent_comment_id: nc.parent_comment_id,
            created_at: nc.created_at,
        };
        let row = comment.duplicate();
        self.comments.push(row);
        assert forall|k: int| 0 <= k < self.comments@.len() implies comment_row_ok(
            #[trigger] self.comments@[k],
            k,
            self.users@.len() as int,
            self.threads@.len() as int,
            self.comments@,
        ) by {
            if k < old(self).comments@.len() {
                assert(comment_row_ok(
                    old(self).comments@[k],
                    k,
                    self.users@.len() as int,
                    self.threads@.len() as int,
                    old(self).comments@,
                ));
            }
        }
        Ok(comment)
    }

    /// All threads joined with their authors, in insertion order.
    pub fn list_threads_with_authors(&self) -> (r: Vec<(Thread, User)>)
        requires
            self.wf(),
        ensures
            r@ == thread_author_pairs(self.users@, self.threads@),
    {
        let mut r: Vec<(Thread, User)> = Vec::new();
        let n = self.threads.len();
        let mut i: usize = 0;
        while i < n
            invariant
                self.wf(),
                n == self.threads@.len(),
                i <= n,
                r@ == thread_author_pairs(self.users@, self.threads@.take(i as int)),
            decreases n - i,
        {
            let t = self.threads[i].duplicate();
            let u = self.users[(t.author_id - 1) as usize].duplicate();
            r.push((t, u));
            proof {
                let taken = self.threads@.take(i + 1 as int);
                assert(taken.drop_last() =~= self.threads@.take(i as int));
                assert(taken.last() == self.threads@[i as int]);
            }
            i += 1;
        }
        proof {
            assert(self.threads@.take(n as int) =~= self.threads@);
        }
        r
    }

    /// The comments of one thread joined with their authors, in insertion
    /// order.
    pub fn list_comments_for_thread_with_authors(&self, thread_id: i32) -> (r: Vec<
        (Comment, User),
    >)
        requires
            self.wf(),
        ensures
            r@ == comment_author_pairs(self.users@, self.comments@, thread_id),
    {
        let mut r: Vec<(Comment, User)> = Vec::new();
        let n = self.comments.len();
        let mut i: usize = 0;
        while i < n
            invariant
                self.wf(),
                n == self.comments@.len(),
                i <= n,
                r@ == comment_author_pairs(self.users@, self.comments@.take(i as int), thread_id),
            decreases n - i,
        {
            proof {
                let taken = self.comments@.take(i + 1 as int);
                assert(taken.drop_last() =~= self.comments@.take(i as int));
                assert(taken.last() == self.comments@[i as int]);
            }
            if self.comments[i].thread_id == thread_id {
                let c = self.comments[i].duplicate();
                let u = self.users[(c.author_id - 1) as usize].duplicate();
                r.push((c, u));
            }
            i += 1;
        }
        proof {
            assert(self.comments@.take(n as int) =~= self.comments@);
        }
        r
    }

    /// Look a user up by id.
    pub fn find_user_by_id(&self, id: i32) -> (r: Result<User, StoreError>)
        requires
            self.wf(),
        ensures
            r is Ok <==> 1 <= id as int && id as int <= self.users@.len(),
            r matches Ok(u) ==> u == self.users@[id as int - 1],
            r is Err ==> r == Err::<User, StoreError>(StoreError::NotFound),
    {
        if id >= 1 && (id as usize) <= self.users.len() {
            Ok(self.users[(id - 1) as usize].duplicate())
        } else {
            Err(StoreError::NotFound)
        }
    }
}

} // verus!
