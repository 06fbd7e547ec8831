use forum_core::errors::ForumError;
use forum_core::forum::Forum;
use forum_core::session;

// The tests play the credential collaborator: they "hash" by prefixing the
// plaintext with a key, which keeps hashing deterministic and lets login
// compare a recomputed hash against the stored one.
fn test_hash(password: &str) -> String {
    format!("keyed:{}", password)
}

fn registered(username: &str, email: &str, password: &str) -> Forum {
    let mut f = Forum::new();
    f.register_request(username, email, password).unwrap();
    f.register_hashed(username, email, &test_hash(password)).unwrap();
    f
}

fn login(f: &Forum, username: &str, password: &str) -> Result<String, ForumError> {
    let stored = f.login_lookup(username)?;
    let valid = stored == test_hash(password);
    f.login_verified(username, valid)
}

#[test]
fn register_rejects_duplicate_username() {
    let mut f = registered("alice", "a@x.com", "pw1");
    let request = f.register_request("alice", "b@x.com", "pw2");
    assert_eq!(request.unwrap_err(), ForumError::DuplicateUsername);
    let second = f.register_hashed("alice", "b@x.com", &test_hash("pw2"));
    assert_eq!(second.unwrap_err(), ForumError::DuplicateUsername);
    let kept = f.store.find_user_by_username("alice").unwrap();
    assert_eq!(kept.email, "a@x.com");
    assert_eq!(kept.password, test_hash("pw1"));
}

#[test]
fn register_validates_empty_fields() {
    let f = Forum::new();
    assert_eq!(f.register_request("", "a@x.com", "pw").unwrap_err(), ForumError::ValidationError);
    assert_eq!(f.register_request("alice", "", "pw").unwrap_err(), ForumError::ValidationError);
    assert_eq!(f.register_request("alice", "a@x.com", "").unwrap_err(), ForumError::ValidationError);
    let mut m = Forum::new();
    assert_eq!(m.register_hashed("alice", "a@x.com", "").unwrap_err(), ForumError::ValidationError);
}

#[test]
fn stored_credential_is_the_hash_not_the_plaintext() {
    let f = registered("alice", "a@x.com", "pw1");
    let stored = f.login_lookup("alice").unwrap();
    assert_eq!(stored, test_hash("pw1"));
    assert_ne!(stored, "pw1");
}

#[test]
fn login_unknown_username_not_found() {
    let f = registered("alice", "a@x.com", "pw1");
    assert_eq!(f.login_lookup("ghost").unwrap_err(), ForumError::NotFound);
    assert_eq!(f.login_verified("ghost", true).unwrap_err(), ForumError::NotFound);
}

#[test]
fn login_wrong_password_invalid_credential() {
    let f = registered("alice", "a@x.com", "pw1");
    assert_eq!(login(&f, "alice", "wrong").unwrap_err(), ForumError::InvalidCredential);
}

#[test]
fn login_correct_password_token_resolves_back() {
    let f = registered("alice", "a@x.com", "pw1");
    let token = login(&f, "alice", "pw1").unwrap();
    let resolved = session::resolve(Some(token.as_str()));
    assert_eq!(resolved.unwrap(), "alice");
}

#[test]
fn logout_twice_does_not_error() {
    let f = registered("alice", "a@x.com", "pw1");
    let token = login(&f, "alice", "pw1").unwrap();
    assert!(f.logout(Some(token.as_str())).is_ok());
    assert!(f.logout(Some(token.as_str())).is_ok());
    assert!(f.logout(None).is_ok());
}

#[test]
fn post_thread_requires_session() {
    let mut f = registered("alice", "a@x.com", "pw1");
    let refused = f.post_thread(None, "Hello", "");
    assert_eq!(refused.unwrap_err(), ForumError::Unauthenticated);
}

#[test]
fn post_thread_stale_session_user_not_found() {
    let mut f = registered("alice", "a@x.com", "pw1");
    // A token for a user whose row is gone: issued for a name that never
    // reached the store, as after a row removal between issue and use.
    let stale = session::issue("ghost");
    let refused = f.post_thread(Some(stale.as_str()), "Hello", "");
    assert_eq!(refused.unwrap_err(), ForumError::UserNotFound);
}

#[test]
fn post_thread_validates_title() {
    let mut f = registered("alice", "a@x.com", "pw1");
    let token = login(&f, "alice", "pw1").unwrap();
    let refused = f.post_thread(Some(token.as_str()), "", "http://example.com");
    assert_eq!(refused.unwrap_err(), ForumError::ValidationError);
}

#[test]
fn view_thread_unknown_id_not_found() {
    let f = registered("alice", "a@x.com", "pw1");
    assert_eq!(f.view_thread(None, 1).unwrap_err(), ForumError::ThreadNotFound);
}

#[test]
fn view_thread_reports_viewer_login_state() {
    let mut f = registered("alice", "a@x.com", "pw1");
    let token = login(&f, "alice", "pw1").unwrap();
    f.post_thread(Some(token.as_str()), "Hello", "").unwrap();
    assert!(f.view_thread(Some(token.as_str()), 1).unwrap().viewer_logged_in);
    assert!(!f.view_thread(None, 1).unwrap().viewer_logged_in);
}

#[test]
fn post_comment_checks_session_thread_and_user() {
    let mut f = registered("alice", "a@x.com", "pw1");
    let token = login(&f, "alice", "pw1").unwrap();
    let no_session = f.post_comment(None, 1, "first!", None);
    assert_eq!(no_session.unwrap_err(), ForumError::Unauthenticated);
    let no_thread = f.post_comment(Some(token.as_str()), 1, "first!", None);
    assert_eq!(no_thread.unwrap_err(), ForumError::ThreadNotFound);
    f.post_thread(Some(token.as_str()), "Hello", "").unwrap();
    let stale = session::issue("ghost");
    let no_user = f.post_comment(Some(stale.as_str()), 1, "first!", None);
    assert_eq!(no_user.unwrap_err(), ForumError::UserNotFound);
    let no_content = f.post_comment(Some(token.as_str()), 1, "", None);
    assert_eq!(no_content.unwrap_err(), ForumError::ValidationError);
}

#[test]
fn post_comment_parent_must_share_thread() {
    let mut f = registered("alice", "a@x.com", "pw1");
    let token = login(&f, "alice", "pw1").unwrap();
    f.post_thread(Some(token.as_str()), "One", "").unwrap();
    f.post_thread(Some(token.as_str()), "Two", "").unwrap();
    f.post_comment(Some(token.as_str()), 1, "on one", None).unwrap();
    let cross = f.post_comment(Some(token.as_str()), 2, "reply", Some(1));
    assert_eq!(cross.unwrap_err(), ForumError::InvalidParent);
    let reply = f.post_comment(Some(token.as_str()), 1, "reply", Some(1)).unwrap();
    assert_eq!(reply.parent_comment_id, Some(1));
    assert_eq!(reply.thread_id, 1);
}

#[test]
fn end_to_end_register_login_post_and_comment() {
    let mut f = Forum::new();
    f.register_request("alice", "a@x.com", "pw1").unwrap();
    f.register_hashed("alice", "a@x.com", &test_hash("pw1")).unwrap();
    let token = login(&f, "alice", "pw1").unwrap();
    let thread = f.post_thread(Some(token.as_str()), "Hello", "http://example.com").unwrap();
    let listed = f.list_threads();
    assert_eq!(listed.len(), 1);
    assert_eq!(listed[0].0.title, "Hello");
    assert_eq!(listed[0].0.link.as_deref(), Some("http://example.com"));
    assert_eq!(listed[0].1.username, "alice");
    let before = f.view_thread(Some(token.as_str()), thread.id).unwrap();
    assert_eq!(before.comments.len(), 0);
    f.post_comment(Some(token.as_str()), thread.id, "first!", None).unwrap();
    let after = f.view_thread(Some(token.as_str()), thread.id).unwrap();
    assert_eq!(after.comments.len(), 1);
    assert_eq!(after.comments[0].0.content, "first!");
    assert_eq!(after.comments[0].1.username, "alice");
}
