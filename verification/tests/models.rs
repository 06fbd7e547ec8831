use forum_core::models::{NewComment, NewThread, NewUser};

#[test]
fn new_user_keeps_its_fields() {
    let nu = NewUser::new("alice".to_string(), "a@x.com".to_string(), "keyed:pw1".to_string());
    assert_eq!(nu.username, "alice");
    assert_eq!(nu.email, "a@x.com");
    assert_eq!(nu.password, "keyed:pw1");
}

#[test]
fn new_thread_keeps_the_form_fields() {
    let nt = NewThread::from_post_form("Hello".to_string(), "http://example.com".to_string(), 3);
    assert_eq!(nt.title, "Hello");
    assert_eq!(nt.link, "http://example.com");
    assert_eq!(nt.author_id, 3);
}

#[test]
fn new_comment_keeps_its_fields() {
    let nc = NewComment::new("first!".to_string(), 2, 3, Some(1));
    assert_eq!(nc.content, "first!");
    assert_eq!(nc.thread_id, 2);
    assert_eq!(nc.author_id, 3);
    assert_eq!(nc.parent_comment_id, Some(1));
}

#[test]
fn user_duplicate_copies_every_field() {
    let mut store = forum_core::store::Store::new();
    let nu = NewUser::new("alice".to_string(), "a@x.com".to_string(), "keyed:pw1".to_string());
    let user = store.create_user(nu).unwrap();
    let copy = user.duplicate();
    assert_eq!(copy.id, user.id);
    assert_eq!(copy.username, user.username);
    assert_eq!(copy.email, user.email);
    assert_eq!(copy.password, user.password);
}
