use forum_core::session;

#[test]
fn session_token_resolves_to_its_username() {
    let token = session::issue("alice");
    let resolved = session::resolve(Some(token.as_str()));
    assert_eq!(resolved.unwrap(), "alice");
}

#[test]
fn session_absent_token_resolves_to_none() {
    assert!(session::resolve(None).is_none());
}
