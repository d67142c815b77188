use link_core::endpoint::{build_url, decimal_text, request_url};

#[test]
fn build_url_drops_double_slash() {
    assert_eq!(build_url("http://svc/", "/chats"), "http://svc/chats");
}

#[test]
fn build_url_adds_missing_slash() {
    assert_eq!(build_url("http://svc", "chats"), "http://svc/chats");
}

#[test]
fn build_url_trims_repeated_slashes() {
    assert_eq!(build_url("http://svc///", "//users/batch-query"), "http://svc/users/batch-query");
    assert_eq!(build_url("", ""), "/");
}

#[test]
fn decimal_text_writes_digits() {
    assert_eq!(decimal_text(0), "0");
    assert_eq!(decimal_text(7), "7");
    assert_eq!(decimal_text(401), "401");
    assert_eq!(decimal_text(4294967295), "4294967295");
}

#[test]
fn request_url_appends_query_pairs() {
    let params = vec![("username".to_string(), "bob smith".to_string())];
    assert_eq!(
        request_url("http://svc/users", &params),
        Ok("http://svc/users?username=bob+smith".to_string())
    );
}

#[test]
fn request_url_rejects_relative_uri() {
    let r = request_url("not a url", &Vec::new());
    assert!(r.is_err());
}
