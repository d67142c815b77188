use link_core::auth::Auth;
use link_core::client::{
    parse_refresh, ApiClient, ApiError, BodyFields, HttpReply, Method, Reply, ReplyBody,
    RequestBody, Stage, Step,
};
use link_core::schemas::{AuthError, LoginRequest, Payload, RegisterError, RegisterRequest};
use link_core::session::{login, logout, register, AuthFlag, AuthState};
use link_core::storage::{AuthManager, MemoryStorage, SharedStorage};
use std::collections::HashMap;

fn fields() -> BodyFields {
    BodyFields { detail: None, errors: None, access_token: None, refresh_token: None, user_id: None }
}

fn json(status: u16, f: BodyFields) -> Reply {
    Ok(HttpReply { status, text: String::new(), body: ReplyBody::Json(f) })
}

fn tokens(status: u16, access: &str, refresh: &str, user: Option<&str>) -> Reply {
    let mut f = fields();
    f.access_token = Some(access.to_string());
    f.refresh_token = Some(refresh.to_string());
    f.user_id = user.map(|u| u.to_string());
    json(status, f)
}

fn detail(status: u16, text: &str) -> Reply {
    let mut f = fields();
    f.detail = Some(text.to_string());
    json(status, f)
}

fn new_client(auth: Option<Auth>) -> ApiClient<MemoryStorage> {
    ApiClient::new(
        auth,
        "http://auth/".to_string(),
        "http://user".to_string(),
        "http://msg/".to_string(),
        AuthManager::new(SharedStorage::new(MemoryStorage::new())),
    )
}

fn stored(c: &ApiClient<MemoryStorage>, key: &str) -> Option<String> {
    c.auth_manager().storage().get(key)
}

fn expect_send(step: Step) -> link_core::client::HttpRequest {
    match step {
        Step::Send(q) => q,
        Step::Done(_) => panic!("expected a request to send"),
    }
}

#[test]
fn login_success_authenticates_and_persists() {
    let mut c = new_client(None);
    let mut flag = AuthFlag::new();
    let q = c.login_request(LoginRequest { username: "bob".into(), password: "secret".into() });
    assert_eq!(q.method, Method::Post);
    assert_eq!(q.url, "http://auth/login");
    assert!(q.authorization.is_none());
    assert!(matches!(q.body, RequestBody::Login(ref l) if l.username == "bob"));

    assert!(!c.is_authenticated());
    let r = login(&mut c, &mut flag, tokens(200, "a1", "r1", Some("u1")));
    assert_eq!(r, Ok(()));
    assert!(c.is_authenticated());
    assert!(flag.is_authenticated());
    assert_eq!(stored(&c, "access_token"), Some("a1".to_string()));
    assert_eq!(stored(&c, "refresh_token"), Some("r1".to_string()));
    assert_eq!(stored(&c, "user_id"), Some("u1".to_string()));
    let a = c.auth_manager().get_auth().unwrap();
    assert_eq!((a.access_token.as_str(), a.refresh_token.as_str()), ("a1", "r1"));
}

#[test]
fn finish_login_returns_response() {
    let mut c = new_client(None);
    let r = c.finish_login(tokens(201, "a1", "r1", Some("u1"))).unwrap();
    assert_eq!(r.access_token, "a1");
    assert_eq!(r.refresh_token, "r1");
    assert_eq!(r.user_id, "u1");
}

#[test]
fn login_failure_touches_nothing() {
    let mut c = new_client(None);
    let mut flag = AuthFlag::new();
    let r = login(&mut c, &mut flag, detail(401, "Invalid credentials"));
    assert_eq!(r, Err(AuthError::ApiError("Invalid credentials".to_string())));
    assert!(!c.is_authenticated());
    assert!(!flag.is_authenticated());
    assert_eq!(stored(&c, "access_token"), None);
    assert_eq!(stored(&c, "user_id"), None);
}

#[test]
fn login_failure_without_detail_is_unknown() {
    let mut c = new_client(None);
    let r = c.finish_login(json(500, fields()));
    assert_eq!(r, Err(AuthError::ApiError("Unknown error".to_string())));
}

#[test]
fn login_transport_and_body_errors_carry_their_text() {
    let mut c = new_client(None);
    let r = c.finish_login(Err("connection refused".to_string()));
    assert_eq!(r, Err(AuthError::ApiError("connection refused".to_string())));
    let r = c.finish_login(Ok(HttpReply {
        status: 200,
        text: "<html>".to_string(),
        body: ReplyBody::Malformed("expected value at line 1".to_string()),
    }));
    assert_eq!(r, Err(AuthError::ApiError("expected value at line 1".to_string())));
    let r = c.finish_login(tokens(200, "a", "r", None));
    assert_eq!(
        r,
        Err(AuthError::ApiError("authentication response is missing a field".to_string()))
    );
    assert!(!c.is_authenticated());
}

#[test]
fn register_rejects_short_username_before_sending() {
    let c = new_client(None);
    let r = c.register_request(RegisterRequest {
        username: "ab".into(),
        password: "password1".into(),
    });
    let e = r.err().unwrap();
    let u = e.username.unwrap();
    assert_eq!(u.code, "username_length");
    assert_eq!(u.message, "Please use at least 3 characters");
    assert!(e.password.is_none());
}

#[test]
fn register_accepts_username_bounds() {
    let c = new_client(None);
    let q = c
        .register_request(RegisterRequest { username: "abc".into(), password: "password1".into() })
        .unwrap();
    assert_eq!(q.url, "http://user/users");
    assert_eq!(q.method, Method::Post);
    assert!(q.authorization.is_none());
    let long = "x".repeat(150);
    assert!(c
        .register_request(RegisterRequest { username: long, password: "password1".into() })
        .is_ok());
}

#[test]
fn register_rejects_long_fields() {
    let c = new_client(None);
    let e = c
        .register_request(RegisterRequest { username: "y".repeat(151), password: "short".into() })
        .err()
        .unwrap();
    assert_eq!(e.username.unwrap().message, "Maximum length of 150 characters exceeded");
    assert_eq!(e.password.unwrap().message, "Please use at least 8 characters");
    let e = c
        .register_request(RegisterRequest { username: "valid".into(), password: "p".repeat(65) })
        .err()
        .unwrap();
    assert!(e.username.is_none());
    assert_eq!(e.password.unwrap().message, "Maximum length of 64 characters exceeded");
    assert!(c
        .register_request(RegisterRequest { username: "valid".into(), password: "p".repeat(64) })
        .is_ok());
}

#[test]
fn register_reports_server_field_errors() {
    let mut c = new_client(None);
    let mut flag = AuthFlag::new();
    let mut errors = HashMap::new();
    errors.insert("username".to_string(), "Username already taken".to_string());
    let mut f = fields();
    f.errors = Some(Ok(errors.clone()));
    let r = register(&mut c, &mut flag, json(422, f));
    assert_eq!(r, Err(RegisterError::ValidationErrors(errors)));
    assert!(!flag.is_authenticated());
    assert!(!c.is_authenticated());

    let r = register(&mut c, &mut flag, detail(500, "down"));
    assert_eq!(r, Err(RegisterError::ApiError("down".to_string())));
}

#[test]
fn register_success_signs_in() {
    let mut c = new_client(None);
    let mut flag = AuthFlag::new();
    let r = register(&mut c, &mut flag, tokens(201, "a9", "r9", Some("u9")));
    assert_eq!(r, Ok(()));
    assert!(flag.is_authenticated());
    assert_eq!(stored(&c, "access_token"), Some("a9".to_string()));
    assert_eq!(stored(&c, "user_id"), Some("u9".to_string()));
}

#[test]
fn expired_token_is_refreshed_and_call_retried_once() {
    let mut c = new_client(None);
    c.finish_login(tokens(200, "a1", "r1", Some("u1"))).unwrap();
    let mut ex = c.get_chats();
    let mut resource_attempts = 0;
    let mut refreshes = 0;

    let q = c.next_request(&ex).unwrap();
    assert_eq!(q.authorization.as_deref(), Some("Bearer a1"));
    resource_attempts += 1;

    let q = expect_send(c.advance(&mut ex, detail(401, "expired")));
    refreshes += 1;
    assert_eq!(q.url, "http://auth/refresh-token");
    assert!(q.authorization.is_none());
    assert!(matches!(q.body, RequestBody::RefreshToken(ref t) if t.refresh_token == "r1"));
    assert!(!ex.params.can_reauthenticate);
    assert_eq!(ex.stage, Stage::Refresh);

    let q = expect_send(c.advance(&mut ex, tokens(200, "a2", "r2", None)));
    resource_attempts += 1;
    assert_eq!(q.authorization.as_deref(), Some("Bearer a2"));
    assert!(q.url.starts_with("http://msg/chats"));
    assert!(matches!(q.body, RequestBody::Descriptor));
    assert_eq!(stored(&c, "access_token"), Some("a2".to_string()));
    assert_eq!(stored(&c, "refresh_token"), Some("r2".to_string()));

    let payload = Ok(HttpReply {
        status: 200,
        text: "{\"chats\":[]}".to_string(),
        body: ReplyBody::Json(fields()),
    });
    match c.advance(&mut ex, payload) {
        Step::Done(Ok(r)) => assert_eq!(r.text, "{\"chats\":[]}"),
        _ => panic!("expected the resource"),
    }
    assert_eq!(refreshes, 1);
    assert_eq!(resource_attempts, 2);
}

#[test]
fn backend_always_401_refreshes_once_then_unauthenticated() {
    let mut c = new_client(Some(Auth::new("a1", "r1")));
    let mut ex = c.get_chats();
    c.next_request(&ex).unwrap();
    let mut refreshes = 0;
    let mut steps = 0;
    let outcome = loop {
        steps += 1;
        assert!(steps < 10, "the exchange must not loop");
        match c.advance(&mut ex, detail(401, "unauthorized")) {
            Step::Send(q) => {
                if matches!(q.body, RequestBody::RefreshToken(_)) {
                    refreshes += 1;
                }
            }
            Step::Done(r) => break r,
        }
    };
    assert_eq!(refreshes, 1);
    assert_eq!(outcome.err(), Some(ApiError::Unauthenticated));
    assert!(!c.is_authenticated());
    assert!(c.auth_manager().get_auth().is_none());
}

#[test]
fn second_401_after_refresh_is_not_refreshed_again() {
    let mut c = new_client(Some(Auth::new("a1", "r1")));
    let mut ex = c.get_chat(7);
    expect_send(c.advance(&mut ex, detail(401, "expired")));
    let q = expect_send(c.advance(&mut ex, tokens(200, "a2", "r2", None)));
    assert_eq!(q.authorization.as_deref(), Some("Bearer a2"));
    match c.advance(&mut ex, detail(401, "still no")) {
        Step::Done(Err(e)) => assert_eq!(e, ApiError::RequestError("still no".to_string())),
        _ => panic!("expected the call to end"),
    }
    assert!(c.is_authenticated());
}

#[test]
fn failed_refresh_logs_out() {
    let mut c = new_client(None);
    c.finish_login(tokens(200, "a1", "r1", Some("u1"))).unwrap();
    let mut ex = c.search_users("bob".to_string());
    expect_send(c.advance(&mut ex, detail(401, "expired")));
    match c.advance(&mut ex, detail(500, "auth down")) {
        Step::Done(Err(e)) => assert_eq!(e, ApiError::Unauthenticated),
        _ => panic!("expected the call to end"),
    }
    assert!(!c.is_authenticated());
    assert_eq!(stored(&c, "access_token"), None);
    assert_eq!(stored(&c, "refresh_token"), None);
}

#[test]
fn logout_makes_calls_fail_fast() {
    let mut c = new_client(None);
    let mut flag = AuthFlag::new();
    login(&mut c, &mut flag, tokens(200, "a1", "r1", Some("u1"))).unwrap();
    logout(&mut c, &mut flag);
    assert!(!flag.is_authenticated());
    assert!(!c.is_authenticated());
    assert_eq!(stored(&c, "access_token"), None);
    assert_eq!(stored(&c, "refresh_token"), None);
    assert_eq!(stored(&c, "user_id"), None);
    let ex = c.get_chats();
    assert_eq!(c.next_request(&ex).err(), Some(ApiError::Unauthenticated));
}

#[test]
fn unauthenticated_call_is_not_sent() {
    let c = new_client(None);
    assert_eq!(c.get_authorization_header(), Err(ApiError::Unauthenticated));
    let ex = c.mark_chat_as_read(3);
    assert_eq!(c.next_request(&ex).err(), Some(ApiError::Unauthenticated));
}

#[test]
fn resource_failures_carry_detail_or_status() {
    let mut c = new_client(Some(Auth::new("a", "r")));
    let mut ex = c.get_chats();
    match c.advance(&mut ex, detail(404, "Chat not found")) {
        Step::Done(Err(e)) => assert_eq!(e, ApiError::RequestError("Chat not found".to_string())),
        _ => panic!("expected an error"),
    }
    let mut ex = c.get_chats();
    let bad = Ok(HttpReply {
        status: 503,
        text: String::new(),
        body: ReplyBody::Malformed("EOF".to_string()),
    });
    match c.advance(&mut ex, bad) {
        Step::Done(Err(e)) => assert_eq!(e, ApiError::RequestError("503".to_string())),
        _ => panic!("expected an error"),
    }
    let mut ex = c.get_chats();
    match c.advance(&mut ex, Err("timed out".to_string())) {
        Step::Done(Err(e)) => assert_eq!(e, ApiError::RequestError("timed out".to_string())),
        _ => panic!("expected an error"),
    }
}

#[test]
fn resource_calls_target_their_endpoints() {
    let c = new_client(Some(Auth::new("tok", "ref")));
    let ex = c.get_chat(42);
    assert_eq!(ex.method, Method::Get);
    assert_eq!(ex.params.uri, "http://msg/chats/42");
    let q = c.next_request(&ex).unwrap();
    assert!(q.url.starts_with("http://msg/chats/42"));
    assert_eq!(q.authorization.as_deref(), Some("Bearer tok"));

    let ex = c.mark_chat_as_read(42);
    assert_eq!(ex.method, Method::Post);
    assert_eq!(ex.params.uri, "http://msg/chats/42/read");

    let ex = c.search_users("ann".to_string());
    assert_eq!(ex.params.uri, "http://user/users");
    let q = c.next_request(&ex).unwrap();
    assert_eq!(q.url, "http://user/users?username=ann");

    let ex = c.get_users_by_ids(vec!["u1".to_string(), "u2".to_string()]);
    assert_eq!(ex.method, Method::Post);
    assert_eq!(ex.params.uri, "http://user/users/batch-query");
    assert!(matches!(ex.params.body, Payload::UsersByIds(ref b) if b.user_ids.len() == 2));

    let ex = c.create_chat(link_core::schemas::NewChatModel {
        name: None,
        member_ids: vec!["u2".to_string()],
        first_message: "hi".to_string(),
    });
    assert_eq!(ex.params.uri, "http://msg/chats");
    assert!(ex.params.can_reauthenticate);
}

#[test]
fn refresh_protocol_errors() {
    assert_eq!(parse_refresh(detail(401, "nope")).err(), Some(ApiError::Unauthenticated));
    assert_eq!(
        parse_refresh(detail(500, "boom")).err(),
        Some(ApiError::RequestError("boom".to_string()))
    );
    assert_eq!(
        parse_refresh(tokens(200, "", "r2", None)).err(),
        Some(ApiError::DataError("refresh response is missing a token".to_string()))
    );
    let a = parse_refresh(tokens(200, "a2", "r2", None)).unwrap();
    assert_eq!((a.access_token.as_str(), a.refresh_token.as_str()), ("a2", "r2"));
}

#[test]
fn api_error_messages() {
    assert_eq!(ApiError::Unauthenticated.message(), "Unauthenticated");
    assert_eq!(ApiError::RequestError("x".into()).message(), "Request error: x");
    assert_eq!(ApiError::DataError("y".into()).message(), "Data error: y");
}

#[test]
fn client_from_config_starts_signed_out() {
    let config = link_core::config::CoreConfig {
        auth_service_api_url: "http://a/".to_string(),
        user_service_api_url: "http://u/".to_string(),
        message_service_api_url: "http://m".to_string(),
        message_websocket_url: "ws://m/ws".to_string(),
        apps: link_core::config::Apps::new(vec!["messenger".to_string()]),
    };
    let c = link_core::config::get_api_client(&config, SharedStorage::new(MemoryStorage::new()));
    assert!(!c.is_authenticated());
    assert_eq!(c.auth_url("/login"), "http://a/login");
    assert_eq!(c.user_url("users"), "http://u/users");
    assert_eq!(c.message_url("/chats/1/read"), "http://m/chats/1/read");
    assert!(config.apps.is_app_enabled("messenger"));
}
