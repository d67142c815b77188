use std::collections::HashMap;
use vstd::prelude::*;

verus! {

/// Identifier of a chat.
pub type ChatId = u32;

/// Identifier of a user.
pub type UserId = String;

#[derive(Clone, Debug)]
pub struct LoginRequest {
    pub username: String,
    pub password: String,
}

#[derive(Clone, Debug)]
pub struct RegisterRequest {
    pub username: String,
    pub password: String,
}

/// Why a form field was rejected: a machine-readable code and a message for
/// the user.
#[derive(Clone, Debug, PartialEq, Eq)]
pub struct ValidationError {
    pub code: String,
    pub message: String,
}

/// Code and message of a validation error.
pub type ErrorText = (Seq<char>, Seq<char>);

/// The code and message of an optional validation error.
pub open spec fn error_text(e: Option<ValidationError>) -> Option<ErrorText> {
    match e {
        Some(v) => Some((v.code@, v.message@)),
        None => None,
    }
}

/// The code and message of a failed check.
pub open spec fn check_text(r: Result<(), ValidationError>) -> Option<ErrorText> {
    match r {
        Ok(_) => None,
        Err(v) => Some((v.code@, v.message@)),
    }
}

/// What is wrong with a username: it must have from 3 to 150 characters.
pub open spec fn username_error(username: Seq<char>) -> Option<ErrorText> {
    if username.len() < 3 {
        Some(("username_length"@, "Please use at least 3 characters"@))
    } else if username.len() > 150 {
        Some(("username_length"@, "Maximum length of 150 characters exceeded"@))
    } else {
        None
    }
}

/// What is wrong with a password: it must have from 8 to 64 characters.
pub open spec fn password_error(password: Seq<char>) -> Option<ErrorText> {
    if password.len() < 8 {
        Some(("password_length"@, "Please use at least 8 characters"@))
    } else if password.len() > 64 {
        Some(("password_length"@, "Maximum length of 64 characters exceeded"@))
    } else {
        None
    }
}

fn field_error(code: &str, message: &str) -> (r: ValidationError)
    ensures
        r.code@ == code@,
        r.message@ == message@,
{
    ValidationError { code: code.to_owned(), message: message.to_owned() }
}

/// Checks the length of a username, counted in characters.
pub fn validate_username(username: &str) -> (r: Result<(), ValidationError>)
    ensures
        check_text(r) == username_error(username@),
{
    let n = username.unicode_len();
    if n < 3 {
        Err(field_error("username_length", "Please use at least 3 characters"))
    } else if n > 150 {
        Err(field_error("username_length", "Maximum length of 150 characters exceeded"))
    } else {
        Ok(())
    }
}

/// Checks the length of a password, counted in characters.
pub fn validate_password(password: &str) -> (r: Result<(), ValidationError>)
    ensures
        check_text(r) == password_error(password@),
{
    let n = password.unicode_len();
    if n < 8 {
        Err(field_error("password_length", "Please use at least 8 characters"))
    } else if n > 64 {
        Err(field_error("password_length", "Maximum length of 64 characters exceeded"))
    } else {
        Ok(())
    }
}

/// The fields of a registration form that failed their checks.
#[derive(Clone, Debug, PartialEq, Eq)]
pub struct FieldErrors {
    pub username: Option<ValidationError>,
    pub password: Option<ValidationError>,
}

impl RegisterRequest {
    /// Checks both fields; the form passes only when neither is rejected.
    pub fn validate(&self) -> (r: Result<(), FieldErrors>)
        ensures
            r is Ok <==> (username_error(self.username@) is None && password_error(
                self.password@,
            ) is None),
            r is Err ==> error_text(r->Err_0.username) == username_error(self.username@)
                && error_text(r->Err_0.password) == password_error(self.password@),
    {
        let u = validate_username(self.username.as_str());
        let p = validate_password(self.password.as_str());
        match (u, p) {
            (Ok(_), Ok(_)) => Ok(()),
            (u, p) => {
                let username = match u {
                    Ok(_) => None,
                    Err(e) => Some(e),
                };
                let password = match p {
                    Ok(_) => None,
                    Err(e) => Some(e),
                };
                Err(FieldErrors { username, password })
            },
        }
    }
}

#[derive(Clone, Debug)]
pub struct RefreshTokenRequest {
    pub refresh_token: String,
}

#[derive(Clone, Debug)]
pub struct NewChatModel {
    pub name: Option<String>,
    pub member_ids: Vec<String>,
    pub first_message: String,
}

#[derive(Clone, Debug)]
pub struct NewMessage {
    pub chat_id: ChatId,
    pub sender_id: String,
    pub text: String,
}

#[derive(Clone, Debug, PartialEq, Eq)]
pub struct User {
    pub id: String,
    pub username: String,
}

#[derive(Clone, Debug, PartialEq, Eq)]
pub struct UserSearchResults {
    pub users: Vec<User>,
}

#[derive(Clone, Debug)]
pub struct GetUsersByIdsRequest {
    pub user_ids: Vec<UserId>,
}

/// What the auth and user services return on a successful login or
/// registration.
#[derive(Clone, Debug, PartialEq, Eq)]
pub struct AuthResponse {
    pub access_token: String,
    pub refresh_token: String,
    pub user_id: String,
}

/// Access token, refresh token and user id of an authentication response.
pub type AuthResponseView = (Seq<char>, Seq<char>, Seq<char>);

impl View for AuthResponse {
    type V = AuthResponseView;

    open spec fn view(&self) -> AuthResponseView {
        (self.access_token@, self.refresh_token@, self.user_id@)
    }
}

#[derive(Clone, Debug, PartialEq, Eq)]
pub enum AuthError {
    ApiError(String),
}

#[derive(Clone, Debug, PartialEq, Eq)]
pub enum RegisterError {
    ApiError(String),
    ValidationErrors(HashMap<String, String>),
}

/// The JSON body that a resource call carries.
#[derive(Clone, Debug)]
pub enum Payload {
    Empty,
    UsersByIds(GetUsersByIdsRequest),
    NewChat(NewChatModel),
}

/// A request descriptor: where a call goes, its query pairs and body, and
/// whether it may still trigger one token refresh.
#[derive(Clone, Debug)]
pub struct RequestParams {
    pub uri: String,
    pub query_params: Vec<(String, String)>,
    pub body: Payload,
    pub can_reauthenticate: bool,
}

impl RequestParams {
    /// A fresh descriptor for `uri`, which may still reauthenticate once.
    pub fn new(uri: String, query_params: Vec<(String, String)>, body: Payload) -> (r: Self)
        ensures
            r.uri == uri,
            r.query_params == query_params,
            r.body == body,
            r.can_reauthenticate,
    {
        RequestParams { uri, query_params, body, can_reauthenticate: true }
    }

    pub fn set_cant_reauthenticate(&mut self)
        ensures
            final(self).uri == old(self).uri,
            final(self).query_params == old(self).query_params,
            final(self).body == old(self).body,
            !final(self).can_reauthenticate,
    {
        self.can_reauthenticate = false;
    }
}

impl Default for RequestParams {
    fn default() -> (r: Self)
        ensures
            r.uri@ == Seq::<char>::empty(),
            r.query_params@ == Seq::<(String, String)>::empty(),
            r.body == Payload::Empty,
            r.can_reauthenticate,
    {
        RequestParams {
            uri: String::new(),
            query_params: Vec::new(),
            body: Payload::Empty,
            can_reauthenticate: true,
        }
    }
}

} // verus!
