use crate::auth::{tokens_of, Auth, Tokens};
use crate::endpoint::{
    build_url, decimal, decimal_text, joined_url, pairs_view, request_url, url_with_query,
};
use crate::schemas::{
    AuthError, AuthResponse, AuthResponseView, ChatId, FieldErrors, GetUsersByIdsRequest,
    LoginRequest, NewChatModel, Payload, RefreshTokenRequest, RegisterError, RegisterRequest,
    RequestParams, UserId, error_text, password_error, username_error,
};
use crate::storage::{with_auth, without_auth, AuthManager, Storage};
use std::collections::HashMap;
use vstd::prelude::*;

verus! {

/// Why an authenticated call did not produce its resource.
#[derive(Clone, Debug, PartialEq, Eq)]
pub enum ApiError {
    /// No credentials are held, or refreshing them failed.
    Unauthenticated,
    /// The service answered with a failure that no refresh resolved, or the
    /// request could not be sent.
    RequestError(String),
    /// The service's answer could not be decoded.
    DataError(String),
}

/// An error as text: its variant, and the text it carries.
pub open spec fn api_error_view(e: ApiError) -> (int, Seq<char>) {
    match e {
        ApiError::Unauthenticated => (0, Seq::empty()),
        ApiError::RequestError(m) => (1, m@),
        ApiError::DataError(m) => (2, m@),
    }
}

/// The message shown for an error.
pub open spec fn api_error_message(e: ApiError) -> Seq<char> {
    match e {
        ApiError::Unauthenticated => "Unauthenticated"@,
        ApiError::RequestError(m) => "Request error: "@ + m@,
        ApiError::DataError(m) => "Data error: "@ + m@,
    }
}

impl ApiError {
    pub fn message(&self) -> (r: String)
        ensures
            r@ == api_error_message(*self),
    {
        match self {
            ApiError::Unauthenticated => String::from_str("Unauthenticated"),
            ApiError::RequestError(m) => String::from_str("Request error: ").concat(m.as_str()),
            ApiError::DataError(m) => String::from_str("Data error: ").concat(m.as_str()),
        }
    }
}

#[derive(Clone, Copy, Debug, PartialEq, Eq)]
pub enum Method {
    Get,
    Post,
}

/// The JSON body of a request.
#[derive(Clone, Debug)]
pub enum RequestBody {
    /// The body of the descriptor of the exchange that sends the request.
    Descriptor,
    Login(LoginRequest),
    Register(RegisterRequest),
    RefreshToken(RefreshTokenRequest),
}

/// An HTTP request that the client asks to have sent.
#[derive(Clone, Debug)]
pub struct HttpRequest {
    pub method: Method,
    pub url: String,
    /// The value of the `Authorization` header, when one is sent.
    pub authorization: Option<String>,
    pub body: RequestBody,
}

/// The fields of a JSON response body that the client reads.
#[derive(Clone, Debug)]
pub struct BodyFields {
    pub detail: Option<String>,
    /// The `errors` member: a map of field names to messages, or why it is no
    /// such map.
    pub errors: Option<Result<HashMap<String, String>, String>>,
    pub access_token: Option<String>,
    pub refresh_token: Option<String>,
    pub user_id: Option<String>,
}

/// A response body: the fields read from it, or why it is no JSON.
#[derive(Clone, Debug)]
pub enum ReplyBody {
    Malformed(String),
    Json(BodyFields),
}

/// An HTTP response that arrived for a request.
#[derive(Clone, Debug)]
pub struct HttpReply {
    pub status: u16,
    /// The body as it arrived, for the caller to decode its payload from.
    pub text: String,
    pub body: ReplyBody,
}

/// The outcome of sending a request: a response, or the text of the
/// transport failure.
pub type Reply = Result<HttpReply, String>;

pub const UNAUTHORIZED: u16 = 401;

pub open spec fn is_success(status: u16) -> bool {
    200 <= status < 300
}

pub fn status_is_success(status: u16) -> (r: bool)
    ensures
        r == is_success(status),
{
    200 <= status && status < 300
}

/// The text of an optional string, or `default` when there is none.
pub open spec fn text_or(s: Option<String>, default: Seq<char>) -> Seq<char> {
    match s {
        Some(t) => t@,
        None => default,
    }
}

/// The text that a failed response is reported with: its `detail` member,
/// else its status code.
pub open spec fn failure_text(reply: HttpReply) -> Seq<char> {
    match reply.body {
        ReplyBody::Json(f) => text_or(f.detail, decimal(reply.status as nat)),
        ReplyBody::Malformed(_) => decimal(reply.status as nat),
    }
}

pub fn failure_detail(reply: &HttpReply) -> (r: String)
    ensures
        r@ == failure_text(*reply),
{
    match &reply.body {
        ReplyBody::Json(f) => match &f.detail {
            Some(d) => d.clone(),
            None => decimal_text(reply.status as u32),
        },
        ReplyBody::Malformed(_) => decimal_text(reply.status as u32),
    }
}

/// Text reported when a successful authentication response lacks a field.
pub const MALFORMED_AUTH: &'static str = "authentication response is missing a field";

/// Text reported when a refresh response lacks a token or holds an empty one.
pub const MALFORMED_REFRESH: &'static str = "refresh response is missing a token";

/// Text reported for a failure that carries no detail.
pub const UNKNOWN_ERROR: &'static str = "Unknown error";

/// What a login or registration reply gives: the response, or an error text.
/// Without an `errors` member a registration fails as a login does.
pub open spec fn auth_outcome(reply: Reply) -> Result<AuthResponseView, Seq<char>> {
    match reply {
        Err(m) => Err(m@),
        Ok(r) => match r.body {
            ReplyBody::Malformed(m) => Err(m@),
            ReplyBody::Json(f) => if !is_success(r.status) {
                Err(text_or(f.detail, UNKNOWN_ERROR@))
            } else {
                match (f.access_token, f.refresh_token, f.user_id) {
                    (Some(a), Some(t), Some(u)) => Ok((a@, t@, u@)),
                    _ => Err(MALFORMED_AUTH@),
                }
            },
        },
    }
}

/// The field errors that a failed registration reply carries, if any.
pub open spec fn register_field_errors(reply: Reply) -> Option<
    Result<HashMap<String, String>, String>,
> {
    match reply {
        Ok(r) => match r.body {
            ReplyBody::Json(f) => if !is_success(r.status) {
                f.errors
            } else {
                None
            },
            _ => None,
        },
        Err(_) => None,
    }
}

/// An authentication result as views.
pub open spec fn login_view(r: Result<AuthResponse, AuthError>) -> Result<
    AuthResponseView,
    Seq<char>,
> {
    match r {
        Ok(a) => Ok(a@),
        Err(AuthError::ApiError(m)) => Err(m@),
    }
}

/// What the refresh protocol makes of the auth service's reply: the new
/// token pair, or the error it surfaces.
pub open spec fn refresh_outcome(reply: Reply) -> Result<Tokens, (int, Seq<char>)> {
    match reply {
        Err(m) => Err((1, m@)),
        Ok(r) => if r.status == UNAUTHORIZED {
            Err((0, Seq::empty()))
        } else {
            match r.body {
                ReplyBody::Malformed(m) => Err((2, m@)),
                ReplyBody::Json(f) => if !is_success(r.status) {
                    Err((1, failure_text(r)))
                } else {
                    match (f.access_token, f.refresh_token) {
                        (Some(a), Some(t)) => if a@.len() > 0 && t@.len() > 0 {
                            Ok((a@, t@))
                        } else {
                            Err((2, MALFORMED_REFRESH@))
                        },
                        _ => Err((2, MALFORMED_REFRESH@)),
                    }
                },
            }
        },
    }
}

/// A refresh result as views.
pub open spec fn refresh_view(r: Result<Auth, ApiError>) -> Result<Tokens, (int, Seq<char>)> {
    match r {
        Ok(a) => Ok(a@),
        Err(e) => Err(api_error_view(e)),
    }
}

/// Runs the refresh protocol on the reply of the auth service.
pub fn parse_refresh(reply: Reply) -> (r: Result<Auth, ApiError>)
    ensures
        refresh_view(r) == refresh_outcome(reply),
{
    match reply {
        Err(m) => Err(ApiError::RequestError(m)),
        Ok(r) => {
            if r.status == UNAUTHORIZED {
                return Err(ApiError::Unauthenticated);
            }
            let ok = status_is_success(r.status);
            let detail = failure_detail(&r);
            match r.body {
                ReplyBody::Malformed(m) => Err(ApiError::DataError(m)),
                ReplyBody::Json(f) => {
                    if !ok {
                        return Err(ApiError::RequestError(detail));
                    }
                    match (f.access_token, f.refresh_token) {
                        (Some(a), Some(t)) => {
                            if a.unicode_len() > 0 && t.unicode_len() > 0 {
                                Ok(Auth::new(a.as_str(), t.as_str()))
                            } else {
                                Err(ApiError::DataError(String::from_str(MALFORMED_REFRESH)))
                            }
                        },
                        _ => Err(ApiError::DataError(String::from_str(MALFORMED_REFRESH))),
                    }
                },
            }
        },
    }
}

/// Reads the response of a login or registration.
pub fn parse_auth_response(reply: Reply) -> (r: Result<AuthResponse, AuthError>)
    ensures
        login_view(r) == auth_outcome(reply),
{
    match reply {
        Err(m) => Err(AuthError::ApiError(m)),
        Ok(r) => {
            let ok = status_is_success(r.status);
            match r.body {
                ReplyBody::Malformed(m) => Err(AuthError::ApiError(m)),
                ReplyBody::Json(f) => {
                    if !ok {
                        return Err(
                            AuthError::ApiError(
                                match f.detail {
                                    Some(d) => d,
                                    None => String::from_str(UNKNOWN_ERROR),
                                },
                            ),
                        );
                    }
                    match (f.access_token, f.refresh_token, f.user_id) {
                        (Some(a), Some(t), Some(u)) => Ok(
                            AuthResponse { access_token: a, refresh_token: t, user_id: u },
                        ),
                        _ => Err(AuthError::ApiError(String::from_str(MALFORMED_AUTH))),
                    }
                },
            }
        },
    }
}

/// Where an exchange stands: waiting for the resource, or for new tokens.
#[derive(Clone, Copy, Debug, PartialEq, Eq)]
pub enum Stage {
    Resource,
    Refresh,
}

/// One authenticated call in flight: its method, its descriptor, and what
/// it waits for.
#[derive(Clone, Debug)]
pub struct Exchange {
    pub method: Method,
    pub params: RequestParams,
    pub stage: Stage,
}

/// How many more requests an exchange may send at most: a call that may
/// still reauthenticate can send a refresh and one retry.
pub open spec fn sends_left(ex: Exchange) -> nat {
    match ex.stage {
        Stage::Refresh => 1,
        Stage::Resource => if ex.params.can_reauthenticate {
            2
        } else {
            0
        },
    }
}

/// What one step may do to an exchange: the permission to reauthenticate is
/// never regained, and a refresh is asked for only by a step that gives the
/// permission up.
pub open spec fn exchange_step(before: Exchange, after: Exchange, refresh_sent: bool) -> bool {
    &&& !before.params.can_reauthenticate ==> !after.params.can_reauthenticate
    &&& refresh_sent ==> before.params.can_reauthenticate && !after.params.can_reauthenticate
}

/// Whether a step asks for new tokens.
pub open spec fn sends_refresh(s: Step) -> bool {
    s matches Step::Send(q) && q.body is RefreshToken
}

proof fn lemma_permission_stays_lost(states: Seq<Exchange>, refreshes: Seq<bool>, i: int, k: int)
    requires
        states.len() == refreshes.len() + 1,
        forall|n: int|
            0 <= n < refreshes.len() ==> exchange_step(
                #[trigger] states[n],
                states[n + 1],
                refreshes[n],
            ),
        0 <= i < k < states.len(),
        !states[i].params.can_reauthenticate,
    ensures
        !states[k].params.can_reauthenticate,
    decreases k - i,
{
    if k > i + 1 {
        lemma_permission_stays_lost(states, refreshes, i, k - 1);
    }
    assert(exchange_step(states[k - 1], states[k], refreshes[k - 1]));
}

/// However the services answer, an exchange asks for new tokens at most
/// once: in any run of steps, no two of them send a refresh.
pub proof fn lemma_at_most_one_refresh(states: Seq<Exchange>, refreshes: Seq<bool>)
    requires
        states.len() == refreshes.len() + 1,
        forall|n: int|
            0 <= n < refreshes.len() ==> exchange_step(
                #[trigger] states[n],
                states[n + 1],
                refreshes[n],
            ),
    ensures
        forall|i: int, j: int|
            0 <= i < j < refreshes.len() ==> !(#[trigger] refreshes[i] && #[trigger] refreshes[j]),
{
    assert forall|i: int, j: int| 0 <= i < j < refreshes.len() implies !(#[trigger] refreshes[i]
        && #[trigger] refreshes[j]) by {
        if refreshes[i] && refreshes[j] {
            assert(exchange_step(states[i], states[i + 1], refreshes[i]));
            assert(exchange_step(states[j], states[j + 1], refreshes[j]));
            if i + 1 < j {
                lemma_permission_stays_lost(states, refreshes, i + 1, j);
            }
        }
    }
}

impl Exchange {
    /// An exchange waits for new tokens only after its descriptor gave up
    /// the permission to reauthenticate.
    pub open spec fn wf(&self) -> bool {
        self.stage == Stage::Refresh ==> !self.params.can_reauthenticate
    }

    pub fn new(method: Method, params: RequestParams) -> (r: Exchange)
        ensures
            r.method == method,
            r.params == params,
            r.stage == Stage::Resource,
            r.wf(),
    {
        Exchange { method, params, stage: Stage::Resource }
    }
}

/// `r` is the request that retries or starts the call of `ex` with the
/// credentials `held`, or the error that stops it before anything is sent.
pub open spec fn resource_request_ok(
    r: Result<HttpRequest, ApiError>,
    held: Option<Tokens>,
    ex: Exchange,
) -> bool {
    match held {
        None => r == Err::<HttpRequest, ApiError>(ApiError::Unauthenticated),
        Some(t) => match url_with_query(ex.params.uri@, pairs_view(ex.params.query_params@)) {
            Ok(u) => r matches Ok(q) && (q.method == ex.method && q.url@ == u && q.body
                == RequestBody::Descriptor && (q.authorization matches Some(h) && h@
                == "Bearer "@ + t.0)),
            Err(e) => r matches Err(ApiError::RequestError(m)) && m@ == e,
        },
    }
}

/// `q` asks the auth service at `root` for new tokens in exchange for
/// `refresh_token`.
pub open spec fn is_refresh_request(q: HttpRequest, root: Seq<char>, refresh_token: Seq<char>) -> bool {
    &&& q.method == Method::Post
    &&& q.url@ == joined_url(root, "refresh-token"@)
    &&& q.authorization is None
    &&& q.body matches RequestBody::RefreshToken(t) && t.refresh_token@ == refresh_token
}

/// `q` posts `body` to `endpoint` of the service at `root`, without
/// credentials.
pub open spec fn is_anonymous_post(q: HttpRequest, root: Seq<char>, endpoint: Seq<char>, body: RequestBody) -> bool {
    &&& q.method == Method::Post
    &&& q.url@ == joined_url(root, endpoint)
    &&& q.authorization is None
    &&& q.body == body
}

/// A step as the request it sends, or the error it ends with.
pub open spec fn step_request(s: Step) -> Result<HttpRequest, ApiError> {
    match s {
        Step::Send(q) => Ok(q),
        Step::Done(Err(e)) => Err(e),
        Step::Done(Ok(_)) => Err(ApiError::Unauthenticated),
    }
}

/// A registration result as views; field errors have no text.
pub open spec fn register_view(r: Result<AuthResponse, RegisterError>) -> Result<
    AuthResponseView,
    Seq<char>,
> {
    match r {
        Ok(a) => Ok(a@),
        Err(RegisterError::ApiError(m)) => Err(m@),
        Err(RegisterError::ValidationErrors(_)) => Err(Seq::empty()),
    }
}

/// What the client wants next: a request sent, or the call finished.
#[derive(Debug)]
pub enum Step {
    Send(HttpRequest),
    Done(Result<HttpReply, ApiError>),
}

/// The client of the auth, user and message services: holds the current
/// credential pair and keeps the store in step with it.
pub struct ApiClient<S: Storage> {
    auth: Option<Auth>,
    auth_manager: AuthManager<S>,
    auth_service_api_url: String,
    user_service_api_url: String,
    message_service_api_url: String,
}

impl<S: Storage> ApiClient<S> {
    /// The credential pair held in memory.
    pub closed spec fn held(&self) -> Option<Tokens> {
        tokens_of(self.auth)
    }

    /// The contents of the store behind the client.
    pub closed spec fn stored(&self) -> Map<Seq<char>, Seq<char>> {
        self.auth_manager.entries()
    }

    pub closed spec fn auth_root(&self) -> Seq<char> {
        self.auth_service_api_url@
    }

    pub closed spec fn user_root(&self) -> Seq<char> {
        self.user_service_api_url@
    }

    pub closed spec fn message_root(&self) -> Seq<char> {
        self.message_service_api_url@
    }

    /// The two clients talk to the same services.
    pub open spec fn same_roots(&self, other: &Self) -> bool {
        &&& self.auth_root() == other.auth_root()
        &&& self.user_root() == other.user_root()
        &&& self.message_root() == other.message_root()
    }

    pub fn new(
        auth: Option<Auth>,
        auth_service_api_url: String,
        user_service_api_url: String,
        message_service_api_url: String,
        auth_manager: AuthManager<S>,
    ) -> (r: Self)
        ensures
            r.held() == tokens_of(auth),
            r.stored() == auth_manager.entries(),
            r.auth_root() == auth_service_api_url@,
            r.user_root() == user_service_api_url@,
            r.message_root() == message_service_api_url@,
    {
        ApiClient {
            auth,
            auth_manager,
            auth_service_api_url,
            user_service_api_url,
            message_service_api_url,
        }
    }

    pub fn is_authenticated(&self) -> (r: bool)
        ensures
            r == self.held() is Some,
    {
        self.auth.is_some()
    }

    /// The manager of the store behind the client.
    pub fn auth_manager(&self) -> (r: &AuthManager<S>)
        ensures
            r.entries() == self.stored(),
    {
        &self.auth_manager
    }

    /// Writes a key other than the two tokens to the store.
    pub fn store(&mut self, key: &str, value: &str)
        ensures
            final(self).stored() == old(self).stored().insert(key@, value@),
            final(self).held() == old(self).held(),
            final(self).same_roots(old(self)),
    {
        self.auth_manager.storage_mut().set(key, value);
    }

    /// Removes a key other than the two tokens from the store.
    pub fn unstore(&mut self, key: &str)
        ensures
            final(self).stored() == old(self).stored().remove(key@),
            final(self).held() == old(self).held(),
            final(self).same_roots(old(self)),
    {
        self.auth_manager.storage_mut().remove(key);
    }

    fn set_auth_tokens(&mut self, tokens: Auth)
        ensures
            final(self).held() == Some(tokens@),
            final(self).stored() == with_auth(old(self).stored(), tokens@),
            final(self).same_roots(old(self)),
    {
        self.auth = Some(tokens.duplicate());
        self.auth_manager.update_auth(tokens);
    }

    /// Forgets the credential pair, in memory and in the store.
    pub fn log_out(&mut self)
        ensures
            final(self).held() is None,
            final(self).stored() == without_auth(old(self).stored()),
            final(self).same_roots(old(self)),
    {
        self.auth = None;
        self.auth_manager.delete_auth();
    }

    /// The `Authorization` header for the held access token; without
    /// credentials there is none to send.
    pub fn get_authorization_header(&self) -> (r: Result<String, ApiError>)
        ensures
            match self.held() {
                Some(t) => r is Ok && r->Ok_0@ == "Bearer "@ + t.0,
                None => r == Err::<String, ApiError>(ApiError::Unauthenticated),
            },
    {
        match &self.auth {
            Some(a) => Ok(String::from_str("Bearer ").concat(a.access_token.as_str())),
            None => Err(ApiError::Unauthenticated),
        }
    }

    pub fn auth_url(&self, endpoint: &str) -> (r: String)
        ensures
            r@ == joined_url(self.auth_root(), endpoint@),
    {
        build_url(self.auth_service_api_url.as_str(), endpoint)
    }

    pub fn user_url(&self, endpoint: &str) -> (r: String)
        ensures
            r@ == joined_url(self.user_root(), endpoint@),
    {
        build_url(self.user_service_api_url.as_str(), endpoint)
    }

    pub fn message_url(&self, endpoint: &str) -> (r: String)
        ensures
            r@ == joined_url(self.message_root(), endpoint@),
    {
        build_url(self.message_service_api_url.as_str(), endpoint)
    }

    /// The login call: the credentials go to the auth service's `login`
    /// endpoint, without an `Authorization` header.
    pub fn login_request(&self, req: LoginRequest) -> (r: HttpRequest)
        ensures
            is_anonymous_post(r, self.auth_root(), "login"@, RequestBody::Login(req)),
    {
        proof {
            reveal_strlit("login");
        }
        HttpRequest {
            method: Method::Post,
            url: self.auth_url("login"),
            authorization: None,
            body: RequestBody::Login(req),
        }
    }

    /// Completes a login with the service's reply: on success the returned
    /// tokens become the held pair and are persisted; on failure nothing
    /// changes.
    pub fn finish_login(&mut self, reply: Reply) -> (r: Result<AuthResponse, AuthError>)
        ensures
            login_view(r) == auth_outcome(reply),
            r is Ok ==> final(self).held() == Some((r->Ok_0@.0, r->Ok_0@.1)) && final(self).stored() == with_auth(old(self).stored(), (r->Ok_0@.0, r->Ok_0@.1)),
            r is Err ==> final(self).held() == old(self).held() && final(self).stored() == old(self).stored(),
            final(self).same_roots(old(self)),
    {
        let r = parse_auth_response(reply);
        match &r {
            Ok(resp) => {
                self.set_auth_tokens(
                    Auth::new(resp.access_token.as_str(), resp.refresh_token.as_str()),
                );
            },
            Err(_) => {},
        }
        r
    }

    /// The registration call: both fields are checked first, and only a form
    /// that passes goes to the user service's `users` endpoint.
    pub fn register_request(&self, req: RegisterRequest) -> (r: Result<HttpRequest, FieldErrors>)
        ensures
            r is Ok <==> (username_error(req.username@) is None && password_error(
                req.password@,
            ) is None),
            r is Ok ==> is_anonymous_post(
                r->Ok_0,
                self.user_root(),
                "users"@,
                RequestBody::Register(req),
            ),
            r is Err ==> error_text(r->Err_0.username) == username_error(req.username@)
                && error_text(r->Err_0.password) == password_error(req.password@),
    {
        proof {
            reveal_strlit("users");
        }
        match req.validate() {
            Err(e) => Err(e),
            Ok(_) => Ok(
                HttpRequest {
                    method: Method::Post,
                    url: self.user_url("users"),
                    authorization: None,
                    body: RequestBody::Register(req),
                },
            ),
        }
    }

    /// Completes a registration with the service's reply. A failed reply
    /// with an `errors` member reports those field errors; otherwise it goes
    /// as a login reply does.
    pub fn finish_register(&mut self, reply: Reply) -> (r: Result<AuthResponse, RegisterError>)
        ensures
            register_field_errors(reply) matches Some(Ok(m)) ==> r == Err::<
                AuthResponse,
                RegisterError,
            >(RegisterError::ValidationErrors(m)),
            register_field_errors(reply) matches Some(Err(e)) ==> (r matches Err(
                RegisterError::ApiError(t),
            ) && t@ == e@),
            register_field_errors(reply) is None ==> register_view(r) == auth_outcome(reply)
                && !(r matches Err(RegisterError::ValidationErrors(_))),
            r is Ok ==> final(self).held() == Some((r->Ok_0@.0, r->Ok_0@.1)) && final(self).stored() == with_auth(old(self).stored(), (r->Ok_0@.0, r->Ok_0@.1)),
            r is Err ==> final(self).held() == old(self).held() && final(self).stored() == old(self).stored(),
            final(self).same_roots(old(self)),
    {
        let field_errors = match &reply {
            Ok(rep) => {
                if !status_is_success(rep.status) {
                    match &rep.body {
                        ReplyBody::Json(f) => f.errors.is_some(),
                        ReplyBody::Malformed(_) => false,
                    }
                } else {
                    false
                }
            },
            Err(_) => false,
        };
        if field_errors {
            match reply {
                Ok(rep) => match rep.body {
                    ReplyBody::Json(f) => match f.errors {
                        Some(Ok(m)) => {
                            return Err(RegisterError::ValidationErrors(m));
                        },
                        Some(Err(e)) => {
                            return Err(RegisterError::ApiError(e));
                        },
                        None => {
                            return Err(RegisterError::ApiError(String::from_str(UNKNOWN_ERROR)));
                        },
                    },
                    ReplyBody::Malformed(m) => {
                        return Err(RegisterError::ApiError(m));
                    },
                },
                Err(m) => {
                    return Err(RegisterError::ApiError(m));
                },
            }
        }
        match parse_auth_response(reply) {
            Ok(resp) => {
                self.set_auth_tokens(
                    Auth::new(resp.access_token.as_str(), resp.refresh_token.as_str()),
                );
                Ok(resp)
            },
            Err(AuthError::ApiError(m)) => Err(RegisterError::ApiError(m)),
        }
    }

    fn refresh_request(&self) -> (r: HttpRequest)
        requires
            self.held() is Some,
        ensures
            is_refresh_request(r, self.auth_root(), (self.held()->0).1),
    {
        proof {
            reveal_strlit("refresh-token");
        }
        let refresh_token = match &self.auth {
            Some(a) => a.refresh_token.clone(),
            None => String::new(),
        };
        HttpRequest {
            method: Method::Post,
            url: self.auth_url("refresh-token"),
            authorization: None,
            body: RequestBody::RefreshToken(RefreshTokenRequest { refresh_token }),
        }
    }

    /// The request that an exchange sends next: the call itself with the
    /// held access token, or the refresh of the held pair. Without
    /// credentials nothing is sent.
    pub fn next_request(&self, ex: &Exchange) -> (r: Result<HttpRequest, ApiError>)
        ensures
            ex.stage == Stage::Resource ==> resource_request_ok(r, self.held(), *ex),
            ex.stage == Stage::Refresh ==> match self.held() {
                Some(t) => r matches Ok(q) && is_refresh_request(q, self.auth_root(), t.1),
                None => r == Err::<HttpRequest, ApiError>(ApiError::Unauthenticated),
            },
    {
        match ex.stage {
            Stage::Resource => {
                let authorization = match self.get_authorization_header() {
                    Ok(h) => h,
                    Err(e) => {
                        return Err(e);
                    },
                };
                match request_url(ex.params.uri.as_str(), &ex.params.query_params) {
                    Ok(url) => Ok(
                        HttpRequest {
                            method: ex.method,
                            url,
                            authorization: Some(authorization),
                            body: RequestBody::Descriptor,
                        },
                    ),
                    Err(e) => Err(ApiError::RequestError(e)),
                }
            },
            Stage::Refresh => {
                if self.auth.is_none() {
                    return Err(ApiError::Unauthenticated);
                }
                Ok(self.refresh_request())
            },
        }
    }

    /// Takes an exchange one step further with the reply to the request it
    /// sent last. A 401 on the call, while the descriptor may still
    /// reauthenticate and credentials are held, clears that permission and
    /// sends a refresh; new tokens are kept and the call is sent once more,
    /// while a failed refresh logs out and ends the call as unauthenticated.
    pub fn advance(&mut self, ex: &mut Exchange, reply: Reply) -> (r: Step)
        requires
            old(ex).wf(),
        ensures
            final(ex).wf(),
            exchange_step(*old(ex), *final(ex), sends_refresh(r)),
            r is Send ==> sends_left(*final(ex)) < sends_left(*old(ex)),
            !old(ex).params.can_reauthenticate ==> !final(ex).params.can_reauthenticate,
            final(ex).method == old(ex).method,
            final(ex).params.uri == old(ex).params.uri,
            final(ex).params.query_params == old(ex).params.query_params,
            final(ex).params.body == old(ex).params.body,
            final(self).same_roots(old(self)),
            old(ex).stage == Stage::Resource ==> match reply {
                Err(m) => r matches Step::Done(Err(ApiError::RequestError(t))) && t@ == m@
                    && *final(ex) == *old(ex) && final(self).held() == old(self).held()
                    && final(self).stored() == old(self).stored(),
                Ok(rep) => if rep.status == UNAUTHORIZED && old(ex).params.can_reauthenticate
                    && old(self).held() is Some {
                    &&& r matches Step::Send(q) && is_refresh_request(
                        q,
                        old(self).auth_root(),
                        (old(self).held()->0).1,
                    )
                    &&& final(ex).stage == Stage::Refresh
                    &&& !final(ex).params.can_reauthenticate
                    &&& final(self).held() == old(self).held()
                    &&& final(self).stored() == old(self).stored()
                } else {
                    &&& !is_success(rep.status) ==> (r matches Step::Done(
                        Err(ApiError::RequestError(t)),
                    ) && t@ == failure_text(rep))
                    &&& is_success(rep.status) ==> r == Step::Done(Ok(rep))
                    &&& *final(ex) == *old(ex)
                    &&& final(self).held() == old(self).held()
                    &&& final(self).stored() == old(self).stored()
                },
            },
            old(ex).stage == Stage::Refresh ==> match refresh_outcome(reply) {
                Ok(t) => {
                    &&& final(self).held() == Some(t)
                    &&& final(self).stored() == with_auth(old(self).stored(), t)
                    &&& final(ex).stage == Stage::Resource
                    &&& final(ex).params.can_reauthenticate == old(ex).params.can_reauthenticate
                    &&& !(r matches Step::Done(Ok(_)))
                    &&& resource_request_ok(step_request(r), Some(t), *final(ex))
                },
                Err(_) => {
                    &&& r matches Step::Done(Err(ApiError::Unauthenticated))
                    &&& final(self).held() is None
                    &&& final(self).stored() == without_auth(old(self).stored())
                    &&& *final(ex) == *old(ex)
                },
            },
    {
        match ex.stage {
            Stage::Resource => match reply {
                Err(m) => Step::Done(Err(ApiError::RequestError(m))),
                Ok(rep) => {
                    if rep.status == UNAUTHORIZED && ex.params.can_reauthenticate
                        && self.auth.is_some() {
                        ex.params.set_cant_reauthenticate();
                        ex.stage = Stage::Refresh;
                        Step::Send(self.refresh_request())
                    } else if !status_is_success(rep.status) {
                        Step::Done(Err(ApiError::RequestError(failure_detail(&rep))))
                    } else {
                        Step::Done(Ok(rep))
                    }
                },
            },
            Stage::Refresh => match parse_refresh(reply) {
                Ok(tokens) => {
                    self.set_auth_tokens(tokens);
                    ex.stage = Stage::Resource;
                    match self.next_request(ex) {
                        Ok(q) => Step::Send(q),
                        Err(e) => Step::Done(Err(e)),
                    }
                },
                Err(_) => {
                    self.log_out();
                    Step::Done(Err(ApiError::Unauthenticated))
                },
            },
        }
    }

    fn exchange(&self, method: Method, uri: String, query_params: Vec<(String, String)>, body: Payload) -> (r: Exchange)
        ensures
            r.method == method,
            r.params.uri == uri,
            r.params.query_params == query_params,
            r.params.body == body,
            r.params.can_reauthenticate,
            r.stage == Stage::Resource,
            r.wf(),
    {
        Exchange::new(method, RequestParams::new(uri, query_params, body))
    }

    /// The call that lists the user's chats.
    pub fn get_chats(&self) -> (r: Exchange)
        ensures
            r.method == Method::Get,
            r.params.uri@ == joined_url(self.message_root(), "chats"@),
            r.params.query_params@.len() == 0,
            r.params.body == Payload::Empty,
            r.params.can_reauthenticate,
            r.stage == Stage::Resource,
            r.wf(),
    {
        proof {
            reveal_strlit("chats");
        }
        self.exchange(Method::Get, self.message_url("chats"), Vec::new(), Payload::Empty)
    }

    /// The call that fetches one chat.
    pub fn get_chat(&self, chat_id: ChatId) -> (r: Exchange)
        ensures
            r.method == Method::Get,
            r.params.uri@ == joined_url(self.message_root(), "chats/"@ + decimal(chat_id as nat)),
            r.params.query_params@.len() == 0,
            r.params.body == Payload::Empty,
            r.params.can_reauthenticate,
            r.stage == Stage::Resource,
            r.wf(),
    {
        let endpoint = String::from_str("chats/").concat(decimal_text(chat_id).as_str());
        self.exchange(Method::Get, self.message_url(endpoint.as_str()), Vec::new(), Payload::Empty)
    }

    /// The call that marks a chat as read. Its outcome is of no interest to
    /// the caller.
    pub fn mark_chat_as_read(&self, chat_id: ChatId) -> (r: Exchange)
        ensures
            r.method == Method::Post,
            r.params.uri@ == joined_url(
                self.message_root(),
                "chats/"@ + decimal(chat_id as nat) + "/read"@,
            ),
            r.params.query_params@.len() == 0,
            r.params.body == Payload::Empty,
            r.params.can_reauthenticate,
            r.stage == Stage::Resource,
            r.wf(),
    {
        let endpoint = String::from_str("chats/").concat(decimal_text(chat_id).as_str()).concat(
            "/read",
        );
        self.exchange(Method::Post, self.message_url(endpoint.as_str()), Vec::new(), Payload::Empty)
    }

    /// The call that searches users by name.
    pub fn search_users(&self, username: String) -> (r: Exchange)
        ensures
            r.method == Method::Get,
            r.params.uri@ == joined_url(self.user_root(), "users"@),
            r.params.query_params@.len() == 1,
            r.params.query_params@[0].0@ == "username"@,
            r.params.query_params@[0].1 == username,
            r.params.body == Payload::Empty,
            r.params.can_reauthenticate,
            r.stage == Stage::Resource,
            r.wf(),
    {
        proof {
            reveal_strlit("users");
        }
        let mut query_params: Vec<(String, String)> = Vec::new();
        query_params.push((String::from_str("username"), username));
        self.exchange(Method::Get, self.user_url("users"), query_params, Payload::Empty)
    }

    /// The call that fetches several users by id.
    pub fn get_users_by_ids(&self, user_ids: Vec<UserId>) -> (r: Exchange)
        ensures
            r.method == Method::Post,
            r.params.uri@ == joined_url(self.user_root(), "users/batch-query"@),
            r.params.query_params@.len() == 0,
            r.params.body == Payload::UsersByIds(GetUsersByIdsRequest { user_ids }),
            r.params.can_reauthenticate,
            r.stage == Stage::Resource,
            r.wf(),
    {
        proof {
            reveal_strlit("users/batch-query");
        }
        self.exchange(
            Method::Post,
            self.user_url("users/batch-query"),
            Vec::new(),
            Payload::UsersByIds(GetUsersByIdsRequest { user_ids }),
        )
    }

    /// The call that creates a chat.
    pub fn create_chat(&self, chat: NewChatModel) -> (r: Exchange)
        ensures
            r.method == Method::Post,
            r.params.uri@ == joined_url(self.message_root(), "chats"@),
            r.params.query_params@.len() == 0,
            r.params.body == Payload::NewChat(chat),
            r.params.can_reauthenticate,
            r.stage == Stage::Resource,
            r.wf(),
    {
        proof {
            reveal_strlit("chats");
        }
        self.exchange(Method::Post, self.message_url("chats"), Vec::new(), Payload::NewChat(chat))
    }
}

} // verus!
