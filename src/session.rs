use crate::client::{
    auth_outcome, register_field_errors, resource_request_ok, ApiClient, ApiError, Exchange,
    HttpRequest, Reply, Stage,
};
use crate::schemas::{AuthError, RegisterError};
use crate::storage::{
    lemma_token_keys_differ, stored_auth, with_auth, without_auth, Storage, USER_ID_KEY,
};
use vstd::prelude::*;

verus! {

/// The process-wide flag that tells observers whether a user is signed in.
pub trait AuthState {
    spec fn authenticated(&self) -> bool;

    fn set_authenticated(&mut self)
        ensures
            final(self).authenticated(),
    ;

    fn set_not_authenticated(&mut self)
        ensures
            !final(self).authenticated(),
    ;

    fn is_authenticated(&self) -> (r: bool)
        ensures
            r == self.authenticated(),
    ;
}

/// A sign-in flag held in memory; sharing it among observers is up to its
/// owner.
#[derive(Clone, Copy, Debug, Default, PartialEq, Eq)]
pub struct AuthFlag {
    authenticated: bool,
}

impl AuthFlag {
    pub fn new() -> (r: AuthFlag)
        ensures
            !r.authenticated(),
    {
        AuthFlag { authenticated: false }
    }
}

impl AuthState for AuthFlag {
    closed spec fn authenticated(&self) -> bool {
        self.authenticated
    }

    fn set_authenticated(&mut self) {
        self.authenticated = true;
    }

    fn set_not_authenticated(&mut self) {
        self.authenticated = false;
    }

    fn is_authenticated(&self) -> (r: bool) {
        self.authenticated
    }
}

/// The client and its store once a sign-in with `reply` succeeded: the
/// returned tokens are held and stored, and so is the user id.
pub open spec fn signed_in<S: Storage>(before: ApiClient<S>, after: ApiClient<S>, reply: Reply) -> bool {
    let a = auth_outcome(reply)->Ok_0;
    &&& after.held() == Some((a.0, a.1))
    &&& after.stored() == with_auth(before.stored(), (a.0, a.1)).insert(USER_ID_KEY@, a.2)
    &&& after.same_roots(&before)
}

/// The client and its store once a user logged out: no credentials in
/// memory, and neither tokens nor user id in the store.
pub open spec fn logged_out<S: Storage>(before: ApiClient<S>, after: ApiClient<S>) -> bool {
    &&& after.held() is None
    &&& after.stored() == without_auth(before.stored()).remove(USER_ID_KEY@)
    &&& after.same_roots(&before)
}

/// Completes a login with the auth service's reply. On success the tokens
/// and the user id are persisted and the flag is raised; on failure neither
/// the client, the store nor the flag is touched.
pub fn login<S: Storage, A: AuthState>(
    client: &mut ApiClient<S>,
    auth_state: &mut A,
    reply: Reply,
) -> (r: Result<(), AuthError>)
    ensures
        r is Ok <==> auth_outcome(reply) is Ok,
        r matches Err(AuthError::ApiError(m)) ==> auth_outcome(reply) == Err::<
            (Seq<char>, Seq<char>, Seq<char>),
            Seq<char>,
        >(m@),
        r is Ok ==> signed_in(*old(client), *final(client), reply) && final(auth_state).authenticated(),
        r is Err ==> *final(auth_state) == *old(auth_state) && final(client).held() == old(client).held() && final(client).stored() == old(client).stored(),
{
    match client.finish_login(reply) {
        Ok(resp) => {
            client.store(USER_ID_KEY, resp.user_id.as_str());
            auth_state.set_authenticated();
            Ok(())
        },
        Err(e) => Err(e),
    }
}

/// Completes a registration with the user service's reply, as `login` does
/// for a login.
pub fn register<S: Storage, A: AuthState>(
    client: &mut ApiClient<S>,
    auth_state: &mut A,
    reply: Reply,
) -> (r: Result<(), RegisterError>)
    ensures
        r is Ok <==> (register_field_errors(reply) is None && auth_outcome(reply) is Ok),
        register_field_errors(reply) matches Some(Ok(m)) ==> r == Err::<(), RegisterError>(
            RegisterError::ValidationErrors(m),
        ),
        register_field_errors(reply) matches Some(Err(e)) ==> (r matches Err(
            RegisterError::ApiError(t),
        ) && t@ == e@),
        register_field_errors(reply) is None ==> (r matches Err(RegisterError::ApiError(t))
            ==> auth_outcome(reply) == Err::<(Seq<char>, Seq<char>, Seq<char>), Seq<char>>(
            t@,
        )),
        register_field_errors(reply) is None ==> !(r matches Err(
            RegisterError::ValidationErrors(_),
        )),
        r is Ok ==> signed_in(*old(client), *final(client), reply) && final(auth_state).authenticated(),
        r is Err ==> *final(auth_state) == *old(auth_state) && final(client).held() == old(client).held() && final(client).stored() == old(client).stored(),
{
    match client.finish_register(reply) {
        Ok(resp) => {
            client.store(USER_ID_KEY, resp.user_id.as_str());
            auth_state.set_authenticated();
            Ok(())
        },
        Err(e) => Err(e),
    }
}

/// Logs out locally: the credentials leave memory and the store, the user id
/// leaves the store, and the flag is lowered. No service is asked, so a
/// logout always succeeds.
pub fn logout<S: Storage, A: AuthState>(client: &mut ApiClient<S>, auth_state: &mut A)
    ensures
        logged_out(*old(client), *final(client)),
        !final(auth_state).authenticated(),
{
    client.log_out();
    client.unstore(USER_ID_KEY);
    auth_state.set_not_authenticated();
}

/// After a logout no credentials can be read back from the store, and the
/// next call of an exchange fails at once as unauthenticated: no request
/// with a stale token is sent.
pub proof fn lemma_logout_fails_fast<S: Storage>(
    before: ApiClient<S>,
    after: ApiClient<S>,
    ex: Exchange,
    r: Result<HttpRequest, ApiError>,
)
    requires
        logged_out(before, after),
        ex.stage == Stage::Resource,
        resource_request_ok(r, after.held(), ex),
    ensures
        stored_auth(after.stored()) is None,
        r == Err::<HttpRequest, ApiError>(ApiError::Unauthenticated),
{
    lemma_token_keys_differ();
}

} // verus!
