use crate::client::ApiClient;
use crate::storage::{AuthManager, SharedStorage, Storage};
use vstd::prelude::*;

verus! {

/// Where the three services live, and which apps are switched on.
#[derive(Clone, Debug)]
pub struct CoreConfig {
    pub auth_service_api_url: String,
    pub user_service_api_url: String,
    pub message_service_api_url: String,
    pub message_websocket_url: String,
    pub apps: Apps,
}

/// The names of the apps that are switched on.
#[derive(Clone, Debug)]
pub struct Apps {
    enabled: Vec<String>,
}

/// Settings of the web front end; it has none of its own yet.
#[derive(Clone, Debug)]
pub struct WebConfig {}

impl Apps {
    pub closed spec fn names(&self) -> Seq<String> {
        self.enabled@
    }

    pub fn new(enabled: Vec<String>) -> (r: Apps)
        ensures
            r.names() == enabled@,
    {
        Apps { enabled }
    }

    /// The names of the apps that are switched on.
    pub fn enabled(&self) -> (r: &Vec<String>)
        ensures
            r@ == self.names(),
    {
        &self.enabled
    }

    pub fn is_app_enabled(&self, app_name: &str) -> (r: bool)
        ensures
            r == exists|i: int| 0 <= i < self.names().len() && #[trigger] self.names()[i]@ == app_name@,
    {
        let name = app_name.to_owned();
        let mut i: usize = 0;
        while i < self.enabled.len()
            invariant
                i <= self.enabled@.len(),
                name@ == app_name@,
                forall|j: int| 0 <= j < i ==> #[trigger] self.enabled@[j]@ != app_name@,
            decreases self.enabled@.len() - i,
        {
            if self.enabled[i] == name {
                assert(self.names()[i as int]@ == app_name@);
                return true;
            }
            i = i + 1;
        }
        false
    }
}

/// A client for the services that `config` names, with no credentials held
/// yet and `storage` behind it.
pub fn get_api_client<S: Storage>(config: &CoreConfig, storage: SharedStorage<S>) -> (r: ApiClient<S>)
    ensures
        r.held() is None,
        r.stored() == storage.entries(),
        r.auth_root() == config.auth_service_api_url@,
        r.user_root() == config.user_service_api_url@,
        r.message_root() == config.message_service_api_url@,
{
    ApiClient::new(
        None,
        config.auth_service_api_url.clone(),
        config.user_service_api_url.clone(),
        config.message_service_api_url.clone(),
        AuthManager::new(storage),
    )
}

} // verus!
