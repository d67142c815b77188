use crate::auth::{tokens_of, Auth, Tokens};
use vstd::prelude::*;

verus! {

/// Key under which the access token is persisted.
pub const ACCESS_TOKEN_KEY: &'static str = "access_token";

/// Key under which the refresh token is persisted.
pub const REFRESH_TOKEN_KEY: &'static str = "refresh_token";

/// Key under which the id of the signed-in user is persisted.
pub const USER_ID_KEY: &'static str = "user_id";

/// A string key-value store, such as browser local storage or a file.
/// Its contents are modelled as a map from keys to values.
pub trait Storage {
    spec fn entries(&self) -> Map<Seq<char>, Seq<char>>;

    fn set(&mut self, key: &str, value: &str)
        ensures
            final(self).entries() == old(self).entries().insert(key@, value@),
    ;

    fn get(&self, key: &str) -> (r: Option<String>)
        ensures
            r is Some <==> self.entries().contains_key(key@),
            r is Some ==> r->0@ == self.entries()[key@],
    ;

    fn remove(&mut self, key: &str)
        ensures
            final(self).entries() == old(self).entries().remove(key@),
    ;
}

/// The credential pair that a store holds: present only when both token
/// keys are present.
pub open spec fn stored_auth(m: Map<Seq<char>, Seq<char>>) -> Option<Tokens> {
    if m.contains_key(ACCESS_TOKEN_KEY@) && m.contains_key(REFRESH_TOKEN_KEY@) {
        Some((m[ACCESS_TOKEN_KEY@], m[REFRESH_TOKEN_KEY@]))
    } else {
        None
    }
}

/// The store after a credential pair has been written to it.
pub open spec fn with_auth(m: Map<Seq<char>, Seq<char>>, t: Tokens) -> Map<Seq<char>, Seq<char>> {
    m.insert(REFRESH_TOKEN_KEY@, t.1).insert(ACCESS_TOKEN_KEY@, t.0)
}

/// The store after the credential pair has been removed from it.
pub open spec fn without_auth(m: Map<Seq<char>, Seq<char>>) -> Map<Seq<char>, Seq<char>> {
    m.remove(REFRESH_TOKEN_KEY@).remove(ACCESS_TOKEN_KEY@)
}

/// The two token keys are different keys.
pub proof fn lemma_token_keys_differ()
    ensures
        ACCESS_TOKEN_KEY@ != REFRESH_TOKEN_KEY@,
        ACCESS_TOKEN_KEY@ != USER_ID_KEY@,
        REFRESH_TOKEN_KEY@ != USER_ID_KEY@,
{
    reveal_strlit("access_token");
    reveal_strlit("refresh_token");
    reveal_strlit("user_id");
    assert(ACCESS_TOKEN_KEY@.len() != REFRESH_TOKEN_KEY@.len());
    assert(ACCESS_TOKEN_KEY@.len() != USER_ID_KEY@.len());
    assert(REFRESH_TOKEN_KEY@.len() != USER_ID_KEY@.len());
}

/// Reading the credentials back after writing a pair gives that very pair.
pub proof fn lemma_update_then_get(m: Map<Seq<char>, Seq<char>>, t: Tokens)
    ensures
        stored_auth(with_auth(m, t)) == Some(t),
{
    lemma_token_keys_differ();
}

/// Once the credentials are deleted none can be read, and deleting them
/// again changes nothing.
pub proof fn lemma_delete_then_get(m: Map<Seq<char>, Seq<char>>)
    ensures
        stored_auth(without_auth(m)) is None,
        without_auth(without_auth(m)) == without_auth(m),
        stored_auth(without_auth(without_auth(m))) is None,
{
    assert(without_auth(without_auth(m)) =~= without_auth(m));
}

/// A handle on the store that the rest of the library reads and writes through.
pub struct SharedStorage<S: Storage> {
    storage: S,
}

impl<S: Storage> SharedStorage<S> {
    pub closed spec fn entries(&self) -> Map<Seq<char>, Seq<char>> {
        self.storage.entries()
    }

    pub fn new(storage: S) -> (r: Self)
        ensures
            r.entries() == storage.entries(),
    {
        SharedStorage { storage }
    }

    pub fn set(&mut self, key: &str, value: &str)
        ensures
            final(self).entries() == old(self).entries().insert(key@, value@),
    {
        self.storage.set(key, value);
    }

    pub fn get(&self, key: &str) -> (r: Option<String>)
        ensures
            r is Some <==> self.entries().contains_key(key@),
            r is Some ==> r->0@ == self.entries()[key@],
    {
        self.storage.get(key)
    }

    pub fn remove(&mut self, key: &str)
        ensures
            final(self).entries() == old(self).entries().remove(key@),
    {
        self.storage.remove(key);
    }
}

/// Mirrors the credential pair into the store under the two token keys.
pub struct AuthManager<S: Storage> {
    storage: SharedStorage<S>,
}

impl<S: Storage> AuthManager<S> {
    pub closed spec fn entries(&self) -> Map<Seq<char>, Seq<char>> {
        self.storage.entries()
    }

    pub fn new(storage: SharedStorage<S>) -> (r: Self)
        ensures
            r.entries() == storage.entries(),
    {
        AuthManager { storage }
    }

    pub fn is_authenticated(&self) -> (r: bool)
        ensures
            r == (stored_auth(self.entries()) is Some),
    {
        self.get_auth().is_some()
    }

    pub fn get_auth(&self) -> (r: Option<Auth>)
        ensures
            tokens_of(r) == stored_auth(self.entries()),
    {
        let refresh_token = self.storage.get(REFRESH_TOKEN_KEY);
        let access_token = self.storage.get(ACCESS_TOKEN_KEY);
        match (access_token, refresh_token) {
            (Some(a), Some(r)) => Some(Auth::new(a.as_str(), r.as_str())),
            _ => None,
        }
    }

    pub fn update_auth(&mut self, auth: Auth)
        ensures
            final(self).entries() == with_auth(old(self).entries(), auth@),
    {
        self.storage.set(REFRESH_TOKEN_KEY, auth.refresh_token.as_str());
        self.storage.set(ACCESS_TOKEN_KEY, auth.access_token.as_str());
    }

    pub fn delete_auth(&mut self)
        ensures
            final(self).entries() == without_auth(old(self).entries()),
    {
        self.storage.remove(REFRESH_TOKEN_KEY);
        self.storage.remove(ACCESS_TOKEN_KEY);
    }

    /// The store behind the manager.
    pub fn storage(&self) -> (r: &SharedStorage<S>)
        ensures
            r.entries() == self.entries(),
    {
        &self.storage
    }

    /// The store behind the manager, for writes of keys other than the tokens.
    pub fn storage_mut(&mut self) -> (r: &mut SharedStorage<S>)
        ensures
            r.entries() == old(self).entries(),
            final(self).entries() == final(r).entries(),
    {
        &mut self.storage
    }
}

/// Builds the manager that keeps credentials in the given store.
pub fn get_auth_manager<S: Storage>(storage: SharedStorage<S>) -> (r: AuthManager<S>)
    ensures
        r.entries() == storage.entries(),
{
    AuthManager::new(storage)
}

/// The map that a list of key-value pairs stands for: a later pair for a key
/// hides the earlier ones.
pub open spec fn pairs_map(pairs: Seq<(String, String)>) -> Map<Seq<char>, Seq<char>>
    decreases pairs.len(),
{
    if pairs.len() == 0 {
        Map::empty()
    } else {
        pairs_map(pairs.drop_last()).insert(pairs.last().0@, pairs.last().1@)
    }
}

proof fn lemma_pairs_map_step(pairs: Seq<(String, String)>, i: int)
    requires
        0 <= i < pairs.len(),
    ensures
        pairs_map(pairs.subrange(0, i + 1)) == pairs_map(pairs.subrange(0, i)).insert(
            pairs[i].0@,
            pairs[i].1@,
        ),
{
    assert(pairs.subrange(0, i + 1).drop_last() =~= pairs.subrange(0, i));
}

/// A store that keeps its values in memory for as long as it lives.
#[derive(Clone, Debug, Default)]
pub struct MemoryStorage {
    pairs: Vec<(String, String)>,
}

impl MemoryStorage {
    pub fn new() -> (r: MemoryStorage)
        ensures
            r.entries() == Map::<Seq<char>, Seq<char>>::empty(),
    {
        MemoryStorage { pairs: Vec::new() }
    }
}

impl Storage for MemoryStorage {
    closed spec fn entries(&self) -> Map<Seq<char>, Seq<char>> {
        pairs_map(self.pairs@)
    }

    fn set(&mut self, key: &str, value: &str) {
        self.remove(key);
        let ghost before = self.pairs@;
        self.pairs.push((key.to_owned(), value.to_owned()));
        proof {
            assert(self.pairs@.drop_last() =~= before);
            assert(pairs_map(self.pairs@) =~= old(self).entries().insert(key@, value@));
        }
    }

    fn get(&self, key: &str) -> (r: Option<String>) {
        let wanted = key.to_owned();
        let mut i: usize = self.pairs.len();
        assert(self.pairs@.subrange(0, i as int) =~= self.pairs@);
        while i > 0
            invariant
                i <= self.pairs@.len(),
                wanted@ == key@,
                self.entries().contains_key(key@) == pairs_map(
                    self.pairs@.subrange(0, i as int),
                ).contains_key(key@),
                self.entries().contains_key(key@) ==> self.entries()[key@] == pairs_map(
                    self.pairs@.subrange(0, i as int),
                )[key@],
            decreases i,
        {
            proof {
                lemma_pairs_map_step(self.pairs@, i - 1);
            }
            if self.pairs[i - 1].0 == wanted {
                return Some(self.pairs[i - 1].1.clone());
            }
            i = i - 1;
        }
        None
    }

    fn remove(&mut self, key: &str) {
        let wanted = key.to_owned();
        let ghost all = self.pairs@;
        let mut kept: Vec<(String, String)> = Vec::new();
        let mut i: usize = 0;
        while i < self.pairs.len()
            invariant
                i <= self.pairs@.len(),
                self.pairs@ == all,
                wanted@ == key@,
                pairs_map(kept@) == pairs_map(all.subrange(0, i as int)).remove(key@),
            decreases self.pairs@.len() - i,
        {
            proof {
                lemma_pairs_map_step(all, i as int);
            }
            if self.pairs[i].0 != wanted {
                let ghost prev = kept@;
                kept.push((self.pairs[i].0.clone(), self.pairs[i].1.clone()));
                proof {
                    assert(kept@.drop_last() =~= prev);
                    assert(pairs_map(kept@) =~= pairs_map(all.subrange(0, i + 1)).remove(key@));
                }
            } else {
                proof {
                    assert(pairs_map(kept@) =~= pairs_map(all.subrange(0, i + 1)).remove(key@));
                }
            }
            i = i + 1;
        }
        proof {
            assert(all.subrange(0, i as int) =~= all);
        }
        self.pairs = kept;
    }
}

} // verus!
