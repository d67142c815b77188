use crate::storage::{SharedStorage, Storage};
use vstd::prelude::*;

verus! {

/// Key under which the name of the shown app is persisted.
pub const ACTIVE_APP_KEY: &'static str = "active_app";

/// The map that a list of named entries stands for: a later entry for a
/// name hides the earlier ones.
pub open spec fn named_map<C>(entries: Seq<(String, C)>) -> Map<Seq<char>, C>
    decreases entries.len(),
{
    if entries.len() == 0 {
        Map::empty()
    } else {
        named_map(entries.drop_last()).insert(entries.last().0@, entries.last().1)
    }
}

proof fn lemma_named_map_step<C>(entries: Seq<(String, C)>, i: int)
    requires
        0 <= i < entries.len(),
    ensures
        named_map(entries.subrange(0, i + 1)) == named_map(entries.subrange(0, i)).insert(
            entries[i].0@,
            entries[i].1,
        ),
{
    assert(entries.subrange(0, i + 1).drop_last() =~= entries.subrange(0, i));
}

/// The apps that can be shown, by name, and the name of the one shown.
pub struct AppRegistry<C: Copy> {
    apps: Vec<(String, C)>,
    active: Option<String>,
}

impl<C: Copy> AppRegistry<C> {
    pub closed spec fn registered(&self) -> Map<Seq<char>, C> {
        named_map(self.apps@)
    }

    pub closed spec fn active_name(&self) -> Option<Seq<char>> {
        match self.active {
            Some(n) => Some(n@),
            None => None,
        }
    }

    pub fn new() -> (r: Self)
        ensures
            r.registered() == Map::<Seq<char>, C>::empty(),
            r.active_name() is None,
    {
        AppRegistry { apps: Vec::new(), active: None }
    }

    pub fn register_app(&mut self, name: &str, app: C)
        ensures
            final(self).registered() == old(self).registered().insert(name@, app),
            final(self).active_name() == old(self).active_name(),
    {
        self.remove_app(name);
        let ghost before = self.apps@;
        self.apps.push((name.to_owned(), app));
        proof {
            assert(self.apps@.drop_last() =~= before);
            assert(named_map(self.apps@) =~= old(self).registered().insert(name@, app));
        }
    }

    pub fn remove_app(&mut self, name: &str)
        ensures
            final(self).registered() == old(self).registered().remove(name@),
            final(self).active_name() == old(self).active_name(),
    {
        let wanted = name.to_owned();
        let ghost all = self.apps@;
        let mut kept: Vec<(String, C)> = Vec::new();
        let mut i: usize = 0;
        while i < self.apps.len()
            invariant
                i <= self.apps@.len(),
                self.apps@ == all,
                wanted@ == name@,
                named_map(kept@) == named_map(all.subrange(0, i as int)).remove(name@),
            decreases self.apps@.len() - i,
        {
            proof {
                lemma_named_map_step(all, i as int);
            }
            if self.apps[i].0 != wanted {
                let ghost prev = kept@;
                kept.push((self.apps[i].0.clone(), self.apps[i].1));
                proof {
                    assert(kept@.drop_last() =~= prev);
                    assert(named_map(kept@) =~= named_map(all.subrange(0, i + 1)).remove(name@));
                }
            } else {
                proof {
                    assert(named_map(kept@) =~= named_map(all.subrange(0, i + 1)).remove(name@));
                }
            }
            i = i + 1;
        }
        proof {
            assert(all.subrange(0, i as int) =~= all);
        }
        self.apps = kept;
    }

    pub fn get_app(&self, name: &str) -> (r: Option<C>)
        ensures
            r is Some <==> self.registered().contains_key(name@),
            r is Some ==> r->0 == self.registered()[name@],
    {
        let wanted = name.to_owned();
        let mut i: usize = self.apps.len();
        assert(self.apps@.subrange(0, i as int) =~= self.apps@);
        while i > 0
            invariant
                i <= self.apps@.len(),
                wanted@ == name@,
                self.registered().contains_key(name@) == named_map(
                    self.apps@.subrange(0, i as int),
                ).contains_key(name@),
                self.registered().contains_key(name@) ==> self.registered()[name@] == named_map(
                    self.apps@.subrange(0, i as int),
                )[name@],
            decreases i,
        {
            proof {
                lemma_named_map_step(self.apps@, i - 1);
            }
            if self.apps[i - 1].0 == wanted {
                return Some(self.apps[i - 1].1);
            }
            i = i - 1;
        }
        None
    }

    /// Shows the named app and remembers the choice in the store.
    pub fn set_active_app<S: Storage>(&mut self, app_name: &str, storage: &mut SharedStorage<S>)
        ensures
            final(self).active_name() == Some(app_name@),
            final(self).registered() == old(self).registered(),
            final(storage).entries() == old(storage).entries().insert(ACTIVE_APP_KEY@, app_name@),
    {
        storage.set(ACTIVE_APP_KEY, app_name);
        self.active = Some(app_name.to_owned());
    }

    /// Shows no app, and forgets the remembered choice.
    pub fn clear_active_app<S: Storage>(&mut self, storage: &mut SharedStorage<S>)
        ensures
            final(self).active_name() is None,
            final(self).registered() == old(self).registered(),
            final(storage).entries() == old(storage).entries().remove(ACTIVE_APP_KEY@),
    {
        storage.remove(ACTIVE_APP_KEY);
        self.active = None;
    }

    /// The app that is shown, if one is and it is registered.
    pub fn get_active_app(&self) -> (r: Option<C>)
        ensures
            match self.active_name() {
                Some(n) => (r is Some <==> self.registered().contains_key(n)) && (r is Some
                    ==> r->0 == self.registered()[n]),
                None => r is None,
            },
    {
        match &self.active {
            Some(name) => self.get_app(name.as_str()),
            None => None,
        }
    }

    /// Shows again the app that the store remembers, if it remembers one.
    pub fn load_active_app<S: Storage>(&mut self, storage: &SharedStorage<S>)
        ensures
            storage.entries().contains_key(ACTIVE_APP_KEY@) ==> final(self).active_name() == Some(
                storage.entries()[ACTIVE_APP_KEY@],
            ),
            !storage.entries().contains_key(ACTIVE_APP_KEY@) ==> final(self).active_name() == old(self).active_name(),
            final(self).registered() == old(self).registered(),
    {
        match storage.get(ACTIVE_APP_KEY) {
            Some(app_name) => {
                self.active = Some(app_name);
            },
            None => {},
        }
    }
}

} // verus!
