//! The record of the workers that were spawned for a workload.
//!
//! A worker is known to the library by the number that the runtime gave it.
//! The record maps the key of each unit to the number of its latest worker.
//! Entries are added and replaced, never removed.

use crate::pod::{ContainerKey, UnitKey};
use crate::provider::{ProviderError, ProviderErrorView};
use crate::strmap::StringMap;
use vstd::prelude::*;

verus! {

/// Entry `j` of `entries` is held by `map`, with `handle` as its value.
spec fn listed(
    map: Map<Seq<char>, u64>,
    entries: Seq<(String, u64)>,
    j: int,
    handle: u64,
) -> bool {
    map.contains_key(entries[j].0@) && map[entries[j].0@] == handle
}

/// The number by which the runtime knows a worker.
pub type HandleId = u64;

/// The handles of a workload's units, by key.
pub struct UnitHandleSet {
    init: StringMap<HandleId>,
    app: StringMap<HandleId>,
}

impl View for UnitHandleSet {
    type V = Map<UnitKey, HandleId>;

    closed spec fn view(&self) -> Map<UnitKey, HandleId> {
        Map::new(
            |k: UnitKey|
                match k {
                    UnitKey::Init(name) => self.init@.contains_key(name),
                    UnitKey::App(name) => self.app@.contains_key(name),
                },
            |k: UnitKey|
                match k {
                    UnitKey::Init(name) => self.init@[name],
                    UnitKey::App(name) => self.app@[name],
                },
        )
    }
}

impl UnitHandleSet {
    /// The record of init units alone, by name.
    pub closed spec fn init_units(&self) -> Map<Seq<char>, HandleId> {
        self.init@
    }

    /// The record of application units alone, by name.
    pub closed spec fn app_units(&self) -> Map<Seq<char>, HandleId> {
        self.app@
    }

    /// The whole record is its two parts.
    pub proof fn lemma_parts(&self)
        ensures
            forall|name: Seq<char>|
                self@.contains_key(UnitKey::Init(name)) == self.init_units().contains_key(name),
            forall|name: Seq<char>|
                self@.contains_key(UnitKey::App(name)) == self.app_units().contains_key(name),
            forall|name: Seq<char>|
                self.init_units().contains_key(name) ==> self@[UnitKey::Init(name)]
                    == self.init_units()[name],
            forall|name: Seq<char>|
                self.app_units().contains_key(name) ==> self@[UnitKey::App(name)]
                    == self.app_units()[name],
    {
    }

    /// The empty record.
    pub fn new() -> (set: Self)
        ensures
            set@ == Map::<UnitKey, HandleId>::empty(),
    {
        let set = UnitHandleSet { init: StringMap::new(), app: StringMap::new() };
        assert(set@ =~= Map::<UnitKey, HandleId>::empty());
        set
    }

    /// Records `handle` under `key`, in place of the handle that was there,
    /// if any.
    pub fn insert(&mut self, key: ContainerKey, handle: HandleId)
        ensures
            final(self)@ == old(self)@.insert(key@, handle),
    {
        match key {
            ContainerKey::Init(name) => {
                self.init.insert(name, handle);
            },
            ContainerKey::App(name) => {
                self.app.insert(name, handle);
            },
        }
        assert(self@ =~= old(self)@.insert(key@, handle));
    }

    /// The handle recorded under `key`, if there is one.
    pub fn get(&self, key: &ContainerKey) -> (found: Option<HandleId>)
        ensures
            match found {
                Some(handle) => self@.contains_key(key@) && self@[key@] == handle,
                None => !self@.contains_key(key@),
            },
    {
        let held = match key {
            ContainerKey::Init(name) => self.init.get(name),
            ContainerKey::App(name) => self.app.get(name),
        };
        match held {
            Some(handle) => Some(*handle),
            None => None,
        }
    }

    /// A copy of the record.
    pub fn snapshot(&self) -> (copy: Self)
        ensures
            copy@ == self@,
    {
        let copy = UnitHandleSet { init: self.init.snapshot(), app: self.app.snapshot() };
        assert(copy@ =~= self@);
        copy
    }

    /// The number of init units on record.
    pub fn init_len(&self) -> (n: usize)
        ensures
            n == self.init_units().len(),
    {
        self.init.len()
    }

    /// The number of application units on record.
    pub fn app_len(&self) -> (n: usize)
        ensures
            n == self.app_units().len(),
    {
        self.app.len()
    }

    /// The handles on record: one for each unit, and none that is not
    /// recorded for a unit.
    pub fn handles(&self) -> (all: Vec<HandleId>)
        ensures
            all@.len() == self.init_units().len() + self.app_units().len(),
            forall|i: int| 0 <= i < all@.len() ==> self@.values().contains(#[trigger] all@[i]),
            forall|k: UnitKey| self@.contains_key(k) ==> all@.contains(#[trigger] self@[k]),
    {
        let mut all: Vec<HandleId> = Vec::new();
        let n = self.init.len();
        let m = self.app.len();
        let mut i: usize = 0;
        while i < n
            invariant
                n == self.init.entries().len(),
                i <= n,
                all@.len() == i,
                forall|j: int|
                    0 <= j < i ==> listed(self.init@, self.init.entries(), j, #[trigger] all@[j]),
            decreases n - i,
        {
            let handle = *self.init.value_at(i);
            let ghost before = all@;
            all.push(handle);
            assert forall|j: int| 0 <= j < i + 1 implies listed(
                self.init@,
                self.init.entries(),
                j,
                #[trigger] all@[j],
            ) by {
                if j < i {
                    assert(all@[j] == before[j]);
                }
            }
            i += 1;
        }
        let ghost first = all@;
        let mut k: usize = 0;
        while k < m
            invariant
                n == self.init.entries().len(),
                m == self.app.entries().len(),
                k <= m,
                all@.len() == n + k,
                first.len() == n,
                forall|j: int| 0 <= j < n ==> all@[j] == first[j],
                forall|j: int|
                    n <= j < n + k ==> listed(
                        self.app@,
                        self.app.entries(),
                        j - n,
                        #[trigger] all@[j],
                    ),
            decreases m - k,
        {
            let handle = *self.app.value_at(k);
            let ghost before = all@;
            all.push(handle);
            assert forall|j: int| n <= j < n + k + 1 implies listed(
                self.app@,
                self.app.entries(),
                j - n,
                #[trigger] all@[j],
            ) by {
                if j < n + k {
                    assert(all@[j] == before[j]);
                }
            }
            k += 1;
        }
        assert forall|j: int| 0 <= j < n implies listed(
            self.init@,
            self.init.entries(),
            j,
            #[trigger] all@[j],
        ) by {
            assert(all@[j] == first[j]);
        }
        proof {
            self.init.lemma_entries();
            self.app.lemma_entries();
            assert forall|i: int| 0 <= i < all@.len() implies self@.values().contains(
                #[trigger] all@[i],
            ) by {
                if i < n {
                    let key = UnitKey::Init(self.init.entries()[i].0@);
                    assert(listed(self.init@, self.init.entries(), i, all@[i]));
                    assert(self@.contains_key(key) && self@[key] == all@[i]);
                } else {
                    let key = UnitKey::App(self.app.entries()[i - n].0@);
                    assert(listed(self.app@, self.app.entries(), i - n, all@[i]));
                    assert(self@.contains_key(key) && self@[key] == all@[i]);
                }
            }
            assert forall|k: UnitKey| self@.contains_key(k) implies all@.contains(
                #[trigger] self@[k],
            ) by {
                match k {
                    UnitKey::Init(name) => {
                        let j = choose|j: int|
                            crate::strmap::key_position(self.init.entries(), name, j);
                        assert(listed(self.init@, self.init.entries(), j, all@[j]));
                        assert(all@[j] == self@[k]);
                    },
                    UnitKey::App(name) => {
                        let j = choose|j: int|
                            crate::strmap::key_position(self.app.entries(), name, j);
                        assert(listed(self.app@, self.app.entries(), j, all@[n + j]));
                        assert(all@[n + j] == self@[k]);
                    },
                }
            }
        }
        all
    }
}

/// The identity of a workload: its namespace and its name.
pub type PodKeyView = (Seq<char>, Seq<char>);

/// The handles of a unit of `name`, whatever its role: those of the
/// application unit go before those of the init unit.
pub open spec fn handle_of_unit(handles: Map<UnitKey, HandleId>, name: Seq<char>) -> Option<
    HandleId,
> {
    if handles.contains_key(UnitKey::App(name)) {
        Some(handles[UnitKey::App(name)])
    } else if handles.contains_key(UnitKey::Init(name)) {
        Some(handles[UnitKey::Init(name)])
    } else {
        None
    }
}

/// What a look into the table gives: the handle of the named unit of the
/// workload, or the error that says what is not on record.
pub open spec fn find_spec(
    table: Map<PodKeyView, Map<UnitKey, HandleId>>,
    namespace: Seq<char>,
    pod_name: Seq<char>,
    container_name: Seq<char>,
) -> Result<HandleId, ProviderErrorView> {
    if !table.contains_key((namespace, pod_name)) {
        Err(ProviderErrorView::PodNotFound { pod_name })
    } else {
        match handle_of_unit(table[(namespace, pod_name)], container_name) {
            Some(handle) => Ok(handle),
            None => Err(ProviderErrorView::ContainerNotFound { pod_name, container_name }),
        }
    }
}

/// The handle or the error, with the error as its view.
pub open spec fn found_view(found: Result<HandleId, ProviderError>) -> Result<
    HandleId,
    ProviderErrorView,
> {
    match found {
        Ok(handle) => Ok(handle),
        Err(error) => Err(error@),
    }
}

/// The table of the node agent: for every workload that published them,
/// the handles of its units.  What is entered stays; a workload that
/// publishes again replaces its own entry.
pub struct HandleTable {
    namespaces: StringMap<StringMap<UnitHandleSet>>,
}

impl View for HandleTable {
    type V = Map<PodKeyView, Map<UnitKey, HandleId>>;

    closed spec fn view(&self) -> Map<PodKeyView, Map<UnitKey, HandleId>> {
        Map::new(
            |k: PodKeyView|
                self.namespaces@.contains_key(k.0) && self.namespaces@[k.0]@.contains_key(k.1),
            |k: PodKeyView| self.namespaces@[k.0]@[k.1]@,
        )
    }
}

impl HandleTable {
    /// The empty table.
    pub fn new() -> (table: Self)
        ensures
            table@ == Map::<PodKeyView, Map<UnitKey, HandleId>>::empty(),
    {
        let table = HandleTable { namespaces: StringMap::new() };
        assert(table@ =~= Map::<PodKeyView, Map<UnitKey, HandleId>>::empty());
        table
    }

    /// Enters the handles of the workload `name` of `namespace`, in place
    /// of those that were entered for it before, if any.
    pub fn insert(&mut self, namespace: String, name: String, handles: UnitHandleSet)
        ensures
            final(self)@ == old(self)@.insert((namespace@, name@), handles@),
    {
        let mut pods = match self.namespaces.remove(&namespace) {
            Some(pods) => pods,
            None => StringMap::new(),
        };
        pods.insert(name, handles);
        self.namespaces.insert(namespace, pods);
        assert(self@ =~= old(self)@.insert((namespace@, name@), handles@));
    }

    /// The handle of the unit `container_name` of the workload `pod_name`
    /// of `namespace`.
    pub fn find(&self, namespace: &String, pod_name: &String, container_name: &String) -> (found:
        Result<HandleId, ProviderError>)
        ensures
            found_view(found) == find_spec(self@, namespace@, pod_name@, container_name@),
    {
        let pods = match self.namespaces.get(namespace) {
            Some(pods) => pods,
            None => {
                return Err(ProviderError::PodNotFound { pod_name: pod_name.clone() });
            },
        };
        let handles = match pods.get(pod_name) {
            Some(handles) => handles,
            None => {
                return Err(ProviderError::PodNotFound { pod_name: pod_name.clone() });
            },
        };
        match handles.get(&ContainerKey::App(container_name.clone())) {
            Some(handle) => Ok(handle),
            None => match handles.get(&ContainerKey::Init(container_name.clone())) {
                Some(handle) => Ok(handle),
                None => Err(
                    ProviderError::ContainerNotFound {
                        pod_name: pod_name.clone(),
                        container_name: container_name.clone(),
                    },
                ),
            },
        }
    }
}

} // verus!
