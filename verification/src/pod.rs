//! The workload manifest: a pod, its units and their declared environment.
//!
//! A manifest is a snapshot.  The lifecycle reads it and never edits it.

use crate::strmap::StringMap;
use vstd::prelude::*;

verus! {

/// The text of an optional string.
pub open spec fn opt_text(text: Option<String>) -> Option<Seq<char>> {
    match text {
        Some(t) => Some(t@),
        None => None,
    }
}

/// The text of an optional string, empty where there is none.
pub open spec fn text_or_empty(text: Option<Seq<char>>) -> Seq<char> {
    match text {
        Some(t) => t,
        None => Seq::empty(),
    }
}

/// A copy of an optional string, empty where there is none.
pub fn cloned_or_empty(text: &Option<String>) -> (copy: String)
    ensures
        copy@ == text_or_empty(opt_text(*text)),
{
    match text {
        Some(t) => t.clone(),
        None => String::new(),
    }
}

/// What identifies a unit within its workload: its role and its name.
pub enum UnitKey {
    Init(Seq<char>),
    App(Seq<char>),
}

/// The key of a unit: an init unit or an application unit, by name.
#[derive(Debug, Clone)]
pub enum ContainerKey {
    Init(String),
    App(String),
}

impl View for ContainerKey {
    type V = UnitKey;

    open spec fn view(&self) -> UnitKey {
        match self {
            ContainerKey::Init(name) => UnitKey::Init(name@),
            ContainerKey::App(name) => UnitKey::App(name@),
        }
    }
}

impl ContainerKey {
    /// The unit's name.
    pub fn name(&self) -> (name: &String)
        ensures
            name@ == match self@ {
                UnitKey::Init(n) => n,
                UnitKey::App(n) => n,
            },
    {
        match self {
            ContainerKey::Init(name) => name,
            ContainerKey::App(name) => name,
        }
    }

    /// Whether the unit is an init unit.
    pub fn is_init(&self) -> (init: bool)
        ensures
            init == (self@ is Init),
    {
        match self {
            ContainerKey::Init(_) => true,
            ContainerKey::App(_) => false,
        }
    }
}

/// A reference to one key of a named object: of a ConfigMap or of a Secret.
pub struct KeySelectorView {
    pub name: Option<Seq<char>>,
    pub key: Seq<char>,
}

/// A reference to one key of a named object: of a ConfigMap or of a Secret.
#[derive(Debug, Clone)]
pub struct KeySelector {
    pub name: Option<String>,
    pub key: String,
}

impl View for KeySelector {
    type V = KeySelectorView;

    open spec fn view(&self) -> KeySelectorView {
        KeySelectorView { name: opt_text(self.name), key: self.key@ }
    }
}

/// Where the value of an environment entry comes from.
pub struct EnvVarSourceView {
    pub config_map_key_ref: Option<KeySelectorView>,
    pub secret_key_ref: Option<KeySelectorView>,
    pub field_ref: Option<Seq<char>>,
}

/// Where the value of an environment entry comes from: a key of a
/// ConfigMap, a key of a Secret, or a field of the workload itself, given
/// by its path.
#[derive(Debug, Clone)]
pub struct EnvVarSource {
    pub config_map_key_ref: Option<KeySelector>,
    pub secret_key_ref: Option<KeySelector>,
    pub field_ref: Option<String>,
}

/// The view of an optional key reference.
pub open spec fn opt_selector(selector: Option<KeySelector>) -> Option<KeySelectorView> {
    match selector {
        Some(s) => Some(s@),
        None => None,
    }
}

impl View for EnvVarSource {
    type V = EnvVarSourceView;

    open spec fn view(&self) -> EnvVarSourceView {
        EnvVarSourceView {
            config_map_key_ref: opt_selector(self.config_map_key_ref),
            secret_key_ref: opt_selector(self.secret_key_ref),
            field_ref: opt_text(self.field_ref),
        }
    }
}

/// A declared environment entry.
pub struct EnvVarView {
    pub name: Seq<char>,
    pub value: Option<Seq<char>>,
    pub value_from: Option<EnvVarSourceView>,
}

/// A declared environment entry: a name with a literal value, or with a
/// source to take the value from.
#[derive(Debug, Clone)]
pub struct EnvVar {
    pub name: String,
    pub value: Option<String>,
    pub value_from: Option<EnvVarSource>,
}

/// The view of an optional source.
pub open spec fn opt_source(source: Option<EnvVarSource>) -> Option<EnvVarSourceView> {
    match source {
        Some(s) => Some(s@),
        None => None,
    }
}

impl View for EnvVar {
    type V = EnvVarView;

    open spec fn view(&self) -> EnvVarView {
        EnvVarView {
            name: self.name@,
            value: opt_text(self.value),
            value_from: opt_source(self.value_from),
        }
    }
}

/// The views of the entries of a declared environment.
pub open spec fn env_views(env: Option<Vec<EnvVar>>) -> Seq<EnvVarView> {
    match env {
        Some(vars) => vars@.map_values(|v: EnvVar| v@),
        None => Seq::empty(),
    }
}

/// A unit of a workload.
pub struct ContainerView {
    pub name: Seq<char>,
    pub image: Option<Seq<char>>,
    pub env: Seq<EnvVarView>,
}

/// A unit of a workload: a container, by name, with its image and its
/// declared environment.
#[derive(Debug, Clone)]
pub struct Container {
    pub name: String,
    pub image: Option<String>,
    pub env: Option<Vec<EnvVar>>,
}

impl View for Container {
    type V = ContainerView;

    open spec fn view(&self) -> ContainerView {
        ContainerView { name: self.name@, image: opt_text(self.image), env: env_views(self.env) }
    }
}

/// The names of a list of units, in order.
pub open spec fn unit_names(units: Seq<Container>) -> Seq<Seq<char>> {
    units.map_values(|c: Container| c.name@)
}

/// A workload manifest.
pub struct PodView {
    pub name: Seq<char>,
    pub namespace: Seq<char>,
    pub service_account_name: Option<Seq<char>>,
    pub host_ip: Option<Seq<char>>,
    pub pod_ip: Option<Seq<char>>,
    pub labels: Map<Seq<char>, Seq<char>>,
    pub annotations: Map<Seq<char>, Seq<char>>,
    pub init_containers: Seq<Seq<char>>,
    pub containers: Seq<Seq<char>>,
}

/// A workload manifest: identity, service identity, addresses, labels and
/// annotations, and the units in the order in which they are declared.
pub struct Pod {
    pub name: String,
    pub namespace: String,
    pub service_account_name: Option<String>,
    pub host_ip: Option<String>,
    pub pod_ip: Option<String>,
    pub labels: StringMap<String>,
    pub annotations: StringMap<String>,
    pub init_containers: Vec<Container>,
    pub containers: Vec<Container>,
}

impl View for Pod {
    type V = PodView;

    /// The manifest as the lifecycle reads it: of the units, their names.
    open spec fn view(&self) -> PodView {
        PodView {
            name: self.name@,
            namespace: self.namespace@,
            service_account_name: opt_text(self.service_account_name),
            host_ip: opt_text(self.host_ip),
            pod_ip: opt_text(self.pod_ip),
            labels: self.labels.text(),
            annotations: self.annotations.text(),
            init_containers: unit_names(self.init_containers@),
            containers: unit_names(self.containers@),
        }
    }
}

impl Pod {
    /// A manifest with the given identity and nothing else.
    pub fn new(namespace: String, name: String) -> (pod: Pod)
        ensures
            pod@ == (PodView {
                name: name@,
                namespace: namespace@,
                service_account_name: None,
                host_ip: None,
                pod_ip: None,
                labels: Map::empty(),
                annotations: Map::empty(),
                init_containers: Seq::empty(),
                containers: Seq::empty(),
            }),
    {
        let pod = Pod {
            name,
            namespace,
            service_account_name: None,
            host_ip: None,
            pod_ip: None,
            labels: StringMap::new(),
            annotations: StringMap::new(),
            init_containers: Vec::new(),
            containers: Vec::new(),
        };
        assert(pod.labels.text() =~= Map::empty());
        assert(pod.annotations.text() =~= Map::empty());
        assert(unit_names(pod.init_containers@) =~= Seq::empty());
        assert(unit_names(pod.containers@) =~= Seq::empty());
        pod
    }

    /// The name of the init unit at `index`.
    pub fn init_container_name(&self, index: usize) -> (name: String)
        requires
            index < self@.init_containers.len(),
        ensures
            name@ == self@.init_containers[index as int],
    {
        self.init_containers[index].name.clone()
    }

    /// The name of the application unit at `index`.
    pub fn container_name(&self, index: usize) -> (name: String)
        requires
            index < self@.containers.len(),
        ensures
            name@ == self@.containers[index as int],
    {
        self.containers[index].name.clone()
    }

    /// Whether an application unit of that name is declared.
    pub fn has_container(&self, name: &String) -> (declared: bool)
        ensures
            declared == self@.containers.contains(name@),
    {
        let mut i: usize = 0;
        while i < self.containers.len()
            invariant
                i <= self.containers@.len(),
                forall|j: int| 0 <= j < i ==> self@.containers[j] != name@,
            decreases self.containers@.len() - i,
        {
            if self.containers[i].name == *name {
                assert(self@.containers[i as int] == name@);
                return true;
            }
            i += 1;
        }
        false
    }
}

} // verus!
