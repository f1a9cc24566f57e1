//! What a provider needs around the lifecycle: its errors, and the
//! environment of a unit.
//!
//! The environment of a unit is resolved from its declared entries.  An
//! entry has a literal value, or a source: a key of a ConfigMap, a key of a
//! Secret, or a field of the workload.  ConfigMaps and Secrets live at the
//! control plane, so the resolution stops where one is needed and names it;
//! the caller fetches it and supplies what came back.

use crate::pod::{
    cloned_or_empty, env_views, opt_source, text_or_empty, Container, EnvVar, EnvVarSource,
    EnvVarSourceView, EnvVarView, KeySelectorView, Pod, PodView,
};
use crate::strmap::{lookup_or_empty, prefixed, StringMap};
use vstd::prelude::*;
use vstd::utf8::{decode_utf8, encode_utf8, valid_utf8};

verus! {

/// An error of a provider.
pub enum ProviderErrorView {
    PodNotFound { pod_name: Seq<char> },
    ContainerNotFound { pod_name: Seq<char>, container_name: Seq<char> },
}

impl ProviderErrorView {
    /// The error in words.
    pub open spec fn message(self) -> Seq<char> {
        match self {
            ProviderErrorView::PodNotFound { pod_name } => "cannot find pod "@ + pod_name,
            ProviderErrorView::ContainerNotFound { pod_name, container_name } => {
                "cannot find container "@ + container_name + " in pod "@ + pod_name
            },
        }
    }
}

/// An error of a provider.
#[derive(Debug)]
pub enum ProviderError {
    /// The pod was not found.
    PodNotFound {
        /// The pod's name.
        pod_name: String,
    },
    /// The container was not found.
    ContainerNotFound {
        /// The name of the container's pod.
        pod_name: String,
        /// The container's name.
        container_name: String,
    },
}

impl View for ProviderError {
    type V = ProviderErrorView;

    open spec fn view(&self) -> ProviderErrorView {
        match self {
            ProviderError::PodNotFound { pod_name } => ProviderErrorView::PodNotFound {
                pod_name: pod_name@,
            },
            ProviderError::ContainerNotFound { pod_name, container_name } => {
                ProviderErrorView::ContainerNotFound {
                    pod_name: pod_name@,
                    container_name: container_name@,
                }
            },
        }
    }
}

impl ProviderError {
    /// The error in words.
    pub fn message(&self) -> (text: String)
        ensures
            text@ == self@.message(),
    {
        match self {
            ProviderError::PodNotFound { pod_name } => String::from_str("cannot find pod ").concat(
                pod_name.as_str(),
            ),
            ProviderError::ContainerNotFound { pod_name, container_name } => String::from_str(
                "cannot find container ",
            ).concat(container_name.as_str()).concat(" in pod ").concat(pod_name.as_str()),
        }
    }
}

/// A specific operation is not implemented.
#[derive(Debug, Clone, Copy, Default)]
pub struct NotImplementedError;

impl NotImplementedError {
    /// The error in words.
    pub open spec fn message_spec() -> Seq<char> {
        "Operation not supported"@
    }

    /// The error in words.
    pub fn message(&self) -> (text: String)
        ensures
            text@ == Self::message_spec(),
    {
        String::from_str("Operation not supported")
    }
}

/// The fields of a workload that an environment entry may refer to, by
/// path: its name, its namespace, its service identity, the addresses of
/// its host and of itself, every label under `metadata.labels.` and every
/// annotation under `metadata.annotations.`.  A field that the workload
/// lacks is empty.  Where two paths coincide the later of this list holds.
pub open spec fn field_map_spec(pod: PodView) -> Map<Seq<char>, Seq<char>> {
    Map::<Seq<char>, Seq<char>>::empty().insert("metadata.name"@, pod.name).insert(
        "metadata.namespace"@,
        pod.namespace,
    ).insert("spec.serviceAccountName"@, text_or_empty(pod.service_account_name)).insert(
        "status.hostIP"@,
        text_or_empty(pod.host_ip),
    ).insert("status.podIP"@, text_or_empty(pod.pod_ip)).union_prefer_right(
        prefixed("metadata.labels."@, pod.labels),
    ).union_prefer_right(prefixed("metadata.annotations."@, pod.annotations))
}

/// Builds the map of the fields that an environment entry may refer to.
pub fn field_map(pod: &Pod) -> (map: StringMap<String>)
    ensures
        map.text() == field_map_spec(pod@),
{
    let mut map: StringMap<String> = StringMap::new();
    assert(map.text() =~= Map::<Seq<char>, Seq<char>>::empty());
    map.insert_text(String::from_str("metadata.name"), pod.name.clone());
    map.insert_text(String::from_str("metadata.namespace"), pod.namespace.clone());
    map.insert_text(
        String::from_str("spec.serviceAccountName"),
        cloned_or_empty(&pod.service_account_name),
    );
    map.insert_text(String::from_str("status.hostIP"), cloned_or_empty(&pod.host_ip));
    map.insert_text(String::from_str("status.podIP"), cloned_or_empty(&pod.pod_ip));
    map.insert_prefixed("metadata.labels.", &pod.labels);
    map.insert_prefixed("metadata.annotations.", &pod.annotations);
    map
}

/// A label of the workload is the field under `metadata.labels.` and the
/// label's key.
pub proof fn law_label_is_a_field(pod: PodView, key: Seq<char>)
    requires
        pod.labels.contains_key(key),
    ensures
        field_map_spec(pod).contains_key("metadata.labels."@ + key),
        field_map_spec(pod)["metadata.labels."@ + key] == pod.labels[key],
{
    let labels = "metadata.labels."@;
    let annotations = "metadata.annotations."@;
    reveal_strlit("metadata.labels.");
    reveal_strlit("metadata.annotations.");
    let path = labels + key;
    assert(path.subrange(0, labels.len() as int) =~= labels);
    assert(path.subrange(labels.len() as int, path.len() as int) =~= key);
    assert(prefixed(labels, pod.labels).contains_key(path));
    assert(!prefixed(annotations, pod.annotations).contains_key(path)) by {
        if path.len() >= annotations.len() && path.subrange(0, annotations.len() as int)
            == annotations {
            assert(path.subrange(0, annotations.len() as int)[9] == path[9]);
            assert(path[9] == labels[9]);
        }
    }
}

/// An annotation of the workload is the field under
/// `metadata.annotations.` and the annotation's key.
pub proof fn law_annotation_is_a_field(pod: PodView, key: Seq<char>)
    requires
        pod.annotations.contains_key(key),
    ensures
        field_map_spec(pod).contains_key("metadata.annotations."@ + key),
        field_map_spec(pod)["metadata.annotations."@ + key] == pod.annotations[key],
{
    let annotations = "metadata.annotations."@;
    let path = annotations + key;
    assert(path.subrange(0, annotations.len() as int) =~= annotations);
    assert(path.subrange(annotations.len() as int, path.len() as int) =~= key);
    assert(prefixed(annotations, pod.annotations).contains_key(path));
}

/// The five fields that every workload has are held under their paths,
/// whatever the labels and annotations of the workload are.
pub proof fn law_fixed_fields(pod: PodView)
    ensures
        field_map_spec(pod).contains_key("metadata.name"@),
        field_map_spec(pod)["metadata.name"@] == pod.name,
        field_map_spec(pod).contains_key("metadata.namespace"@),
        field_map_spec(pod)["metadata.namespace"@] == pod.namespace,
        field_map_spec(pod).contains_key("spec.serviceAccountName"@),
        field_map_spec(pod)["spec.serviceAccountName"@] == text_or_empty(pod.service_account_name),
        field_map_spec(pod).contains_key("status.hostIP"@),
        field_map_spec(pod)["status.hostIP"@] == text_or_empty(pod.host_ip),
        field_map_spec(pod).contains_key("status.podIP"@),
        field_map_spec(pod)["status.podIP"@] == text_or_empty(pod.pod_ip),
{
    reveal_strlit("metadata.labels.");
    reveal_strlit("metadata.annotations.");
    reveal_strlit("metadata.name");
    reveal_strlit("metadata.namespace");
    reveal_strlit("spec.serviceAccountName");
    reveal_strlit("status.hostIP");
    reveal_strlit("status.podIP");
    let labels = "metadata.labels."@;
    let annotations = "metadata.annotations."@;
    let name = "metadata.name"@;
    let namespace = "metadata.namespace"@;
    let account = "spec.serviceAccountName"@;
    let host = "status.hostIP"@;
    let address = "status.podIP"@;
    assert(name[0] != host[0]);
    assert(namespace.len() != name.len() && account.len() != name.len() && address.len()
        != name.len());
    assert(account.len() != namespace.len() && host.len() != namespace.len() && address.len()
        != namespace.len());
    assert(host.len() != account.len() && address.len() != account.len());
    assert(address.len() != host.len());
    assert forall|path: Seq<char>|
        path == name || path == namespace || path == account || path == host || path
            == address implies !prefixed(labels, pod.labels).contains_key(path) && !prefixed(
        annotations,
        pod.annotations,
    ).contains_key(path) by {
        if path.len() >= labels.len() && path.subrange(0, labels.len() as int) == labels {
            assert(path.subrange(0, labels.len() as int)[0] == path[0]);
            assert(path.subrange(0, labels.len() as int)[9] == path[9]);
        }
        if path.len() >= annotations.len() && path.subrange(0, annotations.len() as int)
            == annotations {
            assert(path.subrange(0, annotations.len() as int)[0] == path[0]);
        }
    }
}

/// An entry that refers to the label `key` of the workload, and to no
/// ConfigMap and no Secret, has the label's value, whatever was fetched.
pub proof fn law_label_reference_resolves(pod: PodView, key: Seq<char>, fetched: FetchedView)
    requires
        pod.labels.contains_key(key),
    ensures
        missing_value(
            Some(
                EnvVarSourceView {
                    config_map_key_ref: None,
                    secret_key_ref: None,
                    field_ref: Some("metadata.labels."@ + key),
                },
            ),
            fetched,
            field_map_spec(pod),
        ) == pod.labels[key],
{
    law_label_is_a_field(pod, key);
}

/// An entry that refers to a key which the fetched ConfigMap does not hold
/// has the empty text for its value.
pub proof fn law_missing_config_map_key_is_empty(
    selector: KeySelectorView,
    source: EnvVarSourceView,
    data: Map<Seq<char>, Seq<char>>,
    fields: Map<Seq<char>, Seq<char>>,
)
    requires
        source.config_map_key_ref == Some(selector),
        !data.contains_key(selector.key),
    ensures
        missing_value(Some(source), FetchedView::ConfigMap { data: Some(data) }, fields)
            == Seq::<char>::empty(),
{
}

/// What is to be looked up for an entry that has no literal value.
pub enum EnvLookupView {
    ConfigMap { name: Seq<char>, key: Seq<char> },
    Secret { name: Seq<char>, key: Seq<char> },
    Field { path: Seq<char> },
    Nothing,
}

impl EnvLookupView {
    /// The lookup needs an object of the control plane.
    pub open spec fn needs_fetch(self) -> bool {
        self is ConfigMap || self is Secret
    }
}

/// What is to be looked up for an entry that has no literal value: a key
/// of the ConfigMap `name`, a key of the Secret `name`, both in the
/// workload's namespace, a field of the workload, or nothing.
#[derive(Debug)]
pub enum EnvLookup {
    ConfigMap { name: String, key: String },
    Secret { name: String, key: String },
    Field { path: String },
    Nothing,
}

impl View for EnvLookup {
    type V = EnvLookupView;

    open spec fn view(&self) -> EnvLookupView {
        match self {
            EnvLookup::ConfigMap { name, key } => EnvLookupView::ConfigMap {
                name: name@,
                key: key@,
            },
            EnvLookup::Secret { name, key } => EnvLookupView::Secret { name: name@, key: key@ },
            EnvLookup::Field { path } => EnvLookupView::Field { path: path@ },
            EnvLookup::Nothing => EnvLookupView::Nothing,
        }
    }
}

/// The lookup that a source asks for.  A source may name several things:
/// the ConfigMap goes before the Secret, the Secret before the field.  An
/// object without a name is looked up under the empty name.
pub open spec fn lookup_of(source: Option<EnvVarSourceView>) -> EnvLookupView {
    match source {
        None => EnvLookupView::Nothing,
        Some(s) => match s.config_map_key_ref {
            Some(selector) => EnvLookupView::ConfigMap {
                name: text_or_empty(selector.name),
                key: selector.key,
            },
            None => match s.secret_key_ref {
                Some(selector) => EnvLookupView::Secret {
                    name: text_or_empty(selector.name),
                    key: selector.key,
                },
                None => match s.field_ref {
                    Some(path) => EnvLookupView::Field { path },
                    None => EnvLookupView::Nothing,
                },
            },
        },
    }
}

/// The lookup that a source asks for.
pub fn env_lookup(source: &Option<EnvVarSource>) -> (lookup: EnvLookup)
    ensures
        lookup@ == lookup_of(opt_source(*source)),
{
    match source {
        None => EnvLookup::Nothing,
        Some(s) => match &s.config_map_key_ref {
            Some(selector) => EnvLookup::ConfigMap {
                name: cloned_or_empty(&selector.name),
                key: selector.key.clone(),
            },
            None => match &s.secret_key_ref {
                Some(selector) => EnvLookup::Secret {
                    name: cloned_or_empty(&selector.name),
                    key: selector.key.clone(),
                },
                None => match &s.field_ref {
                    Some(path) => EnvLookup::Field { path: path.clone() },
                    None => EnvLookup::Nothing,
                },
            },
        },
    }
}

/// What the control plane gave for a lookup.
pub enum FetchedView {
    ConfigMap { data: Option<Map<Seq<char>, Seq<char>>> },
    Secret { secret: Option<Map<Seq<char>, Seq<u8>>> },
    Failed,
}

/// What the control plane gave for a lookup: the data of the ConfigMap,
/// the data of the Secret, or an error.
pub enum Fetched {
    ConfigMap { data: Option<StringMap<String>> },
    Secret { secret: Option<StringMap<Vec<u8>>> },
    Failed,
}

/// The bytes of each value of a map of byte strings.
pub open spec fn bytes_of(m: Map<Seq<char>, Vec<u8>>) -> Map<Seq<char>, Seq<u8>> {
    m.map_values(|v: Vec<u8>| v@)
}

impl View for Fetched {
    type V = FetchedView;

    open spec fn view(&self) -> FetchedView {
        match self {
            Fetched::ConfigMap { data } => FetchedView::ConfigMap {
                data: match data {
                    Some(m) => Some(m.text()),
                    None => None,
                },
            },
            Fetched::Secret { secret } => FetchedView::Secret {
                secret: match secret {
                    Some(m) => Some(bytes_of(m@)),
                    None => None,
                },
            },
            Fetched::Failed => FetchedView::Failed,
        }
    }
}

/// The text that a byte string stands for: what it encodes in UTF-8, and
/// nothing where it encodes no text.
pub open spec fn text_of_bytes(bytes: Seq<u8>) -> Seq<char> {
    if valid_utf8(bytes) {
        decode_utf8(bytes)
    } else {
        Seq::empty()
    }
}

/// `String::from_utf8`: the string whose UTF-8 encoding the bytes are, and
/// none where the bytes are no UTF-8 encoding.
#[verifier::external_body]
fn string_from_utf8(bytes: Vec<u8>) -> (text: Option<String>)
    ensures
        text is Some <==> valid_utf8(bytes@),
        text matches Some(t) ==> encode_utf8(t@) == bytes@,
{
    match String::from_utf8(bytes) {
        Ok(t) => Some(t),
        Err(_) => None,
    }
}

/// The text that a byte string stands for.
pub fn bytes_to_text(bytes: Vec<u8>) -> (text: String)
    ensures
        text@ == text_of_bytes(bytes@),
{
    broadcast use vstd::utf8::encode_utf8_decode_utf8;

    match string_from_utf8(bytes) {
        Some(t) => {
            assert(decode_utf8(encode_utf8(t@)) == t@);
            t
        },
        None => String::new(),
    }
}

/// The value of an entry without a literal value.  A key of a ConfigMap
/// gives what the ConfigMap holds under it; a key of a Secret gives the
/// text of what the Secret holds under it; a field gives what the workload
/// has under its path.  Whatever is missing gives the empty text: the
/// source, the object, its data, the key, the field, or text in the bytes.
pub open spec fn missing_value(
    source: Option<EnvVarSourceView>,
    fetched: FetchedView,
    fields: Map<Seq<char>, Seq<char>>,
) -> Seq<char> {
    match lookup_of(source) {
        EnvLookupView::ConfigMap { name, key } => match fetched {
            FetchedView::ConfigMap { data: Some(data) } => lookup_or_empty(data, key),
            _ => Seq::empty(),
        },
        EnvLookupView::Secret { name, key } => match fetched {
            FetchedView::Secret { secret: Some(data) } => if data.contains_key(key) {
                text_of_bytes(data[key])
            } else {
                Seq::empty()
            },
            _ => Seq::empty(),
        },
        EnvLookupView::Field { path } => lookup_or_empty(fields, path),
        EnvLookupView::Nothing => Seq::empty(),
    }
}

/// The value of an entry that has no literal value, given what the
/// control plane gave for the entry's lookup.  Where the lookup needs no
/// object of the control plane, `fetched` is not looked at.
pub fn on_missing_env_value(
    source: &Option<EnvVarSource>,
    fetched: &Fetched,
    fields: &StringMap<String>,
) -> (value: String)
    ensures
        value@ == missing_value(opt_source(*source), fetched@, fields.text()),
{
    match env_lookup(source) {
        EnvLookup::ConfigMap { name, key } => match fetched {
            Fetched::ConfigMap { data: Some(data) } => data.get_or_empty(&key),
            _ => String::new(),
        },
        EnvLookup::Secret { name, key } => match fetched {
            Fetched::Secret { secret: Some(data) } => match data.get(&key) {
                Some(bytes) => {
                    let copy = bytes.clone();
                    assert(copy@ == bytes@);
                    bytes_to_text(copy)
                },
                None => String::new(),
            },
            _ => String::new(),
        },
        EnvLookup::Field { path } => fields.get_or_empty(&path),
        EnvLookup::Nothing => String::new(),
    }
}

/// The value of an entry: its literal value, or the value that its source
/// gives.
pub open spec fn entry_value(
    var: EnvVarView,
    fetched: FetchedView,
    fields: Map<Seq<char>, Seq<char>>,
) -> Seq<char> {
    match var.value {
        Some(value) => value,
        None => missing_value(var.value_from, fetched, fields),
    }
}

/// The entry has no literal value and its source names an object of the
/// control plane.
pub open spec fn entry_needs_fetch(var: EnvVarView) -> bool {
    var.value is None && lookup_of(var.value_from).needs_fetch()
}

/// How far the resolution of an environment has come.
pub enum EnvStepView {
    Done { env: Map<Seq<char>, Seq<char>> },
    Fetch { lookup: EnvLookupView, cursor: nat, env: Map<Seq<char>, Seq<char>> },
}

/// A resolution that waits for an object of the control plane: the entries
/// before `cursor` are resolved, and the entry at `cursor` needs the object.
pub struct EnvPending {
    cursor: usize,
    env: StringMap<String>,
}

/// How far the resolution of an environment has come: it is done, or it
/// needs what `lookup` names before it can go on.
pub enum EnvStep {
    Done { env: StringMap<String> },
    Fetch { lookup: EnvLookup, pending: EnvPending },
}

impl View for EnvStep {
    type V = EnvStepView;

    closed spec fn view(&self) -> EnvStepView {
        match self {
            EnvStep::Done { env } => EnvStepView::Done { env: env.text() },
            EnvStep::Fetch { lookup, pending } => EnvStepView::Fetch {
                lookup: lookup@,
                cursor: pending.cursor as nat,
                env: pending.env.text(),
            },
        }
    }
}

/// Resolves the entries from `cursor` on, each into `env` under its name,
/// up to the first that needs an object of the control plane.
pub open spec fn resolve_from(
    vars: Seq<EnvVarView>,
    fields: Map<Seq<char>, Seq<char>>,
    cursor: nat,
    env: Map<Seq<char>, Seq<char>>,
) -> EnvStepView
    decreases vars.len() - cursor,
{
    if cursor >= vars.len() {
        EnvStepView::Done { env }
    } else if entry_needs_fetch(vars[cursor as int]) {
        EnvStepView::Fetch { lookup: lookup_of(vars[cursor as int].value_from), cursor, env }
    } else {
        resolve_from(
            vars,
            fields,
            cursor + 1,
            env.insert(
                vars[cursor as int].name,
                entry_value(vars[cursor as int], FetchedView::Failed, fields),
            ),
        )
    }
}

/// Resolves the entry at `cursor` with what was fetched for it, and goes
/// on with the entries after it.
pub open spec fn supply_spec(
    vars: Seq<EnvVarView>,
    fields: Map<Seq<char>, Seq<char>>,
    cursor: nat,
    env: Map<Seq<char>, Seq<char>>,
    fetched: FetchedView,
) -> EnvStepView {
    if cursor < vars.len() {
        resolve_from(
            vars,
            fields,
            cursor + 1,
            env.insert(vars[cursor as int].name, entry_value(vars[cursor as int], fetched, fields)),
        )
    } else {
        EnvStepView::Done { env }
    }
}

/// The environment of the first `n` entries, where `oracle` says what the
/// control plane gives for each lookup.  An entry replaces an earlier one
/// of the same name.
pub open spec fn env_of(
    vars: Seq<EnvVarView>,
    fields: Map<Seq<char>, Seq<char>>,
    oracle: spec_fn(EnvLookupView) -> FetchedView,
    n: nat,
) -> Map<Seq<char>, Seq<char>>
    decreases n,
{
    if n == 0 {
        Map::empty()
    } else {
        let var = vars[n - 1];
        env_of(vars, fields, oracle, (n - 1) as nat).insert(
            var.name,
            entry_value(var, oracle(lookup_of(var.value_from)), fields),
        )
    }
}

/// A resolution that is carried from the environment of the first `cursor`
/// entries ends with the environment of all entries, if every object that
/// it stops for is supplied as the oracle gives it.
pub proof fn law_resolution_follows_the_entries(
    vars: Seq<EnvVarView>,
    fields: Map<Seq<char>, Seq<char>>,
    oracle: spec_fn(EnvLookupView) -> FetchedView,
    cursor: nat,
)
    requires
        cursor <= vars.len(),
    ensures
        match resolve_from(vars, fields, cursor, env_of(vars, fields, oracle, cursor)) {
            EnvStepView::Done { env } => env == env_of(vars, fields, oracle, vars.len()),
            EnvStepView::Fetch { lookup, cursor: at, env } => {
                &&& cursor <= at < vars.len()
                &&& lookup == lookup_of(vars[at as int].value_from)
                &&& lookup.needs_fetch()
                &&& env == env_of(vars, fields, oracle, at)
                &&& supply_spec(vars, fields, at, env, oracle(lookup)) == resolve_from(
                    vars,
                    fields,
                    at + 1,
                    env_of(vars, fields, oracle, at + 1),
                )
            },
        },
    decreases vars.len() - cursor,
{
    if cursor < vars.len() {
        let var = vars[cursor as int];
        if !entry_needs_fetch(var) {
            assert(entry_value(var, FetchedView::Failed, fields) == entry_value(
                var,
                oracle(lookup_of(var.value_from)),
                fields,
            ));
            law_resolution_follows_the_entries(vars, fields, oracle, cursor + 1);
        }
    }
}

/// The views of the declared entries of a unit.
pub open spec fn declared_env(container: &Container) -> Seq<EnvVarView> {
    env_views(container.env)
}

fn resolve(
    vars: &Vec<EnvVar>,
    fields: &StringMap<String>,
    cursor: usize,
    resolved: StringMap<String>,
) -> (step: EnvStep)
    requires
        cursor <= vars@.len(),
    ensures
        step@ == resolve_from(
            vars@.map_values(|v: EnvVar| v@),
            fields.text(),
            cursor as nat,
            resolved.text(),
        ),
{
    let ghost views = vars@.map_values(|v: EnvVar| v@);
    let ghost start = resolved.text();
    let mut env = resolved;
    let mut i = cursor;
    while i < vars.len()
        invariant
            i <= vars@.len(),
            views == vars@.map_values(|v: EnvVar| v@),
            start == resolved.text(),
            resolve_from(views, fields.text(), i as nat, env.text()) == resolve_from(
                views,
                fields.text(),
                cursor as nat,
                start,
            ),
        decreases vars@.len() - i,
    {
        let var = &vars[i];
        assert(views[i as int] == var@);
        match &var.value {
            Some(value) => {
                env.insert_text(var.name.clone(), value.clone());
            },
            None => {
                let lookup = env_lookup(&var.value_from);
                match lookup {
                    EnvLookup::ConfigMap { .. } | EnvLookup::Secret { .. } => {
                        assert(entry_needs_fetch(views[i as int]));
                        let step = EnvStep::Fetch { lookup, pending: EnvPending { cursor: i, env } };
                        assert(step@ == resolve_from(views, fields.text(), i as nat, env.text()));
                        return step;
                    },
                    _ => {
                        let value = on_missing_env_value(&var.value_from, &Fetched::Failed, fields);
                        env.insert_text(var.name.clone(), value);
                    },
                }
            },
        }
        i += 1;
    }
    EnvStep::Done { env }
}

/// Resolves the environment of a unit as far as it can be resolved with
/// the manifest alone.
pub fn env_vars(container: &Container, pod: &Pod) -> (step: EnvStep)
    ensures
        step@ == resolve_from(declared_env(container), field_map_spec(pod@), 0, Map::empty()),
{
    let env: StringMap<String> = StringMap::new();
    assert(env.text() =~= Map::<Seq<char>, Seq<char>>::empty());
    match &container.env {
        None => EnvStep::Done { env },
        Some(vars) => {
            let fields = field_map(pod);
            resolve(vars, &fields, 0, env)
        },
    }
}

impl EnvPending {
    /// The number of the entry that waits for an object.
    pub closed spec fn cursor(&self) -> nat {
        self.cursor as nat
    }

    /// The environment of the entries before it.
    pub closed spec fn env(&self) -> Map<Seq<char>, Seq<char>> {
        self.env.text()
    }

    /// Goes on with what the control plane gave for the lookup that the
    /// resolution stopped for.  `container` and `pod` are those of the call
    /// that began the resolution.
    pub fn supply(self, container: &Container, pod: &Pod, fetched: Fetched) -> (step: EnvStep)
        ensures
            step@ == supply_spec(
                declared_env(container),
                field_map_spec(pod@),
                self.cursor(),
                self.env(),
                fetched@,
            ),
    {
        let mut env = self.env;
        match &container.env {
            None => EnvStep::Done { env },
            Some(vars) => {
                if self.cursor < vars.len() {
                    let fields = field_map(pod);
                    let var = &vars[self.cursor];
                    let value = match &var.value {
                        Some(value) => value.clone(),
                        None => on_missing_env_value(&var.value_from, &fetched, &fields),
                    };
                    env.insert_text(var.name.clone(), value);
                    resolve(vars, &fields, self.cursor + 1, env)
                } else {
                    EnvStep::Done { env }
                }
            },
        }
    }
}

} // verus!
