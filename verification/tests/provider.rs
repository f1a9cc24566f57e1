use pod_lifecycle::pod::{Container, EnvVar, EnvVarSource, KeySelector, Pod};
use pod_lifecycle::provider::{
    bytes_to_text, env_lookup, env_vars, field_map, on_missing_env_value, EnvLookup, EnvStep,
    Fetched, NotImplementedError, ProviderError,
};
use pod_lifecycle::strmap::StringMap;

fn s(text: &str) -> String {
    text.to_string()
}

fn web_pod() -> Pod {
    let mut pod = Pod::new(s("prod"), s("web-0"));
    pod.service_account_name = Some(s("builder"));
    pod.host_ip = Some(s("10.0.0.1"));
    pod.labels.insert_text(s("app"), s("web"));
    pod.labels.insert_text(s("tier"), s("front"));
    pod.annotations.insert_text(s("owner"), s("team-a"));
    pod
}

fn literal(name: &str, value: &str) -> EnvVar {
    EnvVar { name: s(name), value: Some(s(value)), value_from: None }
}

fn from_field(name: &str, path: &str) -> EnvVar {
    EnvVar {
        name: s(name),
        value: None,
        value_from: Some(EnvVarSource {
            config_map_key_ref: None,
            secret_key_ref: None,
            field_ref: Some(s(path)),
        }),
    }
}

fn from_config_map(name: &str, object: Option<&str>, key: &str) -> EnvVar {
    EnvVar {
        name: s(name),
        value: None,
        value_from: Some(EnvVarSource {
            config_map_key_ref: Some(KeySelector { name: object.map(s), key: s(key) }),
            secret_key_ref: None,
            field_ref: None,
        }),
    }
}

fn from_secret(name: &str, object: &str, key: &str) -> EnvVar {
    EnvVar {
        name: s(name),
        value: None,
        value_from: Some(EnvVarSource {
            config_map_key_ref: None,
            secret_key_ref: Some(KeySelector { name: Some(s(object)), key: s(key) }),
            field_ref: None,
        }),
    }
}

fn unit(env: Option<Vec<EnvVar>>) -> Container {
    Container { name: s("main"), image: Some(s("img")), env }
}

fn done(step: EnvStep) -> StringMap<String> {
    match step {
        EnvStep::Done { env } => env,
        EnvStep::Fetch { .. } => panic!("the resolution waits for an object"),
    }
}

#[test]
fn field_map_holds_the_fixed_fields() {
    let map = field_map(&web_pod());
    assert_eq!(map.get_or_empty(&s("metadata.name")), "web-0");
    assert_eq!(map.get_or_empty(&s("metadata.namespace")), "prod");
    assert_eq!(map.get_or_empty(&s("spec.serviceAccountName")), "builder");
    assert_eq!(map.get_or_empty(&s("status.hostIP")), "10.0.0.1");
    assert!(map.contains_key(&s("status.podIP")));
    assert_eq!(map.get_or_empty(&s("status.podIP")), "");
}

#[test]
fn field_map_holds_labels_and_annotations_under_their_prefixes() {
    let map = field_map(&web_pod());
    assert_eq!(map.get_or_empty(&s("metadata.labels.app")), "web");
    assert_eq!(map.get_or_empty(&s("metadata.labels.tier")), "front");
    assert_eq!(map.get_or_empty(&s("metadata.annotations.owner")), "team-a");
    assert!(!map.contains_key(&s("metadata.labels.owner")));
    assert!(!map.contains_key(&s("app")));
    assert_eq!(map.len(), 8);
}

#[test]
fn field_map_of_a_bare_pod_has_five_fields() {
    let map = field_map(&Pod::new(s("ns"), s("p")));
    assert_eq!(map.len(), 5);
    assert_eq!(map.get_or_empty(&s("spec.serviceAccountName")), "");
}

#[test]
fn downward_api_label_resolves_to_its_value() {
    let container = unit(Some(vec![from_field("APP", "metadata.labels.app")]));
    let env = done(env_vars(&container, &web_pod()));
    assert_eq!(env.get(&s("APP")), Some(&s("web")));
    assert_eq!(env.len(), 1);
}

#[test]
fn missing_config_map_key_resolves_to_empty_text() {
    let container = unit(Some(vec![from_config_map("COLOR", Some("settings"), "color")]));
    let pod = web_pod();
    match env_vars(&container, &pod) {
        EnvStep::Fetch { lookup, pending } => {
            match lookup {
                EnvLookup::ConfigMap { name, key } => {
                    assert_eq!(name, "settings");
                    assert_eq!(key, "color");
                }
                _ => panic!("another lookup"),
            }
            let mut data: StringMap<String> = StringMap::new();
            data.insert_text(s("shape"), s("round"));
            let env = done(pending.supply(
                &container,
                &pod,
                Fetched::ConfigMap { data: Some(data) },
            ));
            assert_eq!(env.get(&s("COLOR")), Some(&s("")));
        }
        EnvStep::Done { .. } => panic!("nothing was asked for"),
    }
}

#[test]
fn config_map_key_resolves_to_its_value() {
    let container = unit(Some(vec![
        literal("A", "1"),
        from_config_map("COLOR", Some("settings"), "color"),
        from_field("NS", "metadata.namespace"),
    ]));
    let pod = web_pod();
    match env_vars(&container, &pod) {
        EnvStep::Fetch { pending, .. } => {
            let mut data: StringMap<String> = StringMap::new();
            data.insert_text(s("color"), s("blue"));
            let env = done(pending.supply(
                &container,
                &pod,
                Fetched::ConfigMap { data: Some(data) },
            ));
            assert_eq!(env.len(), 3);
            assert_eq!(env.get_or_empty(&s("A")), "1");
            assert_eq!(env.get_or_empty(&s("COLOR")), "blue");
            assert_eq!(env.get_or_empty(&s("NS")), "prod");
        }
        EnvStep::Done { .. } => panic!("nothing was asked for"),
    }
}

#[test]
fn failed_fetch_and_missing_data_resolve_to_empty_text() {
    let source = Some(EnvVarSource {
        config_map_key_ref: Some(KeySelector { name: Some(s("settings")), key: s("color") }),
        secret_key_ref: None,
        field_ref: None,
    });
    let fields = field_map(&web_pod());
    assert_eq!(on_missing_env_value(&source, &Fetched::Failed, &fields), "");
    assert_eq!(on_missing_env_value(&source, &Fetched::ConfigMap { data: None }, &fields), "");
    let mut secret: StringMap<Vec<u8>> = StringMap::new();
    secret.insert(s("color"), b"red".to_vec());
    assert_eq!(
        on_missing_env_value(&source, &Fetched::Secret { secret: Some(secret) }, &fields),
        ""
    );
}

#[test]
fn secret_key_resolves_to_the_text_of_its_bytes() {
    let container = unit(Some(vec![from_secret("TOKEN", "creds", "token")]));
    let pod = web_pod();
    match env_vars(&container, &pod) {
        EnvStep::Fetch { lookup, pending } => {
            assert!(matches!(lookup, EnvLookup::Secret { .. }));
            let mut secret: StringMap<Vec<u8>> = StringMap::new();
            secret.insert(s("token"), "s3cr\u{e9}t".as_bytes().to_vec());
            let env = done(pending.supply(
                &container,
                &pod,
                Fetched::Secret { secret: Some(secret) },
            ));
            assert_eq!(env.get_or_empty(&s("TOKEN")), "s3cr\u{e9}t");
        }
        EnvStep::Done { .. } => panic!("nothing was asked for"),
    }
}

#[test]
fn secret_that_is_no_text_resolves_to_empty_text() {
    let source = Some(EnvVarSource {
        config_map_key_ref: None,
        secret_key_ref: Some(KeySelector { name: Some(s("creds")), key: s("token") }),
        field_ref: None,
    });
    let fields = field_map(&web_pod());
    let mut secret: StringMap<Vec<u8>> = StringMap::new();
    secret.insert(s("token"), vec![0xff, 0xfe, 0x00]);
    assert_eq!(
        on_missing_env_value(&source, &Fetched::Secret { secret: Some(secret) }, &fields),
        ""
    );
    let mut other: StringMap<Vec<u8>> = StringMap::new();
    other.insert(s("password"), b"x".to_vec());
    assert_eq!(
        on_missing_env_value(&source, &Fetched::Secret { secret: Some(other) }, &fields),
        ""
    );
    assert_eq!(on_missing_env_value(&source, &Fetched::Secret { secret: None }, &fields), "");
}

#[test]
fn bytes_to_text_decodes_utf8_and_gives_empty_text_otherwise() {
    assert_eq!(bytes_to_text(b"plain".to_vec()), "plain");
    assert_eq!(bytes_to_text(vec![0xe2, 0x82, 0xac]), "\u{20ac}");
    assert_eq!(bytes_to_text(vec![0xe2, 0x82]), "");
    assert_eq!(bytes_to_text(vec![0xc0, 0x80]), "");
    assert_eq!(bytes_to_text(Vec::new()), "");
}

#[test]
fn config_map_goes_before_secret_and_secret_before_field() {
    let all = Some(EnvVarSource {
        config_map_key_ref: Some(KeySelector { name: None, key: s("k1") }),
        secret_key_ref: Some(KeySelector { name: Some(s("sec")), key: s("k2") }),
        field_ref: Some(s("metadata.name")),
    });
    match env_lookup(&all) {
        EnvLookup::ConfigMap { name, key } => {
            assert_eq!(name, "");
            assert_eq!(key, "k1");
        }
        _ => panic!("another lookup"),
    }
    let two = Some(EnvVarSource {
        config_map_key_ref: None,
        secret_key_ref: Some(KeySelector { name: Some(s("sec")), key: s("k2") }),
        field_ref: Some(s("metadata.name")),
    });
    match env_lookup(&two) {
        EnvLookup::Secret { name, key } => {
            assert_eq!(name, "sec");
            assert_eq!(key, "k2");
        }
        _ => panic!("another lookup"),
    }
    let one = Some(EnvVarSource {
        config_map_key_ref: None,
        secret_key_ref: None,
        field_ref: Some(s("metadata.name")),
    });
    assert!(matches!(env_lookup(&one), EnvLookup::Field { .. }));
    let none = Some(EnvVarSource {
        config_map_key_ref: None,
        secret_key_ref: None,
        field_ref: None,
    });
    assert!(matches!(env_lookup(&none), EnvLookup::Nothing));
    assert!(matches!(env_lookup(&None), EnvLookup::Nothing));
}

#[test]
fn entry_without_value_and_source_is_empty() {
    let container = unit(Some(vec![EnvVar { name: s("X"), value: None, value_from: None }]));
    let env = done(env_vars(&container, &web_pod()));
    assert_eq!(env.get(&s("X")), Some(&s("")));
}

#[test]
fn unknown_field_path_is_empty() {
    let container = unit(Some(vec![from_field("X", "spec.nodeName")]));
    let env = done(env_vars(&container, &web_pod()));
    assert_eq!(env.get(&s("X")), Some(&s("")));
}

#[test]
fn unit_without_environment_has_an_empty_one() {
    let env = done(env_vars(&unit(None), &web_pod()));
    assert_eq!(env.len(), 0);
    let env = done(env_vars(&unit(Some(Vec::new())), &web_pod()));
    assert_eq!(env.len(), 0);
}

#[test]
fn later_entry_replaces_an_earlier_one_of_the_same_name() {
    let container = unit(Some(vec![
        literal("A", "1"),
        literal("B", "2"),
        from_field("A", "metadata.name"),
    ]));
    let env = done(env_vars(&container, &web_pod()));
    assert_eq!(env.len(), 2);
    assert_eq!(env.get_or_empty(&s("A")), "web-0");
    assert_eq!(env.get_or_empty(&s("B")), "2");
}

#[test]
fn resolution_stops_once_for_each_object() {
    let container = unit(Some(vec![
        from_config_map("ONE", Some("cm"), "a"),
        literal("TWO", "2"),
        from_secret("THREE", "sec", "b"),
    ]));
    let pod = web_pod();
    let first = match env_vars(&container, &pod) {
        EnvStep::Fetch { lookup, pending } => {
            assert!(matches!(lookup, EnvLookup::ConfigMap { .. }));
            pending
        }
        EnvStep::Done { .. } => panic!("nothing was asked for"),
    };
    let second = match first.supply(&container, &pod, Fetched::Failed) {
        EnvStep::Fetch { lookup, pending } => {
            assert!(matches!(lookup, EnvLookup::Secret { .. }));
            pending
        }
        EnvStep::Done { .. } => panic!("the secret was not asked for"),
    };
    let mut secret: StringMap<Vec<u8>> = StringMap::new();
    secret.insert(s("b"), b"three".to_vec());
    let env = done(second.supply(&container, &pod, Fetched::Secret { secret: Some(secret) }));
    assert_eq!(env.len(), 3);
    assert_eq!(env.get_or_empty(&s("ONE")), "");
    assert_eq!(env.get_or_empty(&s("TWO")), "2");
    assert_eq!(env.get_or_empty(&s("THREE")), "three");
}

#[test]
fn provider_errors_in_words() {
    let pod = ProviderError::PodNotFound { pod_name: s("web-0") };
    assert_eq!(pod.message(), "cannot find pod web-0");
    let container = ProviderError::ContainerNotFound {
        pod_name: s("web-0"),
        container_name: s("main"),
    };
    assert_eq!(container.message(), "cannot find container main in pod web-0");
    assert_eq!(NotImplementedError.message(), "Operation not supported");
}
