use pod_lifecycle::handles::{HandleTable, UnitHandleSet};
use pod_lifecycle::pod::{cloned_or_empty, Container, ContainerKey, Pod};
use pod_lifecycle::provider::ProviderError;
use pod_lifecycle::strmap::StringMap;

fn name(text: &str) -> String {
    text.to_string()
}

fn sample_set() -> UnitHandleSet {
    let mut set = UnitHandleSet::new();
    set.insert(ContainerKey::Init(name("setup")), 1);
    set.insert(ContainerKey::App(name("main")), 2);
    set.insert(ContainerKey::App(name("side")), 3);
    set
}

#[test]
fn handle_set_keeps_roles_apart() {
    let mut set = UnitHandleSet::new();
    assert_eq!(set.init_len(), 0);
    assert_eq!(set.app_len(), 0);
    set.insert(ContainerKey::Init(name("x")), 1);
    set.insert(ContainerKey::App(name("x")), 2);
    assert_eq!(set.get(&ContainerKey::Init(name("x"))), Some(1));
    assert_eq!(set.get(&ContainerKey::App(name("x"))), Some(2));
    assert_eq!(set.get(&ContainerKey::App(name("y"))), None);
    assert_eq!(set.init_len(), 1);
    assert_eq!(set.app_len(), 1);
}

#[test]
fn handle_set_replaces_the_handle_of_a_unit() {
    let mut set = sample_set();
    set.insert(ContainerKey::App(name("main")), 9);
    assert_eq!(set.get(&ContainerKey::App(name("main"))), Some(9));
    assert_eq!(set.app_len(), 2);
    assert_eq!(set.handles(), vec![1, 9, 3]);
}

#[test]
fn snapshot_of_a_handle_set_is_a_copy() {
    let mut set = sample_set();
    let copy = set.snapshot();
    set.insert(ContainerKey::App(name("late")), 4);
    assert_eq!(copy.handles(), vec![1, 2, 3]);
    assert_eq!(copy.get(&ContainerKey::App(name("late"))), None);
    assert_eq!(set.handles(), vec![1, 2, 3, 4]);
}

#[test]
fn table_finds_the_handle_of_a_unit() {
    let mut table = HandleTable::new();
    table.insert(name("prod"), name("web"), sample_set());
    assert_eq!(table.find(&name("prod"), &name("web"), &name("main")).ok(), Some(2));
    assert_eq!(table.find(&name("prod"), &name("web"), &name("setup")).ok(), Some(1));
}

#[test]
fn table_prefers_the_application_unit_of_a_name() {
    let mut set = UnitHandleSet::new();
    set.insert(ContainerKey::Init(name("x")), 1);
    set.insert(ContainerKey::App(name("x")), 2);
    let mut table = HandleTable::new();
    table.insert(name("ns"), name("p"), set);
    assert_eq!(table.find(&name("ns"), &name("p"), &name("x")).ok(), Some(2));
}

#[test]
fn table_says_which_pod_is_missing() {
    let mut table = HandleTable::new();
    assert!(matches!(
        table.find(&name("prod"), &name("web"), &name("main")),
        Err(ProviderError::PodNotFound { pod_name }) if pod_name == "web"
    ));
    table.insert(name("prod"), name("web"), sample_set());
    assert!(matches!(
        table.find(&name("test"), &name("web"), &name("main")),
        Err(ProviderError::PodNotFound { pod_name }) if pod_name == "web"
    ));
    assert!(matches!(
        table.find(&name("prod"), &name("db"), &name("main")),
        Err(ProviderError::PodNotFound { pod_name }) if pod_name == "db"
    ));
}

#[test]
fn table_says_which_container_is_missing() {
    let mut table = HandleTable::new();
    table.insert(name("prod"), name("web"), sample_set());
    match table.find(&name("prod"), &name("web"), &name("ghost")) {
        Err(ProviderError::ContainerNotFound { pod_name, container_name }) => {
            assert_eq!(pod_name, "web");
            assert_eq!(container_name, "ghost");
        }
        _ => panic!("another answer"),
    }
}

#[test]
fn table_replaces_the_entry_of_a_workload_and_keeps_the_others() {
    let mut table = HandleTable::new();
    table.insert(name("prod"), name("web"), sample_set());
    table.insert(name("prod"), name("db"), sample_set());
    table.insert(name("test"), name("web"), sample_set());
    let mut fresh = UnitHandleSet::new();
    fresh.insert(ContainerKey::App(name("main")), 7);
    table.insert(name("prod"), name("web"), fresh);
    assert_eq!(table.find(&name("prod"), &name("web"), &name("main")).ok(), Some(7));
    assert!(table.find(&name("prod"), &name("web"), &name("side")).is_err());
    assert_eq!(table.find(&name("prod"), &name("db"), &name("side")).ok(), Some(3));
    assert_eq!(table.find(&name("test"), &name("web"), &name("main")).ok(), Some(2));
}

#[test]
fn remove_takes_the_value_out() {
    let mut map: StringMap<u64> = StringMap::new();
    map.insert(name("a"), 1);
    map.insert(name("b"), 2);
    map.insert(name("c"), 3);
    assert_eq!(map.remove(&name("b")), Some(2));
    assert_eq!(map.remove(&name("b")), None);
    assert_eq!(map.len(), 2);
    assert_eq!(map.get(&name("a")), Some(&1));
    assert_eq!(map.get(&name("c")), Some(&3));
    assert!(map.get(&name("b")).is_none());
}

#[test]
fn snapshot_of_a_map_is_a_copy() {
    let mut map: StringMap<u64> = StringMap::new();
    map.insert(name("a"), 1);
    map.insert(name("b"), 2);
    let copy = map.snapshot();
    map.insert(name("a"), 5);
    assert_eq!(copy.len(), 2);
    assert_eq!(copy.get(&name("a")), Some(&1));
    assert_eq!(copy.get(&name("b")), Some(&2));
}

#[test]
fn pod_knows_its_units() {
    let mut pod = Pod::new(name("ns"), name("p"));
    pod.init_containers.push(Container { name: name("setup"), image: None, env: None });
    pod.containers.push(Container { name: name("main"), image: None, env: None });
    pod.containers.push(Container { name: name("side"), image: None, env: None });
    assert_eq!(pod.name, "p");
    assert_eq!(pod.namespace, "ns");
    assert_eq!(pod.init_container_name(0), "setup");
    assert_eq!(pod.container_name(1), "side");
    assert!(pod.has_container(&name("main")));
    assert!(!pod.has_container(&name("setup")));
}

#[test]
fn container_key_gives_name_and_role() {
    let init = ContainerKey::Init(name("setup"));
    let app = ContainerKey::App(name("main"));
    assert_eq!(init.name(), "setup");
    assert_eq!(app.name(), "main");
    assert!(init.is_init());
    assert!(!app.is_init());
}

#[test]
fn cloned_or_empty_gives_empty_text_for_none() {
    assert_eq!(cloned_or_empty(&Some(name("x"))), "x");
    assert_eq!(cloned_or_empty(&None), "");
}
