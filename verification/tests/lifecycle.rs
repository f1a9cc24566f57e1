use pod_lifecycle::backoff::BackoffStrategy;
use pod_lifecycle::engine::Engine;
use pod_lifecycle::lifecycle::{Action, Event};
use pod_lifecycle::pod::{Container, ContainerKey, Pod};
use pod_lifecycle::states::initializing::Initializing;
use pod_lifecycle::status::{ContainerStatus, Phase};

fn named(name: &str) -> Container {
    Container { name: name.to_string(), image: None, env: None }
}

fn workload(init: &[&str], app: &[&str]) -> Pod {
    let mut pod = Pod::new("default".to_string(), "job".to_string());
    for name in init {
        pod.init_containers.push(named(name));
    }
    for name in app {
        pod.containers.push(named(name));
    }
    pod
}

fn engine() -> Engine {
    Engine::new(BackoffStrategy::new(10, 2, 300).unwrap())
}

fn exited(name: &str, failed: bool) -> Event {
    Event::Status {
        name: name.to_string(),
        status: ContainerStatus::Terminated {
            finished_at: 100,
            message: "exit".to_string(),
            failed,
        },
    }
}

fn patched() -> Event {
    Event::Patched { error: None }
}

fn init_key(name: &str) -> ContainerKey {
    ContainerKey::Init(name.to_string())
}

fn app_key(name: &str) -> ContainerKey {
    ContainerKey::App(name.to_string())
}

fn spawns_init(action: &Action, unit: &str) -> bool {
    matches!(action, Action::Spawn { key: ContainerKey::Init(name) } if name == unit)
}

fn spawns_app(action: &Action, unit: &str) -> bool {
    matches!(action, Action::Spawn { key: ContainerKey::App(name) } if name == unit)
}

fn run_to_running(engine: &mut Engine, pod: &Pod) {
    assert!(spawns_app(&engine.start(pod), "main"));
    assert!(matches!(engine.advance(pod, Event::Spawned { handle: 1 }), Action::PublishHandles));
    assert!(matches!(engine.advance(pod, Event::Published), Action::Receive));
    assert_eq!(engine.project_status(pod).phase, Phase::Running);
}

#[test]
fn failing_second_init_unit_leads_to_error() {
    let pod = workload(&["A", "B"], &["main"]);
    let mut engine = engine();
    assert!(spawns_init(&engine.start(&pod), "A"));
    assert!(matches!(engine.advance(&pod, Event::Spawned { handle: 1 }), Action::Receive));
    match engine.advance(&pod, exited("A", false)) {
        Action::PatchContainerStatus { name, status, init } => {
            assert_eq!(name, "A");
            assert!(status.is_success());
            assert!(init);
        }
        other => panic!("{:?}", other),
    }
    assert!(spawns_init(&engine.advance(&pod, patched()), "B"));
    assert!(matches!(engine.advance(&pod, Event::Spawned { handle: 2 }), Action::Receive));
    assert!(matches!(
        engine.advance(&pod, exited("B", true)),
        Action::PatchContainerStatus { init: true, .. }
    ));
    assert!(matches!(
        engine.advance(&pod, Event::Patched { error: Some("not reachable".to_string()) }),
        Action::PublishHandles
    ));
    let handles = &engine.pod_state().handles;
    assert_eq!(handles.get(&init_key("A")), Some(1));
    assert_eq!(handles.get(&init_key("B")), Some(2));
    assert_eq!(handles.init_len(), 2);
    assert_eq!(handles.app_len(), 0);
    assert_eq!(handles.handles(), vec![1, 2]);
    assert_eq!(engine.project_status(&pod).phase, Phase::Initializing);
    match engine.advance(&pod, Event::Published) {
        Action::PatchStatus { patch } => assert_eq!(
            String::from_utf8(patch).unwrap(),
            "{\"metadata\":{\"resourceVersion\":\"\"},\"status\":{\"message\":\"Init container B failed\"}}"
        ),
        other => panic!("{:?}", other),
    }
    match engine.advance(&pod, patched()) {
        Action::ReportStatus { document } => {
            assert_eq!(document.phase, Phase::Error);
            assert_eq!(document.reason, "Init container B failed");
        }
        other => panic!("{:?}", other),
    }
    let shown = engine.project_status(&pod);
    assert_eq!(shown.phase, Phase::Error);
    assert_eq!(shown.reason, "Init container B failed");
    assert!(!engine.is_complete());
    match engine.advance(&pod, patched()) {
        Action::Stop { outcome } => {
            assert_eq!(outcome, Err("Init container B failed".to_string()))
        }
        other => panic!("{:?}", other),
    }
    assert!(engine.is_complete());
    assert_eq!(engine.pod_state().handles.init_len(), 2);
}

#[test]
fn complete_lifecycle_answers_nothing() {
    let pod = workload(&[], &[]);
    let mut engine = engine();
    assert!(matches!(engine.start(&pod), Action::PublishHandles));
    assert!(matches!(engine.advance(&pod, Event::Deleted), Action::ReleaseHandles));
    assert!(matches!(engine.advance(&pod, Event::Released), Action::ReportStatus { .. }));
    assert!(matches!(engine.advance(&pod, patched()), Action::Stop { outcome: Ok(()) }));
    assert!(engine.is_complete());
    assert!(matches!(engine.advance(&pod, Event::Entered), Action::Idle));
    assert!(matches!(engine.advance(&pod, Event::Spawned { handle: 9 }), Action::Idle));
    assert!(matches!(engine.advance(&pod, exited("main", true)), Action::Idle));
    assert!(matches!(engine.advance(&pod, Event::Deleted), Action::Idle));
    assert!(engine.is_complete());
    assert_eq!(engine.project_status(&pod).phase, Phase::Terminated);
    assert_eq!(engine.pod_state().handles.init_len(), 0);
}

#[test]
fn backoff_is_reset_at_every_init_unit() {
    let pod = workload(&["A", "B"], &["main"]);
    let mut engine = Engine::new(BackoffStrategy::new(10, 2, 300).unwrap());
    engine.start(&pod);
    assert_eq!(engine.pod_state().backoff.current_delay(), 10);
    engine.advance(&pod, Event::Spawned { handle: 1 });
    engine.advance(&pod, exited("A", false));
    engine.advance(&pod, patched());
    assert_eq!(engine.pod_state().backoff.current_delay(), 10);
}

#[test]
fn three_failures_escalate_the_backoff_without_reset() {
    let pod = workload(&[], &["main"]);
    let mut engine = engine();
    run_to_running(&mut engine, &pod);
    let mut handle = 1;
    for expected in [10u64, 20, 40] {
        assert!(matches!(
            engine.advance(&pod, exited("main", true)),
            Action::PatchContainerStatus { init: false, .. }
        ));
        match engine.advance(&pod, patched()) {
            Action::Wait { delay_ms } => assert_eq!(delay_ms, expected),
            other => panic!("{:?}", other),
        }
        assert!(spawns_app(&engine.advance(&pod, Event::WaitElapsed), "main"));
        handle += 1;
        assert!(matches!(engine.advance(&pod, Event::Spawned { handle }), Action::Receive));
        assert_eq!(engine.pod_state().handles.get(&app_key("main")), Some(handle));
    }
    assert_eq!(engine.pod_state().backoff.current_delay(), 80);
    assert!(matches!(
        engine.advance(
            &pod,
            Event::Status {
                name: "main".to_string(),
                status: ContainerStatus::Running { started_at: 7 },
            }
        ),
        Action::PatchContainerStatus { .. }
    ));
    assert!(matches!(engine.advance(&pod, patched()), Action::Receive));
    assert_eq!(engine.pod_state().backoff.current_delay(), 80);
    assert!(matches!(engine.advance(&pod, Event::Deleted), Action::ReleaseHandles));
    assert_eq!(engine.project_status(&pod).phase, Phase::Terminated);
    assert_eq!(engine.pod_state().backoff.current_delay(), 80);
    assert!(matches!(engine.advance(&pod, Event::Released), Action::ReportStatus { .. }));
    assert!(matches!(engine.advance(&pod, patched()), Action::Stop { outcome: Ok(()) }));
    assert_eq!(engine.pod_state().handles.app_len(), 1);
}

#[test]
fn deletion_during_backoff_wait_stops_without_restart() {
    let pod = workload(&[], &["main"]);
    let mut engine = engine();
    run_to_running(&mut engine, &pod);
    engine.advance(&pod, exited("main", true));
    assert!(matches!(engine.advance(&pod, patched()), Action::Wait { delay_ms: 10 }));
    assert!(matches!(engine.advance(&pod, Event::Deleted), Action::ReleaseHandles));
    assert_eq!(engine.project_status(&pod).phase, Phase::Terminated);
    let late = engine.advance(&pod, Event::WaitElapsed);
    assert!(!matches!(late, Action::Spawn { .. }));
    assert!(matches!(late, Action::ReportStatus { .. }));
    assert!(matches!(engine.advance(&pod, patched()), Action::Stop { outcome: Ok(()) }));
    assert_eq!(engine.pod_state().handles.get(&app_key("main")), Some(1));
}

#[test]
fn status_projection_leaves_the_engine_as_it_is() {
    let pod = workload(&["A"], &["main", "side"]);
    let script = vec![
        Event::Spawned { handle: 1 },
        exited("A", false),
        patched(),
        Event::Spawned { handle: 2 },
        Event::Spawned { handle: 3 },
        Event::Published,
        exited("side", true),
        patched(),
        Event::WaitElapsed,
        Event::Spawned { handle: 4 },
        exited("main", false),
        patched(),
    ];
    let replay = vec![
        Event::Spawned { handle: 1 },
        exited("A", false),
        patched(),
        Event::Spawned { handle: 2 },
        Event::Spawned { handle: 3 },
        Event::Published,
        exited("side", true),
        patched(),
        Event::WaitElapsed,
        Event::Spawned { handle: 4 },
        exited("main", false),
        patched(),
    ];
    let mut plain = engine();
    let mut watched = engine();
    let mut plain_actions = vec![format!("{:?}", plain.start(&pod))];
    let mut watched_actions = vec![format!("{:?}", watched.start(&pod))];
    for event in script {
        plain_actions.push(format!("{:?}", plain.advance(&pod, event)));
    }
    for event in replay {
        let before = watched.project_status(&pod);
        let again = watched.project_status(&pod);
        assert_eq!(before.phase, again.phase);
        assert_eq!(before.reason, again.reason);
        watched_actions.push(format!("{:?}", watched.advance(&pod, event)));
        watched.project_status(&pod);
    }
    assert_eq!(plain_actions, watched_actions);
    assert_eq!(plain.pod_state().handles.handles(), watched.pod_state().handles.handles());
    assert_eq!(
        plain.pod_state().backoff.current_delay(),
        watched.pod_state().backoff.current_delay()
    );
    assert_eq!(plain.pod_state().completed.len(), watched.pod_state().completed.len());
    assert_eq!(plain.project_status(&pod).phase, watched.project_status(&pod).phase);
    assert_eq!(watched.pod_state().handles.handles(), vec![1, 2, 4]);
    assert_eq!(watched.pod_state().backoff.current_delay(), 20);
    assert!(watched.pod_state().completed.contains_key(&"main".to_string()));
}

#[test]
fn status_projection_in_each_phase() {
    let pod = workload(&["A"], &["main"]);
    let mut engine = engine();
    let shown = engine.project_status(&pod);
    assert_eq!(shown.phase, Phase::Initializing);
    assert_eq!(shown.reason, "Initializing");
    engine.start(&pod);
    engine.advance(&pod, Event::Spawned { handle: 1 });
    engine.advance(&pod, exited("A", false));
    assert!(spawns_app(&engine.advance(&pod, patched()), "main"));
    let shown = engine.project_status(&pod);
    assert_eq!(shown.phase, Phase::Starting);
    assert_eq!(shown.reason, "Starting");
    engine.advance(&pod, Event::Spawned { handle: 2 });
    engine.advance(&pod, Event::Published);
    let shown = engine.project_status(&pod);
    assert_eq!(shown.phase, Phase::Running);
    assert_eq!(shown.reason, "Running");
    engine.advance(&pod, exited("main", false));
    assert!(matches!(engine.advance(&pod, patched()), Action::ReleaseHandles));
    let shown = engine.project_status(&pod);
    assert_eq!(shown.phase, Phase::Terminated);
    assert_eq!(shown.reason, "Terminated");
}

#[test]
fn spawn_failure_of_an_init_unit_is_fatal() {
    let pod = workload(&["A"], &["main"]);
    let mut engine = engine();
    engine.start(&pod);
    match engine.advance(&pod, Event::SpawnFailed { message: "no image".to_string() }) {
        Action::ReportStatus { document } => {
            assert_eq!(document.phase, Phase::Error);
            assert_eq!(document.reason, "no image");
        }
        other => panic!("{:?}", other),
    }
    assert!(matches!(
        engine.advance(&pod, Event::Patched { error: Some("gone".to_string()) }),
        Action::Stop { outcome: Err(message) } if message == "no image"
    ));
    assert_eq!(engine.project_status(&pod).phase, Phase::Error);
    assert_eq!(engine.project_status(&pod).reason, "no image");
}

#[test]
fn spawn_failure_of_an_application_unit_is_fatal() {
    let pod = workload(&[], &["main", "side"]);
    let mut engine = engine();
    assert!(spawns_app(&engine.start(&pod), "main"));
    assert!(spawns_app(&engine.advance(&pod, Event::Spawned { handle: 1 }), "side"));
    assert!(matches!(
        engine.advance(&pod, Event::SpawnFailed { message: "no memory".to_string() }),
        Action::ReportStatus { .. }
    ));
    assert_eq!(engine.project_status(&pod).reason, "no memory");
    assert_eq!(engine.pod_state().handles.get(&app_key("main")), Some(1));
    assert_eq!(engine.pod_state().handles.get(&app_key("side")), None);
}

#[test]
fn failed_failure_patch_is_fatal_with_its_error() {
    let pod = workload(&["A"], &[]);
    let mut engine = engine();
    engine.start(&pod);
    engine.advance(&pod, Event::Spawned { handle: 1 });
    engine.advance(&pod, exited("A", true));
    engine.advance(&pod, patched());
    assert!(matches!(engine.advance(&pod, Event::Published), Action::PatchStatus { .. }));
    match engine.advance(&pod, Event::Patched { error: Some("conflict".to_string()) }) {
        Action::ReportStatus { document } => {
            assert_eq!(document.phase, Phase::Error);
            assert_eq!(document.reason, "conflict");
        }
        other => panic!("{:?}", other),
    }
}

#[test]
fn failure_transition_for_each_outcome_of_writing_the_patch() {
    let pod = workload(&["A"], &[]);
    let mut state = pod_lifecycle::lifecycle::PodState::new(BackoffStrategy::constant(1));
    match Initializing::failure_transition(0, "m".to_string(), Ok(vec![1, 2, 3])) {
        pod_lifecycle::lifecycle::Transition::Next(next, Some(Action::PatchStatus { patch })) => {
            assert_eq!(patch, vec![1, 2, 3]);
            match pod_lifecycle::engine::dispatch(next, &mut state, &pod, patched()) {
                pod_lifecycle::lifecycle::Transition::Next(
                    pod_lifecycle::lifecycle::LifecycleState::Error(error),
                    None,
                ) => assert_eq!(error.status().reason, "m"),
                _ => panic!("another transition"),
            }
        }
        _ => panic!("another transition"),
    }
    match Initializing::failure_transition(0, "m".to_string(), Err("cannot write".to_string())) {
        pod_lifecycle::lifecycle::Transition::Next(
            pod_lifecycle::lifecycle::LifecycleState::Error(error),
            None,
        ) => assert_eq!(error.status().reason, "cannot write"),
        _ => panic!("another transition"),
    }
}

#[test]
fn closed_channel_takes_up_the_next_init_unit() {
    let pod = workload(&["A", "B"], &[]);
    let mut engine = engine();
    engine.start(&pod);
    engine.advance(&pod, Event::Spawned { handle: 1 });
    assert!(spawns_init(&engine.advance(&pod, Event::ChannelClosed), "B"));
    engine.advance(&pod, Event::Spawned { handle: 2 });
    assert!(matches!(engine.advance(&pod, Event::ChannelClosed), Action::PublishHandles));
    assert_eq!(engine.project_status(&pod).phase, Phase::Starting);
}

#[test]
fn status_that_is_not_terminal_keeps_draining() {
    let pod = workload(&["A"], &[]);
    let mut engine = engine();
    engine.start(&pod);
    engine.advance(&pod, Event::Spawned { handle: 1 });
    assert!(matches!(
        engine.advance(
            &pod,
            Event::Status { name: "A".to_string(), status: ContainerStatus::Waiting }
        ),
        Action::PatchContainerStatus { init: true, .. }
    ));
    assert!(matches!(engine.advance(&pod, patched()), Action::Receive));
    assert_eq!(engine.project_status(&pod).phase, Phase::Initializing);
}

#[test]
fn workload_stops_when_every_application_unit_has_completed() {
    let pod = workload(&[], &["main", "side"]);
    let mut engine = engine();
    engine.start(&pod);
    engine.advance(&pod, Event::Spawned { handle: 1 });
    engine.advance(&pod, Event::Spawned { handle: 2 });
    assert!(matches!(engine.advance(&pod, Event::Published), Action::Receive));
    engine.advance(&pod, exited("main", false));
    assert!(matches!(engine.advance(&pod, patched()), Action::Receive));
    assert_eq!(engine.project_status(&pod).phase, Phase::Running);
    engine.advance(&pod, exited("side", false));
    assert!(matches!(engine.advance(&pod, patched()), Action::ReleaseHandles));
    assert_eq!(engine.project_status(&pod).phase, Phase::Terminated);
    assert_eq!(engine.pod_state().handles.handles(), vec![1, 2]);
}

#[test]
fn closed_channel_while_running_stops_the_workload() {
    let pod = workload(&[], &["main"]);
    let mut engine = engine();
    run_to_running(&mut engine, &pod);
    assert!(matches!(engine.advance(&pod, Event::ChannelClosed), Action::ReleaseHandles));
}

#[test]
fn failure_of_an_undeclared_unit_is_fatal() {
    let pod = workload(&[], &["main"]);
    let mut engine = engine();
    run_to_running(&mut engine, &pod);
    engine.advance(&pod, exited("ghost", true));
    match engine.advance(&pod, patched()) {
        Action::ReportStatus { document } => {
            assert_eq!(document.phase, Phase::Error);
            assert_eq!(document.reason, "status of an undeclared unit");
        }
        other => panic!("{:?}", other),
    }
    assert_eq!(engine.pod_state().backoff.current_delay(), 10);
}

#[test]
fn failed_restart_is_fatal() {
    let pod = workload(&[], &["main"]);
    let mut engine = engine();
    run_to_running(&mut engine, &pod);
    engine.advance(&pod, exited("main", true));
    engine.advance(&pod, patched());
    engine.advance(&pod, Event::WaitElapsed);
    assert!(matches!(
        engine.advance(&pod, Event::SpawnFailed { message: "gone".to_string() }),
        Action::ReportStatus { .. }
    ));
    assert_eq!(engine.project_status(&pod).reason, "gone");
}

#[test]
fn event_that_is_not_awaited_is_fatal() {
    let pod = workload(&["A"], &["main"]);
    let mut engine = engine();
    engine.start(&pod);
    match engine.advance(&pod, Event::WaitElapsed) {
        Action::ReportStatus { document } => {
            assert_eq!(document.phase, Phase::Error);
            assert_eq!(document.reason, "unexpected event");
        }
        other => panic!("{:?}", other),
    }
}

#[test]
fn deletion_while_initializing_stops_the_workload() {
    let pod = workload(&["A"], &["main"]);
    let mut engine = engine();
    engine.start(&pod);
    engine.advance(&pod, Event::Spawned { handle: 1 });
    assert!(matches!(engine.advance(&pod, Event::Deleted), Action::ReleaseHandles));
    assert!(matches!(engine.advance(&pod, Event::Released), Action::ReportStatus { .. }));
    assert!(matches!(engine.advance(&pod, patched()), Action::Stop { outcome: Ok(()) }));
    assert_eq!(engine.pod_state().handles.get(&init_key("A")), Some(1));
}

#[test]
fn workload_without_init_units_starts_at_once() {
    let pod = workload(&[], &["main"]);
    let mut engine = engine();
    assert!(spawns_app(&engine.start(&pod), "main"));
    assert_eq!(engine.project_status(&pod).phase, Phase::Starting);
}

#[test]
fn default_initializing_state_is_the_entered_one() {
    let pod = workload(&["A"], &[]);
    let mut state = pod_lifecycle::lifecycle::PodState::new(BackoffStrategy::constant(1));
    let shown = Initializing::default().status();
    assert_eq!(shown.phase, Phase::Initializing);
    match Initializing::default().next(&mut state, &pod, Event::Entered) {
        pod_lifecycle::lifecycle::Transition::Next(_, Some(action)) => {
            assert!(spawns_init(&action, "A"))
        }
        _ => panic!("another transition"),
    }
}

#[test]
fn deletion_after_a_failure_leaves_the_failure_as_the_outcome() {
    let pod = workload(&["A"], &["main"]);
    let mut engine = engine();
    engine.start(&pod);
    assert!(matches!(
        engine.advance(&pod, Event::SpawnFailed { message: "no image".to_string() }),
        Action::ReportStatus { .. }
    ));
    assert!(matches!(
        engine.advance(&pod, Event::Deleted),
        Action::Stop { outcome: Err(message) } if message == "no image"
    ));
    assert!(engine.is_complete());
    assert_eq!(engine.project_status(&pod).phase, Phase::Error);
}

#[test]
fn deletion_while_starting_stops_the_workload() {
    let pod = workload(&[], &["main", "side"]);
    let mut engine = engine();
    engine.start(&pod);
    assert!(spawns_app(&engine.advance(&pod, Event::Spawned { handle: 1 }), "side"));
    assert!(matches!(engine.advance(&pod, Event::Deleted), Action::ReleaseHandles));
    assert_eq!(engine.pod_state().handles.handles(), vec![1]);
    assert!(matches!(engine.advance(&pod, Event::Released), Action::ReportStatus { .. }));
    assert!(matches!(engine.advance(&pod, patched()), Action::Stop { outcome: Ok(()) }));
}

#[test]
fn json_status_of_the_initializing_state_and_of_the_engine() {
    let pod = workload(&["A"], &["main"]);
    let state = pod_lifecycle::lifecycle::PodState::new(BackoffStrategy::constant(1));
    let expected = "{\"metadata\":{\"resourceVersion\":\"\"},\"status\":{\"phase\":\"Initializing\",\"reason\":\"Initializing\"}}";
    assert_eq!(
        String::from_utf8(Initializing::new().json_status(&state, &pod).unwrap()).unwrap(),
        expected
    );
    let mut engine = engine();
    assert_eq!(String::from_utf8(engine.json_status(&pod).unwrap()).unwrap(), expected);
    engine.start(&pod);
    engine.advance(&pod, Event::SpawnFailed { message: "no image".to_string() });
    assert_eq!(
        String::from_utf8(engine.json_status(&pod).unwrap()).unwrap(),
        "{\"metadata\":{\"resourceVersion\":\"\"},\"status\":{\"phase\":\"Error\",\"reason\":\"no image\"}}"
    );
}
