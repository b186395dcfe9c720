use docker_activity::config::Params;
use docker_activity::error::Error;
use docker_activity::exporter::{Output, StdOutOutput};
use docker_activity::model::RawSample;
use docker_activity::orchestrator::{find_value, get_container_name, Orchestrator};
use docker_activity::runtime::{ContainerQuery, ContainerSummary, EventActor, EventMessage};
use docker_activity::watcher::{WatcherAction, WatcherPhase};

fn params(containers: Option<&str>) -> Params {
    Params {
        buffer_size: 32,
        containers: containers.map(|list| list.to_string()),
        disable_powercap: false,
        output: Output::Stdout(StdOutOutput { format: None }),
    }
}

fn start() -> Option<String> {
    Some("start".to_string())
}

fn event(action: Option<&str>, name: Option<&str>) -> EventMessage {
    EventMessage {
        action: action.map(|action| action.to_string()),
        actor: Some(EventActor {
            id: Some("abc123".to_string()),
            attributes: Some(match name {
                Some(name) => vec![
                    ("image".to_string(), "nginx".to_string()),
                    ("name".to_string(), name.to_string()),
                ],
                None => vec![("image".to_string(), "nginx".to_string())],
            }),
        }),
    }
}

fn raw(cpu: u64) -> RawSample {
    RawSample {
        id: "abc123".to_string(),
        name: "web".to_string(),
        read: 1,
        pid_count: None,
        pid_limit: None,
        memory_usage: None,
        memory_limit: None,
        cpu_usage: cpu,
        pre_cpu_usage: 0,
        system_cpu_usage: Some(100),
        pre_system_cpu_usage: None,
        online_cpus: None,
        per_cpu_samples: None,
    }
}

#[test]
fn new_orchestrator_watches_nothing() {
    let orchestrator = Orchestrator::new(&params(None), true);
    assert!(!orchestrator.is_running("web"));
}

#[test]
fn without_allow_list_every_container_is_permitted() {
    let orchestrator = Orchestrator::new(&params(None), true);
    assert!(orchestrator.permits("web"));
    assert!(orchestrator.permits(""));
}

#[test]
fn allow_list_permits_its_names_only() {
    let orchestrator = Orchestrator::new(&params(Some("web,db")), true);
    assert!(orchestrator.permits("web"));
    assert!(orchestrator.permits("db"));
    assert!(!orchestrator.permits("cache"));
    assert!(!orchestrator.permits("web,db"));
    assert!(!orchestrator.permits(""));
}

#[test]
fn empty_allow_list_setting_permits_only_the_empty_name() {
    let orchestrator = Orchestrator::new(&params(Some("")), true);
    assert!(orchestrator.permits(""));
    assert!(!orchestrator.permits("web"));
}

#[test]
fn running_container_at_startup_gets_exactly_one_watcher() {
    let mut orchestrator = Orchestrator::new(&params(None), true);
    let spawned = orchestrator.adopt_running(vec!["web".to_string()]);
    assert_eq!(spawned.len(), 1);
    assert_eq!(spawned[0].name(), "web");
    assert_eq!(spawned[0].phase(), WatcherPhase::CheckingLiveness);
    assert!(orchestrator.is_running("web"));
    assert!(orchestrator.handle_event("web".to_string(), start()).is_none());
    assert!(orchestrator.is_running("web"));
}

#[test]
fn start_of_a_filtered_container_is_ignored() {
    let mut orchestrator = Orchestrator::new(&params(Some("web")), true);
    assert!(orchestrator.handle_event("db".to_string(), start()).is_none());
    assert!(!orchestrator.is_running("db"));
    let spawned = orchestrator.handle_event("web".to_string(), start());
    assert_eq!(spawned.unwrap().name(), "web");
    assert!(orchestrator.is_running("web"));
}

#[test]
fn allow_list_applies_at_startup_too() {
    let mut orchestrator = Orchestrator::new(&params(Some("web")), true);
    let spawned =
        orchestrator.adopt_running(vec!["db".to_string(), "web".to_string(), "cache".to_string()]);
    assert_eq!(spawned.len(), 1);
    assert_eq!(spawned[0].name(), "web");
    assert!(!orchestrator.is_running("db"));
    assert!(!orchestrator.is_running("cache"));
}

#[test]
fn startup_keeps_the_order_of_the_listing_and_skips_repeats() {
    let mut orchestrator = Orchestrator::new(&params(None), true);
    let spawned = orchestrator.adopt_running(vec![
        "web".to_string(),
        "db".to_string(),
        "web".to_string(),
        "cache".to_string(),
    ]);
    let names: Vec<&str> = spawned.iter().map(|watcher| watcher.name()).collect();
    assert_eq!(names, vec!["web", "db", "cache"]);
}

#[test]
fn startup_with_nothing_running_starts_nothing() {
    let mut orchestrator = Orchestrator::new(&params(None), true);
    assert!(orchestrator.adopt_running(Vec::new()).is_empty());
}

#[test]
fn repeated_start_events_start_one_watcher() {
    let mut orchestrator = Orchestrator::new(&params(None), true);
    let mut spawned = 0;
    for _ in 0..10 {
        if orchestrator.handle_event("web".to_string(), start()).is_some() {
            spawned += 1;
        }
    }
    assert_eq!(spawned, 1);
}

#[test]
fn other_actions_are_ignored() {
    let mut orchestrator = Orchestrator::new(&params(None), true);
    for action in ["stop", "die", "create", "Start", "start ", ""] {
        assert!(orchestrator
            .handle_event("web".to_string(), Some(action.to_string()))
            .is_none());
    }
    assert!(orchestrator.handle_event("web".to_string(), None).is_none());
    assert!(!orchestrator.is_running("web"));
}

#[test]
fn stop_event_does_not_deregister() {
    let mut orchestrator = Orchestrator::new(&params(None), true);
    assert!(orchestrator.handle_event("web".to_string(), start()).is_some());
    assert!(orchestrator
        .handle_event("web".to_string(), Some("die".to_string()))
        .is_none());
    assert!(orchestrator.is_running("web"));
}

#[test]
fn container_can_be_watched_again_after_its_watcher_deregistered() {
    let mut orchestrator = Orchestrator::new(&params(None), true);
    let mut watcher = orchestrator.handle_event("web".to_string(), start()).unwrap();
    match watcher.on_liveness(Ok(0)) {
        WatcherAction::Deregister(name) => orchestrator.unregister(&name),
        other => panic!("unexpected action {:?}", other),
    }
    assert!(!orchestrator.is_running("web"));
    assert!(orchestrator.handle_event("web".to_string(), start()).is_some());
}

#[test]
fn failed_watcher_leaves_its_registration() {
    let mut orchestrator = Orchestrator::new(&params(None), true);
    let mut watcher = orchestrator.handle_event("web".to_string(), start()).unwrap();
    assert!(matches!(
        watcher.on_liveness(Err("boom".to_string())),
        WatcherAction::Fail(_)
    ));
    assert!(orchestrator.is_running("web"));
    assert!(orchestrator.handle_event("web".to_string(), start()).is_none());
}

#[test]
fn unregister_of_an_unknown_container_does_nothing() {
    let mut orchestrator = Orchestrator::new(&params(None), true);
    orchestrator.unregister("web");
    assert!(!orchestrator.is_running("web"));
    assert!(orchestrator.handle_event("web".to_string(), start()).is_some());
}

#[test]
fn handle_start_event_bypasses_nothing_but_the_filter() {
    let mut orchestrator = Orchestrator::new(&params(Some("web")), true);
    assert!(orchestrator.handle_start_event("db".to_string()).is_some());
    assert!(orchestrator.is_running("db"));
    assert!(orchestrator.handle_start_event("db".to_string()).is_none());
}

#[test]
fn register_task_marks_the_container_as_watched() {
    let mut orchestrator = Orchestrator::new(&params(None), true);
    orchestrator.register_task("web".to_string());
    orchestrator.register_task("web".to_string());
    assert!(orchestrator.is_running("web"));
    assert!(orchestrator.handle_event("web".to_string(), start()).is_none());
}

#[test]
fn each_watcher_gets_a_fresh_chain() {
    let mut orchestrator = Orchestrator::new(&params(None), true);
    let mut web = orchestrator.handle_event("web".to_string(), start()).unwrap();
    web.on_liveness(Ok(1));
    web.on_sample(raw(1), Some(1000));
    match web.on_sample(raw(2), Some(1500)) {
        WatcherAction::Forward(record) => assert_eq!(record.energy_delta, Some(500)),
        other => panic!("unexpected action {:?}", other),
    }
    let mut db = orchestrator.handle_event("db".to_string(), start()).unwrap();
    db.on_liveness(Ok(1));
    match db.on_sample(raw(3), Some(2000)) {
        WatcherAction::Forward(record) => assert_eq!(record.energy_delta, None),
        other => panic!("unexpected action {:?}", other),
    }
}

#[test]
fn watchers_have_no_energy_stage_when_powercap_is_off() {
    let mut settings = params(None);
    settings.disable_powercap = true;
    let mut orchestrator = Orchestrator::new(&settings, true);
    let mut web = orchestrator.handle_event("web".to_string(), start()).unwrap();
    web.on_liveness(Ok(1));
    web.on_sample(raw(1), Some(1000));
    match web.on_sample(raw(2), Some(1500)) {
        WatcherAction::Forward(record) => assert_eq!(record.energy_delta, None),
        other => panic!("unexpected action {:?}", other),
    }
}

#[test]
fn watchers_have_no_energy_stage_when_the_host_has_no_counter() {
    let mut orchestrator = Orchestrator::new(&params(None), false);
    let mut web = orchestrator.handle_event("web".to_string(), start()).unwrap();
    web.on_liveness(Ok(1));
    web.on_sample(raw(1), Some(1000));
    match web.on_sample(raw(2), Some(1500)) {
        WatcherAction::Forward(record) => assert_eq!(record.energy_delta, None),
        other => panic!("unexpected action {:?}", other),
    }
}

#[test]
fn event_with_a_name_is_handled() {
    let mut orchestrator = Orchestrator::new(&params(None), true);
    let spawned = orchestrator.on_event(event(Some("start"), Some("web")));
    assert_eq!(spawned.unwrap().name(), "web");
    assert!(orchestrator.on_event(event(Some("start"), Some("web"))).is_none());
    assert!(orchestrator.on_event(event(Some("stop"), Some("db"))).is_none());
    assert!(!orchestrator.is_running("db"));
}

#[test]
fn event_without_a_name_is_ignored() {
    let mut orchestrator = Orchestrator::new(&params(None), true);
    assert!(orchestrator.on_event(event(Some("start"), None)).is_none());
    let bare = EventMessage { action: Some("start".to_string()), actor: None };
    assert!(orchestrator.on_event(bare).is_none());
}

#[test]
fn container_name_is_the_name_attribute_of_the_actor() {
    assert_eq!(
        get_container_name(&event(Some("start"), Some("web"))),
        Some("web".to_string())
    );
    assert_eq!(get_container_name(&event(Some("start"), None)), None);
    let bare = EventMessage { action: None, actor: None };
    assert_eq!(get_container_name(&bare), None);
    let no_attributes = EventMessage {
        action: None,
        actor: Some(EventActor { id: None, attributes: None }),
    };
    assert_eq!(get_container_name(&no_attributes), None);
}

#[test]
fn find_value_takes_the_first_pair_with_the_key() {
    let pairs = vec![
        ("a".to_string(), "1".to_string()),
        ("b".to_string(), "2".to_string()),
        ("a".to_string(), "3".to_string()),
    ];
    assert_eq!(find_value(&pairs, "a"), Some("1".to_string()));
    assert_eq!(find_value(&pairs, "b"), Some("2".to_string()));
    assert_eq!(find_value(&pairs, "c"), None);
    assert_eq!(find_value(&Vec::new(), "a"), None);
}

#[test]
fn list_running_takes_the_first_name_of_each_entry() {
    let listing = vec![
        ContainerSummary { names: Some(vec!["/web".to_string(), "/alias".to_string()]) },
        ContainerSummary { names: None },
        ContainerSummary { names: Some(Vec::new()) },
        ContainerSummary { names: Some(vec!["/db".to_string()]) },
    ];
    let running = Orchestrator::list_running(Ok(listing)).unwrap();
    assert_eq!(running, vec!["/web".to_string(), "/db".to_string()]);
}

#[test]
fn list_running_of_an_empty_listing_is_empty() {
    assert!(Orchestrator::list_running(Ok(Vec::new())).unwrap().is_empty());
}

#[test]
fn list_running_reports_a_failed_listing() {
    match Orchestrator::list_running(Err("timeout".to_string())) {
        Err(Error::Custom(message)) => {
            assert_eq!(message, "couldn't list running containers: timeout")
        }
        other => panic!("unexpected outcome {:?}", other),
    }
}

#[test]
fn running_query_filters_on_status_only() {
    let query = ContainerQuery::running();
    assert!(query.name.is_empty());
    assert_eq!(query.status, vec!["running".to_string()]);
}

#[test]
fn events_are_subscribed_for_containers_only() {
    let query = docker_activity::runtime::EventsQuery::containers();
    assert_eq!(query.types, vec!["container".to_string()]);
}
