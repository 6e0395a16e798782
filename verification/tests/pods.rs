use wascc_provider::addition::{bind_volumes, AddAction, AddEvent, AddStage, PodAddition};
use wascc_provider::error::ProviderError;
use wascc_provider::pod::{key_from_pod, Container, ContainerPort, Pod};
use wascc_provider::provider::{startup_script, PodModification};
use wascc_provider::script::{Command, NativeCapability, Step};
use wascc_provider::status::{
    initial_status, stopped_status, ContainerStatus, Phase, StartFailure,
};
use wascc_provider::string_map::StringMap;
use wascc_provider::WasccProvider;

fn container(name: &str, host_port: Option<i32>, mounts: Option<Vec<&str>>) -> Container {
    Container {
        name: name.to_owned(),
        args: None,
        ports: host_port.map(|port| {
            vec![ContainerPort {
                container_port: 80,
                host_port: Some(port),
            }]
        }),
        volume_mounts: mounts.map(|names| names.into_iter().map(|name| name.to_owned()).collect()),
    }
}

fn pod(name: &str, containers: Vec<Container>) -> Pod {
    Pod {
        name: name.to_owned(),
        namespace: "default".to_owned(),
        deletion_requested: false,
        init_containers: Vec::new(),
        containers,
    }
}

fn strings<V>(pairs: Vec<(&str, V)>) -> StringMap<V> {
    let mut map = StringMap::new();
    for (key, value) in pairs {
        map.insert(key.to_owned(), value);
    }
    map
}

fn provider() -> WasccProvider<u32> {
    let mut startup = startup_script();
    while startup.pending().is_some() {
        startup.record(Ok(())).unwrap();
    }
    WasccProvider::new(&startup).unwrap()
}

#[test]
fn provider_is_there_once_start_up_is_done() {
    let mut startup = startup_script();
    let mut steps = Vec::new();
    loop {
        assert!(steps.len() == 6 || WasccProvider::<u32>::new(&startup).is_none());
        match startup.pending() {
            Some(command) => steps.push(command.step()),
            None => break,
        }
        startup.record(Ok(())).unwrap();
    }
    assert_eq!(steps.len(), 6);
    assert_eq!(
        steps,
        vec![
            Step::CreateDirectory,
            Step::CreateDirectory,
            Step::InstantiateCapability(NativeCapability::Http),
            Step::AddCapability(NativeCapability::Http),
            Step::InstantiateCapability(NativeCapability::Logging),
            Step::AddCapability(NativeCapability::Logging),
        ]
    );
    let mut provider = WasccProvider::<u32>::new(&startup).unwrap();
    assert!(!provider.port_map.is_taken(30000));
    assert!(provider
        .logs(&"default".to_owned(), &"web".to_owned())
        .is_err());
}

#[test]
fn provider_is_not_there_if_start_up_fails() {
    let mut startup = startup_script();
    for _ in 0..5 {
        startup.record(Ok(())).unwrap();
    }
    let error = startup.record(Err("no".to_owned())).unwrap_err();
    assert_eq!(error.message(), "Failed to add log capability: no");
    assert!(WasccProvider::<u32>::new(&startup).is_none());
}

#[test]
fn node_is_tainted_for_its_architecture() {
    let profile = WasccProvider::<u32>::node();
    assert_eq!(profile.architecture, "wasm-wasi");
    assert_eq!(profile.taint_effect, "NoExecute");
    assert_eq!(profile.taint_key, "krustlet/arch");
    assert_eq!(profile.taint_value, "wasm32-wascc");
}

#[test]
fn volumes_are_bound_in_mount_order() {
    let volumes = strings(vec![
        ("a", "/vol/a".to_owned()),
        ("b", "/vol/b".to_owned()),
        ("c", "/vol/c".to_owned()),
    ]);
    let main = container("main", None, Some(vec!["c", "a", "c"]));
    let bound = bind_volumes(&main, &volumes).unwrap();
    let pairs: Vec<(&str, &str)> = bound
        .iter()
        .map(|binding| (binding.name.as_str(), binding.host_path.as_str()))
        .collect();
    assert_eq!(
        pairs,
        vec![("c", "/vol/c"), ("a", "/vol/a"), ("c", "/vol/c")]
    );
    assert!(bind_volumes(&container("main", None, None), &volumes)
        .unwrap()
        .is_empty());
}

#[test]
fn first_missing_volume_is_reported() {
    let volumes = strings(vec![("a", "/vol/a".to_owned())]);
    let error = bind_volumes(&container("main", None, Some(vec!["a", "x", "y"])), &volumes)
        .err()
        .unwrap();
    assert_eq!(
        error.message(),
        "no volume with the name of x found for container main"
    );
}

#[test]
fn pod_is_added_container_by_container() {
    let mut provider = provider();
    let web = pod(
        "web",
        vec![
            container("front", Some(8080), Some(vec!["data"])),
            container("back", None, None),
        ],
    );
    let mut addition: PodAddition<&str> = PodAddition::new(web);
    assert!(matches!(
        addition.advance(&mut provider, AddEvent::Begin),
        AddAction::FetchModules
    ));
    let modules = strings(vec![("front", vec![1u8]), ("back", vec![2u8])]);
    assert!(matches!(
        addition.advance(&mut provider, AddEvent::ModulesFetched(modules)),
        AddAction::PrepareVolumes
    ));
    let volumes = strings(vec![("data", "/vol/data".to_owned())]);
    assert!(matches!(
        addition.advance(&mut provider, AddEvent::VolumesPrepared(volumes)),
        AddAction::ReadEnvironment { container: 0 }
    ));
    assert_eq!(provider.port_map.holder(8080), Some(&"web".to_owned()));
    assert!(addition.has_module(0));

    let env = strings(vec![("HELLO", "world".to_owned())]);
    match addition.advance(&mut provider, AddEvent::EnvironmentRead(env)) {
        AddAction::StartContainer { container, start } => {
            assert_eq!(container, 0);
            assert_eq!(start.module, vec![1u8]);
            assert_eq!(start.port_assigned, 8080);
            assert_eq!(start.volumes.len(), 1);
            assert_eq!(start.volumes[0].name, "data");
            assert_eq!(start.volumes[0].host_path, "/vol/data");
            assert_eq!(
                start.env.get(&"HELLO".to_owned()),
                Some(&"world".to_owned())
            );
        }
        _ => panic!("the first container is to be started"),
    }
    assert!(!addition.has_module(0));
    assert!(matches!(
        addition.advance(&mut provider, AddEvent::ContainerStarted("handle of front")),
        AddAction::AnnounceRunning {
            container: 0,
            container_status: ContainerStatus::Running
        }
    ));
    assert!(matches!(
        addition.advance(&mut provider, AddEvent::RunningAnnounced),
        AddAction::ReadEnvironment { container: 1 }
    ));

    match addition.advance(&mut provider, AddEvent::EnvironmentRead(StringMap::new())) {
        AddAction::StartContainer { container, start } => {
            assert_eq!(container, 1);
            assert_eq!(start.module, vec![2u8]);
            assert_eq!(start.port_assigned, 0);
            assert!(start.volumes.is_empty());
        }
        _ => panic!("the second container is to be started"),
    }
    addition.advance(&mut provider, AddEvent::ContainerStarted("handle of back"));
    match addition.advance(&mut provider, AddEvent::RunningAnnounced) {
        AddAction::CreateHandle { container_handles } => {
            let (names, values) = container_handles.into_parts();
            assert_eq!(names, vec!["front", "back"]);
            assert_eq!(values, vec!["handle of front", "handle of back"]);
        }
        _ => panic!("the handle of the pod is to be made"),
    }
    assert!(matches!(
        addition.advance(&mut provider, AddEvent::HandleCreated(17)),
        AddAction::Finish(Ok(()))
    ));
    let handle = provider
        .logs(&"default".to_owned(), &"web".to_owned())
        .unwrap();
    assert_eq!(*handle, 17);
}

#[test]
fn addition_of_refused_pod_ends_at_once() {
    let mut provider = provider();
    let mut web = pod("web", vec![container("main", Some(8080), None)]);
    web.init_containers.push(container("setup", None, None));
    let mut addition: PodAddition<u32> = PodAddition::new(web);
    match addition.advance(&mut provider, AddEvent::Begin) {
        AddAction::Finish(Err(error)) => assert_eq!(
            error.message(),
            "Cannot run web: spec specifies init containers which are not supported on wasCC"
        ),
        _ => panic!("the pod cannot run"),
    }
    assert!(!provider.port_map.is_taken(8080));
    assert!(matches!(addition.stage, AddStage::Finished));
}

#[test]
fn pod_without_containers_is_added() {
    let mut provider = provider();
    let mut addition: PodAddition<u32> = PodAddition::new(pod("empty", Vec::new()));
    addition.advance(&mut provider, AddEvent::Begin);
    addition.advance(&mut provider, AddEvent::ModulesFetched(StringMap::new()));
    assert!(matches!(
        addition.advance(&mut provider, AddEvent::VolumesPrepared(StringMap::new())),
        AddAction::CreateHandle { .. }
    ));
    assert!(matches!(
        addition.advance(&mut provider, AddEvent::HandleCreated(5)),
        AddAction::Finish(Ok(()))
    ));
}

fn addition_at_first_container(
    provider: &mut WasccProvider<u32>,
    pod: Pod,
) -> (PodAddition<u32>, AddAction<u32>) {
    let mut modules = StringMap::new();
    for container in &pod.containers {
        modules.insert(container.name.clone(), vec![1u8]);
    }
    let mut addition: PodAddition<u32> = PodAddition::new(pod);
    addition.advance(provider, AddEvent::Begin);
    addition.advance(provider, AddEvent::ModulesFetched(modules));
    let action = addition.advance(provider, AddEvent::VolumesPrepared(StringMap::new()));
    (addition, action)
}

#[test]
fn second_pod_on_same_host_port_is_refused() {
    let mut provider = provider();
    let first = pod("first", vec![container("main", Some(8080), None)]);
    let (_, action) = addition_at_first_container(&mut provider, first);
    assert!(matches!(action, AddAction::ReadEnvironment { container: 0 }));
    let second = pod("second", vec![container("main", Some(8080), None)]);
    let (addition, action) = addition_at_first_container(&mut provider, second);
    match action {
        AddAction::Finish(Err(error)) => {
            assert_eq!(error.message(), "Port 8080 is currently in use")
        }
        _ => panic!("the port is in use"),
    }
    assert!(matches!(addition.stage, AddStage::Finished));
    assert_eq!(provider.port_map.holder(8080), Some(&"first".to_owned()));
}

#[test]
fn missing_volume_ends_addition_and_port_stays_assigned() {
    let mut provider = provider();
    let web = pod("web", vec![container("main", Some(8080), Some(vec!["x"]))]);
    let (mut addition, _) = addition_at_first_container(&mut provider, web);
    match addition.advance(&mut provider, AddEvent::EnvironmentRead(StringMap::new())) {
        AddAction::Finish(Err(error)) => assert_eq!(
            error.message(),
            "no volume with the name of x found for container main"
        ),
        _ => panic!("the volume does not exist"),
    }
    assert!(addition.has_module(0));
    assert!(provider.port_map.is_taken(8080));
}

#[test]
fn failed_start_is_reported_in_status_and_error() {
    let mut provider = provider();
    let web = pod("web", vec![container("main", None, None)]);
    let (mut addition, _) = addition_at_first_container(&mut provider, web);
    addition.advance(&mut provider, AddEvent::EnvironmentRead(StringMap::new()));
    let failure = StartFailure {
        summary: "no space".to_owned(),
        details: "no space\n\nCaused by: disk full".to_owned(),
    };
    match addition.advance(&mut provider, AddEvent::ContainerFailed(failure)) {
        AddAction::PatchStatus { status } => {
            assert!(status.message.is_none());
            let (names, statuses) = status.container_statuses.into_parts();
            assert_eq!(names, vec!["main"]);
            match &statuses[0] {
                ContainerStatus::Terminated { reason, failed } => {
                    assert_eq!(
                        reason,
                        "Error while starting container: no space\n\nCaused by: disk full"
                    );
                    assert!(*failed);
                }
                _ => panic!("the container has ended"),
            }
        }
        _ => panic!("the status is to be changed"),
    }
    match addition.advance(&mut provider, AddEvent::StatusPatched) {
        AddAction::Finish(Err(error)) => {
            assert_eq!(error.message(), "Failed to run pod: no space")
        }
        _ => panic!("the addition has ended"),
    }
    assert!(provider
        .logs(&"default".to_owned(), &"web".to_owned())
        .is_err());
}

#[test]
fn addition_leaves_other_pods_alone() {
    let mut provider = provider();
    let other = pod("other", Vec::new());
    provider.keep(key_from_pod(&other), 1);
    provider.port_map.insert(8081, "other".to_owned());
    let web = pod(
        "web",
        vec![
            container("front", Some(8080), None),
            container("back", Some(8081), None),
        ],
    );
    let (mut addition, _) = addition_at_first_container(&mut provider, web);
    addition.advance(&mut provider, AddEvent::EnvironmentRead(StringMap::new()));
    addition.advance(&mut provider, AddEvent::ContainerStarted(7));
    match addition.advance(&mut provider, AddEvent::RunningAnnounced) {
        AddAction::Finish(Err(error)) => {
            assert_eq!(error.message(), "Port 8081 is currently in use")
        }
        _ => panic!("the port is in use"),
    }
    assert_eq!(provider.port_map.holder(8080), Some(&"web".to_owned()));
    assert_eq!(provider.port_map.holder(8081), Some(&"other".to_owned()));
    assert_eq!(provider.delete(&other), Some(1));
}

#[test]
fn addition_ends_after_few_events() {
    let mut provider = provider();
    let web = pod(
        "web",
        vec![
            container("a", None, None),
            container("b", None, None),
            container("c", None, None),
        ],
    );
    let mut modules = StringMap::new();
    for name in ["a", "b", "c"] {
        modules.insert(name.to_owned(), Vec::new());
    }
    let mut addition: PodAddition<u32> = PodAddition::new(web);
    let mut modules = Some(modules);
    let mut event = AddEvent::Begin;
    let mut events = 0;
    loop {
        events += 1;
        event = match addition.advance(&mut provider, event) {
            AddAction::FetchModules => AddEvent::ModulesFetched(modules.take().unwrap()),
            AddAction::PrepareVolumes => AddEvent::VolumesPrepared(StringMap::new()),
            AddAction::ReadEnvironment { .. } => AddEvent::EnvironmentRead(StringMap::new()),
            AddAction::StartContainer { container, .. } => {
                AddEvent::ContainerStarted(container as u32)
            }
            AddAction::AnnounceRunning { .. } => AddEvent::RunningAnnounced,
            AddAction::PatchStatus { .. } => AddEvent::StatusPatched,
            AddAction::CreateHandle { .. } => AddEvent::HandleCreated(9),
            AddAction::Finish(outcome) => {
                assert!(outcome.is_ok());
                break;
            }
            AddAction::GiveUp => panic!("nothing has failed"),
        };
    }
    assert_eq!(events, 3 + 3 * 3 + 1);
    assert!(events <= 5 * 3 + 5);
}

#[test]
fn outside_failure_ends_addition() {
    let mut provider = provider();
    let mut addition: PodAddition<u32> =
        PodAddition::new(pod("web", vec![container("main", None, None)]));
    addition.advance(&mut provider, AddEvent::Begin);
    assert!(matches!(
        addition.advance(&mut provider, AddEvent::OutsideFailed),
        AddAction::GiveUp
    ));
    assert!(matches!(addition.stage, AddStage::Finished));
}

#[test]
fn start_failure_says_what_the_error_says() {
    let failure = StartFailure::of(&ProviderError::LoadModule {
        cause: "bad magic".to_owned(),
    });
    assert_eq!(failure.summary, "Error loading WASM: bad magic");
    assert_eq!(failure.details, "Error loading WASM: bad magic");
}

#[test]
fn container_waits_at_first() {
    match initial_status() {
        ContainerStatus::Waiting { message } => {
            assert_eq!(message, "No status has been received from the process");
        }
        _ => panic!("the container waits"),
    }
}

#[test]
fn modified_pod_is_stopped_only_for_deletion() {
    let mut provider = provider();
    let mut web = pod("web", vec![container("main", None, None)]);
    provider.keep(key_from_pod(&web), 1);
    assert!(matches!(provider.modify(&web), PodModification::Keep));
    web.deletion_requested = true;
    match provider.modify(&web) {
        PodModification::Stop { handle, mut script } => {
            assert_eq!(*handle, 1);
            *handle = 2;
            assert!(matches!(script.pending(), Some(Command::StopPod)));
            script.record(Ok(())).unwrap();
            match script.pending() {
                Some(Command::ReplaceStatus {
                    namespace,
                    pod_name,
                    status,
                }) => {
                    assert_eq!(namespace, "default");
                    assert_eq!(pod_name, "web");
                    assert_eq!(status.message, "Pod stopped");
                }
                _ => panic!("the status is to be replaced"),
            }
            script.record(Ok(())).unwrap();
            match script.pending() {
                Some(Command::DeletePod {
                    namespace,
                    pod_name,
                    grace_period_seconds,
                }) => {
                    assert_eq!(namespace, "default");
                    assert_eq!(pod_name, "web");
                    assert_eq!(*grace_period_seconds, 0);
                }
                _ => panic!("the pod is to be deleted"),
            }
            let error = script.record(Err("not found".to_owned())).unwrap_err();
            assert_eq!(error.message(), "not found");
        }
        _ => panic!("the pod is to be stopped"),
    }
    let other = Pod {
        deletion_requested: true,
        ..pod("other", Vec::new())
    };
    assert!(matches!(
        provider.modify(&other),
        PodModification::NotRunning
    ));
    assert_eq!(provider.delete(&web), Some(2));
}

#[test]
fn stopped_pod_has_succeeded_with_all_containers() {
    let status = stopped_status(&pod(
        "web",
        vec![container("front", None, None), container("back", None, None)],
    ));
    assert_eq!(status.resource_version, "");
    assert_eq!(status.message, "Pod stopped");
    assert_eq!(status.phase, Phase::Succeeded);
    assert_eq!(status.container_statuses.len(), 2);
    for (named, name) in status.container_statuses.iter().zip(["front", "back"]) {
        assert_eq!(named.container_name, name);
        match &named.status {
            ContainerStatus::Terminated { reason, failed } => {
                assert_eq!(reason, "Pod stopped");
                assert!(!*failed);
            }
            _ => panic!("the container has ended"),
        }
    }
}

#[test]
fn deleted_pod_gives_up_port_and_handle() {
    let mut provider = provider();
    let web = pod("web", vec![container("main", Some(8080), None)]);
    let other = pod("other", vec![container("main", Some(8081), None)]);
    assert_eq!(
        provider
            .assign_container_port(&web, &web.containers[0])
            .unwrap(),
        8080
    );
    assert_eq!(
        provider
            .assign_container_port(&other, &other.containers[0])
            .unwrap(),
        8081
    );
    provider.keep(key_from_pod(&web), 1);
    provider.keep(key_from_pod(&other), 2);
    assert_eq!(provider.delete(&web), Some(1));
    assert!(!provider.port_map.is_taken(8080));
    assert!(provider.port_map.is_taken(8081));
    let error = provider
        .logs(&"default".to_owned(), &"web".to_owned())
        .unwrap_err();
    assert_eq!(error.message(), "cannot find pod web");
    assert_eq!(
        *provider
            .logs(&"default".to_owned(), &"other".to_owned())
            .unwrap(),
        2
    );
    assert_eq!(provider.delete(&web), None);
}

#[test]
fn second_delete_changes_nothing() {
    let mut provider = provider();
    let web = pod("web", Vec::new());
    provider.keep(key_from_pod(&web), 1);
    provider.port_map.insert(8080, "web".to_owned());
    provider.port_map.insert(8081, "other".to_owned());
    assert_eq!(provider.delete(&web), Some(1));
    assert_eq!(provider.delete(&web), None);
    assert!(!provider.port_map.is_taken(8080));
    assert_eq!(provider.port_map.holder(8081), Some(&"other".to_owned()));
}

#[test]
fn second_delete_frees_another_port_of_the_pod() {
    let mut provider = provider();
    let web = pod("web", Vec::new());
    provider.port_map.insert(8080, "web".to_owned());
    provider.port_map.insert(8081, "web".to_owned());
    provider.delete(&web);
    assert!(provider.port_map.is_taken(8080) != provider.port_map.is_taken(8081));
    provider.delete(&web);
    assert!(!provider.port_map.is_taken(8080) && !provider.port_map.is_taken(8081));
}

#[test]
fn pods_of_same_name_are_told_apart_by_namespace() {
    let mut provider = provider();
    let web = pod("web", Vec::new());
    let mut staged = pod("web", Vec::new());
    staged.namespace = "staging".to_owned();
    provider.keep(key_from_pod(&web), 1);
    provider.keep(key_from_pod(&staged), 2);
    assert_eq!(provider.keep(key_from_pod(&web), 3), Some(1));
    assert_eq!(provider.delete(&staged), Some(2));
    assert_eq!(provider.delete(&web), Some(3));
}

#[test]
fn map_keeps_last_value_of_a_key() {
    let mut map: StringMap<u32> = StringMap::new();
    assert_eq!(map.insert("a".to_owned(), 1), None);
    assert_eq!(map.insert("b".to_owned(), 2), None);
    assert_eq!(map.insert("a".to_owned(), 3), Some(1));
    assert_eq!(map.get(&"a".to_owned()), Some(&3));
    assert_eq!(map.remove(&"b".to_owned()), Some(2));
    assert_eq!(map.remove(&"b".to_owned()), None);
    assert!(!map.contains_key(&"b".to_owned()));
    *map.get_mut(&"a".to_owned()).unwrap() = 4;
    let (keys, values) = map.into_parts();
    assert_eq!(keys, vec!["a"]);
    assert_eq!(values, vec![4]);
}
