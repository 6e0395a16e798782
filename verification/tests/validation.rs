use kubelet::pod::Pod as KubeletPod;
use wascc_provider::error::ProviderError;
use wascc_provider::pod::{
    has_args, key_from_pod, validate_container_runnable, validate_pod_runnable, Container, Pod,
};

fn make_pod_spec(containers: &str) -> Pod {
    let text = format!(
        r#"{{
            "apiVersion": "v1",
            "kind": "Pod",
            "metadata": {{
                "name": "test-pod-spec"
            }},
            "spec": {{
                "containers": {}
            }}
        }}"#,
        containers
    );
    read_pod(&KubeletPod::new(serde_json::from_str(&text).unwrap()))
}

fn read_pod(pod: &KubeletPod) -> Pod {
    let mut containers = Vec::new();
    for container in pod.containers() {
        containers.push(Container {
            name: container.name().to_owned(),
            args: container.args().clone(),
            ports: None,
            volume_mounts: None,
        });
    }
    let mut init_containers = Vec::new();
    for container in pod.init_containers() {
        init_containers.push(Container {
            name: container.name().to_owned(),
            args: container.args().clone(),
            ports: None,
            volume_mounts: None,
        });
    }
    Pod {
        name: pod.name().to_owned(),
        namespace: pod.namespace().to_owned(),
        deletion_requested: pod.deletion_timestamp().is_some(),
        init_containers,
        containers,
    }
}

fn plain_container(name: &str) -> Container {
    Container {
        name: name.to_owned(),
        args: None,
        ports: None,
        volume_mounts: None,
    }
}

#[test]
fn can_run_pod_where_container_has_no_args() {
    let containers = r#"[
            {
                "name": "greet-wascc",
                "image": "webassembly.azurecr.io/greet-wascc:v0.4"
            }
        ]"#;
    let pod = make_pod_spec(containers);
    validate_pod_runnable(&pod).unwrap();
}

#[test]
fn can_run_pod_where_container_has_empty_args() {
    let containers = r#"[
            {
                "name": "greet-wascc",
                "image": "webassembly.azurecr.io/greet-wascc:v0.4",
                "args": []
            }
        ]"#;
    let pod = make_pod_spec(containers);
    validate_pod_runnable(&pod).unwrap();
}

#[test]
fn cannot_run_pod_where_container_has_args() {
    let containers = r#"[
            {
                "name": "greet-wascc",
                "image": "webassembly.azurecr.io/greet-wascc:v0.4",
                "args": [
                    "--foo",
                    "--bar"
                ]
            }
        ]"#;
    let pod = make_pod_spec(containers);
    assert!(validate_pod_runnable(&pod).is_err());
}

#[test]
fn cannot_run_pod_where_any_container_has_args() {
    let containers = r#"[
            {
                "name": "greet-1",
                "image": "webassembly.azurecr.io/greet-wascc:v0.4"
            },
            {
                "name": "greet-2",
                "image": "webassembly.azurecr.io/greet-wascc:v0.4",
                "args": [
                    "--foo",
                    "--bar"
                ]
            }
        ]"#;
    let pod = make_pod_spec(containers);
    let validation = validate_pod_runnable(&pod);
    assert!(validation.is_err());
    let message = validation.unwrap_err().message();
    assert!(
        message.contains("greet-2"),
        "validation error did not give name of bad container"
    );
}

#[test]
fn first_container_with_args_is_reported() {
    let mut pod = make_pod_spec("[]");
    for name in ["a", "b", "c"] {
        let mut container = plain_container(name);
        if name != "a" {
            container.args = Some(vec!["--verbose".to_owned()]);
        }
        pod.containers.push(container);
    }
    let error = validate_pod_runnable(&pod).unwrap_err();
    assert_eq!(
        error.message(),
        "Cannot run b: spec specifies container args which are not supported on wasCC"
    );
    assert!(matches!(error, ProviderError::ContainerArgs { .. }));
}

#[test]
fn init_containers_are_refused_before_args() {
    let mut pod = make_pod_spec("[]");
    pod.init_containers.push(plain_container("setup"));
    let mut container = plain_container("main");
    container.args = Some(vec!["--verbose".to_owned()]);
    pod.containers.push(container);
    let error = validate_pod_runnable(&pod).unwrap_err();
    assert_eq!(
        error.message(),
        "Cannot run test-pod-spec: spec specifies init containers which are not supported on wasCC"
    );
}

#[test]
fn pod_without_containers_can_run() {
    let pod = make_pod_spec("[]");
    assert!(validate_pod_runnable(&pod).is_ok());
}

#[test]
fn container_is_validated_on_its_own() {
    let mut container = plain_container("main");
    assert!(!has_args(&container));
    assert!(validate_container_runnable(&container).is_ok());
    container.args = Some(vec!["".to_owned()]);
    assert!(has_args(&container));
    assert!(validate_container_runnable(&container).is_err());
}

#[test]
fn pod_key_joins_namespace_and_name() {
    let pod = make_pod_spec("[]");
    assert_eq!(key_from_pod(&pod), "default:test-pod-spec");
}
