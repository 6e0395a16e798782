use wascap::prelude::KeyPair;
use wascc_provider::actor::{run_script, wascc_run};
use wascc_provider::capability::{
    plan_capabilities, Capability, EnvVars, VolumeBinding, FS_CAPABILITY, HTTP_CAPABILITY,
    LOG_CAPABILITY,
};
use wascc_provider::error::ProviderError;
use wascc_provider::script::{Command, NativeCapability, Script, Step};
use wascc_provider::string_map::StringMap;
use wascc_provider::text::to_decimal;
use wascc_provider::ActorHandle;

fn env(pairs: Vec<(&str, &str)>) -> EnvVars {
    let mut env: EnvVars = StringMap::new();
    for (key, value) in pairs {
        env.insert(key.to_owned(), value.to_owned());
    }
    env
}

fn volume(name: &str, host_path: &str) -> VolumeBinding {
    VolumeBinding {
        name: name.to_owned(),
        host_path: host_path.to_owned(),
    }
}

fn get<'a>(env: &'a EnvVars, key: &str) -> Option<&'a str> {
    env.get(&key.to_owned()).map(|value| value.as_str())
}

fn all_caps() -> Vec<String> {
    vec![
        FS_CAPABILITY.to_owned(),
        HTTP_CAPABILITY.to_owned(),
        LOG_CAPABILITY.to_owned(),
    ]
}

fn describe_capability(capability: &Capability) -> String {
    format!("{}/{:?}", capability.name, capability.binding)
}

fn describe(command: &Command) -> String {
    match command {
        Command::CreateDirectory { name } => format!("mkdir {}", name),
        Command::InstantiateCapability { native, binding } => {
            format!("make {:?} {:?}", native, binding)
        }
        Command::AddCapability { native } => format!("add {:?}", native),
        Command::AddActor => "add actor".to_owned(),
        Command::BindActor { key, capability } => {
            format!("bind {} {}", key, describe_capability(capability))
        }
        Command::RemoveActor { key } => format!("remove actor {}", key),
        Command::RemoveCapability { name, binding } => format!("remove {} {:?}", name, binding),
        Command::StopPod => "stop pod".to_owned(),
        Command::ReplaceStatus {
            namespace,
            pod_name,
            status,
        } => format!("status {} {} {}", namespace, pod_name, status.message),
        Command::DeletePod {
            namespace,
            pod_name,
            grace_period_seconds,
        } => format!("delete {} {} {}", namespace, pod_name, grace_period_seconds),
    }
}

fn run_through(script: &mut Script) -> Vec<String> {
    let mut lines = Vec::new();
    loop {
        let line = match script.pending() {
            Some(command) => describe(command),
            None => return lines,
        };
        lines.push(line);
        script.record(Ok(())).unwrap();
    }
}

fn signed_module(caps: Vec<String>) -> (Vec<u8>, String) {
    let bare: Vec<u8> = vec![0, 0x61, 0x73, 0x6d, 1, 0, 0, 0];
    let module_key = KeyPair::new_module();
    let account_key = KeyPair::new_account();
    let key = module_key.public_key();
    let signed = wascap::wasm::sign_buffer_with_claims(
        "greeter".to_owned(),
        &bare,
        module_key,
        account_key,
        None,
        None,
        caps,
        Vec::new(),
        false,
        Some(1),
        Some("0.1".to_owned()),
    )
    .unwrap();
    (signed, key)
}

#[test]
fn capabilities_come_in_order() {
    let planned = plan_capabilities(
        &all_caps(),
        env(vec![("HELLO", "world"), ("PORT", "1")]),
        &vec![volume("data", "/vol/data"), volume("tmp", "/vol/tmp")],
        30080,
    );
    let lines: Vec<String> = planned.iter().map(describe_capability).collect();
    assert_eq!(
        lines,
        vec![
            "wascc:logging/None",
            "wascc:http_server/None",
            "wascc:blobstore/Some(\"data\")",
            "wascc:blobstore/Some(\"tmp\")",
        ]
    );
    assert_eq!(get(&planned[0].env, "HELLO"), None);
    assert_eq!(get(&planned[1].env, "HELLO"), Some("world"));
    assert_eq!(get(&planned[1].env, "PORT"), Some("30080"));
    assert_eq!(get(&planned[2].env, "ROOT"), Some("/vol/data"));
    assert_eq!(get(&planned[2].env, "HELLO"), None);
    assert_eq!(get(&planned[3].env, "ROOT"), Some("/vol/tmp"));
}

#[test]
fn undeclared_capabilities_are_left_out() {
    let planned = plan_capabilities(
        &vec!["wascc:messaging".to_owned(), LOG_CAPABILITY.to_owned()],
        env(vec![("HELLO", "world")]),
        &vec![volume("data", "/vol/data")],
        30080,
    );
    assert_eq!(planned.len(), 1);
    assert_eq!(planned[0].name, "wascc:logging");
}

#[test]
fn run_registers_then_adds_then_binds() {
    let mut script = run_script(
        &"MKEY".to_owned(),
        &all_caps(),
        env(Vec::new()),
        &vec![volume("data", "/vol/data"), volume("tmp", "/vol/tmp")],
        30080,
    );
    assert_eq!(
        run_through(&mut script),
        vec![
            "make FileSystem Some(\"data\")",
            "add FileSystem",
            "make FileSystem Some(\"tmp\")",
            "add FileSystem",
            "add actor",
            "bind MKEY wascc:logging/None",
            "bind MKEY wascc:http_server/None",
            "bind MKEY wascc:blobstore/Some(\"data\")",
            "bind MKEY wascc:blobstore/Some(\"tmp\")",
        ]
    );
    assert!(script.is_completed());
}

#[test]
fn run_without_file_system_registers_nothing() {
    let mut script = run_script(
        &"MKEY".to_owned(),
        &Vec::new(),
        env(Vec::new()),
        &vec![volume("data", "/vol/data")],
        0,
    );
    assert_eq!(run_through(&mut script), vec!["add actor"]);
}

#[test]
fn signed_module_is_run_with_its_key_and_capabilities() {
    let (module, key) = signed_module(vec![HTTP_CAPABILITY.to_owned()]);
    let mut run = wascc_run(
        &module,
        env(vec![("HELLO", "world")]),
        vec![volume("data", "/vol/data")],
        30080,
    )
    .unwrap();
    assert_eq!(run.actor.public_key(), key);
    assert_eq!(run.handle.key, key);
    assert_eq!(run.handle.volumes.len(), 1);
    assert_eq!(run.handle.volumes[0].name, "data");
    assert_eq!(
        run_through(&mut run.script),
        vec![
            "add actor".to_owned(),
            format!("bind {} wascc:http_server/None", key),
        ]
    );
}

#[test]
fn actor_is_the_one_of_the_module() {
    let (first, first_key) = signed_module(vec![LOG_CAPABILITY.to_owned()]);
    let (second, second_key) = signed_module(Vec::new());
    let first_run = wascc_run(&first, env(Vec::new()), Vec::new(), 1).ok().unwrap();
    let second_run = wascc_run(&second, env(Vec::new()), Vec::new(), 1).ok().unwrap();
    assert_eq!(first_run.actor.public_key(), first_key);
    assert_eq!(first_run.actor.capabilities(), vec![LOG_CAPABILITY]);
    assert_eq!(second_run.actor.public_key(), second_key);
    assert!(second_run.actor.capabilities().is_empty());
}

#[test]
fn environment_and_port_are_for_http_alone() {
    let caps = vec![FS_CAPABILITY.to_owned(), LOG_CAPABILITY.to_owned()];
    let mut lines = Vec::new();
    for (pairs, port) in [(vec![("HELLO", "world")], 30080), (Vec::new(), 0)] {
        let volumes = vec![volume("data", "/vol/data")];
        let planned = plan_capabilities(&caps, env(pairs.clone()), &volumes, port);
        for capability in &planned {
            assert_eq!(get(&capability.env, "HELLO"), None);
            assert_eq!(get(&capability.env, "PORT"), None);
        }
        let mut script = run_script(&"MKEY".to_owned(), &caps, env(pairs), &volumes, port);
        lines.push(run_through(&mut script));
    }
    assert_eq!(lines[0], lines[1]);
}

#[test]
fn unsigned_module_is_refused() {
    let bare: Vec<u8> = vec![0, 0x61, 0x73, 0x6d, 1, 0, 0, 0];
    let error = wascc_run(&bare, env(Vec::new()), Vec::new(), 0)
        .err()
        .unwrap();
    assert!(matches!(error, ProviderError::LoadModule { .. }));
    assert!(error.message().starts_with("Error loading WASM: "));
    assert!(error.message().contains("No embedded JWT in actor module"));
}

#[test]
fn garbage_is_refused() {
    let error = wascc_run(&vec![1, 2, 3], env(Vec::new()), Vec::new(), 0)
        .err()
        .unwrap();
    assert!(matches!(error, ProviderError::LoadModule { .. }));
}

#[test]
fn changed_module_is_refused() {
    let (mut module, _) = signed_module(Vec::new());
    module.extend_from_slice(&[0, 2, 1, 0x78]);
    let error = wascc_run(&module, env(Vec::new()), Vec::new(), 0)
        .err()
        .unwrap();
    assert!(matches!(error, ProviderError::LoadModule { .. }));
}

#[test]
fn stop_removes_actor_and_its_volumes_once() {
    let mut handle = ActorHandle {
        key: "MKEY".to_owned(),
        volumes: vec![volume("data", "/vol/data"), volume("tmp", "/vol/tmp")],
    };
    let mut script = handle.stop();
    assert_eq!(
        run_through(&mut script),
        vec![
            "remove actor MKEY",
            "remove wascc:blobstore Some(\"data\")",
            "remove wascc:blobstore Some(\"tmp\")",
        ]
    );
    let mut again = handle.stop();
    assert_eq!(run_through(&mut again), vec!["remove actor MKEY"]);
}

#[test]
fn script_stops_at_first_failure() {
    let mut script = run_script(
        &"MKEY".to_owned(),
        &all_caps(),
        env(Vec::new()),
        &vec![volume("data", "/vol/data")],
        30080,
    );
    script.record(Ok(())).unwrap();
    let error = script.record(Err("no room".to_owned())).unwrap_err();
    assert_eq!(
        error.message(),
        "Failed to add File System capability: no room"
    );
    assert!(script.pending().is_none());
    assert!(!script.is_completed());
}

#[test]
fn empty_script_is_completed() {
    let script = Script::new(Vec::new());
    assert!(script.pending().is_none());
    assert!(script.is_completed());
}

#[test]
fn each_step_has_its_complaint() {
    let expected = vec![
        (Step::CreateDirectory, "why"),
        (
            Step::InstantiateCapability(NativeCapability::Http),
            "Failed to instantiate HTTP capability: why",
        ),
        (
            Step::InstantiateCapability(NativeCapability::Logging),
            "Failed to instantiate log capability: why",
        ),
        (
            Step::InstantiateCapability(NativeCapability::FileSystem),
            "Failed to instantiate File System capability: why",
        ),
        (
            Step::AddCapability(NativeCapability::Http),
            "Failed to add HTTP capability: why",
        ),
        (
            Step::AddCapability(NativeCapability::Logging),
            "Failed to add log capability: why",
        ),
        (
            Step::AddCapability(NativeCapability::FileSystem),
            "Failed to add File System capability: why",
        ),
        (Step::AddActor, "Error adding actor: why"),
        (
            Step::BindActor,
            "Error configuring capabilities for module: why",
        ),
        (Step::RemoveActor, "unable to remove actor: why"),
        (
            Step::RemoveCapability,
            "unable to remove volume capability: why",
        ),
        (Step::StopPod, "why"),
        (Step::ReplaceStatus, "why"),
        (Step::DeletePod, "why"),
    ];
    for (step, message) in expected {
        let error = ProviderError::StepFailed {
            step,
            cause: "why".to_owned(),
        };
        assert_eq!(error.message(), message);
    }
}

#[test]
fn numbers_are_written_in_decimal() {
    for (number, text) in [
        (0, "0"),
        (7, "7"),
        (10, "10"),
        (30080, "30080"),
        (-1, "-1"),
        (i32::MAX, "2147483647"),
        (i32::MIN, "-2147483648"),
    ] {
        assert_eq!(to_decimal(number), text);
    }
}
