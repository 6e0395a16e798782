use crate::assignment::assign_ports;
use crate::error::ProviderError;
use crate::pod::{key_from_pod, pod_key, Container, Pod};
use crate::ports::PortMap;
use crate::script::{Command, CommandView, NativeCapability, Script, ScriptView};
use crate::status::stopped_status;
use crate::string_map::StringMap;
use vstd::prelude::*;

verus! {

/// The architecture that the pod targets.
pub const TARGET_WASM32_WASCC: &'static str = "wasm32-wascc";

/// The root directory of waSCC logs.
pub const LOG_DIR_NAME: &'static str = "wascc-logs";

/// The root directory of waSCC volumes.
pub const VOLUME_DIR: &'static str = "volumes";

/// How many seconds a stopped pod is given until it is deleted.
pub const DELETE_GRACE_PERIOD: u32 = 0;

/// What the node is presented as, so that only pods of the right architecture are sent to it.
#[derive(Debug, Clone, Copy)]
pub struct NodeProfile {
    pub architecture: &'static str,
    pub taint_effect: &'static str,
    pub taint_key: &'static str,
    pub taint_value: &'static str,
}

/// WasccProvider provides a Kubelet runtime implementation that executes WASM binaries.
///
/// This runtime uses waSCC as a host, loading the primary container as an actor. The provider keeps
/// a handle of type `H` for each pod that runs, and the ports that the pods hold.
pub struct WasccProvider<H> {
    /// The handles of the pods, by pod key.
    pub handles: StringMap<H>,
    pub port_map: PortMap,
}

/// What a provider keeps.
#[verifier::ext_equal]
pub struct ProviderView<H> {
    /// The handles of the pods, by pod key.
    pub handles: Map<Seq<char>, H>,
    /// The ports in use, each with the name of the pod that holds it.
    pub ports: Map<i32, Seq<char>>,
}

impl<H> View for WasccProvider<H> {
    type V = ProviderView<H>;

    open spec fn view(&self) -> ProviderView<H> {
        ProviderView { handles: self.handles@, ports: self.port_map@ }
    }
}

/// What it takes until the provider is there: to create its directories, and to register the
/// capabilities that are shared by all actors.
pub open spec fn startup_commands() -> Seq<CommandView> {
    seq![
        CommandView::CreateDirectory { name: LOG_DIR_NAME@ },
        CommandView::CreateDirectory { name: VOLUME_DIR@ },
        CommandView::InstantiateCapability { native: NativeCapability::Http, binding: None },
        CommandView::AddCapability { native: NativeCapability::Http },
        CommandView::InstantiateCapability { native: NativeCapability::Logging, binding: None },
        CommandView::AddCapability { native: NativeCapability::Logging },
    ]
}

/// What to do until the provider is there.
pub fn startup_script() -> (script: Script)
    ensures
        script@ == ScriptView::fresh(startup_commands()),
        script@.commands.contains(CommandView::CreateDirectory { name: "wascc-logs"@ }),
        script@.commands.contains(CommandView::CreateDirectory { name: "volumes"@ }),
{
    let mut commands: Vec<Command> = Vec::new();
    commands.push(Command::CreateDirectory { name: LOG_DIR_NAME });
    commands.push(Command::CreateDirectory { name: VOLUME_DIR });
    commands.push(
        Command::InstantiateCapability { native: NativeCapability::Http, binding: None },
    );
    commands.push(Command::AddCapability { native: NativeCapability::Http });
    commands.push(
        Command::InstantiateCapability { native: NativeCapability::Logging, binding: None },
    );
    commands.push(Command::AddCapability { native: NativeCapability::Logging });
    assert(crate::script::command_views(commands@) =~= startup_commands());
    assert(startup_commands()[0] == (CommandView::CreateDirectory { name: "wascc-logs"@ }));
    assert(startup_commands()[1] == (CommandView::CreateDirectory { name: "volumes"@ }));
    Script::new(commands)
}

/// What is to be done about a pod that was changed.
pub enum PodModification<'a, H> {
    /// Nothing: the pod is not to be deleted.
    Keep,
    /// Nothing: the pod is to be deleted but does not run here.
    NotRunning,
    /// Carry out the script, which stops the pod with this handle and deletes it.
    Stop { handle: &'a mut H, script: Script },
}

/// What it takes to remove the pod: to stop it, then to replace its status, and then to delete it.
pub open spec fn removal_commands(pod: Pod) -> Seq<CommandView> {
    seq![
        CommandView::StopPod,
        CommandView::ReplaceStatus {
            namespace: pod.namespace@,
            pod_name: pod.name@,
            status: crate::status::status_once_stopped(pod),
        },
        CommandView::DeletePod {
            namespace: pod.namespace@,
            pod_name: pod.name@,
            grace_period_seconds: DELETE_GRACE_PERIOD,
        },
    ]
}

/// Whether each of the commands that names a pod names this one, and the last one deletes it.
pub open spec fn removes_pod(
    commands: Seq<CommandView>,
    namespace: Seq<char>,
    name: Seq<char>,
) -> bool {
    &&& forall|i: int|
        0 <= i < commands.len() ==> match #[trigger] commands[i] {
            CommandView::ReplaceStatus { namespace: addressed, pod_name, .. } => addressed
                == namespace && pod_name == name,
            CommandView::DeletePod { namespace: addressed, pod_name, .. } => addressed == namespace
                && pod_name == name,
            _ => true,
        }
    &&& commands.len() > 0
    &&& commands.last() is DeletePod
}

/// What to do to remove the pod.
pub fn removal_script(pod: &Pod) -> (script: Script)
    ensures
        script@ == ScriptView::fresh(removal_commands(*pod)),
        removes_pod(script@.commands, pod.namespace@, pod.name@),
{
    let mut commands: Vec<Command> = Vec::new();
    commands.push(Command::StopPod);
    commands.push(
        Command::ReplaceStatus {
            namespace: pod.namespace.clone(),
            pod_name: pod.name.clone(),
            status: stopped_status(pod),
        },
    );
    commands.push(
        Command::DeletePod {
            namespace: pod.namespace.clone(),
            pod_name: pod.name.clone(),
            grace_period_seconds: DELETE_GRACE_PERIOD,
        },
    );
    assert(crate::script::command_views(commands@) =~= removal_commands(*pod));
    Script::new(commands)
}

/// Whether deleting the pod leads from `before` to `after` and gives back this handle: one of the
/// ports of the pod is free again, or port 0 if it holds none, and the pod is no longer kept.
pub open spec fn pod_deleted<H>(
    before: ProviderView<H>,
    namespace: Seq<char>,
    pod_name: Seq<char>,
    handle: Option<H>,
    after: ProviderView<H>,
) -> bool {
    let key = crate::pod::pod_key_text(namespace, pod_name);
    &&& exists|port: i32| #[trigger]
        crate::ports::port_released(before.ports, pod_name, port, after.ports)
    &&& after.handles == before.handles.remove(key)
    &&& handle == if before.handles.contains_key(key) {
        Some(before.handles[key])
    } else {
        None
    }
}

impl<H> WasccProvider<H> {
    /// A provider for which no pod runs and no port is in use, once all has been done that it
    /// takes; none before, nor if something of it has failed.
    pub fn new(startup: &Script) -> (provider: Option<WasccProvider<H>>)
        requires
            startup@.commands == startup_commands(),
        ensures
            provider is Some <==> startup@.completed(),
            provider is Some ==> {
                &&& startup@.commands.contains(CommandView::CreateDirectory { name: "wascc-logs"@ })
                &&& startup@.commands.contains(CommandView::CreateDirectory { name: "volumes"@ })
            },
            provider matches Some(provider) ==> {
                &&& provider@.handles == Map::<Seq<char>, H>::empty()
                &&& provider@.ports == Map::<i32, Seq<char>>::empty()
            },
    {
        assert(startup_commands()[0] == (CommandView::CreateDirectory { name: "wascc-logs"@ }));
        assert(startup_commands()[1] == (CommandView::CreateDirectory { name: "volumes"@ }));
        if startup.is_completed() {
            Some(WasccProvider { handles: StringMap::new(), port_map: PortMap::new() })
        } else {
            None
        }
    }

    /// What the node is presented as.
    pub fn node() -> (profile: NodeProfile)
        ensures
            profile.architecture@ == "wasm-wasi"@,
            profile.taint_effect@ == "NoExecute"@,
            profile.taint_key@ == "krustlet/arch"@,
            profile.taint_value@ == TARGET_WASM32_WASCC@,
    {
        NodeProfile {
            architecture: "wasm-wasi",
            taint_effect: "NoExecute",
            taint_key: "krustlet/arch",
            taint_value: TARGET_WASM32_WASCC,
        }
    }

    /// Serves the ports that a container of the pod lists, and returns the port assigned last.
    pub fn assign_container_port(&mut self, pod: &Pod, container: &Container) -> (outcome: Result<
        i32,
        ProviderError,
    >)
        ensures
            crate::assignment::assignment_outcome(
                old(self)@.ports,
                pod.name@,
                *container,
                outcome,
                final(self)@.ports,
            ),
            final(self)@.handles == old(self)@.handles,
    {
        assign_ports(&mut self.port_map, &pod.name, container)
    }

    /// Keeps the handle of a pod that runs, in place of one kept under the same key before.
    pub fn keep(&mut self, key: String, handle: H) -> (replaced: Option<H>)
        ensures
            final(self)@.handles == old(self)@.handles.insert(key@, handle),
            final(self)@.ports == old(self)@.ports,
            replaced == if old(self)@.handles.contains_key(key@) {
                Some(old(self)@.handles[key@])
            } else {
                None
            },
    {
        self.handles.insert(key, handle)
    }

    /// What is to be done about the pod now that it was changed.
    pub fn modify(&mut self, pod: &Pod) -> (modification: PodModification<'_, H>)
        ensures
            final(self)@.ports == old(self)@.ports,
            ({
                let key = crate::pod::pod_key_text(pod.namespace@, pod.name@);
                match modification {
                    PodModification::Keep => {
                        &&& !pod.deletion_requested
                        &&& final(self)@.handles == old(self)@.handles
                    },
                    PodModification::NotRunning => {
                        &&& pod.deletion_requested
                        &&& !old(self)@.handles.contains_key(key)
                        &&& final(self)@.handles == old(self)@.handles
                    },
                    PodModification::Stop { handle, script } => {
                        &&& pod.deletion_requested
                        &&& old(self)@.handles.contains_key(key)
                        &&& *handle == old(self)@.handles[key]
                        &&& final(self)@.handles == old(self)@.handles.insert(key, *final(handle))
                        &&& script@ == ScriptView::fresh(removal_commands(*pod))
                        &&& removes_pod(script@.commands, pod.namespace@, pod.name@)
                    },
                }
            }),
    {
        if pod.deletion_requested {
            match self.handles.get_mut(&key_from_pod(pod)) {
                Some(handle) => PodModification::Stop { handle, script: removal_script(pod) },
                None => PodModification::NotRunning,
            }
        } else {
            PodModification::Keep
        }
    }

    /// Forgets the pod: frees one of its ports, or port 0 if it holds none, and gives up its
    /// handle, which is returned.
    pub fn delete(&mut self, pod: &Pod) -> (handle: Option<H>)
        ensures
            pod_deleted(old(self)@, pod.namespace@, pod.name@, handle, final(self)@),
    {
        let port: i32 = self.port_map.release(&pod.name);
        let handle = self.handles.remove(&key_from_pod(pod));
        assert(crate::ports::port_released(old(self)@.ports, pod.name@, port, self@.ports));
        handle
    }

    /// The handle of the pod, from which its logs can be had.
    pub fn logs(&mut self, namespace: &String, pod_name: &String) -> (handle: Result<
        &mut H,
        ProviderError,
    >)
        ensures
            final(self)@.ports == old(self)@.ports,
            ({
                let key = crate::pod::pod_key_text(namespace@, pod_name@);
                match handle {
                    Ok(handle) => {
                        &&& old(self)@.handles.contains_key(key)
                        &&& *handle == old(self)@.handles[key]
                        &&& final(self)@.handles == old(self)@.handles.insert(key, *final(handle))
                    },
                    Err(error) => {
                        &&& !old(self)@.handles.contains_key(key)
                        &&& final(self)@.handles == old(self)@.handles
                        &&& error == (ProviderError::PodNotFound { pod_name: *pod_name })
                    },
                }
            }),
    {
        match self.handles.get_mut(&pod_key(namespace, pod_name)) {
            Some(handle) => Ok(handle),
            None => Err(ProviderError::PodNotFound { pod_name: pod_name.clone() }),
        }
    }
}

} // verus!
