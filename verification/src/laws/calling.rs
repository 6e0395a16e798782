use crate::actor::{run_script, wascc_run, ActorHandle, ActorRun};
use crate::capability::{plan_capabilities, Capability, CapabilityView, EnvVars, VolumeBinding};
use crate::error::ProviderError;
use crate::pod::Pod;
use crate::provider::{
    removal_script, startup_script, NodeProfile, PodModification, WasccProvider,
};
use crate::script::{CommandView, NativeCapability, Script, ScriptView};
use crate::status::{ContainerStatusView, Phase};
use vstd::prelude::*;

verus! {

/// The script that `removal_script` returns is not begun, and removes the pod that it was called
/// with: the pod is stopped, its status in its own namespace says that it has ended well, and then
/// this pod is deleted at once.
pub proof fn law_removal_script_removes_the_pod(pod: &Pod, script: Script)
    requires
        call_ensures(removal_script, (pod,), script),
    ensures
        removes_at_once(script@, *pod),
{
    crate::laws::keeping::law_removal_in_full(*pod);
}

/// Whether the script is not begun, and stops this pod, reports its end and deletes it.
pub open spec fn removes_at_once(script: ScriptView, pod: Pod) -> bool {
    &&& script.done == 0 && !script.failed
    &&& script.commands.len() == 3
    &&& script.commands[0] == CommandView::StopPod
    &&& script.commands[1] matches CommandView::ReplaceStatus { namespace, pod_name, status }
    &&& namespace == pod.namespace@ && pod_name == pod.name@
    &&& status.resource_version == ""@
    &&& status.message == "Pod stopped"@
    &&& status.phase == Phase::Succeeded
    &&& status.container_statuses.len() == pod.containers@.len()
    &&& forall|i: int|
        #![trigger pod.containers@[i]]
        0 <= i < pod.containers@.len() ==> {
            &&& status.container_statuses[i].container_name == pod.containers@[i].name@
            &&& status.container_statuses[i].status == (ContainerStatusView::Terminated {
                reason: "Pod stopped"@,
                failed: false,
            })
        }
    &&& script.commands[2] == (CommandView::DeletePod {
        namespace: pod.namespace@,
        pod_name: pod.name@,
        grace_period_seconds: 0,
    })
}

/// The script that `startup_script` returns is not begun, creates both directories, and makes and
/// registers HTTP and logging.
pub proof fn law_startup_script_sets_up(script: Script)
    requires
        call_ensures(startup_script, (), script),
    ensures
        sets_up(script@.commands),
        script@.done == 0,
        !script@.failed,
{
    crate::laws::keeping::law_startup_in_full();
}

/// Whether the commands create the directories for logs and for volumes, and make and register the
/// HTTP and the logging capability.
pub open spec fn sets_up(commands: Seq<CommandView>) -> bool {
    &&& commands.len() == 6
    &&& commands[0] == (CommandView::CreateDirectory { name: "wascc-logs"@ })
    &&& commands[1] == (CommandView::CreateDirectory { name: "volumes"@ })
    &&& commands[2] == (CommandView::InstantiateCapability {
        native: NativeCapability::Http,
        binding: None,
    })
    &&& commands[3] == (CommandView::AddCapability { native: NativeCapability::Http })
    &&& commands[4] == (CommandView::InstantiateCapability {
        native: NativeCapability::Logging,
        binding: None,
    })
    &&& commands[5] == (CommandView::AddCapability { native: NativeCapability::Logging })
}

/// `WasccProvider::new` makes a provider from a script of which every command has succeeded, and
/// from no other; no pod runs on it and no port is held.
pub proof fn law_new_provider_is_empty<H>(startup: &Script, provider: Option<WasccProvider<H>>)
    requires
        startup@.commands == crate::provider::startup_commands(),
        call_ensures(WasccProvider::<H>::new, (startup,), provider),
    ensures
        provider is Some <==> !startup@.failed && startup@.done == 6,
        provider is Some ==> sets_up(startup@.commands),
        provider matches Some(provider) ==> {
            &&& forall|key: Seq<char>| !(#[trigger] provider.handles@.contains_key(key))
            &&& forall|port: i32| !(#[trigger] provider.port_map@.contains_key(port))
        },
{
    crate::laws::keeping::law_startup_in_full();
}

/// `WasccProvider::delete` gives back the handle that was kept under the namespace, a colon and the
/// name of the pod, keeps the others, and frees at most one port, which was the pod's own or 0.
pub proof fn law_delete_is_of_the_pod_itself<H>(
    provider: &mut WasccProvider<H>,
    pod: &Pod,
    handle: Option<H>,
)
    requires
        call_ensures(WasccProvider::<H>::delete, (provider, pod), handle),
    ensures
        ({
            let key = pod.namespace@ + ":"@ + pod.name@;
            &&& old(provider).handles@.contains_key(key) ==> handle == Some(
                old(provider).handles@[key],
            )
            &&& !old(provider).handles@.contains_key(key) ==> handle is None
            &&& final(provider).handles@ == old(provider).handles@.remove(key)
        }),
        exists|freed: i32|
            {
                &&& freed == 0 || old(provider).port_map@.contains_key(freed) && old(
                    provider,
                ).port_map@[freed] == pod.name@
                &&& final(provider).port_map@ == #[trigger] old(provider).port_map@.remove(freed)
            },
        (exists|held: i32| #[trigger]
            old(provider).port_map@.contains_key(held) && old(provider).port_map@[held]
                == pod.name@) ==> exists|freed: i32|
            {
                &&& old(provider).port_map@.contains_key(freed) && old(provider).port_map@[freed]
                    == pod.name@
                &&& final(provider).port_map@ == #[trigger] old(provider).port_map@.remove(freed)
            },
{
    crate::laws::keeping::law_delete_takes_out_one_pod(
        old(provider)@,
        pod.namespace@,
        pod.name@,
        handle,
        final(provider)@,
    );
    assert(final(provider).handles@ =~= old(provider).handles@.remove(
        pod.namespace@ + ":"@ + pod.name@,
    ));
}

/// `WasccProvider::keep` puts the handle under the key, and changes nothing else.
pub proof fn law_keep_puts_one_handle<H>(
    provider: &mut WasccProvider<H>,
    key: String,
    handle: H,
    replaced: Option<H>,
)
    requires
        call_ensures(WasccProvider::<H>::keep, (provider, key, handle), replaced),
    ensures
        final(provider).handles@ == old(provider).handles@.insert(key@, handle),
        final(provider).port_map@ == old(provider).port_map@,
{
}

/// `WasccProvider::logs` gives the handle that is kept under the namespace, a colon and the name, or
/// says that there is none; ports and other handles stay as they are.
pub proof fn law_logs_are_of_the_pod_itself<H>(
    provider: &mut WasccProvider<H>,
    namespace: &String,
    pod_name: &String,
    found: Result<&mut H, ProviderError>,
)
    requires
        call_ensures(WasccProvider::<H>::logs, (provider, namespace, pod_name), found),
    ensures
        final(provider).port_map@ == old(provider).port_map@,
        ({
            let key = namespace@ + ":"@ + pod_name@;
            &&& found is Ok <==> old(provider).handles@.contains_key(key)
            &&& found matches Ok(handle) ==> *handle == old(provider).handles@[key]
                && final(provider).handles@ == old(provider).handles@.insert(key, *final(handle))
            &&& found matches Err(error) ==> error.text() == "cannot find pod "@ + pod_name@
                && final(provider).handles@ == old(provider).handles@
        }),
{
}

/// `WasccProvider::modify` has a pod stopped that is to be deleted and is kept under its namespace,
/// a colon and its name, and no other pod. The script removes this pod. Ports and other handles stay
/// as they are.
pub proof fn law_modify_stops_the_pod_itself<H>(
    provider: &mut WasccProvider<H>,
    pod: &Pod,
    modification: PodModification<'_, H>,
)
    requires
        call_ensures(WasccProvider::<H>::modify, (provider, pod), modification),
    ensures
        final(provider).port_map@ == old(provider).port_map@,
        ({
            let key = pod.namespace@ + ":"@ + pod.name@;
            &&& modification is Keep <==> !pod.deletion_requested
            &&& modification is NotRunning <==> pod.deletion_requested && !old(
                provider,
            ).handles@.contains_key(key)
            &&& modification is Stop <==> pod.deletion_requested && old(
                provider,
            ).handles@.contains_key(key)
            &&& modification matches PodModification::Stop { handle, script } ==> {
                &&& *handle == old(provider).handles@[key]
                &&& final(provider).handles@ == old(provider).handles@.insert(key, *final(handle))
                &&& removes_at_once(script@, *pod)
            }
            &&& !(modification is Stop) ==> final(provider).handles@ == old(provider).handles@
        }),
{
    crate::laws::keeping::law_removal_in_full(*pod);
}

/// `WasccProvider::node` presents the node with its architecture and a taint that names it.
pub proof fn law_node_is_tainted<H>(profile: NodeProfile)
    requires
        call_ensures(WasccProvider::<H>::node, (), profile),
    ensures
        profile.architecture@ == "wasm-wasi"@,
        profile.taint_effect@ == "NoExecute"@,
        profile.taint_key@ == "krustlet/arch"@,
        profile.taint_value@ == "wasm32-wascc"@,
{
}

/// Whether the commands are what it takes to run this actor: the file systems of the volumes, if
/// the token names them, are made and registered in order; the actor is added; and logging, HTTP
/// with the container's environment and its port, and the file system of each volume are configured
/// for it, as far as the token names them.
pub open spec fn runs_actor(
    commands: Seq<CommandView>,
    key: Seq<char>,
    caps: Seq<Seq<char>>,
    env: Map<Seq<char>, Seq<char>>,
    volumes: Seq<VolumeBinding>,
    port: int,
) -> bool {
    let stored = if caps.contains("wascc:blobstore"@) {
        volumes.len() as int
    } else {
        0
    };
    let logged = if caps.contains("wascc:logging"@) {
        1int
    } else {
        0
    };
    let served = if caps.contains("wascc:http_server"@) {
        1int
    } else {
        0
    };
    &&& commands.len() == 2 * stored + 1 + logged + served + stored
    &&& commands[2 * stored] == CommandView::AddActor
    &&& logged == 1 ==> commands[2 * stored + 1] == (CommandView::BindActor {
        key,
        capability: CapabilityView { name: "wascc:logging"@, binding: None, env: Map::empty() },
    })
    &&& served == 1 ==> commands[2 * stored + 1 + logged] == (CommandView::BindActor {
        key,
        capability: CapabilityView {
            name: "wascc:http_server"@,
            binding: None,
            env: env.insert("PORT"@, crate::text::decimal(port)),
        },
    })
    &&& forall|v: int|
        #![trigger volumes[v]]
        0 <= v < stored ==> {
            &&& commands[2 * v] == (CommandView::InstantiateCapability {
                native: NativeCapability::FileSystem,
                binding: Some(volumes[v].name@),
            })
            &&& commands[2 * v + 1] == (CommandView::AddCapability {
                native: NativeCapability::FileSystem,
            })
            &&& commands[2 * stored + 1 + logged + served + v] == (CommandView::BindActor {
                key,
                capability: CapabilityView {
                    name: "wascc:blobstore"@,
                    binding: Some(volumes[v].name@),
                    env: map!["ROOT"@ => volumes[v].host_path@],
                },
            })
        }
}

/// The script that `run_script` returns is not begun, and runs the actor with what it was called
/// with.
pub proof fn law_run_script_runs_the_actor(
    key: &String,
    actor_caps: &Vec<String>,
    env: EnvVars,
    volumes: &Vec<VolumeBinding>,
    port_assigned: i32,
    script: Script,
)
    requires
        call_ensures(run_script, (key, actor_caps, env, volumes, port_assigned), script),
    ensures
        script@.done == 0 && !script@.failed,
        runs_actor(
            script@.commands,
            key@,
            actor_caps@.map_values(|cap: String| cap@),
            env@.map_values(|value: String| value@),
            volumes@,
            port_assigned as int,
        ),
{
    crate::laws::running::law_run_in_full(
        key@,
        crate::text::texts(actor_caps@),
        crate::text::value_texts(env@),
        volumes@,
        port_assigned as int,
    );
}

/// `wascc_run` hands out the actor of the module that it was called with, a script that runs this
/// actor with the environment, the volumes and the port that it was called with, and a handle that
/// knows the actor's key and those volumes. A module that is no signed actor is refused with what is
/// said of it.
pub proof fn law_wascc_run_runs_the_module(
    module: &Vec<u8>,
    env: EnvVars,
    volumes: Vec<VolumeBinding>,
    port_assigned: i32,
    outcome: Result<ActorRun, ProviderError>,
)
    requires
        call_ensures(wascc_run, (module, env, volumes, port_assigned), outcome),
    ensures
        outcome is Ok <==> crate::actor::signed_actor(module@) is Ok,
        outcome matches Ok(run) ==> {
            let (key, caps) = crate::actor::signed_actor(module@)->Ok_0;
            &&& run.actor == crate::actor::loaded_actor(module@)
            &&& run.handle.key@ == key
            &&& run.handle.volumes@ == volumes@
            &&& run.script@.done == 0 && !run.script@.failed
            &&& runs_actor(
                run.script@.commands,
                key,
                caps,
                env@.map_values(|value: String| value@),
                volumes@,
                port_assigned as int,
            )
        },
        outcome matches Err(error) ==> error.text() == "Error loading WASM: "@
            + crate::actor::signed_actor(module@)->Err_0,
{
    if outcome is Ok {
        let (key, caps) = crate::actor::signed_actor(module@)->Ok_0;
        crate::laws::running::law_run_in_full(
            key,
            caps,
            crate::text::value_texts(env@),
            volumes@,
            port_assigned as int,
        );
    }
}

/// `plan_capabilities` plans HTTP for an actor whose token names it, with the environment that it
/// was called with and the port in decimal under PORT.
pub proof fn law_planned_http_has_the_port(
    actor_caps: &Vec<String>,
    env: EnvVars,
    volumes: &Vec<VolumeBinding>,
    port_assigned: i32,
    capabilities: Vec<Capability>,
)
    requires
        call_ensures(plan_capabilities, (actor_caps, env, volumes, port_assigned), capabilities),
        exists|i: int|
            0 <= i < actor_caps@.len() && (#[trigger] actor_caps@[i])@ == "wascc:http_server"@,
    ensures
        exists|i: int|
            {
                &&& 0 <= i < capabilities@.len()
                &&& (#[trigger] capabilities@[i]).name@ == "wascc:http_server"@
                &&& capabilities@[i].binding is None
                &&& capabilities@[i].env@.contains_key("PORT"@)
                &&& capabilities@[i].env@["PORT"@]@ == crate::text::decimal(port_assigned as int)
                &&& forall|variable: Seq<char>|
                    variable != "PORT"@ ==> {
                        &&& #[trigger] capabilities@[i].env@.contains_key(variable)
                            == env@.contains_key(variable)
                        &&& env@.contains_key(variable) ==> capabilities@[i].env@[variable]@
                            == env@[variable]@
                    }
            },
{
    let caps = crate::text::texts(actor_caps@);
    let env_texts = crate::text::value_texts(env@);
    let c = choose|c: int|
        0 <= c < actor_caps@.len() && (#[trigger] actor_caps@[c])@ == "wascc:http_server"@;
    assert(caps[c] == "wascc:http_server"@);
    let planned = crate::capability::planned_capabilities(
        caps,
        env_texts,
        volumes@,
        port_assigned as int,
    );
    let i = if caps.contains("wascc:logging"@) {
        1int
    } else {
        0
    };
    assert(planned.len() > i);
    crate::laws::messages::law_views_keep_order(seq![], capabilities@);
    assert(crate::capability::capability_views(capabilities@) == planned);
    assert(crate::capability::capability_views(capabilities@)[i] == capabilities@[i]@);
    assert(planned[i] == crate::capability::http_capability(env_texts, port_assigned as int));
    let own = capabilities@[i];
    assert(own@ == planned[i]);
    assert(own@.env.contains_key("PORT"@));
    assert(own.env@.contains_key("PORT"@));
    assert(own@.env["PORT"@] == own.env@["PORT"@]@);
    assert(own@.name == own.name@);
    assert(own@.binding == crate::text::optional_text(own.binding));
    assert forall|variable: Seq<char>| variable != "PORT"@ implies {
        &&& #[trigger] own.env@.contains_key(variable) == env@.contains_key(variable)
        &&& env@.contains_key(variable) ==> own.env@[variable]@ == env@[variable]@
    } by {
        assert(own@.env.contains_key(variable) == env_texts.contains_key(variable));
        assert(env_texts.contains_key(variable) ==> own@.env[variable] == env_texts[variable]);
    }
}

/// `ActorHandle::stop` has the actor removed and then the file system of each of its volumes, and
/// the handle gives up its volumes.
pub proof fn law_stop_removes_actor_and_volumes(handle: &mut ActorHandle, script: Script)
    requires
        call_ensures(ActorHandle::stop, (handle,), script),
    ensures
        script@.done == 0 && !script@.failed,
        script@.commands.len() == old(handle).volumes@.len() + 1,
        script@.commands[0] == (CommandView::RemoveActor { key: old(handle).key@ }),
        forall|v: int|
            #![trigger old(handle).volumes@[v]]
            0 <= v < old(handle).volumes@.len() ==> script@.commands[v + 1]
                == (CommandView::RemoveCapability {
                name: "wascc:blobstore"@,
                binding: Some(old(handle).volumes@[v].name@),
            }),
        final(handle).key == old(handle).key,
        final(handle).volumes@.len() == 0,
{
    crate::laws::running::law_stop_in_full(old(handle).key@, old(handle).volumes@);
}

} // verus!
