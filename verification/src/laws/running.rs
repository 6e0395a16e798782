use crate::capability::{CapabilityView, VolumeBinding};
use crate::script::{CommandView, NativeCapability, ScriptView};
use vstd::prelude::*;

verus! {

/// Whether the command at place `i` configures this capability for the actor with this key.
pub open spec fn configures(
    commands: Seq<CommandView>,
    i: int,
    key: Seq<char>,
    capability: CapabilityView,
) -> bool {
    0 <= i < commands.len() && commands[i] == (CommandView::BindActor { key, capability })
}

/// An actor whose token names HTTP is configured with it, unbound. The environment that goes with
/// it says under PORT, in decimal, which port the container was assigned, and is the container's
/// own otherwise.
pub proof fn law_http_actor_learns_its_port(
    key: Seq<char>,
    actor_caps: Seq<Seq<char>>,
    env: Map<Seq<char>, Seq<char>>,
    volumes: Seq<VolumeBinding>,
    port: int,
)
    requires
        actor_caps.contains("wascc:http_server"@),
    ensures
        exists|i: int, capability: CapabilityView|
            {
                &&& #[trigger] configures(
                    crate::actor::run_commands(key, actor_caps, env, volumes, port),
                    i,
                    key,
                    capability,
                )
                &&& capability.name == "wascc:http_server"@
                &&& capability.binding is None
                &&& capability.env.contains_key("PORT"@)
                &&& capability.env["PORT"@] == crate::text::decimal(port)
                &&& forall|variable: Seq<char>|
                    variable != "PORT"@ ==> {
                        &&& #[trigger] capability.env.contains_key(variable) == env.contains_key(
                            variable,
                        )
                        &&& env.contains_key(variable) ==> capability.env[variable] == env[variable]
                    }
            },
{
    let commands = crate::actor::run_commands(key, actor_caps, env, volumes, port);
    let capability = crate::capability::http_capability(env, port);
    let i = place_of_http(actor_caps, volumes);
    law_run_in_full(key, actor_caps, env, volumes, port);
    assert(configures(commands, i, key, capability));
}

/// An actor whose token names logging is configured with it, unbound and with an empty environment.
pub proof fn law_logging_actor_is_configured(
    key: Seq<char>,
    actor_caps: Seq<Seq<char>>,
    env: Map<Seq<char>, Seq<char>>,
    volumes: Seq<VolumeBinding>,
    port: int,
)
    requires
        actor_caps.contains("wascc:logging"@),
    ensures
        exists|i: int, capability: CapabilityView|
            {
                &&& #[trigger] configures(
                    crate::actor::run_commands(key, actor_caps, env, volumes, port),
                    i,
                    key,
                    capability,
                )
                &&& capability.name == "wascc:logging"@
                &&& capability.binding is None
                &&& capability.env == Map::<Seq<char>, Seq<char>>::empty()
            },
{
    let commands = crate::actor::run_commands(key, actor_caps, env, volumes, port);
    law_run_in_full(key, actor_caps, env, volumes, port);
    assert(configures(
        commands,
        place_of_actor(actor_caps, volumes) + 1,
        key,
        crate::capability::log_capability(),
    ));
}

/// An actor whose token names the file system is configured with it once for each volume, under the
/// name of the volume. The environment that goes with it says under ROOT where the volume lies, and
/// nothing else.
pub proof fn law_volume_is_configured(
    key: Seq<char>,
    actor_caps: Seq<Seq<char>>,
    env: Map<Seq<char>, Seq<char>>,
    volumes: Seq<VolumeBinding>,
    port: int,
    v: int,
)
    requires
        actor_caps.contains("wascc:blobstore"@),
        0 <= v < volumes.len(),
    ensures
        exists|i: int, capability: CapabilityView|
            {
                &&& #[trigger] configures(
                    crate::actor::run_commands(key, actor_caps, env, volumes, port),
                    i,
                    key,
                    capability,
                )
                &&& capability.name == "wascc:blobstore"@
                &&& capability.binding == Some(volumes[v].name@)
                &&& capability.env.dom() == set!["ROOT"@]
                &&& capability.env["ROOT"@] == volumes[v].host_path@
            },
{
    let commands = crate::actor::run_commands(key, actor_caps, env, volumes, port);
    let capability = crate::capability::fs_capability(volumes[v]);
    law_run_in_full(key, actor_caps, env, volumes, port);
    assert(capability.env.dom() =~= set!["ROOT"@]);
    assert(configures(commands, place_of_volumes(actor_caps, volumes) + v, key, capability));
}

/// Where the actor is added: behind the file systems of its volumes.
pub open spec fn place_of_actor(actor_caps: Seq<Seq<char>>, volumes: Seq<VolumeBinding>) -> int {
    if actor_caps.contains("wascc:blobstore"@) {
        2 * volumes.len() as int
    } else {
        0
    }
}

/// Where HTTP is configured, if it is: behind logging.
pub open spec fn place_of_http(actor_caps: Seq<Seq<char>>, volumes: Seq<VolumeBinding>) -> int {
    place_of_actor(actor_caps, volumes) + if actor_caps.contains("wascc:logging"@) {
        2int
    } else {
        1
    }
}

/// Where the first volume is configured, if it is: behind HTTP.
pub open spec fn place_of_volumes(actor_caps: Seq<Seq<char>>, volumes: Seq<VolumeBinding>) -> int {
    place_of_http(actor_caps, volumes) + if actor_caps.contains("wascc:http_server"@) {
        1int
    } else {
        0
    }
}

/// What is done to run an actor, command by command, and nothing beyond it: if the token names the
/// file system, an instance for each volume is made and registered; the actor is added, once; and
/// logging, HTTP and the file system of each volume are configured, as far as the token names them.
pub proof fn law_run_in_full(
    key: Seq<char>,
    actor_caps: Seq<Seq<char>>,
    env: Map<Seq<char>, Seq<char>>,
    volumes: Seq<VolumeBinding>,
    port: int,
)
    ensures
        ({
            let run = crate::actor::run_commands(key, actor_caps, env, volumes, port);
            let actor = place_of_actor(actor_caps, volumes);
            let http = place_of_http(actor_caps, volumes);
            let first_volume = place_of_volumes(actor_caps, volumes);
            &&& run.len() == first_volume + if actor_caps.contains("wascc:blobstore"@) {
                volumes.len() as int
            } else {
                0
            }
            &&& run[actor] == CommandView::AddActor
            &&& actor_caps.contains("wascc:logging"@) ==> run[actor + 1]
                == (CommandView::BindActor {
                key,
                capability: CapabilityView {
                    name: "wascc:logging"@,
                    binding: None,
                    env: Map::empty(),
                },
            })
            &&& actor_caps.contains("wascc:http_server"@) ==> run[http] == (CommandView::BindActor {
                key,
                capability: CapabilityView {
                    name: "wascc:http_server"@,
                    binding: None,
                    env: env.insert("PORT"@, crate::text::decimal(port)),
                },
            })
            &&& actor_caps.contains("wascc:blobstore"@) ==> forall|v: int|
                #![trigger volumes[v]]
                0 <= v < volumes.len() ==> {
                    &&& run[2 * v] == (CommandView::InstantiateCapability {
                        native: NativeCapability::FileSystem,
                        binding: Some(volumes[v].name@),
                    })
                    &&& run[2 * v + 1] == (CommandView::AddCapability {
                        native: NativeCapability::FileSystem,
                    })
                    &&& run[first_volume + v] == (CommandView::BindActor {
                        key,
                        capability: CapabilityView {
                            name: "wascc:blobstore"@,
                            binding: Some(volumes[v].name@),
                            env: map!["ROOT"@ => volumes[v].host_path@],
                        },
                    })
                }
        }),
{
    crate::laws::lemma_fs_setup(volumes);
    let run = crate::actor::run_commands(key, actor_caps, env, volumes, port);
    let setup = if actor_caps.contains("wascc:blobstore"@) {
        crate::actor::fs_setup(volumes)
    } else {
        seq![]
    };
    let planned = crate::capability::planned_capabilities(actor_caps, env, volumes, port);
    let actor = place_of_actor(actor_caps, volumes);
    let first_volume = place_of_volumes(actor_caps, volumes);
    assert(setup.len() == actor);
    assert forall|i: int| 0 <= i < planned.len() implies #[trigger] run[actor + 1 + i]
        == (CommandView::BindActor { key, capability: planned[i] }) by {}
    if actor_caps.contains("wascc:logging"@) {
        assert(run[actor + 1 + 0] == (CommandView::BindActor { key, capability: planned[0] }));
    }
    if actor_caps.contains("wascc:http_server"@) {
        let at = place_of_http(actor_caps, volumes) - actor - 1;
        assert(run[actor + 1 + at] == (CommandView::BindActor { key, capability: planned[at] }));
    }
    if actor_caps.contains("wascc:blobstore"@) {
        assert forall|v: int|
            #![trigger volumes[v]]
            0 <= v < volumes.len() implies {
            &&& run[2 * v] == setup[2 * v]
            &&& run[2 * v + 1] == setup[2 * v + 1]
            &&& run[first_volume + v] == (CommandView::BindActor {
                key,
                capability: CapabilityView {
                    name: "wascc:blobstore"@,
                    binding: Some(volumes[v].name@),
                    env: map!["ROOT"@ => volumes[v].host_path@],
                },
            })
        } by {
            let at = first_volume - actor - 1 + v;
            assert(run[actor + 1 + at] == (CommandView::BindActor { key, capability: planned[at] }));
            assert(planned[at] == crate::capability::fs_capability(volumes[v]));
            assert(planned[at].env =~= map!["ROOT"@ => volumes[v].host_path@]);
        }
    }
}

/// What is done to stop an actor, command by command, and nothing beyond it: the actor is removed,
/// and then the file system of each volume, in order.
pub proof fn law_stop_in_full(key: Seq<char>, volumes: Seq<VolumeBinding>)
    ensures
        ({
            let stop = crate::actor::stop_commands(key, volumes);
            &&& stop.len() == volumes.len() + 1
            &&& stop[0] == (CommandView::RemoveActor { key })
            &&& forall|v: int|
                #![trigger volumes[v]]
                0 <= v < volumes.len() ==> stop[v + 1] == (CommandView::RemoveCapability {
                    name: "wascc:blobstore"@,
                    binding: Some(volumes[v].name@),
                })
        }),
{
}

/// The capabilities that are planned for an actor are the ones that the run configures, in the same
/// order, behind the command that adds the actor.
pub proof fn law_planned_capabilities_are_configured(
    key: Seq<char>,
    actor_caps: Seq<Seq<char>>,
    env: Map<Seq<char>, Seq<char>>,
    volumes: Seq<VolumeBinding>,
    port: int,
)
    ensures
        ({
            let run = crate::actor::run_commands(key, actor_caps, env, volumes, port);
            let planned = crate::capability::planned_capabilities(actor_caps, env, volumes, port);
            let actor = place_of_actor(actor_caps, volumes);
            &&& run.len() == actor + 1 + planned.len()
            &&& forall|i: int|
                #![trigger planned[i]]
                0 <= i < planned.len() ==> run[actor + 1 + i] == (CommandView::BindActor {
                    key,
                    capability: planned[i],
                })
        }),
{
    crate::laws::lemma_fs_setup(volumes);
}

/// While nothing fails, a script asks for its commands one after the other, from the first to the
/// last, and then for nothing more; once something has failed, it asks for nothing at all.
pub proof fn law_script_asks_in_order(commands: Seq<CommandView>, answers: Seq<bool>)
    ensures
        ({
            let script = crate::laws::answered(ScriptView::fresh(commands), answers);
            &&& (forall|i: int| 0 <= i < answers.len() ==> #[trigger] answers[i]) ==> script.pending()
                == if answers.len() < commands.len() {
                Some(commands[answers.len() as int])
            } else {
                None
            }
            &&& (exists|i: int|
                0 <= i < answers.len() && i < commands.len() && !#[trigger] answers[i])
                ==> script.pending() is None && !script.completed()
        }),
{
    crate::laws::law_script_stops_at_first_failure(commands, answers);
    let script = crate::laws::answered(ScriptView::fresh(commands), answers);
    if exists|i: int| 0 <= i < answers.len() && i < commands.len() && !#[trigger] answers[i] {
        let i = choose|i: int|
            0 <= i < answers.len() && i < commands.len() && !#[trigger] answers[i];
        assert(i >= script.done);
    }
}

} // verus!
