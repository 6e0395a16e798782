use crate::capability::{plan_capabilities, EnvVars, VolumeBinding, FS_CAPABILITY};
use crate::error::ProviderError;
use crate::script::{Command, CommandView, NativeCapability, Script, ScriptView};
use crate::text::contains_text;
use vstd::prelude::*;

verus! {

/// `wascc_host::Actor`: a signed module, ready to be handed to a waSCC host.
#[verifier::external_type_specification]
#[verifier::external_body]
pub struct ExActor(wascc_host::Actor);

/// What `wascc_host::Actor` reads from the bytes of a module: the public key and the capabilities
/// of the token embedded in it, or what the error says if the module is refused.
pub uninterp spec fn signed_actor(module: Seq<u8>) -> Result<
    (Seq<char>, Seq<Seq<char>>),
    Seq<char>,
>;

/// The actor that `wascc_host::Actor::from_slice` makes of the bytes of a module that it accepts.
pub uninterp spec fn loaded_actor(module: Seq<u8>) -> wascc_host::Actor;

/// An actor with what its token says.
pub struct LoadedActor {
    pub actor: wascc_host::Actor,
    pub public_key: String,
    pub capabilities: Vec<String>,
}

/// Calls `wascc_host::Actor::from_slice`, and on the actor that comes back `public_key` and
/// `capabilities`; of a refusal it keeps what the error displays. All of them are functions of the
/// bytes alone: `loaded_actor` stands for the actor, which holds the decoded token and the bytes,
/// and `signed_actor` for what is read from it. What makes `from_slice` refuse a module, and how
/// the token is decoded, is left unsaid.
#[verifier::external_body]
fn load_actor(module: &Vec<u8>) -> (loaded: Result<LoadedActor, String>)
    ensures
        match loaded {
            Ok(loaded) => {
                &&& loaded.actor == loaded_actor(module@)
                &&& signed_actor(module@) == Ok::<(Seq<char>, Seq<Seq<char>>), Seq<char>>(
                    (loaded.public_key@, crate::text::texts(loaded.capabilities@)),
                )
            },
            Err(text) => signed_actor(module@) == Err::<(Seq<char>, Seq<Seq<char>>), Seq<char>>(
                text@,
            ),
        },
{
    match wascc_host::Actor::from_slice(module) {
        Ok(actor) => Ok(
            LoadedActor {
                public_key: actor.public_key(),
                capabilities: actor.capabilities(),
                actor,
            },
        ),
        Err(error) => Err(error.to_string()),
    }
}

/// A running actor, and the volumes that were bound for it.
pub struct ActorHandle {
    /// The public key of the wascc Actor that will be stopped
    pub key: String,
    pub volumes: Vec<VolumeBinding>,
}

/// What stopping an actor takes: to remove it, and then the file system of each of its volumes.
pub open spec fn stop_commands(key: Seq<char>, volumes: Seq<VolumeBinding>) -> Seq<CommandView> {
    seq![CommandView::RemoveActor { key }] + volumes.map_values(
        |volume: VolumeBinding|
            CommandView::RemoveCapability {
                name: FS_CAPABILITY@,
                binding: Some(volume.name@),
            },
    )
}

impl ActorHandle {
    /// What to do on the waSCC host to stop the actor. The handle gives up its volumes, whether or
    /// not the commands will succeed.
    pub fn stop(&mut self) -> (script: Script)
        ensures
            script@ == ScriptView::fresh(stop_commands(old(self).key@, old(self).volumes@)),
            final(self).key == old(self).key,
            final(self).volumes@ == Seq::<VolumeBinding>::empty(),
    {
        let mut volumes: Vec<VolumeBinding> = Vec::new();
        std::mem::swap(&mut volumes, &mut self.volumes);
        let mut commands: Vec<Command> = Vec::new();
        commands.push(Command::RemoveActor { key: self.key.clone() });
        let ghost planned = stop_commands(self.key@, volumes@);
        let mut i: usize = 0;
        while i < volumes.len()
            invariant
                i <= volumes@.len(),
                planned == stop_commands(self.key@, volumes@),
                crate::script::command_views(commands@) =~= planned.take(i + 1),
            decreases volumes@.len() - i,
        {
            let ghost before = crate::script::command_views(commands@);
            commands.push(
                Command::RemoveCapability {
                    name: FS_CAPABILITY,
                    binding: Some(volumes[i].name.clone()),
                },
            );
            assert(crate::script::command_views(commands@) =~= before.push(planned[i + 1]));
            assert(planned.take(i + 2) =~= planned.take(i + 1).push(planned[i + 1]));
            i = i + 1;
        }
        assert(planned.take(volumes@.len() as int + 1) =~= planned);
        Script::new(commands)
    }
}

/// What it takes to register a file system for each volume.
pub open spec fn fs_setup(volumes: Seq<VolumeBinding>) -> Seq<CommandView>
    decreases volumes.len(),
{
    if volumes.len() == 0 {
        seq![]
    } else {
        fs_setup(volumes.drop_last()) + seq![
            CommandView::InstantiateCapability {
                native: NativeCapability::FileSystem,
                binding: Some(volumes.last().name@),
            },
            CommandView::AddCapability { native: NativeCapability::FileSystem },
        ]
    }
}

/// What it takes to run an actor: to register the file systems of its volumes, if its token names
/// the file system; to add the actor; and to configure each of its capabilities, in order.
pub open spec fn run_commands(
    key: Seq<char>,
    actor_caps: Seq<Seq<char>>,
    env: Map<Seq<char>, Seq<char>>,
    volumes: Seq<VolumeBinding>,
    port: int,
) -> Seq<CommandView> {
    let setup = if actor_caps.contains(FS_CAPABILITY@) {
        fs_setup(volumes)
    } else {
        seq![]
    };
    setup + seq![CommandView::AddActor] + bind_commands(
        key,
        crate::capability::planned_capabilities(actor_caps, env, volumes, port),
    )
}

/// What it takes to configure the capabilities for an actor.
pub open spec fn bind_commands(
    key: Seq<char>,
    capabilities: Seq<crate::capability::CapabilityView>,
) -> Seq<CommandView> {
    capabilities.map_values(
        |capability: crate::capability::CapabilityView| CommandView::BindActor { key, capability },
    )
}

/// What to do on the waSCC host to run the actor that has this public key and these capabilities.
pub fn run_script(
    key: &String,
    actor_caps: &Vec<String>,
    env: EnvVars,
    volumes: &Vec<VolumeBinding>,
    port_assigned: i32,
) -> (script: Script)
    ensures
        script@ == ScriptView::fresh(
            run_commands(
                key@,
                crate::text::texts(actor_caps@),
                crate::text::value_texts(env@),
                volumes@,
                port_assigned as int,
            ),
        ),
{
    let mut commands: Vec<Command> = Vec::new();
    if contains_text(actor_caps, FS_CAPABILITY) {
        let mut i: usize = 0;
        while i < volumes.len()
            invariant
                i <= volumes@.len(),
                crate::script::command_views(commands@) =~= fs_setup(volumes@.take(i as int)),
            decreases volumes@.len() - i,
        {
            let ghost before = crate::script::command_views(commands@);
            commands.push(
                Command::InstantiateCapability {
                    native: NativeCapability::FileSystem,
                    binding: Some(volumes[i].name.clone()),
                },
            );
            commands.push(Command::AddCapability { native: NativeCapability::FileSystem });
            proof {
                let shorter = volumes@.take(i as int);
                let longer = volumes@.take(i + 1);
                assert(longer.drop_last() =~= shorter);
                assert(longer.last() == volumes@[i as int]);
                assert(crate::script::command_views(commands@) =~= before + seq![
                    CommandView::InstantiateCapability {
                        native: NativeCapability::FileSystem,
                        binding: Some(volumes@[i as int].name@),
                    },
                    CommandView::AddCapability { native: NativeCapability::FileSystem },
                ]);
            }
            i = i + 1;
        }
        assert(volumes@.take(volumes@.len() as int) =~= volumes@);
    }
    commands.push(Command::AddActor);
    let ghost unbound = crate::script::command_views(commands@);
    let capabilities = plan_capabilities(actor_caps, env, volumes, port_assigned);
    let ghost binds = bind_commands(key@, crate::capability::capability_views(capabilities@));
    for capability in planned: capabilities
        invariant
            planned.seq() == capabilities@,
            binds == bind_commands(key@, crate::capability::capability_views(capabilities@)),
            crate::script::command_views(commands@) =~= unbound + binds.take(planned.index()),
    {
        let ghost before = crate::script::command_views(commands@);
        commands.push(Command::BindActor { key: key.clone(), capability });
        proof {
            let i = planned.index();
            assert(crate::script::command_views(commands@) =~= before.push(binds[i]));
            assert(binds.take(i + 1) =~= binds.take(i).push(binds[i]));
        }
    }
    assert(binds.take(binds.len() as int) =~= binds);
    Script::new(commands)
}

/// An actor that is ready to run: what to hand to the waSCC host, what to do there, and how to stop
/// the actor again.
pub struct ActorRun {
    pub actor: wascc_host::Actor,
    pub script: Script,
    pub handle: ActorHandle,
}

/// Makes an actor of the module, and plans what to do on the waSCC host to run it. Which commands
/// these are, `run_script` says for each public key and each list of capabilities.
pub fn wascc_run(
    module: &Vec<u8>,
    env: EnvVars,
    volumes: Vec<VolumeBinding>,
    port_assigned: i32,
) -> (run: Result<ActorRun, ProviderError>)
    ensures
        match run {
            Ok(run) => {
                &&& run.actor == loaded_actor(module@)
                &&& signed_actor(module@) matches Ok((key, capabilities))
                &&& run.script@ == ScriptView::fresh(
                    run_commands(
                        key,
                        capabilities,
                        crate::text::value_texts(env@),
                        volumes@,
                        port_assigned as int,
                    ),
                )
                &&& run.handle.key@ == key
                &&& run.handle.volumes == volumes
            },
            Err(error) => {
                &&& signed_actor(module@) matches Err(text)
                &&& error matches ProviderError::LoadModule { cause }
                &&& cause@ == text
            },
        },
{
    match load_actor(module) {
        Ok(loaded) => {
            let script = run_script(
                &loaded.public_key,
                &loaded.capabilities,
                env,
                &volumes,
                port_assigned,
            );
            let handle = ActorHandle { key: loaded.public_key, volumes };
            Ok(ActorRun { actor: loaded.actor, script, handle })
        },
        Err(cause) => Err(ProviderError::LoadModule { cause }),
    }
}

} // verus!
