use crate::capability::{EnvVars, VolumeBinding};
use crate::error::ProviderError;
use crate::pod::{key_from_pod, validate_pod_runnable, Container, Pod};
use crate::provider::{ProviderView, WasccProvider};
use crate::status::{failed_start_status, ContainerStatus, PodStatus, StartFailure};
use crate::string_map::StringMap;
use vstd::prelude::*;

verus! {

/// The names of the volumes that the container mounts.
pub open spec fn mounted_volumes(container: Container) -> Seq<String> {
    match container.volume_mounts {
        Some(mounts) => mounts@,
        None => seq![],
    }
}

/// Whether the mount at place `i` is the first one without a volume.
pub open spec fn first_missing(
    mounts: Seq<String>,
    volumes: Map<Seq<char>, String>,
    i: int,
) -> bool {
    &&& 0 <= i < mounts.len()
    &&& !volumes.contains_key(mounts[i]@)
    &&& forall|j: int| 0 <= j < i ==> volumes.contains_key(#[trigger] mounts[j]@)
}

/// Whether each mount has a volume.
pub open spec fn all_mounted(mounts: Seq<String>, volumes: Map<Seq<char>, String>) -> bool {
    forall|i: int| 0 <= i < mounts.len() ==> volumes.contains_key(#[trigger] mounts[i]@)
}

/// The volumes that the mounts stand for, each with its place on the node.
pub open spec fn bindings(
    mounts: Seq<String>,
    volumes: Map<Seq<char>, String>,
) -> Seq<VolumeBinding> {
    mounts.map_values(
        |mount: String| VolumeBinding { name: mount, host_path: volumes[mount@] },
    )
}

/// Binds the volumes that the container mounts. If one of them does not exist, the first such one
/// is reported.
pub fn bind_volumes(container: &Container, volumes: &StringMap<String>) -> (outcome: Result<
    Vec<VolumeBinding>,
    ProviderError,
>)
    ensures
        match outcome {
            Ok(bound) => {
                &&& all_mounted(mounted_volumes(*container), volumes@)
                &&& bound@ == bindings(mounted_volumes(*container), volumes@)
            },
            Err(error) => exists|i: int|
                {
                    &&& #[trigger] first_missing(mounted_volumes(*container), volumes@, i)
                    &&& error == (ProviderError::VolumeNotFound {
                        volume_name: mounted_volumes(*container)[i],
                        container_name: container.name,
                    })
                },
        },
{
    let mut bound: Vec<VolumeBinding> = Vec::new();
    let ghost mounts = mounted_volumes(*container);
    if let Some(volume_mounts) = &container.volume_mounts {
        let mut i: usize = 0;
        while i < volume_mounts.len()
            invariant
                i <= volume_mounts@.len(),
                volume_mounts@ == mounts,
                mounts == mounted_volumes(*container),
                forall|j: int| 0 <= j < i ==> volumes@.contains_key(#[trigger] mounts[j]@),
                bound@ =~= bindings(mounts, volumes@).take(i as int),
            decreases volume_mounts@.len() - i,
        {
            let mount = &volume_mounts[i];
            match volumes.get(mount) {
                Some(host_path) => {
                    bound.push(VolumeBinding { name: mount.clone(), host_path: host_path.clone() });
                },
                None => {
                    assert(first_missing(mounts, volumes@, i as int));
                    return Err(
                        ProviderError::VolumeNotFound {
                            volume_name: mount.clone(),
                            container_name: container.name.clone(),
                        },
                    );
                },
            }
            i = i + 1;
        }
    }
    assert(bound@ =~= bindings(mounts, volumes@));
    Ok(bound)
}

/// What a container is started with.
pub struct ContainerStart {
    pub module: Vec<u8>,
    pub env: EnvVars,
    pub volumes: Vec<VolumeBinding>,
    pub port_assigned: i32,
}

/// What the addition of a pod waits for.
pub enum AddStage {
    /// To begin.
    Validating,
    /// The modules of the pod's containers.
    FetchingModules,
    /// The volumes of the pod.
    PreparingVolumes,
    /// The environment of the next container, which was assigned this port.
    ReadingEnvironment { port_assigned: i32 },
    /// The next container to be started.
    StartingContainer,
    /// The container started last to be announced.
    AnnouncingRunning,
    /// The status of the pod to be changed, after a container could not be started for this cause.
    PatchingStatus { cause: String },
    /// The handle of the pod.
    CreatingHandle,
    /// Nothing.
    Finished,
}

/// What has happened since the last action.
pub enum AddEvent<H, C> {
    /// The pod was sent here.
    Begin,
    /// The modules are there, by container name.
    ModulesFetched(StringMap<Vec<u8>>),
    /// The volumes are there: their places on the node, by volume name.
    VolumesPrepared(StringMap<String>),
    EnvironmentRead(EnvVars),
    ContainerStarted(C),
    ContainerFailed(StartFailure),
    RunningAnnounced,
    StatusPatched,
    HandleCreated(H),
    /// The action has failed with an error of its own.
    OutsideFailed,
}

/// What is to be done next.
pub enum AddAction<C> {
    FetchModules,
    PrepareVolumes,
    /// Read the environment of the container at this place.
    ReadEnvironment { container: usize },
    /// Start the container at this place.
    StartContainer { container: usize, start: ContainerStart },
    /// Announce the status of the container at this place, which has been started.
    AnnounceRunning { container: usize, container_status: ContainerStatus },
    /// Change the status of the pod.
    PatchStatus { status: PodStatus },
    /// Make a handle for the pod from the handles of its containers, by container name.
    CreateHandle { container_handles: StringMap<C> },
    /// Nothing: this is how the addition has ended.
    Finish(Result<(), ProviderError>),
    /// Nothing: the addition has ended with the error of the action that has failed.
    GiveUp,
}

/// A pod whose containers are started one after the other. For each that has been started there is
/// a handle of type `C`.
pub struct PodAddition<C> {
    pub pod: Pod,
    /// The modules of the containers that have not been started, by container name.
    pub modules: StringMap<Vec<u8>>,
    /// Where the volumes of the pod lie on the node, by volume name.
    pub volumes: StringMap<String>,
    /// The handles of the containers that have been started, by container name, until the handle of
    /// the pod is made from them.
    pub container_handles: StringMap<C>,
    /// How many containers have been started.
    pub started: usize,
    pub stage: AddStage,
}

/// The names of the containers.
pub open spec fn container_names(containers: Seq<Container>) -> Set<Seq<char>> {
    containers.map_values(|container: Container| container.name@).to_set()
}

/// Whether the event is one that the stage waits for.
pub open spec fn awaits<H, C>(stage: AddStage, event: AddEvent<H, C>) -> bool {
    match event {
        AddEvent::Begin => stage is Validating,
        AddEvent::ModulesFetched(_) => stage is FetchingModules,
        AddEvent::VolumesPrepared(_) => stage is PreparingVolumes,
        AddEvent::EnvironmentRead(_) => stage is ReadingEnvironment,
        AddEvent::ContainerStarted(_) => stage is StartingContainer,
        AddEvent::ContainerFailed(_) => stage is StartingContainer,
        AddEvent::RunningAnnounced => stage is AnnouncingRunning,
        AddEvent::StatusPatched => stage is PatchingStatus,
        AddEvent::HandleCreated(_) => stage is CreatingHandle,
        AddEvent::OutsideFailed => !(stage is Validating || stage is Finished),
    }
}

/// Whether the addition, once it turns to the next container, goes from `before` to `after` with
/// this action. The ports that the container lists are served, and then its environment is read; if
/// they cannot be served, this ends the addition. After the last container, the handle of the pod
/// is made.
pub open spec fn turned_to_next<H, C>(
    before: PodAddition<C>,
    provider_before: ProviderView<H>,
    after: PodAddition<C>,
    provider_after: ProviderView<H>,
    action: AddAction<C>,
) -> bool {
    &&& provider_after.handles == provider_before.handles
    &&& if before.complete() {
        &&& provider_after.ports == provider_before.ports
        &&& action == (AddAction::CreateHandle { container_handles: before.container_handles })
        &&& after.container_handles@ == Map::<Seq<char>, C>::empty()
        &&& after == (PodAddition {
            container_handles: after.container_handles,
            stage: AddStage::CreatingHandle,
            ..before
        })
    } else {
        match action {
            AddAction::ReadEnvironment { container } => {
                &&& container == before.started
                &&& after.stage matches AddStage::ReadingEnvironment { port_assigned }
                &&& crate::assignment::assignment_outcome(
                    provider_before.ports,
                    before.pod.name@,
                    before.current(),
                    Ok(port_assigned),
                    provider_after.ports,
                )
                &&& after == (PodAddition { stage: after.stage, ..before })
            },
            AddAction::Finish(Err(error)) => {
                &&& crate::assignment::assignment_outcome(
                    provider_before.ports,
                    before.pod.name@,
                    before.current(),
                    Err(error),
                    provider_after.ports,
                )
                &&& after == (PodAddition { stage: AddStage::Finished, ..before })
            },
            _ => false,
        }
    }
}

/// Whether the addition, once it has the environment of the next container, goes from `before` to
/// `after` with this action: to start the container with its module and its volumes, or to end with
/// the first volume that does not exist.
pub open spec fn container_prepared<C>(
    before: PodAddition<C>,
    env: EnvVars,
    after: PodAddition<C>,
    action: AddAction<C>,
) -> bool {
    let mounts = mounted_volumes(before.current());
    if all_mounted(mounts, before.volumes@) {
        &&& action matches AddAction::StartContainer { container, start }
        &&& container == before.started
        &&& start.module == before.modules@[before.current().name@]
        &&& start.env == env
        &&& start.volumes@ == bindings(mounts, before.volumes@)
        &&& before.stage == (AddStage::ReadingEnvironment { port_assigned: start.port_assigned })
        &&& after.modules@ == before.modules@.remove(before.current().name@)
        &&& after == (PodAddition {
            modules: after.modules,
            stage: AddStage::StartingContainer,
            ..before
        })
    } else {
        &&& action matches AddAction::Finish(Err(error))
        &&& exists|i: int|
            {
                &&& #[trigger] first_missing(mounts, before.volumes@, i)
                &&& error == (ProviderError::VolumeNotFound {
                    volume_name: mounts[i],
                    container_name: before.current().name,
                })
            }
        &&& after == (PodAddition { stage: AddStage::Finished, ..before })
    }
}

/// Whether the addition answers the event with this action, and goes from `before` to `after`.
pub open spec fn advanced<H, C>(
    before: PodAddition<C>,
    provider_before: ProviderView<H>,
    event: AddEvent<H, C>,
    after: PodAddition<C>,
    provider_after: ProviderView<H>,
    action: AddAction<C>,
) -> bool {
    match event {
        AddEvent::Begin => {
            &&& provider_after == provider_before
            &&& if crate::pod::runnable(before.pod) {
                &&& action == AddAction::<C>::FetchModules
                &&& after == (PodAddition { stage: AddStage::FetchingModules, ..before })
            } else {
                &&& action matches AddAction::Finish(Err(error))
                &&& crate::pod::refused_for(before.pod, error)
                &&& after == (PodAddition { stage: AddStage::Finished, ..before })
            }
        },
        AddEvent::ModulesFetched(modules) => {
            &&& provider_after == provider_before
            &&& action == AddAction::<C>::PrepareVolumes
            &&& after == (PodAddition { modules, stage: AddStage::PreparingVolumes, ..before })
        },
        AddEvent::VolumesPrepared(volumes) => turned_to_next(
            PodAddition { volumes, ..before },
            provider_before,
            after,
            provider_after,
            action,
        ),
        AddEvent::EnvironmentRead(env) => {
            &&& provider_after == provider_before
            &&& container_prepared(before, env, after, action)
        },
        AddEvent::ContainerStarted(handle) => {
            &&& provider_after == provider_before
            &&& action == (AddAction::<C>::AnnounceRunning {
                container: before.started,
                container_status: ContainerStatus::Running,
            })
            &&& after.container_handles@ == before.container_handles@.insert(
                before.current().name@,
                handle,
            )
            &&& after.started == before.started + 1
            &&& after == (PodAddition {
                container_handles: after.container_handles,
                started: after.started,
                stage: AddStage::AnnouncingRunning,
                ..before
            })
        },
        AddEvent::ContainerFailed(failure) => {
            &&& provider_after == provider_before
            &&& action matches AddAction::PatchStatus { status }
            &&& crate::status::is_failed_start_status(
                status,
                before.current().name@,
                failure.details@,
            )
            &&& after == (PodAddition {
                stage: AddStage::PatchingStatus { cause: failure.summary },
                ..before
            })
        },
        AddEvent::RunningAnnounced => turned_to_next(
            before,
            provider_before,
            after,
            provider_after,
            action,
        ),
        AddEvent::StatusPatched => {
            &&& provider_after == provider_before
            &&& action matches AddAction::Finish(Err(ProviderError::ContainerNotStarted { cause }))
            &&& before.stage == (AddStage::PatchingStatus { cause })
            &&& after == (PodAddition { stage: AddStage::Finished, ..before })
        },
        AddEvent::HandleCreated(handle) => {
            &&& provider_after == (ProviderView {
                handles: provider_before.handles.insert(
                    crate::pod::pod_key_text(before.pod.namespace@, before.pod.name@),
                    handle,
                ),
                ports: provider_before.ports,
            })
            &&& action == AddAction::<C>::Finish(Ok(()))
            &&& after == (PodAddition { stage: AddStage::Finished, ..before })
        },
        AddEvent::OutsideFailed => {
            &&& provider_after == provider_before
            &&& action == AddAction::<C>::GiveUp
            &&& after == (PodAddition { stage: AddStage::Finished, ..before })
        },
    }
}

impl<C> PodAddition<C> {
    /// Whether the next container is being started.
    pub open spec fn in_container(&self) -> bool {
        self.stage is ReadingEnvironment || self.stage is StartingContainer
            || self.stage is PatchingStatus
    }

    /// Whether the addition is in order: past its beginning the pod is one that can run here, and
    /// the handles are those of the containers that have been started.
    pub open spec fn wf(&self) -> bool {
        &&& self.started <= self.pod.containers@.len()
        &&& !(self.stage is Validating || self.stage is Finished) ==> crate::pod::runnable(self.pod)
        &&& self.in_container() ==> !self.complete()
        &&& self.stage is CreatingHandle ==> self.complete()
        &&& !(self.stage is CreatingHandle || self.stage is Finished)
            ==> self.container_handles@.dom() == container_names(
            self.pod.containers@.take(self.started as int),
        )
    }

    /// Whether every container has been started.
    pub open spec fn complete(&self) -> bool {
        self.started == self.pod.containers@.len()
    }

    /// The container to be started next.
    pub open spec fn current(&self) -> Container {
        self.pod.containers@[self.started as int]
    }

    /// Whether the module of the next container is there, in case it is asked for.
    pub open spec fn module_ready<H>(&self, event: AddEvent<H, C>) -> bool {
        event is EnvironmentRead && all_mounted(mounted_volumes(self.current()), self.volumes@)
            ==> self.modules@.contains_key(self.current().name@)
    }

    /// The addition of a pod, before it has begun.
    pub fn new(pod: Pod) -> (addition: PodAddition<C>)
        ensures
            addition.wf(),
            addition.stage is Validating,
            addition.pod == pod,
            addition.started == 0,
            addition.modules@ == Map::<Seq<char>, Vec<u8>>::empty(),
            addition.volumes@ == Map::<Seq<char>, String>::empty(),
            addition.container_handles@ == Map::<Seq<char>, C>::empty(),
    {
        let container_handles: StringMap<C> = StringMap::new();
        assert(container_handles@.dom() =~= container_names(pod.containers@.take(0)));
        PodAddition {
            pod,
            modules: StringMap::new(),
            volumes: StringMap::new(),
            container_handles,
            started: 0,
            stage: AddStage::Validating,
        }
    }

    /// Whether the module of the container at this place is there.
    pub fn has_module(&self, container: usize) -> (found: bool)
        requires
            container < self.pod.containers@.len(),
        ensures
            found == self.modules@.contains_key(self.pod.containers@[container as int].name@),
    {
        self.modules.contains_key(&self.pod.containers[container].name)
    }

    /// Turns to the next container.
    fn turn_to_next<H>(&mut self, provider: &mut WasccProvider<H>) -> (action: AddAction<C>)
        requires
            old(self).wf(),
            old(self).stage is PreparingVolumes || old(self).stage is AnnouncingRunning,
        ensures
            final(self).wf(),
            turned_to_next(*old(self), old(provider)@, *final(self), final(provider)@, action),
    {
        if self.started < self.pod.containers.len() {
            let container = &self.pod.containers[self.started];
            match provider.assign_container_port(&self.pod, container) {
                Ok(port_assigned) => {
                    self.stage = AddStage::ReadingEnvironment { port_assigned };
                    AddAction::ReadEnvironment { container: self.started }
                },
                Err(error) => {
                    self.stage = AddStage::Finished;
                    AddAction::Finish(Err(error))
                },
            }
        } else {
            let mut container_handles: StringMap<C> = StringMap::new();
            std::mem::swap(&mut container_handles, &mut self.container_handles);
            self.stage = AddStage::CreatingHandle;
            AddAction::CreateHandle { container_handles }
        }
    }

    /// Gathers what the next container is started with; its module is used up by this.
    fn start_container(&mut self, env: EnvVars, port_assigned: i32) -> (action: AddAction<C>)
        requires
            old(self).wf(),
            old(self).stage == (AddStage::ReadingEnvironment { port_assigned }),
            all_mounted(mounted_volumes(old(self).current()), old(self).volumes@) ==> old(
                self,
            ).modules@.contains_key(old(self).current().name@),
        ensures
            final(self).wf(),
            container_prepared(*old(self), env, *final(self), action),
    {
        let container = &self.pod.containers[self.started];
        match bind_volumes(container, &self.volumes) {
            Ok(volumes) => {
                let module = self.modules.remove(&container.name).unwrap();
                self.stage = AddStage::StartingContainer;
                AddAction::StartContainer {
                    container: self.started,
                    start: ContainerStart { module, env, volumes, port_assigned },
                }
            },
            Err(error) => {
                self.stage = AddStage::Finished;
                AddAction::Finish(Err(error))
            },
        }
    }

    /// Answers the event with the next action. What the pod is assigned and kept under is noted
    /// with the provider.
    pub fn advance<H>(&mut self, provider: &mut WasccProvider<H>, event: AddEvent<H, C>) -> (action:
        AddAction<C>)
        requires
            old(self).wf(),
            awaits(old(self).stage, event),
            old(self).module_ready(event),
        ensures
            final(self).wf(),
            advanced(
                *old(self),
                old(provider)@,
                event,
                *final(self),
                final(provider)@,
                action,
            ),
    {
        match event {
            AddEvent::Begin => match validate_pod_runnable(&self.pod) {
                Ok(_) => {
                    self.stage = AddStage::FetchingModules;
                    AddAction::FetchModules
                },
                Err(error) => {
                    self.stage = AddStage::Finished;
                    AddAction::Finish(Err(error))
                },
            },
            AddEvent::ModulesFetched(modules) => {
                self.modules = modules;
                self.stage = AddStage::PreparingVolumes;
                AddAction::PrepareVolumes
            },
            AddEvent::VolumesPrepared(volumes) => {
                self.volumes = volumes;
                self.turn_to_next(provider)
            },
            AddEvent::EnvironmentRead(env) => match self.stage {
                AddStage::ReadingEnvironment { port_assigned } => self.start_container(
                    env,
                    port_assigned,
                ),
                _ => AddAction::GiveUp,
            },
            AddEvent::ContainerStarted(handle) => {
                let name = self.pod.containers[self.started].name.clone();
                self.container_handles.insert(name, handle);
                let container: usize = self.started;
                assert(self.started < self.pod.containers.len());
                self.started = self.started + 1;
                self.stage = AddStage::AnnouncingRunning;
                proof {
                    lemma_names(self.pod.containers@, container as int);
                }
                AddAction::AnnounceRunning {
                    container,
                    container_status: ContainerStatus::Running,
                }
            },
            AddEvent::ContainerFailed(failure) => {
                let status = failed_start_status(
                    &self.pod.containers[self.started].name,
                    &failure,
                );
                self.stage = AddStage::PatchingStatus { cause: failure.summary };
                AddAction::PatchStatus { status }
            },
            AddEvent::RunningAnnounced => self.turn_to_next(provider),
            AddEvent::StatusPatched => {
                let mut stage = AddStage::Finished;
                std::mem::swap(&mut stage, &mut self.stage);
                match stage {
                    AddStage::PatchingStatus { cause } => AddAction::Finish(
                        Err(ProviderError::ContainerNotStarted { cause }),
                    ),
                    _ => AddAction::GiveUp,
                }
            },
            AddEvent::HandleCreated(handle) => {
                provider.keep(key_from_pod(&self.pod), handle);
                self.stage = AddStage::Finished;
                AddAction::Finish(Ok(()))
            },
            AddEvent::OutsideFailed => {
                self.stage = AddStage::Finished;
                AddAction::GiveUp
            },
        }
    }
}

/// One more container adds its name.
pub proof fn lemma_names(containers: Seq<Container>, i: int)
    requires
        0 <= i < containers.len(),
    ensures
        container_names(containers.take(i + 1)) == container_names(containers.take(i)).insert(
            containers[i].name@,
        ),
{
    let name_of = |container: Container| container.name@;
    let shorter = containers.take(i).map_values(name_of);
    let longer = containers.take(i + 1).map_values(name_of);
    assert(longer =~= shorter.push(containers[i].name@));
    shorter.lemma_push_to_set_commute(containers[i].name@);
}

} // verus!
