use crate::addition::{AddAction, AddEvent, AddStage, ContainerStart, PodAddition};
use crate::capability::EnvVars;
use crate::error::ProviderError;
use crate::provider::ProviderView;
use crate::status::{ContainerStatus, PodStatus, StartFailure};
use crate::string_map::StringMap;
use vstd::prelude::*;

verus! {

/// A container is started with what belongs to it, whichever it is: the environment that was read
/// for it, the module under its name, the port that it was assigned, and the volumes that it mounts
/// with their places, in order. Its module is used up; nothing else changes.
pub proof fn law_container_starts_with_its_own<H, C>(
    before: PodAddition<C>,
    provider_before: ProviderView<H>,
    env: EnvVars,
    after: PodAddition<C>,
    provider_after: ProviderView<H>,
    container: usize,
    start: ContainerStart,
)
    requires
        crate::addition::advanced(
            before,
            provider_before,
            AddEvent::EnvironmentRead(env),
            after,
            provider_after,
            AddAction::StartContainer { container, start },
        ),
    ensures
        container == before.started,
        start.env@ == env@,
        start.module == before.modules@[before.pod.containers@[container as int].name@],
        before.stage == (AddStage::ReadingEnvironment { port_assigned: start.port_assigned }),
        before.pod.containers@[container as int].volume_mounts is None ==> start.volumes@.len()
            == 0,
        before.pod.containers@[container as int].volume_mounts matches Some(mounts) ==> {
            &&& start.volumes@.len() == mounts@.len()
            &&& forall|v: int|
                #![trigger mounts@[v]]
                0 <= v < mounts@.len() ==> {
                    &&& before.volumes@.contains_key(mounts@[v]@)
                    &&& start.volumes@[v].name == mounts@[v]
                    &&& start.volumes@[v].host_path == before.volumes@[mounts@[v]@]
                }
        },
        after.stage is StartingContainer,
        after.modules@ == before.modules@.remove(before.pod.containers@[container as int].name@),
        after.pod == before.pod,
        after.volumes == before.volumes,
        after.container_handles == before.container_handles,
        after.started == before.started,
        provider_after == provider_before,
{
}

/// Once its environment was read, a container is started if each volume that it mounts exists. If
/// one does not, the addition ends with the first such one, and nothing else changes.
pub proof fn law_container_starts_if_its_volumes_exist<H, C>(
    before: PodAddition<C>,
    provider_before: ProviderView<H>,
    env: EnvVars,
    after: PodAddition<C>,
    provider_after: ProviderView<H>,
    action: AddAction<C>,
)
    requires
        crate::addition::advanced(
            before,
            provider_before,
            AddEvent::EnvironmentRead(env),
            after,
            provider_after,
            action,
        ),
    ensures
        provider_after == provider_before,
        before.pod.containers@[before.started as int].volume_mounts is None
            ==> action is StartContainer,
        before.pod.containers@[before.started as int].volume_mounts matches Some(mounts) ==> {
            &&& (forall|v: int|
                0 <= v < mounts@.len() ==> before.volumes@.contains_key((#[trigger] mounts@[v])@))
                ==> action is StartContainer
            &&& (exists|v: int|
                0 <= v < mounts@.len() && !before.volumes@.contains_key((#[trigger] mounts@[v])@))
                ==> {
                &&& after == (PodAddition { stage: AddStage::Finished, ..before })
                &&& exists|v: int|
                    {
                        &&& 0 <= v < mounts@.len()
                        &&& !before.volumes@.contains_key((#[trigger] mounts@[v])@)
                        &&& forall|w: int|
                            0 <= w < v ==> before.volumes@.contains_key((#[trigger] mounts@[w])@)
                        &&& action == AddAction::<C>::Finish(
                            Err(
                                ProviderError::VolumeNotFound {
                                    volume_name: mounts@[v],
                                    container_name: before.pod.containers@[before.started as int].name,
                                },
                            ),
                        )
                    }
            }
        },
{
    let container = before.pod.containers@[before.started as int];
    let mounts = crate::addition::mounted_volumes(container);
    if !crate::addition::all_mounted(mounts, before.volumes@) {
        let v = choose|v: int|
            {
                &&& #[trigger] crate::addition::first_missing(mounts, before.volumes@, v)
                &&& action == AddAction::<C>::Finish(
                    Err(
                        ProviderError::VolumeNotFound {
                            volume_name: mounts[v],
                            container_name: container.name,
                        },
                    ),
                )
            };
        assert(!before.volumes@.contains_key(mounts[v]@));
    }
}

/// A pod that was sent here is refused, with nothing done, if it has an init container or one of
/// its containers has an argument; otherwise its modules are fetched.
pub proof fn law_addition_begins_with_a_fit_pod<H, C>(
    before: PodAddition<C>,
    provider_before: ProviderView<H>,
    after: PodAddition<C>,
    provider_after: ProviderView<H>,
    action: AddAction<C>,
)
    requires
        crate::addition::advanced(
            before,
            provider_before,
            AddEvent::Begin,
            after,
            provider_after,
            action,
        ),
    ensures
        provider_after == provider_before,
        pod_is_fit(before.pod) ==> action is FetchModules && after == (PodAddition {
            stage: AddStage::FetchingModules,
            ..before
        }),
        !pod_is_fit(before.pod) ==> {
            &&& action matches AddAction::Finish(Err(error))
            &&& error is InitContainers || error is ContainerArgs
            &&& after == (PodAddition { stage: AddStage::Finished, ..before })
        },
{
    crate::laws::keeping::law_pod_runs_without_init_containers_and_arguments(before.pod);
    if !pod_is_fit(before.pod) {
        crate::laws::keeping::law_refusal_is_for_the_first_culprit(
            before.pod,
            action->Finish_0->Err_0,
        );
    }
}

/// Whether the pod has neither init containers nor a container with an argument.
pub open spec fn pod_is_fit(pod: crate::pod::Pod) -> bool {
    pod.init_containers@.len() == 0 && !exists|i: int|
        0 <= i < pod.containers@.len() && crate::laws::keeping::has_some_argument(
            #[trigger] pod.containers@[i],
        )
}

/// The modules that were fetched are the ones that the containers are started from; the volumes
/// come next.
pub proof fn law_fetched_modules_are_taken<H, C>(
    before: PodAddition<C>,
    provider_before: ProviderView<H>,
    modules: StringMap<Vec<u8>>,
    after: PodAddition<C>,
    provider_after: ProviderView<H>,
    action: AddAction<C>,
)
    requires
        crate::addition::advanced(
            before,
            provider_before,
            AddEvent::ModulesFetched(modules),
            after,
            provider_after,
            action,
        ),
    ensures
        action is PrepareVolumes,
        after == (PodAddition { modules, stage: AddStage::PreparingVolumes, ..before }),
        provider_after == provider_before,
{
}

/// When the volumes are there, or a container has been announced, it is the next container's turn:
/// its ports are assigned, and either its environment is read next or the addition ends with the
/// error of the assignment. After the last container, the handle of the pod is made from the
/// handles of the containers. Pods that are kept stay as they are.
pub proof fn law_containers_take_turns<H, C>(
    before: PodAddition<C>,
    provider_before: ProviderView<H>,
    event: AddEvent<H, C>,
    after: PodAddition<C>,
    provider_after: ProviderView<H>,
    action: AddAction<C>,
)
    requires
        crate::addition::advanced(
            before,
            provider_before,
            event,
            after,
            provider_after,
            action,
        ),
        event is VolumesPrepared || event is RunningAnnounced,
    ensures
        provider_after.handles == provider_before.handles,
        after.pod == before.pod,
        after.modules == before.modules,
        after.started == before.started,
        event matches AddEvent::VolumesPrepared(volumes) ==> after.volumes == volumes,
        event is RunningAnnounced ==> after.volumes == before.volumes,
        before.started == before.pod.containers@.len() ==> {
            &&& action == (AddAction::CreateHandle { container_handles: before.container_handles })
            &&& after.stage is CreatingHandle
            &&& provider_after.ports == provider_before.ports
        },
        before.started != before.pod.containers@.len() ==> {
            let container = before.pod.containers@[before.started as int];
            &&& after.container_handles == before.container_handles
            &&& action is ReadEnvironment || action is Finish
            &&& action matches AddAction::ReadEnvironment { container: place } ==> {
                &&& place == before.started
                &&& after.stage matches AddStage::ReadingEnvironment { port_assigned }
                &&& crate::assignment::assignment_outcome(
                    provider_before.ports,
                    before.pod.name@,
                    container,
                    Ok(port_assigned),
                    provider_after.ports,
                )
            }
            &&& action matches AddAction::Finish(outcome) ==> {
                &&& after.stage is Finished
                &&& outcome matches Err(error)
                &&& crate::assignment::assignment_outcome(
                    provider_before.ports,
                    before.pod.name@,
                    container,
                    Err(error),
                    provider_after.ports,
                )
            }
        },
{
}

/// A container that has been started is announced as running. Its handle is noted under its name,
/// next to those of the others, and the next one in line is the container after it.
pub proof fn law_started_container_is_noted<H, C>(
    before: PodAddition<C>,
    provider_before: ProviderView<H>,
    handle: C,
    after: PodAddition<C>,
    provider_after: ProviderView<H>,
    action: AddAction<C>,
)
    requires
        crate::addition::advanced(
            before,
            provider_before,
            AddEvent::ContainerStarted(handle),
            after,
            provider_after,
            action,
        ),
    ensures
        action == (AddAction::<C>::AnnounceRunning {
            container: before.started,
            container_status: ContainerStatus::Running,
        }),
        after.started == before.started + 1,
        after.stage is AnnouncingRunning,
        ({
            let name = before.pod.containers@[before.started as int].name@;
            &&& after.container_handles@.contains_key(name)
            &&& after.container_handles@[name] == handle
            &&& forall|other: Seq<char>|
                other != name ==> {
                    &&& #[trigger] after.container_handles@.contains_key(other)
                        == before.container_handles@.contains_key(other)
                    &&& before.container_handles@.contains_key(other)
                        ==> after.container_handles@[other] == before.container_handles@[other]
                }
        }),
        after.pod == before.pod,
        after.modules == before.modules,
        after.volumes == before.volumes,
        provider_after == provider_before,
{
}

/// A container that could not be started is reported with all details in the status of the pod, and
/// then the addition ends with an error that gives the failure in short. Neither of the two changes
/// what the provider keeps.
pub proof fn law_failed_container_ends_the_addition<H, C>(
    before: PodAddition<C>,
    provider_before: ProviderView<H>,
    failure: StartFailure,
    between: PodAddition<C>,
    provider_between: ProviderView<H>,
    report: AddAction<C>,
    after: PodAddition<C>,
    provider_after: ProviderView<H>,
    action: AddAction<C>,
)
    requires
        crate::addition::advanced(
            before,
            provider_before,
            AddEvent::ContainerFailed(failure),
            between,
            provider_between,
            report,
        ),
        crate::addition::advanced(
            between,
            provider_between,
            AddEvent::StatusPatched,
            after,
            provider_after,
            action,
        ),
    ensures
        report matches AddAction::PatchStatus { status } && reports_failure(
            status,
            before.pod.containers@[before.started as int].name@,
            failure.details@,
        ),
        action matches AddAction::Finish(Err(error)) && error.text() == "Failed to run pod: "@
            + failure.summary@,
        after.stage is Finished,
        after.pod == before.pod,
        after.started == before.started,
        provider_after == provider_before,
{
    if let AddAction::PatchStatus { status } = report {
        let name = before.pod.containers@[before.started as int].name@;
        crate::laws::keeping::law_failed_start_is_reported(status, name, failure.details@, name);
    }
}

/// Whether the status says of this container, and of no other, that it has ended in a failure with
/// these details.
pub open spec fn reports_failure(
    status: PodStatus,
    container_name: Seq<char>,
    details: Seq<char>,
) -> bool {
    &&& status.message is None
    &&& status.container_statuses@.dom() == set![container_name]
    &&& status.container_statuses@[container_name]@
        == (crate::status::ContainerStatusView::Terminated {
        reason: "Error while starting container: "@ + details,
        failed: true,
    })
}

/// The handle of a pod is kept under the pod's namespace, a colon and its name, in place of one
/// that was kept there; the addition has succeeded. Nothing else that the provider keeps changes.
pub proof fn law_pod_handle_is_kept<H, C>(
    before: PodAddition<C>,
    provider_before: ProviderView<H>,
    handle: H,
    after: PodAddition<C>,
    provider_after: ProviderView<H>,
    action: AddAction<C>,
)
    requires
        crate::addition::advanced(
            before,
            provider_before,
            AddEvent::HandleCreated(handle),
            after,
            provider_after,
            action,
        ),
    ensures
        action == AddAction::<C>::Finish(Ok(())),
        after.stage is Finished,
        provider_after.ports == provider_before.ports,
        provider_after.handles == provider_before.handles.insert(
            before.pod.namespace@ + ":"@ + before.pod.name@,
            handle,
        ),
{
}

/// If something that the addition asked for fails with an error of its own, the addition ends with
/// that error, and the provider keeps what it kept.
pub proof fn law_outside_failure_ends_the_addition<H, C>(
    before: PodAddition<C>,
    provider_before: ProviderView<H>,
    after: PodAddition<C>,
    provider_after: ProviderView<H>,
    action: AddAction<C>,
)
    requires
        crate::addition::advanced(
            before,
            provider_before,
            AddEvent::OutsideFailed,
            after,
            provider_after,
            action,
        ),
    ensures
        action is GiveUp,
        after == (PodAddition { stage: AddStage::Finished, ..before }),
        provider_after == provider_before,
{
}

/// Whether the event tells how the action went.
pub open spec fn answers<H, C>(event: AddEvent<H, C>, action: AddAction<C>) -> bool {
    match action {
        AddAction::FetchModules => event is ModulesFetched || event is OutsideFailed,
        AddAction::PrepareVolumes => event is VolumesPrepared || event is OutsideFailed,
        AddAction::ReadEnvironment { .. } => event is EnvironmentRead || event is OutsideFailed,
        AddAction::StartContainer { .. } => event is ContainerStarted || event is ContainerFailed
            || event is OutsideFailed,
        AddAction::AnnounceRunning { .. } => event is RunningAnnounced || event is OutsideFailed,
        AddAction::PatchStatus { .. } => event is StatusPatched || event is OutsideFailed,
        AddAction::CreateHandle { .. } => event is HandleCreated || event is OutsideFailed,
        AddAction::Finish(_) => false,
        AddAction::GiveUp => false,
    }
}

/// After an action, the addition waits for the events that tell how the action went, and for no
/// others. To begin with, it waits to begin.
pub proof fn law_addition_waits_for_the_answer<H, C>(
    before: PodAddition<C>,
    provider_before: ProviderView<H>,
    event: AddEvent<H, C>,
    after: PodAddition<C>,
    provider_after: ProviderView<H>,
    action: AddAction<C>,
    next: AddEvent<H, C>,
)
    requires
        crate::addition::advanced(
            before,
            provider_before,
            event,
            after,
            provider_after,
            action,
        ),
    ensures
        crate::addition::awaits(after.stage, next) <==> answers(next, action),
        crate::addition::awaits(AddStage::Validating, next) <==> next is Begin,
{
}

/// While an addition goes on, there is a handle under the name of each container that has been
/// started, and under no other name. The pod is fit to run here, except before it was looked at.
pub proof fn law_handles_are_those_of_started_containers<C>(addition: PodAddition<C>)
    requires
        addition.wf(),
        !(addition.stage is CreatingHandle || addition.stage is Finished),
    ensures
        forall|i: int|
            0 <= i < addition.started ==> addition.container_handles@.contains_key(
                (#[trigger] addition.pod.containers@[i]).name@,
            ),
        forall|name: Seq<char>| #[trigger]
            addition.container_handles@.contains_key(name) ==> exists|i: int|
                0 <= i < addition.started && (#[trigger] addition.pod.containers@[i]).name@ == name,
        addition.started <= addition.pod.containers@.len(),
        !(addition.stage is Validating) ==> pod_is_fit(addition.pod),
{
    crate::laws::keeping::law_pod_runs_without_init_containers_and_arguments(addition.pod);
    let begun = addition.pod.containers@.take(addition.started as int);
    let names = begun.map_values(|container: crate::pod::Container| container.name@);
    assert(addition.container_handles@.dom() == names.to_set());
    assert forall|i: int| 0 <= i < addition.started implies addition.container_handles@.contains_key(
        (#[trigger] addition.pod.containers@[i]).name@,
    ) by {
        assert(names[i] == addition.pod.containers@[i].name@);
        assert(names.to_set().contains(names[i]));
    }
    assert forall|name: Seq<char>| #[trigger]
        addition.container_handles@.contains_key(name) implies exists|i: int|
        0 <= i < addition.started && (#[trigger] addition.pod.containers@[i]).name@ == name by {
        assert(names.to_set().contains(name));
        let i = choose|i: int| 0 <= i < names.len() && names[i] == name;
        assert(addition.pod.containers@[i].name@ == name);
    }
}

/// An addition can take the environment of the next container if that container mounts a volume
/// that does not exist, for it ends then, or if the container's module is there; and it can take
/// every other event.
pub proof fn law_module_is_needed_for_a_start_alone<H, C>(
    addition: PodAddition<C>,
    event: AddEvent<H, C>,
)
    ensures
        !(event is EnvironmentRead) ==> addition.module_ready(event),
        addition.modules@.contains_key(
            addition.pod.containers@[addition.started as int].name@,
        ) ==> addition.module_ready(event),
        addition.pod.containers@[addition.started as int].volume_mounts matches Some(mounts) && (
        exists|v: int|
            0 <= v < mounts@.len() && !addition.volumes@.contains_key((#[trigger] mounts@[v])@))
            ==> addition.module_ready(event),
{
}

/// Up to each place of an addition, it is in order and about the same pod.
proof fn lemma_in_order<H, C>(
    additions: Seq<PodAddition<C>>,
    providers: Seq<ProviderView<H>>,
    events: Seq<AddEvent<H, C>>,
    actions: Seq<AddAction<C>>,
    t: int,
)
    requires
        crate::laws::added_by(additions, providers, events, actions),
        0 <= t <= events.len(),
    ensures
        additions[t].wf(),
        additions[t].pod == additions[0].pod,
    decreases t,
{
    if t > 0 {
        lemma_in_order(additions, providers, events, actions, t - 1);
        assert(crate::addition::awaits(additions[t - 1].stage, events[t - 1]));
        crate::laws::law_addition_stays_in_order(
            additions[t - 1],
            providers[t - 1],
            events[t - 1],
            additions[t - 1 + 1],
            providers[t - 1 + 1],
            actions[t - 1],
        );
    }
}

/// From the place on where the modules were fetched, no module is there that was not fetched.
proof fn lemma_modules_stay<H, C>(
    additions: Seq<PodAddition<C>>,
    providers: Seq<ProviderView<H>>,
    events: Seq<AddEvent<H, C>>,
    actions: Seq<AddAction<C>>,
    modules: StringMap<Vec<u8>>,
    fetched: int,
    t: int,
)
    requires
        crate::laws::added_by(additions, providers, events, actions),
        0 <= fetched < t <= events.len(),
        events[fetched] == AddEvent::<H, C>::ModulesFetched(modules),
    ensures
        additions[t].modules@.submap_of(modules@),
        !(additions[t].stage is Validating || additions[t].stage is FetchingModules),
    decreases t,
{
    lemma_in_order(additions, providers, events, actions, t - 1);
    assert(crate::addition::awaits(additions[t - 1].stage, events[t - 1]));
    assert(additions[t] == additions[t - 1 + 1]);
    if fetched < t - 1 {
        lemma_modules_stay(additions, providers, events, actions, modules, fetched, t - 1);
    }
}

/// From the place on where the volumes were prepared, the volumes stay the same.
proof fn lemma_volumes_stay<H, C>(
    additions: Seq<PodAddition<C>>,
    providers: Seq<ProviderView<H>>,
    events: Seq<AddEvent<H, C>>,
    actions: Seq<AddAction<C>>,
    volumes: StringMap<String>,
    prepared: int,
    t: int,
)
    requires
        crate::laws::added_by(additions, providers, events, actions),
        0 <= prepared < t <= events.len(),
        events[prepared] == AddEvent::<H, C>::VolumesPrepared(volumes),
    ensures
        additions[t].volumes == volumes,
        !(additions[t].stage is Validating || additions[t].stage is FetchingModules
            || additions[t].stage is PreparingVolumes),
    decreases t,
{
    lemma_in_order(additions, providers, events, actions, t - 1);
    assert(crate::addition::awaits(additions[t - 1].stage, events[t - 1]));
    assert(additions[t] == additions[t - 1 + 1]);
    if prepared < t - 1 {
        lemma_volumes_stay(additions, providers, events, actions, volumes, prepared, t - 1);
    }
}

/// Over a whole addition, each container is started with what belongs to it: the module that was
/// fetched under its name, the environment that was read right before, the volumes that it mounts
/// with the places at which they were prepared, and the port that was assigned to it, and to no
/// other, just before its environment was asked for.
pub proof fn law_whole_addition_starts_containers_with_their_own<H, C>(
    additions: Seq<PodAddition<C>>,
    providers: Seq<ProviderView<H>>,
    events: Seq<AddEvent<H, C>>,
    actions: Seq<AddAction<C>>,
    fetched: int,
    modules: StringMap<Vec<u8>>,
    prepared: int,
    volumes: StringMap<String>,
    t: int,
    container: usize,
    start: ContainerStart,
)
    requires
        crate::laws::added_by(additions, providers, events, actions),
        0 <= fetched < t < events.len(),
        events[fetched] == AddEvent::<H, C>::ModulesFetched(modules),
        0 <= prepared < t,
        events[prepared] == AddEvent::<H, C>::VolumesPrepared(volumes),
        actions[t] == (AddAction::<C>::StartContainer { container, start }),
        additions[t].modules@.contains_key(
            additions[0].pod.containers@[container as int].name@,
        ),
    ensures
        ({
            let own = additions[0].pod.containers@[container as int];
            &&& 0 <= container < additions[0].pod.containers@.len()
            &&& modules@.contains_key(own.name@)
            &&& start.module == modules@[own.name@]
            &&& events[t] matches AddEvent::EnvironmentRead(env)
            &&& start.env@ == env@
            &&& own.volume_mounts is None ==> start.volumes@.len() == 0
            &&& own.volume_mounts matches Some(mounts) ==> {
                &&& start.volumes@.len() == mounts@.len()
                &&& forall|v: int|
                    #![trigger mounts@[v]]
                    0 <= v < mounts@.len() ==> {
                        &&& volumes@.contains_key(mounts@[v]@)
                        &&& start.volumes@[v].name == mounts@[v]
                        &&& start.volumes@[v].host_path == volumes@[mounts@[v]@]
                    }
            }
            &&& actions[t - 1] == (AddAction::<C>::ReadEnvironment { container })
            &&& crate::assignment::assignment_outcome(
                providers[t - 1].ports,
                additions[0].pod.name@,
                own,
                Ok(start.port_assigned),
                providers[t].ports,
            )
        }),
{
    lemma_in_order(additions, providers, events, actions, t);
    lemma_in_order(additions, providers, events, actions, t - 1);
    lemma_modules_stay(additions, providers, events, actions, modules, fetched, t);
    lemma_volumes_stay(additions, providers, events, actions, volumes, prepared, t);
    assert(crate::addition::awaits(additions[t].stage, events[t]));
    assert(crate::addition::awaits(additions[t - 1].stage, events[t - 1]));
    assert(additions[t] == additions[t - 1 + 1] && providers[t] == providers[t - 1 + 1]);
    assert(events[t] is EnvironmentRead);
    if let AddEvent::EnvironmentRead(env) = events[t] {
        law_container_starts_with_its_own(
            additions[t],
            providers[t],
            env,
            additions[t + 1],
            providers[t + 1],
            container,
            start,
        );
    }
    assert(events[t - 1] is VolumesPrepared || events[t - 1] is RunningAnnounced);
    law_containers_take_turns(
        additions[t - 1],
        providers[t - 1],
        events[t - 1],
        additions[t],
        providers[t],
        actions[t - 1],
    );
}

/// How many of the events tell that a container has been started.
pub open spec fn started_count<H, C>(events: Seq<AddEvent<H, C>>) -> nat
    decreases events.len(),
{
    if events.len() == 0 {
        0
    } else {
        started_count(events.drop_last()) + if events.last() is ContainerStarted {
            1nat
        } else {
            0
        }
    }
}

/// Over a whole addition, the containers are started in order and none is left out: the one to be
/// started is always the first that was not, and the handle of the pod is made only once all of
/// them were.
pub proof fn law_whole_addition_leaves_no_container_out<H, C>(
    additions: Seq<PodAddition<C>>,
    providers: Seq<ProviderView<H>>,
    events: Seq<AddEvent<H, C>>,
    actions: Seq<AddAction<C>>,
    t: int,
)
    requires
        crate::laws::added_by(additions, providers, events, actions),
        additions[0].started == 0,
        0 <= t < events.len(),
    ensures
        actions[t] matches AddAction::ReadEnvironment { container } ==> container == started_count(
            events.take(t),
        ),
        actions[t] matches AddAction::StartContainer { container, .. } ==> container
            == started_count(events.take(t)),
        actions[t] matches AddAction::AnnounceRunning { container, .. } ==> container
            == started_count(events.take(t)),
        actions[t] is CreateHandle ==> started_count(events.take(t))
            == additions[0].pod.containers@.len(),
        actions[t] == AddAction::<C>::Finish(Ok(())) ==> started_count(events.take(t))
            == additions[0].pod.containers@.len(),
{
    lemma_in_order(additions, providers, events, actions, t);
    lemma_started(additions, providers, events, actions, t);
    assert(crate::addition::awaits(additions[t].stage, events[t]));
}

proof fn lemma_started<H, C>(
    additions: Seq<PodAddition<C>>,
    providers: Seq<ProviderView<H>>,
    events: Seq<AddEvent<H, C>>,
    actions: Seq<AddAction<C>>,
    t: int,
)
    requires
        crate::laws::added_by(additions, providers, events, actions),
        additions[0].started == 0,
        0 <= t <= events.len(),
    ensures
        additions[t].started == started_count(events.take(t)),
    decreases t,
{
    if t > 0 {
        lemma_started(additions, providers, events, actions, t - 1);
        assert(crate::addition::awaits(additions[t - 1].stage, events[t - 1]));
        assert(additions[t] == additions[t - 1 + 1]);
        assert(events.take(t).drop_last() =~= events.take(t - 1));
        assert(events.take(t).last() == events[t - 1]);
    }
}

/// Over a whole addition, the handle of a pod is made from the very handles that the containers
/// were started with, each under the name of its container, if that name is its own.
pub proof fn law_whole_addition_hands_on_each_handle<H, C>(
    additions: Seq<PodAddition<C>>,
    providers: Seq<ProviderView<H>>,
    events: Seq<AddEvent<H, C>>,
    actions: Seq<AddAction<C>>,
    begun: int,
    handle: C,
    t: int,
    container_handles: StringMap<C>,
)
    requires
        crate::laws::added_by(additions, providers, events, actions),
        0 <= begun < t < events.len(),
        events[begun] == AddEvent::<H, C>::ContainerStarted(handle),
        actions[t] == (AddAction::CreateHandle { container_handles }),
        forall|i: int|
            0 <= i < additions[0].pod.containers@.len() && i != additions[begun].started ==> (
            #[trigger] additions[0].pod.containers@[i]).name@
                != additions[0].pod.containers@[additions[begun].started as int].name@,
    ensures
        ({
            let name = additions[0].pod.containers@[additions[begun].started as int].name@;
            &&& container_handles@.contains_key(name)
            &&& container_handles@[name] == handle
        }),
{
    lemma_in_order(additions, providers, events, actions, t);
    lemma_handle_stays(additions, providers, events, actions, begun, handle, t);
    assert(crate::addition::awaits(additions[t].stage, events[t]));
}

proof fn lemma_handle_stays<H, C>(
    additions: Seq<PodAddition<C>>,
    providers: Seq<ProviderView<H>>,
    events: Seq<AddEvent<H, C>>,
    actions: Seq<AddAction<C>>,
    begun: int,
    handle: C,
    t: int,
)
    requires
        crate::laws::added_by(additions, providers, events, actions),
        0 <= begun < t <= events.len(),
        events[begun] == AddEvent::<H, C>::ContainerStarted(handle),
        forall|i: int|
            0 <= i < additions[0].pod.containers@.len() && i != additions[begun].started ==> (
            #[trigger] additions[0].pod.containers@[i]).name@
                != additions[0].pod.containers@[additions[begun].started as int].name@,
    ensures
        additions[t].started > additions[begun].started,
        ({
            let name = additions[0].pod.containers@[additions[begun].started as int].name@;
            ||| additions[t].stage is CreatingHandle
            ||| additions[t].stage is Finished
            ||| additions[t].container_handles@.contains_key(name)
                && additions[t].container_handles@[name] == handle
        }),
    decreases t,
{
    lemma_in_order(additions, providers, events, actions, t - 1);
    lemma_in_order(additions, providers, events, actions, begun);
    assert(crate::addition::awaits(additions[t - 1].stage, events[t - 1]));
    assert(additions[t] == additions[t - 1 + 1]);
    if begun < t - 1 {
        lemma_handle_stays(additions, providers, events, actions, begun, handle, t - 1);
        if events[t - 1] is ContainerStarted {
            let next = additions[t - 1].started as int;
            assert(additions[0].pod.containers@[next].name@
                != additions[0].pod.containers@[additions[begun].started as int].name@);
        }
    }
}

} // verus!
