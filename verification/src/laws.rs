pub mod adding;
pub mod assigning;
pub mod calling;
pub mod keeping;
pub mod messages;
pub mod reserving;
pub mod running;
pub mod searching;
pub mod storing;

use crate::addition::{AddAction, AddEvent, AddStage, PodAddition};
use crate::capability::{VolumeBinding, FS_CAPABILITY, HTTP_CAPABILITY, LOG_CAPABILITY};
use crate::error::ProviderError;
use crate::pod::{Container, ContainerPort, Pod};
use crate::provider::ProviderView;
use crate::script::{CommandView, NativeCapability, ScriptView};
use crate::string_map::StringMap;
use vstd::prelude::*;

verus! {

/// A pod is refused for a reason that names the culprit: what the error says holds the name of the
/// pod if it has init containers, and else the name of a container that has arguments.
pub proof fn law_refusal_names_the_culprit(pod: Pod, error: ProviderError)
    requires
        crate::pod::refused_for(pod, error),
    ensures
        if pod.init_containers@.len() > 0 {
            holds_text(error.text(), pod.name@)
        } else {
            exists|i: int|
                {
                    &&& #[trigger] crate::pod::first_with_args(pod.containers@, i)
                    &&& holds_text(error.text(), pod.containers@[i].name@)
                }
        },
{
    if pod.init_containers@.len() > 0 {
        lemma_middle(
            "Cannot run "@,
            pod.name@,
            ": spec specifies init containers which are not supported on wasCC"@,
        );
    } else {
        let i = choose|i: int|
            #![trigger pod.containers@[i]]
            crate::pod::first_with_args(pod.containers@, i) && error
                == (ProviderError::ContainerArgs { container_name: pod.containers@[i].name });
        lemma_middle(
            "Cannot run "@,
            pod.containers@[i].name@,
            ": spec specifies container args which are not supported on wasCC"@,
        );
    }
}

/// Whether `part` occurs in `text`.
pub open spec fn holds_text(text: Seq<char>, part: Seq<char>) -> bool {
    exists|start: int|
        0 <= start <= text.len() - part.len() && #[trigger] text.subrange(
            start,
            start + part.len(),
        ) == part
}

proof fn lemma_middle(before: Seq<char>, middle: Seq<char>, after: Seq<char>)
    ensures
        holds_text(before + middle + after, middle),
{
    let text = before + middle + after;
    let start = before.len() as int;
    assert(text.subrange(start, start + middle.len()) =~= middle);
}

/// A search through given draws looks at a number of them that is determined by the draws and the
/// ports in use, so its outcome is determined too.
pub proof fn law_search_is_determined(
    held: Map<i32, Seq<char>>,
    draws: Seq<i32>,
    count: int,
    other: int,
)
    requires
        crate::ports::search_looks_at(held, draws, count),
        crate::ports::search_looks_at(held, draws, other),
    ensures
        count == other,
{
    if count < other {
        assert(!crate::ports::search_ends(held, draws, count));
    }
    if other < count {
        assert(!crate::ports::search_ends(held, draws, other));
    }
}

/// Two ports that are handed out one after the other differ, and each belongs to the pod that it
/// was handed out to.
pub proof fn law_handed_out_ports_differ(
    start: Map<i32, Seq<char>>,
    first_pod: Seq<char>,
    first: i32,
    between: Map<i32, Seq<char>>,
    second_pod: Seq<char>,
    second: i32,
    end: Map<i32, Seq<char>>,
)
    requires
        crate::ports::port_granted(start, first_pod, first, between),
        crate::ports::port_granted(between, second_pod, second, end),
    ensures
        first != second,
        end.contains_key(first) && end[first] == first_pod,
        end.contains_key(second) && end[second] == second_pod,
{
}

/// Serving the ports of a container takes no port away from its holder, and the ports that become
/// held are held by the pod.
pub proof fn law_assignment_keeps_holders(
    before: Map<i32, Seq<char>>,
    pod_name: Seq<char>,
    listed: Seq<ContainerPort>,
    port: i32,
    after: Map<i32, Seq<char>>,
)
    requires
        crate::assignment::ports_served(before, pod_name, listed, port, after),
    ensures
        before.submap_of(after),
        forall|key: i32| #[trigger]
            after.contains_key(key) && !before.contains_key(key) ==> after[key] == pod_name,
    decreases listed.len(),
{
    if listed.len() > 0 {
        let (last, between) = served_split(before, pod_name, listed, port, after);
        law_assignment_keeps_holders(before, pod_name, listed.drop_last(), last, between);
        assert(between.submap_of(after));
        assert forall|key: i32| #[trigger]
            after.contains_key(key) && !before.contains_key(key) implies after[key] == pod_name by {
            if between.contains_key(key) {
                assert(after[key] == between[key]);
            }
        }
    }
}

/// The state in front of the last listed port.
spec fn served_split(
    before: Map<i32, Seq<char>>,
    pod_name: Seq<char>,
    listed: Seq<ContainerPort>,
    port: i32,
    after: Map<i32, Seq<char>>,
) -> (i32, Map<i32, Seq<char>>) {
    choose|last: i32, between: Map<i32, Seq<char>>|
        {
            &&& crate::assignment::ports_served(before, pod_name, listed.drop_last(), last, between)
            &&& #[trigger] crate::assignment::port_served(
                between,
                pod_name,
                listed.last(),
                last,
                port,
                after,
            )
        }
}

/// Once the ports of a container are served, each host port that it names belongs to the pod, and
/// none of them was held before.
pub proof fn law_named_host_ports_are_assigned(
    before: Map<i32, Seq<char>>,
    pod_name: Seq<char>,
    listed: Seq<ContainerPort>,
    port: i32,
    after: Map<i32, Seq<char>>,
    i: int,
)
    requires
        crate::assignment::ports_served(before, pod_name, listed, port, after),
        0 <= i < listed.len(),
        listed[i].host_port is Some,
    ensures
        !before.contains_key(listed[i].host_port->0),
        after.contains_key(listed[i].host_port->0),
        after[listed[i].host_port->0] == pod_name,
    decreases listed.len(),
{
    let host_port = listed[i].host_port->0;
    let (last, between) = served_split(before, pod_name, listed, port, after);
    law_assignment_keeps_holders(before, pod_name, listed.drop_last(), last, between);
    if i < listed.len() - 1 {
        law_named_host_ports_are_assigned(
            before,
            pod_name,
            listed.drop_last(),
            last,
            between,
            i,
        );
        assert(between.contains_key(host_port));
        assert(after[host_port] == between[host_port]);
    } else {
        assert(!between.contains_key(host_port));
    }
}

/// A container that names a host port which is held by a pod is refused.
pub proof fn law_held_host_port_is_refused(
    before: Map<i32, Seq<char>>,
    pod_name: Seq<char>,
    container: Container,
    outcome: Result<i32, ProviderError>,
    after: Map<i32, Seq<char>>,
    i: int,
)
    requires
        crate::assignment::assignment_outcome(before, pod_name, container, outcome, after),
        0 <= i < crate::assignment::listed_ports(container).len(),
        crate::assignment::listed_ports(container)[i].host_port matches Some(host_port)
            && before.contains_key(host_port),
    ensures
        outcome is Err,
{
    if outcome is Ok {
        law_named_host_ports_are_assigned(
            before,
            pod_name,
            crate::assignment::listed_ports(container),
            outcome->Ok_0,
            after,
            i,
        );
    }
}

/// A container for which a port is looked for is refused while every port that can be handed out is
/// in use.
pub proof fn law_container_is_refused_once_ports_are_used_up(
    before: Map<i32, Seq<char>>,
    pod_name: Seq<char>,
    container: Container,
    outcome: Result<i32, ProviderError>,
    after: Map<i32, Seq<char>>,
    i: int,
)
    requires
        crate::assignment::assignment_outcome(before, pod_name, container, outcome, after),
        crate::ports::all_ports_taken(before),
        0 <= i < crate::assignment::listed_ports(container).len(),
        crate::assignment::wants_any_port(crate::assignment::listed_ports(container)[i]),
    ensures
        outcome is Err,
{
    if outcome is Ok {
        lemma_none_served_without_ports(
            before,
            pod_name,
            crate::assignment::listed_ports(container),
            outcome->Ok_0,
            after,
            i,
        );
    }
}

/// While every port that can be handed out is in use, listed ports are served only if none is
/// looked for.
proof fn lemma_none_served_without_ports(
    before: Map<i32, Seq<char>>,
    pod_name: Seq<char>,
    listed: Seq<ContainerPort>,
    port: i32,
    after: Map<i32, Seq<char>>,
    i: int,
)
    requires
        crate::assignment::ports_served(before, pod_name, listed, port, after),
        crate::ports::all_ports_taken(before),
        0 <= i < listed.len(),
    ensures
        !crate::assignment::wants_any_port(listed[i]),
    decreases listed.len(),
{
    let (last, between) = served_split(before, pod_name, listed, port, after);
    if i < listed.len() - 1 {
        lemma_none_served_without_ports(before, pod_name, listed.drop_last(), last, between, i);
    } else if crate::assignment::wants_any_port(listed[i]) {
        law_assignment_keeps_holders(before, pod_name, listed.drop_last(), last, between);
        assert(before.contains_key(port));
        assert(between.contains_key(port));
    }
}

/// The port that a container is assigned belongs to its pod, unless the container was assigned
/// none, for which 0 stands.
pub proof fn law_assigned_port_is_held(
    before: Map<i32, Seq<char>>,
    pod_name: Seq<char>,
    listed: Seq<ContainerPort>,
    port: i32,
    after: Map<i32, Seq<char>>,
)
    requires
        crate::assignment::ports_served(before, pod_name, listed, port, after),
    ensures
        port == 0 || after.contains_key(port) && after[port] == pod_name,
    decreases listed.len(),
{
    if listed.len() > 0 {
        let (last, between) = served_split(before, pod_name, listed, port, after);
        law_assigned_port_is_held(before, pod_name, listed.drop_last(), last, between);
    }
}

/// Whatever the outcome, serving the ports of a container takes no port away from its holder, and
/// the ports that become held are held by the pod.
pub proof fn law_assignment_outcome_keeps_holders(
    before: Map<i32, Seq<char>>,
    pod_name: Seq<char>,
    container: Container,
    outcome: Result<i32, ProviderError>,
    after: Map<i32, Seq<char>>,
)
    requires
        crate::assignment::assignment_outcome(before, pod_name, container, outcome, after),
    ensures
        before.submap_of(after),
        forall|key: i32| #[trigger]
            after.contains_key(key) && !before.contains_key(key) ==> after[key] == pod_name,
{
    let listed = crate::assignment::listed_ports(container);
    match outcome {
        Ok(port) => law_assignment_keeps_holders(before, pod_name, listed, port, after),
        Err(error) => {
            let i = if error is PortInUse {
                let (i, host_port) = choose|i: int, host_port: i32| #[trigger]
                    crate::assignment::ports_refused(before, pod_name, listed, i, host_port, after);
                i
            } else {
                choose|i: int| #[trigger]
                    crate::assignment::ports_exhausted(before, pod_name, listed, i, after)
            };
            let last = choose|last: i32| #[trigger]
                crate::assignment::ports_served(before, pod_name, listed.take(i), last, after);
            law_assignment_keeps_holders(before, pod_name, listed.take(i), last, after);
        },
    }
}

/// How many of the listed ports are assigned a port of the node.
pub open spec fn usable_count(listed: Seq<ContainerPort>) -> nat
    decreases listed.len(),
{
    if listed.len() == 0 {
        0
    } else {
        usable_count(listed.drop_last()) + if listed.last().host_port is Some || 0
            <= listed.last().container_port <= 65536 {
            1nat
        } else {
            0
        }
    }
}

/// Each listed port that is not passed over reserves a port of its own. (That only finitely many
/// ports are in use holds of every `PortMap`.)
pub proof fn law_each_listed_port_reserves_one(
    before: Map<i32, Seq<char>>,
    pod_name: Seq<char>,
    listed: Seq<ContainerPort>,
    port: i32,
    after: Map<i32, Seq<char>>,
)
    requires
        before.dom().finite(),
        crate::assignment::ports_served(before, pod_name, listed, port, after),
    ensures
        after.dom().finite(),
        after.dom().len() == before.dom().len() + usable_count(listed),
    decreases listed.len(),
{
    if listed.len() > 0 {
        let (last, between) = served_split(before, pod_name, listed, port, after);
        law_each_listed_port_reserves_one(before, pod_name, listed.drop_last(), last, between);
    }
}

/// The ports that can be handed out and are free.
pub open spec fn free_ports(held: Map<i32, Seq<char>>) -> Set<i32> {
    Set::new(|port: i32| 30000 <= port < 32768 && !held.contains_key(port))
}

/// For how many of the listed ports a port of the node is looked for.
pub open spec fn wanted_count(listed: Seq<ContainerPort>) -> nat
    decreases listed.len(),
{
    if listed.len() == 0 {
        0
    } else {
        wanted_count(listed.drop_last()) + if listed.last().host_port is None && 0
            <= listed.last().container_port <= 65536 {
            1nat
        } else {
            0
        }
    }
}

/// A container is assigned its ports if no host port that it names can be in the way, and as many
/// ports are free as are looked for.
pub proof fn law_enough_ports_are_assigned(
    before: Map<i32, Seq<char>>,
    pod_name: Seq<char>,
    container: Container,
    outcome: Result<i32, ProviderError>,
    after: Map<i32, Seq<char>>,
)
    requires
        crate::assignment::assignment_outcome(before, pod_name, container, outcome, after),
        crate::assignment::host_ports_clear(before, crate::assignment::listed_ports(container)),
        wanted_count(crate::assignment::listed_ports(container)) <= free_ports(before).len(),
    ensures
        outcome is Ok,
{
    let listed = crate::assignment::listed_ports(container);
    if outcome is Err {
        let i = choose|i: int| #[trigger]
            crate::assignment::ports_exhausted(before, pod_name, listed, i, after);
        let last = choose|last: i32| #[trigger]
            crate::assignment::ports_served(before, pod_name, listed.take(i), last, after);
        lemma_free_ports(before, pod_name, listed, i, last, after);
        lemma_wanted_count(listed, i);
        assert(free_ports(after) =~= Set::<i32>::empty());
    }
}

/// Each port that is looked for takes one of the free ports, and named host ports out of the way
/// take none of them.
proof fn lemma_free_ports(
    before: Map<i32, Seq<char>>,
    pod_name: Seq<char>,
    listed: Seq<ContainerPort>,
    i: int,
    port: i32,
    after: Map<i32, Seq<char>>,
)
    requires
        0 <= i <= listed.len(),
        crate::assignment::host_ports_clear(before, listed),
        crate::assignment::ports_served(before, pod_name, listed.take(i), port, after),
    ensures
        free_ports(before).finite(),
        free_ports(after).finite(),
        free_ports(after).len() + wanted_count(listed.take(i)) == free_ports(before).len(),
    decreases i,
{
    crate::ports::lemma_port_range();
    let range = Set::new(|port: i32| crate::ports::in_port_range(port));
    vstd::set_lib::lemma_len_subset(free_ports(before), range);
    if i > 0 {
        let served = listed.take(i);
        let (last, between) = served_split(before, pod_name, served, port, after);
        assert(served.drop_last() =~= listed.take(i - 1));
        lemma_free_ports(before, pod_name, listed, i - 1, last, between);
        assert(served.last() == listed[i - 1]);
        if crate::assignment::wants_any_port(served.last()) {
            assert(free_ports(after) =~= free_ports(between).remove(port));
        } else {
            assert(free_ports(after) =~= free_ports(between));
        }
    }
}

/// A port that is looked for adds to the count of those in front of it.
proof fn lemma_wanted_count(listed: Seq<ContainerPort>, i: int)
    requires
        0 <= i < listed.len(),
        crate::assignment::wants_any_port(listed[i]),
    ensures
        wanted_count(listed.take(i)) < wanted_count(listed),
    decreases listed.len(),
{
    if i < listed.len() - 1 {
        lemma_wanted_count(listed.drop_last(), i);
        assert(listed.drop_last().take(i) =~= listed.take(i));
    } else {
        assert(listed.drop_last() =~= listed.take(i));
    }
}

/// While a pod is added, no port is taken away from its holder and no handle of another pod is
/// touched: the ports that become held are held by the pod, and a handle is put only under the
/// pod's own key, once every container has been started.
pub proof fn law_addition_keeps_other_pods<H, C>(
    before: PodAddition<C>,
    provider_before: ProviderView<H>,
    event: AddEvent<H, C>,
    after: PodAddition<C>,
    provider_after: ProviderView<H>,
    action: AddAction<C>,
)
    requires
        before.wf(),
        crate::addition::awaits(before.stage, event),
        crate::addition::advanced(
            before,
            provider_before,
            event,
            after,
            provider_after,
            action,
        ),
    ensures
        after.pod == before.pod,
        provider_before.ports.submap_of(provider_after.ports),
        forall|port: i32| #[trigger]
            provider_after.ports.contains_key(port) && !provider_before.ports.contains_key(port)
                ==> provider_after.ports[port] == before.pod.name@,
        forall|key: Seq<char>|
            key != crate::pod::pod_key_text(before.pod.namespace@, before.pod.name@) ==> {
                &&& #[trigger] provider_after.handles.contains_key(key)
                    == provider_before.handles.contains_key(key)
                &&& provider_before.handles.contains_key(key) ==> provider_after.handles[key]
                    == provider_before.handles[key]
            },
        provider_after.handles != provider_before.handles ==> before.complete(),
{
    let turned = match event {
        AddEvent::VolumesPrepared(volumes) => PodAddition { volumes, ..before },
        _ => before,
    };
    if (event is VolumesPrepared || event is RunningAnnounced) && !before.complete() {
        let outcome = match action {
            AddAction::Finish(Err(error)) => Err::<i32, ProviderError>(error),
            _ => Ok(after.stage->ReadingEnvironment_port_assigned),
        };
        law_assignment_outcome_keeps_holders(
            provider_before.ports,
            before.pod.name@,
            turned.current(),
            outcome,
            provider_after.ports,
        );
    }
}

/// The addition of a pod stays in order with each event.
pub proof fn law_addition_stays_in_order<H, C>(
    before: PodAddition<C>,
    provider_before: ProviderView<H>,
    event: AddEvent<H, C>,
    after: PodAddition<C>,
    provider_after: ProviderView<H>,
    action: AddAction<C>,
)
    requires
        before.wf(),
        crate::addition::awaits(before.stage, event),
        crate::addition::advanced(
            before,
            provider_before,
            event,
            after,
            provider_after,
            action,
        ),
    ensures
        after.wf(),
{
    if event is ContainerStarted {
        crate::addition::lemma_names(before.pod.containers@, before.started as int);
    }
}

/// How many events, at most, are to come until the addition has ended.
pub open spec fn events_left<C>(addition: PodAddition<C>) -> int {
    let waiting = addition.pod.containers@.len() - addition.started;
    match addition.stage {
        AddStage::Validating => 5 * waiting + 5,
        AddStage::FetchingModules => 5 * waiting + 4,
        AddStage::PreparingVolumes => 5 * waiting + 3,
        AddStage::AnnouncingRunning => 5 * waiting + 2,
        AddStage::ReadingEnvironment { .. } => 5 * waiting + 1,
        AddStage::StartingContainer => 5 * waiting,
        AddStage::PatchingStatus { .. } => 1,
        AddStage::CreatingHandle => 1,
        AddStage::Finished => 0,
    }
}

/// The addition of a pod comes to an end: with each event there are fewer to come.
pub proof fn law_addition_ends<H, C>(
    before: PodAddition<C>,
    provider_before: ProviderView<H>,
    event: AddEvent<H, C>,
    after: PodAddition<C>,
    provider_after: ProviderView<H>,
    action: AddAction<C>,
)
    requires
        before.wf(),
        crate::addition::awaits(before.stage, event),
        crate::addition::advanced(
            before,
            provider_before,
            event,
            after,
            provider_after,
            action,
        ),
    ensures
        0 <= events_left(after) < events_left(before),
        after.stage is Finished <==> action is Finish || action is GiveUp,
{
}

/// The addition of a pod succeeds only once the pod was found fit to run here and every container
/// of it has been started, and the pod is then kept under its key.
pub proof fn law_added_pod_is_kept<H, C>(
    before: PodAddition<C>,
    provider_before: ProviderView<H>,
    event: AddEvent<H, C>,
    after: PodAddition<C>,
    provider_after: ProviderView<H>,
    action: AddAction<C>,
)
    requires
        before.wf(),
        crate::addition::awaits(before.stage, event),
        crate::addition::advanced(
            before,
            provider_before,
            event,
            after,
            provider_after,
            action,
        ),
        action == AddAction::<C>::Finish(Ok(())),
    ensures
        crate::pod::runnable(before.pod),
        before.complete(),
        provider_after.handles.contains_key(
            crate::pod::pod_key_text(before.pod.namespace@, before.pod.name@),
        ),
{
}

/// The handle of a pod is made from the handles of all of its containers, and of nothing else.
pub proof fn law_pod_handle_has_all_containers<H, C>(
    before: PodAddition<C>,
    provider_before: ProviderView<H>,
    event: AddEvent<H, C>,
    after: PodAddition<C>,
    provider_after: ProviderView<H>,
    container_handles: StringMap<C>,
)
    requires
        before.wf(),
        crate::addition::awaits(before.stage, event),
        crate::addition::advanced(
            before,
            provider_before,
            event,
            after,
            provider_after,
            AddAction::CreateHandle { container_handles },
        ),
    ensures
        container_handles@.dom() == crate::addition::container_names(before.pod.containers@),
{
    assert(before.pod.containers@.take(before.started as int) =~= before.pod.containers@);
}

/// Whether a pod is added, from the beginning on, by these events: the event at place `i` is
/// answered with the action there, and leads from the addition and the provider at that place to
/// those at the next one.
pub open spec fn added_by<H, C>(
    additions: Seq<PodAddition<C>>,
    providers: Seq<ProviderView<H>>,
    events: Seq<AddEvent<H, C>>,
    actions: Seq<AddAction<C>>,
) -> bool {
    &&& additions.len() == events.len() + 1
    &&& providers.len() == events.len() + 1
    &&& actions.len() == events.len()
    &&& additions[0].wf()
    &&& additions[0].stage is Validating
    &&& forall|i: int|
        #![trigger events[i]]
        0 <= i < events.len() ==> {
            &&& crate::addition::awaits(additions[i].stage, events[i])
            &&& crate::addition::advanced(
                additions[i],
                providers[i],
                events[i],
                additions[i + 1],
                providers[i + 1],
                actions[i],
            )
        }
}

/// Over a whole addition, however far it has come, no port leaves its holder, and the ports that
/// become held are held by the pod. The handles change only if the addition succeeds: then every
/// container has been started, and the pod is kept under its key with the handle that was made
/// last. It takes a bounded number of events.
pub proof fn law_whole_addition<H, C>(
    additions: Seq<PodAddition<C>>,
    providers: Seq<ProviderView<H>>,
    events: Seq<AddEvent<H, C>>,
    actions: Seq<AddAction<C>>,
)
    requires
        added_by(additions, providers, events, actions),
    ensures
        additions.last().wf(),
        additions.last().pod == additions[0].pod,
        providers[0].ports.submap_of(providers.last().ports),
        forall|port: i32| #[trigger]
            providers.last().ports.contains_key(port) && !providers[0].ports.contains_key(port)
                ==> providers.last().ports[port] == additions[0].pod.name@,
        if events.len() > 0 && actions.last() == AddAction::<C>::Finish(Ok(())) {
            &&& additions.last().complete()
            &&& events.last() matches AddEvent::HandleCreated(handle)
            &&& providers.last().handles == providers[0].handles.insert(
                crate::pod::pod_key_text(
                    additions[0].pod.namespace@,
                    additions[0].pod.name@,
                ),
                handle,
            )
        } else {
            providers.last().handles == providers[0].handles
        },
        events.len() > 0 ==> (additions.last().stage is Finished <==> actions.last() is Finish
            || actions.last() is GiveUp),
        0 <= events_left(additions.last()) <= events_left(additions[0]) - events.len(),
    decreases events.len(),
{
    if events.len() > 0 {
        let n = events.len() - 1;
        let earlier_additions = additions.drop_last();
        let earlier_providers = providers.drop_last();
        let earlier_events = events.drop_last();
        let earlier_actions = actions.drop_last();
        assert(added_by(earlier_additions, earlier_providers, earlier_events, earlier_actions)) by {
            assert forall|i: int|
                #![trigger earlier_events[i]]
                0 <= i < earlier_events.len() implies {
                &&& crate::addition::awaits(earlier_additions[i].stage, earlier_events[i])
                &&& crate::addition::advanced(
                    earlier_additions[i],
                    earlier_providers[i],
                    earlier_events[i],
                    earlier_additions[i + 1],
                    earlier_providers[i + 1],
                    earlier_actions[i],
                )
            } by {
                assert(events[i] == earlier_events[i]);
            }
        }
        law_whole_addition(earlier_additions, earlier_providers, earlier_events, earlier_actions);
        let before = additions[n];
        let provider_before = providers[n];
        let event = events[n];
        let after = additions[n + 1];
        let provider_after = providers[n + 1];
        let action = actions[n];
        assert(crate::addition::advanced(
            before,
            provider_before,
            event,
            after,
            provider_after,
            action,
        ));
        assert(!(before.stage is Finished));
        assert(provider_before.handles == providers[0].handles);
        law_addition_stays_in_order(
            before,
            provider_before,
            event,
            after,
            provider_after,
            action,
        );
        law_addition_ends(before, provider_before, event, after, provider_after, action);
        law_addition_keeps_other_pods(
            before,
            provider_before,
            event,
            after,
            provider_after,
            action,
        );
        assert forall|port: i32| #[trigger] providers[0].ports.dom().contains(port) implies {
            &&& provider_after.ports.dom().contains(port)
            &&& providers[0].ports[port] == provider_after.ports[port]
        } by {
            assert(provider_before.ports.dom().contains(port));
        }
        assert forall|port: i32| #[trigger]
            provider_after.ports.contains_key(port) && !providers[0].ports.contains_key(
                port,
            ) implies provider_after.ports[port] == additions[0].pod.name@ by {
            if provider_before.ports.contains_key(port) {
                assert(provider_after.ports[port] == provider_before.ports[port]);
            }
        }
    }
}

/// Deleting a pod takes back the port that it was assigned, whether a container named it or it was
/// looked for, if the pod held no other port.
pub proof fn law_release_undoes_assignment(
    start: Map<i32, Seq<char>>,
    pod_name: Seq<char>,
    listed: ContainerPort,
    last: i32,
    port: i32,
    between: Map<i32, Seq<char>>,
    freed: i32,
    end: Map<i32, Seq<char>>,
)
    requires
        !crate::ports::holds_port(start, pod_name),
        crate::assignment::port_served(start, pod_name, listed, last, port, between),
        listed.host_port is Some || crate::assignment::wants_any_port(listed),
        crate::ports::port_released(between, pod_name, freed, end),
    ensures
        freed == port,
        end == start,
{
    assert(between.contains_key(port) && between[port] == pod_name);
    if freed != port {
        assert(start.contains_key(freed) && start[freed] == pod_name);
    }
    assert(end =~= start);
}

/// Deleting a pod that holds ports frees one of them and leaves all other ports as they are, those
/// of the pod among them.
pub proof fn law_release_frees_one_port(
    before: Map<i32, Seq<char>>,
    pod_name: Seq<char>,
    freed: i32,
    after: Map<i32, Seq<char>>,
)
    requires
        crate::ports::holds_port(before, pod_name),
        crate::ports::port_released(before, pod_name, freed, after),
    ensures
        before.contains_key(freed) && before[freed] == pod_name,
        !after.contains_key(freed),
        forall|port: i32|
            port != freed ==> {
                &&& #[trigger] after.contains_key(port) == before.contains_key(port)
                &&& after.contains_key(port) ==> after[port] == before[port]
            },
{
}

/// Whether no two ports are held by the pod.
pub open spec fn holds_at_most_one_port(held: Map<i32, Seq<char>>, pod_name: Seq<char>) -> bool {
    forall|a: i32, b: i32| #[trigger]
        held.contains_key(a) && #[trigger] held.contains_key(b) && held[a] == pod_name && held[b]
            == pod_name ==> a == b
}

/// Deleting a pod a second time changes nothing, and there is no handle left to be given back. This
/// is so if the pod held at most one port, and port 0, which is freed for a pod without ports, is
/// not left to another pod by the first deletion.
pub proof fn law_second_delete_changes_nothing<H>(
    start: ProviderView<H>,
    namespace: Seq<char>,
    pod_name: Seq<char>,
    first: Option<H>,
    between: ProviderView<H>,
    second: Option<H>,
    end: ProviderView<H>,
)
    requires
        crate::provider::pod_deleted(start, namespace, pod_name, first, between),
        crate::provider::pod_deleted(between, namespace, pod_name, second, end),
        holds_at_most_one_port(start.ports, pod_name),
        crate::ports::holds_port(start.ports, pod_name) && start.ports.contains_key(0)
            ==> start.ports[0] == pod_name,
    ensures
        end == between,
        second is None,
{
    let freed = choose|port: i32| #[trigger]
        crate::ports::port_released(start.ports, pod_name, port, between.ports);
    let again = choose|port: i32| #[trigger]
        crate::ports::port_released(between.ports, pod_name, port, end.ports);
    if crate::ports::holds_port(between.ports, pod_name) {
        let kept = choose|port: i32| #[trigger]
            between.ports.contains_key(port) && between.ports[port] == pod_name;
        assert(start.ports.contains_key(kept) && start.ports[kept] == pod_name);
        assert(start.ports.contains_key(freed) && start.ports[freed] == pod_name);
    }
    assert(again == 0);
    assert(!between.ports.contains_key(0));
    assert(end.ports =~= between.ports);
    assert(end.handles =~= between.handles);
}

/// Pods with different names or in different namespaces have different keys, as long as no
/// namespace has a colon in it.
pub proof fn law_pod_keys_differ(
    namespace: Seq<char>,
    name: Seq<char>,
    other_namespace: Seq<char>,
    other_name: Seq<char>,
)
    requires
        !namespace.contains(':'),
        !other_namespace.contains(':'),
        namespace != other_namespace || name != other_name,
    ensures
        crate::pod::pod_key_text(namespace, name) != crate::pod::pod_key_text(
            other_namespace,
            other_name,
        ),
{
    reveal_strlit(":");
    let key = crate::pod::pod_key_text(namespace, name);
    let other_key = crate::pod::pod_key_text(other_namespace, other_name);
    if key == other_key {
        let n = namespace.len() as int;
        let m = other_namespace.len() as int;
        assert(key[n] == ':');
        assert(other_key[m] == ':');
        if n < m {
            assert(other_namespace[n] == other_key[n]);
        } else if m < n {
            assert(namespace[m] == key[m]);
        }
        assert(n == m);
        assert(namespace =~= key.take(n));
        assert(other_namespace =~= other_key.take(m));
        assert(name =~= key.skip(n + 1));
        assert(other_name =~= other_key.skip(m + 1));
    }
}

/// A pod that is kept can be found under its namespace and its name, and once it is deleted it
/// cannot. Pods with other keys are found, or not, as before.
pub proof fn law_kept_pod_is_found_until_deleted<H>(
    handles: Map<Seq<char>, H>,
    namespace: Seq<char>,
    name: Seq<char>,
    handle: H,
    other_namespace: Seq<char>,
    other_name: Seq<char>,
)
    requires
        !namespace.contains(':'),
        !other_namespace.contains(':'),
        namespace != other_namespace || name != other_name,
    ensures
        ({
            let key = crate::pod::pod_key_text(namespace, name);
            let other_key = crate::pod::pod_key_text(other_namespace, other_name);
            let kept = handles.insert(key, handle);
            let deleted = kept.remove(key);
            &&& kept.contains_key(key) && kept[key] == handle
            &&& !deleted.contains_key(key)
            &&& kept.contains_key(other_key) == handles.contains_key(other_key)
            &&& deleted.contains_key(other_key) == handles.contains_key(other_key)
            &&& handles.contains_key(other_key) ==> kept[other_key] == handles[other_key]
                && deleted[other_key] == handles[other_key]
        }),
{
    law_pod_keys_differ(namespace, name, other_namespace, other_name);
}

/// Different numbers are written differently, so the port that an actor is configured with can be
/// told from its environment.
pub proof fn law_decimal_is_injective(a: int, b: int)
    requires
        crate::text::decimal(a) == crate::text::decimal(b),
    ensures
        a == b,
{
    let digits_a = crate::text::digits(if a < 0 { (-a) as nat } else { a as nat });
    let digits_b = crate::text::digits(if b < 0 { (-b) as nat } else { b as nat });
    lemma_digits(if a < 0 { (-a) as nat } else { a as nat });
    lemma_digits(if b < 0 { (-b) as nat } else { b as nat });
    let text_a = crate::text::decimal(a);
    let text_b = crate::text::decimal(b);
    assert(a < 0 <==> text_a[0] == '-');
    assert(b < 0 <==> text_b[0] == '-');
    if a < 0 {
        assert(digits_a =~= text_a.skip(1));
        assert(digits_b =~= text_b.skip(1));
    }
    lemma_digits_injective(
        if a < 0 { (-a) as nat } else { a as nat },
        if b < 0 { (-b) as nat } else { b as nat },
    );
}

proof fn lemma_digits(n: nat)
    ensures
        crate::text::digits(n).len() > 0,
        n < 10 <==> crate::text::digits(n).len() == 1,
        crate::text::digits(n)[0] != '-',
    decreases n,
{
    if n >= 10 {
        lemma_digits(n / 10);
    }
}

proof fn lemma_digits_injective(a: nat, b: nat)
    requires
        crate::text::digits(a) == crate::text::digits(b),
    ensures
        a == b,
    decreases a,
{
    lemma_digits(a);
    lemma_digits(b);
    let text_a = crate::text::digits(a);
    let text_b = crate::text::digits(b);
    assert(text_a.last() == crate::text::digit(a % 10));
    assert(text_b.last() == crate::text::digit(b % 10));
    if a >= 10 {
        assert(text_a.drop_last() =~= crate::text::digits(a / 10));
        assert(text_b.drop_last() =~= crate::text::digits(b / 10));
        lemma_digits_injective(a / 10, b / 10);
    }
}

/// The script once its commands were answered in turn with success or failure. Answers for which
/// no command is pending do not count.
pub open spec fn answered(script: ScriptView, answers: Seq<bool>) -> ScriptView
    decreases answers.len(),
{
    if answers.len() == 0 {
        script
    } else {
        let earlier = answered(script, answers.drop_last());
        if earlier.pending() is Some {
            earlier.after(answers.last())
        } else {
            earlier
        }
    }
}

/// A script is carried out in order and up to the first failure: the commands that have succeeded
/// are as many as there are successes in front of the first failure, and it is the command after
/// them that has failed.
pub proof fn law_script_stops_at_first_failure(commands: Seq<CommandView>, answers: Seq<bool>)
    ensures
        ({
            let script = answered(ScriptView::fresh(commands), answers);
            &&& script.commands == commands
            &&& 0 <= script.done <= commands.len()
            &&& script.done <= answers.len()
            &&& forall|i: int| 0 <= i < script.done ==> #[trigger] answers[i]
            &&& script.failed <==> script.done < commands.len() && script.done < answers.len()
            &&& script.failed ==> !answers[script.done]
        }),
    decreases answers.len(),
{
    if answers.len() > 0 {
        let fewer = answers.drop_last();
        law_script_stops_at_first_failure(commands, fewer);
        let earlier = answered(ScriptView::fresh(commands), fewer);
        let script = answered(ScriptView::fresh(commands), answers);
        assert forall|i: int| 0 <= i < script.done implies #[trigger] answers[i] by {
            if i < earlier.done {
                assert(fewer[i]);
            }
        }
        if earlier.failed {
            assert(!fewer[earlier.done]);
        }
    }
}

/// A script is completed if and only if each of its commands was answered with success.
pub proof fn law_script_completes_on_success(commands: Seq<CommandView>, answers: Seq<bool>)
    requires
        answers.len() >= commands.len(),
    ensures
        answered(ScriptView::fresh(commands), answers).completed() <==> forall|i: int|
            0 <= i < commands.len() ==> #[trigger] answers[i],
{
    law_script_stops_at_first_failure(commands, answers);
}

/// An actor is configured with capabilities that its token names, and with no others.
pub proof fn law_only_declared_capabilities_are_bound(
    key: Seq<char>,
    actor_caps: Seq<Seq<char>>,
    env: Map<Seq<char>, Seq<char>>,
    volumes: Seq<VolumeBinding>,
    port: int,
    i: int,
)
    requires
        0 <= i < crate::actor::run_commands(key, actor_caps, env, volumes, port).len(),
    ensures
        crate::actor::run_commands(
            key,
            actor_caps,
            env,
            volumes,
            port,
        )[i] matches CommandView::BindActor { key: bound_key, capability } ==> {
            &&& bound_key == key
            &&& actor_caps.contains(capability.name)
        },
{
    lemma_fs_setup(volumes);
}

/// Whether the command configures the capability for some actor.
pub open spec fn binds(command: CommandView, name: Seq<char>, binding: Option<Seq<char>>) -> bool {
    command matches CommandView::BindActor { capability, .. } && capability.name == name
        && capability.binding == binding
}

/// Whether the commands at the places `j` and `j + 1` make an instance of the capability provider
/// and register it.
pub open spec fn registers(
    commands: Seq<CommandView>,
    j: int,
    native: NativeCapability,
    binding: Option<Seq<char>>,
) -> bool {
    &&& 0 <= j < commands.len() - 1
    &&& commands[j] == (CommandView::InstantiateCapability { native, binding })
    &&& commands[j + 1] == (CommandView::AddCapability { native })
}

/// A capability is registered before it is configured for an actor: logging and HTTP when the
/// provider starts, and the file system of a volume earlier in the run of the same actor. The actor
/// is on the host by then, too.
pub proof fn law_bound_capabilities_are_registered(
    key: Seq<char>,
    actor_caps: Seq<Seq<char>>,
    env: Map<Seq<char>, Seq<char>>,
    volumes: Seq<VolumeBinding>,
    port: int,
    i: int,
    name: Seq<char>,
    binding: Option<Seq<char>>,
)
    requires
        0 <= i < crate::actor::run_commands(key, actor_caps, env, volumes, port).len(),
        binds(crate::actor::run_commands(key, actor_caps, env, volumes, port)[i], name, binding),
    ensures
        ({
            let commands = crate::actor::run_commands(key, actor_caps, env, volumes, port);
            let startup = crate::provider::startup_commands();
            &&& commands.take(i).contains(CommandView::AddActor)
            &&& {
                ||| name == LOG_CAPABILITY@ && exists|j: int| #[trigger]
                    registers(startup, j, NativeCapability::Logging, binding)
                ||| name == HTTP_CAPABILITY@ && exists|j: int| #[trigger]
                    registers(startup, j, NativeCapability::Http, binding)
                ||| name == FS_CAPABILITY@ && exists|j: int| #[trigger]
                    registers(commands.take(i), j, NativeCapability::FileSystem, binding)
            }
        }),
{
    let commands = crate::actor::run_commands(key, actor_caps, env, volumes, port);
    let startup = crate::provider::startup_commands();
    let planned = crate::capability::planned_capabilities(actor_caps, env, volumes, port);
    let setup = if actor_caps.contains(FS_CAPABILITY@) {
        crate::actor::fs_setup(volumes)
    } else {
        seq![]
    };
    lemma_fs_setup(volumes);
    let added = setup.len() as int;
    assert(commands[added] == CommandView::AddActor);
    assert(i > added);
    assert(commands.take(i)[added] == CommandView::AddActor);
    let capability = planned[i - added - 1];
    assert(commands[i] == (CommandView::BindActor { key, capability }));
    assert(registers(startup, 2, NativeCapability::Http, None));
    assert(registers(startup, 4, NativeCapability::Logging, None));
    if capability != crate::capability::log_capability() && capability
        != crate::capability::http_capability(env, port) {
        let v = volumes.len() - (commands.len() - i);
        assert(capability == crate::capability::fs_capability(volumes[v]));
        assert(setup[2 * v] == (CommandView::InstantiateCapability {
            native: NativeCapability::FileSystem,
            binding: Some(volumes[v].name@),
        }));
        assert(commands.take(i)[2 * v] == setup[2 * v]);
        assert(commands.take(i)[2 * v + 1] == setup[2 * v + 1]);
        assert(registers(
            commands.take(i),
            2 * v,
            NativeCapability::FileSystem,
            Some(volumes[v].name@),
        ));
    }
}

/// The environment and the port of a container reach its actor through the HTTP capability alone:
/// without it, the same is done on the host whatever they are.
pub proof fn law_environment_is_for_http_alone(
    key: Seq<char>,
    actor_caps: Seq<Seq<char>>,
    env: Map<Seq<char>, Seq<char>>,
    port: int,
    other_env: Map<Seq<char>, Seq<char>>,
    other_port: int,
    volumes: Seq<VolumeBinding>,
)
    requires
        !actor_caps.contains(HTTP_CAPABILITY@),
    ensures
        crate::actor::run_commands(key, actor_caps, env, volumes, port)
            == crate::actor::run_commands(key, actor_caps, other_env, volumes, other_port),
{
}

/// Stopping an actor takes back what running it has put on the host: the actor, and the file system
/// of each of its volumes. This is so if its token names the file system, or it has no volumes.
pub proof fn law_stop_takes_back_the_run(
    key: Seq<char>,
    actor_caps: Seq<Seq<char>>,
    env: Map<Seq<char>, Seq<char>>,
    volumes: Seq<VolumeBinding>,
    port: int,
)
    requires
        actor_caps.contains(FS_CAPABILITY@) || volumes.len() == 0,
    ensures
        ({
            let run = crate::actor::run_commands(key, actor_caps, env, volumes, port);
            let stop = crate::actor::stop_commands(key, volumes);
            &&& stop.len() == volumes.len() + 1
            &&& stop[0] == (CommandView::RemoveActor { key })
            &&& run[2 * volumes.len() as int] == CommandView::AddActor
            &&& forall|v: int|
                #![trigger volumes[v]]
                0 <= v < volumes.len() ==> {
                    &&& registers(
                        run,
                        2 * v,
                        NativeCapability::FileSystem,
                        Some(volumes[v].name@),
                    )
                    &&& stop[v + 1] == (CommandView::RemoveCapability {
                        name: FS_CAPABILITY@,
                        binding: Some(volumes[v].name@),
                    })
                }
        }),
{
    lemma_fs_setup(volumes);
    let run = crate::actor::run_commands(key, actor_caps, env, volumes, port);
    let setup = crate::actor::fs_setup(volumes);
    assert forall|v: int|
        #![trigger volumes[v]]
        0 <= v < volumes.len() implies registers(
        run,
        2 * v,
        NativeCapability::FileSystem,
        Some(volumes[v].name@),
    ) by {
        assert(setup[2 * v] == (CommandView::InstantiateCapability {
            native: NativeCapability::FileSystem,
            binding: Some(volumes[v].name@),
        }));
        assert(run[2 * v] == setup[2 * v]);
        assert(run[2 * v + 1] == setup[2 * v + 1]);
    }
}

/// The file systems are registered in the order of the volumes, each in two commands.
proof fn lemma_fs_setup(volumes: Seq<VolumeBinding>)
    ensures
        crate::actor::fs_setup(volumes).len() == 2 * volumes.len(),
        forall|i: int|
            #![trigger volumes[i]]
            0 <= i < volumes.len() ==> {
                &&& crate::actor::fs_setup(volumes)[2 * i]
                    == (CommandView::InstantiateCapability {
                    native: NativeCapability::FileSystem,
                    binding: Some(volumes[i].name@),
                })
                &&& crate::actor::fs_setup(volumes)[2 * i + 1] == (CommandView::AddCapability {
                    native: NativeCapability::FileSystem,
                })
            },
        forall|j: int|
            0 <= j < 2 * volumes.len() ==> !(#[trigger] crate::actor::fs_setup(
                volumes,
            )[j] is BindActor),
    decreases volumes.len(),
{
    if volumes.len() > 0 {
        let fewer = volumes.drop_last();
        lemma_fs_setup(fewer);
        assert forall|i: int|
            #![trigger volumes[i]]
            0 <= i < fewer.len() implies crate::actor::fs_setup(volumes)[2 * i]
            == crate::actor::fs_setup(fewer)[2 * i] && crate::actor::fs_setup(volumes)[2 * i + 1]
            == crate::actor::fs_setup(fewer)[2 * i + 1] && fewer[i] == volumes[i] by {}
    }
}

} // verus!
