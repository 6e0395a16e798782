use crate::addition::{bind_volumes, AddAction, AddEvent, AddStage, ContainerStart, PodAddition};
use crate::capability::{EnvVars, VolumeBinding};
use crate::error::ProviderError;
use crate::pod::{
    has_args, key_from_pod, validate_container_runnable, validate_pod_runnable, Container, Pod,
};
use crate::provider::WasccProvider;
use crate::script::{Command, CommandView, Script};
use crate::status::{
    failed_start_status, initial_status, stopped_status, ContainerStatus, ContainerStatusView,
    Phase, PodStatus, StartFailure, StoppedStatus,
};
use crate::string_map::StringMap;
use crate::text::{contains_text, to_decimal};
use vstd::prelude::*;

verus! {

/// What was put under a key by `StringMap::insert` is what `StringMap::get` finds there; under other
/// keys it finds what was there before.
pub proof fn law_inserted_value_is_found<V>(
    map: &mut StringMap<V>,
    key: String,
    value: V,
    previous: Option<V>,
    then: &StringMap<V>,
    asked: &String,
    found: Option<&V>,
    before: &StringMap<V>,
    found_before: Option<&V>,
)
    requires
        before@ == old(map)@,
        call_ensures(StringMap::<V>::insert, (map, key, value), previous),
        then@ == final(map)@,
        call_ensures(StringMap::<V>::get, (then, asked), found),
        call_ensures(StringMap::<V>::get, (before, asked), found_before),
    ensures
        asked@ == key@ ==> found is Some && *found->0 == value,
        asked@ == key@ ==> (previous is Some <==> found_before is Some),
        asked@ == key@ && previous is Some ==> previous->0 == *found_before->0,
        asked@ != key@ ==> (found is Some <==> found_before is Some),
        asked@ != key@ && found is Some ==> *found->0 == *found_before->0,
{
}

/// What `StringMap::remove` returns is what `StringMap::get` found under the key, and after it
/// nothing is found there; under other keys it finds what was there before.
pub proof fn law_removed_value_is_gone<V>(
    map: &mut StringMap<V>,
    key: &String,
    removed: Option<V>,
    then: &StringMap<V>,
    asked: &String,
    found: Option<&V>,
    has: bool,
    before: &StringMap<V>,
    found_before: Option<&V>,
)
    requires
        before@ == old(map)@,
        call_ensures(StringMap::<V>::remove, (map, key), removed),
        then@ == final(map)@,
        call_ensures(StringMap::<V>::get, (then, asked), found),
        call_ensures(StringMap::<V>::contains_key, (then, asked), has),
        call_ensures(StringMap::<V>::get, (before, asked), found_before),
    ensures
        has <==> found is Some,
        asked@ == key@ ==> found is None,
        asked@ == key@ ==> (removed is Some <==> found_before is Some),
        asked@ == key@ && removed is Some ==> removed->0 == *found_before->0,
        asked@ != key@ ==> (found is Some <==> found_before is Some),
        asked@ != key@ && found is Some ==> *found->0 == *found_before->0,
{
}

/// Nothing is found in a map that `StringMap::new` has made.
pub proof fn law_new_map_is_empty<V>(map: StringMap<V>, asked: &String, found: Option<&V>)
    requires
        call_ensures(StringMap::<V>::new, (), map),
        call_ensures(StringMap::<V>::get, (&map, asked), found),
    ensures
        found is None,
{
}

/// The keys and values that `StringMap::parts` gives are, side by side, what `StringMap::get`
/// finds; each key is there once.
pub proof fn law_parts_are_the_entries<V>(
    map: &StringMap<V>,
    parts: (&Vec<String>, &Vec<V>),
    asked: &String,
    found: Option<&V>,
)
    requires
        call_ensures(StringMap::<V>::parts, (map,), parts),
        call_ensures(StringMap::<V>::get, (map, asked), found),
    ensures
        parts.0@.len() == parts.1@.len(),
        forall|i: int, j: int|
            0 <= i < j < parts.0@.len() ==> (#[trigger] parts.0@[i])@ != (#[trigger] parts.0@[j])@,
        forall|i: int|
            0 <= i < parts.0@.len() && (#[trigger] parts.0@[i])@ == asked@ ==> found is Some
                && *found->0 == parts.1@[i],
        found is Some ==> exists|i: int|
            0 <= i < parts.0@.len() && (#[trigger] parts.0@[i])@ == asked@,
{
    crate::laws::messages::law_keys_go_with_their_values(parts.0@, parts.1@, asked@);
}

/// The keys and values that `StringMap::into_parts` gives are those of `StringMap::get`.
pub proof fn law_taken_parts_are_the_entries<V>(
    map: StringMap<V>,
    parts: (Vec<String>, Vec<V>),
    asked: &String,
    found: Option<&V>,
)
    requires
        call_ensures(StringMap::<V>::into_parts, (map,), parts),
        call_ensures(StringMap::<V>::get, (&map, asked), found),
    ensures
        parts.0@.len() == parts.1@.len(),
        forall|i: int, j: int|
            0 <= i < j < parts.0@.len() ==> (#[trigger] parts.0@[i])@ != (#[trigger] parts.0@[j])@,
        forall|i: int|
            0 <= i < parts.0@.len() && (#[trigger] parts.0@[i])@ == asked@ ==> found is Some
                && *found->0 == parts.1@[i],
        found is Some ==> exists|i: int|
            0 <= i < parts.0@.len() && (#[trigger] parts.0@[i])@ == asked@,
{
    crate::laws::messages::law_keys_go_with_their_values(parts.0@, parts.1@, asked@);
}

/// A script that `Script::new` has made asks for the first of its commands. After a success,
/// `Script::pending` gives the command behind it; after a failure it gives none, and the error names
/// the step that has failed and the cause.
pub proof fn law_script_goes_on_after_success(
    script: &mut Script,
    reply: Result<(), String>,
    outcome: Result<(), ProviderError>,
    then: &Script,
    command: Option<&Command>,
    completed: bool,
)
    requires
        0 <= old(script)@.done < old(script)@.commands.len(),
        !old(script)@.failed,
        call_ensures(Script::record, (script, reply), outcome),
        then@ == final(script)@,
        call_ensures(Script::pending, (then,), command),
        call_ensures(Script::is_completed, (then,), completed),
    ensures
        outcome is Ok <==> reply is Ok,
        then@.commands == old(script)@.commands,
        reply is Ok ==> {
            let next = old(script)@.done + 1;
            &&& completed <==> next == old(script)@.commands.len()
            &&& command is Some <==> next < old(script)@.commands.len()
            &&& command is Some ==> command->0@ == old(script)@.commands[next]
        },
        reply matches Err(cause) ==> {
            &&& command is None && !completed
            &&& outcome == Err::<(), ProviderError>(
                ProviderError::StepFailed {
                    step: old(script)@.commands[old(script)@.done].step(),
                    cause,
                },
            )
        },
{
}

/// A script that `Script::new` has made holds the commands that it was called with, and
/// `Script::pending` gives the first of them.
pub proof fn law_new_script_begins_at_the_first_command(
    commands: Vec<Command>,
    script: Script,
    command: Option<&Command>,
)
    requires
        call_ensures(Script::new, (commands,), script),
        call_ensures(Script::pending, (&script,), command),
    ensures
        script@.commands.len() == commands@.len(),
        forall|i: int|
            0 <= i < commands@.len() ==> #[trigger] script@.commands[i] == commands@[i]@,
        commands@.len() > 0 ==> command is Some && command->0@ == commands@[0]@,
        commands@.len() == 0 ==> command is None,
{
}

/// `to_decimal` writes a number so that it reads as that number.
pub proof fn law_to_decimal_reads_back(n: i32, text: String)
    requires
        call_ensures(to_decimal, (n,), text),
    ensures
        n >= 0 ==> crate::laws::messages::is_plain_number(text@)
            && crate::laws::messages::number_read(text@) == n,
        n < 0 ==> {
            &&& text@[0] == '-'
            &&& crate::laws::messages::is_plain_number(text@.skip(1))
            &&& crate::laws::messages::number_read(text@.skip(1)) == -n
        },
{
    crate::laws::messages::law_written_number_reads_back(n as int);
}

/// `contains_text` finds a text if and only if one of the strings is that text.
pub proof fn law_contained_text_is_found(strings: &Vec<String>, text: &str, found: bool)
    requires
        call_ensures(contains_text, (strings, text), found),
    ensures
        found <==> exists|i: int| 0 <= i < strings@.len() && (#[trigger] strings@[i])@ == text@,
{
    let texts = crate::text::texts(strings@);
    if exists|i: int| 0 <= i < strings@.len() && (#[trigger] strings@[i])@ == text@ {
        let i = choose|i: int| 0 <= i < strings@.len() && (#[trigger] strings@[i])@ == text@;
        assert(texts[i] == text@);
    }
    if found {
        let i = choose|i: int| 0 <= i < texts.len() && texts[i] == text@;
        assert(strings@[i]@ == text@);
    }
}

/// `validate_pod_runnable` accepts a pod if and only if it has no init container and none of its
/// containers has an argument. It names the pod for the former, and else the first such container.
pub proof fn law_validation_finds_the_culprit(pod: &Pod, outcome: Result<(), ProviderError>)
    requires
        call_ensures(validate_pod_runnable, (pod,), outcome),
    ensures
        outcome is Ok <==> crate::laws::adding::pod_is_fit(*pod),
        outcome is Err && pod.init_containers@.len() > 0 ==> outcome->Err_0
            == (ProviderError::InitContainers { pod_name: pod.name }),
        outcome is Err && pod.init_containers@.len() == 0 ==> exists|i: int|
            {
                &&& 0 <= i < pod.containers@.len()
                &&& crate::laws::keeping::has_some_argument(#[trigger] pod.containers@[i])
                &&& forall|j: int|
                    0 <= j < i ==> !crate::laws::keeping::has_some_argument(
                        #[trigger] pod.containers@[j],
                    )
                &&& outcome->Err_0 == (ProviderError::ContainerArgs {
                    container_name: pod.containers@[i].name,
                })
            },
{
    crate::laws::keeping::law_pod_runs_without_init_containers_and_arguments(*pod);
    if outcome is Err {
        crate::laws::keeping::law_refusal_is_for_the_first_culprit(*pod, outcome->Err_0);
    }
}

/// `has_args` and `validate_container_runnable` go by whether the container has an argument.
pub proof fn law_container_is_validated_by_its_arguments(
    container: &Container,
    found: bool,
    outcome: Result<(), ProviderError>,
)
    requires
        call_ensures(has_args, (container,), found),
        call_ensures(validate_container_runnable, (container,), outcome),
    ensures
        found <==> crate::laws::keeping::has_some_argument(*container),
        outcome is Err <==> found,
        outcome is Err ==> outcome->Err_0 == (ProviderError::ContainerArgs {
            container_name: container.name,
        }),
{
}

/// `key_from_pod` joins the namespace and the name of the pod with a colon.
pub proof fn law_key_is_of_the_pod(pod: &Pod, key: String)
    requires
        call_ensures(key_from_pod, (pod,), key),
    ensures
        key@ == pod.namespace@ + ":"@ + pod.name@,
{
}

/// `bind_volumes` gives each volume that the container mounts with its place, in order, or complains
/// about the first one that does not exist.
pub proof fn law_mounted_volumes_are_bound(
    container: &Container,
    volumes: &StringMap<String>,
    outcome: Result<Vec<VolumeBinding>, ProviderError>,
)
    requires
        call_ensures(bind_volumes, (container, volumes), outcome),
    ensures
        container.volume_mounts is None ==> outcome is Ok && outcome->Ok_0@.len() == 0,
        container.volume_mounts matches Some(mounts) ==> {
            &&& outcome is Ok <==> forall|v: int|
                0 <= v < mounts@.len() ==> volumes@.contains_key((#[trigger] mounts@[v])@)
            &&& outcome matches Ok(bound) ==> {
                &&& bound@.len() == mounts@.len()
                &&& forall|v: int|
                    #![trigger mounts@[v]]
                    0 <= v < mounts@.len() ==> bound@[v].name == mounts@[v]
                        && bound@[v].host_path == volumes@[mounts@[v]@]
            }
            &&& outcome matches Err(error) ==> exists|v: int|
                {
                    &&& 0 <= v < mounts@.len()
                    &&& !volumes@.contains_key((#[trigger] mounts@[v])@)
                    &&& forall|w: int|
                        0 <= w < v ==> volumes@.contains_key((#[trigger] mounts@[w])@)
                    &&& error == (ProviderError::VolumeNotFound {
                        volume_name: mounts@[v],
                        container_name: container.name,
                    })
                }
        },
{
    let mounts = crate::addition::mounted_volumes(*container);
    if outcome is Err {
        let v = choose|v: int|
            {
                &&& #[trigger] crate::addition::first_missing(mounts, volumes@, v)
                &&& outcome->Err_0 == (ProviderError::VolumeNotFound {
                    volume_name: mounts[v],
                    container_name: container.name,
                })
            };
        assert(!volumes@.contains_key(mounts[v]@));
    }
}

/// The statuses that are reported: a container waits until it is started; one that could not be
/// started has ended in a failure with all details, and it alone is reported; a stopped pod has
/// ended well, with each of its containers.
pub proof fn law_statuses_say_what_happened(
    initial: ContainerStatus,
    container_name: &String,
    failure: &StartFailure,
    failed: PodStatus,
    pod: &Pod,
    stopped: StoppedStatus,
)
    requires
        call_ensures(initial_status, (), initial),
        call_ensures(failed_start_status, (container_name, failure), failed),
        call_ensures(stopped_status, (pod,), stopped),
    ensures
        initial@ == (ContainerStatusView::Waiting {
            message: "No status has been received from the process"@,
        }),
        crate::laws::adding::reports_failure(failed, container_name@, failure.details@),
        stopped.resource_version@ == ""@,
        stopped.message@ == "Pod stopped"@,
        stopped.phase == Phase::Succeeded,
        stopped.container_statuses@.len() == pod.containers@.len(),
        forall|i: int|
            #![trigger pod.containers@[i]]
            0 <= i < pod.containers@.len() ==> {
                &&& stopped.container_statuses@[i].container_name@ == pod.containers@[i].name@
                &&& stopped.container_statuses@[i].status@ == (ContainerStatusView::Terminated {
                    reason: "Pod stopped"@,
                    failed: false,
                })
            },
{
    let expected = crate::status::status_once_stopped(*pod).container_statuses;
    assert(stopped@.container_statuses == expected);
    assert(stopped@.container_statuses.len() == stopped.container_statuses@.len());
    assert forall|i: int|
        #![trigger pod.containers@[i]]
        0 <= i < pod.containers@.len() implies {
        &&& stopped.container_statuses@[i].container_name@ == pod.containers@[i].name@
        &&& stopped.container_statuses@[i].status@ == (ContainerStatusView::Terminated {
            reason: "Pod stopped"@,
            failed: false,
        })
    } by {
        assert(stopped@.container_statuses[i] == stopped.container_statuses@[i]@);
        assert(expected[i].container_name == pod.containers@[i].name@);
    }
}

/// What an error says, and what a failure to start says that stands for it, is one text.
pub proof fn law_failure_says_what_the_error_says(
    error: &ProviderError,
    message: String,
    failure: StartFailure,
)
    requires
        call_ensures(ProviderError::message, (error,), message),
        call_ensures(StartFailure::of, (error,), failure),
    ensures
        message@ == error.text(),
        failure.summary@ == message@,
        failure.details@ == message@,
{
}

/// The addition that `PodAddition::new` has made of a pod is about this pod, and nothing has been
/// done for it.
pub proof fn law_new_addition_is_about_the_pod<C>(pod: Pod, addition: PodAddition<C>)
    requires
        call_ensures(PodAddition::<C>::new, (pod,), addition),
    ensures
        addition.wf(),
        addition.pod == pod,
        addition.stage is Validating,
        addition.started == 0,
        forall|name: Seq<char>| !(#[trigger] addition.container_handles@.contains_key(name)),
{
}

/// Each call of `PodAddition::advance` is one step of the addition, and leaves it in order.
pub proof fn law_advance_is_one_step<H, C>(
    addition: &mut PodAddition<C>,
    provider: &mut WasccProvider<H>,
    event: AddEvent<H, C>,
    action: AddAction<C>,
)
    requires
        call_ensures(PodAddition::<C>::advance::<H>, (addition, provider, event), action),
    ensures
        final(addition).wf(),
        crate::addition::advanced(
            *old(addition),
            old(provider)@,
            event,
            *final(addition),
            final(provider)@,
            action,
        ),
{
}

/// If `PodAddition::advance` answers the environment of a container with its start, the container is
/// started with that environment, with its own module, with the volumes that it mounts, and with the
/// port that it was assigned, whichever container it is.
pub proof fn law_advance_starts_a_container_with_its_own<H, C>(
    addition: &mut PodAddition<C>,
    provider: &mut WasccProvider<H>,
    env: EnvVars,
    container: usize,
    start: ContainerStart,
)
    requires
        call_ensures(
            PodAddition::<C>::advance::<H>,
            (addition, provider, AddEvent::EnvironmentRead(env)),
            AddAction::StartContainer { container, start },
        ),
    ensures
        start.env@ == env@,
        container == old(addition).started,
        start.module == old(addition).modules@[
            old(addition).pod.containers@[container as int].name@
        ],
        old(addition).stage == (AddStage::ReadingEnvironment {
            port_assigned: start.port_assigned,
        }),
        old(addition).pod.containers@[container as int].volume_mounts matches Some(mounts) ==> {
            &&& start.volumes@.len() == mounts@.len()
            &&& forall|v: int|
                #![trigger mounts@[v]]
                0 <= v < mounts@.len() ==> {
                    &&& start.volumes@[v].name == mounts@[v]
                    &&& start.volumes@[v].host_path == old(addition).volumes@[mounts@[v]@]
                }
        },
{
    crate::laws::adding::law_container_starts_with_its_own(
        *old(addition),
        old(provider)@,
        env,
        *final(addition),
        final(provider)@,
        container,
        start,
    );
}

} // verus!
