use crate::error::ProviderError;
use crate::pod::{Container, Pod};
use crate::provider::{ProviderView, WasccProvider};
use crate::script::{CommandView, NativeCapability, ScriptView};
use crate::status::{
    ContainerStatus, ContainerStatusView, NamedStatus, Phase, PodStatus, StoppedStatus,
};
use vstd::prelude::*;

verus! {

/// Start-up creates the directories for logs and for volumes, which are two, makes and registers
/// the HTTP and the logging capability, unbound, and does nothing else.
pub proof fn law_startup_in_full()
    ensures
        ({
            let startup = crate::provider::startup_commands();
            &&& startup.len() == 6
            &&& startup[0] == (CommandView::CreateDirectory { name: "wascc-logs"@ })
            &&& startup[1] == (CommandView::CreateDirectory { name: "volumes"@ })
            &&& startup[2] == (CommandView::InstantiateCapability {
                native: NativeCapability::Http,
                binding: None,
            })
            &&& startup[3] == (CommandView::AddCapability { native: NativeCapability::Http })
            &&& startup[4] == (CommandView::InstantiateCapability {
                native: NativeCapability::Logging,
                binding: None,
            })
            &&& startup[5] == (CommandView::AddCapability { native: NativeCapability::Logging })
        }),
        "wascc-logs"@ != "volumes"@,
{
    reveal_strlit("wascc-logs");
    reveal_strlit("volumes");
    assert("wascc-logs"@.len() != "volumes"@.len());
}

/// A script that has start-up's commands and is completed was answered with success for each of
/// the two directories, whatever else it was answered.
pub proof fn law_started_up_with_both_directories(answers: Seq<bool>)
    requires
        crate::laws::answered(
            ScriptView::fresh(crate::provider::startup_commands()),
            answers,
        ).completed(),
    ensures
        exists|i: int|
            0 <= i < answers.len() && #[trigger] answers[i]
                && crate::provider::startup_commands()[i] == (CommandView::CreateDirectory {
                name: "wascc-logs"@,
            }),
        exists|i: int|
            0 <= i < answers.len() && #[trigger] answers[i]
                && crate::provider::startup_commands()[i] == (CommandView::CreateDirectory {
                name: "volumes"@,
            }),
{
    law_startup_in_full();
    crate::laws::law_script_stops_at_first_failure(crate::provider::startup_commands(), answers);
    assert(answers[0] && answers[1]);
}

/// Whoever removes a pod addresses this pod and no other: each command that names a pod has the
/// pod's own namespace and name, the pod is stopped first, and the last command deletes it at once.
pub proof fn law_removal_is_of_the_pod_itself(pod: Pod, i: int)
    requires
        0 <= i < crate::provider::removal_commands(pod).len(),
    ensures
        crate::provider::removal_commands(
            pod,
        )[i] matches CommandView::ReplaceStatus { namespace, pod_name, .. } ==> namespace
            == pod.namespace@ && pod_name == pod.name@,
        crate::provider::removal_commands(
            pod,
        )[i] matches CommandView::DeletePod { namespace, pod_name, .. } ==> namespace
            == pod.namespace@ && pod_name == pod.name@,
        crate::provider::removal_commands(pod)[0] == CommandView::StopPod,
        crate::provider::removal_commands(pod).last() == (CommandView::DeletePod {
            namespace: pod.namespace@,
            pod_name: pod.name@,
            grace_period_seconds: 0,
        }),
{
}

/// To remove a pod is to stop it, to say that it has ended well, and to delete it, each once and in
/// this order.
pub proof fn law_removal_in_full(pod: Pod)
    ensures
        ({
            let removal = crate::provider::removal_commands(pod);
            &&& removal.len() == 3
            &&& removal[0] == CommandView::StopPod
            &&& removal[1] matches CommandView::ReplaceStatus { namespace, pod_name, status }
            &&& namespace == pod.namespace@ && pod_name == pod.name@
            &&& status.resource_version == ""@
            &&& status.message == "Pod stopped"@
            &&& status.phase == Phase::Succeeded
            &&& status.container_statuses.len() == pod.containers@.len()
            &&& forall|i: int|
                #![trigger pod.containers@[i]]
                0 <= i < pod.containers@.len() ==> {
                    &&& status.container_statuses[i].container_name == pod.containers@[i].name@
                    &&& status.container_statuses[i].status == (ContainerStatusView::Terminated {
                        reason: "Pod stopped"@,
                        failed: false,
                    })
                }
            &&& removal[2] == (CommandView::DeletePod {
                namespace: pod.namespace@,
                pod_name: pod.name@,
                grace_period_seconds: 0,
            })
        }),
{
}

/// Pods that differ in their namespace or in their name are removed differently.
pub proof fn law_removals_of_different_pods_differ(pod: Pod, other: Pod)
    requires
        pod.namespace@ != other.namespace@ || pod.name@ != other.name@,
    ensures
        crate::provider::removal_commands(pod) != crate::provider::removal_commands(other),
{
    law_removal_is_of_the_pod_itself(pod, 0);
    law_removal_is_of_the_pod_itself(other, 0);
}

/// The views of statuses have all that the statuses hold, in order.
pub proof fn law_status_views_are_whole(
    status: ContainerStatus,
    named: NamedStatus,
    stopped: StoppedStatus,
)
    ensures
        status matches ContainerStatus::Waiting { message } ==> status@
            == (ContainerStatusView::Waiting { message: message@ }),
        status is Running ==> status@ is Running,
        status matches ContainerStatus::Terminated { reason, failed } ==> status@
            == (ContainerStatusView::Terminated { reason: reason@, failed }),
        named@.container_name == named.container_name@,
        named@.status == named.status@,
        stopped@.resource_version == stopped.resource_version@,
        stopped@.message == stopped.message@,
        stopped@.phase == stopped.phase,
        stopped@.container_statuses.len() == stopped.container_statuses@.len(),
        forall|i: int|
            0 <= i < stopped.container_statuses@.len() ==> #[trigger] stopped@.container_statuses[i]
                == stopped.container_statuses@[i]@,
{
}

/// A container that could not be started is reported, and it alone: it has ended in a failure, for
/// a reason that gives all details. The message of the pod stays as it is.
pub proof fn law_failed_start_is_reported(
    status: PodStatus,
    container_name: Seq<char>,
    details: Seq<char>,
    other: Seq<char>,
)
    requires
        crate::status::is_failed_start_status(status, container_name, details),
    ensures
        status.message is None,
        status.container_statuses@.contains_key(container_name),
        other != container_name ==> !status.container_statuses@.contains_key(other),
        status.container_statuses@[container_name]@ == (ContainerStatusView::Terminated {
            reason: "Error while starting container: "@ + details,
            failed: true,
        }),
{
    assert(set![container_name].contains(container_name));
    assert(status.container_statuses@.dom().contains(other) == set![container_name].contains(other));
}

/// Whether the container has an argument.
pub open spec fn has_some_argument(container: Container) -> bool {
    container.args is Some && container.args->0@.len() > 0
}

/// A pod can run here if it has no init container and none of its containers has an argument, and
/// not otherwise.
pub proof fn law_pod_runs_without_init_containers_and_arguments(pod: Pod)
    ensures
        crate::pod::runnable(pod) <==> pod.init_containers@.len() == 0 && !exists|i: int|
            0 <= i < pod.containers@.len() && has_some_argument(#[trigger] pod.containers@[i]),
{
    if pod.init_containers@.len() == 0 && !exists|i: int|
        0 <= i < pod.containers@.len() && has_some_argument(#[trigger] pod.containers@[i]) {
        assert forall|i: int| 0 <= i < pod.containers@.len() implies !crate::pod::declares_args(
            #[trigger] pod.containers@[i],
        ) by {
            assert(!has_some_argument(pod.containers@[i]));
        }
    }
}

/// A pod with init containers is refused for them, by its name. Without them it is refused for the
/// first container that has an argument, by the name of that container.
pub proof fn law_refusal_is_for_the_first_culprit(pod: Pod, error: ProviderError)
    requires
        crate::pod::refused_for(pod, error),
    ensures
        pod.init_containers@.len() > 0 ==> error == (ProviderError::InitContainers {
            pod_name: pod.name,
        }),
        pod.init_containers@.len() == 0 ==> exists|i: int|
            {
                &&& 0 <= i < pod.containers@.len()
                &&& has_some_argument(#[trigger] pod.containers@[i])
                &&& forall|j: int| 0 <= j < i ==> !has_some_argument(#[trigger] pod.containers@[j])
                &&& error == (ProviderError::ContainerArgs {
                    container_name: pod.containers@[i].name,
                })
            },
{
    if pod.init_containers@.len() == 0 {
        let i = choose|i: int|
            #![trigger pod.containers@[i]]
            crate::pod::first_with_args(pod.containers@, i) && error
                == (ProviderError::ContainerArgs { container_name: pod.containers@[i].name });
        assert(has_some_argument(pod.containers@[i]));
        assert forall|j: int| 0 <= j < i implies !has_some_argument(
            #[trigger] pod.containers@[j],
        ) by {
            assert(!crate::pod::declares_args(pod.containers@[j]));
        }
    }
}

/// The key of a pod is its namespace, a colon and its name, with nothing left out.
pub proof fn law_pod_key_reads_back(namespace: Seq<char>, name: Seq<char>)
    ensures
        ({
            let key = crate::pod::pod_key_text(namespace, name);
            &&& key.len() == namespace.len() + 1 + name.len()
            &&& key.take(namespace.len() as int) == namespace
            &&& key[namespace.len() as int] == ':'
            &&& key.skip(namespace.len() as int + 1) == name
        }),
{
    reveal_strlit(":");
    let key = crate::pod::pod_key_text(namespace, name);
    assert(key.take(namespace.len() as int) =~= namespace);
    assert(key.skip(namespace.len() as int + 1) =~= name);
}

/// Deleting a pod gives its handle back, if it was kept, and keeps every other pod as it was. Of
/// the ports, at most one becomes free; it was the pod's own, or else 0.
pub proof fn law_delete_takes_out_one_pod<H>(
    before: ProviderView<H>,
    namespace: Seq<char>,
    name: Seq<char>,
    handle: Option<H>,
    after: ProviderView<H>,
)
    requires
        crate::provider::pod_deleted(before, namespace, name, handle, after),
    ensures
        ({
            let key = namespace + ":"@ + name;
            &&& before.handles.contains_key(key) ==> handle == Some(before.handles[key])
            &&& !before.handles.contains_key(key) ==> handle is None
            &&& !after.handles.contains_key(key)
            &&& forall|other: Seq<char>|
                other != key ==> {
                    &&& #[trigger] after.handles.contains_key(other)
                        == before.handles.contains_key(other)
                    &&& after.handles.contains_key(other) ==> after.handles[other]
                        == before.handles[other]
                }
        }),
        exists|freed: i32|
            {
                &&& freed == 0 || before.ports.contains_key(freed) && before.ports[freed] == name
                &&& after.ports == #[trigger] before.ports.remove(freed)
            },
        (exists|held: i32| #[trigger]
            before.ports.contains_key(held) && before.ports[held] == name) ==> exists|freed: i32|
            {
                &&& before.ports.contains_key(freed) && before.ports[freed] == name
                &&& after.ports == #[trigger] before.ports.remove(freed)
            },
        forall|port: i32| #[trigger]
            before.ports.contains_key(port) && before.ports[port] != name && port != 0
                ==> after.ports.contains_key(port) && after.ports[port] == before.ports[port],
{
    let freed = choose|port: i32| #[trigger]
        crate::ports::port_released(before.ports, name, port, after.ports);
    assert(after.ports == before.ports.remove(freed));
}

/// What a provider keeps are its handles and its ports.
pub proof fn law_provider_view_is_whole<H>(provider: WasccProvider<H>)
    ensures
        provider@.handles == provider.handles@,
        provider@.ports == provider.port_map@,
{
}

} // verus!
