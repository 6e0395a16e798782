use crate::error::ProviderError;
use crate::pod::{Container, Pod};
use crate::string_map::StringMap;
use vstd::prelude::*;

verus! {

/// What a container says until it has been started.
pub const NO_STATUS_MESSAGE: &'static str = "No status has been received from the process";

/// What a pod and its containers say once the pod has been stopped.
pub const STOPPED_MESSAGE: &'static str = "Pod stopped";

/// How a container is doing. The time is added where the status is sent.
#[derive(Debug)]
pub enum ContainerStatus {
    /// The container waits to be started, for the reason given.
    Waiting { message: String },
    /// The container is running.
    Running,
    /// The container has come to an end, by a failure or not.
    Terminated { reason: String, failed: bool },
}

/// What a container status is made of.
#[verifier::ext_equal]
pub enum ContainerStatusView {
    Waiting { message: Seq<char> },
    Running,
    Terminated { reason: Seq<char>, failed: bool },
}

impl View for ContainerStatus {
    type V = ContainerStatusView;

    open spec fn view(&self) -> ContainerStatusView {
        match self {
            ContainerStatus::Waiting { message } => ContainerStatusView::Waiting {
                message: message@,
            },
            ContainerStatus::Running => ContainerStatusView::Running,
            ContainerStatus::Terminated { reason, failed } => ContainerStatusView::Terminated {
                reason: reason@,
                failed: *failed,
            },
        }
    }
}

/// The status that a container has before it is started.
pub fn initial_status() -> (status: ContainerStatus)
    ensures
        status@ == (ContainerStatusView::Waiting { message: NO_STATUS_MESSAGE@ }),
{
    ContainerStatus::Waiting { message: NO_STATUS_MESSAGE.to_owned() }
}

/// Why a container could not be started.
#[derive(Debug)]
pub struct StartFailure {
    /// The failure in short.
    pub summary: String,
    /// The failure with all that is known of its causes.
    pub details: String,
}

impl StartFailure {
    /// The failure that the error stands for. Nothing is known of its causes but what it says.
    pub fn of(error: &ProviderError) -> (failure: StartFailure)
        ensures
            failure.summary@ == error.text(),
            failure.details@ == error.text(),
    {
        StartFailure { summary: error.message(), details: error.message() }
    }
}

/// What a container says that could not be started.
pub open spec fn failed_start_text(details: Seq<char>) -> Seq<char> {
    "Error while starting container: "@ + details
}

/// A change to the status of a pod.
pub struct PodStatus {
    /// The pod's new message. Without one, the pod keeps the message that it has.
    pub message: Option<String>,
    /// The new statuses of containers, by name.
    pub container_statuses: StringMap<ContainerStatus>,
}

/// Whether the change says of this container, and of nothing else, that it could not be started.
pub open spec fn is_failed_start_status(
    status: PodStatus,
    container_name: Seq<char>,
    details: Seq<char>,
) -> bool {
    &&& status.message is None
    &&& status.container_statuses@.dom() == set![container_name]
    &&& status.container_statuses@[container_name]@ == (ContainerStatusView::Terminated {
        reason: failed_start_text(details),
        failed: true,
    })
}

/// The change to the status of a pod of which the container could not be started.
pub fn failed_start_status(container_name: &String, failure: &StartFailure) -> (status: PodStatus)
    ensures
        is_failed_start_status(status, container_name@, failure.details@),
{
    let mut container_statuses: StringMap<ContainerStatus> = StringMap::new();
    let terminated = ContainerStatus::Terminated {
        reason: "Error while starting container: ".to_owned().concat(failure.details.as_str()),
        failed: true,
    };
    container_statuses.insert(container_name.clone(), terminated);
    assert(container_statuses@.dom() =~= set![container_name@]);
    PodStatus { message: None, container_statuses }
}

/// Where a pod is in its life.
#[derive(Debug, Clone, Copy, PartialEq, Eq, Structural)]
pub enum Phase {
    Running,
    Failed,
    Succeeded,
    Unknown,
}

/// The status of a container, with the name of the container.
#[derive(Debug)]
pub struct NamedStatus {
    pub container_name: String,
    pub status: ContainerStatus,
}

/// The status that replaces the one of a pod once it has been stopped.
#[derive(Debug)]
pub struct StoppedStatus {
    /// The version of the pod that is replaced; empty for whichever there is.
    pub resource_version: String,
    pub message: String,
    pub phase: Phase,
    pub container_statuses: Vec<NamedStatus>,
}

/// What a container status with the name of the container is made of.
#[verifier::ext_equal]
pub struct NamedStatusView {
    pub container_name: Seq<char>,
    pub status: ContainerStatusView,
}

impl View for NamedStatus {
    type V = NamedStatusView;

    open spec fn view(&self) -> NamedStatusView {
        NamedStatusView { container_name: self.container_name@, status: self.status@ }
    }
}

/// What the status of a stopped pod is made of.
#[verifier::ext_equal]
pub struct StoppedStatusView {
    pub resource_version: Seq<char>,
    pub message: Seq<char>,
    pub phase: Phase,
    pub container_statuses: Seq<NamedStatusView>,
}

impl View for StoppedStatus {
    type V = StoppedStatusView;

    open spec fn view(&self) -> StoppedStatusView {
        StoppedStatusView {
            resource_version: self.resource_version@,
            message: self.message@,
            phase: self.phase,
            container_statuses: self.container_statuses@.map_values(
                |status: NamedStatus| status@,
            ),
        }
    }
}

/// The status of the pod once it has been stopped: the pod, and each of its containers in order,
/// has ended well.
pub open spec fn status_once_stopped(pod: Pod) -> StoppedStatusView {
    StoppedStatusView {
        resource_version: ""@,
        message: STOPPED_MESSAGE@,
        phase: Phase::Succeeded,
        container_statuses: pod.containers@.map_values(
            |container: Container|
                NamedStatusView {
                    container_name: container.name@,
                    status: ContainerStatusView::Terminated {
                        reason: STOPPED_MESSAGE@,
                        failed: false,
                    },
                },
        ),
    }
}

/// The status of the pod once it has been stopped.
pub fn stopped_status(pod: &Pod) -> (status: StoppedStatus)
    ensures
        status@ == status_once_stopped(*pod),
{
    let mut container_statuses: Vec<NamedStatus> = Vec::new();
    let ghost expected = status_once_stopped(*pod).container_statuses;
    let mut i: usize = 0;
    while i < pod.containers.len()
        invariant
            i <= pod.containers@.len(),
            expected == status_once_stopped(*pod).container_statuses,
            container_statuses@.map_values(|status: NamedStatus| status@) =~= expected.take(
                i as int,
            ),
        decreases pod.containers@.len() - i,
    {
        let ghost before = container_statuses@.map_values(|status: NamedStatus| status@);
        container_statuses.push(
            NamedStatus {
                container_name: pod.containers[i].name.clone(),
                status: ContainerStatus::Terminated {
                    reason: STOPPED_MESSAGE.to_owned(),
                    failed: false,
                },
            },
        );
        assert(container_statuses@.map_values(|status: NamedStatus| status@) =~= before.push(
            expected[i as int],
        ));
        assert(expected.take(i + 1) =~= expected.take(i as int).push(expected[i as int]));
        i = i + 1;
    }
    assert(expected.take(expected.len() as int) =~= expected);
    StoppedStatus {
        resource_version: "".to_owned(),
        message: STOPPED_MESSAGE.to_owned(),
        phase: Phase::Succeeded,
        container_statuses,
    }
}

} // verus!
