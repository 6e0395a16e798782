use crate::error::ProviderError;
use vstd::prelude::*;

verus! {

/// A port that a container listens on.
#[derive(Debug, Clone, Copy, PartialEq, Eq, Structural)]
pub struct ContainerPort {
    /// The port inside of the container.
    pub container_port: i32,
    /// The port of the node that stands for it, if the container names one.
    pub host_port: Option<i32>,
}

/// What the provider reads of a container's specification.
#[derive(Debug)]
pub struct Container {
    pub name: String,
    /// The arguments of the container.
    pub args: Option<Vec<String>>,
    pub ports: Option<Vec<ContainerPort>>,
    /// The names of the volumes that the container mounts.
    pub volume_mounts: Option<Vec<String>>,
}

/// What the provider reads of a pod.
#[derive(Debug)]
pub struct Pod {
    pub name: String,
    pub namespace: String,
    /// Whether the pod has a deletion timestamp.
    pub deletion_requested: bool,
    pub init_containers: Vec<Container>,
    pub containers: Vec<Container>,
}

/// Whether the container has at least one argument.
pub open spec fn declares_args(container: Container) -> bool {
    container.args matches Some(args) && args@.len() > 0
}

/// Whether the container has at least one argument.
pub fn has_args(container: &Container) -> (found: bool)
    ensures
        found == declares_args(*container),
{
    match &container.args {
        None => false,
        Some(args) => !args.is_empty(),
    }
}

/// Refuses a container with arguments.
pub fn validate_container_runnable(container: &Container) -> (outcome: Result<(), ProviderError>)
    ensures
        outcome == if declares_args(*container) {
            Err::<(), ProviderError>(
                ProviderError::ContainerArgs { container_name: container.name },
            )
        } else {
            Ok(())
        },
{
    if has_args(container) {
        return Err(ProviderError::ContainerArgs { container_name: container.name.clone() });
    }
    Ok(())
}

/// Whether the pod can run here: without init containers, and without arguments for a container.
pub open spec fn runnable(pod: Pod) -> bool {
    &&& pod.init_containers@.len() == 0
    &&& forall|i: int|
        0 <= i < pod.containers@.len() ==> !declares_args(#[trigger] pod.containers@[i])
}

/// Whether the container at place `i` is the first one with arguments.
pub open spec fn first_with_args(containers: Seq<Container>, i: int) -> bool {
    &&& 0 <= i < containers.len()
    &&& declares_args(containers[i])
    &&& forall|j: int| 0 <= j < i ==> !declares_args(#[trigger] containers[j])
}

/// Whether the error says why the pod cannot run here: for its init containers, or else for the
/// first container with arguments.
pub open spec fn refused_for(pod: Pod, error: ProviderError) -> bool {
    if pod.init_containers@.len() > 0 {
        error == (ProviderError::InitContainers { pod_name: pod.name })
    } else {
        exists|i: int|
            #![trigger pod.containers@[i]]
            first_with_args(pod.containers@, i) && error == (ProviderError::ContainerArgs {
                container_name: pod.containers@[i].name,
            })
    }
}

/// Refuses a pod that cannot run here.
pub fn validate_pod_runnable(pod: &Pod) -> (outcome: Result<(), ProviderError>)
    ensures
        match outcome {
            Ok(_) => runnable(*pod),
            Err(error) => !runnable(*pod) && refused_for(*pod, error),
        },
{
    if !pod.init_containers.is_empty() {
        return Err(ProviderError::InitContainers { pod_name: pod.name.clone() });
    }
    let mut i: usize = 0;
    while i < pod.containers.len()
        invariant
            pod.init_containers@.len() == 0,
            i <= pod.containers@.len(),
            forall|j: int| 0 <= j < i ==> !declares_args(#[trigger] pod.containers@[j]),
        decreases pod.containers@.len() - i,
    {
        match validate_container_runnable(&pod.containers[i]) {
            Ok(_) => {},
            Err(error) => {
                assert(first_with_args(pod.containers@, i as int));
                return Err(error);
            },
        }
        i = i + 1;
    }
    Ok(())
}

/// The key of a pod: its namespace and its name with a colon in between.
pub open spec fn pod_key_text(namespace: Seq<char>, pod_name: Seq<char>) -> Seq<char> {
    namespace + ":"@ + pod_name
}

/// Calls `kubelet::pod::pod_key`, which joins the two strings with a colon.
#[verifier::external_body]
pub(crate) fn pod_key(namespace: &String, pod_name: &String) -> (key: String)
    ensures
        key@ == pod_key_text(namespace@, pod_name@),
{
    kubelet::pod::pod_key(namespace, pod_name)
}

/// The key under which the provider keeps a pod.
pub fn key_from_pod(pod: &Pod) -> (key: String)
    ensures
        key@ == pod_key_text(pod.namespace@, pod.name@),
{
    pod_key(&pod.namespace, &pod.name)
}

} // verus!
