use crate::ports::PortAllocationError;
use crate::script::Step;
use crate::text::{concat3, to_decimal};
use vstd::prelude::*;

verus! {

/// Why the provider could not do what it was asked for.
#[derive(Debug)]
pub enum ProviderError {
    /// The pod has init containers.
    InitContainers { pod_name: String },
    /// The container has arguments.
    ContainerArgs { container_name: String },
    /// The host port that a container names is held by a pod.
    PortInUse { port: i32 },
    /// No port was found for a container that names no host port.
    PortAllocation { error: PortAllocationError },
    /// The container mounts a volume that the pod does not have.
    VolumeNotFound { volume_name: String, container_name: String },
    /// The module of a container is not a signed actor.
    LoadModule { cause: String },
    /// A step on the machine failed.
    StepFailed { step: Step, cause: String },
    /// A container could not be started.
    ContainerNotStarted { cause: String },
    /// The pod is not one that runs here.
    PodNotFound { pod_name: String },
}

impl ProviderError {
    /// What the error says.
    pub open spec fn text(&self) -> Seq<char> {
        match self {
            ProviderError::InitContainers { pod_name } => "Cannot run "@ + pod_name@
                + ": spec specifies init containers which are not supported on wasCC"@,
            ProviderError::ContainerArgs { container_name } => "Cannot run "@ + container_name@
                + ": spec specifies container args which are not supported on wasCC"@,
            ProviderError::PortInUse { port } => "Port "@ + crate::text::decimal(*port as int)
                + " is currently in use"@,
            ProviderError::PortAllocation { error } => "all ports are currently in use"@,
            ProviderError::VolumeNotFound { volume_name, container_name } =>
                "no volume with the name of "@ + volume_name@ + " found for container "@
                + container_name@,
            ProviderError::LoadModule { cause } => "Error loading WASM: "@ + cause@,
            ProviderError::StepFailed { step, cause } => step.complaint() + cause@,
            ProviderError::ContainerNotStarted { cause } => "Failed to run pod: "@ + cause@,
            ProviderError::PodNotFound { pod_name } => "cannot find pod "@ + pod_name@,
        }
    }

    /// What the error says.
    pub fn message(&self) -> (message: String)
        ensures
            message@ == self.text(),
    {
        match self {
            ProviderError::InitContainers { pod_name } => concat3(
                "Cannot run ",
                pod_name.as_str(),
                ": spec specifies init containers which are not supported on wasCC",
            ),
            ProviderError::ContainerArgs { container_name } => concat3(
                "Cannot run ",
                container_name.as_str(),
                ": spec specifies container args which are not supported on wasCC",
            ),
            ProviderError::PortInUse { port } => concat3(
                "Port ",
                to_decimal(*port).as_str(),
                " is currently in use",
            ),
            ProviderError::PortAllocation { error } => error.description().to_owned(),
            ProviderError::VolumeNotFound { volume_name, container_name } => concat3(
                "no volume with the name of ",
                volume_name.as_str(),
                " found for container ",
            ).concat(container_name.as_str()),
            ProviderError::LoadModule { cause } => "Error loading WASM: ".to_owned().concat(
                cause.as_str(),
            ),
            ProviderError::StepFailed { step, cause } => step.complaint_text().concat(
                cause.as_str(),
            ),
            ProviderError::ContainerNotStarted { cause } => "Failed to run pod: ".to_owned().concat(
                cause.as_str(),
            ),
            ProviderError::PodNotFound { pod_name } => "cannot find pod ".to_owned().concat(
                pod_name.as_str(),
            ),
        }
    }
}

} // verus!
