use crate::capability::{Capability, CapabilityView};
use crate::error::ProviderError;
use crate::status::{StoppedStatus, StoppedStatusView};
use crate::text::concat3;
use vstd::prelude::*;

verus! {

/// A capability provider that is compiled into the node agent.
#[derive(Debug, Clone, Copy, PartialEq, Eq, Structural)]
pub enum NativeCapability {
    Http,
    Logging,
    FileSystem,
}

impl NativeCapability {
    /// How messages call the capability.
    pub open spec fn label(self) -> Seq<char> {
        match self {
            NativeCapability::Http => "HTTP"@,
            NativeCapability::Logging => "log"@,
            NativeCapability::FileSystem => "File System"@,
        }
    }

    fn label_text(self) -> (text: &'static str)
        ensures
            text@ == self.label(),
    {
        match self {
            NativeCapability::Http => "HTTP",
            NativeCapability::Logging => "log",
            NativeCapability::FileSystem => "File System",
        }
    }
}

/// A step that is carried out on the machine and can fail there.
#[derive(Debug, Clone, Copy, PartialEq, Eq, Structural)]
pub enum Step {
    CreateDirectory,
    InstantiateCapability(NativeCapability),
    AddCapability(NativeCapability),
    AddActor,
    BindActor,
    RemoveActor,
    RemoveCapability,
    StopPod,
    ReplaceStatus,
    DeletePod,
}

impl Step {
    /// What a message says in front of the cause when the step has failed.
    pub open spec fn complaint(self) -> Seq<char> {
        match self {
            Step::CreateDirectory => ""@,
            Step::InstantiateCapability(capability) => "Failed to instantiate "@
                + capability.label() + " capability: "@,
            Step::AddCapability(capability) => "Failed to add "@ + capability.label()
                + " capability: "@,
            Step::AddActor => "Error adding actor: "@,
            Step::BindActor => "Error configuring capabilities for module: "@,
            Step::RemoveActor => "unable to remove actor: "@,
            Step::RemoveCapability => "unable to remove volume capability: "@,
            Step::StopPod => ""@,
            Step::ReplaceStatus => ""@,
            Step::DeletePod => ""@,
        }
    }

    /// What a message says in front of the cause when the step has failed.
    pub fn complaint_text(self) -> (text: String)
        ensures
            text@ == self.complaint(),
    {
        match self {
            Step::CreateDirectory => "".to_owned(),
            Step::InstantiateCapability(capability) => concat3(
                "Failed to instantiate ",
                capability.label_text(),
                " capability: ",
            ),
            Step::AddCapability(capability) => concat3(
                "Failed to add ",
                capability.label_text(),
                " capability: ",
            ),
            Step::AddActor => "Error adding actor: ".to_owned(),
            Step::BindActor => "Error configuring capabilities for module: ".to_owned(),
            Step::RemoveActor => "unable to remove actor: ".to_owned(),
            Step::RemoveCapability => "unable to remove volume capability: ".to_owned(),
            Step::StopPod => "".to_owned(),
            Step::ReplaceStatus => "".to_owned(),
            Step::DeletePod => "".to_owned(),
        }
    }
}

/// Something to be done on the machine.
pub enum Command {
    /// Create the directory of this name, and those above it, in the data directory.
    CreateDirectory { name: &'static str },
    /// Make an instance of the capability provider, for the binding of this name.
    InstantiateCapability { native: NativeCapability, binding: Option<String> },
    /// Register the instance made last with the waSCC host.
    AddCapability { native: NativeCapability },
    /// Hand the actor to the waSCC host.
    AddActor,
    /// Configure the capability for the actor with this public key.
    BindActor { key: String, capability: Capability },
    /// Take the actor with this public key off the waSCC host.
    RemoveActor { key: String },
    /// Take the capability provider off the waSCC host.
    RemoveCapability { name: &'static str, binding: Option<String> },
    /// Stop every container of the pod.
    StopPod,
    /// Replace the status of the pod of this name in this namespace.
    ReplaceStatus { namespace: String, pod_name: String, status: StoppedStatus },
    /// Delete the pod of this name in this namespace, once so many seconds have gone by.
    DeletePod { namespace: String, pod_name: String, grace_period_seconds: u32 },
}

/// What a command is made of.
#[verifier::ext_equal]
pub enum CommandView {
    CreateDirectory { name: Seq<char> },
    InstantiateCapability { native: NativeCapability, binding: Option<Seq<char>> },
    AddCapability { native: NativeCapability },
    AddActor,
    BindActor { key: Seq<char>, capability: CapabilityView },
    RemoveActor { key: Seq<char> },
    RemoveCapability { name: Seq<char>, binding: Option<Seq<char>> },
    StopPod,
    ReplaceStatus { namespace: Seq<char>, pod_name: Seq<char>, status: StoppedStatusView },
    DeletePod { namespace: Seq<char>, pod_name: Seq<char>, grace_period_seconds: u32 },
}

impl View for Command {
    type V = CommandView;

    open spec fn view(&self) -> CommandView {
        match self {
            Command::CreateDirectory { name } => CommandView::CreateDirectory { name: name@ },
            Command::InstantiateCapability {
                native,
                binding,
            } => CommandView::InstantiateCapability {
                native: *native,
                binding: crate::text::optional_text(*binding),
            },
            Command::AddCapability { native } => CommandView::AddCapability { native: *native },
            Command::AddActor => CommandView::AddActor,
            Command::BindActor { key, capability } => CommandView::BindActor {
                key: key@,
                capability: capability@,
            },
            Command::RemoveActor { key } => CommandView::RemoveActor { key: key@ },
            Command::RemoveCapability { name, binding } => CommandView::RemoveCapability {
                name: name@,
                binding: crate::text::optional_text(*binding),
            },
            Command::StopPod => CommandView::StopPod,
            Command::ReplaceStatus {
                namespace,
                pod_name,
                status,
            } => CommandView::ReplaceStatus {
                namespace: namespace@,
                pod_name: pod_name@,
                status: status@,
            },
            Command::DeletePod {
                namespace,
                pod_name,
                grace_period_seconds,
            } => CommandView::DeletePod {
                namespace: namespace@,
                pod_name: pod_name@,
                grace_period_seconds: *grace_period_seconds,
            },
        }
    }
}

impl CommandView {
    /// The kind of step that the command is.
    pub open spec fn step(self) -> Step {
        match self {
            CommandView::CreateDirectory { .. } => Step::CreateDirectory,
            CommandView::InstantiateCapability { native, .. } => Step::InstantiateCapability(
                native,
            ),
            CommandView::AddCapability { native } => Step::AddCapability(native),
            CommandView::AddActor => Step::AddActor,
            CommandView::BindActor { .. } => Step::BindActor,
            CommandView::RemoveActor { .. } => Step::RemoveActor,
            CommandView::RemoveCapability { .. } => Step::RemoveCapability,
            CommandView::StopPod => Step::StopPod,
            CommandView::ReplaceStatus { .. } => Step::ReplaceStatus,
            CommandView::DeletePod { .. } => Step::DeletePod,
        }
    }
}

impl Command {
    /// The kind of step that the command is.
    pub fn step(&self) -> (step: Step)
        ensures
            step == self@.step(),
    {
        match self {
            Command::CreateDirectory { .. } => Step::CreateDirectory,
            Command::InstantiateCapability { native, .. } => Step::InstantiateCapability(*native),
            Command::AddCapability { native } => Step::AddCapability(*native),
            Command::AddActor => Step::AddActor,
            Command::BindActor { .. } => Step::BindActor,
            Command::RemoveActor { .. } => Step::RemoveActor,
            Command::RemoveCapability { .. } => Step::RemoveCapability,
            Command::StopPod => Step::StopPod,
            Command::ReplaceStatus { .. } => Step::ReplaceStatus,
            Command::DeletePod { .. } => Step::DeletePod,
        }
    }
}

/// The views of the commands.
pub open spec fn command_views(commands: Seq<Command>) -> Seq<CommandView> {
    commands.map_values(|command: Command| command@)
}

/// Commands to be carried out one after the other, until one of them fails.
pub struct Script {
    commands: Vec<Command>,
    done: usize,
    failed: bool,
}

/// How far a script has been carried out.
#[verifier::ext_equal]
pub struct ScriptView {
    pub commands: Seq<CommandView>,
    /// How many of the commands have succeeded.
    pub done: int,
    /// Whether the command after those has failed.
    pub failed: bool,
}

impl View for Script {
    type V = ScriptView;

    closed spec fn view(&self) -> ScriptView {
        ScriptView {
            commands: command_views(self.commands@),
            done: self.done as int,
            failed: self.failed,
        }
    }
}

impl ScriptView {
    /// A script of which nothing has been carried out.
    pub open spec fn fresh(commands: Seq<CommandView>) -> ScriptView {
        ScriptView { commands, done: 0, failed: false }
    }

    /// The command to be carried out next.
    pub open spec fn pending(self) -> Option<CommandView> {
        if !self.failed && self.done < self.commands.len() {
            Some(self.commands[self.done])
        } else {
            None
        }
    }

    /// Whether every command has succeeded.
    pub open spec fn completed(self) -> bool {
        !self.failed && self.done == self.commands.len()
    }

    /// The script once the pending command has succeeded or failed.
    pub open spec fn after(self, success: bool) -> ScriptView {
        if success {
            ScriptView { done: self.done + 1, ..self }
        } else {
            ScriptView { failed: true, ..self }
        }
    }
}

impl Script {
    #[verifier::type_invariant]
    spec fn wf(&self) -> bool {
        self.done <= self.commands@.len()
    }

    /// A script of which nothing has been carried out.
    pub fn new(commands: Vec<Command>) -> (script: Script)
        ensures
            script@ == ScriptView::fresh(command_views(commands@)),
    {
        Script { commands, done: 0, failed: false }
    }

    /// The command to be carried out next.
    pub fn pending(&self) -> (command: Option<&Command>)
        ensures
            match command {
                Some(command) => self@.pending() == Some(command@),
                None => self@.pending() is None,
            },
    {
        if !self.failed && self.done < self.commands.len() {
            Some(&self.commands[self.done])
        } else {
            None
        }
    }

    /// Whether every command has succeeded.
    pub fn is_completed(&self) -> (completed: bool)
        ensures
            completed == self@.completed(),
    {
        !self.failed && self.done == self.commands.len()
    }

    /// Takes note of how the pending command went. If it failed, so has the script.
    pub fn record(&mut self, reply: Result<(), String>) -> (outcome: Result<(), ProviderError>)
        requires
            old(self)@.pending() is Some,
        ensures
            final(self)@ == old(self)@.after(reply is Ok),
            outcome == match reply {
                Ok(_) => Ok::<(), ProviderError>(()),
                Err(cause) => Err(
                    ProviderError::StepFailed { step: old(self)@.pending()->0.step(), cause },
                ),
            },
    {
        match reply {
            Ok(_) => {
                assert(self.done < self.commands.len());
                self.done = self.done + 1;
                Ok(())
            },
            Err(cause) => {
                self.failed = true;
                Err(ProviderError::StepFailed { step: self.commands[self.done].step(), cause })
            },
        }
    }
}

} // verus!
