//! The logic of a kubelet backend that runs [waSCC](https://wascc.dev/) based workloads.
//!
//! [`WasccProvider`] keeps the pods that run and the ports that they hold. What is to be done on
//! the machine, such as on a waSCC host, is handed out as commands ([`script::Script`]), to which
//! the caller replies.

pub mod actor;
pub mod addition;
pub mod assignment;
pub mod capability;
pub mod error;
pub mod laws;
pub mod pod;
pub mod ports;
pub mod provider;
pub mod script;
pub mod status;
pub mod string_map;
pub mod text;

pub use actor::ActorHandle;
pub use provider::WasccProvider;
