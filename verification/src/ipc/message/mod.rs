//! Protocol message types: the two top-level enums and everything they
//! carry, with the wire constraints of each field held as type invariants.
//!
//! On the wire each message is a JSON object whose `type` field names the
//! variant in snake case (`ready`, `output_delta`, …).

pub mod authorized;
pub mod bounded_text;
pub mod collections;
pub mod command;
pub mod container_to_host;
pub mod extensions;
pub mod host_to_container;
pub mod shared;
pub mod time;
pub mod url;

use crate::ipc::message::command::CommandPayload;
use crate::ipc::message::container_to_host::{
    ErrorPayload, HeartbeatPayload, OutputCompletePayload, OutputDeltaPayload, ProgressPayload,
    ReadyPayload,
};
use crate::ipc::message::host_to_container::{InitPayload, MessagesPayload, ShutdownPayload};
use crate::text::str_eq;
use vstd::prelude::*;

verus! {

/// A message sent from an agent container to the host.
#[derive(Debug, PartialEq)]
pub enum ContainerToHost {
    /// `ready` — adapter has initialized and is ready to receive work.
    Ready(ReadyPayload),
    /// `output_delta` — incremental text chunk streamed from the model.
    OutputDelta(OutputDeltaPayload),
    /// `output_complete` — final result for a job.
    OutputComplete(OutputCompletePayload),
    /// `progress` — optional progress signal for long-running work.
    Progress(ProgressPayload),
    /// `command` — agent-to-host command.
    Command(CommandPayload),
    /// `error` — adapter reports an error.
    Error(ErrorPayload),
    /// `heartbeat` — periodic liveness signal.
    Heartbeat(HeartbeatPayload),
}

/// The wire `type` of a container → host message.
pub open spec fn container_wire_type(m: ContainerToHost) -> Seq<char> {
    match m {
        ContainerToHost::Ready(_) => "ready"@,
        ContainerToHost::OutputDelta(_) => "output_delta"@,
        ContainerToHost::OutputComplete(_) => "output_complete"@,
        ContainerToHost::Progress(_) => "progress"@,
        ContainerToHost::Command(_) => "command"@,
        ContainerToHost::Error(_) => "error"@,
        ContainerToHost::Heartbeat(_) => "heartbeat"@,
    }
}

/// The `type` values a container → host message may carry.
pub open spec fn is_known_container_type(t: Seq<char>) -> bool {
    ||| t == "ready"@
    ||| t == "output_delta"@
    ||| t == "output_complete"@
    ||| t == "progress"@
    ||| t == "command"@
    ||| t == "error"@
    ||| t == "heartbeat"@
}

impl ContainerToHost {
    /// The wire `type` name of this message.
    pub fn wire_type(&self) -> (s: &'static str)
        ensures
            s@ == container_wire_type(*self),
    {
        match self {
            ContainerToHost::Ready(_) => "ready",
            ContainerToHost::OutputDelta(_) => "output_delta",
            ContainerToHost::OutputComplete(_) => "output_complete",
            ContainerToHost::Progress(_) => "progress",
            ContainerToHost::Command(_) => "command",
            ContainerToHost::Error(_) => "error",
            ContainerToHost::Heartbeat(_) => "heartbeat",
        }
    }

    /// The `type` discriminator values this crate recognizes.
    pub fn known_types() -> (v: Vec<&'static str>)
        ensures
            v@.len() == 7,
            forall|i: int| 0 <= i < v@.len() ==> is_known_container_type(#[trigger] v@[i]@),
    {
        vec!["ready", "output_delta", "output_complete", "progress", "command", "error", "heartbeat"]
    }

    /// Whether `t` is a recognized `type` value.
    pub fn is_known_type(t: &str) -> (r: bool)
        ensures
            r == is_known_container_type(t@),
    {
        str_eq(t, "ready") || str_eq(t, "output_delta") || str_eq(t, "output_complete")
            || str_eq(t, "progress") || str_eq(t, "command") || str_eq(t, "error") || str_eq(
            t,
            "heartbeat",
        )
    }
}

/// A message sent from the host to an agent container.
#[derive(Debug, PartialEq)]
pub enum HostToContainer {
    /// `init` — initial context and configuration for a job.
    Init(InitPayload),
    /// `messages` — follow-up messages for an in-flight job.
    Messages(MessagesPayload),
    /// `shutdown` — request graceful shutdown.
    Shutdown(ShutdownPayload),
}

/// The wire `type` of a host → container message.
pub open spec fn host_wire_type(m: HostToContainer) -> Seq<char> {
    match m {
        HostToContainer::Init(_) => "init"@,
        HostToContainer::Messages(_) => "messages"@,
        HostToContainer::Shutdown(_) => "shutdown"@,
    }
}

/// The `type` values a host → container message may carry.
pub open spec fn is_known_host_type(t: Seq<char>) -> bool {
    t == "init"@ || t == "messages"@ || t == "shutdown"@
}

impl HostToContainer {
    /// The wire `type` name of this message.
    pub fn wire_type(&self) -> (s: &'static str)
        ensures
            s@ == host_wire_type(*self),
    {
        match self {
            HostToContainer::Init(_) => "init",
            HostToContainer::Messages(_) => "messages",
            HostToContainer::Shutdown(_) => "shutdown",
        }
    }

    /// The `type` discriminator values this crate recognizes.
    pub fn known_types() -> (v: Vec<&'static str>)
        ensures
            v@.len() == 3,
            forall|i: int| 0 <= i < v@.len() ==> is_known_host_type(#[trigger] v@[i]@),
    {
        vec!["init", "messages", "shutdown"]
    }

    /// Whether `t` is a recognized `type` value.
    pub fn is_known_type(t: &str) -> (r: bool)
        ensures
            r == is_known_host_type(t@),
    {
        str_eq(t, "init") || str_eq(t, "messages") || str_eq(t, "shutdown")
    }
}

} // verus!
