//! Protocol semantics gates selected by the negotiated version.
//!
//! Version 1.0 is the baseline. From 1.1 on, three stricter rules apply:
//! `shutdown.deadline_ms` must be positive, a fatal `error` must name its
//! job, and `register_group` must carry `extensions`.

use crate::ipc::error::{IpcError, ProtocolError};
use crate::ipc::message::command::{ClassifiedCommand, PrivilegedCommand};
use crate::ipc::message::{ContainerToHost, HostToContainer};
use crate::ipc::version::NegotiatedProtocolVersion;
use crate::text::owned;
use vstd::prelude::*;

verus! {

/// Version-selected protocol behavior profile.
#[derive(Debug, Clone, Copy, PartialEq, Eq)]
pub enum ProtocolSemantics {
    /// Protocol 1.0 baseline semantics.
    V1_0,
    /// Protocol 1.x semantics for minor versions ≥ 1.1.
    V1_1Plus,
}

/// The profile of a negotiated version: `1.0` (and any other major) is the
/// baseline, `1.x` with `x ≥ 1` is `V1_1Plus`.
pub open spec fn semantics_of(major: u32, minor: u32) -> ProtocolSemantics {
    if major == 1 && minor != 0 {
        ProtocolSemantics::V1_1Plus
    } else {
        ProtocolSemantics::V1_0
    }
}

impl ProtocolSemantics {
    /// Classify a negotiated protocol version into its semantics profile.
    pub fn from_negotiated(version: NegotiatedProtocolVersion) -> (s: Self)
        ensures
            s == semantics_of(version.major_spec(), version.minor_spec()),
    {
        let major = version.major();
        let minor = version.minor();
        if major == 1 && minor != 0 {
            ProtocolSemantics::V1_1Plus
        } else {
            ProtocolSemantics::V1_0
        }
    }
}

/// Whether host → container message `msg` breaks a gate of `sem`.
pub open spec fn host_gate_violated(sem: ProtocolSemantics, msg: HostToContainer) -> bool {
    sem == ProtocolSemantics::V1_1Plus && (msg matches HostToContainer::Shutdown(p)
        && p.deadline_ms == 0)
}

/// Applies the host → container gates: from 1.1, a `shutdown` with a zero
/// deadline is a lifecycle violation.
pub fn validate_host_to_container(sem: ProtocolSemantics, msg: &HostToContainer) -> (r: Result<
    (),
    IpcError,
>)
    ensures
        r is Ok <==> !host_gate_violated(sem, *msg),
        r matches Err(e) ==> (e matches IpcError::Protocol(
            ProtocolError::LifecycleViolation { phase, direction, message_type, reason },
        ) && phase@ == "processing"@ && direction@ == "host_to_container"@ && message_type@
            == "shutdown"@ && reason@ == "protocol >=1.1 requires shutdown.deadline_ms > 0"@),
{
    match sem {
        ProtocolSemantics::V1_0 => Ok(()),
        ProtocolSemantics::V1_1Plus => {
            if let HostToContainer::Shutdown(payload) = msg {
                if payload.deadline_ms == 0 {
                    return Err(
                        IpcError::Protocol(
                            ProtocolError::LifecycleViolation {
                                phase: "processing",
                                direction: "host_to_container",
                                message_type: "shutdown",
                                reason: "protocol >=1.1 requires shutdown.deadline_ms > 0",
                            },
                        ),
                    );
                }
            }
            Ok(())
        },
    }
}

/// Whether container → host message `msg` breaks a gate of `sem`.
pub open spec fn container_gate_violated(sem: ProtocolSemantics, msg: ContainerToHost) -> bool {
    sem == ProtocolSemantics::V1_1Plus && (msg matches ContainerToHost::Error(p) && p.fatal
        && p.job_id is None)
}

/// Applies the container → host gates: from 1.1, a fatal `error` without
/// `job_id` is a lifecycle violation.
pub fn validate_container_to_host(sem: ProtocolSemantics, msg: &ContainerToHost) -> (r: Result<
    (),
    IpcError,
>)
    ensures
        r is Ok <==> !container_gate_violated(sem, *msg),
        r matches Err(e) ==> (e matches IpcError::Protocol(
            ProtocolError::LifecycleViolation { phase, direction, message_type, reason },
        ) && phase@ == "processing"@ && direction@ == "container_to_host"@ && message_type@
            == "error"@ && reason@ == "protocol >=1.1 requires fatal errors to include job_id"@),
{
    match sem {
        ProtocolSemantics::V1_0 => Ok(()),
        ProtocolSemantics::V1_1Plus => {
            if let ContainerToHost::Error(payload) = msg {
                if payload.fatal && payload.job_id.is_none() {
                    return Err(
                        IpcError::Protocol(
                            ProtocolError::LifecycleViolation {
                                phase: "processing",
                                direction: "container_to_host",
                                message_type: "error",
                                reason: "protocol >=1.1 requires fatal errors to include job_id",
                            },
                        ),
                    );
                }
            }
            Ok(())
        },
    }
}

/// Whether classified command `cmd` breaks a gate of `sem`.
pub open spec fn command_gate_violated(sem: ProtocolSemantics, cmd: ClassifiedCommand) -> bool {
    sem == ProtocolSemantics::V1_1Plus && (cmd matches ClassifiedCommand::Privileged(
        PrivilegedCommand::RegisterGroup(p),
    ) && p.extensions is None)
}

/// Applies the command gates: from 1.1, `register_group` must carry
/// `extensions`.
pub fn validate_classified_command(sem: ProtocolSemantics, cmd: &ClassifiedCommand) -> (r: Result<
    (),
    IpcError,
>)
    ensures
        r is Ok <==> !command_gate_violated(sem, *cmd),
        r matches Err(e) ==> (e matches IpcError::Protocol(
            ProtocolError::InvalidCommandPayload { command, reason },
        ) && command@ == "register_group"@ && reason@
            == "protocol >=1.1 requires payload.extensions"@),
{
    match sem {
        ProtocolSemantics::V1_0 => Ok(()),
        ProtocolSemantics::V1_1Plus => {
            if let ClassifiedCommand::Privileged(PrivilegedCommand::RegisterGroup(payload)) = cmd {
                if payload.extensions.is_none() {
                    return Err(
                        IpcError::Protocol(
                            ProtocolError::InvalidCommandPayload {
                                command: "register_group",
                                reason: owned("protocol >=1.1 requires payload.extensions"),
                            },
                        ),
                    );
                }
            }
            Ok(())
        },
    }
}

/// Baseline semantics never reject a message or command.
pub proof fn lemma_baseline_accepts_all(h: HostToContainer, c: ContainerToHost, k: ClassifiedCommand)
    ensures
        !host_gate_violated(ProtocolSemantics::V1_0, h),
        !container_gate_violated(ProtocolSemantics::V1_0, c),
        !command_gate_violated(ProtocolSemantics::V1_0, k),
{
}

} // verus!
