//! Commands that have passed IPC-layer authorization.
//!
//! Commands are separated into scoped and privileged categories so
//! downstream handlers can enforce category-specific APIs. Task pause and
//! cancel carry an [`OwnershipPending`] wrapper: the IPC layer cannot
//! resolve task ownership, so the caller must present the owning group.

use crate::id::GroupId;
use crate::ipc::error::{IpcError, ProtocolError};
use crate::ipc::message::command::{
    CancelTaskPayload, DispatchSelfImprovementPayload, DispatchTanrenPayload, PauseTaskPayload,
    RegisterGroupPayload, ScheduleTaskPayload, SendMessagePayload,
};
use vstd::prelude::*;

verus! {

/// A command that has passed IPC-layer authorization.
#[derive(Debug)]
pub enum AuthorizedCommand {
    /// Command available to all groups (subject to scope checks).
    Scoped(ScopedAuthorizedCommand),
    /// Command restricted to the main group.
    Privileged(PrivilegedAuthorizedCommand),
}

impl AuthorizedCommand {
    /// The scoped command, if this command is scoped.
    pub fn into_scoped(self) -> (r: Option<ScopedAuthorizedCommand>)
        ensures
            match self {
                AuthorizedCommand::Scoped(c) => r == Some(c),
                AuthorizedCommand::Privileged(_) => r is None,
            },
    {
        match self {
            AuthorizedCommand::Scoped(cmd) => Some(cmd),
            AuthorizedCommand::Privileged(_) => None,
        }
    }

    /// The privileged command, if this command is privileged.
    pub fn into_privileged(self) -> (r: Option<PrivilegedAuthorizedCommand>)
        ensures
            match self {
                AuthorizedCommand::Privileged(c) => r == Some(c),
                AuthorizedCommand::Scoped(_) => r is None,
            },
    {
        match self {
            AuthorizedCommand::Privileged(cmd) => Some(cmd),
            AuthorizedCommand::Scoped(_) => None,
        }
    }

    /// Borrow the scoped command, if this command is scoped.
    pub fn as_scoped(&self) -> (r: Option<&ScopedAuthorizedCommand>)
        ensures
            match *self {
                AuthorizedCommand::Scoped(c) => r == Some(&c),
                AuthorizedCommand::Privileged(_) => r is None,
            },
    {
        match self {
            AuthorizedCommand::Scoped(cmd) => Some(cmd),
            AuthorizedCommand::Privileged(_) => None,
        }
    }

    /// Borrow the privileged command, if this command is privileged.
    pub fn as_privileged(&self) -> (r: Option<&PrivilegedAuthorizedCommand>)
        ensures
            match *self {
                AuthorizedCommand::Privileged(c) => r == Some(&c),
                AuthorizedCommand::Scoped(_) => r is None,
            },
    {
        match self {
            AuthorizedCommand::Privileged(cmd) => Some(cmd),
            AuthorizedCommand::Scoped(_) => None,
        }
    }
}

impl From<ScopedAuthorizedCommand> for AuthorizedCommand {
    fn from(value: ScopedAuthorizedCommand) -> (r: AuthorizedCommand) {
        AuthorizedCommand::Scoped(value)
    }
}

impl vstd::std_specs::convert::FromSpecImpl<ScopedAuthorizedCommand> for AuthorizedCommand {
    open spec fn obeys_from_spec() -> bool {
        true
    }

    open spec fn from_spec(value: ScopedAuthorizedCommand) -> AuthorizedCommand {
        AuthorizedCommand::Scoped(value)
    }
}

impl From<PrivilegedAuthorizedCommand> for AuthorizedCommand {
    fn from(value: PrivilegedAuthorizedCommand) -> (r: AuthorizedCommand) {
        AuthorizedCommand::Privileged(value)
    }
}

impl vstd::std_specs::convert::FromSpecImpl<PrivilegedAuthorizedCommand> for AuthorizedCommand {
    open spec fn obeys_from_spec() -> bool {
        true
    }

    open spec fn from_spec(value: PrivilegedAuthorizedCommand) -> AuthorizedCommand {
        AuthorizedCommand::Privileged(value)
    }
}

/// Public command category for non-main-safe commands.
#[derive(Debug)]
pub enum ScopedAuthorizedCommand {
    /// Send a chat message (group scope verified).
    SendMessage(SendMessagePayload),
    /// Schedule a task (group scope verified).
    ScheduleTask(ScheduleTaskPayload),
    /// Dispatch a Tanren job (capability verified).
    DispatchTanren(DispatchTanrenPayload),
    /// Pause a task (ownership must be verified by caller).
    PauseTask(OwnershipPending<PauseTaskPayload>),
    /// Cancel a task (ownership must be verified by caller).
    CancelTask(OwnershipPending<CancelTaskPayload>),
}

/// Public command category for main-only commands.
#[derive(Debug)]
pub enum PrivilegedAuthorizedCommand {
    /// Register a new group (main-only, verified).
    RegisterGroup(RegisterGroupPayload),
    /// Dispatch a self-improvement job (main-only, verified).
    DispatchSelfImprovement(DispatchSelfImprovementPayload),
}

/// A payload whose target resource's ownership the caller must still
/// verify.
#[derive(Debug)]
pub struct OwnershipPending<T> {
    payload: T,
    session_group: GroupId,
    is_main: bool,
}

impl<T> OwnershipPending<T> {
    /// The wrapped payload.
    pub closed spec fn payload_spec(&self) -> T {
        self.payload
    }

    /// The issuing session's group.
    pub closed spec fn session_group_spec(&self) -> Seq<char> {
        self.session_group@
    }

    /// Whether the issuing session is the main group.
    pub closed spec fn is_main_spec(&self) -> bool {
        self.is_main
    }

    /// Create a new pending-ownership wrapper.
    pub fn new(payload: T, session_group: GroupId, is_main: bool) -> (r: Self)
        ensures
            r.payload_spec() == payload,
            r.session_group_spec() == session_group@,
            r.is_main_spec() == is_main,
    {
        OwnershipPending { payload, session_group, is_main }
    }

    /// Verify the task belongs to `owning_group`; main sessions always
    /// pass. Otherwise the command is `Unauthorized`.
    pub fn verify(self, owning_group: &GroupId) -> (r: Result<T, IpcError>)
        ensures
            r is Ok <==> (self.is_main_spec() || self.session_group_spec() == owning_group@),
            r matches Ok(p) ==> p == self.payload_spec(),
            r matches Err(e) ==> (e matches IpcError::Protocol(
                ProtocolError::Unauthorized { command, reason },
            ) && command@ == "task_operation"@ && reason@ == "task not owned by session group"@),
    {
        if self.is_main || self.session_group.same_as(owning_group) {
            Ok(self.payload)
        } else {
            Err(
                IpcError::Protocol(
                    ProtocolError::Unauthorized {
                        command: "task_operation",
                        reason: "task not owned by session group",
                    },
                ),
            )
        }
    }

    /// The group identity of the session that issued this command.
    pub fn session_group(&self) -> (g: &GroupId)
        ensures
            g@ == self.session_group_spec(),
    {
        &self.session_group
    }

    /// Whether the issuing session is the main group.
    pub fn is_main(&self) -> (b: bool)
        ensures
            b == self.is_main_spec(),
    {
        self.is_main
    }
}

} // verus!
