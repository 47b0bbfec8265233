//! Typed command payloads carried by `command` messages.

use crate::id::{GroupId, TaskId};
use crate::ipc::message::bounded_text::{
    BranchName, ContextModeText, EnvironmentProfileText, GroupName, MessageText, ProjectName,
    PromptText, ScheduleValueText,
};
use crate::ipc::message::collections::SelfImprovementListItems;
use crate::ipc::message::extensions::GroupExtensions;
use vstd::prelude::*;

verus! {

/// The type of schedule for a scheduled task.
#[derive(Debug, Clone, Copy, PartialEq, Eq)]
pub enum ScheduleType {
    /// Cron expression schedule.
    Cron,
    /// Fixed-interval schedule.
    Interval,
    /// Single execution at a specific time.
    Once,
}

/// Tanren execution phase.
#[derive(Debug, Clone, Copy, PartialEq, Eq)]
pub enum TanrenPhase {
    /// Execute the primary task.
    DoTask,
    /// Run gate checks (tests, lints).
    Gate,
    /// Perform a code audit (wire name: `audit-task`).
    AuditTask,
}

/// Branch strategy for self-improvement dispatches.
#[derive(Debug, Clone, Copy, PartialEq, Eq)]
pub enum BranchPolicy {
    /// Create a new branch for the work.
    Create,
    /// Reuse an existing branch.
    Reuse,
}

/// Send a chat message to a group.
#[derive(Debug, Clone, PartialEq, Eq)]
pub struct SendMessagePayload {
    /// Group to send the message to.
    pub target_group: GroupId,
    /// Message text.
    pub text: MessageText,
}

/// Schedule a recurring or one-off task.
#[derive(Debug, Clone, PartialEq, Eq)]
pub struct ScheduleTaskPayload {
    /// Group to schedule the task for.
    pub group: GroupId,
    /// Schedule type.
    pub schedule_type: ScheduleType,
    /// Schedule value (cron expression, duration, or timestamp).
    pub schedule_value: ScheduleValueText,
    /// The prompt to execute on each run.
    pub prompt: PromptText,
    /// Optional context mode override.
    pub context_mode: Option<ContextModeText>,
}

/// Pause a previously scheduled task.
#[derive(Debug, Clone, PartialEq, Eq)]
pub struct PauseTaskPayload {
    /// Task to pause.
    pub task_id: TaskId,
}

/// Cancel a previously scheduled task.
#[derive(Debug, Clone, PartialEq, Eq)]
pub struct CancelTaskPayload {
    /// Task to cancel.
    pub task_id: TaskId,
}

/// Register a new group.
#[derive(Debug, PartialEq)]
pub struct RegisterGroupPayload {
    /// Human-readable group name.
    pub name: GroupName,
    /// Additional, versioned group configuration.
    pub extensions: Option<GroupExtensions>,
}

/// Dispatch a Tanren job.
#[derive(Debug, Clone, PartialEq, Eq)]
pub struct DispatchTanrenPayload {
    /// Target project name.
    pub project: ProjectName,
    /// Git branch to work on.
    pub branch: BranchName,
    /// Tanren execution phase.
    pub phase: TanrenPhase,
    /// Prompt / instructions for the dispatch.
    pub prompt: PromptText,
    /// Optional environment profile override.
    pub environment_profile: Option<EnvironmentProfileText>,
}

/// Dispatch a self-improvement job.
#[derive(Debug, Clone, PartialEq, Eq)]
pub struct DispatchSelfImprovementPayload {
    /// Human-readable objective for the improvement.
    pub objective: PromptText,
    /// Scope constraints (e.g. which crates or subsystems).
    pub scopes: SelfImprovementListItems,
    /// Acceptance tests that must pass for the improvement to land.
    pub acceptance_tests: SelfImprovementListItems,
    /// Branch strategy for this improvement.
    pub branch_policy: BranchPolicy,
}

/// The set of commands an agent may issue to the host.
#[derive(Debug, PartialEq)]
pub enum CommandBody {
    /// Send a chat message to a group.
    SendMessage(SendMessagePayload),
    /// Schedule a recurring or one-off task.
    ScheduleTask(ScheduleTaskPayload),
    /// Pause a previously scheduled task.
    PauseTask(PauseTaskPayload),
    /// Cancel a previously scheduled task.
    CancelTask(CancelTaskPayload),
    /// Register a new group (main-only).
    RegisterGroup(RegisterGroupPayload),
    /// Dispatch a Tanren job.
    DispatchTanren(DispatchTanrenPayload),
    /// Dispatch a self-improvement job (main-only).
    DispatchSelfImprovement(DispatchSelfImprovementPayload),
}

/// Commands that require main-group privilege.
pub open spec fn command_is_privileged(c: CommandBody) -> bool {
    c is RegisterGroup || c is DispatchSelfImprovement
}

/// Commands available to any agent (scope checks are the router's).
#[derive(Debug, PartialEq)]
pub enum ScopedCommand {
    /// Send a chat message to a group.
    SendMessage(SendMessagePayload),
    /// Schedule a recurring or one-off task.
    ScheduleTask(ScheduleTaskPayload),
    /// Pause a previously scheduled task.
    PauseTask(PauseTaskPayload),
    /// Cancel a previously scheduled task.
    CancelTask(CancelTaskPayload),
    /// Dispatch a Tanren job.
    DispatchTanren(DispatchTanrenPayload),
}

/// Commands restricted to the main agent.
#[derive(Debug, PartialEq)]
pub enum PrivilegedCommand {
    /// Register a new group.
    RegisterGroup(RegisterGroupPayload),
    /// Dispatch a self-improvement job.
    DispatchSelfImprovement(DispatchSelfImprovementPayload),
}

/// A command classified by privilege level.
#[derive(Debug, PartialEq)]
pub enum ClassifiedCommand {
    /// A scoped command any agent may attempt.
    Scoped(ScopedCommand),
    /// A privileged command only the main agent may issue.
    Privileged(PrivilegedCommand),
}

/// The classification of `c`: the same payload under its privilege class.
pub open spec fn classify_spec(c: CommandBody) -> ClassifiedCommand {
    match c {
        CommandBody::SendMessage(p) => ClassifiedCommand::Scoped(ScopedCommand::SendMessage(p)),
        CommandBody::ScheduleTask(p) => ClassifiedCommand::Scoped(ScopedCommand::ScheduleTask(p)),
        CommandBody::PauseTask(p) => ClassifiedCommand::Scoped(ScopedCommand::PauseTask(p)),
        CommandBody::CancelTask(p) => ClassifiedCommand::Scoped(ScopedCommand::CancelTask(p)),
        CommandBody::DispatchTanren(p) => ClassifiedCommand::Scoped(
            ScopedCommand::DispatchTanren(p),
        ),
        CommandBody::RegisterGroup(p) => ClassifiedCommand::Privileged(
            PrivilegedCommand::RegisterGroup(p),
        ),
        CommandBody::DispatchSelfImprovement(p) => ClassifiedCommand::Privileged(
            PrivilegedCommand::DispatchSelfImprovement(p),
        ),
    }
}

impl CommandBody {
    /// Returns `true` if this command requires main-group privilege.
    pub fn is_privileged(&self) -> (r: bool)
        ensures
            r == command_is_privileged(*self),
    {
        match self {
            CommandBody::RegisterGroup(_) | CommandBody::DispatchSelfImprovement(_) => true,
            _ => false,
        }
    }

    /// Classify into the privilege-separated type system.
    pub fn classify(self) -> (r: ClassifiedCommand)
        ensures
            r == classify_spec(self),
    {
        match self {
            CommandBody::SendMessage(p) => ClassifiedCommand::Scoped(ScopedCommand::SendMessage(p)),
            CommandBody::ScheduleTask(p) => ClassifiedCommand::Scoped(
                ScopedCommand::ScheduleTask(p),
            ),
            CommandBody::PauseTask(p) => ClassifiedCommand::Scoped(ScopedCommand::PauseTask(p)),
            CommandBody::CancelTask(p) => ClassifiedCommand::Scoped(ScopedCommand::CancelTask(p)),
            CommandBody::DispatchTanren(p) => ClassifiedCommand::Scoped(
                ScopedCommand::DispatchTanren(p),
            ),
            CommandBody::RegisterGroup(p) => ClassifiedCommand::Privileged(
                PrivilegedCommand::RegisterGroup(p),
            ),
            CommandBody::DispatchSelfImprovement(p) => ClassifiedCommand::Privileged(
                PrivilegedCommand::DispatchSelfImprovement(p),
            ),
        }
    }
}

/// A command is privileged exactly when it classifies as privileged.
pub proof fn lemma_classify_matches_privilege(c: CommandBody)
    ensures
        command_is_privileged(c) <==> classify_spec(c) is Privileged,
{
}

/// `command` — IPC command from the agent to the host.
#[derive(Debug, PartialEq)]
pub struct CommandPayload {
    /// The command discriminator and its associated payload.
    pub body: CommandBody,
}

} // verus!
