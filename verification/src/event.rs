//! Domain events broadcast between subsystems.
//!
//! Message events carry a wall-clock timestamp and travel with the
//! runtime's event bus; the other event kinds are plain data.

use crate::id::{ContainerId, DispatchId, GroupId, ProviderId, TaskId};
use vstd::prelude::*;

verus! {

/// A container changed state.
#[derive(Debug, Clone)]
pub struct ContainerEvent {
    /// The container.
    pub container: ContainerId,
    /// The group it serves.
    pub group: GroupId,
    /// What happened.
    pub kind: ContainerEventKind,
}

/// Container lifecycle transitions.
#[derive(Debug, Clone, Copy, PartialEq, Eq)]
pub enum ContainerEventKind {
    /// The container started.
    Started,
    /// The container completed its handshake.
    Ready,
    /// The container began a job.
    Processing,
    /// The container finished its job.
    Idle,
    /// The container exited.
    Exited,
    /// The container failed.
    Failed,
}

/// A provider's state changed.
#[derive(Debug, Clone)]
pub struct ProviderEvent {
    /// The provider.
    pub provider: ProviderId,
    /// What happened.
    pub kind: ProviderEventKind,
}

/// Provider health and budget transitions.
#[derive(Debug, Clone, Copy, PartialEq, Eq)]
pub enum ProviderEventKind {
    /// The provider answers.
    Healthy,
    /// The provider does not answer.
    Unhealthy,
    /// A budget threshold was crossed.
    BudgetAlert,
    /// The budget is spent.
    BudgetExhausted,
}

/// A Tanren dispatch changed state.
#[derive(Debug, Clone)]
pub struct TanrenEvent {
    /// The dispatch.
    pub dispatch: DispatchId,
    /// What happened.
    pub kind: TanrenEventKind,
}

/// Tanren dispatch transitions.
#[derive(Debug, Clone, Copy, PartialEq, Eq)]
pub enum TanrenEventKind {
    /// The dispatch was submitted.
    Submitted,
    /// The dispatch completed.
    Completed,
    /// The dispatch failed.
    Failed,
}

/// A scheduled task changed state.
#[derive(Debug, Clone)]
pub struct TaskEvent {
    /// The task.
    pub task: TaskId,
    /// What happened.
    pub kind: TaskEventKind,
}

/// Scheduled task transitions.
#[derive(Debug, Clone, Copy, PartialEq, Eq)]
pub enum TaskEventKind {
    /// The task is due.
    Due,
    /// The task completed.
    Completed,
    /// The task failed.
    Failed,
}

/// A component reported its health.
#[derive(Debug, Clone)]
pub struct HealthEvent {
    /// The component.
    pub component: String,
    /// Whether it is healthy.
    pub healthy: bool,
    /// An optional detail.
    pub message: Option<String>,
}

/// Raw IPC traffic observed for a container.
#[derive(Debug, Clone)]
pub struct IpcEvent {
    /// The container.
    pub container: ContainerId,
    /// The payload text.
    pub payload: String,
}

/// Configuration keys changed.
#[derive(Debug, Clone)]
pub struct ConfigEvent {
    /// The dotted keys that changed.
    pub keys_changed: Vec<String>,
}

} // verus!
