//! Connection lifecycle rules shared by both peers.
//!
//! After the handshake a connection is `processing` a job. The host may
//! send follow-up `messages` for the active job (which also start a new
//! job when the connection is `idle`) and one `shutdown`, which moves it to
//! `draining`. The container streams output for the active job while
//! processing; its `output_complete` moves `processing` to `idle`, or
//! `draining` to `closed`, after which nothing further is legal.

use crate::id::JobId;
use crate::ipc::error::{IpcError, ProtocolError};
use crate::ipc::message::command::{CommandBody, CommandPayload};
use crate::ipc::message::extensions::encoded_within_bound;
use crate::ipc::message::{container_wire_type, host_wire_type, ContainerToHost, HostToContainer};
use vstd::prelude::*;

verus! {

/// Runtime lifecycle phase after handshake.
#[derive(Debug, Clone, Copy, PartialEq, Eq)]
pub enum ConnectionPhase {
    /// Container is processing a job.
    Processing,
    /// Container is connected but idle.
    Idle,
    /// Host requested shutdown and is waiting for completion.
    DrainingAwaitingCompletion,
    /// Terminal phase: the connection must close and reject further traffic.
    Closed,
}

/// The name of a phase as reported in errors.
pub open spec fn phase_name(p: ConnectionPhase) -> Seq<char> {
    match p {
        ConnectionPhase::Processing => "processing"@,
        ConnectionPhase::Idle => "idle"@,
        ConnectionPhase::DrainingAwaitingCompletion => "draining"@,
        ConnectionPhase::Closed => "closed"@,
    }
}

impl ConnectionPhase {
    /// The name of this phase as reported in errors.
    pub fn as_str(self) -> (s: &'static str)
        ensures
            s@ == phase_name(self),
    {
        match self {
            ConnectionPhase::Processing => "processing",
            ConnectionPhase::Idle => "idle",
            ConnectionPhase::DrainingAwaitingCompletion => "draining",
            ConnectionPhase::Closed => "closed",
        }
    }
}

/// Side effect a transition asks of the caller.
#[derive(Debug, Clone, Copy, PartialEq, Eq)]
pub enum LifecycleAction {
    /// Nothing to do: keep the connection open.
    Continue,
    /// Close the connection once the current frame has been handled.
    CloseAfterCurrentFrame,
}

impl LifecycleAction {
    /// Whether the caller must close after the current frame.
    pub fn should_close_after_frame(self) -> (r: bool)
        ensures
            r == (self is CloseAfterCurrentFrame),
    {
        match self {
            LifecycleAction::CloseAfterCurrentFrame => true,
            LifecycleAction::Continue => false,
        }
    }
}

/// Per-connection lifecycle state: the phase and the active job.
#[derive(Debug)]
pub struct LifecycleState {
    phase: ConnectionPhase,
    active_job_id: JobId,
}

impl LifecycleState {
    /// The current phase.
    pub closed spec fn phase_spec(&self) -> ConnectionPhase {
        self.phase
    }

    /// The active job.
    pub closed spec fn job_spec(&self) -> Seq<char> {
        self.active_job_id@
    }

    /// A fresh state, processing `active_job_id`.
    pub fn new(active_job_id: JobId) -> (s: Self)
        ensures
            s.phase_spec() == ConnectionPhase::Processing,
            s.job_spec() == active_job_id@,
    {
        LifecycleState { phase: ConnectionPhase::Processing, active_job_id }
    }

    /// The name of the current phase.
    pub fn phase_name(&self) -> (s: &'static str)
        ensures
            s@ == phase_name(self.phase_spec()),
    {
        self.phase.as_str()
    }

    /// The current phase.
    pub fn phase(&self) -> (p: ConnectionPhase)
        ensures
            p == self.phase_spec(),
    {
        self.phase
    }

    /// The active job.
    pub fn active_job_id(&self) -> (j: &JobId)
        ensures
            j@ == self.job_spec(),
    {
        &self.active_job_id
    }
}

impl Clone for LifecycleState {
    fn clone(&self) -> (r: Self)
        ensures
            r.phase_spec() == self.phase_spec(),
            r.job_spec() == self.job_spec(),
    {
        LifecycleState { phase: self.phase, active_job_id: self.active_job_id.clone() }
    }
}

/// The phase is `draining` or `closed`: shutdown has been requested.
pub open spec fn shutdown_requested(p: ConnectionPhase) -> bool {
    p is DrainingAwaitingCompletion || p is Closed
}

/// The next state after the host sends `msg` in `(phase, job)`, or `None`
/// when the message is illegal there.
pub open spec fn host_step(phase: ConnectionPhase, job: Seq<char>, msg: HostToContainer) -> Option<
    (ConnectionPhase, Seq<char>),
> {
    match msg {
        HostToContainer::Init(_) => None,
        HostToContainer::Messages(p) => if shutdown_requested(phase) {
            None
        } else if phase is Processing && p.job_id@ != job {
            None
        } else {
            Some((ConnectionPhase::Processing, p.job_id@))
        },
        HostToContainer::Shutdown(_) => if shutdown_requested(phase) {
            None
        } else {
            Some((ConnectionPhase::DrainingAwaitingCompletion, job))
        },
    }
}

/// `e` is the lifecycle violation reported in `phase` for a message of
/// `message_type` travelling in `direction`, for `reason`.
pub open spec fn is_lifecycle_violation(
    e: IpcError,
    phase: ConnectionPhase,
    direction: Seq<char>,
    message_type: Seq<char>,
    reason: Seq<char>,
) -> bool {
    e matches IpcError::Protocol(
        ProtocolError::LifecycleViolation { phase: p, direction: d, message_type: m, reason: r },
    ) && p@ == phase_name(phase) && d@ == direction && m@ == message_type && r@ == reason
}

/// `e` is the job mismatch reported for a message of `message_type`
/// travelling in `direction` that named `got` while `expected` is active.
pub open spec fn is_job_mismatch(
    e: IpcError,
    direction: Seq<char>,
    message_type: Seq<char>,
    expected: Seq<char>,
    got: Seq<char>,
) -> bool {
    e matches IpcError::Protocol(
        ProtocolError::JobIdMismatch { direction: d, message_type: m, expected: x, got: g },
    ) && d@ == direction && m@ == message_type && x@ == expected && g@ == got
}

/// The error reported when the host's `msg` is illegal in `(phase, job)`.
pub open spec fn host_rejection(e: IpcError, phase: ConnectionPhase, job: Seq<char>, msg: HostToContainer) -> bool {
    let dir = "host_to_container"@;
    let ty = host_wire_type(msg);
    match msg {
        HostToContainer::Init(_) => is_lifecycle_violation(
            e,
            phase,
            dir,
            ty,
            "init is only legal during handshake"@,
        ),
        HostToContainer::Messages(p) => if shutdown_requested(phase) {
            is_lifecycle_violation(e, phase, dir, ty, "messages are not allowed after shutdown"@)
        } else {
            is_job_mismatch(e, dir, "messages"@, job, p.job_id@)
        },
        HostToContainer::Shutdown(_) => is_lifecycle_violation(
            e,
            phase,
            dir,
            ty,
            "shutdown already requested"@,
        ),
    }
}

fn lifecycle_violation(
    phase: ConnectionPhase,
    direction: &'static str,
    message_type: &'static str,
    reason: &'static str,
) -> (e: IpcError)
    ensures
        is_lifecycle_violation(e, phase, direction@, message_type@, reason@),
{
    IpcError::Protocol(
        ProtocolError::LifecycleViolation { phase: phase.as_str(), direction, message_type, reason },
    )
}

fn job_id_mismatch(
    direction: &'static str,
    message_type: &'static str,
    expected: &JobId,
    got: &JobId,
) -> (e: IpcError)
    ensures
        is_job_mismatch(e, direction@, message_type@, expected@, got@),
{
    IpcError::Protocol(
        ProtocolError::JobIdMismatch {
            direction,
            message_type,
            expected: expected.clone(),
            got: got.clone(),
        },
    )
}

/// Applies the lifecycle rules to a host → container message, updating
/// `state` when it is legal and leaving it unchanged when it is not.
pub fn enforce_host_to_container(state: &mut LifecycleState, msg: &HostToContainer) -> (r: Result<
    LifecycleAction,
    IpcError,
>)
    ensures
        match host_step(old(state).phase_spec(), old(state).job_spec(), *msg) {
            Some((phase, job)) => r == Ok::<LifecycleAction, IpcError>(LifecycleAction::Continue)
                && final(state).phase_spec() == phase && final(state).job_spec() == job,
            None => r matches Err(e) && host_rejection(
                e,
                old(state).phase_spec(),
                old(state).job_spec(),
                *msg,
            ) && final(state).phase_spec() == old(state).phase_spec() && final(state).job_spec()
                == old(state).job_spec(),
        },
{
    match msg {
        HostToContainer::Init(_) => Err(
            lifecycle_violation(
                state.phase,
                "host_to_container",
                msg.wire_type(),
                "init is only legal during handshake",
            ),
        ),
        HostToContainer::Messages(payload) => {
            match state.phase {
                ConnectionPhase::DrainingAwaitingCompletion | ConnectionPhase::Closed => {
                    return Err(
                        lifecycle_violation(
                            state.phase,
                            "host_to_container",
                            msg.wire_type(),
                            "messages are not allowed after shutdown",
                        ),
                    );
                },
                ConnectionPhase::Processing => {
                    if !payload.job_id.same_as(&state.active_job_id) {
                        return Err(
                            job_id_mismatch(
                                "host_to_container",
                                "messages",
                                &state.active_job_id,
                                &payload.job_id,
                            ),
                        );
                    }
                },
                ConnectionPhase::Idle => {
                    state.active_job_id = payload.job_id.clone();
                },
            }
            state.phase = ConnectionPhase::Processing;
            Ok(LifecycleAction::Continue)
        },
        HostToContainer::Shutdown(_) => {
            match state.phase {
                ConnectionPhase::DrainingAwaitingCompletion | ConnectionPhase::Closed => {
                    return Err(
                        lifecycle_violation(
                            state.phase,
                            "host_to_container",
                            msg.wire_type(),
                            "shutdown already requested",
                        ),
                    );
                },
                _ => {},
            }
            state.phase = ConnectionPhase::DrainingAwaitingCompletion;
            Ok(LifecycleAction::Continue)
        },
    }
}

/// A command payload is acceptable: a `register_group` with extensions
/// must encode within bound.
pub open spec fn command_payload_ok(p: CommandPayload) -> bool {
    match p.body {
        CommandBody::RegisterGroup(r) => match r.extensions {
            Some(x) => encoded_within_bound(x.version_spec(), x.data_spec()),
            None => true,
        },
        _ => true,
    }
}

/// The job a container → host message names and must match, if any.
pub open spec fn container_job(msg: ContainerToHost) -> Option<Seq<char>> {
    match msg {
        ContainerToHost::OutputDelta(p) => Some(p.job_id@),
        ContainerToHost::Progress(p) => Some(p.job_id@),
        ContainerToHost::OutputComplete(p) => Some(p.job_id@),
        ContainerToHost::Error(p) => match p.job_id {
            Some(j) => Some(j@),
            None => None,
        },
        _ => None,
    }
}

/// The next phase and action after the container sends `msg` in
/// `(phase, job)`, or `None` when the message is illegal there. The job
/// never changes on this side.
pub open spec fn container_step(phase: ConnectionPhase, job: Seq<char>, msg: ContainerToHost) -> Option<
    (ConnectionPhase, LifecycleAction),
> {
    if phase is Closed {
        None
    } else {
        match msg {
            ContainerToHost::Ready(_) => None,
            ContainerToHost::OutputDelta(p) => if phase is Processing && p.job_id@ == job {
                Some((phase, LifecycleAction::Continue))
            } else {
                None
            },
            ContainerToHost::Progress(p) => if phase is Processing && p.job_id@ == job {
                Some((phase, LifecycleAction::Continue))
            } else {
                None
            },
            ContainerToHost::Command(p) => if phase is Processing && command_payload_ok(p) {
                Some((phase, LifecycleAction::Continue))
            } else {
                None
            },
            ContainerToHost::OutputComplete(p) => if p.job_id@ != job {
                None
            } else {
                match phase {
                    ConnectionPhase::Processing => Some(
                        (ConnectionPhase::Idle, LifecycleAction::Continue),
                    ),
                    ConnectionPhase::DrainingAwaitingCompletion => Some(
                        (ConnectionPhase::Closed, LifecycleAction::CloseAfterCurrentFrame),
                    ),
                    _ => None,
                }
            },
            ContainerToHost::Heartbeat(_) => Some((phase, LifecycleAction::Continue)),
            ContainerToHost::Error(p) => match p.job_id {
                Some(j) => if j@ == job {
                    Some((phase, LifecycleAction::Continue))
                } else {
                    None
                },
                None => Some((phase, LifecycleAction::Continue)),
            },
        }
    }
}

/// The error reported when the container's `msg` is illegal in
/// `(phase, job)`.
pub open spec fn container_rejection(
    e: IpcError,
    phase: ConnectionPhase,
    job: Seq<char>,
    msg: ContainerToHost,
) -> bool {
    let dir = "container_to_host"@;
    let ty = container_wire_type(msg);
    if phase is Closed {
        is_lifecycle_violation(e, phase, dir, ty, "connection is terminally closed"@)
    } else {
        match msg {
            ContainerToHost::Ready(_) => is_lifecycle_violation(
                e,
                phase,
                dir,
                ty,
                "ready is only legal during handshake"@,
            ),
            ContainerToHost::OutputDelta(p) => if !(phase is Processing) {
                is_lifecycle_violation(e, phase, dir, ty, "message requires active processing"@)
            } else {
                is_job_mismatch(e, dir, ty, job, p.job_id@)
            },
            ContainerToHost::Progress(p) => if !(phase is Processing) {
                is_lifecycle_violation(e, phase, dir, ty, "message requires active processing"@)
            } else {
                is_job_mismatch(e, dir, ty, job, p.job_id@)
            },
            ContainerToHost::Command(_) => if !(phase is Processing) {
                is_lifecycle_violation(e, phase, dir, ty, "commands require active processing"@)
            } else {
                e matches IpcError::Protocol(ProtocolError::InvalidCommandPayload { command, .. })
                    && command@ == "register_group"@
            },
            ContainerToHost::OutputComplete(p) => if p.job_id@ != job {
                is_job_mismatch(e, dir, ty, job, p.job_id@)
            } else {
                is_lifecycle_violation(e, phase, dir, ty, "no in-flight job to complete"@)
            },
            ContainerToHost::Heartbeat(_) => false,
            ContainerToHost::Error(p) => match p.job_id {
                Some(j) => is_job_mismatch(e, dir, ty, job, j@),
                None => false,
            },
        }
    }
}

fn require_active_job(
    direction: &'static str,
    message_type: &'static str,
    state: &LifecycleState,
    got: &JobId,
) -> (r: Result<(), IpcError>)
    ensures
        r is Ok <==> got@ == state.job_spec(),
        r matches Err(e) ==> is_job_mismatch(e, direction@, message_type@, state.job_spec(), got@),
{
    if got.same_as(&state.active_job_id) {
        return Ok(());
    }
    Err(job_id_mismatch(direction, message_type, &state.active_job_id, got))
}

fn validate_command_payload(payload: &CommandPayload) -> (r: Result<(), IpcError>)
    ensures
        r is Ok <==> command_payload_ok(*payload),
        r matches Err(e) ==> (e matches IpcError::Protocol(
            ProtocolError::InvalidCommandPayload { command, .. },
        ) && command@ == "register_group"@),
{
    if let CommandBody::RegisterGroup(register) = &payload.body {
        if let Some(extensions) = &register.extensions {
            match extensions.validate_wire_invariants() {
                Ok(()) => {},
                Err(err) => {
                    return Err(
                        IpcError::Protocol(
                            ProtocolError::InvalidCommandPayload {
                                command: "register_group",
                                reason: err.message(),
                            },
                        ),
                    );
                },
            }
        }
    }
    Ok(())
}

/// Applies the lifecycle rules to a container → host message, updating
/// the phase when it is legal and leaving the state unchanged when it is
/// not. The returned action asks the caller to close after a completion
/// that ends draining.
pub fn enforce_container_to_host(state: &mut LifecycleState, msg: &ContainerToHost) -> (r: Result<
    LifecycleAction,
    IpcError,
>)
    ensures
        final(state).job_spec() == old(state).job_spec(),
        match container_step(old(state).phase_spec(), old(state).job_spec(), *msg) {
            Some((phase, action)) => r == Ok::<LifecycleAction, IpcError>(action) && final(state).phase_spec() == phase,
            None => r matches Err(e) && container_rejection(
                e,
                old(state).phase_spec(),
                old(state).job_spec(),
                *msg,
            ) && final(state).phase_spec() == old(state).phase_spec(),
        },
{
    if let ConnectionPhase::Closed = state.phase {
        return Err(
            lifecycle_violation(
                state.phase,
                "container_to_host",
                msg.wire_type(),
                "connection is terminally closed",
            ),
        );
    }
    match msg {
        ContainerToHost::Ready(_) => Err(
            lifecycle_violation(
                state.phase,
                "container_to_host",
                msg.wire_type(),
                "ready is only legal during handshake",
            ),
        ),
        ContainerToHost::OutputDelta(payload) => {
            if !matches!(state.phase, ConnectionPhase::Processing) {
                return Err(
                    lifecycle_violation(
                        state.phase,
                        "container_to_host",
                        msg.wire_type(),
                        "message requires active processing",
                    ),
                );
            }
            match require_active_job("container_to_host", msg.wire_type(), state, &payload.job_id) {
                Ok(()) => Ok(LifecycleAction::Continue),
                Err(e) => Err(e),
            }
        },
        ContainerToHost::Progress(payload) => {
            if !matches!(state.phase, ConnectionPhase::Processing) {
                return Err(
                    lifecycle_violation(
                        state.phase,
                        "container_to_host",
                        msg.wire_type(),
                        "message requires active processing",
                    ),
                );
            }
            match require_active_job("container_to_host", msg.wire_type(), state, &payload.job_id) {
                Ok(()) => Ok(LifecycleAction::Continue),
                Err(e) => Err(e),
            }
        },
        ContainerToHost::Command(payload) => {
            if !matches!(state.phase, ConnectionPhase::Processing) {
                return Err(
                    lifecycle_violation(
                        state.phase,
                        "container_to_host",
                        msg.wire_type(),
                        "commands require active processing",
                    ),
                );
            }
            match validate_command_payload(payload) {
                Ok(()) => Ok(LifecycleAction::Continue),
                Err(e) => Err(e),
            }
        },
        ContainerToHost::OutputComplete(payload) => {
            match require_active_job("container_to_host", msg.wire_type(), state, &payload.job_id) {
                Ok(()) => {},
                Err(e) => return Err(e),
            }
            match state.phase {
                ConnectionPhase::Processing => {
                    state.phase = ConnectionPhase::Idle;
                    Ok(LifecycleAction::Continue)
                },
                ConnectionPhase::DrainingAwaitingCompletion => {
                    state.phase = ConnectionPhase::Closed;
                    Ok(LifecycleAction::CloseAfterCurrentFrame)
                },
                ConnectionPhase::Idle => Err(
                    lifecycle_violation(
                        state.phase,
                        "container_to_host",
                        msg.wire_type(),
                        "no in-flight job to complete",
                    ),
                ),
                ConnectionPhase::Closed => Err(
                    lifecycle_violation(
                        state.phase,
                        "container_to_host",
                        msg.wire_type(),
                        "connection is terminally closed",
                    ),
                ),
            }
        },
        ContainerToHost::Heartbeat(_) => Ok(LifecycleAction::Continue),
        ContainerToHost::Error(payload) => {
            if let Some(job_id) = &payload.job_id {
                match require_active_job("container_to_host", msg.wire_type(), state, job_id) {
                    Ok(()) => {},
                    Err(e) => return Err(e),
                }
            }
            Ok(LifecycleAction::Continue)
        },
    }
}

/// `closed` is terminal: every message from either side is refused there.
pub proof fn lemma_closed_is_terminal(job: Seq<char>, h: HostToContainer, c: ContainerToHost)
    ensures
        host_step(ConnectionPhase::Closed, job, h) is None,
        container_step(ConnectionPhase::Closed, job, c) is None,
{
}

/// Once shutdown has been requested the connection never returns to
/// `processing` or `idle`, whichever side speaks.
pub proof fn lemma_shutdown_is_irreversible(
    phase: ConnectionPhase,
    job: Seq<char>,
    h: HostToContainer,
    c: ContainerToHost,
)
    requires
        shutdown_requested(phase),
    ensures
        host_step(phase, job, h) is None,
        container_step(phase, job, c) matches Some((next, _)) ==> shutdown_requested(next),
{
}

/// The container is told to close exactly when its `output_complete`
/// ends draining, and only that transition reaches `closed`.
pub proof fn lemma_close_action_ends_draining(
    phase: ConnectionPhase,
    job: Seq<char>,
    c: ContainerToHost,
)
    ensures
        container_step(phase, job, c) matches Some((next, action)) ==> ((action
            is CloseAfterCurrentFrame) <==> (next is Closed)),
        container_step(phase, job, c) matches Some((next, action)) ==> (action
            is CloseAfterCurrentFrame <==> (phase is DrainingAwaitingCompletion && c is OutputComplete)),
{
}

/// Host messages never reach `closed`, and the active job only changes on
/// a `messages` received while `idle`.
pub proof fn lemma_host_job_changes_only_from_idle(
    phase: ConnectionPhase,
    job: Seq<char>,
    h: HostToContainer,
)
    ensures
        host_step(phase, job, h) matches Some((next, next_job)) ==> !(next is Closed) && (next_job
            != job ==> (phase is Idle && h is Messages)),
{
}

/// Job-scoped container output is accepted only for the active job.
pub proof fn lemma_container_output_matches_active_job(
    phase: ConnectionPhase,
    job: Seq<char>,
    c: ContainerToHost,
)
    ensures
        container_step(phase, job, c) is Some ==> match container_job(c) {
            Some(j) => j == job,
            None => true,
        },
{
}

/// A host shutdown is honoured exactly once: from every phase in which no
/// shutdown has been requested it is accepted, moves the connection to
/// draining and keeps the active job; there a second shutdown is refused.
pub proof fn lemma_shutdown_starts_draining(phase: ConnectionPhase, job: Seq<char>, h: HostToContainer)
    requires
        h is Shutdown,
    ensures
        host_step(phase, job, h) is Some <==> !(phase is DrainingAwaitingCompletion || phase is Closed),
        host_step(phase, job, h) matches Some((next, j)) ==> next is DrainingAwaitingCompletion
            && j == job && host_step(next, j, h) is None,
{
}

} // verus!
