//! Error taxonomy for the IPC layer.
//!
//! - [`FrameError`]: framing failures (length prefix, UTF-8, JSON, size).
//! - [`ProtocolError`]: valid wire shape that violates the protocol contract.
//! - [`IpcError`]: the top-level error of every IPC operation.
//!
//! Error texts never echo untrusted payload bytes: sizes are reported as
//! counts and malformed JSON carries only the decoder's position report.

use std::time::Duration;

use crate::id::{GroupId, JobId};
use crate::text::{decimal_seq, push_decimal, push_str};
use vstd::prelude::*;

verus! {

/// Framing-layer errors. Every one of them leaves the stream unusable.
#[derive(Debug)]
pub enum FrameError {
    /// A frame's declared length exceeds the maximum frame size.
    Oversize {
        /// The oversized length the peer declared.
        size: usize,
        /// The configured maximum.
        max: usize,
    },
    /// A frame's declared length is zero.
    EmptyFrame,
    /// The peer closed the socket mid-frame.
    Truncated {
        /// The number of bytes the frame (or its header) needed.
        expected: usize,
        /// How many were received before EOF.
        got: usize,
    },
    /// The frame payload was not valid UTF-8.
    InvalidUtf8,
    /// The payload was UTF-8 but not a valid message; carries only the
    /// decoder's error report.
    MalformedJson(String),
}

/// The display text of a [`FrameError`].
pub open spec fn frame_error_text(e: FrameError) -> Seq<char> {
    match e {
        FrameError::Oversize { size, max } => "frame size "@ + decimal_seq(size as nat)
            + " exceeds max "@ + decimal_seq(max as nat),
        FrameError::EmptyFrame => "empty frame (zero-length payload)"@,
        FrameError::Truncated { expected, got } => "truncated frame: expected "@ + decimal_seq(
            expected as nat,
        ) + " bytes, got "@ + decimal_seq(got as nat),
        FrameError::InvalidUtf8 => "invalid UTF-8 in frame payload"@,
        FrameError::MalformedJson(detail) => "malformed JSON: "@ + detail@,
    }
}

impl FrameError {
    /// The display text of this error.
    pub fn message(&self) -> (s: String)
        ensures
            s@ == frame_error_text(*self),
    {
        let mut s = String::new();
        match self {
            FrameError::Oversize { size, max } => {
                push_str(&mut s, "frame size ");
                push_decimal(&mut s, *size as u64);
                push_str(&mut s, " exceeds max ");
                push_decimal(&mut s, *max as u64);
            },
            FrameError::EmptyFrame => {
                push_str(&mut s, "empty frame (zero-length payload)");
            },
            FrameError::Truncated { expected, got } => {
                push_str(&mut s, "truncated frame: expected ");
                push_decimal(&mut s, *expected as u64);
                push_str(&mut s, " bytes, got ");
                push_decimal(&mut s, *got as u64);
            },
            FrameError::InvalidUtf8 => {
                push_str(&mut s, "invalid UTF-8 in frame payload");
            },
            FrameError::MalformedJson(detail) => {
                push_str(&mut s, "malformed JSON: ");
                push_str(&mut s, detail.as_str());
            },
        }
        s
    }
}

/// Protocol-layer errors: the wire shape was valid but the message
/// violated the protocol contract.
#[derive(Debug)]
pub enum ProtocolError {
    /// The frame decoded as JSON with a `type` value that matches no known
    /// message variant.
    UnknownMessageType(String),
    /// The peer advertised a protocol version whose major does not match the local one.
    UnsupportedVersion {
        /// The version string the peer advertised in its `Ready`.
        peer: String,
        /// The local version this crate implements.
        local: &'static str,
    },
    /// The handshake received a valid message of the wrong type for this step.
    UnexpectedMessage {
        /// The message type name the handshake expected.
        expected: &'static str,
        /// The message type name actually received.
        got: &'static str,
    },
    /// A command-specific receive API observed a valid non-command message (non-fatal).
    NotCommand {
        /// The message type name actually received.
        got: &'static str,
    },
    /// Too many consecutive frames with unknown message types.
    TooManyUnknownMessages {
        /// How many consecutive unknown messages were received.
        count: usize,
        /// The configured limit.
        limit: usize,
    },
    /// Too many cumulative bytes across consecutive unknown-message frames.
    TooManyUnknownBytes {
        /// Unknown-message bytes observed in the current consecutive streak.
        bytes: usize,
        /// The configured byte limit.
        limit: usize,
    },
    /// Too many unknown-type frames over the connection lifetime.
    TooManyUnknownMessagesTotal {
        /// Unknown messages seen over the connection lifetime.
        count: usize,
        /// The configured lifetime limit.
        limit: usize,
    },
    /// Too many unknown-message bytes over the connection lifetime.
    TooManyUnknownBytesTotal {
        /// Unknown-message bytes seen over the connection lifetime.
        bytes: usize,
        /// The configured lifetime byte limit.
        limit: usize,
    },
    /// Unknown-type frames arrived faster than the token bucket allows.
    UnknownMessageRateLimitExceeded {
        /// Token-bucket burst capacity.
        burst_capacity: u32,
        /// Token refill rate per second.
        refill_per_second: u32,
    },
    /// A message type whose policy rejects unknown fields carried some.
    UnknownFieldsRejected {
        /// Wire `type` of the offending message.
        message_type: &'static str,
        /// Number of ignored field leaves observed.
        key_count: u32,
    },
    /// Ignored (unknown) fields exceeded a per-frame or lifetime budget.
    IgnoredFieldBudgetExceeded {
        /// Wire `type` of the offending message.
        message_type: &'static str,
        /// `per_frame` or `lifetime`.
        scope: &'static str,
        /// `keys` or `bytes`.
        dimension: &'static str,
        /// Observed value.
        observed: u32,
        /// Configured limit.
        limit: u32,
    },
    /// A command was rejected for lack of authorization (non-fatal).
    Unauthorized {
        /// The wire name of the command that was rejected.
        command: &'static str,
        /// Why the command was rejected.
        reason: &'static str,
    },
    /// Repeated unauthorized commands exceeded the per-connection abuse limit.
    UnauthorizedCommandAbuse {
        /// The wire name of the command being abused.
        command: &'static str,
        /// Why each attempt is unauthorized.
        reason: &'static str,
        /// Consecutive exhausted-budget strikes observed.
        strikes: u32,
        /// Configured strike threshold that triggers disconnect.
        disconnect_after_strikes: u32,
    },
    /// The `init` group identity diverges from the host-authoritative one.
    GroupMismatch {
        /// The group ID from `init.context.group`.
        init_group_id: GroupId,
        /// The group ID the host passed as the authoritative identity.
        session_group_id: GroupId,
    },
    /// The peer's OS credentials did not satisfy the credential policy.
    PeerCredentialRejected {
        /// Why the peer was rejected.
        reason: String,
        /// Expected UID, when enforced.
        expected_uid: Option<u32>,
        /// Expected GID, when enforced.
        expected_gid: Option<u32>,
        /// UID the peer presented, when known.
        actual_uid: Option<u32>,
        /// GID the peer presented, when known.
        actual_gid: Option<u32>,
    },
    /// A valid message arrived in a lifecycle phase where it is illegal.
    LifecycleViolation {
        /// Current lifecycle phase.
        phase: &'static str,
        /// Message direction (`host_to_container` or `container_to_host`).
        direction: &'static str,
        /// Wire `type` discriminator.
        message_type: &'static str,
        /// Human-readable reason for the rejection.
        reason: &'static str,
    },
    /// A job-scoped message referenced a job other than the active one.
    JobIdMismatch {
        /// Message direction.
        direction: &'static str,
        /// Wire `type` discriminator.
        message_type: &'static str,
        /// Active job bound to the connection.
        expected: JobId,
        /// Job ID provided in the incoming message.
        got: JobId,
    },
    /// No heartbeat was observed before the processing deadline (non-fatal).
    HeartbeatTimeout {
        /// Current lifecycle phase (`processing`).
        phase: &'static str,
        /// Configured heartbeat timeout in seconds.
        timeout_secs: u64,
    },
    /// No complete frame arrived before the idle read deadline.
    IdleReadTimeout {
        /// Current lifecycle phase.
        phase: &'static str,
        /// Configured idle read timeout in seconds.
        timeout_secs: u64,
    },
    /// The container did not complete draining before the shutdown deadline (non-fatal).
    ShutdownDeadlineExceeded {
        /// Current lifecycle phase (`draining`).
        phase: &'static str,
        /// Shutdown deadline configured by the host message.
        deadline_ms: u64,
    },
    /// A command payload violates version-sensitive protocol rules.
    InvalidCommandPayload {
        /// Wire command name.
        command: &'static str,
        /// Validation failure reason.
        reason: String,
    },
    /// An outbound message violated a wire constraint before serialization (non-fatal).
    OutboundValidation {
        /// Message direction.
        direction: &'static str,
        /// Wire `type` discriminator.
        message_type: &'static str,
        /// Path of the offending field.
        field_path: String,
        /// Why the field is invalid.
        reason: String,
    },
    /// Shared lifecycle state changed between preparing and committing a send.
    OutboundStateDivergence {
        /// Message direction.
        direction: &'static str,
        /// Wire `type` discriminator.
        message_type: &'static str,
        /// What diverged.
        reason: String,
    },
}

/// The display text of a [`ProtocolError`].
pub open spec fn protocol_error_text(e: ProtocolError) -> Seq<char> {
    match e {
        ProtocolError::UnknownMessageType(t) => "unknown message type: "@ + t@,
        ProtocolError::UnsupportedVersion { peer, local } => "unsupported protocol version: peer="@ + peer@ + ", local="@ + local@,
        ProtocolError::UnexpectedMessage { expected, got } => "unexpected message: expected "@ + expected@ + ", got "@ + got@,
        ProtocolError::NotCommand { got } => "not a command message: got "@ + got@,
        ProtocolError::TooManyUnknownMessages { count, limit } => "too many unknown messages: "@ + decimal_seq(count as nat) + " consecutive (limit "@ + decimal_seq(limit as nat) + ")"@,
        ProtocolError::TooManyUnknownBytes { bytes, limit } => "too many unknown message bytes: "@ + decimal_seq(bytes as nat) + " bytes (limit "@ + decimal_seq(limit as nat) + ")"@,
        ProtocolError::TooManyUnknownMessagesTotal { count, limit } => "too many unknown messages over connection lifetime: "@ + decimal_seq(count as nat) + " (limit "@ + decimal_seq(limit as nat) + ")"@,
        ProtocolError::TooManyUnknownBytesTotal { bytes, limit } => "too many unknown message bytes over connection lifetime: "@ + decimal_seq(bytes as nat) + " bytes (limit "@ + decimal_seq(limit as nat) + ")"@,
        ProtocolError::UnknownMessageRateLimitExceeded { burst_capacity, refill_per_second } => "unknown message rate limit exceeded (burst "@ + decimal_seq(burst_capacity as nat) + ", refill "@ + decimal_seq(refill_per_second as nat) + "/s)"@,
        ProtocolError::UnknownFieldsRejected { message_type, key_count } => "unknown fields rejected: message `"@ + message_type@ + "` carried "@ + decimal_seq(key_count as nat) + " ignored field(s)"@,
        ProtocolError::IgnoredFieldBudgetExceeded { message_type, scope, dimension, observed, limit } => "ignored field budget exceeded: message `"@ + message_type@ + "` "@ + scope@ + " "@ + dimension@ + " "@ + decimal_seq(observed as nat) + " (limit "@ + decimal_seq(limit as nat) + ")"@,
        ProtocolError::Unauthorized { command, reason } => "unauthorized: command "@ + command@ + " — "@ + reason@,
        ProtocolError::UnauthorizedCommandAbuse { command, reason, strikes, disconnect_after_strikes } => "unauthorized command abuse: command "@ + command@ + " exceeded limit ("@ + decimal_seq(strikes as nat) + "/"@ + decimal_seq(disconnect_after_strikes as nat) + ") — "@ + reason@,
        ProtocolError::GroupMismatch { init_group_id, session_group_id } => "group mismatch: init carried group "@ + init_group_id@ + ", but session group is "@ + session_group_id@,
        ProtocolError::PeerCredentialRejected { reason, expected_uid: _, expected_gid: _, actual_uid: _, actual_gid: _ } => "peer credential rejected: "@ + reason@,
        ProtocolError::LifecycleViolation { phase, direction, message_type, reason } => "lifecycle violation: "@ + direction@ + " message `"@ + message_type@ + "` is invalid in phase "@ + phase@ + " ("@ + reason@ + ")"@,
        ProtocolError::JobIdMismatch { direction, message_type, expected, got } => "job_id mismatch: "@ + direction@ + " message `"@ + message_type@ + "` expected job_id "@ + expected@ + ", got "@ + got@,
        ProtocolError::HeartbeatTimeout { phase, timeout_secs } => "heartbeat timeout: no heartbeat for "@ + decimal_seq(timeout_secs as nat) + "s while in phase "@ + phase@,
        ProtocolError::IdleReadTimeout { phase, timeout_secs } => "idle read timeout: no full frame for "@ + decimal_seq(timeout_secs as nat) + "s while in phase "@ + phase@,
        ProtocolError::ShutdownDeadlineExceeded { phase, deadline_ms } => "shutdown deadline exceeded: no completion within "@ + decimal_seq(deadline_ms as nat) + "ms while in phase "@ + phase@,
        ProtocolError::InvalidCommandPayload { command, reason } => "invalid command payload: "@ + command@ + " — "@ + reason@,
        ProtocolError::OutboundValidation { direction, message_type, field_path, reason } => "outbound validation failed: "@ + direction@ + " message `"@ + message_type@ + "` field "@ + field_path@ + ": "@ + reason@,
        ProtocolError::OutboundStateDivergence { direction, message_type, reason } => "outbound state divergence: "@ + direction@ + " message `"@ + message_type@ + "`: "@ + reason@,
    }
}

impl ProtocolError {
    /// The display text of this error.
    pub fn message(&self) -> (s: String)
        ensures
            s@ == protocol_error_text(*self),
    {
        let mut s = String::new();
        match self {
            ProtocolError::UnknownMessageType(t) => {
                push_str(&mut s, "unknown message type: ");
                push_str(&mut s, t.as_str());
            },
            ProtocolError::UnsupportedVersion { peer, local } => {
                push_str(&mut s, "unsupported protocol version: peer=");
                push_str(&mut s, peer.as_str());
                push_str(&mut s, ", local=");
                push_str(&mut s, local);
            },
            ProtocolError::UnexpectedMessage { expected, got } => {
                push_str(&mut s, "unexpected message: expected ");
                push_str(&mut s, expected);
                push_str(&mut s, ", got ");
                push_str(&mut s, got);
            },
            ProtocolError::NotCommand { got } => {
                push_str(&mut s, "not a command message: got ");
                push_str(&mut s, got);
            },
            ProtocolError::TooManyUnknownMessages { count, limit } => {
                push_str(&mut s, "too many unknown messages: ");
                push_decimal(&mut s, *count as u64);
                push_str(&mut s, " consecutive (limit ");
                push_decimal(&mut s, *limit as u64);
                push_str(&mut s, ")");
            },
            ProtocolError::TooManyUnknownBytes { bytes, limit } => {
                push_str(&mut s, "too many unknown message bytes: ");
                push_decimal(&mut s, *bytes as u64);
                push_str(&mut s, " bytes (limit ");
                push_decimal(&mut s, *limit as u64);
                push_str(&mut s, ")");
            },
            ProtocolError::TooManyUnknownMessagesTotal { count, limit } => {
                push_str(&mut s, "too many unknown messages over connection lifetime: ");
                push_decimal(&mut s, *count as u64);
                push_str(&mut s, " (limit ");
                push_decimal(&mut s, *limit as u64);
                push_str(&mut s, ")");
            },
            ProtocolError::TooManyUnknownBytesTotal { bytes, limit } => {
                push_str(&mut s, "too many unknown message bytes over connection lifetime: ");
                push_decimal(&mut s, *bytes as u64);
                push_str(&mut s, " bytes (limit ");
                push_decimal(&mut s, *limit as u64);
                push_str(&mut s, ")");
            },
            ProtocolError::UnknownMessageRateLimitExceeded { burst_capacity, refill_per_second } => {
                push_str(&mut s, "unknown message rate limit exceeded (burst ");
                push_decimal(&mut s, *burst_capacity as u64);
                push_str(&mut s, ", refill ");
                push_decimal(&mut s, *refill_per_second as u64);
                push_str(&mut s, "/s)");
            },
            ProtocolError::UnknownFieldsRejected { message_type, key_count } => {
                push_str(&mut s, "unknown fields rejected: message `");
                push_str(&mut s, message_type);
                push_str(&mut s, "` carried ");
                push_decimal(&mut s, *key_count as u64);
                push_str(&mut s, " ignored field(s)");
            },
            ProtocolError::IgnoredFieldBudgetExceeded { message_type, scope, dimension, observed, limit } => {
                push_str(&mut s, "ignored field budget exceeded: message `");
                push_str(&mut s, message_type);
                push_str(&mut s, "` ");
                push_str(&mut s, scope);
                push_str(&mut s, " ");
                push_str(&mut s, dimension);
                push_str(&mut s, " ");
                push_decimal(&mut s, *observed as u64);
                push_str(&mut s, " (limit ");
                push_decimal(&mut s, *limit as u64);
                push_str(&mut s, ")");
            },
            ProtocolError::Unauthorized { command, reason } => {
                push_str(&mut s, "unauthorized: command ");
                push_str(&mut s, command);
                push_str(&mut s, " — ");
                push_str(&mut s, reason);
            },
            ProtocolError::UnauthorizedCommandAbuse { command, reason, strikes, disconnect_after_strikes } => {
                push_str(&mut s, "unauthorized command abuse: command ");
                push_str(&mut s, command);
                push_str(&mut s, " exceeded limit (");
                push_decimal(&mut s, *strikes as u64);
                push_str(&mut s, "/");
                push_decimal(&mut s, *disconnect_after_strikes as u64);
                push_str(&mut s, ") — ");
                push_str(&mut s, reason);
            },
            ProtocolError::GroupMismatch { init_group_id, session_group_id } => {
                push_str(&mut s, "group mismatch: init carried group ");
                push_str(&mut s, init_group_id.as_str());
                push_str(&mut s, ", but session group is ");
                push_str(&mut s, session_group_id.as_str());
            },
            ProtocolError::PeerCredentialRejected { reason, expected_uid: _, expected_gid: _, actual_uid: _, actual_gid: _ } => {
                push_str(&mut s, "peer credential rejected: ");
                push_str(&mut s, reason.as_str());
            },
            ProtocolError::LifecycleViolation { phase, direction, message_type, reason } => {
                push_str(&mut s, "lifecycle violation: ");
                push_str(&mut s, direction);
                push_str(&mut s, " message `");
                push_str(&mut s, message_type);
                push_str(&mut s, "` is invalid in phase ");
                push_str(&mut s, phase);
                push_str(&mut s, " (");
                push_str(&mut s, reason);
                push_str(&mut s, ")");
            },
            ProtocolError::JobIdMismatch { direction, message_type, expected, got } => {
                push_str(&mut s, "job_id mismatch: ");
                push_str(&mut s, direction);
                push_str(&mut s, " message `");
                push_str(&mut s, message_type);
                push_str(&mut s, "` expected job_id ");
                push_str(&mut s, expected.as_str());
                push_str(&mut s, ", got ");
                push_str(&mut s, got.as_str());
            },
            ProtocolError::HeartbeatTimeout { phase, timeout_secs } => {
                push_str(&mut s, "heartbeat timeout: no heartbeat for ");
                push_decimal(&mut s, *timeout_secs as u64);
                push_str(&mut s, "s while in phase ");
                push_str(&mut s, phase);
            },
            ProtocolError::IdleReadTimeout { phase, timeout_secs } => {
                push_str(&mut s, "idle read timeout: no full frame for ");
                push_decimal(&mut s, *timeout_secs as u64);
                push_str(&mut s, "s while in phase ");
                push_str(&mut s, phase);
            },
            ProtocolError::ShutdownDeadlineExceeded { phase, deadline_ms } => {
                push_str(&mut s, "shutdown deadline exceeded: no completion within ");
                push_decimal(&mut s, *deadline_ms as u64);
                push_str(&mut s, "ms while in phase ");
                push_str(&mut s, phase);
            },
            ProtocolError::InvalidCommandPayload { command, reason } => {
                push_str(&mut s, "invalid command payload: ");
                push_str(&mut s, command);
                push_str(&mut s, " — ");
                push_str(&mut s, reason.as_str());
            },
            ProtocolError::OutboundValidation { direction, message_type, field_path, reason } => {
                push_str(&mut s, "outbound validation failed: ");
                push_str(&mut s, direction);
                push_str(&mut s, " message `");
                push_str(&mut s, message_type);
                push_str(&mut s, "` field ");
                push_str(&mut s, field_path.as_str());
                push_str(&mut s, ": ");
                push_str(&mut s, reason.as_str());
            },
            ProtocolError::OutboundStateDivergence { direction, message_type, reason } => {
                push_str(&mut s, "outbound state divergence: ");
                push_str(&mut s, direction);
                push_str(&mut s, " message `");
                push_str(&mut s, message_type);
                push_str(&mut s, "`: ");
                push_str(&mut s, reason.as_str());
            },
        }
        s
    }
}

/// std's I/O error, carried opaquely inside [`IpcError::Io`].
#[verifier::external_type_specification]
#[verifier::external_body]
pub struct ExIoError(std::io::Error);

/// Top-level IPC error.
#[derive(Debug)]
pub enum IpcError {
    /// Underlying I/O failure (socket, filesystem, accept).
    Io(std::io::Error),
    /// Socket bind attestation detected a path race.
    BindRace(String),
    /// The socket's parent directory is owned by an unexpected UID.
    SocketParentOwnership {
        /// The parent directory.
        path: String,
        /// The UID the ownership policy requires.
        expected_uid: u32,
        /// The UID that owns the directory.
        actual_uid: u32,
    },
    /// Framing-layer error.
    Frame(FrameError),
    /// Encode-side serialization failure.
    Serialize(String),
    /// Protocol-layer error.
    Protocol(ProtocolError),
    /// The peer closed the connection cleanly between frames.
    Closed,
    /// A timed operation exceeded its deadline.
    Timeout(Duration),
}

/// Whether a protocol error leaves the connection unrecoverable.
pub open spec fn protocol_error_is_fatal(p: ProtocolError) -> bool {
    !(p is UnknownMessageType || p is NotCommand || p is Unauthorized || p is HeartbeatTimeout
        || p is ShutdownDeadlineExceeded || p is OutboundValidation)
}

/// Whether an error leaves the connection unrecoverable.
pub open spec fn ipc_error_is_fatal(e: IpcError) -> bool {
    match e {
        IpcError::Io(_) | IpcError::BindRace(_) | IpcError::SocketParentOwnership { .. }
        | IpcError::Frame(_) | IpcError::Timeout(_) => true,
        IpcError::Protocol(p) => protocol_error_is_fatal(p),
        IpcError::Serialize(_) | IpcError::Closed => false,
    }
}

impl IpcError {
    /// Returns `true` if this error implies the connection is no longer
    /// recoverable and should be torn down. Non-fatal: unknown message
    /// types, non-command messages on a command API, unauthorized
    /// commands, heartbeat and shutdown-deadline timeouts, outbound
    /// validation, serialization failures and a clean close.
    pub fn is_fatal(&self) -> (r: bool)
        ensures
            r == ipc_error_is_fatal(*self),
    {
        match self {
            IpcError::Io(_) | IpcError::BindRace(_) | IpcError::SocketParentOwnership { .. }
            | IpcError::Frame(_) | IpcError::Timeout(_) => true,
            IpcError::Protocol(p) => match p {
                ProtocolError::UnknownMessageType(_) | ProtocolError::NotCommand { .. }
                | ProtocolError::Unauthorized { .. } | ProtocolError::HeartbeatTimeout { .. }
                | ProtocolError::ShutdownDeadlineExceeded { .. }
                | ProtocolError::OutboundValidation { .. } => false,
                _ => true,
            },
            IpcError::Serialize(_) | IpcError::Closed => false,
        }
    }
}


impl From<FrameError> for IpcError {
    fn from(e: FrameError) -> (r: IpcError) {
        IpcError::Frame(e)
    }
}

impl vstd::std_specs::convert::FromSpecImpl<FrameError> for IpcError {
    open spec fn obeys_from_spec() -> bool {
        true
    }

    open spec fn from_spec(e: FrameError) -> IpcError {
        IpcError::Frame(e)
    }
}

impl From<ProtocolError> for IpcError {
    fn from(e: ProtocolError) -> (r: IpcError) {
        IpcError::Protocol(e)
    }
}

impl vstd::std_specs::convert::FromSpecImpl<ProtocolError> for IpcError {
    open spec fn obeys_from_spec() -> bool {
        true
    }

    open spec fn from_spec(e: ProtocolError) -> IpcError {
        IpcError::Protocol(e)
    }
}

impl From<std::io::Error> for IpcError {
    fn from(e: std::io::Error) -> (r: IpcError) {
        IpcError::Io(e)
    }
}

impl vstd::std_specs::convert::FromSpecImpl<std::io::Error> for IpcError {
    open spec fn obeys_from_spec() -> bool {
        true
    }

    open spec fn from_spec(e: std::io::Error) -> IpcError {
        IpcError::Io(e)
    }
}


/// Renders a duration with its `Debug` format (e.g. `5s`, `1.5s`).
#[verifier::external_body]
fn duration_debug_text(d: &Duration) -> String {
    format!("{:?}", d)
}

impl IpcError {
    /// The display text of this error. The texts of an I/O error and of a
    /// duration are std's own.
    pub fn message(&self) -> (s: String)
        ensures
            match *self {
                IpcError::BindRace(m) => s@ == "socket bind race detected: "@ + m@,
                IpcError::SocketParentOwnership { path, expected_uid, actual_uid } => s@
                    == "socket parent "@ + path@ + " is owned by uid "@ + decimal_seq(
                    actual_uid as nat,
                ) + ", expected uid "@ + decimal_seq(expected_uid as nat),
                IpcError::Frame(f) => s@ == "frame error: "@ + frame_error_text(f),
                IpcError::Serialize(m) => s@ == "serialization error: "@ + m@,
                IpcError::Protocol(p) => s@ == "protocol error: "@ + protocol_error_text(p),
                IpcError::Closed => s@ == "connection closed"@,
                IpcError::Io(_) => s@.len() >= "IO error: "@.len() && s@.take("IO error: "@.len() as int)
                    == "IO error: "@,
                IpcError::Timeout(_) => s@.len() >= "operation timed out after "@.len() && s@.take(
                    "operation timed out after "@.len() as int,
                ) == "operation timed out after "@,
            },
    {
        let mut s = String::new();
        match self {
            IpcError::Io(e) => {
                push_str(&mut s, "IO error: ");
                let ghost head = s@;
                let t = crate::error::io_error_text(e);
                push_str(&mut s, t.as_str());
                assert(s@.take(head.len() as int) =~= head);
            },
            IpcError::BindRace(m) => {
                push_str(&mut s, "socket bind race detected: ");
                push_str(&mut s, m.as_str());
            },
            IpcError::SocketParentOwnership { path, expected_uid, actual_uid } => {
                push_str(&mut s, "socket parent ");
                push_str(&mut s, path.as_str());
                push_str(&mut s, " is owned by uid ");
                push_decimal(&mut s, *actual_uid as u64);
                push_str(&mut s, ", expected uid ");
                push_decimal(&mut s, *expected_uid as u64);
            },
            IpcError::Frame(f) => {
                push_str(&mut s, "frame error: ");
                let t = f.message();
                push_str(&mut s, t.as_str());
            },
            IpcError::Serialize(m) => {
                push_str(&mut s, "serialization error: ");
                push_str(&mut s, m.as_str());
            },
            IpcError::Protocol(p) => {
                push_str(&mut s, "protocol error: ");
                let t = p.message();
                push_str(&mut s, t.as_str());
            },
            IpcError::Closed => {
                push_str(&mut s, "connection closed");
            },
            IpcError::Timeout(d) => {
                push_str(&mut s, "operation timed out after ");
                let ghost head = s@;
                let t = duration_debug_text(d);
                push_str(&mut s, t.as_str());
                assert(s@.take(head.len() as int) =~= head);
            },
        }
        s
    }
}

} // verus!
