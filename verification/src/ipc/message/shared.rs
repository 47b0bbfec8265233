//! Types shared between message directions.

use crate::id::GroupId;
use crate::ipc::message::bounded_text::{GroupName, MessageText, SenderName};
use crate::ipc::message::time::IpcTimestamp;
use vstd::prelude::*;

verus! {

/// A historical chat message included in `init.context.messages` or the
/// `messages` follow-up envelope.
#[derive(Debug, Clone, PartialEq, Eq)]
pub struct HistoricalMessage {
    /// Display name of the message sender.
    pub sender: SenderName,
    /// Raw message text.
    pub text: MessageText,
    /// RFC 3339 timestamp for when this historical message was emitted.
    pub timestamp: IpcTimestamp,
}

/// Capabilities granted to a group beyond the base scoped command set.
#[derive(Debug, Clone, Copy, PartialEq, Eq)]
pub struct GroupCapabilities {
    /// Whether this group may dispatch Tanren jobs.
    pub tanren: bool,
}

impl Default for GroupCapabilities {
    fn default() -> (r: Self)
        ensures
            !r.tanren,
    {
        GroupCapabilities { tanren: false }
    }
}

/// Summary of the group the agent is serving for this job.
#[derive(Debug, Clone, PartialEq, Eq)]
pub struct GroupInfo {
    /// Stable group identifier (e.g. `group-main`).
    pub id: GroupId,
    /// Human-readable group name.
    pub name: GroupName,
    /// Whether this group is the `main` group with elevated privileges.
    pub is_main: bool,
    /// Capabilities granted to this group.
    pub capabilities: GroupCapabilities,
}

/// Token accounting reported alongside an `output_complete` message.
#[derive(Debug, Clone, Copy, PartialEq, Eq)]
pub struct TokenUsage {
    /// Input tokens billed to the provider for this turn.
    pub input_tokens: u64,
    /// Output tokens billed to the provider for this turn.
    pub output_tokens: u64,
}

/// Why the model stopped generating the current turn (closed on the wire).
#[derive(Debug, Clone, Copy, PartialEq, Eq)]
pub enum StopReason {
    /// The model emitted an end-of-turn signal.
    EndTurn,
    /// The model hit its maximum output-token cap.
    MaxTokens,
    /// The model invoked a tool and is waiting for a tool result.
    ToolUse,
}

/// Classification of an agent-reported error (closed on the wire).
#[derive(Debug, Clone, Copy, PartialEq, Eq)]
pub enum ErrorCode {
    /// The model provider returned an error (e.g. HTTP 429).
    ProviderError,
    /// Tool execution inside the agent failed.
    ToolError,
    /// The agent adapter hit an internal failure.
    AdapterError,
    /// The host sent a malformed message.
    ProtocolError,
    /// An adapter-side timeout fired.
    Timeout,
}

/// Why the host is asking the container to shut down (closed on the wire).
#[derive(Debug, Clone, Copy, PartialEq, Eq)]
pub enum ShutdownReason {
    /// The container was idle beyond its configured idle TTL.
    IdleTimeout,
    /// The host itself is shutting down.
    HostShutdown,
    /// The warm pool evicted this container.
    Eviction,
    /// A failed job triggered a recover-by-restart path.
    ErrorRecovery,
}

} // verus!
