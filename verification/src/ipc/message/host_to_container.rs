//! Payloads of host → container messages.

use crate::id::JobId;
use crate::ipc::message::bounded_text::{ModelText, SessionIdText, TokenText};
use crate::ipc::message::collections::HistoricalMessages;
use crate::ipc::message::shared::{GroupInfo, ShutdownReason};
use crate::ipc::message::time::IanaTimezone;
use crate::ipc::message::url::AbsoluteHttpUrl;
use vstd::prelude::*;

verus! {

/// Context bundle carried inside an `init` message.
#[derive(Debug, Clone, PartialEq, Eq)]
pub struct InitContext {
    /// Historical messages making up the current context window.
    pub messages: HistoricalMessages,
    /// Summary of the group the agent is serving.
    pub group: GroupInfo,
    /// IANA timezone name for resolving relative time references.
    pub timezone: IanaTimezone,
}

/// Provider-proxy and adapter configuration carried inside an `init`.
#[derive(Debug, Clone, PartialEq, Eq)]
pub struct InitConfig {
    /// Base URL the adapter should target for provider calls.
    pub provider_proxy_url: AbsoluteHttpUrl,
    /// Bearer token the adapter should present to the provider proxy.
    pub provider_proxy_token: TokenText,
    /// Model identifier to request from the provider.
    pub model: ModelText,
    /// Maximum output tokens for this job.
    pub max_tokens: u32,
    /// Adapter session identifier to resume (if any).
    pub session_id: Option<SessionIdText>,
    /// Whether tool use is permitted for this job.
    pub tools_enabled: bool,
    /// Hard timeout (in seconds) for the whole job.
    pub timeout_seconds: u32,
}

/// `init` — initial context and configuration for processing a job.
#[derive(Debug, Clone, PartialEq, Eq)]
pub struct InitPayload {
    /// Unique job identifier for correlation with downstream messages.
    pub job_id: JobId,
    /// Message history, group info, timezone.
    pub context: InitContext,
    /// Provider proxy URL/token, model, limits.
    pub config: InitConfig,
}

/// `messages` — follow-up messages for an in-flight job.
#[derive(Debug, Clone, PartialEq, Eq)]
pub struct MessagesPayload {
    /// Job identifier this follow-up belongs to.
    pub job_id: JobId,
    /// New historical messages to append to the context window.
    pub messages: HistoricalMessages,
}

/// `shutdown` — request graceful shutdown.
#[derive(Debug, Clone, PartialEq, Eq)]
pub struct ShutdownPayload {
    /// Why the host is asking for shutdown.
    pub reason: ShutdownReason,
    /// Deadline in milliseconds after which the host forcibly terminates
    /// the container.
    pub deadline_ms: u64,
}

} // verus!
