//! Payloads of container → host messages.

use crate::id::JobId;
use crate::ipc::message::bounded_text::{
    AdapterName, AdapterVersion, OutputDeltaText, OutputResultText, ProtocolVersionText,
    SessionIdText, ShortText, StageName,
};
use crate::ipc::message::shared::{ErrorCode, StopReason, TokenUsage};
use crate::ipc::message::time::IpcTimestamp;
use crate::text::{decimal_seq, push_decimal, push_str};
use vstd::prelude::*;

verus! {

/// Error returned when a percentage exceeds 100.
#[derive(Debug, Clone, PartialEq, Eq)]
pub struct PercentError {
    /// The rejected value.
    pub value: u8,
}

impl PercentError {
    /// The display text: `percentage <value> exceeds maximum of 100`.
    pub fn message(&self) -> (s: String)
        ensures
            s@ == "percentage "@ + decimal_seq(self.value as nat) + " exceeds maximum of 100"@,
    {
        let mut s = String::new();
        push_str(&mut s, "percentage ");
        push_decimal(&mut s, self.value as u64);
        push_str(&mut s, " exceeds maximum of 100");
        s
    }
}

/// A completion percentage bounded to `0..=100`.
#[derive(Debug, Clone, Copy, PartialEq, Eq, Hash)]
pub struct Percent(u8);

impl View for Percent {
    type V = u8;

    closed spec fn view(&self) -> u8 {
        self.0
    }
}

impl Percent {
    /// The largest percentage.
    pub const MAX: u8 = 100;

    /// Never above 100.
    #[verifier::type_invariant]
    pub open spec fn wf(self) -> bool {
        self@ <= 100
    }

    /// Construct a percentage, rejecting values above 100.
    pub fn new(value: u8) -> (r: Result<Self, PercentError>)
        ensures
            r is Ok <==> value <= 100,
            r matches Ok(p) ==> p@ == value,
            r matches Err(e) ==> e.value == value,
    {
        if value > Self::MAX {
            return Err(PercentError { value });
        }
        Ok(Percent(value))
    }

    /// The percentage.
    pub fn value(self) -> (v: u8)
        ensures
            v == self@,
            v <= 100,
    {
        proof {
            use_type_invariant(self);
        }
        self.0
    }
}

/// `ready` — adapter has initialized and is ready to receive work.
#[derive(Debug, Clone, PartialEq, Eq)]
pub struct ReadyPayload {
    /// Adapter runtime name.
    pub adapter: AdapterName,
    /// Adapter implementation version.
    pub adapter_version: AdapterVersion,
    /// Protocol version the adapter speaks.
    pub protocol_version: ProtocolVersionText,
}

/// `output_delta` — incremental text chunk streamed from the model.
#[derive(Debug, Clone, PartialEq, Eq)]
pub struct OutputDeltaPayload {
    /// The chunk.
    pub text: OutputDeltaText,
    /// The job it belongs to.
    pub job_id: JobId,
}

/// `output_complete` — final result for a job.
#[derive(Debug, Clone, PartialEq, Eq)]
pub struct OutputCompletePayload {
    /// The job that completed.
    pub job_id: JobId,
    /// Final result text (present on the wire, possibly `null`).
    pub result: Option<OutputResultText>,
    /// Adapter session identifier, if any.
    pub session_id: Option<SessionIdText>,
    /// Token accounting, if reported.
    pub token_usage: Option<TokenUsage>,
    /// Why generation stopped.
    pub stop_reason: StopReason,
}

/// `progress` — optional progress signal for long-running work.
#[derive(Debug, Clone, PartialEq, Eq)]
pub struct ProgressPayload {
    /// The job in progress.
    pub job_id: JobId,
    /// Stage name.
    pub stage: StageName,
    /// Optional detail.
    pub detail: Option<ShortText>,
    /// Optional completion percentage.
    pub percent: Option<Percent>,
}

/// `error` — adapter reports an error.
#[derive(Debug, Clone, PartialEq, Eq)]
pub struct ErrorPayload {
    /// Error class.
    pub code: ErrorCode,
    /// Human-readable message.
    pub message: ShortText,
    /// Whether the adapter considers the error fatal.
    pub fatal: bool,
    /// The job concerned, if any.
    pub job_id: Option<JobId>,
}

/// `heartbeat` — periodic liveness signal.
#[derive(Debug, Clone, PartialEq, Eq)]
pub struct HeartbeatPayload {
    /// When the heartbeat was emitted.
    pub timestamp: IpcTimestamp,
}

} // verus!
