//! Per-message-type forward-compatibility policy for unknown fields.
//!
//! Peers on a newer minor may add fields older decoders ignore. Ignored
//! fields are budgeted per message type: high-frequency, narrow types
//! (`heartbeat`, `output_delta`) reject them outright, the others accept a
//! bounded number per frame. From 1.1 on, `heartbeat` and `output_delta`
//! reject them whatever their baseline.

use crate::ipc::error::{IpcError, ProtocolError};
use crate::ipc::message::command::CommandPayload;
use crate::ipc::message::container_to_host::{
    ErrorPayload, HeartbeatPayload, OutputCompletePayload, OutputDeltaPayload, ProgressPayload,
    ReadyPayload,
};
use crate::ipc::message::host_to_container::{InitPayload, MessagesPayload, ShutdownPayload};
use crate::ipc::message::{ContainerToHost, HostToContainer};
use crate::ipc::semantics::ProtocolSemantics;
use vstd::prelude::*;

verus! {

/// Ignored-field accounting for one inbound frame: `keys` counts ignored
/// leaves, `bytes` the JSON-text length of the ignored subtrees.
#[derive(Debug, Clone, Copy, PartialEq, Eq)]
pub struct IgnoredFieldTally {
    /// Number of ignored field leaves observed in this frame.
    pub keys: u32,
    /// Cumulative JSON-text byte length of ignored subtrees in this frame.
    pub bytes: u32,
}

impl Default for IgnoredFieldTally {
    fn default() -> (t: Self)
        ensures
            t.keys == 0 && t.bytes == 0,
    {
        IgnoredFieldTally { keys: 0, bytes: 0 }
    }
}

/// `a + b`, saturating at `u32::MAX`.
pub open spec fn sat_add_u32(a: nat, b: nat) -> nat {
    if a + b > u32::MAX {
        u32::MAX as nat
    } else {
        a + b
    }
}

impl IgnoredFieldTally {
    /// Returns `true` if this tally recorded no ignored fields.
    pub fn is_empty(self) -> (r: bool)
        ensures
            r == (self.keys == 0 && self.bytes == 0),
    {
        self.keys == 0 && self.bytes == 0
    }

    /// Accumulate one more ignored leaf of `subtree_bytes` bytes. Both
    /// counters saturate at `u32::MAX`.
    pub fn push(&mut self, subtree_bytes: usize)
        ensures
            final(self).keys == sat_add_u32(old(self).keys as nat, 1),
            final(self).bytes == sat_add_u32(
                old(self).bytes as nat,
                if subtree_bytes > u32::MAX {
                    u32::MAX as nat
                } else {
                    subtree_bytes as nat
                },
            ),
    {
        self.keys = self.keys.saturating_add(1);
        let clamped: u32 = if subtree_bytes > 4294967295usize {
            4294967295u32
        } else {
            subtree_bytes as u32
        };
        self.bytes = self.bytes.saturating_add(clamped);
    }
}

/// Per-message-type posture toward unknown fields.
#[derive(Debug, Clone, Copy, PartialEq, Eq)]
pub enum ForwardCompatPolicy {
    /// No unknown field is ever permitted.
    Reject,
    /// Unknown fields are permitted up to per-frame caps (`0` disables a
    /// cap).
    Budget {
        /// Maximum ignored-field leaf count per frame.
        max_keys_per_frame: u32,
        /// Maximum ignored-field byte count per frame.
        max_bytes_per_frame: u32,
    },
}

/// The default budget: 16 keys and 4 KiB per frame.
pub open spec fn default_budget_spec() -> ForwardCompatPolicy {
    ForwardCompatPolicy::Budget { max_keys_per_frame: 16, max_bytes_per_frame: 4096 }
}

impl ForwardCompatPolicy {
    /// The default budget for low-frequency, broad payloads: one extra
    /// additive field always fits, a 4 KiB+ blob does not.
    pub fn default_budget() -> (p: Self)
        ensures
            p == default_budget_spec(),
    {
        ForwardCompatPolicy::Budget { max_keys_per_frame: 16, max_bytes_per_frame: 4096 }
    }
}

/// Implemented by every payload the protocol knows: its baseline
/// (version 1.0) forward-compatibility policy.
pub trait KnownMessage {
    /// The baseline policy.
    spec fn baseline_policy() -> ForwardCompatPolicy;

    /// The baseline policy.
    fn forward_compat() -> (p: ForwardCompatPolicy)
        ensures
            p == Self::baseline_policy(),
    ;
}

impl KnownMessage for ReadyPayload {
    open spec fn baseline_policy() -> ForwardCompatPolicy {
        default_budget_spec()
    }

    fn forward_compat() -> (p: ForwardCompatPolicy) {
        ForwardCompatPolicy::default_budget()
    }
}

impl KnownMessage for OutputDeltaPayload {
    open spec fn baseline_policy() -> ForwardCompatPolicy {
        ForwardCompatPolicy::Reject
    }

    fn forward_compat() -> (p: ForwardCompatPolicy) {
        ForwardCompatPolicy::Reject
    }
}

impl KnownMessage for OutputCompletePayload {
    open spec fn baseline_policy() -> ForwardCompatPolicy {
        default_budget_spec()
    }

    fn forward_compat() -> (p: ForwardCompatPolicy) {
        ForwardCompatPolicy::default_budget()
    }
}

impl KnownMessage for ProgressPayload {
    open spec fn baseline_policy() -> ForwardCompatPolicy {
        default_budget_spec()
    }

    fn forward_compat() -> (p: ForwardCompatPolicy) {
        ForwardCompatPolicy::default_budget()
    }
}

impl KnownMessage for CommandPayload {
    open spec fn baseline_policy() -> ForwardCompatPolicy {
        default_budget_spec()
    }

    fn forward_compat() -> (p: ForwardCompatPolicy) {
        ForwardCompatPolicy::default_budget()
    }
}

impl KnownMessage for ErrorPayload {
    open spec fn baseline_policy() -> ForwardCompatPolicy {
        default_budget_spec()
    }

    fn forward_compat() -> (p: ForwardCompatPolicy) {
        ForwardCompatPolicy::default_budget()
    }
}

impl KnownMessage for HeartbeatPayload {
    open spec fn baseline_policy() -> ForwardCompatPolicy {
        ForwardCompatPolicy::Reject
    }

    fn forward_compat() -> (p: ForwardCompatPolicy) {
        ForwardCompatPolicy::Reject
    }
}

impl KnownMessage for InitPayload {
    open spec fn baseline_policy() -> ForwardCompatPolicy {
        default_budget_spec()
    }

    fn forward_compat() -> (p: ForwardCompatPolicy) {
        ForwardCompatPolicy::default_budget()
    }
}

impl KnownMessage for MessagesPayload {
    open spec fn baseline_policy() -> ForwardCompatPolicy {
        default_budget_spec()
    }

    fn forward_compat() -> (p: ForwardCompatPolicy) {
        ForwardCompatPolicy::default_budget()
    }
}

impl KnownMessage for ShutdownPayload {
    open spec fn baseline_policy() -> ForwardCompatPolicy {
        default_budget_spec()
    }

    fn forward_compat() -> (p: ForwardCompatPolicy) {
        ForwardCompatPolicy::default_budget()
    }
}

/// The baseline policy of a container → host message: its payload's.
pub open spec fn container_base_policy(m: ContainerToHost) -> ForwardCompatPolicy {
    match m {
        ContainerToHost::Ready(_) => ReadyPayload::baseline_policy(),
        ContainerToHost::OutputDelta(_) => OutputDeltaPayload::baseline_policy(),
        ContainerToHost::OutputComplete(_) => OutputCompletePayload::baseline_policy(),
        ContainerToHost::Progress(_) => ProgressPayload::baseline_policy(),
        ContainerToHost::Command(_) => CommandPayload::baseline_policy(),
        ContainerToHost::Error(_) => ErrorPayload::baseline_policy(),
        ContainerToHost::Heartbeat(_) => HeartbeatPayload::baseline_policy(),
    }
}

/// The baseline policy of a host → container message: its payload's.
pub open spec fn host_base_policy(m: HostToContainer) -> ForwardCompatPolicy {
    match m {
        HostToContainer::Init(_) => InitPayload::baseline_policy(),
        HostToContainer::Messages(_) => MessagesPayload::baseline_policy(),
        HostToContainer::Shutdown(_) => ShutdownPayload::baseline_policy(),
    }
}

impl ContainerToHost {
    /// The baseline forward-compatibility policy of this message.
    pub fn forward_compat_base(&self) -> (p: ForwardCompatPolicy)
        ensures
            p == container_base_policy(*self),
    {
        match self {
            ContainerToHost::Ready(_) => ReadyPayload::forward_compat(),
            ContainerToHost::OutputDelta(_) => OutputDeltaPayload::forward_compat(),
            ContainerToHost::OutputComplete(_) => OutputCompletePayload::forward_compat(),
            ContainerToHost::Progress(_) => ProgressPayload::forward_compat(),
            ContainerToHost::Command(_) => CommandPayload::forward_compat(),
            ContainerToHost::Error(_) => ErrorPayload::forward_compat(),
            ContainerToHost::Heartbeat(_) => HeartbeatPayload::forward_compat(),
        }
    }
}

impl HostToContainer {
    /// The baseline forward-compatibility policy of this message.
    pub fn forward_compat_base(&self) -> (p: ForwardCompatPolicy)
        ensures
            p == host_base_policy(*self),
    {
        match self {
            HostToContainer::Init(_) => InitPayload::forward_compat(),
            HostToContainer::Messages(_) => MessagesPayload::forward_compat(),
            HostToContainer::Shutdown(_) => ShutdownPayload::forward_compat(),
        }
    }
}

/// The container → host promotion rule.
pub open spec fn promoted_container_policy(
    base: ForwardCompatPolicy,
    msg: ContainerToHost,
    sem: ProtocolSemantics,
) -> ForwardCompatPolicy {
    if sem == ProtocolSemantics::V1_1Plus && (msg is Heartbeat || msg is OutputDelta) {
        ForwardCompatPolicy::Reject
    } else {
        base
    }
}

/// Applies the stricter 1.1+ rule for container → host messages:
/// `heartbeat` and `output_delta` are promoted to `Reject`; everything
/// else keeps `base`.
pub fn promote_for_container(
    base: ForwardCompatPolicy,
    msg: &ContainerToHost,
    sem: ProtocolSemantics,
) -> (p: ForwardCompatPolicy)
    ensures
        p == promoted_container_policy(base, *msg, sem),
{
    match sem {
        ProtocolSemantics::V1_0 => base,
        ProtocolSemantics::V1_1Plus => match msg {
            ContainerToHost::Heartbeat(_) | ContainerToHost::OutputDelta(_) => {
                ForwardCompatPolicy::Reject
            },
            _ => base,
        },
    }
}

/// Host → container messages have no promotions: `base` is kept.
pub fn promote_for_host(base: ForwardCompatPolicy, msg: &HostToContainer, sem: ProtocolSemantics) -> (p:
    ForwardCompatPolicy)
    ensures
        p == base,
{
    base
}

/// What [`enforce`] decides for `tally` under `policy`: `None` to accept,
/// else the breach to report.
pub open spec fn forward_compat_verdict(policy: ForwardCompatPolicy, tally: IgnoredFieldTally) -> Option<
    ForwardCompatBreach,
> {
    if tally.keys == 0 && tally.bytes == 0 {
        None
    } else {
        match policy {
            ForwardCompatPolicy::Reject => Some(ForwardCompatBreach::Rejected),
            ForwardCompatPolicy::Budget { max_keys_per_frame, max_bytes_per_frame } => {
                if max_keys_per_frame > 0 && tally.keys > max_keys_per_frame {
                    Some(ForwardCompatBreach::Keys)
                } else if max_bytes_per_frame > 0 && tally.bytes > max_bytes_per_frame {
                    Some(ForwardCompatBreach::Bytes)
                } else {
                    None
                }
            },
        }
    }
}

/// The ways a frame can break its forward-compatibility policy.
#[derive(PartialEq, Eq)]
pub enum ForwardCompatBreach {
    /// The policy rejects any ignored field.
    Rejected,
    /// Too many ignored keys.
    Keys,
    /// Too many ignored bytes.
    Bytes,
}

/// `e` is the error [`enforce`] reports for the breach `policy` finds in
/// `tally`, for a message of type `message_type`.
pub open spec fn is_breach_error(
    e: IpcError,
    policy: ForwardCompatPolicy,
    tally: IgnoredFieldTally,
    message_type: Seq<char>,
) -> bool {
    match forward_compat_verdict(policy, tally) {
        Some(ForwardCompatBreach::Rejected) => e matches IpcError::Protocol(
            ProtocolError::UnknownFieldsRejected { message_type: m, key_count },
        ) && m@ == message_type && key_count == tally.keys,
        Some(ForwardCompatBreach::Keys) => e matches IpcError::Protocol(
            ProtocolError::IgnoredFieldBudgetExceeded { message_type: m, scope, dimension, observed, limit },
        ) && m@ == message_type && scope@ == "per_frame"@ && dimension@ == "keys"@ && observed
            == tally.keys && limit == policy->max_keys_per_frame,
        Some(ForwardCompatBreach::Bytes) => e matches IpcError::Protocol(
            ProtocolError::IgnoredFieldBudgetExceeded { message_type: m, scope, dimension, observed, limit },
        ) && m@ == message_type && scope@ == "per_frame"@ && dimension@ == "bytes"@ && observed
            == tally.bytes && limit == policy->max_bytes_per_frame,
        None => false,
    }
}

/// Enforces a resolved policy against one frame's tally. An empty tally
/// always passes; `Reject` refuses any ignored field; a budget refuses a
/// key count, then a byte count, above its non-zero cap.
pub fn enforce(policy: ForwardCompatPolicy, tally: IgnoredFieldTally, message_type: &'static str) -> (r:
    Result<(), IpcError>)
    ensures
        r is Ok <==> forward_compat_verdict(policy, tally) is None,
        r matches Err(e) ==> is_breach_error(e, policy, tally, message_type@),
{
    if tally.is_empty() {
        return Ok(());
    }
    match policy {
        ForwardCompatPolicy::Reject => Err(
            IpcError::Protocol(
                ProtocolError::UnknownFieldsRejected { message_type, key_count: tally.keys },
            ),
        ),
        ForwardCompatPolicy::Budget { max_keys_per_frame, max_bytes_per_frame } => {
            if max_keys_per_frame > 0 && tally.keys > max_keys_per_frame {
                return Err(
                    IpcError::Protocol(
                        ProtocolError::IgnoredFieldBudgetExceeded {
                            message_type,
                            scope: "per_frame",
                            dimension: "keys",
                            observed: tally.keys,
                            limit: max_keys_per_frame,
                        },
                    ),
                );
            }
            if max_bytes_per_frame > 0 && tally.bytes > max_bytes_per_frame {
                return Err(
                    IpcError::Protocol(
                        ProtocolError::IgnoredFieldBudgetExceeded {
                            message_type,
                            scope: "per_frame",
                            dimension: "bytes",
                            observed: tally.bytes,
                            limit: max_bytes_per_frame,
                        },
                    ),
                );
            }
            Ok(())
        },
    }
}

/// From 1.1 on, `heartbeat` and `output_delta` reject any ignored field,
/// whatever their baseline, and every other message keeps its baseline;
/// at 1.0 no message's policy is changed.
pub proof fn lemma_promotion_rules(base: ForwardCompatPolicy, msg: ContainerToHost)
    ensures
        (msg is Heartbeat || msg is OutputDelta) ==> promoted_container_policy(
            base,
            msg,
            ProtocolSemantics::V1_1Plus,
        ) == ForwardCompatPolicy::Reject,
        promoted_container_policy(base, msg, ProtocolSemantics::V1_0) == base,
        !(msg is Heartbeat || msg is OutputDelta) ==> promoted_container_policy(
            base,
            msg,
            ProtocolSemantics::V1_1Plus,
        ) == base,
{
}

/// A frame without ignored fields passes every policy.
pub proof fn lemma_empty_tally_always_passes(policy: ForwardCompatPolicy)
    ensures
        forward_compat_verdict(policy, IgnoredFieldTally { keys: 0, bytes: 0 }) is None,
{
}

} // verus!
