//! Outbound validation of wire constraints before serialization.
//!
//! Every field these checks look at already carries its constraint as a
//! type invariant, so a message built through the typed constructors
//! always passes, with one exception: `register_group` extensions are
//! checked for their encoded size, which no type can carry.

use crate::ipc::error::{IpcError, ProtocolError};
use crate::ipc::limits::{
    MAX_HISTORICAL_MESSAGES, MAX_OUTPUT_RESULT_TEXT_CHARS, MAX_SELF_IMPROVEMENT_LIST_ITEMS,
    MAX_SESSION_ID_TEXT_CHARS,
};
use crate::ipc::message::command::CommandBody;
use crate::ipc::message::extensions::{
    encoded_within_bound, extensions_encoded_len, MAX_GROUP_EXTENSIONS_ENCODED_BYTES,
};
use crate::ipc::message::{ContainerToHost, HostToContainer};
use crate::text::{char_count, decimal_seq, is_blank, is_blank_seq, owned, push_decimal, push_str};
use vstd::prelude::*;

verus! {

/// Maximum length of a core identifier.
pub const CORE_ID_MAX_LEN: usize = 128;

/// `e` is the outbound-validation error for `field_path` of a message of
/// `message_type` travelling in `direction`, for `reason`.
pub open spec fn is_outbound_error(
    e: IpcError,
    direction: Seq<char>,
    message_type: Seq<char>,
    field_path: Seq<char>,
    reason: Seq<char>,
) -> bool {
    e matches IpcError::Protocol(
        ProtocolError::OutboundValidation { direction: d, message_type: m, field_path: f, reason: r },
    ) && d@ == direction && m@ == message_type && f@ == field_path && r@ == reason
}

fn outbound_validation_error(
    direction: &'static str,
    message_type: &'static str,
    field_path: &'static str,
    reason: String,
) -> (e: IpcError)
    ensures
        is_outbound_error(e, direction@, message_type@, field_path@, reason@),
{
    IpcError::Protocol(
        ProtocolError::OutboundValidation {
            direction,
            message_type,
            field_path: owned(field_path),
            reason,
        },
    )
}

/// Rejects a collection of `actual` entries above `max`, with reason
/// `count <actual> exceeds maximum <max>`.
pub fn validate_collection_len(
    direction: &'static str,
    message_type: &'static str,
    field_path: &'static str,
    actual: usize,
    max: usize,
) -> (r: Result<(), IpcError>)
    ensures
        r is Ok <==> actual <= max,
        r matches Err(e) ==> is_outbound_error(
            e,
            direction@,
            message_type@,
            field_path@,
            "count "@ + decimal_seq(actual as nat) + " exceeds maximum "@ + decimal_seq(max as nat),
        ),
{
    if actual <= max {
        return Ok(());
    }
    let mut reason = String::new();
    push_str(&mut reason, "count ");
    push_decimal(&mut reason, actual as u64);
    push_str(&mut reason, " exceeds maximum ");
    push_decimal(&mut reason, max as u64);
    Err(outbound_validation_error(direction, message_type, field_path, reason))
}

/// Rejects a text longer than `max` characters, with reason
/// `length <actual> exceeds maximum <max>`.
pub fn validate_max_len_field(
    direction: &'static str,
    message_type: &'static str,
    field_path: &'static str,
    value: &str,
    max: usize,
) -> (r: Result<(), IpcError>)
    ensures
        r is Ok <==> value@.len() <= max,
        r matches Err(e) ==> is_outbound_error(
            e,
            direction@,
            message_type@,
            field_path@,
            "length "@ + decimal_seq(value@.len()) + " exceeds maximum "@ + decimal_seq(max as nat),
        ),
{
    let actual = char_count(value);
    if actual <= max {
        return Ok(());
    }
    let mut reason = String::new();
    push_str(&mut reason, "length ");
    push_decimal(&mut reason, actual as u64);
    push_str(&mut reason, " exceeds maximum ");
    push_decimal(&mut reason, max as u64);
    Err(outbound_validation_error(direction, message_type, field_path, reason))
}

/// Rejects a blank identifier, then one longer than 128 characters.
pub fn validate_core_id_field(
    direction: &'static str,
    message_type: &'static str,
    field_path: &'static str,
    value: &str,
) -> (r: Result<(), IpcError>)
    ensures
        r is Ok <==> (!is_blank_seq(value@) && value@.len() <= CORE_ID_MAX_LEN),
        r matches Err(e) ==> if is_blank_seq(value@) {
            is_outbound_error(
                e,
                direction@,
                message_type@,
                field_path@,
                "must contain at least one non-whitespace character"@,
            )
        } else {
            is_outbound_error(
                e,
                direction@,
                message_type@,
                field_path@,
                "length "@ + decimal_seq(value@.len()) + " exceeds maximum "@ + decimal_seq(
                    CORE_ID_MAX_LEN as nat,
                ),
            )
        },
{
    if is_blank(value) {
        return Err(
            outbound_validation_error(
                direction,
                message_type,
                field_path,
                owned("must contain at least one non-whitespace character"),
            ),
        );
    }
    validate_max_len_field(direction, message_type, field_path, value, CORE_ID_MAX_LEN)
}

/// Validates a host → container message before it is sent. Typed
/// messages always pass.
pub fn validate_outbound_host_to_container(msg: &HostToContainer) -> (r: Result<(), IpcError>)
    ensures
        r is Ok,
{
    match msg {
        HostToContainer::Init(payload) => {
            proof {
                use_type_invariant(&payload.job_id);
                use_type_invariant(&payload.context.group.id);
            }
            let ok1 = validate_core_id_field(
                "host_to_container",
                "init",
                "job_id",
                payload.job_id.as_str(),
            );
            let ok2 = validate_collection_len(
                "host_to_container",
                "init",
                "context.messages",
                payload.context.messages.len(),
                MAX_HISTORICAL_MESSAGES,
            );
            let ok3 = validate_core_id_field(
                "host_to_container",
                "init",
                "context.group.id",
                payload.context.group.id.as_str(),
            );
            match (ok1, ok2, ok3) {
                (Ok(()), Ok(()), Ok(())) => Ok(()),
                (Err(e), _, _) => Err(e),
                (_, Err(e), _) => Err(e),
                (_, _, Err(e)) => Err(e),
            }
        },
        HostToContainer::Messages(payload) => {
            proof {
                use_type_invariant(&payload.job_id);
            }
            match validate_core_id_field(
                "host_to_container",
                "messages",
                "job_id",
                payload.job_id.as_str(),
            ) {
                Ok(()) => {},
                Err(e) => return Err(e),
            }
            validate_collection_len(
                "host_to_container",
                "messages",
                "messages",
                payload.messages.len(),
                MAX_HISTORICAL_MESSAGES,
            )
        },
        HostToContainer::Shutdown(_) => Ok(()),
    }
}

/// Whether an outbound command's wire constraints hold: only
/// `register_group` extensions can break them, by their encoded size.
pub open spec fn outbound_command_ok(body: CommandBody) -> bool {
    match body {
        CommandBody::RegisterGroup(p) => match p.extensions {
            Some(x) => encoded_within_bound(x.version_spec(), x.data_spec()),
            None => true,
        },
        _ => true,
    }
}

/// The reason an outbound command is refused: the size text of its
/// `register_group` extensions (empty for a command that passes).
pub open spec fn command_rejection_reason(body: CommandBody) -> Seq<char> {
    match body {
        CommandBody::RegisterGroup(p) => match p.extensions {
            Some(x) => "extensions encoded size "@ + decimal_seq(
                extensions_encoded_len(x.version_spec(), x.data_spec()),
            ) + " exceeds maximum "@ + decimal_seq(MAX_GROUP_EXTENSIONS_ENCODED_BYTES as nat),
            None => Seq::empty(),
        },
        _ => Seq::empty(),
    }
}

/// Validates the body of an outbound command.
pub fn validate_outbound_command_payload(body: &CommandBody) -> (r: Result<(), IpcError>)
    ensures
        r is Ok <==> outbound_command_ok(*body),
        r matches Err(e) ==> (e matches IpcError::Protocol(
            ProtocolError::OutboundValidation { direction, message_type, field_path, reason },
        ) && direction@ == "container_to_host"@ && message_type@ == "command"@ && field_path@
            == "payload.extensions"@ && reason@ == command_rejection_reason(*body)),
{
    match body {
        CommandBody::SendMessage(payload) => {
            proof {
                use_type_invariant(&payload.target_group);
            }
            validate_core_id_field(
                "container_to_host",
                "command",
                "payload.target_group",
                payload.target_group.as_str(),
            )
        },
        CommandBody::ScheduleTask(payload) => {
            proof {
                use_type_invariant(&payload.group);
            }
            validate_core_id_field(
                "container_to_host",
                "command",
                "payload.group",
                payload.group.as_str(),
            )
        },
        CommandBody::PauseTask(payload) => {
            proof {
                use_type_invariant(&payload.task_id);
            }
            validate_core_id_field(
                "container_to_host",
                "command",
                "payload.task_id",
                payload.task_id.as_str(),
            )
        },
        CommandBody::CancelTask(payload) => {
            proof {
                use_type_invariant(&payload.task_id);
            }
            validate_core_id_field(
                "container_to_host",
                "command",
                "payload.task_id",
                payload.task_id.as_str(),
            )
        },
        CommandBody::RegisterGroup(payload) => {
            if let Some(extensions) = &payload.extensions {
                match extensions.validate_wire_invariants() {
                    Ok(()) => {},
                    Err(err) => {
                        return Err(
                            outbound_validation_error(
                                "container_to_host",
                                "command",
                                "payload.extensions",
                                err.message(),
                            ),
                        );
                    },
                }
            }
            Ok(())
        },
        CommandBody::DispatchTanren(_) => Ok(()),
        CommandBody::DispatchSelfImprovement(payload) => {
            match validate_collection_len(
                "container_to_host",
                "command",
                "payload.scopes",
                payload.scopes.len(),
                MAX_SELF_IMPROVEMENT_LIST_ITEMS,
            ) {
                Ok(()) => {},
                Err(e) => return Err(e),
            }
            validate_collection_len(
                "container_to_host",
                "command",
                "payload.acceptance_tests",
                payload.acceptance_tests.len(),
                MAX_SELF_IMPROVEMENT_LIST_ITEMS,
            )
        },
    }
}

/// Whether an outbound container → host message's wire constraints hold.
pub open spec fn outbound_container_ok(msg: ContainerToHost) -> bool {
    match msg {
        ContainerToHost::Command(p) => outbound_command_ok(p.body),
        _ => true,
    }
}

/// The reason an outbound container → host message is refused: that of
/// its command (empty for any other message).
pub open spec fn container_rejection_reason(msg: ContainerToHost) -> Seq<char> {
    match msg {
        ContainerToHost::Command(p) => command_rejection_reason(p.body),
        _ => Seq::empty(),
    }
}

/// Validates a container → host message before it is sent. Typed
/// messages pass unless they carry over-large `register_group`
/// extensions.
pub fn validate_outbound_container_to_host(msg: &ContainerToHost) -> (r: Result<(), IpcError>)
    ensures
        r is Ok <==> outbound_container_ok(*msg),
        r matches Err(e) ==> (e matches IpcError::Protocol(
            ProtocolError::OutboundValidation { direction, message_type, field_path, reason },
        ) && direction@ == "container_to_host"@ && message_type@ == "command"@ && field_path@
            == "payload.extensions"@ && reason@ == container_rejection_reason(*msg)),
{
    match msg {
        ContainerToHost::Ready(_) | ContainerToHost::Heartbeat(_) => Ok(()),
        ContainerToHost::OutputDelta(payload) => {
            proof {
                use_type_invariant(&payload.job_id);
            }
            validate_core_id_field(
                "container_to_host",
                "output_delta",
                "job_id",
                payload.job_id.as_str(),
            )
        },
        ContainerToHost::OutputComplete(payload) => {
            proof {
                use_type_invariant(&payload.job_id);
            }
            match validate_core_id_field(
                "container_to_host",
                "output_complete",
                "job_id",
                payload.job_id.as_str(),
            ) {
                Ok(()) => {},
                Err(e) => return Err(e),
            }
            if let Some(session_id) = &payload.session_id {
                proof {
                    use_type_invariant(session_id);
                }
                match validate_max_len_field(
                    "container_to_host",
                    "output_complete",
                    "session_id",
                    session_id.as_str(),
                    MAX_SESSION_ID_TEXT_CHARS,
                ) {
                    Ok(()) => {},
                    Err(e) => return Err(e),
                }
            }
            if let Some(result) = &payload.result {
                proof {
                    use_type_invariant(result);
                }
                match validate_max_len_field(
                    "container_to_host",
                    "output_complete",
                    "result",
                    result.as_str(),
                    MAX_OUTPUT_RESULT_TEXT_CHARS,
                ) {
                    Ok(()) => {},
                    Err(e) => return Err(e),
                }
            }
            Ok(())
        },
        ContainerToHost::Progress(payload) => {
            proof {
                use_type_invariant(&payload.job_id);
            }
            validate_core_id_field(
                "container_to_host",
                "progress",
                "job_id",
                payload.job_id.as_str(),
            )
        },
        ContainerToHost::Error(payload) => {
            if let Some(job_id) = &payload.job_id {
                proof {
                    use_type_invariant(job_id);
                }
                match validate_core_id_field(
                    "container_to_host",
                    "error",
                    "job_id",
                    job_id.as_str(),
                ) {
                    Ok(()) => {},
                    Err(e) => return Err(e),
                }
            }
            Ok(())
        },
        ContainerToHost::Command(payload) => validate_outbound_command_payload(&payload.body),
    }
}

} // verus!
