use forgeclaw::id::JobId;
use forgeclaw::ipc::error::{IpcError, ProtocolError};
use forgeclaw::ipc::lifecycle::{
    enforce_container_to_host, enforce_host_to_container, ConnectionPhase, LifecycleAction,
    LifecycleState,
};
use forgeclaw::ipc::message::collections::HistoricalMessages;
use forgeclaw::ipc::message::container_to_host::{
    HeartbeatPayload, OutputCompletePayload, OutputDeltaPayload,
};
use forgeclaw::ipc::message::host_to_container::{MessagesPayload, ShutdownPayload};
use forgeclaw::ipc::message::shared::{ShutdownReason, StopReason};
use forgeclaw::ipc::message::{ContainerToHost, HostToContainer};
use forgeclaw::ipc::outbound::validate_core_id_field;
use forgeclaw::ipc::policy::{UnknownFrameBudget, UnknownTrafficBudget, UnknownTrafficLimitConfig};
use forgeclaw::ipc::session::{ClientSession, PendingSession, RecvStep};

const SECOND: u64 = 1_000_000_000;

fn job(id: &str) -> JobId {
    JobId::new(id).expect("valid job id")
}

fn complete(id: &str) -> ContainerToHost {
    ContainerToHost::OutputComplete(OutputCompletePayload {
        job_id: job(id),
        result: None,
        session_id: None,
        token_usage: None,
        stop_reason: StopReason::EndTurn,
    })
}

fn delta(id: &str) -> ContainerToHost {
    ContainerToHost::OutputDelta(OutputDeltaPayload {
        text: "hello".parse().expect("valid output text"),
        job_id: job(id),
    })
}

fn shutdown() -> HostToContainer {
    HostToContainer::Shutdown(ShutdownPayload {
        reason: ShutdownReason::HostShutdown,
        deadline_ms: 1000,
    })
}

fn messages(id: &str) -> HostToContainer {
    HostToContainer::Messages(MessagesPayload {
        job_id: job(id),
        messages: HistoricalMessages::empty(),
    })
}

fn heartbeat() -> ContainerToHost {
    ContainerToHost::Heartbeat(HeartbeatPayload {
        timestamp: "2026-04-16T00:00:00Z".parse().expect("valid timestamp"),
    })
}

fn limits(
    lifetime_message_limit: usize,
    lifetime_byte_limit: usize,
    rate_limit_burst_capacity: u32,
    rate_limit_refill_per_second: u32,
) -> UnknownTrafficLimitConfig {
    UnknownTrafficLimitConfig {
        lifetime_message_limit,
        lifetime_byte_limit,
        rate_limit_burst_capacity,
        rate_limit_refill_per_second,
        ignored_field_lifetime_keys: 0,
        ignored_field_lifetime_bytes: 0,
    }
}

#[test]
fn unknown_budget_lifetime_count_enforced_across_resets() {
    let now = 0;
    let mut budget = UnknownTrafficBudget::new(now, limits(3, 0, 0, 0));
    budget.on_unknown(10, now).expect("first unknown");
    budget.reset_consecutive();
    budget.on_unknown(10, now).expect("second unknown");
    budget.reset_consecutive();
    budget.on_unknown(10, now).expect("third unknown");
    budget.reset_consecutive();
    let err = budget
        .on_unknown(10, now)
        .expect_err("lifetime cap should be enforced");
    assert!(matches!(
        err,
        IpcError::Protocol(ProtocolError::TooManyUnknownMessagesTotal { .. })
    ));
}

#[test]
fn unknown_budget_lifetime_bytes_enforced_across_resets() {
    let now = 0;
    let mut budget = UnknownTrafficBudget::new(now, limits(0, 100, 0, 0));
    budget.on_unknown(60, now).expect("first unknown");
    budget.reset_consecutive();
    let err = budget
        .on_unknown(60, now)
        .expect_err("lifetime byte cap should be enforced");
    assert!(matches!(
        err,
        IpcError::Protocol(ProtocolError::TooManyUnknownBytesTotal { .. })
    ));
}

#[test]
fn unknown_budget_rate_limiter_enforced() {
    let now = 5 * SECOND;
    let mut budget = UnknownTrafficBudget::new(now, limits(0, 0, 2, 1));
    budget.on_unknown(1, now).expect("token 1");
    budget.on_unknown(1, now).expect("token 2");
    let err = budget
        .on_unknown(1, now)
        .expect_err("third unknown should hit rate limit");
    assert!(matches!(
        err,
        IpcError::Protocol(ProtocolError::UnknownMessageRateLimitExceeded { .. })
    ));
}

#[test]
fn unknown_budget_rate_limiter_refills_over_time() {
    let start = 0;
    let mut budget = UnknownTrafficBudget::new(start, limits(0, 0, 1, 1));
    budget.on_unknown(1, start).expect("burst token");
    budget.reset_consecutive();
    assert!(budget.on_unknown(1, start + SECOND / 2).is_err());
    budget.reset_consecutive();
    budget
        .on_unknown(1, start + 2 * SECOND)
        .expect("a token refilled after a second");
}

#[test]
fn half_disabled_rate_limiter_is_off() {
    let cfg = limits(0, 0, 4, 0).normalized();
    assert!(!cfg.rate_limiter_enabled());
    assert_eq!(cfg.rate_limit_burst_capacity, 0);
    let mut budget = UnknownTrafficBudget::new(0, limits(0, 0, 4, 0));
    for _ in 0..10 {
        budget.on_unknown(1, 0).expect("no rate limit");
        budget.reset_consecutive();
    }
    assert_eq!(budget.total_count(), 10);
    assert_eq!(budget.total_bytes(), 10);
}

#[test]
fn consecutive_unknown_budget_counts_and_resets() {
    let mut budget = UnknownFrameBudget::new();
    budget.on_unknown(10).expect("first");
    budget.on_unknown(20).expect("second");
    assert_eq!(budget.count(), 2);
    assert_eq!(budget.bytes(), 30);
    budget.reset();
    assert_eq!(budget.count(), 0);
    assert_eq!(budget.bytes(), 0);
}

#[test]
fn consecutive_unknown_budget_caps_streak() {
    let mut budget = UnknownFrameBudget::new();
    let mut failed = false;
    for _ in 0..100 {
        if budget.on_unknown(1).is_err() {
            failed = true;
            break;
        }
    }
    assert!(failed, "the consecutive streak must be bounded");
}

#[test]
fn validate_core_id_field_rejects_whitespace() {
    let err = validate_core_id_field("container_to_host", "command", "payload.group", "  ")
        .expect_err("whitespace id should fail");
    assert!(matches!(
        err,
        IpcError::Protocol(ProtocolError::OutboundValidation { .. })
    ));
}

#[test]
fn validate_core_id_field_rejects_over_128_chars() {
    let value = "x".repeat(129);
    let err = validate_core_id_field("host_to_container", "init", "job_id", &value)
        .expect_err("overflow id should fail");
    assert!(matches!(
        err,
        IpcError::Protocol(ProtocolError::OutboundValidation { .. })
    ));
}

#[test]
fn lifecycle_completion_then_new_job() {
    let mut state = LifecycleState::new(job("job-1"));
    assert_eq!(state.phase(), ConnectionPhase::Processing);
    let action = enforce_container_to_host(&mut state, &delta("job-1")).expect("delta ok");
    assert_eq!(action, LifecycleAction::Continue);
    enforce_container_to_host(&mut state, &complete("job-1")).expect("complete ok");
    assert_eq!(state.phase(), ConnectionPhase::Idle);
    assert_eq!(state.phase_name(), "idle");
    enforce_host_to_container(&mut state, &messages("job-2")).expect("new job from idle");
    assert_eq!(state.phase(), ConnectionPhase::Processing);
    assert_eq!(state.active_job_id().as_str(), "job-2");
}

#[test]
fn lifecycle_rejects_wrong_job_and_keeps_state() {
    let mut state = LifecycleState::new(job("job-1"));
    let err = enforce_container_to_host(&mut state, &delta("job-9")).expect_err("mismatch");
    assert!(matches!(
        err,
        IpcError::Protocol(ProtocolError::JobIdMismatch { .. })
    ));
    assert_eq!(state.phase(), ConnectionPhase::Processing);
    assert_eq!(state.active_job_id().as_str(), "job-1");
    assert!(enforce_host_to_container(&mut state, &messages("job-9")).is_err());
}

#[test]
fn shutdown_drains_then_closes_on_completion() {
    let mut state = LifecycleState::new(job("job-1"));
    enforce_host_to_container(&mut state, &shutdown()).expect("shutdown ok");
    assert_eq!(state.phase(), ConnectionPhase::DrainingAwaitingCompletion);
    assert!(enforce_host_to_container(&mut state, &shutdown()).is_err());
    assert!(enforce_host_to_container(&mut state, &messages("job-1")).is_err());
    let action =
        enforce_container_to_host(&mut state, &complete("job-1")).expect("completion ok");
    assert_eq!(action, LifecycleAction::CloseAfterCurrentFrame);
    assert!(action.should_close_after_frame());
    assert_eq!(state.phase(), ConnectionPhase::Closed);
    assert!(enforce_container_to_host(&mut state, &heartbeat()).is_err());
}

#[test]
fn client_session_poisons_after_close_action() {
    let mut session = ClientSession::new(job("job-1"));
    assert!(!session.is_poisoned());
    let action = session.prepare_send(&complete("job-1")).expect("complete ok");
    session.finish_send(Ok(()), action).expect("written");
    assert!(!session.is_poisoned());
    session.poison();
    let err = session.prepare_send(&heartbeat()).expect_err("poisoned");
    assert!(matches!(err, IpcError::Closed));
}

#[test]
fn client_session_end_of_stream_is_closed() {
    let mut session = ClientSession::new(job("job-1"));
    let err = session.on_end_of_stream();
    assert!(matches!(err, IpcError::Closed));
    assert!(session.is_poisoned());
}

fn unknown_frame() -> Result<HostToContainer, IpcError> {
    Err(IpcError::Protocol(ProtocolError::UnknownMessageType(
        "future_message".to_string(),
    )))
}

#[test]
fn pending_session_skips_bounded_unknown_streak_then_poisons() {
    let mut session = PendingSession::new(0, UnknownTrafficLimitConfig::default());
    for _ in 0..32 {
        assert!(matches!(session.on_frame(10, unknown_frame(), 0), RecvStep::Skip));
    }
    match session.on_frame(10, unknown_frame(), 0) {
        RecvStep::Fail(IpcError::Protocol(ProtocolError::TooManyUnknownMessages {
            count,
            limit,
        })) => {
            assert_eq!(count, 33);
            assert_eq!(limit, 32);
        }
        other => panic!("expected streak failure, got {other:?}"),
    }
    assert!(session.is_poisoned());
    assert!(matches!(
        session.on_frame(10, Ok(shutdown()), 0),
        RecvStep::Fail(IpcError::Closed)
    ));
}

#[test]
fn pending_session_delivery_resets_streak() {
    let mut session = PendingSession::new(0, UnknownTrafficLimitConfig::default());
    for _ in 0..32 {
        assert!(matches!(session.on_frame(10, unknown_frame(), 0), RecvStep::Skip));
    }
    assert!(matches!(session.on_frame(10, Ok(shutdown()), 0), RecvStep::Deliver(_)));
    assert!(matches!(session.on_frame(10, unknown_frame(), 0), RecvStep::Skip));
    assert!(!session.is_poisoned());
}

#[test]
fn pending_session_lifetime_limit_poisons() {
    let mut session = PendingSession::new(0, limits(2, 0, 0, 0));
    assert!(matches!(session.on_frame(5, unknown_frame(), 0), RecvStep::Skip));
    assert!(matches!(session.on_frame(5, Ok(shutdown()), 0), RecvStep::Deliver(_)));
    assert!(matches!(session.on_frame(5, unknown_frame(), 0), RecvStep::Skip));
    match session.on_frame(5, unknown_frame(), 0) {
        RecvStep::Fail(IpcError::Protocol(ProtocolError::TooManyUnknownMessagesTotal {
            count,
            limit,
        })) => {
            assert_eq!(count, 3);
            assert_eq!(limit, 2);
        }
        other => panic!("expected lifetime failure, got {other:?}"),
    }
    assert!(session.is_poisoned());
}

#[test]
fn pending_session_non_fatal_error_keeps_connection() {
    let mut session = PendingSession::new(0, UnknownTrafficLimitConfig::default());
    let err = IpcError::Protocol(ProtocolError::UnexpectedMessage {
        expected: "init",
        got: "shutdown",
    });
    let fatal = err.is_fatal();
    assert!(matches!(session.on_frame(5, Err(err), 0), RecvStep::Fail(_)));
    assert_eq!(session.is_poisoned(), fatal);
    let err = session.on_end_of_stream();
    assert!(matches!(err, IpcError::Closed));
    assert!(session.is_poisoned());
}
