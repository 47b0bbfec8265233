use forgeclaw::ipc::error::{IpcError, ProtocolError};
use forgeclaw::ipc::forward_compat::{
    enforce, promote_for_container, promote_for_host, ForwardCompatPolicy, IgnoredFieldTally,
};
use forgeclaw::ipc::message::container_to_host::HeartbeatPayload;
use forgeclaw::ipc::message::host_to_container::ShutdownPayload;
use forgeclaw::ipc::message::shared::ShutdownReason;
use forgeclaw::ipc::message::{ContainerToHost, HostToContainer};
use forgeclaw::ipc::path_policy::validate_socket_path_shape;
use forgeclaw::ipc::peer_cred::attestation::{
    map_attestation_verdict, merge_evidence, AttestationEvidence, ListenerSocketAttestation,
};
use forgeclaw::ipc::peer_cred::socket_dir::{
    canonical_parent_path, components_of, normalized_relative_components,
};
use forgeclaw::ipc::semantics::{validate_host_to_container, ProtocolSemantics};
use forgeclaw::ipc::version::NegotiatedProtocolVersion;

fn sample_heartbeat() -> ContainerToHost {
    ContainerToHost::Heartbeat(HeartbeatPayload {
        timestamp: "2026-04-16T00:00:00Z".parse().expect("valid timestamp"),
    })
}

fn sample_shutdown(deadline_ms: u64) -> HostToContainer {
    HostToContainer::Shutdown(ShutdownPayload {
        reason: ShutdownReason::IdleTimeout,
        deadline_ms,
    })
}

#[test]
fn empty_tally_is_always_ok() {
    enforce(
        ForwardCompatPolicy::Reject,
        IgnoredFieldTally::default(),
        "heartbeat",
    )
    .expect("empty tally under Reject");
    enforce(
        ForwardCompatPolicy::default_budget(),
        IgnoredFieldTally::default(),
        "ready",
    )
    .expect("empty tally under Budget");
}

#[test]
fn reject_rejects_any_ignored_field() {
    let err = enforce(
        ForwardCompatPolicy::Reject,
        IgnoredFieldTally { keys: 1, bytes: 4 },
        "heartbeat",
    )
    .expect_err("Reject must fail on any ignored field");
    assert!(matches!(
        err,
        IpcError::Protocol(ProtocolError::UnknownFieldsRejected { .. })
    ));
}

#[test]
fn budget_enforces_per_frame_keys() {
    let policy = ForwardCompatPolicy::Budget {
        max_keys_per_frame: 2,
        max_bytes_per_frame: 1024,
    };
    enforce(policy, IgnoredFieldTally { keys: 2, bytes: 8 }, "ready")
        .expect("exactly at limit passes");
    let err = enforce(policy, IgnoredFieldTally { keys: 3, bytes: 8 }, "ready")
        .expect_err("over-limit keys rejected");
    let IpcError::Protocol(ProtocolError::IgnoredFieldBudgetExceeded { dimension, .. }) = err
    else {
        unreachable!("expected IgnoredFieldBudgetExceeded, got {err:?}")
    };
    assert_eq!(dimension, "keys");
}

#[test]
fn budget_enforces_per_frame_bytes() {
    let policy = ForwardCompatPolicy::Budget {
        max_keys_per_frame: 8,
        max_bytes_per_frame: 16,
    };
    let err = enforce(policy, IgnoredFieldTally { keys: 1, bytes: 17 }, "ready")
        .expect_err("over-limit bytes rejected");
    let IpcError::Protocol(ProtocolError::IgnoredFieldBudgetExceeded { dimension, .. }) = err
    else {
        unreachable!("expected IgnoredFieldBudgetExceeded, got {err:?}")
    };
    assert_eq!(dimension, "bytes");
}

#[test]
fn zero_budget_cap_is_disabled() {
    let policy = ForwardCompatPolicy::Budget {
        max_keys_per_frame: 0,
        max_bytes_per_frame: 0,
    };
    enforce(policy, IgnoredFieldTally { keys: 1000, bytes: 100_000 }, "ready")
        .expect("zero caps impose no limit");
}

#[test]
fn v1_0_does_not_promote_container_messages() {
    let base = ForwardCompatPolicy::default_budget();
    let msg = sample_heartbeat();
    assert_eq!(
        promote_for_container(base, &msg, ProtocolSemantics::V1_0),
        base
    );
}

#[test]
fn v1_1plus_promotes_heartbeat_to_reject() {
    let base = ForwardCompatPolicy::default_budget();
    let msg = sample_heartbeat();
    assert_eq!(
        promote_for_container(base, &msg, ProtocolSemantics::V1_1Plus),
        ForwardCompatPolicy::Reject
    );
}

#[test]
fn host_side_has_no_promotions_today() {
    let base = ForwardCompatPolicy::default_budget();
    let msg = sample_shutdown(1);
    assert_eq!(
        promote_for_host(base, &msg, ProtocolSemantics::V1_1Plus),
        base
    );
}

#[test]
fn default_budget_is_sixteen_keys_four_kib() {
    assert_eq!(
        ForwardCompatPolicy::default_budget(),
        ForwardCompatPolicy::Budget {
            max_keys_per_frame: 16,
            max_bytes_per_frame: 4096,
        }
    );
}

#[test]
fn tally_push_saturates() {
    let mut t = IgnoredFieldTally::default();
    t.push(usize::MAX);
    assert_eq!(t.bytes, u32::MAX);
    assert_eq!(t.keys, 1);
}

#[test]
fn tally_push_accumulates() {
    let mut t = IgnoredFieldTally::default();
    assert!(t.is_empty());
    t.push(10);
    t.push(5);
    assert_eq!(t.keys, 2);
    assert_eq!(t.bytes, 15);
    assert!(!t.is_empty());
}

#[test]
fn semantics_resolves_v1_0() {
    let semantics = ProtocolSemantics::from_negotiated(NegotiatedProtocolVersion::new(1, 0));
    assert_eq!(semantics, ProtocolSemantics::V1_0);
}

#[test]
fn semantics_resolves_future_minor() {
    let semantics = ProtocolSemantics::from_negotiated(NegotiatedProtocolVersion::new(1, 7));
    assert_eq!(semantics, ProtocolSemantics::V1_1Plus);
}

#[test]
fn shutdown_gate_requires_deadline_from_1_1() {
    validate_host_to_container(ProtocolSemantics::V1_0, &sample_shutdown(0))
        .expect("1.0 accepts zero deadline");
    validate_host_to_container(ProtocolSemantics::V1_1Plus, &sample_shutdown(5))
        .expect("1.1 accepts positive deadline");
    let err = validate_host_to_container(ProtocolSemantics::V1_1Plus, &sample_shutdown(0))
        .expect_err("1.1 rejects zero deadline");
    assert!(matches!(
        err,
        IpcError::Protocol(ProtocolError::LifecycleViolation { .. })
    ));
}

#[test]
fn rejects_relative_path() {
    assert!(validate_socket_path_shape("ipc.sock").is_err());
    assert!(validate_socket_path_shape("./ipc.sock").is_err());
    assert!(validate_socket_path_shape("foo/ipc.sock").is_err());
}

#[test]
fn rejects_traversal_segments() {
    assert!(validate_socket_path_shape("/tmp/./ipc.sock").is_err());
    assert!(validate_socket_path_shape("/tmp/../tmp/ipc.sock").is_err());
    assert!(validate_socket_path_shape("/tmp/foo/../ipc.sock").is_err());
}

#[test]
fn accepts_plain_absolute_path() {
    assert!(validate_socket_path_shape("/tmp/ipc.sock").is_ok());
    assert!(validate_socket_path_shape("/var/run/forgeclaw/ipc.sock").is_ok());
}

#[test]
fn path_shape_error_is_io_error() {
    let err = validate_socket_path_shape("ipc.sock").expect_err("relative");
    assert!(matches!(err, IpcError::Io(_)));
}

#[test]
fn merge_evidence_treats_conflicts_as_mismatch() {
    let verdict = merge_evidence(
        AttestationEvidence::Match,
        AttestationEvidence::Mismatch("inode mismatch".to_owned()),
    );
    assert!(matches!(verdict, ListenerSocketAttestation::Mismatch(_)));
}

#[test]
fn merge_evidence_keeps_double_inconclusive_as_inconclusive() {
    let verdict = merge_evidence(
        AttestationEvidence::Inconclusive("no comparable path".to_owned()),
        AttestationEvidence::Inconclusive("no inode fingerprint".to_owned()),
    );
    assert!(matches!(
        verdict,
        ListenerSocketAttestation::Inconclusive(_)
    ));
}

#[test]
fn merge_evidence_requires_both_path_and_inode_matches() {
    let verdict = merge_evidence(
        AttestationEvidence::Match,
        AttestationEvidence::Inconclusive("inode probe unavailable".to_owned()),
    );
    assert!(matches!(
        verdict,
        ListenerSocketAttestation::Inconclusive(_)
    ));
}

#[test]
fn merge_evidence_two_matches_attest() {
    let verdict = merge_evidence(AttestationEvidence::Match, AttestationEvidence::Match);
    assert!(matches!(verdict, ListenerSocketAttestation::Match));
}

#[test]
fn inconclusive_verdict_is_fail_closed_bind_race() {
    let err = map_attestation_verdict(
        "/tmp/ipc.sock",
        ListenerSocketAttestation::Inconclusive("missing definitive inode evidence".to_owned()),
    )
    .expect_err("inconclusive evidence must fail closed");
    assert!(matches!(err, IpcError::BindRace(_)));
}

#[test]
fn mismatch_verdict_names_path_and_reason() {
    let err = map_attestation_verdict(
        "/tmp/ipc.sock",
        ListenerSocketAttestation::Mismatch("inode mismatch".to_owned()),
    )
    .expect_err("mismatch fails");
    let IpcError::BindRace(text) = err else {
        unreachable!("expected bind race")
    };
    assert_eq!(
        text,
        "listener/path attestation mismatch after bind at /tmp/ipc.sock: inode mismatch"
    );
}

#[test]
fn relative_components_join_back_to_parent() {
    let parts = normalized_relative_components("/run/forgeclaw/./sockets/", "/run")
        .expect("parent under ancestor");
    assert_eq!(parts, vec!["forgeclaw".to_string(), "sockets".to_string()]);
    let joined = canonical_parent_path("/run", &parts);
    assert_eq!(joined, "/run/forgeclaw/sockets");
    assert_eq!(components_of(&joined), components_of("/run/forgeclaw/./sockets/"));
}

#[test]
fn relative_components_same_path_is_empty() {
    let parts = normalized_relative_components("/run/forgeclaw", "/run/forgeclaw/").expect("same");
    assert!(parts.is_empty());
}

#[test]
fn relative_components_refuse_traversal_and_foreign_prefix() {
    let err = normalized_relative_components("/run/a/../b", "/run").expect_err("traversal");
    assert_eq!(err, "invalid path traversal segment in socket parent: /run/a/../b");
    let err = normalized_relative_components("/srv/a", "/run").expect_err("not under");
    assert_eq!(err, "socket parent /srv/a is not under existing ancestor /run: prefix not found");
}
