use forgeclaw::command::CommandError;
use forgeclaw::config::{validate_references, ConfigReferences, GroupReferences};
use forgeclaw::error::ErrorClass;
use forgeclaw::id::{GroupId, JobId, TaskId};
use forgeclaw::ipc::error::{IpcError, ProtocolError};
use forgeclaw::ipc::forward_compat::{promote_for_container, ForwardCompatPolicy};
use forgeclaw::ipc::message::authorized::{
    AuthorizedCommand, OwnershipPending, PrivilegedAuthorizedCommand, ScopedAuthorizedCommand,
};
use forgeclaw::ipc::message::collections::{HistoricalMessages, SelfImprovementListItems};
use forgeclaw::ipc::message::command::{
    BranchPolicy, CancelTaskPayload, ClassifiedCommand, CommandBody, CommandPayload,
    DispatchSelfImprovementPayload, DispatchTanrenPayload, PauseTaskPayload,
    RegisterGroupPayload, ScheduleTaskPayload, ScheduleType, SendMessagePayload, TanrenPhase,
};
use forgeclaw::ipc::message::container_to_host::{
    ErrorPayload, HeartbeatPayload, OutputDeltaPayload,
};
use forgeclaw::ipc::message::extensions::{GroupExtensions, GroupExtensionsVersion};
use forgeclaw::ipc::message::host_to_container::{
    InitConfig, InitContext, InitPayload, MessagesPayload, ShutdownPayload,
};
use forgeclaw::ipc::message::shared::{ErrorCode, GroupCapabilities, GroupInfo, ShutdownReason};
use forgeclaw::ipc::message::{ContainerToHost, HostToContainer};
use forgeclaw::ipc::outbound::{
    validate_outbound_container_to_host, validate_outbound_host_to_container,
};
use forgeclaw::ipc::peer_cred::socket_dir::allowed_system_symlink_ancestor;
use forgeclaw::ipc::semantics::{
    validate_classified_command, validate_container_to_host, validate_host_to_container,
    ProtocolSemantics,
};

fn group_id(s: &str) -> GroupId {
    GroupId::new(s).expect("valid group id")
}

fn task_id(s: &str) -> TaskId {
    TaskId::new(s).expect("valid task id")
}

fn scoped_commands() -> Vec<CommandBody> {
    vec![
        CommandBody::SendMessage(SendMessagePayload {
            target_group: group_id("g"),
            text: "t".parse().expect("valid text"),
        }),
        CommandBody::ScheduleTask(ScheduleTaskPayload {
            group: group_id("g"),
            schedule_type: ScheduleType::Once,
            schedule_value: "v".parse().expect("valid schedule"),
            prompt: "p".parse().expect("valid prompt"),
            context_mode: None,
        }),
        CommandBody::PauseTask(PauseTaskPayload {
            task_id: task_id("t"),
        }),
        CommandBody::CancelTask(CancelTaskPayload {
            task_id: task_id("t"),
        }),
        CommandBody::DispatchTanren(DispatchTanrenPayload {
            project: "p".parse().expect("valid project"),
            branch: "b".parse().expect("valid branch"),
            phase: TanrenPhase::DoTask,
            prompt: "pr".parse().expect("valid prompt"),
            environment_profile: None,
        }),
    ]
}

fn privileged_commands() -> Vec<CommandBody> {
    vec![
        CommandBody::RegisterGroup(RegisterGroupPayload {
            name: "g".parse().expect("valid name"),
            extensions: None,
        }),
        CommandBody::DispatchSelfImprovement(DispatchSelfImprovementPayload {
            objective: "o".parse().expect("valid objective"),
            scopes: SelfImprovementListItems::new(vec!["s".parse().expect("valid scope")])
                .expect("valid scopes"),
            acceptance_tests: SelfImprovementListItems::new(vec!["t"
                .parse()
                .expect("valid acceptance test")])
            .expect("valid acceptance tests"),
            branch_policy: BranchPolicy::Create,
        }),
    ]
}

#[test]
fn command_classify_returns_scoped_for_group_commands() {
    for cmd in scoped_commands() {
        assert!(!cmd.is_privileged());
        assert!(matches!(cmd.classify(), ClassifiedCommand::Scoped(_)));
    }
}

#[test]
fn command_tests_classify_returns_scoped_for_group_commands() {
    for cmd in scoped_commands() {
        assert!(!cmd.is_privileged());
        assert!(matches!(cmd.classify(), ClassifiedCommand::Scoped(_)));
    }
}

#[test]
fn command_classify_returns_privileged_for_main_commands() {
    for cmd in privileged_commands() {
        assert!(cmd.is_privileged());
        assert!(matches!(cmd.classify(), ClassifiedCommand::Privileged(_)));
    }
}

#[test]
fn command_tests_classify_returns_privileged_for_main_commands() {
    for cmd in privileged_commands() {
        assert!(cmd.is_privileged());
        assert!(matches!(cmd.classify(), ClassifiedCommand::Privileged(_)));
    }
}

fn scoped_send() -> AuthorizedCommand {
    AuthorizedCommand::from(ScopedAuthorizedCommand::SendMessage(SendMessagePayload {
        target_group: group_id("group-a"),
        text: "hello".parse().expect("valid text"),
    }))
}

fn privileged_register() -> AuthorizedCommand {
    AuthorizedCommand::from(PrivilegedAuthorizedCommand::RegisterGroup(RegisterGroupPayload {
        name: "new".parse().expect("valid name"),
        extensions: None,
    }))
}

#[test]
fn authorized_command_accessors_match_category() {
    let scoped = scoped_send();
    assert!(scoped.as_scoped().is_some());
    assert!(scoped.as_privileged().is_none());
    let privileged = privileged_register();
    assert!(privileged.as_privileged().is_some());
    assert!(privileged.as_scoped().is_none());
}

#[test]
fn into_category_returns_only_matching_variant() {
    assert!(scoped_send().into_scoped().is_some());
    assert!(scoped_send().into_privileged().is_none());
    assert!(privileged_register().into_privileged().is_some());
    assert!(privileged_register().into_scoped().is_none());
}

#[test]
fn ownership_pending_checks_owning_group() {
    let pending = OwnershipPending::new(
        PauseTaskPayload {
            task_id: task_id("t"),
        },
        group_id("group-a"),
        false,
    );
    assert_eq!(pending.session_group().as_str(), "group-a");
    assert!(!pending.is_main());
    assert!(pending.verify(&group_id("group-a")).is_ok());
    let other = OwnershipPending::new(
        CancelTaskPayload {
            task_id: task_id("t"),
        },
        group_id("group-a"),
        false,
    );
    assert!(other.verify(&group_id("group-b")).is_err());
}

#[test]
fn command_error_handler_dropped_display() {
    let err = CommandError::HandlerDropped;
    assert_eq!(err.message(), "command handler is unavailable");
}

#[test]
fn command_error_handler_display() {
    let err = CommandError::Handler(ErrorClass::Fatal {
        reason: "disk full".to_owned(),
    });
    assert_eq!(err.message(), "fatal error: disk full");
}

fn send_message_command() -> CommandBody {
    CommandBody::SendMessage(SendMessagePayload {
        target_group: group_id("group-main"),
        text: "hello".parse().expect("valid text"),
    })
}

#[test]
fn command_gate_hook_runs_for_all_minor_profiles() {
    let cmd = send_message_command().classify();
    validate_classified_command(ProtocolSemantics::V1_0, &cmd).expect("v1.0 command gate");
    validate_classified_command(ProtocolSemantics::V1_1Plus, &cmd)
        .expect("future-minor command gate");
}

#[test]
fn inbound_gate_hook_runs_for_all_minor_profiles() {
    let msg = ContainerToHost::Command(CommandPayload {
        body: send_message_command(),
    });
    validate_container_to_host(ProtocolSemantics::V1_0, &msg).expect("v1.0 inbound gate");
    validate_container_to_host(ProtocolSemantics::V1_1Plus, &msg)
        .expect("future-minor inbound gate");
}

fn error_message(fatal: bool, job: Option<&str>) -> ContainerToHost {
    ContainerToHost::Error(ErrorPayload {
        code: ErrorCode::AdapterError,
        message: "boom".parse().expect("valid message"),
        fatal,
        job_id: job.map(|j| JobId::new(j).expect("valid job id")),
    })
}

#[test]
fn future_minor_inbound_gate_rejects_fatal_error_without_job_id() {
    let err = validate_container_to_host(ProtocolSemantics::V1_1Plus, &error_message(true, None))
        .expect_err("future-minor gate should reject");
    assert!(matches!(
        err,
        IpcError::Protocol(ProtocolError::LifecycleViolation { .. })
    ));
}

#[test]
fn semantics_matrix_matches_documented_gates() {
    let shutdown = |deadline_ms| {
        HostToContainer::Shutdown(ShutdownPayload {
            reason: ShutdownReason::IdleTimeout,
            deadline_ms,
        })
    };
    validate_host_to_container(ProtocolSemantics::V1_0, &shutdown(0))
        .expect("baseline: deadline_ms=0 must be accepted");
    let err = validate_host_to_container(ProtocolSemantics::V1_1Plus, &shutdown(0))
        .expect_err("v1.1+: deadline_ms=0 must be rejected");
    assert!(matches!(
        err,
        IpcError::Protocol(ProtocolError::LifecycleViolation {
            message_type: "shutdown",
            ..
        })
    ));
    validate_host_to_container(ProtocolSemantics::V1_1Plus, &shutdown(1))
        .expect("v1.1+: deadline_ms>0 must be accepted");

    validate_container_to_host(ProtocolSemantics::V1_0, &error_message(true, None))
        .expect("baseline: fatal without job_id accepted");
    let err = validate_container_to_host(ProtocolSemantics::V1_1Plus, &error_message(true, None))
        .expect_err("v1.1+: fatal without job_id must be rejected");
    assert!(matches!(
        err,
        IpcError::Protocol(ProtocolError::LifecycleViolation {
            message_type: "error",
            ..
        })
    ));
    validate_container_to_host(
        ProtocolSemantics::V1_1Plus,
        &error_message(true, Some("job-1")),
    )
    .expect("v1.1+: fatal with job_id accepted");
    validate_container_to_host(ProtocolSemantics::V1_1Plus, &error_message(false, None))
        .expect("v1.1+: non-fatal without job_id accepted");

    let cmd_no_extensions = CommandBody::RegisterGroup(RegisterGroupPayload {
        name: "Test Group".parse().expect("valid name"),
        extensions: None,
    })
    .classify();
    let cmd_with_extensions = CommandBody::RegisterGroup(RegisterGroupPayload {
        name: "Test Group".parse().expect("valid name"),
        extensions: Some(GroupExtensions::new(
            GroupExtensionsVersion::new("1").expect("valid extensions version"),
        )),
    })
    .classify();
    validate_classified_command(ProtocolSemantics::V1_0, &cmd_no_extensions)
        .expect("baseline: extensions optional");
    let err = validate_classified_command(ProtocolSemantics::V1_1Plus, &cmd_no_extensions)
        .expect_err("v1.1+: missing extensions must be rejected");
    assert!(matches!(
        err,
        IpcError::Protocol(ProtocolError::InvalidCommandPayload {
            command: "register_group",
            ..
        })
    ));
    validate_classified_command(ProtocolSemantics::V1_1Plus, &cmd_with_extensions)
        .expect("v1.1+: extensions present accepted");

    let benign = ContainerToHost::Command(CommandPayload {
        body: send_message_command(),
    });
    for sem in [ProtocolSemantics::V1_0, ProtocolSemantics::V1_1Plus] {
        validate_container_to_host(sem, &benign).expect("benign accepted on every minor");
    }
}

#[test]
fn semantics_matrix_promotes_forward_compat_at_v1_1plus() {
    let heartbeat = ContainerToHost::Heartbeat(HeartbeatPayload {
        timestamp: "2026-04-16T00:00:00Z".parse().expect("valid timestamp"),
    });
    let output_delta = ContainerToHost::OutputDelta(OutputDeltaPayload {
        text: "x".parse().expect("valid text"),
        job_id: JobId::new("j").expect("valid job id"),
    });
    for msg in [&heartbeat, &output_delta] {
        assert_eq!(
            promote_for_container(msg.forward_compat_base(), msg, ProtocolSemantics::V1_1Plus),
            ForwardCompatPolicy::Reject,
            "1.1+ must resolve {} to Reject",
            msg.wire_type()
        );
    }
}

#[test]
fn outbound_validators_accept_valid_messages() {
    let group = GroupInfo {
        id: group_id("group-main"),
        name: "Main".parse().expect("valid name"),
        is_main: true,
        capabilities: GroupCapabilities::default(),
    };
    let init = HostToContainer::Init(InitPayload {
        job_id: JobId::new("job-1").expect("valid job id"),
        context: InitContext {
            messages: HistoricalMessages::default(),
            group,
            timezone: "UTC".parse().expect("valid timezone"),
        },
        config: InitConfig {
            provider_proxy_url: "http://proxy.local".parse().expect("valid proxy url"),
            provider_proxy_token: "token".parse().expect("valid token"),
            model: "model-large-1".parse().expect("valid model"),
            max_tokens: 1024,
            session_id: None,
            tools_enabled: true,
            timeout_seconds: 300,
        },
    });
    validate_outbound_host_to_container(&init).expect("valid host message");

    let messages = HostToContainer::Messages(MessagesPayload {
        job_id: JobId::new("job-1").expect("valid job id"),
        messages: HistoricalMessages::default(),
    });
    validate_outbound_host_to_container(&messages).expect("valid messages payload");

    let delta = ContainerToHost::OutputDelta(OutputDeltaPayload {
        text: "hello".parse().expect("valid output text"),
        job_id: JobId::new("job-1").expect("valid job id"),
    });
    validate_outbound_container_to_host(&delta).expect("valid container message");
}

#[test]
fn container_wire_type_names() {
    let heartbeat = ContainerToHost::Heartbeat(HeartbeatPayload {
        timestamp: "2026-04-16T00:00:00Z".parse().expect("valid timestamp"),
    });
    assert_eq!(heartbeat.wire_type(), "heartbeat");
    assert!(ContainerToHost::is_known_type("output_complete"));
    assert!(!ContainerToHost::is_known_type("shutdown"));
    assert_eq!(ContainerToHost::known_types().len(), 7);
}

#[test]
fn host_wire_type_names() {
    let shutdown = HostToContainer::Shutdown(ShutdownPayload {
        reason: ShutdownReason::Eviction,
        deadline_ms: 5,
    });
    assert_eq!(shutdown.wire_type(), "shutdown");
    assert!(HostToContainer::is_known_type("init"));
    assert!(!HostToContainer::is_known_type("ready"));
    assert_eq!(HostToContainer::known_types(), vec!["init", "messages", "shutdown"]);
}

#[test]
fn vetted_system_symlinks_are_allowed() {
    assert!(allowed_system_symlink_ancestor("/var/run", Some("/run")));
    assert!(allowed_system_symlink_ancestor("/var/lock", Some("/run/lock")));
}

#[test]
fn non_vetted_symlinks_are_rejected() {
    assert!(!allowed_system_symlink_ancestor(
        "/tmp/x/link",
        Some("/tmp/x/target")
    ));
    assert!(!allowed_system_symlink_ancestor("/var/run", Some("/elsewhere")));
    assert!(!allowed_system_symlink_ancestor("/var/run", None));
}

#[test]
fn validate_catches_channel_ref_with_empty_channels() {
    let refs = ConfigReferences {
        providers: vec!["test".to_owned()],
        channels: Vec::new(),
        budget_pools: Vec::new(),
        groups: vec![GroupReferences {
            name: "main".to_owned(),
            provider: "test".to_owned(),
            channel: "discord".to_owned(),
            budget_pool: None,
            fallback_providers: Vec::new(),
        }],
    };
    let errors = validate_references(&refs).expect_err("should fail validation");
    let msg = errors.join("; ");
    assert!(
        msg.contains("discord"),
        "should mention broken channel ref: {msg}"
    );
}
