use forgeclaw::id::{GroupId, JobId};
use forgeclaw::ipc::message::collections::HistoricalMessages;
use forgeclaw::ipc::message::container_to_host::{
    HeartbeatPayload, OutputCompletePayload, OutputDeltaPayload, ProgressPayload, ReadyPayload,
};
use forgeclaw::ipc::message::host_to_container::{
    InitConfig, InitContext, InitPayload, MessagesPayload, ShutdownPayload,
};
use forgeclaw::ipc::message::shared::{GroupCapabilities, GroupInfo, ShutdownReason, StopReason};
use forgeclaw::ipc::message::{ContainerToHost, HostToContainer};

#[test]
fn container_to_host_type_name_matches_wire() {
    let cases: &[(ContainerToHost, &str)] = &[
        (
            ContainerToHost::Ready(ReadyPayload {
                adapter: "a".parse().expect("valid adapter"),
                adapter_version: "v".parse().expect("valid adapter version"),
                protocol_version: "1.0".parse().expect("valid protocol version"),
            }),
            "ready",
        ),
        (
            ContainerToHost::OutputDelta(OutputDeltaPayload {
                text: String::new().parse().expect("valid output delta"),
                job_id: JobId::new("j").expect("valid job id"),
            }),
            "output_delta",
        ),
        (
            ContainerToHost::OutputComplete(OutputCompletePayload {
                job_id: JobId::new("j").expect("valid job id"),
                result: None,
                session_id: None,
                token_usage: None,
                stop_reason: StopReason::EndTurn,
            }),
            "output_complete",
        ),
        (
            ContainerToHost::Progress(ProgressPayload {
                job_id: JobId::new("j").expect("valid job id"),
                stage: "x".parse().expect("valid stage"),
                detail: None,
                percent: None,
            }),
            "progress",
        ),
        (
            ContainerToHost::Heartbeat(HeartbeatPayload {
                timestamp: "2026-04-03T10:00:00Z".parse().expect("valid timestamp"),
            }),
            "heartbeat",
        ),
    ];
    for (msg, expected) in cases {
        assert_eq!(msg.wire_type(), *expected);
    }
}

#[test]
fn host_to_container_type_name_matches_wire() {
    let init = HostToContainer::Init(InitPayload {
        job_id: JobId::new("j").expect("valid job id"),
        context: InitContext {
            messages: HistoricalMessages::default(),
            group: GroupInfo {
                id: GroupId::new("g").expect("valid group id"),
                name: "n".parse().expect("valid name"),
                is_main: false,
                capabilities: GroupCapabilities::default(),
            },
            timezone: "UTC".parse().expect("valid timezone"),
        },
        config: InitConfig {
            provider_proxy_url: "https://u.example".parse().expect("valid proxy url"),
            provider_proxy_token: "t".parse().expect("valid proxy token"),
            model: "m".parse().expect("valid model"),
            max_tokens: 1,
            session_id: None,
            tools_enabled: false,
            timeout_seconds: 1,
        },
    });
    assert_eq!(init.wire_type(), "init");
    assert_eq!(
        HostToContainer::Messages(MessagesPayload {
            job_id: JobId::new("j").expect("valid job id"),
            messages: HistoricalMessages::default(),
        })
        .wire_type(),
        "messages"
    );
    assert_eq!(
        HostToContainer::Shutdown(ShutdownPayload {
            reason: ShutdownReason::Eviction,
            deadline_ms: 0,
        })
        .wire_type(),
        "shutdown"
    );
}
