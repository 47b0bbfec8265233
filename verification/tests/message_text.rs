use forgeclaw::ipc::message::bounded_text::{
    AdapterName, AdapterVersion, BoundedTextError, BranchName, ListItemText, MessageText,
    ModelText, OutputDeltaText, OutputResultText, PromptText, ProtocolVersionText,
    ScheduleValueText, SenderName, SessionIdText, ShortText, StageName, TokenText,
};
use forgeclaw::ipc::message::collections::{HistoricalMessages, SelfImprovementListItems};
use forgeclaw::ipc::message::extensions::{GroupExtensionsVersion, GroupExtensionsVersionError};
use forgeclaw::ipc::message::shared::HistoricalMessage;
use forgeclaw::ipc::message::time::{IanaTimezone, IpcTimestamp};
use forgeclaw::ipc::message::url::AbsoluteHttpUrl;

fn sample_historical_message() -> HistoricalMessage {
    HistoricalMessage {
        sender: "A".parse().expect("valid sender"),
        text: "x".parse().expect("valid text"),
        timestamp: "2026-04-03T10:00:00Z".parse().expect("valid timestamp"),
    }
}

#[test]
fn timestamp_accepts_rfc3339() {
    let ts = IpcTimestamp::new("2026-04-03T10:00:00Z").expect("valid timestamp");
    assert_eq!(ts.as_str(), "2026-04-03T10:00:00Z");
}

#[test]
fn timestamp_rejects_non_rfc3339() {
    let err = IpcTimestamp::new("2026-04-03 10:00:00").expect_err("invalid timestamp");
    assert!(err.value.contains("2026-04-03"));
}

#[test]
fn timestamp_error_message_names_value() {
    let err = IpcTimestamp::new("yesterday").expect_err("invalid timestamp");
    assert_eq!(err.message(), "invalid RFC3339 timestamp: yesterday");
}

#[test]
fn timestamp_with_offset_is_accepted() {
    assert!(IpcTimestamp::new("2026-04-03T10:00:00+02:00").is_ok());
    assert!(IpcTimestamp::new("").is_err());
}

#[test]
fn timezone_accepts_iana_name() {
    let tz = IanaTimezone::new("America/New_York").expect("valid timezone");
    assert_eq!(tz.as_str(), "America/New_York");
}

#[test]
fn timezone_rejects_invalid_name() {
    let err = IanaTimezone::new("Mars/Olympus").expect_err("invalid timezone");
    assert_eq!(err.value, "Mars/Olympus");
    assert_eq!(err.message(), "invalid IANA timezone: Mars/Olympus");
}

#[test]
fn bounded_text_types_enforce_max_lengths() {
    assert!(AdapterName::new("id").is_ok());
    assert!(AdapterVersion::new("1.0.0").is_ok());
    assert!(StageName::new("stage").is_ok());
    assert!(ModelText::new("m").is_ok());
    assert!(TokenText::new("t").is_ok());
    assert!(ShortText::new("short").is_ok());
    assert!(ScheduleValueText::new("*/5 * * * *").is_ok());
    assert!(MessageText::new("hello").is_ok());
    assert!(PromptText::new("prompt").is_ok());
    assert!(OutputDeltaText::new("delta").is_ok());
    assert!(OutputResultText::new("result").is_ok());
    assert!(SessionIdText::new("sess").is_ok());
    assert!(ListItemText::new("item").is_ok());

    assert!(AdapterName::new(&"x".repeat(129)).is_err());
    assert!(AdapterVersion::new(&"x".repeat(129)).is_err());
    assert!(StageName::new(&"x".repeat(129)).is_err());
    assert!(ModelText::new(&"x".repeat(257)).is_err());
    assert!(TokenText::new(&"x".repeat(2049)).is_err());
    assert!(ShortText::new(&"x".repeat(1025)).is_err());
    assert!(ScheduleValueText::new(&"x".repeat(513)).is_err());
    assert!(MessageText::new(&"x".repeat(32 * 1024 + 1)).is_err());
    assert!(PromptText::new(&"x".repeat(32 * 1024 + 1)).is_err());
    assert!(OutputDeltaText::new(&"x".repeat(64 * 1024 + 1)).is_err());
    assert!(OutputResultText::new(&"x".repeat(256 * 1024 + 1)).is_err());
    assert!(SessionIdText::new(&"x".repeat(129)).is_err());
    assert!(ListItemText::new(&"x".repeat(1025)).is_err());
}

#[test]
fn bounded_text_accepts_exactly_max_chars() {
    assert!(AdapterName::new(&"x".repeat(128)).is_ok());
    assert!(ModelText::new(&"x".repeat(256)).is_ok());
    // Limits count characters, not bytes.
    assert!(AdapterName::new(&"é".repeat(128)).is_ok());
    assert!(AdapterName::new(&"é".repeat(129)).is_err());
}

#[test]
fn bounded_text_length_error_names_counts() {
    let err = AdapterName::new(&"x".repeat(129)).expect_err("too long");
    assert!(matches!(err, BoundedTextError::Length { max: 128, actual: 129 }));
}

#[test]
fn protocol_version_text_enforces_major_minor() {
    assert!(ProtocolVersionText::new("1.0").is_ok());
    assert!(ProtocolVersionText::new("42.17").is_ok());
    assert!(ProtocolVersionText::new("0.0").is_ok());
}

#[test]
fn protocol_version_text_rejects_malformed_formats() {
    for bad in ["", "1", "1.", ".1", "1.foo", "v1.0", "1.0.3", "one.two"] {
        assert!(
            ProtocolVersionText::new(bad).is_err(),
            "expected rejection for `{bad}`"
        );
    }
}

#[test]
fn branch_name_accepts_common_refs() {
    for good in ["main", "feat/x", "release/1.x", "lane-0.4", "a/b/c"] {
        assert!(BranchName::new(good).is_ok(), "expected `{good}` to parse");
    }
}

#[test]
fn branch_name_rejects_malformed_refs() {
    for bad in [
        "",
        "/main",
        "main/",
        "a//b",
        "a..b",
        "with space",
        "with\ttab",
        "control\x01char",
    ] {
        assert!(
            BranchName::new(bad).is_err(),
            "expected rejection for `{bad}`"
        );
    }
}

#[test]
fn absolute_http_url_enforces_scheme() {
    assert!(AbsoluteHttpUrl::new("https://example.com").is_ok());
    assert!(AbsoluteHttpUrl::new("http://example.com/v1").is_ok());
    assert!(AbsoluteHttpUrl::new("ftp://example.com").is_err());
    assert!(AbsoluteHttpUrl::new("/relative").is_err());
}

#[test]
fn absolute_http_url_keeps_input_text() {
    let url = AbsoluteHttpUrl::new("https://example.com/a?b=c").expect("valid url");
    assert_eq!(url.as_str(), "https://example.com/a?b=c");
}

#[test]
fn historical_messages_reject_over_256() {
    let msgs = std::iter::repeat_n(sample_historical_message(), 257).collect::<Vec<_>>();
    let err = HistoricalMessages::new(msgs).expect_err("must reject >256");
    assert_eq!(err.max, 256);
    assert_eq!(err.actual, 257);
}

#[test]
fn historical_messages_accept_exactly_256() {
    let msgs = std::iter::repeat_n(sample_historical_message(), 256).collect::<Vec<_>>();
    let ok = HistoricalMessages::new(msgs).expect("256 is allowed");
    assert_eq!(ok.len(), HistoricalMessages::MAX_LEN);
    assert!(!ok.is_empty());
    assert!(HistoricalMessages::empty().is_empty());
}

#[test]
fn self_improvement_list_items_reject_over_64() {
    let items = std::iter::repeat_n("scope".parse::<ListItemText>().expect("valid item"), 65)
        .collect();
    let err = SelfImprovementListItems::new(items).expect_err("must reject >64");
    assert_eq!(err.max, 64);
    assert_eq!(err.actual, 65);
}

#[test]
fn historical_messages_constructor_rejects_over_256() {
    let msg = HistoricalMessage {
        sender: SenderName::new("A").expect("valid sender"),
        text: MessageText::new("x").expect("valid text"),
        timestamp: IpcTimestamp::new("2026-04-03T10:00:00Z").expect("valid timestamp"),
    };
    let err = HistoricalMessages::new(std::iter::repeat_n(msg, 257).collect())
        .expect_err("messages >256 should fail");
    assert_eq!(err.max, 256);
    assert_eq!(err.actual, 257);
    assert_eq!(err.message(), "collection length 257 exceeds maximum 256");
}

#[test]
fn group_extensions_version_rejects_whitespace_only() {
    let err = GroupExtensionsVersion::new("   ").expect_err("whitespace-only must fail");
    assert!(matches!(err, GroupExtensionsVersionError::EmptyOrWhitespace));
}

#[test]
fn group_extensions_version_keeps_text() {
    let v = GroupExtensionsVersion::new("1").expect("valid");
    assert_eq!(v.as_str(), "1");
}
