use std::collections::HashSet;

use forgeclaw::id::{check_id_text, ChannelId, ContainerId, GroupId, JobId, ProviderId};

fn is_valid_id(s: &str) -> bool {
    !s.trim().is_empty() && s.chars().count() <= 128
}

#[test]
fn tests_display_shows_inner_string() {
    let id = GroupId::new("my-group").expect("valid group id");
    assert_eq!(id.as_str(), "my-group");
}

#[test]
fn try_from_string_and_as_ref_roundtrip() {
    let original = "test-id-123".to_owned();
    let id = ContainerId::new(&original).expect("valid container id");
    assert_eq!(id.as_ref(), original);
}

#[test]
fn try_from_str_ref() {
    let id = ProviderId::new("anthropic").expect("valid provider id");
    assert_eq!(id.as_ref(), "anthropic");
}

#[test]
fn parse_from_str() {
    let id: ChannelId = "discord".parse().expect("valid channel id");
    assert_eq!(id.as_ref(), "discord");
}

#[test]
fn tests_equality_and_hash() {
    let a = ChannelId::new("discord").expect("valid channel id");
    let b = ChannelId::new("discord").expect("valid channel id");
    let c = ChannelId::new("telegram").expect("valid channel id");
    assert_eq!(a, b);
    assert_ne!(a, c);
    assert!(a.same_as(&b));
    assert!(!a.same_as(&c));

    let mut set = HashSet::new();
    set.insert(a);
    assert!(set.contains(&b));
    assert!(!set.contains(&c));
}

#[test]
fn new_accepts_valid_string() {
    let id = GroupId::new("my-group").expect("should succeed");
    assert_eq!(id.as_ref(), "my-group");
}

#[test]
fn new_rejects_empty_string() {
    let err = GroupId::new("").expect_err("should fail");
    assert!(
        err.reason.contains("empty"),
        "error should mention empty: {}",
        err.reason
    );
}

#[test]
fn new_rejects_whitespace_only() {
    let err = ContainerId::new("   ").expect_err("should fail");
    assert!(
        err.reason.contains("empty"),
        "error should mention empty: {}",
        err.reason
    );
}

#[test]
fn new_rejects_tab_only() {
    let err = ProviderId::new("\t\n").expect_err("should fail");
    assert!(
        err.reason.contains("empty"),
        "error should mention empty: {}",
        err.reason
    );
}

#[test]
fn new_preserves_leading_trailing_whitespace() {
    let id = ChannelId::new("  discord  ").expect("should succeed");
    assert_eq!(id.as_ref(), "  discord  ");
}

#[test]
fn new_from_owned_string() {
    let id = GroupId::new(&"my-group".to_owned()).expect("should succeed");
    assert_eq!(id.as_ref(), "my-group");
}

#[test]
fn new_accepts_exactly_128_chars() {
    let value = "x".repeat(128);
    let id = GroupId::new(&value).expect("should succeed");
    assert_eq!(id.as_ref(), value);
}

#[test]
fn new_rejects_over_128_chars() {
    let err = GroupId::new(&"x".repeat(129)).expect_err("should fail");
    assert!(
        err.reason.contains("128"),
        "error should mention 128-char bound: {}",
        err.reason
    );
    assert_eq!(err.reason, "GroupId cannot exceed 128 characters (got 129)");
}

#[test]
fn new_empty_owned_string() {
    let result = GroupId::new(&String::new());
    assert!(result.is_err());
}

#[test]
fn id_error_display() {
    let err = GroupId::new("").expect_err("should fail");
    assert_eq!(
        err.message(),
        "invalid identifier: GroupId cannot be empty or whitespace-only"
    );
}

#[test]
fn job_id_clone_keeps_text() {
    let id = JobId::new("job-42").expect("valid job id");
    let copy = id.clone();
    assert_eq!(id, copy);
    assert_eq!(copy.as_str(), "job-42");
}

#[test]
fn parse_validates_for_sample_strings() {
    for s in ["", " ", "\u{3000}", "a", " a ", "é", &"y".repeat(128), &"y".repeat(129)] {
        let parsed: Result<GroupId, _> = s.parse();
        assert_eq!(parsed.is_ok(), is_valid_id(s), "input {s:?}");
        assert_eq!(check_id_text("GroupId", s).is_ok(), is_valid_id(s));
    }
}

#[test]
fn id_display_shows_inner_string() {
    let id = GroupId::new("my-group").expect("valid group id");
    assert_eq!(id.as_str(), "my-group");
}

#[test]
fn from_string_and_as_ref_roundtrip() {
    let original = "test-id-123".to_owned();
    let id = ContainerId::new(&original).expect("valid container id");
    assert_eq!(id.as_ref(), original);
}

#[test]
fn from_str_ref() {
    let id = ProviderId::new("anthropic").expect("valid provider id");
    assert_eq!(id.as_ref(), "anthropic");
}

#[test]
fn id_equality_and_hash() {
    let a = ChannelId::new("discord").expect("valid channel id");
    let b = ChannelId::new("discord").expect("valid channel id");
    let c = ChannelId::new("telegram").expect("valid channel id");
    assert_eq!(a, b);
    assert_ne!(a, c);
    let mut set = HashSet::new();
    set.insert(a);
    assert!(set.contains(&b));
    assert!(!set.contains(&c));
}
