use forgeclaw::ipc::type_probe::probe_first_type_field;

#[test]
fn extracts_type_when_first_field() {
    let raw = r#"{"type":"ready","adapter":"x"}"#;
    assert_eq!(probe_first_type_field(raw).as_deref(), Some("ready"));
}

#[test]
fn returns_none_when_type_not_first() {
    let raw = r#"{"adapter":"x","type":"ready"}"#;
    assert!(probe_first_type_field(raw).is_none());
}

#[test]
fn probe_tolerates_whitespace_between_tokens() {
    let raw = " \n{ \t\"type\" :\r \"heartbeat\" }";
    assert_eq!(probe_first_type_field(raw).as_deref(), Some("heartbeat"));
}

#[test]
fn probe_rejects_escaped_strings() {
    assert!(probe_first_type_field(r#"{"type":"rea\"dy"}"#).is_none());
    assert!(probe_first_type_field(r#"{"ty\u0070e":"ready"}"#).is_none());
}

#[test]
fn probe_handles_non_ascii_values() {
    assert_eq!(probe_first_type_field(r#"{"type":"héllo"}"#).as_deref(), Some("héllo"));
}

#[test]
fn probe_only_scans_first_window() {
    let mut raw = String::from("{");
    raw.push_str(&" ".repeat(8200));
    raw.push_str(r#""type":"ready"}"#);
    assert!(probe_first_type_field(&raw).is_none());
}

#[test]
fn probe_refuses_window_ending_inside_a_character() {
    let mut raw = String::from(r#"{"type":"ready","pad":""#);
    while raw.len() < 8191 {
        raw.push('a');
    }
    raw.push('é');
    raw.push_str("\"}");
    assert!(!raw.is_char_boundary(8192));
    assert!(probe_first_type_field(&raw).is_none());
    let mut ok = String::from(r#"{"type":"ready","pad":""#);
    while ok.len() < 9000 {
        ok.push('a');
    }
    assert_eq!(probe_first_type_field(&ok).as_deref(), Some("ready"));
}
