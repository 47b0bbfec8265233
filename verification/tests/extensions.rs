use forgeclaw::ipc::message::extensions::{
    validate_json_value_depth_and_keys, ExtValue, GroupExtensions, GroupExtensionsError,
    GroupExtensionsVersion, GroupExtensionsVersionError, MAX_GROUP_EXTENSIONS_ENCODED_BYTES,
};

fn version() -> GroupExtensionsVersion {
    GroupExtensionsVersion::new("1").expect("valid")
}

fn text(s: &str) -> ExtValue {
    ExtValue::String(s.to_owned())
}

fn nested(depth: usize) -> ExtValue {
    let mut v = ExtValue::Null;
    for _ in 0..depth {
        v = ExtValue::Array(vec![v]);
    }
    v
}

#[test]
fn group_extensions_with_data_rejects_reserved_key() {
    let data = vec![("version".to_owned(), text("bad"))];
    let err = GroupExtensions::with_data(version(), data).expect_err("reserved key must fail");
    assert!(matches!(err, GroupExtensionsError::ReservedKey(_)));
}

#[test]
fn group_extensions_insert_rejects_reserved_key() {
    let mut ext = GroupExtensions::new(version());
    let err = ext
        .insert("version".to_owned(), text("x"))
        .expect_err("reserved key must fail");
    assert!(matches!(err, GroupExtensionsError::ReservedKey(_)));
}

#[test]
fn with_data_rejects_duplicate_key() {
    let data = vec![("trigger".to_owned(), text("a")), ("trigger".to_owned(), text("b"))];
    let err = GroupExtensions::with_data(version(), data).expect_err("duplicate");
    assert_eq!(err, GroupExtensionsError::DuplicateKey("trigger".to_owned()));
    assert_eq!(err.message(), "duplicate extensions key `trigger`");
}

#[test]
fn with_data_rejects_long_key() {
    let key = "k".repeat(129);
    let err = GroupExtensions::with_data(version(), vec![(key.clone(), ExtValue::Null)])
        .expect_err("long key");
    assert_eq!(
        err,
        GroupExtensionsError::KeyTooLong {
            key,
            max: 128,
            actual: 129
        }
    );
}

#[test]
fn with_data_rejects_too_many_properties() {
    let data: Vec<(String, ExtValue)> = (0..32)
        .map(|i| (format!("k{i}"), ExtValue::Bool(true)))
        .collect();
    let err = GroupExtensions::with_data(version(), data).expect_err("too many");
    assert_eq!(
        err,
        GroupExtensionsError::TooManyProperties { max: 32, actual: 33 }
    );
    let data: Vec<(String, ExtValue)> = (0..31)
        .map(|i| (format!("k{i}"), ExtValue::Bool(true)))
        .collect();
    assert!(GroupExtensions::with_data(version(), data).is_ok());
}

#[test]
fn with_data_rejects_deep_values() {
    assert!(GroupExtensions::with_data(version(), vec![("a".to_owned(), nested(7))]).is_ok());
    let err = GroupExtensions::with_data(version(), vec![("a".to_owned(), nested(8))])
        .expect_err("too deep");
    assert!(matches!(
        err,
        GroupExtensionsError::MaxDepthExceeded { max: 8, .. }
    ));
    assert!(validate_json_value_depth_and_keys(&nested(3), 1).is_ok());
}

#[test]
fn with_data_rejects_oversized_encoding() {
    let big = "x".repeat(MAX_GROUP_EXTENSIONS_ENCODED_BYTES);
    let err = GroupExtensions::with_data(version(), vec![("blob".to_owned(), text(&big))])
        .expect_err("too large");
    let GroupExtensionsError::EncodedBytesExceeded { max, actual } = err else {
        unreachable!("expected EncodedBytesExceeded")
    };
    assert_eq!(max, MAX_GROUP_EXTENSIONS_ENCODED_BYTES);
    // {"version":"1","blob":"xxx..."}
    assert_eq!(actual, big.len() + r#"{"version":"1","blob":""}"#.len());
}

#[test]
fn insert_replaces_and_returns_previous() {
    let mut ext = GroupExtensions::new(version());
    assert!(ext.insert("trigger".to_owned(), text("@bot")).expect("ok").is_none());
    let previous = ext
        .insert("trigger".to_owned(), text("@other"))
        .expect("ok")
        .expect("had a value");
    assert!(matches!(previous, ExtValue::String(ref s) if s == "@bot"));
    assert_eq!(ext.data().len(), 1);
    assert!(matches!(ext.data()[0].1, ExtValue::String(ref s) if s == "@other"));
}

#[test]
fn failed_insert_leaves_data_unchanged() {
    let mut ext = GroupExtensions::new(version());
    ext.insert("a".to_owned(), ExtValue::Bool(true)).expect("ok");
    assert!(ext.insert("b".to_owned(), nested(9)).is_err());
    assert_eq!(ext.data().len(), 1);
    assert_eq!(ext.data()[0].0, "a");
}

#[test]
fn remove_never_removes_reserved_key() {
    let mut ext = GroupExtensions::new(version());
    ext.insert("a".to_owned(), ExtValue::Bool(true)).expect("ok");
    assert!(ext.remove("version").is_none());
    assert!(matches!(ext.remove("a"), Some(ExtValue::Bool(true))));
    assert!(ext.remove("a").is_none());
    assert!(ext.data().is_empty());
    assert_eq!(ext.version().as_str(), "1");
    assert!(GroupExtensions::is_reserved_key("version"));
    assert!(!GroupExtensions::is_reserved_key("trigger"));
}

#[test]
fn extensions_version_rejects_long_text() {
    let err = GroupExtensionsVersion::new(&"v".repeat(129)).expect_err("too long");
    assert!(matches!(
        err,
        GroupExtensionsVersionError::TooLong { max: 128, actual: 129 }
    ));
}
