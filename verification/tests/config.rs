use forgeclaw::config::{
    config_size_problem, env_override_path, normalize_env_path, validate_references,
    ConfigReferences, GroupReferences, MAX_CONFIG_SIZE,
};
use forgeclaw::config_tree::{
    apply_env_overrides, deep_merge, layer_documents, parse_env_value, set_nested, ConfigEntry,
    ConfigValue,
};

fn to_doc(v: toml::Value) -> ConfigValue {
    match v {
        toml::Value::Table(t) => ConfigValue::Table(
            t.into_iter()
                .map(|(key, value)| ConfigEntry {
                    key,
                    value: to_doc(value),
                })
                .collect(),
        ),
        other => ConfigValue::Leaf(other),
    }
}

fn parse_doc(text: &str) -> ConfigValue {
    to_doc(toml::from_str(text).expect("parse toml"))
}

fn get<'a>(v: &'a ConfigValue, key: &str) -> Option<&'a ConfigValue> {
    match v {
        ConfigValue::Table(es) => es.iter().find(|e| e.key == key).map(|e| &e.value),
        ConfigValue::Leaf(_) => None,
    }
}

fn leaf(v: Option<&ConfigValue>) -> Option<&toml::Value> {
    match v {
        Some(ConfigValue::Leaf(x)) => Some(x),
        _ => None,
    }
}

fn empty_doc() -> ConfigValue {
    ConfigValue::Table(Vec::new())
}

fn vars(pairs: &[(&str, &str)]) -> Vec<(String, String)> {
    pairs
        .iter()
        .map(|(k, v)| ((*k).to_owned(), (*v).to_owned()))
        .collect()
}

fn group(name: &str, provider: &str, channel: &str) -> GroupReferences {
    GroupReferences {
        name: name.to_owned(),
        provider: provider.to_owned(),
        channel: channel.to_owned(),
        budget_pool: None,
        fallback_providers: Vec::new(),
    }
}

fn names(list: &[&str]) -> Vec<String> {
    list.iter().map(|s| (*s).to_owned()).collect()
}

#[test]
fn merge_disjoint_tables() {
    let base = parse_doc("[a]\nx = 1");
    let overlay = parse_doc("[b]\ny = 2");
    let merged = deep_merge(base, overlay);
    assert!(get(&merged, "a").is_some());
    assert!(get(&merged, "b").is_some());
}

#[test]
fn overlay_overrides_scalar() {
    let base = parse_doc("[a]\nx = 1");
    let overlay = parse_doc("[a]\nx = 2");
    let merged = deep_merge(base, overlay);
    let x = leaf(get(&merged, "a").and_then(|a| get(a, "x")))
        .and_then(toml::Value::as_integer)
        .expect("should have a.x");
    assert_eq!(x, 2);
}

#[test]
fn nested_tables_merge_recursively() {
    let base = parse_doc("[a]\nx = 1\n[a.nested]\nfoo = true");
    let overlay = parse_doc("[a]\ny = 2\n[a.nested]\nbar = false");
    let merged = deep_merge(base, overlay);
    let a = get(&merged, "a").expect("should have a");
    assert!(get(a, "x").is_some());
    assert!(get(a, "y").is_some());
    let nested = get(a, "nested").expect("should have nested");
    assert!(get(nested, "foo").is_some());
    assert!(get(nested, "bar").is_some());
}

#[test]
fn scalar_overlay_replaces_table() {
    let base = parse_doc("[a]\nx = 1");
    let overlay = parse_doc("a = 5");
    let merged = deep_merge(base, overlay);
    let a = leaf(get(&merged, "a")).and_then(toml::Value::as_integer);
    assert_eq!(a, Some(5));
}

#[test]
fn parse_env_value_integer() {
    let v = parse_env_value("42");
    assert_eq!(leaf(Some(&v)).and_then(toml::Value::as_integer), Some(42));
}

#[test]
fn parse_env_value_boolean() {
    let v = parse_env_value("true");
    assert_eq!(leaf(Some(&v)).and_then(toml::Value::as_bool), Some(true));
}

#[test]
fn parse_env_value_float() {
    let v = parse_env_value("3.14");
    assert!(leaf(Some(&v)).and_then(toml::Value::as_float).is_some());
}

#[test]
fn parse_env_value_plain_string_fallback() {
    let v = parse_env_value("hello world");
    assert_eq!(leaf(Some(&v)).and_then(toml::Value::as_str), Some("hello world"));
}

#[test]
fn parse_env_value_quoted_string() {
    let v = parse_env_value("\"quoted\"");
    assert_eq!(leaf(Some(&v)).and_then(toml::Value::as_str), Some("quoted"));
}

#[test]
fn set_nested_creates_missing_tables() {
    let mut doc = empty_doc();
    set_nested(
        &mut doc,
        &vec!["runtime".to_owned(), "max_concurrent_containers".to_owned()],
        parse_env_value("10"),
    );
    let n = leaf(get(&doc, "runtime").and_then(|r| get(r, "max_concurrent_containers")))
        .and_then(toml::Value::as_integer);
    assert_eq!(n, Some(10));
}

#[test]
fn set_nested_through_leaf_is_ignored() {
    let mut doc = parse_doc("runtime = 3");
    set_nested(
        &mut doc,
        &vec!["runtime".to_owned(), "x".to_owned()],
        parse_env_value("1"),
    );
    assert_eq!(
        leaf(get(&doc, "runtime")).and_then(toml::Value::as_integer),
        Some(3)
    );
}

#[test]
fn secret_env_vars_are_ignored() {
    let result = apply_env_overrides(
        empty_doc(),
        &vars(&[("FORGECLAW_ANTHROPIC_API_KEY", "sk-secret-123")]),
    );
    assert!(
        get(&result, "anthropic_api_key").is_none(),
        "secret env var should not be injected into config"
    );
}

#[test]
fn path_env_vars_are_applied() {
    let base = parse_doc(
        "[runtime]\ndata_dir = \"/original\"\nlog_level = \"info\"\nmax_concurrent_containers = 1\nwarm_pool_size = 0\n",
    );
    let result = apply_env_overrides(
        base,
        &vars(&[("FORGECLAW_RUNTIME__DATA_DIR", "\"/overridden\"")]),
    );
    let data_dir = leaf(get(&result, "runtime").and_then(|r| get(r, "data_dir")))
        .and_then(toml::Value::as_str);
    assert_eq!(
        data_dir,
        Some("/overridden"),
        "__ env var should override config value"
    );
}

#[test]
fn mixed_secret_and_config_vars() {
    let base = parse_doc(
        "[runtime]\ndata_dir = \"/tmp\"\nlog_level = \"info\"\nmax_concurrent_containers = 1\nwarm_pool_size = 0\n",
    );
    let result = apply_env_overrides(
        base,
        &vars(&[
            ("FORGECLAW_DISCORD_TOKEN", "secret-token"),
            ("FORGECLAW_RUNTIME__LOG_LEVEL", "\"debug\""),
            ("FORGECLAW_OPENAI_API_KEY", "sk-other-secret"),
        ]),
    );
    let log_level = leaf(get(&result, "runtime").and_then(|r| get(r, "log_level")))
        .and_then(toml::Value::as_str);
    assert_eq!(log_level, Some("debug"));
    assert!(get(&result, "discord_token").is_none());
    assert!(get(&result, "openai_api_key").is_none());
}

#[test]
fn env_override_preserves_map_key_casing() {
    let base = parse_doc("[providers.MyProvider]\ntype = \"anthropic\"\n");
    let result = apply_env_overrides(
        base,
        &vars(&[(
            "FORGECLAW_PROVIDERS__MyProvider__BASE_URL",
            "\"http://custom:8080\"",
        )]),
    );
    let providers = get(&result, "providers").expect("providers");
    let base_url = leaf(get(providers, "MyProvider").and_then(|p| get(p, "base_url")))
        .and_then(toml::Value::as_str);
    assert_eq!(
        base_url,
        Some("http://custom:8080"),
        "map key casing should be preserved"
    );
    assert!(get(providers, "myprovider").is_none());
}

#[test]
fn layered_precedence_env_over_project_over_user() {
    let user = parse_doc("[runtime]\nlog_level = \"warn\"\ndata_dir = \"/user\"\n");
    let project = parse_doc("[runtime]\nlog_level = \"info\"\n");
    let result = layer_documents(
        Some(user),
        Some(project),
        &vars(&[("FORGECLAW_RUNTIME__LOG_LEVEL", "\"debug\"")]),
    );
    let runtime = get(&result, "runtime").expect("runtime");
    assert_eq!(
        leaf(get(runtime, "log_level")).and_then(toml::Value::as_str),
        Some("debug")
    );
    assert_eq!(
        leaf(get(runtime, "data_dir")).and_then(toml::Value::as_str),
        Some("/user")
    );
}

#[test]
fn layering_without_files_is_empty_table() {
    let result = layer_documents(None, None, &Vec::new());
    assert!(matches!(result, ConfigValue::Table(ref es) if es.is_empty()));
}

#[test]
fn env_override_path_splits_and_normalizes() {
    assert_eq!(
        env_override_path("FORGECLAW_RUNTIME__LOG_LEVEL"),
        Some(vec!["runtime".to_owned(), "log_level".to_owned()])
    );
    assert_eq!(
        env_override_path("FORGECLAW_GROUPS__Main__MODEL"),
        Some(vec!["groups".to_owned(), "Main".to_owned(), "model".to_owned()])
    );
    assert_eq!(env_override_path("FORGECLAW_ANTHROPIC_API_KEY"), None);
    assert_eq!(env_override_path("OTHER_RUNTIME__LOG_LEVEL"), None);
}

#[test]
fn normalize_env_path_keeps_map_key_case() {
    let parts = names(&["PROVIDERS", "MyProvider", "BASE_URL"]);
    assert_eq!(
        normalize_env_path(&parts),
        names(&["providers", "MyProvider", "base_url"])
    );
    let parts = names(&["RUNTIME", "LOG_LEVEL"]);
    assert_eq!(normalize_env_path(&parts), names(&["runtime", "log_level"]));
}

#[test]
fn validate_catches_broken_provider_ref() {
    let refs = ConfigReferences {
        providers: Vec::new(),
        channels: names(&["discord"]),
        budget_pools: Vec::new(),
        groups: vec![group("main", "nonexistent", "discord")],
    };
    let errors = validate_references(&refs).expect_err("should fail validation");
    let msg = errors.join("; ");
    assert!(
        msg.contains("nonexistent"),
        "should mention broken provider ref: {msg}"
    );
    assert_eq!(
        errors,
        vec!["group 'main' references unknown provider 'nonexistent'".to_owned()]
    );
}

#[test]
fn validate_catches_broken_channel_ref() {
    let refs = ConfigReferences {
        providers: names(&["test"]),
        channels: names(&["discord"]),
        budget_pools: Vec::new(),
        groups: vec![group("main", "test", "nonexistent")],
    };
    let errors = validate_references(&refs).expect_err("should fail validation");
    assert!(errors.join("; ").contains("nonexistent"));
}

#[test]
fn validate_catches_empty_channels_with_groups() {
    let refs = ConfigReferences {
        providers: names(&["test"]),
        channels: Vec::new(),
        budget_pools: Vec::new(),
        groups: vec![group("main", "test", "discord")],
    };
    let errors = validate_references(&refs).expect_err("should fail validation");
    assert!(errors.join("; ").contains("at least one channel"));
    assert_eq!(errors.len(), 2);
}

#[test]
fn validate_catches_broken_budget_pool_ref() {
    let mut g = group("main", "test", "discord");
    g.budget_pool = Some("nonexistent".to_owned());
    let refs = ConfigReferences {
        providers: names(&["test"]),
        channels: names(&["discord"]),
        budget_pools: Vec::new(),
        groups: vec![g],
    };
    let errors = validate_references(&refs).expect_err("should fail validation");
    assert_eq!(
        errors,
        vec!["group 'main' references unknown budget_pool 'nonexistent'".to_owned()]
    );
}

#[test]
fn validate_catches_broken_fallback_provider_ref() {
    let mut g = group("main", "test", "discord");
    g.fallback_providers = names(&["test", "ghost"]);
    let refs = ConfigReferences {
        providers: names(&["test"]),
        channels: names(&["discord"]),
        budget_pools: Vec::new(),
        groups: vec![g],
    };
    let errors = validate_references(&refs).expect_err("should fail validation");
    assert_eq!(
        errors,
        vec!["group 'main' fallback[1] references unknown provider 'ghost'".to_owned()]
    );
}

#[test]
fn validate_passes_valid_config() {
    let refs = ConfigReferences {
        providers: names(&["test"]),
        channels: names(&["discord"]),
        budget_pools: names(&["pool"]),
        groups: vec![group("main", "test", "discord")],
    };
    assert!(validate_references(&refs).is_ok());
    let empty = ConfigReferences {
        providers: Vec::new(),
        channels: Vec::new(),
        budget_pools: Vec::new(),
        groups: Vec::new(),
    };
    assert!(validate_references(&empty).is_ok());
}

#[test]
fn config_size_guard() {
    assert!(config_size_problem("/etc/x.toml", MAX_CONFIG_SIZE).is_none());
    let msg = config_size_problem("/etc/x.toml", MAX_CONFIG_SIZE + 1).expect("too large");
    assert!(msg.contains("/etc/x.toml"));
    assert!(msg.contains("1048576"));
}
